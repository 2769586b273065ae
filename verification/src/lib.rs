//! Core logic of a small file-sharing service: filename sanitisation,
//! collision-safe naming, an in-memory registry of stored files, and the
//! size accounting of streamed uploads.

pub mod laws;
pub mod naming;
pub mod record;
pub mod registry;
pub mod sanitize;
pub mod trusted;
pub mod upload;
