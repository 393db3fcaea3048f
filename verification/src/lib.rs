//! Core library of a small desktop file manager.
//!
//! The heart of the crate is [`job`]: a bounded-concurrency job executor
//! modelled as a verified state machine (queue, permit counter, lifecycle
//! flag, dispatch history), with proofs of its ordering, admission and
//! lifecycle properties.  Around it stand the verified data rules of the
//! application: path-string handling, file classification and metadata
//! records, zip-listing completion, a small key-value record type with its
//! SQL, and an optional-value container.
//!
//! All file, archive, database and scheduler I/O lives outside this crate;
//! the functions here compute over plain values alone.

pub mod dirs;
pub mod errors;
pub mod exts;
pub mod fileinfo;
pub mod images;
pub mod job;
pub mod lock;
pub mod pathstr;
pub mod sample_data;
pub mod timestamp;
pub mod zip;

pub use exts::is_image;
pub use exts::is_movie;
pub use exts::is_zip;
pub use exts::str_eq;
