//! Credential-free access to an object store.
//!
//! Two pieces that meet only in the storage backend:
//!
//! - the gateway ([`s3`]) mints presigned grants, URLs that let their bearer
//!   upload or download one object for 24 hours, and writes objects itself.
//!   It decides and never performs: each operation is an [`exchange`] that
//!   says what to ask of the backend next and takes in what came of it;
//! - the decoder ([`decoder`]) reads the notifications that the backend
//!   sends of objects that have landed, from a structured [`payload`], and
//!   writes them back.

pub mod common_types;
pub mod decoder;
pub mod error;
pub mod exchange;
pub mod payload;
pub mod presigning;
pub mod s3;
pub mod s3_types;
pub mod text;
