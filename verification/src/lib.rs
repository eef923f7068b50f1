//! Media ingestion and normalization pipeline for an admin catalog service,
//! together with the service's data model.
//!
//! The heart of the crate is the upload pipeline: it takes a single uploaded
//! file from an untrusted multipart request, resolves an authoritative
//! content type, enforces size and type policy, then either stores the bytes
//! unmodified (SVG, GIF) or decodes, conditionally resizes and re-encodes
//! them as WEBP, and finally assigns a collision-resistant filename and a
//! public URL.

pub mod auth;
pub mod guard;
pub mod json_codec;
pub mod media_type;
pub mod models;
pub mod pipeline;
pub mod storage;
pub mod text;
pub mod transcode;
