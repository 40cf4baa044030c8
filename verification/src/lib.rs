//! Verified core of a small video-upload web service.
//!
//! The crate models the upload content store and the bundled static assets as
//! in-memory key-value stores, generates collision-free names for uploaded
//! videos, and builds the HTTP responses for the static, video and upload
//! routes. The surrounding process (routing, sockets, the filesystem) lives
//! outside this crate and exchanges plain values with it.

pub mod bundle;
pub mod handlers;
pub mod response;
pub mod mime;
pub mod names;
pub mod paths;
pub mod store;
mod table;
