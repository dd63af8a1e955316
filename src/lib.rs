//! Download, verify and unpack a compressed release artifact, driven one
//! step at a time by an outside event loop.
pub mod archive;
pub mod buffer;
pub mod checksum;
pub mod digest;
pub mod error;
pub mod pipeline;
pub mod registry;
pub mod release;
pub mod widget;
