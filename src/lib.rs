//! Static file serving: option flags, request-path resolution, response
//! metadata for named files, and ranked route dispatch with forwarding.
pub mod content_type;
pub mod encoding;
pub mod laws;
pub mod named_file;
pub mod options;
pub mod path;
pub mod route;
pub mod server;
