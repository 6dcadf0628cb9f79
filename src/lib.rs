//! Routing and forwarding decisions of a configurable reverse proxy, with
//! their contracts: token key derivation, request ids, proxy-pass targets,
//! location matching, endpoint types, client certificate hand-off and the
//! file-over-SSH content source.

pub mod token_key;

pub mod app_context;
pub mod text;
pub mod proxy_pass_to;
pub mod file_source;
pub mod end_point;
pub mod routing;
pub mod content_type;
pub mod ssh_file;
pub mod client_certs;
pub mod engine;
pub mod ssh_settings;
