//! The GoDaddy extension: a static tool surface over the GoDaddy REST APIs.

pub mod api;
pub mod laws;
pub mod operation_laws;
pub mod server;
pub mod wire_laws;
