//! The ytdownloader extension: local video archiving over a bundled yt-dlp
//! toolkit.

pub mod digest;
pub mod laws;
pub mod listing;
pub mod operation_laws;
pub mod output_laws;
pub mod server;
pub mod toolkit;
