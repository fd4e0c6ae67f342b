//! Verified core of a relay that exposes shares of a Filen drive over
//! several protocols (web, WebDAV, S3, FTP, SFTP).

pub mod server_type;
pub mod text;
pub mod ids;
pub mod share;
pub mod once_lock;
pub mod path_walk;
pub mod root_check;
pub mod access;
pub mod startup;
pub mod deploy;
pub mod server;
pub mod api;
