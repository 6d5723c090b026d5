//! A single-shot HTTP download, told as decisions: the library says what to
//! do next and what to report, the caller does the I/O.

pub mod body;
pub mod builder;
pub mod chunk;
pub mod decoder;
pub mod dns;
pub mod download;
pub mod error;
pub mod headers;
pub mod progress;
pub mod request;
pub mod trace;

pub use body::Body;
pub use builder::Downloader;
pub use dns::{ResolverService, SocketAddrs};
pub use download::download;
pub use error::Error;
pub use progress::Progress;
