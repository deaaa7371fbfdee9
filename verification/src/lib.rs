//! Sans-I/O core of a file transfer tool: length-prefixed framing, the wire
//! messages, the per-file exchange of the client, the request loop of the
//! server and the bookkeeping of a pool of workers that each own one
//! connection. Nothing here touches a socket or a file; a driver performs the
//! requested operation and reports what happened.

pub mod child_paths;
pub mod error;
pub mod frame;
pub mod message;
pub mod path;
pub mod server;
pub mod session;
pub mod stream_handler;
pub mod thread_pool;

pub use child_paths::{ChildPaths, Probe, Visit};
pub use error::{Error, IoError, IoErrorKind, StripPrefixError};
pub use server::{DEFAULT_IP_ADDRESS, DEFAULT_PORT};
pub use message::{FileContent, FileMetadata, Message, Response, TrsferSetting};
