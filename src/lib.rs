//! Typed messaging over TCP: the wire codec, the connection read pump, the
//! single-slot server registry and the retry policy, each stated and proved.

pub mod codec;
pub mod connection;
pub mod registry;
pub mod rest;
pub mod retry;
pub mod system;

pub use codec::{compress, decompress, deserialize, serialize, CodecError};
pub use connection::{handle_read, take_delivery, ConnectionError};
pub use registry::Registry;
pub use rest::Method;
pub use retry::{Attempt, Retry, RetryError, RetryRun, EXCEEDED_MESSAGE};
pub use system::{Memory, Sys, CPU};
