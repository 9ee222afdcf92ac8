//! Request encoder, response parser and workload models for the binary
//! protocol of a key-value cache, as used by a synthetic load generator.
pub mod header;
pub mod key;
pub mod protocol;
pub mod wire;
pub mod workload;

pub use header::{Opcode, PacketHeader, ResponseError, ResponseStatus};
pub use key::write_key;
pub use protocol::{MemcachedProtocol, Packet, Transport};
pub use workload::{KeySizeMemory, Op, Workload};
