//! Synchronisation to, and header decoding of, MPEG transport stream packets.
//!
//! A transport stream is a sequence of 188-byte packets, each opened by a
//! sync byte. [`TransportPacket::new`] decodes one aligned packet;
//! [`StreamState`] holds the decisions of an iteration over a byte source
//! that the caller drives; [`PacketStream`] is that iteration over bytes in
//! memory.

pub mod adaptation;
pub mod bits;
pub mod cursor;
pub mod header;
pub mod machine;
pub mod packet;
pub mod stream;
pub mod sync;
pub mod text;

pub use adaptation::{AdaptationField, AdaptationFieldHeader};
pub use cursor::ByteCursor;
pub use header::TransportPacketHeader;
pub use machine::{DecodePolicy, Event, Request, Step, StreamError, StreamState, SyncProgress};
pub use packet::{DecodeError, TransportPacket};
pub use stream::PacketStream;
pub use sync::{IoFailure, SyncError, PACKET_SIZE, SYNC_BYTE};
