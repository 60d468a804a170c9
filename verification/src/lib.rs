//! Decoding of MQTT 3.1 / 3.1.1 control packets from bytes, with the wire
//! grammar stated as specification functions and every decoder proved
//! against it.

pub mod laws;
pub mod mock;
pub mod packet;
pub mod read;
pub mod source;
pub mod types;
pub mod wire;

pub use mock::MockStream;
pub use packet::{Connack, Connect, Packet, Publish, Subscribe, Unsubscribe};
pub use source::ByteSource;
pub use types::{Error, Header, LastWill, PacketIdentifier, PacketType, Protocol, QoS, MULTIPLIER};
