//! The small value types of the protocol: quality of service, packet type,
//! fixed header, protocol identifier and the decoder's errors.

use vstd::prelude::*;

verus! {

/// Largest multiplier of a remaining-length digit: the fourth digit weighs
/// `128 * 128 * 128`, and one step further is out of range.
pub const MULTIPLIER: usize = 0x80 * 0x80 * 0x80 * 0x80;

/// Why a packet could not be decoded.
#[derive(Clone, Copy, Debug, PartialEq, Eq, Structural)]
pub enum Error {
    /// The remaining length carries a continuation bit on its fourth byte.
    MalformedRemainingLength,
    /// A packet without a body of a type that must carry one.
    PayloadRequired,
    /// A structural rule of the packet is broken.
    IncorrectPacketFormat,
    /// The packet type is reserved, or no decoder exists for its body.
    UnsupportedPacketType,
    /// Quality-of-service value 3, in a header or in a requested level.
    InvalidQoS,
    /// The protocol name and level are not an accepted pair.
    InvalidProtocol,
    /// The bytes ended before a declared field was complete.
    Io,
    /// The bytes of a text field are not UTF-8.
    Utf8,
}

/// Delivery guarantee of a message.
#[derive(Clone, Copy, Debug, PartialEq, Eq, Structural)]
pub enum QoS {
    AtMostOnce,
    AtLeastOnce,
    ExactlyOnce,
}

impl QoS {
    /// The level that a two-bit value stands for; 3 stands for none.
    pub open spec fn spec_from_u8(byte: u8) -> Result<QoS, Error> {
        if byte == 0 {
            Ok(QoS::AtMostOnce)
        } else if byte == 1 {
            Ok(QoS::AtLeastOnce)
        } else if byte == 2 {
            Ok(QoS::ExactlyOnce)
        } else {
            Err(Error::InvalidQoS)
        }
    }

    /// The number that the level is written as.
    pub open spec fn spec_to_u8(self) -> u8 {
        match self {
            QoS::AtMostOnce => 0,
            QoS::AtLeastOnce => 1,
            QoS::ExactlyOnce => 2,
        }
    }

    /// The level that a number stands for.
    pub fn from_u8(byte: u8) -> (r: Result<QoS, Error>)
        ensures
            r == QoS::spec_from_u8(byte),
    {
        match byte {
            0 => Ok(QoS::AtMostOnce),
            1 => Ok(QoS::AtLeastOnce),
            2 => Ok(QoS::ExactlyOnce),
            _ => Err(Error::InvalidQoS),
        }
    }

    /// The number that the level is written as.
    pub fn to_u8(self) -> (r: u8)
        ensures
            r == self.spec_to_u8(),
    {
        match self {
            QoS::AtMostOnce => 0,
            QoS::AtLeastOnce => 1,
            QoS::ExactlyOnce => 2,
        }
    }
}

/// Writing a level as a number and reading it back gives the level.
pub proof fn qos_number_round_trip(qos: QoS)
    ensures
        QoS::spec_from_u8(qos.spec_to_u8()) == Ok::<QoS, Error>(qos),
{
}

/// The control packet types, in the order of their codes 1 to 14.
#[derive(Clone, Copy, Debug, PartialEq, Eq, Structural)]
pub enum PacketType {
    Connect,
    Connack,
    Publish,
    Puback,
    Pubrec,
    Pubrel,
    Pubcomp,
    Subscribe,
    Suback,
    Unsubscribe,
    Unsuback,
    Pingreq,
    Pingresp,
    Disconnect,
}

impl PacketType {
    /// The type that a four-bit code names; 0 and 15 are reserved.
    pub open spec fn spec_from_u8(code: u8) -> Result<PacketType, Error> {
        if code == 1 {
            Ok(PacketType::Connect)
        } else if code == 2 {
            Ok(PacketType::Connack)
        } else if code == 3 {
            Ok(PacketType::Publish)
        } else if code == 4 {
            Ok(PacketType::Puback)
        } else if code == 5 {
            Ok(PacketType::Pubrec)
        } else if code == 6 {
            Ok(PacketType::Pubrel)
        } else if code == 7 {
            Ok(PacketType::Pubcomp)
        } else if code == 8 {
            Ok(PacketType::Subscribe)
        } else if code == 9 {
            Ok(PacketType::Suback)
        } else if code == 10 {
            Ok(PacketType::Unsubscribe)
        } else if code == 11 {
            Ok(PacketType::Unsuback)
        } else if code == 12 {
            Ok(PacketType::Pingreq)
        } else if code == 13 {
            Ok(PacketType::Pingresp)
        } else if code == 14 {
            Ok(PacketType::Disconnect)
        } else {
            Err(Error::UnsupportedPacketType)
        }
    }

    /// The type named by the high four bits of a fixed-header byte.
    pub open spec fn spec_from_hd(hd: u8) -> Result<PacketType, Error> {
        PacketType::spec_from_u8(hd >> 4)
    }

    /// The type that a four-bit code names.
    pub fn from_u8(code: u8) -> (r: Result<PacketType, Error>)
        ensures
            r == PacketType::spec_from_u8(code),
    {
        match code {
            1 => Ok(PacketType::Connect),
            2 => Ok(PacketType::Connack),
            3 => Ok(PacketType::Publish),
            4 => Ok(PacketType::Puback),
            5 => Ok(PacketType::Pubrec),
            6 => Ok(PacketType::Pubrel),
            7 => Ok(PacketType::Pubcomp),
            8 => Ok(PacketType::Subscribe),
            9 => Ok(PacketType::Suback),
            10 => Ok(PacketType::Unsubscribe),
            11 => Ok(PacketType::Unsuback),
            12 => Ok(PacketType::Pingreq),
            13 => Ok(PacketType::Pingresp),
            14 => Ok(PacketType::Disconnect),
            _ => Err(Error::UnsupportedPacketType),
        }
    }

    /// The type named by the high four bits of a fixed-header byte.
    pub fn from_hd(hd: u8) -> (r: Result<PacketType, Error>)
        ensures
            r == PacketType::spec_from_hd(hd),
    {
        PacketType::from_u8(hd >> 4)
    }
}

/// The fixed header of a packet: its first byte, the type that the byte
/// names, and the number of body bytes that follow the header.
#[derive(Clone, Copy, Debug, PartialEq, Eq, Structural)]
pub struct Header {
    pub hd: u8,
    pub typ: PacketType,
    pub len: usize,
}

impl Header {
    /// The header that a first byte and a remaining length make.
    pub open spec fn spec_new(hd: u8, len: usize) -> Result<Header, Error> {
        match PacketType::spec_from_hd(hd) {
            Ok(typ) => Ok(Header { hd, typ, len }),
            Err(e) => Err(e),
        }
    }

    /// Bit 3: the packet is sent again.
    pub open spec fn spec_dup(self) -> bool {
        self.hd & 0b1000 != 0
    }

    /// Bit 0: the broker keeps the message.
    pub open spec fn spec_retain(self) -> bool {
        self.hd & 0b0001 != 0
    }

    /// Bits 2 and 1: the level, of which the pattern `11` names none.
    pub open spec fn spec_qos(self) -> Result<QoS, Error> {
        QoS::spec_from_u8((self.hd & 0b0110) >> 1)
    }

    /// Whether the low four bits are what the header's type allows: any
    /// for Publish, `0010` for Pubrel, Subscribe and Unsubscribe, zero for
    /// the rest.
    pub open spec fn spec_flags_valid(self) -> bool {
        match self.typ {
            PacketType::Publish => true,
            PacketType::Pubrel | PacketType::Subscribe | PacketType::Unsubscribe => self.hd & 0x0f
                == 0b0010,
            _ => self.hd & 0x0f == 0,
        }
    }

    /// The header of a first byte and a remaining length; a reserved type
    /// code is refused.
    pub fn new(hd: u8, len: usize) -> (r: Result<Header, Error>)
        ensures
            r == Header::spec_new(hd, len),
    {
        match PacketType::from_hd(hd) {
            Ok(typ) => Ok(Header { hd, typ, len }),
            Err(e) => Err(e),
        }
    }

    /// Bit 3: the packet is sent again.
    pub fn dup(&self) -> (r: bool)
        ensures
            r == self.spec_dup(),
    {
        (self.hd & 0b1000) != 0
    }

    /// Bit 0: the broker keeps the message.
    pub fn retain(&self) -> (r: bool)
        ensures
            r == self.spec_retain(),
    {
        (self.hd & 0b0001) != 0
    }

    /// The level in bits 2 and 1, or the error for the pattern `11`.
    pub fn qos(&self) -> (r: Result<QoS, Error>)
        ensures
            r == self.spec_qos(),
    {
        QoS::from_u8((self.hd & 0b0110) >> 1)
    }

    /// Whether the low four bits are what the header's type allows.
    pub fn flags_valid(&self) -> (r: bool)
        ensures
            r == self.spec_flags_valid(),
    {
        match self.typ {
            PacketType::Publish => true,
            PacketType::Pubrel | PacketType::Subscribe | PacketType::Unsubscribe => (self.hd & 0x0f)
                == 0b0010,
            _ => (self.hd & 0x0f) == 0,
        }
    }
}

/// The number that ties a packet to its acknowledgement.
#[derive(Clone, Copy, Debug, PartialEq, Eq, Structural)]
pub struct PacketIdentifier(pub u16);

/// Protocol name and level of a connection request.
#[derive(Clone, Copy, Debug, PartialEq, Eq, Structural)]
pub enum Protocol {
    MQIsdp(u8),
    MQTT(u8),
}

impl Protocol {
    /// The accepted pairs are ("MQIsdp", 3) and ("MQTT", 4).
    pub open spec fn spec_new(name: Seq<char>, level: u8) -> Result<Protocol, Error> {
        if name == "MQIsdp"@ && level == 3 {
            Ok(Protocol::MQIsdp(3))
        } else if name == "MQTT"@ && level == 4 {
            Ok(Protocol::MQTT(4))
        } else {
            Err(Error::InvalidProtocol)
        }
    }

    /// The protocol level.
    pub open spec fn spec_level(self) -> u8 {
        match self {
            Protocol::MQIsdp(level) => level,
            Protocol::MQTT(level) => level,
        }
    }

    /// The protocol of a name and a level, if they are an accepted pair.
    pub fn new(name: String, level: u8) -> (r: Result<Protocol, Error>)
        ensures
            r == Protocol::spec_new(name@, level),
    {
        let mqisdp = "MQIsdp".to_owned();
        let mqtt = "MQTT".to_owned();
        if name == mqisdp && level == 3 {
            Ok(Protocol::MQIsdp(3))
        } else if name == mqtt && level == 4 {
            Ok(Protocol::MQTT(4))
        } else {
            Err(Error::InvalidProtocol)
        }
    }

    /// The protocol level.
    pub fn level(&self) -> (r: u8)
        ensures
            r == self.spec_level(),
    {
        match self {
            Protocol::MQIsdp(level) => *level,
            Protocol::MQTT(level) => *level,
        }
    }
}

/// The message that a client asks the broker to publish if the connection
/// is lost.
#[derive(Clone, Debug, PartialEq, Eq)]
pub struct LastWill {
    pub topic: String,
    pub message: String,
    pub qos: QoS,
    pub retain: bool,
}

/// A last will with its texts as sequences of characters.
pub struct LastWillView {
    pub topic: Seq<char>,
    pub message: Seq<char>,
    pub qos: QoS,
    pub retain: bool,
}

impl View for LastWill {
    type V = LastWillView;

    open spec fn view(&self) -> LastWillView {
        LastWillView {
            topic: self.topic@,
            message: self.message@,
            qos: self.qos,
            retain: self.retain,
        }
    }
}

} // verus!
