//! The wire grammar as specification functions. Each takes the bytes of a
//! source and the index at which a field starts, and gives the field's value
//! with the index just behind it, or the error that decoding ends with.

use crate::packet::{
    ConnectView, PacketView, PublishView, SubscribeView, UnsubscribeView,
};
use crate::types::{Error, Header, LastWillView, PacketIdentifier, PacketType, Protocol, QoS};
use vstd::prelude::*;
use vstd::utf8::{decode_utf8, valid_utf8};

verus! {

/// The 16-bit number written big-endian as `hi`, `lo`.
pub open spec fn spec_be_u16(hi: u8, lo: u8) -> u16 {
    (hi as int * 256 + lo as int) as u16
}

/// One byte.
pub open spec fn spec_u8(s: Seq<u8>, at: int) -> Result<(u8, int), Error> {
    if 0 <= at < s.len() {
        Ok((s[at], at + 1))
    } else {
        Err(Error::Io)
    }
}

/// Two bytes, big-endian.
pub open spec fn spec_u16(s: Seq<u8>, at: int) -> Result<(u16, int), Error> {
    if 0 <= at && at + 2 <= s.len() {
        Ok((spec_be_u16(s[at], s[at + 1]), at + 2))
    } else {
        Err(Error::Io)
    }
}

/// `len` bytes as they stand.
pub open spec fn spec_bytes(s: Seq<u8>, at: int, len: int) -> Result<(Seq<u8>, int), Error> {
    if 0 <= at && 0 <= len && at + len <= s.len() {
        Ok((s.subrange(at, at + len), at + len))
    } else {
        Err(Error::Io)
    }
}

/// A text field: a 16-bit length, then that many bytes of UTF-8.
pub open spec fn spec_string(s: Seq<u8>, at: int) -> Result<(Seq<char>, int), Error> {
    match spec_u16(s, at) {
        Err(e) => Err(e),
        Ok((len, start)) => match spec_bytes(s, start, len as int) {
            Err(e) => Err(e),
            Ok((text, end)) => if valid_utf8(text) {
                Ok((decode_utf8(text), end))
            } else {
                Err(Error::Utf8)
            },
        },
    }
}

/// A text field that is there only if `present`.
pub open spec fn spec_optional_string(s: Seq<u8>, at: int, present: bool) -> Result<
    (Option<Seq<char>>, int),
    Error,
> {
    if present {
        match spec_string(s, at) {
            Err(e) => Err(e),
            Ok((text, end)) => Ok((Some(text), end)),
        }
    } else {
        Ok((None, at))
    }
}

/// The low seven bits of a byte: one digit of a remaining length.
pub open spec fn digit(byte: u8) -> nat {
    (byte & 0x7f) as nat
}

/// Whether a byte of a remaining length announces another one.
pub open spec fn continues(byte: u8) -> bool {
    byte & 0x80 != 0
}

/// 128 to the power `n`.
pub open spec fn weight(n: nat) -> nat
    decreases n,
{
    if n == 0 {
        1
    } else {
        128 * weight((n - 1) as nat)
    }
}

/// The number that the first `n` digits from `at` make, the lowest first.
pub open spec fn digits_value(s: Seq<u8>, at: int, n: nat) -> nat
    decreases n,
{
    if n == 0 {
        0
    } else {
        digits_value(s, at, (n - 1) as nat) + digit(s[at + n - 1]) * weight((n - 1) as nat)
    }
}

/// How many bytes the remaining length at `at` takes, given that the `i`
/// before are continued: it ends with the first byte whose high bit is
/// clear, which must be among the first four.
pub open spec fn length_size(s: Seq<u8>, at: int, i: nat) -> Result<nat, Error>
    decreases 4 - i,
{
    if i >= 4 {
        Err(Error::MalformedRemainingLength)
    } else if !(0 <= at && at + i < s.len()) {
        Err(Error::Io)
    } else if !continues(s[at + i]) {
        Ok(i + 1)
    } else {
        length_size(s, at, i + 1)
    }
}

/// The remaining length: one to four digits in base 128, the lowest first.
pub open spec fn spec_remaining_length(s: Seq<u8>, at: int) -> Result<(nat, int), Error> {
    match length_size(s, at, 0) {
        Err(e) => Err(e),
        Ok(n) => Ok((digits_value(s, at, n), at + n)),
    }
}

/// The bytes that a view bounded to `len` bytes from `at` shows: `len` of
/// them, or all from `at` on where they are fewer.
pub open spec fn spec_bounded(s: Seq<u8>, at: int, len: int) -> Seq<u8> {
    if at + len <= s.len() {
        s.subrange(at, at + len)
    } else {
        s.subrange(at, s.len() as int)
    }
}

/// The last will of a connection request with the given flags: absent when
/// the will flag is clear, and then the will's level and retain bits must be
/// clear too; else a topic, a message, and the level in the flags.
pub open spec fn spec_last_will(s: Seq<u8>, at: int, flags: u8) -> Result<
    (Option<LastWillView>, int),
    Error,
> {
    if flags & 0b0000_0100 == 0 {
        if flags & 0b0011_1000 != 0 {
            Err(Error::IncorrectPacketFormat)
        } else {
            Ok((None, at))
        }
    } else {
        match spec_string(s, at) {
            Err(e) => Err(e),
            Ok((topic, message_at)) => match spec_string(s, message_at) {
                Err(e) => Err(e),
                Ok((message, end)) => match QoS::spec_from_u8((flags & 0b0001_1000) >> 3) {
                    Err(e) => Err(e),
                    Ok(qos) => Ok(
                        (
                            Some(
                                LastWillView {
                                    topic,
                                    message,
                                    qos,
                                    retain: flags & 0b0010_0000 != 0,
                                },
                            ),
                            end,
                        ),
                    ),
                },
            },
        }
    }
}

/// What follows the client identifier of a connection request: the last
/// will, the user name and the password, each as the flags announce it.
pub open spec fn spec_connect_tail(
    s: Seq<u8>,
    at: int,
    flags: u8,
) -> Result<(Option<LastWillView>, Option<Seq<char>>, Option<Seq<char>>, int), Error> {
    match spec_last_will(s, at, flags) {
        Err(e) => Err(e),
        Ok((last_will, name_at)) => match spec_optional_string(
            s,
            name_at,
            flags & 0b1000_0000 != 0,
        ) {
            Err(e) => Err(e),
            Ok((username, password_at)) => match spec_optional_string(
                s,
                password_at,
                flags & 0b0100_0000 != 0,
            ) {
                Err(e) => Err(e),
                Ok((password, end)) => Ok((last_will, username, password, end)),
            },
        },
    }
}

/// The protocol of a connection request: a name and a level that form an
/// accepted pair.
pub open spec fn spec_protocol(s: Seq<u8>, at: int) -> Result<(Protocol, int), Error> {
    match spec_string(s, at) {
        Err(e) => Err(e),
        Ok((name, level_at)) => match spec_u8(s, level_at) {
            Err(e) => Err(e),
            Ok((level, end)) => match Protocol::spec_new(name, level) {
                Err(e) => Err(e),
                Ok(protocol) => Ok((protocol, end)),
            },
        },
    }
}

/// The body of a connection request.
pub open spec fn spec_connect(s: Seq<u8>, at: int) -> Result<(ConnectView, int), Error> {
    match spec_protocol(s, at) {
        Err(e) => Err(e),
        Ok((protocol, flags_at)) => match spec_u8(s, flags_at) {
            Err(e) => Err(e),
            Ok((flags, keep_alive_at)) => match spec_u16(s, keep_alive_at) {
                Err(e) => Err(e),
                Ok((keep_alive, id_at)) => match spec_string(s, id_at) {
                    Err(e) => Err(e),
                    Ok((client_id, tail_at)) => match spec_connect_tail(s, tail_at, flags) {
                        Err(e) => Err(e),
                        Ok((last_will, username, password, end)) => Ok(
                            (
                                ConnectView {
                                    protocol,
                                    keep_alive,
                                    client_id,
                                    clean_session: flags & 0b0000_0010 != 0,
                                    last_will,
                                    username,
                                    password,
                                },
                                end,
                            ),
                        ),
                    },
                },
            },
        }
    }
}

/// The packet identifier of a published message: there only above the
/// lowest level.
pub open spec fn spec_publish_id(s: Seq<u8>, at: int, qos: QoS) -> Result<
    (Option<PacketIdentifier>, int),
    Error,
> {
    if qos == QoS::AtMostOnce {
        Ok((None, at))
    } else {
        match spec_u16(s, at) {
            Err(e) => Err(e),
            Ok((id, end)) => Ok((Some(PacketIdentifier(id)), end)),
        }
    }
}

/// The body of a published message: a topic name, the packet identifier
/// where the header's level asks for one, and as payload what is left of
/// the header's remaining length.
pub open spec fn spec_publish(s: Seq<u8>, at: int, header: Header) -> Result<
    (PublishView, int),
    Error,
> {
    match spec_string(s, at) {
        Err(e) => Err(e),
        Ok((topic_name, id_at)) => match header.spec_qos() {
            Err(e) => Err(e),
            Ok(qos) => match spec_publish_id(s, id_at, qos) {
                Err(e) => Err(e),
                Ok((pid, payload_at)) => if header.len < payload_at - at {
                    Err(Error::IncorrectPacketFormat)
                } else {
                    match spec_bytes(s, payload_at, header.len - (payload_at - at)) {
                        Err(e) => Err(e),
                        Ok((payload, end)) => Ok(
                            (
                                PublishView {
                                    dup: header.spec_dup(),
                                    qos,
                                    retain: header.spec_retain(),
                                    topic_name,
                                    pid,
                                    payload,
                                },
                                end,
                            ),
                        ),
                    }
                },
            },
        },
    }
}

/// `items` put before the items of a decoded list.
pub open spec fn preceded<T>(items: Seq<T>, list: Result<(Seq<T>, int), Error>) -> Result<
    (Seq<T>, int),
    Error,
> {
    match list {
        Err(e) => Err(e),
        Ok((rest, end)) => Ok((items + rest, end)),
    }
}

/// One entry of a subscription request: a topic filter and a requested
/// level. It must fit in the `budget` of bytes that the body has left.
pub open spec fn spec_subscription(s: Seq<u8>, at: int, budget: nat) -> Result<
    ((Seq<char>, QoS), int),
    Error,
> {
    match spec_string(s, at) {
        Err(e) => Err(e),
        Ok((filter, qos_at)) => match spec_u8(s, qos_at) {
            Err(e) => Err(e),
            Ok((level, end)) => if end - at > budget {
                Err(Error::IncorrectPacketFormat)
            } else {
                match QoS::spec_from_u8(level) {
                    Err(e) => Err(e),
                    Ok(qos) => Ok(((filter, qos), end)),
                }
            },
        },
    }
}

/// The entries of a subscription request that fill exactly `budget` bytes.
pub open spec fn spec_subscriptions(s: Seq<u8>, at: int, budget: nat) -> Result<
    (Seq<(Seq<char>, QoS)>, int),
    Error,
>
    decreases budget,
{
    if budget == 0 {
        Ok((Seq::empty(), at))
    } else {
        match spec_subscription(s, at, budget) {
            Err(e) => Err(e),
            Ok((entry, end)) => preceded(
                seq![entry],
                spec_subscriptions(s, end, (budget - (end - at)) as nat),
            ),
        }
    }
}

/// The body of a subscription request: a packet identifier, then entries
/// up to the header's remaining length.
pub open spec fn spec_subscribe(s: Seq<u8>, at: int, header: Header) -> Result<
    (SubscribeView, int),
    Error,
> {
    match spec_u16(s, at) {
        Err(e) => Err(e),
        Ok((id, list_at)) => if header.len < 2 {
            Err(Error::IncorrectPacketFormat)
        } else {
            match spec_subscriptions(s, list_at, (header.len - 2) as nat) {
                Err(e) => Err(e),
                Ok((topics, end)) => Ok(
                    (SubscribeView { pid: PacketIdentifier(id), topics }, end),
                ),
            }
        },
    }
}

/// One topic filter of a request to unsubscribe. It must fit in the
/// `budget` of bytes that the body has left.
pub open spec fn spec_filter(s: Seq<u8>, at: int, budget: nat) -> Result<(Seq<char>, int), Error> {
    match spec_string(s, at) {
        Err(e) => Err(e),
        Ok((filter, end)) => if end - at > budget {
            Err(Error::IncorrectPacketFormat)
        } else {
            Ok((filter, end))
        },
    }
}

/// The topic filters that fill exactly `budget` bytes.
pub open spec fn spec_filters(s: Seq<u8>, at: int, budget: nat) -> Result<
    (Seq<Seq<char>>, int),
    Error,
>
    decreases budget,
{
    if budget == 0 {
        Ok((Seq::empty(), at))
    } else {
        match spec_filter(s, at, budget) {
            Err(e) => Err(e),
            Ok((filter, end)) => preceded(
                seq![filter],
                spec_filters(s, end, (budget - (end - at)) as nat),
            ),
        }
    }
}

/// The body of a request to unsubscribe: a packet identifier, then topic
/// filters up to the header's remaining length.
pub open spec fn spec_unsubscribe(s: Seq<u8>, at: int, header: Header) -> Result<
    (UnsubscribeView, int),
    Error,
> {
    match spec_u16(s, at) {
        Err(e) => Err(e),
        Ok((id, list_at)) => if header.len < 2 {
            Err(Error::IncorrectPacketFormat)
        } else {
            match spec_filters(s, list_at, (header.len - 2) as nat) {
                Err(e) => Err(e),
                Ok((topics, end)) => Ok(
                    (UnsubscribeView { pid: PacketIdentifier(id), topics }, end),
                ),
            }
        },
    }
}

/// The packet that a body makes under its header, and the index in the
/// body behind what was decoded. `body` is the bounded view: the bytes that
/// the header declares, or fewer where they ran out.
pub open spec fn spec_body(body: Seq<u8>, header: Header) -> Result<(PacketView, int), Error> {
    match header.typ {
        PacketType::Connect => match spec_connect(body, 0) {
            Err(e) => Err(e),
            Ok((connect, end)) => Ok((PacketView::Connect(connect), end)),
        },
        PacketType::Publish => match spec_publish(body, 0, header) {
            Err(e) => Err(e),
            Ok((publish, end)) => Ok((PacketView::Publish(publish), end)),
        },
        PacketType::Subscribe => match spec_subscribe(body, 0, header) {
            Err(e) => Err(e),
            Ok((subscribe, end)) => Ok((PacketView::Subscribe(subscribe), end)),
        },
        PacketType::Unsubscribe => match spec_unsubscribe(body, 0, header) {
            Err(e) => Err(e),
            Ok((unsubscribe, end)) => Ok((PacketView::Unsubscribe(unsubscribe), end)),
        },
        PacketType::Pingreq | PacketType::Pingresp => Err(Error::IncorrectPacketFormat),
        _ => Err(Error::UnsupportedPacketType),
    }
}

/// The packet without a body that a header stands for: only the two pings
/// have none.
pub open spec fn spec_empty_packet(header: Header) -> Result<PacketView, Error> {
    match header.typ {
        PacketType::Pingreq => if header.spec_flags_valid() {
            Ok(PacketView::Pingreq)
        } else {
            Err(Error::IncorrectPacketFormat)
        },
        PacketType::Pingresp => if header.spec_flags_valid() {
            Ok(PacketView::Pingresp)
        } else {
            Err(Error::IncorrectPacketFormat)
        },
        _ => Err(Error::PayloadRequired),
    }
}

/// A whole packet: the fixed-header byte, the remaining length, and a body
/// of exactly that many bytes.
pub open spec fn spec_packet(s: Seq<u8>, at: int) -> Result<(PacketView, int), Error> {
    match spec_u8(s, at) {
        Err(e) => Err(e),
        Ok((hd, len_at)) => match spec_remaining_length(s, len_at) {
            Err(e) => Err(e),
            Ok((len, body_at)) => match Header::spec_new(hd, len as usize) {
                Err(e) => Err(e),
                Ok(header) => if len == 0 {
                    match spec_empty_packet(header) {
                        Err(e) => Err(e),
                        Ok(packet) => Ok((packet, body_at)),
                    }
                } else if !header.spec_flags_valid() {
                    Err(Error::IncorrectPacketFormat)
                } else {
                    match spec_body(spec_bounded(s, body_at, len as int), header) {
                        Err(e) => Err(e),
                        Ok((packet, _)) => if body_at + len > s.len() {
                            Err(Error::Io)
                        } else {
                            Ok((packet, body_at + len))
                        },
                    }
                },
            },
        },
    }
}

/// How many more bytes a reader must fetch before the packet at `at` can
/// be decoded or refused: one while the fixed header is incomplete, the
/// missing part of the body once a well-formed header declares it, and
/// none when all is there or the header is refused as it stands.
pub open spec fn spec_wanted(s: Seq<u8>, at: int) -> nat {
    match spec_u8(s, at) {
        Err(_) => 1,
        Ok((hd, len_at)) => match spec_remaining_length(s, len_at) {
            Err(Error::Io) => 1,
            Err(_) => 0,
            Ok((len, body_at)) => match Header::spec_new(hd, len as usize) {
                Err(_) => 0,
                Ok(header) => if !header.spec_flags_valid() {
                    0
                } else if body_at + len > s.len() {
                    (body_at + len - s.len()) as nat
                } else {
                    0
                },
            },
        },
    }
}

} // verus!
