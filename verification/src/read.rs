//! The packet decoders: the four bodies, and the entry point that reads a
//! fixed header and hands the bounded body to the decoder of its type.

use crate::packet::{
    filters, optional_text, subscriptions, Connack, Connect, Packet, Publish, Subscribe,
    Unsubscribe,
};
use crate::source::ByteSource;
use crate::types::{Error, Header, LastWill, PacketIdentifier, PacketType, Protocol, QoS};
use crate::wire::{
    preceded, spec_body, spec_connect, spec_empty_packet, spec_filters, spec_last_will,
    spec_optional_string, spec_packet, spec_protocol, spec_publish, spec_subscribe,
    spec_subscriptions, spec_u16, spec_unsubscribe, spec_wanted,
};
use std::sync::Arc;
use vstd::prelude::*;

verus! {

/// The packet that a header without a body stands for: a ping with
/// well-formed flags. Any other type must carry a payload.
pub fn empty_packet(header: Header) -> (r: Result<Packet, Error>)
    ensures
        match spec_empty_packet(header) {
            Ok(v) => r.is_ok() && r.unwrap()@ == v,
            Err(e) => r == Err::<Packet, Error>(e),
        },
{
    match header.typ {
        PacketType::Pingreq => if header.flags_valid() {
            Ok(Packet::Pingreq)
        } else {
            Err(Error::IncorrectPacketFormat)
        },
        PacketType::Pingresp => if header.flags_valid() {
            Ok(Packet::Pingresp)
        } else {
            Err(Error::IncorrectPacketFormat)
        },
        _ => Err(Error::PayloadRequired),
    }
}

impl ByteSource {
    /// The text field at `at` if `present`, and the index behind it.
    pub fn optional_string_at(&self, at: usize, present: bool) -> (r: Result<
        (Option<String>, usize),
        Error,
    >)
        ensures
            match spec_optional_string(self.bytes(), at as int, present) {
                Ok((v, end)) => r.is_ok() && optional_text(r.unwrap().0) == v && r.unwrap().1
                    == end,
                Err(e) => r == Err::<(Option<String>, usize), Error>(e),
            },
    {
        if present {
            let (text, end) = self.string_at(at)?;
            Ok((Some(text), end))
        } else {
            Ok((None, at))
        }
    }

    /// The last will at `at` of a connection request with the given flags,
    /// and the index behind it.
    pub fn last_will_at(&self, at: usize, flags: u8) -> (r: Result<
        (Option<LastWill>, usize),
        Error,
    >)
        ensures
            match spec_last_will(self.bytes(), at as int, flags) {
                Ok((v, end)) => r.is_ok() && r.unwrap().1 == end && match r.unwrap().0 {
                    Some(will) => v == Some(will@),
                    None => v.is_none(),
                },
                Err(e) => r == Err::<(Option<LastWill>, usize), Error>(e),
            },
    {
        if (flags & 0b0000_0100) == 0 {
            if (flags & 0b0011_1000) != 0 {
                return Err(Error::IncorrectPacketFormat);
            }
            Ok((None, at))
        } else {
            let (topic, message_at) = self.string_at(at)?;
            let (message, end) = self.string_at(message_at)?;
            let qos = QoS::from_u8((flags & 0b0001_1000) >> 3)?;
            let retain = (flags & 0b0010_0000) != 0;
            Ok((Some(LastWill { topic, message, qos, retain }), end))
        }
    }

    /// The protocol name and level at `at`, and the index behind them.
    pub fn protocol_at(&self, at: usize) -> (r: Result<(Protocol, usize), Error>)
        ensures
            match spec_protocol(self.bytes(), at as int) {
                Ok((v, end)) => r.is_ok() && r.unwrap().0 == v && r.unwrap().1 == end,
                Err(e) => r == Err::<(Protocol, usize), Error>(e),
            },
    {
        let (name, level_at) = self.string_at(at)?;
        let (level, end) = self.u8_at(level_at)?;
        let protocol = Protocol::new(name, level)?;
        Ok((protocol, end))
    }

    /// Reads the body of a connection request.
    pub fn read_connect(&mut self, header: Header) -> (r: Result<Arc<Connect>, Error>)
        requires
            old(self).wf(),
        ensures
            match spec_connect(old(self).bytes(), old(self).position()) {
                Ok((v, end)) => r.is_ok() && r.unwrap()@ == v && final(self).advanced_to(
                    old(self),
                    end,
                ),
                Err(e) => r == Err::<Arc<Connect>, Error>(e) && *final(self) == *old(self),
            },
    {
        let start = self.pos();
        let (protocol, flags_at) = self.protocol_at(start)?;
        let (connect_flags, keep_alive_at) = self.u8_at(flags_at)?;
        let (keep_alive, id_at) = self.u16_at(keep_alive_at)?;
        let (client_id, will_at) = self.string_at(id_at)?;
        let (last_will, name_at) = self.last_will_at(will_at, connect_flags)?;
        let (username, password_at) = self.optional_string_at(
            name_at,
            (connect_flags & 0b1000_0000) != 0,
        )?;
        let (password, end) = self.optional_string_at(
            password_at,
            (connect_flags & 0b0100_0000) != 0,
        )?;
        let clean_session = (connect_flags & 0b0000_0010) != 0;
        self.seek(end);
        Ok(
            Arc::new(
                Connect {
                    protocol,
                    keep_alive,
                    client_id,
                    clean_session,
                    last_will,
                    username,
                    password,
                },
            ),
        )
    }

    /// No decoder exists for the answer to a connection request.
    pub fn read_connack(&mut self, header: Header) -> (r: Result<Connack, Error>)
        ensures
            r == Err::<Connack, Error>(Error::UnsupportedPacketType),
            *final(self) == *old(self),
    {
        Err(Error::UnsupportedPacketType)
    }

    /// Reads the body of a published message.
    pub fn read_publish(&mut self, header: Header) -> (r: Result<Arc<Publish>, Error>)
        requires
            old(self).wf(),
        ensures
            match spec_publish(old(self).bytes(), old(self).position(), header) {
                Ok((v, end)) => r.is_ok() && r.unwrap()@ == v && final(self).advanced_to(
                    old(self),
                    end,
                ),
                Err(e) => r == Err::<Arc<Publish>, Error>(e) && *final(self) == *old(self),
            },
    {
        let start = self.pos();
        let (topic_name, id_at) = self.string_at(start)?;
        let qos = header.qos()?;
        let (pid, payload_at) = match qos {
            QoS::AtMostOnce => (None, id_at),
            _ => {
                let (id, end) = self.u16_at(id_at)?;
                (Some(PacketIdentifier(id)), end)
            },
        };
        let used = payload_at - start;
        if header.len < used {
            return Err(Error::IncorrectPacketFormat);
        }
        let (payload, end) = self.bytes_at(payload_at, header.len - used)?;
        self.seek(end);
        Ok(
            Arc::new(
                Publish {
                    dup: header.dup(),
                    qos,
                    retain: header.retain(),
                    topic_name,
                    pid,
                    payload: Arc::new(payload),
                },
            ),
        )
    }

    /// Reads the body of a subscription request.
    pub fn read_subscribe(&mut self, header: Header) -> (r: Result<Arc<Subscribe>, Error>)
        requires
            old(self).wf(),
        ensures
            match spec_subscribe(old(self).bytes(), old(self).position(), header) {
                Ok((v, end)) => r.is_ok() && r.unwrap()@ == v && final(self).advanced_to(
                    old(self),
                    end,
                ),
                Err(e) => r == Err::<Arc<Subscribe>, Error>(e) && *final(self) == *old(self),
            },
    {
        let start = self.pos();
        let (pid, list_at) = self.u16_at(start)?;
        if header.len < 2 {
            return Err(Error::IncorrectPacketFormat);
        }
        let mut remaining_bytes: usize = header.len - 2;
        let mut at: usize = list_at;
        let mut topics: Vec<(String, QoS)> = Vec::with_capacity(1);
        while remaining_bytes > 0
            invariant
                *self == *old(self),
                self.wf(),
                header.len >= 2,
                spec_u16(self.bytes(), self.position()) == Ok::<(u16, int), Error>(
                    (pid, list_at as int),
                ),
                at <= self.bytes().len(),
                spec_subscriptions(self.bytes(), list_at as int, (header.len - 2) as nat)
                    == preceded(
                    subscriptions(topics@),
                    spec_subscriptions(self.bytes(), at as int, remaining_bytes as nat),
                ),
            decreases remaining_bytes,
        {
            let ghost before = subscriptions(topics@);
            let (topic_filter, qos_at) = self.string_at(at)?;
            let (requested_qos, end) = self.u8_at(qos_at)?;
            let used = end - at;
            if used > remaining_bytes {
                return Err(Error::IncorrectPacketFormat);
            }
            let qos = QoS::from_u8(requested_qos)?;
            remaining_bytes = remaining_bytes - used;
            proof {
                let rest = spec_subscriptions(self.bytes(), end as int, remaining_bytes as nat);
                let entry = (topic_filter@, qos);
                assert(subscriptions(topics@.push((topic_filter, qos))) =~= before.push(entry));
                match rest {
                    Ok((items, _)) => {
                        assert(before + (seq![entry] + items) =~= before.push(entry) + items);
                    },
                    Err(_) => {},
                }
            }
            topics.push((topic_filter, qos));
            at = end;
        }
        assert(subscriptions(topics@) + Seq::<(Seq<char>, QoS)>::empty() =~= subscriptions(
            topics@,
        ));
        self.seek(at);
        Ok(Arc::new(Subscribe { pid: PacketIdentifier(pid), topics }))
    }

    /// Reads the body of a request to unsubscribe.
    pub fn read_unsubscribe(&mut self, header: Header) -> (r: Result<Arc<Unsubscribe>, Error>)
        requires
            old(self).wf(),
        ensures
            match spec_unsubscribe(old(self).bytes(), old(self).position(), header) {
                Ok((v, end)) => r.is_ok() && r.unwrap()@ == v && final(self).advanced_to(
                    old(self),
                    end,
                ),
                Err(e) => r == Err::<Arc<Unsubscribe>, Error>(e) && *final(self) == *old(self),
            },
    {
        let start = self.pos();
        let (pid, list_at) = self.u16_at(start)?;
        if header.len < 2 {
            return Err(Error::IncorrectPacketFormat);
        }
        let mut remaining_bytes: usize = header.len - 2;
        let mut at: usize = list_at;
        let mut topics: Vec<String> = Vec::with_capacity(1);
        while remaining_bytes > 0
            invariant
                *self == *old(self),
                self.wf(),
                header.len >= 2,
                spec_u16(self.bytes(), self.position()) == Ok::<(u16, int), Error>(
                    (pid, list_at as int),
                ),
                at <= self.bytes().len(),
                spec_filters(self.bytes(), list_at as int, (header.len - 2) as nat) == preceded(
                    filters(topics@),
                    spec_filters(self.bytes(), at as int, remaining_bytes as nat),
                ),
            decreases remaining_bytes,
        {
            let ghost before = filters(topics@);
            let (topic_filter, end) = self.string_at(at)?;
            let used = end - at;
            if used > remaining_bytes {
                return Err(Error::IncorrectPacketFormat);
            }
            remaining_bytes = remaining_bytes - used;
            proof {
                let rest = spec_filters(self.bytes(), end as int, remaining_bytes as nat);
                let entry = topic_filter@;
                assert(filters(topics@.push(topic_filter)) =~= before.push(entry));
                match rest {
                    Ok((items, _)) => {
                        assert(before + (seq![entry] + items) =~= before.push(entry) + items);
                    },
                    Err(_) => {},
                }
            }
            topics.push(topic_filter);
            at = end;
        }
        assert(filters(topics@) + Seq::<Seq<char>>::empty() =~= filters(topics@));
        self.seek(at);
        Ok(Arc::new(Unsubscribe { pid: PacketIdentifier(pid), topics }))
    }

    /// Decodes the body of a packet from a bounded view of it.
    pub fn read_body(&mut self, header: Header) -> (r: Result<Packet, Error>)
        requires
            old(self).wf(),
            old(self).position() == 0,
        ensures
            match spec_body(old(self).bytes(), header) {
                Ok((v, end)) => r.is_ok() && r.unwrap()@ == v && final(self).advanced_to(
                    old(self),
                    end,
                ),
                Err(e) => r == Err::<Packet, Error>(e) && *final(self) == *old(self),
            },
    {
        match header.typ {
            PacketType::Connect => Ok(Packet::Connect(self.read_connect(header)?)),
            PacketType::Connack => Ok(Packet::Connack(self.read_connack(header)?)),
            PacketType::Publish => Ok(Packet::Publish(self.read_publish(header)?)),
            PacketType::Subscribe => Ok(Packet::Subscribe(self.read_subscribe(header)?)),
            PacketType::Unsubscribe => Ok(Packet::Unsubscribe(self.read_unsubscribe(header)?)),
            PacketType::Pingreq => Err(Error::IncorrectPacketFormat),
            PacketType::Pingresp => Err(Error::IncorrectPacketFormat),
            _ => Err(Error::UnsupportedPacketType),
        }
    }

    /// How many more bytes to fetch before a packet can be read: see
    /// [`spec_wanted`].
    pub fn wanted(&self) -> (r: usize)
        requires
            self.wf(),
        ensures
            r == spec_wanted(self.bytes(), self.position()),
    {
        let start = self.pos();
        let (hd, len_at) = match self.u8_at(start) {
            Ok(found) => found,
            Err(_) => {
                return 1;
            },
        };
        let (len, body_at) = match self.remaining_length_at(len_at) {
            Ok(found) => found,
            Err(Error::Io) => {
                return 1;
            },
            Err(_) => {
                return 0;
            },
        };
        let header = match Header::new(hd, len) {
            Ok(header) => header,
            Err(_) => {
                return 0;
            },
        };
        let there = self.len() - body_at;
        if !header.flags_valid() || len <= there {
            0
        } else {
            len - there
        }
    }

    /// Reads one packet: the fixed header, the remaining length, and the
    /// body that the header declares, which is skipped whole.
    pub fn read_packet(&mut self) -> (r: Result<Packet, Error>)
        requires
            old(self).wf(),
        ensures
            match spec_packet(old(self).bytes(), old(self).position()) {
                Ok((v, end)) => r.is_ok() && r.unwrap()@ == v && final(self).advanced_to(
                    old(self),
                    end,
                ),
                Err(e) => r == Err::<Packet, Error>(e) && *final(self) == *old(self),
            },
    {
        let start = self.pos();
        let (hd, len_at) = self.u8_at(start)?;
        let (len, body_at) = self.remaining_length_at(len_at)?;
        let header = Header::new(hd, len)?;
        if len == 0 {
            let packet = empty_packet(header)?;
            self.seek(body_at);
            return Ok(packet);
        }
        if !header.flags_valid() {
            return Err(Error::IncorrectPacketFormat);
        }
        let mut raw_packet = self.bounded_at(body_at, len);
        let packet = raw_packet.read_body(header)?;
        if self.len() - body_at < len {
            return Err(Error::Io);
        }
        self.seek(body_at + len);
        Ok(packet)
    }
}

} // verus!
