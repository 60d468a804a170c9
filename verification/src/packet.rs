//! The decoded packets, and what each is in specifications.

use crate::types::{LastWill, LastWillView, PacketIdentifier, Protocol, QoS};
use std::sync::Arc;
use vstd::prelude::*;

verus! {

/// A connection request.
#[derive(Clone, Debug, PartialEq, Eq)]
pub struct Connect {
    pub protocol: Protocol,
    pub keep_alive: u16,
    pub client_id: String,
    pub clean_session: bool,
    pub last_will: Option<LastWill>,
    pub username: Option<String>,
    pub password: Option<String>,
}

/// A connection request with its texts as sequences of characters.
pub struct ConnectView {
    pub protocol: Protocol,
    pub keep_alive: u16,
    pub client_id: Seq<char>,
    pub clean_session: bool,
    pub last_will: Option<LastWillView>,
    pub username: Option<Seq<char>>,
    pub password: Option<Seq<char>>,
}

/// The text in an optional field.
pub open spec fn optional_text(field: Option<String>) -> Option<Seq<char>> {
    match field {
        Some(text) => Some(text@),
        None => None,
    }
}

impl View for Connect {
    type V = ConnectView;

    open spec fn view(&self) -> ConnectView {
        ConnectView {
            protocol: self.protocol,
            keep_alive: self.keep_alive,
            client_id: self.client_id@,
            clean_session: self.clean_session,
            last_will: match self.last_will {
                Some(will) => Some(will@),
                None => None,
            },
            username: optional_text(self.username),
            password: optional_text(self.password),
        }
    }
}

/// The answer to a connection request.
#[derive(Clone, Copy, Debug, PartialEq, Eq, Structural)]
pub struct Connack {
    pub session_present: bool,
    pub return_code: u8,
}

/// A published message.
#[derive(Clone, Debug, PartialEq, Eq)]
pub struct Publish {
    pub dup: bool,
    pub qos: QoS,
    pub retain: bool,
    pub topic_name: String,
    pub pid: Option<PacketIdentifier>,
    pub payload: Arc<Vec<u8>>,
}

/// A published message with its topic as characters and its payload as
/// a sequence of bytes.
pub struct PublishView {
    pub dup: bool,
    pub qos: QoS,
    pub retain: bool,
    pub topic_name: Seq<char>,
    pub pid: Option<PacketIdentifier>,
    pub payload: Seq<u8>,
}

impl View for Publish {
    type V = PublishView;

    open spec fn view(&self) -> PublishView {
        PublishView {
            dup: self.dup,
            qos: self.qos,
            retain: self.retain,
            topic_name: self.topic_name@,
            pid: self.pid,
            payload: self.payload@,
        }
    }
}

/// Topic filters with their requested levels, as a sequence of plain values.
pub open spec fn subscriptions(topics: Seq<(String, QoS)>) -> Seq<(Seq<char>, QoS)> {
    Seq::new(topics.len(), |i: int| (topics[i].0@, topics[i].1))
}

/// Topic filters as a sequence of plain values.
pub open spec fn filters(topics: Seq<String>) -> Seq<Seq<char>> {
    Seq::new(topics.len(), |i: int| topics[i]@)
}

/// A request to subscribe to topic filters, in the order received.
#[derive(Clone, Debug, PartialEq, Eq)]
pub struct Subscribe {
    pub pid: PacketIdentifier,
    pub topics: Vec<(String, QoS)>,
}

/// A subscription request with its entries as plain values.
pub struct SubscribeView {
    pub pid: PacketIdentifier,
    pub topics: Seq<(Seq<char>, QoS)>,
}

impl View for Subscribe {
    type V = SubscribeView;

    open spec fn view(&self) -> SubscribeView {
        SubscribeView { pid: self.pid, topics: subscriptions(self.topics@) }
    }
}

/// A request to drop topic filters, in the order received.
#[derive(Clone, Debug, PartialEq, Eq)]
pub struct Unsubscribe {
    pub pid: PacketIdentifier,
    pub topics: Vec<String>,
}

/// A request to unsubscribe with its topic filters as plain values.
pub struct UnsubscribeView {
    pub pid: PacketIdentifier,
    pub topics: Seq<Seq<char>>,
}

impl View for Unsubscribe {
    type V = UnsubscribeView;

    open spec fn view(&self) -> UnsubscribeView {
        UnsubscribeView { pid: self.pid, topics: filters(self.topics@) }
    }
}

/// A decoded control packet.
#[derive(Clone, Debug, PartialEq, Eq)]
pub enum Packet {
    Connect(Arc<Connect>),
    Connack(Connack),
    Publish(Arc<Publish>),
    Subscribe(Arc<Subscribe>),
    Unsubscribe(Arc<Unsubscribe>),
    Pingreq,
    Pingresp,
}

/// A packet with its body as plain values.
pub enum PacketView {
    Connect(ConnectView),
    Connack(Connack),
    Publish(PublishView),
    Subscribe(SubscribeView),
    Unsubscribe(UnsubscribeView),
    Pingreq,
    Pingresp,
}

impl View for Packet {
    type V = PacketView;

    open spec fn view(&self) -> PacketView {
        match self {
            Packet::Connect(c) => PacketView::Connect(c@),
            Packet::Connack(c) => PacketView::Connack(*c),
            Packet::Publish(p) => PacketView::Publish(p@),
            Packet::Subscribe(s) => PacketView::Subscribe(s@),
            Packet::Unsubscribe(u) => PacketView::Unsubscribe(u@),
            Packet::Pingreq => PacketView::Pingreq,
            Packet::Pingresp => PacketView::Pingresp,
        }
    }
}

} // verus!
