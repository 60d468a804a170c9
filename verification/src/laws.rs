//! What holds of the wire grammar for all inputs.

use crate::packet::PacketView;
use crate::types::{Error, Header, PacketType};
use crate::wire::{
    continues, digit, digits_value, length_size, spec_bounded, spec_filters, spec_packet,
    spec_publish, spec_remaining_length, spec_string, spec_subscriptions, spec_u16, spec_wanted,
    weight,
};
use vstd::prelude::*;

verus! {

/// The digits of a number in base 128 stay below the weight of the next
/// digit.
pub proof fn digits_stay_below_weight(s: Seq<u8>, at: int, n: nat)
    ensures
        digits_value(s, at, n) < weight(n),
    decreases n,
{
    if n > 0 {
        digits_stay_below_weight(s, at, (n - 1) as nat);
        let byte = s[at + n - 1];
        assert(byte & 0x7f <= 127) by (bit_vector);
        let d = digit(byte);
        let w = weight((n - 1) as nat);
        assert(d * w <= 127 * w) by (nonlinear_arith)
            requires
                d <= 127,
                w >= 0,
        ;
    }
}

/// The size of a remaining length of which `i` bytes are continued is
/// more than `i` and at most four, and all its bytes are there.
pub proof fn length_size_is_bounded(s: Seq<u8>, at: int, i: nat)
    requires
        length_size(s, at, i) is Ok,
    ensures
        i < length_size(s, at, i).unwrap() <= 4,
        0 <= at,
        at + length_size(s, at, i).unwrap() <= s.len(),
    decreases 4 - i,
{
    if i < 4 && continues(s[at + i]) {
        length_size_is_bounded(s, at, i + 1);
    }
}

/// A remaining length takes one to four bytes, all of them there, and is
/// at most 268,435,455.
pub proof fn remaining_length_is_bounded(s: Seq<u8>, at: int)
    ensures
        match spec_remaining_length(s, at) {
            Ok((len, end)) => at + 1 <= end <= at + 4 && end <= s.len() && len <= 268_435_455,
            Err(_) => true,
        },
{
    if length_size(s, at, 0) is Ok {
        let n = length_size(s, at, 0).unwrap();
        length_size_is_bounded(s, at, 0);
        digits_stay_below_weight(s, at, n);
        reveal_with_fuel(weight, 5);
    }
}

/// A ping request or response with well-formed flags and remaining length
/// zero is decoded as that ping, and ends with its header.
pub proof fn ping_has_no_body(s: Seq<u8>, at: int)
    requires
        0 <= at < s.len(),
        PacketType::spec_from_hd(s[at]) == Ok::<PacketType, Error>(PacketType::Pingreq)
            || PacketType::spec_from_hd(s[at]) == Ok::<PacketType, Error>(PacketType::Pingresp),
        s[at] & 0x0f == 0,
        spec_remaining_length(s, at + 1) is Ok,
        spec_remaining_length(s, at + 1).unwrap().0 == 0,
    ensures
        spec_packet(s, at) is Ok,
        spec_packet(s, at).unwrap().1 == spec_remaining_length(s, at + 1).unwrap().1,
        PacketType::spec_from_hd(s[at]) == Ok::<PacketType, Error>(PacketType::Pingreq)
            ==> spec_packet(s, at).unwrap().0 == PacketView::Pingreq,
        PacketType::spec_from_hd(s[at]) == Ok::<PacketType, Error>(PacketType::Pingresp)
            ==> spec_packet(s, at).unwrap().0 == PacketView::Pingresp,
{
}

/// A packet of any type but the two pings with remaining length zero is
/// refused for want of a payload.
pub proof fn empty_packet_requires_payload(s: Seq<u8>, at: int)
    requires
        0 <= at < s.len(),
        PacketType::spec_from_hd(s[at]) is Ok,
        PacketType::spec_from_hd(s[at]).unwrap() != PacketType::Pingreq,
        PacketType::spec_from_hd(s[at]).unwrap() != PacketType::Pingresp,
        spec_remaining_length(s, at + 1) is Ok,
        spec_remaining_length(s, at + 1).unwrap().0 == 0,
    ensures
        spec_packet(s, at) == Err::<(PacketView, int), Error>(Error::PayloadRequired),
{
}

/// A packet whose header declares more bytes than follow it is refused.
pub proof fn truncated_packet_is_rejected(s: Seq<u8>, at: int)
    requires
        spec_remaining_length(s, at + 1) is Ok,
        spec_remaining_length(s, at + 1).unwrap().1 + spec_remaining_length(
            s,
            at + 1,
        ).unwrap().0 > s.len(),
    ensures
        spec_packet(s, at) is Err,
{
    remaining_length_is_bounded(s, at + 1);
}

/// A decoded packet starts at `at`, ends within the bytes, and takes its
/// header and exactly the remaining length that the header declares.
pub proof fn packet_lies_within_its_bytes(s: Seq<u8>, at: int)
    requires
        spec_packet(s, at) is Ok,
    ensures
        0 <= at < spec_packet(s, at).unwrap().1 <= s.len(),
        spec_remaining_length(s, at + 1) is Ok,
        spec_packet(s, at).unwrap().1 == spec_remaining_length(s, at + 1).unwrap().1
            + spec_remaining_length(s, at + 1).unwrap().0,
{
    remaining_length_is_bounded(s, at + 1);
}

/// While bytes are wanted, no packet can be decoded.
pub proof fn wanted_bytes_mean_no_packet(s: Seq<u8>, at: int)
    requires
        spec_wanted(s, at) > 0,
    ensures
        spec_packet(s, at) is Err,
{
    remaining_length_is_bounded(s, at + 1);
}

/// Bytes that come behind the first `n` from `at` do not change the
/// number that those make.
pub proof fn digits_ignore_later_bytes(s: Seq<u8>, at: int, n: nat, more: Seq<u8>)
    requires
        0 <= at,
        at + n <= s.len(),
    ensures
        digits_value(s + more, at, n) == digits_value(s, at, n),
    decreases n,
{
    if n > 0 {
        digits_ignore_later_bytes(s, at, (n - 1) as nat, more);
    }
}

/// Bytes that arrive later do not change the size of a remaining length
/// that is complete, nor the refusal of one that is too long.
pub proof fn length_size_ignores_later_bytes(s: Seq<u8>, at: int, i: nat, more: Seq<u8>)
    requires
        length_size(s, at, i) != Err::<nat, Error>(Error::Io),
    ensures
        length_size(s + more, at, i) == length_size(s, at, i),
    decreases 4 - i,
{
    if i < 4 && continues(s[at + i]) {
        length_size_ignores_later_bytes(s, at, i + 1, more);
    }
}

/// Once no bytes are wanted, the packet or its refusal is settled: bytes
/// that arrive later change neither.
pub proof fn settled_packet_ignores_later_bytes(s: Seq<u8>, at: int, more: Seq<u8>)
    requires
        spec_wanted(s, at) == 0,
    ensures
        spec_packet(s + more, at) == spec_packet(s, at),
        spec_wanted(s + more, at) == 0,
{
    let len_at = at + 1;
    length_size_ignores_later_bytes(s, len_at, 0, more);
    if length_size(s, len_at, 0) is Ok {
        let n = length_size(s, len_at, 0).unwrap();
        length_size_is_bounded(s, len_at, 0);
        digits_ignore_later_bytes(s, len_at, n, more);
        let len = digits_value(s, len_at, n);
        let body_at = len_at + n;
        if body_at + len <= s.len() {
            assert(spec_bounded(s + more, body_at, len as int) =~= spec_bounded(
                s,
                body_at,
                len as int,
            ));
        }
    }
}

/// Once the header is complete, fetching the bytes that are wanted leaves
/// none wanted.
pub proof fn wanted_bytes_complete_the_packet(s: Seq<u8>, at: int, more: Seq<u8>)
    requires
        spec_remaining_length(s, at + 1) is Ok,
        0 <= at < s.len(),
        more.len() == spec_wanted(s, at),
    ensures
        spec_wanted(s + more, at) == 0,
{
    let len_at = at + 1;
    length_size_ignores_later_bytes(s, len_at, 0, more);
    length_size_is_bounded(s, len_at, 0);
    digits_ignore_later_bytes(s, len_at, length_size(s, len_at, 0).unwrap(), more);
}

/// The entries of a subscription request take exactly the bytes that the
/// header leaves them.
pub proof fn subscriptions_fill_budget(s: Seq<u8>, at: int, budget: nat)
    requires
        spec_subscriptions(s, at, budget) is Ok,
    ensures
        spec_subscriptions(s, at, budget).unwrap().1 == at + budget,
        at >= 0 || budget == 0,
        at + budget <= s.len() || budget == 0,
    decreases budget,
{
    if budget > 0 {
        let end = crate::wire::spec_subscription(s, at, budget).unwrap().1;
        subscriptions_fill_budget(s, end, (budget - (end - at)) as nat);
    }
}

/// The topic filters of a request to unsubscribe take exactly the bytes
/// that the header leaves them.
pub proof fn filters_fill_budget(s: Seq<u8>, at: int, budget: nat)
    requires
        spec_filters(s, at, budget) is Ok,
    ensures
        spec_filters(s, at, budget).unwrap().1 == at + budget,
        at >= 0 || budget == 0,
        at + budget <= s.len() || budget == 0,
    decreases budget,
{
    if budget > 0 {
        let end = crate::wire::spec_filter(s, at, budget).unwrap().1;
        filters_fill_budget(s, end, (budget - (end - at)) as nat);
    }
}

/// A subscription entry whose topic filter declares more bytes than the
/// body has left is refused.
pub proof fn oversized_subscription_is_rejected(s: Seq<u8>, at: int, budget: nat)
    requires
        budget > 0,
        spec_u16(s, at) is Ok,
        2 + spec_u16(s, at).unwrap().0 + 1 > budget,
    ensures
        spec_subscriptions(s, at, budget) is Err,
{
}

/// A topic filter of a request to unsubscribe that declares more bytes
/// than the body has left is refused.
pub proof fn oversized_filter_is_rejected(s: Seq<u8>, at: int, budget: nat)
    requires
        budget > 0,
        spec_u16(s, at) is Ok,
        2 + spec_u16(s, at).unwrap().0 > budget,
    ensures
        spec_filters(s, at, budget) is Err,
{
}

/// A published message takes exactly the header's remaining length: the
/// topic field, two bytes of packet identifier where there is one, and the
/// payload.
pub proof fn publish_fills_remaining_length(s: Seq<u8>, at: int, header: Header)
    requires
        spec_publish(s, at, header) is Ok,
    ensures
        spec_publish(s, at, header).unwrap().1 == at + header.len,
        spec_string(s, at) is Ok,
        spec_publish(s, at, header).unwrap().0.payload.len() == header.len - (spec_string(
            s,
            at,
        ).unwrap().1 - at) - (if spec_publish(s, at, header).unwrap().0.pid.is_some() {
            2int
        } else {
            0int
        }),
        spec_publish(s, at, header).unwrap().0.pid.is_some() <==> header.spec_qos().unwrap()
            != crate::types::QoS::AtMostOnce,
{
}

} // verus!
