//! The operator's side of the protocol: reading addresses, composing
//! requests and packets, and judging responses.

use crate::buffer::{bytes_contents, bytes_len, max_buffer_len};
use crate::buffer::{bytes_mut_freeze, bytes_mut_put, bytes_mut_put_u8, bytes_mut_with_capacity};
use crate::packet::PacketId;
use crate::proto;
use bytes::Bytes;
use vstd::prelude::*;
use vstd::string::StringSliceAdditionalSpecFns;

verus! {

/// The text was not an address: it must be `0x` and then hexadecimal digits
/// of a number that fits 64 bits.
#[derive(Debug, Clone, Copy, PartialEq, Eq, Structural)]
pub struct InvalidAddress {}

/// The number that a hexadecimal digit stands for.
pub open spec fn hex_digit(byte: u8) -> Option<nat> {
    if 0x30 <= byte <= 0x39 {
        Some((byte - 0x30) as nat)
    } else if 0x61 <= byte <= 0x66 {
        Some((byte - 0x61 + 10) as nat)
    } else if 0x41 <= byte <= 0x46 {
        Some((byte - 0x41 + 10) as nat)
    } else {
        None
    }
}

/// Every byte of `digits` is a hexadecimal digit.
pub open spec fn all_hex(digits: Seq<u8>) -> bool {
    forall|i: int| 0 <= i < digits.len() ==> hex_digit(#[trigger] digits[i]) is Some
}

/// The number that the hexadecimal digits of `digits` write, most
/// significant digit first.
pub open spec fn hex_value(digits: Seq<u8>) -> nat
    decreases digits.len(),
{
    if digits.len() == 0 {
        0
    } else {
        hex_value(digits.drop_last()) * 16 + match hex_digit(digits.last()) {
            Some(d) => d,
            None => 0,
        }
    }
}

/// The 64-bit number that `text` writes in hexadecimal: an optional plus
/// sign, then at least one digit, and nothing else.
pub open spec fn hex_number(text: Seq<u8>) -> Option<u64> {
    let digits = if text.len() > 0 && text[0] == 0x2b {
        text.subrange(1, text.len() as int)
    } else {
        text
    };
    if digits.len() > 0 && all_hex(digits) && hex_value(digits) <= u64::MAX {
        Some(hex_value(digits) as u64)
    } else {
        None
    }
}

/// The address that `text` writes: `0x`, then a hexadecimal number.
pub open spec fn hex_address(text: Seq<u8>) -> Option<u64> {
    if text.len() >= 2 && text[0] == 0x30 && text[1] == 0x78 {
        hex_number(text.subrange(2, text.len() as int))
    } else {
        None
    }
}

/// The number that one hexadecimal digit stands for.
fn digit_value(byte: u8) -> (value: Option<u64>)
    ensures
        match value {
            Some(d) => hex_digit(byte) == Some(d as nat) && d < 16,
            None => hex_digit(byte) is None,
        },
{
    if 0x30 <= byte && byte <= 0x39 {
        Some((byte - 0x30) as u64)
    } else if 0x61 <= byte && byte <= 0x66 {
        Some((byte - 0x61 + 10) as u64)
    } else if 0x41 <= byte && byte <= 0x46 {
        Some((byte - 0x41 + 10) as u64)
    } else {
        None
    }
}

/// A number only grows as digits are added behind it.
proof fn lemma_hex_value_grows(digits: Seq<u8>, n: int)
    requires
        0 <= n <= digits.len(),
    ensures
        hex_value(digits.take(n)) <= hex_value(digits),
    decreases digits.len() - n,
{
    if n < digits.len() {
        lemma_hex_value_grows(digits, n + 1);
        assert(digits.take(n + 1).drop_last() == digits.take(n));
    } else {
        assert(digits.take(n) == digits);
    }
}

/// Reads an address as the operator writes it: `0x` and then hexadecimal
/// digits, as in `0x7ffe1000`.
pub fn parse_hex_address(s: &str) -> (address: Result<u64, InvalidAddress>)
    ensures
        match address {
            Ok(a) => hex_address(s.spec_bytes()) == Some(a),
            Err(_) => hex_address(s.spec_bytes()) is None,
        },
{
    let bytes = s.as_bytes();
    let len = bytes.len();
    if len < 2 || bytes[0] != 0x30 || bytes[1] != 0x78 {
        return Err(InvalidAddress {  });
    }
    let ghost text = bytes@.subrange(2, len as int);
    let start: usize = if len > 2 && bytes[2] == 0x2b {
        3
    } else {
        2
    };
    let ghost digits = bytes@.subrange(start as int, len as int);
    assert(digits == if text.len() > 0 && text[0] == 0x2b {
        text.subrange(1, text.len() as int)
    } else {
        text
    });
    if start == len {
        return Err(InvalidAddress {  });
    }
    assert(hex_address(s.spec_bytes()) == if all_hex(digits) && hex_value(digits) <= u64::MAX {
        Some(hex_value(digits) as u64)
    } else {
        None
    });
    let mut value: u64 = 0;
    let mut i: usize = start;
    while i < len
        invariant
            start <= i <= len == bytes@.len(),
            digits == bytes@.subrange(start as int, len as int),
            hex_address(s.spec_bytes()) == if all_hex(digits) && hex_value(digits) <= u64::MAX {
                Some(hex_value(digits) as u64)
            } else {
                None
            },
            all_hex(digits.take(i - start)),
            value == hex_value(digits.take(i - start)),
        decreases len - i,
    {
        let ghost seen = digits.take(i - start);
        let ghost next = digits.take(i - start + 1);
        assert(next.drop_last() == seen);
        assert(next.last() == bytes@[i as int]);
        match digit_value(bytes[i]) {
            Some(d) => {
                if value > (u64::MAX - d) / 16 {
                    proof {
                        assert(hex_value(next) == value * 16 + d);
                        lemma_hex_value_grows(digits, i - start + 1);
                    }
                    return Err(InvalidAddress {  });
                }
                value = value * 16 + d;
                assert forall|j: int| 0 <= j < next.len() implies hex_digit(
                    #[trigger] next[j],
                ) is Some by {
                    if j < seen.len() {
                        assert(next[j] == seen[j]);
                    }
                }
            },
            None => {
                assert(hex_digit(digits[i - start]) is None);
                return Err(InvalidAddress {  });
            },
        }
        i += 1;
    }
    assert(digits.take(len - start) == digits);
    Ok(value)
}

/// The request that pings with the number `challenge`.
pub fn ping_request(challenge: u32) -> (request: proto::PingRequest)
    ensures
        request == (proto::PingRequest { num: challenge }),
{
    proto::PingRequest { num: challenge }
}

/// Whether `response` answers the ping that carried `challenge`.
pub fn ping_succeeded(challenge: u32, response: &proto::PingResponse) -> (ok: bool)
    ensures
        ok == (response.num == challenge),
{
    response.num == challenge
}

/// The request that asks for every record: one query without a filter.
pub fn dump_request() -> (request: proto::FindRequest)
    ensures
        request.records@ == seq![proto::FindRecord { id: 0, filter: None }],
{
    let mut records: Vec<proto::FindRecord> = Vec::new();
    records.push(proto::FindRecord { id: 0, filter: None });
    assert(records@ =~= seq![proto::FindRecord { id: 0, filter: None }]);
    proto::FindRequest { records }
}

/// The request that asks for the record at `address`.
pub fn find_request(address: u64) -> (request: proto::FindRequest)
    ensures
        request.records@ == seq![
            proto::FindRecord {
                id: 0,
                filter: Some(proto::Filter { location: Some(proto::Location::Address(address)) }),
            },
        ],
{
    let record = proto::FindRecord {
        id: 0,
        filter: Some(proto::Filter { location: Some(proto::Location::Address(address)) }),
    };
    let mut records: Vec<proto::FindRecord> = Vec::new();
    records.push(record);
    assert(records@ =~= seq![record]);
    proto::FindRequest { records }
}

/// The lower bound of an interval lies above its upper bound.
#[derive(Debug, Clone, Copy, PartialEq, Eq, Structural)]
pub struct InvertedRange {}

/// The request that asks for the records from `lower` up to but excluding
/// `upper`. An interval whose lower bound lies above the upper one is
/// refused before anything is sent.
pub fn find_range_request(lower: u64, upper: u64) -> (request: Result<
    proto::FindRequest,
    InvertedRange,
>)
    ensures
        request is Ok <==> lower <= upper,
        request matches Ok(r) ==> r.records@ == seq![
            proto::FindRecord {
                id: 0,
                filter: Some(
                    proto::Filter {
                        location: Some(proto::Location::Range(proto::Range { lower, upper })),
                    },
                ),
            },
        ],
{
    if lower > upper {
        return Err(InvertedRange {  });
    }
    let record = proto::FindRecord {
        id: 0,
        filter: Some(
            proto::Filter {
                location: Some(proto::Location::Range(proto::Range { lower, upper })),
            },
        ),
    };
    let mut records: Vec<proto::FindRecord> = Vec::new();
    records.push(record);
    assert(records@ =~= seq![record]);
    Ok(proto::FindRequest { records })
}

/// The request that sets the tracing configuration.
pub fn set_configuration_request(
    stack_trace_offset: u64,
    stack_trace_size: u64,
    backtrace_frames_skip: u32,
    backtrace_frames_count: u32,
    backtrace_resolve_symbols_count: u32,
) -> (request: proto::SetConfigurationRequest)
    ensures
        request == (proto::SetConfigurationRequest {
            configuration: Some(
                proto::Configuration {
                    stack_trace_offset,
                    stack_trace_size,
                    backtrace_frames_skip,
                    backtrace_frames_count,
                    backtrace_resolve_symbols_count,
                },
            ),
        }),
{
    proto::SetConfigurationRequest {
        configuration: Some(
            proto::Configuration {
                stack_trace_offset,
                stack_trace_size,
                backtrace_frames_skip,
                backtrace_frames_count,
                backtrace_resolve_symbols_count,
            },
        ),
    }
}

/// The records that the response to a request of one query found, or
/// `None` when the response does not hold exactly one answer.
pub fn single_answer(response: proto::FindResponse) -> (found: Option<Vec<proto::Allocation>>)
    ensures
        found is Some <==> response.allocations@.len() == 1,
        found matches Some(allocations) ==> allocations == response.allocations@[0].allocations,
{
    let mut answers = response.allocations;
    if answers.len() != 1 {
        return None;
    }
    match answers.pop() {
        Some(answer) => Some(answer.allocations),
        None => None,
    }
}

/// The packet that carries `payload` as a message of kind `id`.
pub open spec fn composed(id: PacketId, payload: Seq<u8>) -> Seq<u8> {
    seq![id.spec_number()] + payload
}

/// Puts the identifying byte in front of the payload.
fn compose(id: PacketId, payload: Bytes) -> (packet: Bytes)
    requires
        bytes_contents(payload).len() < max_buffer_len(),
    ensures
        bytes_contents(packet) == composed(id, bytes_contents(payload)),
{
    let mut buf = bytes_mut_with_capacity(bytes_len(&payload) + 1);
    bytes_mut_put_u8(&mut buf, id.number());
    bytes_mut_put(&mut buf, payload);
    assert(Seq::<u8>::empty().push(id.spec_number()) =~= seq![id.spec_number()]);
    bytes_mut_freeze(buf)
}

/// Makes the packet for a message of kind `id` with the encoded message
/// `payload`: the identifying byte, then the payload. `None` when the
/// packet would be longer than a buffer can be.
pub fn compose_packet(id: PacketId, payload: Bytes) -> (packet: Option<Bytes>)
    ensures
        packet is Some <==> bytes_contents(payload).len() < max_buffer_len(),
        packet matches Some(p) ==> bytes_contents(p) == composed(id, bytes_contents(payload)),
{
    if bytes_len(&payload) < isize::MAX as usize {
        Some(compose(id, payload))
    } else {
        None
    }
}

/// A packet that was composed parts again into the kind and the payload it
/// was made of.
pub proof fn law_compose_then_split(id: PacketId, payload: Seq<u8>)
    ensures
        crate::packet::split(composed(id, payload)) == Ok::<
            (PacketId, Seq<u8>),
            crate::packet::PacketError,
        >((id, payload)),
{
    let packet = composed(id, payload);
    assert(packet[0] == id.spec_number());
    assert(packet.subrange(1, packet.len() as int) =~= payload);
}

} // verus!
