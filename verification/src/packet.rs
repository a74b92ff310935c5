//! Packets: one identifying byte, then the payload of a message.

use crate::buffer::{bytes_at, bytes_contents, bytes_len, bytes_split_off};
use bytes::Bytes;
use vstd::prelude::*;

verus! {

/// The kind of message that a packet carries. On the wire it is the
/// packet's first byte, from 1 for `Ping` to 7 for `ResetStatistics`.
#[derive(Debug, Clone, Copy, PartialEq, Eq, Structural)]
pub enum PacketId {
    Ping,
    SetConfiguration,
    GetConfiguration,
    ClearStorage,
    Find,
    GetStatistics,
    ResetStatistics,
}

/// The byte that named no kind of message.
#[derive(Debug, Clone, Copy, PartialEq, Eq, Structural)]
pub struct TryFromPrimitiveError {
    pub number: u8,
}

impl PacketId {
    /// The byte that stands for this kind on the wire.
    pub open spec fn spec_number(self) -> u8 {
        match self {
            PacketId::Ping => 1,
            PacketId::SetConfiguration => 2,
            PacketId::GetConfiguration => 3,
            PacketId::ClearStorage => 4,
            PacketId::Find => 5,
            PacketId::GetStatistics => 6,
            PacketId::ResetStatistics => 7,
        }
    }

    /// The kind that `number` stands for, if any.
    pub open spec fn of_number(number: u8) -> Option<PacketId> {
        if number == 1 {
            Some(PacketId::Ping)
        } else if number == 2 {
            Some(PacketId::SetConfiguration)
        } else if number == 3 {
            Some(PacketId::GetConfiguration)
        } else if number == 4 {
            Some(PacketId::ClearStorage)
        } else if number == 5 {
            Some(PacketId::Find)
        } else if number == 6 {
            Some(PacketId::GetStatistics)
        } else if number == 7 {
            Some(PacketId::ResetStatistics)
        } else {
            None
        }
    }

    /// The byte that stands for this kind on the wire.
    #[verifier::when_used_as_spec(spec_number)]
    pub fn number(self) -> (number: u8)
        ensures
            number == self.spec_number(),
            PacketId::of_number(number) == Some(self),
    {
        match self {
            PacketId::Ping => 1,
            PacketId::SetConfiguration => 2,
            PacketId::GetConfiguration => 3,
            PacketId::ClearStorage => 4,
            PacketId::Find => 5,
            PacketId::GetStatistics => 6,
            PacketId::ResetStatistics => 7,
        }
    }

    /// Reads a kind from its byte. Any byte outside 1 to 7 is refused and
    /// handed back in the error.
    pub fn try_from_primitive(number: u8) -> (id: Result<PacketId, TryFromPrimitiveError>)
        ensures
            match id {
                Ok(id) => PacketId::of_number(number) == Some(id),
                Err(e) => PacketId::of_number(number) is None && e.number == number,
            },
    {
        match number {
            1 => Ok(PacketId::Ping),
            2 => Ok(PacketId::SetConfiguration),
            3 => Ok(PacketId::GetConfiguration),
            4 => Ok(PacketId::ClearStorage),
            5 => Ok(PacketId::Find),
            6 => Ok(PacketId::GetStatistics),
            7 => Ok(PacketId::ResetStatistics),
            _ => Err(TryFromPrimitiveError { number }),
        }
    }
}

/// Reading back the byte of a kind gives that kind, and a byte that reads as
/// a kind is that kind's byte.
pub proof fn law_packet_id_round_trip(id: PacketId, number: u8)
    ensures
        PacketId::of_number(id.spec_number()) == Some(id),
        PacketId::of_number(number) matches Some(read) ==> read.spec_number() == number,
        PacketId::of_number(number) is Some <==> 1 <= number <= 7,
{
}

/// Why a packet was refused. Each of these ends the connection.
#[derive(Debug, Clone, Copy, PartialEq, Eq, Structural)]
pub enum PacketError {
    /// The packet is empty: it has no identifying byte.
    Empty,
    /// The identifying byte names no kind of message.
    UnknownPacketId(u8),
}

/// What `split_packet` makes of the bytes of a packet.
pub open spec fn split(packet: Seq<u8>) -> Result<(PacketId, Seq<u8>), PacketError> {
    if packet.len() == 0 {
        Err(PacketError::Empty)
    } else {
        match PacketId::of_number(packet[0]) {
            Some(id) => Ok((id, packet.subrange(1, packet.len() as int))),
            None => Err(PacketError::UnknownPacketId(packet[0])),
        }
    }
}

/// Parts a packet into the kind of its message and the payload.
pub fn split_packet(packet: Bytes) -> (parts: Result<(PacketId, Bytes), PacketError>)
    ensures
        match (parts, split(bytes_contents(packet))) {
            (Ok((id, payload)), Ok((spec_id, spec_payload))) => id == spec_id && bytes_contents(
                payload,
            ) == spec_payload,
            (Err(e), Err(spec_e)) => e == spec_e,
            _ => false,
        },
{
    let mut packet = packet;
    if bytes_len(&packet) == 0 {
        return Err(PacketError::Empty);
    }
    let number = bytes_at(&packet, 0);
    match PacketId::try_from_primitive(number) {
        Ok(id) => {
            let payload = bytes_split_off(&mut packet, 1);
            Ok((id, payload))
        },
        Err(e) => Err(PacketError::UnknownPacketId(e.number)),
    }
}

} // verus!
