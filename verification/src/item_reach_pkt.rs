//! Whether an item is within reach: a tag byte, the item's index and its
//! position.

use vstd::prelude::*;
use crate::cursor::{be_bytes, be_fields, be_u32, insert_bytes, lemma_be_u32_of_be_bytes, BuffConverter};
use crate::error::{ParseError, Result};
use crate::packet_defs::IntoData;

verus! {

pub const PKT_SIZE: usize = 3 * 4 + 1;

pub type ItemReachPkt = [u8; 13];

pub const IN_REACH: u8 = 0;

pub const OUT_REACH: u8 = 1;

/// An item, inside or outside of reach.
#[derive(Debug, Clone, Copy, PartialEq, Eq, Structural)]
pub enum ItemStatus {
    InReach(ItemInfo),
    OutReach(ItemInfo),
}

/// Which item, and where it lies.
#[derive(Debug, Clone, Copy, PartialEq, Eq, Structural)]
pub struct ItemInfo {
    pub index: u32,
    pub pos_x: u32,
    pub pos_y: u32,
}

/// The layout of the format: tag, index, x, y.
pub open spec fn reach_layout(byte: u8, index: u32, pos_x: u32, pos_y: u32) -> Seq<u8> {
    seq![byte] + be_bytes(index) + be_bytes(pos_x) + be_bytes(pos_y)
}

/// What thirteen bytes decode to.
pub open spec fn reach_of_wire(bytes: Seq<u8>) -> Result<ItemStatus> {
    ItemStatus::spec_from_byte(
        bytes[0],
        be_u32(bytes.subrange(1, 5)),
        be_u32(bytes.subrange(5, 9)),
        be_u32(bytes.subrange(9, 13)),
    )
}

/// The thirteen bytes that encode `reach`.
pub open spec fn reach_wire(reach: ItemStatus) -> Seq<u8> {
    let (byte, index, pos_x, pos_y) = reach.spec_into_byte();
    reach_layout(byte, index, pos_x, pos_y)
}

/// Encoding and then decoding gives the value back.
pub proof fn lemma_reach_round_trip(reach: ItemStatus)
    ensures
        reach_wire(reach).len() == PKT_SIZE,
        reach_of_wire(reach_wire(reach)) == Ok::<ItemStatus, ParseError>(reach),
{
    let bytes = reach_wire(reach);
    let (byte, index, pos_x, pos_y) = reach.spec_into_byte();
    lemma_be_u32_of_be_bytes(index);
    lemma_be_u32_of_be_bytes(pos_x);
    lemma_be_u32_of_be_bytes(pos_y);
    assert(bytes.subrange(1, 5) =~= be_bytes(index));
    assert(bytes.subrange(5, 9) =~= be_bytes(pos_x));
    assert(bytes.subrange(9, 13) =~= be_bytes(pos_y));
}

/// A tag byte that is neither of the two is refused, and the failure names
/// the byte, whatever the other bytes are.
pub proof fn lemma_reach_unknown_tag(bytes: Seq<u8>)
    requires
        bytes.len() == PKT_SIZE,
        bytes[0] != IN_REACH && bytes[0] != OUT_REACH,
    ensures
        reach_of_wire(bytes) == Err::<ItemStatus, ParseError>(
            ParseError::Unknown { value: bytes[0] },
        ),
{
}

impl IntoData<ItemReachPkt> for ItemStatus {
    open spec fn data_of(bytes: Seq<u8>) -> Result<Self> {
        reach_of_wire(bytes)
    }

    open spec fn packet_of(self) -> Seq<u8> {
        reach_wire(self)
    }

    proof fn round_trip(self) {
        lemma_reach_round_trip(self);
    }

    fn into_data(p: ItemReachPkt) -> (r: Result<Self>) {
        parse_reach_pkt(&p)
    }

    fn into_packet(self) -> (p: ItemReachPkt) {
        make_reach_pkt(self)
    }
}

/// Encodes the reach of an item.
pub fn make_reach_pkt(reach: ItemStatus) -> (pkt: ItemReachPkt)
    ensures
        pkt@ == reach_wire(reach),
{
    let (b, i, x, y) = reach.into_byte();
    make_buffer(b, i, x, y)
}

/// Decodes the reach of an item; a tag byte that is neither of the two is
/// refused.
pub fn parse_reach_pkt(pkt: &ItemReachPkt) -> (r: Result<ItemStatus>)
    ensures
        r == reach_of_wire(pkt@),
        r is Ok <==> pkt@[0] <= OUT_REACH,
        r is Err ==> r == Err::<ItemStatus, ParseError>(ParseError::Unknown { value: pkt@[0] }),
{
    let byte: u8 = pkt[0];

    let mut convert = BuffConverter::new(&pkt[1..13]);
    let index: u32 = convert.get_next_u32().unwrap();
    let pos_x: u32 = convert.get_next_u32().unwrap();
    let pos_y: u32 = convert.get_next_u32().unwrap();
    ItemStatus::from_byte(byte, index, pos_x, pos_y)
}

/// Lays out a tag and three fields.
pub fn make_buffer(byte: u8, index: u32, pos_x: u32, pos_y: u32) -> (out: ItemReachPkt)
    ensures
        out@ == reach_layout(byte, index, pos_x, pos_y),
{
    let mut out: ItemReachPkt = [0u8; 13];
    out[0] = byte;
    let (head, tail) = out.split_at_mut(1);
    let fields: [u32; 3] = [index, pos_x, pos_y];
    insert_bytes(tail, &fields);
    proof {
        assert(be_fields(fields@) =~= be_bytes(index) + be_bytes(pos_x) + be_bytes(pos_y));
        assert(out@ =~= reach_layout(byte, index, pos_x, pos_y));
    }
    out
}

impl ItemStatus {
    /// The status that a tag byte and three fields stand for.
    pub open spec fn spec_from_byte(byte: u8, index: u32, pos_x: u32, pos_y: u32) -> Result<Self> {
        let info = ItemInfo { index, pos_x, pos_y };
        if byte == IN_REACH {
            Ok(ItemStatus::InReach(info))
        } else if byte == OUT_REACH {
            Ok(ItemStatus::OutReach(info))
        } else {
            Err(ParseError::Unknown { value: byte })
        }
    }

    /// The tag byte and the three fields of a status.
    pub open spec fn spec_into_byte(self) -> (u8, u32, u32, u32) {
        match self {
            ItemStatus::InReach(info) => (IN_REACH, info.index, info.pos_x, info.pos_y),
            ItemStatus::OutReach(info) => (OUT_REACH, info.index, info.pos_x, info.pos_y),
        }
    }

    /// Builds a status from its tag byte and fields.
    pub fn from_byte(byte: u8, index: u32, pos_x: u32, pos_y: u32) -> (r: Result<Self>)
        ensures
            r == Self::spec_from_byte(byte, index, pos_x, pos_y),
            r is Ok <==> byte <= OUT_REACH,
            r is Err ==> r == Err::<Self, ParseError>(ParseError::Unknown { value: byte }),
    {
        let info = ItemInfo { index, pos_x, pos_y };
        if byte == IN_REACH {
            Ok(Self::InReach(info))
        } else if byte == OUT_REACH {
            Ok(Self::OutReach(info))
        } else {
            Err(ParseError::unknown_byte(byte))
        }
    }

    /// Takes a status apart into its tag byte and fields.
    pub fn into_byte(self) -> (parts: (u8, u32, u32, u32))
        ensures
            parts == self.spec_into_byte(),
    {
        match self {
            Self::InReach(ItemInfo { index, pos_x, pos_y }) => (IN_REACH, index, pos_x, pos_y),
            Self::OutReach(ItemInfo { index, pos_x, pos_y }) => (OUT_REACH, index, pos_x, pos_y),
        }
    }
}

} // verus!
