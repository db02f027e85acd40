//! A new item: its id and the location where it appeared.

use vstd::prelude::*;
use crate::cursor::{be_bytes, be_u32, lemma_be_u32_of_be_bytes, u32_from_be, u32_to_be};
use crate::error::{ParseError, Result};
use crate::packet_defs::IntoData;

verus! {

pub const PKT_SIZE: usize = 8;

pub type NewItemPkt = [u8; 8];

/// An item and where it appeared.
#[derive(Debug, Clone, Copy, PartialEq, Eq, Structural)]
pub struct NewItemInfo {
    pub id: u32,
    pub location: u32,
}

/// The eight bytes that encode `info`: id, then location.
pub open spec fn new_item_wire(info: NewItemInfo) -> Seq<u8> {
    be_bytes(info.id) + be_bytes(info.location)
}

/// What eight bytes decode to.
pub open spec fn new_item_of_wire(bytes: Seq<u8>) -> NewItemInfo {
    NewItemInfo { id: be_u32(bytes.subrange(0, 4)), location: be_u32(bytes.subrange(4, 8)) }
}

/// Encoding and then decoding gives the value back.
pub proof fn lemma_new_item_round_trip(info: NewItemInfo)
    ensures
        new_item_wire(info).len() == PKT_SIZE,
        new_item_of_wire(new_item_wire(info)) == info,
{
    let bytes = new_item_wire(info);
    lemma_be_u32_of_be_bytes(info.id);
    lemma_be_u32_of_be_bytes(info.location);
    assert(bytes.subrange(0, 4) =~= be_bytes(info.id));
    assert(bytes.subrange(4, 8) =~= be_bytes(info.location));
}

impl IntoData<NewItemPkt> for NewItemInfo {
    open spec fn data_of(bytes: Seq<u8>) -> Result<Self> {
        Ok(new_item_of_wire(bytes))
    }

    open spec fn packet_of(self) -> Seq<u8> {
        new_item_wire(self)
    }

    proof fn round_trip(self) {
        lemma_new_item_round_trip(self);
    }

    fn into_data(p: NewItemPkt) -> (r: Result<Self>) {
        parse_new_item_pkt(p)
    }

    fn into_packet(self) -> (p: NewItemPkt) {
        make_new_item_pkt(self)
    }
}

/// Encodes a new item.
pub fn make_new_item_pkt(info: NewItemInfo) -> (buff: NewItemPkt)
    ensures
        buff@ == new_item_wire(info),
{
    let id: [u8; 4] = u32_to_be(info.id);
    let loc: [u8; 4] = u32_to_be(info.location);
    let buff: NewItemPkt = [id[0], id[1], id[2], id[3], loc[0], loc[1], loc[2], loc[3]];
    assert(buff@ =~= new_item_wire(info));
    buff
}

/// Decodes a new item; every buffer of the format's width decodes.
pub fn parse_new_item_pkt(buff: NewItemPkt) -> (r: Result<NewItemInfo>)
    ensures
        r == Ok::<NewItemInfo, ParseError>(new_item_of_wire(buff@)),
{
    let id: [u8; 4] = [buff[0], buff[1], buff[2], buff[3]];
    let loc: [u8; 4] = [buff[4], buff[5], buff[6], buff[7]];
    proof {
        assert(id@ =~= buff@.subrange(0, 4));
        assert(loc@ =~= buff@.subrange(4, 8));
    }
    let id: u32 = u32_from_be(id);
    let location: u32 = u32_from_be(loc);
    Ok(NewItemInfo { id, location })
}

} // verus!
