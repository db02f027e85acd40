//! The order to take an item, named by its id.

use vstd::prelude::*;
use crate::cursor::{be_bytes, be_u32, lemma_be_u32_of_be_bytes, u32_from_be, u32_to_be};
use crate::error::{ParseError, Result};
use crate::packet_defs::IntoData;

verus! {

pub const PKT_SIZE: usize = 4;

pub type TakeItemPkt = [u8; 4];

/// The item to take.
#[derive(Debug, Clone, Copy, PartialEq, Eq, Structural)]
pub struct TakeItem {
    pub id: u32,
}

/// Encoding and then decoding gives the value back.
pub proof fn lemma_take_item_round_trip(take_item: TakeItem)
    ensures
        be_bytes(take_item.id).len() == PKT_SIZE,
        (TakeItem { id: be_u32(be_bytes(take_item.id)) }) == take_item,
{
    lemma_be_u32_of_be_bytes(take_item.id);
}

impl IntoData<TakeItemPkt> for TakeItem {
    open spec fn data_of(bytes: Seq<u8>) -> Result<Self> {
        Ok(TakeItem { id: be_u32(bytes) })
    }

    open spec fn packet_of(self) -> Seq<u8> {
        be_bytes(self.id)
    }

    proof fn round_trip(self) {
        lemma_take_item_round_trip(self);
    }

    fn into_data(p: TakeItemPkt) -> (r: Result<Self>) {
        let this = parse_take_item_pkt(p);
        Ok(this)
    }

    fn into_packet(self) -> (p: TakeItemPkt) {
        make_take_item_pkt(self)
    }
}

/// Encodes the order: the id in network byte order.
pub fn make_take_item_pkt(take_item: TakeItem) -> (pkt: TakeItemPkt)
    ensures
        pkt@ == be_bytes(take_item.id),
{
    u32_to_be(take_item.id)
}

/// Decodes the order; every buffer of the format's width decodes.
pub fn parse_take_item_pkt(pkt: TakeItemPkt) -> (take_item: TakeItem)
    ensures
        take_item == (TakeItem { id: be_u32(pkt@) }),
{
    let id: u32 = u32_from_be(pkt);
    TakeItem { id }
}

} // verus!
