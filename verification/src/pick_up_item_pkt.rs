//! The order to pick up an item, named by its id.

use vstd::prelude::*;
use crate::cursor::{be_bytes, be_u32, lemma_be_u32_of_be_bytes, u32_from_be, u32_to_be};
use crate::error::{ParseError, Result};
use crate::packet_defs::{FourBytePkt, IntoData};

verus! {

pub const PKT_SIZE: usize = 4;

pub type PickUpItemPkt = FourBytePkt;

/// The item to pick up.
#[derive(Debug, Clone, Copy, PartialEq, Eq, Structural)]
pub struct PickUpItem {
    pub id: u32,
}

/// Encoding and then decoding gives the value back.
pub proof fn lemma_pick_up_item_round_trip(item: PickUpItem)
    ensures
        be_bytes(item.id).len() == PKT_SIZE,
        (PickUpItem { id: be_u32(be_bytes(item.id)) }) == item,
{
    lemma_be_u32_of_be_bytes(item.id);
}

impl IntoData<PickUpItemPkt> for PickUpItem {
    open spec fn data_of(bytes: Seq<u8>) -> Result<Self> {
        Ok(PickUpItem { id: be_u32(bytes) })
    }

    open spec fn packet_of(self) -> Seq<u8> {
        be_bytes(self.id)
    }

    proof fn round_trip(self) {
        lemma_pick_up_item_round_trip(self);
    }

    fn into_data(p: PickUpItemPkt) -> (r: Result<Self>) {
        let data = parse_pick_up_item_pkt(p);
        Ok(data)
    }

    fn into_packet(self) -> (p: PickUpItemPkt) {
        make_pick_up_item_pkt(self)
    }
}

/// Encodes the order: the id in network byte order.
pub fn make_pick_up_item_pkt(item: PickUpItem) -> (pkt: PickUpItemPkt)
    ensures
        pkt@ == be_bytes(item.id),
{
    u32_to_be(item.id)
}

/// Decodes the order; every buffer of the format's width decodes.
pub fn parse_pick_up_item_pkt(pkt: PickUpItemPkt) -> (item: PickUpItem)
    ensures
        item == (PickUpItem { id: be_u32(pkt@) }),
{
    let id: u32 = u32_from_be(pkt);
    PickUpItem { id }
}

} // verus!
