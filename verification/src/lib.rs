//! Fixed-width binary wire formats exchanged between a controller and its
//! remote arms and item trackers, together with the decisions of the
//! background listener that turns arriving bytes into typed values.

pub mod arm_state_pkt;
pub mod cursor;
pub mod error;
pub mod item_reach_pkt;
pub mod listener;
pub mod new_item_pkt;
pub mod packet_defs;
pub mod pick_up_item_pkt;
pub mod take_item_pkt;

pub use crate::arm_state_pkt::{
    make_arm_state_pkt, parse_arm_state_pkt, ArmInfo, ArmState, ArmStatePkt,
};
pub use crate::cursor::{be_bytes, be_fields, be_u32, insert_bytes, BuffConverter};
pub use crate::error::{ParseError, Result};
pub use crate::item_reach_pkt::{
    make_reach_pkt, parse_reach_pkt, ItemInfo, ItemReachPkt, ItemStatus,
};
pub use crate::new_item_pkt::{make_new_item_pkt, parse_new_item_pkt, NewItemInfo, NewItemPkt};
pub use crate::listener::{
    handle_connection, handle_datagram, should_continue, step, Handled, Inbox, LoopAction,
    LoopEvent, LoopState, PeerAddr, ReadOutcome, RecvInfo, Signal, TryRecvError,
};
pub use crate::packet_defs::{decode, FourBytePkt, IntoData, Packet};
pub use crate::pick_up_item_pkt::{
    make_pick_up_item_pkt, parse_pick_up_item_pkt, PickUpItem, PickUpItemPkt,
};
pub use crate::take_item_pkt::{make_take_item_pkt, parse_take_item_pkt, TakeItem, TakeItemPkt};
