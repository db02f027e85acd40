//! The state of one arm: a tag byte, the value it works on, and its id.

use vstd::prelude::*;
use crate::cursor::{be_bytes, be_fields, be_u32, insert_bytes, lemma_be_u32_of_be_bytes, BuffConverter};
use crate::error::{ParseError, Result};
use crate::packet_defs::IntoData;

verus! {

pub const PKT_SIZE: usize = 1 + 4 + 4;

pub type ArmStatePkt = [u8; 9];

pub const READY: u8 = 0;

pub const WORKING: u8 = 1;

pub const WAITING: u8 = 2;

/// An arm and what it is doing.
#[derive(Debug, Clone, Copy, PartialEq, Eq, Structural)]
pub struct ArmInfo {
    pub arm_id: u32,
    pub status: ArmState,
}

/// What an arm is doing; a working arm names the item it works on.
#[derive(Debug, Clone, Copy, PartialEq, Eq, Structural)]
pub enum ArmState {
    Ready,
    Waiting,
    Working(u32),
}

/// The tag byte of a state.
pub open spec fn arm_tag(status: ArmState) -> u8 {
    match status {
        ArmState::Ready => READY,
        ArmState::Working(_) => WORKING,
        ArmState::Waiting => WAITING,
    }
}

/// The value field of a state: zero unless the arm is working.
pub open spec fn arm_value(status: ArmState) -> u32 {
    match status {
        ArmState::Working(value) => value,
        _ => 0,
    }
}

/// The layout of the format: tag, value, arm id.
pub open spec fn arm_layout(kind: u8, value: u32, index: u32) -> Seq<u8> {
    seq![kind] + be_bytes(value) + be_bytes(index)
}

/// The nine bytes that encode `info`.
pub open spec fn arm_state_wire(info: ArmInfo) -> Seq<u8> {
    arm_layout(arm_tag(info.status), arm_value(info.status), info.arm_id)
}

/// The state that a tag byte and a value field stand for.
pub open spec fn arm_status_of(first: u8, working_val: u32) -> Result<ArmState> {
    if first == READY {
        Ok(ArmState::Ready)
    } else if first == WORKING {
        Ok(ArmState::Working(working_val))
    } else if first == WAITING {
        Ok(ArmState::Waiting)
    } else {
        Err(ParseError::Unknown { value: first })
    }
}

/// What nine bytes decode to.
pub open spec fn arm_state_of_wire(bytes: Seq<u8>) -> Result<ArmInfo> {
    match arm_status_of(bytes[0], be_u32(bytes.subrange(1, 5))) {
        Ok(status) => Ok(ArmInfo { arm_id: be_u32(bytes.subrange(5, 9)), status }),
        Err(e) => Err(e),
    }
}

/// Encoding and then decoding gives the value back.
pub proof fn lemma_arm_state_round_trip(info: ArmInfo)
    ensures
        arm_state_wire(info).len() == PKT_SIZE,
        arm_state_of_wire(arm_state_wire(info)) == Ok::<ArmInfo, ParseError>(info),
{
    let bytes = arm_state_wire(info);
    lemma_be_u32_of_be_bytes(arm_value(info.status));
    lemma_be_u32_of_be_bytes(info.arm_id);
    assert(bytes.subrange(1, 5) =~= be_bytes(arm_value(info.status)));
    assert(bytes.subrange(5, 9) =~= be_bytes(info.arm_id));
}

/// A tag byte outside the three states is refused, and the failure names
/// the byte, whatever the other bytes are.
pub proof fn lemma_arm_state_unknown_tag(bytes: Seq<u8>)
    requires
        bytes.len() == PKT_SIZE,
        bytes[0] != READY && bytes[0] != WORKING && bytes[0] != WAITING,
    ensures
        arm_state_of_wire(bytes) == Err::<ArmInfo, ParseError>(
            ParseError::Unknown { value: bytes[0] },
        ),
{
}

impl IntoData<ArmStatePkt> for ArmInfo {
    open spec fn data_of(bytes: Seq<u8>) -> Result<Self> {
        arm_state_of_wire(bytes)
    }

    open spec fn packet_of(self) -> Seq<u8> {
        arm_state_wire(self)
    }

    proof fn round_trip(self) {
        lemma_arm_state_round_trip(self);
    }

    fn into_data(p: ArmStatePkt) -> (r: Result<Self>) {
        parse_arm_state_pkt(p)
    }

    fn into_packet(self) -> (p: ArmStatePkt) {
        make_arm_state_pkt(self)
    }
}

/// Encodes the state of an arm.
pub fn make_arm_state_pkt(state: ArmInfo) -> (pkt: ArmStatePkt)
    ensures
        pkt@ == arm_state_wire(state),
{
    let mut pkt: ArmStatePkt = [0u8; 9];
    match state.status {
        ArmState::Ready => ready_into_pkt(state.arm_id, &mut pkt),
        ArmState::Waiting => waiting_into_pkt(state.arm_id, &mut pkt),
        ArmState::Working(value) => working_into_pkt(value, state.arm_id, &mut pkt),
    }
    pkt
}

/// Decodes the state of an arm; a tag byte that names no state is refused.
pub fn parse_arm_state_pkt(pkt: ArmStatePkt) -> (r: Result<ArmInfo>)
    ensures
        r == arm_state_of_wire(pkt@),
        r is Ok <==> pkt@[0] <= WAITING,
        r is Err ==> r == Err::<ArmInfo, ParseError>(ParseError::Unknown { value: pkt@[0] }),
{
    let mut converter = BuffConverter::new(&pkt[1..9]);
    let working_val: u32 = converter.get_next_u32().unwrap();
    let arm_id: u32 = converter.get_next_u32().unwrap();
    match parse_arm_status(pkt[0], working_val) {
        Ok(status) => Ok(ArmInfo { arm_id, status }),
        Err(e) => Err(e),
    }
}

/// The state that a tag byte and a value field stand for.
pub fn parse_arm_status(first: u8, working_val: u32) -> (r: Result<ArmState>)
    ensures
        r == arm_status_of(first, working_val),
        r is Ok <==> first <= WAITING,
        r is Err ==> r == Err::<ArmState, ParseError>(ParseError::Unknown { value: first }),
{
    if first == READY {
        Ok(ArmState::Ready)
    } else if first == WORKING {
        Ok(ArmState::Working(working_val))
    } else if first == WAITING {
        Ok(ArmState::Waiting)
    } else {
        Err(ParseError::unknown_byte(first))
    }
}

/// Writes a working arm and the item it works on.
pub fn working_into_pkt(value: u32, index: u32, pkt: &mut ArmStatePkt)
    ensures
        final(pkt)@ == arm_layout(WORKING, value, index),
{
    build_packet(WORKING, value, index, pkt);
}

/// Writes a waiting arm.
pub fn waiting_into_pkt(index: u32, pkt: &mut ArmStatePkt)
    ensures
        final(pkt)@ == arm_layout(WAITING, 0, index),
{
    build_packet(WAITING, 0, index, pkt);
}

/// Writes a ready arm.
pub fn ready_into_pkt(index: u32, pkt: &mut ArmStatePkt)
    ensures
        final(pkt)@ == arm_layout(READY, 0, index),
{
    build_packet(READY, 0, index, pkt);
}

/// Writes the tag, then the two fields behind it.
pub fn build_packet(kind: u8, value: u32, index: u32, pkt: &mut ArmStatePkt)
    ensures
        final(pkt)@ == arm_layout(kind, value, index),
{
    pkt[0] = kind;
    let (head, tail) = pkt.split_at_mut(1);
    let fields: [u32; 2] = [value, index];
    insert_bytes(tail, &fields);
    proof {
        assert(be_fields(fields@) =~= be_bytes(value) + be_bytes(index));
        assert(pkt@ =~= arm_layout(kind, value, index));
    }
}

} // verus!
