use packet_codec::arm_state_pkt::{
    parse_arm_status, ready_into_pkt, waiting_into_pkt, working_into_pkt,
};
use packet_codec::item_reach_pkt::make_buffer;
use packet_codec::{
    decode, make_arm_state_pkt, make_new_item_pkt, make_pick_up_item_pkt, make_reach_pkt,
    make_take_item_pkt, parse_arm_state_pkt, parse_new_item_pkt, parse_pick_up_item_pkt,
    parse_reach_pkt, parse_take_item_pkt, ArmInfo, ArmState, ArmStatePkt, FourBytePkt, IntoData,
    ItemInfo, ItemReachPkt, ItemStatus, NewItemInfo, NewItemPkt, Packet, ParseError, PickUpItem,
    TakeItem, TakeItemPkt,
};

#[test]
fn test_unknown_byte() {
    let mut pkt = ItemReachPkt::default();
    pkt[0] = 2;
    let result = parse_reach_pkt(&pkt);
    assert_eq!(result, Err(ParseError::Unknown { value: 2 }));
}

fn into_arm_info(waiting: bool, opt: Option<u32>, arm_id: u32) -> ArmInfo {
    let default = if waiting { ArmState::Waiting } else { ArmState::Ready };
    let status = opt.map(|v| ArmState::Working(v)).unwrap_or(default);
    ArmInfo { arm_id, status }
}

fn arm_state_conversion(waiting: bool, value: Option<u32>, arm_id: u32) -> bool {
    let correct = into_arm_info(waiting, value, arm_id);
    let pkt = make_arm_state_pkt(correct);
    let result = parse_arm_state_pkt(pkt).unwrap();
    let expect = into_arm_info(waiting, value, arm_id);
    result == expect
}

#[test]
fn test_arm_state_conversion() {
    quickcheck::quickcheck(arm_state_conversion as fn(bool, Option<u32>, u32) -> bool);
}

fn make_item_status(in_reach: bool, index: u32, pos_x: u32, pos_y: u32) -> ItemStatus {
    let info = ItemInfo { index, pos_x, pos_y };
    if in_reach {
        ItemStatus::InReach(info)
    } else {
        ItemStatus::OutReach(info)
    }
}

fn reach_conversion(in_reach: bool, index: u32, pos_x: u32, pos_y: u32) -> bool {
    let input = make_item_status(in_reach, index, pos_x, pos_y);
    let result = parse_reach_pkt(&make_reach_pkt(input)).unwrap();
    let expect = make_item_status(in_reach, index, pos_x, pos_y);
    result == expect
}

#[test]
fn test_conversion() {
    quickcheck::quickcheck(reach_conversion as fn(bool, u32, u32, u32) -> bool);
}

fn new_item_conversion(id: u32, location: u32) -> bool {
    let info = NewItemInfo { id, location };
    let result = parse_new_item_pkt(make_new_item_pkt(info)).unwrap();
    result.id == id && result.location == location
}

#[test]
fn test_new_item_conversion() {
    quickcheck::quickcheck(new_item_conversion as fn(u32, u32) -> bool);
}

fn take_item_conversion(id: u32) -> bool {
    let take_item = TakeItem { id };
    let pkt = make_take_item_pkt(take_item);
    let res = parse_take_item_pkt(pkt);
    res.id == id
}

#[test]
fn test_take_item_conversion() {
    quickcheck::quickcheck(take_item_conversion as fn(u32) -> bool);
}

fn pick_up_item_conversion(curr_id: u32) -> bool {
    let pick_up = PickUpItem { id: curr_id };
    let pkt = make_pick_up_item_pkt(pick_up);
    let result = parse_pick_up_item_pkt(pkt);
    result.id == curr_id
}

#[test]
fn check_take_item_conversion() {
    quickcheck::quickcheck(pick_up_item_conversion as fn(u32) -> bool);
}

#[test]
fn new_item_example_bytes() {
    let pkt = make_new_item_pkt(NewItemInfo { id: 7, location: 42 });
    assert_eq!(pkt, [0, 0, 0, 7, 0, 0, 0, 42]);
    assert_eq!(parse_new_item_pkt(pkt), Ok(NewItemInfo { id: 7, location: 42 }));
}

#[test]
fn new_item_is_id_then_location() {
    let pkt = make_new_item_pkt(NewItemInfo { id: 0x0102_0304, location: 0xA0B0_C0D0 });
    assert_eq!(pkt, [1, 2, 3, 4, 0xA0, 0xB0, 0xC0, 0xD0]);
    assert_eq!(
        parse_new_item_pkt([0xFF, 0xFF, 0xFF, 0xFF, 0, 0, 1, 0]),
        Ok(NewItemInfo { id: u32::MAX, location: 256 })
    );
}

#[test]
fn arm_state_bytes_of_each_state() {
    let ready = make_arm_state_pkt(ArmInfo { arm_id: 5, status: ArmState::Ready });
    assert_eq!(ready, [0, 0, 0, 0, 0, 0, 0, 0, 5]);
    let working = make_arm_state_pkt(ArmInfo { arm_id: 0x0100, status: ArmState::Working(9) });
    assert_eq!(working, [1, 0, 0, 0, 9, 0, 0, 1, 0]);
    let waiting = make_arm_state_pkt(ArmInfo { arm_id: u32::MAX, status: ArmState::Waiting });
    assert_eq!(waiting, [2, 0, 0, 0, 0, 255, 255, 255, 255]);
}

#[test]
fn arm_state_decodes_each_state() {
    assert_eq!(
        parse_arm_state_pkt([0, 0, 0, 0, 0, 0, 0, 0, 5]),
        Ok(ArmInfo { arm_id: 5, status: ArmState::Ready })
    );
    assert_eq!(
        parse_arm_state_pkt([1, 0, 0, 1, 2, 0, 0, 0, 3]),
        Ok(ArmInfo { arm_id: 3, status: ArmState::Working(258) })
    );
    assert_eq!(
        parse_arm_state_pkt([2, 0, 0, 0, 0, 0, 0, 0, 1]),
        Ok(ArmInfo { arm_id: 1, status: ArmState::Waiting })
    );
}

#[test]
fn arm_state_value_is_ignored_unless_working() {
    assert_eq!(
        parse_arm_state_pkt([0, 9, 9, 9, 9, 0, 0, 0, 4]),
        Ok(ArmInfo { arm_id: 4, status: ArmState::Ready })
    );
    assert_eq!(
        parse_arm_state_pkt([2, 9, 9, 9, 9, 0, 0, 0, 4]),
        Ok(ArmInfo { arm_id: 4, status: ArmState::Waiting })
    );
}

#[test]
fn arm_state_unknown_tag() {
    assert_eq!(
        parse_arm_state_pkt([3, 0, 0, 0, 0, 0, 0, 0, 0]),
        Err(ParseError::Unknown { value: 3 })
    );
    assert_eq!(
        parse_arm_state_pkt([255, 0, 0, 0, 1, 0, 0, 0, 2]),
        Err(ParseError::Unknown { value: 255 })
    );
    assert_eq!(parse_arm_status(7, 1), Err(ParseError::Unknown { value: 7 }));
    assert_eq!(parse_arm_status(1, 77), Ok(ArmState::Working(77)));
    assert_eq!(parse_arm_status(0, 77), Ok(ArmState::Ready));
    assert_eq!(parse_arm_status(2, 77), Ok(ArmState::Waiting));
}

#[test]
fn arm_state_writers_overwrite_the_whole_buffer() {
    let mut pkt: ArmStatePkt = [0xEE; 9];
    working_into_pkt(0x0A0B_0C0D, 2, &mut pkt);
    assert_eq!(pkt, [1, 0x0A, 0x0B, 0x0C, 0x0D, 0, 0, 0, 2]);
    waiting_into_pkt(3, &mut pkt);
    assert_eq!(pkt, [2, 0, 0, 0, 0, 0, 0, 0, 3]);
    ready_into_pkt(4, &mut pkt);
    assert_eq!(pkt, [0, 0, 0, 0, 0, 0, 0, 0, 4]);
}

#[test]
fn reach_bytes_and_back() {
    let info = ItemInfo { index: 1, pos_x: 0x0203, pos_y: 0x0405_0607 };
    let inside = make_reach_pkt(ItemStatus::InReach(info));
    assert_eq!(inside, [0, 0, 0, 0, 1, 0, 0, 2, 3, 4, 5, 6, 7]);
    let outside = make_reach_pkt(ItemStatus::OutReach(info));
    assert_eq!(outside, [1, 0, 0, 0, 1, 0, 0, 2, 3, 4, 5, 6, 7]);
    assert_eq!(parse_reach_pkt(&inside), Ok(ItemStatus::InReach(info)));
    assert_eq!(parse_reach_pkt(&outside), Ok(ItemStatus::OutReach(info)));
    assert_eq!(make_buffer(9, 1, 2, 3), [9, 0, 0, 0, 1, 0, 0, 0, 2, 0, 0, 0, 3]);
}

#[test]
fn reach_parts() {
    let info = ItemInfo { index: 10, pos_x: 20, pos_y: 30 };
    assert_eq!(ItemStatus::InReach(info).into_byte(), (0, 10, 20, 30));
    assert_eq!(ItemStatus::OutReach(info).into_byte(), (1, 10, 20, 30));
    assert_eq!(ItemStatus::from_byte(0, 10, 20, 30), Ok(ItemStatus::InReach(info)));
    assert_eq!(ItemStatus::from_byte(1, 10, 20, 30), Ok(ItemStatus::OutReach(info)));
    assert_eq!(ItemStatus::from_byte(200, 10, 20, 30), Err(ParseError::Unknown { value: 200 }));
}

#[test]
fn four_byte_formats() {
    assert_eq!(make_take_item_pkt(TakeItem { id: 0x1234_5678 }), [0x12, 0x34, 0x56, 0x78]);
    assert_eq!(parse_take_item_pkt([0, 0, 1, 1]), TakeItem { id: 257 });
    assert_eq!(make_pick_up_item_pkt(PickUpItem { id: 1 }), [0, 0, 0, 1]);
    assert_eq!(parse_pick_up_item_pkt([0x80, 0, 0, 0]), PickUpItem { id: 0x8000_0000 });
}

#[test]
fn trait_methods_agree_with_the_functions() {
    let arm = ArmInfo { arm_id: 12, status: ArmState::Working(34) };
    assert_eq!(arm.into_packet(), make_arm_state_pkt(arm));
    assert_eq!(ArmInfo::into_data([1, 0, 0, 0, 34, 0, 0, 0, 12]), Ok(arm));
    let item = NewItemInfo { id: 1, location: 2 };
    assert_eq!(item.into_packet(), [0, 0, 0, 1, 0, 0, 0, 2]);
    assert_eq!(NewItemInfo::into_data([0, 0, 0, 1, 0, 0, 0, 2]), Ok(item));
    assert_eq!(TakeItem::into_data([0, 0, 0, 9]), Ok(TakeItem { id: 9 }));
    assert_eq!(TakeItem { id: 9 }.into_packet(), [0, 0, 0, 9]);
    assert_eq!(PickUpItem::into_data([0, 0, 0, 8]), Ok(PickUpItem { id: 8 }));
    assert_eq!(PickUpItem { id: 8 }.into_packet(), [0, 0, 0, 8]);
    let reach = ItemStatus::OutReach(ItemInfo { index: 1, pos_x: 2, pos_y: 3 });
    assert_eq!(ItemStatus::into_data(reach.into_packet()), Ok(reach));
}

#[test]
fn packet_buffers() {
    assert_eq!(<ArmStatePkt as Packet>::size(), 9);
    assert_eq!(<ItemReachPkt as Packet>::size(), 13);
    assert_eq!(<NewItemPkt as Packet>::size(), 8);
    assert_eq!(<TakeItemPkt as Packet>::size(), 4);
    assert_eq!(<FourBytePkt as Packet>::size(), 4);
    assert_eq!(<NewItemPkt as Packet>::blank(), [0; 8]);
    assert_eq!(<FourBytePkt as Packet>::load(&[1, 2, 3, 4]), [1, 2, 3, 4]);
}

#[test]
fn decode_checks_the_length_first() {
    let short: [u8; 3] = [3, 0, 0];
    assert_eq!(
        decode::<ArmStatePkt, ArmInfo>(&short),
        Err(ParseError::WrongLen { expected: 9, actual: 3 })
    );
    let long: [u8; 14] = [7; 14];
    assert_eq!(
        decode::<ItemReachPkt, ItemStatus>(&long),
        Err(ParseError::WrongLen { expected: 13, actual: 14 })
    );
    assert_eq!(
        decode::<NewItemPkt, NewItemInfo>(&[]),
        Err(ParseError::WrongLen { expected: 8, actual: 0 })
    );
    assert_eq!(
        decode::<TakeItemPkt, TakeItem>(&[1, 2, 3, 4, 5]),
        Err(ParseError::WrongLen { expected: 4, actual: 5 })
    );
    assert_eq!(
        decode::<FourBytePkt, PickUpItem>(&[1]),
        Err(ParseError::WrongLen { expected: 4, actual: 1 })
    );
}

#[test]
fn decode_of_the_right_length_reads_the_bytes() {
    assert_eq!(
        decode::<ArmStatePkt, ArmInfo>(&[1, 0, 0, 0, 5, 0, 0, 0, 6]),
        Ok(ArmInfo { arm_id: 6, status: ArmState::Working(5) })
    );
    assert_eq!(
        decode::<ArmStatePkt, ArmInfo>(&[9, 0, 0, 0, 5, 0, 0, 0, 6]),
        Err(ParseError::Unknown { value: 9 })
    );
    assert_eq!(
        decode::<NewItemPkt, NewItemInfo>(&[0, 0, 0, 7, 0, 0, 0, 42]),
        Ok(NewItemInfo { id: 7, location: 42 })
    );
    let bytes = make_reach_pkt(ItemStatus::InReach(ItemInfo { index: 3, pos_x: 4, pos_y: 5 }));
    assert_eq!(
        decode::<ItemReachPkt, ItemStatus>(&bytes),
        Ok(ItemStatus::InReach(ItemInfo { index: 3, pos_x: 4, pos_y: 5 }))
    );
}

#[test]
fn error_messages() {
    assert_eq!(
        ParseError::Unknown { value: 2 }.message(),
        "Unknown byte value. Cannot parse byte: 2."
    );
    assert_eq!(
        ParseError::WrongLen { expected: 9, actual: 3 }.message(),
        "Input buffer has wrong length. Expected: 9 - Actual: 3"
    );
    assert_eq!(ParseError::unknown_byte(17), ParseError::Unknown { value: 17 });
}
