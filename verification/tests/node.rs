use rldp::envelope::{Complete, Confirm, FecParams, FecType, MessagePart, RldpMessagePart};
use rldp::node::{Dispatch, RldpNode, RldpTransfer};
use rldp::send::SendTransferState;

const ID: [u8; 32] = [3u8; 32];
const OTHER: [u8; 32] = [4u8; 32];

fn message(id: [u8; 32], part: u32, seqno: u32) -> MessagePart {
    MessagePart {
        transfer_id: id,
        fec_type: FecType::RaptorQ(FecParams { data_size: 4, symbol_size: 768, symbols_count: 1 }),
        part,
        total_size: 4,
        seqno,
        data: vec![seqno as u8; 768],
    }
}

fn send_fields(node: &RldpNode, id: &[u8; 32]) -> Option<(u32, bool, u32, u32)> {
    node.send_state(id).map(|s| (s.part(), s.has_reply(), s.seqno_sent(), s.seqno_recv()))
}

#[test]
fn new_node_knows_no_transfer() {
    let node = RldpNode::new();
    assert!(node.lookup(&ID).is_none());
    assert!(node.send_state(&ID).is_none());
}

#[test]
fn unknown_transfer_is_opened_and_fed() {
    let mut node = RldpNode::new();
    let first = message(ID, 0, 0);
    let mut reader = match node.try_consume_custom(RldpMessagePart::MessagePart(first.clone())) {
        Dispatch::Opened(reader) => reader,
        _ => panic!("a receive transfer should have been opened"),
    };
    assert!(matches!(node.lookup(&ID), Some(RldpTransfer::Recv(_))));
    let second = message(ID, 0, 1);
    assert!(matches!(
        node.try_consume_custom(RldpMessagePart::MessagePart(second.clone())),
        Dispatch::Queued
    ));
    assert_eq!(*reader.try_recv().unwrap(), first);
    assert_eq!(*reader.try_recv().unwrap(), second);
    assert!(reader.try_recv().is_err());
    assert!(node.lookup(&OTHER).is_none());
}

#[test]
fn answer_transfer_opens_an_identifier_once() {
    let mut node = RldpNode::new();
    assert!(node.answer_transfer(&ID).is_some());
    assert!(node.answer_transfer(&ID).is_none());
    assert!(matches!(node.lookup(&ID), Some(RldpTransfer::Recv(_))));
    node.mark_done(ID);
    assert!(node.answer_transfer(&ID).is_none());
    assert!(matches!(node.lookup(&ID), Some(RldpTransfer::Done)));
    node.remove(&ID);
    assert!(node.answer_transfer(&ID).is_some());
}

#[test]
fn late_packet_for_a_finished_transfer_is_answered() {
    let mut node = RldpNode::new();
    node.mark_done(ID);
    match node.try_consume_custom(RldpMessagePart::MessagePart(message(ID, 2, 17))) {
        Dispatch::Closed(confirm, complete) => {
            assert_eq!(confirm, Confirm { transfer_id: ID, part: 2, seqno: 17 });
            assert_eq!(complete, Complete { transfer_id: ID, part: 2 });
        },
        _ => panic!("the packet should have been answered"),
    }
    assert!(matches!(node.lookup(&ID), Some(RldpTransfer::Done)));
}

#[test]
fn packet_for_a_send_transfer_is_answered() {
    let mut node = RldpNode::new();
    node.insert(ID, RldpTransfer::Send(SendTransferState::new()));
    match node.try_consume_custom(RldpMessagePart::MessagePart(message(ID, 0, 1))) {
        Dispatch::Closed(confirm, complete) => {
            assert_eq!(confirm, Confirm { transfer_id: ID, part: 0, seqno: 1 });
            assert_eq!(complete, Complete { transfer_id: ID, part: 0 });
        },
        _ => panic!("the packet should have been answered"),
    }
    assert_eq!(send_fields(&node, &ID), Some((0, false, 0, 0)));
}

#[test]
fn confirm_moves_the_confirmed_identifier() {
    let mut node = RldpNode::new();
    let mut state = SendTransferState::new();
    state.set_seqno_sent(50);
    node.insert(ID, RldpTransfer::Send(state));
    let confirm = RldpMessagePart::Confirm(Confirm { transfer_id: ID, part: 0, seqno: 30 });
    assert!(matches!(node.try_consume_custom(confirm.clone()), Dispatch::Handled));
    assert_eq!(send_fields(&node, &ID), Some((0, false, 50, 30)));
    assert!(matches!(node.try_consume_custom(confirm), Dispatch::Handled));
    assert_eq!(send_fields(&node, &ID), Some((0, false, 50, 30)));
    let ahead = RldpMessagePart::Confirm(Confirm { transfer_id: ID, part: 0, seqno: 51 });
    assert!(matches!(node.try_consume_custom(ahead), Dispatch::Handled));
    assert_eq!(send_fields(&node, &ID), Some((0, false, 50, 30)));
    let elsewhere = RldpMessagePart::Confirm(Confirm { transfer_id: ID, part: 1, seqno: 40 });
    assert!(matches!(node.try_consume_custom(elsewhere), Dispatch::Handled));
    assert_eq!(send_fields(&node, &ID), Some((0, false, 50, 30)));
}

#[test]
fn complete_moves_the_slice_index_once() {
    let mut node = RldpNode::new();
    node.insert(ID, RldpTransfer::Send(SendTransferState::new()));
    let complete = RldpMessagePart::Complete(Complete { transfer_id: ID, part: 0 });
    assert!(matches!(node.try_consume_custom(complete.clone()), Dispatch::Handled));
    assert_eq!(send_fields(&node, &ID), Some((1, false, 0, 0)));
    assert!(matches!(node.try_consume_custom(complete), Dispatch::Handled));
    assert_eq!(send_fields(&node, &ID), Some((1, false, 0, 0)));
}

#[test]
fn confirm_and_complete_for_others_are_passed_over() {
    let mut node = RldpNode::new();
    let complete = RldpMessagePart::Complete(Complete { transfer_id: ID, part: 0 });
    let confirm = RldpMessagePart::Confirm(Confirm { transfer_id: ID, part: 0, seqno: 1 });
    assert!(matches!(node.try_consume_custom(complete.clone()), Dispatch::Handled));
    assert!(node.lookup(&ID).is_none());
    node.mark_done(ID);
    assert!(matches!(node.try_consume_custom(confirm.clone()), Dispatch::Handled));
    assert!(matches!(node.lookup(&ID), Some(RldpTransfer::Done)));
    let _reader = node.listen(OTHER);
    let complete = RldpMessagePart::Complete(Complete { transfer_id: OTHER, part: 0 });
    assert!(matches!(node.try_consume_custom(complete), Dispatch::Handled));
    assert!(matches!(node.lookup(&OTHER), Some(RldpTransfer::Recv(_))));
}

#[test]
fn shared_state_is_stored_for_send_transfers_only() {
    let mut node = RldpNode::new();
    let mut state = SendTransferState::new();
    state.set_seqno_sent(9);
    node.store_send_state(&ID, state);
    assert!(node.lookup(&ID).is_none());
    node.mark_done(ID);
    node.store_send_state(&ID, state);
    assert!(matches!(node.lookup(&ID), Some(RldpTransfer::Done)));
    node.insert(ID, RldpTransfer::Send(SendTransferState::new()));
    node.store_send_state(&ID, state);
    assert_eq!(send_fields(&node, &ID), Some((0, false, 9, 0)));
    node.set_reply(&ID);
    assert_eq!(send_fields(&node, &ID), Some((0, true, 9, 0)));
    node.set_reply(&OTHER);
    assert!(node.lookup(&OTHER).is_none());
}

#[test]
fn timeout_follows_the_roundtrip() {
    assert_eq!(RldpNode::calc_timeout(None), 10000);
    assert_eq!(RldpNode::calc_timeout(Some(0)), 500);
    assert_eq!(RldpNode::calc_timeout(Some(499)), 500);
    assert_eq!(RldpNode::calc_timeout(Some(500)), 500);
    assert_eq!(RldpNode::calc_timeout(Some(700)), 700);
    assert_eq!(RldpNode::calc_timeout(Some(20000)), 20000);
}

#[test]
fn roundtrip_is_averaged() {
    let mut roundtrip = 0;
    assert_eq!(RldpNode::update_roundtrip(&mut roundtrip, 300), 500);
    assert_eq!(roundtrip, 300);
    assert_eq!(RldpNode::update_roundtrip(&mut roundtrip, 1501), 900);
    assert_eq!(roundtrip, 900);
    assert_eq!(RldpNode::update_roundtrip(&mut roundtrip, 0), 500);
    assert_eq!(roundtrip, 450);
    let mut large = u64::MAX;
    assert_eq!(RldpNode::update_roundtrip(&mut large, u64::MAX), u64::MAX);
}

#[test]
fn wait_is_stretched_by_progress() {
    assert!(!RldpNode::is_timed_out(500, 0, 500));
    assert!(RldpNode::is_timed_out(500, 0, 501));
    // 500 + 500 * 30 / 100 = 650
    assert!(!RldpNode::is_timed_out(500, 30, 650));
    assert!(RldpNode::is_timed_out(500, 30, 651));
    // 750 + 750 * 1 / 100 = 757
    assert!(!RldpNode::is_timed_out(750, 1, 757));
    assert!(RldpNode::is_timed_out(750, 1, 758));
    assert!(!RldpNode::is_timed_out(u64::MAX, u32::MAX, u64::MAX));
}

#[test]
fn packets_reach_the_queue_in_the_order_in_which_they_came() {
    let mut node = RldpNode::new();
    let mut reader = node.answer_transfer(&ID).unwrap();
    assert!(reader.try_recv().is_err());
    for seqno in 0..5 {
        let packet = RldpMessagePart::MessagePart(message(ID, 0, seqno));
        assert!(matches!(node.try_consume_custom(packet), Dispatch::Queued));
    }
    for seqno in 0..5 {
        assert_eq!(*reader.try_recv().unwrap(), message(ID, 0, seqno));
    }
    assert!(reader.try_recv().is_err());
    // A packet for another transfer goes to another queue.
    let mut other = match node.try_consume_custom(RldpMessagePart::MessagePart(message(OTHER, 0, 9))) {
        Dispatch::Opened(other) => other,
        _ => panic!("a receive transfer should have been opened"),
    };
    assert!(reader.try_recv().is_err());
    assert_eq!(*other.try_recv().unwrap(), message(OTHER, 0, 9));
    node.push(&ID, message(ID, 1, 1));
    assert_eq!(*reader.try_recv().unwrap(), message(ID, 1, 1));
    node.push(&[7u8; 32], message(ID, 1, 2));
    assert!(node.lookup(&[7u8; 32]).is_none());
}

#[test]
fn listening_replaces_what_stood_there() {
    let mut node = RldpNode::new();
    node.mark_done(ID);
    let mut reader = node.listen(ID);
    assert!(matches!(node.lookup(&ID), Some(RldpTransfer::Recv(_))));
    let packet = RldpMessagePart::MessagePart(message(ID, 0, 3));
    assert!(matches!(node.try_consume_custom(packet), Dispatch::Queued));
    assert_eq!(*reader.try_recv().unwrap(), message(ID, 0, 3));
}
