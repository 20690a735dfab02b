use rldp::codec::RaptorqEncoder;
use rldp::envelope::{Complete, FecParams, FecType, MessagePart, RldpMessagePart};
use rldp::error::RldpError;
use rldp::node::{RldpNode, RldpTransfer};
use rldp::recv::RecvTransfer;
use rldp::recv_loop::{ReceiveLoop, Received};
use rldp::send::SendTransferState;

const RECV: [u8; 32] = [1u8; 32];
const SEND: [u8; 32] = [0xFEu8; 32];

fn packet(params: FecParams, total_size: u64, seqno: u32, data: Vec<u8>) -> MessagePart {
    MessagePart {
        transfer_id: RECV,
        fec_type: FecType::RaptorQ(params),
        part: 0,
        total_size,
        seqno,
        data,
    }
}

#[test]
fn first_rebuilt_bytes_tell_the_paired_send_transfer() {
    let mut node = RldpNode::new();
    node.insert(SEND, RldpTransfer::Send(SendTransferState::new()));
    let mut looped = ReceiveLoop::new(Some(SEND));
    let mut transfer = RecvTransfer::new(RECV);
    let data: Vec<u8> = (0..2000).map(|i| i as u8).collect();
    let mut encoder = RaptorqEncoder::with_data(&data);
    let params = *encoder.params();
    let mut seqno = 0;

    let symbol = encoder.encode(&mut seqno).unwrap();
    let received = node.receive_step(&mut looped, &mut transfer, packet(params, 2000, 0, symbol));
    assert_eq!(received, Received { reply: None, error: None, done: false });
    // A symbol has come, but no byte of the message is rebuilt yet.
    assert!(!node.send_state(&SEND).unwrap().has_reply());
    assert_eq!(transfer.updates(), 1);

    let symbol = encoder.encode(&mut seqno).unwrap();
    let received = node.receive_step(&mut looped, &mut transfer, packet(params, 2001, 1, symbol.clone()));
    assert_eq!(
        received,
        Received { reply: None, error: Some(RldpError::TotalSizeMismatch), done: false }
    );
    assert_eq!(transfer.updates(), 2);
    assert!(!node.send_state(&SEND).unwrap().has_reply());

    let received = node.receive_step(&mut looped, &mut transfer, packet(params, 2000, 1, symbol));
    assert_eq!(received, Received { reply: None, error: None, done: false });
    assert!(!node.send_state(&SEND).unwrap().has_reply());
    let symbol = encoder.encode(&mut seqno).unwrap();
    let received = node.receive_step(&mut looped, &mut transfer, packet(params, 2000, 2, symbol));
    assert_eq!(
        received,
        Received {
            reply: Some(RldpMessagePart::Complete(Complete { transfer_id: RECV, part: 0 })),
            error: None,
            done: true,
        }
    );
    assert!(node.send_state(&SEND).unwrap().has_reply());
    assert_eq!(transfer.updates(), 4);
    assert_eq!(transfer.into_data(), data);
}

#[test]
fn paired_send_transfer_is_told_once() {
    let mut node = RldpNode::new();
    node.insert(SEND, RldpTransfer::Send(SendTransferState::new()));
    let mut looped = ReceiveLoop::new(Some(SEND));
    let mut transfer = RecvTransfer::new(RECV);
    let mut encoder = RaptorqEncoder::with_data(&[7u8; 800]);
    let params = *encoder.params();
    let mut seqno = 0;
    for _ in 0..2 {
        let symbol = encoder.encode(&mut seqno).unwrap();
        node.receive_step(&mut looped, &mut transfer, packet(params, 1600, seqno, symbol));
    }
    assert_eq!(transfer.data().len(), 800);
    assert!(node.send_state(&SEND).unwrap().has_reply());
    // The send transfer is replaced by a fresh one; a further packet does
    // not tell it again.
    node.insert(SEND, RldpTransfer::Send(SendTransferState::new()));
    let mut late = packet(params, 1600, 0, vec![0; 768]);
    late.part = 0;
    node.receive_step(&mut looped, &mut transfer, late);
    assert!(!node.send_state(&SEND).unwrap().has_reply());
}

#[test]
fn rejected_first_packet_is_counted_but_is_no_reply() {
    let mut node = RldpNode::new();
    node.insert(SEND, RldpTransfer::Send(SendTransferState::new()));
    let mut looped = ReceiveLoop::new(Some(SEND));
    let mut transfer = RecvTransfer::new(RECV);
    let params = FecParams { data_size: 4, symbol_size: 768, symbols_count: 1 };
    let mut message = packet(params, 4, 0, vec![0; 768]);
    message.fec_type = FecType::Online(params);
    let received = node.receive_step(&mut looped, &mut transfer, message);
    assert_eq!(
        received,
        Received { reply: None, error: Some(RldpError::UnsupportedFecType), done: false }
    );
    assert!(!node.send_state(&SEND).unwrap().has_reply());
    assert_eq!(transfer.updates(), 1);
    // The first packet that brings bytes of the message is the reply.
    let mut encoder = RaptorqEncoder::with_data(b"pong");
    let params = *encoder.params();
    let mut seqno = 0;
    let symbol = encoder.encode(&mut seqno).unwrap();
    let received = node.receive_step(&mut looped, &mut transfer, packet(params, 4, 0, symbol));
    assert!(received.done);
    assert!(node.send_state(&SEND).unwrap().has_reply());
}

#[test]
fn loop_without_paired_transfer_touches_no_other() {
    let mut node = RldpNode::new();
    node.insert(SEND, RldpTransfer::Send(SendTransferState::new()));
    let mut looped = ReceiveLoop::new(None);
    let mut transfer = RecvTransfer::new(RECV);
    let mut encoder = RaptorqEncoder::with_data(b"ping");
    let params = *encoder.params();
    let mut seqno = 0;
    let symbol = encoder.encode(&mut seqno).unwrap();
    let received = node.receive_step(&mut looped, &mut transfer, packet(params, 4, 0, symbol));
    assert!(received.done);
    assert!(!node.send_state(&SEND).unwrap().has_reply());
}
