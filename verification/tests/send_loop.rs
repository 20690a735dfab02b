use rldp::envelope::{MessagePart, RldpMessagePart};
use rldp::error::RldpError;
use rldp::node::{RldpNode, RldpTransfer};
use rldp::recv::RecvTransfer;
use rldp::send::{SendTransfer, SendTransferState};
use rldp::send_loop::{SendAction, SendEvent, SendLoop, SendPhase, SendStep};

const ID: [u8; 32] = [6u8; 32];

fn sample(len: usize) -> Vec<u8> {
    (0..len).map(|i| (i * 11 % 239) as u8).collect()
}

struct Run {
    ok: bool,
    roundtrip: u64,
    packets: Vec<MessagePart>,
    sleeps: u32,
    received: Vec<u8>,
    whole: bool,
    seqno_recv: u32,
}

/// Runs a send loop against a receive transfer; `lost` says which packets,
/// counted from zero, never arrive.
fn run(data: &[u8], roundtrip: Option<u64>, lost: fn(usize) -> bool) -> Run {
    let mut node = RldpNode::new();
    node.insert(ID, RldpTransfer::Send(SendTransferState::new()));
    let mut transfer = SendTransfer::new(data, Some(ID));
    let mut looped = SendLoop::new(roundtrip);
    let mut receiver = RecvTransfer::new(ID);
    let mut packets = Vec::new();
    let mut sleeps = 0;
    let mut elapsed = 0;
    let mut event = SendEvent::Ready;
    loop {
        let SendStep { action, reset_clock } =
            node.send_step(&mut looped, &mut transfer, event, elapsed).unwrap();
        if reset_clock {
            elapsed = 0;
        }
        match action {
            SendAction::Transmit(message) => {
                let state = node.send_state(&ID).unwrap();
                assert_eq!(message.part, state.part());
                assert_eq!(message.total_size, data.len() as u64);
                assert!(state.seqno_recv() <= state.seqno_sent());
                if !lost(packets.len()) {
                    if let Ok(Some(reply)) = receiver.process_chunk(message.clone()) {
                        node.try_consume_custom(reply);
                    }
                }
                packets.push(message);
                event = SendEvent::Ready;
            },
            SendAction::Sleep => {
                sleeps += 1;
                elapsed += 10;
                event = SendEvent::Woke;
            },
            SendAction::Finished(ok, roundtrip) => {
                let whole = receiver.is_complete();
                let seqno_recv = node.send_state(&ID).unwrap().seqno_recv();
                return Run {
                    ok,
                    roundtrip,
                    packets,
                    sleeps,
                    received: receiver.into_data(),
                    whole,
                    seqno_recv,
                };
            },
        }
        assert!(packets.len() < 10000);
    }
}

#[test]
fn message_arrives_as_it_was_sent() {
    let data = sample(768 * 30 - 5);
    let run = run(&data, None, |_| false);
    assert!(run.ok);
    assert!(run.whole);
    assert_eq!(run.received, data);
    // Thirty source symbols in bursts of ten, a sleep after each burst but
    // the last, which the receiver cuts short with its Complete.
    assert_eq!(run.packets.len(), 30);
    assert_eq!(run.sleeps, 2);
    for (i, packet) in run.packets.iter().enumerate() {
        assert_eq!(packet.seqno, i as u32);
        assert_eq!(packet.part, 0);
    }
    // Two bursts took ten milliseconds each, and the last one none: the mean
    // of 10 and 10 is 10, and the mean of 10 and 0 is 5.
    assert_eq!(run.roundtrip, 5);
    assert_eq!(run.seqno_recv, 19);
}

#[test]
fn tiny_message_takes_one_packet() {
    let run = run(b"ping", None, |_| false);
    assert!(run.ok);
    assert_eq!(run.received, b"ping".to_vec());
    assert_eq!(run.packets.len(), 1);
    assert_eq!(run.sleeps, 0);
    assert_eq!(run.roundtrip, 0);
}

#[test]
fn lost_packets_are_made_up_for_by_repair_symbols() {
    let data = sample(768 * 40 + 100);
    let run = run(&data, None, |n| n % 3 == 2);
    assert!(run.ok);
    assert!(run.whole);
    assert_eq!(run.received, data);
    assert!(run.packets.len() > 41);
    // Past the source symbols the identifiers lie beyond the padded block.
    assert!(run.packets.iter().any(|p| p.seqno >= 42));
    assert!(run.sleeps >= 4);
    // Every tenth symbol that arrived was confirmed, and the sender saw it.
    assert!(run.seqno_recv >= 30);
}

#[test]
fn confirms_move_the_confirmed_identifier() {
    let data = sample(768 * 30);
    let mut node = RldpNode::new();
    node.insert(ID, RldpTransfer::Send(SendTransferState::new()));
    let mut transfer = SendTransfer::new(&data, Some(ID));
    let mut looped = SendLoop::new(None);
    let mut receiver = RecvTransfer::new(ID);
    let mut event = SendEvent::Ready;
    let mut sent = 0;
    while sent < 10 {
        let step = node.send_step(&mut looped, &mut transfer, event, 0).unwrap();
        match step.action {
            SendAction::Transmit(message) => {
                sent += 1;
                if let Ok(Some(reply)) = receiver.process_chunk(message) {
                    node.try_consume_custom(reply);
                }
                event = SendEvent::Ready;
            },
            _ => panic!("the first burst is ten packets long"),
        }
    }
    let state = node.send_state(&ID).unwrap();
    assert_eq!(state.seqno_sent(), 10);
    assert_eq!(state.seqno_recv(), 9);
    let step = node.send_step(&mut looped, &mut transfer, event, 0).unwrap();
    assert_eq!(step, SendStep { action: SendAction::Sleep, reset_clock: false });
    assert_eq!(looped.phase(), SendPhase::Burst { part: 0, wave: 10, left: 0, recv_seqno: 0 });
    // News from the peer starts the clock anew and goes into the roundtrip.
    let step = node.send_step(&mut looped, &mut transfer, SendEvent::Woke, 40).unwrap();
    assert!(step.reset_clock);
    assert!(matches!(step.action, SendAction::Transmit(_)));
    assert_eq!(looped.roundtrip(), 40);
    assert_eq!(looped.timeout(), 500);
    assert_eq!(looped.phase(), SendPhase::Burst { part: 0, wave: 10, left: 9, recv_seqno: 9 });
}

#[test]
fn silent_peer_ends_the_loop_with_the_roundtrip_doubled() {
    let data = sample(768 * 3);
    let run = run(&data, Some(600), |_| true);
    assert!(!run.ok);
    assert_eq!(run.roundtrip, 1200);
    assert!(!run.whole);
    // The wait of 600 ms is over after the 61st sleep of 10 ms; bursts are
    // three packets long, as the slice has three symbols.
    assert_eq!(run.sleeps, 61);
    assert_eq!(run.packets.len(), 3 * 61);
}

#[test]
fn backed_off_roundtrip_is_capped() {
    let run = run(b"ping", Some(7000), |_| true);
    assert!(!run.ok);
    assert_eq!(run.roundtrip, 10000);
    assert_eq!(run.sleeps, 701);
}

#[test]
fn silent_peer_without_estimate_waits_longest() {
    let run = run(b"ping", None, |_| true);
    assert!(!run.ok);
    assert_eq!(run.roundtrip, 0);
    assert_eq!(run.sleeps, 1001);
}

#[test]
fn finished_loop_says_so_again() {
    let data: Vec<u8> = Vec::new();
    let mut transfer = SendTransfer::new(&data, Some(ID));
    let mut state = SendTransferState::new();
    let mut looped = SendLoop::new(Some(800));
    assert_eq!(looped.timeout(), 800);
    assert_eq!(looped.phase(), SendPhase::Idle);
    let done = SendStep { action: SendAction::Finished(true, 800), reset_clock: false };
    assert_eq!(looped.step(&mut transfer, &mut state, SendEvent::Ready, 0), Ok(done.clone()));
    assert_eq!(looped.phase(), SendPhase::Over { ok: true });
    assert_eq!(looped.step(&mut transfer, &mut state, SendEvent::Woke, 5), Ok(done));
}

#[test]
fn slice_index_out_of_step_ends_the_loop() {
    let data = sample(768 * 3);
    let mut transfer = SendTransfer::new(&data, Some(ID));
    let mut state = SendTransferState::new();
    let mut looped = SendLoop::new(None);
    assert!(looped.step(&mut transfer, &mut state, SendEvent::Ready, 0).is_ok());
    state.on_complete(0);
    state.on_complete(1);
    assert_eq!(
        looped.step(&mut transfer, &mut state, SendEvent::Ready, 0),
        Err(RldpError::PartMismatch)
    );
    assert_eq!(looped.phase(), SendPhase::Over { ok: false });
}

#[test]
fn loop_without_registered_transfer_fails() {
    let data = sample(10);
    let mut node = RldpNode::new();
    let mut transfer = SendTransfer::new(&data, Some(ID));
    let mut looped = SendLoop::new(None);
    assert_eq!(
        node.send_step(&mut looped, &mut transfer, SendEvent::Ready, 0),
        Err(RldpError::UnknownTransfer)
    );
    node.mark_done(ID);
    assert_eq!(
        node.send_step(&mut looped, &mut transfer, SendEvent::Ready, 0),
        Err(RldpError::UnknownTransfer)
    );
    assert_eq!(looped.phase(), SendPhase::Idle);
}

#[test]
fn peer_that_moves_on_ends_the_slice() {
    let data = sample(768 * 3);
    let mut node = RldpNode::new();
    node.insert(ID, RldpTransfer::Send(SendTransferState::new()));
    let mut transfer = SendTransfer::new(&data, Some(ID));
    let mut looped = SendLoop::new(Some(1000));
    let step = node.send_step(&mut looped, &mut transfer, SendEvent::Ready, 0).unwrap();
    assert!(step.reset_clock);
    assert!(matches!(step.action, SendAction::Transmit(_)));
    node.try_consume_custom(RldpMessagePart::Complete(rldp::envelope::Complete {
        transfer_id: ID,
        part: 0,
    }));
    let step = node.send_step(&mut looped, &mut transfer, SendEvent::Ready, 200).unwrap();
    // (1000 + 200) / 2
    assert_eq!(step, SendStep { action: SendAction::Finished(true, 600), reset_clock: false });
    assert_eq!(looped.timeout(), 600);
}

#[test]
fn reply_ends_the_loop_within_the_last_slice() {
    let data = sample(768 * 3);
    let mut node = RldpNode::new();
    node.insert(ID, RldpTransfer::Send(SendTransferState::new()));
    let mut transfer = SendTransfer::new(&data, Some(ID));
    let mut looped = SendLoop::new(Some(1000));
    let step = node.send_step(&mut looped, &mut transfer, SendEvent::Ready, 0).unwrap();
    assert!(matches!(step.action, SendAction::Transmit(_)));
    node.set_reply(&ID);
    let step = node.send_step(&mut looped, &mut transfer, SendEvent::Ready, 400).unwrap();
    // (1000 + 400) / 2
    assert_eq!(step, SendStep { action: SendAction::Finished(true, 700), reset_clock: false });
    assert_eq!(looped.phase(), SendPhase::Over { ok: true });
}

#[test]
fn loop_that_begins_after_the_reply_still_sends() {
    let data = sample(768 * 3);
    let mut node = RldpNode::new();
    let mut state = SendTransferState::new();
    state.set_reply();
    node.insert(ID, RldpTransfer::Send(state));
    let mut transfer = SendTransfer::new(&data, Some(ID));
    let mut looped = SendLoop::new(None);
    let step = node.send_step(&mut looped, &mut transfer, SendEvent::Ready, 0).unwrap();
    assert!(matches!(step.action, SendAction::Transmit(_)));
    let step = node.send_step(&mut looped, &mut transfer, SendEvent::Ready, 0).unwrap();
    assert_eq!(step, SendStep { action: SendAction::Finished(true, 0), reset_clock: false });
}
