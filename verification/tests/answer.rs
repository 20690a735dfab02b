use rldp::answer::answer_decision;
use rldp::envelope::{complement_id, Answer, Query};
use rldp::error::RldpError;
use rldp::node::{RldpNode, RldpTransfer};

const QUERY_ID: [u8; 32] = [0x24u8; 32];
const ID: [u8; 32] = [0x0Fu8; 32];

fn query(max_answer_size: i64) -> Query {
    Query { query_id: QUERY_ID, max_answer_size, timeout: 0, data: b"ping".to_vec() }
}

fn answer(len: usize) -> Answer {
    Answer { query_id: QUERY_ID, data: vec![7; len] }
}

#[test]
fn claimed_query_without_answer_sends_nothing() {
    assert_eq!(answer_decision(&query(100), true, None, 0), Ok(None));
    assert_eq!(answer_decision(&query(100), true, None, 1000), Ok(None));
}

#[test]
fn unclaimed_query_is_an_error() {
    assert_eq!(answer_decision(&query(100), false, None, 0), Err(RldpError::NoSubscribers));
    assert_eq!(
        answer_decision(&query(100), false, Some(answer(1)), 40),
        Err(RldpError::NoSubscribers)
    );
}

#[test]
fn answer_is_held_to_the_size_the_querier_accepts() {
    // What counts is the size on the wire, not the size of the data.
    assert_eq!(
        answer_decision(&query(100), true, Some(answer(100)), 140),
        Err(RldpError::AnswerTooBig)
    );
    assert_eq!(answer_decision(&query(100), true, Some(answer(60)), 100), Ok(Some(answer(60))));
    assert_eq!(
        answer_decision(&query(100), true, Some(answer(60)), 101),
        Err(RldpError::AnswerTooBig)
    );
    assert_eq!(answer_decision(&query(0), true, Some(answer(0)), 0), Ok(Some(answer(0))));
    assert_eq!(answer_decision(&query(0), true, Some(answer(0)), 1), Err(RldpError::AnswerTooBig));
    assert_eq!(answer_decision(&query(-1), true, Some(answer(0)), 0), Err(RldpError::AnswerTooBig));
    assert_eq!(
        answer_decision(&query(i64::MAX), true, Some(answer(5)), 45),
        Ok(Some(answer(5)))
    );
}

#[test]
fn answer_goes_back_under_the_complement() {
    let mut node = RldpNode::new();
    let data = b"pong".to_vec();
    let transfer = node.open_answer(&ID, &data);
    assert_eq!(transfer.transfer_id(), [0xF0u8; 32]);
    assert_eq!(transfer.transfer_id(), complement_id(&ID));
    assert!(matches!(node.lookup(&[0xF0u8; 32]), Some(RldpTransfer::Send(_))));
    assert!(node.lookup(&ID).is_none());
}

#[test]
fn both_transfers_are_forgotten() {
    let mut node = RldpNode::new();
    let data = b"pong".to_vec();
    node.mark_done(ID);
    let transfer = node.open_answer(&ID, &data);
    let send_id = transfer.transfer_id();
    node.forget_answer(&ID, None);
    assert!(node.lookup(&ID).is_none());
    assert!(node.lookup(&send_id).is_some());
    node.mark_done(ID);
    node.forget_answer(&ID, Some(send_id));
    assert!(node.lookup(&ID).is_none());
    assert!(node.lookup(&send_id).is_none());
}
