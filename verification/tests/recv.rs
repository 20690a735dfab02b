use rldp::codec::RaptorqEncoder;
use rldp::envelope::{Complete, Confirm, FecParams, FecType, MessagePart, RldpMessagePart};
use rldp::error::RldpError;
use rldp::recv::{RecvTransfer, RecvTransferState};

const ID: [u8; 32] = [9u8; 32];

fn sample(len: usize) -> Vec<u8> {
    (0..len).map(|i| (i * 17 % 253) as u8).collect()
}

fn packet(params: FecParams, part: u32, total_size: u64, seqno: u32, data: Vec<u8>) -> MessagePart {
    MessagePart { transfer_id: ID, fec_type: FecType::RaptorQ(params), part, total_size, seqno, data }
}

fn complete(part: u32) -> RldpMessagePart {
    RldpMessagePart::Complete(Complete { transfer_id: ID, part })
}

fn confirm(part: u32, seqno: u32) -> RldpMessagePart {
    RldpMessagePart::Confirm(Confirm { transfer_id: ID, part, seqno })
}

#[test]
fn tiny_message_is_whole_after_one_symbol() {
    let mut encoder = RaptorqEncoder::with_data(b"ping");
    let params = *encoder.params();
    assert_eq!(params.symbols_count, 1);
    let mut seqno = 0;
    let symbol = encoder.encode(&mut seqno).unwrap();
    let mut transfer = RecvTransfer::new(ID);
    assert!(!transfer.is_complete());
    let reply = transfer.process_chunk(packet(params, 0, 4, seqno, symbol));
    assert_eq!(reply, Ok(Some(complete(0))));
    assert_eq!(transfer.data(), &b"ping".to_vec());
    assert_eq!(transfer.total_size(), Some(4));
    assert_eq!(transfer.part(), 0);
    assert!(transfer.is_complete());
    assert_eq!(transfer.into_data(), b"ping".to_vec());
}

#[test]
fn other_codes_are_rejected() {
    let params = FecParams { data_size: 4, symbol_size: 768, symbols_count: 1 };
    let mut transfer = RecvTransfer::new(ID);
    let mut message = packet(params, 0, 4, 0, vec![0; 768]);
    message.fec_type = FecType::RoundRobin(params);
    assert_eq!(transfer.process_chunk(message.clone()), Err(RldpError::UnsupportedFecType));
    message.fec_type = FecType::Online(params);
    assert_eq!(transfer.process_chunk(message), Err(RldpError::UnsupportedFecType));
    assert_eq!(transfer.total_size(), None);
}

#[test]
fn total_size_is_sticky() {
    let data = sample(3000);
    let mut encoder = RaptorqEncoder::with_data(&data);
    let params = *encoder.params();
    let mut seqno = 0;
    let first = encoder.encode(&mut seqno).unwrap();
    let mut transfer = RecvTransfer::new(ID);
    assert_eq!(transfer.process_chunk(packet(params, 0, 3000, 0, first)), Ok(None));
    assert_eq!(transfer.total_size(), Some(3000));
    let second = encoder.encode(&mut seqno).unwrap();
    assert_eq!(
        transfer.process_chunk(packet(params, 0, 3001, 1, second)),
        Err(RldpError::TotalSizeMismatch)
    );
    assert_eq!(transfer.total_size(), Some(3000));
}

#[test]
fn parameters_of_a_slice_are_sticky() {
    let data = sample(3000);
    let mut encoder = RaptorqEncoder::with_data(&data);
    let params = *encoder.params();
    let mut seqno = 0;
    let first = encoder.encode(&mut seqno).unwrap();
    let mut transfer = RecvTransfer::new(ID);
    assert_eq!(transfer.process_chunk(packet(params, 0, 3000, 0, first)), Ok(None));
    let second = encoder.encode(&mut seqno).unwrap();
    let other = FecParams { symbols_count: 5, ..params };
    assert_eq!(
        transfer.process_chunk(packet(other, 0, 3000, 1, second)),
        Err(RldpError::ParamsMismatch)
    );
}

#[test]
fn parameters_without_decoder_are_rejected() {
    let mut transfer = RecvTransfer::new(ID);
    let empty = FecParams { data_size: 0, symbol_size: 768, symbols_count: 0 };
    assert_eq!(
        transfer.process_chunk(packet(empty, 0, 10, 0, vec![0; 768])),
        Err(RldpError::UnsupportedFecParams)
    );
    let wide = FecParams { data_size: 10, symbol_size: 70000, symbols_count: 1 };
    assert_eq!(
        transfer.process_chunk(packet(wide, 0, 10, 0, vec![0; 768])),
        Err(RldpError::UnsupportedFecParams)
    );
    // The first packet has fixed the total size all the same.
    assert_eq!(transfer.total_size(), Some(10));
}

#[test]
fn symbols_the_decoder_cannot_take_are_rejected() {
    let params = FecParams { data_size: 3000, symbol_size: 768, symbols_count: 4 };
    let mut transfer = RecvTransfer::new(ID);
    assert_eq!(
        transfer.process_chunk(packet(params, 0, 3000, 0, vec![0; 767])),
        Err(RldpError::InvalidSymbol)
    );
    assert_eq!(
        transfer.process_chunk(packet(params, 0, 3000, 16777216, vec![0; 768])),
        Err(RldpError::InvalidSymbol)
    );
    assert_eq!(
        transfer.process_chunk(packet(params, 0, 3000, 0, Vec::new())),
        Err(RldpError::InvalidSymbol)
    );
    assert_eq!(transfer.process_chunk(packet(params, 0, 3000, 16777215, vec![0; 768])), Ok(None));
}

#[test]
fn slice_beyond_total_size_fails_the_transfer() {
    let data = sample(1000);
    let mut encoder = RaptorqEncoder::with_data(&data);
    let params = *encoder.params();
    let mut transfer = RecvTransfer::new(ID);
    let mut seqno = 0;
    let first = encoder.encode(&mut seqno).unwrap();
    assert_eq!(transfer.process_chunk(packet(params, 0, 999, 0, first)), Ok(None));
    let second = encoder.encode(&mut seqno).unwrap();
    assert_eq!(transfer.process_chunk(packet(params, 0, 999, 1, second)), Err(RldpError::TooBig));
    assert!(transfer.data().is_empty());
}

#[test]
fn packet_for_a_later_slice_is_dropped() {
    let params = FecParams { data_size: 3000, symbol_size: 768, symbols_count: 4 };
    let mut transfer = RecvTransfer::new(ID);
    assert_eq!(transfer.process_chunk(packet(params, 1, 3000, 0, vec![0; 768])), Ok(None));
    assert_eq!(transfer.part(), 0);
    assert_eq!(transfer.total_size(), Some(3000));
    assert!(transfer.data().is_empty());
}

#[test]
fn two_slices_are_laid_end_to_end() {
    let first = sample(800);
    let second: Vec<u8> = sample(500).iter().map(|b| b ^ 0x55).collect();
    let mut transfer = RecvTransfer::new(ID);

    let mut encoder = RaptorqEncoder::with_data(&first);
    let params = *encoder.params();
    let mut seqno = 0;
    let symbol = encoder.encode(&mut seqno).unwrap();
    assert_eq!(transfer.process_chunk(packet(params, 0, 1300, 0, symbol)), Ok(None));
    let symbol = encoder.encode(&mut seqno).unwrap();
    assert_eq!(transfer.process_chunk(packet(params, 0, 1300, 1, symbol.clone())), Ok(Some(complete(0))));
    assert_eq!(transfer.part(), 1);
    assert_eq!(transfer.data(), &first);
    assert!(!transfer.is_complete());

    // A late packet of the first slice is answered with Complete again.
    assert_eq!(transfer.process_chunk(packet(params, 0, 1300, 1, symbol)), Ok(Some(complete(0))));
    assert_eq!(transfer.data(), &first);

    let mut encoder = RaptorqEncoder::with_data(&second);
    let params = *encoder.params();
    let symbol = encoder.encode(&mut seqno).unwrap();
    assert_eq!(seqno, 0);
    assert_eq!(transfer.process_chunk(packet(params, 1, 1300, 0, symbol)), Ok(Some(complete(1))));
    assert!(transfer.is_complete());
    assert_eq!(transfer.part(), 1);
    let mut whole = first.clone();
    whole.extend_from_slice(&second);
    assert_eq!(transfer.data().len(), 1300);
    assert_eq!(transfer.into_data(), whole);
}

#[test]
fn every_tenth_symbol_is_confirmed() {
    let data = sample(768 * 25);
    let mut encoder = RaptorqEncoder::with_data(&data);
    let params = *encoder.params();
    assert_eq!(params.symbols_count, 25);
    let mut transfer = RecvTransfer::new(ID);
    let mut seqno = 0;
    for i in 0..24u32 {
        let symbol = encoder.encode(&mut seqno).unwrap();
        let reply = transfer.process_chunk(packet(params, 0, 768 * 25, seqno, symbol));
        if i % 10 == 9 {
            assert_eq!(reply, Ok(Some(confirm(0, i))));
        } else {
            assert_eq!(reply, Ok(None));
        }
    }
    let symbol = encoder.encode(&mut seqno).unwrap();
    let reply = transfer.process_chunk(packet(params, 0, 768 * 25, seqno, symbol));
    assert_eq!(reply, Ok(Some(complete(0))));
    assert_eq!(transfer.into_data(), data);
}

#[test]
fn confirm_carries_the_identifier_seen_last() {
    let data = sample(768 * 25);
    let mut encoder = RaptorqEncoder::with_data(&data);
    let params = *encoder.params();
    let mut transfer = RecvTransfer::new(ID);
    let mut symbols = Vec::new();
    let mut seqno = 0;
    for _ in 0..10 {
        symbols.push(encoder.encode(&mut seqno).unwrap());
    }
    // The tenth packet to arrive is the one with identifier 3.
    let order = [9u32, 8, 7, 6, 5, 4, 0, 1, 2, 3];
    for (n, id) in order.iter().enumerate() {
        let reply = transfer
            .process_chunk(packet(params, 0, 768 * 25, *id, symbols[*id as usize].clone()));
        if n == 9 {
            assert_eq!(reply, Ok(Some(confirm(0, 3))));
        } else {
            assert_eq!(reply, Ok(None));
        }
    }
}

#[test]
fn duplicates_count_towards_the_confirm() {
    let data = sample(768 * 25);
    let mut encoder = RaptorqEncoder::with_data(&data);
    let params = *encoder.params();
    let mut transfer = RecvTransfer::new(ID);
    let mut seqno = 0;
    let symbol = encoder.encode(&mut seqno).unwrap();
    for n in 0..10 {
        let reply = transfer.process_chunk(packet(params, 0, 768 * 25, 0, symbol.clone()));
        if n == 9 {
            assert_eq!(reply, Ok(Some(confirm(0, 0))));
        } else {
            assert_eq!(reply, Ok(None));
        }
    }
}

#[test]
fn settling_a_slice_by_hand() {
    let params = FecParams { data_size: 4, symbol_size: 768, symbols_count: 1 };
    let mut transfer = RecvTransfer::new(ID);
    // A packet for a later slice fixes the total size; one for the slice in
    // progress opens the decoder.
    assert_eq!(transfer.process_chunk(packet(params, 1, 8, 0, vec![0; 768])), Ok(None));
    let big = FecParams { data_size: 4000, symbol_size: 768, symbols_count: 6 };
    assert_eq!(transfer.process_chunk(packet(big, 0, 8, 0, vec![0; 768])), Ok(None));
    assert_eq!(transfer.apply_decoded(0, Some(vec![1, 2, 3, 4])), Ok(Some(complete(0))));
    assert_eq!(transfer.part(), 1);
    assert_eq!(transfer.data(), &vec![1, 2, 3, 4]);
}

#[test]
fn liveness_counter_counts_and_wraps() {
    let mut state = RecvTransferState::new();
    assert_eq!(state.updates(), 0);
    state.set_updates();
    state.set_updates();
    assert_eq!(state.updates(), 2);
    let mut transfer = RecvTransfer::new(ID);
    assert_eq!(transfer.updates(), 0);
    transfer.set_updates();
    assert_eq!(transfer.updates(), 1);
}

#[test]
fn envelopes_name_the_transfer() {
    let transfer = RecvTransfer::new(ID);
    assert_eq!(transfer.complete(3), complete(3));
    assert_eq!(transfer.confirm(3, 41), confirm(3, 41));
}
