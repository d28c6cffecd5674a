use xoss_transport::block::encode_block;
use xoss_transport::block::ACK;
use xoss_transport::block::CRC_READY;
use xoss_transport::block::EOT;
use xoss_transport::block::NAK;
use xoss_transport::block::RETRY_BUDGET;
use xoss_transport::chunks::make_chunk;
use xoss_transport::ctl::decode_ctl_message;
use xoss_transport::error::TransferError;
use xoss_transport::facade::check_idle_reply;
use xoss_transport::facade::check_return_reply;
use xoss_transport::facade::request_return_frame;
use xoss_transport::header::make_header_payload;
use xoss_transport::receive::rx_start;
use xoss_transport::receive::rx_step;
use xoss_transport::receive::RxEvent;
use xoss_transport::receive::RxState;
use xoss_transport::send::tx_start;
use xoss_transport::send::tx_step;
use xoss_transport::send::Sender;
use xoss_transport::send::TxEvent;
use xoss_transport::send::TxPhase;

fn sample_content(len: usize) -> Vec<u8> {
    (0..len).map(|i| (i % 251) as u8).collect()
}

#[test]
fn receive_empty_batch_ends_with_no_file() {
    let (state, ready) = rx_start();
    assert_eq!(ready, CRC_READY);
    let empty_header = encode_block(0, &vec![0u8; 128]);
    let step = rx_step(state, RxEvent::Frame(empty_header));
    assert_eq!(step.reply, Some(ACK));
    assert!(step.emit.is_empty());
    assert!(matches!(step.next, RxState::Done { file: None }));
}

#[test]
fn receive_scenario_delivers_exactly_1000_bytes() {
    // Negotiation: request the file and check the echoed reply.
    let request = request_return_frame(b"a.fit".to_vec());
    assert_eq!(request[0], 1);
    let device_reply = {
        let mut f = vec![3u8];
        f.extend_from_slice(b"a.fit");
        f
    };
    let reply = decode_ctl_message(&device_reply).expect("reply must decode");
    assert_eq!(check_return_reply(reply, &b"a.fit".to_vec()), Ok(()));

    // Serial phase: header, one data block, end marker, batch end.
    let content = sample_content(1000);
    let (state, ready) = rx_start();
    assert_eq!(ready, CRC_READY);

    let header = encode_block(0, &make_header_payload(&b"a.fit".to_vec(), 1000));
    let step = rx_step(state, RxEvent::Frame(header));
    assert_eq!(step.reply, Some(ACK));
    assert!(step.emit.is_empty());
    assert!(matches!(step.next, RxState::Data { .. }));

    let block1 = encode_block(1, &make_chunk(&content, 0));
    let step = rx_step(step.next, RxEvent::Frame(block1));
    assert_eq!(step.reply, Some(ACK));
    assert_eq!(step.emit, content);

    let step = rx_step(step.next, RxEvent::Frame(vec![EOT]));
    assert_eq!(step.reply, Some(ACK));
    assert!(step.emit.is_empty());
    assert!(matches!(step.next, RxState::FinalHeader { .. }));

    let batch_end = encode_block(0, &vec![0u8; 128]);
    let step = rx_step(step.next, RxEvent::Frame(batch_end));
    assert_eq!(step.reply, Some(ACK));
    assert!(step.emit.is_empty());
    match step.next {
        RxState::Done { file: Some(info) } => {
            assert_eq!(info.name, b"a.fit".to_vec());
            assert_eq!(info.size, Some(1000));
        }
        _ => panic!("receiver must conclude with the file descriptor"),
    }

    // The device reports idle afterwards.
    let idle = decode_ctl_message(&vec![5u8]).expect("idle must decode");
    assert_eq!(check_idle_reply(idle), Ok(()));
}

#[test]
fn duplicate_block_is_acknowledged_but_not_redelivered() {
    let content = sample_content(1000);
    let (state, _) = rx_start();
    let header = encode_block(0, &make_header_payload(&b"a.fit".to_vec(), 1000));
    let step = rx_step(state, RxEvent::Frame(header));

    let block1 = encode_block(1, &make_chunk(&content, 0));
    let first = rx_step(step.next, RxEvent::Frame(block1.clone()));
    assert_eq!(first.reply, Some(ACK));
    assert_eq!(first.emit.len(), 1000);

    let second = rx_step(first.next, RxEvent::Frame(block1));
    assert_eq!(second.reply, Some(ACK));
    assert!(second.emit.is_empty());
    assert!(matches!(second.next, RxState::Data { .. }));
}

#[test]
fn corrupt_block_draws_one_nak_then_retransmission_is_accepted() {
    let content = sample_content(1000);
    let (state, _) = rx_start();
    let header = encode_block(0, &make_header_payload(&b"a.fit".to_vec(), 1000));
    let step = rx_step(state, RxEvent::Frame(header));

    let good = encode_block(1, &make_chunk(&content, 0));
    let mut bad = good.clone();
    bad[10] ^= 0x04; // single bit flip in the payload; the check bytes now disagree
    let nak_step = rx_step(step.next, RxEvent::Frame(bad));
    assert_eq!(nak_step.reply, Some(NAK));
    assert!(nak_step.emit.is_empty());

    let ok_step = rx_step(nak_step.next, RxEvent::Frame(good));
    assert_eq!(ok_step.reply, Some(ACK));
    assert_eq!(ok_step.emit, content);
}

#[test]
fn exhausted_retry_budget_aborts_the_transfer() {
    let content = sample_content(1000);
    let (state, _) = rx_start();
    let header = encode_block(0, &make_header_payload(&b"a.fit".to_vec(), 1000));
    let mut state = rx_step(state, RxEvent::Frame(header)).next;

    let good = encode_block(1, &make_chunk(&content, 0));
    let mut bad = good;
    bad[10] ^= 0x04;

    for _ in 0..RETRY_BUDGET {
        let step = rx_step(state, RxEvent::Frame(bad.clone()));
        assert_eq!(step.reply, Some(NAK));
        assert!(step.emit.is_empty());
        state = step.next;
    }
    let last = rx_step(state, RxEvent::Frame(bad));
    assert_eq!(last.reply, None);
    assert!(matches!(
        last.next,
        RxState::Failed { err: TransferError::TransferAborted }
    ));
}

#[test]
fn send_handshake_timeout_transmits_nothing() {
    let content = sample_content(100);
    let mut tx = tx_start(b"a.fit".to_vec(), content);
    for _ in 0..10 {
        let step = tx_step(tx, TxEvent::Timeout);
        assert!(step.send.is_empty());
        assert!(matches!(step.next.phase, TxPhase::Handshake { .. }));
        tx = step.next;
    }
    let last = tx_step(tx, TxEvent::Timeout);
    assert!(last.send.is_empty());
    assert!(matches!(
        last.next.phase,
        TxPhase::Failed { err: TransferError::HandshakeTimeout }
    ));
}

/// Runs a whole sender-against-receiver session over an in-memory link
/// and returns the bytes the receiver delivered.
fn loopback(filename: &[u8], content: Vec<u8>) -> (Vec<u8>, Sender, RxState) {
    let (mut rx_state, ready) = rx_start();
    let mut tx = tx_start(filename.to_vec(), content);
    let mut reply_byte = ready;
    let mut delivered: Vec<u8> = Vec::new();
    for _ in 0..64 {
        let ts = tx_step(tx, TxEvent::Byte(reply_byte));
        tx = ts.next;
        if ts.send.is_empty() {
            break;
        }
        let rs = rx_step(rx_state, RxEvent::Frame(ts.send));
        rx_state = rs.next;
        delivered.extend_from_slice(&rs.emit);
        reply_byte = rs.reply.expect("receiver must answer every frame here");
    }
    (delivered, tx, rx_state)
}

#[test]
fn loopback_transfer_round_trips_content() {
    let content = sample_content(2500);
    let (delivered, tx, rx_state) = loopback(b"track.fit", content.clone());
    assert_eq!(delivered, content);
    assert!(matches!(tx.phase, TxPhase::DoneConfirmed));
    match rx_state {
        RxState::Done { file: Some(info) } => {
            assert_eq!(info.name, b"track.fit".to_vec());
            assert_eq!(info.size, Some(2500));
        }
        _ => panic!("receiver must conclude with the file descriptor"),
    }
}

#[test]
fn loopback_transfer_of_short_file_uses_small_block() {
    let content = sample_content(100);
    let (delivered, tx, _) = loopback(b"cfg.json", content.clone());
    assert_eq!(delivered, content);
    assert!(matches!(tx.phase, TxPhase::DoneConfirmed));
}

#[test]
fn loopback_transfer_of_empty_file_delivers_nothing() {
    let content = Vec::new();
    let (delivered, tx, rx_state) = loopback(b"empty.bin", content);
    assert!(delivered.is_empty());
    assert!(matches!(tx.phase, TxPhase::DoneConfirmed));
    assert!(matches!(rx_state, RxState::Done { file: Some(_) }));
}

#[test]
fn loopback_transfer_of_exact_block_multiple() {
    let content = sample_content(2048);
    let (delivered, tx, _) = loopback(b"two.bin", content.clone());
    assert_eq!(delivered, content);
    assert!(matches!(tx.phase, TxPhase::DoneConfirmed));
}
