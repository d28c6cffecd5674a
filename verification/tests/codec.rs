use xoss_transport::block::check_block;
use xoss_transport::block::encode_block;
use xoss_transport::block::frame_len_for_marker;
use xoss_transport::block::ACK;
use xoss_transport::block::EOT;
use xoss_transport::block::SOH;
use xoss_transport::block::STX;
use xoss_transport::crc::crc16;
use xoss_transport::ctl::bytes_eq;
use xoss_transport::ctl::decode_ctl_message;
use xoss_transport::ctl::encode_ctl_message;
use xoss_transport::ctl::CtlBuffer;
use xoss_transport::ctl::ControlMessageType;
use xoss_transport::ctl::RawControlMessage;
use xoss_transport::decimal::encode_decimal;
use xoss_transport::decimal::parse_decimal;
use xoss_transport::error::TransferError;
use xoss_transport::facade::check_idle_reply;
use xoss_transport::facade::check_return_reply;
use xoss_transport::facade::check_send_reply;
use xoss_transport::facade::request_return_frame;
use xoss_transport::header::make_header_payload;
use xoss_transport::header::parse_header;
use xoss_transport::options::MgaUpdateOptions;
use xoss_transport::options::SyncOptions;
use xoss_transport::tunnel::chunk_frames;
use xoss_transport::tunnel::route_frame;
use xoss_transport::tunnel::DispatcherState;
use xoss_transport::tunnel::Route;

#[test]
fn crc16_known_answer() {
    let data: Vec<u8> = b"123456789".to_vec();
    assert_eq!(crc16(&data), 0x31C3);
}

#[test]
fn crc16_empty_is_zero() {
    let data: Vec<u8> = Vec::new();
    assert_eq!(crc16(&data), 0);
}

#[test]
fn ctl_round_trip() {
    let msg = RawControlMessage {
        msg_type: ControlMessageType::RequestReturn,
        body: b"a.fit".to_vec(),
    };
    let frame = encode_ctl_message(&msg);
    assert_eq!(frame[0], 1);
    let back = decode_ctl_message(&frame).expect("frame must decode");
    assert_eq!(back.msg_type, ControlMessageType::RequestReturn);
    assert_eq!(back.body, b"a.fit".to_vec());
}

#[test]
fn ctl_unknown_frame_rejected() {
    assert!(decode_ctl_message(&Vec::new()).is_none());
    assert!(decode_ctl_message(&vec![0x99, 1, 2]).is_none());
}

#[test]
fn ctl_buffer_stores_and_parses() {
    let mut buf = CtlBuffer::default();
    buf.store(vec![5]);
    let msg = buf.message().expect("idle frame must decode");
    assert_eq!(msg.msg_type, ControlMessageType::Idle);
    assert!(msg.body.is_empty());
}

#[test]
fn wrong_reply_type_is_unexpected_message_type() {
    let reply = RawControlMessage { msg_type: ControlMessageType::Idle, body: Vec::new() };
    let r = reply.expect_ok(ControlMessageType::Accept);
    assert_eq!(r, Err(TransferError::UnexpectedMessageType));
}

#[test]
fn wrong_reply_type_fails_send_negotiation() {
    let reply = RawControlMessage { msg_type: ControlMessageType::Idle, body: Vec::new() };
    let r = check_send_reply(reply, &b"a.fit".to_vec());
    assert_eq!(r, Err(TransferError::UnexpectedMessageType));
}

#[test]
fn echoed_filename_mismatch_fails_loudly() {
    let reply = RawControlMessage {
        msg_type: ControlMessageType::Returning,
        body: b"b.fit".to_vec(),
    };
    let r = check_return_reply(reply, &b"a.fit".to_vec());
    assert_eq!(r, Err(TransferError::FilenameMismatch));
}

#[test]
fn matching_reply_is_accepted() {
    let reply = RawControlMessage {
        msg_type: ControlMessageType::Returning,
        body: b"a.fit".to_vec(),
    };
    assert_eq!(check_return_reply(reply, &b"a.fit".to_vec()), Ok(()));
    let idle = RawControlMessage { msg_type: ControlMessageType::Idle, body: Vec::new() };
    assert_eq!(check_idle_reply(idle), Ok(()));
}

#[test]
fn request_frame_layout() {
    let frame = request_return_frame(b"a.fit".to_vec());
    assert_eq!(frame[0], 1);
    assert_eq!(&frame[1..], b"a.fit");
}

#[test]
fn bytes_eq_compares_contents() {
    assert!(bytes_eq(&b"abc".to_vec(), &b"abc".to_vec()));
    assert!(!bytes_eq(&b"abc".to_vec(), &b"abd".to_vec()));
    assert!(!bytes_eq(&b"abc".to_vec(), &b"ab".to_vec()));
}

#[test]
fn control_frames_route_to_pending_waiter() {
    let ctl_frame = vec![3u8, b'a'];
    assert_eq!(route_frame(&ctl_frame, true), Route::ControlReply);
    assert_eq!(route_frame(&ctl_frame, false), Route::SerialBytes);
    let serial_frame = vec![0x99u8, 1, 2];
    assert_eq!(route_frame(&serial_frame, true), Route::SerialBytes);
}

#[test]
fn dispatcher_tracks_one_outstanding_request() {
    let mut d = DispatcherState::default();
    assert!(!d.ctl_pending);
    d.begin_request();
    assert!(d.ctl_pending);
    d.end_request();
    assert!(!d.ctl_pending);
}

#[test]
fn chunked_writes_concatenate_back() {
    let data: Vec<u8> = (0u8..=25).collect();
    let frames = chunk_frames(&data, 10);
    assert_eq!(frames.len(), 3);
    assert_eq!(frames[0].len(), 10);
    assert_eq!(frames[1].len(), 10);
    assert_eq!(frames[2].len(), 6);
    let mut glued: Vec<u8> = Vec::new();
    for f in &frames {
        glued.extend_from_slice(f);
    }
    assert_eq!(glued, data);
}

#[test]
fn decimal_round_trip() {
    assert_eq!(encode_decimal(0), b"0".to_vec());
    assert_eq!(encode_decimal(1000), b"1000".to_vec());
    assert_eq!(parse_decimal(&b"1000".to_vec()), Some(1000));
    assert_eq!(parse_decimal(&Vec::new()), None);
    assert_eq!(parse_decimal(&b"12x4".to_vec()), None);
    assert_eq!(parse_decimal(&b"12345678901234567890".to_vec()), None);
}

#[test]
fn header_round_trip() {
    let payload = make_header_payload(&b"a.fit".to_vec(), 1000);
    assert_eq!(payload.len(), 128);
    let info = parse_header(&payload);
    assert_eq!(info.name, b"a.fit".to_vec());
    assert_eq!(info.size, Some(1000));
}

#[test]
fn header_without_size_parses() {
    let mut payload = b"x.json".to_vec();
    payload.push(0);
    let info = parse_header(&payload);
    assert_eq!(info.name, b"x.json".to_vec());
    assert_eq!(info.size, None);
}

#[test]
fn block_round_trip() {
    let payload: Vec<u8> = (0u16..128).map(|i| (i % 251) as u8).collect();
    let frame = encode_block(7, &payload);
    assert_eq!(frame.len(), 133);
    assert_eq!(frame[0], SOH);
    assert_eq!(frame[1], 7);
    assert_eq!(frame[2], 248);
    let (seqno, back) = check_block(&frame).expect("frame must validate");
    assert_eq!(seqno, 7);
    assert_eq!(back, payload);
}

#[test]
fn corrupted_block_is_rejected() {
    let payload: Vec<u8> = vec![0x55; 1024];
    let mut frame = encode_block(1, &payload);
    assert_eq!(frame[0], STX);
    frame[40] ^= 0x01;
    assert_eq!(check_block(&frame), Err(TransferError::CorruptBlock));
}

#[test]
fn truncated_block_is_rejected() {
    let payload: Vec<u8> = vec![0u8; 128];
    let mut frame = encode_block(1, &payload);
    frame.pop();
    assert_eq!(check_block(&frame), Err(TransferError::CorruptBlock));
}

#[test]
fn frame_lengths_by_marker() {
    assert_eq!(frame_len_for_marker(SOH), Some(133));
    assert_eq!(frame_len_for_marker(STX), Some(1029));
    assert_eq!(frame_len_for_marker(EOT), Some(1));
    assert_eq!(frame_len_for_marker(ACK), None);
}

#[test]
fn option_records_default_to_off() {
    let mga = MgaUpdateOptions::default();
    assert!(!mga.mga_offline);
    assert!(!mga.mga_force_update);
    let sync = SyncOptions::default();
    assert!(!sync.mga_update.mga_offline);
}
