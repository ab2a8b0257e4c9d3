use nfs41server::connection::{fragment_header, frame_header, FrameAssembler};
use nfs41server::rpc::{
    receive, AcceptState, AuthFlavor, MessageType, OpaqueAuth, Received, RpcError, RpcMessage,
};
use nfs41server::xdr::{XdrDeserialize, XdrError, XdrReader, XdrSerialize};

fn word(n: u32) -> Vec<u8> {
    n.to_be_bytes().to_vec()
}

/// The bytes of a call with null credentials and verifier.
fn call_bytes(xid: u32, rpc_version: u32, program: u32, version: u32, procedure: u32) -> Vec<u8> {
    let mut b = Vec::new();
    for w in [xid, 0, rpc_version, program, version, procedure, 0, 0, 0, 0] {
        b.extend(word(w));
    }
    b
}

fn bytes_of(m: &RpcMessage) -> Vec<u8> {
    let mut out = Vec::new();
    m.serialize(&mut out).unwrap();
    out
}

fn words(ws: &[u32]) -> Vec<u8> {
    ws.iter().flat_map(|w| w.to_be_bytes()).collect()
}

#[test]
fn enumerations_have_their_protocol_numbers() {
    assert_eq!(MessageType::Call.to_u32(), 0);
    assert_eq!(MessageType::from_u32(1), Some(MessageType::Reply));
    assert_eq!(MessageType::from_u32(2), None);
    assert_eq!(AcceptState::from_u32(4), Some(AcceptState::GarbageArguments));
    assert_eq!(AuthFlavor::RpcSecGss.to_u32(), 6);
    assert_eq!(AuthFlavor::from_u32(5), None);
    assert_eq!(AuthFlavor::default(), AuthFlavor::Null);
}

#[test]
fn successful_reply_bytes() {
    let m = RpcMessage::successful_reply(5);
    assert_eq!(bytes_of(&m), words(&[5, 1, 0, 0, 0, 0]));
}

#[test]
fn unavailable_and_garbage_reply_bytes() {
    assert_eq!(bytes_of(&RpcMessage::program_unavailable_reply(9)), words(&[9, 1, 0, 0, 0, 1]));
    assert_eq!(bytes_of(&RpcMessage::procedure_unavailable_reply(9)), words(&[9, 1, 0, 0, 0, 3]));
    assert_eq!(bytes_of(&RpcMessage::garbage_arguments_reply(9)), words(&[9, 1, 0, 0, 0, 4]));
}

#[test]
fn program_mismatch_reply_gives_the_accepted_version_as_both_bounds() {
    let m = RpcMessage::program_mismatch_reply(7, 4);
    assert_eq!(bytes_of(&m), words(&[7, 1, 0, 0, 0, 2, 4, 4]));
}

#[test]
fn rpc_version_mismatch_reply_is_denied_with_an_empty_range() {
    let m = RpcMessage::rpc_version_mismatch_reply(3);
    assert_eq!(bytes_of(&m), words(&[3, 1, 1, 0, 0, 0]));
}

#[test]
fn null_auth_has_no_body() {
    let a = OpaqueAuth::null();
    assert_eq!(a.flavor, AuthFlavor::Null);
    assert!(a.body.is_empty());
}

#[test]
fn messages_read_back() {
    let bytes = bytes_of(&RpcMessage::program_mismatch_reply(11, 4));
    let mut r = XdrReader::new(bytes.clone());
    let m = RpcMessage::deserialize(&mut r).unwrap();
    assert_eq!(m.xid, 11);
    assert_eq!(bytes_of(&m), bytes);
}

#[test]
fn a_call_of_nfs_is_handed_on() {
    let mut frame = call_bytes(42, 2, 100_003, 4, 1);
    frame.extend(word(0xabcd));
    match receive(frame) {
        Ok(Received::Call(mut ctx)) => {
            assert_eq!(ctx.xid(), 42);
            assert_eq!(ctx.call().procedure, 1);
            assert_eq!(ctx.call().program, 100_003);
            assert_eq!(ctx.read::<u32>().unwrap(), 0xabcd);
            assert_eq!(ctx.read::<u32>(), Err(XdrError::UnexpectedEof));
            assert!(ctx.into_bytes().is_empty());
        },
        _ => panic!("expected a call"),
    }
}

#[test]
fn a_call_of_another_program_is_answered_at_once() {
    match receive(call_bytes(8, 2, 7, 1, 0)) {
        Ok(Received::Answered(ctx)) => assert_eq!(ctx.into_bytes(), words(&[8, 1, 0, 0, 0, 1])),
        _ => panic!("expected an answer"),
    }
}

#[test]
fn a_call_of_another_rpc_version_is_refused() {
    match receive(call_bytes(8, 3, 100_003, 4, 0)) {
        Ok(Received::Answered(ctx)) => assert_eq!(ctx.into_bytes(), words(&[8, 1, 1, 0, 0, 0])),
        _ => panic!("expected an answer"),
    }
}

#[test]
fn a_reply_is_not_a_call() {
    let frame = bytes_of(&RpcMessage::successful_reply(1));
    assert!(matches!(receive(frame), Err(RpcError::NotACall)));
}

#[test]
fn a_short_frame_is_not_a_message() {
    assert!(matches!(receive(vec![0, 0, 0, 1, 0, 0]), Err(RpcError::Decode(XdrError::UnexpectedEof))));
    assert!(matches!(receive(words(&[1, 5])), Err(RpcError::Decode(XdrError::InvalidData))));
}

#[test]
fn unreadable_unix_credentials_are_refused() {
    // Unix credentials whose body is two bytes long.
    let mut frame = Vec::new();
    for w in [3u32, 0, 2, 100_003, 4, 0, 1, 4] {
        frame.extend(word(w));
    }
    frame.extend([0, 0, 0, 1]);
    frame.extend(words(&[0, 0]));
    assert!(matches!(receive(frame), Err(RpcError::Credentials(XdrError::UnexpectedEof))));
}

#[test]
fn readable_unix_credentials_are_kept() {
    let mut cred = Vec::new();
    // stamp, machine name "ab", uid, gid, no other groups
    for w in [9u32, 2] {
        cred.extend(word(w));
    }
    cred.extend([b'a', b'b', 0, 0]);
    for w in [1000u32, 100, 0] {
        cred.extend(word(w));
    }
    let mut frame = Vec::new();
    for w in [3u32, 0, 2, 100_003, 4, 0, 1, cred.len() as u32] {
        frame.extend(word(w));
    }
    frame.extend(cred);
    frame.extend(words(&[0, 0]));
    assert!(matches!(receive(frame), Ok(Received::Call(_))));
}

#[test]
fn the_reply_header_position_is_marked() {
    match receive(call_bytes(1, 2, 100_003, 4, 1)) {
        Ok(Received::Call(mut ctx)) => {
            assert_eq!(ctx.header_pos(), 0);
            ctx.write(&5u32).unwrap();
            ctx.mark_header();
            assert_eq!(ctx.header_pos(), 4);
            ctx.writer().push(1);
            assert_eq!(ctx.success().xid, 1);
            assert_eq!(ctx.into_bytes(), vec![0, 0, 0, 5, 1]);
        },
        _ => panic!("expected a call"),
    }
}

#[test]
fn a_frame_header_marks_the_last_fragment() {
    assert_eq!(frame_header(5), vec![0x80, 0, 0, 5]);
    assert_eq!(frame_header(0x01_02_03), vec![0x80, 0x01, 0x02, 0x03]);
    assert_eq!(fragment_header([0x80, 0, 0, 5]), (true, 5));
    assert_eq!(fragment_header([0, 0, 1, 0]), (false, 256));
    let h = frame_header(1234);
    assert_eq!(fragment_header([h[0], h[1], h[2], h[3]]), (true, 1234));
}

#[test]
fn fragments_are_joined_into_a_frame() {
    let mut a = FrameAssembler::new();
    assert_eq!(a.push_fragment(false, &[1, 2]), None);
    assert_eq!(a.push_fragment(false, &[]), None);
    assert_eq!(a.push_fragment(true, &[3]), Some(vec![1, 2, 3]));
    assert_eq!(a.push_fragment(true, &[4]), Some(vec![4]));
}

#[test]
fn writes_go_to_the_write_position() {
    match receive(call_bytes(1, 2, 100_003, 4, 1)) {
        Ok(Received::Call(mut ctx)) => {
            ctx.write(&5u32).unwrap();
            assert_eq!(ctx.position(), 4);
            ctx.set_position(0);
            ctx.write(&7u32).unwrap();
            // Past the end, the gap is filled with zeros.
            ctx.set_position(8);
            ctx.write(&1u32).unwrap();
            assert_eq!(ctx.position(), 12);
            ctx.mark_header();
            assert_eq!(ctx.header_pos(), 12);
            // Later writes leave the marked header where it is.
            ctx.write(&2u32).unwrap();
            ctx.set_position(0);
            ctx.write(&9u32).unwrap();
            assert_eq!(ctx.header_pos(), 12);
            assert_eq!(ctx.into_bytes(), words(&[9, 0, 1, 2]));
        },
        _ => panic!("expected a call"),
    }
}
