use nfs41server::nfs::api::NfsAttribute;
use nfs41server::nfs::attrs::protocol_to_api;
use nfs41server::nfs::connection::{accept, AcceptError, Accepted, RequestError};
use nfs41server::nfs::types::{CreateSessionOk, ExchangeIdOk, OpenResultFlags};
use nfs41server::nfs::{NfsOperation, NfsRequest, NfsStatus};
use nfs41server::nfs::handle;
use nfs41server::rpc::{receive, OpaqueAuth, Received, RpcBodyCall};
use nfs41server::server::{DispatchError, NFSv41ServerInner, ServeError};
use nfs41server::xdr::{XdrDeserialize, XdrError, XdrReader};

fn words(ws: &[u32]) -> Vec<u8> {
    ws.iter().flat_map(|w| w.to_be_bytes()).collect()
}

/// An NFS call of `procedure` with null credentials, followed by `args`.
fn nfs_call(xid: u32, version: u32, procedure: u32, args: &[u8]) -> Vec<u8> {
    let mut b = words(&[xid, 0, 2, 100_003, version, procedure, 0, 0, 0, 0]);
    b.extend_from_slice(args);
    b
}

/// A COMPOUND call with an empty tag, of minor version `minor`.
fn compound(xid: u32, minor: u32, ops: &[u8], num_ops: u32) -> Vec<u8> {
    let mut args = words(&[0, minor, num_ops]);
    args.extend_from_slice(ops);
    nfs_call(xid, 4, 1, &args)
}

fn exchange_id_args(owner: &[u8]) -> Vec<u8> {
    let mut b = words(&[42]);
    b.extend_from_slice(&[1, 2, 3, 4, 5, 6, 7, 8]);
    b.extend(words(&[owner.len() as u32]));
    b.extend_from_slice(owner);
    while b.len() % 4 != 0 {
        b.push(0);
    }
    // flags, no state protection, no implementation id
    b.extend(words(&[0, 0, 0]));
    b
}

fn channel_attrs() -> Vec<u8> {
    words(&[0, 4096, 4096, 1024, 8, 16, 0])
}

fn create_session_args(client_id: u64) -> Vec<u8> {
    let mut b = words(&[43]);
    b.extend_from_slice(&client_id.to_be_bytes());
    b.extend(words(&[7, 0]));
    b.extend(channel_attrs());
    b.extend(channel_attrs());
    // callback program, no callback security parameters
    b.extend(words(&[0x4000_0000, 0]));
    b
}

fn request_of(frame: Vec<u8>) -> NfsRequest {
    match receive(frame) {
        Ok(Received::Call(ctx)) => match accept(ctx) {
            Ok(Accepted::Request(req)) => req,
            _ => panic!("expected a request"),
        },
        _ => panic!("expected a call"),
    }
}

fn accepted(frame: Vec<u8>) -> Result<Accepted, AcceptError> {
    match receive(frame) {
        Ok(Received::Call(ctx)) => accept(ctx),
        _ => panic!("expected a call"),
    }
}

fn answer_of(frame: Vec<u8>) -> Vec<u8> {
    match accepted(frame) {
        Ok(Accepted::Answered(ctx)) => ctx.into_bytes(),
        _ => panic!("expected an answer"),
    }
}

/// Reads the RPC success header and the COMPOUND header of a reply; gives
/// the status and the number of replies.
fn read_headers(r: &mut XdrReader, xid: u32) -> (u32, u32) {
    for w in [xid, 1, 0, 0, 0, 0] {
        assert_eq!(u32::deserialize(r).unwrap(), w);
    }
    let status = u32::deserialize(r).unwrap();
    let tag = Vec::<u8>::deserialize(r).unwrap();
    assert!(tag.is_empty());
    (status, u32::deserialize(r).unwrap())
}

#[test]
fn a_null_call_is_answered_with_success() {
    assert_eq!(answer_of(nfs_call(4, 4, 0, &[])), words(&[4, 1, 0, 0, 0, 0]));
}

#[test]
fn a_call_of_another_version_is_answered_with_a_mismatch() {
    assert_eq!(answer_of(nfs_call(4, 3, 0, &[])), words(&[4, 1, 0, 0, 0, 2, 4, 4]));
}

#[test]
fn an_unknown_procedure_is_unavailable() {
    assert_eq!(answer_of(nfs_call(4, 4, 9, &[])), words(&[4, 1, 0, 0, 0, 3]));
}

#[test]
fn a_compound_of_another_minor_version_is_dropped() {
    assert!(matches!(accepted(compound(4, 0, &[], 0)), Ok(Accepted::Dropped)));
}

#[test]
fn a_compound_without_a_tag_is_refused() {
    assert!(matches!(accepted(nfs_call(4, 4, 1, &[0, 0])), Err(AcceptError::Tag(XdrError::UnexpectedEof))));
}

#[test]
fn a_compound_without_a_count_is_refused() {
    let frame = nfs_call(4, 4, 1, &words(&[0, 1]));
    assert!(matches!(accepted(frame), Err(AcceptError::OpCount(XdrError::UnexpectedEof))));
    let frame = nfs_call(4, 4, 1, &words(&[0]));
    assert!(matches!(accepted(frame), Err(AcceptError::MinorVersion(XdrError::UnexpectedEof))));
}

#[test]
fn an_empty_compound_replies_with_an_empty_header() {
    let req = request_of(compound(6, 1, &[], 0));
    assert_eq!(req.num_ops(), 0);
    assert_eq!(req.finish().unwrap(), words(&[6, 1, 0, 0, 0, 0, 0, 0, 0]));
}

#[test]
fn operations_are_read_in_turn() {
    let mut req = request_of(compound(6, 1, &words(&[42]), 2));
    assert_eq!(req.next_op(), Ok(NfsOperation::ExchangeId));
    assert_eq!(req.next_op(), Err(RequestError::Decode(XdrError::UnexpectedEof)));
    assert_eq!(req.next_op(), Err(RequestError::Consumed));
}

#[test]
fn acks_are_counted_in_the_header() {
    let mut req = request_of(compound(6, 1, &[], 0));
    req.ack(NfsOperation::PutRootFh, NfsStatus::Success).unwrap();
    req.ack(NfsOperation::GetFh, NfsStatus::ServerFault).unwrap();
    req.set_session(9, [3u8; 16]);
    assert_eq!(req.client_id, Some(9));
    assert_eq!(req.session_id, Some([3u8; 16]));
    // Clearing the session keeps the client.
    req.clear_session();
    assert_eq!(req.session_id, None);
    assert_eq!(req.client_id, Some(9));
    let bytes = req.finish().unwrap();
    let mut expected = words(&[6, 1, 0, 0, 0, 0]);
    expected.extend(words(&[NfsStatus::ServerFault.to_u32(), 0, 2, 24, 0, 10, 10006]));
    assert_eq!(bytes, expected);
}

#[test]
fn exchange_id_then_create_session_confirms_the_client() {
    let mut ops = exchange_id_args(b"client-a");
    ops.extend(create_session_args(1));
    let mut req = request_of(compound(77, 1, &ops, 2));
    let mut server = NFSv41ServerInner::new();
    assert_eq!(server.serve(&mut req), Ok(()));
    let bytes = req.finish().unwrap();
    let mut r = XdrReader::new(bytes);
    assert_eq!(read_headers(&mut r, 77), (0, 2));
    assert_eq!(u32::deserialize(&mut r).unwrap(), 42);
    assert_eq!(u32::deserialize(&mut r).unwrap(), 0);
    let ok = ExchangeIdOk::deserialize(&mut r).unwrap();
    assert_eq!(ok.client_id, 1);
    assert_eq!(ok.sequence_id, 1);
    assert_eq!(ok.flags, 0x0001_0000);
    assert_eq!(ok.server_owner.major_id.as_bytes(), b"some-sort-of-unique-strng");
    assert_eq!(ok.server_scope.as_bytes(), b"localhost");
    assert!(ok.server_impl_id.is_none());
    assert_eq!(u32::deserialize(&mut r).unwrap(), 43);
    assert_eq!(u32::deserialize(&mut r).unwrap(), 0);
    let cs = CreateSessionOk::deserialize(&mut r).unwrap();
    let mut first = [0u8; 16];
    first[15] = 1;
    assert_eq!(cs.session_id, first);
    assert_eq!(cs.sequence, 7);
    assert_eq!(cs.flags, 0);
    assert_eq!(cs.fore_channel_attrs.max_request_size, 4096);
    assert_eq!(cs.back_channel_attrs.max_requests, 16);
    assert_eq!(r.remaining(), 0);
}

#[test]
fn a_second_exchange_id_hands_out_another_client() {
    let mut ops = exchange_id_args(b"client-a");
    ops.extend(exchange_id_args(b"client-b"));
    let mut req = request_of(compound(3, 1, &ops, 2));
    let mut server = NFSv41ServerInner::new();
    assert_eq!(server.serve(&mut req), Ok(()));
    let mut r = XdrReader::new(req.finish().unwrap());
    assert_eq!(read_headers(&mut r, 3), (0, 2));
    assert_eq!(u32::deserialize(&mut r).unwrap(), 42);
    assert_eq!(u32::deserialize(&mut r).unwrap(), 0);
    let first = ExchangeIdOk::deserialize(&mut r).unwrap();
    assert_eq!(u32::deserialize(&mut r).unwrap(), 42);
    assert_eq!(u32::deserialize(&mut r).unwrap(), 0);
    let second = ExchangeIdOk::deserialize(&mut r).unwrap();
    assert_eq!(first.client_id, 1);
    assert_eq!(second.client_id, 2);
    assert_eq!(first.server_owner.minor_id, second.server_owner.minor_id);
}

#[test]
fn create_session_for_an_unknown_client_is_stale() {
    let mut req = request_of(compound(5, 1, &create_session_args(99), 1));
    let mut server = NFSv41ServerInner::new();
    assert_eq!(server.serve(&mut req), Ok(()));
    let mut r = XdrReader::new(req.finish().unwrap());
    assert_eq!(read_headers(&mut r, 5), (NfsStatus::StaleClientId.to_u32(), 1));
    assert_eq!(u32::deserialize(&mut r).unwrap(), 43);
    assert_eq!(u32::deserialize(&mut r).unwrap(), NfsStatus::StaleClientId.to_u32());
    assert_eq!(r.remaining(), 0);
}

#[test]
fn state_protection_is_refused() {
    let mut ops = words(&[42]);
    ops.extend_from_slice(&[0; 8]);
    // no owner, no flags, machine credentials with two empty bitmaps, no
    // implementation id
    ops.extend(words(&[0, 0, 1, 0, 0, 0]));
    let mut req = request_of(compound(5, 1, &ops, 1));
    let mut server = NFSv41ServerInner::new();
    assert_eq!(server.serve(&mut req), Ok(()));
    let mut r = XdrReader::new(req.finish().unwrap());
    assert_eq!(read_headers(&mut r, 5), (NfsStatus::EINVAL.to_u32(), 1));
    assert_eq!(u32::deserialize(&mut r).unwrap(), 42);
    assert_eq!(u32::deserialize(&mut r).unwrap(), NfsStatus::EINVAL.to_u32());
    assert_eq!(r.remaining(), 0);
}

#[test]
fn arguments_that_cannot_be_read_are_a_server_fault() {
    let mut req = request_of(compound(5, 1, &words(&[43, 0]), 1));
    let mut server = NFSv41ServerInner::new();
    assert_eq!(server.serve(&mut req), Ok(()));
    let mut r = XdrReader::new(req.finish().unwrap());
    assert_eq!(read_headers(&mut r, 5), (NfsStatus::ServerFault.to_u32(), 1));
    assert_eq!(u32::deserialize(&mut r).unwrap(), 43);
    assert_eq!(u32::deserialize(&mut r).unwrap(), NfsStatus::ServerFault.to_u32());
}

#[test]
fn an_operation_not_served_stops_the_request() {
    // ACCESS with its argument read.
    let mut req = request_of(compound(5, 1, &words(&[3, 1]), 1));
    let mut server = NFSv41ServerInner::new();
    assert_eq!(
        server.serve(&mut req),
        Err(ServeError::Dispatch(DispatchError::NotServed(NfsOperation::Access)))
    );
}

#[test]
fn an_unknown_operation_is_illegal() {
    let mut req = request_of(compound(5, 1, &words(&[5000]), 1));
    let mut server = NFSv41ServerInner::new();
    assert_eq!(server.serve(&mut req), Err(ServeError::IllegalOperation));
    let mut r = XdrReader::new(req.finish().unwrap());
    assert_eq!(read_headers(&mut r, 5), (NfsStatus::OpIllegal.to_u32(), 1));
    assert_eq!(u32::deserialize(&mut r).unwrap(), 10044);
    assert_eq!(u32::deserialize(&mut r).unwrap(), NfsStatus::OpIllegal.to_u32());
}

#[test]
fn the_illegal_operation_is_answered_as_illegal() {
    let mut req = request_of(compound(5, 1, &words(&[10044]), 1));
    let mut server = NFSv41ServerInner::new();
    assert_eq!(server.serve(&mut req), Ok(()));
}

#[test]
fn nonzero_padding_in_arguments_is_refused() {
    let mut ops = words(&[42]);
    ops.extend_from_slice(&[0; 8]);
    ops.extend(words(&[1]));
    ops.extend_from_slice(&[b'x', 1, 0, 0]);
    ops.extend(words(&[0, 0, 0]));
    let mut req = request_of(compound(5, 1, &ops, 1));
    let mut server = NFSv41ServerInner::new();
    assert_eq!(server.serve(&mut req), Err(ServeError::Dispatch(DispatchError::InvalidPadding)));
}

#[test]
fn a_bitmap_names_its_attributes() {
    assert_eq!(protocol_to_api(&[]), vec![]);
    assert_eq!(
        protocol_to_api(&[0b1011]),
        vec![NfsAttribute::SupportedAttributes, NfsAttribute::FileType, NfsAttribute::Changed]
    );
    let second = protocol_to_api(&[0, 1]);
    assert_eq!(second.len(), 1);
    assert_eq!(second[0].to_u32(), 32);
    // The highest bit of a word is not looked at.
    assert_eq!(protocol_to_api(&[0x8000_0000]), vec![]);
}

#[test]
fn open_result_flags_are_read_bit_by_bit() {
    let f = OpenResultFlags::deserialize(&mut XdrReader::new(words(&[0x2e]))).unwrap();
    assert!(f.must_confirm());
    assert!(f.is_posix_lock());
    assert!(f.will_preserve_unlinked());
    assert!(f.may_notify());
    let g = OpenResultFlags::deserialize(&mut XdrReader::new(words(&[0x11]))).unwrap();
    assert!(!g.must_confirm() && !g.is_posix_lock() && !g.will_preserve_unlinked() && !g.may_notify());
}

#[test]
fn two_sessions_get_different_ids() {
    let mut ops = exchange_id_args(b"client-a");
    ops.extend(create_session_args(1));
    ops.extend(create_session_args(1));
    let mut req = request_of(compound(9, 1, &ops, 3));
    let mut server = NFSv41ServerInner::new();
    assert_eq!(server.serve(&mut req), Ok(()));
    let mut r = XdrReader::new(req.finish().unwrap());
    assert_eq!(read_headers(&mut r, 9), (0, 3));
    assert_eq!(u32::deserialize(&mut r).unwrap(), 42);
    assert_eq!(u32::deserialize(&mut r).unwrap(), 0);
    let _ = ExchangeIdOk::deserialize(&mut r).unwrap();
    let mut ids = Vec::new();
    for _ in 0..2 {
        assert_eq!(u32::deserialize(&mut r).unwrap(), 43);
        assert_eq!(u32::deserialize(&mut r).unwrap(), 0);
        ids.push(CreateSessionOk::deserialize(&mut r).unwrap().session_id);
    }
    let mut second = [0u8; 16];
    second[15] = 2;
    assert_eq!(ids[1], second);
    assert_ne!(ids[0], ids[1]);
}

#[test]
fn a_rewritten_header_leaves_the_write_position_just_past_it() {
    let mut req = request_of(compound(6, 1, &[], 0));
    req.ack(NfsOperation::PutRootFh, NfsStatus::Success).unwrap();
    req.rewrite_header().unwrap();
    assert_eq!(req.rpc.position(), 36);
    // The next reply is written over the one after the header.
    req.ack(NfsOperation::GetFh, NfsStatus::ServerFault).unwrap();
    let bytes = req.finish().unwrap();
    let mut expected = words(&[6, 1, 0, 0, 0, 0]);
    expected.extend(words(&[NfsStatus::ServerFault.to_u32(), 0, 2, 10, 10006]));
    assert_eq!(bytes, expected);
}

#[test]
fn handle_reads_nothing_outside_compound() {
    for (version, procedure) in [(3u32, 0u32), (4, 0), (4, 7)] {
        let call = RpcBodyCall {
            rpc_version: 2,
            program: 100_003,
            version,
            procedure,
            credentials: OpaqueAuth::null(),
            verifier: OpaqueAuth::null(),
        };
        let mut reader = XdrReader::new(words(&[1, 2, 3]));
        let m = handle(7, call, None, &mut reader).unwrap();
        assert_eq!(m.xid, 7);
        assert_eq!(reader.pos, 0);
    }
}
