//! The NFS requests of a connection: taking an RPC call as a COMPOUND
//! request, reading its operations and writing their replies.
use vstd::prelude::*;
use crate::nfs::constants::{VERSION, VERSION_MINOR};
use crate::nfs::types::{ClientId, NfsFh, SessionId, StateId};
use crate::nfs::{AsNfsStatus, NfsOperation, NfsStatus};
use crate::rpc::{
    lemma_cursor_from_start, lemma_writes_compose, spec_accepted_reply, spec_after_write,
    spec_cursor, spec_emit_result, spec_emitted, spec_message_bytes, spec_overwrite,
    AcceptedBody, MismatchInfo, RpcContext, RpcContextView,
    RpcMessage, SpecRpcMessage,
};
use crate::xdr::{
    reads_as, spec_opaque_emit, spec_u32_be, spec_u32_emit, writes_as, Emit, Parse, XdrDeserialize,
    XdrError, XdrSerialize,
};

verus! {

broadcast use {crate::byte_seq::lemma_seq_add_assoc, crate::byte_seq::lemma_bytes_deep_view};

/// The procedures of the NFS program.
#[derive(Clone, Copy, Debug, PartialEq, Eq, Structural)]
enum NfsProgram {
    Null,
    Compound,
    Invalid,
}

/// The procedure numbered `n`: 0 is the null procedure, 1 is COMPOUND, and
/// any other number is invalid.
fn program_of(n: u32) -> (p: NfsProgram)
    ensures
        p == (if n == 0 {
            NfsProgram::Null
        } else if n == 1 {
            NfsProgram::Compound
        } else {
            NfsProgram::Invalid
        }),
{
    if n == 0 {
        NfsProgram::Null
    } else if n == 1 {
        NfsProgram::Compound
    } else {
        NfsProgram::Invalid
    }
}

/// A COMPOUND request being answered: its call, its tag, the state it sets
/// up for its operations, and what its replies have come to.
pub struct NfsRequest {
    pub rpc: RpcContext,
    pub tag: Vec<u8>,
    pub client_id: Option<ClientId>,
    pub session_id: Option<SessionId>,
    pub current_fh: Option<NfsFh>,
    pub current_state_id: Option<StateId>,
    pub saved_fh: Option<NfsFh>,
    pub num_ops: usize,
    pub curr_op: usize,
    pub status: NfsStatus,
    pub replied: u32,
}

/// Why the next operation of a request could not be read.
#[derive(Clone, Copy, Debug, PartialEq, Eq, Structural)]
pub enum RequestError {
    /// Every operation of the request has been read.
    Consumed,
    /// The operation number could not be read.
    Decode(XdrError),
}

/// The bytes of a reply's header: the status, the tag and the number of
/// replies.
pub open spec fn spec_header_bytes(status: NfsStatus, tag: Seq<u8>, replied: u32) -> Seq<u8> {
    spec_u32_be(status.spec_to_u32()) + spec_opaque_emit(tag)->Done_0 + spec_u32_be(replied)
}

impl NfsRequest {
    /// The counts of operations read and replied agree, and the header of
    /// the reply lies within what has been written.
    pub open spec fn wf(&self) -> bool {
        &&& self.rpc.wf()
        &&& self.curr_op <= self.num_ops
        &&& self.num_ops <= u32::MAX
        &&& self.rpc@.header_pos <= self.rpc@.written.len()
    }

    /// A request of `num_ops` operations with the tag `tag`, none read or
    /// replied yet, its status success.
    fn new(rpc: RpcContext, tag: Vec<u8>, num_ops: u32) -> (r: Self)
        ensures
            r.rpc == rpc,
            r.tag@ == tag@,
            r.client_id is None,
            r.session_id is None,
            r.current_fh is None,
            r.current_state_id is None,
            r.saved_fh is None,
            r.num_ops == num_ops,
            r.curr_op == 0,
            r.status == NfsStatus::Success,
            r.replied == 0,
    {
        Self {
            rpc,
            tag,
            client_id: None,
            session_id: None,
            current_fh: None,
            current_state_id: None,
            saved_fh: None,
            num_ops: num_ops as usize,
            curr_op: 0,
            status: NfsStatus::Success,
            replied: 0,
        }
    }

    /// The number of operations of the request.
    pub fn num_ops(&self) -> (n: usize)
        ensures
            n == self.num_ops,
    {
        self.num_ops
    }

    /// Records the client and the session of the request.
    pub fn set_session(&mut self, client_id: ClientId, session_id: SessionId)
        ensures
            final(self).client_id == Some(client_id),
            final(self).session_id == Some(session_id),
            final(self).current_fh == old(self).current_fh,
            final(self).current_state_id == old(self).current_state_id,
            final(self).saved_fh == old(self).saved_fh,
            final(self).rpc == old(self).rpc,
            final(self).tag == old(self).tag,
            final(self).num_ops == old(self).num_ops,
            final(self).curr_op == old(self).curr_op,
            final(self).status == old(self).status,
            final(self).replied == old(self).replied,
    {
        self.client_id = Some(client_id);
        self.session_id = Some(session_id);
    }

    /// Forgets the session of the request; the client stays.
    pub fn clear_session(&mut self)
        ensures
            final(self).session_id is None,
            final(self).client_id == old(self).client_id,
            final(self).current_fh == old(self).current_fh,
            final(self).current_state_id == old(self).current_state_id,
            final(self).saved_fh == old(self).saved_fh,
            final(self).rpc == old(self).rpc,
            final(self).tag == old(self).tag,
            final(self).num_ops == old(self).num_ops,
            final(self).curr_op == old(self).curr_op,
            final(self).status == old(self).status,
            final(self).replied == old(self).replied,
    {
        self.session_id = None;
    }

    /// Reads the number of the next operation. Once every operation has
    /// been read, that is an error, and nothing is read.
    pub fn next_op(&mut self) -> (r: Result<NfsOperation, RequestError>)
        requires
            old(self).wf(),
        ensures
            final(self).wf(),
            final(self).same_except_progress(*old(self)),
            final(self).tag == old(self).tag,
            final(self).num_ops == old(self).num_ops,
            final(self).status == old(self).status,
            final(self).replied == old(self).replied,
            old(self).curr_op >= old(self).num_ops ==> r == Err::<NfsOperation, RequestError>(
                RequestError::Consumed,
            ) && final(self).rpc == old(self).rpc && final(self).curr_op == old(self).curr_op,
            old(self).curr_op < old(self).num_ops ==> final(self).curr_op == old(self).curr_op + 1
                && final(self).rpc@ == (RpcContextView { pos: final(self).rpc@.pos, ..old(self).rpc@ })
                && match <NfsOperation as XdrDeserialize>::spec_parse(
                old(self).rpc@.data,
                old(self).rpc@.pos,
            ) {
                Parse::Done(op, p) => r == Ok::<NfsOperation, RequestError>(op)
                    && final(self).rpc@.pos == p,
                Parse::Fails(e, p) => r == Err::<NfsOperation, RequestError>(
                    RequestError::Decode(e),
                ) && final(self).rpc@.pos == p,
            },
    {
        if self.curr_op >= self.num_ops {
            return Err(RequestError::Consumed);
        }
        self.curr_op = self.curr_op + 1;
        match self.rpc.read::<NfsOperation>() {
            Ok(op) => Ok(op),
            Err(e) => Err(RequestError::Decode(e)),
        }
    }

    /// Reads a value from the request's data.
    pub fn read<T: XdrDeserialize>(&mut self) -> (r: Result<T, XdrError>)
        requires
            old(self).wf(),
        ensures
            final(self).wf(),
            final(self).same_except_progress(*old(self)),
            reads_as::<T>(T::spec_parse(old(self).rpc@.data, old(self).rpc@.pos), r, final(self).rpc@.pos),
            final(self).rpc@ == (RpcContextView { pos: final(self).rpc@.pos, ..old(self).rpc@ }),
            final(self).tag == old(self).tag,
            final(self).num_ops == old(self).num_ops,
            final(self).curr_op == old(self).curr_op,
            final(self).status == old(self).status,
            final(self).replied == old(self).replied,
    {
        self.rpc.read::<T>()
    }

    /// Replies to the operation `op` with the bare status `status`, which
    /// becomes the status of the request.
    pub fn ack(&mut self, op: NfsOperation, status: NfsStatus) -> (r: Result<(), XdrError>)
        requires
            old(self).wf(),
            old(self).replied < u32::MAX,
        ensures
            final(self).wf(),
            final(self).same_except_progress(*old(self)),
            r is Ok,
            final(self).status == status,
            final(self).replied == old(self).replied + 1,
            final(self).rpc@ == spec_after_write(
                old(self).rpc@,
                spec_u32_be(op.spec_to_u32()) + spec_u32_be(status.spec_to_u32()),
            ),
            final(self).tag == old(self).tag,
            final(self).num_ops == old(self).num_ops,
            final(self).curr_op == old(self).curr_op,
    {
        proof {
            lemma_cursor_from_start(&self.rpc);
            lemma_writes_compose(
                self.rpc@,
                spec_u32_be(op.spec_to_u32()),
                spec_u32_be(status.spec_to_u32()),
            );
        }
        self.status = status;
        self.replied = self.replied + 1;
        let _ = self.rpc.write(&op);
        self.rpc.write(&status)
    }

    /// Replies to the operation `op` with `val`: its status, which becomes
    /// the status of the request, and, where it has one, its body.
    pub fn reply<T: XdrSerialize + AsNfsStatus>(&mut self, op: NfsOperation, val: &T) -> (r: Result<
        (),
        XdrError,
    >)
        requires
            old(self).wf(),
            old(self).replied < u32::MAX,
            !(T::spec_emit(val.deep_view()) is Panics),
        ensures
            final(self).wf(),
            final(self).same_except_progress(*old(self)),
            final(self).status == val.spec_status(),
            final(self).replied == old(self).replied + 1,
            ({
                let head = spec_u32_be(op.spec_to_u32()) + spec_u32_be(
                    val.spec_status().spec_to_u32(),
                );
                let e = T::spec_emit(val.deep_view());
                if val.spec_has_body() {
                    final(self).rpc@ == spec_after_write(old(self).rpc@, head + spec_emitted(e))
                        && r == spec_emit_result(e)
                } else {
                    final(self).rpc@ == spec_after_write(old(self).rpc@, head) && r is Ok
                }
            }),

            final(self).tag == old(self).tag,
            final(self).num_ops == old(self).num_ops,
            final(self).curr_op == old(self).curr_op,
    {
        let ghost v0 = self.rpc@;
        let ghost a = spec_u32_be(op.spec_to_u32());
        let ghost b = spec_u32_be(val.spec_status().spec_to_u32());
        let ghost c = spec_emitted(T::spec_emit(val.deep_view()));
        proof {
            lemma_cursor_from_start(&self.rpc);
            lemma_writes_compose(v0, a, b);
            lemma_writes_compose(v0, a + b, c);
            lemma_writes_compose(spec_after_write(v0, a), b, c);
        }
        self.status = val.as_status();
        self.replied = self.replied + 1;
        let _ = self.rpc.write(&op);
        let status = self.status;
        if val.has_body() {
            let _ = self.rpc.write(&status);
            self.rpc.write(val)
        } else {
            self.rpc.write(&status)
        }
    }

    /// Writes the reply's header again, where it was marked: the status of
    /// the request, its tag, and the number of replies written. The write
    /// position is left just past the header.
    pub fn rewrite_header(&mut self) -> (r: Result<(), XdrError>)
        requires
            old(self).wf(),
            old(self).tag@.len() < u32::MAX,
        ensures
            final(self).wf(),
            final(self).same_except_progress(*old(self)),
            r is Ok,
            final(self).rpc@ == spec_after_write(
                RpcContextView {
                    behind: old(self).rpc@.written.len() - old(self).rpc@.header_pos,
                    ..old(self).rpc@
                },
                spec_header_bytes(old(self).status, old(self).tag@, old(self).replied),
            ),
            final(self).rpc@.written == spec_overwrite(
                old(self).rpc@.written,
                old(self).rpc@.header_pos as int,
                spec_header_bytes(old(self).status, old(self).tag@, old(self).replied),
            ),
            final(self).tag == old(self).tag,
            final(self).num_ops == old(self).num_ops,
            final(self).curr_op == old(self).curr_op,
            final(self).status == old(self).status,
            final(self).replied == old(self).replied,
    {
        let hp = self.rpc.header_pos();
        let n = self.rpc.writer().len();
        assert(hp <= n);
        self.rpc.set_position(hp as usize);
        let ghost v1 = self.rpc@;
        let ghost a = spec_u32_be(self.status.spec_to_u32());
        let ghost b = spec_opaque_emit(self.tag@)->Done_0;
        let ghost c = spec_u32_be(self.replied);
        proof {
            lemma_cursor_from_start(&self.rpc);
            lemma_writes_compose(v1, a, b);
            lemma_writes_compose(v1, a + b, c);
            assert(spec_header_bytes(self.status, self.tag@, self.replied) == a + b + c);
            assert(spec_emitted(<NfsStatus as XdrSerialize>::spec_emit(self.status)) == a);
            assert(spec_emitted(<Vec<u8> as XdrSerialize>::spec_emit(self.tag@)) == b);
            assert(spec_emitted(<u32 as XdrSerialize>::spec_emit(self.replied)) == c);
        }
        let _ = self.rpc.write(&self.status);
        let _ = self.rpc.write(&self.tag);
        let _ = self.rpc.write(&self.replied);
        assert(self.rpc@ == spec_after_write(v1, a + b + c));
        assert(v1.written =~= old(self).rpc@.written);
        Ok(())
    }

    /// The reply, with its header written again: the bytes to send.
    pub fn finish(self) -> (r: Result<Vec<u8>, XdrError>)
        requires
            self.wf(),
            self.tag@.len() < u32::MAX,
        ensures
            r is Ok,
            r->Ok_0@ == spec_overwrite(
                self.rpc@.written,
                self.rpc@.header_pos as int,
                spec_header_bytes(self.status, self.tag@, self.replied),
            ),
    {
        let mut req = self;
        let r = req.rewrite_header();
        match r {
            Ok(()) => Ok(req.rpc.into_bytes()),
            Err(e) => Err(e),
        }
    }
}


/// How far a request has come: its call, its status, the replies written,
/// and the operations read out of how many.
pub struct RequestProgress {
    pub rpc: RpcContextView,
    pub status: NfsStatus,
    pub replied: u32,
    pub curr_op: usize,
    pub num_ops: usize,
}

impl NfsRequest {
    /// How far the request has come.
    pub open spec fn progress(&self) -> RequestProgress {
        RequestProgress {
            rpc: self.rpc@,
            status: self.status,
            replied: self.replied,
            curr_op: self.curr_op,
            num_ops: self.num_ops,
        }
    }

    /// The request has the tag, client, session and file handles of `other`.
    pub open spec fn same_except_progress(&self, other: NfsRequest) -> bool {
        &&& self.tag == other.tag
        &&& self.client_id == other.client_id
        &&& self.session_id == other.session_id
        &&& self.current_fh == other.current_fh
        &&& self.current_state_id == other.current_state_id
        &&& self.saved_fh == other.saved_fh
    }
}

/// `q` with its data read up to `pos`.
pub open spec fn spec_read_to(q: RequestProgress, pos: int) -> RequestProgress {
    RequestProgress { rpc: RpcContextView { pos, ..q.rpc }, ..q }
}

/// `q` once the operation `op` is answered with the bare status `st`.
pub open spec fn spec_acked(q: RequestProgress, op: NfsOperation, st: NfsStatus) -> RequestProgress {
    RequestProgress {
        rpc: spec_after_write(q.rpc, spec_u32_be(op.spec_to_u32()) + spec_u32_be(st.spec_to_u32())),
        status: st,
        replied: (q.replied + 1) as u32,
        ..q
    }
}

/// `q` once the operation `op` is answered with success and a body whose
/// writing does `e`, and whether writing the body succeeded.
pub open spec fn spec_replied(q: RequestProgress, op: NfsOperation, e: Emit) -> (
    RequestProgress,
    Result<(), XdrError>,
) {
    let head = spec_u32_be(op.spec_to_u32()) + spec_u32_be(NfsStatus::Success.spec_to_u32());
    (
        RequestProgress {
            rpc: spec_after_write(q.rpc, head + spec_emitted(e)),
            status: NfsStatus::Success,
            replied: (q.replied + 1) as u32,
            ..q
        },
        spec_emit_result(e),
    )
}

/// What a call of the NFS program comes to.
pub enum Accepted {
    /// A COMPOUND request to serve: the header of its reply is written, and
    /// its operations come next in its data.
    Request(NfsRequest),
    /// A call answered at once: the reply is to be sent before reading on.
    Answered(RpcContext),
    /// A COMPOUND request of a minor version other than 1; it gets no reply.
    Dropped,
}

/// Why a COMPOUND request could not be taken.
#[derive(Clone, Copy, Debug, PartialEq, Eq, Structural)]
pub enum AcceptError {
    /// Its tag could not be read.
    Tag(XdrError),
    /// Its minor version could not be read.
    MinorVersion(XdrError),
    /// Its number of operations could not be read.
    OpCount(XdrError),
    /// Its tag, which is to be written back in the reply, is `u32::MAX`
    /// bytes long or longer: too long to be written.
    TagTooLong,
}

/// The bytes of the reply that the call `xid` succeeded.
pub open spec fn spec_success_bytes(xid: u32) -> Seq<u8> {
    spec_message_bytes(spec_accepted_reply(xid, AcceptedBody::Success))
}

/// `rpc` once `bytes` are written at its write position.
pub open spec fn spec_written_with(rpc: RpcContextView, bytes: Seq<u8>) -> RpcContextView {
    spec_after_write(rpc, bytes)
}

/// Writing a reply that accepts a call succeeds.
proof fn lemma_accepted_written(xid: u32, body: AcceptedBody)
    ensures
        <RpcMessage as XdrSerialize>::spec_emit(spec_accepted_reply(xid, body)) is Done,
{
}

/// Answers the call of `rpc` with the message `m`.
fn answer(rpc: RpcContext, m: &RpcMessage) -> (r: Accepted)
    requires
        <RpcMessage as XdrSerialize>::spec_emit(m.deep_view()) is Done,
    ensures
        r matches Accepted::Answered(c) && c@ == spec_written_with(rpc@, spec_message_bytes(m.deep_view()))
            && c.wf() == rpc.wf(),
{
    let mut rpc = rpc;
    let _ = rpc.write(m);
    Accepted::Answered(rpc)
}

/// Takes a call of the NFS program. A call of a version other than 4 is
/// answered with a program mismatch, the null procedure with success, and
/// a procedure other than COMPOUND with "procedure unavailable". A COMPOUND
/// request has its tag and minor version read: one of a minor version other
/// than 1 is dropped; else its number of operations is read, and the reply
/// gets its success and a header (success, the tag, no replies) to be
/// written again once the operations are answered.
pub fn accept(rpc: RpcContext) -> (r: Result<Accepted, AcceptError>)
    requires
        rpc.wf(),
    ensures
        ({
            let v = rpc@;
            let xid = v.xid;
            if v.call.version != VERSION {
                r matches Ok(Accepted::Answered(c)) && c.wf() && c@ == spec_written_with(
                    v,
                    spec_message_bytes(
                        spec_accepted_reply(
                            xid,
                            AcceptedBody::ProgramMismatch(MismatchInfo { low: VERSION, high: VERSION }),
                        ),
                    ),
                )
            } else if v.call.procedure == 0 {
                r matches Ok(Accepted::Answered(c)) && c.wf() && c@ == spec_written_with(
                    v,
                    spec_success_bytes(xid),
                )
            } else if v.call.procedure != 1 {
                r matches Ok(Accepted::Answered(c)) && c.wf() && c@ == spec_written_with(
                    v,
                    spec_message_bytes(spec_accepted_reply(xid, AcceptedBody::ProcedureUnavailable)),
                )
            } else {
                match <Vec<u8> as XdrDeserialize>::spec_parse(v.data, v.pos) {
                    Parse::Fails(e, _) => r == Err::<Accepted, AcceptError>(AcceptError::Tag(e)),
                    Parse::Done(tag, p1) => match <u32 as XdrDeserialize>::spec_parse(v.data, p1) {
                        Parse::Fails(e, _) => r == Err::<Accepted, AcceptError>(
                            AcceptError::MinorVersion(e),
                        ),
                        Parse::Done(minor, p2) => if minor != VERSION_MINOR {
                            if tag.len() >= u32::MAX {
                                r == Err::<Accepted, AcceptError>(AcceptError::TagTooLong)
                            } else {
                                r matches Ok(Accepted::Dropped)
                            }
                        } else {
                            match <u32 as XdrDeserialize>::spec_parse(v.data, p2) {
                                Parse::Fails(e, _) => r == Err::<Accepted, AcceptError>(
                                    AcceptError::OpCount(e),
                                ),
                                Parse::Done(n, p3) => if tag.len() >= u32::MAX {
                                    r == Err::<Accepted, AcceptError>(AcceptError::TagTooLong)
                                } else {
                                    r matches Ok(Accepted::Request(req))
                                    && req.wf() && req.tag@ == tag && req.num_ops == n
                                    && req.curr_op == 0 && req.replied == 0 && req.status
                                    == NfsStatus::Success && req.client_id is None
                                    && req.session_id is None && req.current_fh is None
                                    && req.current_state_id is None && req.saved_fh is None
                                    && req.rpc@ == ({
                                    let v1 = spec_after_write(
                                        RpcContextView { pos: p3, ..v },
                                        spec_success_bytes(xid),
                                    );
                                    spec_after_write(
                                        RpcContextView { header_pos: spec_cursor(v1) as u64, ..v1 },
                                        spec_header_bytes(NfsStatus::Success, tag, 0),
                                    )
                                })
                                },
                            }
                        },
                    },
                }
            }
        }),
{
    let mut rpc = rpc;
    let xid = rpc.xid();
    proof {
        lemma_accepted_written(xid, AcceptedBody::Success);
        lemma_accepted_written(xid, AcceptedBody::ProcedureUnavailable);
        lemma_accepted_written(
            xid,
            AcceptedBody::ProgramMismatch(MismatchInfo { low: VERSION, high: VERSION }),
        );
    }
    if rpc.call().version != VERSION {
        let m = RpcMessage::program_mismatch_reply(xid, VERSION);
        return Ok(answer(rpc, &m));
    }
    let prog = program_of(rpc.call().procedure);
    if matches!(prog, NfsProgram::Null) {
        let m = rpc.success();
        return Ok(answer(rpc, &m));
    }
    if matches!(prog, NfsProgram::Invalid) {
        let m = RpcMessage::procedure_unavailable_reply(xid);
        return Ok(answer(rpc, &m));
    }
    let ghost p0 = rpc@.pos;
    let tag = match rpc.read::<Vec<u8>>() {
        Ok(t) => t,
        Err(e) => return Err(AcceptError::Tag(e)),
    };
    let version = match rpc.read::<u32>() {
        Ok(v) => v,
        Err(e) => return Err(AcceptError::MinorVersion(e)),
    };
    if version != VERSION_MINOR {
        if tag.len() >= u32::MAX as usize {
            return Err(AcceptError::TagTooLong);
        }
        let m = rpc.success();
        let _ = rpc.write(&m);
        let _ = rpc.write(&NfsStatus::MinorVersionMismatch);
        let _ = rpc.write(&tag);
        let _ = rpc.write(&0u32);
        return Ok(Accepted::Dropped);
    }
    let num_ops = match rpc.read::<u32>() {
        Ok(n) => n,
        Err(e) => return Err(AcceptError::OpCount(e)),
    };
    if tag.len() >= u32::MAX as usize {
        return Err(AcceptError::TagTooLong);
    }
    let m = rpc.success();
    let _ = rpc.write(&m);
    rpc.mark_header();
    proof {
        lemma_cursor_from_start(&rpc);
        let a = spec_u32_be(NfsStatus::Success.spec_to_u32());
        let b = spec_opaque_emit(tag@)->Done_0;
        let c = spec_u32_be(0);
        lemma_writes_compose(rpc@, a, b);
        lemma_writes_compose(rpc@, a + b, c);
        assert(spec_header_bytes(NfsStatus::Success, tag@, 0) == a + b + c);
    }
    let _ = rpc.write(&NfsStatus::Success);
    let _ = rpc.write(&tag);
    let _ = rpc.write(&0u32);
    Ok(Accepted::Request(NfsRequest::new(rpc, tag, num_ops)))
}

/// Rewriting the header of a reply, over a header written for the same
/// tag, replaces just that header: what comes before and after it stays.
pub proof fn lemma_header_rewritten(
    pre: Seq<u8>,
    tag: Seq<u8>,
    first: (NfsStatus, u32),
    last: (NfsStatus, u32),
    ops: Seq<u8>,
)
    requires
        spec_opaque_emit(tag) is Done,
    ensures
        spec_overwrite(
            pre + spec_header_bytes(first.0, tag, first.1) + ops,
            pre.len() as int,
            spec_header_bytes(last.0, tag, last.1),
        ) == pre + spec_header_bytes(last.0, tag, last.1) + ops,
{
    let h0 = spec_header_bytes(first.0, tag, first.1);
    let h1 = spec_header_bytes(last.0, tag, last.1);
    let w = pre + h0 + ops;
    assert(h0.len() == h1.len());
    assert(w.take(pre.len() as int) =~= pre);
    if pre.len() + h1.len() < w.len() {
        assert(w.skip((pre.len() + h1.len()) as int) =~= ops);
        assert(pre + h1 + ops =~= w.take(pre.len() as int) + h1 + w.skip((pre.len() + h1.len()) as int));
    } else {
        assert(ops.len() == 0);
        assert(pre + h1 + ops =~= pre + h1);
    }
}

} // verus!
