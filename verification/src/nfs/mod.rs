//! The NFSv4.1 protocol: its constants, data types and status codes, the
//! attributes of file system objects, and the requests of a connection.
pub mod api;
pub mod attrs;
pub mod connection;
pub mod handlers;
pub mod constants;
pub mod ops;
pub mod status;
pub mod types;

pub use connection::NfsRequest;
pub use ops::NfsOperation;
pub use status::NfsStatus;

use vstd::prelude::*;
use crate::nfs::connection::AcceptError;
use crate::nfs::constants::VERSION;
use crate::rpc::{
    spec_accepted_reply, AcceptedBody, AuthUnix, MismatchInfo, RpcBodyCall, RpcMessage,
    SpecRpcBodyCall,
};
use crate::xdr::{Parse, XdrDeserialize, XdrReader};

verus! {

/// A value that answers an NFS operation: the status it stands for, and
/// whether the value itself is written after that status.
pub trait AsNfsStatus {
    /// The status that the value stands for.
    spec fn spec_status(&self) -> NfsStatus;

    /// Whether the value is written after its status.
    spec fn spec_has_body(&self) -> bool;

    /// The status that the value stands for.
    fn as_status(&self) -> (s: NfsStatus)
        ensures
            s == self.spec_status(),
    ;

    /// Whether the value is written after its status.
    fn has_body(&self) -> (b: bool)
        ensures
            b == self.spec_has_body(),
    ;
}

/// Whether answering `call`, with its arguments read from `data` at `pos`,
/// reaches the part of the COMPOUND procedure that is not written yet: a call
/// of version 4 and of the COMPOUND procedure whose tag and minor version can
/// be read.
pub open spec fn spec_reaches_compound(call: SpecRpcBodyCall, data: Seq<u8>, pos: int) -> bool {
    &&& call.version == VERSION
    &&& call.procedure == 1
    &&& <Vec<u8> as XdrDeserialize>::spec_parse(data, pos) matches Parse::Done(_, p1)
    &&& <u32 as XdrDeserialize>::spec_parse(data, p1) is Done
}

/// Answers the NFS call `call` of transaction `xid`, its arguments in
/// `reader`: a version other than 4 gets a program mismatch, the null
/// procedure success, and a procedure other than COMPOUND "procedure
/// unavailable". Of a COMPOUND request the tag and the minor version are
/// read; an error in either is returned.
pub fn handle(xid: u32, call: RpcBodyCall, auth: Option<AuthUnix>, reader: &mut XdrReader) -> (r:
    Result<RpcMessage, AcceptError>)
    requires
        old(reader).wf(),
        !spec_reaches_compound(call.deep_view(), old(reader).data@, old(reader).pos as int),
    ensures
        final(reader).wf(),
        final(reader).data@ == old(reader).data@,
        call.version != VERSION || call.procedure != 1 ==> final(reader).pos == old(reader).pos,
        call.version != VERSION ==> (r matches Ok(m) && m.deep_view() == spec_accepted_reply(
            xid,
            AcceptedBody::ProgramMismatch(MismatchInfo { low: VERSION, high: VERSION }),
        )),
        call.version == VERSION && call.procedure == 0 ==> (r matches Ok(m) && m.deep_view()
            == spec_accepted_reply(xid, AcceptedBody::Success)),
        call.version == VERSION && call.procedure != 0 && call.procedure != 1 ==> (r matches Ok(m)
            && m.deep_view() == spec_accepted_reply(xid, AcceptedBody::ProcedureUnavailable)),
        call.version == VERSION && call.procedure == 1 ==> match <Vec<u8> as XdrDeserialize>::spec_parse(
            old(reader).data@,
            old(reader).pos as int,
        ) {
            Parse::Fails(e, _) => r == Err::<RpcMessage, AcceptError>(AcceptError::Tag(e)),
            Parse::Done(_, p1) => match <u32 as XdrDeserialize>::spec_parse(old(reader).data@, p1) {
                Parse::Fails(e, _) => r == Err::<RpcMessage, AcceptError>(
                    AcceptError::MinorVersion(e),
                ),
                Parse::Done(_, _) => false,
            },
        },
{
    if call.version != VERSION {
        return Ok(RpcMessage::program_mismatch_reply(xid, VERSION));
    }
    if call.procedure == 0 {
        return Ok(RpcMessage::successful_reply(xid));
    }
    if call.procedure != 1 {
        return Ok(RpcMessage::procedure_unavailable_reply(xid));
    }
    let _tag = match Vec::<u8>::deserialize(reader) {
        Ok(t) => t,
        Err(e) => return Err(AcceptError::Tag(e)),
    };
    match u32::deserialize(reader) {
        Ok(_) => {
            // The precondition leaves out a COMPOUND request whose tag and
            // minor version can be read.
            proof {
                assert(false);
            }
            Err(AcceptError::MinorVersion(crate::xdr::XdrError::Other))
        },
        Err(e) => Err(AcceptError::MinorVersion(e)),
    }
}

} // verus!
