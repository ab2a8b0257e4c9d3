//! Remote procedure calls (RFC 5531): the messages and their encodings, and
//! the context a call is answered in.
use vstd::prelude::*;
use crate::nfs::constants::PROGRAM;
use crate::xdr::{
    lemma_at_split, lemma_bool_roundtrips, lemma_opaque_roundtrips, lemma_u32_roundtrips, spec_at, spec_roundtrips, spec_vec_roundtrips, spec_vecs_roundtrips,
    reads_as, writes_as,
    spec_u32_emit, spec_u32_parse, Emit, Parse, XdrDeserialize, XdrError, XdrReader, XdrSerialize,
};

verus! {

broadcast use {crate::byte_seq::lemma_seq_add_assoc, crate::byte_seq::lemma_bytes_deep_view};

/// Whether an RPC message is a call or a reply.
#[derive(Clone, Copy, Debug, PartialEq, Eq, Structural)]
pub enum MessageType {
    Call,
    Reply,
}

impl DeepView for MessageType {
    type V = MessageType;

    open spec fn deep_view(&self) -> MessageType {
        *self
    }
}

impl MessageType {
    /// The number that stands for the value.
    pub open spec fn spec_to_u32(self) -> u32 {
        match self {
            MessageType::Call => 0,
            MessageType::Reply => 1,
        }
    }

    /// The value that a number stands for, if any.
    pub open spec fn spec_from_u32(n: u32) -> Option<MessageType> {
        if n == 0 {
            Some(MessageType::Call)
        } else if n == 1 {
            Some(MessageType::Reply)
        } else {
            None
        }
    }

    /// The number that stands for the value.
    pub fn to_u32(&self) -> (n: u32)
        ensures
            n == self.spec_to_u32(),
    {
        match self {
            MessageType::Call => 0,
            MessageType::Reply => 1,
        }
    }

    /// The value that `n` stands for, if any.
    pub fn from_u32(n: u32) -> (r: Option<MessageType>)
        ensures
            r == MessageType::spec_from_u32(n),
    {
        match n {
            0 => Some(MessageType::Call),
            1 => Some(MessageType::Reply),
            _ => None,
        }
    }
}

impl XdrSerialize for MessageType {
    /// The number, as a `u32`.
    open spec fn spec_emit(v: MessageType) -> Emit {
        spec_u32_emit(v.spec_to_u32())
    }

    fn serialize(&self, dest: &mut Vec<u8>) -> (r: Result<(), XdrError>) {
        let n: u32 = self.to_u32();
        let r = n.serialize(dest);
        assert(Self::spec_emit(self.deep_view()) == spec_u32_emit(n));
        r
    }
}

impl XdrDeserialize for MessageType {
    /// A number that stands for no value is invalid data.
    open spec fn spec_parse(data: Seq<u8>, pos: int) -> Parse<MessageType> {
        match spec_u32_parse(data, pos) {
            Parse::Done(n, p) => match MessageType::spec_from_u32(n) {
                Some(x) => Parse::Done(x, p),
                None => Parse::Fails(XdrError::InvalidData, p),
            },
            Parse::Fails(e, p) => Parse::Fails(e, p),
        }
    }

    fn deserialize(src: &mut XdrReader) -> (r: Result<MessageType, XdrError>) {
        let n = match u32::deserialize(src) {
            Ok(n) => n,
            Err(e) => return Err(e),
        };
        match MessageType::from_u32(n) {
            Some(x) => Ok(x),
            None => Err(XdrError::InvalidData),
        }
    }
}

/// Whether an RPC call was accepted.
#[derive(Clone, Copy, Debug, PartialEq, Eq, Structural)]
pub enum ReplyState {
    Accepted,
    Denied,
}

impl DeepView for ReplyState {
    type V = ReplyState;

    open spec fn deep_view(&self) -> ReplyState {
        *self
    }
}

impl ReplyState {
    /// The number that stands for the value.
    pub open spec fn spec_to_u32(self) -> u32 {
        match self {
            ReplyState::Accepted => 0,
            ReplyState::Denied => 1,
        }
    }

    /// The value that a number stands for, if any.
    pub open spec fn spec_from_u32(n: u32) -> Option<ReplyState> {
        if n == 0 {
            Some(ReplyState::Accepted)
        } else if n == 1 {
            Some(ReplyState::Denied)
        } else {
            None
        }
    }

    /// The number that stands for the value.
    pub fn to_u32(&self) -> (n: u32)
        ensures
            n == self.spec_to_u32(),
    {
        match self {
            ReplyState::Accepted => 0,
            ReplyState::Denied => 1,
        }
    }

    /// The value that `n` stands for, if any.
    pub fn from_u32(n: u32) -> (r: Option<ReplyState>)
        ensures
            r == ReplyState::spec_from_u32(n),
    {
        match n {
            0 => Some(ReplyState::Accepted),
            1 => Some(ReplyState::Denied),
            _ => None,
        }
    }
}

impl XdrSerialize for ReplyState {
    /// The number, as a `u32`.
    open spec fn spec_emit(v: ReplyState) -> Emit {
        spec_u32_emit(v.spec_to_u32())
    }

    fn serialize(&self, dest: &mut Vec<u8>) -> (r: Result<(), XdrError>) {
        let n: u32 = self.to_u32();
        let r = n.serialize(dest);
        assert(Self::spec_emit(self.deep_view()) == spec_u32_emit(n));
        r
    }
}

impl XdrDeserialize for ReplyState {
    /// A number that stands for no value is invalid data.
    open spec fn spec_parse(data: Seq<u8>, pos: int) -> Parse<ReplyState> {
        match spec_u32_parse(data, pos) {
            Parse::Done(n, p) => match ReplyState::spec_from_u32(n) {
                Some(x) => Parse::Done(x, p),
                None => Parse::Fails(XdrError::InvalidData, p),
            },
            Parse::Fails(e, p) => Parse::Fails(e, p),
        }
    }

    fn deserialize(src: &mut XdrReader) -> (r: Result<ReplyState, XdrError>) {
        let n = match u32::deserialize(src) {
            Ok(n) => n,
            Err(e) => return Err(e),
        };
        match ReplyState::from_u32(n) {
            Some(x) => Ok(x),
            None => Err(XdrError::InvalidData),
        }
    }
}

/// How an accepted RPC call went.
#[derive(Clone, Copy, Debug, PartialEq, Eq, Structural)]
pub enum AcceptState {
    Success,
    ProgramUnavailable,
    ProgramMismatch,
    ProcedureUnavailable,
    GarbageArguments,
}

impl DeepView for AcceptState {
    type V = AcceptState;

    open spec fn deep_view(&self) -> AcceptState {
        *self
    }
}

impl AcceptState {
    /// The number that stands for the value.
    pub open spec fn spec_to_u32(self) -> u32 {
        match self {
            AcceptState::Success => 0,
            AcceptState::ProgramUnavailable => 1,
            AcceptState::ProgramMismatch => 2,
            AcceptState::ProcedureUnavailable => 3,
            AcceptState::GarbageArguments => 4,
        }
    }

    /// The value that a number stands for, if any.
    pub open spec fn spec_from_u32(n: u32) -> Option<AcceptState> {
        if n == 0 {
            Some(AcceptState::Success)
        } else if n == 1 {
            Some(AcceptState::ProgramUnavailable)
        } else if n == 2 {
            Some(AcceptState::ProgramMismatch)
        } else if n == 3 {
            Some(AcceptState::ProcedureUnavailable)
        } else if n == 4 {
            Some(AcceptState::GarbageArguments)
        } else {
            None
        }
    }

    /// The number that stands for the value.
    pub fn to_u32(&self) -> (n: u32)
        ensures
            n == self.spec_to_u32(),
    {
        match self {
            AcceptState::Success => 0,
            AcceptState::ProgramUnavailable => 1,
            AcceptState::ProgramMismatch => 2,
            AcceptState::ProcedureUnavailable => 3,
            AcceptState::GarbageArguments => 4,
        }
    }

    /// The value that `n` stands for, if any.
    pub fn from_u32(n: u32) -> (r: Option<AcceptState>)
        ensures
            r == AcceptState::spec_from_u32(n),
    {
        match n {
            0 => Some(AcceptState::Success),
            1 => Some(AcceptState::ProgramUnavailable),
            2 => Some(AcceptState::ProgramMismatch),
            3 => Some(AcceptState::ProcedureUnavailable),
            4 => Some(AcceptState::GarbageArguments),
            _ => None,
        }
    }
}

impl XdrSerialize for AcceptState {
    /// The number, as a `u32`.
    open spec fn spec_emit(v: AcceptState) -> Emit {
        spec_u32_emit(v.spec_to_u32())
    }

    fn serialize(&self, dest: &mut Vec<u8>) -> (r: Result<(), XdrError>) {
        let n: u32 = self.to_u32();
        let r = n.serialize(dest);
        assert(Self::spec_emit(self.deep_view()) == spec_u32_emit(n));
        r
    }
}

impl XdrDeserialize for AcceptState {
    /// A number that stands for no value is invalid data.
    open spec fn spec_parse(data: Seq<u8>, pos: int) -> Parse<AcceptState> {
        match spec_u32_parse(data, pos) {
            Parse::Done(n, p) => match AcceptState::spec_from_u32(n) {
                Some(x) => Parse::Done(x, p),
                None => Parse::Fails(XdrError::InvalidData, p),
            },
            Parse::Fails(e, p) => Parse::Fails(e, p),
        }
    }

    fn deserialize(src: &mut XdrReader) -> (r: Result<AcceptState, XdrError>) {
        let n = match u32::deserialize(src) {
            Ok(n) => n,
            Err(e) => return Err(e),
        };
        match AcceptState::from_u32(n) {
            Some(x) => Ok(x),
            None => Err(XdrError::InvalidData),
        }
    }
}

/// Why an RPC call was rejected.
#[derive(Clone, Copy, Debug, PartialEq, Eq, Structural)]
pub enum RejectState {
    RpcMismatch,
    AuthError,
}

impl DeepView for RejectState {
    type V = RejectState;

    open spec fn deep_view(&self) -> RejectState {
        *self
    }
}

impl RejectState {
    /// The number that stands for the value.
    pub open spec fn spec_to_u32(self) -> u32 {
        match self {
            RejectState::RpcMismatch => 0,
            RejectState::AuthError => 1,
        }
    }

    /// The value that a number stands for, if any.
    pub open spec fn spec_from_u32(n: u32) -> Option<RejectState> {
        if n == 0 {
            Some(RejectState::RpcMismatch)
        } else if n == 1 {
            Some(RejectState::AuthError)
        } else {
            None
        }
    }

    /// The number that stands for the value.
    pub fn to_u32(&self) -> (n: u32)
        ensures
            n == self.spec_to_u32(),
    {
        match self {
            RejectState::RpcMismatch => 0,
            RejectState::AuthError => 1,
        }
    }

    /// The value that `n` stands for, if any.
    pub fn from_u32(n: u32) -> (r: Option<RejectState>)
        ensures
            r == RejectState::spec_from_u32(n),
    {
        match n {
            0 => Some(RejectState::RpcMismatch),
            1 => Some(RejectState::AuthError),
            _ => None,
        }
    }
}

impl XdrSerialize for RejectState {
    /// The number, as a `u32`.
    open spec fn spec_emit(v: RejectState) -> Emit {
        spec_u32_emit(v.spec_to_u32())
    }

    fn serialize(&self, dest: &mut Vec<u8>) -> (r: Result<(), XdrError>) {
        let n: u32 = self.to_u32();
        let r = n.serialize(dest);
        assert(Self::spec_emit(self.deep_view()) == spec_u32_emit(n));
        r
    }
}

impl XdrDeserialize for RejectState {
    /// A number that stands for no value is invalid data.
    open spec fn spec_parse(data: Seq<u8>, pos: int) -> Parse<RejectState> {
        match spec_u32_parse(data, pos) {
            Parse::Done(n, p) => match RejectState::spec_from_u32(n) {
                Some(x) => Parse::Done(x, p),
                None => Parse::Fails(XdrError::InvalidData, p),
            },
            Parse::Fails(e, p) => Parse::Fails(e, p),
        }
    }

    fn deserialize(src: &mut XdrReader) -> (r: Result<RejectState, XdrError>) {
        let n = match u32::deserialize(src) {
            Ok(n) => n,
            Err(e) => return Err(e),
        };
        match RejectState::from_u32(n) {
            Some(x) => Ok(x),
            None => Err(XdrError::InvalidData),
        }
    }
}

/// Why the authentication of an RPC call failed.
#[derive(Clone, Copy, Debug, PartialEq, Eq, Structural)]
pub enum AuthState {
    BadCredentials,
    RejectedCredentials,
    BadVerifier,
    RejectedVerifier,
    TooWeak,
}

impl DeepView for AuthState {
    type V = AuthState;

    open spec fn deep_view(&self) -> AuthState {
        *self
    }
}

impl AuthState {
    /// The number that stands for the value.
    pub open spec fn spec_to_u32(self) -> u32 {
        match self {
            AuthState::BadCredentials => 0,
            AuthState::RejectedCredentials => 1,
            AuthState::BadVerifier => 2,
            AuthState::RejectedVerifier => 4,
            AuthState::TooWeak => 5,
        }
    }

    /// The value that a number stands for, if any.
    pub open spec fn spec_from_u32(n: u32) -> Option<AuthState> {
        if n == 0 {
            Some(AuthState::BadCredentials)
        } else if n == 1 {
            Some(AuthState::RejectedCredentials)
        } else if n == 2 {
            Some(AuthState::BadVerifier)
        } else if n == 4 {
            Some(AuthState::RejectedVerifier)
        } else if n == 5 {
            Some(AuthState::TooWeak)
        } else {
            None
        }
    }

    /// The number that stands for the value.
    pub fn to_u32(&self) -> (n: u32)
        ensures
            n == self.spec_to_u32(),
    {
        match self {
            AuthState::BadCredentials => 0,
            AuthState::RejectedCredentials => 1,
            AuthState::BadVerifier => 2,
            AuthState::RejectedVerifier => 4,
            AuthState::TooWeak => 5,
        }
    }

    /// The value that `n` stands for, if any.
    pub fn from_u32(n: u32) -> (r: Option<AuthState>)
        ensures
            r == AuthState::spec_from_u32(n),
    {
        match n {
            0 => Some(AuthState::BadCredentials),
            1 => Some(AuthState::RejectedCredentials),
            2 => Some(AuthState::BadVerifier),
            4 => Some(AuthState::RejectedVerifier),
            5 => Some(AuthState::TooWeak),
            _ => None,
        }
    }
}

impl XdrSerialize for AuthState {
    /// The number, as a `u32`.
    open spec fn spec_emit(v: AuthState) -> Emit {
        spec_u32_emit(v.spec_to_u32())
    }

    fn serialize(&self, dest: &mut Vec<u8>) -> (r: Result<(), XdrError>) {
        let n: u32 = self.to_u32();
        let r = n.serialize(dest);
        assert(Self::spec_emit(self.deep_view()) == spec_u32_emit(n));
        r
    }
}

impl XdrDeserialize for AuthState {
    /// A number that stands for no value is invalid data.
    open spec fn spec_parse(data: Seq<u8>, pos: int) -> Parse<AuthState> {
        match spec_u32_parse(data, pos) {
            Parse::Done(n, p) => match AuthState::spec_from_u32(n) {
                Some(x) => Parse::Done(x, p),
                None => Parse::Fails(XdrError::InvalidData, p),
            },
            Parse::Fails(e, p) => Parse::Fails(e, p),
        }
    }

    fn deserialize(src: &mut XdrReader) -> (r: Result<AuthState, XdrError>) {
        let n = match u32::deserialize(src) {
            Ok(n) => n,
            Err(e) => return Err(e),
        };
        match AuthState::from_u32(n) {
            Some(x) => Ok(x),
            None => Err(XdrError::InvalidData),
        }
    }
}

/// The flavor of an RPC authentication.
#[derive(Clone, Copy, Debug, Default, PartialEq, Eq, Structural)]
pub enum AuthFlavor {
    #[default]
    Null,
    Unix,
    Short,
    Des,
    RpcSecGss,
}

impl DeepView for AuthFlavor {
    type V = AuthFlavor;

    open spec fn deep_view(&self) -> AuthFlavor {
        *self
    }
}

impl AuthFlavor {
    /// The number that stands for the value.
    pub open spec fn spec_to_u32(self) -> u32 {
        match self {
            AuthFlavor::Null => 0,
            AuthFlavor::Unix => 1,
            AuthFlavor::Short => 2,
            AuthFlavor::Des => 3,
            AuthFlavor::RpcSecGss => 6,
        }
    }

    /// The value that a number stands for, if any.
    pub open spec fn spec_from_u32(n: u32) -> Option<AuthFlavor> {
        if n == 0 {
            Some(AuthFlavor::Null)
        } else if n == 1 {
            Some(AuthFlavor::Unix)
        } else if n == 2 {
            Some(AuthFlavor::Short)
        } else if n == 3 {
            Some(AuthFlavor::Des)
        } else if n == 6 {
            Some(AuthFlavor::RpcSecGss)
        } else {
            None
        }
    }

    /// The number that stands for the value.
    pub fn to_u32(&self) -> (n: u32)
        ensures
            n == self.spec_to_u32(),
    {
        match self {
            AuthFlavor::Null => 0,
            AuthFlavor::Unix => 1,
            AuthFlavor::Short => 2,
            AuthFlavor::Des => 3,
            AuthFlavor::RpcSecGss => 6,
        }
    }

    /// The value that `n` stands for, if any.
    pub fn from_u32(n: u32) -> (r: Option<AuthFlavor>)
        ensures
            r == AuthFlavor::spec_from_u32(n),
    {
        match n {
            0 => Some(AuthFlavor::Null),
            1 => Some(AuthFlavor::Unix),
            2 => Some(AuthFlavor::Short),
            3 => Some(AuthFlavor::Des),
            6 => Some(AuthFlavor::RpcSecGss),
            _ => None,
        }
    }
}

impl XdrSerialize for AuthFlavor {
    /// The number, as a `u32`.
    open spec fn spec_emit(v: AuthFlavor) -> Emit {
        spec_u32_emit(v.spec_to_u32())
    }

    fn serialize(&self, dest: &mut Vec<u8>) -> (r: Result<(), XdrError>) {
        let n: u32 = self.to_u32();
        let r = n.serialize(dest);
        assert(Self::spec_emit(self.deep_view()) == spec_u32_emit(n));
        r
    }
}

impl XdrDeserialize for AuthFlavor {
    /// A number that stands for no value is invalid data.
    open spec fn spec_parse(data: Seq<u8>, pos: int) -> Parse<AuthFlavor> {
        match spec_u32_parse(data, pos) {
            Parse::Done(n, p) => match AuthFlavor::spec_from_u32(n) {
                Some(x) => Parse::Done(x, p),
                None => Parse::Fails(XdrError::InvalidData, p),
            },
            Parse::Fails(e, p) => Parse::Fails(e, p),
        }
    }

    fn deserialize(src: &mut XdrReader) -> (r: Result<AuthFlavor, XdrError>) {
        let n = match u32::deserialize(src) {
            Ok(n) => n,
            Err(e) => return Err(e),
        };
        match AuthFlavor::from_u32(n) {
            Some(x) => Ok(x),
            None => Err(XdrError::InvalidData),
        }
    }
}

/// The credentials of the Unix authentication flavor.
#[derive(Clone, Debug)]
pub struct AuthUnix {
    pub stamp: u32,
    pub machinename: Vec<u8>,
    pub uid: u32,
    pub gid: u32,
    pub gids: Vec<u32>,
}

/// The deep view of [`AuthUnix`].
pub struct SpecAuthUnix {
    pub stamp: u32,
    pub machinename: Seq<u8>,
    pub uid: u32,
    pub gid: u32,
    pub gids: Seq<u32>,
}

impl DeepView for AuthUnix {
    type V = SpecAuthUnix;

    open spec fn deep_view(&self) -> SpecAuthUnix {
        SpecAuthUnix { stamp: self.stamp.deep_view(), machinename: self.machinename.deep_view(), uid: self.uid.deep_view(), gid: self.gid.deep_view(), gids: self.gids.deep_view() }
    }
}

impl XdrSerialize for AuthUnix {
    open spec fn spec_emit(v: SpecAuthUnix) -> Emit {
        <u32 as XdrSerialize>::spec_emit(v.stamp).and_then(<Vec<u8> as XdrSerialize>::spec_emit(v.machinename)).and_then(<u32 as XdrSerialize>::spec_emit(v.uid)).and_then(<u32 as XdrSerialize>::spec_emit(v.gid)).and_then(<Vec<u32> as XdrSerialize>::spec_emit(v.gids))
    }

    #[verifier::spinoff_prover]
    #[verifier::rlimit(40)]
    fn serialize(&self, dest: &mut Vec<u8>) -> (r: Result<(), XdrError>) {
        match self.stamp.serialize(dest) {
            Ok(()) => {},
            Err(e) => return Err(e),
        }
        match self.machinename.serialize(dest) {
            Ok(()) => {},
            Err(e) => return Err(e),
        }
        match self.uid.serialize(dest) {
            Ok(()) => {},
            Err(e) => return Err(e),
        }
        match self.gid.serialize(dest) {
            Ok(()) => {},
            Err(e) => return Err(e),
        }
        self.gids.serialize(dest)
    }
}

/// Reading a [`AuthUnix`]: each field in turn.
#[verifier::opaque]
pub open spec fn spec_parse_auth_unix(data: Seq<u8>, pos: int) -> Parse<SpecAuthUnix> {
    match <u32 as XdrDeserialize>::spec_parse(data, pos) {
        Parse::Done(v0, p1) => match <Vec<u8> as XdrDeserialize>::spec_parse(data, p1) {
            Parse::Done(v1, p2) => match <u32 as XdrDeserialize>::spec_parse(data, p2) {
                Parse::Done(v2, p3) => match <u32 as XdrDeserialize>::spec_parse(data, p3) {
                    Parse::Done(v3, p4) => match <Vec<u32> as XdrDeserialize>::spec_parse(data, p4) {
                        Parse::Done(v4, p5) => Parse::Done(SpecAuthUnix { stamp: v0, machinename: v1, uid: v2, gid: v3, gids: v4 }, p5),
                        Parse::Fails(e, q) => Parse::Fails(e, q),
                    },
                    Parse::Fails(e, q) => Parse::Fails(e, q),
                },
                Parse::Fails(e, q) => Parse::Fails(e, q),
            },
            Parse::Fails(e, q) => Parse::Fails(e, q),
        },
        Parse::Fails(e, q) => Parse::Fails(e, q),
    }
}

impl XdrDeserialize for AuthUnix {
    open spec fn spec_parse(data: Seq<u8>, pos: int) -> Parse<SpecAuthUnix> {
        spec_parse_auth_unix(data, pos)
    }

    fn deserialize(src: &mut XdrReader) -> (r: Result<AuthUnix, XdrError>) {
        proof {
            reveal(spec_parse_auth_unix);
        }
        let v0 = match <u32 as XdrDeserialize>::deserialize(src) {
            Ok(x) => x,
            Err(e) => return Err(e),
        };
        let v1 = match <Vec<u8> as XdrDeserialize>::deserialize(src) {
            Ok(x) => x,
            Err(e) => return Err(e),
        };
        let v2 = match <u32 as XdrDeserialize>::deserialize(src) {
            Ok(x) => x,
            Err(e) => return Err(e),
        };
        let v3 = match <u32 as XdrDeserialize>::deserialize(src) {
            Ok(x) => x,
            Err(e) => return Err(e),
        };
        let v4 = match <Vec<u32> as XdrDeserialize>::deserialize(src) {
            Ok(x) => x,
            Err(e) => return Err(e),
        };
        Ok(AuthUnix { stamp: v0, machinename: v1, uid: v2, gid: v3, gids: v4 })
    }
}

/// An authentication flavor and its opaque body.
#[derive(Debug, Default)]
pub struct OpaqueAuth {
    pub flavor: AuthFlavor,
    pub body: Vec<u8>,
}

/// The deep view of [`OpaqueAuth`].
pub struct SpecOpaqueAuth {
    pub flavor: AuthFlavor,
    pub body: Seq<u8>,
}

impl DeepView for OpaqueAuth {
    type V = SpecOpaqueAuth;

    open spec fn deep_view(&self) -> SpecOpaqueAuth {
        SpecOpaqueAuth { flavor: self.flavor.deep_view(), body: self.body.deep_view() }
    }
}

impl XdrSerialize for OpaqueAuth {
    open spec fn spec_emit(v: SpecOpaqueAuth) -> Emit {
        <AuthFlavor as XdrSerialize>::spec_emit(v.flavor).and_then(<Vec<u8> as XdrSerialize>::spec_emit(v.body))
    }

    fn serialize(&self, dest: &mut Vec<u8>) -> (r: Result<(), XdrError>) {
        match self.flavor.serialize(dest) {
            Ok(()) => {},
            Err(e) => return Err(e),
        }
        self.body.serialize(dest)
    }
}

/// Reading a [`OpaqueAuth`]: each field in turn.
#[verifier::opaque]
pub open spec fn spec_parse_opaque_auth(data: Seq<u8>, pos: int) -> Parse<SpecOpaqueAuth> {
    match <AuthFlavor as XdrDeserialize>::spec_parse(data, pos) {
        Parse::Done(v0, p1) => match <Vec<u8> as XdrDeserialize>::spec_parse(data, p1) {
            Parse::Done(v1, p2) => Parse::Done(SpecOpaqueAuth { flavor: v0, body: v1 }, p2),
            Parse::Fails(e, q) => Parse::Fails(e, q),
        },
        Parse::Fails(e, q) => Parse::Fails(e, q),
    }
}

impl XdrDeserialize for OpaqueAuth {
    open spec fn spec_parse(data: Seq<u8>, pos: int) -> Parse<SpecOpaqueAuth> {
        spec_parse_opaque_auth(data, pos)
    }

    fn deserialize(src: &mut XdrReader) -> (r: Result<OpaqueAuth, XdrError>) {
        proof {
            reveal(spec_parse_opaque_auth);
        }
        let v0 = match <AuthFlavor as XdrDeserialize>::deserialize(src) {
            Ok(x) => x,
            Err(e) => return Err(e),
        };
        let v1 = match <Vec<u8> as XdrDeserialize>::deserialize(src) {
            Ok(x) => x,
            Err(e) => return Err(e),
        };
        Ok(OpaqueAuth { flavor: v0, body: v1 })
    }
}

/// An RPC message: a transaction id and a call or a reply.
#[derive(Debug)]
pub struct RpcMessage {
    pub xid: u32,
    pub body: RpcBody,
}

/// The deep view of [`RpcMessage`].
pub struct SpecRpcMessage {
    pub xid: u32,
    pub body: SpecRpcBody,
}

impl DeepView for RpcMessage {
    type V = SpecRpcMessage;

    open spec fn deep_view(&self) -> SpecRpcMessage {
        SpecRpcMessage { xid: self.xid.deep_view(), body: self.body.deep_view() }
    }
}

impl XdrSerialize for RpcMessage {
    open spec fn spec_emit(v: SpecRpcMessage) -> Emit {
        <u32 as XdrSerialize>::spec_emit(v.xid).and_then(<RpcBody as XdrSerialize>::spec_emit(v.body))
    }

    fn serialize(&self, dest: &mut Vec<u8>) -> (r: Result<(), XdrError>) {
        match self.xid.serialize(dest) {
            Ok(()) => {},
            Err(e) => return Err(e),
        }
        self.body.serialize(dest)
    }
}

/// Reading a [`RpcMessage`]: each field in turn.
#[verifier::opaque]
pub open spec fn spec_parse_rpc_message(data: Seq<u8>, pos: int) -> Parse<SpecRpcMessage> {
    match <u32 as XdrDeserialize>::spec_parse(data, pos) {
        Parse::Done(v0, p1) => match <RpcBody as XdrDeserialize>::spec_parse(data, p1) {
            Parse::Done(v1, p2) => Parse::Done(SpecRpcMessage { xid: v0, body: v1 }, p2),
            Parse::Fails(e, q) => Parse::Fails(e, q),
        },
        Parse::Fails(e, q) => Parse::Fails(e, q),
    }
}

impl XdrDeserialize for RpcMessage {
    open spec fn spec_parse(data: Seq<u8>, pos: int) -> Parse<SpecRpcMessage> {
        spec_parse_rpc_message(data, pos)
    }

    fn deserialize(src: &mut XdrReader) -> (r: Result<RpcMessage, XdrError>) {
        proof {
            reveal(spec_parse_rpc_message);
        }
        let v0 = match <u32 as XdrDeserialize>::deserialize(src) {
            Ok(x) => x,
            Err(e) => return Err(e),
        };
        let v1 = match <RpcBody as XdrDeserialize>::deserialize(src) {
            Ok(x) => x,
            Err(e) => return Err(e),
        };
        Ok(RpcMessage { xid: v0, body: v1 })
    }
}

/// The body of an RPC message.
#[derive(Debug)]
pub enum RpcBody {
    Call(RpcBodyCall),
    Reply(RpcBodyReply),
}

/// The deep view of [`RpcBody`].
pub enum SpecRpcBody {
    Call(SpecRpcBodyCall),
    Reply(SpecRpcBodyReply),
}

impl DeepView for RpcBody {
    type V = SpecRpcBody;

    open spec fn deep_view(&self) -> SpecRpcBody {
        match self {
            RpcBody::Call(x) => SpecRpcBody::Call(x.deep_view()),
            RpcBody::Reply(x) => SpecRpcBody::Reply(x.deep_view()),
        }
    }
}

impl XdrSerialize for RpcBody {
    open spec fn spec_emit(v: SpecRpcBody) -> Emit {
        match v {
            SpecRpcBody::Call(x) => spec_u32_emit(0).and_then(<RpcBodyCall as XdrSerialize>::spec_emit(x)),
            SpecRpcBody::Reply(x) => spec_u32_emit(1).and_then(<RpcBodyReply as XdrSerialize>::spec_emit(x)),
        }
    }

    fn serialize(&self, dest: &mut Vec<u8>) -> (r: Result<(), XdrError>) {
        match self {
            RpcBody::Call(x) => {
                match 0u32.serialize(dest) {
                    Ok(()) => {},
                    Err(e) => return Err(e),
                }
                x.serialize(dest)
            },
            RpcBody::Reply(x) => {
                match 1u32.serialize(dest) {
                    Ok(()) => {},
                    Err(e) => return Err(e),
                }
                x.serialize(dest)
            },
        }
    }
}

/// A tag other than 0 or 1 is invalid data.
/// Reading a [`RpcBody`]: its tag, then what the tag calls for.
#[verifier::opaque]
pub open spec fn spec_parse_rpc_body(data: Seq<u8>, pos: int) -> Parse<SpecRpcBody> {
        match spec_u32_parse(data, pos) {
            Parse::Done(t, p) => if t == 0 {
                match <RpcBodyCall as XdrDeserialize>::spec_parse(data, p) {
                    Parse::Done(x, q) => Parse::Done(SpecRpcBody::Call(x), q),
                    Parse::Fails(e, q) => Parse::Fails(e, q),
                }
            } else if t == 1 {
                match <RpcBodyReply as XdrDeserialize>::spec_parse(data, p) {
                    Parse::Done(x, q) => Parse::Done(SpecRpcBody::Reply(x), q),
                    Parse::Fails(e, q) => Parse::Fails(e, q),
                }
            } else {
                Parse::Fails(XdrError::InvalidData, p)
            },
            Parse::Fails(e, p) => Parse::Fails(e, p),
        }
}

impl XdrDeserialize for RpcBody {
    open spec fn spec_parse(data: Seq<u8>, pos: int) -> Parse<SpecRpcBody> {
        spec_parse_rpc_body(data, pos)
    }

    fn deserialize(src: &mut XdrReader) -> (r: Result<RpcBody, XdrError>) {
        proof {
            reveal(spec_parse_rpc_body);
        }
        let t = match u32::deserialize(src) {
            Ok(t) => t,
            Err(e) => return Err(e),
        };
        if t == 0 {
            match <RpcBodyCall as XdrDeserialize>::deserialize(src) {
                Ok(x) => Ok(RpcBody::Call(x)),
                Err(e) => Err(e),
            }
        } else if t == 1 {
            match <RpcBodyReply as XdrDeserialize>::deserialize(src) {
                Ok(x) => Ok(RpcBody::Reply(x)),
                Err(e) => Err(e),
            }
        } else {
            Err(XdrError::InvalidData)
        }
    }
}

/// An RPC call.
#[derive(Debug)]
pub struct RpcBodyCall {
    pub rpc_version: u32,
    pub program: u32,
    pub version: u32,
    pub procedure: u32,
    pub credentials: OpaqueAuth,
    pub verifier: OpaqueAuth,
}

/// The deep view of [`RpcBodyCall`].
pub struct SpecRpcBodyCall {
    pub rpc_version: u32,
    pub program: u32,
    pub version: u32,
    pub procedure: u32,
    pub credentials: SpecOpaqueAuth,
    pub verifier: SpecOpaqueAuth,
}

impl DeepView for RpcBodyCall {
    type V = SpecRpcBodyCall;

    open spec fn deep_view(&self) -> SpecRpcBodyCall {
        SpecRpcBodyCall { rpc_version: self.rpc_version.deep_view(), program: self.program.deep_view(), version: self.version.deep_view(), procedure: self.procedure.deep_view(), credentials: self.credentials.deep_view(), verifier: self.verifier.deep_view() }
    }
}

impl XdrSerialize for RpcBodyCall {
    open spec fn spec_emit(v: SpecRpcBodyCall) -> Emit {
        <u32 as XdrSerialize>::spec_emit(v.rpc_version).and_then(<u32 as XdrSerialize>::spec_emit(v.program)).and_then(<u32 as XdrSerialize>::spec_emit(v.version)).and_then(<u32 as XdrSerialize>::spec_emit(v.procedure)).and_then(<OpaqueAuth as XdrSerialize>::spec_emit(v.credentials)).and_then(<OpaqueAuth as XdrSerialize>::spec_emit(v.verifier))
    }

    #[verifier::spinoff_prover]
    #[verifier::rlimit(40)]
    fn serialize(&self, dest: &mut Vec<u8>) -> (r: Result<(), XdrError>) {
        match self.rpc_version.serialize(dest) {
            Ok(()) => {},
            Err(e) => return Err(e),
        }
        match self.program.serialize(dest) {
            Ok(()) => {},
            Err(e) => return Err(e),
        }
        match self.version.serialize(dest) {
            Ok(()) => {},
            Err(e) => return Err(e),
        }
        match self.procedure.serialize(dest) {
            Ok(()) => {},
            Err(e) => return Err(e),
        }
        match self.credentials.serialize(dest) {
            Ok(()) => {},
            Err(e) => return Err(e),
        }
        self.verifier.serialize(dest)
    }
}

/// Reading a [`RpcBodyCall`]: each field in turn.
#[verifier::opaque]
pub open spec fn spec_parse_rpc_body_call(data: Seq<u8>, pos: int) -> Parse<SpecRpcBodyCall> {
    match <u32 as XdrDeserialize>::spec_parse(data, pos) {
        Parse::Done(v0, p1) => match <u32 as XdrDeserialize>::spec_parse(data, p1) {
            Parse::Done(v1, p2) => match <u32 as XdrDeserialize>::spec_parse(data, p2) {
                Parse::Done(v2, p3) => match <u32 as XdrDeserialize>::spec_parse(data, p3) {
                    Parse::Done(v3, p4) => match <OpaqueAuth as XdrDeserialize>::spec_parse(data, p4) {
                        Parse::Done(v4, p5) => match <OpaqueAuth as XdrDeserialize>::spec_parse(data, p5) {
                            Parse::Done(v5, p6) => Parse::Done(SpecRpcBodyCall { rpc_version: v0, program: v1, version: v2, procedure: v3, credentials: v4, verifier: v5 }, p6),
                            Parse::Fails(e, q) => Parse::Fails(e, q),
                        },
                        Parse::Fails(e, q) => Parse::Fails(e, q),
                    },
                    Parse::Fails(e, q) => Parse::Fails(e, q),
                },
                Parse::Fails(e, q) => Parse::Fails(e, q),
            },
            Parse::Fails(e, q) => Parse::Fails(e, q),
        },
        Parse::Fails(e, q) => Parse::Fails(e, q),
    }
}

impl XdrDeserialize for RpcBodyCall {
    open spec fn spec_parse(data: Seq<u8>, pos: int) -> Parse<SpecRpcBodyCall> {
        spec_parse_rpc_body_call(data, pos)
    }

    fn deserialize(src: &mut XdrReader) -> (r: Result<RpcBodyCall, XdrError>) {
        proof {
            reveal(spec_parse_rpc_body_call);
        }
        let v0 = match <u32 as XdrDeserialize>::deserialize(src) {
            Ok(x) => x,
            Err(e) => return Err(e),
        };
        let v1 = match <u32 as XdrDeserialize>::deserialize(src) {
            Ok(x) => x,
            Err(e) => return Err(e),
        };
        let v2 = match <u32 as XdrDeserialize>::deserialize(src) {
            Ok(x) => x,
            Err(e) => return Err(e),
        };
        let v3 = match <u32 as XdrDeserialize>::deserialize(src) {
            Ok(x) => x,
            Err(e) => return Err(e),
        };
        let v4 = match <OpaqueAuth as XdrDeserialize>::deserialize(src) {
            Ok(x) => x,
            Err(e) => return Err(e),
        };
        let v5 = match <OpaqueAuth as XdrDeserialize>::deserialize(src) {
            Ok(x) => x,
            Err(e) => return Err(e),
        };
        Ok(RpcBodyCall { rpc_version: v0, program: v1, version: v2, procedure: v3, credentials: v4, verifier: v5 })
    }
}

/// An RPC reply.
#[derive(Debug)]
pub enum RpcBodyReply {
    Accepted(AcceptedReply),
    Rejected(RejectedReply),
}

/// The deep view of [`RpcBodyReply`].
pub enum SpecRpcBodyReply {
    Accepted(SpecAcceptedReply),
    Rejected(RejectedReply),
}

impl DeepView for RpcBodyReply {
    type V = SpecRpcBodyReply;

    open spec fn deep_view(&self) -> SpecRpcBodyReply {
        match self {
            RpcBodyReply::Accepted(x) => SpecRpcBodyReply::Accepted(x.deep_view()),
            RpcBodyReply::Rejected(x) => SpecRpcBodyReply::Rejected(x.deep_view()),
        }
    }
}

impl XdrSerialize for RpcBodyReply {
    open spec fn spec_emit(v: SpecRpcBodyReply) -> Emit {
        match v {
            SpecRpcBodyReply::Accepted(x) => spec_u32_emit(0).and_then(<AcceptedReply as XdrSerialize>::spec_emit(x)),
            SpecRpcBodyReply::Rejected(x) => spec_u32_emit(1).and_then(<RejectedReply as XdrSerialize>::spec_emit(x)),
        }
    }

    fn serialize(&self, dest: &mut Vec<u8>) -> (r: Result<(), XdrError>) {
        match self {
            RpcBodyReply::Accepted(x) => {
                match 0u32.serialize(dest) {
                    Ok(()) => {},
                    Err(e) => return Err(e),
                }
                x.serialize(dest)
            },
            RpcBodyReply::Rejected(x) => {
                match 1u32.serialize(dest) {
                    Ok(()) => {},
                    Err(e) => return Err(e),
                }
                x.serialize(dest)
            },
        }
    }
}

/// A tag other than 0 or 1 is invalid data.
/// Reading a [`RpcBodyReply`]: its tag, then what the tag calls for.
#[verifier::opaque]
pub open spec fn spec_parse_rpc_body_reply(data: Seq<u8>, pos: int) -> Parse<SpecRpcBodyReply> {
        match spec_u32_parse(data, pos) {
            Parse::Done(t, p) => if t == 0 {
                match <AcceptedReply as XdrDeserialize>::spec_parse(data, p) {
                    Parse::Done(x, q) => Parse::Done(SpecRpcBodyReply::Accepted(x), q),
                    Parse::Fails(e, q) => Parse::Fails(e, q),
                }
            } else if t == 1 {
                match <RejectedReply as XdrDeserialize>::spec_parse(data, p) {
                    Parse::Done(x, q) => Parse::Done(SpecRpcBodyReply::Rejected(x), q),
                    Parse::Fails(e, q) => Parse::Fails(e, q),
                }
            } else {
                Parse::Fails(XdrError::InvalidData, p)
            },
            Parse::Fails(e, p) => Parse::Fails(e, p),
        }
}

impl XdrDeserialize for RpcBodyReply {
    open spec fn spec_parse(data: Seq<u8>, pos: int) -> Parse<SpecRpcBodyReply> {
        spec_parse_rpc_body_reply(data, pos)
    }

    fn deserialize(src: &mut XdrReader) -> (r: Result<RpcBodyReply, XdrError>) {
        proof {
            reveal(spec_parse_rpc_body_reply);
        }
        let t = match u32::deserialize(src) {
            Ok(t) => t,
            Err(e) => return Err(e),
        };
        if t == 0 {
            match <AcceptedReply as XdrDeserialize>::deserialize(src) {
                Ok(x) => Ok(RpcBodyReply::Accepted(x)),
                Err(e) => Err(e),
            }
        } else if t == 1 {
            match <RejectedReply as XdrDeserialize>::deserialize(src) {
                Ok(x) => Ok(RpcBodyReply::Rejected(x)),
                Err(e) => Err(e),
            }
        } else {
            Err(XdrError::InvalidData)
        }
    }
}

/// The reply to an accepted call.
#[derive(Debug)]
pub struct AcceptedReply {
    pub verifier: OpaqueAuth,
    pub body: AcceptedBody,
}

/// The deep view of [`AcceptedReply`].
pub struct SpecAcceptedReply {
    pub verifier: SpecOpaqueAuth,
    pub body: AcceptedBody,
}

impl DeepView for AcceptedReply {
    type V = SpecAcceptedReply;

    open spec fn deep_view(&self) -> SpecAcceptedReply {
        SpecAcceptedReply { verifier: self.verifier.deep_view(), body: self.body.deep_view() }
    }
}

impl XdrSerialize for AcceptedReply {
    open spec fn spec_emit(v: SpecAcceptedReply) -> Emit {
        <OpaqueAuth as XdrSerialize>::spec_emit(v.verifier).and_then(<AcceptedBody as XdrSerialize>::spec_emit(v.body))
    }

    fn serialize(&self, dest: &mut Vec<u8>) -> (r: Result<(), XdrError>) {
        match self.verifier.serialize(dest) {
            Ok(()) => {},
            Err(e) => return Err(e),
        }
        self.body.serialize(dest)
    }
}

/// Reading a [`AcceptedReply`]: each field in turn.
#[verifier::opaque]
pub open spec fn spec_parse_accepted_reply(data: Seq<u8>, pos: int) -> Parse<SpecAcceptedReply> {
    match <OpaqueAuth as XdrDeserialize>::spec_parse(data, pos) {
        Parse::Done(v0, p1) => match <AcceptedBody as XdrDeserialize>::spec_parse(data, p1) {
            Parse::Done(v1, p2) => Parse::Done(SpecAcceptedReply { verifier: v0, body: v1 }, p2),
            Parse::Fails(e, q) => Parse::Fails(e, q),
        },
        Parse::Fails(e, q) => Parse::Fails(e, q),
    }
}

impl XdrDeserialize for AcceptedReply {
    open spec fn spec_parse(data: Seq<u8>, pos: int) -> Parse<SpecAcceptedReply> {
        spec_parse_accepted_reply(data, pos)
    }

    fn deserialize(src: &mut XdrReader) -> (r: Result<AcceptedReply, XdrError>) {
        proof {
            reveal(spec_parse_accepted_reply);
        }
        let v0 = match <OpaqueAuth as XdrDeserialize>::deserialize(src) {
            Ok(x) => x,
            Err(e) => return Err(e),
        };
        let v1 = match <AcceptedBody as XdrDeserialize>::deserialize(src) {
            Ok(x) => x,
            Err(e) => return Err(e),
        };
        Ok(AcceptedReply { verifier: v0, body: v1 })
    }
}

/// How an accepted call went.
#[derive(Clone, Copy, Debug)]
pub enum AcceptedBody {
    Success,
    ProgramUnavailable,
    ProgramMismatch(MismatchInfo),
    ProcedureUnavailable,
    GarbageArguments,
}

impl DeepView for AcceptedBody {
    type V = AcceptedBody;

    open spec fn deep_view(&self) -> AcceptedBody {
        match self {
            AcceptedBody::Success => AcceptedBody::Success,
            AcceptedBody::ProgramUnavailable => AcceptedBody::ProgramUnavailable,
            AcceptedBody::ProgramMismatch(x) => AcceptedBody::ProgramMismatch(x.deep_view()),
            AcceptedBody::ProcedureUnavailable => AcceptedBody::ProcedureUnavailable,
            AcceptedBody::GarbageArguments => AcceptedBody::GarbageArguments,
        }
    }
}

impl XdrSerialize for AcceptedBody {
    open spec fn spec_emit(v: AcceptedBody) -> Emit {
        match v {
            AcceptedBody::Success => spec_u32_emit(0),
            AcceptedBody::ProgramUnavailable => spec_u32_emit(1),
            AcceptedBody::ProgramMismatch(x) => spec_u32_emit(2).and_then(<MismatchInfo as XdrSerialize>::spec_emit(x)),
            AcceptedBody::ProcedureUnavailable => spec_u32_emit(3),
            AcceptedBody::GarbageArguments => spec_u32_emit(4),
        }
    }

    fn serialize(&self, dest: &mut Vec<u8>) -> (r: Result<(), XdrError>) {
        match self {
            AcceptedBody::Success => 0u32.serialize(dest),
            AcceptedBody::ProgramUnavailable => 1u32.serialize(dest),
            AcceptedBody::ProgramMismatch(x) => {
                match 2u32.serialize(dest) {
                    Ok(()) => {},
                    Err(e) => return Err(e),
                }
                x.serialize(dest)
            },
            AcceptedBody::ProcedureUnavailable => 3u32.serialize(dest),
            AcceptedBody::GarbageArguments => 4u32.serialize(dest),
        }
    }
}

/// A tag over 4 is invalid data.
/// Reading a [`AcceptedBody`]: its tag, then what the tag calls for.
#[verifier::opaque]
pub open spec fn spec_parse_accepted_body(data: Seq<u8>, pos: int) -> Parse<AcceptedBody> {
        match spec_u32_parse(data, pos) {
            Parse::Done(t, p) => if t == 0 {
                Parse::Done(AcceptedBody::Success, p)
            } else if t == 1 {
                Parse::Done(AcceptedBody::ProgramUnavailable, p)
            } else if t == 2 {
                match <MismatchInfo as XdrDeserialize>::spec_parse(data, p) {
                    Parse::Done(x, q) => Parse::Done(AcceptedBody::ProgramMismatch(x), q),
                    Parse::Fails(e, q) => Parse::Fails(e, q),
                }
            } else if t == 3 {
                Parse::Done(AcceptedBody::ProcedureUnavailable, p)
            } else if t == 4 {
                Parse::Done(AcceptedBody::GarbageArguments, p)
            } else {
                Parse::Fails(XdrError::InvalidData, p)
            },
            Parse::Fails(e, p) => Parse::Fails(e, p),
        }
}

impl XdrDeserialize for AcceptedBody {
    open spec fn spec_parse(data: Seq<u8>, pos: int) -> Parse<AcceptedBody> {
        spec_parse_accepted_body(data, pos)
    }

    fn deserialize(src: &mut XdrReader) -> (r: Result<AcceptedBody, XdrError>) {
        proof {
            reveal(spec_parse_accepted_body);
        }
        let t = match u32::deserialize(src) {
            Ok(t) => t,
            Err(e) => return Err(e),
        };
        if t == 0 {
            Ok(AcceptedBody::Success)
        } else if t == 1 {
            Ok(AcceptedBody::ProgramUnavailable)
        } else if t == 2 {
            match <MismatchInfo as XdrDeserialize>::deserialize(src) {
                Ok(x) => Ok(AcceptedBody::ProgramMismatch(x)),
                Err(e) => Err(e),
            }
        } else if t == 3 {
            Ok(AcceptedBody::ProcedureUnavailable)
        } else if t == 4 {
            Ok(AcceptedBody::GarbageArguments)
        } else {
            Err(XdrError::InvalidData)
        }
    }
}

/// Why a call was rejected.
#[derive(Debug)]
pub enum RejectedReply {
    RpcMismatch(MismatchInfo),
    AuthError(AuthState),
}

impl DeepView for RejectedReply {
    type V = RejectedReply;

    open spec fn deep_view(&self) -> RejectedReply {
        match self {
            RejectedReply::RpcMismatch(x) => RejectedReply::RpcMismatch(x.deep_view()),
            RejectedReply::AuthError(x) => RejectedReply::AuthError(x.deep_view()),
        }
    }
}

impl XdrSerialize for RejectedReply {
    open spec fn spec_emit(v: RejectedReply) -> Emit {
        match v {
            RejectedReply::RpcMismatch(x) => spec_u32_emit(0).and_then(<MismatchInfo as XdrSerialize>::spec_emit(x)),
            RejectedReply::AuthError(x) => spec_u32_emit(1).and_then(<AuthState as XdrSerialize>::spec_emit(x)),
        }
    }

    fn serialize(&self, dest: &mut Vec<u8>) -> (r: Result<(), XdrError>) {
        match self {
            RejectedReply::RpcMismatch(x) => {
                match 0u32.serialize(dest) {
                    Ok(()) => {},
                    Err(e) => return Err(e),
                }
                x.serialize(dest)
            },
            RejectedReply::AuthError(x) => {
                match 1u32.serialize(dest) {
                    Ok(()) => {},
                    Err(e) => return Err(e),
                }
                x.serialize(dest)
            },
        }
    }
}

/// A tag other than 0 or 1 is invalid data.
/// Reading a [`RejectedReply`]: its tag, then what the tag calls for.
#[verifier::opaque]
pub open spec fn spec_parse_rejected_reply(data: Seq<u8>, pos: int) -> Parse<RejectedReply> {
        match spec_u32_parse(data, pos) {
            Parse::Done(t, p) => if t == 0 {
                match <MismatchInfo as XdrDeserialize>::spec_parse(data, p) {
                    Parse::Done(x, q) => Parse::Done(RejectedReply::RpcMismatch(x), q),
                    Parse::Fails(e, q) => Parse::Fails(e, q),
                }
            } else if t == 1 {
                match <AuthState as XdrDeserialize>::spec_parse(data, p) {
                    Parse::Done(x, q) => Parse::Done(RejectedReply::AuthError(x), q),
                    Parse::Fails(e, q) => Parse::Fails(e, q),
                }
            } else {
                Parse::Fails(XdrError::InvalidData, p)
            },
            Parse::Fails(e, p) => Parse::Fails(e, p),
        }
}

impl XdrDeserialize for RejectedReply {
    open spec fn spec_parse(data: Seq<u8>, pos: int) -> Parse<RejectedReply> {
        spec_parse_rejected_reply(data, pos)
    }

    fn deserialize(src: &mut XdrReader) -> (r: Result<RejectedReply, XdrError>) {
        proof {
            reveal(spec_parse_rejected_reply);
        }
        let t = match u32::deserialize(src) {
            Ok(t) => t,
            Err(e) => return Err(e),
        };
        if t == 0 {
            match <MismatchInfo as XdrDeserialize>::deserialize(src) {
                Ok(x) => Ok(RejectedReply::RpcMismatch(x)),
                Err(e) => Err(e),
            }
        } else if t == 1 {
            match <AuthState as XdrDeserialize>::deserialize(src) {
                Ok(x) => Ok(RejectedReply::AuthError(x)),
                Err(e) => Err(e),
            }
        } else {
            Err(XdrError::InvalidData)
        }
    }
}

/// The lowest and highest versions that are supported.
#[derive(Clone, Copy, Debug, Default)]
pub struct MismatchInfo {
    pub low: u32,
    pub high: u32,
}

impl DeepView for MismatchInfo {
    type V = MismatchInfo;

    open spec fn deep_view(&self) -> MismatchInfo {
        MismatchInfo { low: self.low.deep_view(), high: self.high.deep_view() }
    }
}

impl XdrSerialize for MismatchInfo {
    open spec fn spec_emit(v: MismatchInfo) -> Emit {
        <u32 as XdrSerialize>::spec_emit(v.low).and_then(<u32 as XdrSerialize>::spec_emit(v.high))
    }

    fn serialize(&self, dest: &mut Vec<u8>) -> (r: Result<(), XdrError>) {
        match self.low.serialize(dest) {
            Ok(()) => {},
            Err(e) => return Err(e),
        }
        self.high.serialize(dest)
    }
}

/// Reading a [`MismatchInfo`]: each field in turn.
#[verifier::opaque]
pub open spec fn spec_parse_mismatch_info(data: Seq<u8>, pos: int) -> Parse<MismatchInfo> {
    match <u32 as XdrDeserialize>::spec_parse(data, pos) {
        Parse::Done(v0, p1) => match <u32 as XdrDeserialize>::spec_parse(data, p1) {
            Parse::Done(v1, p2) => Parse::Done(MismatchInfo { low: v0, high: v1 }, p2),
            Parse::Fails(e, q) => Parse::Fails(e, q),
        },
        Parse::Fails(e, q) => Parse::Fails(e, q),
    }
}

impl XdrDeserialize for MismatchInfo {
    open spec fn spec_parse(data: Seq<u8>, pos: int) -> Parse<MismatchInfo> {
        spec_parse_mismatch_info(data, pos)
    }

    fn deserialize(src: &mut XdrReader) -> (r: Result<MismatchInfo, XdrError>) {
        proof {
            reveal(spec_parse_mismatch_info);
        }
        let v0 = match <u32 as XdrDeserialize>::deserialize(src) {
            Ok(x) => x,
            Err(e) => return Err(e),
        };
        let v1 = match <u32 as XdrDeserialize>::deserialize(src) {
            Ok(x) => x,
            Err(e) => return Err(e),
        };
        Ok(MismatchInfo { low: v0, high: v1 })
    }
}

// ---------------------------------------------------------------------------
// Reading back what was written
// ---------------------------------------------------------------------------

/// A [`MessageType`] reads back as itself.
pub proof fn lemma_message_type_roundtrips(v: MessageType)
    ensures
        spec_roundtrips::<MessageType>(v),
{
    lemma_u32_roundtrips(v.spec_to_u32());
    assert forall|data: Seq<u8>, pos: int|
        spec_at(data, pos, <MessageType as XdrSerialize>::spec_emit(v)->Done_0) implies #[trigger] <MessageType as XdrDeserialize>::spec_parse(
        data,
        pos,
    ) == Parse::Done(v, pos + <MessageType as XdrSerialize>::spec_emit(v)->Done_0.len()) by {
        assert(<u32 as XdrDeserialize>::spec_parse(data, pos) == Parse::Done(v.spec_to_u32(), pos + 4));
    }
}

/// A [`ReplyState`] reads back as itself.
pub proof fn lemma_reply_state_roundtrips(v: ReplyState)
    ensures
        spec_roundtrips::<ReplyState>(v),
{
    lemma_u32_roundtrips(v.spec_to_u32());
    assert forall|data: Seq<u8>, pos: int|
        spec_at(data, pos, <ReplyState as XdrSerialize>::spec_emit(v)->Done_0) implies #[trigger] <ReplyState as XdrDeserialize>::spec_parse(
        data,
        pos,
    ) == Parse::Done(v, pos + <ReplyState as XdrSerialize>::spec_emit(v)->Done_0.len()) by {
        assert(<u32 as XdrDeserialize>::spec_parse(data, pos) == Parse::Done(v.spec_to_u32(), pos + 4));
    }
}

/// A [`AcceptState`] reads back as itself.
pub proof fn lemma_accept_state_roundtrips(v: AcceptState)
    ensures
        spec_roundtrips::<AcceptState>(v),
{
    lemma_u32_roundtrips(v.spec_to_u32());
    assert forall|data: Seq<u8>, pos: int|
        spec_at(data, pos, <AcceptState as XdrSerialize>::spec_emit(v)->Done_0) implies #[trigger] <AcceptState as XdrDeserialize>::spec_parse(
        data,
        pos,
    ) == Parse::Done(v, pos + <AcceptState as XdrSerialize>::spec_emit(v)->Done_0.len()) by {
        assert(<u32 as XdrDeserialize>::spec_parse(data, pos) == Parse::Done(v.spec_to_u32(), pos + 4));
    }
}

/// A [`RejectState`] reads back as itself.
pub proof fn lemma_reject_state_roundtrips(v: RejectState)
    ensures
        spec_roundtrips::<RejectState>(v),
{
    lemma_u32_roundtrips(v.spec_to_u32());
    assert forall|data: Seq<u8>, pos: int|
        spec_at(data, pos, <RejectState as XdrSerialize>::spec_emit(v)->Done_0) implies #[trigger] <RejectState as XdrDeserialize>::spec_parse(
        data,
        pos,
    ) == Parse::Done(v, pos + <RejectState as XdrSerialize>::spec_emit(v)->Done_0.len()) by {
        assert(<u32 as XdrDeserialize>::spec_parse(data, pos) == Parse::Done(v.spec_to_u32(), pos + 4));
    }
}

/// A [`AuthState`] reads back as itself.
pub proof fn lemma_auth_state_roundtrips(v: AuthState)
    ensures
        spec_roundtrips::<AuthState>(v),
{
    lemma_u32_roundtrips(v.spec_to_u32());
    assert forall|data: Seq<u8>, pos: int|
        spec_at(data, pos, <AuthState as XdrSerialize>::spec_emit(v)->Done_0) implies #[trigger] <AuthState as XdrDeserialize>::spec_parse(
        data,
        pos,
    ) == Parse::Done(v, pos + <AuthState as XdrSerialize>::spec_emit(v)->Done_0.len()) by {
        assert(<u32 as XdrDeserialize>::spec_parse(data, pos) == Parse::Done(v.spec_to_u32(), pos + 4));
    }
}

/// A [`AuthFlavor`] reads back as itself.
pub proof fn lemma_auth_flavor_roundtrips(v: AuthFlavor)
    ensures
        spec_roundtrips::<AuthFlavor>(v),
{
    lemma_u32_roundtrips(v.spec_to_u32());
    assert forall|data: Seq<u8>, pos: int|
        spec_at(data, pos, <AuthFlavor as XdrSerialize>::spec_emit(v)->Done_0) implies #[trigger] <AuthFlavor as XdrDeserialize>::spec_parse(
        data,
        pos,
    ) == Parse::Done(v, pos + <AuthFlavor as XdrSerialize>::spec_emit(v)->Done_0.len()) by {
        assert(<u32 as XdrDeserialize>::spec_parse(data, pos) == Parse::Done(v.spec_to_u32(), pos + 4));
    }
}

/// A [`AuthUnix`] whose fields each read back as themselves reads back as itself.
#[verifier::spinoff_prover]
#[verifier::rlimit(60)]
pub proof fn lemma_auth_unix_roundtrips(v: SpecAuthUnix)
    requires
        spec_roundtrips::<u32>(v.stamp),
        spec_roundtrips::<Vec<u8>>(v.machinename),
        spec_roundtrips::<u32>(v.uid),
        spec_roundtrips::<u32>(v.gid),
        spec_roundtrips::<Vec<u32>>(v.gids),
    ensures
        spec_roundtrips::<AuthUnix>(v),
{
    let b0 = <u32 as XdrSerialize>::spec_emit(v.stamp)->Done_0;
    let b1 = <Vec<u8> as XdrSerialize>::spec_emit(v.machinename)->Done_0;
    let b2 = <u32 as XdrSerialize>::spec_emit(v.uid)->Done_0;
    let b3 = <u32 as XdrSerialize>::spec_emit(v.gid)->Done_0;
    let b4 = <Vec<u32> as XdrSerialize>::spec_emit(v.gids)->Done_0;
    assert forall|data: Seq<u8>, pos: int|
        spec_at(data, pos, <AuthUnix as XdrSerialize>::spec_emit(v)->Done_0) implies #[trigger] <AuthUnix as XdrDeserialize>::spec_parse(
        data,
        pos,
    ) == Parse::Done(v, pos + <AuthUnix as XdrSerialize>::spec_emit(v)->Done_0.len()) by {
        reveal(spec_parse_auth_unix);
        lemma_at_split(data, pos, b0 + b1 + b2 + b3, b4);
        lemma_at_split(data, pos, b0 + b1 + b2, b3);
        lemma_at_split(data, pos, b0 + b1, b2);
        lemma_at_split(data, pos, b0, b1);
        assert(<u32 as XdrDeserialize>::spec_parse(data, pos) == Parse::Done(v.stamp, pos + b0.len()));
        assert(<Vec<u8> as XdrDeserialize>::spec_parse(data, pos + (b0).len()) == Parse::Done(v.machinename, pos + (b0).len() + b1.len()));
        assert(<u32 as XdrDeserialize>::spec_parse(data, pos + (b0 + b1).len()) == Parse::Done(v.uid, pos + (b0 + b1).len() + b2.len()));
        assert(<u32 as XdrDeserialize>::spec_parse(data, pos + (b0 + b1 + b2).len()) == Parse::Done(v.gid, pos + (b0 + b1 + b2).len() + b3.len()));
        assert(<Vec<u32> as XdrDeserialize>::spec_parse(data, pos + (b0 + b1 + b2 + b3).len()) == Parse::Done(v.gids, pos + (b0 + b1 + b2 + b3).len() + b4.len()));
    }
}

/// A [`OpaqueAuth`] whose fields each read back as themselves reads back as itself.
#[verifier::spinoff_prover]
#[verifier::rlimit(60)]
pub proof fn lemma_opaque_auth_roundtrips(v: SpecOpaqueAuth)
    requires
        spec_roundtrips::<AuthFlavor>(v.flavor),
        spec_roundtrips::<Vec<u8>>(v.body),
    ensures
        spec_roundtrips::<OpaqueAuth>(v),
{
    let b0 = <AuthFlavor as XdrSerialize>::spec_emit(v.flavor)->Done_0;
    let b1 = <Vec<u8> as XdrSerialize>::spec_emit(v.body)->Done_0;
    assert forall|data: Seq<u8>, pos: int|
        spec_at(data, pos, <OpaqueAuth as XdrSerialize>::spec_emit(v)->Done_0) implies #[trigger] <OpaqueAuth as XdrDeserialize>::spec_parse(
        data,
        pos,
    ) == Parse::Done(v, pos + <OpaqueAuth as XdrSerialize>::spec_emit(v)->Done_0.len()) by {
        reveal(spec_parse_opaque_auth);
        lemma_at_split(data, pos, b0, b1);
        assert(<AuthFlavor as XdrDeserialize>::spec_parse(data, pos) == Parse::Done(v.flavor, pos + b0.len()));
        assert(<Vec<u8> as XdrDeserialize>::spec_parse(data, pos + (b0).len()) == Parse::Done(v.body, pos + (b0).len() + b1.len()));
    }
}

/// A [`RpcMessage`] whose fields each read back as themselves reads back as itself.
#[verifier::spinoff_prover]
#[verifier::rlimit(60)]
pub proof fn lemma_rpc_message_roundtrips(v: SpecRpcMessage)
    requires
        spec_roundtrips::<u32>(v.xid),
        spec_roundtrips::<RpcBody>(v.body),
    ensures
        spec_roundtrips::<RpcMessage>(v),
{
    let b0 = <u32 as XdrSerialize>::spec_emit(v.xid)->Done_0;
    let b1 = <RpcBody as XdrSerialize>::spec_emit(v.body)->Done_0;
    assert forall|data: Seq<u8>, pos: int|
        spec_at(data, pos, <RpcMessage as XdrSerialize>::spec_emit(v)->Done_0) implies #[trigger] <RpcMessage as XdrDeserialize>::spec_parse(
        data,
        pos,
    ) == Parse::Done(v, pos + <RpcMessage as XdrSerialize>::spec_emit(v)->Done_0.len()) by {
        reveal(spec_parse_rpc_message);
        lemma_at_split(data, pos, b0, b1);
        assert(<u32 as XdrDeserialize>::spec_parse(data, pos) == Parse::Done(v.xid, pos + b0.len()));
        assert(<RpcBody as XdrDeserialize>::spec_parse(data, pos + (b0).len()) == Parse::Done(v.body, pos + (b0).len() + b1.len()));
    }
}

/// A [`RpcBody`] whose contents read back as themselves reads back as itself.
#[verifier::spinoff_prover]
#[verifier::rlimit(60)]
pub proof fn lemma_rpc_body_roundtrips(v: SpecRpcBody)
    requires
        match v {
            SpecRpcBody::Call(x) => spec_roundtrips::<RpcBodyCall>(x),
            SpecRpcBody::Reply(x) => spec_roundtrips::<RpcBodyReply>(x),
        },
    ensures
        spec_roundtrips::<RpcBody>(v),
{
    match v {
        SpecRpcBody::Call(x) => {
            lemma_u32_roundtrips(0u32);
            let a = spec_u32_emit(0u32)->Done_0;
            let b = <RpcBodyCall as XdrSerialize>::spec_emit(x)->Done_0;
            assert forall|data: Seq<u8>, pos: int|
                spec_at(data, pos, <RpcBody as XdrSerialize>::spec_emit(v)->Done_0) implies #[trigger] <RpcBody as XdrDeserialize>::spec_parse(
                data,
                pos,
            ) == Parse::Done(v, pos + <RpcBody as XdrSerialize>::spec_emit(v)->Done_0.len()) by {
                reveal(spec_parse_rpc_body);
                lemma_at_split(data, pos, a, b);
                assert(<u32 as XdrDeserialize>::spec_parse(data, pos) == Parse::Done(0u32, pos + 4));
            }
        },
        SpecRpcBody::Reply(x) => {
            lemma_u32_roundtrips(1u32);
            let a = spec_u32_emit(1u32)->Done_0;
            let b = <RpcBodyReply as XdrSerialize>::spec_emit(x)->Done_0;
            assert forall|data: Seq<u8>, pos: int|
                spec_at(data, pos, <RpcBody as XdrSerialize>::spec_emit(v)->Done_0) implies #[trigger] <RpcBody as XdrDeserialize>::spec_parse(
                data,
                pos,
            ) == Parse::Done(v, pos + <RpcBody as XdrSerialize>::spec_emit(v)->Done_0.len()) by {
                reveal(spec_parse_rpc_body);
                lemma_at_split(data, pos, a, b);
                assert(<u32 as XdrDeserialize>::spec_parse(data, pos) == Parse::Done(1u32, pos + 4));
            }
        },
    }
}

/// A [`RpcBodyCall`] whose fields each read back as themselves reads back as itself.
#[verifier::spinoff_prover]
#[verifier::rlimit(60)]
pub proof fn lemma_rpc_body_call_roundtrips(v: SpecRpcBodyCall)
    requires
        spec_roundtrips::<u32>(v.rpc_version),
        spec_roundtrips::<u32>(v.program),
        spec_roundtrips::<u32>(v.version),
        spec_roundtrips::<u32>(v.procedure),
        spec_roundtrips::<OpaqueAuth>(v.credentials),
        spec_roundtrips::<OpaqueAuth>(v.verifier),
    ensures
        spec_roundtrips::<RpcBodyCall>(v),
{
    let b0 = <u32 as XdrSerialize>::spec_emit(v.rpc_version)->Done_0;
    let b1 = <u32 as XdrSerialize>::spec_emit(v.program)->Done_0;
    let b2 = <u32 as XdrSerialize>::spec_emit(v.version)->Done_0;
    let b3 = <u32 as XdrSerialize>::spec_emit(v.procedure)->Done_0;
    let b4 = <OpaqueAuth as XdrSerialize>::spec_emit(v.credentials)->Done_0;
    let b5 = <OpaqueAuth as XdrSerialize>::spec_emit(v.verifier)->Done_0;
    assert forall|data: Seq<u8>, pos: int|
        spec_at(data, pos, <RpcBodyCall as XdrSerialize>::spec_emit(v)->Done_0) implies #[trigger] <RpcBodyCall as XdrDeserialize>::spec_parse(
        data,
        pos,
    ) == Parse::Done(v, pos + <RpcBodyCall as XdrSerialize>::spec_emit(v)->Done_0.len()) by {
        reveal(spec_parse_rpc_body_call);
        lemma_at_split(data, pos, b0 + b1 + b2 + b3 + b4, b5);
        lemma_at_split(data, pos, b0 + b1 + b2 + b3, b4);
        lemma_at_split(data, pos, b0 + b1 + b2, b3);
        lemma_at_split(data, pos, b0 + b1, b2);
        lemma_at_split(data, pos, b0, b1);
        assert(<u32 as XdrDeserialize>::spec_parse(data, pos) == Parse::Done(v.rpc_version, pos + b0.len()));
        assert(<u32 as XdrDeserialize>::spec_parse(data, pos + (b0).len()) == Parse::Done(v.program, pos + (b0).len() + b1.len()));
        assert(<u32 as XdrDeserialize>::spec_parse(data, pos + (b0 + b1).len()) == Parse::Done(v.version, pos + (b0 + b1).len() + b2.len()));
        assert(<u32 as XdrDeserialize>::spec_parse(data, pos + (b0 + b1 + b2).len()) == Parse::Done(v.procedure, pos + (b0 + b1 + b2).len() + b3.len()));
        assert(<OpaqueAuth as XdrDeserialize>::spec_parse(data, pos + (b0 + b1 + b2 + b3).len()) == Parse::Done(v.credentials, pos + (b0 + b1 + b2 + b3).len() + b4.len()));
        assert(<OpaqueAuth as XdrDeserialize>::spec_parse(data, pos + (b0 + b1 + b2 + b3 + b4).len()) == Parse::Done(v.verifier, pos + (b0 + b1 + b2 + b3 + b4).len() + b5.len()));
    }
}

/// A [`RpcBodyReply`] whose contents read back as themselves reads back as itself.
#[verifier::spinoff_prover]
#[verifier::rlimit(60)]
pub proof fn lemma_rpc_body_reply_roundtrips(v: SpecRpcBodyReply)
    requires
        match v {
            SpecRpcBodyReply::Accepted(x) => spec_roundtrips::<AcceptedReply>(x),
            SpecRpcBodyReply::Rejected(x) => spec_roundtrips::<RejectedReply>(x),
        },
    ensures
        spec_roundtrips::<RpcBodyReply>(v),
{
    match v {
        SpecRpcBodyReply::Accepted(x) => {
            lemma_u32_roundtrips(0u32);
            let a = spec_u32_emit(0u32)->Done_0;
            let b = <AcceptedReply as XdrSerialize>::spec_emit(x)->Done_0;
            assert forall|data: Seq<u8>, pos: int|
                spec_at(data, pos, <RpcBodyReply as XdrSerialize>::spec_emit(v)->Done_0) implies #[trigger] <RpcBodyReply as XdrDeserialize>::spec_parse(
                data,
                pos,
            ) == Parse::Done(v, pos + <RpcBodyReply as XdrSerialize>::spec_emit(v)->Done_0.len()) by {
                reveal(spec_parse_rpc_body_reply);
                lemma_at_split(data, pos, a, b);
                assert(<u32 as XdrDeserialize>::spec_parse(data, pos) == Parse::Done(0u32, pos + 4));
            }
        },
        SpecRpcBodyReply::Rejected(x) => {
            lemma_u32_roundtrips(1u32);
            let a = spec_u32_emit(1u32)->Done_0;
            let b = <RejectedReply as XdrSerialize>::spec_emit(x)->Done_0;
            assert forall|data: Seq<u8>, pos: int|
                spec_at(data, pos, <RpcBodyReply as XdrSerialize>::spec_emit(v)->Done_0) implies #[trigger] <RpcBodyReply as XdrDeserialize>::spec_parse(
                data,
                pos,
            ) == Parse::Done(v, pos + <RpcBodyReply as XdrSerialize>::spec_emit(v)->Done_0.len()) by {
                reveal(spec_parse_rpc_body_reply);
                lemma_at_split(data, pos, a, b);
                assert(<u32 as XdrDeserialize>::spec_parse(data, pos) == Parse::Done(1u32, pos + 4));
            }
        },
    }
}

/// A [`AcceptedReply`] whose fields each read back as themselves reads back as itself.
#[verifier::spinoff_prover]
#[verifier::rlimit(60)]
pub proof fn lemma_accepted_reply_roundtrips(v: SpecAcceptedReply)
    requires
        spec_roundtrips::<OpaqueAuth>(v.verifier),
        spec_roundtrips::<AcceptedBody>(v.body),
    ensures
        spec_roundtrips::<AcceptedReply>(v),
{
    let b0 = <OpaqueAuth as XdrSerialize>::spec_emit(v.verifier)->Done_0;
    let b1 = <AcceptedBody as XdrSerialize>::spec_emit(v.body)->Done_0;
    assert forall|data: Seq<u8>, pos: int|
        spec_at(data, pos, <AcceptedReply as XdrSerialize>::spec_emit(v)->Done_0) implies #[trigger] <AcceptedReply as XdrDeserialize>::spec_parse(
        data,
        pos,
    ) == Parse::Done(v, pos + <AcceptedReply as XdrSerialize>::spec_emit(v)->Done_0.len()) by {
        reveal(spec_parse_accepted_reply);
        lemma_at_split(data, pos, b0, b1);
        assert(<OpaqueAuth as XdrDeserialize>::spec_parse(data, pos) == Parse::Done(v.verifier, pos + b0.len()));
        assert(<AcceptedBody as XdrDeserialize>::spec_parse(data, pos + (b0).len()) == Parse::Done(v.body, pos + (b0).len() + b1.len()));
    }
}

/// A [`AcceptedBody`] whose contents read back as themselves reads back as itself.
#[verifier::spinoff_prover]
#[verifier::rlimit(60)]
pub proof fn lemma_accepted_body_roundtrips(v: AcceptedBody)
    requires
        match v {
            AcceptedBody::Success => true,
            AcceptedBody::ProgramUnavailable => true,
            AcceptedBody::ProgramMismatch(x) => spec_roundtrips::<MismatchInfo>(x),
            AcceptedBody::ProcedureUnavailable => true,
            AcceptedBody::GarbageArguments => true,
        },
    ensures
        spec_roundtrips::<AcceptedBody>(v),
{
    match v {
        AcceptedBody::Success => {
            lemma_u32_roundtrips(0u32);
            let a = spec_u32_emit(0u32)->Done_0;
            assert forall|data: Seq<u8>, pos: int|
                spec_at(data, pos, <AcceptedBody as XdrSerialize>::spec_emit(v)->Done_0) implies #[trigger] <AcceptedBody as XdrDeserialize>::spec_parse(
                data,
                pos,
            ) == Parse::Done(v, pos + <AcceptedBody as XdrSerialize>::spec_emit(v)->Done_0.len()) by {
                reveal(spec_parse_accepted_body);
                assert(<u32 as XdrDeserialize>::spec_parse(data, pos) == Parse::Done(0u32, pos + 4));
            }
        },
        AcceptedBody::ProgramUnavailable => {
            lemma_u32_roundtrips(1u32);
            let a = spec_u32_emit(1u32)->Done_0;
            assert forall|data: Seq<u8>, pos: int|
                spec_at(data, pos, <AcceptedBody as XdrSerialize>::spec_emit(v)->Done_0) implies #[trigger] <AcceptedBody as XdrDeserialize>::spec_parse(
                data,
                pos,
            ) == Parse::Done(v, pos + <AcceptedBody as XdrSerialize>::spec_emit(v)->Done_0.len()) by {
                reveal(spec_parse_accepted_body);
                assert(<u32 as XdrDeserialize>::spec_parse(data, pos) == Parse::Done(1u32, pos + 4));
            }
        },
        AcceptedBody::ProgramMismatch(x) => {
            lemma_u32_roundtrips(2u32);
            let a = spec_u32_emit(2u32)->Done_0;
            let b = <MismatchInfo as XdrSerialize>::spec_emit(x)->Done_0;
            assert forall|data: Seq<u8>, pos: int|
                spec_at(data, pos, <AcceptedBody as XdrSerialize>::spec_emit(v)->Done_0) implies #[trigger] <AcceptedBody as XdrDeserialize>::spec_parse(
                data,
                pos,
            ) == Parse::Done(v, pos + <AcceptedBody as XdrSerialize>::spec_emit(v)->Done_0.len()) by {
                reveal(spec_parse_accepted_body);
                lemma_at_split(data, pos, a, b);
                assert(<u32 as XdrDeserialize>::spec_parse(data, pos) == Parse::Done(2u32, pos + 4));
            }
        },
        AcceptedBody::ProcedureUnavailable => {
            lemma_u32_roundtrips(3u32);
            let a = spec_u32_emit(3u32)->Done_0;
            assert forall|data: Seq<u8>, pos: int|
                spec_at(data, pos, <AcceptedBody as XdrSerialize>::spec_emit(v)->Done_0) implies #[trigger] <AcceptedBody as XdrDeserialize>::spec_parse(
                data,
                pos,
            ) == Parse::Done(v, pos + <AcceptedBody as XdrSerialize>::spec_emit(v)->Done_0.len()) by {
                reveal(spec_parse_accepted_body);
                assert(<u32 as XdrDeserialize>::spec_parse(data, pos) == Parse::Done(3u32, pos + 4));
            }
        },
        AcceptedBody::GarbageArguments => {
            lemma_u32_roundtrips(4u32);
            let a = spec_u32_emit(4u32)->Done_0;
            assert forall|data: Seq<u8>, pos: int|
                spec_at(data, pos, <AcceptedBody as XdrSerialize>::spec_emit(v)->Done_0) implies #[trigger] <AcceptedBody as XdrDeserialize>::spec_parse(
                data,
                pos,
            ) == Parse::Done(v, pos + <AcceptedBody as XdrSerialize>::spec_emit(v)->Done_0.len()) by {
                reveal(spec_parse_accepted_body);
                assert(<u32 as XdrDeserialize>::spec_parse(data, pos) == Parse::Done(4u32, pos + 4));
            }
        },
    }
}

/// A [`RejectedReply`] whose contents read back as themselves reads back as itself.
#[verifier::spinoff_prover]
#[verifier::rlimit(60)]
pub proof fn lemma_rejected_reply_roundtrips(v: RejectedReply)
    requires
        match v {
            RejectedReply::RpcMismatch(x) => spec_roundtrips::<MismatchInfo>(x),
            RejectedReply::AuthError(x) => spec_roundtrips::<AuthState>(x),
        },
    ensures
        spec_roundtrips::<RejectedReply>(v),
{
    match v {
        RejectedReply::RpcMismatch(x) => {
            lemma_u32_roundtrips(0u32);
            let a = spec_u32_emit(0u32)->Done_0;
            let b = <MismatchInfo as XdrSerialize>::spec_emit(x)->Done_0;
            assert forall|data: Seq<u8>, pos: int|
                spec_at(data, pos, <RejectedReply as XdrSerialize>::spec_emit(v)->Done_0) implies #[trigger] <RejectedReply as XdrDeserialize>::spec_parse(
                data,
                pos,
            ) == Parse::Done(v, pos + <RejectedReply as XdrSerialize>::spec_emit(v)->Done_0.len()) by {
                reveal(spec_parse_rejected_reply);
                lemma_at_split(data, pos, a, b);
                assert(<u32 as XdrDeserialize>::spec_parse(data, pos) == Parse::Done(0u32, pos + 4));
            }
        },
        RejectedReply::AuthError(x) => {
            lemma_u32_roundtrips(1u32);
            let a = spec_u32_emit(1u32)->Done_0;
            let b = <AuthState as XdrSerialize>::spec_emit(x)->Done_0;
            assert forall|data: Seq<u8>, pos: int|
                spec_at(data, pos, <RejectedReply as XdrSerialize>::spec_emit(v)->Done_0) implies #[trigger] <RejectedReply as XdrDeserialize>::spec_parse(
                data,
                pos,
            ) == Parse::Done(v, pos + <RejectedReply as XdrSerialize>::spec_emit(v)->Done_0.len()) by {
                reveal(spec_parse_rejected_reply);
                lemma_at_split(data, pos, a, b);
                assert(<u32 as XdrDeserialize>::spec_parse(data, pos) == Parse::Done(1u32, pos + 4));
            }
        },
    }
}

/// A [`MismatchInfo`] whose fields each read back as themselves reads back as itself.
#[verifier::spinoff_prover]
#[verifier::rlimit(60)]
pub proof fn lemma_mismatch_info_roundtrips(v: MismatchInfo)
    requires
        spec_roundtrips::<u32>(v.low),
        spec_roundtrips::<u32>(v.high),
    ensures
        spec_roundtrips::<MismatchInfo>(v),
{
    let b0 = <u32 as XdrSerialize>::spec_emit(v.low)->Done_0;
    let b1 = <u32 as XdrSerialize>::spec_emit(v.high)->Done_0;
    assert forall|data: Seq<u8>, pos: int|
        spec_at(data, pos, <MismatchInfo as XdrSerialize>::spec_emit(v)->Done_0) implies #[trigger] <MismatchInfo as XdrDeserialize>::spec_parse(
        data,
        pos,
    ) == Parse::Done(v, pos + <MismatchInfo as XdrSerialize>::spec_emit(v)->Done_0.len()) by {
        reveal(spec_parse_mismatch_info);
        lemma_at_split(data, pos, b0, b1);
        assert(<u32 as XdrDeserialize>::spec_parse(data, pos) == Parse::Done(v.low, pos + b0.len()));
        assert(<u32 as XdrDeserialize>::spec_parse(data, pos + (b0).len()) == Parse::Done(v.high, pos + (b0).len() + b1.len()));
    }
}

// ---------------------------------------------------------------------------
// Replies
// ---------------------------------------------------------------------------

/// The empty authentication of the null flavor.
pub open spec fn spec_null_auth() -> SpecOpaqueAuth {
    SpecOpaqueAuth { flavor: AuthFlavor::Null, body: Seq::empty() }
}

/// A reply to the call `xid` that accepts it with the body `body` and the
/// null verifier.
pub open spec fn spec_accepted_reply(xid: u32, body: AcceptedBody) -> SpecRpcMessage {
    SpecRpcMessage {
        xid,
        body: SpecRpcBody::Reply(
            SpecRpcBodyReply::Accepted(SpecAcceptedReply { verifier: spec_null_auth(), body }),
        ),
    }
}

/// A reply to the call `xid` that rejects its RPC version, giving the range
/// of versions from 0 to 0.
pub open spec fn spec_rpc_version_mismatch_reply(xid: u32) -> SpecRpcMessage {
    SpecRpcMessage {
        xid,
        body: SpecRpcBody::Reply(
            SpecRpcBodyReply::Rejected(RejectedReply::RpcMismatch(MismatchInfo { low: 0, high: 0 })),
        ),
    }
}

/// The bytes of the message `m`.
pub open spec fn spec_message_bytes(m: SpecRpcMessage) -> Seq<u8> {
    <RpcMessage as XdrSerialize>::spec_emit(m)->Done_0
}

impl OpaqueAuth {
    /// The empty authentication of the null flavor.
    pub fn null() -> (a: OpaqueAuth)
        ensures
            a.deep_view() == spec_null_auth(),
    {
        let a = OpaqueAuth { flavor: AuthFlavor::Null, body: Vec::new() };
        assert(a.body.deep_view() =~= Seq::<u8>::empty());
        a
    }
}

impl RpcMessage {
    /// The reply that the call `xid` succeeded.
    pub fn successful_reply(xid: u32) -> (m: Self)
        ensures
            m.deep_view() == spec_accepted_reply(xid, AcceptedBody::Success),
    {
        Self::accepted_reply(xid, AcceptedBody::Success)
    }

    /// The reply that the call `xid` names a procedure the program does not
    /// have.
    pub fn procedure_unavailable_reply(xid: u32) -> (m: Self)
        ensures
            m.deep_view() == spec_accepted_reply(xid, AcceptedBody::ProcedureUnavailable),
    {
        Self::accepted_reply(xid, AcceptedBody::ProcedureUnavailable)
    }

    /// The reply that the call `xid` names a program this server does not
    /// serve.
    pub fn program_unavailable_reply(xid: u32) -> (m: Self)
        ensures
            m.deep_view() == spec_accepted_reply(xid, AcceptedBody::ProgramUnavailable),
    {
        Self::accepted_reply(xid, AcceptedBody::ProgramUnavailable)
    }

    /// The reply that the call `xid` names a version of the program other
    /// than `accepted_version`, the one version served.
    pub fn program_mismatch_reply(xid: u32, accepted_version: u32) -> (m: Self)
        ensures
            m.deep_view() == spec_accepted_reply(
                xid,
                AcceptedBody::ProgramMismatch(
                    MismatchInfo { low: accepted_version, high: accepted_version },
                ),
            ),
    {
        Self::accepted_reply(
            xid,
            AcceptedBody::ProgramMismatch(
                MismatchInfo { low: accepted_version, high: accepted_version },
            ),
        )
    }

    /// The reply that the arguments of the call `xid` could not be decoded.
    pub fn garbage_arguments_reply(xid: u32) -> (m: Self)
        ensures
            m.deep_view() == spec_accepted_reply(xid, AcceptedBody::GarbageArguments),
    {
        Self::accepted_reply(xid, AcceptedBody::GarbageArguments)
    }

    /// The reply that the call `xid` uses an RPC version other than 2.
    pub fn rpc_version_mismatch_reply(xid: u32) -> (m: Self)
        ensures
            m.deep_view() == spec_rpc_version_mismatch_reply(xid),
    {
        let reply = RejectedReply::RpcMismatch(MismatchInfo { low: 0, high: 0 });
        Self { xid, body: RpcBody::Reply(RpcBodyReply::Rejected(reply)) }
    }

    /// The reply that accepts the call `xid` with the body `reply`.
    fn accepted_reply(xid: u32, reply: AcceptedBody) -> (m: Self)
        ensures
            m.deep_view() == spec_accepted_reply(xid, reply),
    {
        let reply = AcceptedReply { verifier: OpaqueAuth::null(), body: reply };
        let reply = RpcBodyReply::Accepted(reply);
        Self::reply(xid, reply)
    }

    /// The reply `msg` to the call `xid`.
    fn reply(xid: u32, msg: RpcBodyReply) -> (m: Self)
        ensures
            m.deep_view() == (SpecRpcMessage { xid, body: SpecRpcBody::Reply(msg.deep_view()) }),
    {
        Self { xid, body: RpcBody::Reply(msg) }
    }
}

// ---------------------------------------------------------------------------
// The context of a call
// ---------------------------------------------------------------------------

/// `w` with `h` written over it from `pos` on, as far as `h` reaches, and
/// grown where `h` reaches past its end.
pub open spec fn spec_overwrite(w: Seq<u8>, pos: int, h: Seq<u8>) -> Seq<u8> {
    if pos + h.len() < w.len() {
        w.take(pos) + h + w.skip(pos + h.len())
    } else {
        w.take(pos) + h
    }
}

/// `n` zero bytes.
pub open spec fn spec_zero_bytes(n: nat) -> Seq<u8> {
    Seq::new(n, |i: int| 0u8)
}

/// `w` with `b` written at the position `pos`: zeros fill the gap where
/// `pos` lies past the end of `w`, and `b` is then written over `w` from
/// `pos` on.
pub open spec fn spec_write_at(w: Seq<u8>, pos: int, b: Seq<u8>) -> Seq<u8> {
    let base = if pos > w.len() {
        w + spec_zero_bytes((pos - w.len()) as nat)
    } else {
        w
    };
    spec_overwrite(base, pos, b)
}

/// The bytes that writing a value writes before it stops.
pub open spec fn spec_emitted(e: Emit) -> Seq<u8> {
    match e {
        Emit::Done(b) => b,
        Emit::Fails(_, b) => b,
        Emit::Panics => Seq::empty(),
    }
}

/// What writing a value returns.
pub open spec fn spec_emit_result(e: Emit) -> Result<(), XdrError> {
    match e {
        Emit::Done(_) => Ok(()),
        Emit::Fails(x, _) => Err(x),
        Emit::Panics => Err(XdrError::Other),
    }
}

/// What a call context holds: the call, the data it came in and how far it
/// has been read, what has been written of the reply, how many of those
/// bytes lie past the position of the next write (a negative number where
/// that position lies past the end), and the position of the reply's
/// header.
pub struct RpcContextView {
    pub xid: u32,
    pub call: SpecRpcBodyCall,
    pub auth: Option<SpecAuthUnix>,
    pub data: Seq<u8>,
    pub pos: int,
    pub written: Seq<u8>,
    pub behind: int,
    pub header_pos: u64,
}

/// The position of the next write of a context.
pub open spec fn spec_cursor(v: RpcContextView) -> int {
    v.written.len() - v.behind
}

/// The context `v` once the bytes `b` are written at its write position,
/// which then lies just past them.
pub open spec fn spec_after_write(v: RpcContextView, b: Seq<u8>) -> RpcContextView {
    let p = spec_cursor(v);
    let w = spec_write_at(v.written, p, b);
    RpcContextView { written: w, behind: w.len() - (p + b.len()), ..v }
}

/// Writing at the end of what was written appends.
pub proof fn lemma_write_at_end(v: RpcContextView, b: Seq<u8>)
    requires
        v.behind == 0,
    ensures
        spec_after_write(v, b) == (RpcContextView { written: v.written + b, ..v }),
{
    assert(v.written.take(v.written.len() as int) =~= v.written);
    assert(spec_write_at(v.written, v.written.len() as int, b) =~= v.written + b);
}

/// Writing `a` and then `b` is writing `a` followed by `b`.
pub proof fn lemma_writes_compose(v: RpcContextView, a: Seq<u8>, b: Seq<u8>)
    requires
        spec_cursor(v) >= 0,
    ensures
        spec_after_write(spec_after_write(v, a), b) == spec_after_write(v, a + b),
{
    let p = spec_cursor(v);
    let w = v.written;
    let w1 = spec_write_at(w, p, a);
    let w2 = spec_write_at(w1, p + a.len(), b);
    let w3 = spec_write_at(w, p, a + b);
    assert(w1.len() == if p + a.len() > w.len() { p + a.len() } else { w.len() as int });
    assert(w2.len() == w3.len());
    assert forall|i: int| 0 <= i < w2.len() implies w2[i] == w3[i] by {
        if i < p {
        } else if i < p + a.len() {
        } else if i < p + a.len() + b.len() {
        } else {
        }
    }
    assert(w2 =~= w3);
}

/// The context `v` once each of the byte strings `bs` is written in turn.
pub open spec fn spec_after_writes(v: RpcContextView, bs: Seq<Seq<u8>>) -> RpcContextView
    decreases bs.len(),
{
    if bs.len() == 0 {
        v
    } else {
        spec_after_write(spec_after_writes(v, bs.drop_last()), bs.last())
    }
}

/// Marking the header, then writing any number of times, leaves the header
/// where it was marked: at the write position of the marking. Writes alone
/// never move it.
pub proof fn lemma_header_stays_marked(v: RpcContextView, bs: Seq<Seq<u8>>)
    ensures
        spec_after_writes(v, bs).header_pos == v.header_pos,
        spec_after_writes(RpcContextView { header_pos: spec_cursor(v) as u64, ..v }, bs).header_pos
            == spec_cursor(v) as u64,
    decreases bs.len(),
{
    if bs.len() > 0 {
        lemma_header_stays_marked(v, bs.drop_last());
    }
}

/// Writes `h` over `w` from `pos` on, growing `w` where `h` reaches past its
/// end.
fn overwrite(w: &mut Vec<u8>, pos: usize, h: &Vec<u8>)
    requires
        pos <= old(w)@.len(),
    ensures
        final(w)@ == spec_overwrite(old(w)@, pos as int, h@),
{
    let ghost w0 = w@;
    let n = h.len();
    let mut i: usize = 0;
    while i < n
        invariant
            n == h@.len(),
            i <= n,
            pos <= w0.len(),
            w@.len() >= pos + i,
            w@ == spec_overwrite(w0, pos as int, h@.take(i as int)),
        decreases n - i,
    {
        if i < w.len() - pos {
            w.set(pos + i, h[i]);
        } else {
            w.push(h[i]);
        }
        assert(h@.take(i + 1) =~= h@.take(i as int).push(h@[i as int]));
        assert(w@ =~= spec_overwrite(w0, pos as int, h@.take(i + 1)));
        i = i + 1;
    }
    assert(h@.take(n as int) =~= h@);
}

/// Writes `b` into `w` at `pos`, filling any gap with zeros first.
fn write_at(w: &mut Vec<u8>, pos: usize, b: &Vec<u8>)
    ensures
        final(w)@ == spec_write_at(old(w)@, pos as int, b@),
{
    let ghost w0 = w@;
    while w.len() < pos
        invariant
            w0.len() <= pos ==> w0.len() <= w@.len() <= pos && w@ =~= w0 + spec_zero_bytes(
                (w@.len() - w0.len()) as nat,
            ),
            w0.len() > pos ==> w@ == w0,
        decreases pos - w@.len(),
    {
        w.push(0u8);
    }
    overwrite(w, pos, b);
}

/// A call being answered: the call, a reader over the data it came in, the
/// reply written so far and the position of the next write in it.
pub struct RpcContext {
    xid: u32,
    call: RpcBodyCall,
    auth: Option<AuthUnix>,
    reader: XdrReader,
    writer: Vec<u8>,
    cursor: usize,
    header_pos: u64,
}

impl View for RpcContext {
    type V = RpcContextView;

    closed spec fn view(&self) -> RpcContextView {
        RpcContextView {
            xid: self.xid,
            call: self.call.deep_view(),
            auth: self.auth.deep_view(),
            data: self.reader.data@,
            pos: self.reader.pos as int,
            written: self.writer@,
            behind: self.writer@.len() - self.cursor,
            header_pos: self.header_pos,
        }
    }
}

/// The write position of a context is never below the start.
pub proof fn lemma_cursor_from_start(c: &RpcContext)
    ensures
        spec_cursor(c@) >= 0,
{
}

impl RpcContext {
    /// The reader is at a position within its data.
    pub closed spec fn wf(&self) -> bool {
        self.reader.wf()
    }

    /// A context for the call `xid`, with its data in `reader`, and nothing
    /// written yet.
    fn new(xid: u32, call: RpcBodyCall, auth: Option<AuthUnix>, reader: XdrReader) -> (c: Self)
        requires
            reader.wf(),
        ensures
            c.wf(),
            c@ == (RpcContextView {
                xid,
                call: call.deep_view(),
                auth: auth.deep_view(),
                data: reader.data@,
                pos: reader.pos as int,
                written: Seq::empty(),
                behind: 0,
                header_pos: 0,
            }),
    {
        Self { xid, call, auth, reader, writer: Vec::new(), cursor: 0, header_pos: 0 }
    }

    /// The transaction id of the call.
    pub fn xid(&self) -> (x: u32)
        ensures
            x == self@.xid,
    {
        self.xid
    }

    /// The call.
    pub fn call(&self) -> (c: &RpcBodyCall)
        ensures
            c.deep_view() == self@.call,
    {
        &self.call
    }

    /// Reads a value from the call's data.
    pub fn read<T: XdrDeserialize>(&mut self) -> (r: Result<T, XdrError>)
        requires
            old(self).wf(),
        ensures
            final(self).wf(),
            reads_as::<T>(T::spec_parse(old(self)@.data, old(self)@.pos), r, final(self)@.pos),
            final(self)@ == (RpcContextView { pos: final(self)@.pos, ..old(self)@ }),
    {
        T::deserialize(&mut self.reader)
    }

    /// Writes the bytes `b` into the reply at the write position, which
    /// then lies just past them.
    pub(crate) fn write_bytes(&mut self, b: &Vec<u8>)
        ensures
            final(self).wf() == old(self).wf(),
            final(self)@ == spec_after_write(old(self)@, b@),
    {
        write_at(&mut self.writer, self.cursor, b);
        let end = self.writer.len();
        assert(self.cursor + b@.len() <= end);
        self.cursor = self.cursor + b.len();
    }

    /// Writes a value into the reply at the write position, which then lies
    /// just past it; at the end of the reply, that appends it.
    pub fn write<T: XdrSerialize>(&mut self, val: &T) -> (r: Result<(), XdrError>)
        requires
            !(T::spec_emit(val.deep_view()) is Panics),
        ensures
            final(self).wf() == old(self).wf(),
            final(self)@ == spec_after_write(old(self)@, spec_emitted(T::spec_emit(val.deep_view()))),
            r == spec_emit_result(T::spec_emit(val.deep_view())),
            old(self)@.behind == 0 ==> writes_as(
                T::spec_emit(val.deep_view()),
                r,
                old(self)@.written,
                final(self)@.written,
            ) && final(self)@ == (RpcContextView { written: final(self)@.written, ..old(self)@ }),
    {
        let mut bytes: Vec<u8> = Vec::new();
        let r = val.serialize(&mut bytes);
        assert(bytes@ =~= spec_emitted(T::spec_emit(val.deep_view()))) by {
            assert(Seq::<u8>::empty() + bytes@ =~= bytes@);
        }
        self.write_bytes(&bytes);
        proof {
            if let Ok(u) = r {
                assert(u == ());
            }
            if old(self)@.behind == 0 {
                lemma_write_at_end(old(self)@, bytes@);
            }
        }
        r
    }

    /// The reply that the call succeeded.
    pub fn success(&self) -> (m: RpcMessage)
        ensures
            m.deep_view() == spec_accepted_reply(self@.xid, AcceptedBody::Success),
    {
        RpcMessage::successful_reply(self.xid)
    }

    /// Marks the write position as the position of the reply's header.
    pub fn mark_header(&mut self)
        ensures
            final(self).wf() == old(self).wf(),
            final(self)@ == (RpcContextView {
                header_pos: spec_cursor(old(self)@) as u64,
                ..old(self)@
            }),
    {
        self.header_pos = self.cursor as u64;
    }

    /// The position of the reply's header.
    pub fn header_pos(&self) -> (p: u64)
        ensures
            p == self@.header_pos,
    {
        self.header_pos
    }

    /// The position of the next write.
    pub fn position(&self) -> (p: usize)
        ensures
            p == spec_cursor(self@),
    {
        self.cursor
    }

    /// Moves the position of the next write to `pos`.
    pub fn set_position(&mut self, pos: usize)
        ensures
            final(self).wf() == old(self).wf(),
            final(self)@ == (RpcContextView { behind: old(self)@.written.len() - pos, ..old(self)@ }),
    {
        self.cursor = pos;
    }

    /// The reply written so far, to change in place; the write position
    /// stays where it was.
    pub fn writer(&mut self) -> (w: &mut Vec<u8>)
        ensures
            w@ == old(self)@.written,
            final(self).wf() == old(self).wf(),
            final(self)@ == (RpcContextView {
                written: final(w)@,
                behind: final(w)@.len() - spec_cursor(old(self)@),
                ..old(self)@
            }),
    {
        &mut self.writer
    }

    /// The reply written so far.
    pub fn into_bytes(self) -> (b: Vec<u8>)
        ensures
            b@ == self@.written,
    {
        self.writer
    }
}

// ---------------------------------------------------------------------------
// Receiving a call
// ---------------------------------------------------------------------------

/// Why a frame from a client could not be taken as a call.
#[derive(Clone, Copy, Debug, PartialEq, Eq, Structural)]
pub enum RpcError {
    /// The frame is not an RPC message.
    Decode(XdrError),
    /// The message is a reply, not a call.
    NotACall,
    /// The call has Unix credentials that cannot be decoded.
    Credentials(XdrError),
}

/// What a frame from a client comes to.
pub enum Received {
    /// A call of the NFS program, to be answered.
    Call(RpcContext),
    /// A call that is answered at once: the reply is written in the context,
    /// to be sent before the next frame is read.
    Answered(RpcContext),
}

impl Received {
    /// The context of the call.
    pub open spec fn context(self) -> RpcContext {
        match self {
            Received::Call(c) => c,
            Received::Answered(c) => c,
        }
    }
}

/// The Unix credentials of a call, where it has them: what reading them
/// from the credentials' body gives.
pub open spec fn spec_call_auth(call: SpecRpcBodyCall) -> Option<Parse<SpecAuthUnix>> {
    if call.credentials.flavor == AuthFlavor::Unix {
        Some(<AuthUnix as XdrDeserialize>::spec_parse(call.credentials.body, 0))
    } else {
        None
    }
}

/// The credentials that a call has once they were read.
pub open spec fn spec_auth_of(call: SpecRpcBodyCall) -> Option<SpecAuthUnix> {
    match spec_call_auth(call) {
        Some(Parse::Done(a, _)) => Some(a),
        _ => None,
    }
}

/// Writing a reply that accepts a call, or one that rejects its RPC
/// version, succeeds.
proof fn lemma_replies_written(xid: u32, body: AcceptedBody)
    ensures
        <RpcMessage as XdrSerialize>::spec_emit(spec_accepted_reply(xid, body)) is Done,
        <RpcMessage as XdrSerialize>::spec_emit(spec_rpc_version_mismatch_reply(xid)) is Done,
{
}

/// Writes the reply `reply` into the context, which has nothing written yet.
fn write_reply(ctx: &mut RpcContext, reply: &RpcMessage)
    requires
        old(ctx)@.written == Seq::<u8>::empty(),
        old(ctx)@.behind == 0,
        <RpcMessage as XdrSerialize>::spec_emit(reply.deep_view()) is Done,
    ensures
        final(ctx).wf() == old(ctx).wf(),
        final(ctx)@ == (RpcContextView {
            written: spec_message_bytes(reply.deep_view()),
            ..old(ctx)@
        }),
{
    let _ = ctx.write(reply);
}

/// What answering the call `call` of transaction `xid`, read from `data` up
/// to `pos`, with the credentials `auth`, comes to: the context's view, and
/// whether the call is handed on (or answered at once).
#[verifier::opaque]
pub open spec fn spec_answered(
    xid: u32,
    call: SpecRpcBodyCall,
    auth: Option<SpecAuthUnix>,
    data: Seq<u8>,
    pos: int,
) -> (RpcContextView, bool) {
    let written = if call.rpc_version != 2 {
        spec_message_bytes(spec_rpc_version_mismatch_reply(xid))
    } else if call.program == PROGRAM {
        Seq::empty()
    } else {
        spec_message_bytes(spec_accepted_reply(xid, AcceptedBody::ProgramUnavailable))
    };
    (
        RpcContextView { xid, call, auth, data, pos, written, behind: 0, header_pos: 0 },
        call.rpc_version == 2 && call.program == PROGRAM,
    )
}

/// Answers at once a call that this server does not hand on: one of RPC
/// version other than 2, or of a program other than NFS.
fn answer_call(xid: u32, call: RpcBodyCall, auth: Option<AuthUnix>, reader: XdrReader) -> (r:
    Received)
    requires
        reader.wf(),
    ensures
        r.context().wf(),
        (r.context()@, r is Call) == spec_answered(
            xid,
            call.deep_view(),
            auth.deep_view(),
            reader.data@,
            reader.pos as int,
        ),
{
    let mut ctx = RpcContext::new(xid, call, auth, reader);
    proof {
        lemma_replies_written(xid, AcceptedBody::ProgramUnavailable);
        reveal(spec_answered);
    }
    if ctx.call.rpc_version != 2 {
        let reply = RpcMessage::rpc_version_mismatch_reply(xid);
        write_reply(&mut ctx, &reply);
        return Received::Answered(ctx);
    }
    if ctx.call.program == PROGRAM {
        return Received::Call(ctx);
    }
    let reply = RpcMessage::program_unavailable_reply(xid);
    write_reply(&mut ctx, &reply);
    Received::Answered(ctx)
}

/// Takes a frame from a client as a call. A call of RPC version other than
/// 2 is answered at once with a version mismatch; a call of a program other
/// than NFS is answered at once with "program unavailable"; a call of NFS is
/// handed on, its data read up to its arguments.
#[verifier::rlimit(60)]
#[verifier::spinoff_prover]
pub fn receive(frame: Vec<u8>) -> (r: Result<Received, RpcError>)
    ensures
        match <RpcMessage as XdrDeserialize>::spec_parse(frame@, 0) {
            Parse::Fails(e, _) => r == Err::<Received, RpcError>(RpcError::Decode(e)),
            Parse::Done(msg, p) => match msg.body {
                SpecRpcBody::Reply(_) => r == Err::<Received, RpcError>(RpcError::NotACall),
                SpecRpcBody::Call(call) => match spec_call_auth(call) {
                    Some(Parse::Fails(e, _)) => r == Err::<Received, RpcError>(
                        RpcError::Credentials(e),
                    ),
                    _ => r is Ok && r->Ok_0.context().wf() && (r->Ok_0.context()@, r->Ok_0 is Call)
                        == spec_answered(msg.xid, call, spec_auth_of(call), frame@, p),
                },
            },
        },
{
    let mut reader = XdrReader::new(frame);
    let mesg = match RpcMessage::deserialize(&mut reader) {
        Ok(m) => m,
        Err(e) => return Err(RpcError::Decode(e)),
    };
    let xid = mesg.xid;
    let call = match mesg.body {
        RpcBody::Call(call) => call,
        RpcBody::Reply(_) => return Err(RpcError::NotACall),
    };
    let auth = if matches!(call.credentials.flavor, AuthFlavor::Unix) {
        let mut cred = XdrReader::new(copy_bytes(&call.credentials.body));
        match AuthUnix::deserialize(&mut cred) {
            Ok(a) => Some(a),
            Err(e) => return Err(RpcError::Credentials(e)),
        }
    } else {
        None
    };
    Ok(answer_call(xid, call, auth, reader))
}

/// A copy of `bytes`.
fn copy_bytes(bytes: &Vec<u8>) -> (r: Vec<u8>)
    ensures
        r@ == bytes@,
{
    vstd::slice::slice_to_vec(bytes.as_slice())
}

/// Every reply this server builds reads back as itself: one that accepts a
/// call, whatever its body, and one that rejects its RPC version.
pub proof fn lemma_replies_read_back(xid: u32, body: AcceptedBody)
    ensures
        spec_roundtrips::<RpcMessage>(spec_accepted_reply(xid, body)),
        spec_roundtrips::<RpcMessage>(spec_rpc_version_mismatch_reply(xid)),
{
    lemma_u32_roundtrips(xid);
    lemma_u32_roundtrips(0);
    lemma_auth_flavor_roundtrips(AuthFlavor::Null);
    lemma_opaque_roundtrips(Seq::empty());
    lemma_opaque_auth_roundtrips(spec_null_auth());
    if let AcceptedBody::ProgramMismatch(m) = body {
        lemma_u32_roundtrips(m.low);
        lemma_u32_roundtrips(m.high);
        lemma_mismatch_info_roundtrips(m);
    }
    lemma_accepted_body_roundtrips(body);
    let a = SpecAcceptedReply { verifier: spec_null_auth(), body };
    lemma_accepted_reply_roundtrips(a);
    lemma_rpc_body_reply_roundtrips(SpecRpcBodyReply::Accepted(a));
    lemma_rpc_body_roundtrips(SpecRpcBody::Reply(SpecRpcBodyReply::Accepted(a)));
    lemma_rpc_message_roundtrips(spec_accepted_reply(xid, body));
    let m = MismatchInfo { low: 0, high: 0 };
    lemma_mismatch_info_roundtrips(m);
    lemma_rejected_reply_roundtrips(RejectedReply::RpcMismatch(m));
    lemma_rpc_body_reply_roundtrips(SpecRpcBodyReply::Rejected(RejectedReply::RpcMismatch(m)));
    lemma_rpc_body_roundtrips(
        SpecRpcBody::Reply(SpecRpcBodyReply::Rejected(RejectedReply::RpcMismatch(m))),
    );
    lemma_rpc_message_roundtrips(spec_rpc_version_mismatch_reply(xid));
}

} // verus!
