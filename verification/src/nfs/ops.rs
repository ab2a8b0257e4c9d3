//! The operation codes of NFSv4.1 compound requests.
use vstd::prelude::*;
use crate::xdr::{
    lemma_at_split, lemma_bool_roundtrips, lemma_u32_roundtrips, spec_at, spec_roundtrips, spec_vec_roundtrips, spec_vecs_roundtrips,spec_u32_emit, spec_u32_parse, Emit, Parse, XdrDeserialize, XdrError, XdrReader, XdrSerialize};

verus! {

/// The operations of an NFSv4.1 compound request.
#[derive(Clone, Copy, Debug, PartialEq, Eq, Structural)]
pub enum NfsOperation {
    Access,
    Close,
    Commit,
    Create,
    PurgeDelegations,
    ReturnDelegation,
    GetAttributes,
    GetFh,
    Link,
    LockCreate,
    LockTest,
    LockRelease,
    Lookup,
    LookupParent,
    VerifyAttributeDiff,
    Open,
    OpenAttrs,
    OpenDowngrade,
    PutFh,
    PutPublicFh,
    PutRootFh,
    Read,
    ReadDir,
    ReadLink,
    Remove,
    Rename,
    RestoreFh,
    SaveFh,
    SecurityInfo,
    SetAttr,
    Verify,
    Write,
    BackchannelControl,
    BindConnectionToSession,
    ExchangeId,
    CreateSession,
    DestroySession,
    FreeStateId,
    GetDirDelegation,
    GetDeviceInfo,
    GetDeviceList,
    LayoutCommit,
    LayoutGet,
    LayoutReturn,
    SecurityInfoNoName,
    Sequence,
    SetSSV,
    TestStateIds,
    WantDelegation,
    DestroyClientId,
    ReclaimComplete,
    Illegal,
}

impl DeepView for NfsOperation {
    type V = NfsOperation;

    open spec fn deep_view(&self) -> NfsOperation {
        *self
    }
}

impl NfsOperation {
    /// The number that stands for the value.
    pub open spec fn spec_to_u32(self) -> u32 {
        match self {
            NfsOperation::Access => 3,
            NfsOperation::Close => 4,
            NfsOperation::Commit => 5,
            NfsOperation::Create => 6,
            NfsOperation::PurgeDelegations => 7,
            NfsOperation::ReturnDelegation => 8,
            NfsOperation::GetAttributes => 9,
            NfsOperation::GetFh => 10,
            NfsOperation::Link => 11,
            NfsOperation::LockCreate => 12,
            NfsOperation::LockTest => 13,
            NfsOperation::LockRelease => 14,
            NfsOperation::Lookup => 15,
            NfsOperation::LookupParent => 16,
            NfsOperation::VerifyAttributeDiff => 17,
            NfsOperation::Open => 18,
            NfsOperation::OpenAttrs => 19,
            NfsOperation::OpenDowngrade => 21,
            NfsOperation::PutFh => 22,
            NfsOperation::PutPublicFh => 23,
            NfsOperation::PutRootFh => 24,
            NfsOperation::Read => 25,
            NfsOperation::ReadDir => 26,
            NfsOperation::ReadLink => 27,
            NfsOperation::Remove => 28,
            NfsOperation::Rename => 29,
            NfsOperation::RestoreFh => 31,
            NfsOperation::SaveFh => 32,
            NfsOperation::SecurityInfo => 33,
            NfsOperation::SetAttr => 34,
            NfsOperation::Verify => 37,
            NfsOperation::Write => 38,
            NfsOperation::BackchannelControl => 40,
            NfsOperation::BindConnectionToSession => 41,
            NfsOperation::ExchangeId => 42,
            NfsOperation::CreateSession => 43,
            NfsOperation::DestroySession => 44,
            NfsOperation::FreeStateId => 45,
            NfsOperation::GetDirDelegation => 46,
            NfsOperation::GetDeviceInfo => 47,
            NfsOperation::GetDeviceList => 48,
            NfsOperation::LayoutCommit => 49,
            NfsOperation::LayoutGet => 50,
            NfsOperation::LayoutReturn => 51,
            NfsOperation::SecurityInfoNoName => 52,
            NfsOperation::Sequence => 53,
            NfsOperation::SetSSV => 54,
            NfsOperation::TestStateIds => 55,
            NfsOperation::WantDelegation => 56,
            NfsOperation::DestroyClientId => 57,
            NfsOperation::ReclaimComplete => 58,
            NfsOperation::Illegal => 10044,
        }
    }

    /// The value that a number stands for, if any.
    pub open spec fn spec_from_u32(n: u32) -> Option<NfsOperation> {
        if n == 3 {
            Some(NfsOperation::Access)
        } else if n == 4 {
            Some(NfsOperation::Close)
        } else if n == 5 {
            Some(NfsOperation::Commit)
        } else if n == 6 {
            Some(NfsOperation::Create)
        } else if n == 7 {
            Some(NfsOperation::PurgeDelegations)
        } else if n == 8 {
            Some(NfsOperation::ReturnDelegation)
        } else if n == 9 {
            Some(NfsOperation::GetAttributes)
        } else if n == 10 {
            Some(NfsOperation::GetFh)
        } else if n == 11 {
            Some(NfsOperation::Link)
        } else if n == 12 {
            Some(NfsOperation::LockCreate)
        } else if n == 13 {
            Some(NfsOperation::LockTest)
        } else if n == 14 {
            Some(NfsOperation::LockRelease)
        } else if n == 15 {
            Some(NfsOperation::Lookup)
        } else if n == 16 {
            Some(NfsOperation::LookupParent)
        } else if n == 17 {
            Some(NfsOperation::VerifyAttributeDiff)
        } else if n == 18 {
            Some(NfsOperation::Open)
        } else if n == 19 {
            Some(NfsOperation::OpenAttrs)
        } else if n == 21 {
            Some(NfsOperation::OpenDowngrade)
        } else if n == 22 {
            Some(NfsOperation::PutFh)
        } else if n == 23 {
            Some(NfsOperation::PutPublicFh)
        } else if n == 24 {
            Some(NfsOperation::PutRootFh)
        } else if n == 25 {
            Some(NfsOperation::Read)
        } else if n == 26 {
            Some(NfsOperation::ReadDir)
        } else if n == 27 {
            Some(NfsOperation::ReadLink)
        } else if n == 28 {
            Some(NfsOperation::Remove)
        } else if n == 29 {
            Some(NfsOperation::Rename)
        } else if n == 31 {
            Some(NfsOperation::RestoreFh)
        } else if n == 32 {
            Some(NfsOperation::SaveFh)
        } else if n == 33 {
            Some(NfsOperation::SecurityInfo)
        } else if n == 34 {
            Some(NfsOperation::SetAttr)
        } else if n == 37 {
            Some(NfsOperation::Verify)
        } else if n == 38 {
            Some(NfsOperation::Write)
        } else if n == 40 {
            Some(NfsOperation::BackchannelControl)
        } else if n == 41 {
            Some(NfsOperation::BindConnectionToSession)
        } else if n == 42 {
            Some(NfsOperation::ExchangeId)
        } else if n == 43 {
            Some(NfsOperation::CreateSession)
        } else if n == 44 {
            Some(NfsOperation::DestroySession)
        } else if n == 45 {
            Some(NfsOperation::FreeStateId)
        } else if n == 46 {
            Some(NfsOperation::GetDirDelegation)
        } else if n == 47 {
            Some(NfsOperation::GetDeviceInfo)
        } else if n == 48 {
            Some(NfsOperation::GetDeviceList)
        } else if n == 49 {
            Some(NfsOperation::LayoutCommit)
        } else if n == 50 {
            Some(NfsOperation::LayoutGet)
        } else if n == 51 {
            Some(NfsOperation::LayoutReturn)
        } else if n == 52 {
            Some(NfsOperation::SecurityInfoNoName)
        } else if n == 53 {
            Some(NfsOperation::Sequence)
        } else if n == 54 {
            Some(NfsOperation::SetSSV)
        } else if n == 55 {
            Some(NfsOperation::TestStateIds)
        } else if n == 56 {
            Some(NfsOperation::WantDelegation)
        } else if n == 57 {
            Some(NfsOperation::DestroyClientId)
        } else if n == 58 {
            Some(NfsOperation::ReclaimComplete)
        } else if n == 10044 {
            Some(NfsOperation::Illegal)
        } else {
            None
        }
    }

    /// The number that stands for the value.
    pub fn to_u32(&self) -> (n: u32)
        ensures
            n == self.spec_to_u32(),
    {
        match self {
            NfsOperation::Access => 3,
            NfsOperation::Close => 4,
            NfsOperation::Commit => 5,
            NfsOperation::Create => 6,
            NfsOperation::PurgeDelegations => 7,
            NfsOperation::ReturnDelegation => 8,
            NfsOperation::GetAttributes => 9,
            NfsOperation::GetFh => 10,
            NfsOperation::Link => 11,
            NfsOperation::LockCreate => 12,
            NfsOperation::LockTest => 13,
            NfsOperation::LockRelease => 14,
            NfsOperation::Lookup => 15,
            NfsOperation::LookupParent => 16,
            NfsOperation::VerifyAttributeDiff => 17,
            NfsOperation::Open => 18,
            NfsOperation::OpenAttrs => 19,
            NfsOperation::OpenDowngrade => 21,
            NfsOperation::PutFh => 22,
            NfsOperation::PutPublicFh => 23,
            NfsOperation::PutRootFh => 24,
            NfsOperation::Read => 25,
            NfsOperation::ReadDir => 26,
            NfsOperation::ReadLink => 27,
            NfsOperation::Remove => 28,
            NfsOperation::Rename => 29,
            NfsOperation::RestoreFh => 31,
            NfsOperation::SaveFh => 32,
            NfsOperation::SecurityInfo => 33,
            NfsOperation::SetAttr => 34,
            NfsOperation::Verify => 37,
            NfsOperation::Write => 38,
            NfsOperation::BackchannelControl => 40,
            NfsOperation::BindConnectionToSession => 41,
            NfsOperation::ExchangeId => 42,
            NfsOperation::CreateSession => 43,
            NfsOperation::DestroySession => 44,
            NfsOperation::FreeStateId => 45,
            NfsOperation::GetDirDelegation => 46,
            NfsOperation::GetDeviceInfo => 47,
            NfsOperation::GetDeviceList => 48,
            NfsOperation::LayoutCommit => 49,
            NfsOperation::LayoutGet => 50,
            NfsOperation::LayoutReturn => 51,
            NfsOperation::SecurityInfoNoName => 52,
            NfsOperation::Sequence => 53,
            NfsOperation::SetSSV => 54,
            NfsOperation::TestStateIds => 55,
            NfsOperation::WantDelegation => 56,
            NfsOperation::DestroyClientId => 57,
            NfsOperation::ReclaimComplete => 58,
            NfsOperation::Illegal => 10044,
        }
    }

    /// The value that `n` stands for, if any.
    pub fn from_u32(n: u32) -> (r: Option<NfsOperation>)
        ensures
            r == NfsOperation::spec_from_u32(n),
    {
        match n {
            3 => Some(NfsOperation::Access),
            4 => Some(NfsOperation::Close),
            5 => Some(NfsOperation::Commit),
            6 => Some(NfsOperation::Create),
            7 => Some(NfsOperation::PurgeDelegations),
            8 => Some(NfsOperation::ReturnDelegation),
            9 => Some(NfsOperation::GetAttributes),
            10 => Some(NfsOperation::GetFh),
            11 => Some(NfsOperation::Link),
            12 => Some(NfsOperation::LockCreate),
            13 => Some(NfsOperation::LockTest),
            14 => Some(NfsOperation::LockRelease),
            15 => Some(NfsOperation::Lookup),
            16 => Some(NfsOperation::LookupParent),
            17 => Some(NfsOperation::VerifyAttributeDiff),
            18 => Some(NfsOperation::Open),
            19 => Some(NfsOperation::OpenAttrs),
            21 => Some(NfsOperation::OpenDowngrade),
            22 => Some(NfsOperation::PutFh),
            23 => Some(NfsOperation::PutPublicFh),
            24 => Some(NfsOperation::PutRootFh),
            25 => Some(NfsOperation::Read),
            26 => Some(NfsOperation::ReadDir),
            27 => Some(NfsOperation::ReadLink),
            28 => Some(NfsOperation::Remove),
            29 => Some(NfsOperation::Rename),
            31 => Some(NfsOperation::RestoreFh),
            32 => Some(NfsOperation::SaveFh),
            33 => Some(NfsOperation::SecurityInfo),
            34 => Some(NfsOperation::SetAttr),
            37 => Some(NfsOperation::Verify),
            38 => Some(NfsOperation::Write),
            40 => Some(NfsOperation::BackchannelControl),
            41 => Some(NfsOperation::BindConnectionToSession),
            42 => Some(NfsOperation::ExchangeId),
            43 => Some(NfsOperation::CreateSession),
            44 => Some(NfsOperation::DestroySession),
            45 => Some(NfsOperation::FreeStateId),
            46 => Some(NfsOperation::GetDirDelegation),
            47 => Some(NfsOperation::GetDeviceInfo),
            48 => Some(NfsOperation::GetDeviceList),
            49 => Some(NfsOperation::LayoutCommit),
            50 => Some(NfsOperation::LayoutGet),
            51 => Some(NfsOperation::LayoutReturn),
            52 => Some(NfsOperation::SecurityInfoNoName),
            53 => Some(NfsOperation::Sequence),
            54 => Some(NfsOperation::SetSSV),
            55 => Some(NfsOperation::TestStateIds),
            56 => Some(NfsOperation::WantDelegation),
            57 => Some(NfsOperation::DestroyClientId),
            58 => Some(NfsOperation::ReclaimComplete),
            10044 => Some(NfsOperation::Illegal),
            _ => None,
        }
    }
}

impl XdrSerialize for NfsOperation {
    /// The number, as a `u32`.
    open spec fn spec_emit(v: NfsOperation) -> Emit {
        spec_u32_emit(v.spec_to_u32())
    }

    fn serialize(&self, dest: &mut Vec<u8>) -> (r: Result<(), XdrError>) {
        let n: u32 = self.to_u32();
        let r = n.serialize(dest);
        assert(Self::spec_emit(self.deep_view()) == spec_u32_emit(n));
        r
    }
}

impl XdrDeserialize for NfsOperation {
    /// A number that stands for no value is invalid data.
    open spec fn spec_parse(data: Seq<u8>, pos: int) -> Parse<NfsOperation> {
        match spec_u32_parse(data, pos) {
            Parse::Done(n, p) => match NfsOperation::spec_from_u32(n) {
                Some(x) => Parse::Done(x, p),
                None => Parse::Fails(XdrError::InvalidData, p),
            },
            Parse::Fails(e, p) => Parse::Fails(e, p),
        }
    }

    fn deserialize(src: &mut XdrReader) -> (r: Result<NfsOperation, XdrError>) {
        let n = match u32::deserialize(src) {
            Ok(n) => n,
            Err(e) => return Err(e),
        };
        match NfsOperation::from_u32(n) {
            Some(x) => Ok(x),
            None => Err(XdrError::InvalidData),
        }
    }
}

// ---------------------------------------------------------------------------
// Reading back what was written
// ---------------------------------------------------------------------------

/// A [`NfsOperation`] reads back as itself.
pub proof fn lemma_nfs_operation_roundtrips(v: NfsOperation)
    ensures
        spec_roundtrips::<NfsOperation>(v),
{
    lemma_u32_roundtrips(v.spec_to_u32());
    assert forall|data: Seq<u8>, pos: int|
        spec_at(data, pos, <NfsOperation as XdrSerialize>::spec_emit(v)->Done_0) implies #[trigger] <NfsOperation as XdrDeserialize>::spec_parse(
        data,
        pos,
    ) == Parse::Done(v, pos + <NfsOperation as XdrSerialize>::spec_emit(v)->Done_0.len()) by {
        assert(<u32 as XdrDeserialize>::spec_parse(data, pos) == Parse::Done(v.spec_to_u32(), pos + 4));
    }
}

} // verus!
