//! The status codes of NFS operations.
use vstd::prelude::*;
use crate::nfs::AsNfsStatus;
use crate::xdr::{
    lemma_at_split, lemma_bool_roundtrips, lemma_u32_roundtrips, spec_at, spec_roundtrips, spec_vec_roundtrips, spec_vecs_roundtrips,spec_u32_emit, spec_u32_parse, Emit, Parse, XdrDeserialize, XdrError, XdrReader, XdrSerialize};

verus! {

/// NFS status codes.
#[derive(Clone, Copy, Debug, PartialEq, Eq, Structural)]
pub enum NfsStatus {
    /// Everything is okay.
    Success,
    /// Caller not privileged.
    EPERM,
    /// No such file/directory.
    ENOENT,
    /// Hard I/O error.
    EIO,
    /// No such device.
    ENXIO,
    /// Access denied.
    EACCESS,
    /// File already exists.
    EEXIST,
    /// Different filesystems.
    EXDEV,
    /// Should be a directory.
    ENOTDIR,
    /// Should not be directory.
    EISDIR,
    /// Invalid argument.
    EINVAL,
    /// File exceeds server max.
    EFBIG,
    /// No space on filesystem.
    ENOSPC,
    /// Read-only filesystem.
    EROFS,
    /// Too many hard links.
    EMLINK,
    /// Name exceeds server max.
    ENAMETOOLONG,
    /// Directory not empty.
    ENOTEMPTY,
    /// Hard quota limit reached.
    EDQUOT,
    /// File no longer exists.
    ESTALE,
    /// Illegal filehandle.
    EBADHANDLE,
    /// READDIR cookie is stale.
    BadCookie,
    /// Operation not supported.
    NotSupported,
    /// Response limit exceeded.
    TooSmall,
    /// Undefined server error.
    ServerFault,
    /// Type invalid for CREATE.
    BadType,
    /// File "busy" - retry.
    Delay,
    /// Nverify says attrs same.
    AttrsSame,
    /// Lock unavailable.
    Denied,
    /// Lock lease expired.
    Expired,
    /// I/O failed due to lock.
    Locked,
    /// In grace period.
    InGracePeriod,
    /// Filehandle expired.
    FhExpired,
    /// Share reserve denied.
    ShareDenied,
    /// Wrong security flavor.
    WrongSecurity,
    /// Clientid in use.
    ClientIdInUse,
    /// Filesystem relocated.
    Moved,
    /// Current FH is not set.
    NoFilehandle,
    /// Minor vers not supp.
    MinorVersionMismatch,
    /// Server has rebooted.
    StaleClientId,
    /// Server has rebooted.
    StaleStateId,
    /// State is out of sync.
    OldStateId,
    /// Incorrect stateid.
    BadStateId,
    /// Request is out of seq..
    BadSeqId,
    /// Verify - attrs not same.
    NotSame,
    /// Overlapping lock range.
    LockRange,
    /// Should be file/directory.
    Symlink,
    /// No saved filehandle.
    RestoreFh,
    /// Some filesystem moved.
    LeaseMoved,
    /// Recommended attr not sup.
    AttrNotSupported,
    /// Reclaim outside of grace.
    NoGrace,
    /// Reclaim error at server.
    ReclaimBad,
    /// Conflict on reclaim.
    ReclaimConflict,
    /// XDR decode failed.
    BadXdr,
    /// File locks held at CLOSE.
    LocksHeld,
    /// Conflict in OPEN and I/O.
    OpenMode,
    /// Owner translation bad.
    BadOwner,
    /// Utf-8 char not supported.
    BadChar,
    /// Name not supported.
    BadName,
    /// Lock range not supported.
    BadRange,
    /// No atomic up/downgrade.
    LockNotSupported,
    /// Undefined operation.
    OpIllegal,
    /// File locking deadlock.
    DeadLock,
    /// Open file blocks op..
    FileOpen,
    /// Lockowner state revoked.
    AdminRevoked,
    /// Callback path down.
    CallbackPathDown,
    BadIoMode,
    BadLayout,
    BadSessionDigest,
    BadSession,
    BadSlot,
    CompleteAlready,
    ConnNotBoundToSession,
    DelegationAlreadyWanted,
    /// Backchan reqs outstanding.
    BackChannelBusy,
    LayoutTryLater,
    LayoutUnavailable,
    NoMatchingLayout,
    RecallConflict,
    UnknownLayoutType,
    /// Unexpected seq.ID in req.
    SeqMisordered,
    /// [CB_]SEQ. op not 1st op.
    SequencePos,
    /// Request too big.
    RequestTooBig,
    /// Reply too big.
    ReplyTooBig,
    /// Rep. not all cached.
    ReplyNotAllCached,
    /// Retry & rep. uncached.
    RetryUncachedReply,
    /// Retry/recovery too hard.
    UnsafeCompound,
    /// Too many ops in [CB_]COMP.
    TooManyOps,
    /// Op needs [CB_]SEQ. op.
    NotInSession,
    /// Hash alg. not supp..
    HashAlgorithmUnsupported,
    /// Clientid has state.
    ClientIdBusy,
    /// IO to _SPARSE file hole.
    ParallelNFSIoHole,
    /// Retry != original req..
    SeqFalseRetry,
    /// Req has bad highest_slot.
    BadHighSlot,
    /// New req sent to dead sess.
    DeadSession,
    /// Encr alg. not supp..
    EncryptionAlgorithmUnsupported,
    /// I/O without a layout.
    ParallelNFSNoLayout,
    /// Addl ops not allowed.
    NotOnlyOp,
    /// Op done by wrong cred.
    WrongCredential,
    /// Op on wrong type object.
    WrongType,
    /// Delegation not avail..
    DirDelegationUnavailable,
    /// Cb rejected delegation.
    RejectDelegation,
    /// Layout get before return.
    ReturnConflict,
    /// Deleg./layout revoked.
    DelegationRevoked,
}

impl DeepView for NfsStatus {
    type V = NfsStatus;

    open spec fn deep_view(&self) -> NfsStatus {
        *self
    }
}

impl NfsStatus {
    /// The number that stands for the value.
    pub open spec fn spec_to_u32(self) -> u32 {
        match self {
            NfsStatus::Success => 0,
            NfsStatus::EPERM => 1,
            NfsStatus::ENOENT => 2,
            NfsStatus::EIO => 5,
            NfsStatus::ENXIO => 6,
            NfsStatus::EACCESS => 13,
            NfsStatus::EEXIST => 17,
            NfsStatus::EXDEV => 18,
            NfsStatus::ENOTDIR => 20,
            NfsStatus::EISDIR => 21,
            NfsStatus::EINVAL => 22,
            NfsStatus::EFBIG => 27,
            NfsStatus::ENOSPC => 28,
            NfsStatus::EROFS => 30,
            NfsStatus::EMLINK => 31,
            NfsStatus::ENAMETOOLONG => 63,
            NfsStatus::ENOTEMPTY => 66,
            NfsStatus::EDQUOT => 69,
            NfsStatus::ESTALE => 70,
            NfsStatus::EBADHANDLE => 10001,
            NfsStatus::BadCookie => 10003,
            NfsStatus::NotSupported => 10004,
            NfsStatus::TooSmall => 10005,
            NfsStatus::ServerFault => 10006,
            NfsStatus::BadType => 10007,
            NfsStatus::Delay => 10008,
            NfsStatus::AttrsSame => 10009,
            NfsStatus::Denied => 10010,
            NfsStatus::Expired => 10011,
            NfsStatus::Locked => 10012,
            NfsStatus::InGracePeriod => 10013,
            NfsStatus::FhExpired => 10014,
            NfsStatus::ShareDenied => 10015,
            NfsStatus::WrongSecurity => 10016,
            NfsStatus::ClientIdInUse => 10017,
            NfsStatus::Moved => 10019,
            NfsStatus::NoFilehandle => 10020,
            NfsStatus::MinorVersionMismatch => 10021,
            NfsStatus::StaleClientId => 10022,
            NfsStatus::StaleStateId => 10023,
            NfsStatus::OldStateId => 10024,
            NfsStatus::BadStateId => 10025,
            NfsStatus::BadSeqId => 10026,
            NfsStatus::NotSame => 10027,
            NfsStatus::LockRange => 10028,
            NfsStatus::Symlink => 10029,
            NfsStatus::RestoreFh => 10030,
            NfsStatus::LeaseMoved => 10031,
            NfsStatus::AttrNotSupported => 10032,
            NfsStatus::NoGrace => 10033,
            NfsStatus::ReclaimBad => 10034,
            NfsStatus::ReclaimConflict => 10035,
            NfsStatus::BadXdr => 10036,
            NfsStatus::LocksHeld => 10037,
            NfsStatus::OpenMode => 10038,
            NfsStatus::BadOwner => 10039,
            NfsStatus::BadChar => 10040,
            NfsStatus::BadName => 10041,
            NfsStatus::BadRange => 10042,
            NfsStatus::LockNotSupported => 10043,
            NfsStatus::OpIllegal => 10044,
            NfsStatus::DeadLock => 10045,
            NfsStatus::FileOpen => 10046,
            NfsStatus::AdminRevoked => 10047,
            NfsStatus::CallbackPathDown => 10048,
            NfsStatus::BadIoMode => 10049,
            NfsStatus::BadLayout => 10050,
            NfsStatus::BadSessionDigest => 10051,
            NfsStatus::BadSession => 10052,
            NfsStatus::BadSlot => 10053,
            NfsStatus::CompleteAlready => 10054,
            NfsStatus::ConnNotBoundToSession => 10055,
            NfsStatus::DelegationAlreadyWanted => 10056,
            NfsStatus::BackChannelBusy => 10057,
            NfsStatus::LayoutTryLater => 10058,
            NfsStatus::LayoutUnavailable => 10059,
            NfsStatus::NoMatchingLayout => 10060,
            NfsStatus::RecallConflict => 10061,
            NfsStatus::UnknownLayoutType => 10062,
            NfsStatus::SeqMisordered => 10063,
            NfsStatus::SequencePos => 10064,
            NfsStatus::RequestTooBig => 10065,
            NfsStatus::ReplyTooBig => 10066,
            NfsStatus::ReplyNotAllCached => 10067,
            NfsStatus::RetryUncachedReply => 10068,
            NfsStatus::UnsafeCompound => 10069,
            NfsStatus::TooManyOps => 10070,
            NfsStatus::NotInSession => 10071,
            NfsStatus::HashAlgorithmUnsupported => 10072,
            NfsStatus::ClientIdBusy => 10074,
            NfsStatus::ParallelNFSIoHole => 10075,
            NfsStatus::SeqFalseRetry => 10076,
            NfsStatus::BadHighSlot => 10077,
            NfsStatus::DeadSession => 10078,
            NfsStatus::EncryptionAlgorithmUnsupported => 10079,
            NfsStatus::ParallelNFSNoLayout => 10080,
            NfsStatus::NotOnlyOp => 10081,
            NfsStatus::WrongCredential => 10082,
            NfsStatus::WrongType => 10083,
            NfsStatus::DirDelegationUnavailable => 10084,
            NfsStatus::RejectDelegation => 10085,
            NfsStatus::ReturnConflict => 10086,
            NfsStatus::DelegationRevoked => 10087,
        }
    }

    /// The value that a number stands for, if any.
    pub open spec fn spec_from_u32(n: u32) -> Option<NfsStatus> {
        if n == 0 {
            Some(NfsStatus::Success)
        } else if n == 1 {
            Some(NfsStatus::EPERM)
        } else if n == 2 {
            Some(NfsStatus::ENOENT)
        } else if n == 5 {
            Some(NfsStatus::EIO)
        } else if n == 6 {
            Some(NfsStatus::ENXIO)
        } else if n == 13 {
            Some(NfsStatus::EACCESS)
        } else if n == 17 {
            Some(NfsStatus::EEXIST)
        } else if n == 18 {
            Some(NfsStatus::EXDEV)
        } else if n == 20 {
            Some(NfsStatus::ENOTDIR)
        } else if n == 21 {
            Some(NfsStatus::EISDIR)
        } else if n == 22 {
            Some(NfsStatus::EINVAL)
        } else if n == 27 {
            Some(NfsStatus::EFBIG)
        } else if n == 28 {
            Some(NfsStatus::ENOSPC)
        } else if n == 30 {
            Some(NfsStatus::EROFS)
        } else if n == 31 {
            Some(NfsStatus::EMLINK)
        } else if n == 63 {
            Some(NfsStatus::ENAMETOOLONG)
        } else if n == 66 {
            Some(NfsStatus::ENOTEMPTY)
        } else if n == 69 {
            Some(NfsStatus::EDQUOT)
        } else if n == 70 {
            Some(NfsStatus::ESTALE)
        } else if n == 10001 {
            Some(NfsStatus::EBADHANDLE)
        } else if n == 10003 {
            Some(NfsStatus::BadCookie)
        } else if n == 10004 {
            Some(NfsStatus::NotSupported)
        } else if n == 10005 {
            Some(NfsStatus::TooSmall)
        } else if n == 10006 {
            Some(NfsStatus::ServerFault)
        } else if n == 10007 {
            Some(NfsStatus::BadType)
        } else if n == 10008 {
            Some(NfsStatus::Delay)
        } else if n == 10009 {
            Some(NfsStatus::AttrsSame)
        } else if n == 10010 {
            Some(NfsStatus::Denied)
        } else if n == 10011 {
            Some(NfsStatus::Expired)
        } else if n == 10012 {
            Some(NfsStatus::Locked)
        } else if n == 10013 {
            Some(NfsStatus::InGracePeriod)
        } else if n == 10014 {
            Some(NfsStatus::FhExpired)
        } else if n == 10015 {
            Some(NfsStatus::ShareDenied)
        } else if n == 10016 {
            Some(NfsStatus::WrongSecurity)
        } else if n == 10017 {
            Some(NfsStatus::ClientIdInUse)
        } else if n == 10019 {
            Some(NfsStatus::Moved)
        } else if n == 10020 {
            Some(NfsStatus::NoFilehandle)
        } else if n == 10021 {
            Some(NfsStatus::MinorVersionMismatch)
        } else if n == 10022 {
            Some(NfsStatus::StaleClientId)
        } else if n == 10023 {
            Some(NfsStatus::StaleStateId)
        } else if n == 10024 {
            Some(NfsStatus::OldStateId)
        } else if n == 10025 {
            Some(NfsStatus::BadStateId)
        } else if n == 10026 {
            Some(NfsStatus::BadSeqId)
        } else if n == 10027 {
            Some(NfsStatus::NotSame)
        } else if n == 10028 {
            Some(NfsStatus::LockRange)
        } else if n == 10029 {
            Some(NfsStatus::Symlink)
        } else if n == 10030 {
            Some(NfsStatus::RestoreFh)
        } else if n == 10031 {
            Some(NfsStatus::LeaseMoved)
        } else if n == 10032 {
            Some(NfsStatus::AttrNotSupported)
        } else if n == 10033 {
            Some(NfsStatus::NoGrace)
        } else if n == 10034 {
            Some(NfsStatus::ReclaimBad)
        } else if n == 10035 {
            Some(NfsStatus::ReclaimConflict)
        } else if n == 10036 {
            Some(NfsStatus::BadXdr)
        } else if n == 10037 {
            Some(NfsStatus::LocksHeld)
        } else if n == 10038 {
            Some(NfsStatus::OpenMode)
        } else if n == 10039 {
            Some(NfsStatus::BadOwner)
        } else if n == 10040 {
            Some(NfsStatus::BadChar)
        } else if n == 10041 {
            Some(NfsStatus::BadName)
        } else if n == 10042 {
            Some(NfsStatus::BadRange)
        } else if n == 10043 {
            Some(NfsStatus::LockNotSupported)
        } else if n == 10044 {
            Some(NfsStatus::OpIllegal)
        } else if n == 10045 {
            Some(NfsStatus::DeadLock)
        } else if n == 10046 {
            Some(NfsStatus::FileOpen)
        } else if n == 10047 {
            Some(NfsStatus::AdminRevoked)
        } else if n == 10048 {
            Some(NfsStatus::CallbackPathDown)
        } else if n == 10049 {
            Some(NfsStatus::BadIoMode)
        } else if n == 10050 {
            Some(NfsStatus::BadLayout)
        } else if n == 10051 {
            Some(NfsStatus::BadSessionDigest)
        } else if n == 10052 {
            Some(NfsStatus::BadSession)
        } else if n == 10053 {
            Some(NfsStatus::BadSlot)
        } else if n == 10054 {
            Some(NfsStatus::CompleteAlready)
        } else if n == 10055 {
            Some(NfsStatus::ConnNotBoundToSession)
        } else if n == 10056 {
            Some(NfsStatus::DelegationAlreadyWanted)
        } else if n == 10057 {
            Some(NfsStatus::BackChannelBusy)
        } else if n == 10058 {
            Some(NfsStatus::LayoutTryLater)
        } else if n == 10059 {
            Some(NfsStatus::LayoutUnavailable)
        } else if n == 10060 {
            Some(NfsStatus::NoMatchingLayout)
        } else if n == 10061 {
            Some(NfsStatus::RecallConflict)
        } else if n == 10062 {
            Some(NfsStatus::UnknownLayoutType)
        } else if n == 10063 {
            Some(NfsStatus::SeqMisordered)
        } else if n == 10064 {
            Some(NfsStatus::SequencePos)
        } else if n == 10065 {
            Some(NfsStatus::RequestTooBig)
        } else if n == 10066 {
            Some(NfsStatus::ReplyTooBig)
        } else if n == 10067 {
            Some(NfsStatus::ReplyNotAllCached)
        } else if n == 10068 {
            Some(NfsStatus::RetryUncachedReply)
        } else if n == 10069 {
            Some(NfsStatus::UnsafeCompound)
        } else if n == 10070 {
            Some(NfsStatus::TooManyOps)
        } else if n == 10071 {
            Some(NfsStatus::NotInSession)
        } else if n == 10072 {
            Some(NfsStatus::HashAlgorithmUnsupported)
        } else if n == 10074 {
            Some(NfsStatus::ClientIdBusy)
        } else if n == 10075 {
            Some(NfsStatus::ParallelNFSIoHole)
        } else if n == 10076 {
            Some(NfsStatus::SeqFalseRetry)
        } else if n == 10077 {
            Some(NfsStatus::BadHighSlot)
        } else if n == 10078 {
            Some(NfsStatus::DeadSession)
        } else if n == 10079 {
            Some(NfsStatus::EncryptionAlgorithmUnsupported)
        } else if n == 10080 {
            Some(NfsStatus::ParallelNFSNoLayout)
        } else if n == 10081 {
            Some(NfsStatus::NotOnlyOp)
        } else if n == 10082 {
            Some(NfsStatus::WrongCredential)
        } else if n == 10083 {
            Some(NfsStatus::WrongType)
        } else if n == 10084 {
            Some(NfsStatus::DirDelegationUnavailable)
        } else if n == 10085 {
            Some(NfsStatus::RejectDelegation)
        } else if n == 10086 {
            Some(NfsStatus::ReturnConflict)
        } else if n == 10087 {
            Some(NfsStatus::DelegationRevoked)
        } else {
            None
        }
    }

    /// The number that stands for the value.
    pub fn to_u32(&self) -> (n: u32)
        ensures
            n == self.spec_to_u32(),
    {
        match self {
            NfsStatus::Success => 0,
            NfsStatus::EPERM => 1,
            NfsStatus::ENOENT => 2,
            NfsStatus::EIO => 5,
            NfsStatus::ENXIO => 6,
            NfsStatus::EACCESS => 13,
            NfsStatus::EEXIST => 17,
            NfsStatus::EXDEV => 18,
            NfsStatus::ENOTDIR => 20,
            NfsStatus::EISDIR => 21,
            NfsStatus::EINVAL => 22,
            NfsStatus::EFBIG => 27,
            NfsStatus::ENOSPC => 28,
            NfsStatus::EROFS => 30,
            NfsStatus::EMLINK => 31,
            NfsStatus::ENAMETOOLONG => 63,
            NfsStatus::ENOTEMPTY => 66,
            NfsStatus::EDQUOT => 69,
            NfsStatus::ESTALE => 70,
            NfsStatus::EBADHANDLE => 10001,
            NfsStatus::BadCookie => 10003,
            NfsStatus::NotSupported => 10004,
            NfsStatus::TooSmall => 10005,
            NfsStatus::ServerFault => 10006,
            NfsStatus::BadType => 10007,
            NfsStatus::Delay => 10008,
            NfsStatus::AttrsSame => 10009,
            NfsStatus::Denied => 10010,
            NfsStatus::Expired => 10011,
            NfsStatus::Locked => 10012,
            NfsStatus::InGracePeriod => 10013,
            NfsStatus::FhExpired => 10014,
            NfsStatus::ShareDenied => 10015,
            NfsStatus::WrongSecurity => 10016,
            NfsStatus::ClientIdInUse => 10017,
            NfsStatus::Moved => 10019,
            NfsStatus::NoFilehandle => 10020,
            NfsStatus::MinorVersionMismatch => 10021,
            NfsStatus::StaleClientId => 10022,
            NfsStatus::StaleStateId => 10023,
            NfsStatus::OldStateId => 10024,
            NfsStatus::BadStateId => 10025,
            NfsStatus::BadSeqId => 10026,
            NfsStatus::NotSame => 10027,
            NfsStatus::LockRange => 10028,
            NfsStatus::Symlink => 10029,
            NfsStatus::RestoreFh => 10030,
            NfsStatus::LeaseMoved => 10031,
            NfsStatus::AttrNotSupported => 10032,
            NfsStatus::NoGrace => 10033,
            NfsStatus::ReclaimBad => 10034,
            NfsStatus::ReclaimConflict => 10035,
            NfsStatus::BadXdr => 10036,
            NfsStatus::LocksHeld => 10037,
            NfsStatus::OpenMode => 10038,
            NfsStatus::BadOwner => 10039,
            NfsStatus::BadChar => 10040,
            NfsStatus::BadName => 10041,
            NfsStatus::BadRange => 10042,
            NfsStatus::LockNotSupported => 10043,
            NfsStatus::OpIllegal => 10044,
            NfsStatus::DeadLock => 10045,
            NfsStatus::FileOpen => 10046,
            NfsStatus::AdminRevoked => 10047,
            NfsStatus::CallbackPathDown => 10048,
            NfsStatus::BadIoMode => 10049,
            NfsStatus::BadLayout => 10050,
            NfsStatus::BadSessionDigest => 10051,
            NfsStatus::BadSession => 10052,
            NfsStatus::BadSlot => 10053,
            NfsStatus::CompleteAlready => 10054,
            NfsStatus::ConnNotBoundToSession => 10055,
            NfsStatus::DelegationAlreadyWanted => 10056,
            NfsStatus::BackChannelBusy => 10057,
            NfsStatus::LayoutTryLater => 10058,
            NfsStatus::LayoutUnavailable => 10059,
            NfsStatus::NoMatchingLayout => 10060,
            NfsStatus::RecallConflict => 10061,
            NfsStatus::UnknownLayoutType => 10062,
            NfsStatus::SeqMisordered => 10063,
            NfsStatus::SequencePos => 10064,
            NfsStatus::RequestTooBig => 10065,
            NfsStatus::ReplyTooBig => 10066,
            NfsStatus::ReplyNotAllCached => 10067,
            NfsStatus::RetryUncachedReply => 10068,
            NfsStatus::UnsafeCompound => 10069,
            NfsStatus::TooManyOps => 10070,
            NfsStatus::NotInSession => 10071,
            NfsStatus::HashAlgorithmUnsupported => 10072,
            NfsStatus::ClientIdBusy => 10074,
            NfsStatus::ParallelNFSIoHole => 10075,
            NfsStatus::SeqFalseRetry => 10076,
            NfsStatus::BadHighSlot => 10077,
            NfsStatus::DeadSession => 10078,
            NfsStatus::EncryptionAlgorithmUnsupported => 10079,
            NfsStatus::ParallelNFSNoLayout => 10080,
            NfsStatus::NotOnlyOp => 10081,
            NfsStatus::WrongCredential => 10082,
            NfsStatus::WrongType => 10083,
            NfsStatus::DirDelegationUnavailable => 10084,
            NfsStatus::RejectDelegation => 10085,
            NfsStatus::ReturnConflict => 10086,
            NfsStatus::DelegationRevoked => 10087,
        }
    }

    /// The value that `n` stands for, if any.
    pub fn from_u32(n: u32) -> (r: Option<NfsStatus>)
        ensures
            r == NfsStatus::spec_from_u32(n),
    {
        match n {
            0 => Some(NfsStatus::Success),
            1 => Some(NfsStatus::EPERM),
            2 => Some(NfsStatus::ENOENT),
            5 => Some(NfsStatus::EIO),
            6 => Some(NfsStatus::ENXIO),
            13 => Some(NfsStatus::EACCESS),
            17 => Some(NfsStatus::EEXIST),
            18 => Some(NfsStatus::EXDEV),
            20 => Some(NfsStatus::ENOTDIR),
            21 => Some(NfsStatus::EISDIR),
            22 => Some(NfsStatus::EINVAL),
            27 => Some(NfsStatus::EFBIG),
            28 => Some(NfsStatus::ENOSPC),
            30 => Some(NfsStatus::EROFS),
            31 => Some(NfsStatus::EMLINK),
            63 => Some(NfsStatus::ENAMETOOLONG),
            66 => Some(NfsStatus::ENOTEMPTY),
            69 => Some(NfsStatus::EDQUOT),
            70 => Some(NfsStatus::ESTALE),
            10001 => Some(NfsStatus::EBADHANDLE),
            10003 => Some(NfsStatus::BadCookie),
            10004 => Some(NfsStatus::NotSupported),
            10005 => Some(NfsStatus::TooSmall),
            10006 => Some(NfsStatus::ServerFault),
            10007 => Some(NfsStatus::BadType),
            10008 => Some(NfsStatus::Delay),
            10009 => Some(NfsStatus::AttrsSame),
            10010 => Some(NfsStatus::Denied),
            10011 => Some(NfsStatus::Expired),
            10012 => Some(NfsStatus::Locked),
            10013 => Some(NfsStatus::InGracePeriod),
            10014 => Some(NfsStatus::FhExpired),
            10015 => Some(NfsStatus::ShareDenied),
            10016 => Some(NfsStatus::WrongSecurity),
            10017 => Some(NfsStatus::ClientIdInUse),
            10019 => Some(NfsStatus::Moved),
            10020 => Some(NfsStatus::NoFilehandle),
            10021 => Some(NfsStatus::MinorVersionMismatch),
            10022 => Some(NfsStatus::StaleClientId),
            10023 => Some(NfsStatus::StaleStateId),
            10024 => Some(NfsStatus::OldStateId),
            10025 => Some(NfsStatus::BadStateId),
            10026 => Some(NfsStatus::BadSeqId),
            10027 => Some(NfsStatus::NotSame),
            10028 => Some(NfsStatus::LockRange),
            10029 => Some(NfsStatus::Symlink),
            10030 => Some(NfsStatus::RestoreFh),
            10031 => Some(NfsStatus::LeaseMoved),
            10032 => Some(NfsStatus::AttrNotSupported),
            10033 => Some(NfsStatus::NoGrace),
            10034 => Some(NfsStatus::ReclaimBad),
            10035 => Some(NfsStatus::ReclaimConflict),
            10036 => Some(NfsStatus::BadXdr),
            10037 => Some(NfsStatus::LocksHeld),
            10038 => Some(NfsStatus::OpenMode),
            10039 => Some(NfsStatus::BadOwner),
            10040 => Some(NfsStatus::BadChar),
            10041 => Some(NfsStatus::BadName),
            10042 => Some(NfsStatus::BadRange),
            10043 => Some(NfsStatus::LockNotSupported),
            10044 => Some(NfsStatus::OpIllegal),
            10045 => Some(NfsStatus::DeadLock),
            10046 => Some(NfsStatus::FileOpen),
            10047 => Some(NfsStatus::AdminRevoked),
            10048 => Some(NfsStatus::CallbackPathDown),
            10049 => Some(NfsStatus::BadIoMode),
            10050 => Some(NfsStatus::BadLayout),
            10051 => Some(NfsStatus::BadSessionDigest),
            10052 => Some(NfsStatus::BadSession),
            10053 => Some(NfsStatus::BadSlot),
            10054 => Some(NfsStatus::CompleteAlready),
            10055 => Some(NfsStatus::ConnNotBoundToSession),
            10056 => Some(NfsStatus::DelegationAlreadyWanted),
            10057 => Some(NfsStatus::BackChannelBusy),
            10058 => Some(NfsStatus::LayoutTryLater),
            10059 => Some(NfsStatus::LayoutUnavailable),
            10060 => Some(NfsStatus::NoMatchingLayout),
            10061 => Some(NfsStatus::RecallConflict),
            10062 => Some(NfsStatus::UnknownLayoutType),
            10063 => Some(NfsStatus::SeqMisordered),
            10064 => Some(NfsStatus::SequencePos),
            10065 => Some(NfsStatus::RequestTooBig),
            10066 => Some(NfsStatus::ReplyTooBig),
            10067 => Some(NfsStatus::ReplyNotAllCached),
            10068 => Some(NfsStatus::RetryUncachedReply),
            10069 => Some(NfsStatus::UnsafeCompound),
            10070 => Some(NfsStatus::TooManyOps),
            10071 => Some(NfsStatus::NotInSession),
            10072 => Some(NfsStatus::HashAlgorithmUnsupported),
            10074 => Some(NfsStatus::ClientIdBusy),
            10075 => Some(NfsStatus::ParallelNFSIoHole),
            10076 => Some(NfsStatus::SeqFalseRetry),
            10077 => Some(NfsStatus::BadHighSlot),
            10078 => Some(NfsStatus::DeadSession),
            10079 => Some(NfsStatus::EncryptionAlgorithmUnsupported),
            10080 => Some(NfsStatus::ParallelNFSNoLayout),
            10081 => Some(NfsStatus::NotOnlyOp),
            10082 => Some(NfsStatus::WrongCredential),
            10083 => Some(NfsStatus::WrongType),
            10084 => Some(NfsStatus::DirDelegationUnavailable),
            10085 => Some(NfsStatus::RejectDelegation),
            10086 => Some(NfsStatus::ReturnConflict),
            10087 => Some(NfsStatus::DelegationRevoked),
            _ => None,
        }
    }
}

impl XdrSerialize for NfsStatus {
    /// The number, as a `u32`.
    open spec fn spec_emit(v: NfsStatus) -> Emit {
        spec_u32_emit(v.spec_to_u32())
    }

    fn serialize(&self, dest: &mut Vec<u8>) -> (r: Result<(), XdrError>) {
        let n: u32 = self.to_u32();
        let r = n.serialize(dest);
        assert(Self::spec_emit(self.deep_view()) == spec_u32_emit(n));
        r
    }
}

impl XdrDeserialize for NfsStatus {
    /// A number that stands for no value is invalid data.
    open spec fn spec_parse(data: Seq<u8>, pos: int) -> Parse<NfsStatus> {
        match spec_u32_parse(data, pos) {
            Parse::Done(n, p) => match NfsStatus::spec_from_u32(n) {
                Some(x) => Parse::Done(x, p),
                None => Parse::Fails(XdrError::InvalidData, p),
            },
            Parse::Fails(e, p) => Parse::Fails(e, p),
        }
    }

    fn deserialize(src: &mut XdrReader) -> (r: Result<NfsStatus, XdrError>) {
        let n = match u32::deserialize(src) {
            Ok(n) => n,
            Err(e) => return Err(e),
        };
        match NfsStatus::from_u32(n) {
            Some(x) => Ok(x),
            None => Err(XdrError::InvalidData),
        }
    }
}

// ---------------------------------------------------------------------------
// Reading back what was written
// ---------------------------------------------------------------------------

/// A [`NfsStatus`] reads back as itself.
pub proof fn lemma_nfs_status_roundtrips(v: NfsStatus)
    ensures
        spec_roundtrips::<NfsStatus>(v),
{
    lemma_u32_roundtrips(v.spec_to_u32());
    assert forall|data: Seq<u8>, pos: int|
        spec_at(data, pos, <NfsStatus as XdrSerialize>::spec_emit(v)->Done_0) implies #[trigger] <NfsStatus as XdrDeserialize>::spec_parse(
        data,
        pos,
    ) == Parse::Done(v, pos + <NfsStatus as XdrSerialize>::spec_emit(v)->Done_0.len()) by {
        assert(<u32 as XdrDeserialize>::spec_parse(data, pos) == Parse::Done(v.spec_to_u32(), pos + 4));
    }
}

impl AsNfsStatus for NfsStatus {
    /// A bare status is its own status.
    open spec fn spec_status(&self) -> NfsStatus {
        *self
    }

    /// A bare status has no body after it.
    open spec fn spec_has_body(&self) -> bool {
        false
    }

    fn as_status(&self) -> (s: NfsStatus) {
        *self
    }

    fn has_body(&self) -> (b: bool) {
        false
    }
}

} // verus!
