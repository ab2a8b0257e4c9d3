//! The data types of the NFSv4.1 protocol (RFC 8881, RFC 5662) and their XDR
//! encodings.
use vstd::prelude::*;
use crate::nfs::constants::{
    LAYOUT_RET_REC_ALL, LAYOUT_RET_REC_FILE, LAYOUT_RET_REC_FSID, NFS_DEVICEID_SIZE, NFS_FHSIZE,
    NFS_OPAQUE_LIMIT, NFS_SESSIONID_SIZE, NFS_VERIFIER_SIZE, OPEN_RESULT_CONFIRM,
    OPEN_RESULT_LOCKTYPE_POSIX, OPEN_RESULT_MAY_NOTIFY_LOCK, OPEN_RESULT_PRESERVE_UNLINKED,
    RPCSEC_GSS,
};
use crate::nfs::status::NfsStatus;
use crate::nfs::AsNfsStatus;
use crate::rpc::{lemma_auth_flavor_roundtrips, AuthFlavor, AuthUnix, SpecAuthUnix};
use crate::xdr::{
    lemma_array_roundtrips, lemma_at_split, lemma_bool_roundtrips, lemma_opaque_roundtrips, lemma_u32_roundtrips, spec_at, spec_roundtrips, spec_vec_roundtrips, spec_vecs_roundtrips,
    deserialize_vec, deserialize_vec_vec, serialize_vec_of, serialize_vec_vec_of, spec_bool_word,
    spec_u32_emit, spec_u32_parse, spec_vec_emit, spec_vec_parse, spec_vecs_emit, spec_vecs_parse,
    Emit, MaxLenBytes, OptionalData, Parse, XdrDeserialize, XdrError, XdrOpaque, XdrReader,
    XdrSerialize,
};

verus! {

broadcast use crate::byte_seq::lemma_seq_add_assoc;

#[derive(Clone, Copy, Debug, Default, PartialEq, Eq, Structural)]
pub enum NfsFileType {
    #[default]
    Regular,
    Directory,
    Block,
    Character,
    Link,
    Socket,
    Fifo,
    AttributeDirectory,
    NamedAttribute,
}

impl DeepView for NfsFileType {
    type V = NfsFileType;

    open spec fn deep_view(&self) -> NfsFileType {
        *self
    }
}

impl NfsFileType {
    /// The number that stands for the value.
    pub open spec fn spec_to_u32(self) -> u32 {
        match self {
            NfsFileType::Regular => 1,
            NfsFileType::Directory => 2,
            NfsFileType::Block => 3,
            NfsFileType::Character => 4,
            NfsFileType::Link => 5,
            NfsFileType::Socket => 6,
            NfsFileType::Fifo => 7,
            NfsFileType::AttributeDirectory => 8,
            NfsFileType::NamedAttribute => 9,
        }
    }

    /// The value that a number stands for, if any.
    pub open spec fn spec_from_u32(n: u32) -> Option<NfsFileType> {
        if n == 1 {
            Some(NfsFileType::Regular)
        } else if n == 2 {
            Some(NfsFileType::Directory)
        } else if n == 3 {
            Some(NfsFileType::Block)
        } else if n == 4 {
            Some(NfsFileType::Character)
        } else if n == 5 {
            Some(NfsFileType::Link)
        } else if n == 6 {
            Some(NfsFileType::Socket)
        } else if n == 7 {
            Some(NfsFileType::Fifo)
        } else if n == 8 {
            Some(NfsFileType::AttributeDirectory)
        } else if n == 9 {
            Some(NfsFileType::NamedAttribute)
        } else {
            None
        }
    }

    /// The number that stands for the value.
    pub fn to_u32(&self) -> (n: u32)
        ensures
            n == self.spec_to_u32(),
    {
        match self {
            NfsFileType::Regular => 1,
            NfsFileType::Directory => 2,
            NfsFileType::Block => 3,
            NfsFileType::Character => 4,
            NfsFileType::Link => 5,
            NfsFileType::Socket => 6,
            NfsFileType::Fifo => 7,
            NfsFileType::AttributeDirectory => 8,
            NfsFileType::NamedAttribute => 9,
        }
    }

    /// The value that `n` stands for, if any.
    pub fn from_u32(n: u32) -> (r: Option<NfsFileType>)
        ensures
            r == NfsFileType::spec_from_u32(n),
    {
        match n {
            1 => Some(NfsFileType::Regular),
            2 => Some(NfsFileType::Directory),
            3 => Some(NfsFileType::Block),
            4 => Some(NfsFileType::Character),
            5 => Some(NfsFileType::Link),
            6 => Some(NfsFileType::Socket),
            7 => Some(NfsFileType::Fifo),
            8 => Some(NfsFileType::AttributeDirectory),
            9 => Some(NfsFileType::NamedAttribute),
            _ => None,
        }
    }
}

impl XdrSerialize for NfsFileType {
    /// The number, as a `u32`.
    open spec fn spec_emit(v: NfsFileType) -> Emit {
        spec_u32_emit(v.spec_to_u32())
    }

    fn serialize(&self, dest: &mut Vec<u8>) -> (r: Result<(), XdrError>) {
        let n: u32 = self.to_u32();
        let r = n.serialize(dest);
        assert(Self::spec_emit(self.deep_view()) == spec_u32_emit(n));
        r
    }
}

impl XdrDeserialize for NfsFileType {
    /// A number that stands for no value is invalid data.
    open spec fn spec_parse(data: Seq<u8>, pos: int) -> Parse<NfsFileType> {
        match spec_u32_parse(data, pos) {
            Parse::Done(n, p) => match NfsFileType::spec_from_u32(n) {
                Some(x) => Parse::Done(x, p),
                None => Parse::Fails(XdrError::InvalidData, p),
            },
            Parse::Fails(e, p) => Parse::Fails(e, p),
        }
    }

    fn deserialize(src: &mut XdrReader) -> (r: Result<NfsFileType, XdrError>) {
        let n = match u32::deserialize(src) {
            Ok(n) => n,
            Err(e) => return Err(e),
        };
        match NfsFileType::from_u32(n) {
            Some(x) => Ok(x),
            None => Err(XdrError::InvalidData),
        }
    }
}

#[derive(Clone, Copy, Debug, Default, PartialEq, Eq, Structural)]
pub enum NfsExpirationPolicy {
    #[default]
    Persistent,
    Volatile,
    VolatileExceptWhenOpen,
}

impl DeepView for NfsExpirationPolicy {
    type V = NfsExpirationPolicy;

    open spec fn deep_view(&self) -> NfsExpirationPolicy {
        *self
    }
}

impl NfsExpirationPolicy {
    /// The number that stands for the value.
    pub open spec fn spec_to_u32(self) -> u32 {
        match self {
            NfsExpirationPolicy::Persistent => 0,
            NfsExpirationPolicy::Volatile => 2,
            NfsExpirationPolicy::VolatileExceptWhenOpen => 3,
        }
    }

    /// The value that a number stands for, if any.
    pub open spec fn spec_from_u32(n: u32) -> Option<NfsExpirationPolicy> {
        if n == 0 {
            Some(NfsExpirationPolicy::Persistent)
        } else if n == 2 {
            Some(NfsExpirationPolicy::Volatile)
        } else if n == 3 {
            Some(NfsExpirationPolicy::VolatileExceptWhenOpen)
        } else {
            None
        }
    }

    /// The number that stands for the value.
    pub fn to_u32(&self) -> (n: u32)
        ensures
            n == self.spec_to_u32(),
    {
        match self {
            NfsExpirationPolicy::Persistent => 0,
            NfsExpirationPolicy::Volatile => 2,
            NfsExpirationPolicy::VolatileExceptWhenOpen => 3,
        }
    }

    /// The value that `n` stands for, if any.
    pub fn from_u32(n: u32) -> (r: Option<NfsExpirationPolicy>)
        ensures
            r == NfsExpirationPolicy::spec_from_u32(n),
    {
        match n {
            0 => Some(NfsExpirationPolicy::Persistent),
            2 => Some(NfsExpirationPolicy::Volatile),
            3 => Some(NfsExpirationPolicy::VolatileExceptWhenOpen),
            _ => None,
        }
    }
}

impl XdrSerialize for NfsExpirationPolicy {
    /// The number, as a `u32`.
    open spec fn spec_emit(v: NfsExpirationPolicy) -> Emit {
        spec_u32_emit(v.spec_to_u32())
    }

    fn serialize(&self, dest: &mut Vec<u8>) -> (r: Result<(), XdrError>) {
        let n: u32 = self.to_u32();
        let r = n.serialize(dest);
        assert(Self::spec_emit(self.deep_view()) == spec_u32_emit(n));
        r
    }
}

impl XdrDeserialize for NfsExpirationPolicy {
    /// A number that stands for no value is invalid data.
    open spec fn spec_parse(data: Seq<u8>, pos: int) -> Parse<NfsExpirationPolicy> {
        match spec_u32_parse(data, pos) {
            Parse::Done(n, p) => match NfsExpirationPolicy::spec_from_u32(n) {
                Some(x) => Parse::Done(x, p),
                None => Parse::Fails(XdrError::InvalidData, p),
            },
            Parse::Fails(e, p) => Parse::Fails(e, p),
        }
    }

    fn deserialize(src: &mut XdrReader) -> (r: Result<NfsExpirationPolicy, XdrError>) {
        let n = match u32::deserialize(src) {
            Ok(n) => n,
            Err(e) => return Err(e),
        };
        match NfsExpirationPolicy::from_u32(n) {
            Some(x) => Ok(x),
            None => Err(XdrError::InvalidData),
        }
    }
}

/// An identifier for a particular filesystem.
///
/// Most users will likely just want to have a single id that is returned
/// for all `NfsAttribute::FilesystemId` attribute requests.
#[derive(Clone, Copy, Debug, Default)]
pub struct NfsFileSystemId {
    pub major: u64,
    pub minor: u64,
}

impl DeepView for NfsFileSystemId {
    type V = NfsFileSystemId;

    open spec fn deep_view(&self) -> NfsFileSystemId {
        NfsFileSystemId { major: self.major.deep_view(), minor: self.minor.deep_view() }
    }
}

impl XdrSerialize for NfsFileSystemId {
    open spec fn spec_emit(v: NfsFileSystemId) -> Emit {
        <u64 as XdrSerialize>::spec_emit(v.major).and_then(<u64 as XdrSerialize>::spec_emit(v.minor))
    }

    fn serialize(&self, dest: &mut Vec<u8>) -> (r: Result<(), XdrError>) {
        match self.major.serialize(dest) {
            Ok(()) => {},
            Err(e) => return Err(e),
        }
        self.minor.serialize(dest)
    }
}

/// Reading a [`NfsFileSystemId`]: each field in turn.
#[verifier::opaque]
pub open spec fn spec_parse_nfs_file_system_id(data: Seq<u8>, pos: int) -> Parse<NfsFileSystemId> {
    match <u64 as XdrDeserialize>::spec_parse(data, pos) {
        Parse::Done(v0, p1) => match <u64 as XdrDeserialize>::spec_parse(data, p1) {
            Parse::Done(v1, p2) => Parse::Done(NfsFileSystemId { major: v0, minor: v1 }, p2),
            Parse::Fails(e, q) => Parse::Fails(e, q),
        },
        Parse::Fails(e, q) => Parse::Fails(e, q),
    }
}

impl XdrDeserialize for NfsFileSystemId {
    open spec fn spec_parse(data: Seq<u8>, pos: int) -> Parse<NfsFileSystemId> {
        spec_parse_nfs_file_system_id(data, pos)
    }

    fn deserialize(src: &mut XdrReader) -> (r: Result<NfsFileSystemId, XdrError>) {
        proof {
            reveal(spec_parse_nfs_file_system_id);
        }
        let v0 = match <u64 as XdrDeserialize>::deserialize(src) {
            Ok(x) => x,
            Err(e) => return Err(e),
        };
        let v1 = match <u64 as XdrDeserialize>::deserialize(src) {
            Ok(x) => x,
            Err(e) => return Err(e),
        };
        Ok(NfsFileSystemId { major: v0, minor: v1 })
    }
}

pub type AttrList = XdrOpaque;

pub type BitMap = Vec<u32>;

pub type ChangeId = u64;

pub type ClientId = u64;

pub type Count = u32;

pub type Length = u64;

pub type Mode = u32;

pub type NfsCookie = u64;

pub type NfsFh = MaxLenBytes<NFS_FHSIZE>;

pub type Offset = u64;

pub type QOp = u32;

pub type SecOid = XdrOpaque;

pub type SequenceId = u32;

pub type SeqId = u32;

pub type SessionId = [u8; NFS_SESSIONID_SIZE];

pub type SlotId = u32;

pub type Utf8String = Vec<u8>;

pub type Utf8StringCaseSensitive = Utf8String;

pub type Utf8StringCaseInsensitive = Utf8String;

pub type Utf8StringMixed = Utf8String;

pub type Component = Utf8StringCaseSensitive;

pub type LinkText = Utf8StringCaseSensitive;

pub type NfsPathName = Vec<Component>;

pub type Verifier = [u8; NFS_VERIFIER_SIZE];

#[derive(Clone, Copy, Debug)]
pub struct NfsTime {
    pub seconds: i64,
    pub nseconds: u32,
}

impl DeepView for NfsTime {
    type V = NfsTime;

    open spec fn deep_view(&self) -> NfsTime {
        NfsTime { seconds: self.seconds.deep_view(), nseconds: self.nseconds.deep_view() }
    }
}

impl XdrSerialize for NfsTime {
    open spec fn spec_emit(v: NfsTime) -> Emit {
        <i64 as XdrSerialize>::spec_emit(v.seconds).and_then(<u32 as XdrSerialize>::spec_emit(v.nseconds))
    }

    fn serialize(&self, dest: &mut Vec<u8>) -> (r: Result<(), XdrError>) {
        match self.seconds.serialize(dest) {
            Ok(()) => {},
            Err(e) => return Err(e),
        }
        self.nseconds.serialize(dest)
    }
}

/// Reading a [`NfsTime`]: each field in turn.
#[verifier::opaque]
pub open spec fn spec_parse_nfs_time(data: Seq<u8>, pos: int) -> Parse<NfsTime> {
    match <i64 as XdrDeserialize>::spec_parse(data, pos) {
        Parse::Done(v0, p1) => match <u32 as XdrDeserialize>::spec_parse(data, p1) {
            Parse::Done(v1, p2) => Parse::Done(NfsTime { seconds: v0, nseconds: v1 }, p2),
            Parse::Fails(e, q) => Parse::Fails(e, q),
        },
        Parse::Fails(e, q) => Parse::Fails(e, q),
    }
}

impl XdrDeserialize for NfsTime {
    open spec fn spec_parse(data: Seq<u8>, pos: int) -> Parse<NfsTime> {
        spec_parse_nfs_time(data, pos)
    }

    fn deserialize(src: &mut XdrReader) -> (r: Result<NfsTime, XdrError>) {
        proof {
            reveal(spec_parse_nfs_time);
        }
        let v0 = match <i64 as XdrDeserialize>::deserialize(src) {
            Ok(x) => x,
            Err(e) => return Err(e),
        };
        let v1 = match <u32 as XdrDeserialize>::deserialize(src) {
            Ok(x) => x,
            Err(e) => return Err(e),
        };
        Ok(NfsTime { seconds: v0, nseconds: v1 })
    }
}

/// How a time attribute is set: to the server's clock or to a time the client gives.
#[derive(Clone, Copy, Debug, PartialEq, Eq, Structural)]
pub enum TimeHow {
    SetToServer,
    SetToClient,
}

/// A time to set: the server's clock, or a time that the client gives.
pub enum SetTime {
    SetToServer,
    SetToClient(NfsTime),
}

impl DeepView for SetTime {
    type V = SetTime;

    open spec fn deep_view(&self) -> SetTime {
        match self {
            SetTime::SetToServer => SetTime::SetToServer,
            SetTime::SetToClient(x) => SetTime::SetToClient(x.deep_view()),
        }
    }
}

impl XdrSerialize for SetTime {
    /// Writes the time the client gives, and nothing for the server's clock (no tag).
    open spec fn spec_emit(v: SetTime) -> Emit {
        match v {
            SetTime::SetToServer => Emit::Done(Seq::empty()),
            SetTime::SetToClient(x) => <NfsTime as XdrSerialize>::spec_emit(x),
        }
    }

    fn serialize(&self, dest: &mut Vec<u8>) -> (r: Result<(), XdrError>) {
        match self {
            SetTime::SetToServer => Ok(()),
            SetTime::SetToClient(x) => {
                x.serialize(dest)
            },
        }
    }
}

pub struct FsId {
    major: u64,
    minor: u64,
}

/// The deep view of [`FsId`].
pub struct SpecFsId {
    pub major: u64,
    pub minor: u64,
}

impl DeepView for FsId {
    type V = SpecFsId;

    closed spec fn deep_view(&self) -> SpecFsId {
        SpecFsId { major: self.major.deep_view(), minor: self.minor.deep_view() }
    }
}

impl XdrSerialize for FsId {
    open spec fn spec_emit(v: SpecFsId) -> Emit {
        <u64 as XdrSerialize>::spec_emit(v.major).and_then(<u64 as XdrSerialize>::spec_emit(v.minor))
    }

    fn serialize(&self, dest: &mut Vec<u8>) -> (r: Result<(), XdrError>) {
        match self.major.serialize(dest) {
            Ok(()) => {},
            Err(e) => return Err(e),
        }
        self.minor.serialize(dest)
    }
}

/// Reading a [`FsId`]: each field in turn.
#[verifier::opaque]
pub open spec fn spec_parse_fs_id(data: Seq<u8>, pos: int) -> Parse<SpecFsId> {
    match <u64 as XdrDeserialize>::spec_parse(data, pos) {
        Parse::Done(v0, p1) => match <u64 as XdrDeserialize>::spec_parse(data, p1) {
            Parse::Done(v1, p2) => Parse::Done(SpecFsId { major: v0, minor: v1 }, p2),
            Parse::Fails(e, q) => Parse::Fails(e, q),
        },
        Parse::Fails(e, q) => Parse::Fails(e, q),
    }
}

impl XdrDeserialize for FsId {
    open spec fn spec_parse(data: Seq<u8>, pos: int) -> Parse<SpecFsId> {
        spec_parse_fs_id(data, pos)
    }

    fn deserialize(src: &mut XdrReader) -> (r: Result<FsId, XdrError>) {
        proof {
            reveal(spec_parse_fs_id);
        }
        let v0 = match <u64 as XdrDeserialize>::deserialize(src) {
            Ok(x) => x,
            Err(e) => return Err(e),
        };
        let v1 = match <u64 as XdrDeserialize>::deserialize(src) {
            Ok(x) => x,
            Err(e) => return Err(e),
        };
        Ok(FsId { major: v0, minor: v1 })
    }
}

#[derive(Clone, Copy, Debug)]
pub struct NfsChangePolicy {
    pub major: u64,
    pub minor: u64,
}

impl DeepView for NfsChangePolicy {
    type V = NfsChangePolicy;

    open spec fn deep_view(&self) -> NfsChangePolicy {
        NfsChangePolicy { major: self.major.deep_view(), minor: self.minor.deep_view() }
    }
}

impl XdrSerialize for NfsChangePolicy {
    open spec fn spec_emit(v: NfsChangePolicy) -> Emit {
        <u64 as XdrSerialize>::spec_emit(v.major).and_then(<u64 as XdrSerialize>::spec_emit(v.minor))
    }

    fn serialize(&self, dest: &mut Vec<u8>) -> (r: Result<(), XdrError>) {
        match self.major.serialize(dest) {
            Ok(()) => {},
            Err(e) => return Err(e),
        }
        self.minor.serialize(dest)
    }
}

/// Reading a [`NfsChangePolicy`]: each field in turn.
#[verifier::opaque]
pub open spec fn spec_parse_nfs_change_policy(data: Seq<u8>, pos: int) -> Parse<NfsChangePolicy> {
    match <u64 as XdrDeserialize>::spec_parse(data, pos) {
        Parse::Done(v0, p1) => match <u64 as XdrDeserialize>::spec_parse(data, p1) {
            Parse::Done(v1, p2) => Parse::Done(NfsChangePolicy { major: v0, minor: v1 }, p2),
            Parse::Fails(e, q) => Parse::Fails(e, q),
        },
        Parse::Fails(e, q) => Parse::Fails(e, q),
    }
}

impl XdrDeserialize for NfsChangePolicy {
    open spec fn spec_parse(data: Seq<u8>, pos: int) -> Parse<NfsChangePolicy> {
        spec_parse_nfs_change_policy(data, pos)
    }

    fn deserialize(src: &mut XdrReader) -> (r: Result<NfsChangePolicy, XdrError>) {
        proof {
            reveal(spec_parse_nfs_change_policy);
        }
        let v0 = match <u64 as XdrDeserialize>::deserialize(src) {
            Ok(x) => x,
            Err(e) => return Err(e),
        };
        let v1 = match <u64 as XdrDeserialize>::deserialize(src) {
            Ok(x) => x,
            Err(e) => return Err(e),
        };
        Ok(NfsChangePolicy { major: v0, minor: v1 })
    }
}

#[derive(Clone, Debug)]
pub struct NfsFsLocation {
    server: Utf8StringCaseInsensitive,
    pathname: NfsPathName,
}

/// The deep view of [`NfsFsLocation`].
pub struct SpecNfsFsLocation {
    pub server: Seq<u8>,
    pub pathname: Seq<Seq<u8>>,
}

impl DeepView for NfsFsLocation {
    type V = SpecNfsFsLocation;

    closed spec fn deep_view(&self) -> SpecNfsFsLocation {
        SpecNfsFsLocation { server: self.server.deep_view(), pathname: self.pathname.deep_view() }
    }
}

impl XdrSerialize for NfsFsLocation {
    open spec fn spec_emit(v: SpecNfsFsLocation) -> Emit {
        <Utf8StringCaseInsensitive as XdrSerialize>::spec_emit(v.server).and_then(<NfsPathName as XdrSerialize>::spec_emit(v.pathname))
    }

    fn serialize(&self, dest: &mut Vec<u8>) -> (r: Result<(), XdrError>) {
        match self.server.serialize(dest) {
            Ok(()) => {},
            Err(e) => return Err(e),
        }
        self.pathname.serialize(dest)
    }
}

/// Reading a [`NfsFsLocation`]: each field in turn.
#[verifier::opaque]
pub open spec fn spec_parse_nfs_fs_location(data: Seq<u8>, pos: int) -> Parse<SpecNfsFsLocation> {
    match <Utf8StringCaseInsensitive as XdrDeserialize>::spec_parse(data, pos) {
        Parse::Done(v0, p1) => match <NfsPathName as XdrDeserialize>::spec_parse(data, p1) {
            Parse::Done(v1, p2) => Parse::Done(SpecNfsFsLocation { server: v0, pathname: v1 }, p2),
            Parse::Fails(e, q) => Parse::Fails(e, q),
        },
        Parse::Fails(e, q) => Parse::Fails(e, q),
    }
}

impl XdrDeserialize for NfsFsLocation {
    open spec fn spec_parse(data: Seq<u8>, pos: int) -> Parse<SpecNfsFsLocation> {
        spec_parse_nfs_fs_location(data, pos)
    }

    fn deserialize(src: &mut XdrReader) -> (r: Result<NfsFsLocation, XdrError>) {
        proof {
            reveal(spec_parse_nfs_fs_location);
        }
        let v0 = match <Utf8StringCaseInsensitive as XdrDeserialize>::deserialize(src) {
            Ok(x) => x,
            Err(e) => return Err(e),
        };
        let v1 = match <NfsPathName as XdrDeserialize>::deserialize(src) {
            Ok(x) => x,
            Err(e) => return Err(e),
        };
        Ok(NfsFsLocation { server: v0, pathname: v1 })
    }
}

#[derive(Clone, Debug)]
pub struct NfsFsLocations {
    root: NfsPathName,
    locations: Vec<NfsFsLocation>,
}

/// The deep view of [`NfsFsLocations`].
pub struct SpecNfsFsLocations {
    pub root: Seq<Seq<u8>>,
    pub locations: Seq<SpecNfsFsLocation>,
}

impl DeepView for NfsFsLocations {
    type V = SpecNfsFsLocations;

    closed spec fn deep_view(&self) -> SpecNfsFsLocations {
        SpecNfsFsLocations { root: self.root.deep_view(), locations: self.locations.deep_view() }
    }
}

impl XdrSerialize for NfsFsLocations {
    open spec fn spec_emit(v: SpecNfsFsLocations) -> Emit {
        <NfsPathName as XdrSerialize>::spec_emit(v.root).and_then(spec_vec_emit::<NfsFsLocation>(v.locations))
    }

    fn serialize(&self, dest: &mut Vec<u8>) -> (r: Result<(), XdrError>) {
        match self.root.serialize(dest) {
            Ok(()) => {},
            Err(e) => return Err(e),
        }
        serialize_vec_of(dest, &self.locations)
    }
}

/// Reading a [`NfsFsLocations`]: each field in turn.
#[verifier::opaque]
pub open spec fn spec_parse_nfs_fs_locations(data: Seq<u8>, pos: int) -> Parse<SpecNfsFsLocations> {
    match <NfsPathName as XdrDeserialize>::spec_parse(data, pos) {
        Parse::Done(v0, p1) => match spec_vec_parse::<NfsFsLocation>(data, p1) {
            Parse::Done(v1, p2) => Parse::Done(SpecNfsFsLocations { root: v0, locations: v1 }, p2),
            Parse::Fails(e, q) => Parse::Fails(e, q),
        },
        Parse::Fails(e, q) => Parse::Fails(e, q),
    }
}

impl XdrDeserialize for NfsFsLocations {
    open spec fn spec_parse(data: Seq<u8>, pos: int) -> Parse<SpecNfsFsLocations> {
        spec_parse_nfs_fs_locations(data, pos)
    }

    fn deserialize(src: &mut XdrReader) -> (r: Result<NfsFsLocations, XdrError>) {
        proof {
            reveal(spec_parse_nfs_fs_locations);
        }
        let v0 = match <NfsPathName as XdrDeserialize>::deserialize(src) {
            Ok(x) => x,
            Err(e) => return Err(e),
        };
        let v1 = match deserialize_vec::<NfsFsLocation>(src) {
            Ok(x) => x,
            Err(e) => return Err(e),
        };
        Ok(NfsFsLocations { root: v0, locations: v1 })
    }
}

pub type NfsAceType = u32;

pub type NfsAceFlag = u32;

pub type NfsAceMask = u32;

#[derive(Clone, Debug)]
pub struct NfsAce {
    typ: NfsAceType,
    flag: NfsAceFlag,
    access_mask: NfsAceMask,
    who: Utf8StringMixed,
}

/// The deep view of [`NfsAce`].
pub struct SpecNfsAce {
    pub typ: u32,
    pub flag: u32,
    pub access_mask: u32,
    pub who: Seq<u8>,
}

impl DeepView for NfsAce {
    type V = SpecNfsAce;

    closed spec fn deep_view(&self) -> SpecNfsAce {
        SpecNfsAce { typ: self.typ.deep_view(), flag: self.flag.deep_view(), access_mask: self.access_mask.deep_view(), who: self.who.deep_view() }
    }
}

impl XdrSerialize for NfsAce {
    open spec fn spec_emit(v: SpecNfsAce) -> Emit {
        <NfsAceType as XdrSerialize>::spec_emit(v.typ).and_then(<NfsAceFlag as XdrSerialize>::spec_emit(v.flag)).and_then(<NfsAceMask as XdrSerialize>::spec_emit(v.access_mask)).and_then(<Utf8StringMixed as XdrSerialize>::spec_emit(v.who))
    }

    fn serialize(&self, dest: &mut Vec<u8>) -> (r: Result<(), XdrError>) {
        match self.typ.serialize(dest) {
            Ok(()) => {},
            Err(e) => return Err(e),
        }
        match self.flag.serialize(dest) {
            Ok(()) => {},
            Err(e) => return Err(e),
        }
        match self.access_mask.serialize(dest) {
            Ok(()) => {},
            Err(e) => return Err(e),
        }
        self.who.serialize(dest)
    }
}

/// Reading a [`NfsAce`]: each field in turn.
#[verifier::opaque]
pub open spec fn spec_parse_nfs_ace(data: Seq<u8>, pos: int) -> Parse<SpecNfsAce> {
    match <NfsAceType as XdrDeserialize>::spec_parse(data, pos) {
        Parse::Done(v0, p1) => match <NfsAceFlag as XdrDeserialize>::spec_parse(data, p1) {
            Parse::Done(v1, p2) => match <NfsAceMask as XdrDeserialize>::spec_parse(data, p2) {
                Parse::Done(v2, p3) => match <Utf8StringMixed as XdrDeserialize>::spec_parse(data, p3) {
                    Parse::Done(v3, p4) => Parse::Done(SpecNfsAce { typ: v0, flag: v1, access_mask: v2, who: v3 }, p4),
                    Parse::Fails(e, q) => Parse::Fails(e, q),
                },
                Parse::Fails(e, q) => Parse::Fails(e, q),
            },
            Parse::Fails(e, q) => Parse::Fails(e, q),
        },
        Parse::Fails(e, q) => Parse::Fails(e, q),
    }
}

impl XdrDeserialize for NfsAce {
    open spec fn spec_parse(data: Seq<u8>, pos: int) -> Parse<SpecNfsAce> {
        spec_parse_nfs_ace(data, pos)
    }

    fn deserialize(src: &mut XdrReader) -> (r: Result<NfsAce, XdrError>) {
        proof {
            reveal(spec_parse_nfs_ace);
        }
        let v0 = match <NfsAceType as XdrDeserialize>::deserialize(src) {
            Ok(x) => x,
            Err(e) => return Err(e),
        };
        let v1 = match <NfsAceFlag as XdrDeserialize>::deserialize(src) {
            Ok(x) => x,
            Err(e) => return Err(e),
        };
        let v2 = match <NfsAceMask as XdrDeserialize>::deserialize(src) {
            Ok(x) => x,
            Err(e) => return Err(e),
        };
        let v3 = match <Utf8StringMixed as XdrDeserialize>::deserialize(src) {
            Ok(x) => x,
            Err(e) => return Err(e),
        };
        Ok(NfsAce { typ: v0, flag: v1, access_mask: v2, who: v3 })
    }
}

pub type NfsAclFlag = u32;

pub struct NfsAcl {
    flag: NfsAclFlag,
    aces: Vec<NfsAce>,
}

/// The deep view of [`NfsAcl`].
pub struct SpecNfsAcl {
    pub flag: u32,
    pub aces: Seq<SpecNfsAce>,
}

impl DeepView for NfsAcl {
    type V = SpecNfsAcl;

    closed spec fn deep_view(&self) -> SpecNfsAcl {
        SpecNfsAcl { flag: self.flag.deep_view(), aces: self.aces.deep_view() }
    }
}

impl XdrSerialize for NfsAcl {
    open spec fn spec_emit(v: SpecNfsAcl) -> Emit {
        <NfsAclFlag as XdrSerialize>::spec_emit(v.flag).and_then(spec_vec_emit::<NfsAce>(v.aces))
    }

    fn serialize(&self, dest: &mut Vec<u8>) -> (r: Result<(), XdrError>) {
        match self.flag.serialize(dest) {
            Ok(()) => {},
            Err(e) => return Err(e),
        }
        serialize_vec_of(dest, &self.aces)
    }
}

/// Reading a [`NfsAcl`]: each field in turn.
#[verifier::opaque]
pub open spec fn spec_parse_nfs_acl(data: Seq<u8>, pos: int) -> Parse<SpecNfsAcl> {
    match <NfsAclFlag as XdrDeserialize>::spec_parse(data, pos) {
        Parse::Done(v0, p1) => match spec_vec_parse::<NfsAce>(data, p1) {
            Parse::Done(v1, p2) => Parse::Done(SpecNfsAcl { flag: v0, aces: v1 }, p2),
            Parse::Fails(e, q) => Parse::Fails(e, q),
        },
        Parse::Fails(e, q) => Parse::Fails(e, q),
    }
}

impl XdrDeserialize for NfsAcl {
    open spec fn spec_parse(data: Seq<u8>, pos: int) -> Parse<SpecNfsAcl> {
        spec_parse_nfs_acl(data, pos)
    }

    fn deserialize(src: &mut XdrReader) -> (r: Result<NfsAcl, XdrError>) {
        proof {
            reveal(spec_parse_nfs_acl);
        }
        let v0 = match <NfsAclFlag as XdrDeserialize>::deserialize(src) {
            Ok(x) => x,
            Err(e) => return Err(e),
        };
        let v1 = match deserialize_vec::<NfsAce>(src) {
            Ok(x) => x,
            Err(e) => return Err(e),
        };
        Ok(NfsAcl { flag: v0, aces: v1 })
    }
}

#[derive(Clone, Copy, Debug)]
pub struct NfsModeMasked {
    pub value_to_set: u32,
    pub mask_bits: u32,
}

impl DeepView for NfsModeMasked {
    type V = NfsModeMasked;

    open spec fn deep_view(&self) -> NfsModeMasked {
        NfsModeMasked { value_to_set: self.value_to_set.deep_view(), mask_bits: self.mask_bits.deep_view() }
    }
}

impl XdrSerialize for NfsModeMasked {
    open spec fn spec_emit(v: NfsModeMasked) -> Emit {
        <u32 as XdrSerialize>::spec_emit(v.value_to_set).and_then(<u32 as XdrSerialize>::spec_emit(v.mask_bits))
    }

    fn serialize(&self, dest: &mut Vec<u8>) -> (r: Result<(), XdrError>) {
        match self.value_to_set.serialize(dest) {
            Ok(()) => {},
            Err(e) => return Err(e),
        }
        self.mask_bits.serialize(dest)
    }
}

/// Reading a [`NfsModeMasked`]: each field in turn.
#[verifier::opaque]
pub open spec fn spec_parse_nfs_mode_masked(data: Seq<u8>, pos: int) -> Parse<NfsModeMasked> {
    match <u32 as XdrDeserialize>::spec_parse(data, pos) {
        Parse::Done(v0, p1) => match <u32 as XdrDeserialize>::spec_parse(data, p1) {
            Parse::Done(v1, p2) => Parse::Done(NfsModeMasked { value_to_set: v0, mask_bits: v1 }, p2),
            Parse::Fails(e, q) => Parse::Fails(e, q),
        },
        Parse::Fails(e, q) => Parse::Fails(e, q),
    }
}

impl XdrDeserialize for NfsModeMasked {
    open spec fn spec_parse(data: Seq<u8>, pos: int) -> Parse<NfsModeMasked> {
        spec_parse_nfs_mode_masked(data, pos)
    }

    fn deserialize(src: &mut XdrReader) -> (r: Result<NfsModeMasked, XdrError>) {
        proof {
            reveal(spec_parse_nfs_mode_masked);
        }
        let v0 = match <u32 as XdrDeserialize>::deserialize(src) {
            Ok(x) => x,
            Err(e) => return Err(e),
        };
        let v1 = match <u32 as XdrDeserialize>::deserialize(src) {
            Ok(x) => x,
            Err(e) => return Err(e),
        };
        Ok(NfsModeMasked { value_to_set: v0, mask_bits: v1 })
    }
}

#[derive(Clone, Copy, Debug)]
pub struct NfsSpecData {
    pub specdata1: u32,
    pub specdata2: u32,
}

impl DeepView for NfsSpecData {
    type V = NfsSpecData;

    open spec fn deep_view(&self) -> NfsSpecData {
        NfsSpecData { specdata1: self.specdata1.deep_view(), specdata2: self.specdata2.deep_view() }
    }
}

impl XdrSerialize for NfsSpecData {
    /// Writes `specdata1`, then `specdata1`.
    open spec fn spec_emit(v: NfsSpecData) -> Emit {
        <u32 as XdrSerialize>::spec_emit(v.specdata1).and_then(<u32 as XdrSerialize>::spec_emit(v.specdata1))
    }

    fn serialize(&self, dest: &mut Vec<u8>) -> (r: Result<(), XdrError>) {
        match self.specdata1.serialize(dest) {
            Ok(()) => {},
            Err(e) => return Err(e),
        }
        self.specdata1.serialize(dest)
    }
}

/// Reading a [`NfsSpecData`]: each field in turn.
#[verifier::opaque]
pub open spec fn spec_parse_nfs_spec_data(data: Seq<u8>, pos: int) -> Parse<NfsSpecData> {
    match <u32 as XdrDeserialize>::spec_parse(data, pos) {
        Parse::Done(v0, p1) => match <u32 as XdrDeserialize>::spec_parse(data, p1) {
            Parse::Done(v1, p2) => Parse::Done(NfsSpecData { specdata1: v0, specdata2: v1 }, p2),
            Parse::Fails(e, q) => Parse::Fails(e, q),
        },
        Parse::Fails(e, q) => Parse::Fails(e, q),
    }
}

impl XdrDeserialize for NfsSpecData {
    open spec fn spec_parse(data: Seq<u8>, pos: int) -> Parse<NfsSpecData> {
        spec_parse_nfs_spec_data(data, pos)
    }

    fn deserialize(src: &mut XdrReader) -> (r: Result<NfsSpecData, XdrError>) {
        proof {
            reveal(spec_parse_nfs_spec_data);
        }
        let v0 = match <u32 as XdrDeserialize>::deserialize(src) {
            Ok(x) => x,
            Err(e) => return Err(e),
        };
        let v1 = match <u32 as XdrDeserialize>::deserialize(src) {
            Ok(x) => x,
            Err(e) => return Err(e),
        };
        Ok(NfsSpecData { specdata1: v0, specdata2: v1 })
    }
}

pub struct NetAddress {
    netid: Vec<u8>,
    addr: Vec<u8>,
}

/// The deep view of [`NetAddress`].
pub struct SpecNetAddress {
    pub netid: Seq<u8>,
    pub addr: Seq<u8>,
}

impl DeepView for NetAddress {
    type V = SpecNetAddress;

    closed spec fn deep_view(&self) -> SpecNetAddress {
        SpecNetAddress { netid: self.netid.deep_view(), addr: self.addr.deep_view() }
    }
}

impl XdrSerialize for NetAddress {
    open spec fn spec_emit(v: SpecNetAddress) -> Emit {
        <Vec<u8> as XdrSerialize>::spec_emit(v.netid).and_then(<Vec<u8> as XdrSerialize>::spec_emit(v.addr))
    }

    fn serialize(&self, dest: &mut Vec<u8>) -> (r: Result<(), XdrError>) {
        match self.netid.serialize(dest) {
            Ok(()) => {},
            Err(e) => return Err(e),
        }
        self.addr.serialize(dest)
    }
}

/// Reading a [`NetAddress`]: each field in turn.
#[verifier::opaque]
pub open spec fn spec_parse_net_address(data: Seq<u8>, pos: int) -> Parse<SpecNetAddress> {
    match <Vec<u8> as XdrDeserialize>::spec_parse(data, pos) {
        Parse::Done(v0, p1) => match <Vec<u8> as XdrDeserialize>::spec_parse(data, p1) {
            Parse::Done(v1, p2) => Parse::Done(SpecNetAddress { netid: v0, addr: v1 }, p2),
            Parse::Fails(e, q) => Parse::Fails(e, q),
        },
        Parse::Fails(e, q) => Parse::Fails(e, q),
    }
}

impl XdrDeserialize for NetAddress {
    open spec fn spec_parse(data: Seq<u8>, pos: int) -> Parse<SpecNetAddress> {
        spec_parse_net_address(data, pos)
    }

    fn deserialize(src: &mut XdrReader) -> (r: Result<NetAddress, XdrError>) {
        proof {
            reveal(spec_parse_net_address);
        }
        let v0 = match <Vec<u8> as XdrDeserialize>::deserialize(src) {
            Ok(x) => x,
            Err(e) => return Err(e),
        };
        let v1 = match <Vec<u8> as XdrDeserialize>::deserialize(src) {
            Ok(x) => x,
            Err(e) => return Err(e),
        };
        Ok(NetAddress { netid: v0, addr: v1 })
    }
}

#[derive(Debug)]
pub struct NfsImplId {
    domain: Utf8StringCaseInsensitive,
    name: Utf8StringCaseSensitive,
    date: NfsTime,
}

/// The deep view of [`NfsImplId`].
pub struct SpecNfsImplId {
    pub domain: Seq<u8>,
    pub name: Seq<u8>,
    pub date: NfsTime,
}

impl DeepView for NfsImplId {
    type V = SpecNfsImplId;

    closed spec fn deep_view(&self) -> SpecNfsImplId {
        SpecNfsImplId { domain: self.domain.deep_view(), name: self.name.deep_view(), date: self.date.deep_view() }
    }
}

impl XdrSerialize for NfsImplId {
    open spec fn spec_emit(v: SpecNfsImplId) -> Emit {
        <Utf8StringCaseInsensitive as XdrSerialize>::spec_emit(v.domain).and_then(<Utf8StringCaseSensitive as XdrSerialize>::spec_emit(v.name)).and_then(<NfsTime as XdrSerialize>::spec_emit(v.date))
    }

    fn serialize(&self, dest: &mut Vec<u8>) -> (r: Result<(), XdrError>) {
        match self.domain.serialize(dest) {
            Ok(()) => {},
            Err(e) => return Err(e),
        }
        match self.name.serialize(dest) {
            Ok(()) => {},
            Err(e) => return Err(e),
        }
        self.date.serialize(dest)
    }
}

/// Reading a [`NfsImplId`]: each field in turn.
#[verifier::opaque]
pub open spec fn spec_parse_nfs_impl_id(data: Seq<u8>, pos: int) -> Parse<SpecNfsImplId> {
    match <Utf8StringCaseInsensitive as XdrDeserialize>::spec_parse(data, pos) {
        Parse::Done(v0, p1) => match <Utf8StringCaseSensitive as XdrDeserialize>::spec_parse(data, p1) {
            Parse::Done(v1, p2) => match <NfsTime as XdrDeserialize>::spec_parse(data, p2) {
                Parse::Done(v2, p3) => Parse::Done(SpecNfsImplId { domain: v0, name: v1, date: v2 }, p3),
                Parse::Fails(e, q) => Parse::Fails(e, q),
            },
            Parse::Fails(e, q) => Parse::Fails(e, q),
        },
        Parse::Fails(e, q) => Parse::Fails(e, q),
    }
}

impl XdrDeserialize for NfsImplId {
    open spec fn spec_parse(data: Seq<u8>, pos: int) -> Parse<SpecNfsImplId> {
        spec_parse_nfs_impl_id(data, pos)
    }

    fn deserialize(src: &mut XdrReader) -> (r: Result<NfsImplId, XdrError>) {
        proof {
            reveal(spec_parse_nfs_impl_id);
        }
        let v0 = match <Utf8StringCaseInsensitive as XdrDeserialize>::deserialize(src) {
            Ok(x) => x,
            Err(e) => return Err(e),
        };
        let v1 = match <Utf8StringCaseSensitive as XdrDeserialize>::deserialize(src) {
            Ok(x) => x,
            Err(e) => return Err(e),
        };
        let v2 = match <NfsTime as XdrDeserialize>::deserialize(src) {
            Ok(x) => x,
            Err(e) => return Err(e),
        };
        Ok(NfsImplId { domain: v0, name: v1, date: v2 })
    }
}

#[derive(Debug)]
pub struct StateId {
    seqid: SeqId,
    other: [u8; 12],
}

/// The deep view of [`StateId`].
pub struct SpecStateId {
    pub seqid: u32,
    pub other: Seq<u8>,
}

impl DeepView for StateId {
    type V = SpecStateId;

    closed spec fn deep_view(&self) -> SpecStateId {
        SpecStateId { seqid: self.seqid.deep_view(), other: self.other.deep_view() }
    }
}

impl XdrSerialize for StateId {
    open spec fn spec_emit(v: SpecStateId) -> Emit {
        <SeqId as XdrSerialize>::spec_emit(v.seqid).and_then(<[u8; 12] as XdrSerialize>::spec_emit(v.other))
    }

    fn serialize(&self, dest: &mut Vec<u8>) -> (r: Result<(), XdrError>) {
        match self.seqid.serialize(dest) {
            Ok(()) => {},
            Err(e) => return Err(e),
        }
        self.other.serialize(dest)
    }
}

/// Reading a [`StateId`]: each field in turn.
#[verifier::opaque]
pub open spec fn spec_parse_state_id(data: Seq<u8>, pos: int) -> Parse<SpecStateId> {
    match <SeqId as XdrDeserialize>::spec_parse(data, pos) {
        Parse::Done(v0, p1) => match <[u8; 12] as XdrDeserialize>::spec_parse(data, p1) {
            Parse::Done(v1, p2) => Parse::Done(SpecStateId { seqid: v0, other: v1 }, p2),
            Parse::Fails(e, q) => Parse::Fails(e, q),
        },
        Parse::Fails(e, q) => Parse::Fails(e, q),
    }
}

impl XdrDeserialize for StateId {
    open spec fn spec_parse(data: Seq<u8>, pos: int) -> Parse<SpecStateId> {
        spec_parse_state_id(data, pos)
    }

    fn deserialize(src: &mut XdrReader) -> (r: Result<StateId, XdrError>) {
        proof {
            reveal(spec_parse_state_id);
        }
        let v0 = match <SeqId as XdrDeserialize>::deserialize(src) {
            Ok(x) => x,
            Err(e) => return Err(e),
        };
        let v1 = match <[u8; 12] as XdrDeserialize>::deserialize(src) {
            Ok(x) => x,
            Err(e) => return Err(e),
        };
        Ok(StateId { seqid: v0, other: v1 })
    }
}

#[derive(Clone, Copy, Debug, PartialEq, Eq, Structural)]
pub enum NfsLayoutType {
    NfsV41Files,
    Osd2Objects,
    BlockVolume,
}

impl DeepView for NfsLayoutType {
    type V = NfsLayoutType;

    open spec fn deep_view(&self) -> NfsLayoutType {
        *self
    }
}

impl NfsLayoutType {
    /// The number that stands for the value.
    pub open spec fn spec_to_u32(self) -> u32 {
        match self {
            NfsLayoutType::NfsV41Files => 1,
            NfsLayoutType::Osd2Objects => 2,
            NfsLayoutType::BlockVolume => 3,
        }
    }

    /// The value that a number stands for, if any.
    pub open spec fn spec_from_u32(n: u32) -> Option<NfsLayoutType> {
        if n == 1 {
            Some(NfsLayoutType::NfsV41Files)
        } else if n == 2 {
            Some(NfsLayoutType::Osd2Objects)
        } else if n == 3 {
            Some(NfsLayoutType::BlockVolume)
        } else {
            None
        }
    }

    /// The number that stands for the value.
    pub fn to_u32(&self) -> (n: u32)
        ensures
            n == self.spec_to_u32(),
    {
        match self {
            NfsLayoutType::NfsV41Files => 1,
            NfsLayoutType::Osd2Objects => 2,
            NfsLayoutType::BlockVolume => 3,
        }
    }

    /// The value that `n` stands for, if any.
    pub fn from_u32(n: u32) -> (r: Option<NfsLayoutType>)
        ensures
            r == NfsLayoutType::spec_from_u32(n),
    {
        match n {
            1 => Some(NfsLayoutType::NfsV41Files),
            2 => Some(NfsLayoutType::Osd2Objects),
            3 => Some(NfsLayoutType::BlockVolume),
            _ => None,
        }
    }
}

impl XdrSerialize for NfsLayoutType {
    /// The number, as a `u32`.
    open spec fn spec_emit(v: NfsLayoutType) -> Emit {
        spec_u32_emit(v.spec_to_u32())
    }

    fn serialize(&self, dest: &mut Vec<u8>) -> (r: Result<(), XdrError>) {
        let n: u32 = self.to_u32();
        let r = n.serialize(dest);
        assert(Self::spec_emit(self.deep_view()) == spec_u32_emit(n));
        r
    }
}

impl XdrDeserialize for NfsLayoutType {
    /// A number that stands for no value is invalid data.
    open spec fn spec_parse(data: Seq<u8>, pos: int) -> Parse<NfsLayoutType> {
        match spec_u32_parse(data, pos) {
            Parse::Done(n, p) => match NfsLayoutType::spec_from_u32(n) {
                Some(x) => Parse::Done(x, p),
                None => Parse::Fails(XdrError::InvalidData, p),
            },
            Parse::Fails(e, p) => Parse::Fails(e, p),
        }
    }

    fn deserialize(src: &mut XdrReader) -> (r: Result<NfsLayoutType, XdrError>) {
        let n = match u32::deserialize(src) {
            Ok(n) => n,
            Err(e) => return Err(e),
        };
        match NfsLayoutType::from_u32(n) {
            Some(x) => Ok(x),
            None => Err(XdrError::InvalidData),
        }
    }
}

#[derive(Debug)]
pub struct LayoutContent {
    typ: NfsLayoutType,
    body: XdrOpaque,
}

/// The deep view of [`LayoutContent`].
pub struct SpecLayoutContent {
    pub typ: NfsLayoutType,
    pub body: Seq<u8>,
}

impl DeepView for LayoutContent {
    type V = SpecLayoutContent;

    closed spec fn deep_view(&self) -> SpecLayoutContent {
        SpecLayoutContent { typ: self.typ.deep_view(), body: self.body.deep_view() }
    }
}

impl XdrSerialize for LayoutContent {
    open spec fn spec_emit(v: SpecLayoutContent) -> Emit {
        <NfsLayoutType as XdrSerialize>::spec_emit(v.typ).and_then(<XdrOpaque as XdrSerialize>::spec_emit(v.body))
    }

    fn serialize(&self, dest: &mut Vec<u8>) -> (r: Result<(), XdrError>) {
        match self.typ.serialize(dest) {
            Ok(()) => {},
            Err(e) => return Err(e),
        }
        self.body.serialize(dest)
    }
}

/// Reading a [`LayoutContent`]: each field in turn.
#[verifier::opaque]
pub open spec fn spec_parse_layout_content(data: Seq<u8>, pos: int) -> Parse<SpecLayoutContent> {
    match <NfsLayoutType as XdrDeserialize>::spec_parse(data, pos) {
        Parse::Done(v0, p1) => match <XdrOpaque as XdrDeserialize>::spec_parse(data, p1) {
            Parse::Done(v1, p2) => Parse::Done(SpecLayoutContent { typ: v0, body: v1 }, p2),
            Parse::Fails(e, q) => Parse::Fails(e, q),
        },
        Parse::Fails(e, q) => Parse::Fails(e, q),
    }
}

impl XdrDeserialize for LayoutContent {
    open spec fn spec_parse(data: Seq<u8>, pos: int) -> Parse<SpecLayoutContent> {
        spec_parse_layout_content(data, pos)
    }

    fn deserialize(src: &mut XdrReader) -> (r: Result<LayoutContent, XdrError>) {
        proof {
            reveal(spec_parse_layout_content);
        }
        let v0 = match <NfsLayoutType as XdrDeserialize>::deserialize(src) {
            Ok(x) => x,
            Err(e) => return Err(e),
        };
        let v1 = match <XdrOpaque as XdrDeserialize>::deserialize(src) {
            Ok(x) => x,
            Err(e) => return Err(e),
        };
        Ok(LayoutContent { typ: v0, body: v1 })
    }
}

#[derive(Clone, Debug)]
pub struct NfsLayoutHint {
    typ: NfsLayoutType,
    body: XdrOpaque,
}

/// The deep view of [`NfsLayoutHint`].
pub struct SpecNfsLayoutHint {
    pub typ: NfsLayoutType,
    pub body: Seq<u8>,
}

impl DeepView for NfsLayoutHint {
    type V = SpecNfsLayoutHint;

    closed spec fn deep_view(&self) -> SpecNfsLayoutHint {
        SpecNfsLayoutHint { typ: self.typ.deep_view(), body: self.body.deep_view() }
    }
}

impl XdrSerialize for NfsLayoutHint {
    open spec fn spec_emit(v: SpecNfsLayoutHint) -> Emit {
        <NfsLayoutType as XdrSerialize>::spec_emit(v.typ).and_then(<XdrOpaque as XdrSerialize>::spec_emit(v.body))
    }

    fn serialize(&self, dest: &mut Vec<u8>) -> (r: Result<(), XdrError>) {
        match self.typ.serialize(dest) {
            Ok(()) => {},
            Err(e) => return Err(e),
        }
        self.body.serialize(dest)
    }
}

/// Reading a [`NfsLayoutHint`]: each field in turn.
#[verifier::opaque]
pub open spec fn spec_parse_nfs_layout_hint(data: Seq<u8>, pos: int) -> Parse<SpecNfsLayoutHint> {
    match <NfsLayoutType as XdrDeserialize>::spec_parse(data, pos) {
        Parse::Done(v0, p1) => match <XdrOpaque as XdrDeserialize>::spec_parse(data, p1) {
            Parse::Done(v1, p2) => Parse::Done(SpecNfsLayoutHint { typ: v0, body: v1 }, p2),
            Parse::Fails(e, q) => Parse::Fails(e, q),
        },
        Parse::Fails(e, q) => Parse::Fails(e, q),
    }
}

impl XdrDeserialize for NfsLayoutHint {
    open spec fn spec_parse(data: Seq<u8>, pos: int) -> Parse<SpecNfsLayoutHint> {
        spec_parse_nfs_layout_hint(data, pos)
    }

    fn deserialize(src: &mut XdrReader) -> (r: Result<NfsLayoutHint, XdrError>) {
        proof {
            reveal(spec_parse_nfs_layout_hint);
        }
        let v0 = match <NfsLayoutType as XdrDeserialize>::deserialize(src) {
            Ok(x) => x,
            Err(e) => return Err(e),
        };
        let v1 = match <XdrOpaque as XdrDeserialize>::deserialize(src) {
            Ok(x) => x,
            Err(e) => return Err(e),
        };
        Ok(NfsLayoutHint { typ: v0, body: v1 })
    }
}

#[derive(Clone, Copy, Debug, PartialEq, Eq, Structural)]
pub enum LayoutIoMode {
    Read,
    Rw,
    Any,
}

impl DeepView for LayoutIoMode {
    type V = LayoutIoMode;

    open spec fn deep_view(&self) -> LayoutIoMode {
        *self
    }
}

impl LayoutIoMode {
    /// The number that stands for the value.
    pub open spec fn spec_to_u32(self) -> u32 {
        match self {
            LayoutIoMode::Read => 1,
            LayoutIoMode::Rw => 2,
            LayoutIoMode::Any => 3,
        }
    }

    /// The value that a number stands for, if any.
    pub open spec fn spec_from_u32(n: u32) -> Option<LayoutIoMode> {
        if n == 1 {
            Some(LayoutIoMode::Read)
        } else if n == 2 {
            Some(LayoutIoMode::Rw)
        } else if n == 3 {
            Some(LayoutIoMode::Any)
        } else {
            None
        }
    }

    /// The number that stands for the value.
    pub fn to_u32(&self) -> (n: u32)
        ensures
            n == self.spec_to_u32(),
    {
        match self {
            LayoutIoMode::Read => 1,
            LayoutIoMode::Rw => 2,
            LayoutIoMode::Any => 3,
        }
    }

    /// The value that `n` stands for, if any.
    pub fn from_u32(n: u32) -> (r: Option<LayoutIoMode>)
        ensures
            r == LayoutIoMode::spec_from_u32(n),
    {
        match n {
            1 => Some(LayoutIoMode::Read),
            2 => Some(LayoutIoMode::Rw),
            3 => Some(LayoutIoMode::Any),
            _ => None,
        }
    }
}

impl XdrSerialize for LayoutIoMode {
    /// The number, as a `u32`.
    open spec fn spec_emit(v: LayoutIoMode) -> Emit {
        spec_u32_emit(v.spec_to_u32())
    }

    fn serialize(&self, dest: &mut Vec<u8>) -> (r: Result<(), XdrError>) {
        let n: u32 = self.to_u32();
        let r = n.serialize(dest);
        assert(Self::spec_emit(self.deep_view()) == spec_u32_emit(n));
        r
    }
}

impl XdrDeserialize for LayoutIoMode {
    /// A number that stands for no value is invalid data.
    open spec fn spec_parse(data: Seq<u8>, pos: int) -> Parse<LayoutIoMode> {
        match spec_u32_parse(data, pos) {
            Parse::Done(n, p) => match LayoutIoMode::spec_from_u32(n) {
                Some(x) => Parse::Done(x, p),
                None => Parse::Fails(XdrError::InvalidData, p),
            },
            Parse::Fails(e, p) => Parse::Fails(e, p),
        }
    }

    fn deserialize(src: &mut XdrReader) -> (r: Result<LayoutIoMode, XdrError>) {
        let n = match u32::deserialize(src) {
            Ok(n) => n,
            Err(e) => return Err(e),
        };
        match LayoutIoMode::from_u32(n) {
            Some(x) => Ok(x),
            None => Err(XdrError::InvalidData),
        }
    }
}

#[derive(Debug)]
pub struct Layout {
    offset: Offset,
    length: Length,
    io_mode: LayoutIoMode,
    content: LayoutContent,
}

/// The deep view of [`Layout`].
pub struct SpecLayout {
    pub offset: u64,
    pub length: u64,
    pub io_mode: LayoutIoMode,
    pub content: SpecLayoutContent,
}

impl DeepView for Layout {
    type V = SpecLayout;

    closed spec fn deep_view(&self) -> SpecLayout {
        SpecLayout { offset: self.offset.deep_view(), length: self.length.deep_view(), io_mode: self.io_mode.deep_view(), content: self.content.deep_view() }
    }
}

impl XdrSerialize for Layout {
    open spec fn spec_emit(v: SpecLayout) -> Emit {
        <Offset as XdrSerialize>::spec_emit(v.offset).and_then(<Length as XdrSerialize>::spec_emit(v.length)).and_then(<LayoutIoMode as XdrSerialize>::spec_emit(v.io_mode)).and_then(<LayoutContent as XdrSerialize>::spec_emit(v.content))
    }

    fn serialize(&self, dest: &mut Vec<u8>) -> (r: Result<(), XdrError>) {
        match self.offset.serialize(dest) {
            Ok(()) => {},
            Err(e) => return Err(e),
        }
        match self.length.serialize(dest) {
            Ok(()) => {},
            Err(e) => return Err(e),
        }
        match self.io_mode.serialize(dest) {
            Ok(()) => {},
            Err(e) => return Err(e),
        }
        self.content.serialize(dest)
    }
}

/// Reading a [`Layout`]: each field in turn.
#[verifier::opaque]
pub open spec fn spec_parse_layout(data: Seq<u8>, pos: int) -> Parse<SpecLayout> {
    match <Offset as XdrDeserialize>::spec_parse(data, pos) {
        Parse::Done(v0, p1) => match <Length as XdrDeserialize>::spec_parse(data, p1) {
            Parse::Done(v1, p2) => match <LayoutIoMode as XdrDeserialize>::spec_parse(data, p2) {
                Parse::Done(v2, p3) => match <LayoutContent as XdrDeserialize>::spec_parse(data, p3) {
                    Parse::Done(v3, p4) => Parse::Done(SpecLayout { offset: v0, length: v1, io_mode: v2, content: v3 }, p4),
                    Parse::Fails(e, q) => Parse::Fails(e, q),
                },
                Parse::Fails(e, q) => Parse::Fails(e, q),
            },
            Parse::Fails(e, q) => Parse::Fails(e, q),
        },
        Parse::Fails(e, q) => Parse::Fails(e, q),
    }
}

impl XdrDeserialize for Layout {
    open spec fn spec_parse(data: Seq<u8>, pos: int) -> Parse<SpecLayout> {
        spec_parse_layout(data, pos)
    }

    fn deserialize(src: &mut XdrReader) -> (r: Result<Layout, XdrError>) {
        proof {
            reveal(spec_parse_layout);
        }
        let v0 = match <Offset as XdrDeserialize>::deserialize(src) {
            Ok(x) => x,
            Err(e) => return Err(e),
        };
        let v1 = match <Length as XdrDeserialize>::deserialize(src) {
            Ok(x) => x,
            Err(e) => return Err(e),
        };
        let v2 = match <LayoutIoMode as XdrDeserialize>::deserialize(src) {
            Ok(x) => x,
            Err(e) => return Err(e),
        };
        let v3 = match <LayoutContent as XdrDeserialize>::deserialize(src) {
            Ok(x) => x,
            Err(e) => return Err(e),
        };
        Ok(Layout { offset: v0, length: v1, io_mode: v2, content: v3 })
    }
}

pub type DeviceId = [u8; NFS_DEVICEID_SIZE];

#[derive(Debug)]
pub struct DeviceAddress {
    layout_type: NfsLayoutType,
    addr_body: XdrOpaque,
}

/// The deep view of [`DeviceAddress`].
pub struct SpecDeviceAddress {
    pub layout_type: NfsLayoutType,
    pub addr_body: Seq<u8>,
}

impl DeepView for DeviceAddress {
    type V = SpecDeviceAddress;

    closed spec fn deep_view(&self) -> SpecDeviceAddress {
        SpecDeviceAddress { layout_type: self.layout_type.deep_view(), addr_body: self.addr_body.deep_view() }
    }
}

impl XdrSerialize for DeviceAddress {
    open spec fn spec_emit(v: SpecDeviceAddress) -> Emit {
        <NfsLayoutType as XdrSerialize>::spec_emit(v.layout_type).and_then(<XdrOpaque as XdrSerialize>::spec_emit(v.addr_body))
    }

    fn serialize(&self, dest: &mut Vec<u8>) -> (r: Result<(), XdrError>) {
        match self.layout_type.serialize(dest) {
            Ok(()) => {},
            Err(e) => return Err(e),
        }
        self.addr_body.serialize(dest)
    }
}

/// Reading a [`DeviceAddress`]: each field in turn.
#[verifier::opaque]
pub open spec fn spec_parse_device_address(data: Seq<u8>, pos: int) -> Parse<SpecDeviceAddress> {
    match <NfsLayoutType as XdrDeserialize>::spec_parse(data, pos) {
        Parse::Done(v0, p1) => match <XdrOpaque as XdrDeserialize>::spec_parse(data, p1) {
            Parse::Done(v1, p2) => Parse::Done(SpecDeviceAddress { layout_type: v0, addr_body: v1 }, p2),
            Parse::Fails(e, q) => Parse::Fails(e, q),
        },
        Parse::Fails(e, q) => Parse::Fails(e, q),
    }
}

impl XdrDeserialize for DeviceAddress {
    open spec fn spec_parse(data: Seq<u8>, pos: int) -> Parse<SpecDeviceAddress> {
        spec_parse_device_address(data, pos)
    }

    fn deserialize(src: &mut XdrReader) -> (r: Result<DeviceAddress, XdrError>) {
        proof {
            reveal(spec_parse_device_address);
        }
        let v0 = match <NfsLayoutType as XdrDeserialize>::deserialize(src) {
            Ok(x) => x,
            Err(e) => return Err(e),
        };
        let v1 = match <XdrOpaque as XdrDeserialize>::deserialize(src) {
            Ok(x) => x,
            Err(e) => return Err(e),
        };
        Ok(DeviceAddress { layout_type: v0, addr_body: v1 })
    }
}

#[derive(Debug)]
pub struct LayoutUpdate {
    typ: NfsLayoutType,
    body: XdrOpaque,
}

/// The deep view of [`LayoutUpdate`].
pub struct SpecLayoutUpdate {
    pub typ: NfsLayoutType,
    pub body: Seq<u8>,
}

impl DeepView for LayoutUpdate {
    type V = SpecLayoutUpdate;

    closed spec fn deep_view(&self) -> SpecLayoutUpdate {
        SpecLayoutUpdate { typ: self.typ.deep_view(), body: self.body.deep_view() }
    }
}

impl XdrSerialize for LayoutUpdate {
    open spec fn spec_emit(v: SpecLayoutUpdate) -> Emit {
        <NfsLayoutType as XdrSerialize>::spec_emit(v.typ).and_then(<XdrOpaque as XdrSerialize>::spec_emit(v.body))
    }

    fn serialize(&self, dest: &mut Vec<u8>) -> (r: Result<(), XdrError>) {
        match self.typ.serialize(dest) {
            Ok(()) => {},
            Err(e) => return Err(e),
        }
        self.body.serialize(dest)
    }
}

/// Reading a [`LayoutUpdate`]: each field in turn.
#[verifier::opaque]
pub open spec fn spec_parse_layout_update(data: Seq<u8>, pos: int) -> Parse<SpecLayoutUpdate> {
    match <NfsLayoutType as XdrDeserialize>::spec_parse(data, pos) {
        Parse::Done(v0, p1) => match <XdrOpaque as XdrDeserialize>::spec_parse(data, p1) {
            Parse::Done(v1, p2) => Parse::Done(SpecLayoutUpdate { typ: v0, body: v1 }, p2),
            Parse::Fails(e, q) => Parse::Fails(e, q),
        },
        Parse::Fails(e, q) => Parse::Fails(e, q),
    }
}

impl XdrDeserialize for LayoutUpdate {
    open spec fn spec_parse(data: Seq<u8>, pos: int) -> Parse<SpecLayoutUpdate> {
        spec_parse_layout_update(data, pos)
    }

    fn deserialize(src: &mut XdrReader) -> (r: Result<LayoutUpdate, XdrError>) {
        proof {
            reveal(spec_parse_layout_update);
        }
        let v0 = match <NfsLayoutType as XdrDeserialize>::deserialize(src) {
            Ok(x) => x,
            Err(e) => return Err(e),
        };
        let v1 = match <XdrOpaque as XdrDeserialize>::deserialize(src) {
            Ok(x) => x,
            Err(e) => return Err(e),
        };
        Ok(LayoutUpdate { typ: v0, body: v1 })
    }
}

#[derive(Clone, Copy, Debug, PartialEq, Eq, Structural)]
pub enum LayoutReturnType {
    File,
    FsId,
    All,
}

impl DeepView for LayoutReturnType {
    type V = LayoutReturnType;

    open spec fn deep_view(&self) -> LayoutReturnType {
        *self
    }
}

impl LayoutReturnType {
    /// The number that stands for the value.
    pub open spec fn spec_to_u32(self) -> u32 {
        match self {
            LayoutReturnType::File => LAYOUT_RET_REC_FILE,
            LayoutReturnType::FsId => LAYOUT_RET_REC_FSID,
            LayoutReturnType::All => LAYOUT_RET_REC_ALL,
        }
    }

    /// The value that a number stands for, if any.
    pub open spec fn spec_from_u32(n: u32) -> Option<LayoutReturnType> {
        if n == LAYOUT_RET_REC_FILE {
            Some(LayoutReturnType::File)
        } else if n == LAYOUT_RET_REC_FSID {
            Some(LayoutReturnType::FsId)
        } else if n == LAYOUT_RET_REC_ALL {
            Some(LayoutReturnType::All)
        } else {
            None
        }
    }

    /// The number that stands for the value.
    pub fn to_u32(&self) -> (n: u32)
        ensures
            n == self.spec_to_u32(),
    {
        match self {
            LayoutReturnType::File => LAYOUT_RET_REC_FILE,
            LayoutReturnType::FsId => LAYOUT_RET_REC_FSID,
            LayoutReturnType::All => LAYOUT_RET_REC_ALL,
        }
    }

    /// The value that `n` stands for, if any.
    pub fn from_u32(n: u32) -> (r: Option<LayoutReturnType>)
        ensures
            r == LayoutReturnType::spec_from_u32(n),
    {
        match n {
            LAYOUT_RET_REC_FILE => Some(LayoutReturnType::File),
            LAYOUT_RET_REC_FSID => Some(LayoutReturnType::FsId),
            LAYOUT_RET_REC_ALL => Some(LayoutReturnType::All),
            _ => None,
        }
    }
}

impl XdrSerialize for LayoutReturnType {
    /// The number, as a `u32`.
    open spec fn spec_emit(v: LayoutReturnType) -> Emit {
        spec_u32_emit(v.spec_to_u32())
    }

    fn serialize(&self, dest: &mut Vec<u8>) -> (r: Result<(), XdrError>) {
        let n: u32 = self.to_u32();
        let r = n.serialize(dest);
        assert(Self::spec_emit(self.deep_view()) == spec_u32_emit(n));
        r
    }
}

impl XdrDeserialize for LayoutReturnType {
    /// A number that stands for no value is invalid data.
    open spec fn spec_parse(data: Seq<u8>, pos: int) -> Parse<LayoutReturnType> {
        match spec_u32_parse(data, pos) {
            Parse::Done(n, p) => match LayoutReturnType::spec_from_u32(n) {
                Some(x) => Parse::Done(x, p),
                None => Parse::Fails(XdrError::InvalidData, p),
            },
            Parse::Fails(e, p) => Parse::Fails(e, p),
        }
    }

    fn deserialize(src: &mut XdrReader) -> (r: Result<LayoutReturnType, XdrError>) {
        let n = match u32::deserialize(src) {
            Ok(n) => n,
            Err(e) => return Err(e),
        };
        match LayoutReturnType::from_u32(n) {
            Some(x) => Ok(x),
            None => Err(XdrError::InvalidData),
        }
    }
}

#[derive(Debug)]
pub struct LayoutReturnFile {
    offset: Offset,
    length: Length,
    state_id: StateId,
    body: XdrOpaque,
}

/// The deep view of [`LayoutReturnFile`].
pub struct SpecLayoutReturnFile {
    pub offset: u64,
    pub length: u64,
    pub state_id: SpecStateId,
    pub body: Seq<u8>,
}

impl DeepView for LayoutReturnFile {
    type V = SpecLayoutReturnFile;

    closed spec fn deep_view(&self) -> SpecLayoutReturnFile {
        SpecLayoutReturnFile { offset: self.offset.deep_view(), length: self.length.deep_view(), state_id: self.state_id.deep_view(), body: self.body.deep_view() }
    }
}

impl XdrSerialize for LayoutReturnFile {
    open spec fn spec_emit(v: SpecLayoutReturnFile) -> Emit {
        <Offset as XdrSerialize>::spec_emit(v.offset).and_then(<Length as XdrSerialize>::spec_emit(v.length)).and_then(<StateId as XdrSerialize>::spec_emit(v.state_id)).and_then(<XdrOpaque as XdrSerialize>::spec_emit(v.body))
    }

    fn serialize(&self, dest: &mut Vec<u8>) -> (r: Result<(), XdrError>) {
        match self.offset.serialize(dest) {
            Ok(()) => {},
            Err(e) => return Err(e),
        }
        match self.length.serialize(dest) {
            Ok(()) => {},
            Err(e) => return Err(e),
        }
        match self.state_id.serialize(dest) {
            Ok(()) => {},
            Err(e) => return Err(e),
        }
        self.body.serialize(dest)
    }
}

/// Reading a [`LayoutReturnFile`]: each field in turn.
#[verifier::opaque]
pub open spec fn spec_parse_layout_return_file(data: Seq<u8>, pos: int) -> Parse<SpecLayoutReturnFile> {
    match <Offset as XdrDeserialize>::spec_parse(data, pos) {
        Parse::Done(v0, p1) => match <Length as XdrDeserialize>::spec_parse(data, p1) {
            Parse::Done(v1, p2) => match <StateId as XdrDeserialize>::spec_parse(data, p2) {
                Parse::Done(v2, p3) => match <XdrOpaque as XdrDeserialize>::spec_parse(data, p3) {
                    Parse::Done(v3, p4) => Parse::Done(SpecLayoutReturnFile { offset: v0, length: v1, state_id: v2, body: v3 }, p4),
                    Parse::Fails(e, q) => Parse::Fails(e, q),
                },
                Parse::Fails(e, q) => Parse::Fails(e, q),
            },
            Parse::Fails(e, q) => Parse::Fails(e, q),
        },
        Parse::Fails(e, q) => Parse::Fails(e, q),
    }
}

impl XdrDeserialize for LayoutReturnFile {
    open spec fn spec_parse(data: Seq<u8>, pos: int) -> Parse<SpecLayoutReturnFile> {
        spec_parse_layout_return_file(data, pos)
    }

    fn deserialize(src: &mut XdrReader) -> (r: Result<LayoutReturnFile, XdrError>) {
        proof {
            reveal(spec_parse_layout_return_file);
        }
        let v0 = match <Offset as XdrDeserialize>::deserialize(src) {
            Ok(x) => x,
            Err(e) => return Err(e),
        };
        let v1 = match <Length as XdrDeserialize>::deserialize(src) {
            Ok(x) => x,
            Err(e) => return Err(e),
        };
        let v2 = match <StateId as XdrDeserialize>::deserialize(src) {
            Ok(x) => x,
            Err(e) => return Err(e),
        };
        let v3 = match <XdrOpaque as XdrDeserialize>::deserialize(src) {
            Ok(x) => x,
            Err(e) => return Err(e),
        };
        Ok(LayoutReturnFile { offset: v0, length: v1, state_id: v2, body: v3 })
    }
}

#[derive(Debug)]
pub enum LayoutReturn {
    File(LayoutReturnFile),
    FsId,
    All,
}

/// The deep view of [`LayoutReturn`].
pub enum SpecLayoutReturn {
    File(SpecLayoutReturnFile),
    FsId,
    All,
}

impl DeepView for LayoutReturn {
    type V = SpecLayoutReturn;

    open spec fn deep_view(&self) -> SpecLayoutReturn {
        match self {
            LayoutReturn::File(x) => SpecLayoutReturn::File(x.deep_view()),
            LayoutReturn::FsId => SpecLayoutReturn::FsId,
            LayoutReturn::All => SpecLayoutReturn::All,
        }
    }
}

impl XdrSerialize for LayoutReturn {
    open spec fn spec_emit(v: SpecLayoutReturn) -> Emit {
        match v {
            SpecLayoutReturn::File(x) => spec_u32_emit(LayoutReturnType::File.spec_to_u32()).and_then(<LayoutReturnFile as XdrSerialize>::spec_emit(x)),
            SpecLayoutReturn::FsId => spec_u32_emit(LayoutReturnType::FsId.spec_to_u32()),
            SpecLayoutReturn::All => spec_u32_emit(LayoutReturnType::All.spec_to_u32()),
        }
    }

    fn serialize(&self, dest: &mut Vec<u8>) -> (r: Result<(), XdrError>) {
        match self {
            LayoutReturn::File(x) => {
                match LayoutReturnType::File.serialize(dest) {
                    Ok(()) => {},
                    Err(e) => return Err(e),
                }
                x.serialize(dest)
            },
            LayoutReturn::FsId => LayoutReturnType::FsId.serialize(dest),
            LayoutReturn::All => LayoutReturnType::All.serialize(dest),
        }
    }
}

/// Reading a [`LayoutReturn`]: its tag, then what the tag calls for.
#[verifier::opaque]
pub open spec fn spec_parse_layout_return(data: Seq<u8>, pos: int) -> Parse<SpecLayoutReturn> {
        match <LayoutReturnType as XdrDeserialize>::spec_parse(data, pos) {
            Parse::Done(t, p) => match t {
                LayoutReturnType::File => match <LayoutReturnFile as XdrDeserialize>::spec_parse(data, p) {
                    Parse::Done(x, q) => Parse::Done(SpecLayoutReturn::File(x), q),
                    Parse::Fails(e, q) => Parse::Fails(e, q),
                },
                LayoutReturnType::FsId => Parse::Done(SpecLayoutReturn::FsId, p),
                LayoutReturnType::All => Parse::Done(SpecLayoutReturn::All, p),
            },
            Parse::Fails(e, p) => Parse::Fails(e, p),
        }
}

impl XdrDeserialize for LayoutReturn {
    open spec fn spec_parse(data: Seq<u8>, pos: int) -> Parse<SpecLayoutReturn> {
        spec_parse_layout_return(data, pos)
    }

    fn deserialize(src: &mut XdrReader) -> (r: Result<LayoutReturn, XdrError>) {
        proof {
            reveal(spec_parse_layout_return);
        }
        let t = match <LayoutReturnType as XdrDeserialize>::deserialize(src) {
            Ok(t) => t,
            Err(e) => return Err(e),
        };
        match t {
            LayoutReturnType::File => match <LayoutReturnFile as XdrDeserialize>::deserialize(src) {
                Ok(x) => Ok(LayoutReturn::File(x)),
                Err(e) => Err(e),
            },
            LayoutReturnType::FsId => Ok(LayoutReturn::FsId),
            LayoutReturnType::All => Ok(LayoutReturn::All),
        }
    }
}

#[derive(Clone, Copy, Debug, PartialEq, Eq, Structural)]
pub enum FsStatusType {
    Fixed,
    Updated,
    Versioned,
    Writable,
    Referral,
}

impl DeepView for FsStatusType {
    type V = FsStatusType;

    open spec fn deep_view(&self) -> FsStatusType {
        *self
    }
}

impl FsStatusType {
    /// The number that stands for the value.
    pub open spec fn spec_to_u32(self) -> u32 {
        match self {
            FsStatusType::Fixed => 1,
            FsStatusType::Updated => 2,
            FsStatusType::Versioned => 3,
            FsStatusType::Writable => 4,
            FsStatusType::Referral => 5,
        }
    }

    /// The value that a number stands for, if any.
    pub open spec fn spec_from_u32(n: u32) -> Option<FsStatusType> {
        if n == 1 {
            Some(FsStatusType::Fixed)
        } else if n == 2 {
            Some(FsStatusType::Updated)
        } else if n == 3 {
            Some(FsStatusType::Versioned)
        } else if n == 4 {
            Some(FsStatusType::Writable)
        } else if n == 5 {
            Some(FsStatusType::Referral)
        } else {
            None
        }
    }

    /// The number that stands for the value.
    pub fn to_u32(&self) -> (n: u32)
        ensures
            n == self.spec_to_u32(),
    {
        match self {
            FsStatusType::Fixed => 1,
            FsStatusType::Updated => 2,
            FsStatusType::Versioned => 3,
            FsStatusType::Writable => 4,
            FsStatusType::Referral => 5,
        }
    }

    /// The value that `n` stands for, if any.
    pub fn from_u32(n: u32) -> (r: Option<FsStatusType>)
        ensures
            r == FsStatusType::spec_from_u32(n),
    {
        match n {
            1 => Some(FsStatusType::Fixed),
            2 => Some(FsStatusType::Updated),
            3 => Some(FsStatusType::Versioned),
            4 => Some(FsStatusType::Writable),
            5 => Some(FsStatusType::Referral),
            _ => None,
        }
    }
}

impl XdrSerialize for FsStatusType {
    /// The number, as a `u32`.
    open spec fn spec_emit(v: FsStatusType) -> Emit {
        spec_u32_emit(v.spec_to_u32())
    }

    fn serialize(&self, dest: &mut Vec<u8>) -> (r: Result<(), XdrError>) {
        let n: u32 = self.to_u32();
        let r = n.serialize(dest);
        assert(Self::spec_emit(self.deep_view()) == spec_u32_emit(n));
        r
    }
}

impl XdrDeserialize for FsStatusType {
    /// A number that stands for no value is invalid data.
    open spec fn spec_parse(data: Seq<u8>, pos: int) -> Parse<FsStatusType> {
        match spec_u32_parse(data, pos) {
            Parse::Done(n, p) => match FsStatusType::spec_from_u32(n) {
                Some(x) => Parse::Done(x, p),
                None => Parse::Fails(XdrError::InvalidData, p),
            },
            Parse::Fails(e, p) => Parse::Fails(e, p),
        }
    }

    fn deserialize(src: &mut XdrReader) -> (r: Result<FsStatusType, XdrError>) {
        let n = match u32::deserialize(src) {
            Ok(n) => n,
            Err(e) => return Err(e),
        };
        match FsStatusType::from_u32(n) {
            Some(x) => Ok(x),
            None => Err(XdrError::InvalidData),
        }
    }
}

#[derive(Clone, Debug)]
pub struct NfsFsStatus {
    absent: bool,
    typ: FsStatusType,
    source: Utf8StringCaseSensitive,
    current: Utf8StringCaseSensitive,
    age: i32,
    version: NfsTime,
}

/// The deep view of [`NfsFsStatus`].
pub struct SpecNfsFsStatus {
    pub absent: bool,
    pub typ: FsStatusType,
    pub source: Seq<u8>,
    pub current: Seq<u8>,
    pub age: i32,
    pub version: NfsTime,
}

impl DeepView for NfsFsStatus {
    type V = SpecNfsFsStatus;

    closed spec fn deep_view(&self) -> SpecNfsFsStatus {
        SpecNfsFsStatus { absent: self.absent.deep_view(), typ: self.typ.deep_view(), source: self.source.deep_view(), current: self.current.deep_view(), age: self.age.deep_view(), version: self.version.deep_view() }
    }
}

impl XdrSerialize for NfsFsStatus {
    open spec fn spec_emit(v: SpecNfsFsStatus) -> Emit {
        <bool as XdrSerialize>::spec_emit(v.absent).and_then(<FsStatusType as XdrSerialize>::spec_emit(v.typ)).and_then(<Utf8StringCaseSensitive as XdrSerialize>::spec_emit(v.source)).and_then(<Utf8StringCaseSensitive as XdrSerialize>::spec_emit(v.current)).and_then(<i32 as XdrSerialize>::spec_emit(v.age)).and_then(<NfsTime as XdrSerialize>::spec_emit(v.version))
    }

    #[verifier::spinoff_prover]
    #[verifier::rlimit(40)]
    fn serialize(&self, dest: &mut Vec<u8>) -> (r: Result<(), XdrError>) {
        match self.absent.serialize(dest) {
            Ok(()) => {},
            Err(e) => return Err(e),
        }
        match self.typ.serialize(dest) {
            Ok(()) => {},
            Err(e) => return Err(e),
        }
        match self.source.serialize(dest) {
            Ok(()) => {},
            Err(e) => return Err(e),
        }
        match self.current.serialize(dest) {
            Ok(()) => {},
            Err(e) => return Err(e),
        }
        match self.age.serialize(dest) {
            Ok(()) => {},
            Err(e) => return Err(e),
        }
        self.version.serialize(dest)
    }
}

/// Reading a [`NfsFsStatus`]: each field in turn.
#[verifier::opaque]
pub open spec fn spec_parse_nfs_fs_status(data: Seq<u8>, pos: int) -> Parse<SpecNfsFsStatus> {
    match <bool as XdrDeserialize>::spec_parse(data, pos) {
        Parse::Done(v0, p1) => match <FsStatusType as XdrDeserialize>::spec_parse(data, p1) {
            Parse::Done(v1, p2) => match <Utf8StringCaseSensitive as XdrDeserialize>::spec_parse(data, p2) {
                Parse::Done(v2, p3) => match <Utf8StringCaseSensitive as XdrDeserialize>::spec_parse(data, p3) {
                    Parse::Done(v3, p4) => match <i32 as XdrDeserialize>::spec_parse(data, p4) {
                        Parse::Done(v4, p5) => match <NfsTime as XdrDeserialize>::spec_parse(data, p5) {
                            Parse::Done(v5, p6) => Parse::Done(SpecNfsFsStatus { absent: v0, typ: v1, source: v2, current: v3, age: v4, version: v5 }, p6),
                            Parse::Fails(e, q) => Parse::Fails(e, q),
                        },
                        Parse::Fails(e, q) => Parse::Fails(e, q),
                    },
                    Parse::Fails(e, q) => Parse::Fails(e, q),
                },
                Parse::Fails(e, q) => Parse::Fails(e, q),
            },
            Parse::Fails(e, q) => Parse::Fails(e, q),
        },
        Parse::Fails(e, q) => Parse::Fails(e, q),
    }
}

impl XdrDeserialize for NfsFsStatus {
    open spec fn spec_parse(data: Seq<u8>, pos: int) -> Parse<SpecNfsFsStatus> {
        spec_parse_nfs_fs_status(data, pos)
    }

    fn deserialize(src: &mut XdrReader) -> (r: Result<NfsFsStatus, XdrError>) {
        proof {
            reveal(spec_parse_nfs_fs_status);
        }
        let v0 = match <bool as XdrDeserialize>::deserialize(src) {
            Ok(x) => x,
            Err(e) => return Err(e),
        };
        let v1 = match <FsStatusType as XdrDeserialize>::deserialize(src) {
            Ok(x) => x,
            Err(e) => return Err(e),
        };
        let v2 = match <Utf8StringCaseSensitive as XdrDeserialize>::deserialize(src) {
            Ok(x) => x,
            Err(e) => return Err(e),
        };
        let v3 = match <Utf8StringCaseSensitive as XdrDeserialize>::deserialize(src) {
            Ok(x) => x,
            Err(e) => return Err(e),
        };
        let v4 = match <i32 as XdrDeserialize>::deserialize(src) {
            Ok(x) => x,
            Err(e) => return Err(e),
        };
        let v5 = match <NfsTime as XdrDeserialize>::deserialize(src) {
            Ok(x) => x,
            Err(e) => return Err(e),
        };
        Ok(NfsFsStatus { absent: v0, typ: v1, source: v2, current: v3, age: v4, version: v5 })
    }
}

pub type ThresholdReadSize = Length;

pub type ThresholdWriteSize = Length;

pub type ThresholdReadIoSize = Length;

pub type ThresholdWriteIoSize = Length;

pub struct ThresholdItem {
    layout_type: NfsLayoutType,
    hintset: BitMap,
    hintlist: XdrOpaque,
}

/// The deep view of [`ThresholdItem`].
pub struct SpecThresholdItem {
    pub layout_type: NfsLayoutType,
    pub hintset: Seq<u32>,
    pub hintlist: Seq<u8>,
}

impl DeepView for ThresholdItem {
    type V = SpecThresholdItem;

    closed spec fn deep_view(&self) -> SpecThresholdItem {
        SpecThresholdItem { layout_type: self.layout_type.deep_view(), hintset: self.hintset.deep_view(), hintlist: self.hintlist.deep_view() }
    }
}

impl XdrSerialize for ThresholdItem {
    open spec fn spec_emit(v: SpecThresholdItem) -> Emit {
        <NfsLayoutType as XdrSerialize>::spec_emit(v.layout_type).and_then(<BitMap as XdrSerialize>::spec_emit(v.hintset)).and_then(<XdrOpaque as XdrSerialize>::spec_emit(v.hintlist))
    }

    fn serialize(&self, dest: &mut Vec<u8>) -> (r: Result<(), XdrError>) {
        match self.layout_type.serialize(dest) {
            Ok(()) => {},
            Err(e) => return Err(e),
        }
        match self.hintset.serialize(dest) {
            Ok(()) => {},
            Err(e) => return Err(e),
        }
        self.hintlist.serialize(dest)
    }
}

/// Reading a [`ThresholdItem`]: each field in turn.
#[verifier::opaque]
pub open spec fn spec_parse_threshold_item(data: Seq<u8>, pos: int) -> Parse<SpecThresholdItem> {
    match <NfsLayoutType as XdrDeserialize>::spec_parse(data, pos) {
        Parse::Done(v0, p1) => match <BitMap as XdrDeserialize>::spec_parse(data, p1) {
            Parse::Done(v1, p2) => match <XdrOpaque as XdrDeserialize>::spec_parse(data, p2) {
                Parse::Done(v2, p3) => Parse::Done(SpecThresholdItem { layout_type: v0, hintset: v1, hintlist: v2 }, p3),
                Parse::Fails(e, q) => Parse::Fails(e, q),
            },
            Parse::Fails(e, q) => Parse::Fails(e, q),
        },
        Parse::Fails(e, q) => Parse::Fails(e, q),
    }
}

impl XdrDeserialize for ThresholdItem {
    open spec fn spec_parse(data: Seq<u8>, pos: int) -> Parse<SpecThresholdItem> {
        spec_parse_threshold_item(data, pos)
    }

    fn deserialize(src: &mut XdrReader) -> (r: Result<ThresholdItem, XdrError>) {
        proof {
            reveal(spec_parse_threshold_item);
        }
        let v0 = match <NfsLayoutType as XdrDeserialize>::deserialize(src) {
            Ok(x) => x,
            Err(e) => return Err(e),
        };
        let v1 = match <BitMap as XdrDeserialize>::deserialize(src) {
            Ok(x) => x,
            Err(e) => return Err(e),
        };
        let v2 = match <XdrOpaque as XdrDeserialize>::deserialize(src) {
            Ok(x) => x,
            Err(e) => return Err(e),
        };
        Ok(ThresholdItem { layout_type: v0, hintset: v1, hintlist: v2 })
    }
}

pub struct MdsThreshold {
    hints: Vec<ThresholdItem>,
}

/// The deep view of [`MdsThreshold`].
pub struct SpecMdsThreshold {
    pub hints: Seq<SpecThresholdItem>,
}

impl DeepView for MdsThreshold {
    type V = SpecMdsThreshold;

    closed spec fn deep_view(&self) -> SpecMdsThreshold {
        SpecMdsThreshold { hints: self.hints.deep_view() }
    }
}

impl XdrSerialize for MdsThreshold {
    open spec fn spec_emit(v: SpecMdsThreshold) -> Emit {
        spec_vec_emit::<ThresholdItem>(v.hints)
    }

    fn serialize(&self, dest: &mut Vec<u8>) -> (r: Result<(), XdrError>) {
        serialize_vec_of(dest, &self.hints)
    }
}

/// Reading a [`MdsThreshold`]: each field in turn.
#[verifier::opaque]
pub open spec fn spec_parse_mds_threshold(data: Seq<u8>, pos: int) -> Parse<SpecMdsThreshold> {
    match spec_vec_parse::<ThresholdItem>(data, pos) {
        Parse::Done(v0, p1) => Parse::Done(SpecMdsThreshold { hints: v0 }, p1),
        Parse::Fails(e, q) => Parse::Fails(e, q),
    }
}

impl XdrDeserialize for MdsThreshold {
    open spec fn spec_parse(data: Seq<u8>, pos: int) -> Parse<SpecMdsThreshold> {
        spec_parse_mds_threshold(data, pos)
    }

    fn deserialize(src: &mut XdrReader) -> (r: Result<MdsThreshold, XdrError>) {
        proof {
            reveal(spec_parse_mds_threshold);
        }
        let v0 = match deserialize_vec::<ThresholdItem>(src) {
            Ok(x) => x,
            Err(e) => return Err(e),
        };
        Ok(MdsThreshold { hints: v0 })
    }
}

pub struct RetentionGet {
    duration: u64,
    begin_time: Option<NfsTime>,
}

/// The deep view of [`RetentionGet`].
pub struct SpecRetentionGet {
    pub duration: u64,
    pub begin_time: Option<NfsTime>,
}

impl DeepView for RetentionGet {
    type V = SpecRetentionGet;

    closed spec fn deep_view(&self) -> SpecRetentionGet {
        SpecRetentionGet { duration: self.duration.deep_view(), begin_time: self.begin_time.deep_view() }
    }
}

impl XdrSerialize for RetentionGet {
    open spec fn spec_emit(v: SpecRetentionGet) -> Emit {
        <u64 as XdrSerialize>::spec_emit(v.duration).and_then(<Option<NfsTime> as XdrSerialize>::spec_emit(v.begin_time))
    }

    fn serialize(&self, dest: &mut Vec<u8>) -> (r: Result<(), XdrError>) {
        match self.duration.serialize(dest) {
            Ok(()) => {},
            Err(e) => return Err(e),
        }
        self.begin_time.serialize(dest)
    }
}

/// Reading a [`RetentionGet`]: each field in turn.
#[verifier::opaque]
pub open spec fn spec_parse_retention_get(data: Seq<u8>, pos: int) -> Parse<SpecRetentionGet> {
    match <u64 as XdrDeserialize>::spec_parse(data, pos) {
        Parse::Done(v0, p1) => match <Option<NfsTime> as XdrDeserialize>::spec_parse(data, p1) {
            Parse::Done(v1, p2) => Parse::Done(SpecRetentionGet { duration: v0, begin_time: v1 }, p2),
            Parse::Fails(e, q) => Parse::Fails(e, q),
        },
        Parse::Fails(e, q) => Parse::Fails(e, q),
    }
}

impl XdrDeserialize for RetentionGet {
    open spec fn spec_parse(data: Seq<u8>, pos: int) -> Parse<SpecRetentionGet> {
        spec_parse_retention_get(data, pos)
    }

    fn deserialize(src: &mut XdrReader) -> (r: Result<RetentionGet, XdrError>) {
        proof {
            reveal(spec_parse_retention_get);
        }
        let v0 = match <u64 as XdrDeserialize>::deserialize(src) {
            Ok(x) => x,
            Err(e) => return Err(e),
        };
        let v1 = match <Option<NfsTime> as XdrDeserialize>::deserialize(src) {
            Ok(x) => x,
            Err(e) => return Err(e),
        };
        Ok(RetentionGet { duration: v0, begin_time: v1 })
    }
}

pub struct RetentionSet {
    enable: bool,
    duration: Option<u64>,
}

/// The deep view of [`RetentionSet`].
pub struct SpecRetentionSet {
    pub enable: bool,
    pub duration: Option<u64>,
}

impl DeepView for RetentionSet {
    type V = SpecRetentionSet;

    closed spec fn deep_view(&self) -> SpecRetentionSet {
        SpecRetentionSet { enable: self.enable.deep_view(), duration: self.duration.deep_view() }
    }
}

impl XdrSerialize for RetentionSet {
    open spec fn spec_emit(v: SpecRetentionSet) -> Emit {
        <bool as XdrSerialize>::spec_emit(v.enable).and_then(<Option<u64> as XdrSerialize>::spec_emit(v.duration))
    }

    fn serialize(&self, dest: &mut Vec<u8>) -> (r: Result<(), XdrError>) {
        match self.enable.serialize(dest) {
            Ok(()) => {},
            Err(e) => return Err(e),
        }
        self.duration.serialize(dest)
    }
}

/// Reading a [`RetentionSet`]: each field in turn.
#[verifier::opaque]
pub open spec fn spec_parse_retention_set(data: Seq<u8>, pos: int) -> Parse<SpecRetentionSet> {
    match <bool as XdrDeserialize>::spec_parse(data, pos) {
        Parse::Done(v0, p1) => match <Option<u64> as XdrDeserialize>::spec_parse(data, p1) {
            Parse::Done(v1, p2) => Parse::Done(SpecRetentionSet { enable: v0, duration: v1 }, p2),
            Parse::Fails(e, q) => Parse::Fails(e, q),
        },
        Parse::Fails(e, q) => Parse::Fails(e, q),
    }
}

impl XdrDeserialize for RetentionSet {
    open spec fn spec_parse(data: Seq<u8>, pos: int) -> Parse<SpecRetentionSet> {
        spec_parse_retention_set(data, pos)
    }

    fn deserialize(src: &mut XdrReader) -> (r: Result<RetentionSet, XdrError>) {
        proof {
            reveal(spec_parse_retention_set);
        }
        let v0 = match <bool as XdrDeserialize>::deserialize(src) {
            Ok(x) => x,
            Err(e) => return Err(e),
        };
        let v1 = match <Option<u64> as XdrDeserialize>::deserialize(src) {
            Ok(x) => x,
            Err(e) => return Err(e),
        };
        Ok(RetentionSet { enable: v0, duration: v1 })
    }
}

pub type FsCharsetCap = u32;

#[derive(Debug)]
pub struct FileAttrs {
    pub mask: BitMap,
    pub attrs: AttrList,
}

/// The deep view of [`FileAttrs`].
pub struct SpecFileAttrs {
    pub mask: Seq<u32>,
    pub attrs: Seq<u8>,
}

impl DeepView for FileAttrs {
    type V = SpecFileAttrs;

    open spec fn deep_view(&self) -> SpecFileAttrs {
        SpecFileAttrs { mask: self.mask.deep_view(), attrs: self.attrs.deep_view() }
    }
}

impl XdrSerialize for FileAttrs {
    open spec fn spec_emit(v: SpecFileAttrs) -> Emit {
        <BitMap as XdrSerialize>::spec_emit(v.mask).and_then(<AttrList as XdrSerialize>::spec_emit(v.attrs))
    }

    fn serialize(&self, dest: &mut Vec<u8>) -> (r: Result<(), XdrError>) {
        match self.mask.serialize(dest) {
            Ok(()) => {},
            Err(e) => return Err(e),
        }
        self.attrs.serialize(dest)
    }
}

/// Reading a [`FileAttrs`]: each field in turn.
#[verifier::opaque]
pub open spec fn spec_parse_file_attrs(data: Seq<u8>, pos: int) -> Parse<SpecFileAttrs> {
    match <BitMap as XdrDeserialize>::spec_parse(data, pos) {
        Parse::Done(v0, p1) => match <AttrList as XdrDeserialize>::spec_parse(data, p1) {
            Parse::Done(v1, p2) => Parse::Done(SpecFileAttrs { mask: v0, attrs: v1 }, p2),
            Parse::Fails(e, q) => Parse::Fails(e, q),
        },
        Parse::Fails(e, q) => Parse::Fails(e, q),
    }
}

impl XdrDeserialize for FileAttrs {
    open spec fn spec_parse(data: Seq<u8>, pos: int) -> Parse<SpecFileAttrs> {
        spec_parse_file_attrs(data, pos)
    }

    fn deserialize(src: &mut XdrReader) -> (r: Result<FileAttrs, XdrError>) {
        proof {
            reveal(spec_parse_file_attrs);
        }
        let v0 = match <BitMap as XdrDeserialize>::deserialize(src) {
            Ok(x) => x,
            Err(e) => return Err(e),
        };
        let v1 = match <AttrList as XdrDeserialize>::deserialize(src) {
            Ok(x) => x,
            Err(e) => return Err(e),
        };
        Ok(FileAttrs { mask: v0, attrs: v1 })
    }
}

#[derive(Debug)]
pub struct ChangeInfo {
    atomic: bool,
    before: ChangeId,
    after: ChangeId,
}

/// The deep view of [`ChangeInfo`].
pub struct SpecChangeInfo {
    pub atomic: bool,
    pub before: u64,
    pub after: u64,
}

impl DeepView for ChangeInfo {
    type V = SpecChangeInfo;

    closed spec fn deep_view(&self) -> SpecChangeInfo {
        SpecChangeInfo { atomic: self.atomic.deep_view(), before: self.before.deep_view(), after: self.after.deep_view() }
    }
}

impl XdrSerialize for ChangeInfo {
    open spec fn spec_emit(v: SpecChangeInfo) -> Emit {
        <bool as XdrSerialize>::spec_emit(v.atomic).and_then(<ChangeId as XdrSerialize>::spec_emit(v.before)).and_then(<ChangeId as XdrSerialize>::spec_emit(v.after))
    }

    fn serialize(&self, dest: &mut Vec<u8>) -> (r: Result<(), XdrError>) {
        match self.atomic.serialize(dest) {
            Ok(()) => {},
            Err(e) => return Err(e),
        }
        match self.before.serialize(dest) {
            Ok(()) => {},
            Err(e) => return Err(e),
        }
        self.after.serialize(dest)
    }
}

/// Reading a [`ChangeInfo`]: each field in turn.
#[verifier::opaque]
pub open spec fn spec_parse_change_info(data: Seq<u8>, pos: int) -> Parse<SpecChangeInfo> {
    match <bool as XdrDeserialize>::spec_parse(data, pos) {
        Parse::Done(v0, p1) => match <ChangeId as XdrDeserialize>::spec_parse(data, p1) {
            Parse::Done(v1, p2) => match <ChangeId as XdrDeserialize>::spec_parse(data, p2) {
                Parse::Done(v2, p3) => Parse::Done(SpecChangeInfo { atomic: v0, before: v1, after: v2 }, p3),
                Parse::Fails(e, q) => Parse::Fails(e, q),
            },
            Parse::Fails(e, q) => Parse::Fails(e, q),
        },
        Parse::Fails(e, q) => Parse::Fails(e, q),
    }
}

impl XdrDeserialize for ChangeInfo {
    open spec fn spec_parse(data: Seq<u8>, pos: int) -> Parse<SpecChangeInfo> {
        spec_parse_change_info(data, pos)
    }

    fn deserialize(src: &mut XdrReader) -> (r: Result<ChangeInfo, XdrError>) {
        proof {
            reveal(spec_parse_change_info);
        }
        let v0 = match <bool as XdrDeserialize>::deserialize(src) {
            Ok(x) => x,
            Err(e) => return Err(e),
        };
        let v1 = match <ChangeId as XdrDeserialize>::deserialize(src) {
            Ok(x) => x,
            Err(e) => return Err(e),
        };
        let v2 = match <ChangeId as XdrDeserialize>::deserialize(src) {
            Ok(x) => x,
            Err(e) => return Err(e),
        };
        Ok(ChangeInfo { atomic: v0, before: v1, after: v2 })
    }
}

pub type ClientAddress = NetAddress;

pub struct CallbackClient {
    program: u32,
    location: NetAddress,
}

/// The deep view of [`CallbackClient`].
pub struct SpecCallbackClient {
    pub program: u32,
    pub location: SpecNetAddress,
}

impl DeepView for CallbackClient {
    type V = SpecCallbackClient;

    closed spec fn deep_view(&self) -> SpecCallbackClient {
        SpecCallbackClient { program: self.program.deep_view(), location: self.location.deep_view() }
    }
}

impl XdrSerialize for CallbackClient {
    open spec fn spec_emit(v: SpecCallbackClient) -> Emit {
        <u32 as XdrSerialize>::spec_emit(v.program).and_then(<NetAddress as XdrSerialize>::spec_emit(v.location))
    }

    fn serialize(&self, dest: &mut Vec<u8>) -> (r: Result<(), XdrError>) {
        match self.program.serialize(dest) {
            Ok(()) => {},
            Err(e) => return Err(e),
        }
        self.location.serialize(dest)
    }
}

/// Reading a [`CallbackClient`]: each field in turn.
#[verifier::opaque]
pub open spec fn spec_parse_callback_client(data: Seq<u8>, pos: int) -> Parse<SpecCallbackClient> {
    match <u32 as XdrDeserialize>::spec_parse(data, pos) {
        Parse::Done(v0, p1) => match <NetAddress as XdrDeserialize>::spec_parse(data, p1) {
            Parse::Done(v1, p2) => Parse::Done(SpecCallbackClient { program: v0, location: v1 }, p2),
            Parse::Fails(e, q) => Parse::Fails(e, q),
        },
        Parse::Fails(e, q) => Parse::Fails(e, q),
    }
}

impl XdrDeserialize for CallbackClient {
    open spec fn spec_parse(data: Seq<u8>, pos: int) -> Parse<SpecCallbackClient> {
        spec_parse_callback_client(data, pos)
    }

    fn deserialize(src: &mut XdrReader) -> (r: Result<CallbackClient, XdrError>) {
        proof {
            reveal(spec_parse_callback_client);
        }
        let v0 = match <u32 as XdrDeserialize>::deserialize(src) {
            Ok(x) => x,
            Err(e) => return Err(e),
        };
        let v1 = match <NetAddress as XdrDeserialize>::deserialize(src) {
            Ok(x) => x,
            Err(e) => return Err(e),
        };
        Ok(CallbackClient { program: v0, location: v1 })
    }
}

/// NFSv4.0 Long Hand Client Id
pub struct NfsClientId {
    verifier: Verifier,
    id: MaxLenBytes<NFS_OPAQUE_LIMIT>,
}

/// The deep view of [`NfsClientId`].
pub struct SpecNfsClientId {
    pub verifier: Seq<u8>,
    pub id: Seq<u8>,
}

impl DeepView for NfsClientId {
    type V = SpecNfsClientId;

    closed spec fn deep_view(&self) -> SpecNfsClientId {
        SpecNfsClientId { verifier: self.verifier.deep_view(), id: self.id.deep_view() }
    }
}

impl XdrSerialize for NfsClientId {
    open spec fn spec_emit(v: SpecNfsClientId) -> Emit {
        <Verifier as XdrSerialize>::spec_emit(v.verifier).and_then(<MaxLenBytes<NFS_OPAQUE_LIMIT> as XdrSerialize>::spec_emit(v.id))
    }

    fn serialize(&self, dest: &mut Vec<u8>) -> (r: Result<(), XdrError>) {
        match self.verifier.serialize(dest) {
            Ok(()) => {},
            Err(e) => return Err(e),
        }
        self.id.serialize(dest)
    }
}

/// Reading a [`NfsClientId`]: each field in turn.
#[verifier::opaque]
pub open spec fn spec_parse_nfs_client_id(data: Seq<u8>, pos: int) -> Parse<SpecNfsClientId> {
    match <Verifier as XdrDeserialize>::spec_parse(data, pos) {
        Parse::Done(v0, p1) => match <MaxLenBytes<NFS_OPAQUE_LIMIT> as XdrDeserialize>::spec_parse(data, p1) {
            Parse::Done(v1, p2) => Parse::Done(SpecNfsClientId { verifier: v0, id: v1 }, p2),
            Parse::Fails(e, q) => Parse::Fails(e, q),
        },
        Parse::Fails(e, q) => Parse::Fails(e, q),
    }
}

impl XdrDeserialize for NfsClientId {
    open spec fn spec_parse(data: Seq<u8>, pos: int) -> Parse<SpecNfsClientId> {
        spec_parse_nfs_client_id(data, pos)
    }

    fn deserialize(src: &mut XdrReader) -> (r: Result<NfsClientId, XdrError>) {
        proof {
            reveal(spec_parse_nfs_client_id);
        }
        let v0 = match <Verifier as XdrDeserialize>::deserialize(src) {
            Ok(x) => x,
            Err(e) => return Err(e),
        };
        let v1 = match <MaxLenBytes<NFS_OPAQUE_LIMIT> as XdrDeserialize>::deserialize(src) {
            Ok(x) => x,
            Err(e) => return Err(e),
        };
        Ok(NfsClientId { verifier: v0, id: v1 })
    }
}

/// NFSv4.1 Client Owner (aka long hand client id)
#[derive(Clone, Debug, PartialOrd, Ord, PartialEq, Eq, Hash)]
pub struct ClientOwner {
    pub verifier: Verifier,
    pub owner_id: MaxLenBytes<NFS_OPAQUE_LIMIT>,
}

/// The deep view of [`ClientOwner`].
pub struct SpecClientOwner {
    pub verifier: Seq<u8>,
    pub owner_id: Seq<u8>,
}

impl DeepView for ClientOwner {
    type V = SpecClientOwner;

    open spec fn deep_view(&self) -> SpecClientOwner {
        SpecClientOwner { verifier: self.verifier.deep_view(), owner_id: self.owner_id.deep_view() }
    }
}

impl XdrSerialize for ClientOwner {
    open spec fn spec_emit(v: SpecClientOwner) -> Emit {
        <Verifier as XdrSerialize>::spec_emit(v.verifier).and_then(<MaxLenBytes<NFS_OPAQUE_LIMIT> as XdrSerialize>::spec_emit(v.owner_id))
    }

    fn serialize(&self, dest: &mut Vec<u8>) -> (r: Result<(), XdrError>) {
        match self.verifier.serialize(dest) {
            Ok(()) => {},
            Err(e) => return Err(e),
        }
        self.owner_id.serialize(dest)
    }
}

/// Reading a [`ClientOwner`]: each field in turn.
#[verifier::opaque]
pub open spec fn spec_parse_client_owner(data: Seq<u8>, pos: int) -> Parse<SpecClientOwner> {
    match <Verifier as XdrDeserialize>::spec_parse(data, pos) {
        Parse::Done(v0, p1) => match <MaxLenBytes<NFS_OPAQUE_LIMIT> as XdrDeserialize>::spec_parse(data, p1) {
            Parse::Done(v1, p2) => Parse::Done(SpecClientOwner { verifier: v0, owner_id: v1 }, p2),
            Parse::Fails(e, q) => Parse::Fails(e, q),
        },
        Parse::Fails(e, q) => Parse::Fails(e, q),
    }
}

impl XdrDeserialize for ClientOwner {
    open spec fn spec_parse(data: Seq<u8>, pos: int) -> Parse<SpecClientOwner> {
        spec_parse_client_owner(data, pos)
    }

    fn deserialize(src: &mut XdrReader) -> (r: Result<ClientOwner, XdrError>) {
        proof {
            reveal(spec_parse_client_owner);
        }
        let v0 = match <Verifier as XdrDeserialize>::deserialize(src) {
            Ok(x) => x,
            Err(e) => return Err(e),
        };
        let v1 = match <MaxLenBytes<NFS_OPAQUE_LIMIT> as XdrDeserialize>::deserialize(src) {
            Ok(x) => x,
            Err(e) => return Err(e),
        };
        Ok(ClientOwner { verifier: v0, owner_id: v1 })
    }
}

/// NFSv4.1 `ServerOwner`
#[derive(Clone, Debug)]
pub struct ServerOwner {
    pub minor_id: u64,
    pub major_id: MaxLenBytes<NFS_OPAQUE_LIMIT>,
}

/// The deep view of [`ServerOwner`].
pub struct SpecServerOwner {
    pub minor_id: u64,
    pub major_id: Seq<u8>,
}

impl DeepView for ServerOwner {
    type V = SpecServerOwner;

    open spec fn deep_view(&self) -> SpecServerOwner {
        SpecServerOwner { minor_id: self.minor_id.deep_view(), major_id: self.major_id.deep_view() }
    }
}

impl XdrSerialize for ServerOwner {
    open spec fn spec_emit(v: SpecServerOwner) -> Emit {
        <u64 as XdrSerialize>::spec_emit(v.minor_id).and_then(<MaxLenBytes<NFS_OPAQUE_LIMIT> as XdrSerialize>::spec_emit(v.major_id))
    }

    fn serialize(&self, dest: &mut Vec<u8>) -> (r: Result<(), XdrError>) {
        match self.minor_id.serialize(dest) {
            Ok(()) => {},
            Err(e) => return Err(e),
        }
        self.major_id.serialize(dest)
    }
}

/// Reading a [`ServerOwner`]: each field in turn.
#[verifier::opaque]
pub open spec fn spec_parse_server_owner(data: Seq<u8>, pos: int) -> Parse<SpecServerOwner> {
    match <u64 as XdrDeserialize>::spec_parse(data, pos) {
        Parse::Done(v0, p1) => match <MaxLenBytes<NFS_OPAQUE_LIMIT> as XdrDeserialize>::spec_parse(data, p1) {
            Parse::Done(v1, p2) => Parse::Done(SpecServerOwner { minor_id: v0, major_id: v1 }, p2),
            Parse::Fails(e, q) => Parse::Fails(e, q),
        },
        Parse::Fails(e, q) => Parse::Fails(e, q),
    }
}

impl XdrDeserialize for ServerOwner {
    open spec fn spec_parse(data: Seq<u8>, pos: int) -> Parse<SpecServerOwner> {
        spec_parse_server_owner(data, pos)
    }

    fn deserialize(src: &mut XdrReader) -> (r: Result<ServerOwner, XdrError>) {
        proof {
            reveal(spec_parse_server_owner);
        }
        let v0 = match <u64 as XdrDeserialize>::deserialize(src) {
            Ok(x) => x,
            Err(e) => return Err(e),
        };
        let v1 = match <MaxLenBytes<NFS_OPAQUE_LIMIT> as XdrDeserialize>::deserialize(src) {
            Ok(x) => x,
            Err(e) => return Err(e),
        };
        Ok(ServerOwner { minor_id: v0, major_id: v1 })
    }
}

#[derive(Debug)]
pub struct StateOwner {
    client_id: ClientId,
    owner: MaxLenBytes<NFS_OPAQUE_LIMIT>,
}

/// The deep view of [`StateOwner`].
pub struct SpecStateOwner {
    pub client_id: u64,
    pub owner: Seq<u8>,
}

impl DeepView for StateOwner {
    type V = SpecStateOwner;

    closed spec fn deep_view(&self) -> SpecStateOwner {
        SpecStateOwner { client_id: self.client_id.deep_view(), owner: self.owner.deep_view() }
    }
}

impl XdrSerialize for StateOwner {
    open spec fn spec_emit(v: SpecStateOwner) -> Emit {
        <ClientId as XdrSerialize>::spec_emit(v.client_id).and_then(<MaxLenBytes<NFS_OPAQUE_LIMIT> as XdrSerialize>::spec_emit(v.owner))
    }

    fn serialize(&self, dest: &mut Vec<u8>) -> (r: Result<(), XdrError>) {
        match self.client_id.serialize(dest) {
            Ok(()) => {},
            Err(e) => return Err(e),
        }
        self.owner.serialize(dest)
    }
}

/// Reading a [`StateOwner`]: each field in turn.
#[verifier::opaque]
pub open spec fn spec_parse_state_owner(data: Seq<u8>, pos: int) -> Parse<SpecStateOwner> {
    match <ClientId as XdrDeserialize>::spec_parse(data, pos) {
        Parse::Done(v0, p1) => match <MaxLenBytes<NFS_OPAQUE_LIMIT> as XdrDeserialize>::spec_parse(data, p1) {
            Parse::Done(v1, p2) => Parse::Done(SpecStateOwner { client_id: v0, owner: v1 }, p2),
            Parse::Fails(e, q) => Parse::Fails(e, q),
        },
        Parse::Fails(e, q) => Parse::Fails(e, q),
    }
}

impl XdrDeserialize for StateOwner {
    open spec fn spec_parse(data: Seq<u8>, pos: int) -> Parse<SpecStateOwner> {
        spec_parse_state_owner(data, pos)
    }

    fn deserialize(src: &mut XdrReader) -> (r: Result<StateOwner, XdrError>) {
        proof {
            reveal(spec_parse_state_owner);
        }
        let v0 = match <ClientId as XdrDeserialize>::deserialize(src) {
            Ok(x) => x,
            Err(e) => return Err(e),
        };
        let v1 = match <MaxLenBytes<NFS_OPAQUE_LIMIT> as XdrDeserialize>::deserialize(src) {
            Ok(x) => x,
            Err(e) => return Err(e),
        };
        Ok(StateOwner { client_id: v0, owner: v1 })
    }
}

pub type OpenOwner = StateOwner;

pub type LockOwner = StateOwner;

#[derive(Clone, Copy, Debug, PartialEq, Eq, Structural)]
pub enum NfsLockType {
    Read,
    Write,
    BlockingRead,
    BlockingWrite,
}

impl DeepView for NfsLockType {
    type V = NfsLockType;

    open spec fn deep_view(&self) -> NfsLockType {
        *self
    }
}

impl NfsLockType {
    /// The number that stands for the value.
    pub open spec fn spec_to_u32(self) -> u32 {
        match self {
            NfsLockType::Read => 1,
            NfsLockType::Write => 2,
            NfsLockType::BlockingRead => 3,
            NfsLockType::BlockingWrite => 4,
        }
    }

    /// The value that a number stands for, if any.
    pub open spec fn spec_from_u32(n: u32) -> Option<NfsLockType> {
        if n == 1 {
            Some(NfsLockType::Read)
        } else if n == 2 {
            Some(NfsLockType::Write)
        } else if n == 3 {
            Some(NfsLockType::BlockingRead)
        } else if n == 4 {
            Some(NfsLockType::BlockingWrite)
        } else {
            None
        }
    }

    /// The number that stands for the value.
    pub fn to_u32(&self) -> (n: u32)
        ensures
            n == self.spec_to_u32(),
    {
        match self {
            NfsLockType::Read => 1,
            NfsLockType::Write => 2,
            NfsLockType::BlockingRead => 3,
            NfsLockType::BlockingWrite => 4,
        }
    }

    /// The value that `n` stands for, if any.
    pub fn from_u32(n: u32) -> (r: Option<NfsLockType>)
        ensures
            r == NfsLockType::spec_from_u32(n),
    {
        match n {
            1 => Some(NfsLockType::Read),
            2 => Some(NfsLockType::Write),
            3 => Some(NfsLockType::BlockingRead),
            4 => Some(NfsLockType::BlockingWrite),
            _ => None,
        }
    }
}

impl XdrSerialize for NfsLockType {
    /// The number, as a `u32`.
    open spec fn spec_emit(v: NfsLockType) -> Emit {
        spec_u32_emit(v.spec_to_u32())
    }

    fn serialize(&self, dest: &mut Vec<u8>) -> (r: Result<(), XdrError>) {
        let n: u32 = self.to_u32();
        let r = n.serialize(dest);
        assert(Self::spec_emit(self.deep_view()) == spec_u32_emit(n));
        r
    }
}

impl XdrDeserialize for NfsLockType {
    /// A number that stands for no value is invalid data.
    open spec fn spec_parse(data: Seq<u8>, pos: int) -> Parse<NfsLockType> {
        match spec_u32_parse(data, pos) {
            Parse::Done(n, p) => match NfsLockType::spec_from_u32(n) {
                Some(x) => Parse::Done(x, p),
                None => Parse::Fails(XdrError::InvalidData, p),
            },
            Parse::Fails(e, p) => Parse::Fails(e, p),
        }
    }

    fn deserialize(src: &mut XdrReader) -> (r: Result<NfsLockType, XdrError>) {
        let n = match u32::deserialize(src) {
            Ok(n) => n,
            Err(e) => return Err(e),
        };
        match NfsLockType::from_u32(n) {
            Some(x) => Ok(x),
            None => Err(XdrError::InvalidData),
        }
    }
}

#[derive(Clone, Copy, Debug, PartialEq, Eq, Structural)]
pub enum SsvSubkey {
    MicI2T,
    MicT2I,
    SealI2T,
    SealT2I,
}

impl DeepView for SsvSubkey {
    type V = SsvSubkey;

    open spec fn deep_view(&self) -> SsvSubkey {
        *self
    }
}

impl SsvSubkey {
    /// The number that stands for the value.
    pub open spec fn spec_to_u32(self) -> u32 {
        match self {
            SsvSubkey::MicI2T => 1,
            SsvSubkey::MicT2I => 2,
            SsvSubkey::SealI2T => 3,
            SsvSubkey::SealT2I => 4,
        }
    }

    /// The value that a number stands for, if any.
    pub open spec fn spec_from_u32(n: u32) -> Option<SsvSubkey> {
        if n == 1 {
            Some(SsvSubkey::MicI2T)
        } else if n == 2 {
            Some(SsvSubkey::MicT2I)
        } else if n == 3 {
            Some(SsvSubkey::SealI2T)
        } else if n == 4 {
            Some(SsvSubkey::SealT2I)
        } else {
            None
        }
    }

    /// The number that stands for the value.
    pub fn to_u32(&self) -> (n: u32)
        ensures
            n == self.spec_to_u32(),
    {
        match self {
            SsvSubkey::MicI2T => 1,
            SsvSubkey::MicT2I => 2,
            SsvSubkey::SealI2T => 3,
            SsvSubkey::SealT2I => 4,
        }
    }

    /// The value that `n` stands for, if any.
    pub fn from_u32(n: u32) -> (r: Option<SsvSubkey>)
        ensures
            r == SsvSubkey::spec_from_u32(n),
    {
        match n {
            1 => Some(SsvSubkey::MicI2T),
            2 => Some(SsvSubkey::MicT2I),
            3 => Some(SsvSubkey::SealI2T),
            4 => Some(SsvSubkey::SealT2I),
            _ => None,
        }
    }
}

impl XdrSerialize for SsvSubkey {
    /// The number, as a `u32`.
    open spec fn spec_emit(v: SsvSubkey) -> Emit {
        spec_u32_emit(v.spec_to_u32())
    }

    fn serialize(&self, dest: &mut Vec<u8>) -> (r: Result<(), XdrError>) {
        let n: u32 = self.to_u32();
        let r = n.serialize(dest);
        assert(Self::spec_emit(self.deep_view()) == spec_u32_emit(n));
        r
    }
}

impl XdrDeserialize for SsvSubkey {
    /// A number that stands for no value is invalid data.
    open spec fn spec_parse(data: Seq<u8>, pos: int) -> Parse<SsvSubkey> {
        match spec_u32_parse(data, pos) {
            Parse::Done(n, p) => match SsvSubkey::spec_from_u32(n) {
                Some(x) => Parse::Done(x, p),
                None => Parse::Fails(XdrError::InvalidData, p),
            },
            Parse::Fails(e, p) => Parse::Fails(e, p),
        }
    }

    fn deserialize(src: &mut XdrReader) -> (r: Result<SsvSubkey, XdrError>) {
        let n = match u32::deserialize(src) {
            Ok(n) => n,
            Err(e) => return Err(e),
        };
        match SsvSubkey::from_u32(n) {
            Some(x) => Ok(x),
            None => Err(XdrError::InvalidData),
        }
    }
}

pub struct SsvMicPlainToken {
    ssv_seq: u32,
    orig_plain: XdrOpaque,
}

/// The deep view of [`SsvMicPlainToken`].
pub struct SpecSsvMicPlainToken {
    pub ssv_seq: u32,
    pub orig_plain: Seq<u8>,
}

impl DeepView for SsvMicPlainToken {
    type V = SpecSsvMicPlainToken;

    closed spec fn deep_view(&self) -> SpecSsvMicPlainToken {
        SpecSsvMicPlainToken { ssv_seq: self.ssv_seq.deep_view(), orig_plain: self.orig_plain.deep_view() }
    }
}

impl XdrSerialize for SsvMicPlainToken {
    open spec fn spec_emit(v: SpecSsvMicPlainToken) -> Emit {
        <u32 as XdrSerialize>::spec_emit(v.ssv_seq).and_then(<XdrOpaque as XdrSerialize>::spec_emit(v.orig_plain))
    }

    fn serialize(&self, dest: &mut Vec<u8>) -> (r: Result<(), XdrError>) {
        match self.ssv_seq.serialize(dest) {
            Ok(()) => {},
            Err(e) => return Err(e),
        }
        self.orig_plain.serialize(dest)
    }
}

/// Reading a [`SsvMicPlainToken`]: each field in turn.
#[verifier::opaque]
pub open spec fn spec_parse_ssv_mic_plain_token(data: Seq<u8>, pos: int) -> Parse<SpecSsvMicPlainToken> {
    match <u32 as XdrDeserialize>::spec_parse(data, pos) {
        Parse::Done(v0, p1) => match <XdrOpaque as XdrDeserialize>::spec_parse(data, p1) {
            Parse::Done(v1, p2) => Parse::Done(SpecSsvMicPlainToken { ssv_seq: v0, orig_plain: v1 }, p2),
            Parse::Fails(e, q) => Parse::Fails(e, q),
        },
        Parse::Fails(e, q) => Parse::Fails(e, q),
    }
}

impl XdrDeserialize for SsvMicPlainToken {
    open spec fn spec_parse(data: Seq<u8>, pos: int) -> Parse<SpecSsvMicPlainToken> {
        spec_parse_ssv_mic_plain_token(data, pos)
    }

    fn deserialize(src: &mut XdrReader) -> (r: Result<SsvMicPlainToken, XdrError>) {
        proof {
            reveal(spec_parse_ssv_mic_plain_token);
        }
        let v0 = match <u32 as XdrDeserialize>::deserialize(src) {
            Ok(x) => x,
            Err(e) => return Err(e),
        };
        let v1 = match <XdrOpaque as XdrDeserialize>::deserialize(src) {
            Ok(x) => x,
            Err(e) => return Err(e),
        };
        Ok(SsvMicPlainToken { ssv_seq: v0, orig_plain: v1 })
    }
}

pub struct SsvSealPlainToken {
    confounder: XdrOpaque,
    ssv_seq: u32,
    orig_plain: XdrOpaque,
    pad: XdrOpaque,
}

/// The deep view of [`SsvSealPlainToken`].
pub struct SpecSsvSealPlainToken {
    pub confounder: Seq<u8>,
    pub ssv_seq: u32,
    pub orig_plain: Seq<u8>,
    pub pad: Seq<u8>,
}

impl DeepView for SsvSealPlainToken {
    type V = SpecSsvSealPlainToken;

    closed spec fn deep_view(&self) -> SpecSsvSealPlainToken {
        SpecSsvSealPlainToken { confounder: self.confounder.deep_view(), ssv_seq: self.ssv_seq.deep_view(), orig_plain: self.orig_plain.deep_view(), pad: self.pad.deep_view() }
    }
}

impl XdrSerialize for SsvSealPlainToken {
    open spec fn spec_emit(v: SpecSsvSealPlainToken) -> Emit {
        <XdrOpaque as XdrSerialize>::spec_emit(v.confounder).and_then(<u32 as XdrSerialize>::spec_emit(v.ssv_seq)).and_then(<XdrOpaque as XdrSerialize>::spec_emit(v.orig_plain)).and_then(<XdrOpaque as XdrSerialize>::spec_emit(v.pad))
    }

    fn serialize(&self, dest: &mut Vec<u8>) -> (r: Result<(), XdrError>) {
        match self.confounder.serialize(dest) {
            Ok(()) => {},
            Err(e) => return Err(e),
        }
        match self.ssv_seq.serialize(dest) {
            Ok(()) => {},
            Err(e) => return Err(e),
        }
        match self.orig_plain.serialize(dest) {
            Ok(()) => {},
            Err(e) => return Err(e),
        }
        self.pad.serialize(dest)
    }
}

/// Reading a [`SsvSealPlainToken`]: each field in turn.
#[verifier::opaque]
pub open spec fn spec_parse_ssv_seal_plain_token(data: Seq<u8>, pos: int) -> Parse<SpecSsvSealPlainToken> {
    match <XdrOpaque as XdrDeserialize>::spec_parse(data, pos) {
        Parse::Done(v0, p1) => match <u32 as XdrDeserialize>::spec_parse(data, p1) {
            Parse::Done(v1, p2) => match <XdrOpaque as XdrDeserialize>::spec_parse(data, p2) {
                Parse::Done(v2, p3) => match <XdrOpaque as XdrDeserialize>::spec_parse(data, p3) {
                    Parse::Done(v3, p4) => Parse::Done(SpecSsvSealPlainToken { confounder: v0, ssv_seq: v1, orig_plain: v2, pad: v3 }, p4),
                    Parse::Fails(e, q) => Parse::Fails(e, q),
                },
                Parse::Fails(e, q) => Parse::Fails(e, q),
            },
            Parse::Fails(e, q) => Parse::Fails(e, q),
        },
        Parse::Fails(e, q) => Parse::Fails(e, q),
    }
}

impl XdrDeserialize for SsvSealPlainToken {
    open spec fn spec_parse(data: Seq<u8>, pos: int) -> Parse<SpecSsvSealPlainToken> {
        spec_parse_ssv_seal_plain_token(data, pos)
    }

    fn deserialize(src: &mut XdrReader) -> (r: Result<SsvSealPlainToken, XdrError>) {
        proof {
            reveal(spec_parse_ssv_seal_plain_token);
        }
        let v0 = match <XdrOpaque as XdrDeserialize>::deserialize(src) {
            Ok(x) => x,
            Err(e) => return Err(e),
        };
        let v1 = match <u32 as XdrDeserialize>::deserialize(src) {
            Ok(x) => x,
            Err(e) => return Err(e),
        };
        let v2 = match <XdrOpaque as XdrDeserialize>::deserialize(src) {
            Ok(x) => x,
            Err(e) => return Err(e),
        };
        let v3 = match <XdrOpaque as XdrDeserialize>::deserialize(src) {
            Ok(x) => x,
            Err(e) => return Err(e),
        };
        Ok(SsvSealPlainToken { confounder: v0, ssv_seq: v1, orig_plain: v2, pad: v3 })
    }
}

pub struct SsvSealCipherToken {
    ssv_seq: u32,
    iv: XdrOpaque,
    encr_data: XdrOpaque,
    hmac: XdrOpaque,
}

/// The deep view of [`SsvSealCipherToken`].
pub struct SpecSsvSealCipherToken {
    pub ssv_seq: u32,
    pub iv: Seq<u8>,
    pub encr_data: Seq<u8>,
    pub hmac: Seq<u8>,
}

impl DeepView for SsvSealCipherToken {
    type V = SpecSsvSealCipherToken;

    closed spec fn deep_view(&self) -> SpecSsvSealCipherToken {
        SpecSsvSealCipherToken { ssv_seq: self.ssv_seq.deep_view(), iv: self.iv.deep_view(), encr_data: self.encr_data.deep_view(), hmac: self.hmac.deep_view() }
    }
}

impl XdrSerialize for SsvSealCipherToken {
    open spec fn spec_emit(v: SpecSsvSealCipherToken) -> Emit {
        <u32 as XdrSerialize>::spec_emit(v.ssv_seq).and_then(<XdrOpaque as XdrSerialize>::spec_emit(v.iv)).and_then(<XdrOpaque as XdrSerialize>::spec_emit(v.encr_data)).and_then(<XdrOpaque as XdrSerialize>::spec_emit(v.hmac))
    }

    fn serialize(&self, dest: &mut Vec<u8>) -> (r: Result<(), XdrError>) {
        match self.ssv_seq.serialize(dest) {
            Ok(()) => {},
            Err(e) => return Err(e),
        }
        match self.iv.serialize(dest) {
            Ok(()) => {},
            Err(e) => return Err(e),
        }
        match self.encr_data.serialize(dest) {
            Ok(()) => {},
            Err(e) => return Err(e),
        }
        self.hmac.serialize(dest)
    }
}

/// Reading a [`SsvSealCipherToken`]: each field in turn.
#[verifier::opaque]
pub open spec fn spec_parse_ssv_seal_cipher_token(data: Seq<u8>, pos: int) -> Parse<SpecSsvSealCipherToken> {
    match <u32 as XdrDeserialize>::spec_parse(data, pos) {
        Parse::Done(v0, p1) => match <XdrOpaque as XdrDeserialize>::spec_parse(data, p1) {
            Parse::Done(v1, p2) => match <XdrOpaque as XdrDeserialize>::spec_parse(data, p2) {
                Parse::Done(v2, p3) => match <XdrOpaque as XdrDeserialize>::spec_parse(data, p3) {
                    Parse::Done(v3, p4) => Parse::Done(SpecSsvSealCipherToken { ssv_seq: v0, iv: v1, encr_data: v2, hmac: v3 }, p4),
                    Parse::Fails(e, q) => Parse::Fails(e, q),
                },
                Parse::Fails(e, q) => Parse::Fails(e, q),
            },
            Parse::Fails(e, q) => Parse::Fails(e, q),
        },
        Parse::Fails(e, q) => Parse::Fails(e, q),
    }
}

impl XdrDeserialize for SsvSealCipherToken {
    open spec fn spec_parse(data: Seq<u8>, pos: int) -> Parse<SpecSsvSealCipherToken> {
        spec_parse_ssv_seal_cipher_token(data, pos)
    }

    fn deserialize(src: &mut XdrReader) -> (r: Result<SsvSealCipherToken, XdrError>) {
        proof {
            reveal(spec_parse_ssv_seal_cipher_token);
        }
        let v0 = match <u32 as XdrDeserialize>::deserialize(src) {
            Ok(x) => x,
            Err(e) => return Err(e),
        };
        let v1 = match <XdrOpaque as XdrDeserialize>::deserialize(src) {
            Ok(x) => x,
            Err(e) => return Err(e),
        };
        let v2 = match <XdrOpaque as XdrDeserialize>::deserialize(src) {
            Ok(x) => x,
            Err(e) => return Err(e),
        };
        let v3 = match <XdrOpaque as XdrDeserialize>::deserialize(src) {
            Ok(x) => x,
            Err(e) => return Err(e),
        };
        Ok(SsvSealCipherToken { ssv_seq: v0, iv: v1, encr_data: v2, hmac: v3 })
    }
}

#[derive(Clone, Debug)]
pub struct NfsFsLocationsServer {
    currency: i32,
    info: XdrOpaque,
    server: Utf8StringCaseInsensitive,
}

/// The deep view of [`NfsFsLocationsServer`].
pub struct SpecNfsFsLocationsServer {
    pub currency: i32,
    pub info: Seq<u8>,
    pub server: Seq<u8>,
}

impl DeepView for NfsFsLocationsServer {
    type V = SpecNfsFsLocationsServer;

    closed spec fn deep_view(&self) -> SpecNfsFsLocationsServer {
        SpecNfsFsLocationsServer { currency: self.currency.deep_view(), info: self.info.deep_view(), server: self.server.deep_view() }
    }
}

impl XdrSerialize for NfsFsLocationsServer {
    open spec fn spec_emit(v: SpecNfsFsLocationsServer) -> Emit {
        <i32 as XdrSerialize>::spec_emit(v.currency).and_then(<XdrOpaque as XdrSerialize>::spec_emit(v.info)).and_then(<Utf8StringCaseInsensitive as XdrSerialize>::spec_emit(v.server))
    }

    fn serialize(&self, dest: &mut Vec<u8>) -> (r: Result<(), XdrError>) {
        match self.currency.serialize(dest) {
            Ok(()) => {},
            Err(e) => return Err(e),
        }
        match self.info.serialize(dest) {
            Ok(()) => {},
            Err(e) => return Err(e),
        }
        self.server.serialize(dest)
    }
}

/// Reading a [`NfsFsLocationsServer`]: each field in turn.
#[verifier::opaque]
pub open spec fn spec_parse_nfs_fs_locations_server(data: Seq<u8>, pos: int) -> Parse<SpecNfsFsLocationsServer> {
    match <i32 as XdrDeserialize>::spec_parse(data, pos) {
        Parse::Done(v0, p1) => match <XdrOpaque as XdrDeserialize>::spec_parse(data, p1) {
            Parse::Done(v1, p2) => match <Utf8StringCaseInsensitive as XdrDeserialize>::spec_parse(data, p2) {
                Parse::Done(v2, p3) => Parse::Done(SpecNfsFsLocationsServer { currency: v0, info: v1, server: v2 }, p3),
                Parse::Fails(e, q) => Parse::Fails(e, q),
            },
            Parse::Fails(e, q) => Parse::Fails(e, q),
        },
        Parse::Fails(e, q) => Parse::Fails(e, q),
    }
}

impl XdrDeserialize for NfsFsLocationsServer {
    open spec fn spec_parse(data: Seq<u8>, pos: int) -> Parse<SpecNfsFsLocationsServer> {
        spec_parse_nfs_fs_locations_server(data, pos)
    }

    fn deserialize(src: &mut XdrReader) -> (r: Result<NfsFsLocationsServer, XdrError>) {
        proof {
            reveal(spec_parse_nfs_fs_locations_server);
        }
        let v0 = match <i32 as XdrDeserialize>::deserialize(src) {
            Ok(x) => x,
            Err(e) => return Err(e),
        };
        let v1 = match <XdrOpaque as XdrDeserialize>::deserialize(src) {
            Ok(x) => x,
            Err(e) => return Err(e),
        };
        let v2 = match <Utf8StringCaseInsensitive as XdrDeserialize>::deserialize(src) {
            Ok(x) => x,
            Err(e) => return Err(e),
        };
        Ok(NfsFsLocationsServer { currency: v0, info: v1, server: v2 })
    }
}

#[derive(Clone, Debug)]
pub struct NfsFsLocationsItem {
    entries: Vec<NfsFsLocationsServer>,
    rootpath: NfsPathName,
}

/// The deep view of [`NfsFsLocationsItem`].
pub struct SpecNfsFsLocationsItem {
    pub entries: Seq<SpecNfsFsLocationsServer>,
    pub rootpath: Seq<Seq<u8>>,
}

impl DeepView for NfsFsLocationsItem {
    type V = SpecNfsFsLocationsItem;

    closed spec fn deep_view(&self) -> SpecNfsFsLocationsItem {
        SpecNfsFsLocationsItem { entries: self.entries.deep_view(), rootpath: self.rootpath.deep_view() }
    }
}

impl XdrSerialize for NfsFsLocationsItem {
    open spec fn spec_emit(v: SpecNfsFsLocationsItem) -> Emit {
        spec_vec_emit::<NfsFsLocationsServer>(v.entries).and_then(<NfsPathName as XdrSerialize>::spec_emit(v.rootpath))
    }

    fn serialize(&self, dest: &mut Vec<u8>) -> (r: Result<(), XdrError>) {
        match serialize_vec_of(dest, &self.entries) {
            Ok(()) => {},
            Err(e) => return Err(e),
        }
        self.rootpath.serialize(dest)
    }
}

/// Reading a [`NfsFsLocationsItem`]: each field in turn.
#[verifier::opaque]
pub open spec fn spec_parse_nfs_fs_locations_item(data: Seq<u8>, pos: int) -> Parse<SpecNfsFsLocationsItem> {
    match spec_vec_parse::<NfsFsLocationsServer>(data, pos) {
        Parse::Done(v0, p1) => match <NfsPathName as XdrDeserialize>::spec_parse(data, p1) {
            Parse::Done(v1, p2) => Parse::Done(SpecNfsFsLocationsItem { entries: v0, rootpath: v1 }, p2),
            Parse::Fails(e, q) => Parse::Fails(e, q),
        },
        Parse::Fails(e, q) => Parse::Fails(e, q),
    }
}

impl XdrDeserialize for NfsFsLocationsItem {
    open spec fn spec_parse(data: Seq<u8>, pos: int) -> Parse<SpecNfsFsLocationsItem> {
        spec_parse_nfs_fs_locations_item(data, pos)
    }

    fn deserialize(src: &mut XdrReader) -> (r: Result<NfsFsLocationsItem, XdrError>) {
        proof {
            reveal(spec_parse_nfs_fs_locations_item);
        }
        let v0 = match deserialize_vec::<NfsFsLocationsServer>(src) {
            Ok(x) => x,
            Err(e) => return Err(e),
        };
        let v1 = match <NfsPathName as XdrDeserialize>::deserialize(src) {
            Ok(x) => x,
            Err(e) => return Err(e),
        };
        Ok(NfsFsLocationsItem { entries: v0, rootpath: v1 })
    }
}

#[derive(Clone, Debug)]
pub struct NfsFsLocationsInfo {
    flags: u32,
    valid_for: i32,
    fs_root: NfsPathName,
    items: Vec<NfsFsLocationsItem>,
}

/// The deep view of [`NfsFsLocationsInfo`].
pub struct SpecNfsFsLocationsInfo {
    pub flags: u32,
    pub valid_for: i32,
    pub fs_root: Seq<Seq<u8>>,
    pub items: Seq<SpecNfsFsLocationsItem>,
}

impl DeepView for NfsFsLocationsInfo {
    type V = SpecNfsFsLocationsInfo;

    closed spec fn deep_view(&self) -> SpecNfsFsLocationsInfo {
        SpecNfsFsLocationsInfo { flags: self.flags.deep_view(), valid_for: self.valid_for.deep_view(), fs_root: self.fs_root.deep_view(), items: self.items.deep_view() }
    }
}

impl XdrSerialize for NfsFsLocationsInfo {
    open spec fn spec_emit(v: SpecNfsFsLocationsInfo) -> Emit {
        <u32 as XdrSerialize>::spec_emit(v.flags).and_then(<i32 as XdrSerialize>::spec_emit(v.valid_for)).and_then(<NfsPathName as XdrSerialize>::spec_emit(v.fs_root)).and_then(spec_vec_emit::<NfsFsLocationsItem>(v.items))
    }

    fn serialize(&self, dest: &mut Vec<u8>) -> (r: Result<(), XdrError>) {
        match self.flags.serialize(dest) {
            Ok(()) => {},
            Err(e) => return Err(e),
        }
        match self.valid_for.serialize(dest) {
            Ok(()) => {},
            Err(e) => return Err(e),
        }
        match self.fs_root.serialize(dest) {
            Ok(()) => {},
            Err(e) => return Err(e),
        }
        serialize_vec_of(dest, &self.items)
    }
}

/// Reading a [`NfsFsLocationsInfo`]: each field in turn.
#[verifier::opaque]
pub open spec fn spec_parse_nfs_fs_locations_info(data: Seq<u8>, pos: int) -> Parse<SpecNfsFsLocationsInfo> {
    match <u32 as XdrDeserialize>::spec_parse(data, pos) {
        Parse::Done(v0, p1) => match <i32 as XdrDeserialize>::spec_parse(data, p1) {
            Parse::Done(v1, p2) => match <NfsPathName as XdrDeserialize>::spec_parse(data, p2) {
                Parse::Done(v2, p3) => match spec_vec_parse::<NfsFsLocationsItem>(data, p3) {
                    Parse::Done(v3, p4) => Parse::Done(SpecNfsFsLocationsInfo { flags: v0, valid_for: v1, fs_root: v2, items: v3 }, p4),
                    Parse::Fails(e, q) => Parse::Fails(e, q),
                },
                Parse::Fails(e, q) => Parse::Fails(e, q),
            },
            Parse::Fails(e, q) => Parse::Fails(e, q),
        },
        Parse::Fails(e, q) => Parse::Fails(e, q),
    }
}

impl XdrDeserialize for NfsFsLocationsInfo {
    open spec fn spec_parse(data: Seq<u8>, pos: int) -> Parse<SpecNfsFsLocationsInfo> {
        spec_parse_nfs_fs_locations_info(data, pos)
    }

    fn deserialize(src: &mut XdrReader) -> (r: Result<NfsFsLocationsInfo, XdrError>) {
        proof {
            reveal(spec_parse_nfs_fs_locations_info);
        }
        let v0 = match <u32 as XdrDeserialize>::deserialize(src) {
            Ok(x) => x,
            Err(e) => return Err(e),
        };
        let v1 = match <i32 as XdrDeserialize>::deserialize(src) {
            Ok(x) => x,
            Err(e) => return Err(e),
        };
        let v2 = match <NfsPathName as XdrDeserialize>::deserialize(src) {
            Ok(x) => x,
            Err(e) => return Err(e),
        };
        let v3 = match deserialize_vec::<NfsFsLocationsItem>(src) {
            Ok(x) => x,
            Err(e) => return Err(e),
        };
        Ok(NfsFsLocationsInfo { flags: v0, valid_for: v1, fs_root: v2, items: v3 })
    }
}

pub type NflUtil = u32;

/// Encoded in the `loh_body` field of a layout hint.
pub struct NfsFileLayoutHint {
    care: u32,
    util: NflUtil,
    stripe_count: Count,
}

/// The deep view of [`NfsFileLayoutHint`].
pub struct SpecNfsFileLayoutHint {
    pub care: u32,
    pub util: u32,
    pub stripe_count: u32,
}

impl DeepView for NfsFileLayoutHint {
    type V = SpecNfsFileLayoutHint;

    closed spec fn deep_view(&self) -> SpecNfsFileLayoutHint {
        SpecNfsFileLayoutHint { care: self.care.deep_view(), util: self.util.deep_view(), stripe_count: self.stripe_count.deep_view() }
    }
}

impl XdrSerialize for NfsFileLayoutHint {
    open spec fn spec_emit(v: SpecNfsFileLayoutHint) -> Emit {
        <u32 as XdrSerialize>::spec_emit(v.care).and_then(<NflUtil as XdrSerialize>::spec_emit(v.util)).and_then(<Count as XdrSerialize>::spec_emit(v.stripe_count))
    }

    fn serialize(&self, dest: &mut Vec<u8>) -> (r: Result<(), XdrError>) {
        match self.care.serialize(dest) {
            Ok(()) => {},
            Err(e) => return Err(e),
        }
        match self.util.serialize(dest) {
            Ok(()) => {},
            Err(e) => return Err(e),
        }
        self.stripe_count.serialize(dest)
    }
}

/// Reading a [`NfsFileLayoutHint`]: each field in turn.
#[verifier::opaque]
pub open spec fn spec_parse_nfs_file_layout_hint(data: Seq<u8>, pos: int) -> Parse<SpecNfsFileLayoutHint> {
    match <u32 as XdrDeserialize>::spec_parse(data, pos) {
        Parse::Done(v0, p1) => match <NflUtil as XdrDeserialize>::spec_parse(data, p1) {
            Parse::Done(v1, p2) => match <Count as XdrDeserialize>::spec_parse(data, p2) {
                Parse::Done(v2, p3) => Parse::Done(SpecNfsFileLayoutHint { care: v0, util: v1, stripe_count: v2 }, p3),
                Parse::Fails(e, q) => Parse::Fails(e, q),
            },
            Parse::Fails(e, q) => Parse::Fails(e, q),
        },
        Parse::Fails(e, q) => Parse::Fails(e, q),
    }
}

impl XdrDeserialize for NfsFileLayoutHint {
    open spec fn spec_parse(data: Seq<u8>, pos: int) -> Parse<SpecNfsFileLayoutHint> {
        spec_parse_nfs_file_layout_hint(data, pos)
    }

    fn deserialize(src: &mut XdrReader) -> (r: Result<NfsFileLayoutHint, XdrError>) {
        proof {
            reveal(spec_parse_nfs_file_layout_hint);
        }
        let v0 = match <u32 as XdrDeserialize>::deserialize(src) {
            Ok(x) => x,
            Err(e) => return Err(e),
        };
        let v1 = match <NflUtil as XdrDeserialize>::deserialize(src) {
            Ok(x) => x,
            Err(e) => return Err(e),
        };
        let v2 = match <Count as XdrDeserialize>::deserialize(src) {
            Ok(x) => x,
            Err(e) => return Err(e),
        };
        Ok(NfsFileLayoutHint { care: v0, util: v1, stripe_count: v2 })
    }
}

pub type MultipathList = Vec<NetAddress>;

pub struct NfsFileLayoutDsAddress {
    stripe_indices: Vec<u32>,
    multipath_ds_list: Vec<MultipathList>,
}

/// The deep view of [`NfsFileLayoutDsAddress`].
pub struct SpecNfsFileLayoutDsAddress {
    pub stripe_indices: Seq<u32>,
    pub multipath_ds_list: Seq<Seq<SpecNetAddress>>,
}

impl DeepView for NfsFileLayoutDsAddress {
    type V = SpecNfsFileLayoutDsAddress;

    closed spec fn deep_view(&self) -> SpecNfsFileLayoutDsAddress {
        SpecNfsFileLayoutDsAddress { stripe_indices: self.stripe_indices.deep_view(), multipath_ds_list: self.multipath_ds_list.deep_view() }
    }
}

impl XdrSerialize for NfsFileLayoutDsAddress {
    open spec fn spec_emit(v: SpecNfsFileLayoutDsAddress) -> Emit {
        <Vec<u32> as XdrSerialize>::spec_emit(v.stripe_indices).and_then(spec_vecs_emit::<NetAddress>(v.multipath_ds_list))
    }

    fn serialize(&self, dest: &mut Vec<u8>) -> (r: Result<(), XdrError>) {
        match self.stripe_indices.serialize(dest) {
            Ok(()) => {},
            Err(e) => return Err(e),
        }
        serialize_vec_vec_of(dest, &self.multipath_ds_list)
    }
}

/// Reading a [`NfsFileLayoutDsAddress`]: each field in turn.
#[verifier::opaque]
pub open spec fn spec_parse_nfs_file_layout_ds_address(data: Seq<u8>, pos: int) -> Parse<SpecNfsFileLayoutDsAddress> {
    match <Vec<u32> as XdrDeserialize>::spec_parse(data, pos) {
        Parse::Done(v0, p1) => match spec_vecs_parse::<NetAddress>(data, p1) {
            Parse::Done(v1, p2) => Parse::Done(SpecNfsFileLayoutDsAddress { stripe_indices: v0, multipath_ds_list: v1 }, p2),
            Parse::Fails(e, q) => Parse::Fails(e, q),
        },
        Parse::Fails(e, q) => Parse::Fails(e, q),
    }
}

impl XdrDeserialize for NfsFileLayoutDsAddress {
    open spec fn spec_parse(data: Seq<u8>, pos: int) -> Parse<SpecNfsFileLayoutDsAddress> {
        spec_parse_nfs_file_layout_ds_address(data, pos)
    }

    fn deserialize(src: &mut XdrReader) -> (r: Result<NfsFileLayoutDsAddress, XdrError>) {
        proof {
            reveal(spec_parse_nfs_file_layout_ds_address);
        }
        let v0 = match <Vec<u32> as XdrDeserialize>::deserialize(src) {
            Ok(x) => x,
            Err(e) => return Err(e),
        };
        let v1 = match deserialize_vec_vec::<NetAddress>(src) {
            Ok(x) => x,
            Err(e) => return Err(e),
        };
        Ok(NfsFileLayoutDsAddress { stripe_indices: v0, multipath_ds_list: v1 })
    }
}

pub struct NfsFileLayout {
    device_id: DeviceId,
    util: NflUtil,
    first_stripe_index: u32,
    pattern_offset: Offset,
    fh_list: Vec<NfsFh>,
}

/// The deep view of [`NfsFileLayout`].
pub struct SpecNfsFileLayout {
    pub device_id: Seq<u8>,
    pub util: u32,
    pub first_stripe_index: u32,
    pub pattern_offset: u64,
    pub fh_list: Seq<Seq<u8>>,
}

impl DeepView for NfsFileLayout {
    type V = SpecNfsFileLayout;

    closed spec fn deep_view(&self) -> SpecNfsFileLayout {
        SpecNfsFileLayout { device_id: self.device_id.deep_view(), util: self.util.deep_view(), first_stripe_index: self.first_stripe_index.deep_view(), pattern_offset: self.pattern_offset.deep_view(), fh_list: self.fh_list.deep_view() }
    }
}

impl XdrSerialize for NfsFileLayout {
    open spec fn spec_emit(v: SpecNfsFileLayout) -> Emit {
        <DeviceId as XdrSerialize>::spec_emit(v.device_id).and_then(<NflUtil as XdrSerialize>::spec_emit(v.util)).and_then(<u32 as XdrSerialize>::spec_emit(v.first_stripe_index)).and_then(<Offset as XdrSerialize>::spec_emit(v.pattern_offset)).and_then(spec_vec_emit::<NfsFh>(v.fh_list))
    }

    #[verifier::spinoff_prover]
    #[verifier::rlimit(40)]
    fn serialize(&self, dest: &mut Vec<u8>) -> (r: Result<(), XdrError>) {
        match self.device_id.serialize(dest) {
            Ok(()) => {},
            Err(e) => return Err(e),
        }
        match self.util.serialize(dest) {
            Ok(()) => {},
            Err(e) => return Err(e),
        }
        match self.first_stripe_index.serialize(dest) {
            Ok(()) => {},
            Err(e) => return Err(e),
        }
        match self.pattern_offset.serialize(dest) {
            Ok(()) => {},
            Err(e) => return Err(e),
        }
        serialize_vec_of(dest, &self.fh_list)
    }
}

/// Reading a [`NfsFileLayout`]: each field in turn.
#[verifier::opaque]
pub open spec fn spec_parse_nfs_file_layout(data: Seq<u8>, pos: int) -> Parse<SpecNfsFileLayout> {
    match <DeviceId as XdrDeserialize>::spec_parse(data, pos) {
        Parse::Done(v0, p1) => match <NflUtil as XdrDeserialize>::spec_parse(data, p1) {
            Parse::Done(v1, p2) => match <u32 as XdrDeserialize>::spec_parse(data, p2) {
                Parse::Done(v2, p3) => match <Offset as XdrDeserialize>::spec_parse(data, p3) {
                    Parse::Done(v3, p4) => match spec_vec_parse::<NfsFh>(data, p4) {
                        Parse::Done(v4, p5) => Parse::Done(SpecNfsFileLayout { device_id: v0, util: v1, first_stripe_index: v2, pattern_offset: v3, fh_list: v4 }, p5),
                        Parse::Fails(e, q) => Parse::Fails(e, q),
                    },
                    Parse::Fails(e, q) => Parse::Fails(e, q),
                },
                Parse::Fails(e, q) => Parse::Fails(e, q),
            },
            Parse::Fails(e, q) => Parse::Fails(e, q),
        },
        Parse::Fails(e, q) => Parse::Fails(e, q),
    }
}

impl XdrDeserialize for NfsFileLayout {
    open spec fn spec_parse(data: Seq<u8>, pos: int) -> Parse<SpecNfsFileLayout> {
        spec_parse_nfs_file_layout(data, pos)
    }

    fn deserialize(src: &mut XdrReader) -> (r: Result<NfsFileLayout, XdrError>) {
        proof {
            reveal(spec_parse_nfs_file_layout);
        }
        let v0 = match <DeviceId as XdrDeserialize>::deserialize(src) {
            Ok(x) => x,
            Err(e) => return Err(e),
        };
        let v1 = match <NflUtil as XdrDeserialize>::deserialize(src) {
            Ok(x) => x,
            Err(e) => return Err(e),
        };
        let v2 = match <u32 as XdrDeserialize>::deserialize(src) {
            Ok(x) => x,
            Err(e) => return Err(e),
        };
        let v3 = match <Offset as XdrDeserialize>::deserialize(src) {
            Ok(x) => x,
            Err(e) => return Err(e),
        };
        let v4 = match deserialize_vec::<NfsFh>(src) {
            Ok(x) => x,
            Err(e) => return Err(e),
        };
        Ok(NfsFileLayout { device_id: v0, util: v1, first_stripe_index: v2, pattern_offset: v3, fh_list: v4 })
    }
}

/// The arguments of `ACCESS`.
#[derive(Debug)]
pub struct AccessArgs {
    access: u32,
}

/// The deep view of [`AccessArgs`].
pub struct SpecAccessArgs {
    pub access: u32,
}

impl DeepView for AccessArgs {
    type V = SpecAccessArgs;

    closed spec fn deep_view(&self) -> SpecAccessArgs {
        SpecAccessArgs { access: self.access.deep_view() }
    }
}

impl XdrSerialize for AccessArgs {
    open spec fn spec_emit(v: SpecAccessArgs) -> Emit {
        <u32 as XdrSerialize>::spec_emit(v.access)
    }

    fn serialize(&self, dest: &mut Vec<u8>) -> (r: Result<(), XdrError>) {
        self.access.serialize(dest)
    }
}

/// Reading a [`AccessArgs`]: each field in turn.
#[verifier::opaque]
pub open spec fn spec_parse_access_args(data: Seq<u8>, pos: int) -> Parse<SpecAccessArgs> {
    match <u32 as XdrDeserialize>::spec_parse(data, pos) {
        Parse::Done(v0, p1) => Parse::Done(SpecAccessArgs { access: v0 }, p1),
        Parse::Fails(e, q) => Parse::Fails(e, q),
    }
}

impl XdrDeserialize for AccessArgs {
    open spec fn spec_parse(data: Seq<u8>, pos: int) -> Parse<SpecAccessArgs> {
        spec_parse_access_args(data, pos)
    }

    fn deserialize(src: &mut XdrReader) -> (r: Result<AccessArgs, XdrError>) {
        proof {
            reveal(spec_parse_access_args);
        }
        let v0 = match <u32 as XdrDeserialize>::deserialize(src) {
            Ok(x) => x,
            Err(e) => return Err(e),
        };
        Ok(AccessArgs { access: v0 })
    }
}

/// What a successful `ACCESS` answers.
#[derive(Debug)]
pub struct AccessOk {
    supported: u32,
    access: u32,
}

/// The deep view of [`AccessOk`].
pub struct SpecAccessOk {
    pub supported: u32,
    pub access: u32,
}

impl DeepView for AccessOk {
    type V = SpecAccessOk;

    closed spec fn deep_view(&self) -> SpecAccessOk {
        SpecAccessOk { supported: self.supported.deep_view(), access: self.access.deep_view() }
    }
}

impl XdrSerialize for AccessOk {
    open spec fn spec_emit(v: SpecAccessOk) -> Emit {
        <u32 as XdrSerialize>::spec_emit(v.supported).and_then(<u32 as XdrSerialize>::spec_emit(v.access))
    }

    fn serialize(&self, dest: &mut Vec<u8>) -> (r: Result<(), XdrError>) {
        match self.supported.serialize(dest) {
            Ok(()) => {},
            Err(e) => return Err(e),
        }
        self.access.serialize(dest)
    }
}

/// Reading a [`AccessOk`]: each field in turn.
#[verifier::opaque]
pub open spec fn spec_parse_access_ok(data: Seq<u8>, pos: int) -> Parse<SpecAccessOk> {
    match <u32 as XdrDeserialize>::spec_parse(data, pos) {
        Parse::Done(v0, p1) => match <u32 as XdrDeserialize>::spec_parse(data, p1) {
            Parse::Done(v1, p2) => Parse::Done(SpecAccessOk { supported: v0, access: v1 }, p2),
            Parse::Fails(e, q) => Parse::Fails(e, q),
        },
        Parse::Fails(e, q) => Parse::Fails(e, q),
    }
}

impl XdrDeserialize for AccessOk {
    open spec fn spec_parse(data: Seq<u8>, pos: int) -> Parse<SpecAccessOk> {
        spec_parse_access_ok(data, pos)
    }

    fn deserialize(src: &mut XdrReader) -> (r: Result<AccessOk, XdrError>) {
        proof {
            reveal(spec_parse_access_ok);
        }
        let v0 = match <u32 as XdrDeserialize>::deserialize(src) {
            Ok(x) => x,
            Err(e) => return Err(e),
        };
        let v1 = match <u32 as XdrDeserialize>::deserialize(src) {
            Ok(x) => x,
            Err(e) => return Err(e),
        };
        Ok(AccessOk { supported: v0, access: v1 })
    }
}

impl AsNfsStatus for AccessOk {
    open spec fn spec_status(&self) -> NfsStatus {
        NfsStatus::Success
    }

    open spec fn spec_has_body(&self) -> bool {
        true
    }

    fn as_status(&self) -> (s: NfsStatus) {
        NfsStatus::Success
    }

    fn has_body(&self) -> (b: bool) {
        true
    }
}

/// What `ACCESS` answers: its result, or the status it failed with.
pub type AccessResult = Result<AccessOk, NfsStatus>;

/// The arguments of `CLOSE`.
#[derive(Debug)]
pub struct CloseArgs {
    seq_id: SeqId,
    open_state_id: StateId,
}

/// The deep view of [`CloseArgs`].
pub struct SpecCloseArgs {
    pub seq_id: u32,
    pub open_state_id: SpecStateId,
}

impl DeepView for CloseArgs {
    type V = SpecCloseArgs;

    closed spec fn deep_view(&self) -> SpecCloseArgs {
        SpecCloseArgs { seq_id: self.seq_id.deep_view(), open_state_id: self.open_state_id.deep_view() }
    }
}

impl XdrSerialize for CloseArgs {
    open spec fn spec_emit(v: SpecCloseArgs) -> Emit {
        <SeqId as XdrSerialize>::spec_emit(v.seq_id).and_then(<StateId as XdrSerialize>::spec_emit(v.open_state_id))
    }

    fn serialize(&self, dest: &mut Vec<u8>) -> (r: Result<(), XdrError>) {
        match self.seq_id.serialize(dest) {
            Ok(()) => {},
            Err(e) => return Err(e),
        }
        self.open_state_id.serialize(dest)
    }
}

/// Reading a [`CloseArgs`]: each field in turn.
#[verifier::opaque]
pub open spec fn spec_parse_close_args(data: Seq<u8>, pos: int) -> Parse<SpecCloseArgs> {
    match <SeqId as XdrDeserialize>::spec_parse(data, pos) {
        Parse::Done(v0, p1) => match <StateId as XdrDeserialize>::spec_parse(data, p1) {
            Parse::Done(v1, p2) => Parse::Done(SpecCloseArgs { seq_id: v0, open_state_id: v1 }, p2),
            Parse::Fails(e, q) => Parse::Fails(e, q),
        },
        Parse::Fails(e, q) => Parse::Fails(e, q),
    }
}

impl XdrDeserialize for CloseArgs {
    open spec fn spec_parse(data: Seq<u8>, pos: int) -> Parse<SpecCloseArgs> {
        spec_parse_close_args(data, pos)
    }

    fn deserialize(src: &mut XdrReader) -> (r: Result<CloseArgs, XdrError>) {
        proof {
            reveal(spec_parse_close_args);
        }
        let v0 = match <SeqId as XdrDeserialize>::deserialize(src) {
            Ok(x) => x,
            Err(e) => return Err(e),
        };
        let v1 = match <StateId as XdrDeserialize>::deserialize(src) {
            Ok(x) => x,
            Err(e) => return Err(e),
        };
        Ok(CloseArgs { seq_id: v0, open_state_id: v1 })
    }
}

/// What a successful `CLOSE` answers.
#[derive(Debug)]
pub struct CloseOk {
    state_id: StateId,
}

/// The deep view of [`CloseOk`].
pub struct SpecCloseOk {
    pub state_id: SpecStateId,
}

impl DeepView for CloseOk {
    type V = SpecCloseOk;

    closed spec fn deep_view(&self) -> SpecCloseOk {
        SpecCloseOk { state_id: self.state_id.deep_view() }
    }
}

impl XdrSerialize for CloseOk {
    open spec fn spec_emit(v: SpecCloseOk) -> Emit {
        <StateId as XdrSerialize>::spec_emit(v.state_id)
    }

    fn serialize(&self, dest: &mut Vec<u8>) -> (r: Result<(), XdrError>) {
        self.state_id.serialize(dest)
    }
}

/// Reading a [`CloseOk`]: each field in turn.
#[verifier::opaque]
pub open spec fn spec_parse_close_ok(data: Seq<u8>, pos: int) -> Parse<SpecCloseOk> {
    match <StateId as XdrDeserialize>::spec_parse(data, pos) {
        Parse::Done(v0, p1) => Parse::Done(SpecCloseOk { state_id: v0 }, p1),
        Parse::Fails(e, q) => Parse::Fails(e, q),
    }
}

impl XdrDeserialize for CloseOk {
    open spec fn spec_parse(data: Seq<u8>, pos: int) -> Parse<SpecCloseOk> {
        spec_parse_close_ok(data, pos)
    }

    fn deserialize(src: &mut XdrReader) -> (r: Result<CloseOk, XdrError>) {
        proof {
            reveal(spec_parse_close_ok);
        }
        let v0 = match <StateId as XdrDeserialize>::deserialize(src) {
            Ok(x) => x,
            Err(e) => return Err(e),
        };
        Ok(CloseOk { state_id: v0 })
    }
}

impl AsNfsStatus for CloseOk {
    open spec fn spec_status(&self) -> NfsStatus {
        NfsStatus::Success
    }

    open spec fn spec_has_body(&self) -> bool {
        true
    }

    fn as_status(&self) -> (s: NfsStatus) {
        NfsStatus::Success
    }

    fn has_body(&self) -> (b: bool) {
        true
    }
}

/// What `CLOSE` answers: its result, or the status it failed with.
pub type CloseResult = Result<CloseOk, NfsStatus>;

/// The arguments of `COMMIT`.
#[derive(Debug)]
pub struct CommitArgs {
    offset: Offset,
    count: Count,
}

/// The deep view of [`CommitArgs`].
pub struct SpecCommitArgs {
    pub offset: u64,
    pub count: u32,
}

impl DeepView for CommitArgs {
    type V = SpecCommitArgs;

    closed spec fn deep_view(&self) -> SpecCommitArgs {
        SpecCommitArgs { offset: self.offset.deep_view(), count: self.count.deep_view() }
    }
}

impl XdrSerialize for CommitArgs {
    open spec fn spec_emit(v: SpecCommitArgs) -> Emit {
        <Offset as XdrSerialize>::spec_emit(v.offset).and_then(<Count as XdrSerialize>::spec_emit(v.count))
    }

    fn serialize(&self, dest: &mut Vec<u8>) -> (r: Result<(), XdrError>) {
        match self.offset.serialize(dest) {
            Ok(()) => {},
            Err(e) => return Err(e),
        }
        self.count.serialize(dest)
    }
}

/// Reading a [`CommitArgs`]: each field in turn.
#[verifier::opaque]
pub open spec fn spec_parse_commit_args(data: Seq<u8>, pos: int) -> Parse<SpecCommitArgs> {
    match <Offset as XdrDeserialize>::spec_parse(data, pos) {
        Parse::Done(v0, p1) => match <Count as XdrDeserialize>::spec_parse(data, p1) {
            Parse::Done(v1, p2) => Parse::Done(SpecCommitArgs { offset: v0, count: v1 }, p2),
            Parse::Fails(e, q) => Parse::Fails(e, q),
        },
        Parse::Fails(e, q) => Parse::Fails(e, q),
    }
}

impl XdrDeserialize for CommitArgs {
    open spec fn spec_parse(data: Seq<u8>, pos: int) -> Parse<SpecCommitArgs> {
        spec_parse_commit_args(data, pos)
    }

    fn deserialize(src: &mut XdrReader) -> (r: Result<CommitArgs, XdrError>) {
        proof {
            reveal(spec_parse_commit_args);
        }
        let v0 = match <Offset as XdrDeserialize>::deserialize(src) {
            Ok(x) => x,
            Err(e) => return Err(e),
        };
        let v1 = match <Count as XdrDeserialize>::deserialize(src) {
            Ok(x) => x,
            Err(e) => return Err(e),
        };
        Ok(CommitArgs { offset: v0, count: v1 })
    }
}

/// What a successful `COMMIT` answers.
#[derive(Debug)]
pub struct CommitOk {
    verifier: Verifier,
}

/// The deep view of [`CommitOk`].
pub struct SpecCommitOk {
    pub verifier: Seq<u8>,
}

impl DeepView for CommitOk {
    type V = SpecCommitOk;

    closed spec fn deep_view(&self) -> SpecCommitOk {
        SpecCommitOk { verifier: self.verifier.deep_view() }
    }
}

impl XdrSerialize for CommitOk {
    open spec fn spec_emit(v: SpecCommitOk) -> Emit {
        <Verifier as XdrSerialize>::spec_emit(v.verifier)
    }

    fn serialize(&self, dest: &mut Vec<u8>) -> (r: Result<(), XdrError>) {
        self.verifier.serialize(dest)
    }
}

/// Reading a [`CommitOk`]: each field in turn.
#[verifier::opaque]
pub open spec fn spec_parse_commit_ok(data: Seq<u8>, pos: int) -> Parse<SpecCommitOk> {
    match <Verifier as XdrDeserialize>::spec_parse(data, pos) {
        Parse::Done(v0, p1) => Parse::Done(SpecCommitOk { verifier: v0 }, p1),
        Parse::Fails(e, q) => Parse::Fails(e, q),
    }
}

impl XdrDeserialize for CommitOk {
    open spec fn spec_parse(data: Seq<u8>, pos: int) -> Parse<SpecCommitOk> {
        spec_parse_commit_ok(data, pos)
    }

    fn deserialize(src: &mut XdrReader) -> (r: Result<CommitOk, XdrError>) {
        proof {
            reveal(spec_parse_commit_ok);
        }
        let v0 = match <Verifier as XdrDeserialize>::deserialize(src) {
            Ok(x) => x,
            Err(e) => return Err(e),
        };
        Ok(CommitOk { verifier: v0 })
    }
}

impl AsNfsStatus for CommitOk {
    open spec fn spec_status(&self) -> NfsStatus {
        NfsStatus::Success
    }

    open spec fn spec_has_body(&self) -> bool {
        true
    }

    fn as_status(&self) -> (s: NfsStatus) {
        NfsStatus::Success
    }

    fn has_body(&self) -> (b: bool) {
        true
    }
}

/// What `COMMIT` answers: its result, or the status it failed with.
pub type CommitResult = Result<CommitOk, NfsStatus>;

/// The kind of object that `CREATE` makes, with what that kind needs.
#[derive(Debug)]
pub enum CreateType {
    Link(LinkText),
    Block(NfsSpecData),
    Character(NfsSpecData),
    Socket,
    Fifo,
    Directory,
    /// A file type that `CREATE` cannot make; writing it panics.
    Invalid(NfsFileType),
}

/// The deep view of [`CreateType`].
pub enum SpecCreateType {
    Link(Seq<u8>),
    Block(NfsSpecData),
    Character(NfsSpecData),
    Socket,
    Fifo,
    Directory,
    Invalid(NfsFileType),
}

impl DeepView for CreateType {
    type V = SpecCreateType;

    open spec fn deep_view(&self) -> SpecCreateType {
        match self {
            CreateType::Link(x) => SpecCreateType::Link(x.deep_view()),
            CreateType::Block(x) => SpecCreateType::Block(x.deep_view()),
            CreateType::Character(x) => SpecCreateType::Character(x.deep_view()),
            CreateType::Socket => SpecCreateType::Socket,
            CreateType::Fifo => SpecCreateType::Fifo,
            CreateType::Directory => SpecCreateType::Directory,
            CreateType::Invalid(x) => SpecCreateType::Invalid(x.deep_view()),
        }
    }
}

impl XdrSerialize for CreateType {
    open spec fn spec_emit(v: SpecCreateType) -> Emit {
        match v {
            SpecCreateType::Link(x) => spec_u32_emit(NfsFileType::Link.spec_to_u32()).and_then(<LinkText as XdrSerialize>::spec_emit(x)),
            SpecCreateType::Block(x) => spec_u32_emit(NfsFileType::Block.spec_to_u32()).and_then(<NfsSpecData as XdrSerialize>::spec_emit(x)),
            SpecCreateType::Character(x) => spec_u32_emit(NfsFileType::Character.spec_to_u32()).and_then(<NfsSpecData as XdrSerialize>::spec_emit(x)),
            SpecCreateType::Socket => spec_u32_emit(NfsFileType::Socket.spec_to_u32()),
            SpecCreateType::Fifo => spec_u32_emit(NfsFileType::Fifo.spec_to_u32()),
            SpecCreateType::Directory => spec_u32_emit(NfsFileType::Directory.spec_to_u32()),
            SpecCreateType::Invalid(_) => Emit::Panics,
        }
    }

    fn serialize(&self, dest: &mut Vec<u8>) -> (r: Result<(), XdrError>) {
        match self {
            CreateType::Link(x) => {
                match NfsFileType::Link.serialize(dest) {
                    Ok(()) => {},
                    Err(e) => return Err(e),
                }
                x.serialize(dest)
            },
            CreateType::Block(x) => {
                match NfsFileType::Block.serialize(dest) {
                    Ok(()) => {},
                    Err(e) => return Err(e),
                }
                x.serialize(dest)
            },
            CreateType::Character(x) => {
                match NfsFileType::Character.serialize(dest) {
                    Ok(()) => {},
                    Err(e) => return Err(e),
                }
                x.serialize(dest)
            },
            CreateType::Socket => NfsFileType::Socket.serialize(dest),
            CreateType::Fifo => NfsFileType::Fifo.serialize(dest),
            CreateType::Directory => NfsFileType::Directory.serialize(dest),
            CreateType::Invalid(_) => {
                assert(false);
                Err(XdrError::Other)
            },
        }
    }
}

/// Reading a [`CreateType`]: its tag, then what the tag calls for.
#[verifier::opaque]
pub open spec fn spec_parse_create_type(data: Seq<u8>, pos: int) -> Parse<SpecCreateType> {
        match <NfsFileType as XdrDeserialize>::spec_parse(data, pos) {
            Parse::Done(t, p) => match t {
                NfsFileType::Link => match <LinkText as XdrDeserialize>::spec_parse(data, p) {
                    Parse::Done(x, q) => Parse::Done(SpecCreateType::Link(x), q),
                    Parse::Fails(e, q) => Parse::Fails(e, q),
                },
                NfsFileType::Block => match <NfsSpecData as XdrDeserialize>::spec_parse(data, p) {
                    Parse::Done(x, q) => Parse::Done(SpecCreateType::Block(x), q),
                    Parse::Fails(e, q) => Parse::Fails(e, q),
                },
                NfsFileType::Character => match <NfsSpecData as XdrDeserialize>::spec_parse(data, p) {
                    Parse::Done(x, q) => Parse::Done(SpecCreateType::Character(x), q),
                    Parse::Fails(e, q) => Parse::Fails(e, q),
                },
                NfsFileType::Socket => Parse::Done(SpecCreateType::Socket, p),
                NfsFileType::Fifo => Parse::Done(SpecCreateType::Fifo, p),
                NfsFileType::Directory => Parse::Done(SpecCreateType::Directory, p),
                NfsFileType::Regular | NfsFileType::AttributeDirectory | NfsFileType::NamedAttribute => Parse::Done(SpecCreateType::Invalid(t), p),
            },
            Parse::Fails(e, p) => Parse::Fails(e, p),
        }
}

impl XdrDeserialize for CreateType {
    open spec fn spec_parse(data: Seq<u8>, pos: int) -> Parse<SpecCreateType> {
        spec_parse_create_type(data, pos)
    }

    fn deserialize(src: &mut XdrReader) -> (r: Result<CreateType, XdrError>) {
        proof {
            reveal(spec_parse_create_type);
        }
        let t = match <NfsFileType as XdrDeserialize>::deserialize(src) {
            Ok(t) => t,
            Err(e) => return Err(e),
        };
        match t {
            NfsFileType::Link => match <LinkText as XdrDeserialize>::deserialize(src) {
                Ok(x) => Ok(CreateType::Link(x)),
                Err(e) => Err(e),
            },
            NfsFileType::Block => match <NfsSpecData as XdrDeserialize>::deserialize(src) {
                Ok(x) => Ok(CreateType::Block(x)),
                Err(e) => Err(e),
            },
            NfsFileType::Character => match <NfsSpecData as XdrDeserialize>::deserialize(src) {
                Ok(x) => Ok(CreateType::Character(x)),
                Err(e) => Err(e),
            },
            NfsFileType::Socket => Ok(CreateType::Socket),
            NfsFileType::Fifo => Ok(CreateType::Fifo),
            NfsFileType::Directory => Ok(CreateType::Directory),
            NfsFileType::Regular | NfsFileType::AttributeDirectory | NfsFileType::NamedAttribute => Ok(CreateType::Invalid(t)),
        }
    }
}

/// The arguments of `CREATE`.
#[derive(Debug)]
pub struct CreateArgs {
    object_type: CreateType,
    object_name: Component,
    create_attrs: FileAttrs,
}

/// The deep view of [`CreateArgs`].
pub struct SpecCreateArgs {
    pub object_type: SpecCreateType,
    pub object_name: Seq<u8>,
    pub create_attrs: SpecFileAttrs,
}

impl DeepView for CreateArgs {
    type V = SpecCreateArgs;

    closed spec fn deep_view(&self) -> SpecCreateArgs {
        SpecCreateArgs { object_type: self.object_type.deep_view(), object_name: self.object_name.deep_view(), create_attrs: self.create_attrs.deep_view() }
    }
}

impl XdrSerialize for CreateArgs {
    open spec fn spec_emit(v: SpecCreateArgs) -> Emit {
        <CreateType as XdrSerialize>::spec_emit(v.object_type).and_then(<Component as XdrSerialize>::spec_emit(v.object_name)).and_then(<FileAttrs as XdrSerialize>::spec_emit(v.create_attrs))
    }

    fn serialize(&self, dest: &mut Vec<u8>) -> (r: Result<(), XdrError>) {
        match self.object_type.serialize(dest) {
            Ok(()) => {},
            Err(e) => return Err(e),
        }
        match self.object_name.serialize(dest) {
            Ok(()) => {},
            Err(e) => return Err(e),
        }
        self.create_attrs.serialize(dest)
    }
}

/// Reading a [`CreateArgs`]: each field in turn.
#[verifier::opaque]
pub open spec fn spec_parse_create_args(data: Seq<u8>, pos: int) -> Parse<SpecCreateArgs> {
    match <CreateType as XdrDeserialize>::spec_parse(data, pos) {
        Parse::Done(v0, p1) => match <Component as XdrDeserialize>::spec_parse(data, p1) {
            Parse::Done(v1, p2) => match <FileAttrs as XdrDeserialize>::spec_parse(data, p2) {
                Parse::Done(v2, p3) => Parse::Done(SpecCreateArgs { object_type: v0, object_name: v1, create_attrs: v2 }, p3),
                Parse::Fails(e, q) => Parse::Fails(e, q),
            },
            Parse::Fails(e, q) => Parse::Fails(e, q),
        },
        Parse::Fails(e, q) => Parse::Fails(e, q),
    }
}

impl XdrDeserialize for CreateArgs {
    open spec fn spec_parse(data: Seq<u8>, pos: int) -> Parse<SpecCreateArgs> {
        spec_parse_create_args(data, pos)
    }

    fn deserialize(src: &mut XdrReader) -> (r: Result<CreateArgs, XdrError>) {
        proof {
            reveal(spec_parse_create_args);
        }
        let v0 = match <CreateType as XdrDeserialize>::deserialize(src) {
            Ok(x) => x,
            Err(e) => return Err(e),
        };
        let v1 = match <Component as XdrDeserialize>::deserialize(src) {
            Ok(x) => x,
            Err(e) => return Err(e),
        };
        let v2 = match <FileAttrs as XdrDeserialize>::deserialize(src) {
            Ok(x) => x,
            Err(e) => return Err(e),
        };
        Ok(CreateArgs { object_type: v0, object_name: v1, create_attrs: v2 })
    }
}

/// What a successful `CREATE` answers.
#[derive(Debug)]
pub struct CreateOk {
    change_info: ChangeInfo,
    attrset: BitMap,
}

/// The deep view of [`CreateOk`].
pub struct SpecCreateOk {
    pub change_info: SpecChangeInfo,
    pub attrset: Seq<u32>,
}

impl DeepView for CreateOk {
    type V = SpecCreateOk;

    closed spec fn deep_view(&self) -> SpecCreateOk {
        SpecCreateOk { change_info: self.change_info.deep_view(), attrset: self.attrset.deep_view() }
    }
}

impl XdrSerialize for CreateOk {
    open spec fn spec_emit(v: SpecCreateOk) -> Emit {
        <ChangeInfo as XdrSerialize>::spec_emit(v.change_info).and_then(<BitMap as XdrSerialize>::spec_emit(v.attrset))
    }

    fn serialize(&self, dest: &mut Vec<u8>) -> (r: Result<(), XdrError>) {
        match self.change_info.serialize(dest) {
            Ok(()) => {},
            Err(e) => return Err(e),
        }
        self.attrset.serialize(dest)
    }
}

/// Reading a [`CreateOk`]: each field in turn.
#[verifier::opaque]
pub open spec fn spec_parse_create_ok(data: Seq<u8>, pos: int) -> Parse<SpecCreateOk> {
    match <ChangeInfo as XdrDeserialize>::spec_parse(data, pos) {
        Parse::Done(v0, p1) => match <BitMap as XdrDeserialize>::spec_parse(data, p1) {
            Parse::Done(v1, p2) => Parse::Done(SpecCreateOk { change_info: v0, attrset: v1 }, p2),
            Parse::Fails(e, q) => Parse::Fails(e, q),
        },
        Parse::Fails(e, q) => Parse::Fails(e, q),
    }
}

impl XdrDeserialize for CreateOk {
    open spec fn spec_parse(data: Seq<u8>, pos: int) -> Parse<SpecCreateOk> {
        spec_parse_create_ok(data, pos)
    }

    fn deserialize(src: &mut XdrReader) -> (r: Result<CreateOk, XdrError>) {
        proof {
            reveal(spec_parse_create_ok);
        }
        let v0 = match <ChangeInfo as XdrDeserialize>::deserialize(src) {
            Ok(x) => x,
            Err(e) => return Err(e),
        };
        let v1 = match <BitMap as XdrDeserialize>::deserialize(src) {
            Ok(x) => x,
            Err(e) => return Err(e),
        };
        Ok(CreateOk { change_info: v0, attrset: v1 })
    }
}

impl AsNfsStatus for CreateOk {
    open spec fn spec_status(&self) -> NfsStatus {
        NfsStatus::Success
    }

    open spec fn spec_has_body(&self) -> bool {
        true
    }

    fn as_status(&self) -> (s: NfsStatus) {
        NfsStatus::Success
    }

    fn has_body(&self) -> (b: bool) {
        true
    }
}

/// What `CREATE` answers: its result, or the status it failed with.
pub type CreateResult = Result<CreateOk, NfsStatus>;

/// The arguments of `DELEGPURGE`.
#[derive(Debug)]
pub struct PurgeDelegationsArgs {
    client_id: ClientId,
}

/// The deep view of [`PurgeDelegationsArgs`].
pub struct SpecPurgeDelegationsArgs {
    pub client_id: u64,
}

impl DeepView for PurgeDelegationsArgs {
    type V = SpecPurgeDelegationsArgs;

    closed spec fn deep_view(&self) -> SpecPurgeDelegationsArgs {
        SpecPurgeDelegationsArgs { client_id: self.client_id.deep_view() }
    }
}

impl XdrSerialize for PurgeDelegationsArgs {
    open spec fn spec_emit(v: SpecPurgeDelegationsArgs) -> Emit {
        <ClientId as XdrSerialize>::spec_emit(v.client_id)
    }

    fn serialize(&self, dest: &mut Vec<u8>) -> (r: Result<(), XdrError>) {
        self.client_id.serialize(dest)
    }
}

/// Reading a [`PurgeDelegationsArgs`]: each field in turn.
#[verifier::opaque]
pub open spec fn spec_parse_purge_delegations_args(data: Seq<u8>, pos: int) -> Parse<SpecPurgeDelegationsArgs> {
    match <ClientId as XdrDeserialize>::spec_parse(data, pos) {
        Parse::Done(v0, p1) => Parse::Done(SpecPurgeDelegationsArgs { client_id: v0 }, p1),
        Parse::Fails(e, q) => Parse::Fails(e, q),
    }
}

impl XdrDeserialize for PurgeDelegationsArgs {
    open spec fn spec_parse(data: Seq<u8>, pos: int) -> Parse<SpecPurgeDelegationsArgs> {
        spec_parse_purge_delegations_args(data, pos)
    }

    fn deserialize(src: &mut XdrReader) -> (r: Result<PurgeDelegationsArgs, XdrError>) {
        proof {
            reveal(spec_parse_purge_delegations_args);
        }
        let v0 = match <ClientId as XdrDeserialize>::deserialize(src) {
            Ok(x) => x,
            Err(e) => return Err(e),
        };
        Ok(PurgeDelegationsArgs { client_id: v0 })
    }
}

/// What `DELEGPURGE` answers: its result, or the status it failed with.
pub type PurgeDelegationsResult = Result<NfsStatus, NfsStatus>;

/// The arguments of `DELEGRETURN`.
#[derive(Debug)]
pub struct ReturnDelegationArgs {
    delegation_state_id: StateId,
}

/// The deep view of [`ReturnDelegationArgs`].
pub struct SpecReturnDelegationArgs {
    pub delegation_state_id: SpecStateId,
}

impl DeepView for ReturnDelegationArgs {
    type V = SpecReturnDelegationArgs;

    closed spec fn deep_view(&self) -> SpecReturnDelegationArgs {
        SpecReturnDelegationArgs { delegation_state_id: self.delegation_state_id.deep_view() }
    }
}

impl XdrSerialize for ReturnDelegationArgs {
    open spec fn spec_emit(v: SpecReturnDelegationArgs) -> Emit {
        <StateId as XdrSerialize>::spec_emit(v.delegation_state_id)
    }

    fn serialize(&self, dest: &mut Vec<u8>) -> (r: Result<(), XdrError>) {
        self.delegation_state_id.serialize(dest)
    }
}

/// Reading a [`ReturnDelegationArgs`]: each field in turn.
#[verifier::opaque]
pub open spec fn spec_parse_return_delegation_args(data: Seq<u8>, pos: int) -> Parse<SpecReturnDelegationArgs> {
    match <StateId as XdrDeserialize>::spec_parse(data, pos) {
        Parse::Done(v0, p1) => Parse::Done(SpecReturnDelegationArgs { delegation_state_id: v0 }, p1),
        Parse::Fails(e, q) => Parse::Fails(e, q),
    }
}

impl XdrDeserialize for ReturnDelegationArgs {
    open spec fn spec_parse(data: Seq<u8>, pos: int) -> Parse<SpecReturnDelegationArgs> {
        spec_parse_return_delegation_args(data, pos)
    }

    fn deserialize(src: &mut XdrReader) -> (r: Result<ReturnDelegationArgs, XdrError>) {
        proof {
            reveal(spec_parse_return_delegation_args);
        }
        let v0 = match <StateId as XdrDeserialize>::deserialize(src) {
            Ok(x) => x,
            Err(e) => return Err(e),
        };
        Ok(ReturnDelegationArgs { delegation_state_id: v0 })
    }
}

/// What `DELEGRETURN` answers: its result, or the status it failed with.
pub type ReturnDelegationResult = Result<NfsStatus, NfsStatus>;

/// The arguments of `GETATTR`.
#[derive(Debug)]
pub struct GetAttributesArgs {
    pub attr_request: BitMap,
}

/// The deep view of [`GetAttributesArgs`].
pub struct SpecGetAttributesArgs {
    pub attr_request: Seq<u32>,
}

impl DeepView for GetAttributesArgs {
    type V = SpecGetAttributesArgs;

    open spec fn deep_view(&self) -> SpecGetAttributesArgs {
        SpecGetAttributesArgs { attr_request: self.attr_request.deep_view() }
    }
}

impl XdrSerialize for GetAttributesArgs {
    open spec fn spec_emit(v: SpecGetAttributesArgs) -> Emit {
        <BitMap as XdrSerialize>::spec_emit(v.attr_request)
    }

    fn serialize(&self, dest: &mut Vec<u8>) -> (r: Result<(), XdrError>) {
        self.attr_request.serialize(dest)
    }
}

/// Reading a [`GetAttributesArgs`]: each field in turn.
#[verifier::opaque]
pub open spec fn spec_parse_get_attributes_args(data: Seq<u8>, pos: int) -> Parse<SpecGetAttributesArgs> {
    match <BitMap as XdrDeserialize>::spec_parse(data, pos) {
        Parse::Done(v0, p1) => Parse::Done(SpecGetAttributesArgs { attr_request: v0 }, p1),
        Parse::Fails(e, q) => Parse::Fails(e, q),
    }
}

impl XdrDeserialize for GetAttributesArgs {
    open spec fn spec_parse(data: Seq<u8>, pos: int) -> Parse<SpecGetAttributesArgs> {
        spec_parse_get_attributes_args(data, pos)
    }

    fn deserialize(src: &mut XdrReader) -> (r: Result<GetAttributesArgs, XdrError>) {
        proof {
            reveal(spec_parse_get_attributes_args);
        }
        let v0 = match <BitMap as XdrDeserialize>::deserialize(src) {
            Ok(x) => x,
            Err(e) => return Err(e),
        };
        Ok(GetAttributesArgs { attr_request: v0 })
    }
}

/// What a successful `GETATTR` answers.
#[derive(Debug)]
pub struct GetAttributesOk {
    pub attributes: FileAttrs,
}

/// The deep view of [`GetAttributesOk`].
pub struct SpecGetAttributesOk {
    pub attributes: SpecFileAttrs,
}

impl DeepView for GetAttributesOk {
    type V = SpecGetAttributesOk;

    open spec fn deep_view(&self) -> SpecGetAttributesOk {
        SpecGetAttributesOk { attributes: self.attributes.deep_view() }
    }
}

impl XdrSerialize for GetAttributesOk {
    open spec fn spec_emit(v: SpecGetAttributesOk) -> Emit {
        <FileAttrs as XdrSerialize>::spec_emit(v.attributes)
    }

    fn serialize(&self, dest: &mut Vec<u8>) -> (r: Result<(), XdrError>) {
        self.attributes.serialize(dest)
    }
}

/// Reading a [`GetAttributesOk`]: each field in turn.
#[verifier::opaque]
pub open spec fn spec_parse_get_attributes_ok(data: Seq<u8>, pos: int) -> Parse<SpecGetAttributesOk> {
    match <FileAttrs as XdrDeserialize>::spec_parse(data, pos) {
        Parse::Done(v0, p1) => Parse::Done(SpecGetAttributesOk { attributes: v0 }, p1),
        Parse::Fails(e, q) => Parse::Fails(e, q),
    }
}

impl XdrDeserialize for GetAttributesOk {
    open spec fn spec_parse(data: Seq<u8>, pos: int) -> Parse<SpecGetAttributesOk> {
        spec_parse_get_attributes_ok(data, pos)
    }

    fn deserialize(src: &mut XdrReader) -> (r: Result<GetAttributesOk, XdrError>) {
        proof {
            reveal(spec_parse_get_attributes_ok);
        }
        let v0 = match <FileAttrs as XdrDeserialize>::deserialize(src) {
            Ok(x) => x,
            Err(e) => return Err(e),
        };
        Ok(GetAttributesOk { attributes: v0 })
    }
}

impl AsNfsStatus for GetAttributesOk {
    open spec fn spec_status(&self) -> NfsStatus {
        NfsStatus::Success
    }

    open spec fn spec_has_body(&self) -> bool {
        true
    }

    fn as_status(&self) -> (s: NfsStatus) {
        NfsStatus::Success
    }

    fn has_body(&self) -> (b: bool) {
        true
    }
}

/// What `GETATTR` answers: its result, or the status it failed with.
pub type GetAttributesResult = Result<GetAttributesOk, NfsStatus>;

/// What a successful `GETFH` answers.
#[derive(Debug)]
pub struct GetFhOk {
    pub object: NfsFh,
}

/// The deep view of [`GetFhOk`].
pub struct SpecGetFhOk {
    pub object: Seq<u8>,
}

impl DeepView for GetFhOk {
    type V = SpecGetFhOk;

    open spec fn deep_view(&self) -> SpecGetFhOk {
        SpecGetFhOk { object: self.object.deep_view() }
    }
}

impl XdrSerialize for GetFhOk {
    open spec fn spec_emit(v: SpecGetFhOk) -> Emit {
        <NfsFh as XdrSerialize>::spec_emit(v.object)
    }

    fn serialize(&self, dest: &mut Vec<u8>) -> (r: Result<(), XdrError>) {
        self.object.serialize(dest)
    }
}

/// Reading a [`GetFhOk`]: each field in turn.
#[verifier::opaque]
pub open spec fn spec_parse_get_fh_ok(data: Seq<u8>, pos: int) -> Parse<SpecGetFhOk> {
    match <NfsFh as XdrDeserialize>::spec_parse(data, pos) {
        Parse::Done(v0, p1) => Parse::Done(SpecGetFhOk { object: v0 }, p1),
        Parse::Fails(e, q) => Parse::Fails(e, q),
    }
}

impl XdrDeserialize for GetFhOk {
    open spec fn spec_parse(data: Seq<u8>, pos: int) -> Parse<SpecGetFhOk> {
        spec_parse_get_fh_ok(data, pos)
    }

    fn deserialize(src: &mut XdrReader) -> (r: Result<GetFhOk, XdrError>) {
        proof {
            reveal(spec_parse_get_fh_ok);
        }
        let v0 = match <NfsFh as XdrDeserialize>::deserialize(src) {
            Ok(x) => x,
            Err(e) => return Err(e),
        };
        Ok(GetFhOk { object: v0 })
    }
}

impl AsNfsStatus for GetFhOk {
    open spec fn spec_status(&self) -> NfsStatus {
        NfsStatus::Success
    }

    open spec fn spec_has_body(&self) -> bool {
        true
    }

    fn as_status(&self) -> (s: NfsStatus) {
        NfsStatus::Success
    }

    fn has_body(&self) -> (b: bool) {
        true
    }
}

/// What `GETFH` answers: its result, or the status it failed with.
pub type GetFhResult = Result<GetFhOk, NfsStatus>;

/// The arguments of `LINK`.
#[derive(Debug)]
pub struct LinkArgs {
    new_name: Component,
}

/// The deep view of [`LinkArgs`].
pub struct SpecLinkArgs {
    pub new_name: Seq<u8>,
}

impl DeepView for LinkArgs {
    type V = SpecLinkArgs;

    closed spec fn deep_view(&self) -> SpecLinkArgs {
        SpecLinkArgs { new_name: self.new_name.deep_view() }
    }
}

impl XdrSerialize for LinkArgs {
    open spec fn spec_emit(v: SpecLinkArgs) -> Emit {
        <Component as XdrSerialize>::spec_emit(v.new_name)
    }

    fn serialize(&self, dest: &mut Vec<u8>) -> (r: Result<(), XdrError>) {
        self.new_name.serialize(dest)
    }
}

/// Reading a [`LinkArgs`]: each field in turn.
#[verifier::opaque]
pub open spec fn spec_parse_link_args(data: Seq<u8>, pos: int) -> Parse<SpecLinkArgs> {
    match <Component as XdrDeserialize>::spec_parse(data, pos) {
        Parse::Done(v0, p1) => Parse::Done(SpecLinkArgs { new_name: v0 }, p1),
        Parse::Fails(e, q) => Parse::Fails(e, q),
    }
}

impl XdrDeserialize for LinkArgs {
    open spec fn spec_parse(data: Seq<u8>, pos: int) -> Parse<SpecLinkArgs> {
        spec_parse_link_args(data, pos)
    }

    fn deserialize(src: &mut XdrReader) -> (r: Result<LinkArgs, XdrError>) {
        proof {
            reveal(spec_parse_link_args);
        }
        let v0 = match <Component as XdrDeserialize>::deserialize(src) {
            Ok(x) => x,
            Err(e) => return Err(e),
        };
        Ok(LinkArgs { new_name: v0 })
    }
}

/// What a successful `LINK` answers.
#[derive(Debug)]
pub struct LinkOk {
    change_info: ChangeInfo,
}

/// The deep view of [`LinkOk`].
pub struct SpecLinkOk {
    pub change_info: SpecChangeInfo,
}

impl DeepView for LinkOk {
    type V = SpecLinkOk;

    closed spec fn deep_view(&self) -> SpecLinkOk {
        SpecLinkOk { change_info: self.change_info.deep_view() }
    }
}

impl XdrSerialize for LinkOk {
    open spec fn spec_emit(v: SpecLinkOk) -> Emit {
        <ChangeInfo as XdrSerialize>::spec_emit(v.change_info)
    }

    fn serialize(&self, dest: &mut Vec<u8>) -> (r: Result<(), XdrError>) {
        self.change_info.serialize(dest)
    }
}

/// Reading a [`LinkOk`]: each field in turn.
#[verifier::opaque]
pub open spec fn spec_parse_link_ok(data: Seq<u8>, pos: int) -> Parse<SpecLinkOk> {
    match <ChangeInfo as XdrDeserialize>::spec_parse(data, pos) {
        Parse::Done(v0, p1) => Parse::Done(SpecLinkOk { change_info: v0 }, p1),
        Parse::Fails(e, q) => Parse::Fails(e, q),
    }
}

impl XdrDeserialize for LinkOk {
    open spec fn spec_parse(data: Seq<u8>, pos: int) -> Parse<SpecLinkOk> {
        spec_parse_link_ok(data, pos)
    }

    fn deserialize(src: &mut XdrReader) -> (r: Result<LinkOk, XdrError>) {
        proof {
            reveal(spec_parse_link_ok);
        }
        let v0 = match <ChangeInfo as XdrDeserialize>::deserialize(src) {
            Ok(x) => x,
            Err(e) => return Err(e),
        };
        Ok(LinkOk { change_info: v0 })
    }
}

impl AsNfsStatus for LinkOk {
    open spec fn spec_status(&self) -> NfsStatus {
        NfsStatus::Success
    }

    open spec fn spec_has_body(&self) -> bool {
        true
    }

    fn as_status(&self) -> (s: NfsStatus) {
        NfsStatus::Success
    }

    fn has_body(&self) -> (b: bool) {
        true
    }
}

/// What `LINK` answers: its result, or the status it failed with.
pub type LinkResult = Result<LinkOk, NfsStatus>;

#[derive(Debug)]
pub struct OpenToLockOwner {
    open_seq_id: SeqId,
    open_state_id: StateId,
    lock_seq_id: SeqId,
    lock_owner: LockOwner,
}

/// The deep view of [`OpenToLockOwner`].
pub struct SpecOpenToLockOwner {
    pub open_seq_id: u32,
    pub open_state_id: SpecStateId,
    pub lock_seq_id: u32,
    pub lock_owner: SpecStateOwner,
}

impl DeepView for OpenToLockOwner {
    type V = SpecOpenToLockOwner;

    closed spec fn deep_view(&self) -> SpecOpenToLockOwner {
        SpecOpenToLockOwner { open_seq_id: self.open_seq_id.deep_view(), open_state_id: self.open_state_id.deep_view(), lock_seq_id: self.lock_seq_id.deep_view(), lock_owner: self.lock_owner.deep_view() }
    }
}

impl XdrSerialize for OpenToLockOwner {
    open spec fn spec_emit(v: SpecOpenToLockOwner) -> Emit {
        <SeqId as XdrSerialize>::spec_emit(v.open_seq_id).and_then(<StateId as XdrSerialize>::spec_emit(v.open_state_id)).and_then(<SeqId as XdrSerialize>::spec_emit(v.lock_seq_id)).and_then(<LockOwner as XdrSerialize>::spec_emit(v.lock_owner))
    }

    fn serialize(&self, dest: &mut Vec<u8>) -> (r: Result<(), XdrError>) {
        match self.open_seq_id.serialize(dest) {
            Ok(()) => {},
            Err(e) => return Err(e),
        }
        match self.open_state_id.serialize(dest) {
            Ok(()) => {},
            Err(e) => return Err(e),
        }
        match self.lock_seq_id.serialize(dest) {
            Ok(()) => {},
            Err(e) => return Err(e),
        }
        self.lock_owner.serialize(dest)
    }
}

/// Reading a [`OpenToLockOwner`]: each field in turn.
#[verifier::opaque]
pub open spec fn spec_parse_open_to_lock_owner(data: Seq<u8>, pos: int) -> Parse<SpecOpenToLockOwner> {
    match <SeqId as XdrDeserialize>::spec_parse(data, pos) {
        Parse::Done(v0, p1) => match <StateId as XdrDeserialize>::spec_parse(data, p1) {
            Parse::Done(v1, p2) => match <SeqId as XdrDeserialize>::spec_parse(data, p2) {
                Parse::Done(v2, p3) => match <LockOwner as XdrDeserialize>::spec_parse(data, p3) {
                    Parse::Done(v3, p4) => Parse::Done(SpecOpenToLockOwner { open_seq_id: v0, open_state_id: v1, lock_seq_id: v2, lock_owner: v3 }, p4),
                    Parse::Fails(e, q) => Parse::Fails(e, q),
                },
                Parse::Fails(e, q) => Parse::Fails(e, q),
            },
            Parse::Fails(e, q) => Parse::Fails(e, q),
        },
        Parse::Fails(e, q) => Parse::Fails(e, q),
    }
}

impl XdrDeserialize for OpenToLockOwner {
    open spec fn spec_parse(data: Seq<u8>, pos: int) -> Parse<SpecOpenToLockOwner> {
        spec_parse_open_to_lock_owner(data, pos)
    }

    fn deserialize(src: &mut XdrReader) -> (r: Result<OpenToLockOwner, XdrError>) {
        proof {
            reveal(spec_parse_open_to_lock_owner);
        }
        let v0 = match <SeqId as XdrDeserialize>::deserialize(src) {
            Ok(x) => x,
            Err(e) => return Err(e),
        };
        let v1 = match <StateId as XdrDeserialize>::deserialize(src) {
            Ok(x) => x,
            Err(e) => return Err(e),
        };
        let v2 = match <SeqId as XdrDeserialize>::deserialize(src) {
            Ok(x) => x,
            Err(e) => return Err(e),
        };
        let v3 = match <LockOwner as XdrDeserialize>::deserialize(src) {
            Ok(x) => x,
            Err(e) => return Err(e),
        };
        Ok(OpenToLockOwner { open_seq_id: v0, open_state_id: v1, lock_seq_id: v2, lock_owner: v3 })
    }
}

#[derive(Debug)]
pub struct ExistingLockOwner {
    state_id: StateId,
    seq_id: SeqId,
}

/// The deep view of [`ExistingLockOwner`].
pub struct SpecExistingLockOwner {
    pub state_id: SpecStateId,
    pub seq_id: u32,
}

impl DeepView for ExistingLockOwner {
    type V = SpecExistingLockOwner;

    closed spec fn deep_view(&self) -> SpecExistingLockOwner {
        SpecExistingLockOwner { state_id: self.state_id.deep_view(), seq_id: self.seq_id.deep_view() }
    }
}

impl XdrSerialize for ExistingLockOwner {
    open spec fn spec_emit(v: SpecExistingLockOwner) -> Emit {
        <StateId as XdrSerialize>::spec_emit(v.state_id).and_then(<SeqId as XdrSerialize>::spec_emit(v.seq_id))
    }

    fn serialize(&self, dest: &mut Vec<u8>) -> (r: Result<(), XdrError>) {
        match self.state_id.serialize(dest) {
            Ok(()) => {},
            Err(e) => return Err(e),
        }
        self.seq_id.serialize(dest)
    }
}

/// Reading a [`ExistingLockOwner`]: each field in turn.
#[verifier::opaque]
pub open spec fn spec_parse_existing_lock_owner(data: Seq<u8>, pos: int) -> Parse<SpecExistingLockOwner> {
    match <StateId as XdrDeserialize>::spec_parse(data, pos) {
        Parse::Done(v0, p1) => match <SeqId as XdrDeserialize>::spec_parse(data, p1) {
            Parse::Done(v1, p2) => Parse::Done(SpecExistingLockOwner { state_id: v0, seq_id: v1 }, p2),
            Parse::Fails(e, q) => Parse::Fails(e, q),
        },
        Parse::Fails(e, q) => Parse::Fails(e, q),
    }
}

impl XdrDeserialize for ExistingLockOwner {
    open spec fn spec_parse(data: Seq<u8>, pos: int) -> Parse<SpecExistingLockOwner> {
        spec_parse_existing_lock_owner(data, pos)
    }

    fn deserialize(src: &mut XdrReader) -> (r: Result<ExistingLockOwner, XdrError>) {
        proof {
            reveal(spec_parse_existing_lock_owner);
        }
        let v0 = match <StateId as XdrDeserialize>::deserialize(src) {
            Ok(x) => x,
            Err(e) => return Err(e),
        };
        let v1 = match <SeqId as XdrDeserialize>::deserialize(src) {
            Ok(x) => x,
            Err(e) => return Err(e),
        };
        Ok(ExistingLockOwner { state_id: v0, seq_id: v1 })
    }
}

/// The owner of a new lock: a new lock owner from an open, or an existing lock owner.
#[derive(Debug)]
pub enum Locker {
    OpenOwner(OpenToLockOwner),
    LockOwner(ExistingLockOwner),
}

/// The deep view of [`Locker`].
pub enum SpecLocker {
    OpenOwner(SpecOpenToLockOwner),
    LockOwner(SpecExistingLockOwner),
}

impl DeepView for Locker {
    type V = SpecLocker;

    open spec fn deep_view(&self) -> SpecLocker {
        match self {
            Locker::OpenOwner(x) => SpecLocker::OpenOwner(x.deep_view()),
            Locker::LockOwner(x) => SpecLocker::LockOwner(x.deep_view()),
        }
    }
}

impl XdrSerialize for Locker {
    open spec fn spec_emit(v: SpecLocker) -> Emit {
        match v {
            SpecLocker::OpenOwner(x) => spec_u32_emit(spec_bool_word(true)).and_then(<OpenToLockOwner as XdrSerialize>::spec_emit(x)),
            SpecLocker::LockOwner(x) => spec_u32_emit(spec_bool_word(false)).and_then(<ExistingLockOwner as XdrSerialize>::spec_emit(x)),
        }
    }

    fn serialize(&self, dest: &mut Vec<u8>) -> (r: Result<(), XdrError>) {
        match self {
            Locker::OpenOwner(x) => {
                match true.serialize(dest) {
                    Ok(()) => {},
                    Err(e) => return Err(e),
                }
                x.serialize(dest)
            },
            Locker::LockOwner(x) => {
                match false.serialize(dest) {
                    Ok(()) => {},
                    Err(e) => return Err(e),
                }
                x.serialize(dest)
            },
        }
    }
}

/// Reading a [`Locker`]: its tag, then what the tag calls for.
#[verifier::opaque]
pub open spec fn spec_parse_locker(data: Seq<u8>, pos: int) -> Parse<SpecLocker> {
        match <bool as XdrDeserialize>::spec_parse(data, pos) {
            Parse::Done(t, p) => if t {
                match <OpenToLockOwner as XdrDeserialize>::spec_parse(data, p) {
                    Parse::Done(x, q) => Parse::Done(SpecLocker::OpenOwner(x), q),
                    Parse::Fails(e, q) => Parse::Fails(e, q),
                }
            } else {
                match <ExistingLockOwner as XdrDeserialize>::spec_parse(data, p) {
                    Parse::Done(x, q) => Parse::Done(SpecLocker::LockOwner(x), q),
                    Parse::Fails(e, q) => Parse::Fails(e, q),
                }
            },
            Parse::Fails(e, p) => Parse::Fails(e, p),
        }
}

impl XdrDeserialize for Locker {
    open spec fn spec_parse(data: Seq<u8>, pos: int) -> Parse<SpecLocker> {
        spec_parse_locker(data, pos)
    }

    fn deserialize(src: &mut XdrReader) -> (r: Result<Locker, XdrError>) {
        proof {
            reveal(spec_parse_locker);
        }
        let t = match bool::deserialize(src) {
            Ok(t) => t,
            Err(e) => return Err(e),
        };
        if t {
            match <OpenToLockOwner as XdrDeserialize>::deserialize(src) {
                Ok(x) => Ok(Locker::OpenOwner(x)),
                Err(e) => Err(e),
            }
        } else {
            match <ExistingLockOwner as XdrDeserialize>::deserialize(src) {
                Ok(x) => Ok(Locker::LockOwner(x)),
                Err(e) => Err(e),
            }
        }
    }
}

/// The arguments of `LOCK`.
#[derive(Debug)]
pub struct LockArgs {
    lock_type: NfsLockType,
    reclaim: bool,
    offset: Offset,
    length: Length,
    locker: Locker,
}

/// The deep view of [`LockArgs`].
pub struct SpecLockArgs {
    pub lock_type: NfsLockType,
    pub reclaim: bool,
    pub offset: u64,
    pub length: u64,
    pub locker: SpecLocker,
}

impl DeepView for LockArgs {
    type V = SpecLockArgs;

    closed spec fn deep_view(&self) -> SpecLockArgs {
        SpecLockArgs { lock_type: self.lock_type.deep_view(), reclaim: self.reclaim.deep_view(), offset: self.offset.deep_view(), length: self.length.deep_view(), locker: self.locker.deep_view() }
    }
}

impl XdrSerialize for LockArgs {
    open spec fn spec_emit(v: SpecLockArgs) -> Emit {
        <NfsLockType as XdrSerialize>::spec_emit(v.lock_type).and_then(<bool as XdrSerialize>::spec_emit(v.reclaim)).and_then(<Offset as XdrSerialize>::spec_emit(v.offset)).and_then(<Length as XdrSerialize>::spec_emit(v.length)).and_then(<Locker as XdrSerialize>::spec_emit(v.locker))
    }

    #[verifier::spinoff_prover]
    #[verifier::rlimit(40)]
    fn serialize(&self, dest: &mut Vec<u8>) -> (r: Result<(), XdrError>) {
        match self.lock_type.serialize(dest) {
            Ok(()) => {},
            Err(e) => return Err(e),
        }
        match self.reclaim.serialize(dest) {
            Ok(()) => {},
            Err(e) => return Err(e),
        }
        match self.offset.serialize(dest) {
            Ok(()) => {},
            Err(e) => return Err(e),
        }
        match self.length.serialize(dest) {
            Ok(()) => {},
            Err(e) => return Err(e),
        }
        self.locker.serialize(dest)
    }
}

/// Reading a [`LockArgs`]: each field in turn.
#[verifier::opaque]
pub open spec fn spec_parse_lock_args(data: Seq<u8>, pos: int) -> Parse<SpecLockArgs> {
    match <NfsLockType as XdrDeserialize>::spec_parse(data, pos) {
        Parse::Done(v0, p1) => match <bool as XdrDeserialize>::spec_parse(data, p1) {
            Parse::Done(v1, p2) => match <Offset as XdrDeserialize>::spec_parse(data, p2) {
                Parse::Done(v2, p3) => match <Length as XdrDeserialize>::spec_parse(data, p3) {
                    Parse::Done(v3, p4) => match <Locker as XdrDeserialize>::spec_parse(data, p4) {
                        Parse::Done(v4, p5) => Parse::Done(SpecLockArgs { lock_type: v0, reclaim: v1, offset: v2, length: v3, locker: v4 }, p5),
                        Parse::Fails(e, q) => Parse::Fails(e, q),
                    },
                    Parse::Fails(e, q) => Parse::Fails(e, q),
                },
                Parse::Fails(e, q) => Parse::Fails(e, q),
            },
            Parse::Fails(e, q) => Parse::Fails(e, q),
        },
        Parse::Fails(e, q) => Parse::Fails(e, q),
    }
}

impl XdrDeserialize for LockArgs {
    open spec fn spec_parse(data: Seq<u8>, pos: int) -> Parse<SpecLockArgs> {
        spec_parse_lock_args(data, pos)
    }

    fn deserialize(src: &mut XdrReader) -> (r: Result<LockArgs, XdrError>) {
        proof {
            reveal(spec_parse_lock_args);
        }
        let v0 = match <NfsLockType as XdrDeserialize>::deserialize(src) {
            Ok(x) => x,
            Err(e) => return Err(e),
        };
        let v1 = match <bool as XdrDeserialize>::deserialize(src) {
            Ok(x) => x,
            Err(e) => return Err(e),
        };
        let v2 = match <Offset as XdrDeserialize>::deserialize(src) {
            Ok(x) => x,
            Err(e) => return Err(e),
        };
        let v3 = match <Length as XdrDeserialize>::deserialize(src) {
            Ok(x) => x,
            Err(e) => return Err(e),
        };
        let v4 = match <Locker as XdrDeserialize>::deserialize(src) {
            Ok(x) => x,
            Err(e) => return Err(e),
        };
        Ok(LockArgs { lock_type: v0, reclaim: v1, offset: v2, length: v3, locker: v4 })
    }
}

/// What a successful `LOCK` answers.
#[derive(Debug)]
pub struct LockOk {
    state_id: StateId,
}

/// The deep view of [`LockOk`].
pub struct SpecLockOk {
    pub state_id: SpecStateId,
}

impl DeepView for LockOk {
    type V = SpecLockOk;

    closed spec fn deep_view(&self) -> SpecLockOk {
        SpecLockOk { state_id: self.state_id.deep_view() }
    }
}

impl XdrSerialize for LockOk {
    open spec fn spec_emit(v: SpecLockOk) -> Emit {
        <StateId as XdrSerialize>::spec_emit(v.state_id)
    }

    fn serialize(&self, dest: &mut Vec<u8>) -> (r: Result<(), XdrError>) {
        self.state_id.serialize(dest)
    }
}

/// Reading a [`LockOk`]: each field in turn.
#[verifier::opaque]
pub open spec fn spec_parse_lock_ok(data: Seq<u8>, pos: int) -> Parse<SpecLockOk> {
    match <StateId as XdrDeserialize>::spec_parse(data, pos) {
        Parse::Done(v0, p1) => Parse::Done(SpecLockOk { state_id: v0 }, p1),
        Parse::Fails(e, q) => Parse::Fails(e, q),
    }
}

impl XdrDeserialize for LockOk {
    open spec fn spec_parse(data: Seq<u8>, pos: int) -> Parse<SpecLockOk> {
        spec_parse_lock_ok(data, pos)
    }

    fn deserialize(src: &mut XdrReader) -> (r: Result<LockOk, XdrError>) {
        proof {
            reveal(spec_parse_lock_ok);
        }
        let v0 = match <StateId as XdrDeserialize>::deserialize(src) {
            Ok(x) => x,
            Err(e) => return Err(e),
        };
        Ok(LockOk { state_id: v0 })
    }
}

impl AsNfsStatus for LockOk {
    open spec fn spec_status(&self) -> NfsStatus {
        NfsStatus::Success
    }

    open spec fn spec_has_body(&self) -> bool {
        true
    }

    fn as_status(&self) -> (s: NfsStatus) {
        NfsStatus::Success
    }

    fn has_body(&self) -> (b: bool) {
        true
    }
}

#[derive(Debug)]
pub struct LockDenied {
    offset: Offset,
    length: Length,
    lock_type: NfsLockType,
    owner: LockOwner,
}

/// The deep view of [`LockDenied`].
pub struct SpecLockDenied {
    pub offset: u64,
    pub length: u64,
    pub lock_type: NfsLockType,
    pub owner: SpecStateOwner,
}

impl DeepView for LockDenied {
    type V = SpecLockDenied;

    closed spec fn deep_view(&self) -> SpecLockDenied {
        SpecLockDenied { offset: self.offset.deep_view(), length: self.length.deep_view(), lock_type: self.lock_type.deep_view(), owner: self.owner.deep_view() }
    }
}

impl XdrSerialize for LockDenied {
    open spec fn spec_emit(v: SpecLockDenied) -> Emit {
        <Offset as XdrSerialize>::spec_emit(v.offset).and_then(<Length as XdrSerialize>::spec_emit(v.length)).and_then(<NfsLockType as XdrSerialize>::spec_emit(v.lock_type)).and_then(<LockOwner as XdrSerialize>::spec_emit(v.owner))
    }

    fn serialize(&self, dest: &mut Vec<u8>) -> (r: Result<(), XdrError>) {
        match self.offset.serialize(dest) {
            Ok(()) => {},
            Err(e) => return Err(e),
        }
        match self.length.serialize(dest) {
            Ok(()) => {},
            Err(e) => return Err(e),
        }
        match self.lock_type.serialize(dest) {
            Ok(()) => {},
            Err(e) => return Err(e),
        }
        self.owner.serialize(dest)
    }
}

/// Reading a [`LockDenied`]: each field in turn.
#[verifier::opaque]
pub open spec fn spec_parse_lock_denied(data: Seq<u8>, pos: int) -> Parse<SpecLockDenied> {
    match <Offset as XdrDeserialize>::spec_parse(data, pos) {
        Parse::Done(v0, p1) => match <Length as XdrDeserialize>::spec_parse(data, p1) {
            Parse::Done(v1, p2) => match <NfsLockType as XdrDeserialize>::spec_parse(data, p2) {
                Parse::Done(v2, p3) => match <LockOwner as XdrDeserialize>::spec_parse(data, p3) {
                    Parse::Done(v3, p4) => Parse::Done(SpecLockDenied { offset: v0, length: v1, lock_type: v2, owner: v3 }, p4),
                    Parse::Fails(e, q) => Parse::Fails(e, q),
                },
                Parse::Fails(e, q) => Parse::Fails(e, q),
            },
            Parse::Fails(e, q) => Parse::Fails(e, q),
        },
        Parse::Fails(e, q) => Parse::Fails(e, q),
    }
}

impl XdrDeserialize for LockDenied {
    open spec fn spec_parse(data: Seq<u8>, pos: int) -> Parse<SpecLockDenied> {
        spec_parse_lock_denied(data, pos)
    }

    fn deserialize(src: &mut XdrReader) -> (r: Result<LockDenied, XdrError>) {
        proof {
            reveal(spec_parse_lock_denied);
        }
        let v0 = match <Offset as XdrDeserialize>::deserialize(src) {
            Ok(x) => x,
            Err(e) => return Err(e),
        };
        let v1 = match <Length as XdrDeserialize>::deserialize(src) {
            Ok(x) => x,
            Err(e) => return Err(e),
        };
        let v2 = match <NfsLockType as XdrDeserialize>::deserialize(src) {
            Ok(x) => x,
            Err(e) => return Err(e),
        };
        let v3 = match <LockOwner as XdrDeserialize>::deserialize(src) {
            Ok(x) => x,
            Err(e) => return Err(e),
        };
        Ok(LockDenied { offset: v0, length: v1, lock_type: v2, owner: v3 })
    }
}

/// What `LOCK` answers: the lock, or the lock that stands in its way.
#[derive(Debug)]
pub enum LockReturn {
    Success(LockOk),
    Denied(LockDenied),
}

/// The deep view of [`LockReturn`].
pub enum SpecLockReturn {
    Success(SpecLockOk),
    Denied(SpecLockDenied),
}

impl DeepView for LockReturn {
    type V = SpecLockReturn;

    open spec fn deep_view(&self) -> SpecLockReturn {
        match self {
            LockReturn::Success(x) => SpecLockReturn::Success(x.deep_view()),
            LockReturn::Denied(x) => SpecLockReturn::Denied(x.deep_view()),
        }
    }
}

impl XdrSerialize for LockReturn {
    open spec fn spec_emit(v: SpecLockReturn) -> Emit {
        match v {
            SpecLockReturn::Success(x) => <LockOk as XdrSerialize>::spec_emit(x),
            SpecLockReturn::Denied(x) => <LockDenied as XdrSerialize>::spec_emit(x),
        }
    }

    fn serialize(&self, dest: &mut Vec<u8>) -> (r: Result<(), XdrError>) {
        match self {
            LockReturn::Success(x) => {
                x.serialize(dest)
            },
            LockReturn::Denied(x) => {
                x.serialize(dest)
            },
        }
    }
}

impl AsNfsStatus for LockReturn {
    open spec fn spec_status(&self) -> NfsStatus {
        match self {
            LockReturn::Success(_) => NfsStatus::Success,
            LockReturn::Denied(_) => NfsStatus::Denied,
        }
    }

    open spec fn spec_has_body(&self) -> bool {
        true
    }

    fn as_status(&self) -> (s: NfsStatus) {
        match self {
            LockReturn::Success(_) => NfsStatus::Success,
            LockReturn::Denied(_) => NfsStatus::Denied,
        }
    }

    fn has_body(&self) -> (b: bool) {
        true
    }
}

/// What `LOCK` answers: its result, or the status it failed with.
pub type LockResult = Result<LockReturn, NfsStatus>;

/// The arguments of `LOCKT`.
#[derive(Debug)]
pub struct LockTestArgs {
    lock_type: NfsLockType,
    offset: Offset,
    length: Length,
    owner: LockOwner,
}

/// The deep view of [`LockTestArgs`].
pub struct SpecLockTestArgs {
    pub lock_type: NfsLockType,
    pub offset: u64,
    pub length: u64,
    pub owner: SpecStateOwner,
}

impl DeepView for LockTestArgs {
    type V = SpecLockTestArgs;

    closed spec fn deep_view(&self) -> SpecLockTestArgs {
        SpecLockTestArgs { lock_type: self.lock_type.deep_view(), offset: self.offset.deep_view(), length: self.length.deep_view(), owner: self.owner.deep_view() }
    }
}

impl XdrSerialize for LockTestArgs {
    open spec fn spec_emit(v: SpecLockTestArgs) -> Emit {
        <NfsLockType as XdrSerialize>::spec_emit(v.lock_type).and_then(<Offset as XdrSerialize>::spec_emit(v.offset)).and_then(<Length as XdrSerialize>::spec_emit(v.length)).and_then(<LockOwner as XdrSerialize>::spec_emit(v.owner))
    }

    fn serialize(&self, dest: &mut Vec<u8>) -> (r: Result<(), XdrError>) {
        match self.lock_type.serialize(dest) {
            Ok(()) => {},
            Err(e) => return Err(e),
        }
        match self.offset.serialize(dest) {
            Ok(()) => {},
            Err(e) => return Err(e),
        }
        match self.length.serialize(dest) {
            Ok(()) => {},
            Err(e) => return Err(e),
        }
        self.owner.serialize(dest)
    }
}

/// Reading a [`LockTestArgs`]: each field in turn.
#[verifier::opaque]
pub open spec fn spec_parse_lock_test_args(data: Seq<u8>, pos: int) -> Parse<SpecLockTestArgs> {
    match <NfsLockType as XdrDeserialize>::spec_parse(data, pos) {
        Parse::Done(v0, p1) => match <Offset as XdrDeserialize>::spec_parse(data, p1) {
            Parse::Done(v1, p2) => match <Length as XdrDeserialize>::spec_parse(data, p2) {
                Parse::Done(v2, p3) => match <LockOwner as XdrDeserialize>::spec_parse(data, p3) {
                    Parse::Done(v3, p4) => Parse::Done(SpecLockTestArgs { lock_type: v0, offset: v1, length: v2, owner: v3 }, p4),
                    Parse::Fails(e, q) => Parse::Fails(e, q),
                },
                Parse::Fails(e, q) => Parse::Fails(e, q),
            },
            Parse::Fails(e, q) => Parse::Fails(e, q),
        },
        Parse::Fails(e, q) => Parse::Fails(e, q),
    }
}

impl XdrDeserialize for LockTestArgs {
    open spec fn spec_parse(data: Seq<u8>, pos: int) -> Parse<SpecLockTestArgs> {
        spec_parse_lock_test_args(data, pos)
    }

    fn deserialize(src: &mut XdrReader) -> (r: Result<LockTestArgs, XdrError>) {
        proof {
            reveal(spec_parse_lock_test_args);
        }
        let v0 = match <NfsLockType as XdrDeserialize>::deserialize(src) {
            Ok(x) => x,
            Err(e) => return Err(e),
        };
        let v1 = match <Offset as XdrDeserialize>::deserialize(src) {
            Ok(x) => x,
            Err(e) => return Err(e),
        };
        let v2 = match <Length as XdrDeserialize>::deserialize(src) {
            Ok(x) => x,
            Err(e) => return Err(e),
        };
        let v3 = match <LockOwner as XdrDeserialize>::deserialize(src) {
            Ok(x) => x,
            Err(e) => return Err(e),
        };
        Ok(LockTestArgs { lock_type: v0, offset: v1, length: v2, owner: v3 })
    }
}

/// What `LOCKT` answers: nothing, or the lock that stands in the way.
#[derive(Debug)]
pub enum LockTestReturn {
    Success,
    Denied(LockDenied),
}

/// The deep view of [`LockTestReturn`].
pub enum SpecLockTestReturn {
    Success,
    Denied(SpecLockDenied),
}

impl DeepView for LockTestReturn {
    type V = SpecLockTestReturn;

    open spec fn deep_view(&self) -> SpecLockTestReturn {
        match self {
            LockTestReturn::Success => SpecLockTestReturn::Success,
            LockTestReturn::Denied(x) => SpecLockTestReturn::Denied(x.deep_view()),
        }
    }
}

impl XdrSerialize for LockTestReturn {
    open spec fn spec_emit(v: SpecLockTestReturn) -> Emit {
        match v {
            SpecLockTestReturn::Success => Emit::Done(Seq::empty()),
            SpecLockTestReturn::Denied(x) => <LockDenied as XdrSerialize>::spec_emit(x),
        }
    }

    fn serialize(&self, dest: &mut Vec<u8>) -> (r: Result<(), XdrError>) {
        match self {
            LockTestReturn::Success => Ok(()),
            LockTestReturn::Denied(x) => {
                x.serialize(dest)
            },
        }
    }
}

impl AsNfsStatus for LockTestReturn {
    open spec fn spec_status(&self) -> NfsStatus {
        match self {
            LockTestReturn::Success => NfsStatus::Success,
            LockTestReturn::Denied(_) => NfsStatus::Denied,
        }
    }

    open spec fn spec_has_body(&self) -> bool {
        true
    }

    fn as_status(&self) -> (s: NfsStatus) {
        match self {
            LockTestReturn::Success => NfsStatus::Success,
            LockTestReturn::Denied(_) => NfsStatus::Denied,
        }
    }

    fn has_body(&self) -> (b: bool) {
        true
    }
}

/// What `LOCKT` answers: its result, or the status it failed with.
pub type LockTestResult = Result<LockTestReturn, NfsStatus>;

/// The arguments of `LOCKU`.
#[derive(Debug)]
pub struct LockReleaseArgs {
    lock_type: NfsLockType,
    seq_id: SeqId,
    state_id: StateId,
    offset: Offset,
    length: Length,
}

/// The deep view of [`LockReleaseArgs`].
pub struct SpecLockReleaseArgs {
    pub lock_type: NfsLockType,
    pub seq_id: u32,
    pub state_id: SpecStateId,
    pub offset: u64,
    pub length: u64,
}

impl DeepView for LockReleaseArgs {
    type V = SpecLockReleaseArgs;

    closed spec fn deep_view(&self) -> SpecLockReleaseArgs {
        SpecLockReleaseArgs { lock_type: self.lock_type.deep_view(), seq_id: self.seq_id.deep_view(), state_id: self.state_id.deep_view(), offset: self.offset.deep_view(), length: self.length.deep_view() }
    }
}

impl XdrSerialize for LockReleaseArgs {
    open spec fn spec_emit(v: SpecLockReleaseArgs) -> Emit {
        <NfsLockType as XdrSerialize>::spec_emit(v.lock_type).and_then(<SeqId as XdrSerialize>::spec_emit(v.seq_id)).and_then(<StateId as XdrSerialize>::spec_emit(v.state_id)).and_then(<Offset as XdrSerialize>::spec_emit(v.offset)).and_then(<Length as XdrSerialize>::spec_emit(v.length))
    }

    #[verifier::spinoff_prover]
    #[verifier::rlimit(40)]
    fn serialize(&self, dest: &mut Vec<u8>) -> (r: Result<(), XdrError>) {
        match self.lock_type.serialize(dest) {
            Ok(()) => {},
            Err(e) => return Err(e),
        }
        match self.seq_id.serialize(dest) {
            Ok(()) => {},
            Err(e) => return Err(e),
        }
        match self.state_id.serialize(dest) {
            Ok(()) => {},
            Err(e) => return Err(e),
        }
        match self.offset.serialize(dest) {
            Ok(()) => {},
            Err(e) => return Err(e),
        }
        self.length.serialize(dest)
    }
}

/// Reading a [`LockReleaseArgs`]: each field in turn.
#[verifier::opaque]
pub open spec fn spec_parse_lock_release_args(data: Seq<u8>, pos: int) -> Parse<SpecLockReleaseArgs> {
    match <NfsLockType as XdrDeserialize>::spec_parse(data, pos) {
        Parse::Done(v0, p1) => match <SeqId as XdrDeserialize>::spec_parse(data, p1) {
            Parse::Done(v1, p2) => match <StateId as XdrDeserialize>::spec_parse(data, p2) {
                Parse::Done(v2, p3) => match <Offset as XdrDeserialize>::spec_parse(data, p3) {
                    Parse::Done(v3, p4) => match <Length as XdrDeserialize>::spec_parse(data, p4) {
                        Parse::Done(v4, p5) => Parse::Done(SpecLockReleaseArgs { lock_type: v0, seq_id: v1, state_id: v2, offset: v3, length: v4 }, p5),
                        Parse::Fails(e, q) => Parse::Fails(e, q),
                    },
                    Parse::Fails(e, q) => Parse::Fails(e, q),
                },
                Parse::Fails(e, q) => Parse::Fails(e, q),
            },
            Parse::Fails(e, q) => Parse::Fails(e, q),
        },
        Parse::Fails(e, q) => Parse::Fails(e, q),
    }
}

impl XdrDeserialize for LockReleaseArgs {
    open spec fn spec_parse(data: Seq<u8>, pos: int) -> Parse<SpecLockReleaseArgs> {
        spec_parse_lock_release_args(data, pos)
    }

    fn deserialize(src: &mut XdrReader) -> (r: Result<LockReleaseArgs, XdrError>) {
        proof {
            reveal(spec_parse_lock_release_args);
        }
        let v0 = match <NfsLockType as XdrDeserialize>::deserialize(src) {
            Ok(x) => x,
            Err(e) => return Err(e),
        };
        let v1 = match <SeqId as XdrDeserialize>::deserialize(src) {
            Ok(x) => x,
            Err(e) => return Err(e),
        };
        let v2 = match <StateId as XdrDeserialize>::deserialize(src) {
            Ok(x) => x,
            Err(e) => return Err(e),
        };
        let v3 = match <Offset as XdrDeserialize>::deserialize(src) {
            Ok(x) => x,
            Err(e) => return Err(e),
        };
        let v4 = match <Length as XdrDeserialize>::deserialize(src) {
            Ok(x) => x,
            Err(e) => return Err(e),
        };
        Ok(LockReleaseArgs { lock_type: v0, seq_id: v1, state_id: v2, offset: v3, length: v4 })
    }
}

/// What a successful `LOCKU` answers.
#[derive(Debug)]
pub struct LockReleaseOk {
    state_id: StateId,
}

/// The deep view of [`LockReleaseOk`].
pub struct SpecLockReleaseOk {
    pub state_id: SpecStateId,
}

impl DeepView for LockReleaseOk {
    type V = SpecLockReleaseOk;

    closed spec fn deep_view(&self) -> SpecLockReleaseOk {
        SpecLockReleaseOk { state_id: self.state_id.deep_view() }
    }
}

impl XdrSerialize for LockReleaseOk {
    open spec fn spec_emit(v: SpecLockReleaseOk) -> Emit {
        <StateId as XdrSerialize>::spec_emit(v.state_id)
    }

    fn serialize(&self, dest: &mut Vec<u8>) -> (r: Result<(), XdrError>) {
        self.state_id.serialize(dest)
    }
}

/// Reading a [`LockReleaseOk`]: each field in turn.
#[verifier::opaque]
pub open spec fn spec_parse_lock_release_ok(data: Seq<u8>, pos: int) -> Parse<SpecLockReleaseOk> {
    match <StateId as XdrDeserialize>::spec_parse(data, pos) {
        Parse::Done(v0, p1) => Parse::Done(SpecLockReleaseOk { state_id: v0 }, p1),
        Parse::Fails(e, q) => Parse::Fails(e, q),
    }
}

impl XdrDeserialize for LockReleaseOk {
    open spec fn spec_parse(data: Seq<u8>, pos: int) -> Parse<SpecLockReleaseOk> {
        spec_parse_lock_release_ok(data, pos)
    }

    fn deserialize(src: &mut XdrReader) -> (r: Result<LockReleaseOk, XdrError>) {
        proof {
            reveal(spec_parse_lock_release_ok);
        }
        let v0 = match <StateId as XdrDeserialize>::deserialize(src) {
            Ok(x) => x,
            Err(e) => return Err(e),
        };
        Ok(LockReleaseOk { state_id: v0 })
    }
}

impl AsNfsStatus for LockReleaseOk {
    open spec fn spec_status(&self) -> NfsStatus {
        NfsStatus::Success
    }

    open spec fn spec_has_body(&self) -> bool {
        true
    }

    fn as_status(&self) -> (s: NfsStatus) {
        NfsStatus::Success
    }

    fn has_body(&self) -> (b: bool) {
        true
    }
}

/// What `LOCKU` answers: its result, or the status it failed with.
pub type LockReleaseResult = Result<LockReleaseOk, NfsStatus>;

/// The arguments of `LOOKUP`.
#[derive(Debug)]
pub struct LookupArgs {
    object_name: Component,
}

/// The deep view of [`LookupArgs`].
pub struct SpecLookupArgs {
    pub object_name: Seq<u8>,
}

impl DeepView for LookupArgs {
    type V = SpecLookupArgs;

    closed spec fn deep_view(&self) -> SpecLookupArgs {
        SpecLookupArgs { object_name: self.object_name.deep_view() }
    }
}

impl XdrSerialize for LookupArgs {
    open spec fn spec_emit(v: SpecLookupArgs) -> Emit {
        <Component as XdrSerialize>::spec_emit(v.object_name)
    }

    fn serialize(&self, dest: &mut Vec<u8>) -> (r: Result<(), XdrError>) {
        self.object_name.serialize(dest)
    }
}

/// Reading a [`LookupArgs`]: each field in turn.
#[verifier::opaque]
pub open spec fn spec_parse_lookup_args(data: Seq<u8>, pos: int) -> Parse<SpecLookupArgs> {
    match <Component as XdrDeserialize>::spec_parse(data, pos) {
        Parse::Done(v0, p1) => Parse::Done(SpecLookupArgs { object_name: v0 }, p1),
        Parse::Fails(e, q) => Parse::Fails(e, q),
    }
}

impl XdrDeserialize for LookupArgs {
    open spec fn spec_parse(data: Seq<u8>, pos: int) -> Parse<SpecLookupArgs> {
        spec_parse_lookup_args(data, pos)
    }

    fn deserialize(src: &mut XdrReader) -> (r: Result<LookupArgs, XdrError>) {
        proof {
            reveal(spec_parse_lookup_args);
        }
        let v0 = match <Component as XdrDeserialize>::deserialize(src) {
            Ok(x) => x,
            Err(e) => return Err(e),
        };
        Ok(LookupArgs { object_name: v0 })
    }
}

/// What `LOOKUP` answers: its result, or the status it failed with.
pub type LookupResult = Result<NfsStatus, NfsStatus>;

/// What `LOOKUPP` answers: its result, or the status it failed with.
pub type LookupParentResult = Result<NfsStatus, NfsStatus>;

/// The arguments of `NVERIFY`.
#[derive(Debug)]
pub struct VerifyAttributeDifferenceArgs {
    object_attrs: FileAttrs,
}

/// The deep view of [`VerifyAttributeDifferenceArgs`].
pub struct SpecVerifyAttributeDifferenceArgs {
    pub object_attrs: SpecFileAttrs,
}

impl DeepView for VerifyAttributeDifferenceArgs {
    type V = SpecVerifyAttributeDifferenceArgs;

    closed spec fn deep_view(&self) -> SpecVerifyAttributeDifferenceArgs {
        SpecVerifyAttributeDifferenceArgs { object_attrs: self.object_attrs.deep_view() }
    }
}

impl XdrSerialize for VerifyAttributeDifferenceArgs {
    open spec fn spec_emit(v: SpecVerifyAttributeDifferenceArgs) -> Emit {
        <FileAttrs as XdrSerialize>::spec_emit(v.object_attrs)
    }

    fn serialize(&self, dest: &mut Vec<u8>) -> (r: Result<(), XdrError>) {
        self.object_attrs.serialize(dest)
    }
}

/// Reading a [`VerifyAttributeDifferenceArgs`]: each field in turn.
#[verifier::opaque]
pub open spec fn spec_parse_verify_attribute_difference_args(data: Seq<u8>, pos: int) -> Parse<SpecVerifyAttributeDifferenceArgs> {
    match <FileAttrs as XdrDeserialize>::spec_parse(data, pos) {
        Parse::Done(v0, p1) => Parse::Done(SpecVerifyAttributeDifferenceArgs { object_attrs: v0 }, p1),
        Parse::Fails(e, q) => Parse::Fails(e, q),
    }
}

impl XdrDeserialize for VerifyAttributeDifferenceArgs {
    open spec fn spec_parse(data: Seq<u8>, pos: int) -> Parse<SpecVerifyAttributeDifferenceArgs> {
        spec_parse_verify_attribute_difference_args(data, pos)
    }

    fn deserialize(src: &mut XdrReader) -> (r: Result<VerifyAttributeDifferenceArgs, XdrError>) {
        proof {
            reveal(spec_parse_verify_attribute_difference_args);
        }
        let v0 = match <FileAttrs as XdrDeserialize>::deserialize(src) {
            Ok(x) => x,
            Err(e) => return Err(e),
        };
        Ok(VerifyAttributeDifferenceArgs { object_attrs: v0 })
    }
}

/// What `NVERIFY` answers: its result, or the status it failed with.
pub type VerifyAttributeDifferenceResult = Result<NfsStatus, NfsStatus>;

#[derive(Clone, Copy, Debug, PartialEq, Eq, Structural)]
pub enum CreateMode {
    Unchecked,
    Guarded,
    Exclusive4,
    Exclusive4_1,
}

impl DeepView for CreateMode {
    type V = CreateMode;

    open spec fn deep_view(&self) -> CreateMode {
        *self
    }
}

impl CreateMode {
    /// The number that stands for the value.
    pub open spec fn spec_to_u32(self) -> u32 {
        match self {
            CreateMode::Unchecked => 0,
            CreateMode::Guarded => 1,
            CreateMode::Exclusive4 => 2,
            CreateMode::Exclusive4_1 => 3,
        }
    }

    /// The value that a number stands for, if any.
    pub open spec fn spec_from_u32(n: u32) -> Option<CreateMode> {
        if n == 0 {
            Some(CreateMode::Unchecked)
        } else if n == 1 {
            Some(CreateMode::Guarded)
        } else if n == 2 {
            Some(CreateMode::Exclusive4)
        } else if n == 3 {
            Some(CreateMode::Exclusive4_1)
        } else {
            None
        }
    }

    /// The number that stands for the value.
    pub fn to_u32(&self) -> (n: u32)
        ensures
            n == self.spec_to_u32(),
    {
        match self {
            CreateMode::Unchecked => 0,
            CreateMode::Guarded => 1,
            CreateMode::Exclusive4 => 2,
            CreateMode::Exclusive4_1 => 3,
        }
    }

    /// The value that `n` stands for, if any.
    pub fn from_u32(n: u32) -> (r: Option<CreateMode>)
        ensures
            r == CreateMode::spec_from_u32(n),
    {
        match n {
            0 => Some(CreateMode::Unchecked),
            1 => Some(CreateMode::Guarded),
            2 => Some(CreateMode::Exclusive4),
            3 => Some(CreateMode::Exclusive4_1),
            _ => None,
        }
    }
}

impl XdrSerialize for CreateMode {
    /// The number, as a `u32`.
    open spec fn spec_emit(v: CreateMode) -> Emit {
        spec_u32_emit(v.spec_to_u32())
    }

    fn serialize(&self, dest: &mut Vec<u8>) -> (r: Result<(), XdrError>) {
        let n: u32 = self.to_u32();
        let r = n.serialize(dest);
        assert(Self::spec_emit(self.deep_view()) == spec_u32_emit(n));
        r
    }
}

impl XdrDeserialize for CreateMode {
    /// A number that stands for no value is invalid data.
    open spec fn spec_parse(data: Seq<u8>, pos: int) -> Parse<CreateMode> {
        match spec_u32_parse(data, pos) {
            Parse::Done(n, p) => match CreateMode::spec_from_u32(n) {
                Some(x) => Parse::Done(x, p),
                None => Parse::Fails(XdrError::InvalidData, p),
            },
            Parse::Fails(e, p) => Parse::Fails(e, p),
        }
    }

    fn deserialize(src: &mut XdrReader) -> (r: Result<CreateMode, XdrError>) {
        let n = match u32::deserialize(src) {
            Ok(n) => n,
            Err(e) => return Err(e),
        };
        match CreateMode::from_u32(n) {
            Some(x) => Ok(x),
            None => Err(XdrError::InvalidData),
        }
    }
}

#[derive(Debug)]
pub struct CreateVerifiedFileAttrs {
    verifier: Verifier,
    attrs: FileAttrs,
}

/// The deep view of [`CreateVerifiedFileAttrs`].
pub struct SpecCreateVerifiedFileAttrs {
    pub verifier: Seq<u8>,
    pub attrs: SpecFileAttrs,
}

impl DeepView for CreateVerifiedFileAttrs {
    type V = SpecCreateVerifiedFileAttrs;

    closed spec fn deep_view(&self) -> SpecCreateVerifiedFileAttrs {
        SpecCreateVerifiedFileAttrs { verifier: self.verifier.deep_view(), attrs: self.attrs.deep_view() }
    }
}

impl XdrSerialize for CreateVerifiedFileAttrs {
    open spec fn spec_emit(v: SpecCreateVerifiedFileAttrs) -> Emit {
        <Verifier as XdrSerialize>::spec_emit(v.verifier).and_then(<FileAttrs as XdrSerialize>::spec_emit(v.attrs))
    }

    fn serialize(&self, dest: &mut Vec<u8>) -> (r: Result<(), XdrError>) {
        match self.verifier.serialize(dest) {
            Ok(()) => {},
            Err(e) => return Err(e),
        }
        self.attrs.serialize(dest)
    }
}

/// Reading a [`CreateVerifiedFileAttrs`]: each field in turn.
#[verifier::opaque]
pub open spec fn spec_parse_create_verified_file_attrs(data: Seq<u8>, pos: int) -> Parse<SpecCreateVerifiedFileAttrs> {
    match <Verifier as XdrDeserialize>::spec_parse(data, pos) {
        Parse::Done(v0, p1) => match <FileAttrs as XdrDeserialize>::spec_parse(data, p1) {
            Parse::Done(v1, p2) => Parse::Done(SpecCreateVerifiedFileAttrs { verifier: v0, attrs: v1 }, p2),
            Parse::Fails(e, q) => Parse::Fails(e, q),
        },
        Parse::Fails(e, q) => Parse::Fails(e, q),
    }
}

impl XdrDeserialize for CreateVerifiedFileAttrs {
    open spec fn spec_parse(data: Seq<u8>, pos: int) -> Parse<SpecCreateVerifiedFileAttrs> {
        spec_parse_create_verified_file_attrs(data, pos)
    }

    fn deserialize(src: &mut XdrReader) -> (r: Result<CreateVerifiedFileAttrs, XdrError>) {
        proof {
            reveal(spec_parse_create_verified_file_attrs);
        }
        let v0 = match <Verifier as XdrDeserialize>::deserialize(src) {
            Ok(x) => x,
            Err(e) => return Err(e),
        };
        let v1 = match <FileAttrs as XdrDeserialize>::deserialize(src) {
            Ok(x) => x,
            Err(e) => return Err(e),
        };
        Ok(CreateVerifiedFileAttrs { verifier: v0, attrs: v1 })
    }
}

/// How `OPEN` creates a file.
#[derive(Debug)]
pub enum CreateHow {
    Unchecked(FileAttrs),
    Guarded(FileAttrs),
    Exclusive4(Verifier),
    Exclusive4_1(CreateVerifiedFileAttrs),
}

/// The deep view of [`CreateHow`].
pub enum SpecCreateHow {
    Unchecked(SpecFileAttrs),
    Guarded(SpecFileAttrs),
    Exclusive4(Seq<u8>),
    Exclusive4_1(SpecCreateVerifiedFileAttrs),
}

impl DeepView for CreateHow {
    type V = SpecCreateHow;

    open spec fn deep_view(&self) -> SpecCreateHow {
        match self {
            CreateHow::Unchecked(x) => SpecCreateHow::Unchecked(x.deep_view()),
            CreateHow::Guarded(x) => SpecCreateHow::Guarded(x.deep_view()),
            CreateHow::Exclusive4(x) => SpecCreateHow::Exclusive4(x.deep_view()),
            CreateHow::Exclusive4_1(x) => SpecCreateHow::Exclusive4_1(x.deep_view()),
        }
    }
}

impl XdrSerialize for CreateHow {
    open spec fn spec_emit(v: SpecCreateHow) -> Emit {
        match v {
            SpecCreateHow::Unchecked(x) => spec_u32_emit(CreateMode::Unchecked.spec_to_u32()).and_then(<FileAttrs as XdrSerialize>::spec_emit(x)),
            SpecCreateHow::Guarded(x) => spec_u32_emit(CreateMode::Guarded.spec_to_u32()).and_then(<FileAttrs as XdrSerialize>::spec_emit(x)),
            SpecCreateHow::Exclusive4(x) => spec_u32_emit(CreateMode::Exclusive4.spec_to_u32()).and_then(<Verifier as XdrSerialize>::spec_emit(x)),
            SpecCreateHow::Exclusive4_1(x) => spec_u32_emit(CreateMode::Exclusive4_1.spec_to_u32()).and_then(<CreateVerifiedFileAttrs as XdrSerialize>::spec_emit(x)),
        }
    }

    fn serialize(&self, dest: &mut Vec<u8>) -> (r: Result<(), XdrError>) {
        match self {
            CreateHow::Unchecked(x) => {
                match CreateMode::Unchecked.serialize(dest) {
                    Ok(()) => {},
                    Err(e) => return Err(e),
                }
                x.serialize(dest)
            },
            CreateHow::Guarded(x) => {
                match CreateMode::Guarded.serialize(dest) {
                    Ok(()) => {},
                    Err(e) => return Err(e),
                }
                x.serialize(dest)
            },
            CreateHow::Exclusive4(x) => {
                match CreateMode::Exclusive4.serialize(dest) {
                    Ok(()) => {},
                    Err(e) => return Err(e),
                }
                x.serialize(dest)
            },
            CreateHow::Exclusive4_1(x) => {
                match CreateMode::Exclusive4_1.serialize(dest) {
                    Ok(()) => {},
                    Err(e) => return Err(e),
                }
                x.serialize(dest)
            },
        }
    }
}

/// Reading a [`CreateHow`]: its tag, then what the tag calls for.
#[verifier::opaque]
pub open spec fn spec_parse_create_how(data: Seq<u8>, pos: int) -> Parse<SpecCreateHow> {
        match <CreateMode as XdrDeserialize>::spec_parse(data, pos) {
            Parse::Done(t, p) => match t {
                CreateMode::Unchecked => match <FileAttrs as XdrDeserialize>::spec_parse(data, p) {
                    Parse::Done(x, q) => Parse::Done(SpecCreateHow::Unchecked(x), q),
                    Parse::Fails(e, q) => Parse::Fails(e, q),
                },
                CreateMode::Guarded => match <FileAttrs as XdrDeserialize>::spec_parse(data, p) {
                    Parse::Done(x, q) => Parse::Done(SpecCreateHow::Guarded(x), q),
                    Parse::Fails(e, q) => Parse::Fails(e, q),
                },
                CreateMode::Exclusive4 => match <Verifier as XdrDeserialize>::spec_parse(data, p) {
                    Parse::Done(x, q) => Parse::Done(SpecCreateHow::Exclusive4(x), q),
                    Parse::Fails(e, q) => Parse::Fails(e, q),
                },
                CreateMode::Exclusive4_1 => match <CreateVerifiedFileAttrs as XdrDeserialize>::spec_parse(data, p) {
                    Parse::Done(x, q) => Parse::Done(SpecCreateHow::Exclusive4_1(x), q),
                    Parse::Fails(e, q) => Parse::Fails(e, q),
                },
            },
            Parse::Fails(e, p) => Parse::Fails(e, p),
        }
}

impl XdrDeserialize for CreateHow {
    open spec fn spec_parse(data: Seq<u8>, pos: int) -> Parse<SpecCreateHow> {
        spec_parse_create_how(data, pos)
    }

    fn deserialize(src: &mut XdrReader) -> (r: Result<CreateHow, XdrError>) {
        proof {
            reveal(spec_parse_create_how);
        }
        let t = match <CreateMode as XdrDeserialize>::deserialize(src) {
            Ok(t) => t,
            Err(e) => return Err(e),
        };
        match t {
            CreateMode::Unchecked => match <FileAttrs as XdrDeserialize>::deserialize(src) {
                Ok(x) => Ok(CreateHow::Unchecked(x)),
                Err(e) => Err(e),
            },
            CreateMode::Guarded => match <FileAttrs as XdrDeserialize>::deserialize(src) {
                Ok(x) => Ok(CreateHow::Guarded(x)),
                Err(e) => Err(e),
            },
            CreateMode::Exclusive4 => match <Verifier as XdrDeserialize>::deserialize(src) {
                Ok(x) => Ok(CreateHow::Exclusive4(x)),
                Err(e) => Err(e),
            },
            CreateMode::Exclusive4_1 => match <CreateVerifiedFileAttrs as XdrDeserialize>::deserialize(src) {
                Ok(x) => Ok(CreateHow::Exclusive4_1(x)),
                Err(e) => Err(e),
            },
        }
    }
}

#[derive(Clone, Copy, Debug, PartialEq, Eq, Structural)]
pub enum OpenType {
    NoCreate,
    Create,
}

impl DeepView for OpenType {
    type V = OpenType;

    open spec fn deep_view(&self) -> OpenType {
        *self
    }
}

impl OpenType {
    /// The number that stands for the value.
    pub open spec fn spec_to_u32(self) -> u32 {
        match self {
            OpenType::NoCreate => 0,
            OpenType::Create => 1,
        }
    }

    /// The value that a number stands for, if any.
    pub open spec fn spec_from_u32(n: u32) -> Option<OpenType> {
        if n == 0 {
            Some(OpenType::NoCreate)
        } else if n == 1 {
            Some(OpenType::Create)
        } else {
            None
        }
    }

    /// The number that stands for the value.
    pub fn to_u32(&self) -> (n: u32)
        ensures
            n == self.spec_to_u32(),
    {
        match self {
            OpenType::NoCreate => 0,
            OpenType::Create => 1,
        }
    }

    /// The value that `n` stands for, if any.
    pub fn from_u32(n: u32) -> (r: Option<OpenType>)
        ensures
            r == OpenType::spec_from_u32(n),
    {
        match n {
            0 => Some(OpenType::NoCreate),
            1 => Some(OpenType::Create),
            _ => None,
        }
    }
}

impl XdrSerialize for OpenType {
    /// The number, as a `u32`.
    open spec fn spec_emit(v: OpenType) -> Emit {
        spec_u32_emit(v.spec_to_u32())
    }

    fn serialize(&self, dest: &mut Vec<u8>) -> (r: Result<(), XdrError>) {
        let n: u32 = self.to_u32();
        let r = n.serialize(dest);
        assert(Self::spec_emit(self.deep_view()) == spec_u32_emit(n));
        r
    }
}

impl XdrDeserialize for OpenType {
    /// A number that stands for no value is invalid data.
    open spec fn spec_parse(data: Seq<u8>, pos: int) -> Parse<OpenType> {
        match spec_u32_parse(data, pos) {
            Parse::Done(n, p) => match OpenType::spec_from_u32(n) {
                Some(x) => Parse::Done(x, p),
                None => Parse::Fails(XdrError::InvalidData, p),
            },
            Parse::Fails(e, p) => Parse::Fails(e, p),
        }
    }

    fn deserialize(src: &mut XdrReader) -> (r: Result<OpenType, XdrError>) {
        let n = match u32::deserialize(src) {
            Ok(n) => n,
            Err(e) => return Err(e),
        };
        match OpenType::from_u32(n) {
            Some(x) => Ok(x),
            None => Err(XdrError::InvalidData),
        }
    }
}

/// Whether `OPEN` creates the file, and how.
#[derive(Debug)]
pub enum OpenFlag {
    NoCreate,
    Create(CreateHow),
}

/// The deep view of [`OpenFlag`].
pub enum SpecOpenFlag {
    NoCreate,
    Create(SpecCreateHow),
}

impl DeepView for OpenFlag {
    type V = SpecOpenFlag;

    open spec fn deep_view(&self) -> SpecOpenFlag {
        match self {
            OpenFlag::NoCreate => SpecOpenFlag::NoCreate,
            OpenFlag::Create(x) => SpecOpenFlag::Create(x.deep_view()),
        }
    }
}

impl XdrSerialize for OpenFlag {
    open spec fn spec_emit(v: SpecOpenFlag) -> Emit {
        match v {
            SpecOpenFlag::NoCreate => spec_u32_emit(OpenType::NoCreate.spec_to_u32()),
            SpecOpenFlag::Create(x) => spec_u32_emit(OpenType::Create.spec_to_u32()).and_then(<CreateHow as XdrSerialize>::spec_emit(x)),
        }
    }

    fn serialize(&self, dest: &mut Vec<u8>) -> (r: Result<(), XdrError>) {
        match self {
            OpenFlag::NoCreate => OpenType::NoCreate.serialize(dest),
            OpenFlag::Create(x) => {
                match OpenType::Create.serialize(dest) {
                    Ok(()) => {},
                    Err(e) => return Err(e),
                }
                x.serialize(dest)
            },
        }
    }
}

/// Reading a [`OpenFlag`]: its tag, then what the tag calls for.
#[verifier::opaque]
pub open spec fn spec_parse_open_flag(data: Seq<u8>, pos: int) -> Parse<SpecOpenFlag> {
        match <OpenType as XdrDeserialize>::spec_parse(data, pos) {
            Parse::Done(t, p) => match t {
                OpenType::NoCreate => Parse::Done(SpecOpenFlag::NoCreate, p),
                OpenType::Create => match <CreateHow as XdrDeserialize>::spec_parse(data, p) {
                    Parse::Done(x, q) => Parse::Done(SpecOpenFlag::Create(x), q),
                    Parse::Fails(e, q) => Parse::Fails(e, q),
                },
            },
            Parse::Fails(e, p) => Parse::Fails(e, p),
        }
}

impl XdrDeserialize for OpenFlag {
    open spec fn spec_parse(data: Seq<u8>, pos: int) -> Parse<SpecOpenFlag> {
        spec_parse_open_flag(data, pos)
    }

    fn deserialize(src: &mut XdrReader) -> (r: Result<OpenFlag, XdrError>) {
        proof {
            reveal(spec_parse_open_flag);
        }
        let t = match <OpenType as XdrDeserialize>::deserialize(src) {
            Ok(t) => t,
            Err(e) => return Err(e),
        };
        match t {
            OpenType::NoCreate => Ok(OpenFlag::NoCreate),
            OpenType::Create => match <CreateHow as XdrDeserialize>::deserialize(src) {
                Ok(x) => Ok(OpenFlag::Create(x)),
                Err(e) => Err(e),
            },
        }
    }
}

#[derive(Clone, Copy, Debug, PartialEq, Eq, Structural)]
pub enum LimitBy {
    Size,
    Blocks,
}

impl DeepView for LimitBy {
    type V = LimitBy;

    open spec fn deep_view(&self) -> LimitBy {
        *self
    }
}

impl LimitBy {
    /// The number that stands for the value.
    pub open spec fn spec_to_u32(self) -> u32 {
        match self {
            LimitBy::Size => 1,
            LimitBy::Blocks => 2,
        }
    }

    /// The value that a number stands for, if any.
    pub open spec fn spec_from_u32(n: u32) -> Option<LimitBy> {
        if n == 1 {
            Some(LimitBy::Size)
        } else if n == 2 {
            Some(LimitBy::Blocks)
        } else {
            None
        }
    }

    /// The number that stands for the value.
    pub fn to_u32(&self) -> (n: u32)
        ensures
            n == self.spec_to_u32(),
    {
        match self {
            LimitBy::Size => 1,
            LimitBy::Blocks => 2,
        }
    }

    /// The value that `n` stands for, if any.
    pub fn from_u32(n: u32) -> (r: Option<LimitBy>)
        ensures
            r == LimitBy::spec_from_u32(n),
    {
        match n {
            1 => Some(LimitBy::Size),
            2 => Some(LimitBy::Blocks),
            _ => None,
        }
    }
}

impl XdrSerialize for LimitBy {
    /// The number, as a `u32`.
    open spec fn spec_emit(v: LimitBy) -> Emit {
        spec_u32_emit(v.spec_to_u32())
    }

    fn serialize(&self, dest: &mut Vec<u8>) -> (r: Result<(), XdrError>) {
        let n: u32 = self.to_u32();
        let r = n.serialize(dest);
        assert(Self::spec_emit(self.deep_view()) == spec_u32_emit(n));
        r
    }
}

impl XdrDeserialize for LimitBy {
    /// A number that stands for no value is invalid data.
    open spec fn spec_parse(data: Seq<u8>, pos: int) -> Parse<LimitBy> {
        match spec_u32_parse(data, pos) {
            Parse::Done(n, p) => match LimitBy::spec_from_u32(n) {
                Some(x) => Parse::Done(x, p),
                None => Parse::Fails(XdrError::InvalidData, p),
            },
            Parse::Fails(e, p) => Parse::Fails(e, p),
        }
    }

    fn deserialize(src: &mut XdrReader) -> (r: Result<LimitBy, XdrError>) {
        let n = match u32::deserialize(src) {
            Ok(n) => n,
            Err(e) => return Err(e),
        };
        match LimitBy::from_u32(n) {
            Some(x) => Ok(x),
            None => Err(XdrError::InvalidData),
        }
    }
}

#[derive(Debug)]
pub struct NfsModifiedLimit {
    num_blocks: u32,
    bytes_per_block: u32,
}

/// The deep view of [`NfsModifiedLimit`].
pub struct SpecNfsModifiedLimit {
    pub num_blocks: u32,
    pub bytes_per_block: u32,
}

impl DeepView for NfsModifiedLimit {
    type V = SpecNfsModifiedLimit;

    closed spec fn deep_view(&self) -> SpecNfsModifiedLimit {
        SpecNfsModifiedLimit { num_blocks: self.num_blocks.deep_view(), bytes_per_block: self.bytes_per_block.deep_view() }
    }
}

impl XdrSerialize for NfsModifiedLimit {
    open spec fn spec_emit(v: SpecNfsModifiedLimit) -> Emit {
        <u32 as XdrSerialize>::spec_emit(v.num_blocks).and_then(<u32 as XdrSerialize>::spec_emit(v.bytes_per_block))
    }

    fn serialize(&self, dest: &mut Vec<u8>) -> (r: Result<(), XdrError>) {
        match self.num_blocks.serialize(dest) {
            Ok(()) => {},
            Err(e) => return Err(e),
        }
        self.bytes_per_block.serialize(dest)
    }
}

/// Reading a [`NfsModifiedLimit`]: each field in turn.
#[verifier::opaque]
pub open spec fn spec_parse_nfs_modified_limit(data: Seq<u8>, pos: int) -> Parse<SpecNfsModifiedLimit> {
    match <u32 as XdrDeserialize>::spec_parse(data, pos) {
        Parse::Done(v0, p1) => match <u32 as XdrDeserialize>::spec_parse(data, p1) {
            Parse::Done(v1, p2) => Parse::Done(SpecNfsModifiedLimit { num_blocks: v0, bytes_per_block: v1 }, p2),
            Parse::Fails(e, q) => Parse::Fails(e, q),
        },
        Parse::Fails(e, q) => Parse::Fails(e, q),
    }
}

impl XdrDeserialize for NfsModifiedLimit {
    open spec fn spec_parse(data: Seq<u8>, pos: int) -> Parse<SpecNfsModifiedLimit> {
        spec_parse_nfs_modified_limit(data, pos)
    }

    fn deserialize(src: &mut XdrReader) -> (r: Result<NfsModifiedLimit, XdrError>) {
        proof {
            reveal(spec_parse_nfs_modified_limit);
        }
        let v0 = match <u32 as XdrDeserialize>::deserialize(src) {
            Ok(x) => x,
            Err(e) => return Err(e),
        };
        let v1 = match <u32 as XdrDeserialize>::deserialize(src) {
            Ok(x) => x,
            Err(e) => return Err(e),
        };
        Ok(NfsModifiedLimit { num_blocks: v0, bytes_per_block: v1 })
    }
}

/// A limit on the space a client may use: a size, or a number of blocks.
#[derive(Debug)]
pub enum NfsSpaceLimit {
    Size(u64),
    Blocks(NfsModifiedLimit),
}

/// The deep view of [`NfsSpaceLimit`].
pub enum SpecNfsSpaceLimit {
    Size(u64),
    Blocks(SpecNfsModifiedLimit),
}

impl DeepView for NfsSpaceLimit {
    type V = SpecNfsSpaceLimit;

    open spec fn deep_view(&self) -> SpecNfsSpaceLimit {
        match self {
            NfsSpaceLimit::Size(x) => SpecNfsSpaceLimit::Size(x.deep_view()),
            NfsSpaceLimit::Blocks(x) => SpecNfsSpaceLimit::Blocks(x.deep_view()),
        }
    }
}

impl XdrSerialize for NfsSpaceLimit {
    open spec fn spec_emit(v: SpecNfsSpaceLimit) -> Emit {
        match v {
            SpecNfsSpaceLimit::Size(x) => spec_u32_emit(LimitBy::Size.spec_to_u32()).and_then(<u64 as XdrSerialize>::spec_emit(x)),
            SpecNfsSpaceLimit::Blocks(x) => spec_u32_emit(LimitBy::Blocks.spec_to_u32()).and_then(<NfsModifiedLimit as XdrSerialize>::spec_emit(x)),
        }
    }

    fn serialize(&self, dest: &mut Vec<u8>) -> (r: Result<(), XdrError>) {
        match self {
            NfsSpaceLimit::Size(x) => {
                match LimitBy::Size.serialize(dest) {
                    Ok(()) => {},
                    Err(e) => return Err(e),
                }
                x.serialize(dest)
            },
            NfsSpaceLimit::Blocks(x) => {
                match LimitBy::Blocks.serialize(dest) {
                    Ok(()) => {},
                    Err(e) => return Err(e),
                }
                x.serialize(dest)
            },
        }
    }
}

/// Reading a [`NfsSpaceLimit`]: its tag, then what the tag calls for.
#[verifier::opaque]
pub open spec fn spec_parse_nfs_space_limit(data: Seq<u8>, pos: int) -> Parse<SpecNfsSpaceLimit> {
        match <LimitBy as XdrDeserialize>::spec_parse(data, pos) {
            Parse::Done(t, p) => match t {
                LimitBy::Size => match <u64 as XdrDeserialize>::spec_parse(data, p) {
                    Parse::Done(x, q) => Parse::Done(SpecNfsSpaceLimit::Size(x), q),
                    Parse::Fails(e, q) => Parse::Fails(e, q),
                },
                LimitBy::Blocks => match <NfsModifiedLimit as XdrDeserialize>::spec_parse(data, p) {
                    Parse::Done(x, q) => Parse::Done(SpecNfsSpaceLimit::Blocks(x), q),
                    Parse::Fails(e, q) => Parse::Fails(e, q),
                },
            },
            Parse::Fails(e, p) => Parse::Fails(e, p),
        }
}

impl XdrDeserialize for NfsSpaceLimit {
    open spec fn spec_parse(data: Seq<u8>, pos: int) -> Parse<SpecNfsSpaceLimit> {
        spec_parse_nfs_space_limit(data, pos)
    }

    fn deserialize(src: &mut XdrReader) -> (r: Result<NfsSpaceLimit, XdrError>) {
        proof {
            reveal(spec_parse_nfs_space_limit);
        }
        let t = match <LimitBy as XdrDeserialize>::deserialize(src) {
            Ok(t) => t,
            Err(e) => return Err(e),
        };
        match t {
            LimitBy::Size => match <u64 as XdrDeserialize>::deserialize(src) {
                Ok(x) => Ok(NfsSpaceLimit::Size(x)),
                Err(e) => Err(e),
            },
            LimitBy::Blocks => match <NfsModifiedLimit as XdrDeserialize>::deserialize(src) {
                Ok(x) => Ok(NfsSpaceLimit::Blocks(x)),
                Err(e) => Err(e),
            },
        }
    }
}

#[derive(Clone, Copy, Debug, PartialEq, Eq, Structural)]
pub enum OpenDelegationType {
    NoDelegation,
    Read,
    Write,
    NoneExt,
}

impl DeepView for OpenDelegationType {
    type V = OpenDelegationType;

    open spec fn deep_view(&self) -> OpenDelegationType {
        *self
    }
}

impl OpenDelegationType {
    /// The number that stands for the value.
    pub open spec fn spec_to_u32(self) -> u32 {
        match self {
            OpenDelegationType::NoDelegation => 0,
            OpenDelegationType::Read => 1,
            OpenDelegationType::Write => 2,
            OpenDelegationType::NoneExt => 3,
        }
    }

    /// The value that a number stands for, if any.
    pub open spec fn spec_from_u32(n: u32) -> Option<OpenDelegationType> {
        if n == 0 {
            Some(OpenDelegationType::NoDelegation)
        } else if n == 1 {
            Some(OpenDelegationType::Read)
        } else if n == 2 {
            Some(OpenDelegationType::Write)
        } else if n == 3 {
            Some(OpenDelegationType::NoneExt)
        } else {
            None
        }
    }

    /// The number that stands for the value.
    pub fn to_u32(&self) -> (n: u32)
        ensures
            n == self.spec_to_u32(),
    {
        match self {
            OpenDelegationType::NoDelegation => 0,
            OpenDelegationType::Read => 1,
            OpenDelegationType::Write => 2,
            OpenDelegationType::NoneExt => 3,
        }
    }

    /// The value that `n` stands for, if any.
    pub fn from_u32(n: u32) -> (r: Option<OpenDelegationType>)
        ensures
            r == OpenDelegationType::spec_from_u32(n),
    {
        match n {
            0 => Some(OpenDelegationType::NoDelegation),
            1 => Some(OpenDelegationType::Read),
            2 => Some(OpenDelegationType::Write),
            3 => Some(OpenDelegationType::NoneExt),
            _ => None,
        }
    }
}

impl XdrSerialize for OpenDelegationType {
    /// The number, as a `u32`.
    open spec fn spec_emit(v: OpenDelegationType) -> Emit {
        spec_u32_emit(v.spec_to_u32())
    }

    fn serialize(&self, dest: &mut Vec<u8>) -> (r: Result<(), XdrError>) {
        let n: u32 = self.to_u32();
        let r = n.serialize(dest);
        assert(Self::spec_emit(self.deep_view()) == spec_u32_emit(n));
        r
    }
}

impl XdrDeserialize for OpenDelegationType {
    /// A number that stands for no value is invalid data.
    open spec fn spec_parse(data: Seq<u8>, pos: int) -> Parse<OpenDelegationType> {
        match spec_u32_parse(data, pos) {
            Parse::Done(n, p) => match OpenDelegationType::spec_from_u32(n) {
                Some(x) => Parse::Done(x, p),
                None => Parse::Fails(XdrError::InvalidData, p),
            },
            Parse::Fails(e, p) => Parse::Fails(e, p),
        }
    }

    fn deserialize(src: &mut XdrReader) -> (r: Result<OpenDelegationType, XdrError>) {
        let n = match u32::deserialize(src) {
            Ok(n) => n,
            Err(e) => return Err(e),
        };
        match OpenDelegationType::from_u32(n) {
            Some(x) => Ok(x),
            None => Err(XdrError::InvalidData),
        }
    }
}

#[derive(Clone, Copy, Debug, PartialEq, Eq, Structural)]
pub enum OpenClaimType {
    Null,
    Previous,
    CurrentDelegate,
    PreviousDelegate,
    CurrentFh,
    CurrentDelegateFh,
    PreviousDelegateFh,
}

impl DeepView for OpenClaimType {
    type V = OpenClaimType;

    open spec fn deep_view(&self) -> OpenClaimType {
        *self
    }
}

impl OpenClaimType {
    /// The number that stands for the value.
    pub open spec fn spec_to_u32(self) -> u32 {
        match self {
            OpenClaimType::Null => 0,
            OpenClaimType::Previous => 1,
            OpenClaimType::CurrentDelegate => 2,
            OpenClaimType::PreviousDelegate => 3,
            OpenClaimType::CurrentFh => 4,
            OpenClaimType::CurrentDelegateFh => 5,
            OpenClaimType::PreviousDelegateFh => 6,
        }
    }

    /// The value that a number stands for, if any.
    pub open spec fn spec_from_u32(n: u32) -> Option<OpenClaimType> {
        if n == 0 {
            Some(OpenClaimType::Null)
        } else if n == 1 {
            Some(OpenClaimType::Previous)
        } else if n == 2 {
            Some(OpenClaimType::CurrentDelegate)
        } else if n == 3 {
            Some(OpenClaimType::PreviousDelegate)
        } else if n == 4 {
            Some(OpenClaimType::CurrentFh)
        } else if n == 5 {
            Some(OpenClaimType::CurrentDelegateFh)
        } else if n == 6 {
            Some(OpenClaimType::PreviousDelegateFh)
        } else {
            None
        }
    }

    /// The number that stands for the value.
    pub fn to_u32(&self) -> (n: u32)
        ensures
            n == self.spec_to_u32(),
    {
        match self {
            OpenClaimType::Null => 0,
            OpenClaimType::Previous => 1,
            OpenClaimType::CurrentDelegate => 2,
            OpenClaimType::PreviousDelegate => 3,
            OpenClaimType::CurrentFh => 4,
            OpenClaimType::CurrentDelegateFh => 5,
            OpenClaimType::PreviousDelegateFh => 6,
        }
    }

    /// The value that `n` stands for, if any.
    pub fn from_u32(n: u32) -> (r: Option<OpenClaimType>)
        ensures
            r == OpenClaimType::spec_from_u32(n),
    {
        match n {
            0 => Some(OpenClaimType::Null),
            1 => Some(OpenClaimType::Previous),
            2 => Some(OpenClaimType::CurrentDelegate),
            3 => Some(OpenClaimType::PreviousDelegate),
            4 => Some(OpenClaimType::CurrentFh),
            5 => Some(OpenClaimType::CurrentDelegateFh),
            6 => Some(OpenClaimType::PreviousDelegateFh),
            _ => None,
        }
    }
}

impl XdrSerialize for OpenClaimType {
    /// The number, as a `u32`.
    open spec fn spec_emit(v: OpenClaimType) -> Emit {
        spec_u32_emit(v.spec_to_u32())
    }

    fn serialize(&self, dest: &mut Vec<u8>) -> (r: Result<(), XdrError>) {
        let n: u32 = self.to_u32();
        let r = n.serialize(dest);
        assert(Self::spec_emit(self.deep_view()) == spec_u32_emit(n));
        r
    }
}

impl XdrDeserialize for OpenClaimType {
    /// A number that stands for no value is invalid data.
    open spec fn spec_parse(data: Seq<u8>, pos: int) -> Parse<OpenClaimType> {
        match spec_u32_parse(data, pos) {
            Parse::Done(n, p) => match OpenClaimType::spec_from_u32(n) {
                Some(x) => Parse::Done(x, p),
                None => Parse::Fails(XdrError::InvalidData, p),
            },
            Parse::Fails(e, p) => Parse::Fails(e, p),
        }
    }

    fn deserialize(src: &mut XdrReader) -> (r: Result<OpenClaimType, XdrError>) {
        let n = match u32::deserialize(src) {
            Ok(n) => n,
            Err(e) => return Err(e),
        };
        match OpenClaimType::from_u32(n) {
            Some(x) => Ok(x),
            None => Err(XdrError::InvalidData),
        }
    }
}

#[derive(Debug)]
pub struct CurrentDelegateOpenClaim {
    delegate_state_id: StateId,
    file: Component,
}

/// The deep view of [`CurrentDelegateOpenClaim`].
pub struct SpecCurrentDelegateOpenClaim {
    pub delegate_state_id: SpecStateId,
    pub file: Seq<u8>,
}

impl DeepView for CurrentDelegateOpenClaim {
    type V = SpecCurrentDelegateOpenClaim;

    closed spec fn deep_view(&self) -> SpecCurrentDelegateOpenClaim {
        SpecCurrentDelegateOpenClaim { delegate_state_id: self.delegate_state_id.deep_view(), file: self.file.deep_view() }
    }
}

impl XdrSerialize for CurrentDelegateOpenClaim {
    open spec fn spec_emit(v: SpecCurrentDelegateOpenClaim) -> Emit {
        <StateId as XdrSerialize>::spec_emit(v.delegate_state_id).and_then(<Component as XdrSerialize>::spec_emit(v.file))
    }

    fn serialize(&self, dest: &mut Vec<u8>) -> (r: Result<(), XdrError>) {
        match self.delegate_state_id.serialize(dest) {
            Ok(()) => {},
            Err(e) => return Err(e),
        }
        self.file.serialize(dest)
    }
}

/// Reading a [`CurrentDelegateOpenClaim`]: each field in turn.
#[verifier::opaque]
pub open spec fn spec_parse_current_delegate_open_claim(data: Seq<u8>, pos: int) -> Parse<SpecCurrentDelegateOpenClaim> {
    match <StateId as XdrDeserialize>::spec_parse(data, pos) {
        Parse::Done(v0, p1) => match <Component as XdrDeserialize>::spec_parse(data, p1) {
            Parse::Done(v1, p2) => Parse::Done(SpecCurrentDelegateOpenClaim { delegate_state_id: v0, file: v1 }, p2),
            Parse::Fails(e, q) => Parse::Fails(e, q),
        },
        Parse::Fails(e, q) => Parse::Fails(e, q),
    }
}

impl XdrDeserialize for CurrentDelegateOpenClaim {
    open spec fn spec_parse(data: Seq<u8>, pos: int) -> Parse<SpecCurrentDelegateOpenClaim> {
        spec_parse_current_delegate_open_claim(data, pos)
    }

    fn deserialize(src: &mut XdrReader) -> (r: Result<CurrentDelegateOpenClaim, XdrError>) {
        proof {
            reveal(spec_parse_current_delegate_open_claim);
        }
        let v0 = match <StateId as XdrDeserialize>::deserialize(src) {
            Ok(x) => x,
            Err(e) => return Err(e),
        };
        let v1 = match <Component as XdrDeserialize>::deserialize(src) {
            Ok(x) => x,
            Err(e) => return Err(e),
        };
        Ok(CurrentDelegateOpenClaim { delegate_state_id: v0, file: v1 })
    }
}

/// What right the client claims to open a file with.
#[derive(Debug)]
pub enum OpenClaim {
    /// No special rights to the file: an ordinary open of the named file.
    Null(Component),
    /// Rights established by an open before the server rebooted; the file is the
    /// one its filehandle named then.
    Previous(OpenDelegationType),
    /// Rights from a delegation the server granted; the file is named.
    CurrentDelegate(CurrentDelegateOpenClaim),
    /// Rights from a delegation granted to an earlier boot of the client; the file
    /// is named.
    PreviousDelegate(Component),
    /// Like `Null`, for the file of the current filehandle.
    CurrentFh,
    /// Like `CurrentDelegate`, for the file of the current filehandle.
    CurrentDelegateFh(StateId),
    /// Like `PreviousDelegate`, for the file of the current filehandle.
    PreviousDelegateFh,
}

/// The deep view of [`OpenClaim`].
pub enum SpecOpenClaim {
    Null(Seq<u8>),
    Previous(OpenDelegationType),
    CurrentDelegate(SpecCurrentDelegateOpenClaim),
    PreviousDelegate(Seq<u8>),
    CurrentFh,
    CurrentDelegateFh(SpecStateId),
    PreviousDelegateFh,
}

impl DeepView for OpenClaim {
    type V = SpecOpenClaim;

    open spec fn deep_view(&self) -> SpecOpenClaim {
        match self {
            OpenClaim::Null(x) => SpecOpenClaim::Null(x.deep_view()),
            OpenClaim::Previous(x) => SpecOpenClaim::Previous(x.deep_view()),
            OpenClaim::CurrentDelegate(x) => SpecOpenClaim::CurrentDelegate(x.deep_view()),
            OpenClaim::PreviousDelegate(x) => SpecOpenClaim::PreviousDelegate(x.deep_view()),
            OpenClaim::CurrentFh => SpecOpenClaim::CurrentFh,
            OpenClaim::CurrentDelegateFh(x) => SpecOpenClaim::CurrentDelegateFh(x.deep_view()),
            OpenClaim::PreviousDelegateFh => SpecOpenClaim::PreviousDelegateFh,
        }
    }
}

impl XdrSerialize for OpenClaim {
    open spec fn spec_emit(v: SpecOpenClaim) -> Emit {
        match v {
            SpecOpenClaim::Null(x) => spec_u32_emit(OpenClaimType::Null.spec_to_u32()).and_then(<Component as XdrSerialize>::spec_emit(x)),
            SpecOpenClaim::Previous(x) => spec_u32_emit(OpenClaimType::Previous.spec_to_u32()).and_then(<OpenDelegationType as XdrSerialize>::spec_emit(x)),
            SpecOpenClaim::CurrentDelegate(x) => spec_u32_emit(OpenClaimType::CurrentDelegate.spec_to_u32()).and_then(<CurrentDelegateOpenClaim as XdrSerialize>::spec_emit(x)),
            SpecOpenClaim::PreviousDelegate(x) => spec_u32_emit(OpenClaimType::PreviousDelegate.spec_to_u32()).and_then(<Component as XdrSerialize>::spec_emit(x)),
            SpecOpenClaim::CurrentFh => spec_u32_emit(OpenClaimType::CurrentFh.spec_to_u32()),
            SpecOpenClaim::CurrentDelegateFh(x) => spec_u32_emit(OpenClaimType::CurrentDelegateFh.spec_to_u32()).and_then(<StateId as XdrSerialize>::spec_emit(x)),
            SpecOpenClaim::PreviousDelegateFh => spec_u32_emit(OpenClaimType::PreviousDelegateFh.spec_to_u32()),
        }
    }

    fn serialize(&self, dest: &mut Vec<u8>) -> (r: Result<(), XdrError>) {
        match self {
            OpenClaim::Null(x) => {
                match OpenClaimType::Null.serialize(dest) {
                    Ok(()) => {},
                    Err(e) => return Err(e),
                }
                x.serialize(dest)
            },
            OpenClaim::Previous(x) => {
                match OpenClaimType::Previous.serialize(dest) {
                    Ok(()) => {},
                    Err(e) => return Err(e),
                }
                x.serialize(dest)
            },
            OpenClaim::CurrentDelegate(x) => {
                match OpenClaimType::CurrentDelegate.serialize(dest) {
                    Ok(()) => {},
                    Err(e) => return Err(e),
                }
                x.serialize(dest)
            },
            OpenClaim::PreviousDelegate(x) => {
                match OpenClaimType::PreviousDelegate.serialize(dest) {
                    Ok(()) => {},
                    Err(e) => return Err(e),
                }
                x.serialize(dest)
            },
            OpenClaim::CurrentFh => OpenClaimType::CurrentFh.serialize(dest),
            OpenClaim::CurrentDelegateFh(x) => {
                match OpenClaimType::CurrentDelegateFh.serialize(dest) {
                    Ok(()) => {},
                    Err(e) => return Err(e),
                }
                x.serialize(dest)
            },
            OpenClaim::PreviousDelegateFh => OpenClaimType::PreviousDelegateFh.serialize(dest),
        }
    }
}

/// Reading a [`OpenClaim`]: its tag, then what the tag calls for.
#[verifier::opaque]
pub open spec fn spec_parse_open_claim(data: Seq<u8>, pos: int) -> Parse<SpecOpenClaim> {
        match <OpenClaimType as XdrDeserialize>::spec_parse(data, pos) {
            Parse::Done(t, p) => match t {
                OpenClaimType::Null => match <Component as XdrDeserialize>::spec_parse(data, p) {
                    Parse::Done(x, q) => Parse::Done(SpecOpenClaim::Null(x), q),
                    Parse::Fails(e, q) => Parse::Fails(e, q),
                },
                OpenClaimType::Previous => match <OpenDelegationType as XdrDeserialize>::spec_parse(data, p) {
                    Parse::Done(x, q) => Parse::Done(SpecOpenClaim::Previous(x), q),
                    Parse::Fails(e, q) => Parse::Fails(e, q),
                },
                OpenClaimType::CurrentDelegate => match <CurrentDelegateOpenClaim as XdrDeserialize>::spec_parse(data, p) {
                    Parse::Done(x, q) => Parse::Done(SpecOpenClaim::CurrentDelegate(x), q),
                    Parse::Fails(e, q) => Parse::Fails(e, q),
                },
                OpenClaimType::PreviousDelegate => match <Component as XdrDeserialize>::spec_parse(data, p) {
                    Parse::Done(x, q) => Parse::Done(SpecOpenClaim::PreviousDelegate(x), q),
                    Parse::Fails(e, q) => Parse::Fails(e, q),
                },
                OpenClaimType::CurrentFh => Parse::Done(SpecOpenClaim::CurrentFh, p),
                OpenClaimType::CurrentDelegateFh => match <StateId as XdrDeserialize>::spec_parse(data, p) {
                    Parse::Done(x, q) => Parse::Done(SpecOpenClaim::CurrentDelegateFh(x), q),
                    Parse::Fails(e, q) => Parse::Fails(e, q),
                },
                OpenClaimType::PreviousDelegateFh => Parse::Done(SpecOpenClaim::PreviousDelegateFh, p),
            },
            Parse::Fails(e, p) => Parse::Fails(e, p),
        }
}

impl XdrDeserialize for OpenClaim {
    open spec fn spec_parse(data: Seq<u8>, pos: int) -> Parse<SpecOpenClaim> {
        spec_parse_open_claim(data, pos)
    }

    fn deserialize(src: &mut XdrReader) -> (r: Result<OpenClaim, XdrError>) {
        proof {
            reveal(spec_parse_open_claim);
        }
        let t = match <OpenClaimType as XdrDeserialize>::deserialize(src) {
            Ok(t) => t,
            Err(e) => return Err(e),
        };
        match t {
            OpenClaimType::Null => match <Component as XdrDeserialize>::deserialize(src) {
                Ok(x) => Ok(OpenClaim::Null(x)),
                Err(e) => Err(e),
            },
            OpenClaimType::Previous => match <OpenDelegationType as XdrDeserialize>::deserialize(src) {
                Ok(x) => Ok(OpenClaim::Previous(x)),
                Err(e) => Err(e),
            },
            OpenClaimType::CurrentDelegate => match <CurrentDelegateOpenClaim as XdrDeserialize>::deserialize(src) {
                Ok(x) => Ok(OpenClaim::CurrentDelegate(x)),
                Err(e) => Err(e),
            },
            OpenClaimType::PreviousDelegate => match <Component as XdrDeserialize>::deserialize(src) {
                Ok(x) => Ok(OpenClaim::PreviousDelegate(x)),
                Err(e) => Err(e),
            },
            OpenClaimType::CurrentFh => Ok(OpenClaim::CurrentFh),
            OpenClaimType::CurrentDelegateFh => match <StateId as XdrDeserialize>::deserialize(src) {
                Ok(x) => Ok(OpenClaim::CurrentDelegateFh(x)),
                Err(e) => Err(e),
            },
            OpenClaimType::PreviousDelegateFh => Ok(OpenClaim::PreviousDelegateFh),
        }
    }
}

/// The arguments of `OPEN`.
#[derive(Debug)]
pub struct OpenArgs {
    seq_id: SeqId,
    share_access: u32,
    share_deny: u32,
    owner: OpenOwner,
    how: OpenFlag,
    claim: OpenClaim,
}

/// The deep view of [`OpenArgs`].
pub struct SpecOpenArgs {
    pub seq_id: u32,
    pub share_access: u32,
    pub share_deny: u32,
    pub owner: SpecStateOwner,
    pub how: SpecOpenFlag,
    pub claim: SpecOpenClaim,
}

impl DeepView for OpenArgs {
    type V = SpecOpenArgs;

    closed spec fn deep_view(&self) -> SpecOpenArgs {
        SpecOpenArgs { seq_id: self.seq_id.deep_view(), share_access: self.share_access.deep_view(), share_deny: self.share_deny.deep_view(), owner: self.owner.deep_view(), how: self.how.deep_view(), claim: self.claim.deep_view() }
    }
}

impl XdrSerialize for OpenArgs {
    open spec fn spec_emit(v: SpecOpenArgs) -> Emit {
        <SeqId as XdrSerialize>::spec_emit(v.seq_id).and_then(<u32 as XdrSerialize>::spec_emit(v.share_access)).and_then(<u32 as XdrSerialize>::spec_emit(v.share_deny)).and_then(<OpenOwner as XdrSerialize>::spec_emit(v.owner)).and_then(<OpenFlag as XdrSerialize>::spec_emit(v.how)).and_then(<OpenClaim as XdrSerialize>::spec_emit(v.claim))
    }

    #[verifier::spinoff_prover]
    #[verifier::rlimit(40)]
    fn serialize(&self, dest: &mut Vec<u8>) -> (r: Result<(), XdrError>) {
        match self.seq_id.serialize(dest) {
            Ok(()) => {},
            Err(e) => return Err(e),
        }
        match self.share_access.serialize(dest) {
            Ok(()) => {},
            Err(e) => return Err(e),
        }
        match self.share_deny.serialize(dest) {
            Ok(()) => {},
            Err(e) => return Err(e),
        }
        match self.owner.serialize(dest) {
            Ok(()) => {},
            Err(e) => return Err(e),
        }
        match self.how.serialize(dest) {
            Ok(()) => {},
            Err(e) => return Err(e),
        }
        self.claim.serialize(dest)
    }
}

/// Reading a [`OpenArgs`]: each field in turn.
#[verifier::opaque]
pub open spec fn spec_parse_open_args(data: Seq<u8>, pos: int) -> Parse<SpecOpenArgs> {
    match <SeqId as XdrDeserialize>::spec_parse(data, pos) {
        Parse::Done(v0, p1) => match <u32 as XdrDeserialize>::spec_parse(data, p1) {
            Parse::Done(v1, p2) => match <u32 as XdrDeserialize>::spec_parse(data, p2) {
                Parse::Done(v2, p3) => match <OpenOwner as XdrDeserialize>::spec_parse(data, p3) {
                    Parse::Done(v3, p4) => match <OpenFlag as XdrDeserialize>::spec_parse(data, p4) {
                        Parse::Done(v4, p5) => match <OpenClaim as XdrDeserialize>::spec_parse(data, p5) {
                            Parse::Done(v5, p6) => Parse::Done(SpecOpenArgs { seq_id: v0, share_access: v1, share_deny: v2, owner: v3, how: v4, claim: v5 }, p6),
                            Parse::Fails(e, q) => Parse::Fails(e, q),
                        },
                        Parse::Fails(e, q) => Parse::Fails(e, q),
                    },
                    Parse::Fails(e, q) => Parse::Fails(e, q),
                },
                Parse::Fails(e, q) => Parse::Fails(e, q),
            },
            Parse::Fails(e, q) => Parse::Fails(e, q),
        },
        Parse::Fails(e, q) => Parse::Fails(e, q),
    }
}

impl XdrDeserialize for OpenArgs {
    open spec fn spec_parse(data: Seq<u8>, pos: int) -> Parse<SpecOpenArgs> {
        spec_parse_open_args(data, pos)
    }

    fn deserialize(src: &mut XdrReader) -> (r: Result<OpenArgs, XdrError>) {
        proof {
            reveal(spec_parse_open_args);
        }
        let v0 = match <SeqId as XdrDeserialize>::deserialize(src) {
            Ok(x) => x,
            Err(e) => return Err(e),
        };
        let v1 = match <u32 as XdrDeserialize>::deserialize(src) {
            Ok(x) => x,
            Err(e) => return Err(e),
        };
        let v2 = match <u32 as XdrDeserialize>::deserialize(src) {
            Ok(x) => x,
            Err(e) => return Err(e),
        };
        let v3 = match <OpenOwner as XdrDeserialize>::deserialize(src) {
            Ok(x) => x,
            Err(e) => return Err(e),
        };
        let v4 = match <OpenFlag as XdrDeserialize>::deserialize(src) {
            Ok(x) => x,
            Err(e) => return Err(e),
        };
        let v5 = match <OpenClaim as XdrDeserialize>::deserialize(src) {
            Ok(x) => x,
            Err(e) => return Err(e),
        };
        Ok(OpenArgs { seq_id: v0, share_access: v1, share_deny: v2, owner: v3, how: v4, claim: v5 })
    }
}

#[derive(Debug)]
pub struct OpenReadDelegation {
    state_id: StateId,
    recall: bool,
    permissions: NfsAce,
}

/// The deep view of [`OpenReadDelegation`].
pub struct SpecOpenReadDelegation {
    pub state_id: SpecStateId,
    pub recall: bool,
    pub permissions: SpecNfsAce,
}

impl DeepView for OpenReadDelegation {
    type V = SpecOpenReadDelegation;

    closed spec fn deep_view(&self) -> SpecOpenReadDelegation {
        SpecOpenReadDelegation { state_id: self.state_id.deep_view(), recall: self.recall.deep_view(), permissions: self.permissions.deep_view() }
    }
}

impl XdrSerialize for OpenReadDelegation {
    open spec fn spec_emit(v: SpecOpenReadDelegation) -> Emit {
        <StateId as XdrSerialize>::spec_emit(v.state_id).and_then(<bool as XdrSerialize>::spec_emit(v.recall)).and_then(<NfsAce as XdrSerialize>::spec_emit(v.permissions))
    }

    fn serialize(&self, dest: &mut Vec<u8>) -> (r: Result<(), XdrError>) {
        match self.state_id.serialize(dest) {
            Ok(()) => {},
            Err(e) => return Err(e),
        }
        match self.recall.serialize(dest) {
            Ok(()) => {},
            Err(e) => return Err(e),
        }
        self.permissions.serialize(dest)
    }
}

/// Reading a [`OpenReadDelegation`]: each field in turn.
#[verifier::opaque]
pub open spec fn spec_parse_open_read_delegation(data: Seq<u8>, pos: int) -> Parse<SpecOpenReadDelegation> {
    match <StateId as XdrDeserialize>::spec_parse(data, pos) {
        Parse::Done(v0, p1) => match <bool as XdrDeserialize>::spec_parse(data, p1) {
            Parse::Done(v1, p2) => match <NfsAce as XdrDeserialize>::spec_parse(data, p2) {
                Parse::Done(v2, p3) => Parse::Done(SpecOpenReadDelegation { state_id: v0, recall: v1, permissions: v2 }, p3),
                Parse::Fails(e, q) => Parse::Fails(e, q),
            },
            Parse::Fails(e, q) => Parse::Fails(e, q),
        },
        Parse::Fails(e, q) => Parse::Fails(e, q),
    }
}

impl XdrDeserialize for OpenReadDelegation {
    open spec fn spec_parse(data: Seq<u8>, pos: int) -> Parse<SpecOpenReadDelegation> {
        spec_parse_open_read_delegation(data, pos)
    }

    fn deserialize(src: &mut XdrReader) -> (r: Result<OpenReadDelegation, XdrError>) {
        proof {
            reveal(spec_parse_open_read_delegation);
        }
        let v0 = match <StateId as XdrDeserialize>::deserialize(src) {
            Ok(x) => x,
            Err(e) => return Err(e),
        };
        let v1 = match <bool as XdrDeserialize>::deserialize(src) {
            Ok(x) => x,
            Err(e) => return Err(e),
        };
        let v2 = match <NfsAce as XdrDeserialize>::deserialize(src) {
            Ok(x) => x,
            Err(e) => return Err(e),
        };
        Ok(OpenReadDelegation { state_id: v0, recall: v1, permissions: v2 })
    }
}

#[derive(Debug)]
pub struct OpenWriteDelegation {
    state_id: StateId,
    recall: bool,
    space_limit: NfsSpaceLimit,
    permissions: NfsAce,
}

/// The deep view of [`OpenWriteDelegation`].
pub struct SpecOpenWriteDelegation {
    pub state_id: SpecStateId,
    pub recall: bool,
    pub space_limit: SpecNfsSpaceLimit,
    pub permissions: SpecNfsAce,
}

impl DeepView for OpenWriteDelegation {
    type V = SpecOpenWriteDelegation;

    closed spec fn deep_view(&self) -> SpecOpenWriteDelegation {
        SpecOpenWriteDelegation { state_id: self.state_id.deep_view(), recall: self.recall.deep_view(), space_limit: self.space_limit.deep_view(), permissions: self.permissions.deep_view() }
    }
}

impl XdrSerialize for OpenWriteDelegation {
    open spec fn spec_emit(v: SpecOpenWriteDelegation) -> Emit {
        <StateId as XdrSerialize>::spec_emit(v.state_id).and_then(<bool as XdrSerialize>::spec_emit(v.recall)).and_then(<NfsSpaceLimit as XdrSerialize>::spec_emit(v.space_limit)).and_then(<NfsAce as XdrSerialize>::spec_emit(v.permissions))
    }

    fn serialize(&self, dest: &mut Vec<u8>) -> (r: Result<(), XdrError>) {
        match self.state_id.serialize(dest) {
            Ok(()) => {},
            Err(e) => return Err(e),
        }
        match self.recall.serialize(dest) {
            Ok(()) => {},
            Err(e) => return Err(e),
        }
        match self.space_limit.serialize(dest) {
            Ok(()) => {},
            Err(e) => return Err(e),
        }
        self.permissions.serialize(dest)
    }
}

/// Reading a [`OpenWriteDelegation`]: each field in turn.
#[verifier::opaque]
pub open spec fn spec_parse_open_write_delegation(data: Seq<u8>, pos: int) -> Parse<SpecOpenWriteDelegation> {
    match <StateId as XdrDeserialize>::spec_parse(data, pos) {
        Parse::Done(v0, p1) => match <bool as XdrDeserialize>::spec_parse(data, p1) {
            Parse::Done(v1, p2) => match <NfsSpaceLimit as XdrDeserialize>::spec_parse(data, p2) {
                Parse::Done(v2, p3) => match <NfsAce as XdrDeserialize>::spec_parse(data, p3) {
                    Parse::Done(v3, p4) => Parse::Done(SpecOpenWriteDelegation { state_id: v0, recall: v1, space_limit: v2, permissions: v3 }, p4),
                    Parse::Fails(e, q) => Parse::Fails(e, q),
                },
                Parse::Fails(e, q) => Parse::Fails(e, q),
            },
            Parse::Fails(e, q) => Parse::Fails(e, q),
        },
        Parse::Fails(e, q) => Parse::Fails(e, q),
    }
}

impl XdrDeserialize for OpenWriteDelegation {
    open spec fn spec_parse(data: Seq<u8>, pos: int) -> Parse<SpecOpenWriteDelegation> {
        spec_parse_open_write_delegation(data, pos)
    }

    fn deserialize(src: &mut XdrReader) -> (r: Result<OpenWriteDelegation, XdrError>) {
        proof {
            reveal(spec_parse_open_write_delegation);
        }
        let v0 = match <StateId as XdrDeserialize>::deserialize(src) {
            Ok(x) => x,
            Err(e) => return Err(e),
        };
        let v1 = match <bool as XdrDeserialize>::deserialize(src) {
            Ok(x) => x,
            Err(e) => return Err(e),
        };
        let v2 = match <NfsSpaceLimit as XdrDeserialize>::deserialize(src) {
            Ok(x) => x,
            Err(e) => return Err(e),
        };
        let v3 = match <NfsAce as XdrDeserialize>::deserialize(src) {
            Ok(x) => x,
            Err(e) => return Err(e),
        };
        Ok(OpenWriteDelegation { state_id: v0, recall: v1, space_limit: v2, permissions: v3 })
    }
}

#[derive(Clone, Copy, Debug, PartialEq, Eq, Structural)]
pub enum WhyNoDelegation {
    NotWanted,
    Contention,
    Resource,
    NotSupportedFileType,
    WriteDelegationNotSupportedFileType,
    NotSupportedUpgrade,
    NotSupportedDowngrade,
    Cancelled,
    IsDirectory,
}

impl DeepView for WhyNoDelegation {
    type V = WhyNoDelegation;

    open spec fn deep_view(&self) -> WhyNoDelegation {
        *self
    }
}

impl WhyNoDelegation {
    /// The number that stands for the value.
    pub open spec fn spec_to_u32(self) -> u32 {
        match self {
            WhyNoDelegation::NotWanted => 0,
            WhyNoDelegation::Contention => 1,
            WhyNoDelegation::Resource => 2,
            WhyNoDelegation::NotSupportedFileType => 3,
            WhyNoDelegation::WriteDelegationNotSupportedFileType => 4,
            WhyNoDelegation::NotSupportedUpgrade => 5,
            WhyNoDelegation::NotSupportedDowngrade => 6,
            WhyNoDelegation::Cancelled => 7,
            WhyNoDelegation::IsDirectory => 8,
        }
    }

    /// The value that a number stands for, if any.
    pub open spec fn spec_from_u32(n: u32) -> Option<WhyNoDelegation> {
        if n == 0 {
            Some(WhyNoDelegation::NotWanted)
        } else if n == 1 {
            Some(WhyNoDelegation::Contention)
        } else if n == 2 {
            Some(WhyNoDelegation::Resource)
        } else if n == 3 {
            Some(WhyNoDelegation::NotSupportedFileType)
        } else if n == 4 {
            Some(WhyNoDelegation::WriteDelegationNotSupportedFileType)
        } else if n == 5 {
            Some(WhyNoDelegation::NotSupportedUpgrade)
        } else if n == 6 {
            Some(WhyNoDelegation::NotSupportedDowngrade)
        } else if n == 7 {
            Some(WhyNoDelegation::Cancelled)
        } else if n == 8 {
            Some(WhyNoDelegation::IsDirectory)
        } else {
            None
        }
    }

    /// The number that stands for the value.
    pub fn to_u32(&self) -> (n: u32)
        ensures
            n == self.spec_to_u32(),
    {
        match self {
            WhyNoDelegation::NotWanted => 0,
            WhyNoDelegation::Contention => 1,
            WhyNoDelegation::Resource => 2,
            WhyNoDelegation::NotSupportedFileType => 3,
            WhyNoDelegation::WriteDelegationNotSupportedFileType => 4,
            WhyNoDelegation::NotSupportedUpgrade => 5,
            WhyNoDelegation::NotSupportedDowngrade => 6,
            WhyNoDelegation::Cancelled => 7,
            WhyNoDelegation::IsDirectory => 8,
        }
    }

    /// The value that `n` stands for, if any.
    pub fn from_u32(n: u32) -> (r: Option<WhyNoDelegation>)
        ensures
            r == WhyNoDelegation::spec_from_u32(n),
    {
        match n {
            0 => Some(WhyNoDelegation::NotWanted),
            1 => Some(WhyNoDelegation::Contention),
            2 => Some(WhyNoDelegation::Resource),
            3 => Some(WhyNoDelegation::NotSupportedFileType),
            4 => Some(WhyNoDelegation::WriteDelegationNotSupportedFileType),
            5 => Some(WhyNoDelegation::NotSupportedUpgrade),
            6 => Some(WhyNoDelegation::NotSupportedDowngrade),
            7 => Some(WhyNoDelegation::Cancelled),
            8 => Some(WhyNoDelegation::IsDirectory),
            _ => None,
        }
    }
}

impl XdrSerialize for WhyNoDelegation {
    /// The number, as a `u32`.
    open spec fn spec_emit(v: WhyNoDelegation) -> Emit {
        spec_u32_emit(v.spec_to_u32())
    }

    fn serialize(&self, dest: &mut Vec<u8>) -> (r: Result<(), XdrError>) {
        let n: u32 = self.to_u32();
        let r = n.serialize(dest);
        assert(Self::spec_emit(self.deep_view()) == spec_u32_emit(n));
        r
    }
}

impl XdrDeserialize for WhyNoDelegation {
    /// A number that stands for no value is invalid data.
    open spec fn spec_parse(data: Seq<u8>, pos: int) -> Parse<WhyNoDelegation> {
        match spec_u32_parse(data, pos) {
            Parse::Done(n, p) => match WhyNoDelegation::spec_from_u32(n) {
                Some(x) => Parse::Done(x, p),
                None => Parse::Fails(XdrError::InvalidData, p),
            },
            Parse::Fails(e, p) => Parse::Fails(e, p),
        }
    }

    fn deserialize(src: &mut XdrReader) -> (r: Result<WhyNoDelegation, XdrError>) {
        let n = match u32::deserialize(src) {
            Ok(n) => n,
            Err(e) => return Err(e),
        };
        match WhyNoDelegation::from_u32(n) {
            Some(x) => Ok(x),
            None => Err(XdrError::InvalidData),
        }
    }
}

/// Why no delegation was granted, and for contention or resources, whether the
/// server will signal when one becomes available.
#[derive(Debug)]
pub enum OpenNoneDelegation {
    NotWanted,
    Contention(bool),
    Resource(bool),
    NotSupportedFileType,
    WriteDelegationNotSupportedFileType,
    NotSupportedUpgrade,
    NotSupportedDowngrade,
    Cancelled,
    IsDirectory,
}

impl DeepView for OpenNoneDelegation {
    type V = OpenNoneDelegation;

    open spec fn deep_view(&self) -> OpenNoneDelegation {
        match self {
            OpenNoneDelegation::NotWanted => OpenNoneDelegation::NotWanted,
            OpenNoneDelegation::Contention(x) => OpenNoneDelegation::Contention(x.deep_view()),
            OpenNoneDelegation::Resource(x) => OpenNoneDelegation::Resource(x.deep_view()),
            OpenNoneDelegation::NotSupportedFileType => OpenNoneDelegation::NotSupportedFileType,
            OpenNoneDelegation::WriteDelegationNotSupportedFileType => OpenNoneDelegation::WriteDelegationNotSupportedFileType,
            OpenNoneDelegation::NotSupportedUpgrade => OpenNoneDelegation::NotSupportedUpgrade,
            OpenNoneDelegation::NotSupportedDowngrade => OpenNoneDelegation::NotSupportedDowngrade,
            OpenNoneDelegation::Cancelled => OpenNoneDelegation::Cancelled,
            OpenNoneDelegation::IsDirectory => OpenNoneDelegation::IsDirectory,
        }
    }
}

impl XdrSerialize for OpenNoneDelegation {
    open spec fn spec_emit(v: OpenNoneDelegation) -> Emit {
        match v {
            OpenNoneDelegation::NotWanted => spec_u32_emit(WhyNoDelegation::NotWanted.spec_to_u32()),
            OpenNoneDelegation::Contention(x) => spec_u32_emit(WhyNoDelegation::Contention.spec_to_u32()).and_then(<bool as XdrSerialize>::spec_emit(x)),
            OpenNoneDelegation::Resource(x) => spec_u32_emit(WhyNoDelegation::Resource.spec_to_u32()).and_then(<bool as XdrSerialize>::spec_emit(x)),
            OpenNoneDelegation::NotSupportedFileType => spec_u32_emit(WhyNoDelegation::NotSupportedFileType.spec_to_u32()),
            OpenNoneDelegation::WriteDelegationNotSupportedFileType => spec_u32_emit(WhyNoDelegation::WriteDelegationNotSupportedFileType.spec_to_u32()),
            OpenNoneDelegation::NotSupportedUpgrade => spec_u32_emit(WhyNoDelegation::NotSupportedUpgrade.spec_to_u32()),
            OpenNoneDelegation::NotSupportedDowngrade => spec_u32_emit(WhyNoDelegation::NotSupportedDowngrade.spec_to_u32()),
            OpenNoneDelegation::Cancelled => spec_u32_emit(WhyNoDelegation::Cancelled.spec_to_u32()),
            OpenNoneDelegation::IsDirectory => spec_u32_emit(WhyNoDelegation::IsDirectory.spec_to_u32()),
        }
    }

    fn serialize(&self, dest: &mut Vec<u8>) -> (r: Result<(), XdrError>) {
        match self {
            OpenNoneDelegation::NotWanted => WhyNoDelegation::NotWanted.serialize(dest),
            OpenNoneDelegation::Contention(x) => {
                match WhyNoDelegation::Contention.serialize(dest) {
                    Ok(()) => {},
                    Err(e) => return Err(e),
                }
                x.serialize(dest)
            },
            OpenNoneDelegation::Resource(x) => {
                match WhyNoDelegation::Resource.serialize(dest) {
                    Ok(()) => {},
                    Err(e) => return Err(e),
                }
                x.serialize(dest)
            },
            OpenNoneDelegation::NotSupportedFileType => WhyNoDelegation::NotSupportedFileType.serialize(dest),
            OpenNoneDelegation::WriteDelegationNotSupportedFileType => WhyNoDelegation::WriteDelegationNotSupportedFileType.serialize(dest),
            OpenNoneDelegation::NotSupportedUpgrade => WhyNoDelegation::NotSupportedUpgrade.serialize(dest),
            OpenNoneDelegation::NotSupportedDowngrade => WhyNoDelegation::NotSupportedDowngrade.serialize(dest),
            OpenNoneDelegation::Cancelled => WhyNoDelegation::Cancelled.serialize(dest),
            OpenNoneDelegation::IsDirectory => WhyNoDelegation::IsDirectory.serialize(dest),
        }
    }
}

/// Reading a [`OpenNoneDelegation`]: its tag, then what the tag calls for.
#[verifier::opaque]
pub open spec fn spec_parse_open_none_delegation(data: Seq<u8>, pos: int) -> Parse<OpenNoneDelegation> {
        match <WhyNoDelegation as XdrDeserialize>::spec_parse(data, pos) {
            Parse::Done(t, p) => match t {
                WhyNoDelegation::NotWanted => Parse::Done(OpenNoneDelegation::NotWanted, p),
                WhyNoDelegation::Contention => match <bool as XdrDeserialize>::spec_parse(data, p) {
                    Parse::Done(x, q) => Parse::Done(OpenNoneDelegation::Contention(x), q),
                    Parse::Fails(e, q) => Parse::Fails(e, q),
                },
                WhyNoDelegation::Resource => match <bool as XdrDeserialize>::spec_parse(data, p) {
                    Parse::Done(x, q) => Parse::Done(OpenNoneDelegation::Resource(x), q),
                    Parse::Fails(e, q) => Parse::Fails(e, q),
                },
                WhyNoDelegation::NotSupportedFileType => Parse::Done(OpenNoneDelegation::NotSupportedFileType, p),
                WhyNoDelegation::WriteDelegationNotSupportedFileType => Parse::Done(OpenNoneDelegation::WriteDelegationNotSupportedFileType, p),
                WhyNoDelegation::NotSupportedUpgrade => Parse::Done(OpenNoneDelegation::NotSupportedUpgrade, p),
                WhyNoDelegation::NotSupportedDowngrade => Parse::Done(OpenNoneDelegation::NotSupportedDowngrade, p),
                WhyNoDelegation::Cancelled => Parse::Done(OpenNoneDelegation::Cancelled, p),
                WhyNoDelegation::IsDirectory => Parse::Done(OpenNoneDelegation::IsDirectory, p),
            },
            Parse::Fails(e, p) => Parse::Fails(e, p),
        }
}

impl XdrDeserialize for OpenNoneDelegation {
    open spec fn spec_parse(data: Seq<u8>, pos: int) -> Parse<OpenNoneDelegation> {
        spec_parse_open_none_delegation(data, pos)
    }

    fn deserialize(src: &mut XdrReader) -> (r: Result<OpenNoneDelegation, XdrError>) {
        proof {
            reveal(spec_parse_open_none_delegation);
        }
        let t = match <WhyNoDelegation as XdrDeserialize>::deserialize(src) {
            Ok(t) => t,
            Err(e) => return Err(e),
        };
        match t {
            WhyNoDelegation::NotWanted => Ok(OpenNoneDelegation::NotWanted),
            WhyNoDelegation::Contention => match <bool as XdrDeserialize>::deserialize(src) {
                Ok(x) => Ok(OpenNoneDelegation::Contention(x)),
                Err(e) => Err(e),
            },
            WhyNoDelegation::Resource => match <bool as XdrDeserialize>::deserialize(src) {
                Ok(x) => Ok(OpenNoneDelegation::Resource(x)),
                Err(e) => Err(e),
            },
            WhyNoDelegation::NotSupportedFileType => Ok(OpenNoneDelegation::NotSupportedFileType),
            WhyNoDelegation::WriteDelegationNotSupportedFileType => Ok(OpenNoneDelegation::WriteDelegationNotSupportedFileType),
            WhyNoDelegation::NotSupportedUpgrade => Ok(OpenNoneDelegation::NotSupportedUpgrade),
            WhyNoDelegation::NotSupportedDowngrade => Ok(OpenNoneDelegation::NotSupportedDowngrade),
            WhyNoDelegation::Cancelled => Ok(OpenNoneDelegation::Cancelled),
            WhyNoDelegation::IsDirectory => Ok(OpenNoneDelegation::IsDirectory),
        }
    }
}

/// The delegation that `OPEN` grants, if any.
#[derive(Debug)]
pub enum OpenDelegation {
    NoDelegation,
    Read(OpenReadDelegation),
    Write(OpenWriteDelegation),
    NoneExt(OpenNoneDelegation),
}

/// The deep view of [`OpenDelegation`].
pub enum SpecOpenDelegation {
    NoDelegation,
    Read(SpecOpenReadDelegation),
    Write(SpecOpenWriteDelegation),
    NoneExt(OpenNoneDelegation),
}

impl DeepView for OpenDelegation {
    type V = SpecOpenDelegation;

    open spec fn deep_view(&self) -> SpecOpenDelegation {
        match self {
            OpenDelegation::NoDelegation => SpecOpenDelegation::NoDelegation,
            OpenDelegation::Read(x) => SpecOpenDelegation::Read(x.deep_view()),
            OpenDelegation::Write(x) => SpecOpenDelegation::Write(x.deep_view()),
            OpenDelegation::NoneExt(x) => SpecOpenDelegation::NoneExt(x.deep_view()),
        }
    }
}

impl XdrSerialize for OpenDelegation {
    open spec fn spec_emit(v: SpecOpenDelegation) -> Emit {
        match v {
            SpecOpenDelegation::NoDelegation => spec_u32_emit(OpenDelegationType::NoDelegation.spec_to_u32()),
            SpecOpenDelegation::Read(x) => spec_u32_emit(OpenDelegationType::Read.spec_to_u32()).and_then(<OpenReadDelegation as XdrSerialize>::spec_emit(x)),
            SpecOpenDelegation::Write(x) => spec_u32_emit(OpenDelegationType::Write.spec_to_u32()).and_then(<OpenWriteDelegation as XdrSerialize>::spec_emit(x)),
            SpecOpenDelegation::NoneExt(x) => spec_u32_emit(OpenDelegationType::NoneExt.spec_to_u32()).and_then(<OpenNoneDelegation as XdrSerialize>::spec_emit(x)),
        }
    }

    fn serialize(&self, dest: &mut Vec<u8>) -> (r: Result<(), XdrError>) {
        match self {
            OpenDelegation::NoDelegation => OpenDelegationType::NoDelegation.serialize(dest),
            OpenDelegation::Read(x) => {
                match OpenDelegationType::Read.serialize(dest) {
                    Ok(()) => {},
                    Err(e) => return Err(e),
                }
                x.serialize(dest)
            },
            OpenDelegation::Write(x) => {
                match OpenDelegationType::Write.serialize(dest) {
                    Ok(()) => {},
                    Err(e) => return Err(e),
                }
                x.serialize(dest)
            },
            OpenDelegation::NoneExt(x) => {
                match OpenDelegationType::NoneExt.serialize(dest) {
                    Ok(()) => {},
                    Err(e) => return Err(e),
                }
                x.serialize(dest)
            },
        }
    }
}

/// Reading a [`OpenDelegation`]: its tag, then what the tag calls for.
#[verifier::opaque]
pub open spec fn spec_parse_open_delegation(data: Seq<u8>, pos: int) -> Parse<SpecOpenDelegation> {
        match <OpenDelegationType as XdrDeserialize>::spec_parse(data, pos) {
            Parse::Done(t, p) => match t {
                OpenDelegationType::NoDelegation => Parse::Done(SpecOpenDelegation::NoDelegation, p),
                OpenDelegationType::Read => match <OpenReadDelegation as XdrDeserialize>::spec_parse(data, p) {
                    Parse::Done(x, q) => Parse::Done(SpecOpenDelegation::Read(x), q),
                    Parse::Fails(e, q) => Parse::Fails(e, q),
                },
                OpenDelegationType::Write => match <OpenWriteDelegation as XdrDeserialize>::spec_parse(data, p) {
                    Parse::Done(x, q) => Parse::Done(SpecOpenDelegation::Write(x), q),
                    Parse::Fails(e, q) => Parse::Fails(e, q),
                },
                OpenDelegationType::NoneExt => match <OpenNoneDelegation as XdrDeserialize>::spec_parse(data, p) {
                    Parse::Done(x, q) => Parse::Done(SpecOpenDelegation::NoneExt(x), q),
                    Parse::Fails(e, q) => Parse::Fails(e, q),
                },
            },
            Parse::Fails(e, p) => Parse::Fails(e, p),
        }
}

impl XdrDeserialize for OpenDelegation {
    open spec fn spec_parse(data: Seq<u8>, pos: int) -> Parse<SpecOpenDelegation> {
        spec_parse_open_delegation(data, pos)
    }

    fn deserialize(src: &mut XdrReader) -> (r: Result<OpenDelegation, XdrError>) {
        proof {
            reveal(spec_parse_open_delegation);
        }
        let t = match <OpenDelegationType as XdrDeserialize>::deserialize(src) {
            Ok(t) => t,
            Err(e) => return Err(e),
        };
        match t {
            OpenDelegationType::NoDelegation => Ok(OpenDelegation::NoDelegation),
            OpenDelegationType::Read => match <OpenReadDelegation as XdrDeserialize>::deserialize(src) {
                Ok(x) => Ok(OpenDelegation::Read(x)),
                Err(e) => Err(e),
            },
            OpenDelegationType::Write => match <OpenWriteDelegation as XdrDeserialize>::deserialize(src) {
                Ok(x) => Ok(OpenDelegation::Write(x)),
                Err(e) => Err(e),
            },
            OpenDelegationType::NoneExt => match <OpenNoneDelegation as XdrDeserialize>::deserialize(src) {
                Ok(x) => Ok(OpenDelegation::NoneExt(x)),
                Err(e) => Err(e),
            },
        }
    }
}

/// The flags of an `OPEN` result.
#[derive(Debug)]
pub struct OpenResultFlags(u32);

/// The deep view of [`OpenResultFlags`].
pub struct SpecOpenResultFlags(pub u32);

impl DeepView for OpenResultFlags {
    type V = SpecOpenResultFlags;

    closed spec fn deep_view(&self) -> SpecOpenResultFlags {
        SpecOpenResultFlags(self.0.deep_view())
    }
}

impl XdrSerialize for OpenResultFlags {
    open spec fn spec_emit(v: SpecOpenResultFlags) -> Emit {
        <u32 as XdrSerialize>::spec_emit(v.0)
    }

    fn serialize(&self, dest: &mut Vec<u8>) -> (r: Result<(), XdrError>) {
        self.0.serialize(dest)
    }
}

/// Reading a [`OpenResultFlags`]: each field in turn.
#[verifier::opaque]
pub open spec fn spec_parse_open_result_flags(data: Seq<u8>, pos: int) -> Parse<SpecOpenResultFlags> {
    match <u32 as XdrDeserialize>::spec_parse(data, pos) {
        Parse::Done(v0, p1) => Parse::Done(SpecOpenResultFlags(v0), p1),
        Parse::Fails(e, q) => Parse::Fails(e, q),
    }
}

impl XdrDeserialize for OpenResultFlags {
    open spec fn spec_parse(data: Seq<u8>, pos: int) -> Parse<SpecOpenResultFlags> {
        spec_parse_open_result_flags(data, pos)
    }

    fn deserialize(src: &mut XdrReader) -> (r: Result<OpenResultFlags, XdrError>) {
        proof {
            reveal(spec_parse_open_result_flags);
        }
        let v0 = match <u32 as XdrDeserialize>::deserialize(src) {
            Ok(x) => x,
            Err(e) => return Err(e),
        };
        Ok(OpenResultFlags(v0))
    }
}

impl OpenResultFlags {
    /// Whether the client must confirm the open.
    pub fn must_confirm(&self) -> (b: bool)
        ensures
            b == (self.deep_view().0 & OPEN_RESULT_CONFIRM != 0),
    {
        self.0 & OPEN_RESULT_CONFIRM != 0
    }

    /// Whether the server locks files the POSIX way.
    pub fn is_posix_lock(&self) -> (b: bool)
        ensures
            b == (self.deep_view().0 & OPEN_RESULT_LOCKTYPE_POSIX != 0),
    {
        self.0 & OPEN_RESULT_LOCKTYPE_POSIX != 0
    }

    /// Whether the server keeps the file where it is removed while open.
    pub fn will_preserve_unlinked(&self) -> (b: bool)
        ensures
            b == (self.deep_view().0 & OPEN_RESULT_PRESERVE_UNLINKED != 0),
    {
        self.0 & OPEN_RESULT_PRESERVE_UNLINKED != 0
    }

    /// Whether the server may notify the client of locks of the open.
    pub fn may_notify(&self) -> (b: bool)
        ensures
            b == (self.deep_view().0 & OPEN_RESULT_MAY_NOTIFY_LOCK != 0),
    {
        self.0 & OPEN_RESULT_MAY_NOTIFY_LOCK != 0
    }
}

/// What a successful `OPEN` answers.
#[derive(Debug)]
pub struct OpenOk {
    state_id: StateId,
    change_info: ChangeInfo,
    rflags: OpenResultFlags,
    attrset: BitMap,
    delegation: OpenDelegation,
}

/// The deep view of [`OpenOk`].
pub struct SpecOpenOk {
    pub state_id: SpecStateId,
    pub change_info: SpecChangeInfo,
    pub rflags: SpecOpenResultFlags,
    pub attrset: Seq<u32>,
    pub delegation: SpecOpenDelegation,
}

impl DeepView for OpenOk {
    type V = SpecOpenOk;

    closed spec fn deep_view(&self) -> SpecOpenOk {
        SpecOpenOk { state_id: self.state_id.deep_view(), change_info: self.change_info.deep_view(), rflags: self.rflags.deep_view(), attrset: self.attrset.deep_view(), delegation: self.delegation.deep_view() }
    }
}

impl XdrSerialize for OpenOk {
    open spec fn spec_emit(v: SpecOpenOk) -> Emit {
        <StateId as XdrSerialize>::spec_emit(v.state_id).and_then(<ChangeInfo as XdrSerialize>::spec_emit(v.change_info)).and_then(<OpenResultFlags as XdrSerialize>::spec_emit(v.rflags)).and_then(<BitMap as XdrSerialize>::spec_emit(v.attrset)).and_then(<OpenDelegation as XdrSerialize>::spec_emit(v.delegation))
    }

    #[verifier::spinoff_prover]
    #[verifier::rlimit(40)]
    fn serialize(&self, dest: &mut Vec<u8>) -> (r: Result<(), XdrError>) {
        match self.state_id.serialize(dest) {
            Ok(()) => {},
            Err(e) => return Err(e),
        }
        match self.change_info.serialize(dest) {
            Ok(()) => {},
            Err(e) => return Err(e),
        }
        match self.rflags.serialize(dest) {
            Ok(()) => {},
            Err(e) => return Err(e),
        }
        match self.attrset.serialize(dest) {
            Ok(()) => {},
            Err(e) => return Err(e),
        }
        self.delegation.serialize(dest)
    }
}

/// Reading a [`OpenOk`]: each field in turn.
#[verifier::opaque]
pub open spec fn spec_parse_open_ok(data: Seq<u8>, pos: int) -> Parse<SpecOpenOk> {
    match <StateId as XdrDeserialize>::spec_parse(data, pos) {
        Parse::Done(v0, p1) => match <ChangeInfo as XdrDeserialize>::spec_parse(data, p1) {
            Parse::Done(v1, p2) => match <OpenResultFlags as XdrDeserialize>::spec_parse(data, p2) {
                Parse::Done(v2, p3) => match <BitMap as XdrDeserialize>::spec_parse(data, p3) {
                    Parse::Done(v3, p4) => match <OpenDelegation as XdrDeserialize>::spec_parse(data, p4) {
                        Parse::Done(v4, p5) => Parse::Done(SpecOpenOk { state_id: v0, change_info: v1, rflags: v2, attrset: v3, delegation: v4 }, p5),
                        Parse::Fails(e, q) => Parse::Fails(e, q),
                    },
                    Parse::Fails(e, q) => Parse::Fails(e, q),
                },
                Parse::Fails(e, q) => Parse::Fails(e, q),
            },
            Parse::Fails(e, q) => Parse::Fails(e, q),
        },
        Parse::Fails(e, q) => Parse::Fails(e, q),
    }
}

impl XdrDeserialize for OpenOk {
    open spec fn spec_parse(data: Seq<u8>, pos: int) -> Parse<SpecOpenOk> {
        spec_parse_open_ok(data, pos)
    }

    fn deserialize(src: &mut XdrReader) -> (r: Result<OpenOk, XdrError>) {
        proof {
            reveal(spec_parse_open_ok);
        }
        let v0 = match <StateId as XdrDeserialize>::deserialize(src) {
            Ok(x) => x,
            Err(e) => return Err(e),
        };
        let v1 = match <ChangeInfo as XdrDeserialize>::deserialize(src) {
            Ok(x) => x,
            Err(e) => return Err(e),
        };
        let v2 = match <OpenResultFlags as XdrDeserialize>::deserialize(src) {
            Ok(x) => x,
            Err(e) => return Err(e),
        };
        let v3 = match <BitMap as XdrDeserialize>::deserialize(src) {
            Ok(x) => x,
            Err(e) => return Err(e),
        };
        let v4 = match <OpenDelegation as XdrDeserialize>::deserialize(src) {
            Ok(x) => x,
            Err(e) => return Err(e),
        };
        Ok(OpenOk { state_id: v0, change_info: v1, rflags: v2, attrset: v3, delegation: v4 })
    }
}

impl AsNfsStatus for OpenOk {
    open spec fn spec_status(&self) -> NfsStatus {
        NfsStatus::Success
    }

    open spec fn spec_has_body(&self) -> bool {
        true
    }

    fn as_status(&self) -> (s: NfsStatus) {
        NfsStatus::Success
    }

    fn has_body(&self) -> (b: bool) {
        true
    }
}

/// What `OPEN` answers: its result, or the status it failed with.
pub type OpenResult = Result<OpenOk, NfsStatus>;

/// The arguments of `OPENATTR`.
#[derive(Debug)]
pub struct OpenAttributesArgs {
    create_dir: bool,
}

/// The deep view of [`OpenAttributesArgs`].
pub struct SpecOpenAttributesArgs {
    pub create_dir: bool,
}

impl DeepView for OpenAttributesArgs {
    type V = SpecOpenAttributesArgs;

    closed spec fn deep_view(&self) -> SpecOpenAttributesArgs {
        SpecOpenAttributesArgs { create_dir: self.create_dir.deep_view() }
    }
}

impl XdrSerialize for OpenAttributesArgs {
    open spec fn spec_emit(v: SpecOpenAttributesArgs) -> Emit {
        <bool as XdrSerialize>::spec_emit(v.create_dir)
    }

    fn serialize(&self, dest: &mut Vec<u8>) -> (r: Result<(), XdrError>) {
        self.create_dir.serialize(dest)
    }
}

/// Reading a [`OpenAttributesArgs`]: each field in turn.
#[verifier::opaque]
pub open spec fn spec_parse_open_attributes_args(data: Seq<u8>, pos: int) -> Parse<SpecOpenAttributesArgs> {
    match <bool as XdrDeserialize>::spec_parse(data, pos) {
        Parse::Done(v0, p1) => Parse::Done(SpecOpenAttributesArgs { create_dir: v0 }, p1),
        Parse::Fails(e, q) => Parse::Fails(e, q),
    }
}

impl XdrDeserialize for OpenAttributesArgs {
    open spec fn spec_parse(data: Seq<u8>, pos: int) -> Parse<SpecOpenAttributesArgs> {
        spec_parse_open_attributes_args(data, pos)
    }

    fn deserialize(src: &mut XdrReader) -> (r: Result<OpenAttributesArgs, XdrError>) {
        proof {
            reveal(spec_parse_open_attributes_args);
        }
        let v0 = match <bool as XdrDeserialize>::deserialize(src) {
            Ok(x) => x,
            Err(e) => return Err(e),
        };
        Ok(OpenAttributesArgs { create_dir: v0 })
    }
}

/// What `OPENATTR` answers: its result, or the status it failed with.
pub type OpenAttributesResult = Result<NfsStatus, NfsStatus>;

/// The arguments of `OPEN_CONFIRM`.
pub struct OpenConfirmArgs {
    open_state_id: StateId,
    seq_id: SeqId,
}

/// The deep view of [`OpenConfirmArgs`].
pub struct SpecOpenConfirmArgs {
    pub open_state_id: SpecStateId,
    pub seq_id: u32,
}

impl DeepView for OpenConfirmArgs {
    type V = SpecOpenConfirmArgs;

    closed spec fn deep_view(&self) -> SpecOpenConfirmArgs {
        SpecOpenConfirmArgs { open_state_id: self.open_state_id.deep_view(), seq_id: self.seq_id.deep_view() }
    }
}

impl XdrSerialize for OpenConfirmArgs {
    open spec fn spec_emit(v: SpecOpenConfirmArgs) -> Emit {
        <StateId as XdrSerialize>::spec_emit(v.open_state_id).and_then(<SeqId as XdrSerialize>::spec_emit(v.seq_id))
    }

    fn serialize(&self, dest: &mut Vec<u8>) -> (r: Result<(), XdrError>) {
        match self.open_state_id.serialize(dest) {
            Ok(()) => {},
            Err(e) => return Err(e),
        }
        self.seq_id.serialize(dest)
    }
}

/// Reading a [`OpenConfirmArgs`]: each field in turn.
#[verifier::opaque]
pub open spec fn spec_parse_open_confirm_args(data: Seq<u8>, pos: int) -> Parse<SpecOpenConfirmArgs> {
    match <StateId as XdrDeserialize>::spec_parse(data, pos) {
        Parse::Done(v0, p1) => match <SeqId as XdrDeserialize>::spec_parse(data, p1) {
            Parse::Done(v1, p2) => Parse::Done(SpecOpenConfirmArgs { open_state_id: v0, seq_id: v1 }, p2),
            Parse::Fails(e, q) => Parse::Fails(e, q),
        },
        Parse::Fails(e, q) => Parse::Fails(e, q),
    }
}

impl XdrDeserialize for OpenConfirmArgs {
    open spec fn spec_parse(data: Seq<u8>, pos: int) -> Parse<SpecOpenConfirmArgs> {
        spec_parse_open_confirm_args(data, pos)
    }

    fn deserialize(src: &mut XdrReader) -> (r: Result<OpenConfirmArgs, XdrError>) {
        proof {
            reveal(spec_parse_open_confirm_args);
        }
        let v0 = match <StateId as XdrDeserialize>::deserialize(src) {
            Ok(x) => x,
            Err(e) => return Err(e),
        };
        let v1 = match <SeqId as XdrDeserialize>::deserialize(src) {
            Ok(x) => x,
            Err(e) => return Err(e),
        };
        Ok(OpenConfirmArgs { open_state_id: v0, seq_id: v1 })
    }
}

/// What `OPEN_CONFIRM` answers: its result, or the status it failed with.
pub type OpenConfirmResult = Result<NfsStatus, NfsStatus>;

/// The arguments of `OPEN_DOWNGRADE`.
#[derive(Debug)]
pub struct OpenDowngradeArgs {
    open_state_id: StateId,
    seq_id: SeqId,
}

/// The deep view of [`OpenDowngradeArgs`].
pub struct SpecOpenDowngradeArgs {
    pub open_state_id: SpecStateId,
    pub seq_id: u32,
}

impl DeepView for OpenDowngradeArgs {
    type V = SpecOpenDowngradeArgs;

    closed spec fn deep_view(&self) -> SpecOpenDowngradeArgs {
        SpecOpenDowngradeArgs { open_state_id: self.open_state_id.deep_view(), seq_id: self.seq_id.deep_view() }
    }
}

impl XdrSerialize for OpenDowngradeArgs {
    open spec fn spec_emit(v: SpecOpenDowngradeArgs) -> Emit {
        <StateId as XdrSerialize>::spec_emit(v.open_state_id).and_then(<SeqId as XdrSerialize>::spec_emit(v.seq_id))
    }

    fn serialize(&self, dest: &mut Vec<u8>) -> (r: Result<(), XdrError>) {
        match self.open_state_id.serialize(dest) {
            Ok(()) => {},
            Err(e) => return Err(e),
        }
        self.seq_id.serialize(dest)
    }
}

/// Reading a [`OpenDowngradeArgs`]: each field in turn.
#[verifier::opaque]
pub open spec fn spec_parse_open_downgrade_args(data: Seq<u8>, pos: int) -> Parse<SpecOpenDowngradeArgs> {
    match <StateId as XdrDeserialize>::spec_parse(data, pos) {
        Parse::Done(v0, p1) => match <SeqId as XdrDeserialize>::spec_parse(data, p1) {
            Parse::Done(v1, p2) => Parse::Done(SpecOpenDowngradeArgs { open_state_id: v0, seq_id: v1 }, p2),
            Parse::Fails(e, q) => Parse::Fails(e, q),
        },
        Parse::Fails(e, q) => Parse::Fails(e, q),
    }
}

impl XdrDeserialize for OpenDowngradeArgs {
    open spec fn spec_parse(data: Seq<u8>, pos: int) -> Parse<SpecOpenDowngradeArgs> {
        spec_parse_open_downgrade_args(data, pos)
    }

    fn deserialize(src: &mut XdrReader) -> (r: Result<OpenDowngradeArgs, XdrError>) {
        proof {
            reveal(spec_parse_open_downgrade_args);
        }
        let v0 = match <StateId as XdrDeserialize>::deserialize(src) {
            Ok(x) => x,
            Err(e) => return Err(e),
        };
        let v1 = match <SeqId as XdrDeserialize>::deserialize(src) {
            Ok(x) => x,
            Err(e) => return Err(e),
        };
        Ok(OpenDowngradeArgs { open_state_id: v0, seq_id: v1 })
    }
}

/// What a successful `OPEN_DOWNGRADE` answers.
#[derive(Debug)]
pub struct OpenDowngradeOk {
    open_state_id: StateId,
}

/// The deep view of [`OpenDowngradeOk`].
pub struct SpecOpenDowngradeOk {
    pub open_state_id: SpecStateId,
}

impl DeepView for OpenDowngradeOk {
    type V = SpecOpenDowngradeOk;

    closed spec fn deep_view(&self) -> SpecOpenDowngradeOk {
        SpecOpenDowngradeOk { open_state_id: self.open_state_id.deep_view() }
    }
}

impl XdrSerialize for OpenDowngradeOk {
    open spec fn spec_emit(v: SpecOpenDowngradeOk) -> Emit {
        <StateId as XdrSerialize>::spec_emit(v.open_state_id)
    }

    fn serialize(&self, dest: &mut Vec<u8>) -> (r: Result<(), XdrError>) {
        self.open_state_id.serialize(dest)
    }
}

/// Reading a [`OpenDowngradeOk`]: each field in turn.
#[verifier::opaque]
pub open spec fn spec_parse_open_downgrade_ok(data: Seq<u8>, pos: int) -> Parse<SpecOpenDowngradeOk> {
    match <StateId as XdrDeserialize>::spec_parse(data, pos) {
        Parse::Done(v0, p1) => Parse::Done(SpecOpenDowngradeOk { open_state_id: v0 }, p1),
        Parse::Fails(e, q) => Parse::Fails(e, q),
    }
}

impl XdrDeserialize for OpenDowngradeOk {
    open spec fn spec_parse(data: Seq<u8>, pos: int) -> Parse<SpecOpenDowngradeOk> {
        spec_parse_open_downgrade_ok(data, pos)
    }

    fn deserialize(src: &mut XdrReader) -> (r: Result<OpenDowngradeOk, XdrError>) {
        proof {
            reveal(spec_parse_open_downgrade_ok);
        }
        let v0 = match <StateId as XdrDeserialize>::deserialize(src) {
            Ok(x) => x,
            Err(e) => return Err(e),
        };
        Ok(OpenDowngradeOk { open_state_id: v0 })
    }
}

impl AsNfsStatus for OpenDowngradeOk {
    open spec fn spec_status(&self) -> NfsStatus {
        NfsStatus::Success
    }

    open spec fn spec_has_body(&self) -> bool {
        true
    }

    fn as_status(&self) -> (s: NfsStatus) {
        NfsStatus::Success
    }

    fn has_body(&self) -> (b: bool) {
        true
    }
}

/// What `OPEN_DOWNGRADE` answers: its result, or the status it failed with.
pub type OpenDowngradeResult = Result<OpenDowngradeOk, NfsStatus>;

/// The arguments of `PUTFH`.
#[derive(Debug)]
pub struct PutFhArgs {
    pub object: NfsFh,
}

/// The deep view of [`PutFhArgs`].
pub struct SpecPutFhArgs {
    pub object: Seq<u8>,
}

impl DeepView for PutFhArgs {
    type V = SpecPutFhArgs;

    open spec fn deep_view(&self) -> SpecPutFhArgs {
        SpecPutFhArgs { object: self.object.deep_view() }
    }
}

impl XdrSerialize for PutFhArgs {
    open spec fn spec_emit(v: SpecPutFhArgs) -> Emit {
        <NfsFh as XdrSerialize>::spec_emit(v.object)
    }

    fn serialize(&self, dest: &mut Vec<u8>) -> (r: Result<(), XdrError>) {
        self.object.serialize(dest)
    }
}

/// Reading a [`PutFhArgs`]: each field in turn.
#[verifier::opaque]
pub open spec fn spec_parse_put_fh_args(data: Seq<u8>, pos: int) -> Parse<SpecPutFhArgs> {
    match <NfsFh as XdrDeserialize>::spec_parse(data, pos) {
        Parse::Done(v0, p1) => Parse::Done(SpecPutFhArgs { object: v0 }, p1),
        Parse::Fails(e, q) => Parse::Fails(e, q),
    }
}

impl XdrDeserialize for PutFhArgs {
    open spec fn spec_parse(data: Seq<u8>, pos: int) -> Parse<SpecPutFhArgs> {
        spec_parse_put_fh_args(data, pos)
    }

    fn deserialize(src: &mut XdrReader) -> (r: Result<PutFhArgs, XdrError>) {
        proof {
            reveal(spec_parse_put_fh_args);
        }
        let v0 = match <NfsFh as XdrDeserialize>::deserialize(src) {
            Ok(x) => x,
            Err(e) => return Err(e),
        };
        Ok(PutFhArgs { object: v0 })
    }
}

/// What `PUTFH` answers: its result, or the status it failed with.
pub type PutFhResult = Result<NfsStatus, NfsStatus>;

/// What `PUTPUBFH` answers: its result, or the status it failed with.
pub type PutPublicFhResult = Result<NfsStatus, NfsStatus>;

/// What `PUTROOTFH` answers: its result, or the status it failed with.
pub type PutRootFhResult = Result<NfsStatus, NfsStatus>;

/// The arguments of `READ`.
#[derive(Debug)]
pub struct ReadArgs {
    state_id: StateId,
    offset: Offset,
    count: Count,
}

/// The deep view of [`ReadArgs`].
pub struct SpecReadArgs {
    pub state_id: SpecStateId,
    pub offset: u64,
    pub count: u32,
}

impl DeepView for ReadArgs {
    type V = SpecReadArgs;

    closed spec fn deep_view(&self) -> SpecReadArgs {
        SpecReadArgs { state_id: self.state_id.deep_view(), offset: self.offset.deep_view(), count: self.count.deep_view() }
    }
}

impl XdrSerialize for ReadArgs {
    open spec fn spec_emit(v: SpecReadArgs) -> Emit {
        <StateId as XdrSerialize>::spec_emit(v.state_id).and_then(<Offset as XdrSerialize>::spec_emit(v.offset)).and_then(<Count as XdrSerialize>::spec_emit(v.count))
    }

    fn serialize(&self, dest: &mut Vec<u8>) -> (r: Result<(), XdrError>) {
        match self.state_id.serialize(dest) {
            Ok(()) => {},
            Err(e) => return Err(e),
        }
        match self.offset.serialize(dest) {
            Ok(()) => {},
            Err(e) => return Err(e),
        }
        self.count.serialize(dest)
    }
}

/// Reading a [`ReadArgs`]: each field in turn.
#[verifier::opaque]
pub open spec fn spec_parse_read_args(data: Seq<u8>, pos: int) -> Parse<SpecReadArgs> {
    match <StateId as XdrDeserialize>::spec_parse(data, pos) {
        Parse::Done(v0, p1) => match <Offset as XdrDeserialize>::spec_parse(data, p1) {
            Parse::Done(v1, p2) => match <Count as XdrDeserialize>::spec_parse(data, p2) {
                Parse::Done(v2, p3) => Parse::Done(SpecReadArgs { state_id: v0, offset: v1, count: v2 }, p3),
                Parse::Fails(e, q) => Parse::Fails(e, q),
            },
            Parse::Fails(e, q) => Parse::Fails(e, q),
        },
        Parse::Fails(e, q) => Parse::Fails(e, q),
    }
}

impl XdrDeserialize for ReadArgs {
    open spec fn spec_parse(data: Seq<u8>, pos: int) -> Parse<SpecReadArgs> {
        spec_parse_read_args(data, pos)
    }

    fn deserialize(src: &mut XdrReader) -> (r: Result<ReadArgs, XdrError>) {
        proof {
            reveal(spec_parse_read_args);
        }
        let v0 = match <StateId as XdrDeserialize>::deserialize(src) {
            Ok(x) => x,
            Err(e) => return Err(e),
        };
        let v1 = match <Offset as XdrDeserialize>::deserialize(src) {
            Ok(x) => x,
            Err(e) => return Err(e),
        };
        let v2 = match <Count as XdrDeserialize>::deserialize(src) {
            Ok(x) => x,
            Err(e) => return Err(e),
        };
        Ok(ReadArgs { state_id: v0, offset: v1, count: v2 })
    }
}

/// What a successful `READ` answers.
#[derive(Debug)]
pub struct ReadOk {
    eof: bool,
    data: XdrOpaque,
}

/// The deep view of [`ReadOk`].
pub struct SpecReadOk {
    pub eof: bool,
    pub data: Seq<u8>,
}

impl DeepView for ReadOk {
    type V = SpecReadOk;

    closed spec fn deep_view(&self) -> SpecReadOk {
        SpecReadOk { eof: self.eof.deep_view(), data: self.data.deep_view() }
    }
}

impl XdrSerialize for ReadOk {
    open spec fn spec_emit(v: SpecReadOk) -> Emit {
        <bool as XdrSerialize>::spec_emit(v.eof).and_then(<XdrOpaque as XdrSerialize>::spec_emit(v.data))
    }

    fn serialize(&self, dest: &mut Vec<u8>) -> (r: Result<(), XdrError>) {
        match self.eof.serialize(dest) {
            Ok(()) => {},
            Err(e) => return Err(e),
        }
        self.data.serialize(dest)
    }
}

/// Reading a [`ReadOk`]: each field in turn.
#[verifier::opaque]
pub open spec fn spec_parse_read_ok(data: Seq<u8>, pos: int) -> Parse<SpecReadOk> {
    match <bool as XdrDeserialize>::spec_parse(data, pos) {
        Parse::Done(v0, p1) => match <XdrOpaque as XdrDeserialize>::spec_parse(data, p1) {
            Parse::Done(v1, p2) => Parse::Done(SpecReadOk { eof: v0, data: v1 }, p2),
            Parse::Fails(e, q) => Parse::Fails(e, q),
        },
        Parse::Fails(e, q) => Parse::Fails(e, q),
    }
}

impl XdrDeserialize for ReadOk {
    open spec fn spec_parse(data: Seq<u8>, pos: int) -> Parse<SpecReadOk> {
        spec_parse_read_ok(data, pos)
    }

    fn deserialize(src: &mut XdrReader) -> (r: Result<ReadOk, XdrError>) {
        proof {
            reveal(spec_parse_read_ok);
        }
        let v0 = match <bool as XdrDeserialize>::deserialize(src) {
            Ok(x) => x,
            Err(e) => return Err(e),
        };
        let v1 = match <XdrOpaque as XdrDeserialize>::deserialize(src) {
            Ok(x) => x,
            Err(e) => return Err(e),
        };
        Ok(ReadOk { eof: v0, data: v1 })
    }
}

impl AsNfsStatus for ReadOk {
    open spec fn spec_status(&self) -> NfsStatus {
        NfsStatus::Success
    }

    open spec fn spec_has_body(&self) -> bool {
        true
    }

    fn as_status(&self) -> (s: NfsStatus) {
        NfsStatus::Success
    }

    fn has_body(&self) -> (b: bool) {
        true
    }
}

/// What `READ` answers: its result, or the status it failed with.
pub type ReadResult = Result<ReadOk, NfsStatus>;

/// The arguments of `READDIR`.
#[derive(Debug)]
pub struct ReadDirectoryArgs {
    cookie: NfsCookie,
    cookie_verifier: Verifier,
    directory_count: Count,
    max_count: Count,
    attr_request: BitMap,
}

/// The deep view of [`ReadDirectoryArgs`].
pub struct SpecReadDirectoryArgs {
    pub cookie: u64,
    pub cookie_verifier: Seq<u8>,
    pub directory_count: u32,
    pub max_count: u32,
    pub attr_request: Seq<u32>,
}

impl DeepView for ReadDirectoryArgs {
    type V = SpecReadDirectoryArgs;

    closed spec fn deep_view(&self) -> SpecReadDirectoryArgs {
        SpecReadDirectoryArgs { cookie: self.cookie.deep_view(), cookie_verifier: self.cookie_verifier.deep_view(), directory_count: self.directory_count.deep_view(), max_count: self.max_count.deep_view(), attr_request: self.attr_request.deep_view() }
    }
}

impl XdrSerialize for ReadDirectoryArgs {
    open spec fn spec_emit(v: SpecReadDirectoryArgs) -> Emit {
        <NfsCookie as XdrSerialize>::spec_emit(v.cookie).and_then(<Verifier as XdrSerialize>::spec_emit(v.cookie_verifier)).and_then(<Count as XdrSerialize>::spec_emit(v.directory_count)).and_then(<Count as XdrSerialize>::spec_emit(v.max_count)).and_then(<BitMap as XdrSerialize>::spec_emit(v.attr_request))
    }

    #[verifier::spinoff_prover]
    #[verifier::rlimit(40)]
    fn serialize(&self, dest: &mut Vec<u8>) -> (r: Result<(), XdrError>) {
        match self.cookie.serialize(dest) {
            Ok(()) => {},
            Err(e) => return Err(e),
        }
        match self.cookie_verifier.serialize(dest) {
            Ok(()) => {},
            Err(e) => return Err(e),
        }
        match self.directory_count.serialize(dest) {
            Ok(()) => {},
            Err(e) => return Err(e),
        }
        match self.max_count.serialize(dest) {
            Ok(()) => {},
            Err(e) => return Err(e),
        }
        self.attr_request.serialize(dest)
    }
}

/// Reading a [`ReadDirectoryArgs`]: each field in turn.
#[verifier::opaque]
pub open spec fn spec_parse_read_directory_args(data: Seq<u8>, pos: int) -> Parse<SpecReadDirectoryArgs> {
    match <NfsCookie as XdrDeserialize>::spec_parse(data, pos) {
        Parse::Done(v0, p1) => match <Verifier as XdrDeserialize>::spec_parse(data, p1) {
            Parse::Done(v1, p2) => match <Count as XdrDeserialize>::spec_parse(data, p2) {
                Parse::Done(v2, p3) => match <Count as XdrDeserialize>::spec_parse(data, p3) {
                    Parse::Done(v3, p4) => match <BitMap as XdrDeserialize>::spec_parse(data, p4) {
                        Parse::Done(v4, p5) => Parse::Done(SpecReadDirectoryArgs { cookie: v0, cookie_verifier: v1, directory_count: v2, max_count: v3, attr_request: v4 }, p5),
                        Parse::Fails(e, q) => Parse::Fails(e, q),
                    },
                    Parse::Fails(e, q) => Parse::Fails(e, q),
                },
                Parse::Fails(e, q) => Parse::Fails(e, q),
            },
            Parse::Fails(e, q) => Parse::Fails(e, q),
        },
        Parse::Fails(e, q) => Parse::Fails(e, q),
    }
}

impl XdrDeserialize for ReadDirectoryArgs {
    open spec fn spec_parse(data: Seq<u8>, pos: int) -> Parse<SpecReadDirectoryArgs> {
        spec_parse_read_directory_args(data, pos)
    }

    fn deserialize(src: &mut XdrReader) -> (r: Result<ReadDirectoryArgs, XdrError>) {
        proof {
            reveal(spec_parse_read_directory_args);
        }
        let v0 = match <NfsCookie as XdrDeserialize>::deserialize(src) {
            Ok(x) => x,
            Err(e) => return Err(e),
        };
        let v1 = match <Verifier as XdrDeserialize>::deserialize(src) {
            Ok(x) => x,
            Err(e) => return Err(e),
        };
        let v2 = match <Count as XdrDeserialize>::deserialize(src) {
            Ok(x) => x,
            Err(e) => return Err(e),
        };
        let v3 = match <Count as XdrDeserialize>::deserialize(src) {
            Ok(x) => x,
            Err(e) => return Err(e),
        };
        let v4 = match <BitMap as XdrDeserialize>::deserialize(src) {
            Ok(x) => x,
            Err(e) => return Err(e),
        };
        Ok(ReadDirectoryArgs { cookie: v0, cookie_verifier: v1, directory_count: v2, max_count: v3, attr_request: v4 })
    }
}

/// An entry of a directory listing.
#[derive(Debug)]
pub struct Entry {
    cookie: NfsCookie,
    name: Component,
    attrs: FileAttrs,
}

/// The deep view of [`Entry`].
pub struct SpecEntry {
    pub cookie: u64,
    pub name: Seq<u8>,
    pub attrs: SpecFileAttrs,
}

impl DeepView for Entry {
    type V = SpecEntry;

    closed spec fn deep_view(&self) -> SpecEntry {
        SpecEntry { cookie: self.cookie.deep_view(), name: self.name.deep_view(), attrs: self.attrs.deep_view() }
    }
}

impl XdrSerialize for Entry {
    open spec fn spec_emit(v: SpecEntry) -> Emit {
        <NfsCookie as XdrSerialize>::spec_emit(v.cookie).and_then(<Component as XdrSerialize>::spec_emit(v.name)).and_then(<FileAttrs as XdrSerialize>::spec_emit(v.attrs))
    }

    fn serialize(&self, dest: &mut Vec<u8>) -> (r: Result<(), XdrError>) {
        match self.cookie.serialize(dest) {
            Ok(()) => {},
            Err(e) => return Err(e),
        }
        match self.name.serialize(dest) {
            Ok(()) => {},
            Err(e) => return Err(e),
        }
        self.attrs.serialize(dest)
    }
}

/// Reading a [`Entry`]: each field in turn.
#[verifier::opaque]
pub open spec fn spec_parse_entry(data: Seq<u8>, pos: int) -> Parse<SpecEntry> {
    match <NfsCookie as XdrDeserialize>::spec_parse(data, pos) {
        Parse::Done(v0, p1) => match <Component as XdrDeserialize>::spec_parse(data, p1) {
            Parse::Done(v1, p2) => match <FileAttrs as XdrDeserialize>::spec_parse(data, p2) {
                Parse::Done(v2, p3) => Parse::Done(SpecEntry { cookie: v0, name: v1, attrs: v2 }, p3),
                Parse::Fails(e, q) => Parse::Fails(e, q),
            },
            Parse::Fails(e, q) => Parse::Fails(e, q),
        },
        Parse::Fails(e, q) => Parse::Fails(e, q),
    }
}

impl XdrDeserialize for Entry {
    open spec fn spec_parse(data: Seq<u8>, pos: int) -> Parse<SpecEntry> {
        spec_parse_entry(data, pos)
    }

    fn deserialize(src: &mut XdrReader) -> (r: Result<Entry, XdrError>) {
        proof {
            reveal(spec_parse_entry);
        }
        let v0 = match <NfsCookie as XdrDeserialize>::deserialize(src) {
            Ok(x) => x,
            Err(e) => return Err(e),
        };
        let v1 = match <Component as XdrDeserialize>::deserialize(src) {
            Ok(x) => x,
            Err(e) => return Err(e),
        };
        let v2 = match <FileAttrs as XdrDeserialize>::deserialize(src) {
            Ok(x) => x,
            Err(e) => return Err(e),
        };
        Ok(Entry { cookie: v0, name: v1, attrs: v2 })
    }
}

/// A directory listing: its entries, and whether it reaches the end of the
/// directory.
#[derive(Debug)]
pub struct DirectoryList {
    entries: OptionalData<Entry>,
    eof: bool,
}

/// The deep view of [`DirectoryList`].
pub struct SpecDirectoryList {
    pub entries: Seq<SpecEntry>,
    pub eof: bool,
}

impl DeepView for DirectoryList {
    type V = SpecDirectoryList;

    closed spec fn deep_view(&self) -> SpecDirectoryList {
        SpecDirectoryList { entries: self.entries.deep_view(), eof: self.eof.deep_view() }
    }
}

impl XdrSerialize for DirectoryList {
    open spec fn spec_emit(v: SpecDirectoryList) -> Emit {
        <OptionalData<Entry> as XdrSerialize>::spec_emit(v.entries).and_then(<bool as XdrSerialize>::spec_emit(v.eof))
    }

    fn serialize(&self, dest: &mut Vec<u8>) -> (r: Result<(), XdrError>) {
        match self.entries.serialize(dest) {
            Ok(()) => {},
            Err(e) => return Err(e),
        }
        self.eof.serialize(dest)
    }
}

/// Reading a [`DirectoryList`]: each field in turn.
#[verifier::opaque]
pub open spec fn spec_parse_directory_list(data: Seq<u8>, pos: int) -> Parse<SpecDirectoryList> {
    match <OptionalData<Entry> as XdrDeserialize>::spec_parse(data, pos) {
        Parse::Done(v0, p1) => match <bool as XdrDeserialize>::spec_parse(data, p1) {
            Parse::Done(v1, p2) => Parse::Done(SpecDirectoryList { entries: v0, eof: v1 }, p2),
            Parse::Fails(e, q) => Parse::Fails(e, q),
        },
        Parse::Fails(e, q) => Parse::Fails(e, q),
    }
}

impl XdrDeserialize for DirectoryList {
    open spec fn spec_parse(data: Seq<u8>, pos: int) -> Parse<SpecDirectoryList> {
        spec_parse_directory_list(data, pos)
    }

    fn deserialize(src: &mut XdrReader) -> (r: Result<DirectoryList, XdrError>) {
        proof {
            reveal(spec_parse_directory_list);
        }
        let v0 = match <OptionalData<Entry> as XdrDeserialize>::deserialize(src) {
            Ok(x) => x,
            Err(e) => return Err(e),
        };
        let v1 = match <bool as XdrDeserialize>::deserialize(src) {
            Ok(x) => x,
            Err(e) => return Err(e),
        };
        Ok(DirectoryList { entries: v0, eof: v1 })
    }
}

/// What a successful `READDIR` answers.
#[derive(Debug)]
pub struct ReadDirectoryOk {
    cookie_verifier: Verifier,
    reply: DirectoryList,
}

/// The deep view of [`ReadDirectoryOk`].
pub struct SpecReadDirectoryOk {
    pub cookie_verifier: Seq<u8>,
    pub reply: SpecDirectoryList,
}

impl DeepView for ReadDirectoryOk {
    type V = SpecReadDirectoryOk;

    closed spec fn deep_view(&self) -> SpecReadDirectoryOk {
        SpecReadDirectoryOk { cookie_verifier: self.cookie_verifier.deep_view(), reply: self.reply.deep_view() }
    }
}

impl XdrSerialize for ReadDirectoryOk {
    open spec fn spec_emit(v: SpecReadDirectoryOk) -> Emit {
        <Verifier as XdrSerialize>::spec_emit(v.cookie_verifier).and_then(<DirectoryList as XdrSerialize>::spec_emit(v.reply))
    }

    fn serialize(&self, dest: &mut Vec<u8>) -> (r: Result<(), XdrError>) {
        match self.cookie_verifier.serialize(dest) {
            Ok(()) => {},
            Err(e) => return Err(e),
        }
        self.reply.serialize(dest)
    }
}

/// Reading a [`ReadDirectoryOk`]: each field in turn.
#[verifier::opaque]
pub open spec fn spec_parse_read_directory_ok(data: Seq<u8>, pos: int) -> Parse<SpecReadDirectoryOk> {
    match <Verifier as XdrDeserialize>::spec_parse(data, pos) {
        Parse::Done(v0, p1) => match <DirectoryList as XdrDeserialize>::spec_parse(data, p1) {
            Parse::Done(v1, p2) => Parse::Done(SpecReadDirectoryOk { cookie_verifier: v0, reply: v1 }, p2),
            Parse::Fails(e, q) => Parse::Fails(e, q),
        },
        Parse::Fails(e, q) => Parse::Fails(e, q),
    }
}

impl XdrDeserialize for ReadDirectoryOk {
    open spec fn spec_parse(data: Seq<u8>, pos: int) -> Parse<SpecReadDirectoryOk> {
        spec_parse_read_directory_ok(data, pos)
    }

    fn deserialize(src: &mut XdrReader) -> (r: Result<ReadDirectoryOk, XdrError>) {
        proof {
            reveal(spec_parse_read_directory_ok);
        }
        let v0 = match <Verifier as XdrDeserialize>::deserialize(src) {
            Ok(x) => x,
            Err(e) => return Err(e),
        };
        let v1 = match <DirectoryList as XdrDeserialize>::deserialize(src) {
            Ok(x) => x,
            Err(e) => return Err(e),
        };
        Ok(ReadDirectoryOk { cookie_verifier: v0, reply: v1 })
    }
}

impl AsNfsStatus for ReadDirectoryOk {
    open spec fn spec_status(&self) -> NfsStatus {
        NfsStatus::Success
    }

    open spec fn spec_has_body(&self) -> bool {
        true
    }

    fn as_status(&self) -> (s: NfsStatus) {
        NfsStatus::Success
    }

    fn has_body(&self) -> (b: bool) {
        true
    }
}

/// What `READDIR` answers: its result, or the status it failed with.
pub type ReadDirectoryResult = Result<ReadDirectoryOk, NfsStatus>;

/// What a successful `READLINK` answers.
#[derive(Debug)]
pub struct ReadLinkOk {
    link: LinkText,
}

/// The deep view of [`ReadLinkOk`].
pub struct SpecReadLinkOk {
    pub link: Seq<u8>,
}

impl DeepView for ReadLinkOk {
    type V = SpecReadLinkOk;

    closed spec fn deep_view(&self) -> SpecReadLinkOk {
        SpecReadLinkOk { link: self.link.deep_view() }
    }
}

impl XdrSerialize for ReadLinkOk {
    open spec fn spec_emit(v: SpecReadLinkOk) -> Emit {
        <LinkText as XdrSerialize>::spec_emit(v.link)
    }

    fn serialize(&self, dest: &mut Vec<u8>) -> (r: Result<(), XdrError>) {
        self.link.serialize(dest)
    }
}

/// Reading a [`ReadLinkOk`]: each field in turn.
#[verifier::opaque]
pub open spec fn spec_parse_read_link_ok(data: Seq<u8>, pos: int) -> Parse<SpecReadLinkOk> {
    match <LinkText as XdrDeserialize>::spec_parse(data, pos) {
        Parse::Done(v0, p1) => Parse::Done(SpecReadLinkOk { link: v0 }, p1),
        Parse::Fails(e, q) => Parse::Fails(e, q),
    }
}

impl XdrDeserialize for ReadLinkOk {
    open spec fn spec_parse(data: Seq<u8>, pos: int) -> Parse<SpecReadLinkOk> {
        spec_parse_read_link_ok(data, pos)
    }

    fn deserialize(src: &mut XdrReader) -> (r: Result<ReadLinkOk, XdrError>) {
        proof {
            reveal(spec_parse_read_link_ok);
        }
        let v0 = match <LinkText as XdrDeserialize>::deserialize(src) {
            Ok(x) => x,
            Err(e) => return Err(e),
        };
        Ok(ReadLinkOk { link: v0 })
    }
}

impl AsNfsStatus for ReadLinkOk {
    open spec fn spec_status(&self) -> NfsStatus {
        NfsStatus::Success
    }

    open spec fn spec_has_body(&self) -> bool {
        true
    }

    fn as_status(&self) -> (s: NfsStatus) {
        NfsStatus::Success
    }

    fn has_body(&self) -> (b: bool) {
        true
    }
}

/// What `READLINK` answers: its result, or the status it failed with.
pub type ReadLinkResult = Result<ReadLinkOk, NfsStatus>;

/// The arguments of `REMOVE`.
#[derive(Debug)]
pub struct RemoveArgs {
    target: Component,
}

/// The deep view of [`RemoveArgs`].
pub struct SpecRemoveArgs {
    pub target: Seq<u8>,
}

impl DeepView for RemoveArgs {
    type V = SpecRemoveArgs;

    closed spec fn deep_view(&self) -> SpecRemoveArgs {
        SpecRemoveArgs { target: self.target.deep_view() }
    }
}

impl XdrSerialize for RemoveArgs {
    open spec fn spec_emit(v: SpecRemoveArgs) -> Emit {
        <Component as XdrSerialize>::spec_emit(v.target)
    }

    fn serialize(&self, dest: &mut Vec<u8>) -> (r: Result<(), XdrError>) {
        self.target.serialize(dest)
    }
}

/// Reading a [`RemoveArgs`]: each field in turn.
#[verifier::opaque]
pub open spec fn spec_parse_remove_args(data: Seq<u8>, pos: int) -> Parse<SpecRemoveArgs> {
    match <Component as XdrDeserialize>::spec_parse(data, pos) {
        Parse::Done(v0, p1) => Parse::Done(SpecRemoveArgs { target: v0 }, p1),
        Parse::Fails(e, q) => Parse::Fails(e, q),
    }
}

impl XdrDeserialize for RemoveArgs {
    open spec fn spec_parse(data: Seq<u8>, pos: int) -> Parse<SpecRemoveArgs> {
        spec_parse_remove_args(data, pos)
    }

    fn deserialize(src: &mut XdrReader) -> (r: Result<RemoveArgs, XdrError>) {
        proof {
            reveal(spec_parse_remove_args);
        }
        let v0 = match <Component as XdrDeserialize>::deserialize(src) {
            Ok(x) => x,
            Err(e) => return Err(e),
        };
        Ok(RemoveArgs { target: v0 })
    }
}

/// What a successful `REMOVE` answers.
#[derive(Debug)]
pub struct RemoveOk {
    change_info: ChangeInfo,
}

/// The deep view of [`RemoveOk`].
pub struct SpecRemoveOk {
    pub change_info: SpecChangeInfo,
}

impl DeepView for RemoveOk {
    type V = SpecRemoveOk;

    closed spec fn deep_view(&self) -> SpecRemoveOk {
        SpecRemoveOk { change_info: self.change_info.deep_view() }
    }
}

impl XdrSerialize for RemoveOk {
    open spec fn spec_emit(v: SpecRemoveOk) -> Emit {
        <ChangeInfo as XdrSerialize>::spec_emit(v.change_info)
    }

    fn serialize(&self, dest: &mut Vec<u8>) -> (r: Result<(), XdrError>) {
        self.change_info.serialize(dest)
    }
}

/// Reading a [`RemoveOk`]: each field in turn.
#[verifier::opaque]
pub open spec fn spec_parse_remove_ok(data: Seq<u8>, pos: int) -> Parse<SpecRemoveOk> {
    match <ChangeInfo as XdrDeserialize>::spec_parse(data, pos) {
        Parse::Done(v0, p1) => Parse::Done(SpecRemoveOk { change_info: v0 }, p1),
        Parse::Fails(e, q) => Parse::Fails(e, q),
    }
}

impl XdrDeserialize for RemoveOk {
    open spec fn spec_parse(data: Seq<u8>, pos: int) -> Parse<SpecRemoveOk> {
        spec_parse_remove_ok(data, pos)
    }

    fn deserialize(src: &mut XdrReader) -> (r: Result<RemoveOk, XdrError>) {
        proof {
            reveal(spec_parse_remove_ok);
        }
        let v0 = match <ChangeInfo as XdrDeserialize>::deserialize(src) {
            Ok(x) => x,
            Err(e) => return Err(e),
        };
        Ok(RemoveOk { change_info: v0 })
    }
}

impl AsNfsStatus for RemoveOk {
    open spec fn spec_status(&self) -> NfsStatus {
        NfsStatus::Success
    }

    open spec fn spec_has_body(&self) -> bool {
        true
    }

    fn as_status(&self) -> (s: NfsStatus) {
        NfsStatus::Success
    }

    fn has_body(&self) -> (b: bool) {
        true
    }
}

/// What `REMOVE` answers: its result, or the status it failed with.
pub type RemoveResult = Result<RemoveOk, NfsStatus>;

/// The arguments of `RENAME`.
#[derive(Debug)]
pub struct RenameArgs {
    old_name: Component,
    new_name: Component,
}

/// The deep view of [`RenameArgs`].
pub struct SpecRenameArgs {
    pub old_name: Seq<u8>,
    pub new_name: Seq<u8>,
}

impl DeepView for RenameArgs {
    type V = SpecRenameArgs;

    closed spec fn deep_view(&self) -> SpecRenameArgs {
        SpecRenameArgs { old_name: self.old_name.deep_view(), new_name: self.new_name.deep_view() }
    }
}

impl XdrSerialize for RenameArgs {
    open spec fn spec_emit(v: SpecRenameArgs) -> Emit {
        <Component as XdrSerialize>::spec_emit(v.old_name).and_then(<Component as XdrSerialize>::spec_emit(v.new_name))
    }

    fn serialize(&self, dest: &mut Vec<u8>) -> (r: Result<(), XdrError>) {
        match self.old_name.serialize(dest) {
            Ok(()) => {},
            Err(e) => return Err(e),
        }
        self.new_name.serialize(dest)
    }
}

/// Reading a [`RenameArgs`]: each field in turn.
#[verifier::opaque]
pub open spec fn spec_parse_rename_args(data: Seq<u8>, pos: int) -> Parse<SpecRenameArgs> {
    match <Component as XdrDeserialize>::spec_parse(data, pos) {
        Parse::Done(v0, p1) => match <Component as XdrDeserialize>::spec_parse(data, p1) {
            Parse::Done(v1, p2) => Parse::Done(SpecRenameArgs { old_name: v0, new_name: v1 }, p2),
            Parse::Fails(e, q) => Parse::Fails(e, q),
        },
        Parse::Fails(e, q) => Parse::Fails(e, q),
    }
}

impl XdrDeserialize for RenameArgs {
    open spec fn spec_parse(data: Seq<u8>, pos: int) -> Parse<SpecRenameArgs> {
        spec_parse_rename_args(data, pos)
    }

    fn deserialize(src: &mut XdrReader) -> (r: Result<RenameArgs, XdrError>) {
        proof {
            reveal(spec_parse_rename_args);
        }
        let v0 = match <Component as XdrDeserialize>::deserialize(src) {
            Ok(x) => x,
            Err(e) => return Err(e),
        };
        let v1 = match <Component as XdrDeserialize>::deserialize(src) {
            Ok(x) => x,
            Err(e) => return Err(e),
        };
        Ok(RenameArgs { old_name: v0, new_name: v1 })
    }
}

/// What a successful `RENAME` answers.
#[derive(Debug)]
pub struct RenameOk {
    source_change_info: ChangeInfo,
    target_change_info: ChangeInfo,
}

/// The deep view of [`RenameOk`].
pub struct SpecRenameOk {
    pub source_change_info: SpecChangeInfo,
    pub target_change_info: SpecChangeInfo,
}

impl DeepView for RenameOk {
    type V = SpecRenameOk;

    closed spec fn deep_view(&self) -> SpecRenameOk {
        SpecRenameOk { source_change_info: self.source_change_info.deep_view(), target_change_info: self.target_change_info.deep_view() }
    }
}

impl XdrSerialize for RenameOk {
    open spec fn spec_emit(v: SpecRenameOk) -> Emit {
        <ChangeInfo as XdrSerialize>::spec_emit(v.source_change_info).and_then(<ChangeInfo as XdrSerialize>::spec_emit(v.target_change_info))
    }

    fn serialize(&self, dest: &mut Vec<u8>) -> (r: Result<(), XdrError>) {
        match self.source_change_info.serialize(dest) {
            Ok(()) => {},
            Err(e) => return Err(e),
        }
        self.target_change_info.serialize(dest)
    }
}

/// Reading a [`RenameOk`]: each field in turn.
#[verifier::opaque]
pub open spec fn spec_parse_rename_ok(data: Seq<u8>, pos: int) -> Parse<SpecRenameOk> {
    match <ChangeInfo as XdrDeserialize>::spec_parse(data, pos) {
        Parse::Done(v0, p1) => match <ChangeInfo as XdrDeserialize>::spec_parse(data, p1) {
            Parse::Done(v1, p2) => Parse::Done(SpecRenameOk { source_change_info: v0, target_change_info: v1 }, p2),
            Parse::Fails(e, q) => Parse::Fails(e, q),
        },
        Parse::Fails(e, q) => Parse::Fails(e, q),
    }
}

impl XdrDeserialize for RenameOk {
    open spec fn spec_parse(data: Seq<u8>, pos: int) -> Parse<SpecRenameOk> {
        spec_parse_rename_ok(data, pos)
    }

    fn deserialize(src: &mut XdrReader) -> (r: Result<RenameOk, XdrError>) {
        proof {
            reveal(spec_parse_rename_ok);
        }
        let v0 = match <ChangeInfo as XdrDeserialize>::deserialize(src) {
            Ok(x) => x,
            Err(e) => return Err(e),
        };
        let v1 = match <ChangeInfo as XdrDeserialize>::deserialize(src) {
            Ok(x) => x,
            Err(e) => return Err(e),
        };
        Ok(RenameOk { source_change_info: v0, target_change_info: v1 })
    }
}

impl AsNfsStatus for RenameOk {
    open spec fn spec_status(&self) -> NfsStatus {
        NfsStatus::Success
    }

    open spec fn spec_has_body(&self) -> bool {
        true
    }

    fn as_status(&self) -> (s: NfsStatus) {
        NfsStatus::Success
    }

    fn has_body(&self) -> (b: bool) {
        true
    }
}

/// What `RENAME` answers: its result, or the status it failed with.
pub type RenameResult = Result<RenameOk, NfsStatus>;

/// Obsolete in v4.1
pub struct RenewArgs {
    client_id: ClientId,
}

/// The deep view of [`RenewArgs`].
pub struct SpecRenewArgs {
    pub client_id: u64,
}

impl DeepView for RenewArgs {
    type V = SpecRenewArgs;

    closed spec fn deep_view(&self) -> SpecRenewArgs {
        SpecRenewArgs { client_id: self.client_id.deep_view() }
    }
}

impl XdrSerialize for RenewArgs {
    open spec fn spec_emit(v: SpecRenewArgs) -> Emit {
        <ClientId as XdrSerialize>::spec_emit(v.client_id)
    }

    fn serialize(&self, dest: &mut Vec<u8>) -> (r: Result<(), XdrError>) {
        self.client_id.serialize(dest)
    }
}

/// Reading a [`RenewArgs`]: each field in turn.
#[verifier::opaque]
pub open spec fn spec_parse_renew_args(data: Seq<u8>, pos: int) -> Parse<SpecRenewArgs> {
    match <ClientId as XdrDeserialize>::spec_parse(data, pos) {
        Parse::Done(v0, p1) => Parse::Done(SpecRenewArgs { client_id: v0 }, p1),
        Parse::Fails(e, q) => Parse::Fails(e, q),
    }
}

impl XdrDeserialize for RenewArgs {
    open spec fn spec_parse(data: Seq<u8>, pos: int) -> Parse<SpecRenewArgs> {
        spec_parse_renew_args(data, pos)
    }

    fn deserialize(src: &mut XdrReader) -> (r: Result<RenewArgs, XdrError>) {
        proof {
            reveal(spec_parse_renew_args);
        }
        let v0 = match <ClientId as XdrDeserialize>::deserialize(src) {
            Ok(x) => x,
            Err(e) => return Err(e),
        };
        Ok(RenewArgs { client_id: v0 })
    }
}

/// What `RENEW` answers: its result, or the status it failed with.
pub type RenewResult = Result<NfsStatus, NfsStatus>;

/// What `RESTOREFH` answers: its result, or the status it failed with.
pub type RestoreFhResult = Result<NfsStatus, NfsStatus>;

/// What `SAVEFH` answers: its result, or the status it failed with.
pub type SaveFhResult = Result<NfsStatus, NfsStatus>;

/// The arguments of `SECINFO`.
#[derive(Debug)]
pub struct SecurityInfoArgs {
    name: Component,
}

/// The deep view of [`SecurityInfoArgs`].
pub struct SpecSecurityInfoArgs {
    pub name: Seq<u8>,
}

impl DeepView for SecurityInfoArgs {
    type V = SpecSecurityInfoArgs;

    closed spec fn deep_view(&self) -> SpecSecurityInfoArgs {
        SpecSecurityInfoArgs { name: self.name.deep_view() }
    }
}

impl XdrSerialize for SecurityInfoArgs {
    open spec fn spec_emit(v: SpecSecurityInfoArgs) -> Emit {
        <Component as XdrSerialize>::spec_emit(v.name)
    }

    fn serialize(&self, dest: &mut Vec<u8>) -> (r: Result<(), XdrError>) {
        self.name.serialize(dest)
    }
}

/// Reading a [`SecurityInfoArgs`]: each field in turn.
#[verifier::opaque]
pub open spec fn spec_parse_security_info_args(data: Seq<u8>, pos: int) -> Parse<SpecSecurityInfoArgs> {
    match <Component as XdrDeserialize>::spec_parse(data, pos) {
        Parse::Done(v0, p1) => Parse::Done(SpecSecurityInfoArgs { name: v0 }, p1),
        Parse::Fails(e, q) => Parse::Fails(e, q),
    }
}

impl XdrDeserialize for SecurityInfoArgs {
    open spec fn spec_parse(data: Seq<u8>, pos: int) -> Parse<SpecSecurityInfoArgs> {
        spec_parse_security_info_args(data, pos)
    }

    fn deserialize(src: &mut XdrReader) -> (r: Result<SecurityInfoArgs, XdrError>) {
        proof {
            reveal(spec_parse_security_info_args);
        }
        let v0 = match <Component as XdrDeserialize>::deserialize(src) {
            Ok(x) => x,
            Err(e) => return Err(e),
        };
        Ok(SecurityInfoArgs { name: v0 })
    }
}

/// From RFC 2203
#[derive(Clone, Copy, Debug, PartialEq, Eq, Structural)]
pub enum RpcGssSvc {
    NoService,
    Integrity,
    Privacy,
}

impl DeepView for RpcGssSvc {
    type V = RpcGssSvc;

    open spec fn deep_view(&self) -> RpcGssSvc {
        *self
    }
}

impl RpcGssSvc {
    /// The number that stands for the value.
    pub open spec fn spec_to_u32(self) -> u32 {
        match self {
            RpcGssSvc::NoService => 1,
            RpcGssSvc::Integrity => 2,
            RpcGssSvc::Privacy => 3,
        }
    }

    /// The value that a number stands for, if any.
    pub open spec fn spec_from_u32(n: u32) -> Option<RpcGssSvc> {
        if n == 1 {
            Some(RpcGssSvc::NoService)
        } else if n == 2 {
            Some(RpcGssSvc::Integrity)
        } else if n == 3 {
            Some(RpcGssSvc::Privacy)
        } else {
            None
        }
    }

    /// The number that stands for the value.
    pub fn to_u32(&self) -> (n: u32)
        ensures
            n == self.spec_to_u32(),
    {
        match self {
            RpcGssSvc::NoService => 1,
            RpcGssSvc::Integrity => 2,
            RpcGssSvc::Privacy => 3,
        }
    }

    /// The value that `n` stands for, if any.
    pub fn from_u32(n: u32) -> (r: Option<RpcGssSvc>)
        ensures
            r == RpcGssSvc::spec_from_u32(n),
    {
        match n {
            1 => Some(RpcGssSvc::NoService),
            2 => Some(RpcGssSvc::Integrity),
            3 => Some(RpcGssSvc::Privacy),
            _ => None,
        }
    }
}

impl XdrSerialize for RpcGssSvc {
    /// The number, as a `u32`.
    open spec fn spec_emit(v: RpcGssSvc) -> Emit {
        spec_u32_emit(v.spec_to_u32())
    }

    fn serialize(&self, dest: &mut Vec<u8>) -> (r: Result<(), XdrError>) {
        let n: u32 = self.to_u32();
        let r = n.serialize(dest);
        assert(Self::spec_emit(self.deep_view()) == spec_u32_emit(n));
        r
    }
}

impl XdrDeserialize for RpcGssSvc {
    /// A number that stands for no value is invalid data.
    open spec fn spec_parse(data: Seq<u8>, pos: int) -> Parse<RpcGssSvc> {
        match spec_u32_parse(data, pos) {
            Parse::Done(n, p) => match RpcGssSvc::spec_from_u32(n) {
                Some(x) => Parse::Done(x, p),
                None => Parse::Fails(XdrError::InvalidData, p),
            },
            Parse::Fails(e, p) => Parse::Fails(e, p),
        }
    }

    fn deserialize(src: &mut XdrReader) -> (r: Result<RpcGssSvc, XdrError>) {
        let n = match u32::deserialize(src) {
            Ok(n) => n,
            Err(e) => return Err(e),
        };
        match RpcGssSvc::from_u32(n) {
            Some(x) => Ok(x),
            None => Err(XdrError::InvalidData),
        }
    }
}

#[derive(Debug)]
pub struct RpcSecGssInfo {
    oid: SecOid,
    qop: QOp,
    service: RpcGssSvc,
}

/// The deep view of [`RpcSecGssInfo`].
pub struct SpecRpcSecGssInfo {
    pub oid: Seq<u8>,
    pub qop: u32,
    pub service: RpcGssSvc,
}

impl DeepView for RpcSecGssInfo {
    type V = SpecRpcSecGssInfo;

    closed spec fn deep_view(&self) -> SpecRpcSecGssInfo {
        SpecRpcSecGssInfo { oid: self.oid.deep_view(), qop: self.qop.deep_view(), service: self.service.deep_view() }
    }
}

impl XdrSerialize for RpcSecGssInfo {
    open spec fn spec_emit(v: SpecRpcSecGssInfo) -> Emit {
        <SecOid as XdrSerialize>::spec_emit(v.oid).and_then(<QOp as XdrSerialize>::spec_emit(v.qop)).and_then(<RpcGssSvc as XdrSerialize>::spec_emit(v.service))
    }

    fn serialize(&self, dest: &mut Vec<u8>) -> (r: Result<(), XdrError>) {
        match self.oid.serialize(dest) {
            Ok(()) => {},
            Err(e) => return Err(e),
        }
        match self.qop.serialize(dest) {
            Ok(()) => {},
            Err(e) => return Err(e),
        }
        self.service.serialize(dest)
    }
}

/// Reading a [`RpcSecGssInfo`]: each field in turn.
#[verifier::opaque]
pub open spec fn spec_parse_rpc_sec_gss_info(data: Seq<u8>, pos: int) -> Parse<SpecRpcSecGssInfo> {
    match <SecOid as XdrDeserialize>::spec_parse(data, pos) {
        Parse::Done(v0, p1) => match <QOp as XdrDeserialize>::spec_parse(data, p1) {
            Parse::Done(v1, p2) => match <RpcGssSvc as XdrDeserialize>::spec_parse(data, p2) {
                Parse::Done(v2, p3) => Parse::Done(SpecRpcSecGssInfo { oid: v0, qop: v1, service: v2 }, p3),
                Parse::Fails(e, q) => Parse::Fails(e, q),
            },
            Parse::Fails(e, q) => Parse::Fails(e, q),
        },
        Parse::Fails(e, q) => Parse::Fails(e, q),
    }
}

impl XdrDeserialize for RpcSecGssInfo {
    open spec fn spec_parse(data: Seq<u8>, pos: int) -> Parse<SpecRpcSecGssInfo> {
        spec_parse_rpc_sec_gss_info(data, pos)
    }

    fn deserialize(src: &mut XdrReader) -> (r: Result<RpcSecGssInfo, XdrError>) {
        proof {
            reveal(spec_parse_rpc_sec_gss_info);
        }
        let v0 = match <SecOid as XdrDeserialize>::deserialize(src) {
            Ok(x) => x,
            Err(e) => return Err(e),
        };
        let v1 = match <QOp as XdrDeserialize>::deserialize(src) {
            Ok(x) => x,
            Err(e) => return Err(e),
        };
        let v2 = match <RpcGssSvc as XdrDeserialize>::deserialize(src) {
            Ok(x) => x,
            Err(e) => return Err(e),
        };
        Ok(RpcSecGssInfo { oid: v0, qop: v1, service: v2 })
    }
}

/// A security mechanism that a server takes: an RPCSEC_GSS mechanism, or a
/// flavor this library does not describe.
#[derive(Debug)]
pub enum SecurityInfo {
    RpcSecGss(RpcSecGssInfo),
    Unknown,
}

/// The deep view of [`SecurityInfo`].
pub enum SpecSecurityInfo {
    RpcSecGss(SpecRpcSecGssInfo),
    Unknown,
}

impl DeepView for SecurityInfo {
    type V = SpecSecurityInfo;

    open spec fn deep_view(&self) -> SpecSecurityInfo {
        match self {
            SecurityInfo::RpcSecGss(x) => SpecSecurityInfo::RpcSecGss(x.deep_view()),
            SecurityInfo::Unknown => SpecSecurityInfo::Unknown,
        }
    }
}

impl XdrSerialize for SecurityInfo {
    /// The RPCSEC_GSS flavor and the mechanism; an unknown flavor is written as 0.
    open spec fn spec_emit(v: SpecSecurityInfo) -> Emit {
        match v {
            SpecSecurityInfo::RpcSecGss(x) => spec_u32_emit(RPCSEC_GSS).and_then(<RpcSecGssInfo as XdrSerialize>::spec_emit(x)),
            SpecSecurityInfo::Unknown => spec_u32_emit(0),
        }
    }

    fn serialize(&self, dest: &mut Vec<u8>) -> (r: Result<(), XdrError>) {
        match self {
            SecurityInfo::RpcSecGss(x) => {
                match RPCSEC_GSS.serialize(dest) {
                    Ok(()) => {},
                    Err(e) => return Err(e),
                }
                x.serialize(dest)
            },
            SecurityInfo::Unknown => 0u32.serialize(dest),
        }
    }
}

/// Any flavor but RPCSEC_GSS reads as unknown.
/// Reading a [`SecurityInfo`]: its tag, then what the tag calls for.
#[verifier::opaque]
pub open spec fn spec_parse_security_info(data: Seq<u8>, pos: int) -> Parse<SpecSecurityInfo> {
        match spec_u32_parse(data, pos) {
            Parse::Done(t, p) => if t == RPCSEC_GSS {
                match <RpcSecGssInfo as XdrDeserialize>::spec_parse(data, p) {
                    Parse::Done(x, q) => Parse::Done(SpecSecurityInfo::RpcSecGss(x), q),
                    Parse::Fails(e, q) => Parse::Fails(e, q),
                }
            } else {
                Parse::Done(SpecSecurityInfo::Unknown, p)
            },
            Parse::Fails(e, p) => Parse::Fails(e, p),
        }
}

impl XdrDeserialize for SecurityInfo {
    open spec fn spec_parse(data: Seq<u8>, pos: int) -> Parse<SpecSecurityInfo> {
        spec_parse_security_info(data, pos)
    }

    fn deserialize(src: &mut XdrReader) -> (r: Result<SecurityInfo, XdrError>) {
        proof {
            reveal(spec_parse_security_info);
        }
        let t = match u32::deserialize(src) {
            Ok(t) => t,
            Err(e) => return Err(e),
        };
        if t == RPCSEC_GSS {
            match <RpcSecGssInfo as XdrDeserialize>::deserialize(src) {
                Ok(x) => Ok(SecurityInfo::RpcSecGss(x)),
                Err(e) => Err(e),
            }
        } else {
            Ok(SecurityInfo::Unknown)
        }
    }
}

/// What a successful `SECINFO` answers.
#[derive(Debug)]
pub struct SecurityInfoOk(Vec<SecurityInfo>);

/// The deep view of [`SecurityInfoOk`].
pub struct SpecSecurityInfoOk(pub Seq<SpecSecurityInfo>);

impl DeepView for SecurityInfoOk {
    type V = SpecSecurityInfoOk;

    closed spec fn deep_view(&self) -> SpecSecurityInfoOk {
        SpecSecurityInfoOk(self.0.deep_view())
    }
}

impl XdrSerialize for SecurityInfoOk {
    open spec fn spec_emit(v: SpecSecurityInfoOk) -> Emit {
        spec_vec_emit::<SecurityInfo>(v.0)
    }

    fn serialize(&self, dest: &mut Vec<u8>) -> (r: Result<(), XdrError>) {
        serialize_vec_of(dest, &self.0)
    }
}

/// Reading a [`SecurityInfoOk`]: each field in turn.
#[verifier::opaque]
pub open spec fn spec_parse_security_info_ok(data: Seq<u8>, pos: int) -> Parse<SpecSecurityInfoOk> {
    match spec_vec_parse::<SecurityInfo>(data, pos) {
        Parse::Done(v0, p1) => Parse::Done(SpecSecurityInfoOk(v0), p1),
        Parse::Fails(e, q) => Parse::Fails(e, q),
    }
}

impl XdrDeserialize for SecurityInfoOk {
    open spec fn spec_parse(data: Seq<u8>, pos: int) -> Parse<SpecSecurityInfoOk> {
        spec_parse_security_info_ok(data, pos)
    }

    fn deserialize(src: &mut XdrReader) -> (r: Result<SecurityInfoOk, XdrError>) {
        proof {
            reveal(spec_parse_security_info_ok);
        }
        let v0 = match deserialize_vec::<SecurityInfo>(src) {
            Ok(x) => x,
            Err(e) => return Err(e),
        };
        Ok(SecurityInfoOk(v0))
    }
}

impl AsNfsStatus for SecurityInfoOk {
    open spec fn spec_status(&self) -> NfsStatus {
        NfsStatus::Success
    }

    open spec fn spec_has_body(&self) -> bool {
        true
    }

    fn as_status(&self) -> (s: NfsStatus) {
        NfsStatus::Success
    }

    fn has_body(&self) -> (b: bool) {
        true
    }
}

/// What `SECINFO` answers: its result, or the status it failed with.
pub type SecurityInfoResult = Result<SecurityInfoOk, NfsStatus>;

/// The arguments of `SETATTR`.
pub struct SetAttributesArgs {
    state_id: StateId,
    object_attrs: FileAttrs,
}

/// The deep view of [`SetAttributesArgs`].
pub struct SpecSetAttributesArgs {
    pub state_id: SpecStateId,
    pub object_attrs: SpecFileAttrs,
}

impl DeepView for SetAttributesArgs {
    type V = SpecSetAttributesArgs;

    closed spec fn deep_view(&self) -> SpecSetAttributesArgs {
        SpecSetAttributesArgs { state_id: self.state_id.deep_view(), object_attrs: self.object_attrs.deep_view() }
    }
}

impl XdrSerialize for SetAttributesArgs {
    open spec fn spec_emit(v: SpecSetAttributesArgs) -> Emit {
        <StateId as XdrSerialize>::spec_emit(v.state_id).and_then(<FileAttrs as XdrSerialize>::spec_emit(v.object_attrs))
    }

    fn serialize(&self, dest: &mut Vec<u8>) -> (r: Result<(), XdrError>) {
        match self.state_id.serialize(dest) {
            Ok(()) => {},
            Err(e) => return Err(e),
        }
        self.object_attrs.serialize(dest)
    }
}

/// Reading a [`SetAttributesArgs`]: each field in turn.
#[verifier::opaque]
pub open spec fn spec_parse_set_attributes_args(data: Seq<u8>, pos: int) -> Parse<SpecSetAttributesArgs> {
    match <StateId as XdrDeserialize>::spec_parse(data, pos) {
        Parse::Done(v0, p1) => match <FileAttrs as XdrDeserialize>::spec_parse(data, p1) {
            Parse::Done(v1, p2) => Parse::Done(SpecSetAttributesArgs { state_id: v0, object_attrs: v1 }, p2),
            Parse::Fails(e, q) => Parse::Fails(e, q),
        },
        Parse::Fails(e, q) => Parse::Fails(e, q),
    }
}

impl XdrDeserialize for SetAttributesArgs {
    open spec fn spec_parse(data: Seq<u8>, pos: int) -> Parse<SpecSetAttributesArgs> {
        spec_parse_set_attributes_args(data, pos)
    }

    fn deserialize(src: &mut XdrReader) -> (r: Result<SetAttributesArgs, XdrError>) {
        proof {
            reveal(spec_parse_set_attributes_args);
        }
        let v0 = match <StateId as XdrDeserialize>::deserialize(src) {
            Ok(x) => x,
            Err(e) => return Err(e),
        };
        let v1 = match <FileAttrs as XdrDeserialize>::deserialize(src) {
            Ok(x) => x,
            Err(e) => return Err(e),
        };
        Ok(SetAttributesArgs { state_id: v0, object_attrs: v1 })
    }
}

/// What `SETATTR` answers: its result, or the status it failed with.
pub struct SetAttributesResult {
    status: NfsStatus,
    attrsset: BitMap,
}

/// The deep view of [`SetAttributesResult`].
pub struct SpecSetAttributesResult {
    pub status: NfsStatus,
    pub attrsset: Seq<u32>,
}

impl DeepView for SetAttributesResult {
    type V = SpecSetAttributesResult;

    closed spec fn deep_view(&self) -> SpecSetAttributesResult {
        SpecSetAttributesResult { status: self.status.deep_view(), attrsset: self.attrsset.deep_view() }
    }
}

impl XdrSerialize for SetAttributesResult {
    /// Writes `attrsset`.
    open spec fn spec_emit(v: SpecSetAttributesResult) -> Emit {
        <BitMap as XdrSerialize>::spec_emit(v.attrsset)
    }

    fn serialize(&self, dest: &mut Vec<u8>) -> (r: Result<(), XdrError>) {
        self.attrsset.serialize(dest)
    }
}

impl AsNfsStatus for SetAttributesResult {
    closed spec fn spec_status(&self) -> NfsStatus {
        self.status
    }

    open spec fn spec_has_body(&self) -> bool {
        true
    }

    fn as_status(&self) -> (s: NfsStatus) {
        self.status
    }

    fn has_body(&self) -> (b: bool) {
        true
    }
}

/// Obsolete in NFSv4.1
pub struct SetClientIdArgs {
    client: NfsClientId,
    callback: CallbackClient,
    callback_ident: u32,
}

/// The deep view of [`SetClientIdArgs`].
pub struct SpecSetClientIdArgs {
    pub client: SpecNfsClientId,
    pub callback: SpecCallbackClient,
    pub callback_ident: u32,
}

impl DeepView for SetClientIdArgs {
    type V = SpecSetClientIdArgs;

    closed spec fn deep_view(&self) -> SpecSetClientIdArgs {
        SpecSetClientIdArgs { client: self.client.deep_view(), callback: self.callback.deep_view(), callback_ident: self.callback_ident.deep_view() }
    }
}

impl XdrSerialize for SetClientIdArgs {
    open spec fn spec_emit(v: SpecSetClientIdArgs) -> Emit {
        <NfsClientId as XdrSerialize>::spec_emit(v.client).and_then(<CallbackClient as XdrSerialize>::spec_emit(v.callback)).and_then(<u32 as XdrSerialize>::spec_emit(v.callback_ident))
    }

    fn serialize(&self, dest: &mut Vec<u8>) -> (r: Result<(), XdrError>) {
        match self.client.serialize(dest) {
            Ok(()) => {},
            Err(e) => return Err(e),
        }
        match self.callback.serialize(dest) {
            Ok(()) => {},
            Err(e) => return Err(e),
        }
        self.callback_ident.serialize(dest)
    }
}

/// Reading a [`SetClientIdArgs`]: each field in turn.
#[verifier::opaque]
pub open spec fn spec_parse_set_client_id_args(data: Seq<u8>, pos: int) -> Parse<SpecSetClientIdArgs> {
    match <NfsClientId as XdrDeserialize>::spec_parse(data, pos) {
        Parse::Done(v0, p1) => match <CallbackClient as XdrDeserialize>::spec_parse(data, p1) {
            Parse::Done(v1, p2) => match <u32 as XdrDeserialize>::spec_parse(data, p2) {
                Parse::Done(v2, p3) => Parse::Done(SpecSetClientIdArgs { client: v0, callback: v1, callback_ident: v2 }, p3),
                Parse::Fails(e, q) => Parse::Fails(e, q),
            },
            Parse::Fails(e, q) => Parse::Fails(e, q),
        },
        Parse::Fails(e, q) => Parse::Fails(e, q),
    }
}

impl XdrDeserialize for SetClientIdArgs {
    open spec fn spec_parse(data: Seq<u8>, pos: int) -> Parse<SpecSetClientIdArgs> {
        spec_parse_set_client_id_args(data, pos)
    }

    fn deserialize(src: &mut XdrReader) -> (r: Result<SetClientIdArgs, XdrError>) {
        proof {
            reveal(spec_parse_set_client_id_args);
        }
        let v0 = match <NfsClientId as XdrDeserialize>::deserialize(src) {
            Ok(x) => x,
            Err(e) => return Err(e),
        };
        let v1 = match <CallbackClient as XdrDeserialize>::deserialize(src) {
            Ok(x) => x,
            Err(e) => return Err(e),
        };
        let v2 = match <u32 as XdrDeserialize>::deserialize(src) {
            Ok(x) => x,
            Err(e) => return Err(e),
        };
        Ok(SetClientIdArgs { client: v0, callback: v1, callback_ident: v2 })
    }
}

/// What a successful `SETCLIENTID` answers.
pub struct SetClientIdOk {
    client_id: ClientId,
    set_client_id_confirm: Verifier,
}

/// The deep view of [`SetClientIdOk`].
pub struct SpecSetClientIdOk {
    pub client_id: u64,
    pub set_client_id_confirm: Seq<u8>,
}

impl DeepView for SetClientIdOk {
    type V = SpecSetClientIdOk;

    closed spec fn deep_view(&self) -> SpecSetClientIdOk {
        SpecSetClientIdOk { client_id: self.client_id.deep_view(), set_client_id_confirm: self.set_client_id_confirm.deep_view() }
    }
}

impl XdrSerialize for SetClientIdOk {
    open spec fn spec_emit(v: SpecSetClientIdOk) -> Emit {
        <ClientId as XdrSerialize>::spec_emit(v.client_id).and_then(<Verifier as XdrSerialize>::spec_emit(v.set_client_id_confirm))
    }

    fn serialize(&self, dest: &mut Vec<u8>) -> (r: Result<(), XdrError>) {
        match self.client_id.serialize(dest) {
            Ok(()) => {},
            Err(e) => return Err(e),
        }
        self.set_client_id_confirm.serialize(dest)
    }
}

/// Reading a [`SetClientIdOk`]: each field in turn.
#[verifier::opaque]
pub open spec fn spec_parse_set_client_id_ok(data: Seq<u8>, pos: int) -> Parse<SpecSetClientIdOk> {
    match <ClientId as XdrDeserialize>::spec_parse(data, pos) {
        Parse::Done(v0, p1) => match <Verifier as XdrDeserialize>::spec_parse(data, p1) {
            Parse::Done(v1, p2) => Parse::Done(SpecSetClientIdOk { client_id: v0, set_client_id_confirm: v1 }, p2),
            Parse::Fails(e, q) => Parse::Fails(e, q),
        },
        Parse::Fails(e, q) => Parse::Fails(e, q),
    }
}

impl XdrDeserialize for SetClientIdOk {
    open spec fn spec_parse(data: Seq<u8>, pos: int) -> Parse<SpecSetClientIdOk> {
        spec_parse_set_client_id_ok(data, pos)
    }

    fn deserialize(src: &mut XdrReader) -> (r: Result<SetClientIdOk, XdrError>) {
        proof {
            reveal(spec_parse_set_client_id_ok);
        }
        let v0 = match <ClientId as XdrDeserialize>::deserialize(src) {
            Ok(x) => x,
            Err(e) => return Err(e),
        };
        let v1 = match <Verifier as XdrDeserialize>::deserialize(src) {
            Ok(x) => x,
            Err(e) => return Err(e),
        };
        Ok(SetClientIdOk { client_id: v0, set_client_id_confirm: v1 })
    }
}

/// What `SETCLIENTID` answers: its result, or the status it failed with.
pub type SetClientIdResult = Result<SetClientIdOk, NfsStatus>;

/// Obsolete in NFSv4.1
pub struct SetClientIdConfirmArgs {
    client_id: ClientId,
    set_client_id_confirm: Verifier,
}

/// The deep view of [`SetClientIdConfirmArgs`].
pub struct SpecSetClientIdConfirmArgs {
    pub client_id: u64,
    pub set_client_id_confirm: Seq<u8>,
}

impl DeepView for SetClientIdConfirmArgs {
    type V = SpecSetClientIdConfirmArgs;

    closed spec fn deep_view(&self) -> SpecSetClientIdConfirmArgs {
        SpecSetClientIdConfirmArgs { client_id: self.client_id.deep_view(), set_client_id_confirm: self.set_client_id_confirm.deep_view() }
    }
}

impl XdrSerialize for SetClientIdConfirmArgs {
    open spec fn spec_emit(v: SpecSetClientIdConfirmArgs) -> Emit {
        <ClientId as XdrSerialize>::spec_emit(v.client_id).and_then(<Verifier as XdrSerialize>::spec_emit(v.set_client_id_confirm))
    }

    fn serialize(&self, dest: &mut Vec<u8>) -> (r: Result<(), XdrError>) {
        match self.client_id.serialize(dest) {
            Ok(()) => {},
            Err(e) => return Err(e),
        }
        self.set_client_id_confirm.serialize(dest)
    }
}

/// Reading a [`SetClientIdConfirmArgs`]: each field in turn.
#[verifier::opaque]
pub open spec fn spec_parse_set_client_id_confirm_args(data: Seq<u8>, pos: int) -> Parse<SpecSetClientIdConfirmArgs> {
    match <ClientId as XdrDeserialize>::spec_parse(data, pos) {
        Parse::Done(v0, p1) => match <Verifier as XdrDeserialize>::spec_parse(data, p1) {
            Parse::Done(v1, p2) => Parse::Done(SpecSetClientIdConfirmArgs { client_id: v0, set_client_id_confirm: v1 }, p2),
            Parse::Fails(e, q) => Parse::Fails(e, q),
        },
        Parse::Fails(e, q) => Parse::Fails(e, q),
    }
}

impl XdrDeserialize for SetClientIdConfirmArgs {
    open spec fn spec_parse(data: Seq<u8>, pos: int) -> Parse<SpecSetClientIdConfirmArgs> {
        spec_parse_set_client_id_confirm_args(data, pos)
    }

    fn deserialize(src: &mut XdrReader) -> (r: Result<SetClientIdConfirmArgs, XdrError>) {
        proof {
            reveal(spec_parse_set_client_id_confirm_args);
        }
        let v0 = match <ClientId as XdrDeserialize>::deserialize(src) {
            Ok(x) => x,
            Err(e) => return Err(e),
        };
        let v1 = match <Verifier as XdrDeserialize>::deserialize(src) {
            Ok(x) => x,
            Err(e) => return Err(e),
        };
        Ok(SetClientIdConfirmArgs { client_id: v0, set_client_id_confirm: v1 })
    }
}

/// What `SETCLIENTID_CONFIRM` answers: its result, or the status it failed with.
pub type SetClientIdConfirmResult = Result<NfsStatus, NfsStatus>;

/// The arguments of `VERIFY`.
#[derive(Debug)]
pub struct VerifyArgs {
    object_attrs: FileAttrs,
}

/// The deep view of [`VerifyArgs`].
pub struct SpecVerifyArgs {
    pub object_attrs: SpecFileAttrs,
}

impl DeepView for VerifyArgs {
    type V = SpecVerifyArgs;

    closed spec fn deep_view(&self) -> SpecVerifyArgs {
        SpecVerifyArgs { object_attrs: self.object_attrs.deep_view() }
    }
}

impl XdrSerialize for VerifyArgs {
    open spec fn spec_emit(v: SpecVerifyArgs) -> Emit {
        <FileAttrs as XdrSerialize>::spec_emit(v.object_attrs)
    }

    fn serialize(&self, dest: &mut Vec<u8>) -> (r: Result<(), XdrError>) {
        self.object_attrs.serialize(dest)
    }
}

/// Reading a [`VerifyArgs`]: each field in turn.
#[verifier::opaque]
pub open spec fn spec_parse_verify_args(data: Seq<u8>, pos: int) -> Parse<SpecVerifyArgs> {
    match <FileAttrs as XdrDeserialize>::spec_parse(data, pos) {
        Parse::Done(v0, p1) => Parse::Done(SpecVerifyArgs { object_attrs: v0 }, p1),
        Parse::Fails(e, q) => Parse::Fails(e, q),
    }
}

impl XdrDeserialize for VerifyArgs {
    open spec fn spec_parse(data: Seq<u8>, pos: int) -> Parse<SpecVerifyArgs> {
        spec_parse_verify_args(data, pos)
    }

    fn deserialize(src: &mut XdrReader) -> (r: Result<VerifyArgs, XdrError>) {
        proof {
            reveal(spec_parse_verify_args);
        }
        let v0 = match <FileAttrs as XdrDeserialize>::deserialize(src) {
            Ok(x) => x,
            Err(e) => return Err(e),
        };
        Ok(VerifyArgs { object_attrs: v0 })
    }
}

/// What `VERIFY` answers: its result, or the status it failed with.
pub type VerifyResult = Result<NfsStatus, NfsStatus>;

/// From RFC 2203
#[derive(Clone, Copy, Debug, PartialEq, Eq, Structural)]
pub enum StableHow {
    Unstable,
    DataSync,
    FileSync,
}

impl DeepView for StableHow {
    type V = StableHow;

    open spec fn deep_view(&self) -> StableHow {
        *self
    }
}

impl StableHow {
    /// The number that stands for the value.
    pub open spec fn spec_to_u32(self) -> u32 {
        match self {
            StableHow::Unstable => 0,
            StableHow::DataSync => 1,
            StableHow::FileSync => 2,
        }
    }

    /// The value that a number stands for, if any.
    pub open spec fn spec_from_u32(n: u32) -> Option<StableHow> {
        if n == 0 {
            Some(StableHow::Unstable)
        } else if n == 1 {
            Some(StableHow::DataSync)
        } else if n == 2 {
            Some(StableHow::FileSync)
        } else {
            None
        }
    }

    /// The number that stands for the value.
    pub fn to_u32(&self) -> (n: u32)
        ensures
            n == self.spec_to_u32(),
    {
        match self {
            StableHow::Unstable => 0,
            StableHow::DataSync => 1,
            StableHow::FileSync => 2,
        }
    }

    /// The value that `n` stands for, if any.
    pub fn from_u32(n: u32) -> (r: Option<StableHow>)
        ensures
            r == StableHow::spec_from_u32(n),
    {
        match n {
            0 => Some(StableHow::Unstable),
            1 => Some(StableHow::DataSync),
            2 => Some(StableHow::FileSync),
            _ => None,
        }
    }
}

impl XdrSerialize for StableHow {
    /// The number, as a `u32`.
    open spec fn spec_emit(v: StableHow) -> Emit {
        spec_u32_emit(v.spec_to_u32())
    }

    fn serialize(&self, dest: &mut Vec<u8>) -> (r: Result<(), XdrError>) {
        let n: u32 = self.to_u32();
        let r = n.serialize(dest);
        assert(Self::spec_emit(self.deep_view()) == spec_u32_emit(n));
        r
    }
}

impl XdrDeserialize for StableHow {
    /// A number that stands for no value is invalid data.
    open spec fn spec_parse(data: Seq<u8>, pos: int) -> Parse<StableHow> {
        match spec_u32_parse(data, pos) {
            Parse::Done(n, p) => match StableHow::spec_from_u32(n) {
                Some(x) => Parse::Done(x, p),
                None => Parse::Fails(XdrError::InvalidData, p),
            },
            Parse::Fails(e, p) => Parse::Fails(e, p),
        }
    }

    fn deserialize(src: &mut XdrReader) -> (r: Result<StableHow, XdrError>) {
        let n = match u32::deserialize(src) {
            Ok(n) => n,
            Err(e) => return Err(e),
        };
        match StableHow::from_u32(n) {
            Some(x) => Ok(x),
            None => Err(XdrError::InvalidData),
        }
    }
}

/// The arguments of `WRITE`.
#[derive(Debug)]
pub struct WriteArgs {
    state_id: StateId,
    offset: Offset,
    stable: StableHow,
    data: XdrOpaque,
}

/// The deep view of [`WriteArgs`].
pub struct SpecWriteArgs {
    pub state_id: SpecStateId,
    pub offset: u64,
    pub stable: StableHow,
    pub data: Seq<u8>,
}

impl DeepView for WriteArgs {
    type V = SpecWriteArgs;

    closed spec fn deep_view(&self) -> SpecWriteArgs {
        SpecWriteArgs { state_id: self.state_id.deep_view(), offset: self.offset.deep_view(), stable: self.stable.deep_view(), data: self.data.deep_view() }
    }
}

impl XdrSerialize for WriteArgs {
    open spec fn spec_emit(v: SpecWriteArgs) -> Emit {
        <StateId as XdrSerialize>::spec_emit(v.state_id).and_then(<Offset as XdrSerialize>::spec_emit(v.offset)).and_then(<StableHow as XdrSerialize>::spec_emit(v.stable)).and_then(<XdrOpaque as XdrSerialize>::spec_emit(v.data))
    }

    fn serialize(&self, dest: &mut Vec<u8>) -> (r: Result<(), XdrError>) {
        match self.state_id.serialize(dest) {
            Ok(()) => {},
            Err(e) => return Err(e),
        }
        match self.offset.serialize(dest) {
            Ok(()) => {},
            Err(e) => return Err(e),
        }
        match self.stable.serialize(dest) {
            Ok(()) => {},
            Err(e) => return Err(e),
        }
        self.data.serialize(dest)
    }
}

/// Reading a [`WriteArgs`]: each field in turn.
#[verifier::opaque]
pub open spec fn spec_parse_write_args(data: Seq<u8>, pos: int) -> Parse<SpecWriteArgs> {
    match <StateId as XdrDeserialize>::spec_parse(data, pos) {
        Parse::Done(v0, p1) => match <Offset as XdrDeserialize>::spec_parse(data, p1) {
            Parse::Done(v1, p2) => match <StableHow as XdrDeserialize>::spec_parse(data, p2) {
                Parse::Done(v2, p3) => match <XdrOpaque as XdrDeserialize>::spec_parse(data, p3) {
                    Parse::Done(v3, p4) => Parse::Done(SpecWriteArgs { state_id: v0, offset: v1, stable: v2, data: v3 }, p4),
                    Parse::Fails(e, q) => Parse::Fails(e, q),
                },
                Parse::Fails(e, q) => Parse::Fails(e, q),
            },
            Parse::Fails(e, q) => Parse::Fails(e, q),
        },
        Parse::Fails(e, q) => Parse::Fails(e, q),
    }
}

impl XdrDeserialize for WriteArgs {
    open spec fn spec_parse(data: Seq<u8>, pos: int) -> Parse<SpecWriteArgs> {
        spec_parse_write_args(data, pos)
    }

    fn deserialize(src: &mut XdrReader) -> (r: Result<WriteArgs, XdrError>) {
        proof {
            reveal(spec_parse_write_args);
        }
        let v0 = match <StateId as XdrDeserialize>::deserialize(src) {
            Ok(x) => x,
            Err(e) => return Err(e),
        };
        let v1 = match <Offset as XdrDeserialize>::deserialize(src) {
            Ok(x) => x,
            Err(e) => return Err(e),
        };
        let v2 = match <StableHow as XdrDeserialize>::deserialize(src) {
            Ok(x) => x,
            Err(e) => return Err(e),
        };
        let v3 = match <XdrOpaque as XdrDeserialize>::deserialize(src) {
            Ok(x) => x,
            Err(e) => return Err(e),
        };
        Ok(WriteArgs { state_id: v0, offset: v1, stable: v2, data: v3 })
    }
}

/// What a successful `WRITE` answers.
#[derive(Debug)]
pub struct WriteOk {
    count: Count,
    committed: StableHow,
    write_verifier: Verifier,
}

/// The deep view of [`WriteOk`].
pub struct SpecWriteOk {
    pub count: u32,
    pub committed: StableHow,
    pub write_verifier: Seq<u8>,
}

impl DeepView for WriteOk {
    type V = SpecWriteOk;

    closed spec fn deep_view(&self) -> SpecWriteOk {
        SpecWriteOk { count: self.count.deep_view(), committed: self.committed.deep_view(), write_verifier: self.write_verifier.deep_view() }
    }
}

impl XdrSerialize for WriteOk {
    open spec fn spec_emit(v: SpecWriteOk) -> Emit {
        <Count as XdrSerialize>::spec_emit(v.count).and_then(<StableHow as XdrSerialize>::spec_emit(v.committed)).and_then(<Verifier as XdrSerialize>::spec_emit(v.write_verifier))
    }

    fn serialize(&self, dest: &mut Vec<u8>) -> (r: Result<(), XdrError>) {
        match self.count.serialize(dest) {
            Ok(()) => {},
            Err(e) => return Err(e),
        }
        match self.committed.serialize(dest) {
            Ok(()) => {},
            Err(e) => return Err(e),
        }
        self.write_verifier.serialize(dest)
    }
}

/// Reading a [`WriteOk`]: each field in turn.
#[verifier::opaque]
pub open spec fn spec_parse_write_ok(data: Seq<u8>, pos: int) -> Parse<SpecWriteOk> {
    match <Count as XdrDeserialize>::spec_parse(data, pos) {
        Parse::Done(v0, p1) => match <StableHow as XdrDeserialize>::spec_parse(data, p1) {
            Parse::Done(v1, p2) => match <Verifier as XdrDeserialize>::spec_parse(data, p2) {
                Parse::Done(v2, p3) => Parse::Done(SpecWriteOk { count: v0, committed: v1, write_verifier: v2 }, p3),
                Parse::Fails(e, q) => Parse::Fails(e, q),
            },
            Parse::Fails(e, q) => Parse::Fails(e, q),
        },
        Parse::Fails(e, q) => Parse::Fails(e, q),
    }
}

impl XdrDeserialize for WriteOk {
    open spec fn spec_parse(data: Seq<u8>, pos: int) -> Parse<SpecWriteOk> {
        spec_parse_write_ok(data, pos)
    }

    fn deserialize(src: &mut XdrReader) -> (r: Result<WriteOk, XdrError>) {
        proof {
            reveal(spec_parse_write_ok);
        }
        let v0 = match <Count as XdrDeserialize>::deserialize(src) {
            Ok(x) => x,
            Err(e) => return Err(e),
        };
        let v1 = match <StableHow as XdrDeserialize>::deserialize(src) {
            Ok(x) => x,
            Err(e) => return Err(e),
        };
        let v2 = match <Verifier as XdrDeserialize>::deserialize(src) {
            Ok(x) => x,
            Err(e) => return Err(e),
        };
        Ok(WriteOk { count: v0, committed: v1, write_verifier: v2 })
    }
}

impl AsNfsStatus for WriteOk {
    open spec fn spec_status(&self) -> NfsStatus {
        NfsStatus::Success
    }

    open spec fn spec_has_body(&self) -> bool {
        true
    }

    fn as_status(&self) -> (s: NfsStatus) {
        NfsStatus::Success
    }

    fn has_body(&self) -> (b: bool) {
        true
    }
}

/// What `WRITE` answers: its result, or the status it failed with.
pub type WriteResult = Result<WriteOk, NfsStatus>;

/// Obsolete in NFSv4.1
pub struct ReleaseLockOwnerArgs {
    lock_owner: LockOwner,
}

/// The deep view of [`ReleaseLockOwnerArgs`].
pub struct SpecReleaseLockOwnerArgs {
    pub lock_owner: SpecStateOwner,
}

impl DeepView for ReleaseLockOwnerArgs {
    type V = SpecReleaseLockOwnerArgs;

    closed spec fn deep_view(&self) -> SpecReleaseLockOwnerArgs {
        SpecReleaseLockOwnerArgs { lock_owner: self.lock_owner.deep_view() }
    }
}

impl XdrSerialize for ReleaseLockOwnerArgs {
    open spec fn spec_emit(v: SpecReleaseLockOwnerArgs) -> Emit {
        <LockOwner as XdrSerialize>::spec_emit(v.lock_owner)
    }

    fn serialize(&self, dest: &mut Vec<u8>) -> (r: Result<(), XdrError>) {
        self.lock_owner.serialize(dest)
    }
}

/// Reading a [`ReleaseLockOwnerArgs`]: each field in turn.
#[verifier::opaque]
pub open spec fn spec_parse_release_lock_owner_args(data: Seq<u8>, pos: int) -> Parse<SpecReleaseLockOwnerArgs> {
    match <LockOwner as XdrDeserialize>::spec_parse(data, pos) {
        Parse::Done(v0, p1) => Parse::Done(SpecReleaseLockOwnerArgs { lock_owner: v0 }, p1),
        Parse::Fails(e, q) => Parse::Fails(e, q),
    }
}

impl XdrDeserialize for ReleaseLockOwnerArgs {
    open spec fn spec_parse(data: Seq<u8>, pos: int) -> Parse<SpecReleaseLockOwnerArgs> {
        spec_parse_release_lock_owner_args(data, pos)
    }

    fn deserialize(src: &mut XdrReader) -> (r: Result<ReleaseLockOwnerArgs, XdrError>) {
        proof {
            reveal(spec_parse_release_lock_owner_args);
        }
        let v0 = match <LockOwner as XdrDeserialize>::deserialize(src) {
            Ok(x) => x,
            Err(e) => return Err(e),
        };
        Ok(ReleaseLockOwnerArgs { lock_owner: v0 })
    }
}

/// What `RELEASE_LOCKOWNER` answers: its result, or the status it failed with.
pub type ReleaseLockOwnerResult = Result<NfsStatus, NfsStatus>;

/// What `ILLEGAL` answers: its result, or the status it failed with.
pub type IllegalInstructionResult = Result<NfsStatus, NfsStatus>;

pub type GssHandle = XdrOpaque;

#[derive(Clone, Debug)]
pub struct GssCallbackHandles {
    gcbp_service: RpcGssSvc,
    gcbp_handle_from_server: GssHandle,
    gcbp_handle_from_client: GssHandle,
}

/// The deep view of [`GssCallbackHandles`].
pub struct SpecGssCallbackHandles {
    pub gcbp_service: RpcGssSvc,
    pub gcbp_handle_from_server: Seq<u8>,
    pub gcbp_handle_from_client: Seq<u8>,
}

impl DeepView for GssCallbackHandles {
    type V = SpecGssCallbackHandles;

    closed spec fn deep_view(&self) -> SpecGssCallbackHandles {
        SpecGssCallbackHandles { gcbp_service: self.gcbp_service.deep_view(), gcbp_handle_from_server: self.gcbp_handle_from_server.deep_view(), gcbp_handle_from_client: self.gcbp_handle_from_client.deep_view() }
    }
}

impl XdrSerialize for GssCallbackHandles {
    open spec fn spec_emit(v: SpecGssCallbackHandles) -> Emit {
        <RpcGssSvc as XdrSerialize>::spec_emit(v.gcbp_service).and_then(<GssHandle as XdrSerialize>::spec_emit(v.gcbp_handle_from_server)).and_then(<GssHandle as XdrSerialize>::spec_emit(v.gcbp_handle_from_client))
    }

    fn serialize(&self, dest: &mut Vec<u8>) -> (r: Result<(), XdrError>) {
        match self.gcbp_service.serialize(dest) {
            Ok(()) => {},
            Err(e) => return Err(e),
        }
        match self.gcbp_handle_from_server.serialize(dest) {
            Ok(()) => {},
            Err(e) => return Err(e),
        }
        self.gcbp_handle_from_client.serialize(dest)
    }
}

/// Reading a [`GssCallbackHandles`]: each field in turn.
#[verifier::opaque]
pub open spec fn spec_parse_gss_callback_handles(data: Seq<u8>, pos: int) -> Parse<SpecGssCallbackHandles> {
    match <RpcGssSvc as XdrDeserialize>::spec_parse(data, pos) {
        Parse::Done(v0, p1) => match <GssHandle as XdrDeserialize>::spec_parse(data, p1) {
            Parse::Done(v1, p2) => match <GssHandle as XdrDeserialize>::spec_parse(data, p2) {
                Parse::Done(v2, p3) => Parse::Done(SpecGssCallbackHandles { gcbp_service: v0, gcbp_handle_from_server: v1, gcbp_handle_from_client: v2 }, p3),
                Parse::Fails(e, q) => Parse::Fails(e, q),
            },
            Parse::Fails(e, q) => Parse::Fails(e, q),
        },
        Parse::Fails(e, q) => Parse::Fails(e, q),
    }
}

impl XdrDeserialize for GssCallbackHandles {
    open spec fn spec_parse(data: Seq<u8>, pos: int) -> Parse<SpecGssCallbackHandles> {
        spec_parse_gss_callback_handles(data, pos)
    }

    fn deserialize(src: &mut XdrReader) -> (r: Result<GssCallbackHandles, XdrError>) {
        proof {
            reveal(spec_parse_gss_callback_handles);
        }
        let v0 = match <RpcGssSvc as XdrDeserialize>::deserialize(src) {
            Ok(x) => x,
            Err(e) => return Err(e),
        };
        let v1 = match <GssHandle as XdrDeserialize>::deserialize(src) {
            Ok(x) => x,
            Err(e) => return Err(e),
        };
        let v2 = match <GssHandle as XdrDeserialize>::deserialize(src) {
            Ok(x) => x,
            Err(e) => return Err(e),
        };
        Ok(GssCallbackHandles { gcbp_service: v0, gcbp_handle_from_server: v1, gcbp_handle_from_client: v2 })
    }
}

/// The security the server uses on the callback channel.
#[derive(Clone, Debug)]
pub enum CallbackSecurityParameters {
    NoAuth,
    Sys(AuthUnix),
    RpcSecGss(GssCallbackHandles),
}

/// The deep view of [`CallbackSecurityParameters`].
pub enum SpecCallbackSecurityParameters {
    NoAuth,
    Sys(SpecAuthUnix),
    RpcSecGss(SpecGssCallbackHandles),
}

impl DeepView for CallbackSecurityParameters {
    type V = SpecCallbackSecurityParameters;

    open spec fn deep_view(&self) -> SpecCallbackSecurityParameters {
        match self {
            CallbackSecurityParameters::NoAuth => SpecCallbackSecurityParameters::NoAuth,
            CallbackSecurityParameters::Sys(x) => SpecCallbackSecurityParameters::Sys(x.deep_view()),
            CallbackSecurityParameters::RpcSecGss(x) => SpecCallbackSecurityParameters::RpcSecGss(x.deep_view()),
        }
    }
}

impl XdrSerialize for CallbackSecurityParameters {
    open spec fn spec_emit(v: SpecCallbackSecurityParameters) -> Emit {
        match v {
            SpecCallbackSecurityParameters::NoAuth => spec_u32_emit(AuthFlavor::Null.spec_to_u32()),
            SpecCallbackSecurityParameters::Sys(x) => spec_u32_emit(AuthFlavor::Unix.spec_to_u32()).and_then(<AuthUnix as XdrSerialize>::spec_emit(x)),
            SpecCallbackSecurityParameters::RpcSecGss(x) => spec_u32_emit(AuthFlavor::RpcSecGss.spec_to_u32()).and_then(<GssCallbackHandles as XdrSerialize>::spec_emit(x)),
        }
    }

    fn serialize(&self, dest: &mut Vec<u8>) -> (r: Result<(), XdrError>) {
        match self {
            CallbackSecurityParameters::NoAuth => AuthFlavor::Null.serialize(dest),
            CallbackSecurityParameters::Sys(x) => {
                match AuthFlavor::Unix.serialize(dest) {
                    Ok(()) => {},
                    Err(e) => return Err(e),
                }
                x.serialize(dest)
            },
            CallbackSecurityParameters::RpcSecGss(x) => {
                match AuthFlavor::RpcSecGss.serialize(dest) {
                    Ok(()) => {},
                    Err(e) => return Err(e),
                }
                x.serialize(dest)
            },
        }
    }
}

/// The short and DES flavors are an error.
/// Reading a [`CallbackSecurityParameters`]: its tag, then what the tag calls for.
#[verifier::opaque]
pub open spec fn spec_parse_callback_security_parameters(data: Seq<u8>, pos: int) -> Parse<SpecCallbackSecurityParameters> {
        match <AuthFlavor as XdrDeserialize>::spec_parse(data, pos) {
            Parse::Done(t, p) => match t {
                AuthFlavor::Null => Parse::Done(SpecCallbackSecurityParameters::NoAuth, p),
                AuthFlavor::Unix => match <AuthUnix as XdrDeserialize>::spec_parse(data, p) {
                    Parse::Done(x, q) => Parse::Done(SpecCallbackSecurityParameters::Sys(x), q),
                    Parse::Fails(e, q) => Parse::Fails(e, q),
                },
                AuthFlavor::RpcSecGss => match <GssCallbackHandles as XdrDeserialize>::spec_parse(data, p) {
                    Parse::Done(x, q) => Parse::Done(SpecCallbackSecurityParameters::RpcSecGss(x), q),
                    Parse::Fails(e, q) => Parse::Fails(e, q),
                },
                AuthFlavor::Short | AuthFlavor::Des => Parse::Fails(XdrError::Other, p),
            },
            Parse::Fails(e, p) => Parse::Fails(e, p),
        }
}

impl XdrDeserialize for CallbackSecurityParameters {
    open spec fn spec_parse(data: Seq<u8>, pos: int) -> Parse<SpecCallbackSecurityParameters> {
        spec_parse_callback_security_parameters(data, pos)
    }

    fn deserialize(src: &mut XdrReader) -> (r: Result<CallbackSecurityParameters, XdrError>) {
        proof {
            reveal(spec_parse_callback_security_parameters);
        }
        let t = match <AuthFlavor as XdrDeserialize>::deserialize(src) {
            Ok(t) => t,
            Err(e) => return Err(e),
        };
        match t {
            AuthFlavor::Null => Ok(CallbackSecurityParameters::NoAuth),
            AuthFlavor::Unix => match <AuthUnix as XdrDeserialize>::deserialize(src) {
                Ok(x) => Ok(CallbackSecurityParameters::Sys(x)),
                Err(e) => Err(e),
            },
            AuthFlavor::RpcSecGss => match <GssCallbackHandles as XdrDeserialize>::deserialize(src) {
                Ok(x) => Ok(CallbackSecurityParameters::RpcSecGss(x)),
                Err(e) => Err(e),
            },
            AuthFlavor::Short | AuthFlavor::Des => Err(XdrError::Other),
        }
    }
}

/// The arguments of `BACKCHANNEL_CTL`.
#[derive(Debug)]
pub struct BackchannelControlArgs {
    callback_program: u32,
    security_parameters: CallbackSecurityParameters,
}

/// The deep view of [`BackchannelControlArgs`].
pub struct SpecBackchannelControlArgs {
    pub callback_program: u32,
    pub security_parameters: SpecCallbackSecurityParameters,
}

impl DeepView for BackchannelControlArgs {
    type V = SpecBackchannelControlArgs;

    closed spec fn deep_view(&self) -> SpecBackchannelControlArgs {
        SpecBackchannelControlArgs { callback_program: self.callback_program.deep_view(), security_parameters: self.security_parameters.deep_view() }
    }
}

impl XdrSerialize for BackchannelControlArgs {
    open spec fn spec_emit(v: SpecBackchannelControlArgs) -> Emit {
        <u32 as XdrSerialize>::spec_emit(v.callback_program).and_then(<CallbackSecurityParameters as XdrSerialize>::spec_emit(v.security_parameters))
    }

    fn serialize(&self, dest: &mut Vec<u8>) -> (r: Result<(), XdrError>) {
        match self.callback_program.serialize(dest) {
            Ok(()) => {},
            Err(e) => return Err(e),
        }
        self.security_parameters.serialize(dest)
    }
}

/// Reading a [`BackchannelControlArgs`]: each field in turn.
#[verifier::opaque]
pub open spec fn spec_parse_backchannel_control_args(data: Seq<u8>, pos: int) -> Parse<SpecBackchannelControlArgs> {
    match <u32 as XdrDeserialize>::spec_parse(data, pos) {
        Parse::Done(v0, p1) => match <CallbackSecurityParameters as XdrDeserialize>::spec_parse(data, p1) {
            Parse::Done(v1, p2) => Parse::Done(SpecBackchannelControlArgs { callback_program: v0, security_parameters: v1 }, p2),
            Parse::Fails(e, q) => Parse::Fails(e, q),
        },
        Parse::Fails(e, q) => Parse::Fails(e, q),
    }
}

impl XdrDeserialize for BackchannelControlArgs {
    open spec fn spec_parse(data: Seq<u8>, pos: int) -> Parse<SpecBackchannelControlArgs> {
        spec_parse_backchannel_control_args(data, pos)
    }

    fn deserialize(src: &mut XdrReader) -> (r: Result<BackchannelControlArgs, XdrError>) {
        proof {
            reveal(spec_parse_backchannel_control_args);
        }
        let v0 = match <u32 as XdrDeserialize>::deserialize(src) {
            Ok(x) => x,
            Err(e) => return Err(e),
        };
        let v1 = match <CallbackSecurityParameters as XdrDeserialize>::deserialize(src) {
            Ok(x) => x,
            Err(e) => return Err(e),
        };
        Ok(BackchannelControlArgs { callback_program: v0, security_parameters: v1 })
    }
}

/// What `BACKCHANNEL_CTL` answers: its result, or the status it failed with.
pub type BackchannelControlResult = Result<NfsStatus, NfsStatus>;

#[derive(Clone, Copy, Debug, PartialEq, Eq, Structural)]
pub enum ChannelDirectionFromClient {
    Fore,
    Back,
    ForeOrBoth,
    BackOrBoth,
}

impl DeepView for ChannelDirectionFromClient {
    type V = ChannelDirectionFromClient;

    open spec fn deep_view(&self) -> ChannelDirectionFromClient {
        *self
    }
}

impl ChannelDirectionFromClient {
    /// The number that stands for the value.
    pub open spec fn spec_to_u32(self) -> u32 {
        match self {
            ChannelDirectionFromClient::Fore => 1,
            ChannelDirectionFromClient::Back => 2,
            ChannelDirectionFromClient::ForeOrBoth => 3,
            ChannelDirectionFromClient::BackOrBoth => 7,
        }
    }

    /// The value that a number stands for, if any.
    pub open spec fn spec_from_u32(n: u32) -> Option<ChannelDirectionFromClient> {
        if n == 1 {
            Some(ChannelDirectionFromClient::Fore)
        } else if n == 2 {
            Some(ChannelDirectionFromClient::Back)
        } else if n == 3 {
            Some(ChannelDirectionFromClient::ForeOrBoth)
        } else if n == 7 {
            Some(ChannelDirectionFromClient::BackOrBoth)
        } else {
            None
        }
    }

    /// The number that stands for the value.
    pub fn to_u32(&self) -> (n: u32)
        ensures
            n == self.spec_to_u32(),
    {
        match self {
            ChannelDirectionFromClient::Fore => 1,
            ChannelDirectionFromClient::Back => 2,
            ChannelDirectionFromClient::ForeOrBoth => 3,
            ChannelDirectionFromClient::BackOrBoth => 7,
        }
    }

    /// The value that `n` stands for, if any.
    pub fn from_u32(n: u32) -> (r: Option<ChannelDirectionFromClient>)
        ensures
            r == ChannelDirectionFromClient::spec_from_u32(n),
    {
        match n {
            1 => Some(ChannelDirectionFromClient::Fore),
            2 => Some(ChannelDirectionFromClient::Back),
            3 => Some(ChannelDirectionFromClient::ForeOrBoth),
            7 => Some(ChannelDirectionFromClient::BackOrBoth),
            _ => None,
        }
    }
}

impl XdrSerialize for ChannelDirectionFromClient {
    /// The number, as a `u32`.
    open spec fn spec_emit(v: ChannelDirectionFromClient) -> Emit {
        spec_u32_emit(v.spec_to_u32())
    }

    fn serialize(&self, dest: &mut Vec<u8>) -> (r: Result<(), XdrError>) {
        let n: u32 = self.to_u32();
        let r = n.serialize(dest);
        assert(Self::spec_emit(self.deep_view()) == spec_u32_emit(n));
        r
    }
}

impl XdrDeserialize for ChannelDirectionFromClient {
    /// A number that stands for no value is invalid data.
    open spec fn spec_parse(data: Seq<u8>, pos: int) -> Parse<ChannelDirectionFromClient> {
        match spec_u32_parse(data, pos) {
            Parse::Done(n, p) => match ChannelDirectionFromClient::spec_from_u32(n) {
                Some(x) => Parse::Done(x, p),
                None => Parse::Fails(XdrError::InvalidData, p),
            },
            Parse::Fails(e, p) => Parse::Fails(e, p),
        }
    }

    fn deserialize(src: &mut XdrReader) -> (r: Result<ChannelDirectionFromClient, XdrError>) {
        let n = match u32::deserialize(src) {
            Ok(n) => n,
            Err(e) => return Err(e),
        };
        match ChannelDirectionFromClient::from_u32(n) {
            Some(x) => Ok(x),
            None => Err(XdrError::InvalidData),
        }
    }
}

/// The arguments of `BIND_CONN_TO_SESSION`.
#[derive(Debug)]
pub struct BindConnectionToSessionArgs {
    session_id: SessionId,
    channel_direction_from_client: ChannelDirectionFromClient,
    use_conn_in_rdma: bool,
}

/// The deep view of [`BindConnectionToSessionArgs`].
pub struct SpecBindConnectionToSessionArgs {
    pub session_id: Seq<u8>,
    pub channel_direction_from_client: ChannelDirectionFromClient,
    pub use_conn_in_rdma: bool,
}

impl DeepView for BindConnectionToSessionArgs {
    type V = SpecBindConnectionToSessionArgs;

    closed spec fn deep_view(&self) -> SpecBindConnectionToSessionArgs {
        SpecBindConnectionToSessionArgs { session_id: self.session_id.deep_view(), channel_direction_from_client: self.channel_direction_from_client.deep_view(), use_conn_in_rdma: self.use_conn_in_rdma.deep_view() }
    }
}

impl XdrSerialize for BindConnectionToSessionArgs {
    open spec fn spec_emit(v: SpecBindConnectionToSessionArgs) -> Emit {
        <SessionId as XdrSerialize>::spec_emit(v.session_id).and_then(<ChannelDirectionFromClient as XdrSerialize>::spec_emit(v.channel_direction_from_client)).and_then(<bool as XdrSerialize>::spec_emit(v.use_conn_in_rdma))
    }

    fn serialize(&self, dest: &mut Vec<u8>) -> (r: Result<(), XdrError>) {
        match self.session_id.serialize(dest) {
            Ok(()) => {},
            Err(e) => return Err(e),
        }
        match self.channel_direction_from_client.serialize(dest) {
            Ok(()) => {},
            Err(e) => return Err(e),
        }
        self.use_conn_in_rdma.serialize(dest)
    }
}

/// Reading a [`BindConnectionToSessionArgs`]: each field in turn.
#[verifier::opaque]
pub open spec fn spec_parse_bind_connection_to_session_args(data: Seq<u8>, pos: int) -> Parse<SpecBindConnectionToSessionArgs> {
    match <SessionId as XdrDeserialize>::spec_parse(data, pos) {
        Parse::Done(v0, p1) => match <ChannelDirectionFromClient as XdrDeserialize>::spec_parse(data, p1) {
            Parse::Done(v1, p2) => match <bool as XdrDeserialize>::spec_parse(data, p2) {
                Parse::Done(v2, p3) => Parse::Done(SpecBindConnectionToSessionArgs { session_id: v0, channel_direction_from_client: v1, use_conn_in_rdma: v2 }, p3),
                Parse::Fails(e, q) => Parse::Fails(e, q),
            },
            Parse::Fails(e, q) => Parse::Fails(e, q),
        },
        Parse::Fails(e, q) => Parse::Fails(e, q),
    }
}

impl XdrDeserialize for BindConnectionToSessionArgs {
    open spec fn spec_parse(data: Seq<u8>, pos: int) -> Parse<SpecBindConnectionToSessionArgs> {
        spec_parse_bind_connection_to_session_args(data, pos)
    }

    fn deserialize(src: &mut XdrReader) -> (r: Result<BindConnectionToSessionArgs, XdrError>) {
        proof {
            reveal(spec_parse_bind_connection_to_session_args);
        }
        let v0 = match <SessionId as XdrDeserialize>::deserialize(src) {
            Ok(x) => x,
            Err(e) => return Err(e),
        };
        let v1 = match <ChannelDirectionFromClient as XdrDeserialize>::deserialize(src) {
            Ok(x) => x,
            Err(e) => return Err(e),
        };
        let v2 = match <bool as XdrDeserialize>::deserialize(src) {
            Ok(x) => x,
            Err(e) => return Err(e),
        };
        Ok(BindConnectionToSessionArgs { session_id: v0, channel_direction_from_client: v1, use_conn_in_rdma: v2 })
    }
}

#[derive(Clone, Copy, Debug, PartialEq, Eq, Structural)]
pub enum ChannelDirectionFromServer {
    Fore,
    Back,
    Both,
}

impl DeepView for ChannelDirectionFromServer {
    type V = ChannelDirectionFromServer;

    open spec fn deep_view(&self) -> ChannelDirectionFromServer {
        *self
    }
}

impl ChannelDirectionFromServer {
    /// The number that stands for the value.
    pub open spec fn spec_to_u32(self) -> u32 {
        match self {
            ChannelDirectionFromServer::Fore => 1,
            ChannelDirectionFromServer::Back => 2,
            ChannelDirectionFromServer::Both => 3,
        }
    }

    /// The value that a number stands for, if any.
    pub open spec fn spec_from_u32(n: u32) -> Option<ChannelDirectionFromServer> {
        if n == 1 {
            Some(ChannelDirectionFromServer::Fore)
        } else if n == 2 {
            Some(ChannelDirectionFromServer::Back)
        } else if n == 3 {
            Some(ChannelDirectionFromServer::Both)
        } else {
            None
        }
    }

    /// The number that stands for the value.
    pub fn to_u32(&self) -> (n: u32)
        ensures
            n == self.spec_to_u32(),
    {
        match self {
            ChannelDirectionFromServer::Fore => 1,
            ChannelDirectionFromServer::Back => 2,
            ChannelDirectionFromServer::Both => 3,
        }
    }

    /// The value that `n` stands for, if any.
    pub fn from_u32(n: u32) -> (r: Option<ChannelDirectionFromServer>)
        ensures
            r == ChannelDirectionFromServer::spec_from_u32(n),
    {
        match n {
            1 => Some(ChannelDirectionFromServer::Fore),
            2 => Some(ChannelDirectionFromServer::Back),
            3 => Some(ChannelDirectionFromServer::Both),
            _ => None,
        }
    }
}

impl XdrSerialize for ChannelDirectionFromServer {
    /// The number, as a `u32`.
    open spec fn spec_emit(v: ChannelDirectionFromServer) -> Emit {
        spec_u32_emit(v.spec_to_u32())
    }

    fn serialize(&self, dest: &mut Vec<u8>) -> (r: Result<(), XdrError>) {
        let n: u32 = self.to_u32();
        let r = n.serialize(dest);
        assert(Self::spec_emit(self.deep_view()) == spec_u32_emit(n));
        r
    }
}

impl XdrDeserialize for ChannelDirectionFromServer {
    /// A number that stands for no value is invalid data.
    open spec fn spec_parse(data: Seq<u8>, pos: int) -> Parse<ChannelDirectionFromServer> {
        match spec_u32_parse(data, pos) {
            Parse::Done(n, p) => match ChannelDirectionFromServer::spec_from_u32(n) {
                Some(x) => Parse::Done(x, p),
                None => Parse::Fails(XdrError::InvalidData, p),
            },
            Parse::Fails(e, p) => Parse::Fails(e, p),
        }
    }

    fn deserialize(src: &mut XdrReader) -> (r: Result<ChannelDirectionFromServer, XdrError>) {
        let n = match u32::deserialize(src) {
            Ok(n) => n,
            Err(e) => return Err(e),
        };
        match ChannelDirectionFromServer::from_u32(n) {
            Some(x) => Ok(x),
            None => Err(XdrError::InvalidData),
        }
    }
}

/// What a successful `BIND_CONN_TO_SESSION` answers.
#[derive(Debug)]
pub struct BindConnectionToSessionOk {
    session_id: SessionId,
    channel_direction_from_server: ChannelDirectionFromServer,
    use_conn_in_rdma: bool,
}

/// The deep view of [`BindConnectionToSessionOk`].
pub struct SpecBindConnectionToSessionOk {
    pub session_id: Seq<u8>,
    pub channel_direction_from_server: ChannelDirectionFromServer,
    pub use_conn_in_rdma: bool,
}

impl DeepView for BindConnectionToSessionOk {
    type V = SpecBindConnectionToSessionOk;

    closed spec fn deep_view(&self) -> SpecBindConnectionToSessionOk {
        SpecBindConnectionToSessionOk { session_id: self.session_id.deep_view(), channel_direction_from_server: self.channel_direction_from_server.deep_view(), use_conn_in_rdma: self.use_conn_in_rdma.deep_view() }
    }
}

impl XdrSerialize for BindConnectionToSessionOk {
    open spec fn spec_emit(v: SpecBindConnectionToSessionOk) -> Emit {
        <SessionId as XdrSerialize>::spec_emit(v.session_id).and_then(<ChannelDirectionFromServer as XdrSerialize>::spec_emit(v.channel_direction_from_server)).and_then(<bool as XdrSerialize>::spec_emit(v.use_conn_in_rdma))
    }

    fn serialize(&self, dest: &mut Vec<u8>) -> (r: Result<(), XdrError>) {
        match self.session_id.serialize(dest) {
            Ok(()) => {},
            Err(e) => return Err(e),
        }
        match self.channel_direction_from_server.serialize(dest) {
            Ok(()) => {},
            Err(e) => return Err(e),
        }
        self.use_conn_in_rdma.serialize(dest)
    }
}

/// Reading a [`BindConnectionToSessionOk`]: each field in turn.
#[verifier::opaque]
pub open spec fn spec_parse_bind_connection_to_session_ok(data: Seq<u8>, pos: int) -> Parse<SpecBindConnectionToSessionOk> {
    match <SessionId as XdrDeserialize>::spec_parse(data, pos) {
        Parse::Done(v0, p1) => match <ChannelDirectionFromServer as XdrDeserialize>::spec_parse(data, p1) {
            Parse::Done(v1, p2) => match <bool as XdrDeserialize>::spec_parse(data, p2) {
                Parse::Done(v2, p3) => Parse::Done(SpecBindConnectionToSessionOk { session_id: v0, channel_direction_from_server: v1, use_conn_in_rdma: v2 }, p3),
                Parse::Fails(e, q) => Parse::Fails(e, q),
            },
            Parse::Fails(e, q) => Parse::Fails(e, q),
        },
        Parse::Fails(e, q) => Parse::Fails(e, q),
    }
}

impl XdrDeserialize for BindConnectionToSessionOk {
    open spec fn spec_parse(data: Seq<u8>, pos: int) -> Parse<SpecBindConnectionToSessionOk> {
        spec_parse_bind_connection_to_session_ok(data, pos)
    }

    fn deserialize(src: &mut XdrReader) -> (r: Result<BindConnectionToSessionOk, XdrError>) {
        proof {
            reveal(spec_parse_bind_connection_to_session_ok);
        }
        let v0 = match <SessionId as XdrDeserialize>::deserialize(src) {
            Ok(x) => x,
            Err(e) => return Err(e),
        };
        let v1 = match <ChannelDirectionFromServer as XdrDeserialize>::deserialize(src) {
            Ok(x) => x,
            Err(e) => return Err(e),
        };
        let v2 = match <bool as XdrDeserialize>::deserialize(src) {
            Ok(x) => x,
            Err(e) => return Err(e),
        };
        Ok(BindConnectionToSessionOk { session_id: v0, channel_direction_from_server: v1, use_conn_in_rdma: v2 })
    }
}

impl AsNfsStatus for BindConnectionToSessionOk {
    open spec fn spec_status(&self) -> NfsStatus {
        NfsStatus::Success
    }

    open spec fn spec_has_body(&self) -> bool {
        true
    }

    fn as_status(&self) -> (s: NfsStatus) {
        NfsStatus::Success
    }

    fn has_body(&self) -> (b: bool) {
        true
    }
}

/// What `BIND_CONN_TO_SESSION` answers: its result, or the status it failed with.
pub type BindConnectionToSessionResult = Result<BindConnectionToSessionOk, NfsStatus>;

#[derive(Debug)]
pub struct StateProtectOps {
    must_enforce: BitMap,
    must_allow: BitMap,
}

/// The deep view of [`StateProtectOps`].
pub struct SpecStateProtectOps {
    pub must_enforce: Seq<u32>,
    pub must_allow: Seq<u32>,
}

impl DeepView for StateProtectOps {
    type V = SpecStateProtectOps;

    closed spec fn deep_view(&self) -> SpecStateProtectOps {
        SpecStateProtectOps { must_enforce: self.must_enforce.deep_view(), must_allow: self.must_allow.deep_view() }
    }
}

impl XdrSerialize for StateProtectOps {
    open spec fn spec_emit(v: SpecStateProtectOps) -> Emit {
        <BitMap as XdrSerialize>::spec_emit(v.must_enforce).and_then(<BitMap as XdrSerialize>::spec_emit(v.must_allow))
    }

    fn serialize(&self, dest: &mut Vec<u8>) -> (r: Result<(), XdrError>) {
        match self.must_enforce.serialize(dest) {
            Ok(()) => {},
            Err(e) => return Err(e),
        }
        self.must_allow.serialize(dest)
    }
}

/// Reading a [`StateProtectOps`]: each field in turn.
#[verifier::opaque]
pub open spec fn spec_parse_state_protect_ops(data: Seq<u8>, pos: int) -> Parse<SpecStateProtectOps> {
    match <BitMap as XdrDeserialize>::spec_parse(data, pos) {
        Parse::Done(v0, p1) => match <BitMap as XdrDeserialize>::spec_parse(data, p1) {
            Parse::Done(v1, p2) => Parse::Done(SpecStateProtectOps { must_enforce: v0, must_allow: v1 }, p2),
            Parse::Fails(e, q) => Parse::Fails(e, q),
        },
        Parse::Fails(e, q) => Parse::Fails(e, q),
    }
}

impl XdrDeserialize for StateProtectOps {
    open spec fn spec_parse(data: Seq<u8>, pos: int) -> Parse<SpecStateProtectOps> {
        spec_parse_state_protect_ops(data, pos)
    }

    fn deserialize(src: &mut XdrReader) -> (r: Result<StateProtectOps, XdrError>) {
        proof {
            reveal(spec_parse_state_protect_ops);
        }
        let v0 = match <BitMap as XdrDeserialize>::deserialize(src) {
            Ok(x) => x,
            Err(e) => return Err(e),
        };
        let v1 = match <BitMap as XdrDeserialize>::deserialize(src) {
            Ok(x) => x,
            Err(e) => return Err(e),
        };
        Ok(StateProtectOps { must_enforce: v0, must_allow: v1 })
    }
}

#[derive(Debug)]
pub struct SsvStateProtectParameters {
    ops: StateProtectOps,
    hash_algorithms: Vec<SecOid>,
    encryption_algorithms: Vec<SecOid>,
    window: u32,
    num_gss_handles: u32,
}

/// The deep view of [`SsvStateProtectParameters`].
pub struct SpecSsvStateProtectParameters {
    pub ops: SpecStateProtectOps,
    pub hash_algorithms: Seq<Seq<u8>>,
    pub encryption_algorithms: Seq<Seq<u8>>,
    pub window: u32,
    pub num_gss_handles: u32,
}

impl DeepView for SsvStateProtectParameters {
    type V = SpecSsvStateProtectParameters;

    closed spec fn deep_view(&self) -> SpecSsvStateProtectParameters {
        SpecSsvStateProtectParameters { ops: self.ops.deep_view(), hash_algorithms: self.hash_algorithms.deep_view(), encryption_algorithms: self.encryption_algorithms.deep_view(), window: self.window.deep_view(), num_gss_handles: self.num_gss_handles.deep_view() }
    }
}

impl XdrSerialize for SsvStateProtectParameters {
    open spec fn spec_emit(v: SpecSsvStateProtectParameters) -> Emit {
        <StateProtectOps as XdrSerialize>::spec_emit(v.ops).and_then(spec_vec_emit::<SecOid>(v.hash_algorithms)).and_then(spec_vec_emit::<SecOid>(v.encryption_algorithms)).and_then(<u32 as XdrSerialize>::spec_emit(v.window)).and_then(<u32 as XdrSerialize>::spec_emit(v.num_gss_handles))
    }

    #[verifier::spinoff_prover]
    #[verifier::rlimit(40)]
    fn serialize(&self, dest: &mut Vec<u8>) -> (r: Result<(), XdrError>) {
        match self.ops.serialize(dest) {
            Ok(()) => {},
            Err(e) => return Err(e),
        }
        match serialize_vec_of(dest, &self.hash_algorithms) {
            Ok(()) => {},
            Err(e) => return Err(e),
        }
        match serialize_vec_of(dest, &self.encryption_algorithms) {
            Ok(()) => {},
            Err(e) => return Err(e),
        }
        match self.window.serialize(dest) {
            Ok(()) => {},
            Err(e) => return Err(e),
        }
        self.num_gss_handles.serialize(dest)
    }
}

/// Reading a [`SsvStateProtectParameters`]: each field in turn.
#[verifier::opaque]
pub open spec fn spec_parse_ssv_state_protect_parameters(data: Seq<u8>, pos: int) -> Parse<SpecSsvStateProtectParameters> {
    match <StateProtectOps as XdrDeserialize>::spec_parse(data, pos) {
        Parse::Done(v0, p1) => match spec_vec_parse::<SecOid>(data, p1) {
            Parse::Done(v1, p2) => match spec_vec_parse::<SecOid>(data, p2) {
                Parse::Done(v2, p3) => match <u32 as XdrDeserialize>::spec_parse(data, p3) {
                    Parse::Done(v3, p4) => match <u32 as XdrDeserialize>::spec_parse(data, p4) {
                        Parse::Done(v4, p5) => Parse::Done(SpecSsvStateProtectParameters { ops: v0, hash_algorithms: v1, encryption_algorithms: v2, window: v3, num_gss_handles: v4 }, p5),
                        Parse::Fails(e, q) => Parse::Fails(e, q),
                    },
                    Parse::Fails(e, q) => Parse::Fails(e, q),
                },
                Parse::Fails(e, q) => Parse::Fails(e, q),
            },
            Parse::Fails(e, q) => Parse::Fails(e, q),
        },
        Parse::Fails(e, q) => Parse::Fails(e, q),
    }
}

impl XdrDeserialize for SsvStateProtectParameters {
    open spec fn spec_parse(data: Seq<u8>, pos: int) -> Parse<SpecSsvStateProtectParameters> {
        spec_parse_ssv_state_protect_parameters(data, pos)
    }

    fn deserialize(src: &mut XdrReader) -> (r: Result<SsvStateProtectParameters, XdrError>) {
        proof {
            reveal(spec_parse_ssv_state_protect_parameters);
        }
        let v0 = match <StateProtectOps as XdrDeserialize>::deserialize(src) {
            Ok(x) => x,
            Err(e) => return Err(e),
        };
        let v1 = match deserialize_vec::<SecOid>(src) {
            Ok(x) => x,
            Err(e) => return Err(e),
        };
        let v2 = match deserialize_vec::<SecOid>(src) {
            Ok(x) => x,
            Err(e) => return Err(e),
        };
        let v3 = match <u32 as XdrDeserialize>::deserialize(src) {
            Ok(x) => x,
            Err(e) => return Err(e),
        };
        let v4 = match <u32 as XdrDeserialize>::deserialize(src) {
            Ok(x) => x,
            Err(e) => return Err(e),
        };
        Ok(SsvStateProtectParameters { ops: v0, hash_algorithms: v1, encryption_algorithms: v2, window: v3, num_gss_handles: v4 })
    }
}

#[derive(Clone, Copy, PartialEq, Eq, Structural)]
pub enum StateProtectHow {
    NoProtection,
    MachineCredentials,
    Ssv,
}

impl DeepView for StateProtectHow {
    type V = StateProtectHow;

    open spec fn deep_view(&self) -> StateProtectHow {
        *self
    }
}

impl StateProtectHow {
    /// The number that stands for the value.
    pub open spec fn spec_to_u32(self) -> u32 {
        match self {
            StateProtectHow::NoProtection => 0,
            StateProtectHow::MachineCredentials => 1,
            StateProtectHow::Ssv => 2,
        }
    }

    /// The value that a number stands for, if any.
    pub open spec fn spec_from_u32(n: u32) -> Option<StateProtectHow> {
        if n == 0 {
            Some(StateProtectHow::NoProtection)
        } else if n == 1 {
            Some(StateProtectHow::MachineCredentials)
        } else if n == 2 {
            Some(StateProtectHow::Ssv)
        } else {
            None
        }
    }

    /// The number that stands for the value.
    pub fn to_u32(&self) -> (n: u32)
        ensures
            n == self.spec_to_u32(),
    {
        match self {
            StateProtectHow::NoProtection => 0,
            StateProtectHow::MachineCredentials => 1,
            StateProtectHow::Ssv => 2,
        }
    }

    /// The value that `n` stands for, if any.
    pub fn from_u32(n: u32) -> (r: Option<StateProtectHow>)
        ensures
            r == StateProtectHow::spec_from_u32(n),
    {
        match n {
            0 => Some(StateProtectHow::NoProtection),
            1 => Some(StateProtectHow::MachineCredentials),
            2 => Some(StateProtectHow::Ssv),
            _ => None,
        }
    }
}

impl XdrSerialize for StateProtectHow {
    /// The number, as a `u32`.
    open spec fn spec_emit(v: StateProtectHow) -> Emit {
        spec_u32_emit(v.spec_to_u32())
    }

    fn serialize(&self, dest: &mut Vec<u8>) -> (r: Result<(), XdrError>) {
        let n: u32 = self.to_u32();
        let r = n.serialize(dest);
        assert(Self::spec_emit(self.deep_view()) == spec_u32_emit(n));
        r
    }
}

impl XdrDeserialize for StateProtectHow {
    /// A number that stands for no value is invalid data.
    open spec fn spec_parse(data: Seq<u8>, pos: int) -> Parse<StateProtectHow> {
        match spec_u32_parse(data, pos) {
            Parse::Done(n, p) => match StateProtectHow::spec_from_u32(n) {
                Some(x) => Parse::Done(x, p),
                None => Parse::Fails(XdrError::InvalidData, p),
            },
            Parse::Fails(e, p) => Parse::Fails(e, p),
        }
    }

    fn deserialize(src: &mut XdrReader) -> (r: Result<StateProtectHow, XdrError>) {
        let n = match u32::deserialize(src) {
            Ok(n) => n,
            Err(e) => return Err(e),
        };
        match StateProtectHow::from_u32(n) {
            Some(x) => Ok(x),
            None => Err(XdrError::InvalidData),
        }
    }
}

/// The state protection a client asks for in `EXCHANGE_ID`.
#[derive(Debug)]
pub enum StateProtectionArg {
    NoProtection,
    MachineCredentials(StateProtectOps),
    Ssv(SsvStateProtectParameters),
}

/// The deep view of [`StateProtectionArg`].
pub enum SpecStateProtectionArg {
    NoProtection,
    MachineCredentials(SpecStateProtectOps),
    Ssv(SpecSsvStateProtectParameters),
}

impl DeepView for StateProtectionArg {
    type V = SpecStateProtectionArg;

    open spec fn deep_view(&self) -> SpecStateProtectionArg {
        match self {
            StateProtectionArg::NoProtection => SpecStateProtectionArg::NoProtection,
            StateProtectionArg::MachineCredentials(x) => SpecStateProtectionArg::MachineCredentials(x.deep_view()),
            StateProtectionArg::Ssv(x) => SpecStateProtectionArg::Ssv(x.deep_view()),
        }
    }
}

impl XdrSerialize for StateProtectionArg {
    open spec fn spec_emit(v: SpecStateProtectionArg) -> Emit {
        match v {
            SpecStateProtectionArg::NoProtection => spec_u32_emit(StateProtectHow::NoProtection.spec_to_u32()),
            SpecStateProtectionArg::MachineCredentials(x) => spec_u32_emit(StateProtectHow::MachineCredentials.spec_to_u32()).and_then(<StateProtectOps as XdrSerialize>::spec_emit(x)),
            SpecStateProtectionArg::Ssv(x) => spec_u32_emit(StateProtectHow::Ssv.spec_to_u32()).and_then(<SsvStateProtectParameters as XdrSerialize>::spec_emit(x)),
        }
    }

    fn serialize(&self, dest: &mut Vec<u8>) -> (r: Result<(), XdrError>) {
        match self {
            StateProtectionArg::NoProtection => StateProtectHow::NoProtection.serialize(dest),
            StateProtectionArg::MachineCredentials(x) => {
                match StateProtectHow::MachineCredentials.serialize(dest) {
                    Ok(()) => {},
                    Err(e) => return Err(e),
                }
                x.serialize(dest)
            },
            StateProtectionArg::Ssv(x) => {
                match StateProtectHow::Ssv.serialize(dest) {
                    Ok(()) => {},
                    Err(e) => return Err(e),
                }
                x.serialize(dest)
            },
        }
    }
}

/// Reading a [`StateProtectionArg`]: its tag, then what the tag calls for.
#[verifier::opaque]
pub open spec fn spec_parse_state_protection_arg(data: Seq<u8>, pos: int) -> Parse<SpecStateProtectionArg> {
        match <StateProtectHow as XdrDeserialize>::spec_parse(data, pos) {
            Parse::Done(t, p) => match t {
                StateProtectHow::NoProtection => Parse::Done(SpecStateProtectionArg::NoProtection, p),
                StateProtectHow::MachineCredentials => match <StateProtectOps as XdrDeserialize>::spec_parse(data, p) {
                    Parse::Done(x, q) => Parse::Done(SpecStateProtectionArg::MachineCredentials(x), q),
                    Parse::Fails(e, q) => Parse::Fails(e, q),
                },
                StateProtectHow::Ssv => match <SsvStateProtectParameters as XdrDeserialize>::spec_parse(data, p) {
                    Parse::Done(x, q) => Parse::Done(SpecStateProtectionArg::Ssv(x), q),
                    Parse::Fails(e, q) => Parse::Fails(e, q),
                },
            },
            Parse::Fails(e, p) => Parse::Fails(e, p),
        }
}

impl XdrDeserialize for StateProtectionArg {
    open spec fn spec_parse(data: Seq<u8>, pos: int) -> Parse<SpecStateProtectionArg> {
        spec_parse_state_protection_arg(data, pos)
    }

    fn deserialize(src: &mut XdrReader) -> (r: Result<StateProtectionArg, XdrError>) {
        proof {
            reveal(spec_parse_state_protection_arg);
        }
        let t = match <StateProtectHow as XdrDeserialize>::deserialize(src) {
            Ok(t) => t,
            Err(e) => return Err(e),
        };
        match t {
            StateProtectHow::NoProtection => Ok(StateProtectionArg::NoProtection),
            StateProtectHow::MachineCredentials => match <StateProtectOps as XdrDeserialize>::deserialize(src) {
                Ok(x) => Ok(StateProtectionArg::MachineCredentials(x)),
                Err(e) => Err(e),
            },
            StateProtectHow::Ssv => match <SsvStateProtectParameters as XdrDeserialize>::deserialize(src) {
                Ok(x) => Ok(StateProtectionArg::Ssv(x)),
                Err(e) => Err(e),
            },
        }
    }
}

/// The arguments of `EXCHANGE_ID`.
#[derive(Debug)]
pub struct ExchangeIdArgs {
    pub client_owner: ClientOwner,
    pub flags: u32,
    pub state_protect: StateProtectionArg,
    pub client_impl_id: Option<NfsImplId>,
}

/// The deep view of [`ExchangeIdArgs`].
pub struct SpecExchangeIdArgs {
    pub client_owner: SpecClientOwner,
    pub flags: u32,
    pub state_protect: SpecStateProtectionArg,
    pub client_impl_id: Option<SpecNfsImplId>,
}

impl DeepView for ExchangeIdArgs {
    type V = SpecExchangeIdArgs;

    open spec fn deep_view(&self) -> SpecExchangeIdArgs {
        SpecExchangeIdArgs { client_owner: self.client_owner.deep_view(), flags: self.flags.deep_view(), state_protect: self.state_protect.deep_view(), client_impl_id: self.client_impl_id.deep_view() }
    }
}

impl XdrSerialize for ExchangeIdArgs {
    open spec fn spec_emit(v: SpecExchangeIdArgs) -> Emit {
        <ClientOwner as XdrSerialize>::spec_emit(v.client_owner).and_then(<u32 as XdrSerialize>::spec_emit(v.flags)).and_then(<StateProtectionArg as XdrSerialize>::spec_emit(v.state_protect)).and_then(<Option<NfsImplId> as XdrSerialize>::spec_emit(v.client_impl_id))
    }

    fn serialize(&self, dest: &mut Vec<u8>) -> (r: Result<(), XdrError>) {
        match self.client_owner.serialize(dest) {
            Ok(()) => {},
            Err(e) => return Err(e),
        }
        match self.flags.serialize(dest) {
            Ok(()) => {},
            Err(e) => return Err(e),
        }
        match self.state_protect.serialize(dest) {
            Ok(()) => {},
            Err(e) => return Err(e),
        }
        self.client_impl_id.serialize(dest)
    }
}

/// Reading a [`ExchangeIdArgs`]: each field in turn.
#[verifier::opaque]
pub open spec fn spec_parse_exchange_id_args(data: Seq<u8>, pos: int) -> Parse<SpecExchangeIdArgs> {
    match <ClientOwner as XdrDeserialize>::spec_parse(data, pos) {
        Parse::Done(v0, p1) => match <u32 as XdrDeserialize>::spec_parse(data, p1) {
            Parse::Done(v1, p2) => match <StateProtectionArg as XdrDeserialize>::spec_parse(data, p2) {
                Parse::Done(v2, p3) => match <Option<NfsImplId> as XdrDeserialize>::spec_parse(data, p3) {
                    Parse::Done(v3, p4) => Parse::Done(SpecExchangeIdArgs { client_owner: v0, flags: v1, state_protect: v2, client_impl_id: v3 }, p4),
                    Parse::Fails(e, q) => Parse::Fails(e, q),
                },
                Parse::Fails(e, q) => Parse::Fails(e, q),
            },
            Parse::Fails(e, q) => Parse::Fails(e, q),
        },
        Parse::Fails(e, q) => Parse::Fails(e, q),
    }
}

impl XdrDeserialize for ExchangeIdArgs {
    open spec fn spec_parse(data: Seq<u8>, pos: int) -> Parse<SpecExchangeIdArgs> {
        spec_parse_exchange_id_args(data, pos)
    }

    fn deserialize(src: &mut XdrReader) -> (r: Result<ExchangeIdArgs, XdrError>) {
        proof {
            reveal(spec_parse_exchange_id_args);
        }
        let v0 = match <ClientOwner as XdrDeserialize>::deserialize(src) {
            Ok(x) => x,
            Err(e) => return Err(e),
        };
        let v1 = match <u32 as XdrDeserialize>::deserialize(src) {
            Ok(x) => x,
            Err(e) => return Err(e),
        };
        let v2 = match <StateProtectionArg as XdrDeserialize>::deserialize(src) {
            Ok(x) => x,
            Err(e) => return Err(e),
        };
        let v3 = match <Option<NfsImplId> as XdrDeserialize>::deserialize(src) {
            Ok(x) => x,
            Err(e) => return Err(e),
        };
        Ok(ExchangeIdArgs { client_owner: v0, flags: v1, state_protect: v2, client_impl_id: v3 })
    }
}

#[derive(Debug)]
pub struct SsvProtectionInfo {
    ops: StateProtectOps,
    hash_algorithm: u32,
    encryption_algorithm: u32,
    ssv_len: u32,
    window: u32,
    handles: Vec<GssHandle>,
}

/// The deep view of [`SsvProtectionInfo`].
pub struct SpecSsvProtectionInfo {
    pub ops: SpecStateProtectOps,
    pub hash_algorithm: u32,
    pub encryption_algorithm: u32,
    pub ssv_len: u32,
    pub window: u32,
    pub handles: Seq<Seq<u8>>,
}

impl DeepView for SsvProtectionInfo {
    type V = SpecSsvProtectionInfo;

    closed spec fn deep_view(&self) -> SpecSsvProtectionInfo {
        SpecSsvProtectionInfo { ops: self.ops.deep_view(), hash_algorithm: self.hash_algorithm.deep_view(), encryption_algorithm: self.encryption_algorithm.deep_view(), ssv_len: self.ssv_len.deep_view(), window: self.window.deep_view(), handles: self.handles.deep_view() }
    }
}

impl XdrSerialize for SsvProtectionInfo {
    open spec fn spec_emit(v: SpecSsvProtectionInfo) -> Emit {
        <StateProtectOps as XdrSerialize>::spec_emit(v.ops).and_then(<u32 as XdrSerialize>::spec_emit(v.hash_algorithm)).and_then(<u32 as XdrSerialize>::spec_emit(v.encryption_algorithm)).and_then(<u32 as XdrSerialize>::spec_emit(v.ssv_len)).and_then(<u32 as XdrSerialize>::spec_emit(v.window)).and_then(spec_vec_emit::<GssHandle>(v.handles))
    }

    #[verifier::spinoff_prover]
    #[verifier::rlimit(40)]
    fn serialize(&self, dest: &mut Vec<u8>) -> (r: Result<(), XdrError>) {
        match self.ops.serialize(dest) {
            Ok(()) => {},
            Err(e) => return Err(e),
        }
        match self.hash_algorithm.serialize(dest) {
            Ok(()) => {},
            Err(e) => return Err(e),
        }
        match self.encryption_algorithm.serialize(dest) {
            Ok(()) => {},
            Err(e) => return Err(e),
        }
        match self.ssv_len.serialize(dest) {
            Ok(()) => {},
            Err(e) => return Err(e),
        }
        match self.window.serialize(dest) {
            Ok(()) => {},
            Err(e) => return Err(e),
        }
        serialize_vec_of(dest, &self.handles)
    }
}

/// Reading a [`SsvProtectionInfo`]: each field in turn.
#[verifier::opaque]
pub open spec fn spec_parse_ssv_protection_info(data: Seq<u8>, pos: int) -> Parse<SpecSsvProtectionInfo> {
    match <StateProtectOps as XdrDeserialize>::spec_parse(data, pos) {
        Parse::Done(v0, p1) => match <u32 as XdrDeserialize>::spec_parse(data, p1) {
            Parse::Done(v1, p2) => match <u32 as XdrDeserialize>::spec_parse(data, p2) {
                Parse::Done(v2, p3) => match <u32 as XdrDeserialize>::spec_parse(data, p3) {
                    Parse::Done(v3, p4) => match <u32 as XdrDeserialize>::spec_parse(data, p4) {
                        Parse::Done(v4, p5) => match spec_vec_parse::<GssHandle>(data, p5) {
                            Parse::Done(v5, p6) => Parse::Done(SpecSsvProtectionInfo { ops: v0, hash_algorithm: v1, encryption_algorithm: v2, ssv_len: v3, window: v4, handles: v5 }, p6),
                            Parse::Fails(e, q) => Parse::Fails(e, q),
                        },
                        Parse::Fails(e, q) => Parse::Fails(e, q),
                    },
                    Parse::Fails(e, q) => Parse::Fails(e, q),
                },
                Parse::Fails(e, q) => Parse::Fails(e, q),
            },
            Parse::Fails(e, q) => Parse::Fails(e, q),
        },
        Parse::Fails(e, q) => Parse::Fails(e, q),
    }
}

impl XdrDeserialize for SsvProtectionInfo {
    open spec fn spec_parse(data: Seq<u8>, pos: int) -> Parse<SpecSsvProtectionInfo> {
        spec_parse_ssv_protection_info(data, pos)
    }

    fn deserialize(src: &mut XdrReader) -> (r: Result<SsvProtectionInfo, XdrError>) {
        proof {
            reveal(spec_parse_ssv_protection_info);
        }
        let v0 = match <StateProtectOps as XdrDeserialize>::deserialize(src) {
            Ok(x) => x,
            Err(e) => return Err(e),
        };
        let v1 = match <u32 as XdrDeserialize>::deserialize(src) {
            Ok(x) => x,
            Err(e) => return Err(e),
        };
        let v2 = match <u32 as XdrDeserialize>::deserialize(src) {
            Ok(x) => x,
            Err(e) => return Err(e),
        };
        let v3 = match <u32 as XdrDeserialize>::deserialize(src) {
            Ok(x) => x,
            Err(e) => return Err(e),
        };
        let v4 = match <u32 as XdrDeserialize>::deserialize(src) {
            Ok(x) => x,
            Err(e) => return Err(e),
        };
        let v5 = match deserialize_vec::<GssHandle>(src) {
            Ok(x) => x,
            Err(e) => return Err(e),
        };
        Ok(SsvProtectionInfo { ops: v0, hash_algorithm: v1, encryption_algorithm: v2, ssv_len: v3, window: v4, handles: v5 })
    }
}

/// The state protection the server grants in `EXCHANGE_ID`.
#[derive(Debug)]
pub enum StateProtectionResult {
    NoProtection,
    MachineCredentials(StateProtectOps),
    Ssv(SsvProtectionInfo),
}

/// The deep view of [`StateProtectionResult`].
pub enum SpecStateProtectionResult {
    NoProtection,
    MachineCredentials(SpecStateProtectOps),
    Ssv(SpecSsvProtectionInfo),
}

impl DeepView for StateProtectionResult {
    type V = SpecStateProtectionResult;

    open spec fn deep_view(&self) -> SpecStateProtectionResult {
        match self {
            StateProtectionResult::NoProtection => SpecStateProtectionResult::NoProtection,
            StateProtectionResult::MachineCredentials(x) => SpecStateProtectionResult::MachineCredentials(x.deep_view()),
            StateProtectionResult::Ssv(x) => SpecStateProtectionResult::Ssv(x.deep_view()),
        }
    }
}

impl XdrSerialize for StateProtectionResult {
    open spec fn spec_emit(v: SpecStateProtectionResult) -> Emit {
        match v {
            SpecStateProtectionResult::NoProtection => spec_u32_emit(StateProtectHow::NoProtection.spec_to_u32()),
            SpecStateProtectionResult::MachineCredentials(x) => spec_u32_emit(StateProtectHow::MachineCredentials.spec_to_u32()).and_then(<StateProtectOps as XdrSerialize>::spec_emit(x)),
            SpecStateProtectionResult::Ssv(x) => spec_u32_emit(StateProtectHow::Ssv.spec_to_u32()).and_then(<SsvProtectionInfo as XdrSerialize>::spec_emit(x)),
        }
    }

    fn serialize(&self, dest: &mut Vec<u8>) -> (r: Result<(), XdrError>) {
        match self {
            StateProtectionResult::NoProtection => StateProtectHow::NoProtection.serialize(dest),
            StateProtectionResult::MachineCredentials(x) => {
                match StateProtectHow::MachineCredentials.serialize(dest) {
                    Ok(()) => {},
                    Err(e) => return Err(e),
                }
                x.serialize(dest)
            },
            StateProtectionResult::Ssv(x) => {
                match StateProtectHow::Ssv.serialize(dest) {
                    Ok(()) => {},
                    Err(e) => return Err(e),
                }
                x.serialize(dest)
            },
        }
    }
}

/// Reading a [`StateProtectionResult`]: its tag, then what the tag calls for.
#[verifier::opaque]
pub open spec fn spec_parse_state_protection_result(data: Seq<u8>, pos: int) -> Parse<SpecStateProtectionResult> {
        match <StateProtectHow as XdrDeserialize>::spec_parse(data, pos) {
            Parse::Done(t, p) => match t {
                StateProtectHow::NoProtection => Parse::Done(SpecStateProtectionResult::NoProtection, p),
                StateProtectHow::MachineCredentials => match <StateProtectOps as XdrDeserialize>::spec_parse(data, p) {
                    Parse::Done(x, q) => Parse::Done(SpecStateProtectionResult::MachineCredentials(x), q),
                    Parse::Fails(e, q) => Parse::Fails(e, q),
                },
                StateProtectHow::Ssv => match <SsvProtectionInfo as XdrDeserialize>::spec_parse(data, p) {
                    Parse::Done(x, q) => Parse::Done(SpecStateProtectionResult::Ssv(x), q),
                    Parse::Fails(e, q) => Parse::Fails(e, q),
                },
            },
            Parse::Fails(e, p) => Parse::Fails(e, p),
        }
}

impl XdrDeserialize for StateProtectionResult {
    open spec fn spec_parse(data: Seq<u8>, pos: int) -> Parse<SpecStateProtectionResult> {
        spec_parse_state_protection_result(data, pos)
    }

    fn deserialize(src: &mut XdrReader) -> (r: Result<StateProtectionResult, XdrError>) {
        proof {
            reveal(spec_parse_state_protection_result);
        }
        let t = match <StateProtectHow as XdrDeserialize>::deserialize(src) {
            Ok(t) => t,
            Err(e) => return Err(e),
        };
        match t {
            StateProtectHow::NoProtection => Ok(StateProtectionResult::NoProtection),
            StateProtectHow::MachineCredentials => match <StateProtectOps as XdrDeserialize>::deserialize(src) {
                Ok(x) => Ok(StateProtectionResult::MachineCredentials(x)),
                Err(e) => Err(e),
            },
            StateProtectHow::Ssv => match <SsvProtectionInfo as XdrDeserialize>::deserialize(src) {
                Ok(x) => Ok(StateProtectionResult::Ssv(x)),
                Err(e) => Err(e),
            },
        }
    }
}

/// What a successful `EXCHANGE_ID` answers.
#[derive(Debug)]
pub struct ExchangeIdOk {
    pub client_id: ClientId,
    pub sequence_id: SequenceId,
    pub flags: u32,
    pub state_protection: StateProtectionResult,
    pub server_owner: ServerOwner,
    pub server_scope: MaxLenBytes<NFS_OPAQUE_LIMIT>,
    pub server_impl_id: Option<NfsImplId>,
}

/// The deep view of [`ExchangeIdOk`].
pub struct SpecExchangeIdOk {
    pub client_id: u64,
    pub sequence_id: u32,
    pub flags: u32,
    pub state_protection: SpecStateProtectionResult,
    pub server_owner: SpecServerOwner,
    pub server_scope: Seq<u8>,
    pub server_impl_id: Option<SpecNfsImplId>,
}

impl DeepView for ExchangeIdOk {
    type V = SpecExchangeIdOk;

    open spec fn deep_view(&self) -> SpecExchangeIdOk {
        SpecExchangeIdOk { client_id: self.client_id.deep_view(), sequence_id: self.sequence_id.deep_view(), flags: self.flags.deep_view(), state_protection: self.state_protection.deep_view(), server_owner: self.server_owner.deep_view(), server_scope: self.server_scope.deep_view(), server_impl_id: self.server_impl_id.deep_view() }
    }
}

impl XdrSerialize for ExchangeIdOk {
    open spec fn spec_emit(v: SpecExchangeIdOk) -> Emit {
        <ClientId as XdrSerialize>::spec_emit(v.client_id).and_then(<SequenceId as XdrSerialize>::spec_emit(v.sequence_id)).and_then(<u32 as XdrSerialize>::spec_emit(v.flags)).and_then(<StateProtectionResult as XdrSerialize>::spec_emit(v.state_protection)).and_then(<ServerOwner as XdrSerialize>::spec_emit(v.server_owner)).and_then(<MaxLenBytes<NFS_OPAQUE_LIMIT> as XdrSerialize>::spec_emit(v.server_scope)).and_then(<Option<NfsImplId> as XdrSerialize>::spec_emit(v.server_impl_id))
    }

    #[verifier::spinoff_prover]
    #[verifier::rlimit(40)]
    fn serialize(&self, dest: &mut Vec<u8>) -> (r: Result<(), XdrError>) {
        match self.client_id.serialize(dest) {
            Ok(()) => {},
            Err(e) => return Err(e),
        }
        match self.sequence_id.serialize(dest) {
            Ok(()) => {},
            Err(e) => return Err(e),
        }
        match self.flags.serialize(dest) {
            Ok(()) => {},
            Err(e) => return Err(e),
        }
        match self.state_protection.serialize(dest) {
            Ok(()) => {},
            Err(e) => return Err(e),
        }
        match self.server_owner.serialize(dest) {
            Ok(()) => {},
            Err(e) => return Err(e),
        }
        match self.server_scope.serialize(dest) {
            Ok(()) => {},
            Err(e) => return Err(e),
        }
        self.server_impl_id.serialize(dest)
    }
}

/// Reading a [`ExchangeIdOk`]: each field in turn.
#[verifier::opaque]
pub open spec fn spec_parse_exchange_id_ok(data: Seq<u8>, pos: int) -> Parse<SpecExchangeIdOk> {
    match <ClientId as XdrDeserialize>::spec_parse(data, pos) {
        Parse::Done(v0, p1) => match <SequenceId as XdrDeserialize>::spec_parse(data, p1) {
            Parse::Done(v1, p2) => match <u32 as XdrDeserialize>::spec_parse(data, p2) {
                Parse::Done(v2, p3) => match <StateProtectionResult as XdrDeserialize>::spec_parse(data, p3) {
                    Parse::Done(v3, p4) => match <ServerOwner as XdrDeserialize>::spec_parse(data, p4) {
                        Parse::Done(v4, p5) => match <MaxLenBytes<NFS_OPAQUE_LIMIT> as XdrDeserialize>::spec_parse(data, p5) {
                            Parse::Done(v5, p6) => match <Option<NfsImplId> as XdrDeserialize>::spec_parse(data, p6) {
                                Parse::Done(v6, p7) => Parse::Done(SpecExchangeIdOk { client_id: v0, sequence_id: v1, flags: v2, state_protection: v3, server_owner: v4, server_scope: v5, server_impl_id: v6 }, p7),
                                Parse::Fails(e, q) => Parse::Fails(e, q),
                            },
                            Parse::Fails(e, q) => Parse::Fails(e, q),
                        },
                        Parse::Fails(e, q) => Parse::Fails(e, q),
                    },
                    Parse::Fails(e, q) => Parse::Fails(e, q),
                },
                Parse::Fails(e, q) => Parse::Fails(e, q),
            },
            Parse::Fails(e, q) => Parse::Fails(e, q),
        },
        Parse::Fails(e, q) => Parse::Fails(e, q),
    }
}

impl XdrDeserialize for ExchangeIdOk {
    open spec fn spec_parse(data: Seq<u8>, pos: int) -> Parse<SpecExchangeIdOk> {
        spec_parse_exchange_id_ok(data, pos)
    }

    fn deserialize(src: &mut XdrReader) -> (r: Result<ExchangeIdOk, XdrError>) {
        proof {
            reveal(spec_parse_exchange_id_ok);
        }
        let v0 = match <ClientId as XdrDeserialize>::deserialize(src) {
            Ok(x) => x,
            Err(e) => return Err(e),
        };
        let v1 = match <SequenceId as XdrDeserialize>::deserialize(src) {
            Ok(x) => x,
            Err(e) => return Err(e),
        };
        let v2 = match <u32 as XdrDeserialize>::deserialize(src) {
            Ok(x) => x,
            Err(e) => return Err(e),
        };
        let v3 = match <StateProtectionResult as XdrDeserialize>::deserialize(src) {
            Ok(x) => x,
            Err(e) => return Err(e),
        };
        let v4 = match <ServerOwner as XdrDeserialize>::deserialize(src) {
            Ok(x) => x,
            Err(e) => return Err(e),
        };
        let v5 = match <MaxLenBytes<NFS_OPAQUE_LIMIT> as XdrDeserialize>::deserialize(src) {
            Ok(x) => x,
            Err(e) => return Err(e),
        };
        let v6 = match <Option<NfsImplId> as XdrDeserialize>::deserialize(src) {
            Ok(x) => x,
            Err(e) => return Err(e),
        };
        Ok(ExchangeIdOk { client_id: v0, sequence_id: v1, flags: v2, state_protection: v3, server_owner: v4, server_scope: v5, server_impl_id: v6 })
    }
}

impl AsNfsStatus for ExchangeIdOk {
    open spec fn spec_status(&self) -> NfsStatus {
        NfsStatus::Success
    }

    open spec fn spec_has_body(&self) -> bool {
        true
    }

    fn as_status(&self) -> (s: NfsStatus) {
        NfsStatus::Success
    }

    fn has_body(&self) -> (b: bool) {
        true
    }
}

/// What `EXCHANGE_ID` answers: its result, or the status it failed with.
pub type ExchangeIdResult = Result<ExchangeIdOk, NfsStatus>;

/// The attributes of a session channel.
#[derive(Clone, Debug)]
pub struct ChannelAttrs {
    pub header_pad_size: Count,
    pub max_request_size: Count,
    pub max_response_size: Count,
    pub max_response_size_cached: Count,
    pub max_operations: Count,
    pub max_requests: Count,
    pub rdma_ird: Option<u32>,
}

impl DeepView for ChannelAttrs {
    type V = ChannelAttrs;

    open spec fn deep_view(&self) -> ChannelAttrs {
        ChannelAttrs { header_pad_size: self.header_pad_size.deep_view(), max_request_size: self.max_request_size.deep_view(), max_response_size: self.max_response_size.deep_view(), max_response_size_cached: self.max_response_size_cached.deep_view(), max_operations: self.max_operations.deep_view(), max_requests: self.max_requests.deep_view(), rdma_ird: self.rdma_ird.deep_view() }
    }
}

impl XdrSerialize for ChannelAttrs {
    open spec fn spec_emit(v: ChannelAttrs) -> Emit {
        <Count as XdrSerialize>::spec_emit(v.header_pad_size).and_then(<Count as XdrSerialize>::spec_emit(v.max_request_size)).and_then(<Count as XdrSerialize>::spec_emit(v.max_response_size)).and_then(<Count as XdrSerialize>::spec_emit(v.max_response_size_cached)).and_then(<Count as XdrSerialize>::spec_emit(v.max_operations)).and_then(<Count as XdrSerialize>::spec_emit(v.max_requests)).and_then(<Option<u32> as XdrSerialize>::spec_emit(v.rdma_ird))
    }

    #[verifier::spinoff_prover]
    #[verifier::rlimit(40)]
    fn serialize(&self, dest: &mut Vec<u8>) -> (r: Result<(), XdrError>) {
        match self.header_pad_size.serialize(dest) {
            Ok(()) => {},
            Err(e) => return Err(e),
        }
        match self.max_request_size.serialize(dest) {
            Ok(()) => {},
            Err(e) => return Err(e),
        }
        match self.max_response_size.serialize(dest) {
            Ok(()) => {},
            Err(e) => return Err(e),
        }
        match self.max_response_size_cached.serialize(dest) {
            Ok(()) => {},
            Err(e) => return Err(e),
        }
        match self.max_operations.serialize(dest) {
            Ok(()) => {},
            Err(e) => return Err(e),
        }
        match self.max_requests.serialize(dest) {
            Ok(()) => {},
            Err(e) => return Err(e),
        }
        self.rdma_ird.serialize(dest)
    }
}

/// Reading a [`ChannelAttrs`]: each field in turn.
#[verifier::opaque]
pub open spec fn spec_parse_channel_attrs(data: Seq<u8>, pos: int) -> Parse<ChannelAttrs> {
    match <Count as XdrDeserialize>::spec_parse(data, pos) {
        Parse::Done(v0, p1) => match <Count as XdrDeserialize>::spec_parse(data, p1) {
            Parse::Done(v1, p2) => match <Count as XdrDeserialize>::spec_parse(data, p2) {
                Parse::Done(v2, p3) => match <Count as XdrDeserialize>::spec_parse(data, p3) {
                    Parse::Done(v3, p4) => match <Count as XdrDeserialize>::spec_parse(data, p4) {
                        Parse::Done(v4, p5) => match <Count as XdrDeserialize>::spec_parse(data, p5) {
                            Parse::Done(v5, p6) => match <Option<u32> as XdrDeserialize>::spec_parse(data, p6) {
                                Parse::Done(v6, p7) => Parse::Done(ChannelAttrs { header_pad_size: v0, max_request_size: v1, max_response_size: v2, max_response_size_cached: v3, max_operations: v4, max_requests: v5, rdma_ird: v6 }, p7),
                                Parse::Fails(e, q) => Parse::Fails(e, q),
                            },
                            Parse::Fails(e, q) => Parse::Fails(e, q),
                        },
                        Parse::Fails(e, q) => Parse::Fails(e, q),
                    },
                    Parse::Fails(e, q) => Parse::Fails(e, q),
                },
                Parse::Fails(e, q) => Parse::Fails(e, q),
            },
            Parse::Fails(e, q) => Parse::Fails(e, q),
        },
        Parse::Fails(e, q) => Parse::Fails(e, q),
    }
}

impl XdrDeserialize for ChannelAttrs {
    open spec fn spec_parse(data: Seq<u8>, pos: int) -> Parse<ChannelAttrs> {
        spec_parse_channel_attrs(data, pos)
    }

    fn deserialize(src: &mut XdrReader) -> (r: Result<ChannelAttrs, XdrError>) {
        proof {
            reveal(spec_parse_channel_attrs);
        }
        let v0 = match <Count as XdrDeserialize>::deserialize(src) {
            Ok(x) => x,
            Err(e) => return Err(e),
        };
        let v1 = match <Count as XdrDeserialize>::deserialize(src) {
            Ok(x) => x,
            Err(e) => return Err(e),
        };
        let v2 = match <Count as XdrDeserialize>::deserialize(src) {
            Ok(x) => x,
            Err(e) => return Err(e),
        };
        let v3 = match <Count as XdrDeserialize>::deserialize(src) {
            Ok(x) => x,
            Err(e) => return Err(e),
        };
        let v4 = match <Count as XdrDeserialize>::deserialize(src) {
            Ok(x) => x,
            Err(e) => return Err(e),
        };
        let v5 = match <Count as XdrDeserialize>::deserialize(src) {
            Ok(x) => x,
            Err(e) => return Err(e),
        };
        let v6 = match <Option<u32> as XdrDeserialize>::deserialize(src) {
            Ok(x) => x,
            Err(e) => return Err(e),
        };
        Ok(ChannelAttrs { header_pad_size: v0, max_request_size: v1, max_response_size: v2, max_response_size_cached: v3, max_operations: v4, max_requests: v5, rdma_ird: v6 })
    }
}

/// The arguments of `CREATE_SESSION`.
#[derive(Clone, Debug)]
pub struct CreateSessionArgs {
    pub client_id: ClientId,
    pub sequence: SequenceId,
    pub flags: u32,
    pub fore_channel_attrs: ChannelAttrs,
    pub back_channel_attrs: ChannelAttrs,
    pub callback_program: u32,
    pub security_parameters: Vec<CallbackSecurityParameters>,
}

/// The deep view of [`CreateSessionArgs`].
pub struct SpecCreateSessionArgs {
    pub client_id: u64,
    pub sequence: u32,
    pub flags: u32,
    pub fore_channel_attrs: ChannelAttrs,
    pub back_channel_attrs: ChannelAttrs,
    pub callback_program: u32,
    pub security_parameters: Seq<SpecCallbackSecurityParameters>,
}

impl DeepView for CreateSessionArgs {
    type V = SpecCreateSessionArgs;

    open spec fn deep_view(&self) -> SpecCreateSessionArgs {
        SpecCreateSessionArgs { client_id: self.client_id.deep_view(), sequence: self.sequence.deep_view(), flags: self.flags.deep_view(), fore_channel_attrs: self.fore_channel_attrs.deep_view(), back_channel_attrs: self.back_channel_attrs.deep_view(), callback_program: self.callback_program.deep_view(), security_parameters: self.security_parameters.deep_view() }
    }
}

impl XdrSerialize for CreateSessionArgs {
    open spec fn spec_emit(v: SpecCreateSessionArgs) -> Emit {
        <ClientId as XdrSerialize>::spec_emit(v.client_id).and_then(<SequenceId as XdrSerialize>::spec_emit(v.sequence)).and_then(<u32 as XdrSerialize>::spec_emit(v.flags)).and_then(<ChannelAttrs as XdrSerialize>::spec_emit(v.fore_channel_attrs)).and_then(<ChannelAttrs as XdrSerialize>::spec_emit(v.back_channel_attrs)).and_then(<u32 as XdrSerialize>::spec_emit(v.callback_program)).and_then(spec_vec_emit::<CallbackSecurityParameters>(v.security_parameters))
    }

    #[verifier::spinoff_prover]
    #[verifier::rlimit(40)]
    fn serialize(&self, dest: &mut Vec<u8>) -> (r: Result<(), XdrError>) {
        match self.client_id.serialize(dest) {
            Ok(()) => {},
            Err(e) => return Err(e),
        }
        match self.sequence.serialize(dest) {
            Ok(()) => {},
            Err(e) => return Err(e),
        }
        match self.flags.serialize(dest) {
            Ok(()) => {},
            Err(e) => return Err(e),
        }
        match self.fore_channel_attrs.serialize(dest) {
            Ok(()) => {},
            Err(e) => return Err(e),
        }
        match self.back_channel_attrs.serialize(dest) {
            Ok(()) => {},
            Err(e) => return Err(e),
        }
        match self.callback_program.serialize(dest) {
            Ok(()) => {},
            Err(e) => return Err(e),
        }
        serialize_vec_of(dest, &self.security_parameters)
    }
}

/// Reading a [`CreateSessionArgs`]: each field in turn.
#[verifier::opaque]
pub open spec fn spec_parse_create_session_args(data: Seq<u8>, pos: int) -> Parse<SpecCreateSessionArgs> {
    match <ClientId as XdrDeserialize>::spec_parse(data, pos) {
        Parse::Done(v0, p1) => match <SequenceId as XdrDeserialize>::spec_parse(data, p1) {
            Parse::Done(v1, p2) => match <u32 as XdrDeserialize>::spec_parse(data, p2) {
                Parse::Done(v2, p3) => match <ChannelAttrs as XdrDeserialize>::spec_parse(data, p3) {
                    Parse::Done(v3, p4) => match <ChannelAttrs as XdrDeserialize>::spec_parse(data, p4) {
                        Parse::Done(v4, p5) => match <u32 as XdrDeserialize>::spec_parse(data, p5) {
                            Parse::Done(v5, p6) => match spec_vec_parse::<CallbackSecurityParameters>(data, p6) {
                                Parse::Done(v6, p7) => Parse::Done(SpecCreateSessionArgs { client_id: v0, sequence: v1, flags: v2, fore_channel_attrs: v3, back_channel_attrs: v4, callback_program: v5, security_parameters: v6 }, p7),
                                Parse::Fails(e, q) => Parse::Fails(e, q),
                            },
                            Parse::Fails(e, q) => Parse::Fails(e, q),
                        },
                        Parse::Fails(e, q) => Parse::Fails(e, q),
                    },
                    Parse::Fails(e, q) => Parse::Fails(e, q),
                },
                Parse::Fails(e, q) => Parse::Fails(e, q),
            },
            Parse::Fails(e, q) => Parse::Fails(e, q),
        },
        Parse::Fails(e, q) => Parse::Fails(e, q),
    }
}

impl XdrDeserialize for CreateSessionArgs {
    open spec fn spec_parse(data: Seq<u8>, pos: int) -> Parse<SpecCreateSessionArgs> {
        spec_parse_create_session_args(data, pos)
    }

    fn deserialize(src: &mut XdrReader) -> (r: Result<CreateSessionArgs, XdrError>) {
        proof {
            reveal(spec_parse_create_session_args);
        }
        let v0 = match <ClientId as XdrDeserialize>::deserialize(src) {
            Ok(x) => x,
            Err(e) => return Err(e),
        };
        let v1 = match <SequenceId as XdrDeserialize>::deserialize(src) {
            Ok(x) => x,
            Err(e) => return Err(e),
        };
        let v2 = match <u32 as XdrDeserialize>::deserialize(src) {
            Ok(x) => x,
            Err(e) => return Err(e),
        };
        let v3 = match <ChannelAttrs as XdrDeserialize>::deserialize(src) {
            Ok(x) => x,
            Err(e) => return Err(e),
        };
        let v4 = match <ChannelAttrs as XdrDeserialize>::deserialize(src) {
            Ok(x) => x,
            Err(e) => return Err(e),
        };
        let v5 = match <u32 as XdrDeserialize>::deserialize(src) {
            Ok(x) => x,
            Err(e) => return Err(e),
        };
        let v6 = match deserialize_vec::<CallbackSecurityParameters>(src) {
            Ok(x) => x,
            Err(e) => return Err(e),
        };
        Ok(CreateSessionArgs { client_id: v0, sequence: v1, flags: v2, fore_channel_attrs: v3, back_channel_attrs: v4, callback_program: v5, security_parameters: v6 })
    }
}

/// What a successful `CREATE_SESSION` answers.
#[derive(Debug)]
pub struct CreateSessionOk {
    pub session_id: SessionId,
    pub sequence: SequenceId,
    pub flags: u32,
    pub fore_channel_attrs: ChannelAttrs,
    pub back_channel_attrs: ChannelAttrs,
}

/// The deep view of [`CreateSessionOk`].
pub struct SpecCreateSessionOk {
    pub session_id: Seq<u8>,
    pub sequence: u32,
    pub flags: u32,
    pub fore_channel_attrs: ChannelAttrs,
    pub back_channel_attrs: ChannelAttrs,
}

impl DeepView for CreateSessionOk {
    type V = SpecCreateSessionOk;

    open spec fn deep_view(&self) -> SpecCreateSessionOk {
        SpecCreateSessionOk { session_id: self.session_id.deep_view(), sequence: self.sequence.deep_view(), flags: self.flags.deep_view(), fore_channel_attrs: self.fore_channel_attrs.deep_view(), back_channel_attrs: self.back_channel_attrs.deep_view() }
    }
}

impl XdrSerialize for CreateSessionOk {
    open spec fn spec_emit(v: SpecCreateSessionOk) -> Emit {
        <SessionId as XdrSerialize>::spec_emit(v.session_id).and_then(<SequenceId as XdrSerialize>::spec_emit(v.sequence)).and_then(<u32 as XdrSerialize>::spec_emit(v.flags)).and_then(<ChannelAttrs as XdrSerialize>::spec_emit(v.fore_channel_attrs)).and_then(<ChannelAttrs as XdrSerialize>::spec_emit(v.back_channel_attrs))
    }

    #[verifier::spinoff_prover]
    #[verifier::rlimit(40)]
    fn serialize(&self, dest: &mut Vec<u8>) -> (r: Result<(), XdrError>) {
        match self.session_id.serialize(dest) {
            Ok(()) => {},
            Err(e) => return Err(e),
        }
        match self.sequence.serialize(dest) {
            Ok(()) => {},
            Err(e) => return Err(e),
        }
        match self.flags.serialize(dest) {
            Ok(()) => {},
            Err(e) => return Err(e),
        }
        match self.fore_channel_attrs.serialize(dest) {
            Ok(()) => {},
            Err(e) => return Err(e),
        }
        self.back_channel_attrs.serialize(dest)
    }
}

/// Reading a [`CreateSessionOk`]: each field in turn.
#[verifier::opaque]
pub open spec fn spec_parse_create_session_ok(data: Seq<u8>, pos: int) -> Parse<SpecCreateSessionOk> {
    match <SessionId as XdrDeserialize>::spec_parse(data, pos) {
        Parse::Done(v0, p1) => match <SequenceId as XdrDeserialize>::spec_parse(data, p1) {
            Parse::Done(v1, p2) => match <u32 as XdrDeserialize>::spec_parse(data, p2) {
                Parse::Done(v2, p3) => match <ChannelAttrs as XdrDeserialize>::spec_parse(data, p3) {
                    Parse::Done(v3, p4) => match <ChannelAttrs as XdrDeserialize>::spec_parse(data, p4) {
                        Parse::Done(v4, p5) => Parse::Done(SpecCreateSessionOk { session_id: v0, sequence: v1, flags: v2, fore_channel_attrs: v3, back_channel_attrs: v4 }, p5),
                        Parse::Fails(e, q) => Parse::Fails(e, q),
                    },
                    Parse::Fails(e, q) => Parse::Fails(e, q),
                },
                Parse::Fails(e, q) => Parse::Fails(e, q),
            },
            Parse::Fails(e, q) => Parse::Fails(e, q),
        },
        Parse::Fails(e, q) => Parse::Fails(e, q),
    }
}

impl XdrDeserialize for CreateSessionOk {
    open spec fn spec_parse(data: Seq<u8>, pos: int) -> Parse<SpecCreateSessionOk> {
        spec_parse_create_session_ok(data, pos)
    }

    fn deserialize(src: &mut XdrReader) -> (r: Result<CreateSessionOk, XdrError>) {
        proof {
            reveal(spec_parse_create_session_ok);
        }
        let v0 = match <SessionId as XdrDeserialize>::deserialize(src) {
            Ok(x) => x,
            Err(e) => return Err(e),
        };
        let v1 = match <SequenceId as XdrDeserialize>::deserialize(src) {
            Ok(x) => x,
            Err(e) => return Err(e),
        };
        let v2 = match <u32 as XdrDeserialize>::deserialize(src) {
            Ok(x) => x,
            Err(e) => return Err(e),
        };
        let v3 = match <ChannelAttrs as XdrDeserialize>::deserialize(src) {
            Ok(x) => x,
            Err(e) => return Err(e),
        };
        let v4 = match <ChannelAttrs as XdrDeserialize>::deserialize(src) {
            Ok(x) => x,
            Err(e) => return Err(e),
        };
        Ok(CreateSessionOk { session_id: v0, sequence: v1, flags: v2, fore_channel_attrs: v3, back_channel_attrs: v4 })
    }
}

impl AsNfsStatus for CreateSessionOk {
    open spec fn spec_status(&self) -> NfsStatus {
        NfsStatus::Success
    }

    open spec fn spec_has_body(&self) -> bool {
        true
    }

    fn as_status(&self) -> (s: NfsStatus) {
        NfsStatus::Success
    }

    fn has_body(&self) -> (b: bool) {
        true
    }
}

/// What `CREATE_SESSION` answers: its result, or the status it failed with.
pub type CreateSessionResult = Result<CreateSessionOk, NfsStatus>;

/// The arguments of `DESTROY_SESSION`.
#[derive(Debug)]
pub struct DestroySessionArgs {
    pub session_id: SessionId,
}

/// The deep view of [`DestroySessionArgs`].
pub struct SpecDestroySessionArgs {
    pub session_id: Seq<u8>,
}

impl DeepView for DestroySessionArgs {
    type V = SpecDestroySessionArgs;

    open spec fn deep_view(&self) -> SpecDestroySessionArgs {
        SpecDestroySessionArgs { session_id: self.session_id.deep_view() }
    }
}

impl XdrSerialize for DestroySessionArgs {
    open spec fn spec_emit(v: SpecDestroySessionArgs) -> Emit {
        <SessionId as XdrSerialize>::spec_emit(v.session_id)
    }

    fn serialize(&self, dest: &mut Vec<u8>) -> (r: Result<(), XdrError>) {
        self.session_id.serialize(dest)
    }
}

/// Reading a [`DestroySessionArgs`]: each field in turn.
#[verifier::opaque]
pub open spec fn spec_parse_destroy_session_args(data: Seq<u8>, pos: int) -> Parse<SpecDestroySessionArgs> {
    match <SessionId as XdrDeserialize>::spec_parse(data, pos) {
        Parse::Done(v0, p1) => Parse::Done(SpecDestroySessionArgs { session_id: v0 }, p1),
        Parse::Fails(e, q) => Parse::Fails(e, q),
    }
}

impl XdrDeserialize for DestroySessionArgs {
    open spec fn spec_parse(data: Seq<u8>, pos: int) -> Parse<SpecDestroySessionArgs> {
        spec_parse_destroy_session_args(data, pos)
    }

    fn deserialize(src: &mut XdrReader) -> (r: Result<DestroySessionArgs, XdrError>) {
        proof {
            reveal(spec_parse_destroy_session_args);
        }
        let v0 = match <SessionId as XdrDeserialize>::deserialize(src) {
            Ok(x) => x,
            Err(e) => return Err(e),
        };
        Ok(DestroySessionArgs { session_id: v0 })
    }
}

/// What `DESTROY_SESSION` answers: its result, or the status it failed with.
pub type DestroySessionResult = Result<NfsStatus, NfsStatus>;

/// The arguments of `FREE_STATEID`.
#[derive(Debug)]
pub struct FreeStateIdArgs {
    state_id: StateId,
}

/// The deep view of [`FreeStateIdArgs`].
pub struct SpecFreeStateIdArgs {
    pub state_id: SpecStateId,
}

impl DeepView for FreeStateIdArgs {
    type V = SpecFreeStateIdArgs;

    closed spec fn deep_view(&self) -> SpecFreeStateIdArgs {
        SpecFreeStateIdArgs { state_id: self.state_id.deep_view() }
    }
}

impl XdrSerialize for FreeStateIdArgs {
    open spec fn spec_emit(v: SpecFreeStateIdArgs) -> Emit {
        <StateId as XdrSerialize>::spec_emit(v.state_id)
    }

    fn serialize(&self, dest: &mut Vec<u8>) -> (r: Result<(), XdrError>) {
        self.state_id.serialize(dest)
    }
}

/// Reading a [`FreeStateIdArgs`]: each field in turn.
#[verifier::opaque]
pub open spec fn spec_parse_free_state_id_args(data: Seq<u8>, pos: int) -> Parse<SpecFreeStateIdArgs> {
    match <StateId as XdrDeserialize>::spec_parse(data, pos) {
        Parse::Done(v0, p1) => Parse::Done(SpecFreeStateIdArgs { state_id: v0 }, p1),
        Parse::Fails(e, q) => Parse::Fails(e, q),
    }
}

impl XdrDeserialize for FreeStateIdArgs {
    open spec fn spec_parse(data: Seq<u8>, pos: int) -> Parse<SpecFreeStateIdArgs> {
        spec_parse_free_state_id_args(data, pos)
    }

    fn deserialize(src: &mut XdrReader) -> (r: Result<FreeStateIdArgs, XdrError>) {
        proof {
            reveal(spec_parse_free_state_id_args);
        }
        let v0 = match <StateId as XdrDeserialize>::deserialize(src) {
            Ok(x) => x,
            Err(e) => return Err(e),
        };
        Ok(FreeStateIdArgs { state_id: v0 })
    }
}

/// What `FREE_STATEID` answers: its result, or the status it failed with.
pub type FreeStateIdResult = Result<NfsStatus, NfsStatus>;

pub type AttributeNotice = NfsTime;

/// The arguments of `GET_DIR_DELEGATION`.
#[derive(Debug)]
pub struct GetDirectoryDelegationArgs {
    signal_delegation_available: bool,
    notification_types: BitMap,
    child_attribute_delay: AttributeNotice,
    directory_attribute_delay: AttributeNotice,
    child_attributes: BitMap,
    directory_attributes: BitMap,
}

/// The deep view of [`GetDirectoryDelegationArgs`].
pub struct SpecGetDirectoryDelegationArgs {
    pub signal_delegation_available: bool,
    pub notification_types: Seq<u32>,
    pub child_attribute_delay: NfsTime,
    pub directory_attribute_delay: NfsTime,
    pub child_attributes: Seq<u32>,
    pub directory_attributes: Seq<u32>,
}

impl DeepView for GetDirectoryDelegationArgs {
    type V = SpecGetDirectoryDelegationArgs;

    closed spec fn deep_view(&self) -> SpecGetDirectoryDelegationArgs {
        SpecGetDirectoryDelegationArgs { signal_delegation_available: self.signal_delegation_available.deep_view(), notification_types: self.notification_types.deep_view(), child_attribute_delay: self.child_attribute_delay.deep_view(), directory_attribute_delay: self.directory_attribute_delay.deep_view(), child_attributes: self.child_attributes.deep_view(), directory_attributes: self.directory_attributes.deep_view() }
    }
}

impl XdrSerialize for GetDirectoryDelegationArgs {
    open spec fn spec_emit(v: SpecGetDirectoryDelegationArgs) -> Emit {
        <bool as XdrSerialize>::spec_emit(v.signal_delegation_available).and_then(<BitMap as XdrSerialize>::spec_emit(v.notification_types)).and_then(<AttributeNotice as XdrSerialize>::spec_emit(v.child_attribute_delay)).and_then(<AttributeNotice as XdrSerialize>::spec_emit(v.directory_attribute_delay)).and_then(<BitMap as XdrSerialize>::spec_emit(v.child_attributes)).and_then(<BitMap as XdrSerialize>::spec_emit(v.directory_attributes))
    }

    #[verifier::spinoff_prover]
    #[verifier::rlimit(40)]
    fn serialize(&self, dest: &mut Vec<u8>) -> (r: Result<(), XdrError>) {
        match self.signal_delegation_available.serialize(dest) {
            Ok(()) => {},
            Err(e) => return Err(e),
        }
        match self.notification_types.serialize(dest) {
            Ok(()) => {},
            Err(e) => return Err(e),
        }
        match self.child_attribute_delay.serialize(dest) {
            Ok(()) => {},
            Err(e) => return Err(e),
        }
        match self.directory_attribute_delay.serialize(dest) {
            Ok(()) => {},
            Err(e) => return Err(e),
        }
        match self.child_attributes.serialize(dest) {
            Ok(()) => {},
            Err(e) => return Err(e),
        }
        self.directory_attributes.serialize(dest)
    }
}

/// Reading a [`GetDirectoryDelegationArgs`]: each field in turn.
#[verifier::opaque]
pub open spec fn spec_parse_get_directory_delegation_args(data: Seq<u8>, pos: int) -> Parse<SpecGetDirectoryDelegationArgs> {
    match <bool as XdrDeserialize>::spec_parse(data, pos) {
        Parse::Done(v0, p1) => match <BitMap as XdrDeserialize>::spec_parse(data, p1) {
            Parse::Done(v1, p2) => match <AttributeNotice as XdrDeserialize>::spec_parse(data, p2) {
                Parse::Done(v2, p3) => match <AttributeNotice as XdrDeserialize>::spec_parse(data, p3) {
                    Parse::Done(v3, p4) => match <BitMap as XdrDeserialize>::spec_parse(data, p4) {
                        Parse::Done(v4, p5) => match <BitMap as XdrDeserialize>::spec_parse(data, p5) {
                            Parse::Done(v5, p6) => Parse::Done(SpecGetDirectoryDelegationArgs { signal_delegation_available: v0, notification_types: v1, child_attribute_delay: v2, directory_attribute_delay: v3, child_attributes: v4, directory_attributes: v5 }, p6),
                            Parse::Fails(e, q) => Parse::Fails(e, q),
                        },
                        Parse::Fails(e, q) => Parse::Fails(e, q),
                    },
                    Parse::Fails(e, q) => Parse::Fails(e, q),
                },
                Parse::Fails(e, q) => Parse::Fails(e, q),
            },
            Parse::Fails(e, q) => Parse::Fails(e, q),
        },
        Parse::Fails(e, q) => Parse::Fails(e, q),
    }
}

impl XdrDeserialize for GetDirectoryDelegationArgs {
    open spec fn spec_parse(data: Seq<u8>, pos: int) -> Parse<SpecGetDirectoryDelegationArgs> {
        spec_parse_get_directory_delegation_args(data, pos)
    }

    fn deserialize(src: &mut XdrReader) -> (r: Result<GetDirectoryDelegationArgs, XdrError>) {
        proof {
            reveal(spec_parse_get_directory_delegation_args);
        }
        let v0 = match <bool as XdrDeserialize>::deserialize(src) {
            Ok(x) => x,
            Err(e) => return Err(e),
        };
        let v1 = match <BitMap as XdrDeserialize>::deserialize(src) {
            Ok(x) => x,
            Err(e) => return Err(e),
        };
        let v2 = match <AttributeNotice as XdrDeserialize>::deserialize(src) {
            Ok(x) => x,
            Err(e) => return Err(e),
        };
        let v3 = match <AttributeNotice as XdrDeserialize>::deserialize(src) {
            Ok(x) => x,
            Err(e) => return Err(e),
        };
        let v4 = match <BitMap as XdrDeserialize>::deserialize(src) {
            Ok(x) => x,
            Err(e) => return Err(e),
        };
        let v5 = match <BitMap as XdrDeserialize>::deserialize(src) {
            Ok(x) => x,
            Err(e) => return Err(e),
        };
        Ok(GetDirectoryDelegationArgs { signal_delegation_available: v0, notification_types: v1, child_attribute_delay: v2, directory_attribute_delay: v3, child_attributes: v4, directory_attributes: v5 })
    }
}

/// What a successful `GET_DIR_DELEGATION` answers.
#[derive(Debug)]
pub struct GetDirectoryDelegationOk {
    cookie_verifier: Verifier,
    state_id: StateId,
    notification: BitMap,
    child_attributes: BitMap,
}

/// The deep view of [`GetDirectoryDelegationOk`].
pub struct SpecGetDirectoryDelegationOk {
    pub cookie_verifier: Seq<u8>,
    pub state_id: SpecStateId,
    pub notification: Seq<u32>,
    pub child_attributes: Seq<u32>,
}

impl DeepView for GetDirectoryDelegationOk {
    type V = SpecGetDirectoryDelegationOk;

    closed spec fn deep_view(&self) -> SpecGetDirectoryDelegationOk {
        SpecGetDirectoryDelegationOk { cookie_verifier: self.cookie_verifier.deep_view(), state_id: self.state_id.deep_view(), notification: self.notification.deep_view(), child_attributes: self.child_attributes.deep_view() }
    }
}

impl XdrSerialize for GetDirectoryDelegationOk {
    open spec fn spec_emit(v: SpecGetDirectoryDelegationOk) -> Emit {
        <Verifier as XdrSerialize>::spec_emit(v.cookie_verifier).and_then(<StateId as XdrSerialize>::spec_emit(v.state_id)).and_then(<BitMap as XdrSerialize>::spec_emit(v.notification)).and_then(<BitMap as XdrSerialize>::spec_emit(v.child_attributes))
    }

    fn serialize(&self, dest: &mut Vec<u8>) -> (r: Result<(), XdrError>) {
        match self.cookie_verifier.serialize(dest) {
            Ok(()) => {},
            Err(e) => return Err(e),
        }
        match self.state_id.serialize(dest) {
            Ok(()) => {},
            Err(e) => return Err(e),
        }
        match self.notification.serialize(dest) {
            Ok(()) => {},
            Err(e) => return Err(e),
        }
        self.child_attributes.serialize(dest)
    }
}

/// Reading a [`GetDirectoryDelegationOk`]: each field in turn.
#[verifier::opaque]
pub open spec fn spec_parse_get_directory_delegation_ok(data: Seq<u8>, pos: int) -> Parse<SpecGetDirectoryDelegationOk> {
    match <Verifier as XdrDeserialize>::spec_parse(data, pos) {
        Parse::Done(v0, p1) => match <StateId as XdrDeserialize>::spec_parse(data, p1) {
            Parse::Done(v1, p2) => match <BitMap as XdrDeserialize>::spec_parse(data, p2) {
                Parse::Done(v2, p3) => match <BitMap as XdrDeserialize>::spec_parse(data, p3) {
                    Parse::Done(v3, p4) => Parse::Done(SpecGetDirectoryDelegationOk { cookie_verifier: v0, state_id: v1, notification: v2, child_attributes: v3 }, p4),
                    Parse::Fails(e, q) => Parse::Fails(e, q),
                },
                Parse::Fails(e, q) => Parse::Fails(e, q),
            },
            Parse::Fails(e, q) => Parse::Fails(e, q),
        },
        Parse::Fails(e, q) => Parse::Fails(e, q),
    }
}

impl XdrDeserialize for GetDirectoryDelegationOk {
    open spec fn spec_parse(data: Seq<u8>, pos: int) -> Parse<SpecGetDirectoryDelegationOk> {
        spec_parse_get_directory_delegation_ok(data, pos)
    }

    fn deserialize(src: &mut XdrReader) -> (r: Result<GetDirectoryDelegationOk, XdrError>) {
        proof {
            reveal(spec_parse_get_directory_delegation_ok);
        }
        let v0 = match <Verifier as XdrDeserialize>::deserialize(src) {
            Ok(x) => x,
            Err(e) => return Err(e),
        };
        let v1 = match <StateId as XdrDeserialize>::deserialize(src) {
            Ok(x) => x,
            Err(e) => return Err(e),
        };
        let v2 = match <BitMap as XdrDeserialize>::deserialize(src) {
            Ok(x) => x,
            Err(e) => return Err(e),
        };
        let v3 = match <BitMap as XdrDeserialize>::deserialize(src) {
            Ok(x) => x,
            Err(e) => return Err(e),
        };
        Ok(GetDirectoryDelegationOk { cookie_verifier: v0, state_id: v1, notification: v2, child_attributes: v3 })
    }
}

#[derive(Clone, Copy, PartialEq, Eq, Structural)]
pub enum GetDirectoryDelegationStatus {
    Success,
    Unavailable,
}

impl DeepView for GetDirectoryDelegationStatus {
    type V = GetDirectoryDelegationStatus;

    open spec fn deep_view(&self) -> GetDirectoryDelegationStatus {
        *self
    }
}

impl GetDirectoryDelegationStatus {
    /// The number that stands for the value.
    pub open spec fn spec_to_u32(self) -> u32 {
        match self {
            GetDirectoryDelegationStatus::Success => 0,
            GetDirectoryDelegationStatus::Unavailable => 1,
        }
    }

    /// The value that a number stands for, if any.
    pub open spec fn spec_from_u32(n: u32) -> Option<GetDirectoryDelegationStatus> {
        if n == 0 {
            Some(GetDirectoryDelegationStatus::Success)
        } else if n == 1 {
            Some(GetDirectoryDelegationStatus::Unavailable)
        } else {
            None
        }
    }

    /// The number that stands for the value.
    pub fn to_u32(&self) -> (n: u32)
        ensures
            n == self.spec_to_u32(),
    {
        match self {
            GetDirectoryDelegationStatus::Success => 0,
            GetDirectoryDelegationStatus::Unavailable => 1,
        }
    }

    /// The value that `n` stands for, if any.
    pub fn from_u32(n: u32) -> (r: Option<GetDirectoryDelegationStatus>)
        ensures
            r == GetDirectoryDelegationStatus::spec_from_u32(n),
    {
        match n {
            0 => Some(GetDirectoryDelegationStatus::Success),
            1 => Some(GetDirectoryDelegationStatus::Unavailable),
            _ => None,
        }
    }
}

impl XdrSerialize for GetDirectoryDelegationStatus {
    /// The number, as a `u32`.
    open spec fn spec_emit(v: GetDirectoryDelegationStatus) -> Emit {
        spec_u32_emit(v.spec_to_u32())
    }

    fn serialize(&self, dest: &mut Vec<u8>) -> (r: Result<(), XdrError>) {
        let n: u32 = self.to_u32();
        let r = n.serialize(dest);
        assert(Self::spec_emit(self.deep_view()) == spec_u32_emit(n));
        r
    }
}

impl XdrDeserialize for GetDirectoryDelegationStatus {
    /// A number that stands for no value is invalid data.
    open spec fn spec_parse(data: Seq<u8>, pos: int) -> Parse<GetDirectoryDelegationStatus> {
        match spec_u32_parse(data, pos) {
            Parse::Done(n, p) => match GetDirectoryDelegationStatus::spec_from_u32(n) {
                Some(x) => Parse::Done(x, p),
                None => Parse::Fails(XdrError::InvalidData, p),
            },
            Parse::Fails(e, p) => Parse::Fails(e, p),
        }
    }

    fn deserialize(src: &mut XdrReader) -> (r: Result<GetDirectoryDelegationStatus, XdrError>) {
        let n = match u32::deserialize(src) {
            Ok(n) => n,
            Err(e) => return Err(e),
        };
        match GetDirectoryDelegationStatus::from_u32(n) {
            Some(x) => Ok(x),
            None => Err(XdrError::InvalidData),
        }
    }
}

/// What `GET_DIR_DELEGATION` answers when it does not fail: the delegation, or
/// whether the server will signal when one becomes available.
#[derive(Debug)]
pub enum GetDirectoryDelegationNonFatal {
    Success(GetDirectoryDelegationOk),
    Unavailable(bool),
}

/// The deep view of [`GetDirectoryDelegationNonFatal`].
pub enum SpecGetDirectoryDelegationNonFatal {
    Success(SpecGetDirectoryDelegationOk),
    Unavailable(bool),
}

impl DeepView for GetDirectoryDelegationNonFatal {
    type V = SpecGetDirectoryDelegationNonFatal;

    open spec fn deep_view(&self) -> SpecGetDirectoryDelegationNonFatal {
        match self {
            GetDirectoryDelegationNonFatal::Success(x) => SpecGetDirectoryDelegationNonFatal::Success(x.deep_view()),
            GetDirectoryDelegationNonFatal::Unavailable(x) => SpecGetDirectoryDelegationNonFatal::Unavailable(x.deep_view()),
        }
    }
}

impl XdrSerialize for GetDirectoryDelegationNonFatal {
    open spec fn spec_emit(v: SpecGetDirectoryDelegationNonFatal) -> Emit {
        match v {
            SpecGetDirectoryDelegationNonFatal::Success(x) => spec_u32_emit(GetDirectoryDelegationStatus::Success.spec_to_u32()).and_then(<GetDirectoryDelegationOk as XdrSerialize>::spec_emit(x)),
            SpecGetDirectoryDelegationNonFatal::Unavailable(x) => spec_u32_emit(GetDirectoryDelegationStatus::Unavailable.spec_to_u32()).and_then(<bool as XdrSerialize>::spec_emit(x)),
        }
    }

    fn serialize(&self, dest: &mut Vec<u8>) -> (r: Result<(), XdrError>) {
        match self {
            GetDirectoryDelegationNonFatal::Success(x) => {
                match GetDirectoryDelegationStatus::Success.serialize(dest) {
                    Ok(()) => {},
                    Err(e) => return Err(e),
                }
                x.serialize(dest)
            },
            GetDirectoryDelegationNonFatal::Unavailable(x) => {
                match GetDirectoryDelegationStatus::Unavailable.serialize(dest) {
                    Ok(()) => {},
                    Err(e) => return Err(e),
                }
                x.serialize(dest)
            },
        }
    }
}

/// Reading a [`GetDirectoryDelegationNonFatal`]: its tag, then what the tag calls for.
#[verifier::opaque]
pub open spec fn spec_parse_get_directory_delegation_non_fatal(data: Seq<u8>, pos: int) -> Parse<SpecGetDirectoryDelegationNonFatal> {
        match <GetDirectoryDelegationStatus as XdrDeserialize>::spec_parse(data, pos) {
            Parse::Done(t, p) => match t {
                GetDirectoryDelegationStatus::Success => match <GetDirectoryDelegationOk as XdrDeserialize>::spec_parse(data, p) {
                    Parse::Done(x, q) => Parse::Done(SpecGetDirectoryDelegationNonFatal::Success(x), q),
                    Parse::Fails(e, q) => Parse::Fails(e, q),
                },
                GetDirectoryDelegationStatus::Unavailable => match <bool as XdrDeserialize>::spec_parse(data, p) {
                    Parse::Done(x, q) => Parse::Done(SpecGetDirectoryDelegationNonFatal::Unavailable(x), q),
                    Parse::Fails(e, q) => Parse::Fails(e, q),
                },
            },
            Parse::Fails(e, p) => Parse::Fails(e, p),
        }
}

impl XdrDeserialize for GetDirectoryDelegationNonFatal {
    open spec fn spec_parse(data: Seq<u8>, pos: int) -> Parse<SpecGetDirectoryDelegationNonFatal> {
        spec_parse_get_directory_delegation_non_fatal(data, pos)
    }

    fn deserialize(src: &mut XdrReader) -> (r: Result<GetDirectoryDelegationNonFatal, XdrError>) {
        proof {
            reveal(spec_parse_get_directory_delegation_non_fatal);
        }
        let t = match <GetDirectoryDelegationStatus as XdrDeserialize>::deserialize(src) {
            Ok(t) => t,
            Err(e) => return Err(e),
        };
        match t {
            GetDirectoryDelegationStatus::Success => match <GetDirectoryDelegationOk as XdrDeserialize>::deserialize(src) {
                Ok(x) => Ok(GetDirectoryDelegationNonFatal::Success(x)),
                Err(e) => Err(e),
            },
            GetDirectoryDelegationStatus::Unavailable => match <bool as XdrDeserialize>::deserialize(src) {
                Ok(x) => Ok(GetDirectoryDelegationNonFatal::Unavailable(x)),
                Err(e) => Err(e),
            },
        }
    }
}

impl AsNfsStatus for GetDirectoryDelegationNonFatal {
    open spec fn spec_status(&self) -> NfsStatus {
        match self {
            GetDirectoryDelegationNonFatal::Success(_) => NfsStatus::Success,
            GetDirectoryDelegationNonFatal::Unavailable(_) => NfsStatus::DirDelegationUnavailable,
        }
    }

    open spec fn spec_has_body(&self) -> bool {
        true
    }

    fn as_status(&self) -> (s: NfsStatus) {
        match self {
            GetDirectoryDelegationNonFatal::Success(_) => NfsStatus::Success,
            GetDirectoryDelegationNonFatal::Unavailable(_) => NfsStatus::DirDelegationUnavailable,
        }
    }

    fn has_body(&self) -> (b: bool) {
        true
    }
}

/// What `GET_DIR_DELEGATION` answers: its result, or the status it failed with.
pub type GetDirectoryDelegationResult = Result<GetDirectoryDelegationNonFatal, NfsStatus>;

/// The arguments of `GETDEVICEINFO`.
#[derive(Debug)]
pub struct GetDeviceInfoArgs {
    device_id: DeviceId,
    layout_type: NfsLayoutType,
    max_count: Count,
    notify_types: BitMap,
}

/// The deep view of [`GetDeviceInfoArgs`].
pub struct SpecGetDeviceInfoArgs {
    pub device_id: Seq<u8>,
    pub layout_type: NfsLayoutType,
    pub max_count: u32,
    pub notify_types: Seq<u32>,
}

impl DeepView for GetDeviceInfoArgs {
    type V = SpecGetDeviceInfoArgs;

    closed spec fn deep_view(&self) -> SpecGetDeviceInfoArgs {
        SpecGetDeviceInfoArgs { device_id: self.device_id.deep_view(), layout_type: self.layout_type.deep_view(), max_count: self.max_count.deep_view(), notify_types: self.notify_types.deep_view() }
    }
}

impl XdrSerialize for GetDeviceInfoArgs {
    open spec fn spec_emit(v: SpecGetDeviceInfoArgs) -> Emit {
        <DeviceId as XdrSerialize>::spec_emit(v.device_id).and_then(<NfsLayoutType as XdrSerialize>::spec_emit(v.layout_type)).and_then(<Count as XdrSerialize>::spec_emit(v.max_count)).and_then(<BitMap as XdrSerialize>::spec_emit(v.notify_types))
    }

    fn serialize(&self, dest: &mut Vec<u8>) -> (r: Result<(), XdrError>) {
        match self.device_id.serialize(dest) {
            Ok(()) => {},
            Err(e) => return Err(e),
        }
        match self.layout_type.serialize(dest) {
            Ok(()) => {},
            Err(e) => return Err(e),
        }
        match self.max_count.serialize(dest) {
            Ok(()) => {},
            Err(e) => return Err(e),
        }
        self.notify_types.serialize(dest)
    }
}

/// Reading a [`GetDeviceInfoArgs`]: each field in turn.
#[verifier::opaque]
pub open spec fn spec_parse_get_device_info_args(data: Seq<u8>, pos: int) -> Parse<SpecGetDeviceInfoArgs> {
    match <DeviceId as XdrDeserialize>::spec_parse(data, pos) {
        Parse::Done(v0, p1) => match <NfsLayoutType as XdrDeserialize>::spec_parse(data, p1) {
            Parse::Done(v1, p2) => match <Count as XdrDeserialize>::spec_parse(data, p2) {
                Parse::Done(v2, p3) => match <BitMap as XdrDeserialize>::spec_parse(data, p3) {
                    Parse::Done(v3, p4) => Parse::Done(SpecGetDeviceInfoArgs { device_id: v0, layout_type: v1, max_count: v2, notify_types: v3 }, p4),
                    Parse::Fails(e, q) => Parse::Fails(e, q),
                },
                Parse::Fails(e, q) => Parse::Fails(e, q),
            },
            Parse::Fails(e, q) => Parse::Fails(e, q),
        },
        Parse::Fails(e, q) => Parse::Fails(e, q),
    }
}

impl XdrDeserialize for GetDeviceInfoArgs {
    open spec fn spec_parse(data: Seq<u8>, pos: int) -> Parse<SpecGetDeviceInfoArgs> {
        spec_parse_get_device_info_args(data, pos)
    }

    fn deserialize(src: &mut XdrReader) -> (r: Result<GetDeviceInfoArgs, XdrError>) {
        proof {
            reveal(spec_parse_get_device_info_args);
        }
        let v0 = match <DeviceId as XdrDeserialize>::deserialize(src) {
            Ok(x) => x,
            Err(e) => return Err(e),
        };
        let v1 = match <NfsLayoutType as XdrDeserialize>::deserialize(src) {
            Ok(x) => x,
            Err(e) => return Err(e),
        };
        let v2 = match <Count as XdrDeserialize>::deserialize(src) {
            Ok(x) => x,
            Err(e) => return Err(e),
        };
        let v3 = match <BitMap as XdrDeserialize>::deserialize(src) {
            Ok(x) => x,
            Err(e) => return Err(e),
        };
        Ok(GetDeviceInfoArgs { device_id: v0, layout_type: v1, max_count: v2, notify_types: v3 })
    }
}

/// What a successful `GETDEVICEINFO` answers.
#[derive(Debug)]
pub struct GetDeviceInfoOk {
    device_address: DeviceAddress,
    notification: BitMap,
}

/// The deep view of [`GetDeviceInfoOk`].
pub struct SpecGetDeviceInfoOk {
    pub device_address: SpecDeviceAddress,
    pub notification: Seq<u32>,
}

impl DeepView for GetDeviceInfoOk {
    type V = SpecGetDeviceInfoOk;

    closed spec fn deep_view(&self) -> SpecGetDeviceInfoOk {
        SpecGetDeviceInfoOk { device_address: self.device_address.deep_view(), notification: self.notification.deep_view() }
    }
}

impl XdrSerialize for GetDeviceInfoOk {
    open spec fn spec_emit(v: SpecGetDeviceInfoOk) -> Emit {
        <DeviceAddress as XdrSerialize>::spec_emit(v.device_address).and_then(<BitMap as XdrSerialize>::spec_emit(v.notification))
    }

    fn serialize(&self, dest: &mut Vec<u8>) -> (r: Result<(), XdrError>) {
        match self.device_address.serialize(dest) {
            Ok(()) => {},
            Err(e) => return Err(e),
        }
        self.notification.serialize(dest)
    }
}

/// Reading a [`GetDeviceInfoOk`]: each field in turn.
#[verifier::opaque]
pub open spec fn spec_parse_get_device_info_ok(data: Seq<u8>, pos: int) -> Parse<SpecGetDeviceInfoOk> {
    match <DeviceAddress as XdrDeserialize>::spec_parse(data, pos) {
        Parse::Done(v0, p1) => match <BitMap as XdrDeserialize>::spec_parse(data, p1) {
            Parse::Done(v1, p2) => Parse::Done(SpecGetDeviceInfoOk { device_address: v0, notification: v1 }, p2),
            Parse::Fails(e, q) => Parse::Fails(e, q),
        },
        Parse::Fails(e, q) => Parse::Fails(e, q),
    }
}

impl XdrDeserialize for GetDeviceInfoOk {
    open spec fn spec_parse(data: Seq<u8>, pos: int) -> Parse<SpecGetDeviceInfoOk> {
        spec_parse_get_device_info_ok(data, pos)
    }

    fn deserialize(src: &mut XdrReader) -> (r: Result<GetDeviceInfoOk, XdrError>) {
        proof {
            reveal(spec_parse_get_device_info_ok);
        }
        let v0 = match <DeviceAddress as XdrDeserialize>::deserialize(src) {
            Ok(x) => x,
            Err(e) => return Err(e),
        };
        let v1 = match <BitMap as XdrDeserialize>::deserialize(src) {
            Ok(x) => x,
            Err(e) => return Err(e),
        };
        Ok(GetDeviceInfoOk { device_address: v0, notification: v1 })
    }
}

/// What `GETDEVICEINFO` answers: the device, or the size the reply needs.
#[derive(Debug)]
pub enum GetDeviceInfoReturn {
    Success(GetDeviceInfoOk),
    TooSmall(Count),
}

/// The deep view of [`GetDeviceInfoReturn`].
pub enum SpecGetDeviceInfoReturn {
    Success(SpecGetDeviceInfoOk),
    TooSmall(u32),
}

impl DeepView for GetDeviceInfoReturn {
    type V = SpecGetDeviceInfoReturn;

    open spec fn deep_view(&self) -> SpecGetDeviceInfoReturn {
        match self {
            GetDeviceInfoReturn::Success(x) => SpecGetDeviceInfoReturn::Success(x.deep_view()),
            GetDeviceInfoReturn::TooSmall(x) => SpecGetDeviceInfoReturn::TooSmall(x.deep_view()),
        }
    }
}

impl XdrSerialize for GetDeviceInfoReturn {
    open spec fn spec_emit(v: SpecGetDeviceInfoReturn) -> Emit {
        match v {
            SpecGetDeviceInfoReturn::Success(x) => <GetDeviceInfoOk as XdrSerialize>::spec_emit(x),
            SpecGetDeviceInfoReturn::TooSmall(x) => <Count as XdrSerialize>::spec_emit(x),
        }
    }

    fn serialize(&self, dest: &mut Vec<u8>) -> (r: Result<(), XdrError>) {
        match self {
            GetDeviceInfoReturn::Success(x) => {
                x.serialize(dest)
            },
            GetDeviceInfoReturn::TooSmall(x) => {
                x.serialize(dest)
            },
        }
    }
}

impl AsNfsStatus for GetDeviceInfoReturn {
    open spec fn spec_status(&self) -> NfsStatus {
        match self {
            GetDeviceInfoReturn::Success(_) => NfsStatus::Success,
            GetDeviceInfoReturn::TooSmall(_) => NfsStatus::TooSmall,
        }
    }

    open spec fn spec_has_body(&self) -> bool {
        true
    }

    fn as_status(&self) -> (s: NfsStatus) {
        match self {
            GetDeviceInfoReturn::Success(_) => NfsStatus::Success,
            GetDeviceInfoReturn::TooSmall(_) => NfsStatus::TooSmall,
        }
    }

    fn has_body(&self) -> (b: bool) {
        true
    }
}

/// What `GETDEVICEINFO` answers: its result, or the status it failed with.
pub type GetDeviceInfoResult = Result<GetDeviceInfoReturn, NfsStatus>;

/// The arguments of `GETDEVICELIST`.
#[derive(Debug)]
pub struct GetDeviceListArgs {
    layout_type: NfsLayoutType,
    max_devices: Count,
    cookie: NfsCookie,
    cookie_verifier: Verifier,
}

/// The deep view of [`GetDeviceListArgs`].
pub struct SpecGetDeviceListArgs {
    pub layout_type: NfsLayoutType,
    pub max_devices: u32,
    pub cookie: u64,
    pub cookie_verifier: Seq<u8>,
}

impl DeepView for GetDeviceListArgs {
    type V = SpecGetDeviceListArgs;

    closed spec fn deep_view(&self) -> SpecGetDeviceListArgs {
        SpecGetDeviceListArgs { layout_type: self.layout_type.deep_view(), max_devices: self.max_devices.deep_view(), cookie: self.cookie.deep_view(), cookie_verifier: self.cookie_verifier.deep_view() }
    }
}

impl XdrSerialize for GetDeviceListArgs {
    open spec fn spec_emit(v: SpecGetDeviceListArgs) -> Emit {
        <NfsLayoutType as XdrSerialize>::spec_emit(v.layout_type).and_then(<Count as XdrSerialize>::spec_emit(v.max_devices)).and_then(<NfsCookie as XdrSerialize>::spec_emit(v.cookie)).and_then(<Verifier as XdrSerialize>::spec_emit(v.cookie_verifier))
    }

    fn serialize(&self, dest: &mut Vec<u8>) -> (r: Result<(), XdrError>) {
        match self.layout_type.serialize(dest) {
            Ok(()) => {},
            Err(e) => return Err(e),
        }
        match self.max_devices.serialize(dest) {
            Ok(()) => {},
            Err(e) => return Err(e),
        }
        match self.cookie.serialize(dest) {
            Ok(()) => {},
            Err(e) => return Err(e),
        }
        self.cookie_verifier.serialize(dest)
    }
}

/// Reading a [`GetDeviceListArgs`]: each field in turn.
#[verifier::opaque]
pub open spec fn spec_parse_get_device_list_args(data: Seq<u8>, pos: int) -> Parse<SpecGetDeviceListArgs> {
    match <NfsLayoutType as XdrDeserialize>::spec_parse(data, pos) {
        Parse::Done(v0, p1) => match <Count as XdrDeserialize>::spec_parse(data, p1) {
            Parse::Done(v1, p2) => match <NfsCookie as XdrDeserialize>::spec_parse(data, p2) {
                Parse::Done(v2, p3) => match <Verifier as XdrDeserialize>::spec_parse(data, p3) {
                    Parse::Done(v3, p4) => Parse::Done(SpecGetDeviceListArgs { layout_type: v0, max_devices: v1, cookie: v2, cookie_verifier: v3 }, p4),
                    Parse::Fails(e, q) => Parse::Fails(e, q),
                },
                Parse::Fails(e, q) => Parse::Fails(e, q),
            },
            Parse::Fails(e, q) => Parse::Fails(e, q),
        },
        Parse::Fails(e, q) => Parse::Fails(e, q),
    }
}

impl XdrDeserialize for GetDeviceListArgs {
    open spec fn spec_parse(data: Seq<u8>, pos: int) -> Parse<SpecGetDeviceListArgs> {
        spec_parse_get_device_list_args(data, pos)
    }

    fn deserialize(src: &mut XdrReader) -> (r: Result<GetDeviceListArgs, XdrError>) {
        proof {
            reveal(spec_parse_get_device_list_args);
        }
        let v0 = match <NfsLayoutType as XdrDeserialize>::deserialize(src) {
            Ok(x) => x,
            Err(e) => return Err(e),
        };
        let v1 = match <Count as XdrDeserialize>::deserialize(src) {
            Ok(x) => x,
            Err(e) => return Err(e),
        };
        let v2 = match <NfsCookie as XdrDeserialize>::deserialize(src) {
            Ok(x) => x,
            Err(e) => return Err(e),
        };
        let v3 = match <Verifier as XdrDeserialize>::deserialize(src) {
            Ok(x) => x,
            Err(e) => return Err(e),
        };
        Ok(GetDeviceListArgs { layout_type: v0, max_devices: v1, cookie: v2, cookie_verifier: v3 })
    }
}

/// What a successful `GETDEVICELIST` answers.
#[derive(Debug)]
pub struct GetDeviceListOk {
    cookie: NfsCookie,
    cookie_verifier: Verifier,
    device_ids: Vec<DeviceId>,
    eof: bool,
}

/// The deep view of [`GetDeviceListOk`].
pub struct SpecGetDeviceListOk {
    pub cookie: u64,
    pub cookie_verifier: Seq<u8>,
    pub device_ids: Seq<Seq<u8>>,
    pub eof: bool,
}

impl DeepView for GetDeviceListOk {
    type V = SpecGetDeviceListOk;

    closed spec fn deep_view(&self) -> SpecGetDeviceListOk {
        SpecGetDeviceListOk { cookie: self.cookie.deep_view(), cookie_verifier: self.cookie_verifier.deep_view(), device_ids: self.device_ids.deep_view(), eof: self.eof.deep_view() }
    }
}

impl XdrSerialize for GetDeviceListOk {
    open spec fn spec_emit(v: SpecGetDeviceListOk) -> Emit {
        <NfsCookie as XdrSerialize>::spec_emit(v.cookie).and_then(<Verifier as XdrSerialize>::spec_emit(v.cookie_verifier)).and_then(spec_vec_emit::<DeviceId>(v.device_ids)).and_then(<bool as XdrSerialize>::spec_emit(v.eof))
    }

    fn serialize(&self, dest: &mut Vec<u8>) -> (r: Result<(), XdrError>) {
        match self.cookie.serialize(dest) {
            Ok(()) => {},
            Err(e) => return Err(e),
        }
        match self.cookie_verifier.serialize(dest) {
            Ok(()) => {},
            Err(e) => return Err(e),
        }
        match serialize_vec_of(dest, &self.device_ids) {
            Ok(()) => {},
            Err(e) => return Err(e),
        }
        self.eof.serialize(dest)
    }
}

/// Reading a [`GetDeviceListOk`]: each field in turn.
#[verifier::opaque]
pub open spec fn spec_parse_get_device_list_ok(data: Seq<u8>, pos: int) -> Parse<SpecGetDeviceListOk> {
    match <NfsCookie as XdrDeserialize>::spec_parse(data, pos) {
        Parse::Done(v0, p1) => match <Verifier as XdrDeserialize>::spec_parse(data, p1) {
            Parse::Done(v1, p2) => match spec_vec_parse::<DeviceId>(data, p2) {
                Parse::Done(v2, p3) => match <bool as XdrDeserialize>::spec_parse(data, p3) {
                    Parse::Done(v3, p4) => Parse::Done(SpecGetDeviceListOk { cookie: v0, cookie_verifier: v1, device_ids: v2, eof: v3 }, p4),
                    Parse::Fails(e, q) => Parse::Fails(e, q),
                },
                Parse::Fails(e, q) => Parse::Fails(e, q),
            },
            Parse::Fails(e, q) => Parse::Fails(e, q),
        },
        Parse::Fails(e, q) => Parse::Fails(e, q),
    }
}

impl XdrDeserialize for GetDeviceListOk {
    open spec fn spec_parse(data: Seq<u8>, pos: int) -> Parse<SpecGetDeviceListOk> {
        spec_parse_get_device_list_ok(data, pos)
    }

    fn deserialize(src: &mut XdrReader) -> (r: Result<GetDeviceListOk, XdrError>) {
        proof {
            reveal(spec_parse_get_device_list_ok);
        }
        let v0 = match <NfsCookie as XdrDeserialize>::deserialize(src) {
            Ok(x) => x,
            Err(e) => return Err(e),
        };
        let v1 = match <Verifier as XdrDeserialize>::deserialize(src) {
            Ok(x) => x,
            Err(e) => return Err(e),
        };
        let v2 = match deserialize_vec::<DeviceId>(src) {
            Ok(x) => x,
            Err(e) => return Err(e),
        };
        let v3 = match <bool as XdrDeserialize>::deserialize(src) {
            Ok(x) => x,
            Err(e) => return Err(e),
        };
        Ok(GetDeviceListOk { cookie: v0, cookie_verifier: v1, device_ids: v2, eof: v3 })
    }
}

impl AsNfsStatus for GetDeviceListOk {
    open spec fn spec_status(&self) -> NfsStatus {
        NfsStatus::Success
    }

    open spec fn spec_has_body(&self) -> bool {
        true
    }

    fn as_status(&self) -> (s: NfsStatus) {
        NfsStatus::Success
    }

    fn has_body(&self) -> (b: bool) {
        true
    }
}

/// What `GETDEVICELIST` answers: its result, or the status it failed with.
pub type GetDeviceListResult = Result<GetDeviceListOk, NfsStatus>;

/// A new modification time, if there is one.
#[derive(Debug)]
pub enum NewTime {
    Changed(NfsTime),
    Unchanged,
}

impl DeepView for NewTime {
    type V = NewTime;

    open spec fn deep_view(&self) -> NewTime {
        match self {
            NewTime::Changed(x) => NewTime::Changed(x.deep_view()),
            NewTime::Unchanged => NewTime::Unchanged,
        }
    }
}

impl XdrSerialize for NewTime {
    open spec fn spec_emit(v: NewTime) -> Emit {
        match v {
            NewTime::Changed(x) => spec_u32_emit(spec_bool_word(true)).and_then(<NfsTime as XdrSerialize>::spec_emit(x)),
            NewTime::Unchanged => spec_u32_emit(spec_bool_word(false)),
        }
    }

    fn serialize(&self, dest: &mut Vec<u8>) -> (r: Result<(), XdrError>) {
        match self {
            NewTime::Changed(x) => {
                match true.serialize(dest) {
                    Ok(()) => {},
                    Err(e) => return Err(e),
                }
                x.serialize(dest)
            },
            NewTime::Unchanged => false.serialize(dest),
        }
    }
}

/// Reading a [`NewTime`]: its tag, then what the tag calls for.
#[verifier::opaque]
pub open spec fn spec_parse_new_time(data: Seq<u8>, pos: int) -> Parse<NewTime> {
        match <bool as XdrDeserialize>::spec_parse(data, pos) {
            Parse::Done(t, p) => if t {
                match <NfsTime as XdrDeserialize>::spec_parse(data, p) {
                    Parse::Done(x, q) => Parse::Done(NewTime::Changed(x), q),
                    Parse::Fails(e, q) => Parse::Fails(e, q),
                }
            } else {
                Parse::Done(NewTime::Unchanged, p)
            },
            Parse::Fails(e, p) => Parse::Fails(e, p),
        }
}

impl XdrDeserialize for NewTime {
    open spec fn spec_parse(data: Seq<u8>, pos: int) -> Parse<NewTime> {
        spec_parse_new_time(data, pos)
    }

    fn deserialize(src: &mut XdrReader) -> (r: Result<NewTime, XdrError>) {
        proof {
            reveal(spec_parse_new_time);
        }
        let t = match bool::deserialize(src) {
            Ok(t) => t,
            Err(e) => return Err(e),
        };
        if t {
            match <NfsTime as XdrDeserialize>::deserialize(src) {
                Ok(x) => Ok(NewTime::Changed(x)),
                Err(e) => Err(e),
            }
        } else {
            Ok(NewTime::Unchanged)
        }
    }
}

/// A new last write offset, if there is one.
#[derive(Debug)]
pub enum NewOffset {
    Changed(Offset),
    Unchanged,
}

impl DeepView for NewOffset {
    type V = NewOffset;

    open spec fn deep_view(&self) -> NewOffset {
        match self {
            NewOffset::Changed(x) => NewOffset::Changed(x.deep_view()),
            NewOffset::Unchanged => NewOffset::Unchanged,
        }
    }
}

impl XdrSerialize for NewOffset {
    open spec fn spec_emit(v: NewOffset) -> Emit {
        match v {
            NewOffset::Changed(x) => spec_u32_emit(spec_bool_word(true)).and_then(<Offset as XdrSerialize>::spec_emit(x)),
            NewOffset::Unchanged => spec_u32_emit(spec_bool_word(false)),
        }
    }

    fn serialize(&self, dest: &mut Vec<u8>) -> (r: Result<(), XdrError>) {
        match self {
            NewOffset::Changed(x) => {
                match true.serialize(dest) {
                    Ok(()) => {},
                    Err(e) => return Err(e),
                }
                x.serialize(dest)
            },
            NewOffset::Unchanged => false.serialize(dest),
        }
    }
}

/// Reading a [`NewOffset`]: its tag, then what the tag calls for.
#[verifier::opaque]
pub open spec fn spec_parse_new_offset(data: Seq<u8>, pos: int) -> Parse<NewOffset> {
        match <bool as XdrDeserialize>::spec_parse(data, pos) {
            Parse::Done(t, p) => if t {
                match <Offset as XdrDeserialize>::spec_parse(data, p) {
                    Parse::Done(x, q) => Parse::Done(NewOffset::Changed(x), q),
                    Parse::Fails(e, q) => Parse::Fails(e, q),
                }
            } else {
                Parse::Done(NewOffset::Unchanged, p)
            },
            Parse::Fails(e, p) => Parse::Fails(e, p),
        }
}

impl XdrDeserialize for NewOffset {
    open spec fn spec_parse(data: Seq<u8>, pos: int) -> Parse<NewOffset> {
        spec_parse_new_offset(data, pos)
    }

    fn deserialize(src: &mut XdrReader) -> (r: Result<NewOffset, XdrError>) {
        proof {
            reveal(spec_parse_new_offset);
        }
        let t = match bool::deserialize(src) {
            Ok(t) => t,
            Err(e) => return Err(e),
        };
        if t {
            match <Offset as XdrDeserialize>::deserialize(src) {
                Ok(x) => Ok(NewOffset::Changed(x)),
                Err(e) => Err(e),
            }
        } else {
            Ok(NewOffset::Unchanged)
        }
    }
}

/// The arguments of `LAYOUTCOMMIT`.
#[derive(Debug)]
pub struct LayoutCommitArgs {
    offset: Offset,
    length: Length,
    state_id: StateId,
    last_write_offset: NewOffset,
    time_modify: NewTime,
    layout_update: LayoutUpdate,
}

/// The deep view of [`LayoutCommitArgs`].
pub struct SpecLayoutCommitArgs {
    pub offset: u64,
    pub length: u64,
    pub state_id: SpecStateId,
    pub last_write_offset: NewOffset,
    pub time_modify: NewTime,
    pub layout_update: SpecLayoutUpdate,
}

impl DeepView for LayoutCommitArgs {
    type V = SpecLayoutCommitArgs;

    closed spec fn deep_view(&self) -> SpecLayoutCommitArgs {
        SpecLayoutCommitArgs { offset: self.offset.deep_view(), length: self.length.deep_view(), state_id: self.state_id.deep_view(), last_write_offset: self.last_write_offset.deep_view(), time_modify: self.time_modify.deep_view(), layout_update: self.layout_update.deep_view() }
    }
}

impl XdrSerialize for LayoutCommitArgs {
    open spec fn spec_emit(v: SpecLayoutCommitArgs) -> Emit {
        <Offset as XdrSerialize>::spec_emit(v.offset).and_then(<Length as XdrSerialize>::spec_emit(v.length)).and_then(<StateId as XdrSerialize>::spec_emit(v.state_id)).and_then(<NewOffset as XdrSerialize>::spec_emit(v.last_write_offset)).and_then(<NewTime as XdrSerialize>::spec_emit(v.time_modify)).and_then(<LayoutUpdate as XdrSerialize>::spec_emit(v.layout_update))
    }

    #[verifier::spinoff_prover]
    #[verifier::rlimit(40)]
    fn serialize(&self, dest: &mut Vec<u8>) -> (r: Result<(), XdrError>) {
        match self.offset.serialize(dest) {
            Ok(()) => {},
            Err(e) => return Err(e),
        }
        match self.length.serialize(dest) {
            Ok(()) => {},
            Err(e) => return Err(e),
        }
        match self.state_id.serialize(dest) {
            Ok(()) => {},
            Err(e) => return Err(e),
        }
        match self.last_write_offset.serialize(dest) {
            Ok(()) => {},
            Err(e) => return Err(e),
        }
        match self.time_modify.serialize(dest) {
            Ok(()) => {},
            Err(e) => return Err(e),
        }
        self.layout_update.serialize(dest)
    }
}

/// Reading a [`LayoutCommitArgs`]: each field in turn.
#[verifier::opaque]
pub open spec fn spec_parse_layout_commit_args(data: Seq<u8>, pos: int) -> Parse<SpecLayoutCommitArgs> {
    match <Offset as XdrDeserialize>::spec_parse(data, pos) {
        Parse::Done(v0, p1) => match <Length as XdrDeserialize>::spec_parse(data, p1) {
            Parse::Done(v1, p2) => match <StateId as XdrDeserialize>::spec_parse(data, p2) {
                Parse::Done(v2, p3) => match <NewOffset as XdrDeserialize>::spec_parse(data, p3) {
                    Parse::Done(v3, p4) => match <NewTime as XdrDeserialize>::spec_parse(data, p4) {
                        Parse::Done(v4, p5) => match <LayoutUpdate as XdrDeserialize>::spec_parse(data, p5) {
                            Parse::Done(v5, p6) => Parse::Done(SpecLayoutCommitArgs { offset: v0, length: v1, state_id: v2, last_write_offset: v3, time_modify: v4, layout_update: v5 }, p6),
                            Parse::Fails(e, q) => Parse::Fails(e, q),
                        },
                        Parse::Fails(e, q) => Parse::Fails(e, q),
                    },
                    Parse::Fails(e, q) => Parse::Fails(e, q),
                },
                Parse::Fails(e, q) => Parse::Fails(e, q),
            },
            Parse::Fails(e, q) => Parse::Fails(e, q),
        },
        Parse::Fails(e, q) => Parse::Fails(e, q),
    }
}

impl XdrDeserialize for LayoutCommitArgs {
    open spec fn spec_parse(data: Seq<u8>, pos: int) -> Parse<SpecLayoutCommitArgs> {
        spec_parse_layout_commit_args(data, pos)
    }

    fn deserialize(src: &mut XdrReader) -> (r: Result<LayoutCommitArgs, XdrError>) {
        proof {
            reveal(spec_parse_layout_commit_args);
        }
        let v0 = match <Offset as XdrDeserialize>::deserialize(src) {
            Ok(x) => x,
            Err(e) => return Err(e),
        };
        let v1 = match <Length as XdrDeserialize>::deserialize(src) {
            Ok(x) => x,
            Err(e) => return Err(e),
        };
        let v2 = match <StateId as XdrDeserialize>::deserialize(src) {
            Ok(x) => x,
            Err(e) => return Err(e),
        };
        let v3 = match <NewOffset as XdrDeserialize>::deserialize(src) {
            Ok(x) => x,
            Err(e) => return Err(e),
        };
        let v4 = match <NewTime as XdrDeserialize>::deserialize(src) {
            Ok(x) => x,
            Err(e) => return Err(e),
        };
        let v5 = match <LayoutUpdate as XdrDeserialize>::deserialize(src) {
            Ok(x) => x,
            Err(e) => return Err(e),
        };
        Ok(LayoutCommitArgs { offset: v0, length: v1, state_id: v2, last_write_offset: v3, time_modify: v4, layout_update: v5 })
    }
}

/// A new file size, if there is one.
#[derive(Debug)]
pub enum NewSize {
    Changed(Length),
    Unchanged,
}

impl DeepView for NewSize {
    type V = NewSize;

    open spec fn deep_view(&self) -> NewSize {
        match self {
            NewSize::Changed(x) => NewSize::Changed(x.deep_view()),
            NewSize::Unchanged => NewSize::Unchanged,
        }
    }
}

impl XdrSerialize for NewSize {
    open spec fn spec_emit(v: NewSize) -> Emit {
        match v {
            NewSize::Changed(x) => spec_u32_emit(spec_bool_word(true)).and_then(<Length as XdrSerialize>::spec_emit(x)),
            NewSize::Unchanged => spec_u32_emit(spec_bool_word(false)),
        }
    }

    fn serialize(&self, dest: &mut Vec<u8>) -> (r: Result<(), XdrError>) {
        match self {
            NewSize::Changed(x) => {
                match true.serialize(dest) {
                    Ok(()) => {},
                    Err(e) => return Err(e),
                }
                x.serialize(dest)
            },
            NewSize::Unchanged => false.serialize(dest),
        }
    }
}

/// Reading a [`NewSize`]: its tag, then what the tag calls for.
#[verifier::opaque]
pub open spec fn spec_parse_new_size(data: Seq<u8>, pos: int) -> Parse<NewSize> {
        match <bool as XdrDeserialize>::spec_parse(data, pos) {
            Parse::Done(t, p) => if t {
                match <Length as XdrDeserialize>::spec_parse(data, p) {
                    Parse::Done(x, q) => Parse::Done(NewSize::Changed(x), q),
                    Parse::Fails(e, q) => Parse::Fails(e, q),
                }
            } else {
                Parse::Done(NewSize::Unchanged, p)
            },
            Parse::Fails(e, p) => Parse::Fails(e, p),
        }
}

impl XdrDeserialize for NewSize {
    open spec fn spec_parse(data: Seq<u8>, pos: int) -> Parse<NewSize> {
        spec_parse_new_size(data, pos)
    }

    fn deserialize(src: &mut XdrReader) -> (r: Result<NewSize, XdrError>) {
        proof {
            reveal(spec_parse_new_size);
        }
        let t = match bool::deserialize(src) {
            Ok(t) => t,
            Err(e) => return Err(e),
        };
        if t {
            match <Length as XdrDeserialize>::deserialize(src) {
                Ok(x) => Ok(NewSize::Changed(x)),
                Err(e) => Err(e),
            }
        } else {
            Ok(NewSize::Unchanged)
        }
    }
}

/// What a successful `LAYOUTCOMMIT` answers.
#[derive(Debug)]
pub struct LayoutCommitOk {
    new_size: NewSize,
}

/// The deep view of [`LayoutCommitOk`].
pub struct SpecLayoutCommitOk {
    pub new_size: NewSize,
}

impl DeepView for LayoutCommitOk {
    type V = SpecLayoutCommitOk;

    closed spec fn deep_view(&self) -> SpecLayoutCommitOk {
        SpecLayoutCommitOk { new_size: self.new_size.deep_view() }
    }
}

impl XdrSerialize for LayoutCommitOk {
    open spec fn spec_emit(v: SpecLayoutCommitOk) -> Emit {
        <NewSize as XdrSerialize>::spec_emit(v.new_size)
    }

    fn serialize(&self, dest: &mut Vec<u8>) -> (r: Result<(), XdrError>) {
        self.new_size.serialize(dest)
    }
}

/// Reading a [`LayoutCommitOk`]: each field in turn.
#[verifier::opaque]
pub open spec fn spec_parse_layout_commit_ok(data: Seq<u8>, pos: int) -> Parse<SpecLayoutCommitOk> {
    match <NewSize as XdrDeserialize>::spec_parse(data, pos) {
        Parse::Done(v0, p1) => Parse::Done(SpecLayoutCommitOk { new_size: v0 }, p1),
        Parse::Fails(e, q) => Parse::Fails(e, q),
    }
}

impl XdrDeserialize for LayoutCommitOk {
    open spec fn spec_parse(data: Seq<u8>, pos: int) -> Parse<SpecLayoutCommitOk> {
        spec_parse_layout_commit_ok(data, pos)
    }

    fn deserialize(src: &mut XdrReader) -> (r: Result<LayoutCommitOk, XdrError>) {
        proof {
            reveal(spec_parse_layout_commit_ok);
        }
        let v0 = match <NewSize as XdrDeserialize>::deserialize(src) {
            Ok(x) => x,
            Err(e) => return Err(e),
        };
        Ok(LayoutCommitOk { new_size: v0 })
    }
}

impl AsNfsStatus for LayoutCommitOk {
    open spec fn spec_status(&self) -> NfsStatus {
        NfsStatus::Success
    }

    open spec fn spec_has_body(&self) -> bool {
        true
    }

    fn as_status(&self) -> (s: NfsStatus) {
        NfsStatus::Success
    }

    fn has_body(&self) -> (b: bool) {
        true
    }
}

/// What `LAYOUTCOMMIT` answers: its result, or the status it failed with.
pub type LayoutCommitResult = Result<LayoutCommitOk, NfsStatus>;

/// The arguments of `LAYOUTGET`.
#[derive(Debug)]
pub struct LayoutGetArgs {
    signal_layout_available: bool,
    layout_type: NfsLayoutType,
    io_mode: LayoutIoMode,
    offset: Offset,
    length: Length,
    min_length: Length,
    state_id: StateId,
    max_count: Count,
}

/// The deep view of [`LayoutGetArgs`].
pub struct SpecLayoutGetArgs {
    pub signal_layout_available: bool,
    pub layout_type: NfsLayoutType,
    pub io_mode: LayoutIoMode,
    pub offset: u64,
    pub length: u64,
    pub min_length: u64,
    pub state_id: SpecStateId,
    pub max_count: u32,
}

impl DeepView for LayoutGetArgs {
    type V = SpecLayoutGetArgs;

    closed spec fn deep_view(&self) -> SpecLayoutGetArgs {
        SpecLayoutGetArgs { signal_layout_available: self.signal_layout_available.deep_view(), layout_type: self.layout_type.deep_view(), io_mode: self.io_mode.deep_view(), offset: self.offset.deep_view(), length: self.length.deep_view(), min_length: self.min_length.deep_view(), state_id: self.state_id.deep_view(), max_count: self.max_count.deep_view() }
    }
}

impl XdrSerialize for LayoutGetArgs {
    open spec fn spec_emit(v: SpecLayoutGetArgs) -> Emit {
        <bool as XdrSerialize>::spec_emit(v.signal_layout_available).and_then(<NfsLayoutType as XdrSerialize>::spec_emit(v.layout_type)).and_then(<LayoutIoMode as XdrSerialize>::spec_emit(v.io_mode)).and_then(<Offset as XdrSerialize>::spec_emit(v.offset)).and_then(<Length as XdrSerialize>::spec_emit(v.length)).and_then(<Length as XdrSerialize>::spec_emit(v.min_length)).and_then(<StateId as XdrSerialize>::spec_emit(v.state_id)).and_then(<Count as XdrSerialize>::spec_emit(v.max_count))
    }

    #[verifier::spinoff_prover]
    #[verifier::rlimit(40)]
    fn serialize(&self, dest: &mut Vec<u8>) -> (r: Result<(), XdrError>) {
        match self.signal_layout_available.serialize(dest) {
            Ok(()) => {},
            Err(e) => return Err(e),
        }
        match self.layout_type.serialize(dest) {
            Ok(()) => {},
            Err(e) => return Err(e),
        }
        match self.io_mode.serialize(dest) {
            Ok(()) => {},
            Err(e) => return Err(e),
        }
        match self.offset.serialize(dest) {
            Ok(()) => {},
            Err(e) => return Err(e),
        }
        match self.length.serialize(dest) {
            Ok(()) => {},
            Err(e) => return Err(e),
        }
        match self.min_length.serialize(dest) {
            Ok(()) => {},
            Err(e) => return Err(e),
        }
        match self.state_id.serialize(dest) {
            Ok(()) => {},
            Err(e) => return Err(e),
        }
        self.max_count.serialize(dest)
    }
}

/// Reading a [`LayoutGetArgs`]: each field in turn.
#[verifier::opaque]
pub open spec fn spec_parse_layout_get_args(data: Seq<u8>, pos: int) -> Parse<SpecLayoutGetArgs> {
    match <bool as XdrDeserialize>::spec_parse(data, pos) {
        Parse::Done(v0, p1) => match <NfsLayoutType as XdrDeserialize>::spec_parse(data, p1) {
            Parse::Done(v1, p2) => match <LayoutIoMode as XdrDeserialize>::spec_parse(data, p2) {
                Parse::Done(v2, p3) => match <Offset as XdrDeserialize>::spec_parse(data, p3) {
                    Parse::Done(v3, p4) => match <Length as XdrDeserialize>::spec_parse(data, p4) {
                        Parse::Done(v4, p5) => match <Length as XdrDeserialize>::spec_parse(data, p5) {
                            Parse::Done(v5, p6) => match <StateId as XdrDeserialize>::spec_parse(data, p6) {
                                Parse::Done(v6, p7) => match <Count as XdrDeserialize>::spec_parse(data, p7) {
                                    Parse::Done(v7, p8) => Parse::Done(SpecLayoutGetArgs { signal_layout_available: v0, layout_type: v1, io_mode: v2, offset: v3, length: v4, min_length: v5, state_id: v6, max_count: v7 }, p8),
                                    Parse::Fails(e, q) => Parse::Fails(e, q),
                                },
                                Parse::Fails(e, q) => Parse::Fails(e, q),
                            },
                            Parse::Fails(e, q) => Parse::Fails(e, q),
                        },
                        Parse::Fails(e, q) => Parse::Fails(e, q),
                    },
                    Parse::Fails(e, q) => Parse::Fails(e, q),
                },
                Parse::Fails(e, q) => Parse::Fails(e, q),
            },
            Parse::Fails(e, q) => Parse::Fails(e, q),
        },
        Parse::Fails(e, q) => Parse::Fails(e, q),
    }
}

impl XdrDeserialize for LayoutGetArgs {
    open spec fn spec_parse(data: Seq<u8>, pos: int) -> Parse<SpecLayoutGetArgs> {
        spec_parse_layout_get_args(data, pos)
    }

    fn deserialize(src: &mut XdrReader) -> (r: Result<LayoutGetArgs, XdrError>) {
        proof {
            reveal(spec_parse_layout_get_args);
        }
        let v0 = match <bool as XdrDeserialize>::deserialize(src) {
            Ok(x) => x,
            Err(e) => return Err(e),
        };
        let v1 = match <NfsLayoutType as XdrDeserialize>::deserialize(src) {
            Ok(x) => x,
            Err(e) => return Err(e),
        };
        let v2 = match <LayoutIoMode as XdrDeserialize>::deserialize(src) {
            Ok(x) => x,
            Err(e) => return Err(e),
        };
        let v3 = match <Offset as XdrDeserialize>::deserialize(src) {
            Ok(x) => x,
            Err(e) => return Err(e),
        };
        let v4 = match <Length as XdrDeserialize>::deserialize(src) {
            Ok(x) => x,
            Err(e) => return Err(e),
        };
        let v5 = match <Length as XdrDeserialize>::deserialize(src) {
            Ok(x) => x,
            Err(e) => return Err(e),
        };
        let v6 = match <StateId as XdrDeserialize>::deserialize(src) {
            Ok(x) => x,
            Err(e) => return Err(e),
        };
        let v7 = match <Count as XdrDeserialize>::deserialize(src) {
            Ok(x) => x,
            Err(e) => return Err(e),
        };
        Ok(LayoutGetArgs { signal_layout_available: v0, layout_type: v1, io_mode: v2, offset: v3, length: v4, min_length: v5, state_id: v6, max_count: v7 })
    }
}

/// What a successful `LAYOUTGET` answers.
#[derive(Debug)]
pub struct LayoutGetOk {
    return_on_close: bool,
    state_id: StateId,
    layout: Vec<Layout>,
}

/// The deep view of [`LayoutGetOk`].
pub struct SpecLayoutGetOk {
    pub return_on_close: bool,
    pub state_id: SpecStateId,
    pub layout: Seq<SpecLayout>,
}

impl DeepView for LayoutGetOk {
    type V = SpecLayoutGetOk;

    closed spec fn deep_view(&self) -> SpecLayoutGetOk {
        SpecLayoutGetOk { return_on_close: self.return_on_close.deep_view(), state_id: self.state_id.deep_view(), layout: self.layout.deep_view() }
    }
}

impl XdrSerialize for LayoutGetOk {
    open spec fn spec_emit(v: SpecLayoutGetOk) -> Emit {
        <bool as XdrSerialize>::spec_emit(v.return_on_close).and_then(<StateId as XdrSerialize>::spec_emit(v.state_id)).and_then(spec_vec_emit::<Layout>(v.layout))
    }

    fn serialize(&self, dest: &mut Vec<u8>) -> (r: Result<(), XdrError>) {
        match self.return_on_close.serialize(dest) {
            Ok(()) => {},
            Err(e) => return Err(e),
        }
        match self.state_id.serialize(dest) {
            Ok(()) => {},
            Err(e) => return Err(e),
        }
        serialize_vec_of(dest, &self.layout)
    }
}

/// Reading a [`LayoutGetOk`]: each field in turn.
#[verifier::opaque]
pub open spec fn spec_parse_layout_get_ok(data: Seq<u8>, pos: int) -> Parse<SpecLayoutGetOk> {
    match <bool as XdrDeserialize>::spec_parse(data, pos) {
        Parse::Done(v0, p1) => match <StateId as XdrDeserialize>::spec_parse(data, p1) {
            Parse::Done(v1, p2) => match spec_vec_parse::<Layout>(data, p2) {
                Parse::Done(v2, p3) => Parse::Done(SpecLayoutGetOk { return_on_close: v0, state_id: v1, layout: v2 }, p3),
                Parse::Fails(e, q) => Parse::Fails(e, q),
            },
            Parse::Fails(e, q) => Parse::Fails(e, q),
        },
        Parse::Fails(e, q) => Parse::Fails(e, q),
    }
}

impl XdrDeserialize for LayoutGetOk {
    open spec fn spec_parse(data: Seq<u8>, pos: int) -> Parse<SpecLayoutGetOk> {
        spec_parse_layout_get_ok(data, pos)
    }

    fn deserialize(src: &mut XdrReader) -> (r: Result<LayoutGetOk, XdrError>) {
        proof {
            reveal(spec_parse_layout_get_ok);
        }
        let v0 = match <bool as XdrDeserialize>::deserialize(src) {
            Ok(x) => x,
            Err(e) => return Err(e),
        };
        let v1 = match <StateId as XdrDeserialize>::deserialize(src) {
            Ok(x) => x,
            Err(e) => return Err(e),
        };
        let v2 = match deserialize_vec::<Layout>(src) {
            Ok(x) => x,
            Err(e) => return Err(e),
        };
        Ok(LayoutGetOk { return_on_close: v0, state_id: v1, layout: v2 })
    }
}

impl AsNfsStatus for LayoutGetOk {
    open spec fn spec_status(&self) -> NfsStatus {
        NfsStatus::Success
    }

    open spec fn spec_has_body(&self) -> bool {
        true
    }

    fn as_status(&self) -> (s: NfsStatus) {
        NfsStatus::Success
    }

    fn has_body(&self) -> (b: bool) {
        true
    }
}

/// What `LAYOUTGET` answers: the layout, or whether the server will signal
/// when to try again.
#[derive(Debug)]
pub enum LayoutGetReturn {
    Success(LayoutGetOk),
    TryLater(bool),
}

/// The deep view of [`LayoutGetReturn`].
pub enum SpecLayoutGetReturn {
    Success(SpecLayoutGetOk),
    TryLater(bool),
}

impl DeepView for LayoutGetReturn {
    type V = SpecLayoutGetReturn;

    open spec fn deep_view(&self) -> SpecLayoutGetReturn {
        match self {
            LayoutGetReturn::Success(x) => SpecLayoutGetReturn::Success(x.deep_view()),
            LayoutGetReturn::TryLater(x) => SpecLayoutGetReturn::TryLater(x.deep_view()),
        }
    }
}

impl XdrSerialize for LayoutGetReturn {
    open spec fn spec_emit(v: SpecLayoutGetReturn) -> Emit {
        match v {
            SpecLayoutGetReturn::Success(x) => <LayoutGetOk as XdrSerialize>::spec_emit(x),
            SpecLayoutGetReturn::TryLater(x) => <bool as XdrSerialize>::spec_emit(x),
        }
    }

    fn serialize(&self, dest: &mut Vec<u8>) -> (r: Result<(), XdrError>) {
        match self {
            LayoutGetReturn::Success(x) => {
                x.serialize(dest)
            },
            LayoutGetReturn::TryLater(x) => {
                x.serialize(dest)
            },
        }
    }
}

impl AsNfsStatus for LayoutGetReturn {
    open spec fn spec_status(&self) -> NfsStatus {
        match self {
            LayoutGetReturn::Success(_) => NfsStatus::Success,
            LayoutGetReturn::TryLater(_) => NfsStatus::LayoutTryLater,
        }
    }

    open spec fn spec_has_body(&self) -> bool {
        true
    }

    fn as_status(&self) -> (s: NfsStatus) {
        match self {
            LayoutGetReturn::Success(_) => NfsStatus::Success,
            LayoutGetReturn::TryLater(_) => NfsStatus::LayoutTryLater,
        }
    }

    fn has_body(&self) -> (b: bool) {
        true
    }
}

/// What `LAYOUTGET` answers: its result, or the status it failed with.
pub type LayoutGetResult = Result<LayoutGetReturn, NfsStatus>;

/// The arguments of `LAYOUTRETURN`.
#[derive(Debug)]
pub struct LayoutReturnArgs {
    reclaim: bool,
    layout_type: NfsLayoutType,
    io_mode: LayoutIoMode,
    layout_return: LayoutReturn,
}

/// The deep view of [`LayoutReturnArgs`].
pub struct SpecLayoutReturnArgs {
    pub reclaim: bool,
    pub layout_type: NfsLayoutType,
    pub io_mode: LayoutIoMode,
    pub layout_return: SpecLayoutReturn,
}

impl DeepView for LayoutReturnArgs {
    type V = SpecLayoutReturnArgs;

    closed spec fn deep_view(&self) -> SpecLayoutReturnArgs {
        SpecLayoutReturnArgs { reclaim: self.reclaim.deep_view(), layout_type: self.layout_type.deep_view(), io_mode: self.io_mode.deep_view(), layout_return: self.layout_return.deep_view() }
    }
}

impl XdrSerialize for LayoutReturnArgs {
    open spec fn spec_emit(v: SpecLayoutReturnArgs) -> Emit {
        <bool as XdrSerialize>::spec_emit(v.reclaim).and_then(<NfsLayoutType as XdrSerialize>::spec_emit(v.layout_type)).and_then(<LayoutIoMode as XdrSerialize>::spec_emit(v.io_mode)).and_then(<LayoutReturn as XdrSerialize>::spec_emit(v.layout_return))
    }

    fn serialize(&self, dest: &mut Vec<u8>) -> (r: Result<(), XdrError>) {
        match self.reclaim.serialize(dest) {
            Ok(()) => {},
            Err(e) => return Err(e),
        }
        match self.layout_type.serialize(dest) {
            Ok(()) => {},
            Err(e) => return Err(e),
        }
        match self.io_mode.serialize(dest) {
            Ok(()) => {},
            Err(e) => return Err(e),
        }
        self.layout_return.serialize(dest)
    }
}

/// Reading a [`LayoutReturnArgs`]: each field in turn.
#[verifier::opaque]
pub open spec fn spec_parse_layout_return_args(data: Seq<u8>, pos: int) -> Parse<SpecLayoutReturnArgs> {
    match <bool as XdrDeserialize>::spec_parse(data, pos) {
        Parse::Done(v0, p1) => match <NfsLayoutType as XdrDeserialize>::spec_parse(data, p1) {
            Parse::Done(v1, p2) => match <LayoutIoMode as XdrDeserialize>::spec_parse(data, p2) {
                Parse::Done(v2, p3) => match <LayoutReturn as XdrDeserialize>::spec_parse(data, p3) {
                    Parse::Done(v3, p4) => Parse::Done(SpecLayoutReturnArgs { reclaim: v0, layout_type: v1, io_mode: v2, layout_return: v3 }, p4),
                    Parse::Fails(e, q) => Parse::Fails(e, q),
                },
                Parse::Fails(e, q) => Parse::Fails(e, q),
            },
            Parse::Fails(e, q) => Parse::Fails(e, q),
        },
        Parse::Fails(e, q) => Parse::Fails(e, q),
    }
}

impl XdrDeserialize for LayoutReturnArgs {
    open spec fn spec_parse(data: Seq<u8>, pos: int) -> Parse<SpecLayoutReturnArgs> {
        spec_parse_layout_return_args(data, pos)
    }

    fn deserialize(src: &mut XdrReader) -> (r: Result<LayoutReturnArgs, XdrError>) {
        proof {
            reveal(spec_parse_layout_return_args);
        }
        let v0 = match <bool as XdrDeserialize>::deserialize(src) {
            Ok(x) => x,
            Err(e) => return Err(e),
        };
        let v1 = match <NfsLayoutType as XdrDeserialize>::deserialize(src) {
            Ok(x) => x,
            Err(e) => return Err(e),
        };
        let v2 = match <LayoutIoMode as XdrDeserialize>::deserialize(src) {
            Ok(x) => x,
            Err(e) => return Err(e),
        };
        let v3 = match <LayoutReturn as XdrDeserialize>::deserialize(src) {
            Ok(x) => x,
            Err(e) => return Err(e),
        };
        Ok(LayoutReturnArgs { reclaim: v0, layout_type: v1, io_mode: v2, layout_return: v3 })
    }
}

/// What `LAYOUTRETURN` answers: a new state id, if there is one.
#[derive(Debug)]
pub enum LayoutReturnReturn {
    WithStateId(StateId),
    WithoutStateId,
}

/// The deep view of [`LayoutReturnReturn`].
pub enum SpecLayoutReturnReturn {
    WithStateId(SpecStateId),
    WithoutStateId,
}

impl DeepView for LayoutReturnReturn {
    type V = SpecLayoutReturnReturn;

    open spec fn deep_view(&self) -> SpecLayoutReturnReturn {
        match self {
            LayoutReturnReturn::WithStateId(x) => SpecLayoutReturnReturn::WithStateId(x.deep_view()),
            LayoutReturnReturn::WithoutStateId => SpecLayoutReturnReturn::WithoutStateId,
        }
    }
}

impl XdrSerialize for LayoutReturnReturn {
    open spec fn spec_emit(v: SpecLayoutReturnReturn) -> Emit {
        match v {
            SpecLayoutReturnReturn::WithStateId(x) => spec_u32_emit(spec_bool_word(true)).and_then(<StateId as XdrSerialize>::spec_emit(x)),
            SpecLayoutReturnReturn::WithoutStateId => spec_u32_emit(spec_bool_word(false)),
        }
    }

    fn serialize(&self, dest: &mut Vec<u8>) -> (r: Result<(), XdrError>) {
        match self {
            LayoutReturnReturn::WithStateId(x) => {
                match true.serialize(dest) {
                    Ok(()) => {},
                    Err(e) => return Err(e),
                }
                x.serialize(dest)
            },
            LayoutReturnReturn::WithoutStateId => false.serialize(dest),
        }
    }
}

/// Reading a [`LayoutReturnReturn`]: its tag, then what the tag calls for.
#[verifier::opaque]
pub open spec fn spec_parse_layout_return_return(data: Seq<u8>, pos: int) -> Parse<SpecLayoutReturnReturn> {
        match <bool as XdrDeserialize>::spec_parse(data, pos) {
            Parse::Done(t, p) => if t {
                match <StateId as XdrDeserialize>::spec_parse(data, p) {
                    Parse::Done(x, q) => Parse::Done(SpecLayoutReturnReturn::WithStateId(x), q),
                    Parse::Fails(e, q) => Parse::Fails(e, q),
                }
            } else {
                Parse::Done(SpecLayoutReturnReturn::WithoutStateId, p)
            },
            Parse::Fails(e, p) => Parse::Fails(e, p),
        }
}

impl XdrDeserialize for LayoutReturnReturn {
    open spec fn spec_parse(data: Seq<u8>, pos: int) -> Parse<SpecLayoutReturnReturn> {
        spec_parse_layout_return_return(data, pos)
    }

    fn deserialize(src: &mut XdrReader) -> (r: Result<LayoutReturnReturn, XdrError>) {
        proof {
            reveal(spec_parse_layout_return_return);
        }
        let t = match bool::deserialize(src) {
            Ok(t) => t,
            Err(e) => return Err(e),
        };
        if t {
            match <StateId as XdrDeserialize>::deserialize(src) {
                Ok(x) => Ok(LayoutReturnReturn::WithStateId(x)),
                Err(e) => Err(e),
            }
        } else {
            Ok(LayoutReturnReturn::WithoutStateId)
        }
    }
}

impl AsNfsStatus for LayoutReturnReturn {
    open spec fn spec_status(&self) -> NfsStatus {
        NfsStatus::Success
    }

    open spec fn spec_has_body(&self) -> bool {
        true
    }

    fn as_status(&self) -> (s: NfsStatus) {
        NfsStatus::Success
    }

    fn has_body(&self) -> (b: bool) {
        true
    }
}

/// What `LAYOUTRETURN` answers: its result, or the status it failed with.
pub type LayoutReturnResult = Result<LayoutReturnReturn, NfsStatus>;

#[derive(Clone, Copy, Debug, PartialEq, Eq, Structural)]
pub enum SecurityInfoNoNameStyle {
    CurrentFh,
    Parent,
}

impl DeepView for SecurityInfoNoNameStyle {
    type V = SecurityInfoNoNameStyle;

    open spec fn deep_view(&self) -> SecurityInfoNoNameStyle {
        *self
    }
}

impl SecurityInfoNoNameStyle {
    /// The number that stands for the value.
    pub open spec fn spec_to_u32(self) -> u32 {
        match self {
            SecurityInfoNoNameStyle::CurrentFh => 0,
            SecurityInfoNoNameStyle::Parent => 1,
        }
    }

    /// The value that a number stands for, if any.
    pub open spec fn spec_from_u32(n: u32) -> Option<SecurityInfoNoNameStyle> {
        if n == 0 {
            Some(SecurityInfoNoNameStyle::CurrentFh)
        } else if n == 1 {
            Some(SecurityInfoNoNameStyle::Parent)
        } else {
            None
        }
    }

    /// The number that stands for the value.
    pub fn to_u32(&self) -> (n: u32)
        ensures
            n == self.spec_to_u32(),
    {
        match self {
            SecurityInfoNoNameStyle::CurrentFh => 0,
            SecurityInfoNoNameStyle::Parent => 1,
        }
    }

    /// The value that `n` stands for, if any.
    pub fn from_u32(n: u32) -> (r: Option<SecurityInfoNoNameStyle>)
        ensures
            r == SecurityInfoNoNameStyle::spec_from_u32(n),
    {
        match n {
            0 => Some(SecurityInfoNoNameStyle::CurrentFh),
            1 => Some(SecurityInfoNoNameStyle::Parent),
            _ => None,
        }
    }
}

impl XdrSerialize for SecurityInfoNoNameStyle {
    /// The number, as a `u32`.
    open spec fn spec_emit(v: SecurityInfoNoNameStyle) -> Emit {
        spec_u32_emit(v.spec_to_u32())
    }

    fn serialize(&self, dest: &mut Vec<u8>) -> (r: Result<(), XdrError>) {
        let n: u32 = self.to_u32();
        let r = n.serialize(dest);
        assert(Self::spec_emit(self.deep_view()) == spec_u32_emit(n));
        r
    }
}

impl XdrDeserialize for SecurityInfoNoNameStyle {
    /// A number that stands for no value is invalid data.
    open spec fn spec_parse(data: Seq<u8>, pos: int) -> Parse<SecurityInfoNoNameStyle> {
        match spec_u32_parse(data, pos) {
            Parse::Done(n, p) => match SecurityInfoNoNameStyle::spec_from_u32(n) {
                Some(x) => Parse::Done(x, p),
                None => Parse::Fails(XdrError::InvalidData, p),
            },
            Parse::Fails(e, p) => Parse::Fails(e, p),
        }
    }

    fn deserialize(src: &mut XdrReader) -> (r: Result<SecurityInfoNoNameStyle, XdrError>) {
        let n = match u32::deserialize(src) {
            Ok(n) => n,
            Err(e) => return Err(e),
        };
        match SecurityInfoNoNameStyle::from_u32(n) {
            Some(x) => Ok(x),
            None => Err(XdrError::InvalidData),
        }
    }
}

/// The arguments of `SECINFO_NO_NAME`.
pub type SecurityInfoNoNameArgs = SecurityInfoNoNameStyle;

/// What `SECINFO_NO_NAME` answers: its result, or the status it failed with.
pub type SecurityInfoNoNameResult = SecurityInfoResult;

/// The arguments of `SEQUENCE`.
#[derive(Debug)]
pub struct SequenceArgs {
    pub session_id: SessionId,
    pub sequence_id: SequenceId,
    pub slot_id: SlotId,
    pub highest_slot_id: SlotId,
    pub cache_this: bool,
}

/// The deep view of [`SequenceArgs`].
pub struct SpecSequenceArgs {
    pub session_id: Seq<u8>,
    pub sequence_id: u32,
    pub slot_id: u32,
    pub highest_slot_id: u32,
    pub cache_this: bool,
}

impl DeepView for SequenceArgs {
    type V = SpecSequenceArgs;

    open spec fn deep_view(&self) -> SpecSequenceArgs {
        SpecSequenceArgs { session_id: self.session_id.deep_view(), sequence_id: self.sequence_id.deep_view(), slot_id: self.slot_id.deep_view(), highest_slot_id: self.highest_slot_id.deep_view(), cache_this: self.cache_this.deep_view() }
    }
}

impl XdrSerialize for SequenceArgs {
    open spec fn spec_emit(v: SpecSequenceArgs) -> Emit {
        <SessionId as XdrSerialize>::spec_emit(v.session_id).and_then(<SequenceId as XdrSerialize>::spec_emit(v.sequence_id)).and_then(<SlotId as XdrSerialize>::spec_emit(v.slot_id)).and_then(<SlotId as XdrSerialize>::spec_emit(v.highest_slot_id)).and_then(<bool as XdrSerialize>::spec_emit(v.cache_this))
    }

    #[verifier::spinoff_prover]
    #[verifier::rlimit(40)]
    fn serialize(&self, dest: &mut Vec<u8>) -> (r: Result<(), XdrError>) {
        match self.session_id.serialize(dest) {
            Ok(()) => {},
            Err(e) => return Err(e),
        }
        match self.sequence_id.serialize(dest) {
            Ok(()) => {},
            Err(e) => return Err(e),
        }
        match self.slot_id.serialize(dest) {
            Ok(()) => {},
            Err(e) => return Err(e),
        }
        match self.highest_slot_id.serialize(dest) {
            Ok(()) => {},
            Err(e) => return Err(e),
        }
        self.cache_this.serialize(dest)
    }
}

/// Reading a [`SequenceArgs`]: each field in turn.
#[verifier::opaque]
pub open spec fn spec_parse_sequence_args(data: Seq<u8>, pos: int) -> Parse<SpecSequenceArgs> {
    match <SessionId as XdrDeserialize>::spec_parse(data, pos) {
        Parse::Done(v0, p1) => match <SequenceId as XdrDeserialize>::spec_parse(data, p1) {
            Parse::Done(v1, p2) => match <SlotId as XdrDeserialize>::spec_parse(data, p2) {
                Parse::Done(v2, p3) => match <SlotId as XdrDeserialize>::spec_parse(data, p3) {
                    Parse::Done(v3, p4) => match <bool as XdrDeserialize>::spec_parse(data, p4) {
                        Parse::Done(v4, p5) => Parse::Done(SpecSequenceArgs { session_id: v0, sequence_id: v1, slot_id: v2, highest_slot_id: v3, cache_this: v4 }, p5),
                        Parse::Fails(e, q) => Parse::Fails(e, q),
                    },
                    Parse::Fails(e, q) => Parse::Fails(e, q),
                },
                Parse::Fails(e, q) => Parse::Fails(e, q),
            },
            Parse::Fails(e, q) => Parse::Fails(e, q),
        },
        Parse::Fails(e, q) => Parse::Fails(e, q),
    }
}

impl XdrDeserialize for SequenceArgs {
    open spec fn spec_parse(data: Seq<u8>, pos: int) -> Parse<SpecSequenceArgs> {
        spec_parse_sequence_args(data, pos)
    }

    fn deserialize(src: &mut XdrReader) -> (r: Result<SequenceArgs, XdrError>) {
        proof {
            reveal(spec_parse_sequence_args);
        }
        let v0 = match <SessionId as XdrDeserialize>::deserialize(src) {
            Ok(x) => x,
            Err(e) => return Err(e),
        };
        let v1 = match <SequenceId as XdrDeserialize>::deserialize(src) {
            Ok(x) => x,
            Err(e) => return Err(e),
        };
        let v2 = match <SlotId as XdrDeserialize>::deserialize(src) {
            Ok(x) => x,
            Err(e) => return Err(e),
        };
        let v3 = match <SlotId as XdrDeserialize>::deserialize(src) {
            Ok(x) => x,
            Err(e) => return Err(e),
        };
        let v4 = match <bool as XdrDeserialize>::deserialize(src) {
            Ok(x) => x,
            Err(e) => return Err(e),
        };
        Ok(SequenceArgs { session_id: v0, sequence_id: v1, slot_id: v2, highest_slot_id: v3, cache_this: v4 })
    }
}

/// What a successful `SEQUENCE` answers.
#[derive(Debug)]
pub struct SequenceOk {
    pub session_id: SessionId,
    pub sequence_id: SequenceId,
    pub slot_id: SlotId,
    pub highest_slot_id: SlotId,
    pub target_highest_slot_id: SlotId,
    pub status_flags: u32,
}

/// The deep view of [`SequenceOk`].
pub struct SpecSequenceOk {
    pub session_id: Seq<u8>,
    pub sequence_id: u32,
    pub slot_id: u32,
    pub highest_slot_id: u32,
    pub target_highest_slot_id: u32,
    pub status_flags: u32,
}

impl DeepView for SequenceOk {
    type V = SpecSequenceOk;

    open spec fn deep_view(&self) -> SpecSequenceOk {
        SpecSequenceOk { session_id: self.session_id.deep_view(), sequence_id: self.sequence_id.deep_view(), slot_id: self.slot_id.deep_view(), highest_slot_id: self.highest_slot_id.deep_view(), target_highest_slot_id: self.target_highest_slot_id.deep_view(), status_flags: self.status_flags.deep_view() }
    }
}

impl XdrSerialize for SequenceOk {
    open spec fn spec_emit(v: SpecSequenceOk) -> Emit {
        <SessionId as XdrSerialize>::spec_emit(v.session_id).and_then(<SequenceId as XdrSerialize>::spec_emit(v.sequence_id)).and_then(<SlotId as XdrSerialize>::spec_emit(v.slot_id)).and_then(<SlotId as XdrSerialize>::spec_emit(v.highest_slot_id)).and_then(<SlotId as XdrSerialize>::spec_emit(v.target_highest_slot_id)).and_then(<u32 as XdrSerialize>::spec_emit(v.status_flags))
    }

    #[verifier::spinoff_prover]
    #[verifier::rlimit(40)]
    fn serialize(&self, dest: &mut Vec<u8>) -> (r: Result<(), XdrError>) {
        match self.session_id.serialize(dest) {
            Ok(()) => {},
            Err(e) => return Err(e),
        }
        match self.sequence_id.serialize(dest) {
            Ok(()) => {},
            Err(e) => return Err(e),
        }
        match self.slot_id.serialize(dest) {
            Ok(()) => {},
            Err(e) => return Err(e),
        }
        match self.highest_slot_id.serialize(dest) {
            Ok(()) => {},
            Err(e) => return Err(e),
        }
        match self.target_highest_slot_id.serialize(dest) {
            Ok(()) => {},
            Err(e) => return Err(e),
        }
        self.status_flags.serialize(dest)
    }
}

/// Reading a [`SequenceOk`]: each field in turn.
#[verifier::opaque]
pub open spec fn spec_parse_sequence_ok(data: Seq<u8>, pos: int) -> Parse<SpecSequenceOk> {
    match <SessionId as XdrDeserialize>::spec_parse(data, pos) {
        Parse::Done(v0, p1) => match <SequenceId as XdrDeserialize>::spec_parse(data, p1) {
            Parse::Done(v1, p2) => match <SlotId as XdrDeserialize>::spec_parse(data, p2) {
                Parse::Done(v2, p3) => match <SlotId as XdrDeserialize>::spec_parse(data, p3) {
                    Parse::Done(v3, p4) => match <SlotId as XdrDeserialize>::spec_parse(data, p4) {
                        Parse::Done(v4, p5) => match <u32 as XdrDeserialize>::spec_parse(data, p5) {
                            Parse::Done(v5, p6) => Parse::Done(SpecSequenceOk { session_id: v0, sequence_id: v1, slot_id: v2, highest_slot_id: v3, target_highest_slot_id: v4, status_flags: v5 }, p6),
                            Parse::Fails(e, q) => Parse::Fails(e, q),
                        },
                        Parse::Fails(e, q) => Parse::Fails(e, q),
                    },
                    Parse::Fails(e, q) => Parse::Fails(e, q),
                },
                Parse::Fails(e, q) => Parse::Fails(e, q),
            },
            Parse::Fails(e, q) => Parse::Fails(e, q),
        },
        Parse::Fails(e, q) => Parse::Fails(e, q),
    }
}

impl XdrDeserialize for SequenceOk {
    open spec fn spec_parse(data: Seq<u8>, pos: int) -> Parse<SpecSequenceOk> {
        spec_parse_sequence_ok(data, pos)
    }

    fn deserialize(src: &mut XdrReader) -> (r: Result<SequenceOk, XdrError>) {
        proof {
            reveal(spec_parse_sequence_ok);
        }
        let v0 = match <SessionId as XdrDeserialize>::deserialize(src) {
            Ok(x) => x,
            Err(e) => return Err(e),
        };
        let v1 = match <SequenceId as XdrDeserialize>::deserialize(src) {
            Ok(x) => x,
            Err(e) => return Err(e),
        };
        let v2 = match <SlotId as XdrDeserialize>::deserialize(src) {
            Ok(x) => x,
            Err(e) => return Err(e),
        };
        let v3 = match <SlotId as XdrDeserialize>::deserialize(src) {
            Ok(x) => x,
            Err(e) => return Err(e),
        };
        let v4 = match <SlotId as XdrDeserialize>::deserialize(src) {
            Ok(x) => x,
            Err(e) => return Err(e),
        };
        let v5 = match <u32 as XdrDeserialize>::deserialize(src) {
            Ok(x) => x,
            Err(e) => return Err(e),
        };
        Ok(SequenceOk { session_id: v0, sequence_id: v1, slot_id: v2, highest_slot_id: v3, target_highest_slot_id: v4, status_flags: v5 })
    }
}

impl AsNfsStatus for SequenceOk {
    open spec fn spec_status(&self) -> NfsStatus {
        NfsStatus::Success
    }

    open spec fn spec_has_body(&self) -> bool {
        true
    }

    fn as_status(&self) -> (s: NfsStatus) {
        NfsStatus::Success
    }

    fn has_body(&self) -> (b: bool) {
        true
    }
}

/// What `SEQUENCE` answers: its result, or the status it failed with.
pub type SequenceResult = Result<SequenceOk, NfsStatus>;

pub struct SsaDigestInput {
    sequence_args: SequenceArgs,
}

/// The deep view of [`SsaDigestInput`].
pub struct SpecSsaDigestInput {
    pub sequence_args: SpecSequenceArgs,
}

impl DeepView for SsaDigestInput {
    type V = SpecSsaDigestInput;

    closed spec fn deep_view(&self) -> SpecSsaDigestInput {
        SpecSsaDigestInput { sequence_args: self.sequence_args.deep_view() }
    }
}

impl XdrSerialize for SsaDigestInput {
    open spec fn spec_emit(v: SpecSsaDigestInput) -> Emit {
        <SequenceArgs as XdrSerialize>::spec_emit(v.sequence_args)
    }

    fn serialize(&self, dest: &mut Vec<u8>) -> (r: Result<(), XdrError>) {
        self.sequence_args.serialize(dest)
    }
}

/// Reading a [`SsaDigestInput`]: each field in turn.
#[verifier::opaque]
pub open spec fn spec_parse_ssa_digest_input(data: Seq<u8>, pos: int) -> Parse<SpecSsaDigestInput> {
    match <SequenceArgs as XdrDeserialize>::spec_parse(data, pos) {
        Parse::Done(v0, p1) => Parse::Done(SpecSsaDigestInput { sequence_args: v0 }, p1),
        Parse::Fails(e, q) => Parse::Fails(e, q),
    }
}

impl XdrDeserialize for SsaDigestInput {
    open spec fn spec_parse(data: Seq<u8>, pos: int) -> Parse<SpecSsaDigestInput> {
        spec_parse_ssa_digest_input(data, pos)
    }

    fn deserialize(src: &mut XdrReader) -> (r: Result<SsaDigestInput, XdrError>) {
        proof {
            reveal(spec_parse_ssa_digest_input);
        }
        let v0 = match <SequenceArgs as XdrDeserialize>::deserialize(src) {
            Ok(x) => x,
            Err(e) => return Err(e),
        };
        Ok(SsaDigestInput { sequence_args: v0 })
    }
}

/// The arguments of `SET_SSV`.
#[derive(Debug)]
pub struct SetSsvArgs {
    ssv: XdrOpaque,
    digest: XdrOpaque,
}

/// The deep view of [`SetSsvArgs`].
pub struct SpecSetSsvArgs {
    pub ssv: Seq<u8>,
    pub digest: Seq<u8>,
}

impl DeepView for SetSsvArgs {
    type V = SpecSetSsvArgs;

    closed spec fn deep_view(&self) -> SpecSetSsvArgs {
        SpecSetSsvArgs { ssv: self.ssv.deep_view(), digest: self.digest.deep_view() }
    }
}

impl XdrSerialize for SetSsvArgs {
    open spec fn spec_emit(v: SpecSetSsvArgs) -> Emit {
        <XdrOpaque as XdrSerialize>::spec_emit(v.ssv).and_then(<XdrOpaque as XdrSerialize>::spec_emit(v.digest))
    }

    fn serialize(&self, dest: &mut Vec<u8>) -> (r: Result<(), XdrError>) {
        match self.ssv.serialize(dest) {
            Ok(()) => {},
            Err(e) => return Err(e),
        }
        self.digest.serialize(dest)
    }
}

/// Reading a [`SetSsvArgs`]: each field in turn.
#[verifier::opaque]
pub open spec fn spec_parse_set_ssv_args(data: Seq<u8>, pos: int) -> Parse<SpecSetSsvArgs> {
    match <XdrOpaque as XdrDeserialize>::spec_parse(data, pos) {
        Parse::Done(v0, p1) => match <XdrOpaque as XdrDeserialize>::spec_parse(data, p1) {
            Parse::Done(v1, p2) => Parse::Done(SpecSetSsvArgs { ssv: v0, digest: v1 }, p2),
            Parse::Fails(e, q) => Parse::Fails(e, q),
        },
        Parse::Fails(e, q) => Parse::Fails(e, q),
    }
}

impl XdrDeserialize for SetSsvArgs {
    open spec fn spec_parse(data: Seq<u8>, pos: int) -> Parse<SpecSetSsvArgs> {
        spec_parse_set_ssv_args(data, pos)
    }

    fn deserialize(src: &mut XdrReader) -> (r: Result<SetSsvArgs, XdrError>) {
        proof {
            reveal(spec_parse_set_ssv_args);
        }
        let v0 = match <XdrOpaque as XdrDeserialize>::deserialize(src) {
            Ok(x) => x,
            Err(e) => return Err(e),
        };
        let v1 = match <XdrOpaque as XdrDeserialize>::deserialize(src) {
            Ok(x) => x,
            Err(e) => return Err(e),
        };
        Ok(SetSsvArgs { ssv: v0, digest: v1 })
    }
}

pub struct SsrDigestInput {
    sequence_result: SequenceResult,
}

/// What a successful `SET_SSV` answers.
#[derive(Debug)]
pub struct SetSsvOk {
    digest: XdrOpaque,
}

/// The deep view of [`SetSsvOk`].
pub struct SpecSetSsvOk {
    pub digest: Seq<u8>,
}

impl DeepView for SetSsvOk {
    type V = SpecSetSsvOk;

    closed spec fn deep_view(&self) -> SpecSetSsvOk {
        SpecSetSsvOk { digest: self.digest.deep_view() }
    }
}

impl XdrSerialize for SetSsvOk {
    open spec fn spec_emit(v: SpecSetSsvOk) -> Emit {
        <XdrOpaque as XdrSerialize>::spec_emit(v.digest)
    }

    fn serialize(&self, dest: &mut Vec<u8>) -> (r: Result<(), XdrError>) {
        self.digest.serialize(dest)
    }
}

/// Reading a [`SetSsvOk`]: each field in turn.
#[verifier::opaque]
pub open spec fn spec_parse_set_ssv_ok(data: Seq<u8>, pos: int) -> Parse<SpecSetSsvOk> {
    match <XdrOpaque as XdrDeserialize>::spec_parse(data, pos) {
        Parse::Done(v0, p1) => Parse::Done(SpecSetSsvOk { digest: v0 }, p1),
        Parse::Fails(e, q) => Parse::Fails(e, q),
    }
}

impl XdrDeserialize for SetSsvOk {
    open spec fn spec_parse(data: Seq<u8>, pos: int) -> Parse<SpecSetSsvOk> {
        spec_parse_set_ssv_ok(data, pos)
    }

    fn deserialize(src: &mut XdrReader) -> (r: Result<SetSsvOk, XdrError>) {
        proof {
            reveal(spec_parse_set_ssv_ok);
        }
        let v0 = match <XdrOpaque as XdrDeserialize>::deserialize(src) {
            Ok(x) => x,
            Err(e) => return Err(e),
        };
        Ok(SetSsvOk { digest: v0 })
    }
}

impl AsNfsStatus for SetSsvOk {
    open spec fn spec_status(&self) -> NfsStatus {
        NfsStatus::Success
    }

    open spec fn spec_has_body(&self) -> bool {
        true
    }

    fn as_status(&self) -> (s: NfsStatus) {
        NfsStatus::Success
    }

    fn has_body(&self) -> (b: bool) {
        true
    }
}

/// What `SET_SSV` answers: its result, or the status it failed with.
pub type SetSsvResult = Result<SetSsvOk, NfsStatus>;

/// The arguments of `TEST_STATEID`.
#[derive(Debug)]
pub struct TestStateIdsArgs {
    state_ids: Vec<StateId>,
}

/// The deep view of [`TestStateIdsArgs`].
pub struct SpecTestStateIdsArgs {
    pub state_ids: Seq<SpecStateId>,
}

impl DeepView for TestStateIdsArgs {
    type V = SpecTestStateIdsArgs;

    closed spec fn deep_view(&self) -> SpecTestStateIdsArgs {
        SpecTestStateIdsArgs { state_ids: self.state_ids.deep_view() }
    }
}

impl XdrSerialize for TestStateIdsArgs {
    open spec fn spec_emit(v: SpecTestStateIdsArgs) -> Emit {
        spec_vec_emit::<StateId>(v.state_ids)
    }

    fn serialize(&self, dest: &mut Vec<u8>) -> (r: Result<(), XdrError>) {
        serialize_vec_of(dest, &self.state_ids)
    }
}

/// Reading a [`TestStateIdsArgs`]: each field in turn.
#[verifier::opaque]
pub open spec fn spec_parse_test_state_ids_args(data: Seq<u8>, pos: int) -> Parse<SpecTestStateIdsArgs> {
    match spec_vec_parse::<StateId>(data, pos) {
        Parse::Done(v0, p1) => Parse::Done(SpecTestStateIdsArgs { state_ids: v0 }, p1),
        Parse::Fails(e, q) => Parse::Fails(e, q),
    }
}

impl XdrDeserialize for TestStateIdsArgs {
    open spec fn spec_parse(data: Seq<u8>, pos: int) -> Parse<SpecTestStateIdsArgs> {
        spec_parse_test_state_ids_args(data, pos)
    }

    fn deserialize(src: &mut XdrReader) -> (r: Result<TestStateIdsArgs, XdrError>) {
        proof {
            reveal(spec_parse_test_state_ids_args);
        }
        let v0 = match deserialize_vec::<StateId>(src) {
            Ok(x) => x,
            Err(e) => return Err(e),
        };
        Ok(TestStateIdsArgs { state_ids: v0 })
    }
}

/// What a successful `TEST_STATEID` answers.
#[derive(Debug)]
pub struct TestStateIdsOk {
    state_ids: Vec<StateId>,
}

/// The deep view of [`TestStateIdsOk`].
pub struct SpecTestStateIdsOk {
    pub state_ids: Seq<SpecStateId>,
}

impl DeepView for TestStateIdsOk {
    type V = SpecTestStateIdsOk;

    closed spec fn deep_view(&self) -> SpecTestStateIdsOk {
        SpecTestStateIdsOk { state_ids: self.state_ids.deep_view() }
    }
}

impl XdrSerialize for TestStateIdsOk {
    open spec fn spec_emit(v: SpecTestStateIdsOk) -> Emit {
        spec_vec_emit::<StateId>(v.state_ids)
    }

    fn serialize(&self, dest: &mut Vec<u8>) -> (r: Result<(), XdrError>) {
        serialize_vec_of(dest, &self.state_ids)
    }
}

/// Reading a [`TestStateIdsOk`]: each field in turn.
#[verifier::opaque]
pub open spec fn spec_parse_test_state_ids_ok(data: Seq<u8>, pos: int) -> Parse<SpecTestStateIdsOk> {
    match spec_vec_parse::<StateId>(data, pos) {
        Parse::Done(v0, p1) => Parse::Done(SpecTestStateIdsOk { state_ids: v0 }, p1),
        Parse::Fails(e, q) => Parse::Fails(e, q),
    }
}

impl XdrDeserialize for TestStateIdsOk {
    open spec fn spec_parse(data: Seq<u8>, pos: int) -> Parse<SpecTestStateIdsOk> {
        spec_parse_test_state_ids_ok(data, pos)
    }

    fn deserialize(src: &mut XdrReader) -> (r: Result<TestStateIdsOk, XdrError>) {
        proof {
            reveal(spec_parse_test_state_ids_ok);
        }
        let v0 = match deserialize_vec::<StateId>(src) {
            Ok(x) => x,
            Err(e) => return Err(e),
        };
        Ok(TestStateIdsOk { state_ids: v0 })
    }
}

impl AsNfsStatus for TestStateIdsOk {
    open spec fn spec_status(&self) -> NfsStatus {
        NfsStatus::Success
    }

    open spec fn spec_has_body(&self) -> bool {
        true
    }

    fn as_status(&self) -> (s: NfsStatus) {
        NfsStatus::Success
    }

    fn has_body(&self) -> (b: bool) {
        true
    }
}

/// What `TEST_STATEID` answers: its result, or the status it failed with.
pub type TestStateIdsResult = Result<TestStateIdsOk, NfsStatus>;

/// The claim of a `WANT_DELEGATION` request.
#[derive(Debug)]
pub enum DelegationClaim {
    Previous(OpenDelegationType),
    CurrentFh,
    PreviousDelegateFh,
    /// A claim that `WANT_DELEGATION` does not take; writing it is an error.
    Invalid(OpenClaimType),
}

impl DeepView for DelegationClaim {
    type V = DelegationClaim;

    open spec fn deep_view(&self) -> DelegationClaim {
        match self {
            DelegationClaim::Previous(x) => DelegationClaim::Previous(x.deep_view()),
            DelegationClaim::CurrentFh => DelegationClaim::CurrentFh,
            DelegationClaim::PreviousDelegateFh => DelegationClaim::PreviousDelegateFh,
            DelegationClaim::Invalid(x) => DelegationClaim::Invalid(x.deep_view()),
        }
    }
}

impl XdrSerialize for DelegationClaim {
    open spec fn spec_emit(v: DelegationClaim) -> Emit {
        match v {
            DelegationClaim::Previous(x) => spec_u32_emit(OpenClaimType::Previous.spec_to_u32()).and_then(<OpenDelegationType as XdrSerialize>::spec_emit(x)),
            DelegationClaim::CurrentFh => spec_u32_emit(OpenClaimType::CurrentFh.spec_to_u32()),
            DelegationClaim::PreviousDelegateFh => spec_u32_emit(OpenClaimType::PreviousDelegateFh.spec_to_u32()),
            DelegationClaim::Invalid(_) => Emit::Fails(XdrError::Other, Seq::empty()),
        }
    }

    fn serialize(&self, dest: &mut Vec<u8>) -> (r: Result<(), XdrError>) {
        match self {
            DelegationClaim::Previous(x) => {
                match OpenClaimType::Previous.serialize(dest) {
                    Ok(()) => {},
                    Err(e) => return Err(e),
                }
                x.serialize(dest)
            },
            DelegationClaim::CurrentFh => OpenClaimType::CurrentFh.serialize(dest),
            DelegationClaim::PreviousDelegateFh => OpenClaimType::PreviousDelegateFh.serialize(dest),
            DelegationClaim::Invalid(_) => {
                assert(dest@ =~= old(dest)@ + Seq::<u8>::empty());
                Err(XdrError::Other)
            },
        }
    }
}

/// Reading a [`DelegationClaim`]: its tag, then what the tag calls for.
#[verifier::opaque]
pub open spec fn spec_parse_delegation_claim(data: Seq<u8>, pos: int) -> Parse<DelegationClaim> {
        match <OpenClaimType as XdrDeserialize>::spec_parse(data, pos) {
            Parse::Done(t, p) => match t {
                OpenClaimType::Previous => match <OpenDelegationType as XdrDeserialize>::spec_parse(data, p) {
                    Parse::Done(x, q) => Parse::Done(DelegationClaim::Previous(x), q),
                    Parse::Fails(e, q) => Parse::Fails(e, q),
                },
                OpenClaimType::CurrentFh => Parse::Done(DelegationClaim::CurrentFh, p),
                OpenClaimType::PreviousDelegateFh => Parse::Done(DelegationClaim::PreviousDelegateFh, p),
                OpenClaimType::Null | OpenClaimType::CurrentDelegate | OpenClaimType::PreviousDelegate | OpenClaimType::CurrentDelegateFh => Parse::Done(DelegationClaim::Invalid(t), p),
            },
            Parse::Fails(e, p) => Parse::Fails(e, p),
        }
}

impl XdrDeserialize for DelegationClaim {
    open spec fn spec_parse(data: Seq<u8>, pos: int) -> Parse<DelegationClaim> {
        spec_parse_delegation_claim(data, pos)
    }

    fn deserialize(src: &mut XdrReader) -> (r: Result<DelegationClaim, XdrError>) {
        proof {
            reveal(spec_parse_delegation_claim);
        }
        let t = match <OpenClaimType as XdrDeserialize>::deserialize(src) {
            Ok(t) => t,
            Err(e) => return Err(e),
        };
        match t {
            OpenClaimType::Previous => match <OpenDelegationType as XdrDeserialize>::deserialize(src) {
                Ok(x) => Ok(DelegationClaim::Previous(x)),
                Err(e) => Err(e),
            },
            OpenClaimType::CurrentFh => Ok(DelegationClaim::CurrentFh),
            OpenClaimType::PreviousDelegateFh => Ok(DelegationClaim::PreviousDelegateFh),
            OpenClaimType::Null | OpenClaimType::CurrentDelegate | OpenClaimType::PreviousDelegate | OpenClaimType::CurrentDelegateFh => Ok(DelegationClaim::Invalid(t)),
        }
    }
}

/// The arguments of `WANT_DELEGATION`.
#[derive(Debug)]
pub struct WantDelegationArgs {
    want: u32,
    claim: DelegationClaim,
}

/// The deep view of [`WantDelegationArgs`].
pub struct SpecWantDelegationArgs {
    pub want: u32,
    pub claim: DelegationClaim,
}

impl DeepView for WantDelegationArgs {
    type V = SpecWantDelegationArgs;

    closed spec fn deep_view(&self) -> SpecWantDelegationArgs {
        SpecWantDelegationArgs { want: self.want.deep_view(), claim: self.claim.deep_view() }
    }
}

impl XdrSerialize for WantDelegationArgs {
    open spec fn spec_emit(v: SpecWantDelegationArgs) -> Emit {
        <u32 as XdrSerialize>::spec_emit(v.want).and_then(<DelegationClaim as XdrSerialize>::spec_emit(v.claim))
    }

    fn serialize(&self, dest: &mut Vec<u8>) -> (r: Result<(), XdrError>) {
        match self.want.serialize(dest) {
            Ok(()) => {},
            Err(e) => return Err(e),
        }
        self.claim.serialize(dest)
    }
}

/// Reading a [`WantDelegationArgs`]: each field in turn.
#[verifier::opaque]
pub open spec fn spec_parse_want_delegation_args(data: Seq<u8>, pos: int) -> Parse<SpecWantDelegationArgs> {
    match <u32 as XdrDeserialize>::spec_parse(data, pos) {
        Parse::Done(v0, p1) => match <DelegationClaim as XdrDeserialize>::spec_parse(data, p1) {
            Parse::Done(v1, p2) => Parse::Done(SpecWantDelegationArgs { want: v0, claim: v1 }, p2),
            Parse::Fails(e, q) => Parse::Fails(e, q),
        },
        Parse::Fails(e, q) => Parse::Fails(e, q),
    }
}

impl XdrDeserialize for WantDelegationArgs {
    open spec fn spec_parse(data: Seq<u8>, pos: int) -> Parse<SpecWantDelegationArgs> {
        spec_parse_want_delegation_args(data, pos)
    }

    fn deserialize(src: &mut XdrReader) -> (r: Result<WantDelegationArgs, XdrError>) {
        proof {
            reveal(spec_parse_want_delegation_args);
        }
        let v0 = match <u32 as XdrDeserialize>::deserialize(src) {
            Ok(x) => x,
            Err(e) => return Err(e),
        };
        let v1 = match <DelegationClaim as XdrDeserialize>::deserialize(src) {
            Ok(x) => x,
            Err(e) => return Err(e),
        };
        Ok(WantDelegationArgs { want: v0, claim: v1 })
    }
}

/// What a successful `WANT_DELEGATION` answers.
#[derive(Debug)]
pub struct WantDelegationOk {
    open_delegation: OpenDelegation,
}

/// The deep view of [`WantDelegationOk`].
pub struct SpecWantDelegationOk {
    pub open_delegation: SpecOpenDelegation,
}

impl DeepView for WantDelegationOk {
    type V = SpecWantDelegationOk;

    closed spec fn deep_view(&self) -> SpecWantDelegationOk {
        SpecWantDelegationOk { open_delegation: self.open_delegation.deep_view() }
    }
}

impl XdrSerialize for WantDelegationOk {
    open spec fn spec_emit(v: SpecWantDelegationOk) -> Emit {
        <OpenDelegation as XdrSerialize>::spec_emit(v.open_delegation)
    }

    fn serialize(&self, dest: &mut Vec<u8>) -> (r: Result<(), XdrError>) {
        self.open_delegation.serialize(dest)
    }
}

/// Reading a [`WantDelegationOk`]: each field in turn.
#[verifier::opaque]
pub open spec fn spec_parse_want_delegation_ok(data: Seq<u8>, pos: int) -> Parse<SpecWantDelegationOk> {
    match <OpenDelegation as XdrDeserialize>::spec_parse(data, pos) {
        Parse::Done(v0, p1) => Parse::Done(SpecWantDelegationOk { open_delegation: v0 }, p1),
        Parse::Fails(e, q) => Parse::Fails(e, q),
    }
}

impl XdrDeserialize for WantDelegationOk {
    open spec fn spec_parse(data: Seq<u8>, pos: int) -> Parse<SpecWantDelegationOk> {
        spec_parse_want_delegation_ok(data, pos)
    }

    fn deserialize(src: &mut XdrReader) -> (r: Result<WantDelegationOk, XdrError>) {
        proof {
            reveal(spec_parse_want_delegation_ok);
        }
        let v0 = match <OpenDelegation as XdrDeserialize>::deserialize(src) {
            Ok(x) => x,
            Err(e) => return Err(e),
        };
        Ok(WantDelegationOk { open_delegation: v0 })
    }
}

impl AsNfsStatus for WantDelegationOk {
    open spec fn spec_status(&self) -> NfsStatus {
        NfsStatus::Success
    }

    open spec fn spec_has_body(&self) -> bool {
        true
    }

    fn as_status(&self) -> (s: NfsStatus) {
        NfsStatus::Success
    }

    fn has_body(&self) -> (b: bool) {
        true
    }
}

/// What `WANT_DELEGATION` answers: its result, or the status it failed with.
pub type WantDelegationResult = Result<WantDelegationOk, NfsStatus>;

/// The arguments of `DESTROY_CLIENTID`.
#[derive(Debug)]
pub struct DestroyClientIdArgs {
    pub client_id: ClientId,
}

impl DeepView for DestroyClientIdArgs {
    type V = DestroyClientIdArgs;

    open spec fn deep_view(&self) -> DestroyClientIdArgs {
        DestroyClientIdArgs { client_id: self.client_id.deep_view() }
    }
}

impl XdrSerialize for DestroyClientIdArgs {
    open spec fn spec_emit(v: DestroyClientIdArgs) -> Emit {
        <ClientId as XdrSerialize>::spec_emit(v.client_id)
    }

    fn serialize(&self, dest: &mut Vec<u8>) -> (r: Result<(), XdrError>) {
        self.client_id.serialize(dest)
    }
}

/// Reading a [`DestroyClientIdArgs`]: each field in turn.
#[verifier::opaque]
pub open spec fn spec_parse_destroy_client_id_args(data: Seq<u8>, pos: int) -> Parse<DestroyClientIdArgs> {
    match <ClientId as XdrDeserialize>::spec_parse(data, pos) {
        Parse::Done(v0, p1) => Parse::Done(DestroyClientIdArgs { client_id: v0 }, p1),
        Parse::Fails(e, q) => Parse::Fails(e, q),
    }
}

impl XdrDeserialize for DestroyClientIdArgs {
    open spec fn spec_parse(data: Seq<u8>, pos: int) -> Parse<DestroyClientIdArgs> {
        spec_parse_destroy_client_id_args(data, pos)
    }

    fn deserialize(src: &mut XdrReader) -> (r: Result<DestroyClientIdArgs, XdrError>) {
        proof {
            reveal(spec_parse_destroy_client_id_args);
        }
        let v0 = match <ClientId as XdrDeserialize>::deserialize(src) {
            Ok(x) => x,
            Err(e) => return Err(e),
        };
        Ok(DestroyClientIdArgs { client_id: v0 })
    }
}

/// What `DESTROY_CLIENTID` answers: its result, or the status it failed with.
pub type DestroyClientIdResult = Result<NfsStatus, NfsStatus>;

/// The arguments of `RECLAIM_COMPLETE`.
#[derive(Debug)]
pub struct ReclaimCompleteArgs {
    pub one_fs: bool,
}

impl DeepView for ReclaimCompleteArgs {
    type V = ReclaimCompleteArgs;

    open spec fn deep_view(&self) -> ReclaimCompleteArgs {
        ReclaimCompleteArgs { one_fs: self.one_fs.deep_view() }
    }
}

impl XdrSerialize for ReclaimCompleteArgs {
    open spec fn spec_emit(v: ReclaimCompleteArgs) -> Emit {
        <bool as XdrSerialize>::spec_emit(v.one_fs)
    }

    fn serialize(&self, dest: &mut Vec<u8>) -> (r: Result<(), XdrError>) {
        self.one_fs.serialize(dest)
    }
}

/// Reading a [`ReclaimCompleteArgs`]: each field in turn.
#[verifier::opaque]
pub open spec fn spec_parse_reclaim_complete_args(data: Seq<u8>, pos: int) -> Parse<ReclaimCompleteArgs> {
    match <bool as XdrDeserialize>::spec_parse(data, pos) {
        Parse::Done(v0, p1) => Parse::Done(ReclaimCompleteArgs { one_fs: v0 }, p1),
        Parse::Fails(e, q) => Parse::Fails(e, q),
    }
}

impl XdrDeserialize for ReclaimCompleteArgs {
    open spec fn spec_parse(data: Seq<u8>, pos: int) -> Parse<ReclaimCompleteArgs> {
        spec_parse_reclaim_complete_args(data, pos)
    }

    fn deserialize(src: &mut XdrReader) -> (r: Result<ReclaimCompleteArgs, XdrError>) {
        proof {
            reveal(spec_parse_reclaim_complete_args);
        }
        let v0 = match <bool as XdrDeserialize>::deserialize(src) {
            Ok(x) => x,
            Err(e) => return Err(e),
        };
        Ok(ReclaimCompleteArgs { one_fs: v0 })
    }
}

/// What `RECLAIM_COMPLETE` answers: its result, or the status it failed with.
pub type ReclaimCompleteResult = Result<NfsStatus, NfsStatus>;

// ---------------------------------------------------------------------------
// Reading back what was written
// ---------------------------------------------------------------------------

/// A [`NfsFileType`] reads back as itself.
pub proof fn lemma_nfs_file_type_roundtrips(v: NfsFileType)
    ensures
        spec_roundtrips::<NfsFileType>(v),
{
    lemma_u32_roundtrips(v.spec_to_u32());
    assert forall|data: Seq<u8>, pos: int|
        spec_at(data, pos, <NfsFileType as XdrSerialize>::spec_emit(v)->Done_0) implies #[trigger] <NfsFileType as XdrDeserialize>::spec_parse(
        data,
        pos,
    ) == Parse::Done(v, pos + <NfsFileType as XdrSerialize>::spec_emit(v)->Done_0.len()) by {
        assert(<u32 as XdrDeserialize>::spec_parse(data, pos) == Parse::Done(v.spec_to_u32(), pos + 4));
    }
}

/// A [`NfsExpirationPolicy`] reads back as itself.
pub proof fn lemma_nfs_expiration_policy_roundtrips(v: NfsExpirationPolicy)
    ensures
        spec_roundtrips::<NfsExpirationPolicy>(v),
{
    lemma_u32_roundtrips(v.spec_to_u32());
    assert forall|data: Seq<u8>, pos: int|
        spec_at(data, pos, <NfsExpirationPolicy as XdrSerialize>::spec_emit(v)->Done_0) implies #[trigger] <NfsExpirationPolicy as XdrDeserialize>::spec_parse(
        data,
        pos,
    ) == Parse::Done(v, pos + <NfsExpirationPolicy as XdrSerialize>::spec_emit(v)->Done_0.len()) by {
        assert(<u32 as XdrDeserialize>::spec_parse(data, pos) == Parse::Done(v.spec_to_u32(), pos + 4));
    }
}

/// A [`NfsFileSystemId`] whose fields each read back as themselves reads back as itself.
#[verifier::spinoff_prover]
#[verifier::rlimit(60)]
pub proof fn lemma_nfs_file_system_id_roundtrips(v: NfsFileSystemId)
    requires
        spec_roundtrips::<u64>(v.major),
        spec_roundtrips::<u64>(v.minor),
    ensures
        spec_roundtrips::<NfsFileSystemId>(v),
{
    let b0 = <u64 as XdrSerialize>::spec_emit(v.major)->Done_0;
    let b1 = <u64 as XdrSerialize>::spec_emit(v.minor)->Done_0;
    assert forall|data: Seq<u8>, pos: int|
        spec_at(data, pos, <NfsFileSystemId as XdrSerialize>::spec_emit(v)->Done_0) implies #[trigger] <NfsFileSystemId as XdrDeserialize>::spec_parse(
        data,
        pos,
    ) == Parse::Done(v, pos + <NfsFileSystemId as XdrSerialize>::spec_emit(v)->Done_0.len()) by {
        reveal(spec_parse_nfs_file_system_id);
        lemma_at_split(data, pos, b0, b1);
        assert(<u64 as XdrDeserialize>::spec_parse(data, pos) == Parse::Done(v.major, pos + b0.len()));
        assert(<u64 as XdrDeserialize>::spec_parse(data, pos + (b0).len()) == Parse::Done(v.minor, pos + (b0).len() + b1.len()));
    }
}

/// A [`NfsTime`] whose fields each read back as themselves reads back as itself.
#[verifier::spinoff_prover]
#[verifier::rlimit(60)]
pub proof fn lemma_nfs_time_roundtrips(v: NfsTime)
    requires
        spec_roundtrips::<i64>(v.seconds),
        spec_roundtrips::<u32>(v.nseconds),
    ensures
        spec_roundtrips::<NfsTime>(v),
{
    let b0 = <i64 as XdrSerialize>::spec_emit(v.seconds)->Done_0;
    let b1 = <u32 as XdrSerialize>::spec_emit(v.nseconds)->Done_0;
    assert forall|data: Seq<u8>, pos: int|
        spec_at(data, pos, <NfsTime as XdrSerialize>::spec_emit(v)->Done_0) implies #[trigger] <NfsTime as XdrDeserialize>::spec_parse(
        data,
        pos,
    ) == Parse::Done(v, pos + <NfsTime as XdrSerialize>::spec_emit(v)->Done_0.len()) by {
        reveal(spec_parse_nfs_time);
        lemma_at_split(data, pos, b0, b1);
        assert(<i64 as XdrDeserialize>::spec_parse(data, pos) == Parse::Done(v.seconds, pos + b0.len()));
        assert(<u32 as XdrDeserialize>::spec_parse(data, pos + (b0).len()) == Parse::Done(v.nseconds, pos + (b0).len() + b1.len()));
    }
}

/// A [`FsId`] whose fields each read back as themselves reads back as itself.
#[verifier::spinoff_prover]
#[verifier::rlimit(60)]
pub proof fn lemma_fs_id_roundtrips(v: SpecFsId)
    requires
        spec_roundtrips::<u64>(v.major),
        spec_roundtrips::<u64>(v.minor),
    ensures
        spec_roundtrips::<FsId>(v),
{
    let b0 = <u64 as XdrSerialize>::spec_emit(v.major)->Done_0;
    let b1 = <u64 as XdrSerialize>::spec_emit(v.minor)->Done_0;
    assert forall|data: Seq<u8>, pos: int|
        spec_at(data, pos, <FsId as XdrSerialize>::spec_emit(v)->Done_0) implies #[trigger] <FsId as XdrDeserialize>::spec_parse(
        data,
        pos,
    ) == Parse::Done(v, pos + <FsId as XdrSerialize>::spec_emit(v)->Done_0.len()) by {
        reveal(spec_parse_fs_id);
        lemma_at_split(data, pos, b0, b1);
        assert(<u64 as XdrDeserialize>::spec_parse(data, pos) == Parse::Done(v.major, pos + b0.len()));
        assert(<u64 as XdrDeserialize>::spec_parse(data, pos + (b0).len()) == Parse::Done(v.minor, pos + (b0).len() + b1.len()));
    }
}

/// A [`NfsChangePolicy`] whose fields each read back as themselves reads back as itself.
#[verifier::spinoff_prover]
#[verifier::rlimit(60)]
pub proof fn lemma_nfs_change_policy_roundtrips(v: NfsChangePolicy)
    requires
        spec_roundtrips::<u64>(v.major),
        spec_roundtrips::<u64>(v.minor),
    ensures
        spec_roundtrips::<NfsChangePolicy>(v),
{
    let b0 = <u64 as XdrSerialize>::spec_emit(v.major)->Done_0;
    let b1 = <u64 as XdrSerialize>::spec_emit(v.minor)->Done_0;
    assert forall|data: Seq<u8>, pos: int|
        spec_at(data, pos, <NfsChangePolicy as XdrSerialize>::spec_emit(v)->Done_0) implies #[trigger] <NfsChangePolicy as XdrDeserialize>::spec_parse(
        data,
        pos,
    ) == Parse::Done(v, pos + <NfsChangePolicy as XdrSerialize>::spec_emit(v)->Done_0.len()) by {
        reveal(spec_parse_nfs_change_policy);
        lemma_at_split(data, pos, b0, b1);
        assert(<u64 as XdrDeserialize>::spec_parse(data, pos) == Parse::Done(v.major, pos + b0.len()));
        assert(<u64 as XdrDeserialize>::spec_parse(data, pos + (b0).len()) == Parse::Done(v.minor, pos + (b0).len() + b1.len()));
    }
}

/// A [`NfsFsLocation`] whose fields each read back as themselves reads back as itself.
#[verifier::spinoff_prover]
#[verifier::rlimit(60)]
pub proof fn lemma_nfs_fs_location_roundtrips(v: SpecNfsFsLocation)
    requires
        spec_roundtrips::<Utf8StringCaseInsensitive>(v.server),
        spec_roundtrips::<NfsPathName>(v.pathname),
    ensures
        spec_roundtrips::<NfsFsLocation>(v),
{
    let b0 = <Utf8StringCaseInsensitive as XdrSerialize>::spec_emit(v.server)->Done_0;
    let b1 = <NfsPathName as XdrSerialize>::spec_emit(v.pathname)->Done_0;
    assert forall|data: Seq<u8>, pos: int|
        spec_at(data, pos, <NfsFsLocation as XdrSerialize>::spec_emit(v)->Done_0) implies #[trigger] <NfsFsLocation as XdrDeserialize>::spec_parse(
        data,
        pos,
    ) == Parse::Done(v, pos + <NfsFsLocation as XdrSerialize>::spec_emit(v)->Done_0.len()) by {
        reveal(spec_parse_nfs_fs_location);
        lemma_at_split(data, pos, b0, b1);
        assert(<Utf8StringCaseInsensitive as XdrDeserialize>::spec_parse(data, pos) == Parse::Done(v.server, pos + b0.len()));
        assert(<NfsPathName as XdrDeserialize>::spec_parse(data, pos + (b0).len()) == Parse::Done(v.pathname, pos + (b0).len() + b1.len()));
    }
}

/// A [`NfsFsLocations`] whose fields each read back as themselves reads back as itself.
#[verifier::spinoff_prover]
#[verifier::rlimit(60)]
pub proof fn lemma_nfs_fs_locations_roundtrips(v: SpecNfsFsLocations)
    requires
        spec_roundtrips::<NfsPathName>(v.root),
        spec_vec_roundtrips::<NfsFsLocation>(v.locations),
    ensures
        spec_roundtrips::<NfsFsLocations>(v),
{
    let b0 = <NfsPathName as XdrSerialize>::spec_emit(v.root)->Done_0;
    let b1 = spec_vec_emit::<NfsFsLocation>(v.locations)->Done_0;
    assert forall|data: Seq<u8>, pos: int|
        spec_at(data, pos, <NfsFsLocations as XdrSerialize>::spec_emit(v)->Done_0) implies #[trigger] <NfsFsLocations as XdrDeserialize>::spec_parse(
        data,
        pos,
    ) == Parse::Done(v, pos + <NfsFsLocations as XdrSerialize>::spec_emit(v)->Done_0.len()) by {
        reveal(spec_parse_nfs_fs_locations);
        lemma_at_split(data, pos, b0, b1);
        assert(<NfsPathName as XdrDeserialize>::spec_parse(data, pos) == Parse::Done(v.root, pos + b0.len()));
        assert(spec_vec_parse::<NfsFsLocation>(data, pos + (b0).len()) == Parse::Done(v.locations, pos + (b0).len() + b1.len()));
    }
}

/// A [`NfsAce`] whose fields each read back as themselves reads back as itself.
#[verifier::spinoff_prover]
#[verifier::rlimit(60)]
pub proof fn lemma_nfs_ace_roundtrips(v: SpecNfsAce)
    requires
        spec_roundtrips::<NfsAceType>(v.typ),
        spec_roundtrips::<NfsAceFlag>(v.flag),
        spec_roundtrips::<NfsAceMask>(v.access_mask),
        spec_roundtrips::<Utf8StringMixed>(v.who),
    ensures
        spec_roundtrips::<NfsAce>(v),
{
    let b0 = <NfsAceType as XdrSerialize>::spec_emit(v.typ)->Done_0;
    let b1 = <NfsAceFlag as XdrSerialize>::spec_emit(v.flag)->Done_0;
    let b2 = <NfsAceMask as XdrSerialize>::spec_emit(v.access_mask)->Done_0;
    let b3 = <Utf8StringMixed as XdrSerialize>::spec_emit(v.who)->Done_0;
    assert forall|data: Seq<u8>, pos: int|
        spec_at(data, pos, <NfsAce as XdrSerialize>::spec_emit(v)->Done_0) implies #[trigger] <NfsAce as XdrDeserialize>::spec_parse(
        data,
        pos,
    ) == Parse::Done(v, pos + <NfsAce as XdrSerialize>::spec_emit(v)->Done_0.len()) by {
        reveal(spec_parse_nfs_ace);
        lemma_at_split(data, pos, b0 + b1 + b2, b3);
        lemma_at_split(data, pos, b0 + b1, b2);
        lemma_at_split(data, pos, b0, b1);
        assert(<NfsAceType as XdrDeserialize>::spec_parse(data, pos) == Parse::Done(v.typ, pos + b0.len()));
        assert(<NfsAceFlag as XdrDeserialize>::spec_parse(data, pos + (b0).len()) == Parse::Done(v.flag, pos + (b0).len() + b1.len()));
        assert(<NfsAceMask as XdrDeserialize>::spec_parse(data, pos + (b0 + b1).len()) == Parse::Done(v.access_mask, pos + (b0 + b1).len() + b2.len()));
        assert(<Utf8StringMixed as XdrDeserialize>::spec_parse(data, pos + (b0 + b1 + b2).len()) == Parse::Done(v.who, pos + (b0 + b1 + b2).len() + b3.len()));
    }
}

/// A [`NfsAcl`] whose fields each read back as themselves reads back as itself.
#[verifier::spinoff_prover]
#[verifier::rlimit(60)]
pub proof fn lemma_nfs_acl_roundtrips(v: SpecNfsAcl)
    requires
        spec_roundtrips::<NfsAclFlag>(v.flag),
        spec_vec_roundtrips::<NfsAce>(v.aces),
    ensures
        spec_roundtrips::<NfsAcl>(v),
{
    let b0 = <NfsAclFlag as XdrSerialize>::spec_emit(v.flag)->Done_0;
    let b1 = spec_vec_emit::<NfsAce>(v.aces)->Done_0;
    assert forall|data: Seq<u8>, pos: int|
        spec_at(data, pos, <NfsAcl as XdrSerialize>::spec_emit(v)->Done_0) implies #[trigger] <NfsAcl as XdrDeserialize>::spec_parse(
        data,
        pos,
    ) == Parse::Done(v, pos + <NfsAcl as XdrSerialize>::spec_emit(v)->Done_0.len()) by {
        reveal(spec_parse_nfs_acl);
        lemma_at_split(data, pos, b0, b1);
        assert(<NfsAclFlag as XdrDeserialize>::spec_parse(data, pos) == Parse::Done(v.flag, pos + b0.len()));
        assert(spec_vec_parse::<NfsAce>(data, pos + (b0).len()) == Parse::Done(v.aces, pos + (b0).len() + b1.len()));
    }
}

/// A [`NfsModeMasked`] whose fields each read back as themselves reads back as itself.
#[verifier::spinoff_prover]
#[verifier::rlimit(60)]
pub proof fn lemma_nfs_mode_masked_roundtrips(v: NfsModeMasked)
    requires
        spec_roundtrips::<u32>(v.value_to_set),
        spec_roundtrips::<u32>(v.mask_bits),
    ensures
        spec_roundtrips::<NfsModeMasked>(v),
{
    let b0 = <u32 as XdrSerialize>::spec_emit(v.value_to_set)->Done_0;
    let b1 = <u32 as XdrSerialize>::spec_emit(v.mask_bits)->Done_0;
    assert forall|data: Seq<u8>, pos: int|
        spec_at(data, pos, <NfsModeMasked as XdrSerialize>::spec_emit(v)->Done_0) implies #[trigger] <NfsModeMasked as XdrDeserialize>::spec_parse(
        data,
        pos,
    ) == Parse::Done(v, pos + <NfsModeMasked as XdrSerialize>::spec_emit(v)->Done_0.len()) by {
        reveal(spec_parse_nfs_mode_masked);
        lemma_at_split(data, pos, b0, b1);
        assert(<u32 as XdrDeserialize>::spec_parse(data, pos) == Parse::Done(v.value_to_set, pos + b0.len()));
        assert(<u32 as XdrDeserialize>::spec_parse(data, pos + (b0).len()) == Parse::Done(v.mask_bits, pos + (b0).len() + b1.len()));
    }
}

/// A [`NetAddress`] whose fields each read back as themselves reads back as itself.
#[verifier::spinoff_prover]
#[verifier::rlimit(60)]
pub proof fn lemma_net_address_roundtrips(v: SpecNetAddress)
    requires
        spec_roundtrips::<Vec<u8>>(v.netid),
        spec_roundtrips::<Vec<u8>>(v.addr),
    ensures
        spec_roundtrips::<NetAddress>(v),
{
    let b0 = <Vec<u8> as XdrSerialize>::spec_emit(v.netid)->Done_0;
    let b1 = <Vec<u8> as XdrSerialize>::spec_emit(v.addr)->Done_0;
    assert forall|data: Seq<u8>, pos: int|
        spec_at(data, pos, <NetAddress as XdrSerialize>::spec_emit(v)->Done_0) implies #[trigger] <NetAddress as XdrDeserialize>::spec_parse(
        data,
        pos,
    ) == Parse::Done(v, pos + <NetAddress as XdrSerialize>::spec_emit(v)->Done_0.len()) by {
        reveal(spec_parse_net_address);
        lemma_at_split(data, pos, b0, b1);
        assert(<Vec<u8> as XdrDeserialize>::spec_parse(data, pos) == Parse::Done(v.netid, pos + b0.len()));
        assert(<Vec<u8> as XdrDeserialize>::spec_parse(data, pos + (b0).len()) == Parse::Done(v.addr, pos + (b0).len() + b1.len()));
    }
}

/// A [`NfsImplId`] whose fields each read back as themselves reads back as itself.
#[verifier::spinoff_prover]
#[verifier::rlimit(60)]
pub proof fn lemma_nfs_impl_id_roundtrips(v: SpecNfsImplId)
    requires
        spec_roundtrips::<Utf8StringCaseInsensitive>(v.domain),
        spec_roundtrips::<Utf8StringCaseSensitive>(v.name),
        spec_roundtrips::<NfsTime>(v.date),
    ensures
        spec_roundtrips::<NfsImplId>(v),
{
    let b0 = <Utf8StringCaseInsensitive as XdrSerialize>::spec_emit(v.domain)->Done_0;
    let b1 = <Utf8StringCaseSensitive as XdrSerialize>::spec_emit(v.name)->Done_0;
    let b2 = <NfsTime as XdrSerialize>::spec_emit(v.date)->Done_0;
    assert forall|data: Seq<u8>, pos: int|
        spec_at(data, pos, <NfsImplId as XdrSerialize>::spec_emit(v)->Done_0) implies #[trigger] <NfsImplId as XdrDeserialize>::spec_parse(
        data,
        pos,
    ) == Parse::Done(v, pos + <NfsImplId as XdrSerialize>::spec_emit(v)->Done_0.len()) by {
        reveal(spec_parse_nfs_impl_id);
        lemma_at_split(data, pos, b0 + b1, b2);
        lemma_at_split(data, pos, b0, b1);
        assert(<Utf8StringCaseInsensitive as XdrDeserialize>::spec_parse(data, pos) == Parse::Done(v.domain, pos + b0.len()));
        assert(<Utf8StringCaseSensitive as XdrDeserialize>::spec_parse(data, pos + (b0).len()) == Parse::Done(v.name, pos + (b0).len() + b1.len()));
        assert(<NfsTime as XdrDeserialize>::spec_parse(data, pos + (b0 + b1).len()) == Parse::Done(v.date, pos + (b0 + b1).len() + b2.len()));
    }
}

/// A [`StateId`] whose fields each read back as themselves reads back as itself.
#[verifier::spinoff_prover]
#[verifier::rlimit(60)]
pub proof fn lemma_state_id_roundtrips(v: SpecStateId)
    requires
        spec_roundtrips::<SeqId>(v.seqid),
        spec_roundtrips::<[u8; 12]>(v.other),
    ensures
        spec_roundtrips::<StateId>(v),
{
    let b0 = <SeqId as XdrSerialize>::spec_emit(v.seqid)->Done_0;
    let b1 = <[u8; 12] as XdrSerialize>::spec_emit(v.other)->Done_0;
    assert forall|data: Seq<u8>, pos: int|
        spec_at(data, pos, <StateId as XdrSerialize>::spec_emit(v)->Done_0) implies #[trigger] <StateId as XdrDeserialize>::spec_parse(
        data,
        pos,
    ) == Parse::Done(v, pos + <StateId as XdrSerialize>::spec_emit(v)->Done_0.len()) by {
        reveal(spec_parse_state_id);
        lemma_at_split(data, pos, b0, b1);
        assert(<SeqId as XdrDeserialize>::spec_parse(data, pos) == Parse::Done(v.seqid, pos + b0.len()));
        assert(<[u8; 12] as XdrDeserialize>::spec_parse(data, pos + (b0).len()) == Parse::Done(v.other, pos + (b0).len() + b1.len()));
    }
}

/// A [`NfsLayoutType`] reads back as itself.
pub proof fn lemma_nfs_layout_type_roundtrips(v: NfsLayoutType)
    ensures
        spec_roundtrips::<NfsLayoutType>(v),
{
    lemma_u32_roundtrips(v.spec_to_u32());
    assert forall|data: Seq<u8>, pos: int|
        spec_at(data, pos, <NfsLayoutType as XdrSerialize>::spec_emit(v)->Done_0) implies #[trigger] <NfsLayoutType as XdrDeserialize>::spec_parse(
        data,
        pos,
    ) == Parse::Done(v, pos + <NfsLayoutType as XdrSerialize>::spec_emit(v)->Done_0.len()) by {
        assert(<u32 as XdrDeserialize>::spec_parse(data, pos) == Parse::Done(v.spec_to_u32(), pos + 4));
    }
}

/// A [`LayoutContent`] whose fields each read back as themselves reads back as itself.
#[verifier::spinoff_prover]
#[verifier::rlimit(60)]
pub proof fn lemma_layout_content_roundtrips(v: SpecLayoutContent)
    requires
        spec_roundtrips::<NfsLayoutType>(v.typ),
        spec_roundtrips::<XdrOpaque>(v.body),
    ensures
        spec_roundtrips::<LayoutContent>(v),
{
    let b0 = <NfsLayoutType as XdrSerialize>::spec_emit(v.typ)->Done_0;
    let b1 = <XdrOpaque as XdrSerialize>::spec_emit(v.body)->Done_0;
    assert forall|data: Seq<u8>, pos: int|
        spec_at(data, pos, <LayoutContent as XdrSerialize>::spec_emit(v)->Done_0) implies #[trigger] <LayoutContent as XdrDeserialize>::spec_parse(
        data,
        pos,
    ) == Parse::Done(v, pos + <LayoutContent as XdrSerialize>::spec_emit(v)->Done_0.len()) by {
        reveal(spec_parse_layout_content);
        lemma_at_split(data, pos, b0, b1);
        assert(<NfsLayoutType as XdrDeserialize>::spec_parse(data, pos) == Parse::Done(v.typ, pos + b0.len()));
        assert(<XdrOpaque as XdrDeserialize>::spec_parse(data, pos + (b0).len()) == Parse::Done(v.body, pos + (b0).len() + b1.len()));
    }
}

/// A [`NfsLayoutHint`] whose fields each read back as themselves reads back as itself.
#[verifier::spinoff_prover]
#[verifier::rlimit(60)]
pub proof fn lemma_nfs_layout_hint_roundtrips(v: SpecNfsLayoutHint)
    requires
        spec_roundtrips::<NfsLayoutType>(v.typ),
        spec_roundtrips::<XdrOpaque>(v.body),
    ensures
        spec_roundtrips::<NfsLayoutHint>(v),
{
    let b0 = <NfsLayoutType as XdrSerialize>::spec_emit(v.typ)->Done_0;
    let b1 = <XdrOpaque as XdrSerialize>::spec_emit(v.body)->Done_0;
    assert forall|data: Seq<u8>, pos: int|
        spec_at(data, pos, <NfsLayoutHint as XdrSerialize>::spec_emit(v)->Done_0) implies #[trigger] <NfsLayoutHint as XdrDeserialize>::spec_parse(
        data,
        pos,
    ) == Parse::Done(v, pos + <NfsLayoutHint as XdrSerialize>::spec_emit(v)->Done_0.len()) by {
        reveal(spec_parse_nfs_layout_hint);
        lemma_at_split(data, pos, b0, b1);
        assert(<NfsLayoutType as XdrDeserialize>::spec_parse(data, pos) == Parse::Done(v.typ, pos + b0.len()));
        assert(<XdrOpaque as XdrDeserialize>::spec_parse(data, pos + (b0).len()) == Parse::Done(v.body, pos + (b0).len() + b1.len()));
    }
}

/// A [`LayoutIoMode`] reads back as itself.
pub proof fn lemma_layout_io_mode_roundtrips(v: LayoutIoMode)
    ensures
        spec_roundtrips::<LayoutIoMode>(v),
{
    lemma_u32_roundtrips(v.spec_to_u32());
    assert forall|data: Seq<u8>, pos: int|
        spec_at(data, pos, <LayoutIoMode as XdrSerialize>::spec_emit(v)->Done_0) implies #[trigger] <LayoutIoMode as XdrDeserialize>::spec_parse(
        data,
        pos,
    ) == Parse::Done(v, pos + <LayoutIoMode as XdrSerialize>::spec_emit(v)->Done_0.len()) by {
        assert(<u32 as XdrDeserialize>::spec_parse(data, pos) == Parse::Done(v.spec_to_u32(), pos + 4));
    }
}

/// A [`Layout`] whose fields each read back as themselves reads back as itself.
#[verifier::spinoff_prover]
#[verifier::rlimit(60)]
pub proof fn lemma_layout_roundtrips(v: SpecLayout)
    requires
        spec_roundtrips::<Offset>(v.offset),
        spec_roundtrips::<Length>(v.length),
        spec_roundtrips::<LayoutIoMode>(v.io_mode),
        spec_roundtrips::<LayoutContent>(v.content),
    ensures
        spec_roundtrips::<Layout>(v),
{
    let b0 = <Offset as XdrSerialize>::spec_emit(v.offset)->Done_0;
    let b1 = <Length as XdrSerialize>::spec_emit(v.length)->Done_0;
    let b2 = <LayoutIoMode as XdrSerialize>::spec_emit(v.io_mode)->Done_0;
    let b3 = <LayoutContent as XdrSerialize>::spec_emit(v.content)->Done_0;
    assert forall|data: Seq<u8>, pos: int|
        spec_at(data, pos, <Layout as XdrSerialize>::spec_emit(v)->Done_0) implies #[trigger] <Layout as XdrDeserialize>::spec_parse(
        data,
        pos,
    ) == Parse::Done(v, pos + <Layout as XdrSerialize>::spec_emit(v)->Done_0.len()) by {
        reveal(spec_parse_layout);
        lemma_at_split(data, pos, b0 + b1 + b2, b3);
        lemma_at_split(data, pos, b0 + b1, b2);
        lemma_at_split(data, pos, b0, b1);
        assert(<Offset as XdrDeserialize>::spec_parse(data, pos) == Parse::Done(v.offset, pos + b0.len()));
        assert(<Length as XdrDeserialize>::spec_parse(data, pos + (b0).len()) == Parse::Done(v.length, pos + (b0).len() + b1.len()));
        assert(<LayoutIoMode as XdrDeserialize>::spec_parse(data, pos + (b0 + b1).len()) == Parse::Done(v.io_mode, pos + (b0 + b1).len() + b2.len()));
        assert(<LayoutContent as XdrDeserialize>::spec_parse(data, pos + (b0 + b1 + b2).len()) == Parse::Done(v.content, pos + (b0 + b1 + b2).len() + b3.len()));
    }
}

/// A [`DeviceAddress`] whose fields each read back as themselves reads back as itself.
#[verifier::spinoff_prover]
#[verifier::rlimit(60)]
pub proof fn lemma_device_address_roundtrips(v: SpecDeviceAddress)
    requires
        spec_roundtrips::<NfsLayoutType>(v.layout_type),
        spec_roundtrips::<XdrOpaque>(v.addr_body),
    ensures
        spec_roundtrips::<DeviceAddress>(v),
{
    let b0 = <NfsLayoutType as XdrSerialize>::spec_emit(v.layout_type)->Done_0;
    let b1 = <XdrOpaque as XdrSerialize>::spec_emit(v.addr_body)->Done_0;
    assert forall|data: Seq<u8>, pos: int|
        spec_at(data, pos, <DeviceAddress as XdrSerialize>::spec_emit(v)->Done_0) implies #[trigger] <DeviceAddress as XdrDeserialize>::spec_parse(
        data,
        pos,
    ) == Parse::Done(v, pos + <DeviceAddress as XdrSerialize>::spec_emit(v)->Done_0.len()) by {
        reveal(spec_parse_device_address);
        lemma_at_split(data, pos, b0, b1);
        assert(<NfsLayoutType as XdrDeserialize>::spec_parse(data, pos) == Parse::Done(v.layout_type, pos + b0.len()));
        assert(<XdrOpaque as XdrDeserialize>::spec_parse(data, pos + (b0).len()) == Parse::Done(v.addr_body, pos + (b0).len() + b1.len()));
    }
}

/// A [`LayoutUpdate`] whose fields each read back as themselves reads back as itself.
#[verifier::spinoff_prover]
#[verifier::rlimit(60)]
pub proof fn lemma_layout_update_roundtrips(v: SpecLayoutUpdate)
    requires
        spec_roundtrips::<NfsLayoutType>(v.typ),
        spec_roundtrips::<XdrOpaque>(v.body),
    ensures
        spec_roundtrips::<LayoutUpdate>(v),
{
    let b0 = <NfsLayoutType as XdrSerialize>::spec_emit(v.typ)->Done_0;
    let b1 = <XdrOpaque as XdrSerialize>::spec_emit(v.body)->Done_0;
    assert forall|data: Seq<u8>, pos: int|
        spec_at(data, pos, <LayoutUpdate as XdrSerialize>::spec_emit(v)->Done_0) implies #[trigger] <LayoutUpdate as XdrDeserialize>::spec_parse(
        data,
        pos,
    ) == Parse::Done(v, pos + <LayoutUpdate as XdrSerialize>::spec_emit(v)->Done_0.len()) by {
        reveal(spec_parse_layout_update);
        lemma_at_split(data, pos, b0, b1);
        assert(<NfsLayoutType as XdrDeserialize>::spec_parse(data, pos) == Parse::Done(v.typ, pos + b0.len()));
        assert(<XdrOpaque as XdrDeserialize>::spec_parse(data, pos + (b0).len()) == Parse::Done(v.body, pos + (b0).len() + b1.len()));
    }
}

/// A [`LayoutReturnType`] reads back as itself.
pub proof fn lemma_layout_return_type_roundtrips(v: LayoutReturnType)
    ensures
        spec_roundtrips::<LayoutReturnType>(v),
{
    lemma_u32_roundtrips(v.spec_to_u32());
    assert forall|data: Seq<u8>, pos: int|
        spec_at(data, pos, <LayoutReturnType as XdrSerialize>::spec_emit(v)->Done_0) implies #[trigger] <LayoutReturnType as XdrDeserialize>::spec_parse(
        data,
        pos,
    ) == Parse::Done(v, pos + <LayoutReturnType as XdrSerialize>::spec_emit(v)->Done_0.len()) by {
        assert(<u32 as XdrDeserialize>::spec_parse(data, pos) == Parse::Done(v.spec_to_u32(), pos + 4));
    }
}

/// A [`LayoutReturnFile`] whose fields each read back as themselves reads back as itself.
#[verifier::spinoff_prover]
#[verifier::rlimit(60)]
pub proof fn lemma_layout_return_file_roundtrips(v: SpecLayoutReturnFile)
    requires
        spec_roundtrips::<Offset>(v.offset),
        spec_roundtrips::<Length>(v.length),
        spec_roundtrips::<StateId>(v.state_id),
        spec_roundtrips::<XdrOpaque>(v.body),
    ensures
        spec_roundtrips::<LayoutReturnFile>(v),
{
    let b0 = <Offset as XdrSerialize>::spec_emit(v.offset)->Done_0;
    let b1 = <Length as XdrSerialize>::spec_emit(v.length)->Done_0;
    let b2 = <StateId as XdrSerialize>::spec_emit(v.state_id)->Done_0;
    let b3 = <XdrOpaque as XdrSerialize>::spec_emit(v.body)->Done_0;
    assert forall|data: Seq<u8>, pos: int|
        spec_at(data, pos, <LayoutReturnFile as XdrSerialize>::spec_emit(v)->Done_0) implies #[trigger] <LayoutReturnFile as XdrDeserialize>::spec_parse(
        data,
        pos,
    ) == Parse::Done(v, pos + <LayoutReturnFile as XdrSerialize>::spec_emit(v)->Done_0.len()) by {
        reveal(spec_parse_layout_return_file);
        lemma_at_split(data, pos, b0 + b1 + b2, b3);
        lemma_at_split(data, pos, b0 + b1, b2);
        lemma_at_split(data, pos, b0, b1);
        assert(<Offset as XdrDeserialize>::spec_parse(data, pos) == Parse::Done(v.offset, pos + b0.len()));
        assert(<Length as XdrDeserialize>::spec_parse(data, pos + (b0).len()) == Parse::Done(v.length, pos + (b0).len() + b1.len()));
        assert(<StateId as XdrDeserialize>::spec_parse(data, pos + (b0 + b1).len()) == Parse::Done(v.state_id, pos + (b0 + b1).len() + b2.len()));
        assert(<XdrOpaque as XdrDeserialize>::spec_parse(data, pos + (b0 + b1 + b2).len()) == Parse::Done(v.body, pos + (b0 + b1 + b2).len() + b3.len()));
    }
}

/// A [`LayoutReturn`] whose contents read back as themselves reads back as itself.
#[verifier::spinoff_prover]
#[verifier::rlimit(60)]
pub proof fn lemma_layout_return_roundtrips(v: SpecLayoutReturn)
    requires
        match v {
            SpecLayoutReturn::File(x) => spec_roundtrips::<LayoutReturnFile>(x),
            SpecLayoutReturn::FsId => true,
            SpecLayoutReturn::All => true,
        },
    ensures
        spec_roundtrips::<LayoutReturn>(v),
{
    match v {
        SpecLayoutReturn::File(x) => {
            lemma_layout_return_type_roundtrips(LayoutReturnType::File);
            let a = <LayoutReturnType as XdrSerialize>::spec_emit(LayoutReturnType::File)->Done_0;
            let b = <LayoutReturnFile as XdrSerialize>::spec_emit(x)->Done_0;
            assert forall|data: Seq<u8>, pos: int|
                spec_at(data, pos, <LayoutReturn as XdrSerialize>::spec_emit(v)->Done_0) implies #[trigger] <LayoutReturn as XdrDeserialize>::spec_parse(
                data,
                pos,
            ) == Parse::Done(v, pos + <LayoutReturn as XdrSerialize>::spec_emit(v)->Done_0.len()) by {
                reveal(spec_parse_layout_return);
                lemma_at_split(data, pos, a, b);
                assert(<LayoutReturnType as XdrDeserialize>::spec_parse(data, pos) == Parse::Done(LayoutReturnType::File, pos + 4));
            }
        },
        SpecLayoutReturn::FsId => {
            lemma_layout_return_type_roundtrips(LayoutReturnType::FsId);
            let a = <LayoutReturnType as XdrSerialize>::spec_emit(LayoutReturnType::FsId)->Done_0;
            assert forall|data: Seq<u8>, pos: int|
                spec_at(data, pos, <LayoutReturn as XdrSerialize>::spec_emit(v)->Done_0) implies #[trigger] <LayoutReturn as XdrDeserialize>::spec_parse(
                data,
                pos,
            ) == Parse::Done(v, pos + <LayoutReturn as XdrSerialize>::spec_emit(v)->Done_0.len()) by {
                reveal(spec_parse_layout_return);
                assert(<LayoutReturnType as XdrDeserialize>::spec_parse(data, pos) == Parse::Done(LayoutReturnType::FsId, pos + 4));
            }
        },
        SpecLayoutReturn::All => {
            lemma_layout_return_type_roundtrips(LayoutReturnType::All);
            let a = <LayoutReturnType as XdrSerialize>::spec_emit(LayoutReturnType::All)->Done_0;
            assert forall|data: Seq<u8>, pos: int|
                spec_at(data, pos, <LayoutReturn as XdrSerialize>::spec_emit(v)->Done_0) implies #[trigger] <LayoutReturn as XdrDeserialize>::spec_parse(
                data,
                pos,
            ) == Parse::Done(v, pos + <LayoutReturn as XdrSerialize>::spec_emit(v)->Done_0.len()) by {
                reveal(spec_parse_layout_return);
                assert(<LayoutReturnType as XdrDeserialize>::spec_parse(data, pos) == Parse::Done(LayoutReturnType::All, pos + 4));
            }
        },
    }
}

/// A [`FsStatusType`] reads back as itself.
pub proof fn lemma_fs_status_type_roundtrips(v: FsStatusType)
    ensures
        spec_roundtrips::<FsStatusType>(v),
{
    lemma_u32_roundtrips(v.spec_to_u32());
    assert forall|data: Seq<u8>, pos: int|
        spec_at(data, pos, <FsStatusType as XdrSerialize>::spec_emit(v)->Done_0) implies #[trigger] <FsStatusType as XdrDeserialize>::spec_parse(
        data,
        pos,
    ) == Parse::Done(v, pos + <FsStatusType as XdrSerialize>::spec_emit(v)->Done_0.len()) by {
        assert(<u32 as XdrDeserialize>::spec_parse(data, pos) == Parse::Done(v.spec_to_u32(), pos + 4));
    }
}

/// A [`NfsFsStatus`] whose fields each read back as themselves reads back as itself.
#[verifier::spinoff_prover]
#[verifier::rlimit(60)]
pub proof fn lemma_nfs_fs_status_roundtrips(v: SpecNfsFsStatus)
    requires
        spec_roundtrips::<bool>(v.absent),
        spec_roundtrips::<FsStatusType>(v.typ),
        spec_roundtrips::<Utf8StringCaseSensitive>(v.source),
        spec_roundtrips::<Utf8StringCaseSensitive>(v.current),
        spec_roundtrips::<i32>(v.age),
        spec_roundtrips::<NfsTime>(v.version),
    ensures
        spec_roundtrips::<NfsFsStatus>(v),
{
    let b0 = <bool as XdrSerialize>::spec_emit(v.absent)->Done_0;
    let b1 = <FsStatusType as XdrSerialize>::spec_emit(v.typ)->Done_0;
    let b2 = <Utf8StringCaseSensitive as XdrSerialize>::spec_emit(v.source)->Done_0;
    let b3 = <Utf8StringCaseSensitive as XdrSerialize>::spec_emit(v.current)->Done_0;
    let b4 = <i32 as XdrSerialize>::spec_emit(v.age)->Done_0;
    let b5 = <NfsTime as XdrSerialize>::spec_emit(v.version)->Done_0;
    assert forall|data: Seq<u8>, pos: int|
        spec_at(data, pos, <NfsFsStatus as XdrSerialize>::spec_emit(v)->Done_0) implies #[trigger] <NfsFsStatus as XdrDeserialize>::spec_parse(
        data,
        pos,
    ) == Parse::Done(v, pos + <NfsFsStatus as XdrSerialize>::spec_emit(v)->Done_0.len()) by {
        reveal(spec_parse_nfs_fs_status);
        lemma_at_split(data, pos, b0 + b1 + b2 + b3 + b4, b5);
        lemma_at_split(data, pos, b0 + b1 + b2 + b3, b4);
        lemma_at_split(data, pos, b0 + b1 + b2, b3);
        lemma_at_split(data, pos, b0 + b1, b2);
        lemma_at_split(data, pos, b0, b1);
        assert(<bool as XdrDeserialize>::spec_parse(data, pos) == Parse::Done(v.absent, pos + b0.len()));
        assert(<FsStatusType as XdrDeserialize>::spec_parse(data, pos + (b0).len()) == Parse::Done(v.typ, pos + (b0).len() + b1.len()));
        assert(<Utf8StringCaseSensitive as XdrDeserialize>::spec_parse(data, pos + (b0 + b1).len()) == Parse::Done(v.source, pos + (b0 + b1).len() + b2.len()));
        assert(<Utf8StringCaseSensitive as XdrDeserialize>::spec_parse(data, pos + (b0 + b1 + b2).len()) == Parse::Done(v.current, pos + (b0 + b1 + b2).len() + b3.len()));
        assert(<i32 as XdrDeserialize>::spec_parse(data, pos + (b0 + b1 + b2 + b3).len()) == Parse::Done(v.age, pos + (b0 + b1 + b2 + b3).len() + b4.len()));
        assert(<NfsTime as XdrDeserialize>::spec_parse(data, pos + (b0 + b1 + b2 + b3 + b4).len()) == Parse::Done(v.version, pos + (b0 + b1 + b2 + b3 + b4).len() + b5.len()));
    }
}

/// A [`ThresholdItem`] whose fields each read back as themselves reads back as itself.
#[verifier::spinoff_prover]
#[verifier::rlimit(60)]
pub proof fn lemma_threshold_item_roundtrips(v: SpecThresholdItem)
    requires
        spec_roundtrips::<NfsLayoutType>(v.layout_type),
        spec_roundtrips::<BitMap>(v.hintset),
        spec_roundtrips::<XdrOpaque>(v.hintlist),
    ensures
        spec_roundtrips::<ThresholdItem>(v),
{
    let b0 = <NfsLayoutType as XdrSerialize>::spec_emit(v.layout_type)->Done_0;
    let b1 = <BitMap as XdrSerialize>::spec_emit(v.hintset)->Done_0;
    let b2 = <XdrOpaque as XdrSerialize>::spec_emit(v.hintlist)->Done_0;
    assert forall|data: Seq<u8>, pos: int|
        spec_at(data, pos, <ThresholdItem as XdrSerialize>::spec_emit(v)->Done_0) implies #[trigger] <ThresholdItem as XdrDeserialize>::spec_parse(
        data,
        pos,
    ) == Parse::Done(v, pos + <ThresholdItem as XdrSerialize>::spec_emit(v)->Done_0.len()) by {
        reveal(spec_parse_threshold_item);
        lemma_at_split(data, pos, b0 + b1, b2);
        lemma_at_split(data, pos, b0, b1);
        assert(<NfsLayoutType as XdrDeserialize>::spec_parse(data, pos) == Parse::Done(v.layout_type, pos + b0.len()));
        assert(<BitMap as XdrDeserialize>::spec_parse(data, pos + (b0).len()) == Parse::Done(v.hintset, pos + (b0).len() + b1.len()));
        assert(<XdrOpaque as XdrDeserialize>::spec_parse(data, pos + (b0 + b1).len()) == Parse::Done(v.hintlist, pos + (b0 + b1).len() + b2.len()));
    }
}

/// A [`MdsThreshold`] whose fields each read back as themselves reads back as itself.
#[verifier::spinoff_prover]
#[verifier::rlimit(60)]
pub proof fn lemma_mds_threshold_roundtrips(v: SpecMdsThreshold)
    requires
        spec_vec_roundtrips::<ThresholdItem>(v.hints),
    ensures
        spec_roundtrips::<MdsThreshold>(v),
{
    let b0 = spec_vec_emit::<ThresholdItem>(v.hints)->Done_0;
    assert forall|data: Seq<u8>, pos: int|
        spec_at(data, pos, <MdsThreshold as XdrSerialize>::spec_emit(v)->Done_0) implies #[trigger] <MdsThreshold as XdrDeserialize>::spec_parse(
        data,
        pos,
    ) == Parse::Done(v, pos + <MdsThreshold as XdrSerialize>::spec_emit(v)->Done_0.len()) by {
        reveal(spec_parse_mds_threshold);
        assert(spec_vec_parse::<ThresholdItem>(data, pos) == Parse::Done(v.hints, pos + b0.len()));
    }
}

/// A [`RetentionGet`] whose fields each read back as themselves reads back as itself.
#[verifier::spinoff_prover]
#[verifier::rlimit(60)]
pub proof fn lemma_retention_get_roundtrips(v: SpecRetentionGet)
    requires
        spec_roundtrips::<u64>(v.duration),
        spec_roundtrips::<Option<NfsTime>>(v.begin_time),
    ensures
        spec_roundtrips::<RetentionGet>(v),
{
    let b0 = <u64 as XdrSerialize>::spec_emit(v.duration)->Done_0;
    let b1 = <Option<NfsTime> as XdrSerialize>::spec_emit(v.begin_time)->Done_0;
    assert forall|data: Seq<u8>, pos: int|
        spec_at(data, pos, <RetentionGet as XdrSerialize>::spec_emit(v)->Done_0) implies #[trigger] <RetentionGet as XdrDeserialize>::spec_parse(
        data,
        pos,
    ) == Parse::Done(v, pos + <RetentionGet as XdrSerialize>::spec_emit(v)->Done_0.len()) by {
        reveal(spec_parse_retention_get);
        lemma_at_split(data, pos, b0, b1);
        assert(<u64 as XdrDeserialize>::spec_parse(data, pos) == Parse::Done(v.duration, pos + b0.len()));
        assert(<Option<NfsTime> as XdrDeserialize>::spec_parse(data, pos + (b0).len()) == Parse::Done(v.begin_time, pos + (b0).len() + b1.len()));
    }
}

/// A [`RetentionSet`] whose fields each read back as themselves reads back as itself.
#[verifier::spinoff_prover]
#[verifier::rlimit(60)]
pub proof fn lemma_retention_set_roundtrips(v: SpecRetentionSet)
    requires
        spec_roundtrips::<bool>(v.enable),
        spec_roundtrips::<Option<u64>>(v.duration),
    ensures
        spec_roundtrips::<RetentionSet>(v),
{
    let b0 = <bool as XdrSerialize>::spec_emit(v.enable)->Done_0;
    let b1 = <Option<u64> as XdrSerialize>::spec_emit(v.duration)->Done_0;
    assert forall|data: Seq<u8>, pos: int|
        spec_at(data, pos, <RetentionSet as XdrSerialize>::spec_emit(v)->Done_0) implies #[trigger] <RetentionSet as XdrDeserialize>::spec_parse(
        data,
        pos,
    ) == Parse::Done(v, pos + <RetentionSet as XdrSerialize>::spec_emit(v)->Done_0.len()) by {
        reveal(spec_parse_retention_set);
        lemma_at_split(data, pos, b0, b1);
        assert(<bool as XdrDeserialize>::spec_parse(data, pos) == Parse::Done(v.enable, pos + b0.len()));
        assert(<Option<u64> as XdrDeserialize>::spec_parse(data, pos + (b0).len()) == Parse::Done(v.duration, pos + (b0).len() + b1.len()));
    }
}

/// A [`FileAttrs`] whose fields each read back as themselves reads back as itself.
#[verifier::spinoff_prover]
#[verifier::rlimit(60)]
pub proof fn lemma_file_attrs_roundtrips(v: SpecFileAttrs)
    requires
        spec_roundtrips::<BitMap>(v.mask),
        spec_roundtrips::<AttrList>(v.attrs),
    ensures
        spec_roundtrips::<FileAttrs>(v),
{
    let b0 = <BitMap as XdrSerialize>::spec_emit(v.mask)->Done_0;
    let b1 = <AttrList as XdrSerialize>::spec_emit(v.attrs)->Done_0;
    assert forall|data: Seq<u8>, pos: int|
        spec_at(data, pos, <FileAttrs as XdrSerialize>::spec_emit(v)->Done_0) implies #[trigger] <FileAttrs as XdrDeserialize>::spec_parse(
        data,
        pos,
    ) == Parse::Done(v, pos + <FileAttrs as XdrSerialize>::spec_emit(v)->Done_0.len()) by {
        reveal(spec_parse_file_attrs);
        lemma_at_split(data, pos, b0, b1);
        assert(<BitMap as XdrDeserialize>::spec_parse(data, pos) == Parse::Done(v.mask, pos + b0.len()));
        assert(<AttrList as XdrDeserialize>::spec_parse(data, pos + (b0).len()) == Parse::Done(v.attrs, pos + (b0).len() + b1.len()));
    }
}

/// A [`ChangeInfo`] whose fields each read back as themselves reads back as itself.
#[verifier::spinoff_prover]
#[verifier::rlimit(60)]
pub proof fn lemma_change_info_roundtrips(v: SpecChangeInfo)
    requires
        spec_roundtrips::<bool>(v.atomic),
        spec_roundtrips::<ChangeId>(v.before),
        spec_roundtrips::<ChangeId>(v.after),
    ensures
        spec_roundtrips::<ChangeInfo>(v),
{
    let b0 = <bool as XdrSerialize>::spec_emit(v.atomic)->Done_0;
    let b1 = <ChangeId as XdrSerialize>::spec_emit(v.before)->Done_0;
    let b2 = <ChangeId as XdrSerialize>::spec_emit(v.after)->Done_0;
    assert forall|data: Seq<u8>, pos: int|
        spec_at(data, pos, <ChangeInfo as XdrSerialize>::spec_emit(v)->Done_0) implies #[trigger] <ChangeInfo as XdrDeserialize>::spec_parse(
        data,
        pos,
    ) == Parse::Done(v, pos + <ChangeInfo as XdrSerialize>::spec_emit(v)->Done_0.len()) by {
        reveal(spec_parse_change_info);
        lemma_at_split(data, pos, b0 + b1, b2);
        lemma_at_split(data, pos, b0, b1);
        assert(<bool as XdrDeserialize>::spec_parse(data, pos) == Parse::Done(v.atomic, pos + b0.len()));
        assert(<ChangeId as XdrDeserialize>::spec_parse(data, pos + (b0).len()) == Parse::Done(v.before, pos + (b0).len() + b1.len()));
        assert(<ChangeId as XdrDeserialize>::spec_parse(data, pos + (b0 + b1).len()) == Parse::Done(v.after, pos + (b0 + b1).len() + b2.len()));
    }
}

/// A [`CallbackClient`] whose fields each read back as themselves reads back as itself.
#[verifier::spinoff_prover]
#[verifier::rlimit(60)]
pub proof fn lemma_callback_client_roundtrips(v: SpecCallbackClient)
    requires
        spec_roundtrips::<u32>(v.program),
        spec_roundtrips::<NetAddress>(v.location),
    ensures
        spec_roundtrips::<CallbackClient>(v),
{
    let b0 = <u32 as XdrSerialize>::spec_emit(v.program)->Done_0;
    let b1 = <NetAddress as XdrSerialize>::spec_emit(v.location)->Done_0;
    assert forall|data: Seq<u8>, pos: int|
        spec_at(data, pos, <CallbackClient as XdrSerialize>::spec_emit(v)->Done_0) implies #[trigger] <CallbackClient as XdrDeserialize>::spec_parse(
        data,
        pos,
    ) == Parse::Done(v, pos + <CallbackClient as XdrSerialize>::spec_emit(v)->Done_0.len()) by {
        reveal(spec_parse_callback_client);
        lemma_at_split(data, pos, b0, b1);
        assert(<u32 as XdrDeserialize>::spec_parse(data, pos) == Parse::Done(v.program, pos + b0.len()));
        assert(<NetAddress as XdrDeserialize>::spec_parse(data, pos + (b0).len()) == Parse::Done(v.location, pos + (b0).len() + b1.len()));
    }
}

/// A [`NfsClientId`] whose fields each read back as themselves reads back as itself.
#[verifier::spinoff_prover]
#[verifier::rlimit(60)]
pub proof fn lemma_nfs_client_id_roundtrips(v: SpecNfsClientId)
    requires
        spec_roundtrips::<Verifier>(v.verifier),
        spec_roundtrips::<MaxLenBytes<NFS_OPAQUE_LIMIT>>(v.id),
    ensures
        spec_roundtrips::<NfsClientId>(v),
{
    let b0 = <Verifier as XdrSerialize>::spec_emit(v.verifier)->Done_0;
    let b1 = <MaxLenBytes<NFS_OPAQUE_LIMIT> as XdrSerialize>::spec_emit(v.id)->Done_0;
    assert forall|data: Seq<u8>, pos: int|
        spec_at(data, pos, <NfsClientId as XdrSerialize>::spec_emit(v)->Done_0) implies #[trigger] <NfsClientId as XdrDeserialize>::spec_parse(
        data,
        pos,
    ) == Parse::Done(v, pos + <NfsClientId as XdrSerialize>::spec_emit(v)->Done_0.len()) by {
        reveal(spec_parse_nfs_client_id);
        lemma_at_split(data, pos, b0, b1);
        assert(<Verifier as XdrDeserialize>::spec_parse(data, pos) == Parse::Done(v.verifier, pos + b0.len()));
        assert(<MaxLenBytes<NFS_OPAQUE_LIMIT> as XdrDeserialize>::spec_parse(data, pos + (b0).len()) == Parse::Done(v.id, pos + (b0).len() + b1.len()));
    }
}

/// A [`ClientOwner`] whose fields each read back as themselves reads back as itself.
#[verifier::spinoff_prover]
#[verifier::rlimit(60)]
pub proof fn lemma_client_owner_roundtrips(v: SpecClientOwner)
    requires
        spec_roundtrips::<Verifier>(v.verifier),
        spec_roundtrips::<MaxLenBytes<NFS_OPAQUE_LIMIT>>(v.owner_id),
    ensures
        spec_roundtrips::<ClientOwner>(v),
{
    let b0 = <Verifier as XdrSerialize>::spec_emit(v.verifier)->Done_0;
    let b1 = <MaxLenBytes<NFS_OPAQUE_LIMIT> as XdrSerialize>::spec_emit(v.owner_id)->Done_0;
    assert forall|data: Seq<u8>, pos: int|
        spec_at(data, pos, <ClientOwner as XdrSerialize>::spec_emit(v)->Done_0) implies #[trigger] <ClientOwner as XdrDeserialize>::spec_parse(
        data,
        pos,
    ) == Parse::Done(v, pos + <ClientOwner as XdrSerialize>::spec_emit(v)->Done_0.len()) by {
        reveal(spec_parse_client_owner);
        lemma_at_split(data, pos, b0, b1);
        assert(<Verifier as XdrDeserialize>::spec_parse(data, pos) == Parse::Done(v.verifier, pos + b0.len()));
        assert(<MaxLenBytes<NFS_OPAQUE_LIMIT> as XdrDeserialize>::spec_parse(data, pos + (b0).len()) == Parse::Done(v.owner_id, pos + (b0).len() + b1.len()));
    }
}

/// A [`ServerOwner`] whose fields each read back as themselves reads back as itself.
#[verifier::spinoff_prover]
#[verifier::rlimit(60)]
pub proof fn lemma_server_owner_roundtrips(v: SpecServerOwner)
    requires
        spec_roundtrips::<u64>(v.minor_id),
        spec_roundtrips::<MaxLenBytes<NFS_OPAQUE_LIMIT>>(v.major_id),
    ensures
        spec_roundtrips::<ServerOwner>(v),
{
    let b0 = <u64 as XdrSerialize>::spec_emit(v.minor_id)->Done_0;
    let b1 = <MaxLenBytes<NFS_OPAQUE_LIMIT> as XdrSerialize>::spec_emit(v.major_id)->Done_0;
    assert forall|data: Seq<u8>, pos: int|
        spec_at(data, pos, <ServerOwner as XdrSerialize>::spec_emit(v)->Done_0) implies #[trigger] <ServerOwner as XdrDeserialize>::spec_parse(
        data,
        pos,
    ) == Parse::Done(v, pos + <ServerOwner as XdrSerialize>::spec_emit(v)->Done_0.len()) by {
        reveal(spec_parse_server_owner);
        lemma_at_split(data, pos, b0, b1);
        assert(<u64 as XdrDeserialize>::spec_parse(data, pos) == Parse::Done(v.minor_id, pos + b0.len()));
        assert(<MaxLenBytes<NFS_OPAQUE_LIMIT> as XdrDeserialize>::spec_parse(data, pos + (b0).len()) == Parse::Done(v.major_id, pos + (b0).len() + b1.len()));
    }
}

/// A [`StateOwner`] whose fields each read back as themselves reads back as itself.
#[verifier::spinoff_prover]
#[verifier::rlimit(60)]
pub proof fn lemma_state_owner_roundtrips(v: SpecStateOwner)
    requires
        spec_roundtrips::<ClientId>(v.client_id),
        spec_roundtrips::<MaxLenBytes<NFS_OPAQUE_LIMIT>>(v.owner),
    ensures
        spec_roundtrips::<StateOwner>(v),
{
    let b0 = <ClientId as XdrSerialize>::spec_emit(v.client_id)->Done_0;
    let b1 = <MaxLenBytes<NFS_OPAQUE_LIMIT> as XdrSerialize>::spec_emit(v.owner)->Done_0;
    assert forall|data: Seq<u8>, pos: int|
        spec_at(data, pos, <StateOwner as XdrSerialize>::spec_emit(v)->Done_0) implies #[trigger] <StateOwner as XdrDeserialize>::spec_parse(
        data,
        pos,
    ) == Parse::Done(v, pos + <StateOwner as XdrSerialize>::spec_emit(v)->Done_0.len()) by {
        reveal(spec_parse_state_owner);
        lemma_at_split(data, pos, b0, b1);
        assert(<ClientId as XdrDeserialize>::spec_parse(data, pos) == Parse::Done(v.client_id, pos + b0.len()));
        assert(<MaxLenBytes<NFS_OPAQUE_LIMIT> as XdrDeserialize>::spec_parse(data, pos + (b0).len()) == Parse::Done(v.owner, pos + (b0).len() + b1.len()));
    }
}

/// A [`NfsLockType`] reads back as itself.
pub proof fn lemma_nfs_lock_type_roundtrips(v: NfsLockType)
    ensures
        spec_roundtrips::<NfsLockType>(v),
{
    lemma_u32_roundtrips(v.spec_to_u32());
    assert forall|data: Seq<u8>, pos: int|
        spec_at(data, pos, <NfsLockType as XdrSerialize>::spec_emit(v)->Done_0) implies #[trigger] <NfsLockType as XdrDeserialize>::spec_parse(
        data,
        pos,
    ) == Parse::Done(v, pos + <NfsLockType as XdrSerialize>::spec_emit(v)->Done_0.len()) by {
        assert(<u32 as XdrDeserialize>::spec_parse(data, pos) == Parse::Done(v.spec_to_u32(), pos + 4));
    }
}

/// A [`SsvSubkey`] reads back as itself.
pub proof fn lemma_ssv_subkey_roundtrips(v: SsvSubkey)
    ensures
        spec_roundtrips::<SsvSubkey>(v),
{
    lemma_u32_roundtrips(v.spec_to_u32());
    assert forall|data: Seq<u8>, pos: int|
        spec_at(data, pos, <SsvSubkey as XdrSerialize>::spec_emit(v)->Done_0) implies #[trigger] <SsvSubkey as XdrDeserialize>::spec_parse(
        data,
        pos,
    ) == Parse::Done(v, pos + <SsvSubkey as XdrSerialize>::spec_emit(v)->Done_0.len()) by {
        assert(<u32 as XdrDeserialize>::spec_parse(data, pos) == Parse::Done(v.spec_to_u32(), pos + 4));
    }
}

/// A [`SsvMicPlainToken`] whose fields each read back as themselves reads back as itself.
#[verifier::spinoff_prover]
#[verifier::rlimit(60)]
pub proof fn lemma_ssv_mic_plain_token_roundtrips(v: SpecSsvMicPlainToken)
    requires
        spec_roundtrips::<u32>(v.ssv_seq),
        spec_roundtrips::<XdrOpaque>(v.orig_plain),
    ensures
        spec_roundtrips::<SsvMicPlainToken>(v),
{
    let b0 = <u32 as XdrSerialize>::spec_emit(v.ssv_seq)->Done_0;
    let b1 = <XdrOpaque as XdrSerialize>::spec_emit(v.orig_plain)->Done_0;
    assert forall|data: Seq<u8>, pos: int|
        spec_at(data, pos, <SsvMicPlainToken as XdrSerialize>::spec_emit(v)->Done_0) implies #[trigger] <SsvMicPlainToken as XdrDeserialize>::spec_parse(
        data,
        pos,
    ) == Parse::Done(v, pos + <SsvMicPlainToken as XdrSerialize>::spec_emit(v)->Done_0.len()) by {
        reveal(spec_parse_ssv_mic_plain_token);
        lemma_at_split(data, pos, b0, b1);
        assert(<u32 as XdrDeserialize>::spec_parse(data, pos) == Parse::Done(v.ssv_seq, pos + b0.len()));
        assert(<XdrOpaque as XdrDeserialize>::spec_parse(data, pos + (b0).len()) == Parse::Done(v.orig_plain, pos + (b0).len() + b1.len()));
    }
}

/// A [`SsvSealPlainToken`] whose fields each read back as themselves reads back as itself.
#[verifier::spinoff_prover]
#[verifier::rlimit(60)]
pub proof fn lemma_ssv_seal_plain_token_roundtrips(v: SpecSsvSealPlainToken)
    requires
        spec_roundtrips::<XdrOpaque>(v.confounder),
        spec_roundtrips::<u32>(v.ssv_seq),
        spec_roundtrips::<XdrOpaque>(v.orig_plain),
        spec_roundtrips::<XdrOpaque>(v.pad),
    ensures
        spec_roundtrips::<SsvSealPlainToken>(v),
{
    let b0 = <XdrOpaque as XdrSerialize>::spec_emit(v.confounder)->Done_0;
    let b1 = <u32 as XdrSerialize>::spec_emit(v.ssv_seq)->Done_0;
    let b2 = <XdrOpaque as XdrSerialize>::spec_emit(v.orig_plain)->Done_0;
    let b3 = <XdrOpaque as XdrSerialize>::spec_emit(v.pad)->Done_0;
    assert forall|data: Seq<u8>, pos: int|
        spec_at(data, pos, <SsvSealPlainToken as XdrSerialize>::spec_emit(v)->Done_0) implies #[trigger] <SsvSealPlainToken as XdrDeserialize>::spec_parse(
        data,
        pos,
    ) == Parse::Done(v, pos + <SsvSealPlainToken as XdrSerialize>::spec_emit(v)->Done_0.len()) by {
        reveal(spec_parse_ssv_seal_plain_token);
        lemma_at_split(data, pos, b0 + b1 + b2, b3);
        lemma_at_split(data, pos, b0 + b1, b2);
        lemma_at_split(data, pos, b0, b1);
        assert(<XdrOpaque as XdrDeserialize>::spec_parse(data, pos) == Parse::Done(v.confounder, pos + b0.len()));
        assert(<u32 as XdrDeserialize>::spec_parse(data, pos + (b0).len()) == Parse::Done(v.ssv_seq, pos + (b0).len() + b1.len()));
        assert(<XdrOpaque as XdrDeserialize>::spec_parse(data, pos + (b0 + b1).len()) == Parse::Done(v.orig_plain, pos + (b0 + b1).len() + b2.len()));
        assert(<XdrOpaque as XdrDeserialize>::spec_parse(data, pos + (b0 + b1 + b2).len()) == Parse::Done(v.pad, pos + (b0 + b1 + b2).len() + b3.len()));
    }
}

/// A [`SsvSealCipherToken`] whose fields each read back as themselves reads back as itself.
#[verifier::spinoff_prover]
#[verifier::rlimit(60)]
pub proof fn lemma_ssv_seal_cipher_token_roundtrips(v: SpecSsvSealCipherToken)
    requires
        spec_roundtrips::<u32>(v.ssv_seq),
        spec_roundtrips::<XdrOpaque>(v.iv),
        spec_roundtrips::<XdrOpaque>(v.encr_data),
        spec_roundtrips::<XdrOpaque>(v.hmac),
    ensures
        spec_roundtrips::<SsvSealCipherToken>(v),
{
    let b0 = <u32 as XdrSerialize>::spec_emit(v.ssv_seq)->Done_0;
    let b1 = <XdrOpaque as XdrSerialize>::spec_emit(v.iv)->Done_0;
    let b2 = <XdrOpaque as XdrSerialize>::spec_emit(v.encr_data)->Done_0;
    let b3 = <XdrOpaque as XdrSerialize>::spec_emit(v.hmac)->Done_0;
    assert forall|data: Seq<u8>, pos: int|
        spec_at(data, pos, <SsvSealCipherToken as XdrSerialize>::spec_emit(v)->Done_0) implies #[trigger] <SsvSealCipherToken as XdrDeserialize>::spec_parse(
        data,
        pos,
    ) == Parse::Done(v, pos + <SsvSealCipherToken as XdrSerialize>::spec_emit(v)->Done_0.len()) by {
        reveal(spec_parse_ssv_seal_cipher_token);
        lemma_at_split(data, pos, b0 + b1 + b2, b3);
        lemma_at_split(data, pos, b0 + b1, b2);
        lemma_at_split(data, pos, b0, b1);
        assert(<u32 as XdrDeserialize>::spec_parse(data, pos) == Parse::Done(v.ssv_seq, pos + b0.len()));
        assert(<XdrOpaque as XdrDeserialize>::spec_parse(data, pos + (b0).len()) == Parse::Done(v.iv, pos + (b0).len() + b1.len()));
        assert(<XdrOpaque as XdrDeserialize>::spec_parse(data, pos + (b0 + b1).len()) == Parse::Done(v.encr_data, pos + (b0 + b1).len() + b2.len()));
        assert(<XdrOpaque as XdrDeserialize>::spec_parse(data, pos + (b0 + b1 + b2).len()) == Parse::Done(v.hmac, pos + (b0 + b1 + b2).len() + b3.len()));
    }
}

/// A [`NfsFsLocationsServer`] whose fields each read back as themselves reads back as itself.
#[verifier::spinoff_prover]
#[verifier::rlimit(60)]
pub proof fn lemma_nfs_fs_locations_server_roundtrips(v: SpecNfsFsLocationsServer)
    requires
        spec_roundtrips::<i32>(v.currency),
        spec_roundtrips::<XdrOpaque>(v.info),
        spec_roundtrips::<Utf8StringCaseInsensitive>(v.server),
    ensures
        spec_roundtrips::<NfsFsLocationsServer>(v),
{
    let b0 = <i32 as XdrSerialize>::spec_emit(v.currency)->Done_0;
    let b1 = <XdrOpaque as XdrSerialize>::spec_emit(v.info)->Done_0;
    let b2 = <Utf8StringCaseInsensitive as XdrSerialize>::spec_emit(v.server)->Done_0;
    assert forall|data: Seq<u8>, pos: int|
        spec_at(data, pos, <NfsFsLocationsServer as XdrSerialize>::spec_emit(v)->Done_0) implies #[trigger] <NfsFsLocationsServer as XdrDeserialize>::spec_parse(
        data,
        pos,
    ) == Parse::Done(v, pos + <NfsFsLocationsServer as XdrSerialize>::spec_emit(v)->Done_0.len()) by {
        reveal(spec_parse_nfs_fs_locations_server);
        lemma_at_split(data, pos, b0 + b1, b2);
        lemma_at_split(data, pos, b0, b1);
        assert(<i32 as XdrDeserialize>::spec_parse(data, pos) == Parse::Done(v.currency, pos + b0.len()));
        assert(<XdrOpaque as XdrDeserialize>::spec_parse(data, pos + (b0).len()) == Parse::Done(v.info, pos + (b0).len() + b1.len()));
        assert(<Utf8StringCaseInsensitive as XdrDeserialize>::spec_parse(data, pos + (b0 + b1).len()) == Parse::Done(v.server, pos + (b0 + b1).len() + b2.len()));
    }
}

/// A [`NfsFsLocationsItem`] whose fields each read back as themselves reads back as itself.
#[verifier::spinoff_prover]
#[verifier::rlimit(60)]
pub proof fn lemma_nfs_fs_locations_item_roundtrips(v: SpecNfsFsLocationsItem)
    requires
        spec_vec_roundtrips::<NfsFsLocationsServer>(v.entries),
        spec_roundtrips::<NfsPathName>(v.rootpath),
    ensures
        spec_roundtrips::<NfsFsLocationsItem>(v),
{
    let b0 = spec_vec_emit::<NfsFsLocationsServer>(v.entries)->Done_0;
    let b1 = <NfsPathName as XdrSerialize>::spec_emit(v.rootpath)->Done_0;
    assert forall|data: Seq<u8>, pos: int|
        spec_at(data, pos, <NfsFsLocationsItem as XdrSerialize>::spec_emit(v)->Done_0) implies #[trigger] <NfsFsLocationsItem as XdrDeserialize>::spec_parse(
        data,
        pos,
    ) == Parse::Done(v, pos + <NfsFsLocationsItem as XdrSerialize>::spec_emit(v)->Done_0.len()) by {
        reveal(spec_parse_nfs_fs_locations_item);
        lemma_at_split(data, pos, b0, b1);
        assert(spec_vec_parse::<NfsFsLocationsServer>(data, pos) == Parse::Done(v.entries, pos + b0.len()));
        assert(<NfsPathName as XdrDeserialize>::spec_parse(data, pos + (b0).len()) == Parse::Done(v.rootpath, pos + (b0).len() + b1.len()));
    }
}

/// A [`NfsFsLocationsInfo`] whose fields each read back as themselves reads back as itself.
#[verifier::spinoff_prover]
#[verifier::rlimit(60)]
pub proof fn lemma_nfs_fs_locations_info_roundtrips(v: SpecNfsFsLocationsInfo)
    requires
        spec_roundtrips::<u32>(v.flags),
        spec_roundtrips::<i32>(v.valid_for),
        spec_roundtrips::<NfsPathName>(v.fs_root),
        spec_vec_roundtrips::<NfsFsLocationsItem>(v.items),
    ensures
        spec_roundtrips::<NfsFsLocationsInfo>(v),
{
    let b0 = <u32 as XdrSerialize>::spec_emit(v.flags)->Done_0;
    let b1 = <i32 as XdrSerialize>::spec_emit(v.valid_for)->Done_0;
    let b2 = <NfsPathName as XdrSerialize>::spec_emit(v.fs_root)->Done_0;
    let b3 = spec_vec_emit::<NfsFsLocationsItem>(v.items)->Done_0;
    assert forall|data: Seq<u8>, pos: int|
        spec_at(data, pos, <NfsFsLocationsInfo as XdrSerialize>::spec_emit(v)->Done_0) implies #[trigger] <NfsFsLocationsInfo as XdrDeserialize>::spec_parse(
        data,
        pos,
    ) == Parse::Done(v, pos + <NfsFsLocationsInfo as XdrSerialize>::spec_emit(v)->Done_0.len()) by {
        reveal(spec_parse_nfs_fs_locations_info);
        lemma_at_split(data, pos, b0 + b1 + b2, b3);
        lemma_at_split(data, pos, b0 + b1, b2);
        lemma_at_split(data, pos, b0, b1);
        assert(<u32 as XdrDeserialize>::spec_parse(data, pos) == Parse::Done(v.flags, pos + b0.len()));
        assert(<i32 as XdrDeserialize>::spec_parse(data, pos + (b0).len()) == Parse::Done(v.valid_for, pos + (b0).len() + b1.len()));
        assert(<NfsPathName as XdrDeserialize>::spec_parse(data, pos + (b0 + b1).len()) == Parse::Done(v.fs_root, pos + (b0 + b1).len() + b2.len()));
        assert(spec_vec_parse::<NfsFsLocationsItem>(data, pos + (b0 + b1 + b2).len()) == Parse::Done(v.items, pos + (b0 + b1 + b2).len() + b3.len()));
    }
}

/// A [`NfsFileLayoutHint`] whose fields each read back as themselves reads back as itself.
#[verifier::spinoff_prover]
#[verifier::rlimit(60)]
pub proof fn lemma_nfs_file_layout_hint_roundtrips(v: SpecNfsFileLayoutHint)
    requires
        spec_roundtrips::<u32>(v.care),
        spec_roundtrips::<NflUtil>(v.util),
        spec_roundtrips::<Count>(v.stripe_count),
    ensures
        spec_roundtrips::<NfsFileLayoutHint>(v),
{
    let b0 = <u32 as XdrSerialize>::spec_emit(v.care)->Done_0;
    let b1 = <NflUtil as XdrSerialize>::spec_emit(v.util)->Done_0;
    let b2 = <Count as XdrSerialize>::spec_emit(v.stripe_count)->Done_0;
    assert forall|data: Seq<u8>, pos: int|
        spec_at(data, pos, <NfsFileLayoutHint as XdrSerialize>::spec_emit(v)->Done_0) implies #[trigger] <NfsFileLayoutHint as XdrDeserialize>::spec_parse(
        data,
        pos,
    ) == Parse::Done(v, pos + <NfsFileLayoutHint as XdrSerialize>::spec_emit(v)->Done_0.len()) by {
        reveal(spec_parse_nfs_file_layout_hint);
        lemma_at_split(data, pos, b0 + b1, b2);
        lemma_at_split(data, pos, b0, b1);
        assert(<u32 as XdrDeserialize>::spec_parse(data, pos) == Parse::Done(v.care, pos + b0.len()));
        assert(<NflUtil as XdrDeserialize>::spec_parse(data, pos + (b0).len()) == Parse::Done(v.util, pos + (b0).len() + b1.len()));
        assert(<Count as XdrDeserialize>::spec_parse(data, pos + (b0 + b1).len()) == Parse::Done(v.stripe_count, pos + (b0 + b1).len() + b2.len()));
    }
}

/// A [`NfsFileLayoutDsAddress`] whose fields each read back as themselves reads back as itself.
#[verifier::spinoff_prover]
#[verifier::rlimit(60)]
pub proof fn lemma_nfs_file_layout_ds_address_roundtrips(v: SpecNfsFileLayoutDsAddress)
    requires
        spec_roundtrips::<Vec<u32>>(v.stripe_indices),
        spec_vecs_roundtrips::<NetAddress>(v.multipath_ds_list),
    ensures
        spec_roundtrips::<NfsFileLayoutDsAddress>(v),
{
    let b0 = <Vec<u32> as XdrSerialize>::spec_emit(v.stripe_indices)->Done_0;
    let b1 = spec_vecs_emit::<NetAddress>(v.multipath_ds_list)->Done_0;
    assert forall|data: Seq<u8>, pos: int|
        spec_at(data, pos, <NfsFileLayoutDsAddress as XdrSerialize>::spec_emit(v)->Done_0) implies #[trigger] <NfsFileLayoutDsAddress as XdrDeserialize>::spec_parse(
        data,
        pos,
    ) == Parse::Done(v, pos + <NfsFileLayoutDsAddress as XdrSerialize>::spec_emit(v)->Done_0.len()) by {
        reveal(spec_parse_nfs_file_layout_ds_address);
        lemma_at_split(data, pos, b0, b1);
        assert(<Vec<u32> as XdrDeserialize>::spec_parse(data, pos) == Parse::Done(v.stripe_indices, pos + b0.len()));
        assert(spec_vecs_parse::<NetAddress>(data, pos + (b0).len()) == Parse::Done(v.multipath_ds_list, pos + (b0).len() + b1.len()));
    }
}

/// A [`NfsFileLayout`] whose fields each read back as themselves reads back as itself.
#[verifier::spinoff_prover]
#[verifier::rlimit(60)]
pub proof fn lemma_nfs_file_layout_roundtrips(v: SpecNfsFileLayout)
    requires
        spec_roundtrips::<DeviceId>(v.device_id),
        spec_roundtrips::<NflUtil>(v.util),
        spec_roundtrips::<u32>(v.first_stripe_index),
        spec_roundtrips::<Offset>(v.pattern_offset),
        spec_vec_roundtrips::<NfsFh>(v.fh_list),
    ensures
        spec_roundtrips::<NfsFileLayout>(v),
{
    let b0 = <DeviceId as XdrSerialize>::spec_emit(v.device_id)->Done_0;
    let b1 = <NflUtil as XdrSerialize>::spec_emit(v.util)->Done_0;
    let b2 = <u32 as XdrSerialize>::spec_emit(v.first_stripe_index)->Done_0;
    let b3 = <Offset as XdrSerialize>::spec_emit(v.pattern_offset)->Done_0;
    let b4 = spec_vec_emit::<NfsFh>(v.fh_list)->Done_0;
    assert forall|data: Seq<u8>, pos: int|
        spec_at(data, pos, <NfsFileLayout as XdrSerialize>::spec_emit(v)->Done_0) implies #[trigger] <NfsFileLayout as XdrDeserialize>::spec_parse(
        data,
        pos,
    ) == Parse::Done(v, pos + <NfsFileLayout as XdrSerialize>::spec_emit(v)->Done_0.len()) by {
        reveal(spec_parse_nfs_file_layout);
        lemma_at_split(data, pos, b0 + b1 + b2 + b3, b4);
        lemma_at_split(data, pos, b0 + b1 + b2, b3);
        lemma_at_split(data, pos, b0 + b1, b2);
        lemma_at_split(data, pos, b0, b1);
        assert(<DeviceId as XdrDeserialize>::spec_parse(data, pos) == Parse::Done(v.device_id, pos + b0.len()));
        assert(<NflUtil as XdrDeserialize>::spec_parse(data, pos + (b0).len()) == Parse::Done(v.util, pos + (b0).len() + b1.len()));
        assert(<u32 as XdrDeserialize>::spec_parse(data, pos + (b0 + b1).len()) == Parse::Done(v.first_stripe_index, pos + (b0 + b1).len() + b2.len()));
        assert(<Offset as XdrDeserialize>::spec_parse(data, pos + (b0 + b1 + b2).len()) == Parse::Done(v.pattern_offset, pos + (b0 + b1 + b2).len() + b3.len()));
        assert(spec_vec_parse::<NfsFh>(data, pos + (b0 + b1 + b2 + b3).len()) == Parse::Done(v.fh_list, pos + (b0 + b1 + b2 + b3).len() + b4.len()));
    }
}

/// A [`AccessArgs`] whose fields each read back as themselves reads back as itself.
#[verifier::spinoff_prover]
#[verifier::rlimit(60)]
pub proof fn lemma_access_args_roundtrips(v: SpecAccessArgs)
    requires
        spec_roundtrips::<u32>(v.access),
    ensures
        spec_roundtrips::<AccessArgs>(v),
{
    let b0 = <u32 as XdrSerialize>::spec_emit(v.access)->Done_0;
    assert forall|data: Seq<u8>, pos: int|
        spec_at(data, pos, <AccessArgs as XdrSerialize>::spec_emit(v)->Done_0) implies #[trigger] <AccessArgs as XdrDeserialize>::spec_parse(
        data,
        pos,
    ) == Parse::Done(v, pos + <AccessArgs as XdrSerialize>::spec_emit(v)->Done_0.len()) by {
        reveal(spec_parse_access_args);
        assert(<u32 as XdrDeserialize>::spec_parse(data, pos) == Parse::Done(v.access, pos + b0.len()));
    }
}

/// A [`AccessOk`] whose fields each read back as themselves reads back as itself.
#[verifier::spinoff_prover]
#[verifier::rlimit(60)]
pub proof fn lemma_access_ok_roundtrips(v: SpecAccessOk)
    requires
        spec_roundtrips::<u32>(v.supported),
        spec_roundtrips::<u32>(v.access),
    ensures
        spec_roundtrips::<AccessOk>(v),
{
    let b0 = <u32 as XdrSerialize>::spec_emit(v.supported)->Done_0;
    let b1 = <u32 as XdrSerialize>::spec_emit(v.access)->Done_0;
    assert forall|data: Seq<u8>, pos: int|
        spec_at(data, pos, <AccessOk as XdrSerialize>::spec_emit(v)->Done_0) implies #[trigger] <AccessOk as XdrDeserialize>::spec_parse(
        data,
        pos,
    ) == Parse::Done(v, pos + <AccessOk as XdrSerialize>::spec_emit(v)->Done_0.len()) by {
        reveal(spec_parse_access_ok);
        lemma_at_split(data, pos, b0, b1);
        assert(<u32 as XdrDeserialize>::spec_parse(data, pos) == Parse::Done(v.supported, pos + b0.len()));
        assert(<u32 as XdrDeserialize>::spec_parse(data, pos + (b0).len()) == Parse::Done(v.access, pos + (b0).len() + b1.len()));
    }
}

/// A [`CloseArgs`] whose fields each read back as themselves reads back as itself.
#[verifier::spinoff_prover]
#[verifier::rlimit(60)]
pub proof fn lemma_close_args_roundtrips(v: SpecCloseArgs)
    requires
        spec_roundtrips::<SeqId>(v.seq_id),
        spec_roundtrips::<StateId>(v.open_state_id),
    ensures
        spec_roundtrips::<CloseArgs>(v),
{
    let b0 = <SeqId as XdrSerialize>::spec_emit(v.seq_id)->Done_0;
    let b1 = <StateId as XdrSerialize>::spec_emit(v.open_state_id)->Done_0;
    assert forall|data: Seq<u8>, pos: int|
        spec_at(data, pos, <CloseArgs as XdrSerialize>::spec_emit(v)->Done_0) implies #[trigger] <CloseArgs as XdrDeserialize>::spec_parse(
        data,
        pos,
    ) == Parse::Done(v, pos + <CloseArgs as XdrSerialize>::spec_emit(v)->Done_0.len()) by {
        reveal(spec_parse_close_args);
        lemma_at_split(data, pos, b0, b1);
        assert(<SeqId as XdrDeserialize>::spec_parse(data, pos) == Parse::Done(v.seq_id, pos + b0.len()));
        assert(<StateId as XdrDeserialize>::spec_parse(data, pos + (b0).len()) == Parse::Done(v.open_state_id, pos + (b0).len() + b1.len()));
    }
}

/// A [`CloseOk`] whose fields each read back as themselves reads back as itself.
#[verifier::spinoff_prover]
#[verifier::rlimit(60)]
pub proof fn lemma_close_ok_roundtrips(v: SpecCloseOk)
    requires
        spec_roundtrips::<StateId>(v.state_id),
    ensures
        spec_roundtrips::<CloseOk>(v),
{
    let b0 = <StateId as XdrSerialize>::spec_emit(v.state_id)->Done_0;
    assert forall|data: Seq<u8>, pos: int|
        spec_at(data, pos, <CloseOk as XdrSerialize>::spec_emit(v)->Done_0) implies #[trigger] <CloseOk as XdrDeserialize>::spec_parse(
        data,
        pos,
    ) == Parse::Done(v, pos + <CloseOk as XdrSerialize>::spec_emit(v)->Done_0.len()) by {
        reveal(spec_parse_close_ok);
        assert(<StateId as XdrDeserialize>::spec_parse(data, pos) == Parse::Done(v.state_id, pos + b0.len()));
    }
}

/// A [`CommitArgs`] whose fields each read back as themselves reads back as itself.
#[verifier::spinoff_prover]
#[verifier::rlimit(60)]
pub proof fn lemma_commit_args_roundtrips(v: SpecCommitArgs)
    requires
        spec_roundtrips::<Offset>(v.offset),
        spec_roundtrips::<Count>(v.count),
    ensures
        spec_roundtrips::<CommitArgs>(v),
{
    let b0 = <Offset as XdrSerialize>::spec_emit(v.offset)->Done_0;
    let b1 = <Count as XdrSerialize>::spec_emit(v.count)->Done_0;
    assert forall|data: Seq<u8>, pos: int|
        spec_at(data, pos, <CommitArgs as XdrSerialize>::spec_emit(v)->Done_0) implies #[trigger] <CommitArgs as XdrDeserialize>::spec_parse(
        data,
        pos,
    ) == Parse::Done(v, pos + <CommitArgs as XdrSerialize>::spec_emit(v)->Done_0.len()) by {
        reveal(spec_parse_commit_args);
        lemma_at_split(data, pos, b0, b1);
        assert(<Offset as XdrDeserialize>::spec_parse(data, pos) == Parse::Done(v.offset, pos + b0.len()));
        assert(<Count as XdrDeserialize>::spec_parse(data, pos + (b0).len()) == Parse::Done(v.count, pos + (b0).len() + b1.len()));
    }
}

/// A [`CommitOk`] whose fields each read back as themselves reads back as itself.
#[verifier::spinoff_prover]
#[verifier::rlimit(60)]
pub proof fn lemma_commit_ok_roundtrips(v: SpecCommitOk)
    requires
        spec_roundtrips::<Verifier>(v.verifier),
    ensures
        spec_roundtrips::<CommitOk>(v),
{
    let b0 = <Verifier as XdrSerialize>::spec_emit(v.verifier)->Done_0;
    assert forall|data: Seq<u8>, pos: int|
        spec_at(data, pos, <CommitOk as XdrSerialize>::spec_emit(v)->Done_0) implies #[trigger] <CommitOk as XdrDeserialize>::spec_parse(
        data,
        pos,
    ) == Parse::Done(v, pos + <CommitOk as XdrSerialize>::spec_emit(v)->Done_0.len()) by {
        reveal(spec_parse_commit_ok);
        assert(<Verifier as XdrDeserialize>::spec_parse(data, pos) == Parse::Done(v.verifier, pos + b0.len()));
    }
}

/// A [`CreateType`] whose contents read back as themselves reads back as itself.
/// (A value written as it is does not: `Invalid`.)
#[verifier::spinoff_prover]
#[verifier::rlimit(60)]
pub proof fn lemma_create_type_roundtrips(v: SpecCreateType)
    requires
        match v {
            SpecCreateType::Link(x) => spec_roundtrips::<LinkText>(x),
            SpecCreateType::Block(x) => spec_roundtrips::<NfsSpecData>(x),
            SpecCreateType::Character(x) => spec_roundtrips::<NfsSpecData>(x),
            SpecCreateType::Socket => true,
            SpecCreateType::Fifo => true,
            SpecCreateType::Directory => true,
            SpecCreateType::Invalid(_) => false,
        },
    ensures
        spec_roundtrips::<CreateType>(v),
{
    match v {
        SpecCreateType::Link(x) => {
            lemma_nfs_file_type_roundtrips(NfsFileType::Link);
            let a = <NfsFileType as XdrSerialize>::spec_emit(NfsFileType::Link)->Done_0;
            let b = <LinkText as XdrSerialize>::spec_emit(x)->Done_0;
            assert forall|data: Seq<u8>, pos: int|
                spec_at(data, pos, <CreateType as XdrSerialize>::spec_emit(v)->Done_0) implies #[trigger] <CreateType as XdrDeserialize>::spec_parse(
                data,
                pos,
            ) == Parse::Done(v, pos + <CreateType as XdrSerialize>::spec_emit(v)->Done_0.len()) by {
                reveal(spec_parse_create_type);
                lemma_at_split(data, pos, a, b);
                assert(<NfsFileType as XdrDeserialize>::spec_parse(data, pos) == Parse::Done(NfsFileType::Link, pos + 4));
            }
        },
        SpecCreateType::Block(x) => {
            lemma_nfs_file_type_roundtrips(NfsFileType::Block);
            let a = <NfsFileType as XdrSerialize>::spec_emit(NfsFileType::Block)->Done_0;
            let b = <NfsSpecData as XdrSerialize>::spec_emit(x)->Done_0;
            assert forall|data: Seq<u8>, pos: int|
                spec_at(data, pos, <CreateType as XdrSerialize>::spec_emit(v)->Done_0) implies #[trigger] <CreateType as XdrDeserialize>::spec_parse(
                data,
                pos,
            ) == Parse::Done(v, pos + <CreateType as XdrSerialize>::spec_emit(v)->Done_0.len()) by {
                reveal(spec_parse_create_type);
                lemma_at_split(data, pos, a, b);
                assert(<NfsFileType as XdrDeserialize>::spec_parse(data, pos) == Parse::Done(NfsFileType::Block, pos + 4));
            }
        },
        SpecCreateType::Character(x) => {
            lemma_nfs_file_type_roundtrips(NfsFileType::Character);
            let a = <NfsFileType as XdrSerialize>::spec_emit(NfsFileType::Character)->Done_0;
            let b = <NfsSpecData as XdrSerialize>::spec_emit(x)->Done_0;
            assert forall|data: Seq<u8>, pos: int|
                spec_at(data, pos, <CreateType as XdrSerialize>::spec_emit(v)->Done_0) implies #[trigger] <CreateType as XdrDeserialize>::spec_parse(
                data,
                pos,
            ) == Parse::Done(v, pos + <CreateType as XdrSerialize>::spec_emit(v)->Done_0.len()) by {
                reveal(spec_parse_create_type);
                lemma_at_split(data, pos, a, b);
                assert(<NfsFileType as XdrDeserialize>::spec_parse(data, pos) == Parse::Done(NfsFileType::Character, pos + 4));
            }
        },
        SpecCreateType::Socket => {
            lemma_nfs_file_type_roundtrips(NfsFileType::Socket);
            let a = <NfsFileType as XdrSerialize>::spec_emit(NfsFileType::Socket)->Done_0;
            assert forall|data: Seq<u8>, pos: int|
                spec_at(data, pos, <CreateType as XdrSerialize>::spec_emit(v)->Done_0) implies #[trigger] <CreateType as XdrDeserialize>::spec_parse(
                data,
                pos,
            ) == Parse::Done(v, pos + <CreateType as XdrSerialize>::spec_emit(v)->Done_0.len()) by {
                reveal(spec_parse_create_type);
                assert(<NfsFileType as XdrDeserialize>::spec_parse(data, pos) == Parse::Done(NfsFileType::Socket, pos + 4));
            }
        },
        SpecCreateType::Fifo => {
            lemma_nfs_file_type_roundtrips(NfsFileType::Fifo);
            let a = <NfsFileType as XdrSerialize>::spec_emit(NfsFileType::Fifo)->Done_0;
            assert forall|data: Seq<u8>, pos: int|
                spec_at(data, pos, <CreateType as XdrSerialize>::spec_emit(v)->Done_0) implies #[trigger] <CreateType as XdrDeserialize>::spec_parse(
                data,
                pos,
            ) == Parse::Done(v, pos + <CreateType as XdrSerialize>::spec_emit(v)->Done_0.len()) by {
                reveal(spec_parse_create_type);
                assert(<NfsFileType as XdrDeserialize>::spec_parse(data, pos) == Parse::Done(NfsFileType::Fifo, pos + 4));
            }
        },
        SpecCreateType::Directory => {
            lemma_nfs_file_type_roundtrips(NfsFileType::Directory);
            let a = <NfsFileType as XdrSerialize>::spec_emit(NfsFileType::Directory)->Done_0;
            assert forall|data: Seq<u8>, pos: int|
                spec_at(data, pos, <CreateType as XdrSerialize>::spec_emit(v)->Done_0) implies #[trigger] <CreateType as XdrDeserialize>::spec_parse(
                data,
                pos,
            ) == Parse::Done(v, pos + <CreateType as XdrSerialize>::spec_emit(v)->Done_0.len()) by {
                reveal(spec_parse_create_type);
                assert(<NfsFileType as XdrDeserialize>::spec_parse(data, pos) == Parse::Done(NfsFileType::Directory, pos + 4));
            }
        },
        SpecCreateType::Invalid(_) => {},
    }
}

/// A [`CreateArgs`] whose fields each read back as themselves reads back as itself.
#[verifier::spinoff_prover]
#[verifier::rlimit(60)]
pub proof fn lemma_create_args_roundtrips(v: SpecCreateArgs)
    requires
        spec_roundtrips::<CreateType>(v.object_type),
        spec_roundtrips::<Component>(v.object_name),
        spec_roundtrips::<FileAttrs>(v.create_attrs),
    ensures
        spec_roundtrips::<CreateArgs>(v),
{
    let b0 = <CreateType as XdrSerialize>::spec_emit(v.object_type)->Done_0;
    let b1 = <Component as XdrSerialize>::spec_emit(v.object_name)->Done_0;
    let b2 = <FileAttrs as XdrSerialize>::spec_emit(v.create_attrs)->Done_0;
    assert forall|data: Seq<u8>, pos: int|
        spec_at(data, pos, <CreateArgs as XdrSerialize>::spec_emit(v)->Done_0) implies #[trigger] <CreateArgs as XdrDeserialize>::spec_parse(
        data,
        pos,
    ) == Parse::Done(v, pos + <CreateArgs as XdrSerialize>::spec_emit(v)->Done_0.len()) by {
        reveal(spec_parse_create_args);
        lemma_at_split(data, pos, b0 + b1, b2);
        lemma_at_split(data, pos, b0, b1);
        assert(<CreateType as XdrDeserialize>::spec_parse(data, pos) == Parse::Done(v.object_type, pos + b0.len()));
        assert(<Component as XdrDeserialize>::spec_parse(data, pos + (b0).len()) == Parse::Done(v.object_name, pos + (b0).len() + b1.len()));
        assert(<FileAttrs as XdrDeserialize>::spec_parse(data, pos + (b0 + b1).len()) == Parse::Done(v.create_attrs, pos + (b0 + b1).len() + b2.len()));
    }
}

/// A [`CreateOk`] whose fields each read back as themselves reads back as itself.
#[verifier::spinoff_prover]
#[verifier::rlimit(60)]
pub proof fn lemma_create_ok_roundtrips(v: SpecCreateOk)
    requires
        spec_roundtrips::<ChangeInfo>(v.change_info),
        spec_roundtrips::<BitMap>(v.attrset),
    ensures
        spec_roundtrips::<CreateOk>(v),
{
    let b0 = <ChangeInfo as XdrSerialize>::spec_emit(v.change_info)->Done_0;
    let b1 = <BitMap as XdrSerialize>::spec_emit(v.attrset)->Done_0;
    assert forall|data: Seq<u8>, pos: int|
        spec_at(data, pos, <CreateOk as XdrSerialize>::spec_emit(v)->Done_0) implies #[trigger] <CreateOk as XdrDeserialize>::spec_parse(
        data,
        pos,
    ) == Parse::Done(v, pos + <CreateOk as XdrSerialize>::spec_emit(v)->Done_0.len()) by {
        reveal(spec_parse_create_ok);
        lemma_at_split(data, pos, b0, b1);
        assert(<ChangeInfo as XdrDeserialize>::spec_parse(data, pos) == Parse::Done(v.change_info, pos + b0.len()));
        assert(<BitMap as XdrDeserialize>::spec_parse(data, pos + (b0).len()) == Parse::Done(v.attrset, pos + (b0).len() + b1.len()));
    }
}

/// A [`PurgeDelegationsArgs`] whose fields each read back as themselves reads back as itself.
#[verifier::spinoff_prover]
#[verifier::rlimit(60)]
pub proof fn lemma_purge_delegations_args_roundtrips(v: SpecPurgeDelegationsArgs)
    requires
        spec_roundtrips::<ClientId>(v.client_id),
    ensures
        spec_roundtrips::<PurgeDelegationsArgs>(v),
{
    let b0 = <ClientId as XdrSerialize>::spec_emit(v.client_id)->Done_0;
    assert forall|data: Seq<u8>, pos: int|
        spec_at(data, pos, <PurgeDelegationsArgs as XdrSerialize>::spec_emit(v)->Done_0) implies #[trigger] <PurgeDelegationsArgs as XdrDeserialize>::spec_parse(
        data,
        pos,
    ) == Parse::Done(v, pos + <PurgeDelegationsArgs as XdrSerialize>::spec_emit(v)->Done_0.len()) by {
        reveal(spec_parse_purge_delegations_args);
        assert(<ClientId as XdrDeserialize>::spec_parse(data, pos) == Parse::Done(v.client_id, pos + b0.len()));
    }
}

/// A [`ReturnDelegationArgs`] whose fields each read back as themselves reads back as itself.
#[verifier::spinoff_prover]
#[verifier::rlimit(60)]
pub proof fn lemma_return_delegation_args_roundtrips(v: SpecReturnDelegationArgs)
    requires
        spec_roundtrips::<StateId>(v.delegation_state_id),
    ensures
        spec_roundtrips::<ReturnDelegationArgs>(v),
{
    let b0 = <StateId as XdrSerialize>::spec_emit(v.delegation_state_id)->Done_0;
    assert forall|data: Seq<u8>, pos: int|
        spec_at(data, pos, <ReturnDelegationArgs as XdrSerialize>::spec_emit(v)->Done_0) implies #[trigger] <ReturnDelegationArgs as XdrDeserialize>::spec_parse(
        data,
        pos,
    ) == Parse::Done(v, pos + <ReturnDelegationArgs as XdrSerialize>::spec_emit(v)->Done_0.len()) by {
        reveal(spec_parse_return_delegation_args);
        assert(<StateId as XdrDeserialize>::spec_parse(data, pos) == Parse::Done(v.delegation_state_id, pos + b0.len()));
    }
}

/// A [`GetAttributesArgs`] whose fields each read back as themselves reads back as itself.
#[verifier::spinoff_prover]
#[verifier::rlimit(60)]
pub proof fn lemma_get_attributes_args_roundtrips(v: SpecGetAttributesArgs)
    requires
        spec_roundtrips::<BitMap>(v.attr_request),
    ensures
        spec_roundtrips::<GetAttributesArgs>(v),
{
    let b0 = <BitMap as XdrSerialize>::spec_emit(v.attr_request)->Done_0;
    assert forall|data: Seq<u8>, pos: int|
        spec_at(data, pos, <GetAttributesArgs as XdrSerialize>::spec_emit(v)->Done_0) implies #[trigger] <GetAttributesArgs as XdrDeserialize>::spec_parse(
        data,
        pos,
    ) == Parse::Done(v, pos + <GetAttributesArgs as XdrSerialize>::spec_emit(v)->Done_0.len()) by {
        reveal(spec_parse_get_attributes_args);
        assert(<BitMap as XdrDeserialize>::spec_parse(data, pos) == Parse::Done(v.attr_request, pos + b0.len()));
    }
}

/// A [`GetAttributesOk`] whose fields each read back as themselves reads back as itself.
#[verifier::spinoff_prover]
#[verifier::rlimit(60)]
pub proof fn lemma_get_attributes_ok_roundtrips(v: SpecGetAttributesOk)
    requires
        spec_roundtrips::<FileAttrs>(v.attributes),
    ensures
        spec_roundtrips::<GetAttributesOk>(v),
{
    let b0 = <FileAttrs as XdrSerialize>::spec_emit(v.attributes)->Done_0;
    assert forall|data: Seq<u8>, pos: int|
        spec_at(data, pos, <GetAttributesOk as XdrSerialize>::spec_emit(v)->Done_0) implies #[trigger] <GetAttributesOk as XdrDeserialize>::spec_parse(
        data,
        pos,
    ) == Parse::Done(v, pos + <GetAttributesOk as XdrSerialize>::spec_emit(v)->Done_0.len()) by {
        reveal(spec_parse_get_attributes_ok);
        assert(<FileAttrs as XdrDeserialize>::spec_parse(data, pos) == Parse::Done(v.attributes, pos + b0.len()));
    }
}

/// A [`GetFhOk`] whose fields each read back as themselves reads back as itself.
#[verifier::spinoff_prover]
#[verifier::rlimit(60)]
pub proof fn lemma_get_fh_ok_roundtrips(v: SpecGetFhOk)
    requires
        spec_roundtrips::<NfsFh>(v.object),
    ensures
        spec_roundtrips::<GetFhOk>(v),
{
    let b0 = <NfsFh as XdrSerialize>::spec_emit(v.object)->Done_0;
    assert forall|data: Seq<u8>, pos: int|
        spec_at(data, pos, <GetFhOk as XdrSerialize>::spec_emit(v)->Done_0) implies #[trigger] <GetFhOk as XdrDeserialize>::spec_parse(
        data,
        pos,
    ) == Parse::Done(v, pos + <GetFhOk as XdrSerialize>::spec_emit(v)->Done_0.len()) by {
        reveal(spec_parse_get_fh_ok);
        assert(<NfsFh as XdrDeserialize>::spec_parse(data, pos) == Parse::Done(v.object, pos + b0.len()));
    }
}

/// A [`LinkArgs`] whose fields each read back as themselves reads back as itself.
#[verifier::spinoff_prover]
#[verifier::rlimit(60)]
pub proof fn lemma_link_args_roundtrips(v: SpecLinkArgs)
    requires
        spec_roundtrips::<Component>(v.new_name),
    ensures
        spec_roundtrips::<LinkArgs>(v),
{
    let b0 = <Component as XdrSerialize>::spec_emit(v.new_name)->Done_0;
    assert forall|data: Seq<u8>, pos: int|
        spec_at(data, pos, <LinkArgs as XdrSerialize>::spec_emit(v)->Done_0) implies #[trigger] <LinkArgs as XdrDeserialize>::spec_parse(
        data,
        pos,
    ) == Parse::Done(v, pos + <LinkArgs as XdrSerialize>::spec_emit(v)->Done_0.len()) by {
        reveal(spec_parse_link_args);
        assert(<Component as XdrDeserialize>::spec_parse(data, pos) == Parse::Done(v.new_name, pos + b0.len()));
    }
}

/// A [`LinkOk`] whose fields each read back as themselves reads back as itself.
#[verifier::spinoff_prover]
#[verifier::rlimit(60)]
pub proof fn lemma_link_ok_roundtrips(v: SpecLinkOk)
    requires
        spec_roundtrips::<ChangeInfo>(v.change_info),
    ensures
        spec_roundtrips::<LinkOk>(v),
{
    let b0 = <ChangeInfo as XdrSerialize>::spec_emit(v.change_info)->Done_0;
    assert forall|data: Seq<u8>, pos: int|
        spec_at(data, pos, <LinkOk as XdrSerialize>::spec_emit(v)->Done_0) implies #[trigger] <LinkOk as XdrDeserialize>::spec_parse(
        data,
        pos,
    ) == Parse::Done(v, pos + <LinkOk as XdrSerialize>::spec_emit(v)->Done_0.len()) by {
        reveal(spec_parse_link_ok);
        assert(<ChangeInfo as XdrDeserialize>::spec_parse(data, pos) == Parse::Done(v.change_info, pos + b0.len()));
    }
}

/// A [`OpenToLockOwner`] whose fields each read back as themselves reads back as itself.
#[verifier::spinoff_prover]
#[verifier::rlimit(60)]
pub proof fn lemma_open_to_lock_owner_roundtrips(v: SpecOpenToLockOwner)
    requires
        spec_roundtrips::<SeqId>(v.open_seq_id),
        spec_roundtrips::<StateId>(v.open_state_id),
        spec_roundtrips::<SeqId>(v.lock_seq_id),
        spec_roundtrips::<LockOwner>(v.lock_owner),
    ensures
        spec_roundtrips::<OpenToLockOwner>(v),
{
    let b0 = <SeqId as XdrSerialize>::spec_emit(v.open_seq_id)->Done_0;
    let b1 = <StateId as XdrSerialize>::spec_emit(v.open_state_id)->Done_0;
    let b2 = <SeqId as XdrSerialize>::spec_emit(v.lock_seq_id)->Done_0;
    let b3 = <LockOwner as XdrSerialize>::spec_emit(v.lock_owner)->Done_0;
    assert forall|data: Seq<u8>, pos: int|
        spec_at(data, pos, <OpenToLockOwner as XdrSerialize>::spec_emit(v)->Done_0) implies #[trigger] <OpenToLockOwner as XdrDeserialize>::spec_parse(
        data,
        pos,
    ) == Parse::Done(v, pos + <OpenToLockOwner as XdrSerialize>::spec_emit(v)->Done_0.len()) by {
        reveal(spec_parse_open_to_lock_owner);
        lemma_at_split(data, pos, b0 + b1 + b2, b3);
        lemma_at_split(data, pos, b0 + b1, b2);
        lemma_at_split(data, pos, b0, b1);
        assert(<SeqId as XdrDeserialize>::spec_parse(data, pos) == Parse::Done(v.open_seq_id, pos + b0.len()));
        assert(<StateId as XdrDeserialize>::spec_parse(data, pos + (b0).len()) == Parse::Done(v.open_state_id, pos + (b0).len() + b1.len()));
        assert(<SeqId as XdrDeserialize>::spec_parse(data, pos + (b0 + b1).len()) == Parse::Done(v.lock_seq_id, pos + (b0 + b1).len() + b2.len()));
        assert(<LockOwner as XdrDeserialize>::spec_parse(data, pos + (b0 + b1 + b2).len()) == Parse::Done(v.lock_owner, pos + (b0 + b1 + b2).len() + b3.len()));
    }
}

/// A [`ExistingLockOwner`] whose fields each read back as themselves reads back as itself.
#[verifier::spinoff_prover]
#[verifier::rlimit(60)]
pub proof fn lemma_existing_lock_owner_roundtrips(v: SpecExistingLockOwner)
    requires
        spec_roundtrips::<StateId>(v.state_id),
        spec_roundtrips::<SeqId>(v.seq_id),
    ensures
        spec_roundtrips::<ExistingLockOwner>(v),
{
    let b0 = <StateId as XdrSerialize>::spec_emit(v.state_id)->Done_0;
    let b1 = <SeqId as XdrSerialize>::spec_emit(v.seq_id)->Done_0;
    assert forall|data: Seq<u8>, pos: int|
        spec_at(data, pos, <ExistingLockOwner as XdrSerialize>::spec_emit(v)->Done_0) implies #[trigger] <ExistingLockOwner as XdrDeserialize>::spec_parse(
        data,
        pos,
    ) == Parse::Done(v, pos + <ExistingLockOwner as XdrSerialize>::spec_emit(v)->Done_0.len()) by {
        reveal(spec_parse_existing_lock_owner);
        lemma_at_split(data, pos, b0, b1);
        assert(<StateId as XdrDeserialize>::spec_parse(data, pos) == Parse::Done(v.state_id, pos + b0.len()));
        assert(<SeqId as XdrDeserialize>::spec_parse(data, pos + (b0).len()) == Parse::Done(v.seq_id, pos + (b0).len() + b1.len()));
    }
}

/// A [`Locker`] whose contents read back as themselves reads back as itself.
/// (A value written as it is does not: `LockOwner`.)
#[verifier::spinoff_prover]
#[verifier::rlimit(60)]
pub proof fn lemma_locker_roundtrips(v: SpecLocker)
    requires
        match v {
            SpecLocker::OpenOwner(x) => spec_roundtrips::<OpenToLockOwner>(x),
            SpecLocker::LockOwner(_) => false,
        },
    ensures
        spec_roundtrips::<Locker>(v),
{
    match v {
        SpecLocker::OpenOwner(x) => {
            lemma_bool_roundtrips(true);
            let a = spec_u32_emit(spec_bool_word(true))->Done_0;
            let b = <OpenToLockOwner as XdrSerialize>::spec_emit(x)->Done_0;
            assert forall|data: Seq<u8>, pos: int|
                spec_at(data, pos, <Locker as XdrSerialize>::spec_emit(v)->Done_0) implies #[trigger] <Locker as XdrDeserialize>::spec_parse(
                data,
                pos,
            ) == Parse::Done(v, pos + <Locker as XdrSerialize>::spec_emit(v)->Done_0.len()) by {
                reveal(spec_parse_locker);
                lemma_at_split(data, pos, a, b);
                assert(<bool as XdrDeserialize>::spec_parse(data, pos) == Parse::Done(true, pos + 4));
            }
        },
            SpecLocker::LockOwner(_) => {},
    }
}

/// A [`LockArgs`] whose fields each read back as themselves reads back as itself.
#[verifier::spinoff_prover]
#[verifier::rlimit(60)]
pub proof fn lemma_lock_args_roundtrips(v: SpecLockArgs)
    requires
        spec_roundtrips::<NfsLockType>(v.lock_type),
        spec_roundtrips::<bool>(v.reclaim),
        spec_roundtrips::<Offset>(v.offset),
        spec_roundtrips::<Length>(v.length),
        spec_roundtrips::<Locker>(v.locker),
    ensures
        spec_roundtrips::<LockArgs>(v),
{
    let b0 = <NfsLockType as XdrSerialize>::spec_emit(v.lock_type)->Done_0;
    let b1 = <bool as XdrSerialize>::spec_emit(v.reclaim)->Done_0;
    let b2 = <Offset as XdrSerialize>::spec_emit(v.offset)->Done_0;
    let b3 = <Length as XdrSerialize>::spec_emit(v.length)->Done_0;
    let b4 = <Locker as XdrSerialize>::spec_emit(v.locker)->Done_0;
    assert forall|data: Seq<u8>, pos: int|
        spec_at(data, pos, <LockArgs as XdrSerialize>::spec_emit(v)->Done_0) implies #[trigger] <LockArgs as XdrDeserialize>::spec_parse(
        data,
        pos,
    ) == Parse::Done(v, pos + <LockArgs as XdrSerialize>::spec_emit(v)->Done_0.len()) by {
        reveal(spec_parse_lock_args);
        lemma_at_split(data, pos, b0 + b1 + b2 + b3, b4);
        lemma_at_split(data, pos, b0 + b1 + b2, b3);
        lemma_at_split(data, pos, b0 + b1, b2);
        lemma_at_split(data, pos, b0, b1);
        assert(<NfsLockType as XdrDeserialize>::spec_parse(data, pos) == Parse::Done(v.lock_type, pos + b0.len()));
        assert(<bool as XdrDeserialize>::spec_parse(data, pos + (b0).len()) == Parse::Done(v.reclaim, pos + (b0).len() + b1.len()));
        assert(<Offset as XdrDeserialize>::spec_parse(data, pos + (b0 + b1).len()) == Parse::Done(v.offset, pos + (b0 + b1).len() + b2.len()));
        assert(<Length as XdrDeserialize>::spec_parse(data, pos + (b0 + b1 + b2).len()) == Parse::Done(v.length, pos + (b0 + b1 + b2).len() + b3.len()));
        assert(<Locker as XdrDeserialize>::spec_parse(data, pos + (b0 + b1 + b2 + b3).len()) == Parse::Done(v.locker, pos + (b0 + b1 + b2 + b3).len() + b4.len()));
    }
}

/// A [`LockOk`] whose fields each read back as themselves reads back as itself.
#[verifier::spinoff_prover]
#[verifier::rlimit(60)]
pub proof fn lemma_lock_ok_roundtrips(v: SpecLockOk)
    requires
        spec_roundtrips::<StateId>(v.state_id),
    ensures
        spec_roundtrips::<LockOk>(v),
{
    let b0 = <StateId as XdrSerialize>::spec_emit(v.state_id)->Done_0;
    assert forall|data: Seq<u8>, pos: int|
        spec_at(data, pos, <LockOk as XdrSerialize>::spec_emit(v)->Done_0) implies #[trigger] <LockOk as XdrDeserialize>::spec_parse(
        data,
        pos,
    ) == Parse::Done(v, pos + <LockOk as XdrSerialize>::spec_emit(v)->Done_0.len()) by {
        reveal(spec_parse_lock_ok);
        assert(<StateId as XdrDeserialize>::spec_parse(data, pos) == Parse::Done(v.state_id, pos + b0.len()));
    }
}

/// A [`LockDenied`] whose fields each read back as themselves reads back as itself.
#[verifier::spinoff_prover]
#[verifier::rlimit(60)]
pub proof fn lemma_lock_denied_roundtrips(v: SpecLockDenied)
    requires
        spec_roundtrips::<Offset>(v.offset),
        spec_roundtrips::<Length>(v.length),
        spec_roundtrips::<NfsLockType>(v.lock_type),
        spec_roundtrips::<LockOwner>(v.owner),
    ensures
        spec_roundtrips::<LockDenied>(v),
{
    let b0 = <Offset as XdrSerialize>::spec_emit(v.offset)->Done_0;
    let b1 = <Length as XdrSerialize>::spec_emit(v.length)->Done_0;
    let b2 = <NfsLockType as XdrSerialize>::spec_emit(v.lock_type)->Done_0;
    let b3 = <LockOwner as XdrSerialize>::spec_emit(v.owner)->Done_0;
    assert forall|data: Seq<u8>, pos: int|
        spec_at(data, pos, <LockDenied as XdrSerialize>::spec_emit(v)->Done_0) implies #[trigger] <LockDenied as XdrDeserialize>::spec_parse(
        data,
        pos,
    ) == Parse::Done(v, pos + <LockDenied as XdrSerialize>::spec_emit(v)->Done_0.len()) by {
        reveal(spec_parse_lock_denied);
        lemma_at_split(data, pos, b0 + b1 + b2, b3);
        lemma_at_split(data, pos, b0 + b1, b2);
        lemma_at_split(data, pos, b0, b1);
        assert(<Offset as XdrDeserialize>::spec_parse(data, pos) == Parse::Done(v.offset, pos + b0.len()));
        assert(<Length as XdrDeserialize>::spec_parse(data, pos + (b0).len()) == Parse::Done(v.length, pos + (b0).len() + b1.len()));
        assert(<NfsLockType as XdrDeserialize>::spec_parse(data, pos + (b0 + b1).len()) == Parse::Done(v.lock_type, pos + (b0 + b1).len() + b2.len()));
        assert(<LockOwner as XdrDeserialize>::spec_parse(data, pos + (b0 + b1 + b2).len()) == Parse::Done(v.owner, pos + (b0 + b1 + b2).len() + b3.len()));
    }
}

/// A [`LockTestArgs`] whose fields each read back as themselves reads back as itself.
#[verifier::spinoff_prover]
#[verifier::rlimit(60)]
pub proof fn lemma_lock_test_args_roundtrips(v: SpecLockTestArgs)
    requires
        spec_roundtrips::<NfsLockType>(v.lock_type),
        spec_roundtrips::<Offset>(v.offset),
        spec_roundtrips::<Length>(v.length),
        spec_roundtrips::<LockOwner>(v.owner),
    ensures
        spec_roundtrips::<LockTestArgs>(v),
{
    let b0 = <NfsLockType as XdrSerialize>::spec_emit(v.lock_type)->Done_0;
    let b1 = <Offset as XdrSerialize>::spec_emit(v.offset)->Done_0;
    let b2 = <Length as XdrSerialize>::spec_emit(v.length)->Done_0;
    let b3 = <LockOwner as XdrSerialize>::spec_emit(v.owner)->Done_0;
    assert forall|data: Seq<u8>, pos: int|
        spec_at(data, pos, <LockTestArgs as XdrSerialize>::spec_emit(v)->Done_0) implies #[trigger] <LockTestArgs as XdrDeserialize>::spec_parse(
        data,
        pos,
    ) == Parse::Done(v, pos + <LockTestArgs as XdrSerialize>::spec_emit(v)->Done_0.len()) by {
        reveal(spec_parse_lock_test_args);
        lemma_at_split(data, pos, b0 + b1 + b2, b3);
        lemma_at_split(data, pos, b0 + b1, b2);
        lemma_at_split(data, pos, b0, b1);
        assert(<NfsLockType as XdrDeserialize>::spec_parse(data, pos) == Parse::Done(v.lock_type, pos + b0.len()));
        assert(<Offset as XdrDeserialize>::spec_parse(data, pos + (b0).len()) == Parse::Done(v.offset, pos + (b0).len() + b1.len()));
        assert(<Length as XdrDeserialize>::spec_parse(data, pos + (b0 + b1).len()) == Parse::Done(v.length, pos + (b0 + b1).len() + b2.len()));
        assert(<LockOwner as XdrDeserialize>::spec_parse(data, pos + (b0 + b1 + b2).len()) == Parse::Done(v.owner, pos + (b0 + b1 + b2).len() + b3.len()));
    }
}

/// A [`LockReleaseArgs`] whose fields each read back as themselves reads back as itself.
#[verifier::spinoff_prover]
#[verifier::rlimit(60)]
pub proof fn lemma_lock_release_args_roundtrips(v: SpecLockReleaseArgs)
    requires
        spec_roundtrips::<NfsLockType>(v.lock_type),
        spec_roundtrips::<SeqId>(v.seq_id),
        spec_roundtrips::<StateId>(v.state_id),
        spec_roundtrips::<Offset>(v.offset),
        spec_roundtrips::<Length>(v.length),
    ensures
        spec_roundtrips::<LockReleaseArgs>(v),
{
    let b0 = <NfsLockType as XdrSerialize>::spec_emit(v.lock_type)->Done_0;
    let b1 = <SeqId as XdrSerialize>::spec_emit(v.seq_id)->Done_0;
    let b2 = <StateId as XdrSerialize>::spec_emit(v.state_id)->Done_0;
    let b3 = <Offset as XdrSerialize>::spec_emit(v.offset)->Done_0;
    let b4 = <Length as XdrSerialize>::spec_emit(v.length)->Done_0;
    assert forall|data: Seq<u8>, pos: int|
        spec_at(data, pos, <LockReleaseArgs as XdrSerialize>::spec_emit(v)->Done_0) implies #[trigger] <LockReleaseArgs as XdrDeserialize>::spec_parse(
        data,
        pos,
    ) == Parse::Done(v, pos + <LockReleaseArgs as XdrSerialize>::spec_emit(v)->Done_0.len()) by {
        reveal(spec_parse_lock_release_args);
        lemma_at_split(data, pos, b0 + b1 + b2 + b3, b4);
        lemma_at_split(data, pos, b0 + b1 + b2, b3);
        lemma_at_split(data, pos, b0 + b1, b2);
        lemma_at_split(data, pos, b0, b1);
        assert(<NfsLockType as XdrDeserialize>::spec_parse(data, pos) == Parse::Done(v.lock_type, pos + b0.len()));
        assert(<SeqId as XdrDeserialize>::spec_parse(data, pos + (b0).len()) == Parse::Done(v.seq_id, pos + (b0).len() + b1.len()));
        assert(<StateId as XdrDeserialize>::spec_parse(data, pos + (b0 + b1).len()) == Parse::Done(v.state_id, pos + (b0 + b1).len() + b2.len()));
        assert(<Offset as XdrDeserialize>::spec_parse(data, pos + (b0 + b1 + b2).len()) == Parse::Done(v.offset, pos + (b0 + b1 + b2).len() + b3.len()));
        assert(<Length as XdrDeserialize>::spec_parse(data, pos + (b0 + b1 + b2 + b3).len()) == Parse::Done(v.length, pos + (b0 + b1 + b2 + b3).len() + b4.len()));
    }
}

/// A [`LockReleaseOk`] whose fields each read back as themselves reads back as itself.
#[verifier::spinoff_prover]
#[verifier::rlimit(60)]
pub proof fn lemma_lock_release_ok_roundtrips(v: SpecLockReleaseOk)
    requires
        spec_roundtrips::<StateId>(v.state_id),
    ensures
        spec_roundtrips::<LockReleaseOk>(v),
{
    let b0 = <StateId as XdrSerialize>::spec_emit(v.state_id)->Done_0;
    assert forall|data: Seq<u8>, pos: int|
        spec_at(data, pos, <LockReleaseOk as XdrSerialize>::spec_emit(v)->Done_0) implies #[trigger] <LockReleaseOk as XdrDeserialize>::spec_parse(
        data,
        pos,
    ) == Parse::Done(v, pos + <LockReleaseOk as XdrSerialize>::spec_emit(v)->Done_0.len()) by {
        reveal(spec_parse_lock_release_ok);
        assert(<StateId as XdrDeserialize>::spec_parse(data, pos) == Parse::Done(v.state_id, pos + b0.len()));
    }
}

/// A [`LookupArgs`] whose fields each read back as themselves reads back as itself.
#[verifier::spinoff_prover]
#[verifier::rlimit(60)]
pub proof fn lemma_lookup_args_roundtrips(v: SpecLookupArgs)
    requires
        spec_roundtrips::<Component>(v.object_name),
    ensures
        spec_roundtrips::<LookupArgs>(v),
{
    let b0 = <Component as XdrSerialize>::spec_emit(v.object_name)->Done_0;
    assert forall|data: Seq<u8>, pos: int|
        spec_at(data, pos, <LookupArgs as XdrSerialize>::spec_emit(v)->Done_0) implies #[trigger] <LookupArgs as XdrDeserialize>::spec_parse(
        data,
        pos,
    ) == Parse::Done(v, pos + <LookupArgs as XdrSerialize>::spec_emit(v)->Done_0.len()) by {
        reveal(spec_parse_lookup_args);
        assert(<Component as XdrDeserialize>::spec_parse(data, pos) == Parse::Done(v.object_name, pos + b0.len()));
    }
}

/// A [`VerifyAttributeDifferenceArgs`] whose fields each read back as themselves reads back as itself.
#[verifier::spinoff_prover]
#[verifier::rlimit(60)]
pub proof fn lemma_verify_attribute_difference_args_roundtrips(v: SpecVerifyAttributeDifferenceArgs)
    requires
        spec_roundtrips::<FileAttrs>(v.object_attrs),
    ensures
        spec_roundtrips::<VerifyAttributeDifferenceArgs>(v),
{
    let b0 = <FileAttrs as XdrSerialize>::spec_emit(v.object_attrs)->Done_0;
    assert forall|data: Seq<u8>, pos: int|
        spec_at(data, pos, <VerifyAttributeDifferenceArgs as XdrSerialize>::spec_emit(v)->Done_0) implies #[trigger] <VerifyAttributeDifferenceArgs as XdrDeserialize>::spec_parse(
        data,
        pos,
    ) == Parse::Done(v, pos + <VerifyAttributeDifferenceArgs as XdrSerialize>::spec_emit(v)->Done_0.len()) by {
        reveal(spec_parse_verify_attribute_difference_args);
        assert(<FileAttrs as XdrDeserialize>::spec_parse(data, pos) == Parse::Done(v.object_attrs, pos + b0.len()));
    }
}

/// A [`CreateMode`] reads back as itself.
pub proof fn lemma_create_mode_roundtrips(v: CreateMode)
    ensures
        spec_roundtrips::<CreateMode>(v),
{
    lemma_u32_roundtrips(v.spec_to_u32());
    assert forall|data: Seq<u8>, pos: int|
        spec_at(data, pos, <CreateMode as XdrSerialize>::spec_emit(v)->Done_0) implies #[trigger] <CreateMode as XdrDeserialize>::spec_parse(
        data,
        pos,
    ) == Parse::Done(v, pos + <CreateMode as XdrSerialize>::spec_emit(v)->Done_0.len()) by {
        assert(<u32 as XdrDeserialize>::spec_parse(data, pos) == Parse::Done(v.spec_to_u32(), pos + 4));
    }
}

/// A [`CreateVerifiedFileAttrs`] whose fields each read back as themselves reads back as itself.
#[verifier::spinoff_prover]
#[verifier::rlimit(60)]
pub proof fn lemma_create_verified_file_attrs_roundtrips(v: SpecCreateVerifiedFileAttrs)
    requires
        spec_roundtrips::<Verifier>(v.verifier),
        spec_roundtrips::<FileAttrs>(v.attrs),
    ensures
        spec_roundtrips::<CreateVerifiedFileAttrs>(v),
{
    let b0 = <Verifier as XdrSerialize>::spec_emit(v.verifier)->Done_0;
    let b1 = <FileAttrs as XdrSerialize>::spec_emit(v.attrs)->Done_0;
    assert forall|data: Seq<u8>, pos: int|
        spec_at(data, pos, <CreateVerifiedFileAttrs as XdrSerialize>::spec_emit(v)->Done_0) implies #[trigger] <CreateVerifiedFileAttrs as XdrDeserialize>::spec_parse(
        data,
        pos,
    ) == Parse::Done(v, pos + <CreateVerifiedFileAttrs as XdrSerialize>::spec_emit(v)->Done_0.len()) by {
        reveal(spec_parse_create_verified_file_attrs);
        lemma_at_split(data, pos, b0, b1);
        assert(<Verifier as XdrDeserialize>::spec_parse(data, pos) == Parse::Done(v.verifier, pos + b0.len()));
        assert(<FileAttrs as XdrDeserialize>::spec_parse(data, pos + (b0).len()) == Parse::Done(v.attrs, pos + (b0).len() + b1.len()));
    }
}

/// A [`CreateHow`] whose contents read back as themselves reads back as itself.
#[verifier::spinoff_prover]
#[verifier::rlimit(60)]
pub proof fn lemma_create_how_roundtrips(v: SpecCreateHow)
    requires
        match v {
            SpecCreateHow::Unchecked(x) => spec_roundtrips::<FileAttrs>(x),
            SpecCreateHow::Guarded(x) => spec_roundtrips::<FileAttrs>(x),
            SpecCreateHow::Exclusive4(x) => spec_roundtrips::<Verifier>(x),
            SpecCreateHow::Exclusive4_1(x) => spec_roundtrips::<CreateVerifiedFileAttrs>(x),
        },
    ensures
        spec_roundtrips::<CreateHow>(v),
{
    match v {
        SpecCreateHow::Unchecked(x) => {
            lemma_create_mode_roundtrips(CreateMode::Unchecked);
            let a = <CreateMode as XdrSerialize>::spec_emit(CreateMode::Unchecked)->Done_0;
            let b = <FileAttrs as XdrSerialize>::spec_emit(x)->Done_0;
            assert forall|data: Seq<u8>, pos: int|
                spec_at(data, pos, <CreateHow as XdrSerialize>::spec_emit(v)->Done_0) implies #[trigger] <CreateHow as XdrDeserialize>::spec_parse(
                data,
                pos,
            ) == Parse::Done(v, pos + <CreateHow as XdrSerialize>::spec_emit(v)->Done_0.len()) by {
                reveal(spec_parse_create_how);
                lemma_at_split(data, pos, a, b);
                assert(<CreateMode as XdrDeserialize>::spec_parse(data, pos) == Parse::Done(CreateMode::Unchecked, pos + 4));
            }
        },
        SpecCreateHow::Guarded(x) => {
            lemma_create_mode_roundtrips(CreateMode::Guarded);
            let a = <CreateMode as XdrSerialize>::spec_emit(CreateMode::Guarded)->Done_0;
            let b = <FileAttrs as XdrSerialize>::spec_emit(x)->Done_0;
            assert forall|data: Seq<u8>, pos: int|
                spec_at(data, pos, <CreateHow as XdrSerialize>::spec_emit(v)->Done_0) implies #[trigger] <CreateHow as XdrDeserialize>::spec_parse(
                data,
                pos,
            ) == Parse::Done(v, pos + <CreateHow as XdrSerialize>::spec_emit(v)->Done_0.len()) by {
                reveal(spec_parse_create_how);
                lemma_at_split(data, pos, a, b);
                assert(<CreateMode as XdrDeserialize>::spec_parse(data, pos) == Parse::Done(CreateMode::Guarded, pos + 4));
            }
        },
        SpecCreateHow::Exclusive4(x) => {
            lemma_create_mode_roundtrips(CreateMode::Exclusive4);
            let a = <CreateMode as XdrSerialize>::spec_emit(CreateMode::Exclusive4)->Done_0;
            let b = <Verifier as XdrSerialize>::spec_emit(x)->Done_0;
            assert forall|data: Seq<u8>, pos: int|
                spec_at(data, pos, <CreateHow as XdrSerialize>::spec_emit(v)->Done_0) implies #[trigger] <CreateHow as XdrDeserialize>::spec_parse(
                data,
                pos,
            ) == Parse::Done(v, pos + <CreateHow as XdrSerialize>::spec_emit(v)->Done_0.len()) by {
                reveal(spec_parse_create_how);
                lemma_at_split(data, pos, a, b);
                assert(<CreateMode as XdrDeserialize>::spec_parse(data, pos) == Parse::Done(CreateMode::Exclusive4, pos + 4));
            }
        },
        SpecCreateHow::Exclusive4_1(x) => {
            lemma_create_mode_roundtrips(CreateMode::Exclusive4_1);
            let a = <CreateMode as XdrSerialize>::spec_emit(CreateMode::Exclusive4_1)->Done_0;
            let b = <CreateVerifiedFileAttrs as XdrSerialize>::spec_emit(x)->Done_0;
            assert forall|data: Seq<u8>, pos: int|
                spec_at(data, pos, <CreateHow as XdrSerialize>::spec_emit(v)->Done_0) implies #[trigger] <CreateHow as XdrDeserialize>::spec_parse(
                data,
                pos,
            ) == Parse::Done(v, pos + <CreateHow as XdrSerialize>::spec_emit(v)->Done_0.len()) by {
                reveal(spec_parse_create_how);
                lemma_at_split(data, pos, a, b);
                assert(<CreateMode as XdrDeserialize>::spec_parse(data, pos) == Parse::Done(CreateMode::Exclusive4_1, pos + 4));
            }
        },
    }
}

/// A [`OpenType`] reads back as itself.
pub proof fn lemma_open_type_roundtrips(v: OpenType)
    ensures
        spec_roundtrips::<OpenType>(v),
{
    lemma_u32_roundtrips(v.spec_to_u32());
    assert forall|data: Seq<u8>, pos: int|
        spec_at(data, pos, <OpenType as XdrSerialize>::spec_emit(v)->Done_0) implies #[trigger] <OpenType as XdrDeserialize>::spec_parse(
        data,
        pos,
    ) == Parse::Done(v, pos + <OpenType as XdrSerialize>::spec_emit(v)->Done_0.len()) by {
        assert(<u32 as XdrDeserialize>::spec_parse(data, pos) == Parse::Done(v.spec_to_u32(), pos + 4));
    }
}

/// A [`OpenFlag`] whose contents read back as themselves reads back as itself.
#[verifier::spinoff_prover]
#[verifier::rlimit(60)]
pub proof fn lemma_open_flag_roundtrips(v: SpecOpenFlag)
    requires
        match v {
            SpecOpenFlag::NoCreate => true,
            SpecOpenFlag::Create(x) => spec_roundtrips::<CreateHow>(x),
        },
    ensures
        spec_roundtrips::<OpenFlag>(v),
{
    match v {
        SpecOpenFlag::NoCreate => {
            lemma_open_type_roundtrips(OpenType::NoCreate);
            let a = <OpenType as XdrSerialize>::spec_emit(OpenType::NoCreate)->Done_0;
            assert forall|data: Seq<u8>, pos: int|
                spec_at(data, pos, <OpenFlag as XdrSerialize>::spec_emit(v)->Done_0) implies #[trigger] <OpenFlag as XdrDeserialize>::spec_parse(
                data,
                pos,
            ) == Parse::Done(v, pos + <OpenFlag as XdrSerialize>::spec_emit(v)->Done_0.len()) by {
                reveal(spec_parse_open_flag);
                assert(<OpenType as XdrDeserialize>::spec_parse(data, pos) == Parse::Done(OpenType::NoCreate, pos + 4));
            }
        },
        SpecOpenFlag::Create(x) => {
            lemma_open_type_roundtrips(OpenType::Create);
            let a = <OpenType as XdrSerialize>::spec_emit(OpenType::Create)->Done_0;
            let b = <CreateHow as XdrSerialize>::spec_emit(x)->Done_0;
            assert forall|data: Seq<u8>, pos: int|
                spec_at(data, pos, <OpenFlag as XdrSerialize>::spec_emit(v)->Done_0) implies #[trigger] <OpenFlag as XdrDeserialize>::spec_parse(
                data,
                pos,
            ) == Parse::Done(v, pos + <OpenFlag as XdrSerialize>::spec_emit(v)->Done_0.len()) by {
                reveal(spec_parse_open_flag);
                lemma_at_split(data, pos, a, b);
                assert(<OpenType as XdrDeserialize>::spec_parse(data, pos) == Parse::Done(OpenType::Create, pos + 4));
            }
        },
    }
}

/// A [`LimitBy`] reads back as itself.
pub proof fn lemma_limit_by_roundtrips(v: LimitBy)
    ensures
        spec_roundtrips::<LimitBy>(v),
{
    lemma_u32_roundtrips(v.spec_to_u32());
    assert forall|data: Seq<u8>, pos: int|
        spec_at(data, pos, <LimitBy as XdrSerialize>::spec_emit(v)->Done_0) implies #[trigger] <LimitBy as XdrDeserialize>::spec_parse(
        data,
        pos,
    ) == Parse::Done(v, pos + <LimitBy as XdrSerialize>::spec_emit(v)->Done_0.len()) by {
        assert(<u32 as XdrDeserialize>::spec_parse(data, pos) == Parse::Done(v.spec_to_u32(), pos + 4));
    }
}

/// A [`NfsModifiedLimit`] whose fields each read back as themselves reads back as itself.
#[verifier::spinoff_prover]
#[verifier::rlimit(60)]
pub proof fn lemma_nfs_modified_limit_roundtrips(v: SpecNfsModifiedLimit)
    requires
        spec_roundtrips::<u32>(v.num_blocks),
        spec_roundtrips::<u32>(v.bytes_per_block),
    ensures
        spec_roundtrips::<NfsModifiedLimit>(v),
{
    let b0 = <u32 as XdrSerialize>::spec_emit(v.num_blocks)->Done_0;
    let b1 = <u32 as XdrSerialize>::spec_emit(v.bytes_per_block)->Done_0;
    assert forall|data: Seq<u8>, pos: int|
        spec_at(data, pos, <NfsModifiedLimit as XdrSerialize>::spec_emit(v)->Done_0) implies #[trigger] <NfsModifiedLimit as XdrDeserialize>::spec_parse(
        data,
        pos,
    ) == Parse::Done(v, pos + <NfsModifiedLimit as XdrSerialize>::spec_emit(v)->Done_0.len()) by {
        reveal(spec_parse_nfs_modified_limit);
        lemma_at_split(data, pos, b0, b1);
        assert(<u32 as XdrDeserialize>::spec_parse(data, pos) == Parse::Done(v.num_blocks, pos + b0.len()));
        assert(<u32 as XdrDeserialize>::spec_parse(data, pos + (b0).len()) == Parse::Done(v.bytes_per_block, pos + (b0).len() + b1.len()));
    }
}

/// A [`NfsSpaceLimit`] whose contents read back as themselves reads back as itself.
#[verifier::spinoff_prover]
#[verifier::rlimit(60)]
pub proof fn lemma_nfs_space_limit_roundtrips(v: SpecNfsSpaceLimit)
    requires
        match v {
            SpecNfsSpaceLimit::Size(x) => spec_roundtrips::<u64>(x),
            SpecNfsSpaceLimit::Blocks(x) => spec_roundtrips::<NfsModifiedLimit>(x),
        },
    ensures
        spec_roundtrips::<NfsSpaceLimit>(v),
{
    match v {
        SpecNfsSpaceLimit::Size(x) => {
            lemma_limit_by_roundtrips(LimitBy::Size);
            let a = <LimitBy as XdrSerialize>::spec_emit(LimitBy::Size)->Done_0;
            let b = <u64 as XdrSerialize>::spec_emit(x)->Done_0;
            assert forall|data: Seq<u8>, pos: int|
                spec_at(data, pos, <NfsSpaceLimit as XdrSerialize>::spec_emit(v)->Done_0) implies #[trigger] <NfsSpaceLimit as XdrDeserialize>::spec_parse(
                data,
                pos,
            ) == Parse::Done(v, pos + <NfsSpaceLimit as XdrSerialize>::spec_emit(v)->Done_0.len()) by {
                reveal(spec_parse_nfs_space_limit);
                lemma_at_split(data, pos, a, b);
                assert(<LimitBy as XdrDeserialize>::spec_parse(data, pos) == Parse::Done(LimitBy::Size, pos + 4));
            }
        },
        SpecNfsSpaceLimit::Blocks(x) => {
            lemma_limit_by_roundtrips(LimitBy::Blocks);
            let a = <LimitBy as XdrSerialize>::spec_emit(LimitBy::Blocks)->Done_0;
            let b = <NfsModifiedLimit as XdrSerialize>::spec_emit(x)->Done_0;
            assert forall|data: Seq<u8>, pos: int|
                spec_at(data, pos, <NfsSpaceLimit as XdrSerialize>::spec_emit(v)->Done_0) implies #[trigger] <NfsSpaceLimit as XdrDeserialize>::spec_parse(
                data,
                pos,
            ) == Parse::Done(v, pos + <NfsSpaceLimit as XdrSerialize>::spec_emit(v)->Done_0.len()) by {
                reveal(spec_parse_nfs_space_limit);
                lemma_at_split(data, pos, a, b);
                assert(<LimitBy as XdrDeserialize>::spec_parse(data, pos) == Parse::Done(LimitBy::Blocks, pos + 4));
            }
        },
    }
}

/// A [`OpenDelegationType`] reads back as itself.
pub proof fn lemma_open_delegation_type_roundtrips(v: OpenDelegationType)
    ensures
        spec_roundtrips::<OpenDelegationType>(v),
{
    lemma_u32_roundtrips(v.spec_to_u32());
    assert forall|data: Seq<u8>, pos: int|
        spec_at(data, pos, <OpenDelegationType as XdrSerialize>::spec_emit(v)->Done_0) implies #[trigger] <OpenDelegationType as XdrDeserialize>::spec_parse(
        data,
        pos,
    ) == Parse::Done(v, pos + <OpenDelegationType as XdrSerialize>::spec_emit(v)->Done_0.len()) by {
        assert(<u32 as XdrDeserialize>::spec_parse(data, pos) == Parse::Done(v.spec_to_u32(), pos + 4));
    }
}

/// A [`OpenClaimType`] reads back as itself.
pub proof fn lemma_open_claim_type_roundtrips(v: OpenClaimType)
    ensures
        spec_roundtrips::<OpenClaimType>(v),
{
    lemma_u32_roundtrips(v.spec_to_u32());
    assert forall|data: Seq<u8>, pos: int|
        spec_at(data, pos, <OpenClaimType as XdrSerialize>::spec_emit(v)->Done_0) implies #[trigger] <OpenClaimType as XdrDeserialize>::spec_parse(
        data,
        pos,
    ) == Parse::Done(v, pos + <OpenClaimType as XdrSerialize>::spec_emit(v)->Done_0.len()) by {
        assert(<u32 as XdrDeserialize>::spec_parse(data, pos) == Parse::Done(v.spec_to_u32(), pos + 4));
    }
}

/// A [`CurrentDelegateOpenClaim`] whose fields each read back as themselves reads back as itself.
#[verifier::spinoff_prover]
#[verifier::rlimit(60)]
pub proof fn lemma_current_delegate_open_claim_roundtrips(v: SpecCurrentDelegateOpenClaim)
    requires
        spec_roundtrips::<StateId>(v.delegate_state_id),
        spec_roundtrips::<Component>(v.file),
    ensures
        spec_roundtrips::<CurrentDelegateOpenClaim>(v),
{
    let b0 = <StateId as XdrSerialize>::spec_emit(v.delegate_state_id)->Done_0;
    let b1 = <Component as XdrSerialize>::spec_emit(v.file)->Done_0;
    assert forall|data: Seq<u8>, pos: int|
        spec_at(data, pos, <CurrentDelegateOpenClaim as XdrSerialize>::spec_emit(v)->Done_0) implies #[trigger] <CurrentDelegateOpenClaim as XdrDeserialize>::spec_parse(
        data,
        pos,
    ) == Parse::Done(v, pos + <CurrentDelegateOpenClaim as XdrSerialize>::spec_emit(v)->Done_0.len()) by {
        reveal(spec_parse_current_delegate_open_claim);
        lemma_at_split(data, pos, b0, b1);
        assert(<StateId as XdrDeserialize>::spec_parse(data, pos) == Parse::Done(v.delegate_state_id, pos + b0.len()));
        assert(<Component as XdrDeserialize>::spec_parse(data, pos + (b0).len()) == Parse::Done(v.file, pos + (b0).len() + b1.len()));
    }
}

/// A [`OpenClaim`] whose contents read back as themselves reads back as itself.
#[verifier::spinoff_prover]
#[verifier::rlimit(60)]
pub proof fn lemma_open_claim_roundtrips(v: SpecOpenClaim)
    requires
        match v {
            SpecOpenClaim::Null(x) => spec_roundtrips::<Component>(x),
            SpecOpenClaim::Previous(x) => spec_roundtrips::<OpenDelegationType>(x),
            SpecOpenClaim::CurrentDelegate(x) => spec_roundtrips::<CurrentDelegateOpenClaim>(x),
            SpecOpenClaim::PreviousDelegate(x) => spec_roundtrips::<Component>(x),
            SpecOpenClaim::CurrentFh => true,
            SpecOpenClaim::CurrentDelegateFh(x) => spec_roundtrips::<StateId>(x),
            SpecOpenClaim::PreviousDelegateFh => true,
        },
    ensures
        spec_roundtrips::<OpenClaim>(v),
{
    match v {
        SpecOpenClaim::Null(x) => {
            lemma_open_claim_type_roundtrips(OpenClaimType::Null);
            let a = <OpenClaimType as XdrSerialize>::spec_emit(OpenClaimType::Null)->Done_0;
            let b = <Component as XdrSerialize>::spec_emit(x)->Done_0;
            assert forall|data: Seq<u8>, pos: int|
                spec_at(data, pos, <OpenClaim as XdrSerialize>::spec_emit(v)->Done_0) implies #[trigger] <OpenClaim as XdrDeserialize>::spec_parse(
                data,
                pos,
            ) == Parse::Done(v, pos + <OpenClaim as XdrSerialize>::spec_emit(v)->Done_0.len()) by {
                reveal(spec_parse_open_claim);
                lemma_at_split(data, pos, a, b);
                assert(<OpenClaimType as XdrDeserialize>::spec_parse(data, pos) == Parse::Done(OpenClaimType::Null, pos + 4));
            }
        },
        SpecOpenClaim::Previous(x) => {
            lemma_open_claim_type_roundtrips(OpenClaimType::Previous);
            let a = <OpenClaimType as XdrSerialize>::spec_emit(OpenClaimType::Previous)->Done_0;
            let b = <OpenDelegationType as XdrSerialize>::spec_emit(x)->Done_0;
            assert forall|data: Seq<u8>, pos: int|
                spec_at(data, pos, <OpenClaim as XdrSerialize>::spec_emit(v)->Done_0) implies #[trigger] <OpenClaim as XdrDeserialize>::spec_parse(
                data,
                pos,
            ) == Parse::Done(v, pos + <OpenClaim as XdrSerialize>::spec_emit(v)->Done_0.len()) by {
                reveal(spec_parse_open_claim);
                lemma_at_split(data, pos, a, b);
                assert(<OpenClaimType as XdrDeserialize>::spec_parse(data, pos) == Parse::Done(OpenClaimType::Previous, pos + 4));
            }
        },
        SpecOpenClaim::CurrentDelegate(x) => {
            lemma_open_claim_type_roundtrips(OpenClaimType::CurrentDelegate);
            let a = <OpenClaimType as XdrSerialize>::spec_emit(OpenClaimType::CurrentDelegate)->Done_0;
            let b = <CurrentDelegateOpenClaim as XdrSerialize>::spec_emit(x)->Done_0;
            assert forall|data: Seq<u8>, pos: int|
                spec_at(data, pos, <OpenClaim as XdrSerialize>::spec_emit(v)->Done_0) implies #[trigger] <OpenClaim as XdrDeserialize>::spec_parse(
                data,
                pos,
            ) == Parse::Done(v, pos + <OpenClaim as XdrSerialize>::spec_emit(v)->Done_0.len()) by {
                reveal(spec_parse_open_claim);
                lemma_at_split(data, pos, a, b);
                assert(<OpenClaimType as XdrDeserialize>::spec_parse(data, pos) == Parse::Done(OpenClaimType::CurrentDelegate, pos + 4));
            }
        },
        SpecOpenClaim::PreviousDelegate(x) => {
            lemma_open_claim_type_roundtrips(OpenClaimType::PreviousDelegate);
            let a = <OpenClaimType as XdrSerialize>::spec_emit(OpenClaimType::PreviousDelegate)->Done_0;
            let b = <Component as XdrSerialize>::spec_emit(x)->Done_0;
            assert forall|data: Seq<u8>, pos: int|
                spec_at(data, pos, <OpenClaim as XdrSerialize>::spec_emit(v)->Done_0) implies #[trigger] <OpenClaim as XdrDeserialize>::spec_parse(
                data,
                pos,
            ) == Parse::Done(v, pos + <OpenClaim as XdrSerialize>::spec_emit(v)->Done_0.len()) by {
                reveal(spec_parse_open_claim);
                lemma_at_split(data, pos, a, b);
                assert(<OpenClaimType as XdrDeserialize>::spec_parse(data, pos) == Parse::Done(OpenClaimType::PreviousDelegate, pos + 4));
            }
        },
        SpecOpenClaim::CurrentFh => {
            lemma_open_claim_type_roundtrips(OpenClaimType::CurrentFh);
            let a = <OpenClaimType as XdrSerialize>::spec_emit(OpenClaimType::CurrentFh)->Done_0;
            assert forall|data: Seq<u8>, pos: int|
                spec_at(data, pos, <OpenClaim as XdrSerialize>::spec_emit(v)->Done_0) implies #[trigger] <OpenClaim as XdrDeserialize>::spec_parse(
                data,
                pos,
            ) == Parse::Done(v, pos + <OpenClaim as XdrSerialize>::spec_emit(v)->Done_0.len()) by {
                reveal(spec_parse_open_claim);
                assert(<OpenClaimType as XdrDeserialize>::spec_parse(data, pos) == Parse::Done(OpenClaimType::CurrentFh, pos + 4));
            }
        },
        SpecOpenClaim::CurrentDelegateFh(x) => {
            lemma_open_claim_type_roundtrips(OpenClaimType::CurrentDelegateFh);
            let a = <OpenClaimType as XdrSerialize>::spec_emit(OpenClaimType::CurrentDelegateFh)->Done_0;
            let b = <StateId as XdrSerialize>::spec_emit(x)->Done_0;
            assert forall|data: Seq<u8>, pos: int|
                spec_at(data, pos, <OpenClaim as XdrSerialize>::spec_emit(v)->Done_0) implies #[trigger] <OpenClaim as XdrDeserialize>::spec_parse(
                data,
                pos,
            ) == Parse::Done(v, pos + <OpenClaim as XdrSerialize>::spec_emit(v)->Done_0.len()) by {
                reveal(spec_parse_open_claim);
                lemma_at_split(data, pos, a, b);
                assert(<OpenClaimType as XdrDeserialize>::spec_parse(data, pos) == Parse::Done(OpenClaimType::CurrentDelegateFh, pos + 4));
            }
        },
        SpecOpenClaim::PreviousDelegateFh => {
            lemma_open_claim_type_roundtrips(OpenClaimType::PreviousDelegateFh);
            let a = <OpenClaimType as XdrSerialize>::spec_emit(OpenClaimType::PreviousDelegateFh)->Done_0;
            assert forall|data: Seq<u8>, pos: int|
                spec_at(data, pos, <OpenClaim as XdrSerialize>::spec_emit(v)->Done_0) implies #[trigger] <OpenClaim as XdrDeserialize>::spec_parse(
                data,
                pos,
            ) == Parse::Done(v, pos + <OpenClaim as XdrSerialize>::spec_emit(v)->Done_0.len()) by {
                reveal(spec_parse_open_claim);
                assert(<OpenClaimType as XdrDeserialize>::spec_parse(data, pos) == Parse::Done(OpenClaimType::PreviousDelegateFh, pos + 4));
            }
        },
    }
}

/// A [`OpenArgs`] whose fields each read back as themselves reads back as itself.
#[verifier::spinoff_prover]
#[verifier::rlimit(60)]
pub proof fn lemma_open_args_roundtrips(v: SpecOpenArgs)
    requires
        spec_roundtrips::<SeqId>(v.seq_id),
        spec_roundtrips::<u32>(v.share_access),
        spec_roundtrips::<u32>(v.share_deny),
        spec_roundtrips::<OpenOwner>(v.owner),
        spec_roundtrips::<OpenFlag>(v.how),
        spec_roundtrips::<OpenClaim>(v.claim),
    ensures
        spec_roundtrips::<OpenArgs>(v),
{
    let b0 = <SeqId as XdrSerialize>::spec_emit(v.seq_id)->Done_0;
    let b1 = <u32 as XdrSerialize>::spec_emit(v.share_access)->Done_0;
    let b2 = <u32 as XdrSerialize>::spec_emit(v.share_deny)->Done_0;
    let b3 = <OpenOwner as XdrSerialize>::spec_emit(v.owner)->Done_0;
    let b4 = <OpenFlag as XdrSerialize>::spec_emit(v.how)->Done_0;
    let b5 = <OpenClaim as XdrSerialize>::spec_emit(v.claim)->Done_0;
    assert forall|data: Seq<u8>, pos: int|
        spec_at(data, pos, <OpenArgs as XdrSerialize>::spec_emit(v)->Done_0) implies #[trigger] <OpenArgs as XdrDeserialize>::spec_parse(
        data,
        pos,
    ) == Parse::Done(v, pos + <OpenArgs as XdrSerialize>::spec_emit(v)->Done_0.len()) by {
        reveal(spec_parse_open_args);
        lemma_at_split(data, pos, b0 + b1 + b2 + b3 + b4, b5);
        lemma_at_split(data, pos, b0 + b1 + b2 + b3, b4);
        lemma_at_split(data, pos, b0 + b1 + b2, b3);
        lemma_at_split(data, pos, b0 + b1, b2);
        lemma_at_split(data, pos, b0, b1);
        assert(<SeqId as XdrDeserialize>::spec_parse(data, pos) == Parse::Done(v.seq_id, pos + b0.len()));
        assert(<u32 as XdrDeserialize>::spec_parse(data, pos + (b0).len()) == Parse::Done(v.share_access, pos + (b0).len() + b1.len()));
        assert(<u32 as XdrDeserialize>::spec_parse(data, pos + (b0 + b1).len()) == Parse::Done(v.share_deny, pos + (b0 + b1).len() + b2.len()));
        assert(<OpenOwner as XdrDeserialize>::spec_parse(data, pos + (b0 + b1 + b2).len()) == Parse::Done(v.owner, pos + (b0 + b1 + b2).len() + b3.len()));
        assert(<OpenFlag as XdrDeserialize>::spec_parse(data, pos + (b0 + b1 + b2 + b3).len()) == Parse::Done(v.how, pos + (b0 + b1 + b2 + b3).len() + b4.len()));
        assert(<OpenClaim as XdrDeserialize>::spec_parse(data, pos + (b0 + b1 + b2 + b3 + b4).len()) == Parse::Done(v.claim, pos + (b0 + b1 + b2 + b3 + b4).len() + b5.len()));
    }
}

/// A [`OpenReadDelegation`] whose fields each read back as themselves reads back as itself.
#[verifier::spinoff_prover]
#[verifier::rlimit(60)]
pub proof fn lemma_open_read_delegation_roundtrips(v: SpecOpenReadDelegation)
    requires
        spec_roundtrips::<StateId>(v.state_id),
        spec_roundtrips::<bool>(v.recall),
        spec_roundtrips::<NfsAce>(v.permissions),
    ensures
        spec_roundtrips::<OpenReadDelegation>(v),
{
    let b0 = <StateId as XdrSerialize>::spec_emit(v.state_id)->Done_0;
    let b1 = <bool as XdrSerialize>::spec_emit(v.recall)->Done_0;
    let b2 = <NfsAce as XdrSerialize>::spec_emit(v.permissions)->Done_0;
    assert forall|data: Seq<u8>, pos: int|
        spec_at(data, pos, <OpenReadDelegation as XdrSerialize>::spec_emit(v)->Done_0) implies #[trigger] <OpenReadDelegation as XdrDeserialize>::spec_parse(
        data,
        pos,
    ) == Parse::Done(v, pos + <OpenReadDelegation as XdrSerialize>::spec_emit(v)->Done_0.len()) by {
        reveal(spec_parse_open_read_delegation);
        lemma_at_split(data, pos, b0 + b1, b2);
        lemma_at_split(data, pos, b0, b1);
        assert(<StateId as XdrDeserialize>::spec_parse(data, pos) == Parse::Done(v.state_id, pos + b0.len()));
        assert(<bool as XdrDeserialize>::spec_parse(data, pos + (b0).len()) == Parse::Done(v.recall, pos + (b0).len() + b1.len()));
        assert(<NfsAce as XdrDeserialize>::spec_parse(data, pos + (b0 + b1).len()) == Parse::Done(v.permissions, pos + (b0 + b1).len() + b2.len()));
    }
}

/// A [`OpenWriteDelegation`] whose fields each read back as themselves reads back as itself.
#[verifier::spinoff_prover]
#[verifier::rlimit(60)]
pub proof fn lemma_open_write_delegation_roundtrips(v: SpecOpenWriteDelegation)
    requires
        spec_roundtrips::<StateId>(v.state_id),
        spec_roundtrips::<bool>(v.recall),
        spec_roundtrips::<NfsSpaceLimit>(v.space_limit),
        spec_roundtrips::<NfsAce>(v.permissions),
    ensures
        spec_roundtrips::<OpenWriteDelegation>(v),
{
    let b0 = <StateId as XdrSerialize>::spec_emit(v.state_id)->Done_0;
    let b1 = <bool as XdrSerialize>::spec_emit(v.recall)->Done_0;
    let b2 = <NfsSpaceLimit as XdrSerialize>::spec_emit(v.space_limit)->Done_0;
    let b3 = <NfsAce as XdrSerialize>::spec_emit(v.permissions)->Done_0;
    assert forall|data: Seq<u8>, pos: int|
        spec_at(data, pos, <OpenWriteDelegation as XdrSerialize>::spec_emit(v)->Done_0) implies #[trigger] <OpenWriteDelegation as XdrDeserialize>::spec_parse(
        data,
        pos,
    ) == Parse::Done(v, pos + <OpenWriteDelegation as XdrSerialize>::spec_emit(v)->Done_0.len()) by {
        reveal(spec_parse_open_write_delegation);
        lemma_at_split(data, pos, b0 + b1 + b2, b3);
        lemma_at_split(data, pos, b0 + b1, b2);
        lemma_at_split(data, pos, b0, b1);
        assert(<StateId as XdrDeserialize>::spec_parse(data, pos) == Parse::Done(v.state_id, pos + b0.len()));
        assert(<bool as XdrDeserialize>::spec_parse(data, pos + (b0).len()) == Parse::Done(v.recall, pos + (b0).len() + b1.len()));
        assert(<NfsSpaceLimit as XdrDeserialize>::spec_parse(data, pos + (b0 + b1).len()) == Parse::Done(v.space_limit, pos + (b0 + b1).len() + b2.len()));
        assert(<NfsAce as XdrDeserialize>::spec_parse(data, pos + (b0 + b1 + b2).len()) == Parse::Done(v.permissions, pos + (b0 + b1 + b2).len() + b3.len()));
    }
}

/// A [`WhyNoDelegation`] reads back as itself.
pub proof fn lemma_why_no_delegation_roundtrips(v: WhyNoDelegation)
    ensures
        spec_roundtrips::<WhyNoDelegation>(v),
{
    lemma_u32_roundtrips(v.spec_to_u32());
    assert forall|data: Seq<u8>, pos: int|
        spec_at(data, pos, <WhyNoDelegation as XdrSerialize>::spec_emit(v)->Done_0) implies #[trigger] <WhyNoDelegation as XdrDeserialize>::spec_parse(
        data,
        pos,
    ) == Parse::Done(v, pos + <WhyNoDelegation as XdrSerialize>::spec_emit(v)->Done_0.len()) by {
        assert(<u32 as XdrDeserialize>::spec_parse(data, pos) == Parse::Done(v.spec_to_u32(), pos + 4));
    }
}

/// A [`OpenNoneDelegation`] whose contents read back as themselves reads back as itself.
#[verifier::spinoff_prover]
#[verifier::rlimit(60)]
pub proof fn lemma_open_none_delegation_roundtrips(v: OpenNoneDelegation)
    requires
        match v {
            OpenNoneDelegation::NotWanted => true,
            OpenNoneDelegation::Contention(x) => spec_roundtrips::<bool>(x),
            OpenNoneDelegation::Resource(x) => spec_roundtrips::<bool>(x),
            OpenNoneDelegation::NotSupportedFileType => true,
            OpenNoneDelegation::WriteDelegationNotSupportedFileType => true,
            OpenNoneDelegation::NotSupportedUpgrade => true,
            OpenNoneDelegation::NotSupportedDowngrade => true,
            OpenNoneDelegation::Cancelled => true,
            OpenNoneDelegation::IsDirectory => true,
        },
    ensures
        spec_roundtrips::<OpenNoneDelegation>(v),
{
    match v {
        OpenNoneDelegation::NotWanted => {
            lemma_why_no_delegation_roundtrips(WhyNoDelegation::NotWanted);
            let a = <WhyNoDelegation as XdrSerialize>::spec_emit(WhyNoDelegation::NotWanted)->Done_0;
            assert forall|data: Seq<u8>, pos: int|
                spec_at(data, pos, <OpenNoneDelegation as XdrSerialize>::spec_emit(v)->Done_0) implies #[trigger] <OpenNoneDelegation as XdrDeserialize>::spec_parse(
                data,
                pos,
            ) == Parse::Done(v, pos + <OpenNoneDelegation as XdrSerialize>::spec_emit(v)->Done_0.len()) by {
                reveal(spec_parse_open_none_delegation);
                assert(<WhyNoDelegation as XdrDeserialize>::spec_parse(data, pos) == Parse::Done(WhyNoDelegation::NotWanted, pos + 4));
            }
        },
        OpenNoneDelegation::Contention(x) => {
            lemma_why_no_delegation_roundtrips(WhyNoDelegation::Contention);
            let a = <WhyNoDelegation as XdrSerialize>::spec_emit(WhyNoDelegation::Contention)->Done_0;
            let b = <bool as XdrSerialize>::spec_emit(x)->Done_0;
            assert forall|data: Seq<u8>, pos: int|
                spec_at(data, pos, <OpenNoneDelegation as XdrSerialize>::spec_emit(v)->Done_0) implies #[trigger] <OpenNoneDelegation as XdrDeserialize>::spec_parse(
                data,
                pos,
            ) == Parse::Done(v, pos + <OpenNoneDelegation as XdrSerialize>::spec_emit(v)->Done_0.len()) by {
                reveal(spec_parse_open_none_delegation);
                lemma_at_split(data, pos, a, b);
                assert(<WhyNoDelegation as XdrDeserialize>::spec_parse(data, pos) == Parse::Done(WhyNoDelegation::Contention, pos + 4));
            }
        },
        OpenNoneDelegation::Resource(x) => {
            lemma_why_no_delegation_roundtrips(WhyNoDelegation::Resource);
            let a = <WhyNoDelegation as XdrSerialize>::spec_emit(WhyNoDelegation::Resource)->Done_0;
            let b = <bool as XdrSerialize>::spec_emit(x)->Done_0;
            assert forall|data: Seq<u8>, pos: int|
                spec_at(data, pos, <OpenNoneDelegation as XdrSerialize>::spec_emit(v)->Done_0) implies #[trigger] <OpenNoneDelegation as XdrDeserialize>::spec_parse(
                data,
                pos,
            ) == Parse::Done(v, pos + <OpenNoneDelegation as XdrSerialize>::spec_emit(v)->Done_0.len()) by {
                reveal(spec_parse_open_none_delegation);
                lemma_at_split(data, pos, a, b);
                assert(<WhyNoDelegation as XdrDeserialize>::spec_parse(data, pos) == Parse::Done(WhyNoDelegation::Resource, pos + 4));
            }
        },
        OpenNoneDelegation::NotSupportedFileType => {
            lemma_why_no_delegation_roundtrips(WhyNoDelegation::NotSupportedFileType);
            let a = <WhyNoDelegation as XdrSerialize>::spec_emit(WhyNoDelegation::NotSupportedFileType)->Done_0;
            assert forall|data: Seq<u8>, pos: int|
                spec_at(data, pos, <OpenNoneDelegation as XdrSerialize>::spec_emit(v)->Done_0) implies #[trigger] <OpenNoneDelegation as XdrDeserialize>::spec_parse(
                data,
                pos,
            ) == Parse::Done(v, pos + <OpenNoneDelegation as XdrSerialize>::spec_emit(v)->Done_0.len()) by {
                reveal(spec_parse_open_none_delegation);
                assert(<WhyNoDelegation as XdrDeserialize>::spec_parse(data, pos) == Parse::Done(WhyNoDelegation::NotSupportedFileType, pos + 4));
            }
        },
        OpenNoneDelegation::WriteDelegationNotSupportedFileType => {
            lemma_why_no_delegation_roundtrips(WhyNoDelegation::WriteDelegationNotSupportedFileType);
            let a = <WhyNoDelegation as XdrSerialize>::spec_emit(WhyNoDelegation::WriteDelegationNotSupportedFileType)->Done_0;
            assert forall|data: Seq<u8>, pos: int|
                spec_at(data, pos, <OpenNoneDelegation as XdrSerialize>::spec_emit(v)->Done_0) implies #[trigger] <OpenNoneDelegation as XdrDeserialize>::spec_parse(
                data,
                pos,
            ) == Parse::Done(v, pos + <OpenNoneDelegation as XdrSerialize>::spec_emit(v)->Done_0.len()) by {
                reveal(spec_parse_open_none_delegation);
                assert(<WhyNoDelegation as XdrDeserialize>::spec_parse(data, pos) == Parse::Done(WhyNoDelegation::WriteDelegationNotSupportedFileType, pos + 4));
            }
        },
        OpenNoneDelegation::NotSupportedUpgrade => {
            lemma_why_no_delegation_roundtrips(WhyNoDelegation::NotSupportedUpgrade);
            let a = <WhyNoDelegation as XdrSerialize>::spec_emit(WhyNoDelegation::NotSupportedUpgrade)->Done_0;
            assert forall|data: Seq<u8>, pos: int|
                spec_at(data, pos, <OpenNoneDelegation as XdrSerialize>::spec_emit(v)->Done_0) implies #[trigger] <OpenNoneDelegation as XdrDeserialize>::spec_parse(
                data,
                pos,
            ) == Parse::Done(v, pos + <OpenNoneDelegation as XdrSerialize>::spec_emit(v)->Done_0.len()) by {
                reveal(spec_parse_open_none_delegation);
                assert(<WhyNoDelegation as XdrDeserialize>::spec_parse(data, pos) == Parse::Done(WhyNoDelegation::NotSupportedUpgrade, pos + 4));
            }
        },
        OpenNoneDelegation::NotSupportedDowngrade => {
            lemma_why_no_delegation_roundtrips(WhyNoDelegation::NotSupportedDowngrade);
            let a = <WhyNoDelegation as XdrSerialize>::spec_emit(WhyNoDelegation::NotSupportedDowngrade)->Done_0;
            assert forall|data: Seq<u8>, pos: int|
                spec_at(data, pos, <OpenNoneDelegation as XdrSerialize>::spec_emit(v)->Done_0) implies #[trigger] <OpenNoneDelegation as XdrDeserialize>::spec_parse(
                data,
                pos,
            ) == Parse::Done(v, pos + <OpenNoneDelegation as XdrSerialize>::spec_emit(v)->Done_0.len()) by {
                reveal(spec_parse_open_none_delegation);
                assert(<WhyNoDelegation as XdrDeserialize>::spec_parse(data, pos) == Parse::Done(WhyNoDelegation::NotSupportedDowngrade, pos + 4));
            }
        },
        OpenNoneDelegation::Cancelled => {
            lemma_why_no_delegation_roundtrips(WhyNoDelegation::Cancelled);
            let a = <WhyNoDelegation as XdrSerialize>::spec_emit(WhyNoDelegation::Cancelled)->Done_0;
            assert forall|data: Seq<u8>, pos: int|
                spec_at(data, pos, <OpenNoneDelegation as XdrSerialize>::spec_emit(v)->Done_0) implies #[trigger] <OpenNoneDelegation as XdrDeserialize>::spec_parse(
                data,
                pos,
            ) == Parse::Done(v, pos + <OpenNoneDelegation as XdrSerialize>::spec_emit(v)->Done_0.len()) by {
                reveal(spec_parse_open_none_delegation);
                assert(<WhyNoDelegation as XdrDeserialize>::spec_parse(data, pos) == Parse::Done(WhyNoDelegation::Cancelled, pos + 4));
            }
        },
        OpenNoneDelegation::IsDirectory => {
            lemma_why_no_delegation_roundtrips(WhyNoDelegation::IsDirectory);
            let a = <WhyNoDelegation as XdrSerialize>::spec_emit(WhyNoDelegation::IsDirectory)->Done_0;
            assert forall|data: Seq<u8>, pos: int|
                spec_at(data, pos, <OpenNoneDelegation as XdrSerialize>::spec_emit(v)->Done_0) implies #[trigger] <OpenNoneDelegation as XdrDeserialize>::spec_parse(
                data,
                pos,
            ) == Parse::Done(v, pos + <OpenNoneDelegation as XdrSerialize>::spec_emit(v)->Done_0.len()) by {
                reveal(spec_parse_open_none_delegation);
                assert(<WhyNoDelegation as XdrDeserialize>::spec_parse(data, pos) == Parse::Done(WhyNoDelegation::IsDirectory, pos + 4));
            }
        },
    }
}

/// A [`OpenDelegation`] whose contents read back as themselves reads back as itself.
#[verifier::spinoff_prover]
#[verifier::rlimit(60)]
pub proof fn lemma_open_delegation_roundtrips(v: SpecOpenDelegation)
    requires
        match v {
            SpecOpenDelegation::NoDelegation => true,
            SpecOpenDelegation::Read(x) => spec_roundtrips::<OpenReadDelegation>(x),
            SpecOpenDelegation::Write(x) => spec_roundtrips::<OpenWriteDelegation>(x),
            SpecOpenDelegation::NoneExt(x) => spec_roundtrips::<OpenNoneDelegation>(x),
        },
    ensures
        spec_roundtrips::<OpenDelegation>(v),
{
    match v {
        SpecOpenDelegation::NoDelegation => {
            lemma_open_delegation_type_roundtrips(OpenDelegationType::NoDelegation);
            let a = <OpenDelegationType as XdrSerialize>::spec_emit(OpenDelegationType::NoDelegation)->Done_0;
            assert forall|data: Seq<u8>, pos: int|
                spec_at(data, pos, <OpenDelegation as XdrSerialize>::spec_emit(v)->Done_0) implies #[trigger] <OpenDelegation as XdrDeserialize>::spec_parse(
                data,
                pos,
            ) == Parse::Done(v, pos + <OpenDelegation as XdrSerialize>::spec_emit(v)->Done_0.len()) by {
                reveal(spec_parse_open_delegation);
                assert(<OpenDelegationType as XdrDeserialize>::spec_parse(data, pos) == Parse::Done(OpenDelegationType::NoDelegation, pos + 4));
            }
        },
        SpecOpenDelegation::Read(x) => {
            lemma_open_delegation_type_roundtrips(OpenDelegationType::Read);
            let a = <OpenDelegationType as XdrSerialize>::spec_emit(OpenDelegationType::Read)->Done_0;
            let b = <OpenReadDelegation as XdrSerialize>::spec_emit(x)->Done_0;
            assert forall|data: Seq<u8>, pos: int|
                spec_at(data, pos, <OpenDelegation as XdrSerialize>::spec_emit(v)->Done_0) implies #[trigger] <OpenDelegation as XdrDeserialize>::spec_parse(
                data,
                pos,
            ) == Parse::Done(v, pos + <OpenDelegation as XdrSerialize>::spec_emit(v)->Done_0.len()) by {
                reveal(spec_parse_open_delegation);
                lemma_at_split(data, pos, a, b);
                assert(<OpenDelegationType as XdrDeserialize>::spec_parse(data, pos) == Parse::Done(OpenDelegationType::Read, pos + 4));
            }
        },
        SpecOpenDelegation::Write(x) => {
            lemma_open_delegation_type_roundtrips(OpenDelegationType::Write);
            let a = <OpenDelegationType as XdrSerialize>::spec_emit(OpenDelegationType::Write)->Done_0;
            let b = <OpenWriteDelegation as XdrSerialize>::spec_emit(x)->Done_0;
            assert forall|data: Seq<u8>, pos: int|
                spec_at(data, pos, <OpenDelegation as XdrSerialize>::spec_emit(v)->Done_0) implies #[trigger] <OpenDelegation as XdrDeserialize>::spec_parse(
                data,
                pos,
            ) == Parse::Done(v, pos + <OpenDelegation as XdrSerialize>::spec_emit(v)->Done_0.len()) by {
                reveal(spec_parse_open_delegation);
                lemma_at_split(data, pos, a, b);
                assert(<OpenDelegationType as XdrDeserialize>::spec_parse(data, pos) == Parse::Done(OpenDelegationType::Write, pos + 4));
            }
        },
        SpecOpenDelegation::NoneExt(x) => {
            lemma_open_delegation_type_roundtrips(OpenDelegationType::NoneExt);
            let a = <OpenDelegationType as XdrSerialize>::spec_emit(OpenDelegationType::NoneExt)->Done_0;
            let b = <OpenNoneDelegation as XdrSerialize>::spec_emit(x)->Done_0;
            assert forall|data: Seq<u8>, pos: int|
                spec_at(data, pos, <OpenDelegation as XdrSerialize>::spec_emit(v)->Done_0) implies #[trigger] <OpenDelegation as XdrDeserialize>::spec_parse(
                data,
                pos,
            ) == Parse::Done(v, pos + <OpenDelegation as XdrSerialize>::spec_emit(v)->Done_0.len()) by {
                reveal(spec_parse_open_delegation);
                lemma_at_split(data, pos, a, b);
                assert(<OpenDelegationType as XdrDeserialize>::spec_parse(data, pos) == Parse::Done(OpenDelegationType::NoneExt, pos + 4));
            }
        },
    }
}

/// A [`OpenResultFlags`] whose fields each read back as themselves reads back as itself.
#[verifier::spinoff_prover]
#[verifier::rlimit(60)]
pub proof fn lemma_open_result_flags_roundtrips(v: SpecOpenResultFlags)
    requires
        spec_roundtrips::<u32>(v.0),
    ensures
        spec_roundtrips::<OpenResultFlags>(v),
{
    let b0 = <u32 as XdrSerialize>::spec_emit(v.0)->Done_0;
    assert forall|data: Seq<u8>, pos: int|
        spec_at(data, pos, <OpenResultFlags as XdrSerialize>::spec_emit(v)->Done_0) implies #[trigger] <OpenResultFlags as XdrDeserialize>::spec_parse(
        data,
        pos,
    ) == Parse::Done(v, pos + <OpenResultFlags as XdrSerialize>::spec_emit(v)->Done_0.len()) by {
        reveal(spec_parse_open_result_flags);
        assert(<u32 as XdrDeserialize>::spec_parse(data, pos) == Parse::Done(v.0, pos + b0.len()));
    }
}

/// A [`OpenOk`] whose fields each read back as themselves reads back as itself.
#[verifier::spinoff_prover]
#[verifier::rlimit(60)]
pub proof fn lemma_open_ok_roundtrips(v: SpecOpenOk)
    requires
        spec_roundtrips::<StateId>(v.state_id),
        spec_roundtrips::<ChangeInfo>(v.change_info),
        spec_roundtrips::<OpenResultFlags>(v.rflags),
        spec_roundtrips::<BitMap>(v.attrset),
        spec_roundtrips::<OpenDelegation>(v.delegation),
    ensures
        spec_roundtrips::<OpenOk>(v),
{
    let b0 = <StateId as XdrSerialize>::spec_emit(v.state_id)->Done_0;
    let b1 = <ChangeInfo as XdrSerialize>::spec_emit(v.change_info)->Done_0;
    let b2 = <OpenResultFlags as XdrSerialize>::spec_emit(v.rflags)->Done_0;
    let b3 = <BitMap as XdrSerialize>::spec_emit(v.attrset)->Done_0;
    let b4 = <OpenDelegation as XdrSerialize>::spec_emit(v.delegation)->Done_0;
    assert forall|data: Seq<u8>, pos: int|
        spec_at(data, pos, <OpenOk as XdrSerialize>::spec_emit(v)->Done_0) implies #[trigger] <OpenOk as XdrDeserialize>::spec_parse(
        data,
        pos,
    ) == Parse::Done(v, pos + <OpenOk as XdrSerialize>::spec_emit(v)->Done_0.len()) by {
        reveal(spec_parse_open_ok);
        lemma_at_split(data, pos, b0 + b1 + b2 + b3, b4);
        lemma_at_split(data, pos, b0 + b1 + b2, b3);
        lemma_at_split(data, pos, b0 + b1, b2);
        lemma_at_split(data, pos, b0, b1);
        assert(<StateId as XdrDeserialize>::spec_parse(data, pos) == Parse::Done(v.state_id, pos + b0.len()));
        assert(<ChangeInfo as XdrDeserialize>::spec_parse(data, pos + (b0).len()) == Parse::Done(v.change_info, pos + (b0).len() + b1.len()));
        assert(<OpenResultFlags as XdrDeserialize>::spec_parse(data, pos + (b0 + b1).len()) == Parse::Done(v.rflags, pos + (b0 + b1).len() + b2.len()));
        assert(<BitMap as XdrDeserialize>::spec_parse(data, pos + (b0 + b1 + b2).len()) == Parse::Done(v.attrset, pos + (b0 + b1 + b2).len() + b3.len()));
        assert(<OpenDelegation as XdrDeserialize>::spec_parse(data, pos + (b0 + b1 + b2 + b3).len()) == Parse::Done(v.delegation, pos + (b0 + b1 + b2 + b3).len() + b4.len()));
    }
}

/// A [`OpenAttributesArgs`] whose fields each read back as themselves reads back as itself.
#[verifier::spinoff_prover]
#[verifier::rlimit(60)]
pub proof fn lemma_open_attributes_args_roundtrips(v: SpecOpenAttributesArgs)
    requires
        spec_roundtrips::<bool>(v.create_dir),
    ensures
        spec_roundtrips::<OpenAttributesArgs>(v),
{
    let b0 = <bool as XdrSerialize>::spec_emit(v.create_dir)->Done_0;
    assert forall|data: Seq<u8>, pos: int|
        spec_at(data, pos, <OpenAttributesArgs as XdrSerialize>::spec_emit(v)->Done_0) implies #[trigger] <OpenAttributesArgs as XdrDeserialize>::spec_parse(
        data,
        pos,
    ) == Parse::Done(v, pos + <OpenAttributesArgs as XdrSerialize>::spec_emit(v)->Done_0.len()) by {
        reveal(spec_parse_open_attributes_args);
        assert(<bool as XdrDeserialize>::spec_parse(data, pos) == Parse::Done(v.create_dir, pos + b0.len()));
    }
}

/// A [`OpenConfirmArgs`] whose fields each read back as themselves reads back as itself.
#[verifier::spinoff_prover]
#[verifier::rlimit(60)]
pub proof fn lemma_open_confirm_args_roundtrips(v: SpecOpenConfirmArgs)
    requires
        spec_roundtrips::<StateId>(v.open_state_id),
        spec_roundtrips::<SeqId>(v.seq_id),
    ensures
        spec_roundtrips::<OpenConfirmArgs>(v),
{
    let b0 = <StateId as XdrSerialize>::spec_emit(v.open_state_id)->Done_0;
    let b1 = <SeqId as XdrSerialize>::spec_emit(v.seq_id)->Done_0;
    assert forall|data: Seq<u8>, pos: int|
        spec_at(data, pos, <OpenConfirmArgs as XdrSerialize>::spec_emit(v)->Done_0) implies #[trigger] <OpenConfirmArgs as XdrDeserialize>::spec_parse(
        data,
        pos,
    ) == Parse::Done(v, pos + <OpenConfirmArgs as XdrSerialize>::spec_emit(v)->Done_0.len()) by {
        reveal(spec_parse_open_confirm_args);
        lemma_at_split(data, pos, b0, b1);
        assert(<StateId as XdrDeserialize>::spec_parse(data, pos) == Parse::Done(v.open_state_id, pos + b0.len()));
        assert(<SeqId as XdrDeserialize>::spec_parse(data, pos + (b0).len()) == Parse::Done(v.seq_id, pos + (b0).len() + b1.len()));
    }
}

/// A [`OpenDowngradeArgs`] whose fields each read back as themselves reads back as itself.
#[verifier::spinoff_prover]
#[verifier::rlimit(60)]
pub proof fn lemma_open_downgrade_args_roundtrips(v: SpecOpenDowngradeArgs)
    requires
        spec_roundtrips::<StateId>(v.open_state_id),
        spec_roundtrips::<SeqId>(v.seq_id),
    ensures
        spec_roundtrips::<OpenDowngradeArgs>(v),
{
    let b0 = <StateId as XdrSerialize>::spec_emit(v.open_state_id)->Done_0;
    let b1 = <SeqId as XdrSerialize>::spec_emit(v.seq_id)->Done_0;
    assert forall|data: Seq<u8>, pos: int|
        spec_at(data, pos, <OpenDowngradeArgs as XdrSerialize>::spec_emit(v)->Done_0) implies #[trigger] <OpenDowngradeArgs as XdrDeserialize>::spec_parse(
        data,
        pos,
    ) == Parse::Done(v, pos + <OpenDowngradeArgs as XdrSerialize>::spec_emit(v)->Done_0.len()) by {
        reveal(spec_parse_open_downgrade_args);
        lemma_at_split(data, pos, b0, b1);
        assert(<StateId as XdrDeserialize>::spec_parse(data, pos) == Parse::Done(v.open_state_id, pos + b0.len()));
        assert(<SeqId as XdrDeserialize>::spec_parse(data, pos + (b0).len()) == Parse::Done(v.seq_id, pos + (b0).len() + b1.len()));
    }
}

/// A [`OpenDowngradeOk`] whose fields each read back as themselves reads back as itself.
#[verifier::spinoff_prover]
#[verifier::rlimit(60)]
pub proof fn lemma_open_downgrade_ok_roundtrips(v: SpecOpenDowngradeOk)
    requires
        spec_roundtrips::<StateId>(v.open_state_id),
    ensures
        spec_roundtrips::<OpenDowngradeOk>(v),
{
    let b0 = <StateId as XdrSerialize>::spec_emit(v.open_state_id)->Done_0;
    assert forall|data: Seq<u8>, pos: int|
        spec_at(data, pos, <OpenDowngradeOk as XdrSerialize>::spec_emit(v)->Done_0) implies #[trigger] <OpenDowngradeOk as XdrDeserialize>::spec_parse(
        data,
        pos,
    ) == Parse::Done(v, pos + <OpenDowngradeOk as XdrSerialize>::spec_emit(v)->Done_0.len()) by {
        reveal(spec_parse_open_downgrade_ok);
        assert(<StateId as XdrDeserialize>::spec_parse(data, pos) == Parse::Done(v.open_state_id, pos + b0.len()));
    }
}

/// A [`PutFhArgs`] whose fields each read back as themselves reads back as itself.
#[verifier::spinoff_prover]
#[verifier::rlimit(60)]
pub proof fn lemma_put_fh_args_roundtrips(v: SpecPutFhArgs)
    requires
        spec_roundtrips::<NfsFh>(v.object),
    ensures
        spec_roundtrips::<PutFhArgs>(v),
{
    let b0 = <NfsFh as XdrSerialize>::spec_emit(v.object)->Done_0;
    assert forall|data: Seq<u8>, pos: int|
        spec_at(data, pos, <PutFhArgs as XdrSerialize>::spec_emit(v)->Done_0) implies #[trigger] <PutFhArgs as XdrDeserialize>::spec_parse(
        data,
        pos,
    ) == Parse::Done(v, pos + <PutFhArgs as XdrSerialize>::spec_emit(v)->Done_0.len()) by {
        reveal(spec_parse_put_fh_args);
        assert(<NfsFh as XdrDeserialize>::spec_parse(data, pos) == Parse::Done(v.object, pos + b0.len()));
    }
}

/// A [`ReadArgs`] whose fields each read back as themselves reads back as itself.
#[verifier::spinoff_prover]
#[verifier::rlimit(60)]
pub proof fn lemma_read_args_roundtrips(v: SpecReadArgs)
    requires
        spec_roundtrips::<StateId>(v.state_id),
        spec_roundtrips::<Offset>(v.offset),
        spec_roundtrips::<Count>(v.count),
    ensures
        spec_roundtrips::<ReadArgs>(v),
{
    let b0 = <StateId as XdrSerialize>::spec_emit(v.state_id)->Done_0;
    let b1 = <Offset as XdrSerialize>::spec_emit(v.offset)->Done_0;
    let b2 = <Count as XdrSerialize>::spec_emit(v.count)->Done_0;
    assert forall|data: Seq<u8>, pos: int|
        spec_at(data, pos, <ReadArgs as XdrSerialize>::spec_emit(v)->Done_0) implies #[trigger] <ReadArgs as XdrDeserialize>::spec_parse(
        data,
        pos,
    ) == Parse::Done(v, pos + <ReadArgs as XdrSerialize>::spec_emit(v)->Done_0.len()) by {
        reveal(spec_parse_read_args);
        lemma_at_split(data, pos, b0 + b1, b2);
        lemma_at_split(data, pos, b0, b1);
        assert(<StateId as XdrDeserialize>::spec_parse(data, pos) == Parse::Done(v.state_id, pos + b0.len()));
        assert(<Offset as XdrDeserialize>::spec_parse(data, pos + (b0).len()) == Parse::Done(v.offset, pos + (b0).len() + b1.len()));
        assert(<Count as XdrDeserialize>::spec_parse(data, pos + (b0 + b1).len()) == Parse::Done(v.count, pos + (b0 + b1).len() + b2.len()));
    }
}

/// A [`ReadOk`] whose fields each read back as themselves reads back as itself.
#[verifier::spinoff_prover]
#[verifier::rlimit(60)]
pub proof fn lemma_read_ok_roundtrips(v: SpecReadOk)
    requires
        spec_roundtrips::<bool>(v.eof),
        spec_roundtrips::<XdrOpaque>(v.data),
    ensures
        spec_roundtrips::<ReadOk>(v),
{
    let b0 = <bool as XdrSerialize>::spec_emit(v.eof)->Done_0;
    let b1 = <XdrOpaque as XdrSerialize>::spec_emit(v.data)->Done_0;
    assert forall|data: Seq<u8>, pos: int|
        spec_at(data, pos, <ReadOk as XdrSerialize>::spec_emit(v)->Done_0) implies #[trigger] <ReadOk as XdrDeserialize>::spec_parse(
        data,
        pos,
    ) == Parse::Done(v, pos + <ReadOk as XdrSerialize>::spec_emit(v)->Done_0.len()) by {
        reveal(spec_parse_read_ok);
        lemma_at_split(data, pos, b0, b1);
        assert(<bool as XdrDeserialize>::spec_parse(data, pos) == Parse::Done(v.eof, pos + b0.len()));
        assert(<XdrOpaque as XdrDeserialize>::spec_parse(data, pos + (b0).len()) == Parse::Done(v.data, pos + (b0).len() + b1.len()));
    }
}

/// A [`ReadDirectoryArgs`] whose fields each read back as themselves reads back as itself.
#[verifier::spinoff_prover]
#[verifier::rlimit(60)]
pub proof fn lemma_read_directory_args_roundtrips(v: SpecReadDirectoryArgs)
    requires
        spec_roundtrips::<NfsCookie>(v.cookie),
        spec_roundtrips::<Verifier>(v.cookie_verifier),
        spec_roundtrips::<Count>(v.directory_count),
        spec_roundtrips::<Count>(v.max_count),
        spec_roundtrips::<BitMap>(v.attr_request),
    ensures
        spec_roundtrips::<ReadDirectoryArgs>(v),
{
    let b0 = <NfsCookie as XdrSerialize>::spec_emit(v.cookie)->Done_0;
    let b1 = <Verifier as XdrSerialize>::spec_emit(v.cookie_verifier)->Done_0;
    let b2 = <Count as XdrSerialize>::spec_emit(v.directory_count)->Done_0;
    let b3 = <Count as XdrSerialize>::spec_emit(v.max_count)->Done_0;
    let b4 = <BitMap as XdrSerialize>::spec_emit(v.attr_request)->Done_0;
    assert forall|data: Seq<u8>, pos: int|
        spec_at(data, pos, <ReadDirectoryArgs as XdrSerialize>::spec_emit(v)->Done_0) implies #[trigger] <ReadDirectoryArgs as XdrDeserialize>::spec_parse(
        data,
        pos,
    ) == Parse::Done(v, pos + <ReadDirectoryArgs as XdrSerialize>::spec_emit(v)->Done_0.len()) by {
        reveal(spec_parse_read_directory_args);
        lemma_at_split(data, pos, b0 + b1 + b2 + b3, b4);
        lemma_at_split(data, pos, b0 + b1 + b2, b3);
        lemma_at_split(data, pos, b0 + b1, b2);
        lemma_at_split(data, pos, b0, b1);
        assert(<NfsCookie as XdrDeserialize>::spec_parse(data, pos) == Parse::Done(v.cookie, pos + b0.len()));
        assert(<Verifier as XdrDeserialize>::spec_parse(data, pos + (b0).len()) == Parse::Done(v.cookie_verifier, pos + (b0).len() + b1.len()));
        assert(<Count as XdrDeserialize>::spec_parse(data, pos + (b0 + b1).len()) == Parse::Done(v.directory_count, pos + (b0 + b1).len() + b2.len()));
        assert(<Count as XdrDeserialize>::spec_parse(data, pos + (b0 + b1 + b2).len()) == Parse::Done(v.max_count, pos + (b0 + b1 + b2).len() + b3.len()));
        assert(<BitMap as XdrDeserialize>::spec_parse(data, pos + (b0 + b1 + b2 + b3).len()) == Parse::Done(v.attr_request, pos + (b0 + b1 + b2 + b3).len() + b4.len()));
    }
}

/// A [`Entry`] whose fields each read back as themselves reads back as itself.
#[verifier::spinoff_prover]
#[verifier::rlimit(60)]
pub proof fn lemma_entry_roundtrips(v: SpecEntry)
    requires
        spec_roundtrips::<NfsCookie>(v.cookie),
        spec_roundtrips::<Component>(v.name),
        spec_roundtrips::<FileAttrs>(v.attrs),
    ensures
        spec_roundtrips::<Entry>(v),
{
    let b0 = <NfsCookie as XdrSerialize>::spec_emit(v.cookie)->Done_0;
    let b1 = <Component as XdrSerialize>::spec_emit(v.name)->Done_0;
    let b2 = <FileAttrs as XdrSerialize>::spec_emit(v.attrs)->Done_0;
    assert forall|data: Seq<u8>, pos: int|
        spec_at(data, pos, <Entry as XdrSerialize>::spec_emit(v)->Done_0) implies #[trigger] <Entry as XdrDeserialize>::spec_parse(
        data,
        pos,
    ) == Parse::Done(v, pos + <Entry as XdrSerialize>::spec_emit(v)->Done_0.len()) by {
        reveal(spec_parse_entry);
        lemma_at_split(data, pos, b0 + b1, b2);
        lemma_at_split(data, pos, b0, b1);
        assert(<NfsCookie as XdrDeserialize>::spec_parse(data, pos) == Parse::Done(v.cookie, pos + b0.len()));
        assert(<Component as XdrDeserialize>::spec_parse(data, pos + (b0).len()) == Parse::Done(v.name, pos + (b0).len() + b1.len()));
        assert(<FileAttrs as XdrDeserialize>::spec_parse(data, pos + (b0 + b1).len()) == Parse::Done(v.attrs, pos + (b0 + b1).len() + b2.len()));
    }
}

/// A [`ReadDirectoryOk`] whose fields each read back as themselves reads back as itself.
#[verifier::spinoff_prover]
#[verifier::rlimit(60)]
pub proof fn lemma_read_directory_ok_roundtrips(v: SpecReadDirectoryOk)
    requires
        spec_roundtrips::<Verifier>(v.cookie_verifier),
        spec_roundtrips::<DirectoryList>(v.reply),
    ensures
        spec_roundtrips::<ReadDirectoryOk>(v),
{
    let b0 = <Verifier as XdrSerialize>::spec_emit(v.cookie_verifier)->Done_0;
    let b1 = <DirectoryList as XdrSerialize>::spec_emit(v.reply)->Done_0;
    assert forall|data: Seq<u8>, pos: int|
        spec_at(data, pos, <ReadDirectoryOk as XdrSerialize>::spec_emit(v)->Done_0) implies #[trigger] <ReadDirectoryOk as XdrDeserialize>::spec_parse(
        data,
        pos,
    ) == Parse::Done(v, pos + <ReadDirectoryOk as XdrSerialize>::spec_emit(v)->Done_0.len()) by {
        reveal(spec_parse_read_directory_ok);
        lemma_at_split(data, pos, b0, b1);
        assert(<Verifier as XdrDeserialize>::spec_parse(data, pos) == Parse::Done(v.cookie_verifier, pos + b0.len()));
        assert(<DirectoryList as XdrDeserialize>::spec_parse(data, pos + (b0).len()) == Parse::Done(v.reply, pos + (b0).len() + b1.len()));
    }
}

/// A [`ReadLinkOk`] whose fields each read back as themselves reads back as itself.
#[verifier::spinoff_prover]
#[verifier::rlimit(60)]
pub proof fn lemma_read_link_ok_roundtrips(v: SpecReadLinkOk)
    requires
        spec_roundtrips::<LinkText>(v.link),
    ensures
        spec_roundtrips::<ReadLinkOk>(v),
{
    let b0 = <LinkText as XdrSerialize>::spec_emit(v.link)->Done_0;
    assert forall|data: Seq<u8>, pos: int|
        spec_at(data, pos, <ReadLinkOk as XdrSerialize>::spec_emit(v)->Done_0) implies #[trigger] <ReadLinkOk as XdrDeserialize>::spec_parse(
        data,
        pos,
    ) == Parse::Done(v, pos + <ReadLinkOk as XdrSerialize>::spec_emit(v)->Done_0.len()) by {
        reveal(spec_parse_read_link_ok);
        assert(<LinkText as XdrDeserialize>::spec_parse(data, pos) == Parse::Done(v.link, pos + b0.len()));
    }
}

/// A [`RemoveArgs`] whose fields each read back as themselves reads back as itself.
#[verifier::spinoff_prover]
#[verifier::rlimit(60)]
pub proof fn lemma_remove_args_roundtrips(v: SpecRemoveArgs)
    requires
        spec_roundtrips::<Component>(v.target),
    ensures
        spec_roundtrips::<RemoveArgs>(v),
{
    let b0 = <Component as XdrSerialize>::spec_emit(v.target)->Done_0;
    assert forall|data: Seq<u8>, pos: int|
        spec_at(data, pos, <RemoveArgs as XdrSerialize>::spec_emit(v)->Done_0) implies #[trigger] <RemoveArgs as XdrDeserialize>::spec_parse(
        data,
        pos,
    ) == Parse::Done(v, pos + <RemoveArgs as XdrSerialize>::spec_emit(v)->Done_0.len()) by {
        reveal(spec_parse_remove_args);
        assert(<Component as XdrDeserialize>::spec_parse(data, pos) == Parse::Done(v.target, pos + b0.len()));
    }
}

/// A [`RemoveOk`] whose fields each read back as themselves reads back as itself.
#[verifier::spinoff_prover]
#[verifier::rlimit(60)]
pub proof fn lemma_remove_ok_roundtrips(v: SpecRemoveOk)
    requires
        spec_roundtrips::<ChangeInfo>(v.change_info),
    ensures
        spec_roundtrips::<RemoveOk>(v),
{
    let b0 = <ChangeInfo as XdrSerialize>::spec_emit(v.change_info)->Done_0;
    assert forall|data: Seq<u8>, pos: int|
        spec_at(data, pos, <RemoveOk as XdrSerialize>::spec_emit(v)->Done_0) implies #[trigger] <RemoveOk as XdrDeserialize>::spec_parse(
        data,
        pos,
    ) == Parse::Done(v, pos + <RemoveOk as XdrSerialize>::spec_emit(v)->Done_0.len()) by {
        reveal(spec_parse_remove_ok);
        assert(<ChangeInfo as XdrDeserialize>::spec_parse(data, pos) == Parse::Done(v.change_info, pos + b0.len()));
    }
}

/// A [`RenameArgs`] whose fields each read back as themselves reads back as itself.
#[verifier::spinoff_prover]
#[verifier::rlimit(60)]
pub proof fn lemma_rename_args_roundtrips(v: SpecRenameArgs)
    requires
        spec_roundtrips::<Component>(v.old_name),
        spec_roundtrips::<Component>(v.new_name),
    ensures
        spec_roundtrips::<RenameArgs>(v),
{
    let b0 = <Component as XdrSerialize>::spec_emit(v.old_name)->Done_0;
    let b1 = <Component as XdrSerialize>::spec_emit(v.new_name)->Done_0;
    assert forall|data: Seq<u8>, pos: int|
        spec_at(data, pos, <RenameArgs as XdrSerialize>::spec_emit(v)->Done_0) implies #[trigger] <RenameArgs as XdrDeserialize>::spec_parse(
        data,
        pos,
    ) == Parse::Done(v, pos + <RenameArgs as XdrSerialize>::spec_emit(v)->Done_0.len()) by {
        reveal(spec_parse_rename_args);
        lemma_at_split(data, pos, b0, b1);
        assert(<Component as XdrDeserialize>::spec_parse(data, pos) == Parse::Done(v.old_name, pos + b0.len()));
        assert(<Component as XdrDeserialize>::spec_parse(data, pos + (b0).len()) == Parse::Done(v.new_name, pos + (b0).len() + b1.len()));
    }
}

/// A [`RenameOk`] whose fields each read back as themselves reads back as itself.
#[verifier::spinoff_prover]
#[verifier::rlimit(60)]
pub proof fn lemma_rename_ok_roundtrips(v: SpecRenameOk)
    requires
        spec_roundtrips::<ChangeInfo>(v.source_change_info),
        spec_roundtrips::<ChangeInfo>(v.target_change_info),
    ensures
        spec_roundtrips::<RenameOk>(v),
{
    let b0 = <ChangeInfo as XdrSerialize>::spec_emit(v.source_change_info)->Done_0;
    let b1 = <ChangeInfo as XdrSerialize>::spec_emit(v.target_change_info)->Done_0;
    assert forall|data: Seq<u8>, pos: int|
        spec_at(data, pos, <RenameOk as XdrSerialize>::spec_emit(v)->Done_0) implies #[trigger] <RenameOk as XdrDeserialize>::spec_parse(
        data,
        pos,
    ) == Parse::Done(v, pos + <RenameOk as XdrSerialize>::spec_emit(v)->Done_0.len()) by {
        reveal(spec_parse_rename_ok);
        lemma_at_split(data, pos, b0, b1);
        assert(<ChangeInfo as XdrDeserialize>::spec_parse(data, pos) == Parse::Done(v.source_change_info, pos + b0.len()));
        assert(<ChangeInfo as XdrDeserialize>::spec_parse(data, pos + (b0).len()) == Parse::Done(v.target_change_info, pos + (b0).len() + b1.len()));
    }
}

/// A [`RenewArgs`] whose fields each read back as themselves reads back as itself.
#[verifier::spinoff_prover]
#[verifier::rlimit(60)]
pub proof fn lemma_renew_args_roundtrips(v: SpecRenewArgs)
    requires
        spec_roundtrips::<ClientId>(v.client_id),
    ensures
        spec_roundtrips::<RenewArgs>(v),
{
    let b0 = <ClientId as XdrSerialize>::spec_emit(v.client_id)->Done_0;
    assert forall|data: Seq<u8>, pos: int|
        spec_at(data, pos, <RenewArgs as XdrSerialize>::spec_emit(v)->Done_0) implies #[trigger] <RenewArgs as XdrDeserialize>::spec_parse(
        data,
        pos,
    ) == Parse::Done(v, pos + <RenewArgs as XdrSerialize>::spec_emit(v)->Done_0.len()) by {
        reveal(spec_parse_renew_args);
        assert(<ClientId as XdrDeserialize>::spec_parse(data, pos) == Parse::Done(v.client_id, pos + b0.len()));
    }
}

/// A [`SecurityInfoArgs`] whose fields each read back as themselves reads back as itself.
#[verifier::spinoff_prover]
#[verifier::rlimit(60)]
pub proof fn lemma_security_info_args_roundtrips(v: SpecSecurityInfoArgs)
    requires
        spec_roundtrips::<Component>(v.name),
    ensures
        spec_roundtrips::<SecurityInfoArgs>(v),
{
    let b0 = <Component as XdrSerialize>::spec_emit(v.name)->Done_0;
    assert forall|data: Seq<u8>, pos: int|
        spec_at(data, pos, <SecurityInfoArgs as XdrSerialize>::spec_emit(v)->Done_0) implies #[trigger] <SecurityInfoArgs as XdrDeserialize>::spec_parse(
        data,
        pos,
    ) == Parse::Done(v, pos + <SecurityInfoArgs as XdrSerialize>::spec_emit(v)->Done_0.len()) by {
        reveal(spec_parse_security_info_args);
        assert(<Component as XdrDeserialize>::spec_parse(data, pos) == Parse::Done(v.name, pos + b0.len()));
    }
}

/// A [`RpcGssSvc`] reads back as itself.
pub proof fn lemma_rpc_gss_svc_roundtrips(v: RpcGssSvc)
    ensures
        spec_roundtrips::<RpcGssSvc>(v),
{
    lemma_u32_roundtrips(v.spec_to_u32());
    assert forall|data: Seq<u8>, pos: int|
        spec_at(data, pos, <RpcGssSvc as XdrSerialize>::spec_emit(v)->Done_0) implies #[trigger] <RpcGssSvc as XdrDeserialize>::spec_parse(
        data,
        pos,
    ) == Parse::Done(v, pos + <RpcGssSvc as XdrSerialize>::spec_emit(v)->Done_0.len()) by {
        assert(<u32 as XdrDeserialize>::spec_parse(data, pos) == Parse::Done(v.spec_to_u32(), pos + 4));
    }
}

/// A [`RpcSecGssInfo`] whose fields each read back as themselves reads back as itself.
#[verifier::spinoff_prover]
#[verifier::rlimit(60)]
pub proof fn lemma_rpc_sec_gss_info_roundtrips(v: SpecRpcSecGssInfo)
    requires
        spec_roundtrips::<SecOid>(v.oid),
        spec_roundtrips::<QOp>(v.qop),
        spec_roundtrips::<RpcGssSvc>(v.service),
    ensures
        spec_roundtrips::<RpcSecGssInfo>(v),
{
    let b0 = <SecOid as XdrSerialize>::spec_emit(v.oid)->Done_0;
    let b1 = <QOp as XdrSerialize>::spec_emit(v.qop)->Done_0;
    let b2 = <RpcGssSvc as XdrSerialize>::spec_emit(v.service)->Done_0;
    assert forall|data: Seq<u8>, pos: int|
        spec_at(data, pos, <RpcSecGssInfo as XdrSerialize>::spec_emit(v)->Done_0) implies #[trigger] <RpcSecGssInfo as XdrDeserialize>::spec_parse(
        data,
        pos,
    ) == Parse::Done(v, pos + <RpcSecGssInfo as XdrSerialize>::spec_emit(v)->Done_0.len()) by {
        reveal(spec_parse_rpc_sec_gss_info);
        lemma_at_split(data, pos, b0 + b1, b2);
        lemma_at_split(data, pos, b0, b1);
        assert(<SecOid as XdrDeserialize>::spec_parse(data, pos) == Parse::Done(v.oid, pos + b0.len()));
        assert(<QOp as XdrDeserialize>::spec_parse(data, pos + (b0).len()) == Parse::Done(v.qop, pos + (b0).len() + b1.len()));
        assert(<RpcGssSvc as XdrDeserialize>::spec_parse(data, pos + (b0 + b1).len()) == Parse::Done(v.service, pos + (b0 + b1).len() + b2.len()));
    }
}

/// A [`SecurityInfo`] whose contents read back as themselves reads back as itself.
#[verifier::spinoff_prover]
#[verifier::rlimit(60)]
pub proof fn lemma_security_info_roundtrips(v: SpecSecurityInfo)
    requires
        match v {
            SpecSecurityInfo::RpcSecGss(x) => spec_roundtrips::<RpcSecGssInfo>(x),
            SpecSecurityInfo::Unknown => true,
        },
    ensures
        spec_roundtrips::<SecurityInfo>(v),
{
    match v {
        SpecSecurityInfo::RpcSecGss(x) => {
            lemma_u32_roundtrips(RPCSEC_GSS);
            let a = spec_u32_emit(RPCSEC_GSS)->Done_0;
            let b = <RpcSecGssInfo as XdrSerialize>::spec_emit(x)->Done_0;
            assert forall|data: Seq<u8>, pos: int|
                spec_at(data, pos, <SecurityInfo as XdrSerialize>::spec_emit(v)->Done_0) implies #[trigger] <SecurityInfo as XdrDeserialize>::spec_parse(
                data,
                pos,
            ) == Parse::Done(v, pos + <SecurityInfo as XdrSerialize>::spec_emit(v)->Done_0.len()) by {
                reveal(spec_parse_security_info);
                lemma_at_split(data, pos, a, b);
                assert(<u32 as XdrDeserialize>::spec_parse(data, pos) == Parse::Done(RPCSEC_GSS, pos + 4));
            }
        },
        SpecSecurityInfo::Unknown => {
            lemma_u32_roundtrips(0u32);
            let a = spec_u32_emit(0u32)->Done_0;
            assert forall|data: Seq<u8>, pos: int|
                spec_at(data, pos, <SecurityInfo as XdrSerialize>::spec_emit(v)->Done_0) implies #[trigger] <SecurityInfo as XdrDeserialize>::spec_parse(
                data,
                pos,
            ) == Parse::Done(v, pos + <SecurityInfo as XdrSerialize>::spec_emit(v)->Done_0.len()) by {
                reveal(spec_parse_security_info);
                assert(<u32 as XdrDeserialize>::spec_parse(data, pos) == Parse::Done(0u32, pos + 4));
            }
        },
    }
}

/// A [`SecurityInfoOk`] whose fields each read back as themselves reads back as itself.
#[verifier::spinoff_prover]
#[verifier::rlimit(60)]
pub proof fn lemma_security_info_ok_roundtrips(v: SpecSecurityInfoOk)
    requires
        spec_vec_roundtrips::<SecurityInfo>(v.0),
    ensures
        spec_roundtrips::<SecurityInfoOk>(v),
{
    let b0 = spec_vec_emit::<SecurityInfo>(v.0)->Done_0;
    assert forall|data: Seq<u8>, pos: int|
        spec_at(data, pos, <SecurityInfoOk as XdrSerialize>::spec_emit(v)->Done_0) implies #[trigger] <SecurityInfoOk as XdrDeserialize>::spec_parse(
        data,
        pos,
    ) == Parse::Done(v, pos + <SecurityInfoOk as XdrSerialize>::spec_emit(v)->Done_0.len()) by {
        reveal(spec_parse_security_info_ok);
        assert(spec_vec_parse::<SecurityInfo>(data, pos) == Parse::Done(v.0, pos + b0.len()));
    }
}

/// A [`SetAttributesArgs`] whose fields each read back as themselves reads back as itself.
#[verifier::spinoff_prover]
#[verifier::rlimit(60)]
pub proof fn lemma_set_attributes_args_roundtrips(v: SpecSetAttributesArgs)
    requires
        spec_roundtrips::<StateId>(v.state_id),
        spec_roundtrips::<FileAttrs>(v.object_attrs),
    ensures
        spec_roundtrips::<SetAttributesArgs>(v),
{
    let b0 = <StateId as XdrSerialize>::spec_emit(v.state_id)->Done_0;
    let b1 = <FileAttrs as XdrSerialize>::spec_emit(v.object_attrs)->Done_0;
    assert forall|data: Seq<u8>, pos: int|
        spec_at(data, pos, <SetAttributesArgs as XdrSerialize>::spec_emit(v)->Done_0) implies #[trigger] <SetAttributesArgs as XdrDeserialize>::spec_parse(
        data,
        pos,
    ) == Parse::Done(v, pos + <SetAttributesArgs as XdrSerialize>::spec_emit(v)->Done_0.len()) by {
        reveal(spec_parse_set_attributes_args);
        lemma_at_split(data, pos, b0, b1);
        assert(<StateId as XdrDeserialize>::spec_parse(data, pos) == Parse::Done(v.state_id, pos + b0.len()));
        assert(<FileAttrs as XdrDeserialize>::spec_parse(data, pos + (b0).len()) == Parse::Done(v.object_attrs, pos + (b0).len() + b1.len()));
    }
}

/// A [`SetClientIdArgs`] whose fields each read back as themselves reads back as itself.
#[verifier::spinoff_prover]
#[verifier::rlimit(60)]
pub proof fn lemma_set_client_id_args_roundtrips(v: SpecSetClientIdArgs)
    requires
        spec_roundtrips::<NfsClientId>(v.client),
        spec_roundtrips::<CallbackClient>(v.callback),
        spec_roundtrips::<u32>(v.callback_ident),
    ensures
        spec_roundtrips::<SetClientIdArgs>(v),
{
    let b0 = <NfsClientId as XdrSerialize>::spec_emit(v.client)->Done_0;
    let b1 = <CallbackClient as XdrSerialize>::spec_emit(v.callback)->Done_0;
    let b2 = <u32 as XdrSerialize>::spec_emit(v.callback_ident)->Done_0;
    assert forall|data: Seq<u8>, pos: int|
        spec_at(data, pos, <SetClientIdArgs as XdrSerialize>::spec_emit(v)->Done_0) implies #[trigger] <SetClientIdArgs as XdrDeserialize>::spec_parse(
        data,
        pos,
    ) == Parse::Done(v, pos + <SetClientIdArgs as XdrSerialize>::spec_emit(v)->Done_0.len()) by {
        reveal(spec_parse_set_client_id_args);
        lemma_at_split(data, pos, b0 + b1, b2);
        lemma_at_split(data, pos, b0, b1);
        assert(<NfsClientId as XdrDeserialize>::spec_parse(data, pos) == Parse::Done(v.client, pos + b0.len()));
        assert(<CallbackClient as XdrDeserialize>::spec_parse(data, pos + (b0).len()) == Parse::Done(v.callback, pos + (b0).len() + b1.len()));
        assert(<u32 as XdrDeserialize>::spec_parse(data, pos + (b0 + b1).len()) == Parse::Done(v.callback_ident, pos + (b0 + b1).len() + b2.len()));
    }
}

/// A [`SetClientIdOk`] whose fields each read back as themselves reads back as itself.
#[verifier::spinoff_prover]
#[verifier::rlimit(60)]
pub proof fn lemma_set_client_id_ok_roundtrips(v: SpecSetClientIdOk)
    requires
        spec_roundtrips::<ClientId>(v.client_id),
        spec_roundtrips::<Verifier>(v.set_client_id_confirm),
    ensures
        spec_roundtrips::<SetClientIdOk>(v),
{
    let b0 = <ClientId as XdrSerialize>::spec_emit(v.client_id)->Done_0;
    let b1 = <Verifier as XdrSerialize>::spec_emit(v.set_client_id_confirm)->Done_0;
    assert forall|data: Seq<u8>, pos: int|
        spec_at(data, pos, <SetClientIdOk as XdrSerialize>::spec_emit(v)->Done_0) implies #[trigger] <SetClientIdOk as XdrDeserialize>::spec_parse(
        data,
        pos,
    ) == Parse::Done(v, pos + <SetClientIdOk as XdrSerialize>::spec_emit(v)->Done_0.len()) by {
        reveal(spec_parse_set_client_id_ok);
        lemma_at_split(data, pos, b0, b1);
        assert(<ClientId as XdrDeserialize>::spec_parse(data, pos) == Parse::Done(v.client_id, pos + b0.len()));
        assert(<Verifier as XdrDeserialize>::spec_parse(data, pos + (b0).len()) == Parse::Done(v.set_client_id_confirm, pos + (b0).len() + b1.len()));
    }
}

/// A [`SetClientIdConfirmArgs`] whose fields each read back as themselves reads back as itself.
#[verifier::spinoff_prover]
#[verifier::rlimit(60)]
pub proof fn lemma_set_client_id_confirm_args_roundtrips(v: SpecSetClientIdConfirmArgs)
    requires
        spec_roundtrips::<ClientId>(v.client_id),
        spec_roundtrips::<Verifier>(v.set_client_id_confirm),
    ensures
        spec_roundtrips::<SetClientIdConfirmArgs>(v),
{
    let b0 = <ClientId as XdrSerialize>::spec_emit(v.client_id)->Done_0;
    let b1 = <Verifier as XdrSerialize>::spec_emit(v.set_client_id_confirm)->Done_0;
    assert forall|data: Seq<u8>, pos: int|
        spec_at(data, pos, <SetClientIdConfirmArgs as XdrSerialize>::spec_emit(v)->Done_0) implies #[trigger] <SetClientIdConfirmArgs as XdrDeserialize>::spec_parse(
        data,
        pos,
    ) == Parse::Done(v, pos + <SetClientIdConfirmArgs as XdrSerialize>::spec_emit(v)->Done_0.len()) by {
        reveal(spec_parse_set_client_id_confirm_args);
        lemma_at_split(data, pos, b0, b1);
        assert(<ClientId as XdrDeserialize>::spec_parse(data, pos) == Parse::Done(v.client_id, pos + b0.len()));
        assert(<Verifier as XdrDeserialize>::spec_parse(data, pos + (b0).len()) == Parse::Done(v.set_client_id_confirm, pos + (b0).len() + b1.len()));
    }
}

/// A [`VerifyArgs`] whose fields each read back as themselves reads back as itself.
#[verifier::spinoff_prover]
#[verifier::rlimit(60)]
pub proof fn lemma_verify_args_roundtrips(v: SpecVerifyArgs)
    requires
        spec_roundtrips::<FileAttrs>(v.object_attrs),
    ensures
        spec_roundtrips::<VerifyArgs>(v),
{
    let b0 = <FileAttrs as XdrSerialize>::spec_emit(v.object_attrs)->Done_0;
    assert forall|data: Seq<u8>, pos: int|
        spec_at(data, pos, <VerifyArgs as XdrSerialize>::spec_emit(v)->Done_0) implies #[trigger] <VerifyArgs as XdrDeserialize>::spec_parse(
        data,
        pos,
    ) == Parse::Done(v, pos + <VerifyArgs as XdrSerialize>::spec_emit(v)->Done_0.len()) by {
        reveal(spec_parse_verify_args);
        assert(<FileAttrs as XdrDeserialize>::spec_parse(data, pos) == Parse::Done(v.object_attrs, pos + b0.len()));
    }
}

/// A [`StableHow`] reads back as itself.
pub proof fn lemma_stable_how_roundtrips(v: StableHow)
    ensures
        spec_roundtrips::<StableHow>(v),
{
    lemma_u32_roundtrips(v.spec_to_u32());
    assert forall|data: Seq<u8>, pos: int|
        spec_at(data, pos, <StableHow as XdrSerialize>::spec_emit(v)->Done_0) implies #[trigger] <StableHow as XdrDeserialize>::spec_parse(
        data,
        pos,
    ) == Parse::Done(v, pos + <StableHow as XdrSerialize>::spec_emit(v)->Done_0.len()) by {
        assert(<u32 as XdrDeserialize>::spec_parse(data, pos) == Parse::Done(v.spec_to_u32(), pos + 4));
    }
}

/// A [`WriteArgs`] whose fields each read back as themselves reads back as itself.
#[verifier::spinoff_prover]
#[verifier::rlimit(60)]
pub proof fn lemma_write_args_roundtrips(v: SpecWriteArgs)
    requires
        spec_roundtrips::<StateId>(v.state_id),
        spec_roundtrips::<Offset>(v.offset),
        spec_roundtrips::<StableHow>(v.stable),
        spec_roundtrips::<XdrOpaque>(v.data),
    ensures
        spec_roundtrips::<WriteArgs>(v),
{
    let b0 = <StateId as XdrSerialize>::spec_emit(v.state_id)->Done_0;
    let b1 = <Offset as XdrSerialize>::spec_emit(v.offset)->Done_0;
    let b2 = <StableHow as XdrSerialize>::spec_emit(v.stable)->Done_0;
    let b3 = <XdrOpaque as XdrSerialize>::spec_emit(v.data)->Done_0;
    assert forall|data: Seq<u8>, pos: int|
        spec_at(data, pos, <WriteArgs as XdrSerialize>::spec_emit(v)->Done_0) implies #[trigger] <WriteArgs as XdrDeserialize>::spec_parse(
        data,
        pos,
    ) == Parse::Done(v, pos + <WriteArgs as XdrSerialize>::spec_emit(v)->Done_0.len()) by {
        reveal(spec_parse_write_args);
        lemma_at_split(data, pos, b0 + b1 + b2, b3);
        lemma_at_split(data, pos, b0 + b1, b2);
        lemma_at_split(data, pos, b0, b1);
        assert(<StateId as XdrDeserialize>::spec_parse(data, pos) == Parse::Done(v.state_id, pos + b0.len()));
        assert(<Offset as XdrDeserialize>::spec_parse(data, pos + (b0).len()) == Parse::Done(v.offset, pos + (b0).len() + b1.len()));
        assert(<StableHow as XdrDeserialize>::spec_parse(data, pos + (b0 + b1).len()) == Parse::Done(v.stable, pos + (b0 + b1).len() + b2.len()));
        assert(<XdrOpaque as XdrDeserialize>::spec_parse(data, pos + (b0 + b1 + b2).len()) == Parse::Done(v.data, pos + (b0 + b1 + b2).len() + b3.len()));
    }
}

/// A [`WriteOk`] whose fields each read back as themselves reads back as itself.
#[verifier::spinoff_prover]
#[verifier::rlimit(60)]
pub proof fn lemma_write_ok_roundtrips(v: SpecWriteOk)
    requires
        spec_roundtrips::<Count>(v.count),
        spec_roundtrips::<StableHow>(v.committed),
        spec_roundtrips::<Verifier>(v.write_verifier),
    ensures
        spec_roundtrips::<WriteOk>(v),
{
    let b0 = <Count as XdrSerialize>::spec_emit(v.count)->Done_0;
    let b1 = <StableHow as XdrSerialize>::spec_emit(v.committed)->Done_0;
    let b2 = <Verifier as XdrSerialize>::spec_emit(v.write_verifier)->Done_0;
    assert forall|data: Seq<u8>, pos: int|
        spec_at(data, pos, <WriteOk as XdrSerialize>::spec_emit(v)->Done_0) implies #[trigger] <WriteOk as XdrDeserialize>::spec_parse(
        data,
        pos,
    ) == Parse::Done(v, pos + <WriteOk as XdrSerialize>::spec_emit(v)->Done_0.len()) by {
        reveal(spec_parse_write_ok);
        lemma_at_split(data, pos, b0 + b1, b2);
        lemma_at_split(data, pos, b0, b1);
        assert(<Count as XdrDeserialize>::spec_parse(data, pos) == Parse::Done(v.count, pos + b0.len()));
        assert(<StableHow as XdrDeserialize>::spec_parse(data, pos + (b0).len()) == Parse::Done(v.committed, pos + (b0).len() + b1.len()));
        assert(<Verifier as XdrDeserialize>::spec_parse(data, pos + (b0 + b1).len()) == Parse::Done(v.write_verifier, pos + (b0 + b1).len() + b2.len()));
    }
}

/// A [`ReleaseLockOwnerArgs`] whose fields each read back as themselves reads back as itself.
#[verifier::spinoff_prover]
#[verifier::rlimit(60)]
pub proof fn lemma_release_lock_owner_args_roundtrips(v: SpecReleaseLockOwnerArgs)
    requires
        spec_roundtrips::<LockOwner>(v.lock_owner),
    ensures
        spec_roundtrips::<ReleaseLockOwnerArgs>(v),
{
    let b0 = <LockOwner as XdrSerialize>::spec_emit(v.lock_owner)->Done_0;
    assert forall|data: Seq<u8>, pos: int|
        spec_at(data, pos, <ReleaseLockOwnerArgs as XdrSerialize>::spec_emit(v)->Done_0) implies #[trigger] <ReleaseLockOwnerArgs as XdrDeserialize>::spec_parse(
        data,
        pos,
    ) == Parse::Done(v, pos + <ReleaseLockOwnerArgs as XdrSerialize>::spec_emit(v)->Done_0.len()) by {
        reveal(spec_parse_release_lock_owner_args);
        assert(<LockOwner as XdrDeserialize>::spec_parse(data, pos) == Parse::Done(v.lock_owner, pos + b0.len()));
    }
}

/// A [`GssCallbackHandles`] whose fields each read back as themselves reads back as itself.
#[verifier::spinoff_prover]
#[verifier::rlimit(60)]
pub proof fn lemma_gss_callback_handles_roundtrips(v: SpecGssCallbackHandles)
    requires
        spec_roundtrips::<RpcGssSvc>(v.gcbp_service),
        spec_roundtrips::<GssHandle>(v.gcbp_handle_from_server),
        spec_roundtrips::<GssHandle>(v.gcbp_handle_from_client),
    ensures
        spec_roundtrips::<GssCallbackHandles>(v),
{
    let b0 = <RpcGssSvc as XdrSerialize>::spec_emit(v.gcbp_service)->Done_0;
    let b1 = <GssHandle as XdrSerialize>::spec_emit(v.gcbp_handle_from_server)->Done_0;
    let b2 = <GssHandle as XdrSerialize>::spec_emit(v.gcbp_handle_from_client)->Done_0;
    assert forall|data: Seq<u8>, pos: int|
        spec_at(data, pos, <GssCallbackHandles as XdrSerialize>::spec_emit(v)->Done_0) implies #[trigger] <GssCallbackHandles as XdrDeserialize>::spec_parse(
        data,
        pos,
    ) == Parse::Done(v, pos + <GssCallbackHandles as XdrSerialize>::spec_emit(v)->Done_0.len()) by {
        reveal(spec_parse_gss_callback_handles);
        lemma_at_split(data, pos, b0 + b1, b2);
        lemma_at_split(data, pos, b0, b1);
        assert(<RpcGssSvc as XdrDeserialize>::spec_parse(data, pos) == Parse::Done(v.gcbp_service, pos + b0.len()));
        assert(<GssHandle as XdrDeserialize>::spec_parse(data, pos + (b0).len()) == Parse::Done(v.gcbp_handle_from_server, pos + (b0).len() + b1.len()));
        assert(<GssHandle as XdrDeserialize>::spec_parse(data, pos + (b0 + b1).len()) == Parse::Done(v.gcbp_handle_from_client, pos + (b0 + b1).len() + b2.len()));
    }
}

/// A [`CallbackSecurityParameters`] whose contents read back as themselves reads back as itself.
#[verifier::spinoff_prover]
#[verifier::rlimit(60)]
pub proof fn lemma_callback_security_parameters_roundtrips(v: SpecCallbackSecurityParameters)
    requires
        match v {
            SpecCallbackSecurityParameters::NoAuth => true,
            SpecCallbackSecurityParameters::Sys(x) => spec_roundtrips::<AuthUnix>(x),
            SpecCallbackSecurityParameters::RpcSecGss(x) => spec_roundtrips::<GssCallbackHandles>(x),
        },
    ensures
        spec_roundtrips::<CallbackSecurityParameters>(v),
{
    match v {
        SpecCallbackSecurityParameters::NoAuth => {
            lemma_auth_flavor_roundtrips(AuthFlavor::Null);
            let a = <AuthFlavor as XdrSerialize>::spec_emit(AuthFlavor::Null)->Done_0;
            assert forall|data: Seq<u8>, pos: int|
                spec_at(data, pos, <CallbackSecurityParameters as XdrSerialize>::spec_emit(v)->Done_0) implies #[trigger] <CallbackSecurityParameters as XdrDeserialize>::spec_parse(
                data,
                pos,
            ) == Parse::Done(v, pos + <CallbackSecurityParameters as XdrSerialize>::spec_emit(v)->Done_0.len()) by {
                reveal(spec_parse_callback_security_parameters);
                assert(<AuthFlavor as XdrDeserialize>::spec_parse(data, pos) == Parse::Done(AuthFlavor::Null, pos + 4));
            }
        },
        SpecCallbackSecurityParameters::Sys(x) => {
            lemma_auth_flavor_roundtrips(AuthFlavor::Unix);
            let a = <AuthFlavor as XdrSerialize>::spec_emit(AuthFlavor::Unix)->Done_0;
            let b = <AuthUnix as XdrSerialize>::spec_emit(x)->Done_0;
            assert forall|data: Seq<u8>, pos: int|
                spec_at(data, pos, <CallbackSecurityParameters as XdrSerialize>::spec_emit(v)->Done_0) implies #[trigger] <CallbackSecurityParameters as XdrDeserialize>::spec_parse(
                data,
                pos,
            ) == Parse::Done(v, pos + <CallbackSecurityParameters as XdrSerialize>::spec_emit(v)->Done_0.len()) by {
                reveal(spec_parse_callback_security_parameters);
                lemma_at_split(data, pos, a, b);
                assert(<AuthFlavor as XdrDeserialize>::spec_parse(data, pos) == Parse::Done(AuthFlavor::Unix, pos + 4));
            }
        },
        SpecCallbackSecurityParameters::RpcSecGss(x) => {
            lemma_auth_flavor_roundtrips(AuthFlavor::RpcSecGss);
            let a = <AuthFlavor as XdrSerialize>::spec_emit(AuthFlavor::RpcSecGss)->Done_0;
            let b = <GssCallbackHandles as XdrSerialize>::spec_emit(x)->Done_0;
            assert forall|data: Seq<u8>, pos: int|
                spec_at(data, pos, <CallbackSecurityParameters as XdrSerialize>::spec_emit(v)->Done_0) implies #[trigger] <CallbackSecurityParameters as XdrDeserialize>::spec_parse(
                data,
                pos,
            ) == Parse::Done(v, pos + <CallbackSecurityParameters as XdrSerialize>::spec_emit(v)->Done_0.len()) by {
                reveal(spec_parse_callback_security_parameters);
                lemma_at_split(data, pos, a, b);
                assert(<AuthFlavor as XdrDeserialize>::spec_parse(data, pos) == Parse::Done(AuthFlavor::RpcSecGss, pos + 4));
            }
        },
    }
}

/// A [`BackchannelControlArgs`] whose fields each read back as themselves reads back as itself.
#[verifier::spinoff_prover]
#[verifier::rlimit(60)]
pub proof fn lemma_backchannel_control_args_roundtrips(v: SpecBackchannelControlArgs)
    requires
        spec_roundtrips::<u32>(v.callback_program),
        spec_roundtrips::<CallbackSecurityParameters>(v.security_parameters),
    ensures
        spec_roundtrips::<BackchannelControlArgs>(v),
{
    let b0 = <u32 as XdrSerialize>::spec_emit(v.callback_program)->Done_0;
    let b1 = <CallbackSecurityParameters as XdrSerialize>::spec_emit(v.security_parameters)->Done_0;
    assert forall|data: Seq<u8>, pos: int|
        spec_at(data, pos, <BackchannelControlArgs as XdrSerialize>::spec_emit(v)->Done_0) implies #[trigger] <BackchannelControlArgs as XdrDeserialize>::spec_parse(
        data,
        pos,
    ) == Parse::Done(v, pos + <BackchannelControlArgs as XdrSerialize>::spec_emit(v)->Done_0.len()) by {
        reveal(spec_parse_backchannel_control_args);
        lemma_at_split(data, pos, b0, b1);
        assert(<u32 as XdrDeserialize>::spec_parse(data, pos) == Parse::Done(v.callback_program, pos + b0.len()));
        assert(<CallbackSecurityParameters as XdrDeserialize>::spec_parse(data, pos + (b0).len()) == Parse::Done(v.security_parameters, pos + (b0).len() + b1.len()));
    }
}

/// A [`ChannelDirectionFromClient`] reads back as itself.
pub proof fn lemma_channel_direction_from_client_roundtrips(v: ChannelDirectionFromClient)
    ensures
        spec_roundtrips::<ChannelDirectionFromClient>(v),
{
    lemma_u32_roundtrips(v.spec_to_u32());
    assert forall|data: Seq<u8>, pos: int|
        spec_at(data, pos, <ChannelDirectionFromClient as XdrSerialize>::spec_emit(v)->Done_0) implies #[trigger] <ChannelDirectionFromClient as XdrDeserialize>::spec_parse(
        data,
        pos,
    ) == Parse::Done(v, pos + <ChannelDirectionFromClient as XdrSerialize>::spec_emit(v)->Done_0.len()) by {
        assert(<u32 as XdrDeserialize>::spec_parse(data, pos) == Parse::Done(v.spec_to_u32(), pos + 4));
    }
}

/// A [`BindConnectionToSessionArgs`] whose fields each read back as themselves reads back as itself.
#[verifier::spinoff_prover]
#[verifier::rlimit(60)]
pub proof fn lemma_bind_connection_to_session_args_roundtrips(v: SpecBindConnectionToSessionArgs)
    requires
        spec_roundtrips::<SessionId>(v.session_id),
        spec_roundtrips::<ChannelDirectionFromClient>(v.channel_direction_from_client),
        spec_roundtrips::<bool>(v.use_conn_in_rdma),
    ensures
        spec_roundtrips::<BindConnectionToSessionArgs>(v),
{
    let b0 = <SessionId as XdrSerialize>::spec_emit(v.session_id)->Done_0;
    let b1 = <ChannelDirectionFromClient as XdrSerialize>::spec_emit(v.channel_direction_from_client)->Done_0;
    let b2 = <bool as XdrSerialize>::spec_emit(v.use_conn_in_rdma)->Done_0;
    assert forall|data: Seq<u8>, pos: int|
        spec_at(data, pos, <BindConnectionToSessionArgs as XdrSerialize>::spec_emit(v)->Done_0) implies #[trigger] <BindConnectionToSessionArgs as XdrDeserialize>::spec_parse(
        data,
        pos,
    ) == Parse::Done(v, pos + <BindConnectionToSessionArgs as XdrSerialize>::spec_emit(v)->Done_0.len()) by {
        reveal(spec_parse_bind_connection_to_session_args);
        lemma_at_split(data, pos, b0 + b1, b2);
        lemma_at_split(data, pos, b0, b1);
        assert(<SessionId as XdrDeserialize>::spec_parse(data, pos) == Parse::Done(v.session_id, pos + b0.len()));
        assert(<ChannelDirectionFromClient as XdrDeserialize>::spec_parse(data, pos + (b0).len()) == Parse::Done(v.channel_direction_from_client, pos + (b0).len() + b1.len()));
        assert(<bool as XdrDeserialize>::spec_parse(data, pos + (b0 + b1).len()) == Parse::Done(v.use_conn_in_rdma, pos + (b0 + b1).len() + b2.len()));
    }
}

/// A [`ChannelDirectionFromServer`] reads back as itself.
pub proof fn lemma_channel_direction_from_server_roundtrips(v: ChannelDirectionFromServer)
    ensures
        spec_roundtrips::<ChannelDirectionFromServer>(v),
{
    lemma_u32_roundtrips(v.spec_to_u32());
    assert forall|data: Seq<u8>, pos: int|
        spec_at(data, pos, <ChannelDirectionFromServer as XdrSerialize>::spec_emit(v)->Done_0) implies #[trigger] <ChannelDirectionFromServer as XdrDeserialize>::spec_parse(
        data,
        pos,
    ) == Parse::Done(v, pos + <ChannelDirectionFromServer as XdrSerialize>::spec_emit(v)->Done_0.len()) by {
        assert(<u32 as XdrDeserialize>::spec_parse(data, pos) == Parse::Done(v.spec_to_u32(), pos + 4));
    }
}

/// A [`BindConnectionToSessionOk`] whose fields each read back as themselves reads back as itself.
#[verifier::spinoff_prover]
#[verifier::rlimit(60)]
pub proof fn lemma_bind_connection_to_session_ok_roundtrips(v: SpecBindConnectionToSessionOk)
    requires
        spec_roundtrips::<SessionId>(v.session_id),
        spec_roundtrips::<ChannelDirectionFromServer>(v.channel_direction_from_server),
        spec_roundtrips::<bool>(v.use_conn_in_rdma),
    ensures
        spec_roundtrips::<BindConnectionToSessionOk>(v),
{
    let b0 = <SessionId as XdrSerialize>::spec_emit(v.session_id)->Done_0;
    let b1 = <ChannelDirectionFromServer as XdrSerialize>::spec_emit(v.channel_direction_from_server)->Done_0;
    let b2 = <bool as XdrSerialize>::spec_emit(v.use_conn_in_rdma)->Done_0;
    assert forall|data: Seq<u8>, pos: int|
        spec_at(data, pos, <BindConnectionToSessionOk as XdrSerialize>::spec_emit(v)->Done_0) implies #[trigger] <BindConnectionToSessionOk as XdrDeserialize>::spec_parse(
        data,
        pos,
    ) == Parse::Done(v, pos + <BindConnectionToSessionOk as XdrSerialize>::spec_emit(v)->Done_0.len()) by {
        reveal(spec_parse_bind_connection_to_session_ok);
        lemma_at_split(data, pos, b0 + b1, b2);
        lemma_at_split(data, pos, b0, b1);
        assert(<SessionId as XdrDeserialize>::spec_parse(data, pos) == Parse::Done(v.session_id, pos + b0.len()));
        assert(<ChannelDirectionFromServer as XdrDeserialize>::spec_parse(data, pos + (b0).len()) == Parse::Done(v.channel_direction_from_server, pos + (b0).len() + b1.len()));
        assert(<bool as XdrDeserialize>::spec_parse(data, pos + (b0 + b1).len()) == Parse::Done(v.use_conn_in_rdma, pos + (b0 + b1).len() + b2.len()));
    }
}

/// A [`StateProtectOps`] whose fields each read back as themselves reads back as itself.
#[verifier::spinoff_prover]
#[verifier::rlimit(60)]
pub proof fn lemma_state_protect_ops_roundtrips(v: SpecStateProtectOps)
    requires
        spec_roundtrips::<BitMap>(v.must_enforce),
        spec_roundtrips::<BitMap>(v.must_allow),
    ensures
        spec_roundtrips::<StateProtectOps>(v),
{
    let b0 = <BitMap as XdrSerialize>::spec_emit(v.must_enforce)->Done_0;
    let b1 = <BitMap as XdrSerialize>::spec_emit(v.must_allow)->Done_0;
    assert forall|data: Seq<u8>, pos: int|
        spec_at(data, pos, <StateProtectOps as XdrSerialize>::spec_emit(v)->Done_0) implies #[trigger] <StateProtectOps as XdrDeserialize>::spec_parse(
        data,
        pos,
    ) == Parse::Done(v, pos + <StateProtectOps as XdrSerialize>::spec_emit(v)->Done_0.len()) by {
        reveal(spec_parse_state_protect_ops);
        lemma_at_split(data, pos, b0, b1);
        assert(<BitMap as XdrDeserialize>::spec_parse(data, pos) == Parse::Done(v.must_enforce, pos + b0.len()));
        assert(<BitMap as XdrDeserialize>::spec_parse(data, pos + (b0).len()) == Parse::Done(v.must_allow, pos + (b0).len() + b1.len()));
    }
}

/// A [`SsvStateProtectParameters`] whose fields each read back as themselves reads back as itself.
#[verifier::spinoff_prover]
#[verifier::rlimit(60)]
pub proof fn lemma_ssv_state_protect_parameters_roundtrips(v: SpecSsvStateProtectParameters)
    requires
        spec_roundtrips::<StateProtectOps>(v.ops),
        spec_vec_roundtrips::<SecOid>(v.hash_algorithms),
        spec_vec_roundtrips::<SecOid>(v.encryption_algorithms),
        spec_roundtrips::<u32>(v.window),
        spec_roundtrips::<u32>(v.num_gss_handles),
    ensures
        spec_roundtrips::<SsvStateProtectParameters>(v),
{
    let b0 = <StateProtectOps as XdrSerialize>::spec_emit(v.ops)->Done_0;
    let b1 = spec_vec_emit::<SecOid>(v.hash_algorithms)->Done_0;
    let b2 = spec_vec_emit::<SecOid>(v.encryption_algorithms)->Done_0;
    let b3 = <u32 as XdrSerialize>::spec_emit(v.window)->Done_0;
    let b4 = <u32 as XdrSerialize>::spec_emit(v.num_gss_handles)->Done_0;
    assert forall|data: Seq<u8>, pos: int|
        spec_at(data, pos, <SsvStateProtectParameters as XdrSerialize>::spec_emit(v)->Done_0) implies #[trigger] <SsvStateProtectParameters as XdrDeserialize>::spec_parse(
        data,
        pos,
    ) == Parse::Done(v, pos + <SsvStateProtectParameters as XdrSerialize>::spec_emit(v)->Done_0.len()) by {
        reveal(spec_parse_ssv_state_protect_parameters);
        lemma_at_split(data, pos, b0 + b1 + b2 + b3, b4);
        lemma_at_split(data, pos, b0 + b1 + b2, b3);
        lemma_at_split(data, pos, b0 + b1, b2);
        lemma_at_split(data, pos, b0, b1);
        assert(<StateProtectOps as XdrDeserialize>::spec_parse(data, pos) == Parse::Done(v.ops, pos + b0.len()));
        assert(spec_vec_parse::<SecOid>(data, pos + (b0).len()) == Parse::Done(v.hash_algorithms, pos + (b0).len() + b1.len()));
        assert(spec_vec_parse::<SecOid>(data, pos + (b0 + b1).len()) == Parse::Done(v.encryption_algorithms, pos + (b0 + b1).len() + b2.len()));
        assert(<u32 as XdrDeserialize>::spec_parse(data, pos + (b0 + b1 + b2).len()) == Parse::Done(v.window, pos + (b0 + b1 + b2).len() + b3.len()));
        assert(<u32 as XdrDeserialize>::spec_parse(data, pos + (b0 + b1 + b2 + b3).len()) == Parse::Done(v.num_gss_handles, pos + (b0 + b1 + b2 + b3).len() + b4.len()));
    }
}

/// A [`StateProtectHow`] reads back as itself.
pub proof fn lemma_state_protect_how_roundtrips(v: StateProtectHow)
    ensures
        spec_roundtrips::<StateProtectHow>(v),
{
    lemma_u32_roundtrips(v.spec_to_u32());
    assert forall|data: Seq<u8>, pos: int|
        spec_at(data, pos, <StateProtectHow as XdrSerialize>::spec_emit(v)->Done_0) implies #[trigger] <StateProtectHow as XdrDeserialize>::spec_parse(
        data,
        pos,
    ) == Parse::Done(v, pos + <StateProtectHow as XdrSerialize>::spec_emit(v)->Done_0.len()) by {
        assert(<u32 as XdrDeserialize>::spec_parse(data, pos) == Parse::Done(v.spec_to_u32(), pos + 4));
    }
}

/// A [`StateProtectionArg`] whose contents read back as themselves reads back as itself.
#[verifier::spinoff_prover]
#[verifier::rlimit(60)]
pub proof fn lemma_state_protection_arg_roundtrips(v: SpecStateProtectionArg)
    requires
        match v {
            SpecStateProtectionArg::NoProtection => true,
            SpecStateProtectionArg::MachineCredentials(x) => spec_roundtrips::<StateProtectOps>(x),
            SpecStateProtectionArg::Ssv(x) => spec_roundtrips::<SsvStateProtectParameters>(x),
        },
    ensures
        spec_roundtrips::<StateProtectionArg>(v),
{
    match v {
        SpecStateProtectionArg::NoProtection => {
            lemma_state_protect_how_roundtrips(StateProtectHow::NoProtection);
            let a = <StateProtectHow as XdrSerialize>::spec_emit(StateProtectHow::NoProtection)->Done_0;
            assert forall|data: Seq<u8>, pos: int|
                spec_at(data, pos, <StateProtectionArg as XdrSerialize>::spec_emit(v)->Done_0) implies #[trigger] <StateProtectionArg as XdrDeserialize>::spec_parse(
                data,
                pos,
            ) == Parse::Done(v, pos + <StateProtectionArg as XdrSerialize>::spec_emit(v)->Done_0.len()) by {
                reveal(spec_parse_state_protection_arg);
                assert(<StateProtectHow as XdrDeserialize>::spec_parse(data, pos) == Parse::Done(StateProtectHow::NoProtection, pos + 4));
            }
        },
        SpecStateProtectionArg::MachineCredentials(x) => {
            lemma_state_protect_how_roundtrips(StateProtectHow::MachineCredentials);
            let a = <StateProtectHow as XdrSerialize>::spec_emit(StateProtectHow::MachineCredentials)->Done_0;
            let b = <StateProtectOps as XdrSerialize>::spec_emit(x)->Done_0;
            assert forall|data: Seq<u8>, pos: int|
                spec_at(data, pos, <StateProtectionArg as XdrSerialize>::spec_emit(v)->Done_0) implies #[trigger] <StateProtectionArg as XdrDeserialize>::spec_parse(
                data,
                pos,
            ) == Parse::Done(v, pos + <StateProtectionArg as XdrSerialize>::spec_emit(v)->Done_0.len()) by {
                reveal(spec_parse_state_protection_arg);
                lemma_at_split(data, pos, a, b);
                assert(<StateProtectHow as XdrDeserialize>::spec_parse(data, pos) == Parse::Done(StateProtectHow::MachineCredentials, pos + 4));
            }
        },
        SpecStateProtectionArg::Ssv(x) => {
            lemma_state_protect_how_roundtrips(StateProtectHow::Ssv);
            let a = <StateProtectHow as XdrSerialize>::spec_emit(StateProtectHow::Ssv)->Done_0;
            let b = <SsvStateProtectParameters as XdrSerialize>::spec_emit(x)->Done_0;
            assert forall|data: Seq<u8>, pos: int|
                spec_at(data, pos, <StateProtectionArg as XdrSerialize>::spec_emit(v)->Done_0) implies #[trigger] <StateProtectionArg as XdrDeserialize>::spec_parse(
                data,
                pos,
            ) == Parse::Done(v, pos + <StateProtectionArg as XdrSerialize>::spec_emit(v)->Done_0.len()) by {
                reveal(spec_parse_state_protection_arg);
                lemma_at_split(data, pos, a, b);
                assert(<StateProtectHow as XdrDeserialize>::spec_parse(data, pos) == Parse::Done(StateProtectHow::Ssv, pos + 4));
            }
        },
    }
}

/// A [`ExchangeIdArgs`] whose fields each read back as themselves reads back as itself.
#[verifier::spinoff_prover]
#[verifier::rlimit(60)]
pub proof fn lemma_exchange_id_args_roundtrips(v: SpecExchangeIdArgs)
    requires
        spec_roundtrips::<ClientOwner>(v.client_owner),
        spec_roundtrips::<u32>(v.flags),
        spec_roundtrips::<StateProtectionArg>(v.state_protect),
        spec_roundtrips::<Option<NfsImplId>>(v.client_impl_id),
    ensures
        spec_roundtrips::<ExchangeIdArgs>(v),
{
    let b0 = <ClientOwner as XdrSerialize>::spec_emit(v.client_owner)->Done_0;
    let b1 = <u32 as XdrSerialize>::spec_emit(v.flags)->Done_0;
    let b2 = <StateProtectionArg as XdrSerialize>::spec_emit(v.state_protect)->Done_0;
    let b3 = <Option<NfsImplId> as XdrSerialize>::spec_emit(v.client_impl_id)->Done_0;
    assert forall|data: Seq<u8>, pos: int|
        spec_at(data, pos, <ExchangeIdArgs as XdrSerialize>::spec_emit(v)->Done_0) implies #[trigger] <ExchangeIdArgs as XdrDeserialize>::spec_parse(
        data,
        pos,
    ) == Parse::Done(v, pos + <ExchangeIdArgs as XdrSerialize>::spec_emit(v)->Done_0.len()) by {
        reveal(spec_parse_exchange_id_args);
        lemma_at_split(data, pos, b0 + b1 + b2, b3);
        lemma_at_split(data, pos, b0 + b1, b2);
        lemma_at_split(data, pos, b0, b1);
        assert(<ClientOwner as XdrDeserialize>::spec_parse(data, pos) == Parse::Done(v.client_owner, pos + b0.len()));
        assert(<u32 as XdrDeserialize>::spec_parse(data, pos + (b0).len()) == Parse::Done(v.flags, pos + (b0).len() + b1.len()));
        assert(<StateProtectionArg as XdrDeserialize>::spec_parse(data, pos + (b0 + b1).len()) == Parse::Done(v.state_protect, pos + (b0 + b1).len() + b2.len()));
        assert(<Option<NfsImplId> as XdrDeserialize>::spec_parse(data, pos + (b0 + b1 + b2).len()) == Parse::Done(v.client_impl_id, pos + (b0 + b1 + b2).len() + b3.len()));
    }
}

/// A [`SsvProtectionInfo`] whose fields each read back as themselves reads back as itself.
#[verifier::spinoff_prover]
#[verifier::rlimit(60)]
pub proof fn lemma_ssv_protection_info_roundtrips(v: SpecSsvProtectionInfo)
    requires
        spec_roundtrips::<StateProtectOps>(v.ops),
        spec_roundtrips::<u32>(v.hash_algorithm),
        spec_roundtrips::<u32>(v.encryption_algorithm),
        spec_roundtrips::<u32>(v.ssv_len),
        spec_roundtrips::<u32>(v.window),
        spec_vec_roundtrips::<GssHandle>(v.handles),
    ensures
        spec_roundtrips::<SsvProtectionInfo>(v),
{
    let b0 = <StateProtectOps as XdrSerialize>::spec_emit(v.ops)->Done_0;
    let b1 = <u32 as XdrSerialize>::spec_emit(v.hash_algorithm)->Done_0;
    let b2 = <u32 as XdrSerialize>::spec_emit(v.encryption_algorithm)->Done_0;
    let b3 = <u32 as XdrSerialize>::spec_emit(v.ssv_len)->Done_0;
    let b4 = <u32 as XdrSerialize>::spec_emit(v.window)->Done_0;
    let b5 = spec_vec_emit::<GssHandle>(v.handles)->Done_0;
    assert forall|data: Seq<u8>, pos: int|
        spec_at(data, pos, <SsvProtectionInfo as XdrSerialize>::spec_emit(v)->Done_0) implies #[trigger] <SsvProtectionInfo as XdrDeserialize>::spec_parse(
        data,
        pos,
    ) == Parse::Done(v, pos + <SsvProtectionInfo as XdrSerialize>::spec_emit(v)->Done_0.len()) by {
        reveal(spec_parse_ssv_protection_info);
        lemma_at_split(data, pos, b0 + b1 + b2 + b3 + b4, b5);
        lemma_at_split(data, pos, b0 + b1 + b2 + b3, b4);
        lemma_at_split(data, pos, b0 + b1 + b2, b3);
        lemma_at_split(data, pos, b0 + b1, b2);
        lemma_at_split(data, pos, b0, b1);
        assert(<StateProtectOps as XdrDeserialize>::spec_parse(data, pos) == Parse::Done(v.ops, pos + b0.len()));
        assert(<u32 as XdrDeserialize>::spec_parse(data, pos + (b0).len()) == Parse::Done(v.hash_algorithm, pos + (b0).len() + b1.len()));
        assert(<u32 as XdrDeserialize>::spec_parse(data, pos + (b0 + b1).len()) == Parse::Done(v.encryption_algorithm, pos + (b0 + b1).len() + b2.len()));
        assert(<u32 as XdrDeserialize>::spec_parse(data, pos + (b0 + b1 + b2).len()) == Parse::Done(v.ssv_len, pos + (b0 + b1 + b2).len() + b3.len()));
        assert(<u32 as XdrDeserialize>::spec_parse(data, pos + (b0 + b1 + b2 + b3).len()) == Parse::Done(v.window, pos + (b0 + b1 + b2 + b3).len() + b4.len()));
        assert(spec_vec_parse::<GssHandle>(data, pos + (b0 + b1 + b2 + b3 + b4).len()) == Parse::Done(v.handles, pos + (b0 + b1 + b2 + b3 + b4).len() + b5.len()));
    }
}

/// A [`StateProtectionResult`] whose contents read back as themselves reads back as itself.
#[verifier::spinoff_prover]
#[verifier::rlimit(60)]
pub proof fn lemma_state_protection_result_roundtrips(v: SpecStateProtectionResult)
    requires
        match v {
            SpecStateProtectionResult::NoProtection => true,
            SpecStateProtectionResult::MachineCredentials(x) => spec_roundtrips::<StateProtectOps>(x),
            SpecStateProtectionResult::Ssv(x) => spec_roundtrips::<SsvProtectionInfo>(x),
        },
    ensures
        spec_roundtrips::<StateProtectionResult>(v),
{
    match v {
        SpecStateProtectionResult::NoProtection => {
            lemma_state_protect_how_roundtrips(StateProtectHow::NoProtection);
            let a = <StateProtectHow as XdrSerialize>::spec_emit(StateProtectHow::NoProtection)->Done_0;
            assert forall|data: Seq<u8>, pos: int|
                spec_at(data, pos, <StateProtectionResult as XdrSerialize>::spec_emit(v)->Done_0) implies #[trigger] <StateProtectionResult as XdrDeserialize>::spec_parse(
                data,
                pos,
            ) == Parse::Done(v, pos + <StateProtectionResult as XdrSerialize>::spec_emit(v)->Done_0.len()) by {
                reveal(spec_parse_state_protection_result);
                assert(<StateProtectHow as XdrDeserialize>::spec_parse(data, pos) == Parse::Done(StateProtectHow::NoProtection, pos + 4));
            }
        },
        SpecStateProtectionResult::MachineCredentials(x) => {
            lemma_state_protect_how_roundtrips(StateProtectHow::MachineCredentials);
            let a = <StateProtectHow as XdrSerialize>::spec_emit(StateProtectHow::MachineCredentials)->Done_0;
            let b = <StateProtectOps as XdrSerialize>::spec_emit(x)->Done_0;
            assert forall|data: Seq<u8>, pos: int|
                spec_at(data, pos, <StateProtectionResult as XdrSerialize>::spec_emit(v)->Done_0) implies #[trigger] <StateProtectionResult as XdrDeserialize>::spec_parse(
                data,
                pos,
            ) == Parse::Done(v, pos + <StateProtectionResult as XdrSerialize>::spec_emit(v)->Done_0.len()) by {
                reveal(spec_parse_state_protection_result);
                lemma_at_split(data, pos, a, b);
                assert(<StateProtectHow as XdrDeserialize>::spec_parse(data, pos) == Parse::Done(StateProtectHow::MachineCredentials, pos + 4));
            }
        },
        SpecStateProtectionResult::Ssv(x) => {
            lemma_state_protect_how_roundtrips(StateProtectHow::Ssv);
            let a = <StateProtectHow as XdrSerialize>::spec_emit(StateProtectHow::Ssv)->Done_0;
            let b = <SsvProtectionInfo as XdrSerialize>::spec_emit(x)->Done_0;
            assert forall|data: Seq<u8>, pos: int|
                spec_at(data, pos, <StateProtectionResult as XdrSerialize>::spec_emit(v)->Done_0) implies #[trigger] <StateProtectionResult as XdrDeserialize>::spec_parse(
                data,
                pos,
            ) == Parse::Done(v, pos + <StateProtectionResult as XdrSerialize>::spec_emit(v)->Done_0.len()) by {
                reveal(spec_parse_state_protection_result);
                lemma_at_split(data, pos, a, b);
                assert(<StateProtectHow as XdrDeserialize>::spec_parse(data, pos) == Parse::Done(StateProtectHow::Ssv, pos + 4));
            }
        },
    }
}

/// A [`ExchangeIdOk`] whose fields each read back as themselves reads back as itself.
#[verifier::spinoff_prover]
#[verifier::rlimit(60)]
pub proof fn lemma_exchange_id_ok_roundtrips(v: SpecExchangeIdOk)
    requires
        spec_roundtrips::<ClientId>(v.client_id),
        spec_roundtrips::<SequenceId>(v.sequence_id),
        spec_roundtrips::<u32>(v.flags),
        spec_roundtrips::<StateProtectionResult>(v.state_protection),
        spec_roundtrips::<ServerOwner>(v.server_owner),
        spec_roundtrips::<MaxLenBytes<NFS_OPAQUE_LIMIT>>(v.server_scope),
        spec_roundtrips::<Option<NfsImplId>>(v.server_impl_id),
    ensures
        spec_roundtrips::<ExchangeIdOk>(v),
{
    let b0 = <ClientId as XdrSerialize>::spec_emit(v.client_id)->Done_0;
    let b1 = <SequenceId as XdrSerialize>::spec_emit(v.sequence_id)->Done_0;
    let b2 = <u32 as XdrSerialize>::spec_emit(v.flags)->Done_0;
    let b3 = <StateProtectionResult as XdrSerialize>::spec_emit(v.state_protection)->Done_0;
    let b4 = <ServerOwner as XdrSerialize>::spec_emit(v.server_owner)->Done_0;
    let b5 = <MaxLenBytes<NFS_OPAQUE_LIMIT> as XdrSerialize>::spec_emit(v.server_scope)->Done_0;
    let b6 = <Option<NfsImplId> as XdrSerialize>::spec_emit(v.server_impl_id)->Done_0;
    assert forall|data: Seq<u8>, pos: int|
        spec_at(data, pos, <ExchangeIdOk as XdrSerialize>::spec_emit(v)->Done_0) implies #[trigger] <ExchangeIdOk as XdrDeserialize>::spec_parse(
        data,
        pos,
    ) == Parse::Done(v, pos + <ExchangeIdOk as XdrSerialize>::spec_emit(v)->Done_0.len()) by {
        reveal(spec_parse_exchange_id_ok);
        lemma_at_split(data, pos, b0 + b1 + b2 + b3 + b4 + b5, b6);
        lemma_at_split(data, pos, b0 + b1 + b2 + b3 + b4, b5);
        lemma_at_split(data, pos, b0 + b1 + b2 + b3, b4);
        lemma_at_split(data, pos, b0 + b1 + b2, b3);
        lemma_at_split(data, pos, b0 + b1, b2);
        lemma_at_split(data, pos, b0, b1);
        assert(<ClientId as XdrDeserialize>::spec_parse(data, pos) == Parse::Done(v.client_id, pos + b0.len()));
        assert(<SequenceId as XdrDeserialize>::spec_parse(data, pos + (b0).len()) == Parse::Done(v.sequence_id, pos + (b0).len() + b1.len()));
        assert(<u32 as XdrDeserialize>::spec_parse(data, pos + (b0 + b1).len()) == Parse::Done(v.flags, pos + (b0 + b1).len() + b2.len()));
        assert(<StateProtectionResult as XdrDeserialize>::spec_parse(data, pos + (b0 + b1 + b2).len()) == Parse::Done(v.state_protection, pos + (b0 + b1 + b2).len() + b3.len()));
        assert(<ServerOwner as XdrDeserialize>::spec_parse(data, pos + (b0 + b1 + b2 + b3).len()) == Parse::Done(v.server_owner, pos + (b0 + b1 + b2 + b3).len() + b4.len()));
        assert(<MaxLenBytes<NFS_OPAQUE_LIMIT> as XdrDeserialize>::spec_parse(data, pos + (b0 + b1 + b2 + b3 + b4).len()) == Parse::Done(v.server_scope, pos + (b0 + b1 + b2 + b3 + b4).len() + b5.len()));
        assert(<Option<NfsImplId> as XdrDeserialize>::spec_parse(data, pos + (b0 + b1 + b2 + b3 + b4 + b5).len()) == Parse::Done(v.server_impl_id, pos + (b0 + b1 + b2 + b3 + b4 + b5).len() + b6.len()));
    }
}

/// A [`ChannelAttrs`] whose fields each read back as themselves reads back as itself.
#[verifier::spinoff_prover]
#[verifier::rlimit(60)]
pub proof fn lemma_channel_attrs_roundtrips(v: ChannelAttrs)
    requires
        spec_roundtrips::<Count>(v.header_pad_size),
        spec_roundtrips::<Count>(v.max_request_size),
        spec_roundtrips::<Count>(v.max_response_size),
        spec_roundtrips::<Count>(v.max_response_size_cached),
        spec_roundtrips::<Count>(v.max_operations),
        spec_roundtrips::<Count>(v.max_requests),
        spec_roundtrips::<Option<u32>>(v.rdma_ird),
    ensures
        spec_roundtrips::<ChannelAttrs>(v),
{
    let b0 = <Count as XdrSerialize>::spec_emit(v.header_pad_size)->Done_0;
    let b1 = <Count as XdrSerialize>::spec_emit(v.max_request_size)->Done_0;
    let b2 = <Count as XdrSerialize>::spec_emit(v.max_response_size)->Done_0;
    let b3 = <Count as XdrSerialize>::spec_emit(v.max_response_size_cached)->Done_0;
    let b4 = <Count as XdrSerialize>::spec_emit(v.max_operations)->Done_0;
    let b5 = <Count as XdrSerialize>::spec_emit(v.max_requests)->Done_0;
    let b6 = <Option<u32> as XdrSerialize>::spec_emit(v.rdma_ird)->Done_0;
    assert forall|data: Seq<u8>, pos: int|
        spec_at(data, pos, <ChannelAttrs as XdrSerialize>::spec_emit(v)->Done_0) implies #[trigger] <ChannelAttrs as XdrDeserialize>::spec_parse(
        data,
        pos,
    ) == Parse::Done(v, pos + <ChannelAttrs as XdrSerialize>::spec_emit(v)->Done_0.len()) by {
        reveal(spec_parse_channel_attrs);
        lemma_at_split(data, pos, b0 + b1 + b2 + b3 + b4 + b5, b6);
        lemma_at_split(data, pos, b0 + b1 + b2 + b3 + b4, b5);
        lemma_at_split(data, pos, b0 + b1 + b2 + b3, b4);
        lemma_at_split(data, pos, b0 + b1 + b2, b3);
        lemma_at_split(data, pos, b0 + b1, b2);
        lemma_at_split(data, pos, b0, b1);
        assert(<Count as XdrDeserialize>::spec_parse(data, pos) == Parse::Done(v.header_pad_size, pos + b0.len()));
        assert(<Count as XdrDeserialize>::spec_parse(data, pos + (b0).len()) == Parse::Done(v.max_request_size, pos + (b0).len() + b1.len()));
        assert(<Count as XdrDeserialize>::spec_parse(data, pos + (b0 + b1).len()) == Parse::Done(v.max_response_size, pos + (b0 + b1).len() + b2.len()));
        assert(<Count as XdrDeserialize>::spec_parse(data, pos + (b0 + b1 + b2).len()) == Parse::Done(v.max_response_size_cached, pos + (b0 + b1 + b2).len() + b3.len()));
        assert(<Count as XdrDeserialize>::spec_parse(data, pos + (b0 + b1 + b2 + b3).len()) == Parse::Done(v.max_operations, pos + (b0 + b1 + b2 + b3).len() + b4.len()));
        assert(<Count as XdrDeserialize>::spec_parse(data, pos + (b0 + b1 + b2 + b3 + b4).len()) == Parse::Done(v.max_requests, pos + (b0 + b1 + b2 + b3 + b4).len() + b5.len()));
        assert(<Option<u32> as XdrDeserialize>::spec_parse(data, pos + (b0 + b1 + b2 + b3 + b4 + b5).len()) == Parse::Done(v.rdma_ird, pos + (b0 + b1 + b2 + b3 + b4 + b5).len() + b6.len()));
    }
}

/// A [`CreateSessionArgs`] whose fields each read back as themselves reads back as itself.
#[verifier::spinoff_prover]
#[verifier::rlimit(60)]
pub proof fn lemma_create_session_args_roundtrips(v: SpecCreateSessionArgs)
    requires
        spec_roundtrips::<ClientId>(v.client_id),
        spec_roundtrips::<SequenceId>(v.sequence),
        spec_roundtrips::<u32>(v.flags),
        spec_roundtrips::<ChannelAttrs>(v.fore_channel_attrs),
        spec_roundtrips::<ChannelAttrs>(v.back_channel_attrs),
        spec_roundtrips::<u32>(v.callback_program),
        spec_vec_roundtrips::<CallbackSecurityParameters>(v.security_parameters),
    ensures
        spec_roundtrips::<CreateSessionArgs>(v),
{
    let b0 = <ClientId as XdrSerialize>::spec_emit(v.client_id)->Done_0;
    let b1 = <SequenceId as XdrSerialize>::spec_emit(v.sequence)->Done_0;
    let b2 = <u32 as XdrSerialize>::spec_emit(v.flags)->Done_0;
    let b3 = <ChannelAttrs as XdrSerialize>::spec_emit(v.fore_channel_attrs)->Done_0;
    let b4 = <ChannelAttrs as XdrSerialize>::spec_emit(v.back_channel_attrs)->Done_0;
    let b5 = <u32 as XdrSerialize>::spec_emit(v.callback_program)->Done_0;
    let b6 = spec_vec_emit::<CallbackSecurityParameters>(v.security_parameters)->Done_0;
    assert forall|data: Seq<u8>, pos: int|
        spec_at(data, pos, <CreateSessionArgs as XdrSerialize>::spec_emit(v)->Done_0) implies #[trigger] <CreateSessionArgs as XdrDeserialize>::spec_parse(
        data,
        pos,
    ) == Parse::Done(v, pos + <CreateSessionArgs as XdrSerialize>::spec_emit(v)->Done_0.len()) by {
        reveal(spec_parse_create_session_args);
        lemma_at_split(data, pos, b0 + b1 + b2 + b3 + b4 + b5, b6);
        lemma_at_split(data, pos, b0 + b1 + b2 + b3 + b4, b5);
        lemma_at_split(data, pos, b0 + b1 + b2 + b3, b4);
        lemma_at_split(data, pos, b0 + b1 + b2, b3);
        lemma_at_split(data, pos, b0 + b1, b2);
        lemma_at_split(data, pos, b0, b1);
        assert(<ClientId as XdrDeserialize>::spec_parse(data, pos) == Parse::Done(v.client_id, pos + b0.len()));
        assert(<SequenceId as XdrDeserialize>::spec_parse(data, pos + (b0).len()) == Parse::Done(v.sequence, pos + (b0).len() + b1.len()));
        assert(<u32 as XdrDeserialize>::spec_parse(data, pos + (b0 + b1).len()) == Parse::Done(v.flags, pos + (b0 + b1).len() + b2.len()));
        assert(<ChannelAttrs as XdrDeserialize>::spec_parse(data, pos + (b0 + b1 + b2).len()) == Parse::Done(v.fore_channel_attrs, pos + (b0 + b1 + b2).len() + b3.len()));
        assert(<ChannelAttrs as XdrDeserialize>::spec_parse(data, pos + (b0 + b1 + b2 + b3).len()) == Parse::Done(v.back_channel_attrs, pos + (b0 + b1 + b2 + b3).len() + b4.len()));
        assert(<u32 as XdrDeserialize>::spec_parse(data, pos + (b0 + b1 + b2 + b3 + b4).len()) == Parse::Done(v.callback_program, pos + (b0 + b1 + b2 + b3 + b4).len() + b5.len()));
        assert(spec_vec_parse::<CallbackSecurityParameters>(data, pos + (b0 + b1 + b2 + b3 + b4 + b5).len()) == Parse::Done(v.security_parameters, pos + (b0 + b1 + b2 + b3 + b4 + b5).len() + b6.len()));
    }
}

/// A [`CreateSessionOk`] whose fields each read back as themselves reads back as itself.
#[verifier::spinoff_prover]
#[verifier::rlimit(60)]
pub proof fn lemma_create_session_ok_roundtrips(v: SpecCreateSessionOk)
    requires
        spec_roundtrips::<SessionId>(v.session_id),
        spec_roundtrips::<SequenceId>(v.sequence),
        spec_roundtrips::<u32>(v.flags),
        spec_roundtrips::<ChannelAttrs>(v.fore_channel_attrs),
        spec_roundtrips::<ChannelAttrs>(v.back_channel_attrs),
    ensures
        spec_roundtrips::<CreateSessionOk>(v),
{
    let b0 = <SessionId as XdrSerialize>::spec_emit(v.session_id)->Done_0;
    let b1 = <SequenceId as XdrSerialize>::spec_emit(v.sequence)->Done_0;
    let b2 = <u32 as XdrSerialize>::spec_emit(v.flags)->Done_0;
    let b3 = <ChannelAttrs as XdrSerialize>::spec_emit(v.fore_channel_attrs)->Done_0;
    let b4 = <ChannelAttrs as XdrSerialize>::spec_emit(v.back_channel_attrs)->Done_0;
    assert forall|data: Seq<u8>, pos: int|
        spec_at(data, pos, <CreateSessionOk as XdrSerialize>::spec_emit(v)->Done_0) implies #[trigger] <CreateSessionOk as XdrDeserialize>::spec_parse(
        data,
        pos,
    ) == Parse::Done(v, pos + <CreateSessionOk as XdrSerialize>::spec_emit(v)->Done_0.len()) by {
        reveal(spec_parse_create_session_ok);
        lemma_at_split(data, pos, b0 + b1 + b2 + b3, b4);
        lemma_at_split(data, pos, b0 + b1 + b2, b3);
        lemma_at_split(data, pos, b0 + b1, b2);
        lemma_at_split(data, pos, b0, b1);
        assert(<SessionId as XdrDeserialize>::spec_parse(data, pos) == Parse::Done(v.session_id, pos + b0.len()));
        assert(<SequenceId as XdrDeserialize>::spec_parse(data, pos + (b0).len()) == Parse::Done(v.sequence, pos + (b0).len() + b1.len()));
        assert(<u32 as XdrDeserialize>::spec_parse(data, pos + (b0 + b1).len()) == Parse::Done(v.flags, pos + (b0 + b1).len() + b2.len()));
        assert(<ChannelAttrs as XdrDeserialize>::spec_parse(data, pos + (b0 + b1 + b2).len()) == Parse::Done(v.fore_channel_attrs, pos + (b0 + b1 + b2).len() + b3.len()));
        assert(<ChannelAttrs as XdrDeserialize>::spec_parse(data, pos + (b0 + b1 + b2 + b3).len()) == Parse::Done(v.back_channel_attrs, pos + (b0 + b1 + b2 + b3).len() + b4.len()));
    }
}

/// A [`DestroySessionArgs`] whose fields each read back as themselves reads back as itself.
#[verifier::spinoff_prover]
#[verifier::rlimit(60)]
pub proof fn lemma_destroy_session_args_roundtrips(v: SpecDestroySessionArgs)
    requires
        spec_roundtrips::<SessionId>(v.session_id),
    ensures
        spec_roundtrips::<DestroySessionArgs>(v),
{
    let b0 = <SessionId as XdrSerialize>::spec_emit(v.session_id)->Done_0;
    assert forall|data: Seq<u8>, pos: int|
        spec_at(data, pos, <DestroySessionArgs as XdrSerialize>::spec_emit(v)->Done_0) implies #[trigger] <DestroySessionArgs as XdrDeserialize>::spec_parse(
        data,
        pos,
    ) == Parse::Done(v, pos + <DestroySessionArgs as XdrSerialize>::spec_emit(v)->Done_0.len()) by {
        reveal(spec_parse_destroy_session_args);
        assert(<SessionId as XdrDeserialize>::spec_parse(data, pos) == Parse::Done(v.session_id, pos + b0.len()));
    }
}

/// A [`FreeStateIdArgs`] whose fields each read back as themselves reads back as itself.
#[verifier::spinoff_prover]
#[verifier::rlimit(60)]
pub proof fn lemma_free_state_id_args_roundtrips(v: SpecFreeStateIdArgs)
    requires
        spec_roundtrips::<StateId>(v.state_id),
    ensures
        spec_roundtrips::<FreeStateIdArgs>(v),
{
    let b0 = <StateId as XdrSerialize>::spec_emit(v.state_id)->Done_0;
    assert forall|data: Seq<u8>, pos: int|
        spec_at(data, pos, <FreeStateIdArgs as XdrSerialize>::spec_emit(v)->Done_0) implies #[trigger] <FreeStateIdArgs as XdrDeserialize>::spec_parse(
        data,
        pos,
    ) == Parse::Done(v, pos + <FreeStateIdArgs as XdrSerialize>::spec_emit(v)->Done_0.len()) by {
        reveal(spec_parse_free_state_id_args);
        assert(<StateId as XdrDeserialize>::spec_parse(data, pos) == Parse::Done(v.state_id, pos + b0.len()));
    }
}

/// A [`GetDirectoryDelegationArgs`] whose fields each read back as themselves reads back as itself.
#[verifier::spinoff_prover]
#[verifier::rlimit(60)]
pub proof fn lemma_get_directory_delegation_args_roundtrips(v: SpecGetDirectoryDelegationArgs)
    requires
        spec_roundtrips::<bool>(v.signal_delegation_available),
        spec_roundtrips::<BitMap>(v.notification_types),
        spec_roundtrips::<AttributeNotice>(v.child_attribute_delay),
        spec_roundtrips::<AttributeNotice>(v.directory_attribute_delay),
        spec_roundtrips::<BitMap>(v.child_attributes),
        spec_roundtrips::<BitMap>(v.directory_attributes),
    ensures
        spec_roundtrips::<GetDirectoryDelegationArgs>(v),
{
    let b0 = <bool as XdrSerialize>::spec_emit(v.signal_delegation_available)->Done_0;
    let b1 = <BitMap as XdrSerialize>::spec_emit(v.notification_types)->Done_0;
    let b2 = <AttributeNotice as XdrSerialize>::spec_emit(v.child_attribute_delay)->Done_0;
    let b3 = <AttributeNotice as XdrSerialize>::spec_emit(v.directory_attribute_delay)->Done_0;
    let b4 = <BitMap as XdrSerialize>::spec_emit(v.child_attributes)->Done_0;
    let b5 = <BitMap as XdrSerialize>::spec_emit(v.directory_attributes)->Done_0;
    assert forall|data: Seq<u8>, pos: int|
        spec_at(data, pos, <GetDirectoryDelegationArgs as XdrSerialize>::spec_emit(v)->Done_0) implies #[trigger] <GetDirectoryDelegationArgs as XdrDeserialize>::spec_parse(
        data,
        pos,
    ) == Parse::Done(v, pos + <GetDirectoryDelegationArgs as XdrSerialize>::spec_emit(v)->Done_0.len()) by {
        reveal(spec_parse_get_directory_delegation_args);
        lemma_at_split(data, pos, b0 + b1 + b2 + b3 + b4, b5);
        lemma_at_split(data, pos, b0 + b1 + b2 + b3, b4);
        lemma_at_split(data, pos, b0 + b1 + b2, b3);
        lemma_at_split(data, pos, b0 + b1, b2);
        lemma_at_split(data, pos, b0, b1);
        assert(<bool as XdrDeserialize>::spec_parse(data, pos) == Parse::Done(v.signal_delegation_available, pos + b0.len()));
        assert(<BitMap as XdrDeserialize>::spec_parse(data, pos + (b0).len()) == Parse::Done(v.notification_types, pos + (b0).len() + b1.len()));
        assert(<AttributeNotice as XdrDeserialize>::spec_parse(data, pos + (b0 + b1).len()) == Parse::Done(v.child_attribute_delay, pos + (b0 + b1).len() + b2.len()));
        assert(<AttributeNotice as XdrDeserialize>::spec_parse(data, pos + (b0 + b1 + b2).len()) == Parse::Done(v.directory_attribute_delay, pos + (b0 + b1 + b2).len() + b3.len()));
        assert(<BitMap as XdrDeserialize>::spec_parse(data, pos + (b0 + b1 + b2 + b3).len()) == Parse::Done(v.child_attributes, pos + (b0 + b1 + b2 + b3).len() + b4.len()));
        assert(<BitMap as XdrDeserialize>::spec_parse(data, pos + (b0 + b1 + b2 + b3 + b4).len()) == Parse::Done(v.directory_attributes, pos + (b0 + b1 + b2 + b3 + b4).len() + b5.len()));
    }
}

/// A [`GetDirectoryDelegationOk`] whose fields each read back as themselves reads back as itself.
#[verifier::spinoff_prover]
#[verifier::rlimit(60)]
pub proof fn lemma_get_directory_delegation_ok_roundtrips(v: SpecGetDirectoryDelegationOk)
    requires
        spec_roundtrips::<Verifier>(v.cookie_verifier),
        spec_roundtrips::<StateId>(v.state_id),
        spec_roundtrips::<BitMap>(v.notification),
        spec_roundtrips::<BitMap>(v.child_attributes),
    ensures
        spec_roundtrips::<GetDirectoryDelegationOk>(v),
{
    let b0 = <Verifier as XdrSerialize>::spec_emit(v.cookie_verifier)->Done_0;
    let b1 = <StateId as XdrSerialize>::spec_emit(v.state_id)->Done_0;
    let b2 = <BitMap as XdrSerialize>::spec_emit(v.notification)->Done_0;
    let b3 = <BitMap as XdrSerialize>::spec_emit(v.child_attributes)->Done_0;
    assert forall|data: Seq<u8>, pos: int|
        spec_at(data, pos, <GetDirectoryDelegationOk as XdrSerialize>::spec_emit(v)->Done_0) implies #[trigger] <GetDirectoryDelegationOk as XdrDeserialize>::spec_parse(
        data,
        pos,
    ) == Parse::Done(v, pos + <GetDirectoryDelegationOk as XdrSerialize>::spec_emit(v)->Done_0.len()) by {
        reveal(spec_parse_get_directory_delegation_ok);
        lemma_at_split(data, pos, b0 + b1 + b2, b3);
        lemma_at_split(data, pos, b0 + b1, b2);
        lemma_at_split(data, pos, b0, b1);
        assert(<Verifier as XdrDeserialize>::spec_parse(data, pos) == Parse::Done(v.cookie_verifier, pos + b0.len()));
        assert(<StateId as XdrDeserialize>::spec_parse(data, pos + (b0).len()) == Parse::Done(v.state_id, pos + (b0).len() + b1.len()));
        assert(<BitMap as XdrDeserialize>::spec_parse(data, pos + (b0 + b1).len()) == Parse::Done(v.notification, pos + (b0 + b1).len() + b2.len()));
        assert(<BitMap as XdrDeserialize>::spec_parse(data, pos + (b0 + b1 + b2).len()) == Parse::Done(v.child_attributes, pos + (b0 + b1 + b2).len() + b3.len()));
    }
}

/// A [`GetDirectoryDelegationStatus`] reads back as itself.
pub proof fn lemma_get_directory_delegation_status_roundtrips(v: GetDirectoryDelegationStatus)
    ensures
        spec_roundtrips::<GetDirectoryDelegationStatus>(v),
{
    lemma_u32_roundtrips(v.spec_to_u32());
    assert forall|data: Seq<u8>, pos: int|
        spec_at(data, pos, <GetDirectoryDelegationStatus as XdrSerialize>::spec_emit(v)->Done_0) implies #[trigger] <GetDirectoryDelegationStatus as XdrDeserialize>::spec_parse(
        data,
        pos,
    ) == Parse::Done(v, pos + <GetDirectoryDelegationStatus as XdrSerialize>::spec_emit(v)->Done_0.len()) by {
        assert(<u32 as XdrDeserialize>::spec_parse(data, pos) == Parse::Done(v.spec_to_u32(), pos + 4));
    }
}

/// A [`GetDirectoryDelegationNonFatal`] whose contents read back as themselves reads back as itself.
#[verifier::spinoff_prover]
#[verifier::rlimit(60)]
pub proof fn lemma_get_directory_delegation_non_fatal_roundtrips(v: SpecGetDirectoryDelegationNonFatal)
    requires
        match v {
            SpecGetDirectoryDelegationNonFatal::Success(x) => spec_roundtrips::<GetDirectoryDelegationOk>(x),
            SpecGetDirectoryDelegationNonFatal::Unavailable(x) => spec_roundtrips::<bool>(x),
        },
    ensures
        spec_roundtrips::<GetDirectoryDelegationNonFatal>(v),
{
    match v {
        SpecGetDirectoryDelegationNonFatal::Success(x) => {
            lemma_get_directory_delegation_status_roundtrips(GetDirectoryDelegationStatus::Success);
            let a = <GetDirectoryDelegationStatus as XdrSerialize>::spec_emit(GetDirectoryDelegationStatus::Success)->Done_0;
            let b = <GetDirectoryDelegationOk as XdrSerialize>::spec_emit(x)->Done_0;
            assert forall|data: Seq<u8>, pos: int|
                spec_at(data, pos, <GetDirectoryDelegationNonFatal as XdrSerialize>::spec_emit(v)->Done_0) implies #[trigger] <GetDirectoryDelegationNonFatal as XdrDeserialize>::spec_parse(
                data,
                pos,
            ) == Parse::Done(v, pos + <GetDirectoryDelegationNonFatal as XdrSerialize>::spec_emit(v)->Done_0.len()) by {
                reveal(spec_parse_get_directory_delegation_non_fatal);
                lemma_at_split(data, pos, a, b);
                assert(<GetDirectoryDelegationStatus as XdrDeserialize>::spec_parse(data, pos) == Parse::Done(GetDirectoryDelegationStatus::Success, pos + 4));
            }
        },
        SpecGetDirectoryDelegationNonFatal::Unavailable(x) => {
            lemma_get_directory_delegation_status_roundtrips(GetDirectoryDelegationStatus::Unavailable);
            let a = <GetDirectoryDelegationStatus as XdrSerialize>::spec_emit(GetDirectoryDelegationStatus::Unavailable)->Done_0;
            let b = <bool as XdrSerialize>::spec_emit(x)->Done_0;
            assert forall|data: Seq<u8>, pos: int|
                spec_at(data, pos, <GetDirectoryDelegationNonFatal as XdrSerialize>::spec_emit(v)->Done_0) implies #[trigger] <GetDirectoryDelegationNonFatal as XdrDeserialize>::spec_parse(
                data,
                pos,
            ) == Parse::Done(v, pos + <GetDirectoryDelegationNonFatal as XdrSerialize>::spec_emit(v)->Done_0.len()) by {
                reveal(spec_parse_get_directory_delegation_non_fatal);
                lemma_at_split(data, pos, a, b);
                assert(<GetDirectoryDelegationStatus as XdrDeserialize>::spec_parse(data, pos) == Parse::Done(GetDirectoryDelegationStatus::Unavailable, pos + 4));
            }
        },
    }
}

/// A [`GetDeviceInfoArgs`] whose fields each read back as themselves reads back as itself.
#[verifier::spinoff_prover]
#[verifier::rlimit(60)]
pub proof fn lemma_get_device_info_args_roundtrips(v: SpecGetDeviceInfoArgs)
    requires
        spec_roundtrips::<DeviceId>(v.device_id),
        spec_roundtrips::<NfsLayoutType>(v.layout_type),
        spec_roundtrips::<Count>(v.max_count),
        spec_roundtrips::<BitMap>(v.notify_types),
    ensures
        spec_roundtrips::<GetDeviceInfoArgs>(v),
{
    let b0 = <DeviceId as XdrSerialize>::spec_emit(v.device_id)->Done_0;
    let b1 = <NfsLayoutType as XdrSerialize>::spec_emit(v.layout_type)->Done_0;
    let b2 = <Count as XdrSerialize>::spec_emit(v.max_count)->Done_0;
    let b3 = <BitMap as XdrSerialize>::spec_emit(v.notify_types)->Done_0;
    assert forall|data: Seq<u8>, pos: int|
        spec_at(data, pos, <GetDeviceInfoArgs as XdrSerialize>::spec_emit(v)->Done_0) implies #[trigger] <GetDeviceInfoArgs as XdrDeserialize>::spec_parse(
        data,
        pos,
    ) == Parse::Done(v, pos + <GetDeviceInfoArgs as XdrSerialize>::spec_emit(v)->Done_0.len()) by {
        reveal(spec_parse_get_device_info_args);
        lemma_at_split(data, pos, b0 + b1 + b2, b3);
        lemma_at_split(data, pos, b0 + b1, b2);
        lemma_at_split(data, pos, b0, b1);
        assert(<DeviceId as XdrDeserialize>::spec_parse(data, pos) == Parse::Done(v.device_id, pos + b0.len()));
        assert(<NfsLayoutType as XdrDeserialize>::spec_parse(data, pos + (b0).len()) == Parse::Done(v.layout_type, pos + (b0).len() + b1.len()));
        assert(<Count as XdrDeserialize>::spec_parse(data, pos + (b0 + b1).len()) == Parse::Done(v.max_count, pos + (b0 + b1).len() + b2.len()));
        assert(<BitMap as XdrDeserialize>::spec_parse(data, pos + (b0 + b1 + b2).len()) == Parse::Done(v.notify_types, pos + (b0 + b1 + b2).len() + b3.len()));
    }
}

/// A [`GetDeviceInfoOk`] whose fields each read back as themselves reads back as itself.
#[verifier::spinoff_prover]
#[verifier::rlimit(60)]
pub proof fn lemma_get_device_info_ok_roundtrips(v: SpecGetDeviceInfoOk)
    requires
        spec_roundtrips::<DeviceAddress>(v.device_address),
        spec_roundtrips::<BitMap>(v.notification),
    ensures
        spec_roundtrips::<GetDeviceInfoOk>(v),
{
    let b0 = <DeviceAddress as XdrSerialize>::spec_emit(v.device_address)->Done_0;
    let b1 = <BitMap as XdrSerialize>::spec_emit(v.notification)->Done_0;
    assert forall|data: Seq<u8>, pos: int|
        spec_at(data, pos, <GetDeviceInfoOk as XdrSerialize>::spec_emit(v)->Done_0) implies #[trigger] <GetDeviceInfoOk as XdrDeserialize>::spec_parse(
        data,
        pos,
    ) == Parse::Done(v, pos + <GetDeviceInfoOk as XdrSerialize>::spec_emit(v)->Done_0.len()) by {
        reveal(spec_parse_get_device_info_ok);
        lemma_at_split(data, pos, b0, b1);
        assert(<DeviceAddress as XdrDeserialize>::spec_parse(data, pos) == Parse::Done(v.device_address, pos + b0.len()));
        assert(<BitMap as XdrDeserialize>::spec_parse(data, pos + (b0).len()) == Parse::Done(v.notification, pos + (b0).len() + b1.len()));
    }
}

/// A [`GetDeviceListArgs`] whose fields each read back as themselves reads back as itself.
#[verifier::spinoff_prover]
#[verifier::rlimit(60)]
pub proof fn lemma_get_device_list_args_roundtrips(v: SpecGetDeviceListArgs)
    requires
        spec_roundtrips::<NfsLayoutType>(v.layout_type),
        spec_roundtrips::<Count>(v.max_devices),
        spec_roundtrips::<NfsCookie>(v.cookie),
        spec_roundtrips::<Verifier>(v.cookie_verifier),
    ensures
        spec_roundtrips::<GetDeviceListArgs>(v),
{
    let b0 = <NfsLayoutType as XdrSerialize>::spec_emit(v.layout_type)->Done_0;
    let b1 = <Count as XdrSerialize>::spec_emit(v.max_devices)->Done_0;
    let b2 = <NfsCookie as XdrSerialize>::spec_emit(v.cookie)->Done_0;
    let b3 = <Verifier as XdrSerialize>::spec_emit(v.cookie_verifier)->Done_0;
    assert forall|data: Seq<u8>, pos: int|
        spec_at(data, pos, <GetDeviceListArgs as XdrSerialize>::spec_emit(v)->Done_0) implies #[trigger] <GetDeviceListArgs as XdrDeserialize>::spec_parse(
        data,
        pos,
    ) == Parse::Done(v, pos + <GetDeviceListArgs as XdrSerialize>::spec_emit(v)->Done_0.len()) by {
        reveal(spec_parse_get_device_list_args);
        lemma_at_split(data, pos, b0 + b1 + b2, b3);
        lemma_at_split(data, pos, b0 + b1, b2);
        lemma_at_split(data, pos, b0, b1);
        assert(<NfsLayoutType as XdrDeserialize>::spec_parse(data, pos) == Parse::Done(v.layout_type, pos + b0.len()));
        assert(<Count as XdrDeserialize>::spec_parse(data, pos + (b0).len()) == Parse::Done(v.max_devices, pos + (b0).len() + b1.len()));
        assert(<NfsCookie as XdrDeserialize>::spec_parse(data, pos + (b0 + b1).len()) == Parse::Done(v.cookie, pos + (b0 + b1).len() + b2.len()));
        assert(<Verifier as XdrDeserialize>::spec_parse(data, pos + (b0 + b1 + b2).len()) == Parse::Done(v.cookie_verifier, pos + (b0 + b1 + b2).len() + b3.len()));
    }
}

/// A [`GetDeviceListOk`] whose fields each read back as themselves reads back as itself.
#[verifier::spinoff_prover]
#[verifier::rlimit(60)]
pub proof fn lemma_get_device_list_ok_roundtrips(v: SpecGetDeviceListOk)
    requires
        spec_roundtrips::<NfsCookie>(v.cookie),
        spec_roundtrips::<Verifier>(v.cookie_verifier),
        spec_vec_roundtrips::<DeviceId>(v.device_ids),
        spec_roundtrips::<bool>(v.eof),
    ensures
        spec_roundtrips::<GetDeviceListOk>(v),
{
    let b0 = <NfsCookie as XdrSerialize>::spec_emit(v.cookie)->Done_0;
    let b1 = <Verifier as XdrSerialize>::spec_emit(v.cookie_verifier)->Done_0;
    let b2 = spec_vec_emit::<DeviceId>(v.device_ids)->Done_0;
    let b3 = <bool as XdrSerialize>::spec_emit(v.eof)->Done_0;
    assert forall|data: Seq<u8>, pos: int|
        spec_at(data, pos, <GetDeviceListOk as XdrSerialize>::spec_emit(v)->Done_0) implies #[trigger] <GetDeviceListOk as XdrDeserialize>::spec_parse(
        data,
        pos,
    ) == Parse::Done(v, pos + <GetDeviceListOk as XdrSerialize>::spec_emit(v)->Done_0.len()) by {
        reveal(spec_parse_get_device_list_ok);
        lemma_at_split(data, pos, b0 + b1 + b2, b3);
        lemma_at_split(data, pos, b0 + b1, b2);
        lemma_at_split(data, pos, b0, b1);
        assert(<NfsCookie as XdrDeserialize>::spec_parse(data, pos) == Parse::Done(v.cookie, pos + b0.len()));
        assert(<Verifier as XdrDeserialize>::spec_parse(data, pos + (b0).len()) == Parse::Done(v.cookie_verifier, pos + (b0).len() + b1.len()));
        assert(spec_vec_parse::<DeviceId>(data, pos + (b0 + b1).len()) == Parse::Done(v.device_ids, pos + (b0 + b1).len() + b2.len()));
        assert(<bool as XdrDeserialize>::spec_parse(data, pos + (b0 + b1 + b2).len()) == Parse::Done(v.eof, pos + (b0 + b1 + b2).len() + b3.len()));
    }
}

/// A [`NewTime`] whose contents read back as themselves reads back as itself.
/// (A value written as it is does not: `Unchanged`.)
#[verifier::spinoff_prover]
#[verifier::rlimit(60)]
pub proof fn lemma_new_time_roundtrips(v: NewTime)
    requires
        match v {
            NewTime::Changed(x) => spec_roundtrips::<NfsTime>(x),
            NewTime::Unchanged => false,
        },
    ensures
        spec_roundtrips::<NewTime>(v),
{
    match v {
        NewTime::Changed(x) => {
            lemma_bool_roundtrips(true);
            let a = spec_u32_emit(spec_bool_word(true))->Done_0;
            let b = <NfsTime as XdrSerialize>::spec_emit(x)->Done_0;
            assert forall|data: Seq<u8>, pos: int|
                spec_at(data, pos, <NewTime as XdrSerialize>::spec_emit(v)->Done_0) implies #[trigger] <NewTime as XdrDeserialize>::spec_parse(
                data,
                pos,
            ) == Parse::Done(v, pos + <NewTime as XdrSerialize>::spec_emit(v)->Done_0.len()) by {
                reveal(spec_parse_new_time);
                lemma_at_split(data, pos, a, b);
                assert(<bool as XdrDeserialize>::spec_parse(data, pos) == Parse::Done(true, pos + 4));
            }
        },
            NewTime::Unchanged => {},
    }
}

/// A [`NewOffset`] whose contents read back as themselves reads back as itself.
/// (A value written as it is does not: `Unchanged`.)
#[verifier::spinoff_prover]
#[verifier::rlimit(60)]
pub proof fn lemma_new_offset_roundtrips(v: NewOffset)
    requires
        match v {
            NewOffset::Changed(x) => spec_roundtrips::<Offset>(x),
            NewOffset::Unchanged => false,
        },
    ensures
        spec_roundtrips::<NewOffset>(v),
{
    match v {
        NewOffset::Changed(x) => {
            lemma_bool_roundtrips(true);
            let a = spec_u32_emit(spec_bool_word(true))->Done_0;
            let b = <Offset as XdrSerialize>::spec_emit(x)->Done_0;
            assert forall|data: Seq<u8>, pos: int|
                spec_at(data, pos, <NewOffset as XdrSerialize>::spec_emit(v)->Done_0) implies #[trigger] <NewOffset as XdrDeserialize>::spec_parse(
                data,
                pos,
            ) == Parse::Done(v, pos + <NewOffset as XdrSerialize>::spec_emit(v)->Done_0.len()) by {
                reveal(spec_parse_new_offset);
                lemma_at_split(data, pos, a, b);
                assert(<bool as XdrDeserialize>::spec_parse(data, pos) == Parse::Done(true, pos + 4));
            }
        },
            NewOffset::Unchanged => {},
    }
}

/// A [`LayoutCommitArgs`] whose fields each read back as themselves reads back as itself.
#[verifier::spinoff_prover]
#[verifier::rlimit(60)]
pub proof fn lemma_layout_commit_args_roundtrips(v: SpecLayoutCommitArgs)
    requires
        spec_roundtrips::<Offset>(v.offset),
        spec_roundtrips::<Length>(v.length),
        spec_roundtrips::<StateId>(v.state_id),
        spec_roundtrips::<NewOffset>(v.last_write_offset),
        spec_roundtrips::<NewTime>(v.time_modify),
        spec_roundtrips::<LayoutUpdate>(v.layout_update),
    ensures
        spec_roundtrips::<LayoutCommitArgs>(v),
{
    let b0 = <Offset as XdrSerialize>::spec_emit(v.offset)->Done_0;
    let b1 = <Length as XdrSerialize>::spec_emit(v.length)->Done_0;
    let b2 = <StateId as XdrSerialize>::spec_emit(v.state_id)->Done_0;
    let b3 = <NewOffset as XdrSerialize>::spec_emit(v.last_write_offset)->Done_0;
    let b4 = <NewTime as XdrSerialize>::spec_emit(v.time_modify)->Done_0;
    let b5 = <LayoutUpdate as XdrSerialize>::spec_emit(v.layout_update)->Done_0;
    assert forall|data: Seq<u8>, pos: int|
        spec_at(data, pos, <LayoutCommitArgs as XdrSerialize>::spec_emit(v)->Done_0) implies #[trigger] <LayoutCommitArgs as XdrDeserialize>::spec_parse(
        data,
        pos,
    ) == Parse::Done(v, pos + <LayoutCommitArgs as XdrSerialize>::spec_emit(v)->Done_0.len()) by {
        reveal(spec_parse_layout_commit_args);
        lemma_at_split(data, pos, b0 + b1 + b2 + b3 + b4, b5);
        lemma_at_split(data, pos, b0 + b1 + b2 + b3, b4);
        lemma_at_split(data, pos, b0 + b1 + b2, b3);
        lemma_at_split(data, pos, b0 + b1, b2);
        lemma_at_split(data, pos, b0, b1);
        assert(<Offset as XdrDeserialize>::spec_parse(data, pos) == Parse::Done(v.offset, pos + b0.len()));
        assert(<Length as XdrDeserialize>::spec_parse(data, pos + (b0).len()) == Parse::Done(v.length, pos + (b0).len() + b1.len()));
        assert(<StateId as XdrDeserialize>::spec_parse(data, pos + (b0 + b1).len()) == Parse::Done(v.state_id, pos + (b0 + b1).len() + b2.len()));
        assert(<NewOffset as XdrDeserialize>::spec_parse(data, pos + (b0 + b1 + b2).len()) == Parse::Done(v.last_write_offset, pos + (b0 + b1 + b2).len() + b3.len()));
        assert(<NewTime as XdrDeserialize>::spec_parse(data, pos + (b0 + b1 + b2 + b3).len()) == Parse::Done(v.time_modify, pos + (b0 + b1 + b2 + b3).len() + b4.len()));
        assert(<LayoutUpdate as XdrDeserialize>::spec_parse(data, pos + (b0 + b1 + b2 + b3 + b4).len()) == Parse::Done(v.layout_update, pos + (b0 + b1 + b2 + b3 + b4).len() + b5.len()));
    }
}

/// A [`NewSize`] whose contents read back as themselves reads back as itself.
/// (A value written as it is does not: `Unchanged`.)
#[verifier::spinoff_prover]
#[verifier::rlimit(60)]
pub proof fn lemma_new_size_roundtrips(v: NewSize)
    requires
        match v {
            NewSize::Changed(x) => spec_roundtrips::<Length>(x),
            NewSize::Unchanged => false,
        },
    ensures
        spec_roundtrips::<NewSize>(v),
{
    match v {
        NewSize::Changed(x) => {
            lemma_bool_roundtrips(true);
            let a = spec_u32_emit(spec_bool_word(true))->Done_0;
            let b = <Length as XdrSerialize>::spec_emit(x)->Done_0;
            assert forall|data: Seq<u8>, pos: int|
                spec_at(data, pos, <NewSize as XdrSerialize>::spec_emit(v)->Done_0) implies #[trigger] <NewSize as XdrDeserialize>::spec_parse(
                data,
                pos,
            ) == Parse::Done(v, pos + <NewSize as XdrSerialize>::spec_emit(v)->Done_0.len()) by {
                reveal(spec_parse_new_size);
                lemma_at_split(data, pos, a, b);
                assert(<bool as XdrDeserialize>::spec_parse(data, pos) == Parse::Done(true, pos + 4));
            }
        },
            NewSize::Unchanged => {},
    }
}

/// A [`LayoutCommitOk`] whose fields each read back as themselves reads back as itself.
#[verifier::spinoff_prover]
#[verifier::rlimit(60)]
pub proof fn lemma_layout_commit_ok_roundtrips(v: SpecLayoutCommitOk)
    requires
        spec_roundtrips::<NewSize>(v.new_size),
    ensures
        spec_roundtrips::<LayoutCommitOk>(v),
{
    let b0 = <NewSize as XdrSerialize>::spec_emit(v.new_size)->Done_0;
    assert forall|data: Seq<u8>, pos: int|
        spec_at(data, pos, <LayoutCommitOk as XdrSerialize>::spec_emit(v)->Done_0) implies #[trigger] <LayoutCommitOk as XdrDeserialize>::spec_parse(
        data,
        pos,
    ) == Parse::Done(v, pos + <LayoutCommitOk as XdrSerialize>::spec_emit(v)->Done_0.len()) by {
        reveal(spec_parse_layout_commit_ok);
        assert(<NewSize as XdrDeserialize>::spec_parse(data, pos) == Parse::Done(v.new_size, pos + b0.len()));
    }
}

/// A [`LayoutGetArgs`] whose fields each read back as themselves reads back as itself.
#[verifier::spinoff_prover]
#[verifier::rlimit(60)]
pub proof fn lemma_layout_get_args_roundtrips(v: SpecLayoutGetArgs)
    requires
        spec_roundtrips::<bool>(v.signal_layout_available),
        spec_roundtrips::<NfsLayoutType>(v.layout_type),
        spec_roundtrips::<LayoutIoMode>(v.io_mode),
        spec_roundtrips::<Offset>(v.offset),
        spec_roundtrips::<Length>(v.length),
        spec_roundtrips::<Length>(v.min_length),
        spec_roundtrips::<StateId>(v.state_id),
        spec_roundtrips::<Count>(v.max_count),
    ensures
        spec_roundtrips::<LayoutGetArgs>(v),
{
    let b0 = <bool as XdrSerialize>::spec_emit(v.signal_layout_available)->Done_0;
    let b1 = <NfsLayoutType as XdrSerialize>::spec_emit(v.layout_type)->Done_0;
    let b2 = <LayoutIoMode as XdrSerialize>::spec_emit(v.io_mode)->Done_0;
    let b3 = <Offset as XdrSerialize>::spec_emit(v.offset)->Done_0;
    let b4 = <Length as XdrSerialize>::spec_emit(v.length)->Done_0;
    let b5 = <Length as XdrSerialize>::spec_emit(v.min_length)->Done_0;
    let b6 = <StateId as XdrSerialize>::spec_emit(v.state_id)->Done_0;
    let b7 = <Count as XdrSerialize>::spec_emit(v.max_count)->Done_0;
    assert forall|data: Seq<u8>, pos: int|
        spec_at(data, pos, <LayoutGetArgs as XdrSerialize>::spec_emit(v)->Done_0) implies #[trigger] <LayoutGetArgs as XdrDeserialize>::spec_parse(
        data,
        pos,
    ) == Parse::Done(v, pos + <LayoutGetArgs as XdrSerialize>::spec_emit(v)->Done_0.len()) by {
        reveal(spec_parse_layout_get_args);
        lemma_at_split(data, pos, b0 + b1 + b2 + b3 + b4 + b5 + b6, b7);
        lemma_at_split(data, pos, b0 + b1 + b2 + b3 + b4 + b5, b6);
        lemma_at_split(data, pos, b0 + b1 + b2 + b3 + b4, b5);
        lemma_at_split(data, pos, b0 + b1 + b2 + b3, b4);
        lemma_at_split(data, pos, b0 + b1 + b2, b3);
        lemma_at_split(data, pos, b0 + b1, b2);
        lemma_at_split(data, pos, b0, b1);
        assert(<bool as XdrDeserialize>::spec_parse(data, pos) == Parse::Done(v.signal_layout_available, pos + b0.len()));
        assert(<NfsLayoutType as XdrDeserialize>::spec_parse(data, pos + (b0).len()) == Parse::Done(v.layout_type, pos + (b0).len() + b1.len()));
        assert(<LayoutIoMode as XdrDeserialize>::spec_parse(data, pos + (b0 + b1).len()) == Parse::Done(v.io_mode, pos + (b0 + b1).len() + b2.len()));
        assert(<Offset as XdrDeserialize>::spec_parse(data, pos + (b0 + b1 + b2).len()) == Parse::Done(v.offset, pos + (b0 + b1 + b2).len() + b3.len()));
        assert(<Length as XdrDeserialize>::spec_parse(data, pos + (b0 + b1 + b2 + b3).len()) == Parse::Done(v.length, pos + (b0 + b1 + b2 + b3).len() + b4.len()));
        assert(<Length as XdrDeserialize>::spec_parse(data, pos + (b0 + b1 + b2 + b3 + b4).len()) == Parse::Done(v.min_length, pos + (b0 + b1 + b2 + b3 + b4).len() + b5.len()));
        assert(<StateId as XdrDeserialize>::spec_parse(data, pos + (b0 + b1 + b2 + b3 + b4 + b5).len()) == Parse::Done(v.state_id, pos + (b0 + b1 + b2 + b3 + b4 + b5).len() + b6.len()));
        assert(<Count as XdrDeserialize>::spec_parse(data, pos + (b0 + b1 + b2 + b3 + b4 + b5 + b6).len()) == Parse::Done(v.max_count, pos + (b0 + b1 + b2 + b3 + b4 + b5 + b6).len() + b7.len()));
    }
}

/// A [`LayoutGetOk`] whose fields each read back as themselves reads back as itself.
#[verifier::spinoff_prover]
#[verifier::rlimit(60)]
pub proof fn lemma_layout_get_ok_roundtrips(v: SpecLayoutGetOk)
    requires
        spec_roundtrips::<bool>(v.return_on_close),
        spec_roundtrips::<StateId>(v.state_id),
        spec_vec_roundtrips::<Layout>(v.layout),
    ensures
        spec_roundtrips::<LayoutGetOk>(v),
{
    let b0 = <bool as XdrSerialize>::spec_emit(v.return_on_close)->Done_0;
    let b1 = <StateId as XdrSerialize>::spec_emit(v.state_id)->Done_0;
    let b2 = spec_vec_emit::<Layout>(v.layout)->Done_0;
    assert forall|data: Seq<u8>, pos: int|
        spec_at(data, pos, <LayoutGetOk as XdrSerialize>::spec_emit(v)->Done_0) implies #[trigger] <LayoutGetOk as XdrDeserialize>::spec_parse(
        data,
        pos,
    ) == Parse::Done(v, pos + <LayoutGetOk as XdrSerialize>::spec_emit(v)->Done_0.len()) by {
        reveal(spec_parse_layout_get_ok);
        lemma_at_split(data, pos, b0 + b1, b2);
        lemma_at_split(data, pos, b0, b1);
        assert(<bool as XdrDeserialize>::spec_parse(data, pos) == Parse::Done(v.return_on_close, pos + b0.len()));
        assert(<StateId as XdrDeserialize>::spec_parse(data, pos + (b0).len()) == Parse::Done(v.state_id, pos + (b0).len() + b1.len()));
        assert(spec_vec_parse::<Layout>(data, pos + (b0 + b1).len()) == Parse::Done(v.layout, pos + (b0 + b1).len() + b2.len()));
    }
}

/// A [`LayoutReturnArgs`] whose fields each read back as themselves reads back as itself.
#[verifier::spinoff_prover]
#[verifier::rlimit(60)]
pub proof fn lemma_layout_return_args_roundtrips(v: SpecLayoutReturnArgs)
    requires
        spec_roundtrips::<bool>(v.reclaim),
        spec_roundtrips::<NfsLayoutType>(v.layout_type),
        spec_roundtrips::<LayoutIoMode>(v.io_mode),
        spec_roundtrips::<LayoutReturn>(v.layout_return),
    ensures
        spec_roundtrips::<LayoutReturnArgs>(v),
{
    let b0 = <bool as XdrSerialize>::spec_emit(v.reclaim)->Done_0;
    let b1 = <NfsLayoutType as XdrSerialize>::spec_emit(v.layout_type)->Done_0;
    let b2 = <LayoutIoMode as XdrSerialize>::spec_emit(v.io_mode)->Done_0;
    let b3 = <LayoutReturn as XdrSerialize>::spec_emit(v.layout_return)->Done_0;
    assert forall|data: Seq<u8>, pos: int|
        spec_at(data, pos, <LayoutReturnArgs as XdrSerialize>::spec_emit(v)->Done_0) implies #[trigger] <LayoutReturnArgs as XdrDeserialize>::spec_parse(
        data,
        pos,
    ) == Parse::Done(v, pos + <LayoutReturnArgs as XdrSerialize>::spec_emit(v)->Done_0.len()) by {
        reveal(spec_parse_layout_return_args);
        lemma_at_split(data, pos, b0 + b1 + b2, b3);
        lemma_at_split(data, pos, b0 + b1, b2);
        lemma_at_split(data, pos, b0, b1);
        assert(<bool as XdrDeserialize>::spec_parse(data, pos) == Parse::Done(v.reclaim, pos + b0.len()));
        assert(<NfsLayoutType as XdrDeserialize>::spec_parse(data, pos + (b0).len()) == Parse::Done(v.layout_type, pos + (b0).len() + b1.len()));
        assert(<LayoutIoMode as XdrDeserialize>::spec_parse(data, pos + (b0 + b1).len()) == Parse::Done(v.io_mode, pos + (b0 + b1).len() + b2.len()));
        assert(<LayoutReturn as XdrDeserialize>::spec_parse(data, pos + (b0 + b1 + b2).len()) == Parse::Done(v.layout_return, pos + (b0 + b1 + b2).len() + b3.len()));
    }
}

/// A [`LayoutReturnReturn`] whose contents read back as themselves reads back as itself.
/// (A value written as it is does not: `WithoutStateId`.)
#[verifier::spinoff_prover]
#[verifier::rlimit(60)]
pub proof fn lemma_layout_return_return_roundtrips(v: SpecLayoutReturnReturn)
    requires
        match v {
            SpecLayoutReturnReturn::WithStateId(x) => spec_roundtrips::<StateId>(x),
            SpecLayoutReturnReturn::WithoutStateId => false,
        },
    ensures
        spec_roundtrips::<LayoutReturnReturn>(v),
{
    match v {
        SpecLayoutReturnReturn::WithStateId(x) => {
            lemma_bool_roundtrips(true);
            let a = spec_u32_emit(spec_bool_word(true))->Done_0;
            let b = <StateId as XdrSerialize>::spec_emit(x)->Done_0;
            assert forall|data: Seq<u8>, pos: int|
                spec_at(data, pos, <LayoutReturnReturn as XdrSerialize>::spec_emit(v)->Done_0) implies #[trigger] <LayoutReturnReturn as XdrDeserialize>::spec_parse(
                data,
                pos,
            ) == Parse::Done(v, pos + <LayoutReturnReturn as XdrSerialize>::spec_emit(v)->Done_0.len()) by {
                reveal(spec_parse_layout_return_return);
                lemma_at_split(data, pos, a, b);
                assert(<bool as XdrDeserialize>::spec_parse(data, pos) == Parse::Done(true, pos + 4));
            }
        },
            SpecLayoutReturnReturn::WithoutStateId => {},
    }
}

/// A [`SecurityInfoNoNameStyle`] reads back as itself.
pub proof fn lemma_security_info_no_name_style_roundtrips(v: SecurityInfoNoNameStyle)
    ensures
        spec_roundtrips::<SecurityInfoNoNameStyle>(v),
{
    lemma_u32_roundtrips(v.spec_to_u32());
    assert forall|data: Seq<u8>, pos: int|
        spec_at(data, pos, <SecurityInfoNoNameStyle as XdrSerialize>::spec_emit(v)->Done_0) implies #[trigger] <SecurityInfoNoNameStyle as XdrDeserialize>::spec_parse(
        data,
        pos,
    ) == Parse::Done(v, pos + <SecurityInfoNoNameStyle as XdrSerialize>::spec_emit(v)->Done_0.len()) by {
        assert(<u32 as XdrDeserialize>::spec_parse(data, pos) == Parse::Done(v.spec_to_u32(), pos + 4));
    }
}

/// A [`SequenceArgs`] whose fields each read back as themselves reads back as itself.
#[verifier::spinoff_prover]
#[verifier::rlimit(60)]
pub proof fn lemma_sequence_args_roundtrips(v: SpecSequenceArgs)
    requires
        spec_roundtrips::<SessionId>(v.session_id),
        spec_roundtrips::<SequenceId>(v.sequence_id),
        spec_roundtrips::<SlotId>(v.slot_id),
        spec_roundtrips::<SlotId>(v.highest_slot_id),
        spec_roundtrips::<bool>(v.cache_this),
    ensures
        spec_roundtrips::<SequenceArgs>(v),
{
    let b0 = <SessionId as XdrSerialize>::spec_emit(v.session_id)->Done_0;
    let b1 = <SequenceId as XdrSerialize>::spec_emit(v.sequence_id)->Done_0;
    let b2 = <SlotId as XdrSerialize>::spec_emit(v.slot_id)->Done_0;
    let b3 = <SlotId as XdrSerialize>::spec_emit(v.highest_slot_id)->Done_0;
    let b4 = <bool as XdrSerialize>::spec_emit(v.cache_this)->Done_0;
    assert forall|data: Seq<u8>, pos: int|
        spec_at(data, pos, <SequenceArgs as XdrSerialize>::spec_emit(v)->Done_0) implies #[trigger] <SequenceArgs as XdrDeserialize>::spec_parse(
        data,
        pos,
    ) == Parse::Done(v, pos + <SequenceArgs as XdrSerialize>::spec_emit(v)->Done_0.len()) by {
        reveal(spec_parse_sequence_args);
        lemma_at_split(data, pos, b0 + b1 + b2 + b3, b4);
        lemma_at_split(data, pos, b0 + b1 + b2, b3);
        lemma_at_split(data, pos, b0 + b1, b2);
        lemma_at_split(data, pos, b0, b1);
        assert(<SessionId as XdrDeserialize>::spec_parse(data, pos) == Parse::Done(v.session_id, pos + b0.len()));
        assert(<SequenceId as XdrDeserialize>::spec_parse(data, pos + (b0).len()) == Parse::Done(v.sequence_id, pos + (b0).len() + b1.len()));
        assert(<SlotId as XdrDeserialize>::spec_parse(data, pos + (b0 + b1).len()) == Parse::Done(v.slot_id, pos + (b0 + b1).len() + b2.len()));
        assert(<SlotId as XdrDeserialize>::spec_parse(data, pos + (b0 + b1 + b2).len()) == Parse::Done(v.highest_slot_id, pos + (b0 + b1 + b2).len() + b3.len()));
        assert(<bool as XdrDeserialize>::spec_parse(data, pos + (b0 + b1 + b2 + b3).len()) == Parse::Done(v.cache_this, pos + (b0 + b1 + b2 + b3).len() + b4.len()));
    }
}

/// A [`SequenceOk`] whose fields each read back as themselves reads back as itself.
#[verifier::spinoff_prover]
#[verifier::rlimit(60)]
pub proof fn lemma_sequence_ok_roundtrips(v: SpecSequenceOk)
    requires
        spec_roundtrips::<SessionId>(v.session_id),
        spec_roundtrips::<SequenceId>(v.sequence_id),
        spec_roundtrips::<SlotId>(v.slot_id),
        spec_roundtrips::<SlotId>(v.highest_slot_id),
        spec_roundtrips::<SlotId>(v.target_highest_slot_id),
        spec_roundtrips::<u32>(v.status_flags),
    ensures
        spec_roundtrips::<SequenceOk>(v),
{
    let b0 = <SessionId as XdrSerialize>::spec_emit(v.session_id)->Done_0;
    let b1 = <SequenceId as XdrSerialize>::spec_emit(v.sequence_id)->Done_0;
    let b2 = <SlotId as XdrSerialize>::spec_emit(v.slot_id)->Done_0;
    let b3 = <SlotId as XdrSerialize>::spec_emit(v.highest_slot_id)->Done_0;
    let b4 = <SlotId as XdrSerialize>::spec_emit(v.target_highest_slot_id)->Done_0;
    let b5 = <u32 as XdrSerialize>::spec_emit(v.status_flags)->Done_0;
    assert forall|data: Seq<u8>, pos: int|
        spec_at(data, pos, <SequenceOk as XdrSerialize>::spec_emit(v)->Done_0) implies #[trigger] <SequenceOk as XdrDeserialize>::spec_parse(
        data,
        pos,
    ) == Parse::Done(v, pos + <SequenceOk as XdrSerialize>::spec_emit(v)->Done_0.len()) by {
        reveal(spec_parse_sequence_ok);
        lemma_at_split(data, pos, b0 + b1 + b2 + b3 + b4, b5);
        lemma_at_split(data, pos, b0 + b1 + b2 + b3, b4);
        lemma_at_split(data, pos, b0 + b1 + b2, b3);
        lemma_at_split(data, pos, b0 + b1, b2);
        lemma_at_split(data, pos, b0, b1);
        assert(<SessionId as XdrDeserialize>::spec_parse(data, pos) == Parse::Done(v.session_id, pos + b0.len()));
        assert(<SequenceId as XdrDeserialize>::spec_parse(data, pos + (b0).len()) == Parse::Done(v.sequence_id, pos + (b0).len() + b1.len()));
        assert(<SlotId as XdrDeserialize>::spec_parse(data, pos + (b0 + b1).len()) == Parse::Done(v.slot_id, pos + (b0 + b1).len() + b2.len()));
        assert(<SlotId as XdrDeserialize>::spec_parse(data, pos + (b0 + b1 + b2).len()) == Parse::Done(v.highest_slot_id, pos + (b0 + b1 + b2).len() + b3.len()));
        assert(<SlotId as XdrDeserialize>::spec_parse(data, pos + (b0 + b1 + b2 + b3).len()) == Parse::Done(v.target_highest_slot_id, pos + (b0 + b1 + b2 + b3).len() + b4.len()));
        assert(<u32 as XdrDeserialize>::spec_parse(data, pos + (b0 + b1 + b2 + b3 + b4).len()) == Parse::Done(v.status_flags, pos + (b0 + b1 + b2 + b3 + b4).len() + b5.len()));
    }
}

/// A [`SsaDigestInput`] whose fields each read back as themselves reads back as itself.
#[verifier::spinoff_prover]
#[verifier::rlimit(60)]
pub proof fn lemma_ssa_digest_input_roundtrips(v: SpecSsaDigestInput)
    requires
        spec_roundtrips::<SequenceArgs>(v.sequence_args),
    ensures
        spec_roundtrips::<SsaDigestInput>(v),
{
    let b0 = <SequenceArgs as XdrSerialize>::spec_emit(v.sequence_args)->Done_0;
    assert forall|data: Seq<u8>, pos: int|
        spec_at(data, pos, <SsaDigestInput as XdrSerialize>::spec_emit(v)->Done_0) implies #[trigger] <SsaDigestInput as XdrDeserialize>::spec_parse(
        data,
        pos,
    ) == Parse::Done(v, pos + <SsaDigestInput as XdrSerialize>::spec_emit(v)->Done_0.len()) by {
        reveal(spec_parse_ssa_digest_input);
        assert(<SequenceArgs as XdrDeserialize>::spec_parse(data, pos) == Parse::Done(v.sequence_args, pos + b0.len()));
    }
}

/// A [`SetSsvArgs`] whose fields each read back as themselves reads back as itself.
#[verifier::spinoff_prover]
#[verifier::rlimit(60)]
pub proof fn lemma_set_ssv_args_roundtrips(v: SpecSetSsvArgs)
    requires
        spec_roundtrips::<XdrOpaque>(v.ssv),
        spec_roundtrips::<XdrOpaque>(v.digest),
    ensures
        spec_roundtrips::<SetSsvArgs>(v),
{
    let b0 = <XdrOpaque as XdrSerialize>::spec_emit(v.ssv)->Done_0;
    let b1 = <XdrOpaque as XdrSerialize>::spec_emit(v.digest)->Done_0;
    assert forall|data: Seq<u8>, pos: int|
        spec_at(data, pos, <SetSsvArgs as XdrSerialize>::spec_emit(v)->Done_0) implies #[trigger] <SetSsvArgs as XdrDeserialize>::spec_parse(
        data,
        pos,
    ) == Parse::Done(v, pos + <SetSsvArgs as XdrSerialize>::spec_emit(v)->Done_0.len()) by {
        reveal(spec_parse_set_ssv_args);
        lemma_at_split(data, pos, b0, b1);
        assert(<XdrOpaque as XdrDeserialize>::spec_parse(data, pos) == Parse::Done(v.ssv, pos + b0.len()));
        assert(<XdrOpaque as XdrDeserialize>::spec_parse(data, pos + (b0).len()) == Parse::Done(v.digest, pos + (b0).len() + b1.len()));
    }
}

/// A [`SetSsvOk`] whose fields each read back as themselves reads back as itself.
#[verifier::spinoff_prover]
#[verifier::rlimit(60)]
pub proof fn lemma_set_ssv_ok_roundtrips(v: SpecSetSsvOk)
    requires
        spec_roundtrips::<XdrOpaque>(v.digest),
    ensures
        spec_roundtrips::<SetSsvOk>(v),
{
    let b0 = <XdrOpaque as XdrSerialize>::spec_emit(v.digest)->Done_0;
    assert forall|data: Seq<u8>, pos: int|
        spec_at(data, pos, <SetSsvOk as XdrSerialize>::spec_emit(v)->Done_0) implies #[trigger] <SetSsvOk as XdrDeserialize>::spec_parse(
        data,
        pos,
    ) == Parse::Done(v, pos + <SetSsvOk as XdrSerialize>::spec_emit(v)->Done_0.len()) by {
        reveal(spec_parse_set_ssv_ok);
        assert(<XdrOpaque as XdrDeserialize>::spec_parse(data, pos) == Parse::Done(v.digest, pos + b0.len()));
    }
}

/// A [`TestStateIdsArgs`] whose fields each read back as themselves reads back as itself.
#[verifier::spinoff_prover]
#[verifier::rlimit(60)]
pub proof fn lemma_test_state_ids_args_roundtrips(v: SpecTestStateIdsArgs)
    requires
        spec_vec_roundtrips::<StateId>(v.state_ids),
    ensures
        spec_roundtrips::<TestStateIdsArgs>(v),
{
    let b0 = spec_vec_emit::<StateId>(v.state_ids)->Done_0;
    assert forall|data: Seq<u8>, pos: int|
        spec_at(data, pos, <TestStateIdsArgs as XdrSerialize>::spec_emit(v)->Done_0) implies #[trigger] <TestStateIdsArgs as XdrDeserialize>::spec_parse(
        data,
        pos,
    ) == Parse::Done(v, pos + <TestStateIdsArgs as XdrSerialize>::spec_emit(v)->Done_0.len()) by {
        reveal(spec_parse_test_state_ids_args);
        assert(spec_vec_parse::<StateId>(data, pos) == Parse::Done(v.state_ids, pos + b0.len()));
    }
}

/// A [`TestStateIdsOk`] whose fields each read back as themselves reads back as itself.
#[verifier::spinoff_prover]
#[verifier::rlimit(60)]
pub proof fn lemma_test_state_ids_ok_roundtrips(v: SpecTestStateIdsOk)
    requires
        spec_vec_roundtrips::<StateId>(v.state_ids),
    ensures
        spec_roundtrips::<TestStateIdsOk>(v),
{
    let b0 = spec_vec_emit::<StateId>(v.state_ids)->Done_0;
    assert forall|data: Seq<u8>, pos: int|
        spec_at(data, pos, <TestStateIdsOk as XdrSerialize>::spec_emit(v)->Done_0) implies #[trigger] <TestStateIdsOk as XdrDeserialize>::spec_parse(
        data,
        pos,
    ) == Parse::Done(v, pos + <TestStateIdsOk as XdrSerialize>::spec_emit(v)->Done_0.len()) by {
        reveal(spec_parse_test_state_ids_ok);
        assert(spec_vec_parse::<StateId>(data, pos) == Parse::Done(v.state_ids, pos + b0.len()));
    }
}

/// A [`DelegationClaim`] whose contents read back as themselves reads back as itself.
/// (A value written as it is does not: `Invalid`.)
#[verifier::spinoff_prover]
#[verifier::rlimit(60)]
pub proof fn lemma_delegation_claim_roundtrips(v: DelegationClaim)
    requires
        match v {
            DelegationClaim::Previous(x) => spec_roundtrips::<OpenDelegationType>(x),
            DelegationClaim::CurrentFh => true,
            DelegationClaim::PreviousDelegateFh => true,
            DelegationClaim::Invalid(_) => false,
        },
    ensures
        spec_roundtrips::<DelegationClaim>(v),
{
    match v {
        DelegationClaim::Previous(x) => {
            lemma_open_claim_type_roundtrips(OpenClaimType::Previous);
            let a = <OpenClaimType as XdrSerialize>::spec_emit(OpenClaimType::Previous)->Done_0;
            let b = <OpenDelegationType as XdrSerialize>::spec_emit(x)->Done_0;
            assert forall|data: Seq<u8>, pos: int|
                spec_at(data, pos, <DelegationClaim as XdrSerialize>::spec_emit(v)->Done_0) implies #[trigger] <DelegationClaim as XdrDeserialize>::spec_parse(
                data,
                pos,
            ) == Parse::Done(v, pos + <DelegationClaim as XdrSerialize>::spec_emit(v)->Done_0.len()) by {
                reveal(spec_parse_delegation_claim);
                lemma_at_split(data, pos, a, b);
                assert(<OpenClaimType as XdrDeserialize>::spec_parse(data, pos) == Parse::Done(OpenClaimType::Previous, pos + 4));
            }
        },
        DelegationClaim::CurrentFh => {
            lemma_open_claim_type_roundtrips(OpenClaimType::CurrentFh);
            let a = <OpenClaimType as XdrSerialize>::spec_emit(OpenClaimType::CurrentFh)->Done_0;
            assert forall|data: Seq<u8>, pos: int|
                spec_at(data, pos, <DelegationClaim as XdrSerialize>::spec_emit(v)->Done_0) implies #[trigger] <DelegationClaim as XdrDeserialize>::spec_parse(
                data,
                pos,
            ) == Parse::Done(v, pos + <DelegationClaim as XdrSerialize>::spec_emit(v)->Done_0.len()) by {
                reveal(spec_parse_delegation_claim);
                assert(<OpenClaimType as XdrDeserialize>::spec_parse(data, pos) == Parse::Done(OpenClaimType::CurrentFh, pos + 4));
            }
        },
        DelegationClaim::PreviousDelegateFh => {
            lemma_open_claim_type_roundtrips(OpenClaimType::PreviousDelegateFh);
            let a = <OpenClaimType as XdrSerialize>::spec_emit(OpenClaimType::PreviousDelegateFh)->Done_0;
            assert forall|data: Seq<u8>, pos: int|
                spec_at(data, pos, <DelegationClaim as XdrSerialize>::spec_emit(v)->Done_0) implies #[trigger] <DelegationClaim as XdrDeserialize>::spec_parse(
                data,
                pos,
            ) == Parse::Done(v, pos + <DelegationClaim as XdrSerialize>::spec_emit(v)->Done_0.len()) by {
                reveal(spec_parse_delegation_claim);
                assert(<OpenClaimType as XdrDeserialize>::spec_parse(data, pos) == Parse::Done(OpenClaimType::PreviousDelegateFh, pos + 4));
            }
        },
        DelegationClaim::Invalid(_) => {},
    }
}

/// A [`WantDelegationArgs`] whose fields each read back as themselves reads back as itself.
#[verifier::spinoff_prover]
#[verifier::rlimit(60)]
pub proof fn lemma_want_delegation_args_roundtrips(v: SpecWantDelegationArgs)
    requires
        spec_roundtrips::<u32>(v.want),
        spec_roundtrips::<DelegationClaim>(v.claim),
    ensures
        spec_roundtrips::<WantDelegationArgs>(v),
{
    let b0 = <u32 as XdrSerialize>::spec_emit(v.want)->Done_0;
    let b1 = <DelegationClaim as XdrSerialize>::spec_emit(v.claim)->Done_0;
    assert forall|data: Seq<u8>, pos: int|
        spec_at(data, pos, <WantDelegationArgs as XdrSerialize>::spec_emit(v)->Done_0) implies #[trigger] <WantDelegationArgs as XdrDeserialize>::spec_parse(
        data,
        pos,
    ) == Parse::Done(v, pos + <WantDelegationArgs as XdrSerialize>::spec_emit(v)->Done_0.len()) by {
        reveal(spec_parse_want_delegation_args);
        lemma_at_split(data, pos, b0, b1);
        assert(<u32 as XdrDeserialize>::spec_parse(data, pos) == Parse::Done(v.want, pos + b0.len()));
        assert(<DelegationClaim as XdrDeserialize>::spec_parse(data, pos + (b0).len()) == Parse::Done(v.claim, pos + (b0).len() + b1.len()));
    }
}

/// A [`WantDelegationOk`] whose fields each read back as themselves reads back as itself.
#[verifier::spinoff_prover]
#[verifier::rlimit(60)]
pub proof fn lemma_want_delegation_ok_roundtrips(v: SpecWantDelegationOk)
    requires
        spec_roundtrips::<OpenDelegation>(v.open_delegation),
    ensures
        spec_roundtrips::<WantDelegationOk>(v),
{
    let b0 = <OpenDelegation as XdrSerialize>::spec_emit(v.open_delegation)->Done_0;
    assert forall|data: Seq<u8>, pos: int|
        spec_at(data, pos, <WantDelegationOk as XdrSerialize>::spec_emit(v)->Done_0) implies #[trigger] <WantDelegationOk as XdrDeserialize>::spec_parse(
        data,
        pos,
    ) == Parse::Done(v, pos + <WantDelegationOk as XdrSerialize>::spec_emit(v)->Done_0.len()) by {
        reveal(spec_parse_want_delegation_ok);
        assert(<OpenDelegation as XdrDeserialize>::spec_parse(data, pos) == Parse::Done(v.open_delegation, pos + b0.len()));
    }
}

/// A [`DestroyClientIdArgs`] whose fields each read back as themselves reads back as itself.
#[verifier::spinoff_prover]
#[verifier::rlimit(60)]
pub proof fn lemma_destroy_client_id_args_roundtrips(v: DestroyClientIdArgs)
    requires
        spec_roundtrips::<ClientId>(v.client_id),
    ensures
        spec_roundtrips::<DestroyClientIdArgs>(v),
{
    let b0 = <ClientId as XdrSerialize>::spec_emit(v.client_id)->Done_0;
    assert forall|data: Seq<u8>, pos: int|
        spec_at(data, pos, <DestroyClientIdArgs as XdrSerialize>::spec_emit(v)->Done_0) implies #[trigger] <DestroyClientIdArgs as XdrDeserialize>::spec_parse(
        data,
        pos,
    ) == Parse::Done(v, pos + <DestroyClientIdArgs as XdrSerialize>::spec_emit(v)->Done_0.len()) by {
        reveal(spec_parse_destroy_client_id_args);
        assert(<ClientId as XdrDeserialize>::spec_parse(data, pos) == Parse::Done(v.client_id, pos + b0.len()));
    }
}

/// A [`ReclaimCompleteArgs`] whose fields each read back as themselves reads back as itself.
#[verifier::spinoff_prover]
#[verifier::rlimit(60)]
pub proof fn lemma_reclaim_complete_args_roundtrips(v: ReclaimCompleteArgs)
    requires
        spec_roundtrips::<bool>(v.one_fs),
    ensures
        spec_roundtrips::<ReclaimCompleteArgs>(v),
{
    let b0 = <bool as XdrSerialize>::spec_emit(v.one_fs)->Done_0;
    assert forall|data: Seq<u8>, pos: int|
        spec_at(data, pos, <ReclaimCompleteArgs as XdrSerialize>::spec_emit(v)->Done_0) implies #[trigger] <ReclaimCompleteArgs as XdrDeserialize>::spec_parse(
        data,
        pos,
    ) == Parse::Done(v, pos + <ReclaimCompleteArgs as XdrSerialize>::spec_emit(v)->Done_0.len()) by {
        reveal(spec_parse_reclaim_complete_args);
        assert(<bool as XdrDeserialize>::spec_parse(data, pos) == Parse::Done(v.one_fs, pos + b0.len()));
    }
}

/// A [`NfsSpecData`] reads back as itself when its two words are equal:
/// it is written as `specdata1` twice, so `specdata2` reads back as
/// `specdata1`.
pub proof fn lemma_nfs_spec_data_roundtrips(v: NfsSpecData)
    requires
        v.specdata1 == v.specdata2,
    ensures
        spec_roundtrips::<NfsSpecData>(v),
{
    lemma_u32_roundtrips(v.specdata1);
    let b0 = <u32 as XdrSerialize>::spec_emit(v.specdata1)->Done_0;
    assert forall|data: Seq<u8>, pos: int|
        spec_at(data, pos, <NfsSpecData as XdrSerialize>::spec_emit(v)->Done_0) implies #[trigger] <NfsSpecData as XdrDeserialize>::spec_parse(
        data,
        pos,
    ) == Parse::Done(v, pos + <NfsSpecData as XdrSerialize>::spec_emit(v)->Done_0.len()) by {
        reveal(spec_parse_nfs_spec_data);
        lemma_at_split(data, pos, b0, b0);
        assert(<u32 as XdrDeserialize>::spec_parse(data, pos) == Parse::Done(v.specdata1, pos + 4));
        assert(<u32 as XdrDeserialize>::spec_parse(data, pos + 4) == Parse::Done(v.specdata1, pos + 8));
    }
}

/// What a [`NfsSpecData`] reads back as: `specdata1` in both words.
pub proof fn lemma_nfs_spec_data_reads_first_twice(v: NfsSpecData, data: Seq<u8>, pos: int)
    requires
        spec_at(data, pos, <NfsSpecData as XdrSerialize>::spec_emit(v)->Done_0),
    ensures
        <NfsSpecData as XdrDeserialize>::spec_parse(data, pos) == Parse::Done(
            NfsSpecData { specdata1: v.specdata1, specdata2: v.specdata1 },
            pos + 8,
        ),
{
    lemma_u32_roundtrips(v.specdata1);
    let b0 = <u32 as XdrSerialize>::spec_emit(v.specdata1)->Done_0;
    reveal(spec_parse_nfs_spec_data);
    lemma_at_split(data, pos, b0, b0);
    assert(<u32 as XdrDeserialize>::spec_parse(data, pos) == Parse::Done(v.specdata1, pos + 4));
    assert(<u32 as XdrDeserialize>::spec_parse(data, pos + 4) == Parse::Done(v.specdata1, pos + 8));
}

/// A state id whose other part has its twelve bytes reads back as itself.
pub proof fn lemma_state_id_reads_back(v: SpecStateId)
    requires
        v.other.len() == 12,
    ensures
        spec_roundtrips::<StateId>(v),
{
    lemma_u32_roundtrips(v.seqid);
    lemma_array_roundtrips::<12>(v.other);
    lemma_state_id_roundtrips(v);
}

/// An open claim reads back as itself, wherever its names are shorter than
/// `u32::MAX` bytes and its state ids have their twelve bytes.
pub proof fn lemma_open_claim_reads_back(v: SpecOpenClaim)
    requires
        match v {
            SpecOpenClaim::Null(x) => x.len() < u32::MAX,
            SpecOpenClaim::PreviousDelegate(x) => x.len() < u32::MAX,
            SpecOpenClaim::CurrentDelegate(c) => c.file.len() < u32::MAX
                && c.delegate_state_id.other.len() == 12,
            SpecOpenClaim::CurrentDelegateFh(x) => x.other.len() == 12,
            _ => true,
        },
    ensures
        spec_roundtrips::<OpenClaim>(v),
{
    match v {
        SpecOpenClaim::Null(x) => lemma_opaque_roundtrips(x),
        SpecOpenClaim::PreviousDelegate(x) => lemma_opaque_roundtrips(x),
        SpecOpenClaim::Previous(x) => lemma_open_delegation_type_roundtrips(x),
        SpecOpenClaim::CurrentDelegate(c) => {
            lemma_state_id_reads_back(c.delegate_state_id);
            lemma_opaque_roundtrips(c.file);
            lemma_current_delegate_open_claim_roundtrips(c);
        },
        SpecOpenClaim::CurrentDelegateFh(x) => lemma_state_id_reads_back(x),
        _ => {},
    }
    lemma_open_claim_roundtrips(v);
}

} // verus!
