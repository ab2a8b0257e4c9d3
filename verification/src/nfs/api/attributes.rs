//! The attributes of file system objects: their names, and the values an
//! object has for them.
use vstd::prelude::*;
use crate::nfs::types::{
    NfsAce, NfsAclFlag, NfsChangePolicy, NfsExpirationPolicy, NfsFh, NfsFileSystemId,
    NfsFileType, NfsFsLocations, NfsFsLocationsInfo, NfsFsStatus, NfsLayoutHint, NfsLayoutType,
    NfsModeMasked, NfsSpecData, NfsTime, SpecNfsAce, SpecNfsFsLocations, SpecNfsFsLocationsInfo,
    SpecNfsFsStatus, SpecNfsLayoutHint,
};

use crate::xdr::MaxLenBytes;

verus! {

/// NFSv4.1 attribute names.
#[derive(Clone, Copy, Debug, PartialOrd, Ord, PartialEq, Eq, Structural)]
pub enum NfsAttribute {
    /// The list of supported `NfsAttribute`s for the filehandle.
    SupportedAttributes,
    /// The `NfsFileType` of the object.
    FileType,
    /// The `NfsExpirationPolicy` for this object.
    ExpirationPolicy,
    /// A `u64` value used to detect if the object contents have changed.
    ///
    /// This can be as simple as a timestamp on the object.
    Changed,
    /// The size of the object in bytes.
    Size,
    /// Whether hard links are supported.
    LinkSupport,
    /// Whether symbolic links are supported.
    SymlinkSupport,
    /// Wether this filehandle has any named attributes defined.
    ///
    /// Note that this means actually defined. Don't confuse this with wether
    /// named attributes are supported.
    NamedAttributes,
    /// An `NfsFilesystemId` identifying the filesystem.
    FileSystemId,
    /// Wether distinct filehandles are guaranteed to be different objects.
    ///
    /// This will depend on how users of this trait implement their filesystem
    /// tree.
    UniqueHandles,
    /// The time that a lease is valid for.
    LeaseTime,
    /// Used to signal errors during `NfsHandler::read_directory`.
    ReadAttributeError,
    /// Used to retrieve a file handle during `NfsHandler::read_directory`.
    FileHandle,
    /// The list of required and recommended `NfsAttribute`s that will be set
    /// during an exclusive create of a filesystem object.
    ExclusiveCreateAttributes,
    /// The list of Access Control Entities for this object.
    Acl,
    /// The level of Acl support for this object.
    AclSupport,
    /// Whether or not the object has been archived.
    Archive,
    /// Whether the filesystem allows setting a time.
    CanSetTime,
    /// Whether file system objects are case insensitive
    CaseInsensitive,
    /// Whether file system objects preserve their case
    CasePreserving,
    /// A value used to detect if filesystem policy has changed for the object.
    ChangePolicy,
    /// Whether or not a user must be root to issue chown commands
    ChownRestricted,
    /// Similar to Acl, but only supports ALLOW and DENY ACE's.
    DAcl,
    /// The minimum time in seconds the server will delay directory notifications.
    DirectoryNotificationDelay,
    /// The minimum time in seconds the server will delay entry notifications.
    DirectoryEntryNotificationDelay,
    /// A number that uniquely identifies the object.
    FileId,
    /// The number of available files that the current use can create.
    FilesAvailable,
    /// The total number of files that can be created on the filesystem.
    FilesFree,
    /// The total number of files that exist on the filesystem.
    FilesTotal,
    /// The filesystem's charset abilities.
    FileSystemCharsetAbilities,
    /// The type of filesystem layout type being used.
    FileSystemLayoutType,
    /// Locations where this file system maybe found.
    FileSystemLocations,
    /// Full function file system location.
    FileSystemLocationsInfo,
    /// Generic file system type information.
    FileSystemStatus,
    /// Whether this object is hidden by the Windows APIs
    Hidden,
    /// Whether all objects have the same per-file attributes
    Homogeneous,
    /// The preferred alignment for file system operations.
    LayoutAlignment,
    /// The preferred size of I/O operations
    LayoutBlockSize,
    /// Can be set on newly created objects to influecen metadata servers.
    LayoutHint,
    /// The types of layout available for a file.
    LayoutType,
    /// The maximum size of a file.
    MaxFileSize,
    /// The maximum number of links for an object.
    MaxLinks,
    /// The maximum object name length.
    MaxNameLength,
    /// Maximum amount of data returned by a read operation
    MaxReadLength,
    /// Maximum amount of data that can be written at once.
    MaxWriteLength,
    /// Metadata server threshold size, writes smaller than this go to the
    /// metadata server (if one exists).
    MetadataServerSizeThreshold,
    /// The mimetype of the object.
    MimeType,
    /// The mode of the file.
    Mode,
    /// Set bits in a mode without affecting others.
    ModeSetMasked,
    /// The file id that this file system is mounted on.
    MountedOnFileId,
    /// Whether names exceeding `MaxNameLength` are truncated or an error.
    NoTruncation,
    /// The number of hard links to the object
    NumLinks,
    /// The string name of the owner of this object
    Owner,
    /// The string name of the group ownership of this object.
    OwnerGroup,
    /// The hard limit on remaining disk space
    QuotaAvailableHard,
    /// The soft limit on remaining disk space.
    QuotaAvailableSoft,
    /// The value in bytes used for the applicable quota.
    QuotaUsed,
    /// The raw device info for an object.
    ///
    /// This is only used for block and character devices.
    RawDevice,
    /// Get the event based retention information.
    GetEventRetention,
    /// Set the event based retention information.
    SetEventRetention,
    /// Get the begining time of retention.
    GetRetention,
    /// Set the retention duration for an object.
    SetRetention,
    /// Set an administrative retention on an object.
    HoldRetention,
    /// A limited version of Acl that only applies audit and alarm ACE's
    SAcl,
    /// Space available to this user in bytes.
    FileSystemSpaceAvailable,
    /// Space available on this file system in bytes.
    FileSystemSpaceFree,
    /// Total amount of space the file system can use in bytes.
    FileSystemSpaceTotal,
    /// Total amount of space used by the file system.
    FileSystemSpaceUsed,
    /// Whether or not Windows should treat this as a "system" file.
    IsSystemFile,
    /// The last time this object was accessed.
    TimeAccess,
    /// Set the last time this object was accessed.
    SetTimeAccess,
    /// The last time this object was backed up.
    TimeBackup,
    /// The time this object was created.
    TimeCreate,
    /// The smallest time delta on this file system.
    TimeDelta,
    /// The last time the object's metadata was updated.
    TimeMetadata,
    /// The last time an object's data was modified.
    TimeModify,
    /// Set the time of last modificatin to the object's data.
    SetTimeModify,
    /// A sentinel value for unexpected attribute values sent by clients.
    Illegal,
}

impl DeepView for NfsAttribute {
    type V = NfsAttribute;

    open spec fn deep_view(&self) -> NfsAttribute {
        *self
    }
}

impl NfsAttribute {
    /// The number that stands for the value.
    pub open spec fn spec_to_u32(self) -> u32 {
        match self {
            NfsAttribute::SupportedAttributes => 0,
            NfsAttribute::FileType => 1,
            NfsAttribute::ExpirationPolicy => 2,
            NfsAttribute::Changed => 3,
            NfsAttribute::Size => 4,
            NfsAttribute::LinkSupport => 5,
            NfsAttribute::SymlinkSupport => 6,
            NfsAttribute::NamedAttributes => 7,
            NfsAttribute::FileSystemId => 8,
            NfsAttribute::UniqueHandles => 9,
            NfsAttribute::LeaseTime => 10,
            NfsAttribute::ReadAttributeError => 11,
            NfsAttribute::FileHandle => 19,
            NfsAttribute::ExclusiveCreateAttributes => 75,
            NfsAttribute::Acl => 12,
            NfsAttribute::AclSupport => 13,
            NfsAttribute::Archive => 14,
            NfsAttribute::CanSetTime => 15,
            NfsAttribute::CaseInsensitive => 16,
            NfsAttribute::CasePreserving => 17,
            NfsAttribute::ChangePolicy => 60,
            NfsAttribute::ChownRestricted => 18,
            NfsAttribute::DAcl => 58,
            NfsAttribute::DirectoryNotificationDelay => 56,
            NfsAttribute::DirectoryEntryNotificationDelay => 57,
            NfsAttribute::FileId => 20,
            NfsAttribute::FilesAvailable => 21,
            NfsAttribute::FilesFree => 22,
            NfsAttribute::FilesTotal => 23,
            NfsAttribute::FileSystemCharsetAbilities => 76,
            NfsAttribute::FileSystemLayoutType => 62,
            NfsAttribute::FileSystemLocations => 24,
            NfsAttribute::FileSystemLocationsInfo => 67,
            NfsAttribute::FileSystemStatus => 61,
            NfsAttribute::Hidden => 25,
            NfsAttribute::Homogeneous => 26,
            NfsAttribute::LayoutAlignment => 66,
            NfsAttribute::LayoutBlockSize => 65,
            NfsAttribute::LayoutHint => 63,
            NfsAttribute::LayoutType => 64,
            NfsAttribute::MaxFileSize => 27,
            NfsAttribute::MaxLinks => 28,
            NfsAttribute::MaxNameLength => 29,
            NfsAttribute::MaxReadLength => 30,
            NfsAttribute::MaxWriteLength => 31,
            NfsAttribute::MetadataServerSizeThreshold => 68,
            NfsAttribute::MimeType => 32,
            NfsAttribute::Mode => 33,
            NfsAttribute::ModeSetMasked => 74,
            NfsAttribute::MountedOnFileId => 55,
            NfsAttribute::NoTruncation => 34,
            NfsAttribute::NumLinks => 35,
            NfsAttribute::Owner => 36,
            NfsAttribute::OwnerGroup => 37,
            NfsAttribute::QuotaAvailableHard => 38,
            NfsAttribute::QuotaAvailableSoft => 39,
            NfsAttribute::QuotaUsed => 40,
            NfsAttribute::RawDevice => 41,
            NfsAttribute::GetEventRetention => 71,
            NfsAttribute::SetEventRetention => 72,
            NfsAttribute::GetRetention => 69,
            NfsAttribute::SetRetention => 70,
            NfsAttribute::HoldRetention => 73,
            NfsAttribute::SAcl => 59,
            NfsAttribute::FileSystemSpaceAvailable => 42,
            NfsAttribute::FileSystemSpaceFree => 43,
            NfsAttribute::FileSystemSpaceTotal => 44,
            NfsAttribute::FileSystemSpaceUsed => 45,
            NfsAttribute::IsSystemFile => 46,
            NfsAttribute::TimeAccess => 47,
            NfsAttribute::SetTimeAccess => 48,
            NfsAttribute::TimeBackup => 49,
            NfsAttribute::TimeCreate => 50,
            NfsAttribute::TimeDelta => 51,
            NfsAttribute::TimeMetadata => 52,
            NfsAttribute::TimeModify => 53,
            NfsAttribute::SetTimeModify => 54,
            NfsAttribute::Illegal => 255,
        }
    }

    /// The value that a number stands for, if any.
    pub open spec fn spec_from_u32(n: u32) -> Option<NfsAttribute> {
        if n == 0 {
            Some(NfsAttribute::SupportedAttributes)
        } else if n == 1 {
            Some(NfsAttribute::FileType)
        } else if n == 2 {
            Some(NfsAttribute::ExpirationPolicy)
        } else if n == 3 {
            Some(NfsAttribute::Changed)
        } else if n == 4 {
            Some(NfsAttribute::Size)
        } else if n == 5 {
            Some(NfsAttribute::LinkSupport)
        } else if n == 6 {
            Some(NfsAttribute::SymlinkSupport)
        } else if n == 7 {
            Some(NfsAttribute::NamedAttributes)
        } else if n == 8 {
            Some(NfsAttribute::FileSystemId)
        } else if n == 9 {
            Some(NfsAttribute::UniqueHandles)
        } else if n == 10 {
            Some(NfsAttribute::LeaseTime)
        } else if n == 11 {
            Some(NfsAttribute::ReadAttributeError)
        } else if n == 19 {
            Some(NfsAttribute::FileHandle)
        } else if n == 75 {
            Some(NfsAttribute::ExclusiveCreateAttributes)
        } else if n == 12 {
            Some(NfsAttribute::Acl)
        } else if n == 13 {
            Some(NfsAttribute::AclSupport)
        } else if n == 14 {
            Some(NfsAttribute::Archive)
        } else if n == 15 {
            Some(NfsAttribute::CanSetTime)
        } else if n == 16 {
            Some(NfsAttribute::CaseInsensitive)
        } else if n == 17 {
            Some(NfsAttribute::CasePreserving)
        } else if n == 60 {
            Some(NfsAttribute::ChangePolicy)
        } else if n == 18 {
            Some(NfsAttribute::ChownRestricted)
        } else if n == 58 {
            Some(NfsAttribute::DAcl)
        } else if n == 56 {
            Some(NfsAttribute::DirectoryNotificationDelay)
        } else if n == 57 {
            Some(NfsAttribute::DirectoryEntryNotificationDelay)
        } else if n == 20 {
            Some(NfsAttribute::FileId)
        } else if n == 21 {
            Some(NfsAttribute::FilesAvailable)
        } else if n == 22 {
            Some(NfsAttribute::FilesFree)
        } else if n == 23 {
            Some(NfsAttribute::FilesTotal)
        } else if n == 76 {
            Some(NfsAttribute::FileSystemCharsetAbilities)
        } else if n == 62 {
            Some(NfsAttribute::FileSystemLayoutType)
        } else if n == 24 {
            Some(NfsAttribute::FileSystemLocations)
        } else if n == 67 {
            Some(NfsAttribute::FileSystemLocationsInfo)
        } else if n == 61 {
            Some(NfsAttribute::FileSystemStatus)
        } else if n == 25 {
            Some(NfsAttribute::Hidden)
        } else if n == 26 {
            Some(NfsAttribute::Homogeneous)
        } else if n == 66 {
            Some(NfsAttribute::LayoutAlignment)
        } else if n == 65 {
            Some(NfsAttribute::LayoutBlockSize)
        } else if n == 63 {
            Some(NfsAttribute::LayoutHint)
        } else if n == 64 {
            Some(NfsAttribute::LayoutType)
        } else if n == 27 {
            Some(NfsAttribute::MaxFileSize)
        } else if n == 28 {
            Some(NfsAttribute::MaxLinks)
        } else if n == 29 {
            Some(NfsAttribute::MaxNameLength)
        } else if n == 30 {
            Some(NfsAttribute::MaxReadLength)
        } else if n == 31 {
            Some(NfsAttribute::MaxWriteLength)
        } else if n == 68 {
            Some(NfsAttribute::MetadataServerSizeThreshold)
        } else if n == 32 {
            Some(NfsAttribute::MimeType)
        } else if n == 33 {
            Some(NfsAttribute::Mode)
        } else if n == 74 {
            Some(NfsAttribute::ModeSetMasked)
        } else if n == 55 {
            Some(NfsAttribute::MountedOnFileId)
        } else if n == 34 {
            Some(NfsAttribute::NoTruncation)
        } else if n == 35 {
            Some(NfsAttribute::NumLinks)
        } else if n == 36 {
            Some(NfsAttribute::Owner)
        } else if n == 37 {
            Some(NfsAttribute::OwnerGroup)
        } else if n == 38 {
            Some(NfsAttribute::QuotaAvailableHard)
        } else if n == 39 {
            Some(NfsAttribute::QuotaAvailableSoft)
        } else if n == 40 {
            Some(NfsAttribute::QuotaUsed)
        } else if n == 41 {
            Some(NfsAttribute::RawDevice)
        } else if n == 71 {
            Some(NfsAttribute::GetEventRetention)
        } else if n == 72 {
            Some(NfsAttribute::SetEventRetention)
        } else if n == 69 {
            Some(NfsAttribute::GetRetention)
        } else if n == 70 {
            Some(NfsAttribute::SetRetention)
        } else if n == 73 {
            Some(NfsAttribute::HoldRetention)
        } else if n == 59 {
            Some(NfsAttribute::SAcl)
        } else if n == 42 {
            Some(NfsAttribute::FileSystemSpaceAvailable)
        } else if n == 43 {
            Some(NfsAttribute::FileSystemSpaceFree)
        } else if n == 44 {
            Some(NfsAttribute::FileSystemSpaceTotal)
        } else if n == 45 {
            Some(NfsAttribute::FileSystemSpaceUsed)
        } else if n == 46 {
            Some(NfsAttribute::IsSystemFile)
        } else if n == 47 {
            Some(NfsAttribute::TimeAccess)
        } else if n == 48 {
            Some(NfsAttribute::SetTimeAccess)
        } else if n == 49 {
            Some(NfsAttribute::TimeBackup)
        } else if n == 50 {
            Some(NfsAttribute::TimeCreate)
        } else if n == 51 {
            Some(NfsAttribute::TimeDelta)
        } else if n == 52 {
            Some(NfsAttribute::TimeMetadata)
        } else if n == 53 {
            Some(NfsAttribute::TimeModify)
        } else if n == 54 {
            Some(NfsAttribute::SetTimeModify)
        } else if n == 255 {
            Some(NfsAttribute::Illegal)
        } else {
            None
        }
    }

    /// The number that stands for the value.
    pub fn to_u32(&self) -> (n: u32)
        ensures
            n == self.spec_to_u32(),
    {
        match self {
            NfsAttribute::SupportedAttributes => 0,
            NfsAttribute::FileType => 1,
            NfsAttribute::ExpirationPolicy => 2,
            NfsAttribute::Changed => 3,
            NfsAttribute::Size => 4,
            NfsAttribute::LinkSupport => 5,
            NfsAttribute::SymlinkSupport => 6,
            NfsAttribute::NamedAttributes => 7,
            NfsAttribute::FileSystemId => 8,
            NfsAttribute::UniqueHandles => 9,
            NfsAttribute::LeaseTime => 10,
            NfsAttribute::ReadAttributeError => 11,
            NfsAttribute::FileHandle => 19,
            NfsAttribute::ExclusiveCreateAttributes => 75,
            NfsAttribute::Acl => 12,
            NfsAttribute::AclSupport => 13,
            NfsAttribute::Archive => 14,
            NfsAttribute::CanSetTime => 15,
            NfsAttribute::CaseInsensitive => 16,
            NfsAttribute::CasePreserving => 17,
            NfsAttribute::ChangePolicy => 60,
            NfsAttribute::ChownRestricted => 18,
            NfsAttribute::DAcl => 58,
            NfsAttribute::DirectoryNotificationDelay => 56,
            NfsAttribute::DirectoryEntryNotificationDelay => 57,
            NfsAttribute::FileId => 20,
            NfsAttribute::FilesAvailable => 21,
            NfsAttribute::FilesFree => 22,
            NfsAttribute::FilesTotal => 23,
            NfsAttribute::FileSystemCharsetAbilities => 76,
            NfsAttribute::FileSystemLayoutType => 62,
            NfsAttribute::FileSystemLocations => 24,
            NfsAttribute::FileSystemLocationsInfo => 67,
            NfsAttribute::FileSystemStatus => 61,
            NfsAttribute::Hidden => 25,
            NfsAttribute::Homogeneous => 26,
            NfsAttribute::LayoutAlignment => 66,
            NfsAttribute::LayoutBlockSize => 65,
            NfsAttribute::LayoutHint => 63,
            NfsAttribute::LayoutType => 64,
            NfsAttribute::MaxFileSize => 27,
            NfsAttribute::MaxLinks => 28,
            NfsAttribute::MaxNameLength => 29,
            NfsAttribute::MaxReadLength => 30,
            NfsAttribute::MaxWriteLength => 31,
            NfsAttribute::MetadataServerSizeThreshold => 68,
            NfsAttribute::MimeType => 32,
            NfsAttribute::Mode => 33,
            NfsAttribute::ModeSetMasked => 74,
            NfsAttribute::MountedOnFileId => 55,
            NfsAttribute::NoTruncation => 34,
            NfsAttribute::NumLinks => 35,
            NfsAttribute::Owner => 36,
            NfsAttribute::OwnerGroup => 37,
            NfsAttribute::QuotaAvailableHard => 38,
            NfsAttribute::QuotaAvailableSoft => 39,
            NfsAttribute::QuotaUsed => 40,
            NfsAttribute::RawDevice => 41,
            NfsAttribute::GetEventRetention => 71,
            NfsAttribute::SetEventRetention => 72,
            NfsAttribute::GetRetention => 69,
            NfsAttribute::SetRetention => 70,
            NfsAttribute::HoldRetention => 73,
            NfsAttribute::SAcl => 59,
            NfsAttribute::FileSystemSpaceAvailable => 42,
            NfsAttribute::FileSystemSpaceFree => 43,
            NfsAttribute::FileSystemSpaceTotal => 44,
            NfsAttribute::FileSystemSpaceUsed => 45,
            NfsAttribute::IsSystemFile => 46,
            NfsAttribute::TimeAccess => 47,
            NfsAttribute::SetTimeAccess => 48,
            NfsAttribute::TimeBackup => 49,
            NfsAttribute::TimeCreate => 50,
            NfsAttribute::TimeDelta => 51,
            NfsAttribute::TimeMetadata => 52,
            NfsAttribute::TimeModify => 53,
            NfsAttribute::SetTimeModify => 54,
            NfsAttribute::Illegal => 255,
        }
    }

    /// The value that `n` stands for, if any.
    pub fn from_u32(n: u32) -> (r: Option<NfsAttribute>)
        ensures
            r == NfsAttribute::spec_from_u32(n),
    {
        match n {
            0 => Some(NfsAttribute::SupportedAttributes),
            1 => Some(NfsAttribute::FileType),
            2 => Some(NfsAttribute::ExpirationPolicy),
            3 => Some(NfsAttribute::Changed),
            4 => Some(NfsAttribute::Size),
            5 => Some(NfsAttribute::LinkSupport),
            6 => Some(NfsAttribute::SymlinkSupport),
            7 => Some(NfsAttribute::NamedAttributes),
            8 => Some(NfsAttribute::FileSystemId),
            9 => Some(NfsAttribute::UniqueHandles),
            10 => Some(NfsAttribute::LeaseTime),
            11 => Some(NfsAttribute::ReadAttributeError),
            19 => Some(NfsAttribute::FileHandle),
            75 => Some(NfsAttribute::ExclusiveCreateAttributes),
            12 => Some(NfsAttribute::Acl),
            13 => Some(NfsAttribute::AclSupport),
            14 => Some(NfsAttribute::Archive),
            15 => Some(NfsAttribute::CanSetTime),
            16 => Some(NfsAttribute::CaseInsensitive),
            17 => Some(NfsAttribute::CasePreserving),
            60 => Some(NfsAttribute::ChangePolicy),
            18 => Some(NfsAttribute::ChownRestricted),
            58 => Some(NfsAttribute::DAcl),
            56 => Some(NfsAttribute::DirectoryNotificationDelay),
            57 => Some(NfsAttribute::DirectoryEntryNotificationDelay),
            20 => Some(NfsAttribute::FileId),
            21 => Some(NfsAttribute::FilesAvailable),
            22 => Some(NfsAttribute::FilesFree),
            23 => Some(NfsAttribute::FilesTotal),
            76 => Some(NfsAttribute::FileSystemCharsetAbilities),
            62 => Some(NfsAttribute::FileSystemLayoutType),
            24 => Some(NfsAttribute::FileSystemLocations),
            67 => Some(NfsAttribute::FileSystemLocationsInfo),
            61 => Some(NfsAttribute::FileSystemStatus),
            25 => Some(NfsAttribute::Hidden),
            26 => Some(NfsAttribute::Homogeneous),
            66 => Some(NfsAttribute::LayoutAlignment),
            65 => Some(NfsAttribute::LayoutBlockSize),
            63 => Some(NfsAttribute::LayoutHint),
            64 => Some(NfsAttribute::LayoutType),
            27 => Some(NfsAttribute::MaxFileSize),
            28 => Some(NfsAttribute::MaxLinks),
            29 => Some(NfsAttribute::MaxNameLength),
            30 => Some(NfsAttribute::MaxReadLength),
            31 => Some(NfsAttribute::MaxWriteLength),
            68 => Some(NfsAttribute::MetadataServerSizeThreshold),
            32 => Some(NfsAttribute::MimeType),
            33 => Some(NfsAttribute::Mode),
            74 => Some(NfsAttribute::ModeSetMasked),
            55 => Some(NfsAttribute::MountedOnFileId),
            34 => Some(NfsAttribute::NoTruncation),
            35 => Some(NfsAttribute::NumLinks),
            36 => Some(NfsAttribute::Owner),
            37 => Some(NfsAttribute::OwnerGroup),
            38 => Some(NfsAttribute::QuotaAvailableHard),
            39 => Some(NfsAttribute::QuotaAvailableSoft),
            40 => Some(NfsAttribute::QuotaUsed),
            41 => Some(NfsAttribute::RawDevice),
            71 => Some(NfsAttribute::GetEventRetention),
            72 => Some(NfsAttribute::SetEventRetention),
            69 => Some(NfsAttribute::GetRetention),
            70 => Some(NfsAttribute::SetRetention),
            73 => Some(NfsAttribute::HoldRetention),
            59 => Some(NfsAttribute::SAcl),
            42 => Some(NfsAttribute::FileSystemSpaceAvailable),
            43 => Some(NfsAttribute::FileSystemSpaceFree),
            44 => Some(NfsAttribute::FileSystemSpaceTotal),
            45 => Some(NfsAttribute::FileSystemSpaceUsed),
            46 => Some(NfsAttribute::IsSystemFile),
            47 => Some(NfsAttribute::TimeAccess),
            48 => Some(NfsAttribute::SetTimeAccess),
            49 => Some(NfsAttribute::TimeBackup),
            50 => Some(NfsAttribute::TimeCreate),
            51 => Some(NfsAttribute::TimeDelta),
            52 => Some(NfsAttribute::TimeMetadata),
            53 => Some(NfsAttribute::TimeModify),
            54 => Some(NfsAttribute::SetTimeModify),
            255 => Some(NfsAttribute::Illegal),
            _ => None,
        }
    }
}

/// The values of the attributes of a file system object.
///
/// The first fields are the attributes that every object has; the others are
/// present where the object has them.
#[derive(Clone, Debug)]
pub struct NfsAttributes {
    // The required attributes
    pub supported_attributes: Vec<NfsAttribute>,
    pub file_type: NfsFileType,
    pub expiration_policy: NfsExpirationPolicy,
    pub changed: u64,
    pub size: u64,
    pub link_support: bool,
    pub symlink_support: bool,
    pub named_attributes: bool,
    pub file_system_id: NfsFileSystemId,
    pub unique_handles: bool,
    pub lease_time: u32,
    pub file_handle: NfsFh,
    pub exclusive_create_attributes: Vec<NfsAttribute>,
    // Optional attributes
    pub acl: Option<Vec<NfsAce>>,
    pub acl_support: Option<u32>,
    pub archive: Option<bool>,
    pub can_set_time: Option<bool>,
    pub case_insensitive: Option<bool>,
    pub case_preserving: Option<bool>,
    pub change_policy: Option<NfsChangePolicy>,
    pub chown_restricted: Option<bool>,
    pub dacl: Option<(NfsAclFlag, Vec<NfsAce>)>,
    pub directory_notification_delay: Option<NfsTime>,
    pub directory_entry_notification_delay: Option<NfsTime>,
    pub file_id: Option<u64>,
    pub files_available: Option<u64>,
    pub files_free: Option<u64>,
    pub files_total: Option<u64>,
    pub file_system_charset_abilities: Option<u32>,
    pub file_system_layout_type: Option<Vec<NfsLayoutType>>,
    pub file_system_locations: Option<NfsFsLocations>,
    pub file_system_locations_info: Option<NfsFsLocationsInfo>,
    pub file_system_status: Option<NfsFsStatus>,
    pub hidden: Option<bool>,
    pub homogeneous: Option<bool>,
    pub layout_alignment: Option<u32>,
    pub layout_block_size: Option<u32>,
    pub layout_hint: Option<NfsLayoutHint>,
    pub layout_type: Option<Vec<NfsLayoutType>>,
    pub max_file_size: Option<u64>,
    pub max_links: Option<u32>,
    pub max_name_length: Option<u32>,
    pub max_read_length: Option<u64>,
    pub max_write_length: Option<u64>,
    // The metadata server size threshold is not exposed.
    pub mime_type: Option<String>,
    pub mode: Option<u32>,
    pub mode_set_masked: Option<NfsModeMasked>,
    pub mounted_on_file_id: Option<u64>,
    pub no_truncation: Option<bool>,
    pub num_links: Option<u32>,
    pub owner: Option<String>,
    pub owner_group: Option<String>,
    pub quota_available_hard: Option<u64>,
    pub quota_available_soft: Option<u64>,
    pub quota_used: Option<u64>,
    pub raw_device: Option<NfsSpecData>,
    // Retention attributes are not exposed.
    pub sacl: Option<(NfsAclFlag, Vec<NfsAce>)>,
    pub file_system_space_available: Option<u64>,
    pub file_system_space_free: Option<u64>,
    pub file_system_space_total: Option<u64>,
    pub file_system_space_used: Option<u64>,
    pub is_system_file: Option<bool>,
    pub time_access: Option<NfsTime>,
    pub set_time_access: Option<NfsTime>,
    pub time_backup: Option<NfsTime>,
    pub time_create: Option<NfsTime>,
    pub time_delta: Option<NfsTime>,
    pub time_metadata: Option<NfsTime>,
    pub time_modify: Option<NfsTime>,
    pub set_time_modify: Option<NfsTime>,
}

/// The deep view of [`NfsAttributes`].
pub struct SpecNfsAttributes {
    pub supported_attributes: Seq<NfsAttribute>,
    pub file_type: NfsFileType,
    pub expiration_policy: NfsExpirationPolicy,
    pub changed: u64,
    pub size: u64,
    pub link_support: bool,
    pub symlink_support: bool,
    pub named_attributes: bool,
    pub file_system_id: NfsFileSystemId,
    pub unique_handles: bool,
    pub lease_time: u32,
    pub file_handle: Seq<u8>,
    pub exclusive_create_attributes: Seq<NfsAttribute>,
    pub acl: Option<Seq<SpecNfsAce>>,
    pub acl_support: Option<u32>,
    pub archive: Option<bool>,
    pub can_set_time: Option<bool>,
    pub case_insensitive: Option<bool>,
    pub case_preserving: Option<bool>,
    pub change_policy: Option<NfsChangePolicy>,
    pub chown_restricted: Option<bool>,
    pub dacl: Option<(u32, Seq<SpecNfsAce>)>,
    pub directory_notification_delay: Option<NfsTime>,
    pub directory_entry_notification_delay: Option<NfsTime>,
    pub file_id: Option<u64>,
    pub files_available: Option<u64>,
    pub files_free: Option<u64>,
    pub files_total: Option<u64>,
    pub file_system_charset_abilities: Option<u32>,
    pub file_system_layout_type: Option<Seq<NfsLayoutType>>,
    pub file_system_locations: Option<SpecNfsFsLocations>,
    pub file_system_locations_info: Option<SpecNfsFsLocationsInfo>,
    pub file_system_status: Option<SpecNfsFsStatus>,
    pub hidden: Option<bool>,
    pub homogeneous: Option<bool>,
    pub layout_alignment: Option<u32>,
    pub layout_block_size: Option<u32>,
    pub layout_hint: Option<SpecNfsLayoutHint>,
    pub layout_type: Option<Seq<NfsLayoutType>>,
    pub max_file_size: Option<u64>,
    pub max_links: Option<u32>,
    pub max_name_length: Option<u32>,
    pub max_read_length: Option<u64>,
    pub max_write_length: Option<u64>,
    pub mime_type: Option<Seq<char>>,
    pub mode: Option<u32>,
    pub mode_set_masked: Option<NfsModeMasked>,
    pub mounted_on_file_id: Option<u64>,
    pub no_truncation: Option<bool>,
    pub num_links: Option<u32>,
    pub owner: Option<Seq<char>>,
    pub owner_group: Option<Seq<char>>,
    pub quota_available_hard: Option<u64>,
    pub quota_available_soft: Option<u64>,
    pub quota_used: Option<u64>,
    pub raw_device: Option<NfsSpecData>,
    pub sacl: Option<(u32, Seq<SpecNfsAce>)>,
    pub file_system_space_available: Option<u64>,
    pub file_system_space_free: Option<u64>,
    pub file_system_space_total: Option<u64>,
    pub file_system_space_used: Option<u64>,
    pub is_system_file: Option<bool>,
    pub time_access: Option<NfsTime>,
    pub set_time_access: Option<NfsTime>,
    pub time_backup: Option<NfsTime>,
    pub time_create: Option<NfsTime>,
    pub time_delta: Option<NfsTime>,
    pub time_metadata: Option<NfsTime>,
    pub time_modify: Option<NfsTime>,
    pub set_time_modify: Option<NfsTime>,
}

impl DeepView for NfsAttributes {
    type V = SpecNfsAttributes;

    open spec fn deep_view(&self) -> SpecNfsAttributes {
        SpecNfsAttributes {
            supported_attributes: self.supported_attributes.deep_view(),
            file_type: self.file_type.deep_view(),
            expiration_policy: self.expiration_policy.deep_view(),
            changed: self.changed.deep_view(),
            size: self.size.deep_view(),
            link_support: self.link_support.deep_view(),
            symlink_support: self.symlink_support.deep_view(),
            named_attributes: self.named_attributes.deep_view(),
            file_system_id: self.file_system_id.deep_view(),
            unique_handles: self.unique_handles.deep_view(),
            lease_time: self.lease_time.deep_view(),
            file_handle: self.file_handle.deep_view(),
            exclusive_create_attributes: self.exclusive_create_attributes.deep_view(),
            acl: self.acl.deep_view(),
            acl_support: self.acl_support.deep_view(),
            archive: self.archive.deep_view(),
            can_set_time: self.can_set_time.deep_view(),
            case_insensitive: self.case_insensitive.deep_view(),
            case_preserving: self.case_preserving.deep_view(),
            change_policy: self.change_policy.deep_view(),
            chown_restricted: self.chown_restricted.deep_view(),
            dacl: self.dacl.deep_view(),
            directory_notification_delay: self.directory_notification_delay.deep_view(),
            directory_entry_notification_delay: self.directory_entry_notification_delay.deep_view(),
            file_id: self.file_id.deep_view(),
            files_available: self.files_available.deep_view(),
            files_free: self.files_free.deep_view(),
            files_total: self.files_total.deep_view(),
            file_system_charset_abilities: self.file_system_charset_abilities.deep_view(),
            file_system_layout_type: self.file_system_layout_type.deep_view(),
            file_system_locations: self.file_system_locations.deep_view(),
            file_system_locations_info: self.file_system_locations_info.deep_view(),
            file_system_status: self.file_system_status.deep_view(),
            hidden: self.hidden.deep_view(),
            homogeneous: self.homogeneous.deep_view(),
            layout_alignment: self.layout_alignment.deep_view(),
            layout_block_size: self.layout_block_size.deep_view(),
            layout_hint: self.layout_hint.deep_view(),
            layout_type: self.layout_type.deep_view(),
            max_file_size: self.max_file_size.deep_view(),
            max_links: self.max_links.deep_view(),
            max_name_length: self.max_name_length.deep_view(),
            max_read_length: self.max_read_length.deep_view(),
            max_write_length: self.max_write_length.deep_view(),
            mime_type: self.mime_type.deep_view(),
            mode: self.mode.deep_view(),
            mode_set_masked: self.mode_set_masked.deep_view(),
            mounted_on_file_id: self.mounted_on_file_id.deep_view(),
            no_truncation: self.no_truncation.deep_view(),
            num_links: self.num_links.deep_view(),
            owner: self.owner.deep_view(),
            owner_group: self.owner_group.deep_view(),
            quota_available_hard: self.quota_available_hard.deep_view(),
            quota_available_soft: self.quota_available_soft.deep_view(),
            quota_used: self.quota_used.deep_view(),
            raw_device: self.raw_device.deep_view(),
            sacl: self.sacl.deep_view(),
            file_system_space_available: self.file_system_space_available.deep_view(),
            file_system_space_free: self.file_system_space_free.deep_view(),
            file_system_space_total: self.file_system_space_total.deep_view(),
            file_system_space_used: self.file_system_space_used.deep_view(),
            is_system_file: self.is_system_file.deep_view(),
            time_access: self.time_access.deep_view(),
            set_time_access: self.set_time_access.deep_view(),
            time_backup: self.time_backup.deep_view(),
            time_create: self.time_create.deep_view(),
            time_delta: self.time_delta.deep_view(),
            time_metadata: self.time_metadata.deep_view(),
            time_modify: self.time_modify.deep_view(),
            set_time_modify: self.set_time_modify.deep_view(),
        }
    }
}


impl Default for NfsAttributes {
    /// An object with no supported attributes, a regular persistent file of
    /// size 0 in file system 0, with an empty handle, no link or named
    /// attribute support, a lease time of 0, and none of the optional
    /// attributes.
    fn default() -> (r: Self)
        ensures
            r.deep_view() == (SpecNfsAttributes {
                supported_attributes: Seq::empty(),
                file_type: NfsFileType::Regular,
                expiration_policy: NfsExpirationPolicy::Persistent,
                changed: 0,
                size: 0,
                link_support: false,
                symlink_support: false,
                named_attributes: false,
                file_system_id: NfsFileSystemId { major: 0, minor: 0 },
                unique_handles: false,
                lease_time: 0,
                file_handle: Seq::empty(),
                exclusive_create_attributes: Seq::empty(),
                acl: None,
                acl_support: None,
                archive: None,
                can_set_time: None,
                case_insensitive: None,
                case_preserving: None,
                change_policy: None,
                chown_restricted: None,
                dacl: None,
                directory_notification_delay: None,
                directory_entry_notification_delay: None,
                file_id: None,
                files_available: None,
                files_free: None,
                files_total: None,
                file_system_charset_abilities: None,
                file_system_layout_type: None,
                file_system_locations: None,
                file_system_locations_info: None,
                file_system_status: None,
                hidden: None,
                homogeneous: None,
                layout_alignment: None,
                layout_block_size: None,
                layout_hint: None,
                layout_type: None,
                max_file_size: None,
                max_links: None,
                max_name_length: None,
                max_read_length: None,
                max_write_length: None,
                mime_type: None,
                mode: None,
                mode_set_masked: None,
                mounted_on_file_id: None,
                no_truncation: None,
                num_links: None,
                owner: None,
                owner_group: None,
                quota_available_hard: None,
                quota_available_soft: None,
                quota_used: None,
                raw_device: None,
                sacl: None,
                file_system_space_available: None,
                file_system_space_free: None,
                file_system_space_total: None,
                file_system_space_used: None,
                is_system_file: None,
                time_access: None,
                set_time_access: None,
                time_backup: None,
                time_create: None,
                time_delta: None,
                time_metadata: None,
                time_modify: None,
                set_time_modify: None,
            }),
    {
        let r = Self {
            supported_attributes: Vec::new(),
            file_type: NfsFileType::Regular,
            expiration_policy: NfsExpirationPolicy::Persistent,
            changed: 0,
            size: 0,
            link_support: false,
            symlink_support: false,
            named_attributes: false,
            file_system_id: NfsFileSystemId { major: 0, minor: 0 },
            unique_handles: false,
            lease_time: 0,
            file_handle: MaxLenBytes::empty(),
            exclusive_create_attributes: Vec::new(),
            acl: None,
            acl_support: None,
            archive: None,
            can_set_time: None,
            case_insensitive: None,
            case_preserving: None,
            change_policy: None,
            chown_restricted: None,
            dacl: None,
            directory_notification_delay: None,
            directory_entry_notification_delay: None,
            file_id: None,
            files_available: None,
            files_free: None,
            files_total: None,
            file_system_charset_abilities: None,
            file_system_layout_type: None,
            file_system_locations: None,
            file_system_locations_info: None,
            file_system_status: None,
            hidden: None,
            homogeneous: None,
            layout_alignment: None,
            layout_block_size: None,
            layout_hint: None,
            layout_type: None,
            max_file_size: None,
            max_links: None,
            max_name_length: None,
            max_read_length: None,
            max_write_length: None,
            mime_type: None,
            mode: None,
            mode_set_masked: None,
            mounted_on_file_id: None,
            no_truncation: None,
            num_links: None,
            owner: None,
            owner_group: None,
            quota_available_hard: None,
            quota_available_soft: None,
            quota_used: None,
            raw_device: None,
            sacl: None,
            file_system_space_available: None,
            file_system_space_free: None,
            file_system_space_total: None,
            file_system_space_used: None,
            is_system_file: None,
            time_access: None,
            set_time_access: None,
            time_backup: None,
            time_create: None,
            time_delta: None,
            time_metadata: None,
            time_modify: None,
            set_time_modify: None,
        };
        assert(r.supported_attributes.deep_view() =~= Seq::<NfsAttribute>::empty());
        assert(r.exclusive_create_attributes.deep_view() =~= Seq::<NfsAttribute>::empty());
        r
    }
}

} // verus!
