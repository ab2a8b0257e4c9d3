//! The numbers that the protocols give the values of their enumerations on
//! the wire (RFC 5531 for RPC, RFC 8881 for NFSv4.1).
use vstd::prelude::*;
use crate::nfs::api::NfsAttribute;
use crate::nfs::ops::{NfsOperation};
use crate::nfs::status::{NfsStatus};
use crate::nfs::types::{ChannelDirectionFromClient, ChannelDirectionFromServer, CreateMode, FsStatusType, GetDirectoryDelegationStatus, LayoutIoMode, LimitBy, NfsExpirationPolicy, NfsFileType, NfsLayoutType, NfsLockType, OpenClaimType, OpenDelegationType, OpenType, RpcGssSvc, SecurityInfoNoNameStyle, SsvSubkey, StableHow, StateProtectHow, WhyNoDelegation};
use crate::rpc::{AcceptState, AuthFlavor, AuthState, MessageType, RejectState, ReplyState};

verus! {

/// The numbers of [`AcceptState`] on the wire, as the protocol gives them: each
/// value is written as its number, and each number reads back as its value;
/// every other number names no value.
pub proof fn lemma_accept_state_numbers()
    ensures
        AcceptState::Success.spec_to_u32() == 0,
        AcceptState::ProgramUnavailable.spec_to_u32() == 1,
        AcceptState::ProgramMismatch.spec_to_u32() == 2,
        AcceptState::ProcedureUnavailable.spec_to_u32() == 3,
        AcceptState::GarbageArguments.spec_to_u32() == 4,
        AcceptState::spec_from_u32(0) == Some(AcceptState::Success),
        AcceptState::spec_from_u32(1) == Some(AcceptState::ProgramUnavailable),
        AcceptState::spec_from_u32(2) == Some(AcceptState::ProgramMismatch),
        AcceptState::spec_from_u32(3) == Some(AcceptState::ProcedureUnavailable),
        AcceptState::spec_from_u32(4) == Some(AcceptState::GarbageArguments),
        forall|n: u32| #![trigger AcceptState::spec_from_u32(n)] n != 0 && n != 1 && n != 2 && n != 3 && n != 4 ==> AcceptState::spec_from_u32(n) is None,
{
}

/// The numbers of [`AuthFlavor`] on the wire, as the protocol gives them: each
/// value is written as its number, and each number reads back as its value;
/// every other number names no value.
pub proof fn lemma_auth_flavor_numbers()
    ensures
        AuthFlavor::Null.spec_to_u32() == 0,
        AuthFlavor::Unix.spec_to_u32() == 1,
        AuthFlavor::Short.spec_to_u32() == 2,
        AuthFlavor::Des.spec_to_u32() == 3,
        AuthFlavor::RpcSecGss.spec_to_u32() == 6,
        AuthFlavor::spec_from_u32(0) == Some(AuthFlavor::Null),
        AuthFlavor::spec_from_u32(1) == Some(AuthFlavor::Unix),
        AuthFlavor::spec_from_u32(2) == Some(AuthFlavor::Short),
        AuthFlavor::spec_from_u32(3) == Some(AuthFlavor::Des),
        AuthFlavor::spec_from_u32(6) == Some(AuthFlavor::RpcSecGss),
        forall|n: u32| #![trigger AuthFlavor::spec_from_u32(n)] n != 0 && n != 1 && n != 2 && n != 3 && n != 6 ==> AuthFlavor::spec_from_u32(n) is None,
{
}

/// The numbers of [`AuthState`] on the wire, as the protocol gives them: each
/// value is written as its number, and each number reads back as its value;
/// every other number names no value.
pub proof fn lemma_auth_state_numbers()
    ensures
        AuthState::BadCredentials.spec_to_u32() == 0,
        AuthState::RejectedCredentials.spec_to_u32() == 1,
        AuthState::BadVerifier.spec_to_u32() == 2,
        AuthState::RejectedVerifier.spec_to_u32() == 4,
        AuthState::TooWeak.spec_to_u32() == 5,
        AuthState::spec_from_u32(0) == Some(AuthState::BadCredentials),
        AuthState::spec_from_u32(1) == Some(AuthState::RejectedCredentials),
        AuthState::spec_from_u32(2) == Some(AuthState::BadVerifier),
        AuthState::spec_from_u32(4) == Some(AuthState::RejectedVerifier),
        AuthState::spec_from_u32(5) == Some(AuthState::TooWeak),
        forall|n: u32| #![trigger AuthState::spec_from_u32(n)] n != 0 && n != 1 && n != 2 && n != 4 && n != 5 ==> AuthState::spec_from_u32(n) is None,
{
}

/// The numbers of [`ChannelDirectionFromClient`] on the wire, as the protocol gives them: each
/// value is written as its number, and each number reads back as its value;
/// every other number names no value.
pub proof fn lemma_channel_direction_from_client_numbers()
    ensures
        ChannelDirectionFromClient::Fore.spec_to_u32() == 1,
        ChannelDirectionFromClient::Back.spec_to_u32() == 2,
        ChannelDirectionFromClient::ForeOrBoth.spec_to_u32() == 3,
        ChannelDirectionFromClient::BackOrBoth.spec_to_u32() == 7,
        ChannelDirectionFromClient::spec_from_u32(1) == Some(ChannelDirectionFromClient::Fore),
        ChannelDirectionFromClient::spec_from_u32(2) == Some(ChannelDirectionFromClient::Back),
        ChannelDirectionFromClient::spec_from_u32(3) == Some(ChannelDirectionFromClient::ForeOrBoth),
        ChannelDirectionFromClient::spec_from_u32(7) == Some(ChannelDirectionFromClient::BackOrBoth),
        forall|n: u32| #![trigger ChannelDirectionFromClient::spec_from_u32(n)] n != 1 && n != 2 && n != 3 && n != 7 ==> ChannelDirectionFromClient::spec_from_u32(n) is None,
{
}

/// The numbers of [`ChannelDirectionFromServer`] on the wire, as the protocol gives them: each
/// value is written as its number, and each number reads back as its value;
/// every other number names no value.
pub proof fn lemma_channel_direction_from_server_numbers()
    ensures
        ChannelDirectionFromServer::Fore.spec_to_u32() == 1,
        ChannelDirectionFromServer::Back.spec_to_u32() == 2,
        ChannelDirectionFromServer::Both.spec_to_u32() == 3,
        ChannelDirectionFromServer::spec_from_u32(1) == Some(ChannelDirectionFromServer::Fore),
        ChannelDirectionFromServer::spec_from_u32(2) == Some(ChannelDirectionFromServer::Back),
        ChannelDirectionFromServer::spec_from_u32(3) == Some(ChannelDirectionFromServer::Both),
        forall|n: u32| #![trigger ChannelDirectionFromServer::spec_from_u32(n)] n != 1 && n != 2 && n != 3 ==> ChannelDirectionFromServer::spec_from_u32(n) is None,
{
}

/// The numbers of [`CreateMode`] on the wire, as the protocol gives them: each
/// value is written as its number, and each number reads back as its value;
/// every other number names no value.
pub proof fn lemma_create_mode_numbers()
    ensures
        CreateMode::Unchecked.spec_to_u32() == 0,
        CreateMode::Guarded.spec_to_u32() == 1,
        CreateMode::Exclusive4.spec_to_u32() == 2,
        CreateMode::Exclusive4_1.spec_to_u32() == 3,
        CreateMode::spec_from_u32(0) == Some(CreateMode::Unchecked),
        CreateMode::spec_from_u32(1) == Some(CreateMode::Guarded),
        CreateMode::spec_from_u32(2) == Some(CreateMode::Exclusive4),
        CreateMode::spec_from_u32(3) == Some(CreateMode::Exclusive4_1),
        forall|n: u32| #![trigger CreateMode::spec_from_u32(n)] n != 0 && n != 1 && n != 2 && n != 3 ==> CreateMode::spec_from_u32(n) is None,
{
}

/// The numbers of [`FsStatusType`] on the wire, as the protocol gives them: each
/// value is written as its number, and each number reads back as its value;
/// every other number names no value.
pub proof fn lemma_fs_status_type_numbers()
    ensures
        FsStatusType::Fixed.spec_to_u32() == 1,
        FsStatusType::Updated.spec_to_u32() == 2,
        FsStatusType::Versioned.spec_to_u32() == 3,
        FsStatusType::Writable.spec_to_u32() == 4,
        FsStatusType::Referral.spec_to_u32() == 5,
        FsStatusType::spec_from_u32(1) == Some(FsStatusType::Fixed),
        FsStatusType::spec_from_u32(2) == Some(FsStatusType::Updated),
        FsStatusType::spec_from_u32(3) == Some(FsStatusType::Versioned),
        FsStatusType::spec_from_u32(4) == Some(FsStatusType::Writable),
        FsStatusType::spec_from_u32(5) == Some(FsStatusType::Referral),
        forall|n: u32| #![trigger FsStatusType::spec_from_u32(n)] n != 1 && n != 2 && n != 3 && n != 4 && n != 5 ==> FsStatusType::spec_from_u32(n) is None,
{
}

/// The numbers of [`GetDirectoryDelegationStatus`] on the wire, as the protocol gives them: each
/// value is written as its number, and each number reads back as its value;
/// every other number names no value.
pub proof fn lemma_get_directory_delegation_status_numbers()
    ensures
        GetDirectoryDelegationStatus::Success.spec_to_u32() == 0,
        GetDirectoryDelegationStatus::Unavailable.spec_to_u32() == 1,
        GetDirectoryDelegationStatus::spec_from_u32(0) == Some(GetDirectoryDelegationStatus::Success),
        GetDirectoryDelegationStatus::spec_from_u32(1) == Some(GetDirectoryDelegationStatus::Unavailable),
        forall|n: u32| #![trigger GetDirectoryDelegationStatus::spec_from_u32(n)] n != 0 && n != 1 ==> GetDirectoryDelegationStatus::spec_from_u32(n) is None,
{
}

/// The numbers of [`LayoutIoMode`] on the wire, as the protocol gives them: each
/// value is written as its number, and each number reads back as its value;
/// every other number names no value.
pub proof fn lemma_layout_io_mode_numbers()
    ensures
        LayoutIoMode::Read.spec_to_u32() == 1,
        LayoutIoMode::Rw.spec_to_u32() == 2,
        LayoutIoMode::Any.spec_to_u32() == 3,
        LayoutIoMode::spec_from_u32(1) == Some(LayoutIoMode::Read),
        LayoutIoMode::spec_from_u32(2) == Some(LayoutIoMode::Rw),
        LayoutIoMode::spec_from_u32(3) == Some(LayoutIoMode::Any),
        forall|n: u32| #![trigger LayoutIoMode::spec_from_u32(n)] n != 1 && n != 2 && n != 3 ==> LayoutIoMode::spec_from_u32(n) is None,
{
}

/// The numbers of [`LimitBy`] on the wire, as the protocol gives them: each
/// value is written as its number, and each number reads back as its value;
/// every other number names no value.
pub proof fn lemma_limit_by_numbers()
    ensures
        LimitBy::Size.spec_to_u32() == 1,
        LimitBy::Blocks.spec_to_u32() == 2,
        LimitBy::spec_from_u32(1) == Some(LimitBy::Size),
        LimitBy::spec_from_u32(2) == Some(LimitBy::Blocks),
        forall|n: u32| #![trigger LimitBy::spec_from_u32(n)] n != 1 && n != 2 ==> LimitBy::spec_from_u32(n) is None,
{
}

/// The numbers of [`MessageType`] on the wire, as the protocol gives them: each
/// value is written as its number, and each number reads back as its value;
/// every other number names no value.
pub proof fn lemma_message_type_numbers()
    ensures
        MessageType::Call.spec_to_u32() == 0,
        MessageType::Reply.spec_to_u32() == 1,
        MessageType::spec_from_u32(0) == Some(MessageType::Call),
        MessageType::spec_from_u32(1) == Some(MessageType::Reply),
        forall|n: u32| #![trigger MessageType::spec_from_u32(n)] n != 0 && n != 1 ==> MessageType::spec_from_u32(n) is None,
{
}

/// The numbers of [`NfsAttribute`] on the wire, as the protocol gives them: each
/// value is written as its number, and each number reads back as its value;
/// every other number names no value.
pub proof fn lemma_nfs_attribute_numbers()
    ensures
        NfsAttribute::SupportedAttributes.spec_to_u32() == 0,
        NfsAttribute::FileType.spec_to_u32() == 1,
        NfsAttribute::ExpirationPolicy.spec_to_u32() == 2,
        NfsAttribute::Changed.spec_to_u32() == 3,
        NfsAttribute::Size.spec_to_u32() == 4,
        NfsAttribute::LinkSupport.spec_to_u32() == 5,
        NfsAttribute::SymlinkSupport.spec_to_u32() == 6,
        NfsAttribute::NamedAttributes.spec_to_u32() == 7,
        NfsAttribute::FileSystemId.spec_to_u32() == 8,
        NfsAttribute::UniqueHandles.spec_to_u32() == 9,
        NfsAttribute::LeaseTime.spec_to_u32() == 10,
        NfsAttribute::ReadAttributeError.spec_to_u32() == 11,
        NfsAttribute::FileHandle.spec_to_u32() == 19,
        NfsAttribute::ExclusiveCreateAttributes.spec_to_u32() == 75,
        NfsAttribute::Acl.spec_to_u32() == 12,
        NfsAttribute::AclSupport.spec_to_u32() == 13,
        NfsAttribute::Archive.spec_to_u32() == 14,
        NfsAttribute::CanSetTime.spec_to_u32() == 15,
        NfsAttribute::CaseInsensitive.spec_to_u32() == 16,
        NfsAttribute::CasePreserving.spec_to_u32() == 17,
        NfsAttribute::ChangePolicy.spec_to_u32() == 60,
        NfsAttribute::ChownRestricted.spec_to_u32() == 18,
        NfsAttribute::DAcl.spec_to_u32() == 58,
        NfsAttribute::DirectoryNotificationDelay.spec_to_u32() == 56,
        NfsAttribute::DirectoryEntryNotificationDelay.spec_to_u32() == 57,
        NfsAttribute::FileId.spec_to_u32() == 20,
        NfsAttribute::FilesAvailable.spec_to_u32() == 21,
        NfsAttribute::FilesFree.spec_to_u32() == 22,
        NfsAttribute::FilesTotal.spec_to_u32() == 23,
        NfsAttribute::FileSystemCharsetAbilities.spec_to_u32() == 76,
        NfsAttribute::FileSystemLayoutType.spec_to_u32() == 62,
        NfsAttribute::FileSystemLocations.spec_to_u32() == 24,
        NfsAttribute::FileSystemLocationsInfo.spec_to_u32() == 67,
        NfsAttribute::FileSystemStatus.spec_to_u32() == 61,
        NfsAttribute::Hidden.spec_to_u32() == 25,
        NfsAttribute::Homogeneous.spec_to_u32() == 26,
        NfsAttribute::LayoutAlignment.spec_to_u32() == 66,
        NfsAttribute::LayoutBlockSize.spec_to_u32() == 65,
        NfsAttribute::LayoutHint.spec_to_u32() == 63,
        NfsAttribute::LayoutType.spec_to_u32() == 64,
        NfsAttribute::MaxFileSize.spec_to_u32() == 27,
        NfsAttribute::MaxLinks.spec_to_u32() == 28,
        NfsAttribute::MaxNameLength.spec_to_u32() == 29,
        NfsAttribute::MaxReadLength.spec_to_u32() == 30,
        NfsAttribute::MaxWriteLength.spec_to_u32() == 31,
        NfsAttribute::MetadataServerSizeThreshold.spec_to_u32() == 68,
        NfsAttribute::MimeType.spec_to_u32() == 32,
        NfsAttribute::Mode.spec_to_u32() == 33,
        NfsAttribute::ModeSetMasked.spec_to_u32() == 74,
        NfsAttribute::MountedOnFileId.spec_to_u32() == 55,
        NfsAttribute::NoTruncation.spec_to_u32() == 34,
        NfsAttribute::NumLinks.spec_to_u32() == 35,
        NfsAttribute::Owner.spec_to_u32() == 36,
        NfsAttribute::OwnerGroup.spec_to_u32() == 37,
        NfsAttribute::QuotaAvailableHard.spec_to_u32() == 38,
        NfsAttribute::QuotaAvailableSoft.spec_to_u32() == 39,
        NfsAttribute::QuotaUsed.spec_to_u32() == 40,
        NfsAttribute::RawDevice.spec_to_u32() == 41,
        NfsAttribute::GetEventRetention.spec_to_u32() == 71,
        NfsAttribute::SetEventRetention.spec_to_u32() == 72,
        NfsAttribute::GetRetention.spec_to_u32() == 69,
        NfsAttribute::SetRetention.spec_to_u32() == 70,
        NfsAttribute::HoldRetention.spec_to_u32() == 73,
        NfsAttribute::SAcl.spec_to_u32() == 59,
        NfsAttribute::FileSystemSpaceAvailable.spec_to_u32() == 42,
        NfsAttribute::FileSystemSpaceFree.spec_to_u32() == 43,
        NfsAttribute::FileSystemSpaceTotal.spec_to_u32() == 44,
        NfsAttribute::FileSystemSpaceUsed.spec_to_u32() == 45,
        NfsAttribute::IsSystemFile.spec_to_u32() == 46,
        NfsAttribute::TimeAccess.spec_to_u32() == 47,
        NfsAttribute::SetTimeAccess.spec_to_u32() == 48,
        NfsAttribute::TimeBackup.spec_to_u32() == 49,
        NfsAttribute::TimeCreate.spec_to_u32() == 50,
        NfsAttribute::TimeDelta.spec_to_u32() == 51,
        NfsAttribute::TimeMetadata.spec_to_u32() == 52,
        NfsAttribute::TimeModify.spec_to_u32() == 53,
        NfsAttribute::SetTimeModify.spec_to_u32() == 54,
        NfsAttribute::Illegal.spec_to_u32() == 255,
        NfsAttribute::spec_from_u32(0) == Some(NfsAttribute::SupportedAttributes),
        NfsAttribute::spec_from_u32(1) == Some(NfsAttribute::FileType),
        NfsAttribute::spec_from_u32(2) == Some(NfsAttribute::ExpirationPolicy),
        NfsAttribute::spec_from_u32(3) == Some(NfsAttribute::Changed),
        NfsAttribute::spec_from_u32(4) == Some(NfsAttribute::Size),
        NfsAttribute::spec_from_u32(5) == Some(NfsAttribute::LinkSupport),
        NfsAttribute::spec_from_u32(6) == Some(NfsAttribute::SymlinkSupport),
        NfsAttribute::spec_from_u32(7) == Some(NfsAttribute::NamedAttributes),
        NfsAttribute::spec_from_u32(8) == Some(NfsAttribute::FileSystemId),
        NfsAttribute::spec_from_u32(9) == Some(NfsAttribute::UniqueHandles),
        NfsAttribute::spec_from_u32(10) == Some(NfsAttribute::LeaseTime),
        NfsAttribute::spec_from_u32(11) == Some(NfsAttribute::ReadAttributeError),
        NfsAttribute::spec_from_u32(19) == Some(NfsAttribute::FileHandle),
        NfsAttribute::spec_from_u32(75) == Some(NfsAttribute::ExclusiveCreateAttributes),
        NfsAttribute::spec_from_u32(12) == Some(NfsAttribute::Acl),
        NfsAttribute::spec_from_u32(13) == Some(NfsAttribute::AclSupport),
        NfsAttribute::spec_from_u32(14) == Some(NfsAttribute::Archive),
        NfsAttribute::spec_from_u32(15) == Some(NfsAttribute::CanSetTime),
        NfsAttribute::spec_from_u32(16) == Some(NfsAttribute::CaseInsensitive),
        NfsAttribute::spec_from_u32(17) == Some(NfsAttribute::CasePreserving),
        NfsAttribute::spec_from_u32(60) == Some(NfsAttribute::ChangePolicy),
        NfsAttribute::spec_from_u32(18) == Some(NfsAttribute::ChownRestricted),
        NfsAttribute::spec_from_u32(58) == Some(NfsAttribute::DAcl),
        NfsAttribute::spec_from_u32(56) == Some(NfsAttribute::DirectoryNotificationDelay),
        NfsAttribute::spec_from_u32(57) == Some(NfsAttribute::DirectoryEntryNotificationDelay),
        NfsAttribute::spec_from_u32(20) == Some(NfsAttribute::FileId),
        NfsAttribute::spec_from_u32(21) == Some(NfsAttribute::FilesAvailable),
        NfsAttribute::spec_from_u32(22) == Some(NfsAttribute::FilesFree),
        NfsAttribute::spec_from_u32(23) == Some(NfsAttribute::FilesTotal),
        NfsAttribute::spec_from_u32(76) == Some(NfsAttribute::FileSystemCharsetAbilities),
        NfsAttribute::spec_from_u32(62) == Some(NfsAttribute::FileSystemLayoutType),
        NfsAttribute::spec_from_u32(24) == Some(NfsAttribute::FileSystemLocations),
        NfsAttribute::spec_from_u32(67) == Some(NfsAttribute::FileSystemLocationsInfo),
        NfsAttribute::spec_from_u32(61) == Some(NfsAttribute::FileSystemStatus),
        NfsAttribute::spec_from_u32(25) == Some(NfsAttribute::Hidden),
        NfsAttribute::spec_from_u32(26) == Some(NfsAttribute::Homogeneous),
        NfsAttribute::spec_from_u32(66) == Some(NfsAttribute::LayoutAlignment),
        NfsAttribute::spec_from_u32(65) == Some(NfsAttribute::LayoutBlockSize),
        NfsAttribute::spec_from_u32(63) == Some(NfsAttribute::LayoutHint),
        NfsAttribute::spec_from_u32(64) == Some(NfsAttribute::LayoutType),
        NfsAttribute::spec_from_u32(27) == Some(NfsAttribute::MaxFileSize),
        NfsAttribute::spec_from_u32(28) == Some(NfsAttribute::MaxLinks),
        NfsAttribute::spec_from_u32(29) == Some(NfsAttribute::MaxNameLength),
        NfsAttribute::spec_from_u32(30) == Some(NfsAttribute::MaxReadLength),
        NfsAttribute::spec_from_u32(31) == Some(NfsAttribute::MaxWriteLength),
        NfsAttribute::spec_from_u32(68) == Some(NfsAttribute::MetadataServerSizeThreshold),
        NfsAttribute::spec_from_u32(32) == Some(NfsAttribute::MimeType),
        NfsAttribute::spec_from_u32(33) == Some(NfsAttribute::Mode),
        NfsAttribute::spec_from_u32(74) == Some(NfsAttribute::ModeSetMasked),
        NfsAttribute::spec_from_u32(55) == Some(NfsAttribute::MountedOnFileId),
        NfsAttribute::spec_from_u32(34) == Some(NfsAttribute::NoTruncation),
        NfsAttribute::spec_from_u32(35) == Some(NfsAttribute::NumLinks),
        NfsAttribute::spec_from_u32(36) == Some(NfsAttribute::Owner),
        NfsAttribute::spec_from_u32(37) == Some(NfsAttribute::OwnerGroup),
        NfsAttribute::spec_from_u32(38) == Some(NfsAttribute::QuotaAvailableHard),
        NfsAttribute::spec_from_u32(39) == Some(NfsAttribute::QuotaAvailableSoft),
        NfsAttribute::spec_from_u32(40) == Some(NfsAttribute::QuotaUsed),
        NfsAttribute::spec_from_u32(41) == Some(NfsAttribute::RawDevice),
        NfsAttribute::spec_from_u32(71) == Some(NfsAttribute::GetEventRetention),
        NfsAttribute::spec_from_u32(72) == Some(NfsAttribute::SetEventRetention),
        NfsAttribute::spec_from_u32(69) == Some(NfsAttribute::GetRetention),
        NfsAttribute::spec_from_u32(70) == Some(NfsAttribute::SetRetention),
        NfsAttribute::spec_from_u32(73) == Some(NfsAttribute::HoldRetention),
        NfsAttribute::spec_from_u32(59) == Some(NfsAttribute::SAcl),
        NfsAttribute::spec_from_u32(42) == Some(NfsAttribute::FileSystemSpaceAvailable),
        NfsAttribute::spec_from_u32(43) == Some(NfsAttribute::FileSystemSpaceFree),
        NfsAttribute::spec_from_u32(44) == Some(NfsAttribute::FileSystemSpaceTotal),
        NfsAttribute::spec_from_u32(45) == Some(NfsAttribute::FileSystemSpaceUsed),
        NfsAttribute::spec_from_u32(46) == Some(NfsAttribute::IsSystemFile),
        NfsAttribute::spec_from_u32(47) == Some(NfsAttribute::TimeAccess),
        NfsAttribute::spec_from_u32(48) == Some(NfsAttribute::SetTimeAccess),
        NfsAttribute::spec_from_u32(49) == Some(NfsAttribute::TimeBackup),
        NfsAttribute::spec_from_u32(50) == Some(NfsAttribute::TimeCreate),
        NfsAttribute::spec_from_u32(51) == Some(NfsAttribute::TimeDelta),
        NfsAttribute::spec_from_u32(52) == Some(NfsAttribute::TimeMetadata),
        NfsAttribute::spec_from_u32(53) == Some(NfsAttribute::TimeModify),
        NfsAttribute::spec_from_u32(54) == Some(NfsAttribute::SetTimeModify),
        NfsAttribute::spec_from_u32(255) == Some(NfsAttribute::Illegal),
        forall|n: u32| #![trigger NfsAttribute::spec_from_u32(n)] n != 0 && n != 1 && n != 2 && n != 3 && n != 4 && n != 5 && n != 6 && n != 7 && n != 8 && n != 9 && n != 10 && n != 11 && n != 19 && n != 75 && n != 12 && n != 13 && n != 14 && n != 15 && n != 16 && n != 17 && n != 60 && n != 18 && n != 58 && n != 56 && n != 57 && n != 20 && n != 21 && n != 22 && n != 23 && n != 76 && n != 62 && n != 24 && n != 67 && n != 61 && n != 25 && n != 26 && n != 66 && n != 65 && n != 63 && n != 64 && n != 27 && n != 28 && n != 29 && n != 30 && n != 31 && n != 68 && n != 32 && n != 33 && n != 74 && n != 55 && n != 34 && n != 35 && n != 36 && n != 37 && n != 38 && n != 39 && n != 40 && n != 41 && n != 71 && n != 72 && n != 69 && n != 70 && n != 73 && n != 59 && n != 42 && n != 43 && n != 44 && n != 45 && n != 46 && n != 47 && n != 48 && n != 49 && n != 50 && n != 51 && n != 52 && n != 53 && n != 54 && n != 255 ==> NfsAttribute::spec_from_u32(n) is None,
{
}

/// The numbers of [`NfsExpirationPolicy`] on the wire, as the protocol gives them: each
/// value is written as its number, and each number reads back as its value;
/// every other number names no value.
pub proof fn lemma_nfs_expiration_policy_numbers()
    ensures
        NfsExpirationPolicy::Persistent.spec_to_u32() == 0,
        NfsExpirationPolicy::Volatile.spec_to_u32() == 2,
        NfsExpirationPolicy::VolatileExceptWhenOpen.spec_to_u32() == 3,
        NfsExpirationPolicy::spec_from_u32(0) == Some(NfsExpirationPolicy::Persistent),
        NfsExpirationPolicy::spec_from_u32(2) == Some(NfsExpirationPolicy::Volatile),
        NfsExpirationPolicy::spec_from_u32(3) == Some(NfsExpirationPolicy::VolatileExceptWhenOpen),
        forall|n: u32| #![trigger NfsExpirationPolicy::spec_from_u32(n)] n != 0 && n != 2 && n != 3 ==> NfsExpirationPolicy::spec_from_u32(n) is None,
{
}

/// The numbers of [`NfsFileType`] on the wire, as the protocol gives them: each
/// value is written as its number, and each number reads back as its value;
/// every other number names no value.
pub proof fn lemma_nfs_file_type_numbers()
    ensures
        NfsFileType::Regular.spec_to_u32() == 1,
        NfsFileType::Directory.spec_to_u32() == 2,
        NfsFileType::Block.spec_to_u32() == 3,
        NfsFileType::Character.spec_to_u32() == 4,
        NfsFileType::Link.spec_to_u32() == 5,
        NfsFileType::Socket.spec_to_u32() == 6,
        NfsFileType::Fifo.spec_to_u32() == 7,
        NfsFileType::AttributeDirectory.spec_to_u32() == 8,
        NfsFileType::NamedAttribute.spec_to_u32() == 9,
        NfsFileType::spec_from_u32(1) == Some(NfsFileType::Regular),
        NfsFileType::spec_from_u32(2) == Some(NfsFileType::Directory),
        NfsFileType::spec_from_u32(3) == Some(NfsFileType::Block),
        NfsFileType::spec_from_u32(4) == Some(NfsFileType::Character),
        NfsFileType::spec_from_u32(5) == Some(NfsFileType::Link),
        NfsFileType::spec_from_u32(6) == Some(NfsFileType::Socket),
        NfsFileType::spec_from_u32(7) == Some(NfsFileType::Fifo),
        NfsFileType::spec_from_u32(8) == Some(NfsFileType::AttributeDirectory),
        NfsFileType::spec_from_u32(9) == Some(NfsFileType::NamedAttribute),
        forall|n: u32| #![trigger NfsFileType::spec_from_u32(n)] n != 1 && n != 2 && n != 3 && n != 4 && n != 5 && n != 6 && n != 7 && n != 8 && n != 9 ==> NfsFileType::spec_from_u32(n) is None,
{
}

/// The numbers of [`NfsLayoutType`] on the wire, as the protocol gives them: each
/// value is written as its number, and each number reads back as its value;
/// every other number names no value.
pub proof fn lemma_nfs_layout_type_numbers()
    ensures
        NfsLayoutType::NfsV41Files.spec_to_u32() == 1,
        NfsLayoutType::Osd2Objects.spec_to_u32() == 2,
        NfsLayoutType::BlockVolume.spec_to_u32() == 3,
        NfsLayoutType::spec_from_u32(1) == Some(NfsLayoutType::NfsV41Files),
        NfsLayoutType::spec_from_u32(2) == Some(NfsLayoutType::Osd2Objects),
        NfsLayoutType::spec_from_u32(3) == Some(NfsLayoutType::BlockVolume),
        forall|n: u32| #![trigger NfsLayoutType::spec_from_u32(n)] n != 1 && n != 2 && n != 3 ==> NfsLayoutType::spec_from_u32(n) is None,
{
}

/// The numbers of [`NfsLockType`] on the wire, as the protocol gives them: each
/// value is written as its number, and each number reads back as its value;
/// every other number names no value.
pub proof fn lemma_nfs_lock_type_numbers()
    ensures
        NfsLockType::Read.spec_to_u32() == 1,
        NfsLockType::Write.spec_to_u32() == 2,
        NfsLockType::BlockingRead.spec_to_u32() == 3,
        NfsLockType::BlockingWrite.spec_to_u32() == 4,
        NfsLockType::spec_from_u32(1) == Some(NfsLockType::Read),
        NfsLockType::spec_from_u32(2) == Some(NfsLockType::Write),
        NfsLockType::spec_from_u32(3) == Some(NfsLockType::BlockingRead),
        NfsLockType::spec_from_u32(4) == Some(NfsLockType::BlockingWrite),
        forall|n: u32| #![trigger NfsLockType::spec_from_u32(n)] n != 1 && n != 2 && n != 3 && n != 4 ==> NfsLockType::spec_from_u32(n) is None,
{
}

/// The numbers of [`NfsOperation`] on the wire, as the protocol gives them: each
/// value is written as its number, and each number reads back as its value;
/// every other number names no value.
pub proof fn lemma_nfs_operation_numbers()
    ensures
        NfsOperation::Access.spec_to_u32() == 3,
        NfsOperation::Close.spec_to_u32() == 4,
        NfsOperation::Commit.spec_to_u32() == 5,
        NfsOperation::Create.spec_to_u32() == 6,
        NfsOperation::PurgeDelegations.spec_to_u32() == 7,
        NfsOperation::ReturnDelegation.spec_to_u32() == 8,
        NfsOperation::GetAttributes.spec_to_u32() == 9,
        NfsOperation::GetFh.spec_to_u32() == 10,
        NfsOperation::Link.spec_to_u32() == 11,
        NfsOperation::LockCreate.spec_to_u32() == 12,
        NfsOperation::LockTest.spec_to_u32() == 13,
        NfsOperation::LockRelease.spec_to_u32() == 14,
        NfsOperation::Lookup.spec_to_u32() == 15,
        NfsOperation::LookupParent.spec_to_u32() == 16,
        NfsOperation::VerifyAttributeDiff.spec_to_u32() == 17,
        NfsOperation::Open.spec_to_u32() == 18,
        NfsOperation::OpenAttrs.spec_to_u32() == 19,
        NfsOperation::OpenDowngrade.spec_to_u32() == 21,
        NfsOperation::PutFh.spec_to_u32() == 22,
        NfsOperation::PutPublicFh.spec_to_u32() == 23,
        NfsOperation::PutRootFh.spec_to_u32() == 24,
        NfsOperation::Read.spec_to_u32() == 25,
        NfsOperation::ReadDir.spec_to_u32() == 26,
        NfsOperation::ReadLink.spec_to_u32() == 27,
        NfsOperation::Remove.spec_to_u32() == 28,
        NfsOperation::Rename.spec_to_u32() == 29,
        NfsOperation::RestoreFh.spec_to_u32() == 31,
        NfsOperation::SaveFh.spec_to_u32() == 32,
        NfsOperation::SecurityInfo.spec_to_u32() == 33,
        NfsOperation::SetAttr.spec_to_u32() == 34,
        NfsOperation::Verify.spec_to_u32() == 37,
        NfsOperation::Write.spec_to_u32() == 38,
        NfsOperation::BackchannelControl.spec_to_u32() == 40,
        NfsOperation::BindConnectionToSession.spec_to_u32() == 41,
        NfsOperation::ExchangeId.spec_to_u32() == 42,
        NfsOperation::CreateSession.spec_to_u32() == 43,
        NfsOperation::DestroySession.spec_to_u32() == 44,
        NfsOperation::FreeStateId.spec_to_u32() == 45,
        NfsOperation::GetDirDelegation.spec_to_u32() == 46,
        NfsOperation::GetDeviceInfo.spec_to_u32() == 47,
        NfsOperation::GetDeviceList.spec_to_u32() == 48,
        NfsOperation::LayoutCommit.spec_to_u32() == 49,
        NfsOperation::LayoutGet.spec_to_u32() == 50,
        NfsOperation::LayoutReturn.spec_to_u32() == 51,
        NfsOperation::SecurityInfoNoName.spec_to_u32() == 52,
        NfsOperation::Sequence.spec_to_u32() == 53,
        NfsOperation::SetSSV.spec_to_u32() == 54,
        NfsOperation::TestStateIds.spec_to_u32() == 55,
        NfsOperation::WantDelegation.spec_to_u32() == 56,
        NfsOperation::DestroyClientId.spec_to_u32() == 57,
        NfsOperation::ReclaimComplete.spec_to_u32() == 58,
        NfsOperation::Illegal.spec_to_u32() == 10044,
        NfsOperation::spec_from_u32(3) == Some(NfsOperation::Access),
        NfsOperation::spec_from_u32(4) == Some(NfsOperation::Close),
        NfsOperation::spec_from_u32(5) == Some(NfsOperation::Commit),
        NfsOperation::spec_from_u32(6) == Some(NfsOperation::Create),
        NfsOperation::spec_from_u32(7) == Some(NfsOperation::PurgeDelegations),
        NfsOperation::spec_from_u32(8) == Some(NfsOperation::ReturnDelegation),
        NfsOperation::spec_from_u32(9) == Some(NfsOperation::GetAttributes),
        NfsOperation::spec_from_u32(10) == Some(NfsOperation::GetFh),
        NfsOperation::spec_from_u32(11) == Some(NfsOperation::Link),
        NfsOperation::spec_from_u32(12) == Some(NfsOperation::LockCreate),
        NfsOperation::spec_from_u32(13) == Some(NfsOperation::LockTest),
        NfsOperation::spec_from_u32(14) == Some(NfsOperation::LockRelease),
        NfsOperation::spec_from_u32(15) == Some(NfsOperation::Lookup),
        NfsOperation::spec_from_u32(16) == Some(NfsOperation::LookupParent),
        NfsOperation::spec_from_u32(17) == Some(NfsOperation::VerifyAttributeDiff),
        NfsOperation::spec_from_u32(18) == Some(NfsOperation::Open),
        NfsOperation::spec_from_u32(19) == Some(NfsOperation::OpenAttrs),
        NfsOperation::spec_from_u32(21) == Some(NfsOperation::OpenDowngrade),
        NfsOperation::spec_from_u32(22) == Some(NfsOperation::PutFh),
        NfsOperation::spec_from_u32(23) == Some(NfsOperation::PutPublicFh),
        NfsOperation::spec_from_u32(24) == Some(NfsOperation::PutRootFh),
        NfsOperation::spec_from_u32(25) == Some(NfsOperation::Read),
        NfsOperation::spec_from_u32(26) == Some(NfsOperation::ReadDir),
        NfsOperation::spec_from_u32(27) == Some(NfsOperation::ReadLink),
        NfsOperation::spec_from_u32(28) == Some(NfsOperation::Remove),
        NfsOperation::spec_from_u32(29) == Some(NfsOperation::Rename),
        NfsOperation::spec_from_u32(31) == Some(NfsOperation::RestoreFh),
        NfsOperation::spec_from_u32(32) == Some(NfsOperation::SaveFh),
        NfsOperation::spec_from_u32(33) == Some(NfsOperation::SecurityInfo),
        NfsOperation::spec_from_u32(34) == Some(NfsOperation::SetAttr),
        NfsOperation::spec_from_u32(37) == Some(NfsOperation::Verify),
        NfsOperation::spec_from_u32(38) == Some(NfsOperation::Write),
        NfsOperation::spec_from_u32(40) == Some(NfsOperation::BackchannelControl),
        NfsOperation::spec_from_u32(41) == Some(NfsOperation::BindConnectionToSession),
        NfsOperation::spec_from_u32(42) == Some(NfsOperation::ExchangeId),
        NfsOperation::spec_from_u32(43) == Some(NfsOperation::CreateSession),
        NfsOperation::spec_from_u32(44) == Some(NfsOperation::DestroySession),
        NfsOperation::spec_from_u32(45) == Some(NfsOperation::FreeStateId),
        NfsOperation::spec_from_u32(46) == Some(NfsOperation::GetDirDelegation),
        NfsOperation::spec_from_u32(47) == Some(NfsOperation::GetDeviceInfo),
        NfsOperation::spec_from_u32(48) == Some(NfsOperation::GetDeviceList),
        NfsOperation::spec_from_u32(49) == Some(NfsOperation::LayoutCommit),
        NfsOperation::spec_from_u32(50) == Some(NfsOperation::LayoutGet),
        NfsOperation::spec_from_u32(51) == Some(NfsOperation::LayoutReturn),
        NfsOperation::spec_from_u32(52) == Some(NfsOperation::SecurityInfoNoName),
        NfsOperation::spec_from_u32(53) == Some(NfsOperation::Sequence),
        NfsOperation::spec_from_u32(54) == Some(NfsOperation::SetSSV),
        NfsOperation::spec_from_u32(55) == Some(NfsOperation::TestStateIds),
        NfsOperation::spec_from_u32(56) == Some(NfsOperation::WantDelegation),
        NfsOperation::spec_from_u32(57) == Some(NfsOperation::DestroyClientId),
        NfsOperation::spec_from_u32(58) == Some(NfsOperation::ReclaimComplete),
        NfsOperation::spec_from_u32(10044) == Some(NfsOperation::Illegal),
        forall|n: u32| #![trigger NfsOperation::spec_from_u32(n)] n != 3 && n != 4 && n != 5 && n != 6 && n != 7 && n != 8 && n != 9 && n != 10 && n != 11 && n != 12 && n != 13 && n != 14 && n != 15 && n != 16 && n != 17 && n != 18 && n != 19 && n != 21 && n != 22 && n != 23 && n != 24 && n != 25 && n != 26 && n != 27 && n != 28 && n != 29 && n != 31 && n != 32 && n != 33 && n != 34 && n != 37 && n != 38 && n != 40 && n != 41 && n != 42 && n != 43 && n != 44 && n != 45 && n != 46 && n != 47 && n != 48 && n != 49 && n != 50 && n != 51 && n != 52 && n != 53 && n != 54 && n != 55 && n != 56 && n != 57 && n != 58 && n != 10044 ==> NfsOperation::spec_from_u32(n) is None,
{
}

/// The numbers of [`NfsStatus`] on the wire, as the protocol gives them: each
/// value is written as its number, and each number reads back as its value;
/// every other number names no value.
pub proof fn lemma_nfs_status_numbers()
    ensures
        NfsStatus::Success.spec_to_u32() == 0,
        NfsStatus::EPERM.spec_to_u32() == 1,
        NfsStatus::ENOENT.spec_to_u32() == 2,
        NfsStatus::EIO.spec_to_u32() == 5,
        NfsStatus::ENXIO.spec_to_u32() == 6,
        NfsStatus::EACCESS.spec_to_u32() == 13,
        NfsStatus::EEXIST.spec_to_u32() == 17,
        NfsStatus::EXDEV.spec_to_u32() == 18,
        NfsStatus::ENOTDIR.spec_to_u32() == 20,
        NfsStatus::EISDIR.spec_to_u32() == 21,
        NfsStatus::EINVAL.spec_to_u32() == 22,
        NfsStatus::EFBIG.spec_to_u32() == 27,
        NfsStatus::ENOSPC.spec_to_u32() == 28,
        NfsStatus::EROFS.spec_to_u32() == 30,
        NfsStatus::EMLINK.spec_to_u32() == 31,
        NfsStatus::ENAMETOOLONG.spec_to_u32() == 63,
        NfsStatus::ENOTEMPTY.spec_to_u32() == 66,
        NfsStatus::EDQUOT.spec_to_u32() == 69,
        NfsStatus::ESTALE.spec_to_u32() == 70,
        NfsStatus::EBADHANDLE.spec_to_u32() == 10001,
        NfsStatus::BadCookie.spec_to_u32() == 10003,
        NfsStatus::NotSupported.spec_to_u32() == 10004,
        NfsStatus::TooSmall.spec_to_u32() == 10005,
        NfsStatus::ServerFault.spec_to_u32() == 10006,
        NfsStatus::BadType.spec_to_u32() == 10007,
        NfsStatus::Delay.spec_to_u32() == 10008,
        NfsStatus::AttrsSame.spec_to_u32() == 10009,
        NfsStatus::Denied.spec_to_u32() == 10010,
        NfsStatus::Expired.spec_to_u32() == 10011,
        NfsStatus::Locked.spec_to_u32() == 10012,
        NfsStatus::InGracePeriod.spec_to_u32() == 10013,
        NfsStatus::FhExpired.spec_to_u32() == 10014,
        NfsStatus::ShareDenied.spec_to_u32() == 10015,
        NfsStatus::WrongSecurity.spec_to_u32() == 10016,
        NfsStatus::ClientIdInUse.spec_to_u32() == 10017,
        NfsStatus::Moved.spec_to_u32() == 10019,
        NfsStatus::NoFilehandle.spec_to_u32() == 10020,
        NfsStatus::MinorVersionMismatch.spec_to_u32() == 10021,
        NfsStatus::StaleClientId.spec_to_u32() == 10022,
        NfsStatus::StaleStateId.spec_to_u32() == 10023,
        NfsStatus::OldStateId.spec_to_u32() == 10024,
        NfsStatus::BadStateId.spec_to_u32() == 10025,
        NfsStatus::BadSeqId.spec_to_u32() == 10026,
        NfsStatus::NotSame.spec_to_u32() == 10027,
        NfsStatus::LockRange.spec_to_u32() == 10028,
        NfsStatus::Symlink.spec_to_u32() == 10029,
        NfsStatus::RestoreFh.spec_to_u32() == 10030,
        NfsStatus::LeaseMoved.spec_to_u32() == 10031,
        NfsStatus::AttrNotSupported.spec_to_u32() == 10032,
        NfsStatus::NoGrace.spec_to_u32() == 10033,
        NfsStatus::ReclaimBad.spec_to_u32() == 10034,
        NfsStatus::ReclaimConflict.spec_to_u32() == 10035,
        NfsStatus::BadXdr.spec_to_u32() == 10036,
        NfsStatus::LocksHeld.spec_to_u32() == 10037,
        NfsStatus::OpenMode.spec_to_u32() == 10038,
        NfsStatus::BadOwner.spec_to_u32() == 10039,
        NfsStatus::BadChar.spec_to_u32() == 10040,
        NfsStatus::BadName.spec_to_u32() == 10041,
        NfsStatus::BadRange.spec_to_u32() == 10042,
        NfsStatus::LockNotSupported.spec_to_u32() == 10043,
        NfsStatus::OpIllegal.spec_to_u32() == 10044,
        NfsStatus::DeadLock.spec_to_u32() == 10045,
        NfsStatus::FileOpen.spec_to_u32() == 10046,
        NfsStatus::AdminRevoked.spec_to_u32() == 10047,
        NfsStatus::CallbackPathDown.spec_to_u32() == 10048,
        NfsStatus::BadIoMode.spec_to_u32() == 10049,
        NfsStatus::BadLayout.spec_to_u32() == 10050,
        NfsStatus::BadSessionDigest.spec_to_u32() == 10051,
        NfsStatus::BadSession.spec_to_u32() == 10052,
        NfsStatus::BadSlot.spec_to_u32() == 10053,
        NfsStatus::CompleteAlready.spec_to_u32() == 10054,
        NfsStatus::ConnNotBoundToSession.spec_to_u32() == 10055,
        NfsStatus::DelegationAlreadyWanted.spec_to_u32() == 10056,
        NfsStatus::BackChannelBusy.spec_to_u32() == 10057,
        NfsStatus::LayoutTryLater.spec_to_u32() == 10058,
        NfsStatus::LayoutUnavailable.spec_to_u32() == 10059,
        NfsStatus::NoMatchingLayout.spec_to_u32() == 10060,
        NfsStatus::RecallConflict.spec_to_u32() == 10061,
        NfsStatus::UnknownLayoutType.spec_to_u32() == 10062,
        NfsStatus::SeqMisordered.spec_to_u32() == 10063,
        NfsStatus::SequencePos.spec_to_u32() == 10064,
        NfsStatus::RequestTooBig.spec_to_u32() == 10065,
        NfsStatus::ReplyTooBig.spec_to_u32() == 10066,
        NfsStatus::ReplyNotAllCached.spec_to_u32() == 10067,
        NfsStatus::RetryUncachedReply.spec_to_u32() == 10068,
        NfsStatus::UnsafeCompound.spec_to_u32() == 10069,
        NfsStatus::TooManyOps.spec_to_u32() == 10070,
        NfsStatus::NotInSession.spec_to_u32() == 10071,
        NfsStatus::HashAlgorithmUnsupported.spec_to_u32() == 10072,
        NfsStatus::ClientIdBusy.spec_to_u32() == 10074,
        NfsStatus::ParallelNFSIoHole.spec_to_u32() == 10075,
        NfsStatus::SeqFalseRetry.spec_to_u32() == 10076,
        NfsStatus::BadHighSlot.spec_to_u32() == 10077,
        NfsStatus::DeadSession.spec_to_u32() == 10078,
        NfsStatus::EncryptionAlgorithmUnsupported.spec_to_u32() == 10079,
        NfsStatus::ParallelNFSNoLayout.spec_to_u32() == 10080,
        NfsStatus::NotOnlyOp.spec_to_u32() == 10081,
        NfsStatus::WrongCredential.spec_to_u32() == 10082,
        NfsStatus::WrongType.spec_to_u32() == 10083,
        NfsStatus::DirDelegationUnavailable.spec_to_u32() == 10084,
        NfsStatus::RejectDelegation.spec_to_u32() == 10085,
        NfsStatus::ReturnConflict.spec_to_u32() == 10086,
        NfsStatus::DelegationRevoked.spec_to_u32() == 10087,
        NfsStatus::spec_from_u32(0) == Some(NfsStatus::Success),
        NfsStatus::spec_from_u32(1) == Some(NfsStatus::EPERM),
        NfsStatus::spec_from_u32(2) == Some(NfsStatus::ENOENT),
        NfsStatus::spec_from_u32(5) == Some(NfsStatus::EIO),
        NfsStatus::spec_from_u32(6) == Some(NfsStatus::ENXIO),
        NfsStatus::spec_from_u32(13) == Some(NfsStatus::EACCESS),
        NfsStatus::spec_from_u32(17) == Some(NfsStatus::EEXIST),
        NfsStatus::spec_from_u32(18) == Some(NfsStatus::EXDEV),
        NfsStatus::spec_from_u32(20) == Some(NfsStatus::ENOTDIR),
        NfsStatus::spec_from_u32(21) == Some(NfsStatus::EISDIR),
        NfsStatus::spec_from_u32(22) == Some(NfsStatus::EINVAL),
        NfsStatus::spec_from_u32(27) == Some(NfsStatus::EFBIG),
        NfsStatus::spec_from_u32(28) == Some(NfsStatus::ENOSPC),
        NfsStatus::spec_from_u32(30) == Some(NfsStatus::EROFS),
        NfsStatus::spec_from_u32(31) == Some(NfsStatus::EMLINK),
        NfsStatus::spec_from_u32(63) == Some(NfsStatus::ENAMETOOLONG),
        NfsStatus::spec_from_u32(66) == Some(NfsStatus::ENOTEMPTY),
        NfsStatus::spec_from_u32(69) == Some(NfsStatus::EDQUOT),
        NfsStatus::spec_from_u32(70) == Some(NfsStatus::ESTALE),
        NfsStatus::spec_from_u32(10001) == Some(NfsStatus::EBADHANDLE),
        NfsStatus::spec_from_u32(10003) == Some(NfsStatus::BadCookie),
        NfsStatus::spec_from_u32(10004) == Some(NfsStatus::NotSupported),
        NfsStatus::spec_from_u32(10005) == Some(NfsStatus::TooSmall),
        NfsStatus::spec_from_u32(10006) == Some(NfsStatus::ServerFault),
        NfsStatus::spec_from_u32(10007) == Some(NfsStatus::BadType),
        NfsStatus::spec_from_u32(10008) == Some(NfsStatus::Delay),
        NfsStatus::spec_from_u32(10009) == Some(NfsStatus::AttrsSame),
        NfsStatus::spec_from_u32(10010) == Some(NfsStatus::Denied),
        NfsStatus::spec_from_u32(10011) == Some(NfsStatus::Expired),
        NfsStatus::spec_from_u32(10012) == Some(NfsStatus::Locked),
        NfsStatus::spec_from_u32(10013) == Some(NfsStatus::InGracePeriod),
        NfsStatus::spec_from_u32(10014) == Some(NfsStatus::FhExpired),
        NfsStatus::spec_from_u32(10015) == Some(NfsStatus::ShareDenied),
        NfsStatus::spec_from_u32(10016) == Some(NfsStatus::WrongSecurity),
        NfsStatus::spec_from_u32(10017) == Some(NfsStatus::ClientIdInUse),
        NfsStatus::spec_from_u32(10019) == Some(NfsStatus::Moved),
        NfsStatus::spec_from_u32(10020) == Some(NfsStatus::NoFilehandle),
        NfsStatus::spec_from_u32(10021) == Some(NfsStatus::MinorVersionMismatch),
        NfsStatus::spec_from_u32(10022) == Some(NfsStatus::StaleClientId),
        NfsStatus::spec_from_u32(10023) == Some(NfsStatus::StaleStateId),
        NfsStatus::spec_from_u32(10024) == Some(NfsStatus::OldStateId),
        NfsStatus::spec_from_u32(10025) == Some(NfsStatus::BadStateId),
        NfsStatus::spec_from_u32(10026) == Some(NfsStatus::BadSeqId),
        NfsStatus::spec_from_u32(10027) == Some(NfsStatus::NotSame),
        NfsStatus::spec_from_u32(10028) == Some(NfsStatus::LockRange),
        NfsStatus::spec_from_u32(10029) == Some(NfsStatus::Symlink),
        NfsStatus::spec_from_u32(10030) == Some(NfsStatus::RestoreFh),
        NfsStatus::spec_from_u32(10031) == Some(NfsStatus::LeaseMoved),
        NfsStatus::spec_from_u32(10032) == Some(NfsStatus::AttrNotSupported),
        NfsStatus::spec_from_u32(10033) == Some(NfsStatus::NoGrace),
        NfsStatus::spec_from_u32(10034) == Some(NfsStatus::ReclaimBad),
        NfsStatus::spec_from_u32(10035) == Some(NfsStatus::ReclaimConflict),
        NfsStatus::spec_from_u32(10036) == Some(NfsStatus::BadXdr),
        NfsStatus::spec_from_u32(10037) == Some(NfsStatus::LocksHeld),
        NfsStatus::spec_from_u32(10038) == Some(NfsStatus::OpenMode),
        NfsStatus::spec_from_u32(10039) == Some(NfsStatus::BadOwner),
        NfsStatus::spec_from_u32(10040) == Some(NfsStatus::BadChar),
        NfsStatus::spec_from_u32(10041) == Some(NfsStatus::BadName),
        NfsStatus::spec_from_u32(10042) == Some(NfsStatus::BadRange),
        NfsStatus::spec_from_u32(10043) == Some(NfsStatus::LockNotSupported),
        NfsStatus::spec_from_u32(10044) == Some(NfsStatus::OpIllegal),
        NfsStatus::spec_from_u32(10045) == Some(NfsStatus::DeadLock),
        NfsStatus::spec_from_u32(10046) == Some(NfsStatus::FileOpen),
        NfsStatus::spec_from_u32(10047) == Some(NfsStatus::AdminRevoked),
        NfsStatus::spec_from_u32(10048) == Some(NfsStatus::CallbackPathDown),
        NfsStatus::spec_from_u32(10049) == Some(NfsStatus::BadIoMode),
        NfsStatus::spec_from_u32(10050) == Some(NfsStatus::BadLayout),
        NfsStatus::spec_from_u32(10051) == Some(NfsStatus::BadSessionDigest),
        NfsStatus::spec_from_u32(10052) == Some(NfsStatus::BadSession),
        NfsStatus::spec_from_u32(10053) == Some(NfsStatus::BadSlot),
        NfsStatus::spec_from_u32(10054) == Some(NfsStatus::CompleteAlready),
        NfsStatus::spec_from_u32(10055) == Some(NfsStatus::ConnNotBoundToSession),
        NfsStatus::spec_from_u32(10056) == Some(NfsStatus::DelegationAlreadyWanted),
        NfsStatus::spec_from_u32(10057) == Some(NfsStatus::BackChannelBusy),
        NfsStatus::spec_from_u32(10058) == Some(NfsStatus::LayoutTryLater),
        NfsStatus::spec_from_u32(10059) == Some(NfsStatus::LayoutUnavailable),
        NfsStatus::spec_from_u32(10060) == Some(NfsStatus::NoMatchingLayout),
        NfsStatus::spec_from_u32(10061) == Some(NfsStatus::RecallConflict),
        NfsStatus::spec_from_u32(10062) == Some(NfsStatus::UnknownLayoutType),
        NfsStatus::spec_from_u32(10063) == Some(NfsStatus::SeqMisordered),
        NfsStatus::spec_from_u32(10064) == Some(NfsStatus::SequencePos),
        NfsStatus::spec_from_u32(10065) == Some(NfsStatus::RequestTooBig),
        NfsStatus::spec_from_u32(10066) == Some(NfsStatus::ReplyTooBig),
        NfsStatus::spec_from_u32(10067) == Some(NfsStatus::ReplyNotAllCached),
        NfsStatus::spec_from_u32(10068) == Some(NfsStatus::RetryUncachedReply),
        NfsStatus::spec_from_u32(10069) == Some(NfsStatus::UnsafeCompound),
        NfsStatus::spec_from_u32(10070) == Some(NfsStatus::TooManyOps),
        NfsStatus::spec_from_u32(10071) == Some(NfsStatus::NotInSession),
        NfsStatus::spec_from_u32(10072) == Some(NfsStatus::HashAlgorithmUnsupported),
        NfsStatus::spec_from_u32(10074) == Some(NfsStatus::ClientIdBusy),
        NfsStatus::spec_from_u32(10075) == Some(NfsStatus::ParallelNFSIoHole),
        NfsStatus::spec_from_u32(10076) == Some(NfsStatus::SeqFalseRetry),
        NfsStatus::spec_from_u32(10077) == Some(NfsStatus::BadHighSlot),
        NfsStatus::spec_from_u32(10078) == Some(NfsStatus::DeadSession),
        NfsStatus::spec_from_u32(10079) == Some(NfsStatus::EncryptionAlgorithmUnsupported),
        NfsStatus::spec_from_u32(10080) == Some(NfsStatus::ParallelNFSNoLayout),
        NfsStatus::spec_from_u32(10081) == Some(NfsStatus::NotOnlyOp),
        NfsStatus::spec_from_u32(10082) == Some(NfsStatus::WrongCredential),
        NfsStatus::spec_from_u32(10083) == Some(NfsStatus::WrongType),
        NfsStatus::spec_from_u32(10084) == Some(NfsStatus::DirDelegationUnavailable),
        NfsStatus::spec_from_u32(10085) == Some(NfsStatus::RejectDelegation),
        NfsStatus::spec_from_u32(10086) == Some(NfsStatus::ReturnConflict),
        NfsStatus::spec_from_u32(10087) == Some(NfsStatus::DelegationRevoked),
        forall|n: u32| #![trigger NfsStatus::spec_from_u32(n)] n != 0 && n != 1 && n != 2 && n != 5 && n != 6 && n != 13 && n != 17 && n != 18 && n != 20 && n != 21 && n != 22 && n != 27 && n != 28 && n != 30 && n != 31 && n != 63 && n != 66 && n != 69 && n != 70 && n != 10001 && n != 10003 && n != 10004 && n != 10005 && n != 10006 && n != 10007 && n != 10008 && n != 10009 && n != 10010 && n != 10011 && n != 10012 && n != 10013 && n != 10014 && n != 10015 && n != 10016 && n != 10017 && n != 10019 && n != 10020 && n != 10021 && n != 10022 && n != 10023 && n != 10024 && n != 10025 && n != 10026 && n != 10027 && n != 10028 && n != 10029 && n != 10030 && n != 10031 && n != 10032 && n != 10033 && n != 10034 && n != 10035 && n != 10036 && n != 10037 && n != 10038 && n != 10039 && n != 10040 && n != 10041 && n != 10042 && n != 10043 && n != 10044 && n != 10045 && n != 10046 && n != 10047 && n != 10048 && n != 10049 && n != 10050 && n != 10051 && n != 10052 && n != 10053 && n != 10054 && n != 10055 && n != 10056 && n != 10057 && n != 10058 && n != 10059 && n != 10060 && n != 10061 && n != 10062 && n != 10063 && n != 10064 && n != 10065 && n != 10066 && n != 10067 && n != 10068 && n != 10069 && n != 10070 && n != 10071 && n != 10072 && n != 10074 && n != 10075 && n != 10076 && n != 10077 && n != 10078 && n != 10079 && n != 10080 && n != 10081 && n != 10082 && n != 10083 && n != 10084 && n != 10085 && n != 10086 && n != 10087 ==> NfsStatus::spec_from_u32(n) is None,
{
}

/// The numbers of [`OpenClaimType`] on the wire, as the protocol gives them: each
/// value is written as its number, and each number reads back as its value;
/// every other number names no value.
pub proof fn lemma_open_claim_type_numbers()
    ensures
        OpenClaimType::Null.spec_to_u32() == 0,
        OpenClaimType::Previous.spec_to_u32() == 1,
        OpenClaimType::CurrentDelegate.spec_to_u32() == 2,
        OpenClaimType::PreviousDelegate.spec_to_u32() == 3,
        OpenClaimType::CurrentFh.spec_to_u32() == 4,
        OpenClaimType::CurrentDelegateFh.spec_to_u32() == 5,
        OpenClaimType::PreviousDelegateFh.spec_to_u32() == 6,
        OpenClaimType::spec_from_u32(0) == Some(OpenClaimType::Null),
        OpenClaimType::spec_from_u32(1) == Some(OpenClaimType::Previous),
        OpenClaimType::spec_from_u32(2) == Some(OpenClaimType::CurrentDelegate),
        OpenClaimType::spec_from_u32(3) == Some(OpenClaimType::PreviousDelegate),
        OpenClaimType::spec_from_u32(4) == Some(OpenClaimType::CurrentFh),
        OpenClaimType::spec_from_u32(5) == Some(OpenClaimType::CurrentDelegateFh),
        OpenClaimType::spec_from_u32(6) == Some(OpenClaimType::PreviousDelegateFh),
        forall|n: u32| #![trigger OpenClaimType::spec_from_u32(n)] n != 0 && n != 1 && n != 2 && n != 3 && n != 4 && n != 5 && n != 6 ==> OpenClaimType::spec_from_u32(n) is None,
{
}

/// The numbers of [`OpenDelegationType`] on the wire, as the protocol gives them: each
/// value is written as its number, and each number reads back as its value;
/// every other number names no value.
pub proof fn lemma_open_delegation_type_numbers()
    ensures
        OpenDelegationType::NoDelegation.spec_to_u32() == 0,
        OpenDelegationType::Read.spec_to_u32() == 1,
        OpenDelegationType::Write.spec_to_u32() == 2,
        OpenDelegationType::NoneExt.spec_to_u32() == 3,
        OpenDelegationType::spec_from_u32(0) == Some(OpenDelegationType::NoDelegation),
        OpenDelegationType::spec_from_u32(1) == Some(OpenDelegationType::Read),
        OpenDelegationType::spec_from_u32(2) == Some(OpenDelegationType::Write),
        OpenDelegationType::spec_from_u32(3) == Some(OpenDelegationType::NoneExt),
        forall|n: u32| #![trigger OpenDelegationType::spec_from_u32(n)] n != 0 && n != 1 && n != 2 && n != 3 ==> OpenDelegationType::spec_from_u32(n) is None,
{
}

/// The numbers of [`OpenType`] on the wire, as the protocol gives them: each
/// value is written as its number, and each number reads back as its value;
/// every other number names no value.
pub proof fn lemma_open_type_numbers()
    ensures
        OpenType::NoCreate.spec_to_u32() == 0,
        OpenType::Create.spec_to_u32() == 1,
        OpenType::spec_from_u32(0) == Some(OpenType::NoCreate),
        OpenType::spec_from_u32(1) == Some(OpenType::Create),
        forall|n: u32| #![trigger OpenType::spec_from_u32(n)] n != 0 && n != 1 ==> OpenType::spec_from_u32(n) is None,
{
}

/// The numbers of [`RejectState`] on the wire, as the protocol gives them: each
/// value is written as its number, and each number reads back as its value;
/// every other number names no value.
pub proof fn lemma_reject_state_numbers()
    ensures
        RejectState::RpcMismatch.spec_to_u32() == 0,
        RejectState::AuthError.spec_to_u32() == 1,
        RejectState::spec_from_u32(0) == Some(RejectState::RpcMismatch),
        RejectState::spec_from_u32(1) == Some(RejectState::AuthError),
        forall|n: u32| #![trigger RejectState::spec_from_u32(n)] n != 0 && n != 1 ==> RejectState::spec_from_u32(n) is None,
{
}

/// The numbers of [`ReplyState`] on the wire, as the protocol gives them: each
/// value is written as its number, and each number reads back as its value;
/// every other number names no value.
pub proof fn lemma_reply_state_numbers()
    ensures
        ReplyState::Accepted.spec_to_u32() == 0,
        ReplyState::Denied.spec_to_u32() == 1,
        ReplyState::spec_from_u32(0) == Some(ReplyState::Accepted),
        ReplyState::spec_from_u32(1) == Some(ReplyState::Denied),
        forall|n: u32| #![trigger ReplyState::spec_from_u32(n)] n != 0 && n != 1 ==> ReplyState::spec_from_u32(n) is None,
{
}

/// The numbers of [`RpcGssSvc`] on the wire, as the protocol gives them: each
/// value is written as its number, and each number reads back as its value;
/// every other number names no value.
pub proof fn lemma_rpc_gss_svc_numbers()
    ensures
        RpcGssSvc::NoService.spec_to_u32() == 1,
        RpcGssSvc::Integrity.spec_to_u32() == 2,
        RpcGssSvc::Privacy.spec_to_u32() == 3,
        RpcGssSvc::spec_from_u32(1) == Some(RpcGssSvc::NoService),
        RpcGssSvc::spec_from_u32(2) == Some(RpcGssSvc::Integrity),
        RpcGssSvc::spec_from_u32(3) == Some(RpcGssSvc::Privacy),
        forall|n: u32| #![trigger RpcGssSvc::spec_from_u32(n)] n != 1 && n != 2 && n != 3 ==> RpcGssSvc::spec_from_u32(n) is None,
{
}

/// The numbers of [`SecurityInfoNoNameStyle`] on the wire, as the protocol gives them: each
/// value is written as its number, and each number reads back as its value;
/// every other number names no value.
pub proof fn lemma_security_info_no_name_style_numbers()
    ensures
        SecurityInfoNoNameStyle::CurrentFh.spec_to_u32() == 0,
        SecurityInfoNoNameStyle::Parent.spec_to_u32() == 1,
        SecurityInfoNoNameStyle::spec_from_u32(0) == Some(SecurityInfoNoNameStyle::CurrentFh),
        SecurityInfoNoNameStyle::spec_from_u32(1) == Some(SecurityInfoNoNameStyle::Parent),
        forall|n: u32| #![trigger SecurityInfoNoNameStyle::spec_from_u32(n)] n != 0 && n != 1 ==> SecurityInfoNoNameStyle::spec_from_u32(n) is None,
{
}

/// The numbers of [`SsvSubkey`] on the wire, as the protocol gives them: each
/// value is written as its number, and each number reads back as its value;
/// every other number names no value.
pub proof fn lemma_ssv_subkey_numbers()
    ensures
        SsvSubkey::MicI2T.spec_to_u32() == 1,
        SsvSubkey::MicT2I.spec_to_u32() == 2,
        SsvSubkey::SealI2T.spec_to_u32() == 3,
        SsvSubkey::SealT2I.spec_to_u32() == 4,
        SsvSubkey::spec_from_u32(1) == Some(SsvSubkey::MicI2T),
        SsvSubkey::spec_from_u32(2) == Some(SsvSubkey::MicT2I),
        SsvSubkey::spec_from_u32(3) == Some(SsvSubkey::SealI2T),
        SsvSubkey::spec_from_u32(4) == Some(SsvSubkey::SealT2I),
        forall|n: u32| #![trigger SsvSubkey::spec_from_u32(n)] n != 1 && n != 2 && n != 3 && n != 4 ==> SsvSubkey::spec_from_u32(n) is None,
{
}

/// The numbers of [`StableHow`] on the wire, as the protocol gives them: each
/// value is written as its number, and each number reads back as its value;
/// every other number names no value.
pub proof fn lemma_stable_how_numbers()
    ensures
        StableHow::Unstable.spec_to_u32() == 0,
        StableHow::DataSync.spec_to_u32() == 1,
        StableHow::FileSync.spec_to_u32() == 2,
        StableHow::spec_from_u32(0) == Some(StableHow::Unstable),
        StableHow::spec_from_u32(1) == Some(StableHow::DataSync),
        StableHow::spec_from_u32(2) == Some(StableHow::FileSync),
        forall|n: u32| #![trigger StableHow::spec_from_u32(n)] n != 0 && n != 1 && n != 2 ==> StableHow::spec_from_u32(n) is None,
{
}

/// The numbers of [`StateProtectHow`] on the wire, as the protocol gives them: each
/// value is written as its number, and each number reads back as its value;
/// every other number names no value.
pub proof fn lemma_state_protect_how_numbers()
    ensures
        StateProtectHow::NoProtection.spec_to_u32() == 0,
        StateProtectHow::MachineCredentials.spec_to_u32() == 1,
        StateProtectHow::Ssv.spec_to_u32() == 2,
        StateProtectHow::spec_from_u32(0) == Some(StateProtectHow::NoProtection),
        StateProtectHow::spec_from_u32(1) == Some(StateProtectHow::MachineCredentials),
        StateProtectHow::spec_from_u32(2) == Some(StateProtectHow::Ssv),
        forall|n: u32| #![trigger StateProtectHow::spec_from_u32(n)] n != 0 && n != 1 && n != 2 ==> StateProtectHow::spec_from_u32(n) is None,
{
}

/// The numbers of [`WhyNoDelegation`] on the wire, as the protocol gives them: each
/// value is written as its number, and each number reads back as its value;
/// every other number names no value.
pub proof fn lemma_why_no_delegation_numbers()
    ensures
        WhyNoDelegation::NotWanted.spec_to_u32() == 0,
        WhyNoDelegation::Contention.spec_to_u32() == 1,
        WhyNoDelegation::Resource.spec_to_u32() == 2,
        WhyNoDelegation::NotSupportedFileType.spec_to_u32() == 3,
        WhyNoDelegation::WriteDelegationNotSupportedFileType.spec_to_u32() == 4,
        WhyNoDelegation::NotSupportedUpgrade.spec_to_u32() == 5,
        WhyNoDelegation::NotSupportedDowngrade.spec_to_u32() == 6,
        WhyNoDelegation::Cancelled.spec_to_u32() == 7,
        WhyNoDelegation::IsDirectory.spec_to_u32() == 8,
        WhyNoDelegation::spec_from_u32(0) == Some(WhyNoDelegation::NotWanted),
        WhyNoDelegation::spec_from_u32(1) == Some(WhyNoDelegation::Contention),
        WhyNoDelegation::spec_from_u32(2) == Some(WhyNoDelegation::Resource),
        WhyNoDelegation::spec_from_u32(3) == Some(WhyNoDelegation::NotSupportedFileType),
        WhyNoDelegation::spec_from_u32(4) == Some(WhyNoDelegation::WriteDelegationNotSupportedFileType),
        WhyNoDelegation::spec_from_u32(5) == Some(WhyNoDelegation::NotSupportedUpgrade),
        WhyNoDelegation::spec_from_u32(6) == Some(WhyNoDelegation::NotSupportedDowngrade),
        WhyNoDelegation::spec_from_u32(7) == Some(WhyNoDelegation::Cancelled),
        WhyNoDelegation::spec_from_u32(8) == Some(WhyNoDelegation::IsDirectory),
        forall|n: u32| #![trigger WhyNoDelegation::spec_from_u32(n)] n != 0 && n != 1 && n != 2 && n != 3 && n != 4 && n != 5 && n != 6 && n != 7 && n != 8 ==> WhyNoDelegation::spec_from_u32(n) is None,
{
}

} // verus!
