//! How the values of the protocols' types are laid out on the wire: what
//! writing each is, part by part, in the order the protocols give.
use vstd::prelude::*;
use crate::nfs::constants::{NFS_OPAQUE_LIMIT, RPCSEC_GSS};
use crate::nfs::types::{AccessArgs, AccessOk, AttrList, AttributeNotice, BackchannelControlArgs, BindConnectionToSessionArgs, BindConnectionToSessionOk, BitMap, CallbackClient, CallbackSecurityParameters, ChangeId, ChangeInfo, ChannelAttrs, ChannelDirectionFromClient, ChannelDirectionFromServer, ClientId, ClientOwner, CloseArgs, CloseOk, CommitArgs, CommitOk, Component, Count, CreateArgs, CreateHow, CreateMode, CreateOk, CreateSessionArgs, CreateSessionOk, CreateType, CreateVerifiedFileAttrs, CurrentDelegateOpenClaim, DelegationClaim, DestroyClientIdArgs, DestroySessionArgs, DeviceAddress, DeviceId, DirectoryList, Entry, ExchangeIdArgs, ExchangeIdOk, ExistingLockOwner, FileAttrs, FreeStateIdArgs, FsId, FsStatusType, GetAttributesArgs, GetAttributesOk, GetDeviceInfoArgs, GetDeviceInfoOk, GetDeviceInfoReturn, GetDeviceListArgs, GetDeviceListOk, GetDirectoryDelegationArgs, GetDirectoryDelegationNonFatal, GetDirectoryDelegationOk, GetDirectoryDelegationStatus, GetFhOk, GssCallbackHandles, GssHandle, Layout, LayoutCommitArgs, LayoutCommitOk, LayoutContent, LayoutGetArgs, LayoutGetOk, LayoutGetReturn, LayoutIoMode, LayoutReturn, LayoutReturnArgs, LayoutReturnFile, LayoutReturnReturn, LayoutReturnType, LayoutUpdate, Length, LimitBy, LinkArgs, LinkOk, LinkText, LockArgs, LockDenied, LockOk, LockOwner, LockReleaseArgs, LockReleaseOk, LockReturn, LockTestArgs, LockTestReturn, Locker, LookupArgs, MdsThreshold, NetAddress, NewOffset, NewSize, NewTime, NflUtil, NfsAce, NfsAceFlag, NfsAceMask, NfsAceType, NfsAcl, NfsAclFlag, NfsChangePolicy, NfsClientId, NfsCookie, NfsFh, NfsFileLayout, NfsFileLayoutDsAddress, NfsFileLayoutHint, NfsFileSystemId, NfsFileType, NfsFsLocation, NfsFsLocations, NfsFsLocationsInfo, NfsFsLocationsItem, NfsFsLocationsServer, NfsFsStatus, NfsImplId, NfsLayoutHint, NfsLayoutType, NfsLockType, NfsModeMasked, NfsModifiedLimit, NfsPathName, NfsSpaceLimit, NfsSpecData, NfsTime, Offset, OpenArgs, OpenAttributesArgs, OpenClaim, OpenClaimType, OpenConfirmArgs, OpenDelegation, OpenDelegationType, OpenDowngradeArgs, OpenDowngradeOk, OpenFlag, OpenNoneDelegation, OpenOk, OpenOwner, OpenReadDelegation, OpenResultFlags, OpenToLockOwner, OpenType, OpenWriteDelegation, PurgeDelegationsArgs, PutFhArgs, QOp, ReadArgs, ReadDirectoryArgs, ReadDirectoryOk, ReadLinkOk, ReadOk, ReclaimCompleteArgs, ReleaseLockOwnerArgs, RemoveArgs, RemoveOk, RenameArgs, RenameOk, RenewArgs, RetentionGet, RetentionSet, ReturnDelegationArgs, RpcGssSvc, RpcSecGssInfo, SecOid, SecurityInfo, SecurityInfoArgs, SecurityInfoOk, SeqId, SequenceArgs, SequenceId, SequenceOk, ServerOwner, SessionId, SetAttributesArgs, SetAttributesResult, SetClientIdArgs, SetClientIdConfirmArgs, SetClientIdOk, SetSsvArgs, SetSsvOk, SetTime, SlotId, SpecAccessArgs, SpecAccessOk, SpecBackchannelControlArgs, SpecBindConnectionToSessionArgs, SpecBindConnectionToSessionOk, SpecCallbackClient, SpecCallbackSecurityParameters, SpecChangeInfo, SpecClientOwner, SpecCloseArgs, SpecCloseOk, SpecCommitArgs, SpecCommitOk, SpecCreateArgs, SpecCreateHow, SpecCreateOk, SpecCreateSessionArgs, SpecCreateSessionOk, SpecCreateType, SpecCreateVerifiedFileAttrs, SpecCurrentDelegateOpenClaim, SpecDestroySessionArgs, SpecDeviceAddress, SpecDirectoryList, SpecEntry, SpecExchangeIdArgs, SpecExchangeIdOk, SpecExistingLockOwner, SpecFileAttrs, SpecFreeStateIdArgs, SpecFsId, SpecGetAttributesArgs, SpecGetAttributesOk, SpecGetDeviceInfoArgs, SpecGetDeviceInfoOk, SpecGetDeviceInfoReturn, SpecGetDeviceListArgs, SpecGetDeviceListOk, SpecGetDirectoryDelegationArgs, SpecGetDirectoryDelegationNonFatal, SpecGetDirectoryDelegationOk, SpecGetFhOk, SpecGssCallbackHandles, SpecLayout, SpecLayoutCommitArgs, SpecLayoutCommitOk, SpecLayoutContent, SpecLayoutGetArgs, SpecLayoutGetOk, SpecLayoutGetReturn, SpecLayoutReturn, SpecLayoutReturnArgs, SpecLayoutReturnFile, SpecLayoutReturnReturn, SpecLayoutUpdate, SpecLinkArgs, SpecLinkOk, SpecLockArgs, SpecLockDenied, SpecLockOk, SpecLockReleaseArgs, SpecLockReleaseOk, SpecLockReturn, SpecLockTestArgs, SpecLockTestReturn, SpecLocker, SpecLookupArgs, SpecMdsThreshold, SpecNetAddress, SpecNfsAce, SpecNfsAcl, SpecNfsClientId, SpecNfsFileLayout, SpecNfsFileLayoutDsAddress, SpecNfsFileLayoutHint, SpecNfsFsLocation, SpecNfsFsLocations, SpecNfsFsLocationsInfo, SpecNfsFsLocationsItem, SpecNfsFsLocationsServer, SpecNfsFsStatus, SpecNfsImplId, SpecNfsLayoutHint, SpecNfsModifiedLimit, SpecNfsSpaceLimit, SpecOpenArgs, SpecOpenAttributesArgs, SpecOpenClaim, SpecOpenConfirmArgs, SpecOpenDelegation, SpecOpenDowngradeArgs, SpecOpenDowngradeOk, SpecOpenFlag, SpecOpenOk, SpecOpenReadDelegation, SpecOpenResultFlags, SpecOpenToLockOwner, SpecOpenWriteDelegation, SpecPurgeDelegationsArgs, SpecPutFhArgs, SpecReadArgs, SpecReadDirectoryArgs, SpecReadDirectoryOk, SpecReadLinkOk, SpecReadOk, SpecReleaseLockOwnerArgs, SpecRemoveArgs, SpecRemoveOk, SpecRenameArgs, SpecRenameOk, SpecRenewArgs, SpecRetentionGet, SpecRetentionSet, SpecReturnDelegationArgs, SpecRpcSecGssInfo, SpecSecurityInfo, SpecSecurityInfoArgs, SpecSecurityInfoOk, SpecSequenceArgs, SpecSequenceOk, SpecServerOwner, SpecSetAttributesArgs, SpecSetAttributesResult, SpecSetClientIdArgs, SpecSetClientIdConfirmArgs, SpecSetClientIdOk, SpecSetSsvArgs, SpecSetSsvOk, SpecSsaDigestInput, SpecSsvMicPlainToken, SpecSsvProtectionInfo, SpecSsvSealCipherToken, SpecSsvSealPlainToken, SpecSsvStateProtectParameters, SpecStateId, SpecStateOwner, SpecStateProtectOps, SpecStateProtectionArg, SpecStateProtectionResult, SpecTestStateIdsArgs, SpecTestStateIdsOk, SpecThresholdItem, SpecVerifyArgs, SpecVerifyAttributeDifferenceArgs, SpecWantDelegationArgs, SpecWantDelegationOk, SpecWriteArgs, SpecWriteOk, SsaDigestInput, SsvMicPlainToken, SsvProtectionInfo, SsvSealCipherToken, SsvSealPlainToken, SsvStateProtectParameters, StableHow, StateId, StateOwner, StateProtectHow, StateProtectOps, StateProtectionArg, StateProtectionResult, TestStateIdsArgs, TestStateIdsOk, ThresholdItem, Utf8StringCaseInsensitive, Utf8StringCaseSensitive, Utf8StringMixed, Verifier, VerifyArgs, VerifyAttributeDifferenceArgs, WantDelegationArgs, WantDelegationOk, WhyNoDelegation, WriteArgs, WriteOk};
use crate::rpc::{AcceptedBody, AcceptedReply, AuthFlavor, AuthState, AuthUnix, MismatchInfo, OpaqueAuth, RejectedReply, RpcBody, RpcBodyCall, RpcBodyReply, RpcMessage, SpecAcceptedReply, SpecAuthUnix, SpecOpaqueAuth, SpecRpcBody, SpecRpcBodyCall, SpecRpcBodyReply, SpecRpcMessage};
use crate::xdr::{Emit, MaxLenBytes, OptionalData, XdrError, XdrOpaque, XdrSerialize, spec_bool_word, spec_u32_emit, spec_vec_emit, spec_vecs_emit};

verus! {

/// How a [`AuthUnix`] is written on the wire.
pub proof fn lemma_auth_unix_layout(v: SpecAuthUnix)
    ensures
        <AuthUnix as XdrSerialize>::spec_emit(v) == ({
            <u32 as XdrSerialize>::spec_emit(v.stamp).and_then(<Vec<u8> as XdrSerialize>::spec_emit(v.machinename)).and_then(<u32 as XdrSerialize>::spec_emit(v.uid)).and_then(<u32 as XdrSerialize>::spec_emit(v.gid)).and_then(<Vec<u32> as XdrSerialize>::spec_emit(v.gids))
        }),
{
}

/// How a [`OpaqueAuth`] is written on the wire.
pub proof fn lemma_opaque_auth_layout(v: SpecOpaqueAuth)
    ensures
        <OpaqueAuth as XdrSerialize>::spec_emit(v) == ({
            <AuthFlavor as XdrSerialize>::spec_emit(v.flavor).and_then(<Vec<u8> as XdrSerialize>::spec_emit(v.body))
        }),
{
}

/// How a [`RpcMessage`] is written on the wire.
pub proof fn lemma_rpc_message_layout(v: SpecRpcMessage)
    ensures
        <RpcMessage as XdrSerialize>::spec_emit(v) == ({
            <u32 as XdrSerialize>::spec_emit(v.xid).and_then(<RpcBody as XdrSerialize>::spec_emit(v.body))
        }),
{
}

/// How a [`RpcBody`] is written on the wire.
pub proof fn lemma_rpc_body_layout(v: SpecRpcBody)
    ensures
        <RpcBody as XdrSerialize>::spec_emit(v) == ({
            match v {
                SpecRpcBody::Call(x) => spec_u32_emit(0).and_then(<RpcBodyCall as XdrSerialize>::spec_emit(x)),
                SpecRpcBody::Reply(x) => spec_u32_emit(1).and_then(<RpcBodyReply as XdrSerialize>::spec_emit(x)),
            }
        }),
{
}

/// How a [`RpcBodyCall`] is written on the wire.
pub proof fn lemma_rpc_body_call_layout(v: SpecRpcBodyCall)
    ensures
        <RpcBodyCall as XdrSerialize>::spec_emit(v) == ({
            <u32 as XdrSerialize>::spec_emit(v.rpc_version).and_then(<u32 as XdrSerialize>::spec_emit(v.program)).and_then(<u32 as XdrSerialize>::spec_emit(v.version)).and_then(<u32 as XdrSerialize>::spec_emit(v.procedure)).and_then(<OpaqueAuth as XdrSerialize>::spec_emit(v.credentials)).and_then(<OpaqueAuth as XdrSerialize>::spec_emit(v.verifier))
        }),
{
}

/// How a [`RpcBodyReply`] is written on the wire.
pub proof fn lemma_rpc_body_reply_layout(v: SpecRpcBodyReply)
    ensures
        <RpcBodyReply as XdrSerialize>::spec_emit(v) == ({
            match v {
                SpecRpcBodyReply::Accepted(x) => spec_u32_emit(0).and_then(<AcceptedReply as XdrSerialize>::spec_emit(x)),
                SpecRpcBodyReply::Rejected(x) => spec_u32_emit(1).and_then(<RejectedReply as XdrSerialize>::spec_emit(x)),
            }
        }),
{
}

/// How a [`AcceptedReply`] is written on the wire.
pub proof fn lemma_accepted_reply_layout(v: SpecAcceptedReply)
    ensures
        <AcceptedReply as XdrSerialize>::spec_emit(v) == ({
            <OpaqueAuth as XdrSerialize>::spec_emit(v.verifier).and_then(<AcceptedBody as XdrSerialize>::spec_emit(v.body))
        }),
{
}

/// How a [`AcceptedBody`] is written on the wire.
pub proof fn lemma_accepted_body_layout(v: AcceptedBody)
    ensures
        <AcceptedBody as XdrSerialize>::spec_emit(v) == ({
            match v {
                AcceptedBody::Success => spec_u32_emit(0),
                AcceptedBody::ProgramUnavailable => spec_u32_emit(1),
                AcceptedBody::ProgramMismatch(x) => spec_u32_emit(2).and_then(<MismatchInfo as XdrSerialize>::spec_emit(x)),
                AcceptedBody::ProcedureUnavailable => spec_u32_emit(3),
                AcceptedBody::GarbageArguments => spec_u32_emit(4),
            }
        }),
{
}

/// How a [`RejectedReply`] is written on the wire.
pub proof fn lemma_rejected_reply_layout(v: RejectedReply)
    ensures
        <RejectedReply as XdrSerialize>::spec_emit(v) == ({
            match v {
                RejectedReply::RpcMismatch(x) => spec_u32_emit(0).and_then(<MismatchInfo as XdrSerialize>::spec_emit(x)),
                RejectedReply::AuthError(x) => spec_u32_emit(1).and_then(<AuthState as XdrSerialize>::spec_emit(x)),
            }
        }),
{
}

/// How a [`MismatchInfo`] is written on the wire.
pub proof fn lemma_mismatch_info_layout(v: MismatchInfo)
    ensures
        <MismatchInfo as XdrSerialize>::spec_emit(v) == ({
            <u32 as XdrSerialize>::spec_emit(v.low).and_then(<u32 as XdrSerialize>::spec_emit(v.high))
        }),
{
}

/// How a [`NfsFileSystemId`] is written on the wire.
pub proof fn lemma_nfs_file_system_id_layout(v: NfsFileSystemId)
    ensures
        <NfsFileSystemId as XdrSerialize>::spec_emit(v) == ({
            <u64 as XdrSerialize>::spec_emit(v.major).and_then(<u64 as XdrSerialize>::spec_emit(v.minor))
        }),
{
}

/// How a [`NfsTime`] is written on the wire.
pub proof fn lemma_nfs_time_layout(v: NfsTime)
    ensures
        <NfsTime as XdrSerialize>::spec_emit(v) == ({
            <i64 as XdrSerialize>::spec_emit(v.seconds).and_then(<u32 as XdrSerialize>::spec_emit(v.nseconds))
        }),
{
}

/// How a [`SetTime`] is written on the wire.
pub proof fn lemma_set_time_layout(v: SetTime)
    ensures
        <SetTime as XdrSerialize>::spec_emit(v) == ({
            match v {
                SetTime::SetToServer => Emit::Done(Seq::empty()),
                SetTime::SetToClient(x) => <NfsTime as XdrSerialize>::spec_emit(x),
            }
        }),
{
}

/// How a [`FsId`] is written on the wire.
pub proof fn lemma_fs_id_layout(v: SpecFsId)
    ensures
        <FsId as XdrSerialize>::spec_emit(v) == ({
            <u64 as XdrSerialize>::spec_emit(v.major).and_then(<u64 as XdrSerialize>::spec_emit(v.minor))
        }),
{
}

/// How a [`NfsChangePolicy`] is written on the wire.
pub proof fn lemma_nfs_change_policy_layout(v: NfsChangePolicy)
    ensures
        <NfsChangePolicy as XdrSerialize>::spec_emit(v) == ({
            <u64 as XdrSerialize>::spec_emit(v.major).and_then(<u64 as XdrSerialize>::spec_emit(v.minor))
        }),
{
}

/// How a [`NfsFsLocation`] is written on the wire.
pub proof fn lemma_nfs_fs_location_layout(v: SpecNfsFsLocation)
    ensures
        <NfsFsLocation as XdrSerialize>::spec_emit(v) == ({
            <Utf8StringCaseInsensitive as XdrSerialize>::spec_emit(v.server).and_then(<NfsPathName as XdrSerialize>::spec_emit(v.pathname))
        }),
{
}

/// How a [`NfsFsLocations`] is written on the wire.
pub proof fn lemma_nfs_fs_locations_layout(v: SpecNfsFsLocations)
    ensures
        <NfsFsLocations as XdrSerialize>::spec_emit(v) == ({
            <NfsPathName as XdrSerialize>::spec_emit(v.root).and_then(spec_vec_emit::<NfsFsLocation>(v.locations))
        }),
{
}

/// How a [`NfsAce`] is written on the wire.
pub proof fn lemma_nfs_ace_layout(v: SpecNfsAce)
    ensures
        <NfsAce as XdrSerialize>::spec_emit(v) == ({
            <NfsAceType as XdrSerialize>::spec_emit(v.typ).and_then(<NfsAceFlag as XdrSerialize>::spec_emit(v.flag)).and_then(<NfsAceMask as XdrSerialize>::spec_emit(v.access_mask)).and_then(<Utf8StringMixed as XdrSerialize>::spec_emit(v.who))
        }),
{
}

/// How a [`NfsAcl`] is written on the wire.
pub proof fn lemma_nfs_acl_layout(v: SpecNfsAcl)
    ensures
        <NfsAcl as XdrSerialize>::spec_emit(v) == ({
            <NfsAclFlag as XdrSerialize>::spec_emit(v.flag).and_then(spec_vec_emit::<NfsAce>(v.aces))
        }),
{
}

/// How a [`NfsModeMasked`] is written on the wire.
pub proof fn lemma_nfs_mode_masked_layout(v: NfsModeMasked)
    ensures
        <NfsModeMasked as XdrSerialize>::spec_emit(v) == ({
            <u32 as XdrSerialize>::spec_emit(v.value_to_set).and_then(<u32 as XdrSerialize>::spec_emit(v.mask_bits))
        }),
{
}

/// How a [`NfsSpecData`] is written on the wire.
pub proof fn lemma_nfs_spec_data_layout(v: NfsSpecData)
    ensures
        <NfsSpecData as XdrSerialize>::spec_emit(v) == ({
            <u32 as XdrSerialize>::spec_emit(v.specdata1).and_then(<u32 as XdrSerialize>::spec_emit(v.specdata1))
        }),
{
}

/// How a [`NetAddress`] is written on the wire.
pub proof fn lemma_net_address_layout(v: SpecNetAddress)
    ensures
        <NetAddress as XdrSerialize>::spec_emit(v) == ({
            <Vec<u8> as XdrSerialize>::spec_emit(v.netid).and_then(<Vec<u8> as XdrSerialize>::spec_emit(v.addr))
        }),
{
}

/// How a [`NfsImplId`] is written on the wire.
pub proof fn lemma_nfs_impl_id_layout(v: SpecNfsImplId)
    ensures
        <NfsImplId as XdrSerialize>::spec_emit(v) == ({
            <Utf8StringCaseInsensitive as XdrSerialize>::spec_emit(v.domain).and_then(<Utf8StringCaseSensitive as XdrSerialize>::spec_emit(v.name)).and_then(<NfsTime as XdrSerialize>::spec_emit(v.date))
        }),
{
}

/// How a [`StateId`] is written on the wire.
pub proof fn lemma_state_id_layout(v: SpecStateId)
    ensures
        <StateId as XdrSerialize>::spec_emit(v) == ({
            <SeqId as XdrSerialize>::spec_emit(v.seqid).and_then(<[u8; 12] as XdrSerialize>::spec_emit(v.other))
        }),
{
}

/// How a [`LayoutContent`] is written on the wire.
pub proof fn lemma_layout_content_layout(v: SpecLayoutContent)
    ensures
        <LayoutContent as XdrSerialize>::spec_emit(v) == ({
            <NfsLayoutType as XdrSerialize>::spec_emit(v.typ).and_then(<XdrOpaque as XdrSerialize>::spec_emit(v.body))
        }),
{
}

/// How a [`NfsLayoutHint`] is written on the wire.
pub proof fn lemma_nfs_layout_hint_layout(v: SpecNfsLayoutHint)
    ensures
        <NfsLayoutHint as XdrSerialize>::spec_emit(v) == ({
            <NfsLayoutType as XdrSerialize>::spec_emit(v.typ).and_then(<XdrOpaque as XdrSerialize>::spec_emit(v.body))
        }),
{
}

/// How a [`Layout`] is written on the wire.
pub proof fn lemma_layout_layout(v: SpecLayout)
    ensures
        <Layout as XdrSerialize>::spec_emit(v) == ({
            <Offset as XdrSerialize>::spec_emit(v.offset).and_then(<Length as XdrSerialize>::spec_emit(v.length)).and_then(<LayoutIoMode as XdrSerialize>::spec_emit(v.io_mode)).and_then(<LayoutContent as XdrSerialize>::spec_emit(v.content))
        }),
{
}

/// How a [`DeviceAddress`] is written on the wire.
pub proof fn lemma_device_address_layout(v: SpecDeviceAddress)
    ensures
        <DeviceAddress as XdrSerialize>::spec_emit(v) == ({
            <NfsLayoutType as XdrSerialize>::spec_emit(v.layout_type).and_then(<XdrOpaque as XdrSerialize>::spec_emit(v.addr_body))
        }),
{
}

/// How a [`LayoutUpdate`] is written on the wire.
pub proof fn lemma_layout_update_layout(v: SpecLayoutUpdate)
    ensures
        <LayoutUpdate as XdrSerialize>::spec_emit(v) == ({
            <NfsLayoutType as XdrSerialize>::spec_emit(v.typ).and_then(<XdrOpaque as XdrSerialize>::spec_emit(v.body))
        }),
{
}

/// How a [`LayoutReturnFile`] is written on the wire.
pub proof fn lemma_layout_return_file_layout(v: SpecLayoutReturnFile)
    ensures
        <LayoutReturnFile as XdrSerialize>::spec_emit(v) == ({
            <Offset as XdrSerialize>::spec_emit(v.offset).and_then(<Length as XdrSerialize>::spec_emit(v.length)).and_then(<StateId as XdrSerialize>::spec_emit(v.state_id)).and_then(<XdrOpaque as XdrSerialize>::spec_emit(v.body))
        }),
{
}

/// How a [`LayoutReturn`] is written on the wire.
pub proof fn lemma_layout_return_layout(v: SpecLayoutReturn)
    ensures
        <LayoutReturn as XdrSerialize>::spec_emit(v) == ({
            match v {
                SpecLayoutReturn::File(x) => spec_u32_emit(LayoutReturnType::File.spec_to_u32()).and_then(<LayoutReturnFile as XdrSerialize>::spec_emit(x)),
                SpecLayoutReturn::FsId => spec_u32_emit(LayoutReturnType::FsId.spec_to_u32()),
                SpecLayoutReturn::All => spec_u32_emit(LayoutReturnType::All.spec_to_u32()),
            }
        }),
{
}

/// How a [`NfsFsStatus`] is written on the wire.
pub proof fn lemma_nfs_fs_status_layout(v: SpecNfsFsStatus)
    ensures
        <NfsFsStatus as XdrSerialize>::spec_emit(v) == ({
            <bool as XdrSerialize>::spec_emit(v.absent).and_then(<FsStatusType as XdrSerialize>::spec_emit(v.typ)).and_then(<Utf8StringCaseSensitive as XdrSerialize>::spec_emit(v.source)).and_then(<Utf8StringCaseSensitive as XdrSerialize>::spec_emit(v.current)).and_then(<i32 as XdrSerialize>::spec_emit(v.age)).and_then(<NfsTime as XdrSerialize>::spec_emit(v.version))
        }),
{
}

/// How a [`ThresholdItem`] is written on the wire.
pub proof fn lemma_threshold_item_layout(v: SpecThresholdItem)
    ensures
        <ThresholdItem as XdrSerialize>::spec_emit(v) == ({
            <NfsLayoutType as XdrSerialize>::spec_emit(v.layout_type).and_then(<BitMap as XdrSerialize>::spec_emit(v.hintset)).and_then(<XdrOpaque as XdrSerialize>::spec_emit(v.hintlist))
        }),
{
}

/// How a [`MdsThreshold`] is written on the wire.
pub proof fn lemma_mds_threshold_layout(v: SpecMdsThreshold)
    ensures
        <MdsThreshold as XdrSerialize>::spec_emit(v) == ({
            spec_vec_emit::<ThresholdItem>(v.hints)
        }),
{
}

/// How a [`RetentionGet`] is written on the wire.
pub proof fn lemma_retention_get_layout(v: SpecRetentionGet)
    ensures
        <RetentionGet as XdrSerialize>::spec_emit(v) == ({
            <u64 as XdrSerialize>::spec_emit(v.duration).and_then(<Option<NfsTime> as XdrSerialize>::spec_emit(v.begin_time))
        }),
{
}

/// How a [`RetentionSet`] is written on the wire.
pub proof fn lemma_retention_set_layout(v: SpecRetentionSet)
    ensures
        <RetentionSet as XdrSerialize>::spec_emit(v) == ({
            <bool as XdrSerialize>::spec_emit(v.enable).and_then(<Option<u64> as XdrSerialize>::spec_emit(v.duration))
        }),
{
}

/// How a [`FileAttrs`] is written on the wire.
pub proof fn lemma_file_attrs_layout(v: SpecFileAttrs)
    ensures
        <FileAttrs as XdrSerialize>::spec_emit(v) == ({
            <BitMap as XdrSerialize>::spec_emit(v.mask).and_then(<AttrList as XdrSerialize>::spec_emit(v.attrs))
        }),
{
}

/// How a [`ChangeInfo`] is written on the wire.
pub proof fn lemma_change_info_layout(v: SpecChangeInfo)
    ensures
        <ChangeInfo as XdrSerialize>::spec_emit(v) == ({
            <bool as XdrSerialize>::spec_emit(v.atomic).and_then(<ChangeId as XdrSerialize>::spec_emit(v.before)).and_then(<ChangeId as XdrSerialize>::spec_emit(v.after))
        }),
{
}

/// How a [`CallbackClient`] is written on the wire.
pub proof fn lemma_callback_client_layout(v: SpecCallbackClient)
    ensures
        <CallbackClient as XdrSerialize>::spec_emit(v) == ({
            <u32 as XdrSerialize>::spec_emit(v.program).and_then(<NetAddress as XdrSerialize>::spec_emit(v.location))
        }),
{
}

/// How a [`NfsClientId`] is written on the wire.
pub proof fn lemma_nfs_client_id_layout(v: SpecNfsClientId)
    ensures
        <NfsClientId as XdrSerialize>::spec_emit(v) == ({
            <Verifier as XdrSerialize>::spec_emit(v.verifier).and_then(<MaxLenBytes<NFS_OPAQUE_LIMIT> as XdrSerialize>::spec_emit(v.id))
        }),
{
}

/// How a [`ClientOwner`] is written on the wire.
pub proof fn lemma_client_owner_layout(v: SpecClientOwner)
    ensures
        <ClientOwner as XdrSerialize>::spec_emit(v) == ({
            <Verifier as XdrSerialize>::spec_emit(v.verifier).and_then(<MaxLenBytes<NFS_OPAQUE_LIMIT> as XdrSerialize>::spec_emit(v.owner_id))
        }),
{
}

/// How a [`ServerOwner`] is written on the wire.
pub proof fn lemma_server_owner_layout(v: SpecServerOwner)
    ensures
        <ServerOwner as XdrSerialize>::spec_emit(v) == ({
            <u64 as XdrSerialize>::spec_emit(v.minor_id).and_then(<MaxLenBytes<NFS_OPAQUE_LIMIT> as XdrSerialize>::spec_emit(v.major_id))
        }),
{
}

/// How a [`StateOwner`] is written on the wire.
pub proof fn lemma_state_owner_layout(v: SpecStateOwner)
    ensures
        <StateOwner as XdrSerialize>::spec_emit(v) == ({
            <ClientId as XdrSerialize>::spec_emit(v.client_id).and_then(<MaxLenBytes<NFS_OPAQUE_LIMIT> as XdrSerialize>::spec_emit(v.owner))
        }),
{
}

/// How a [`SsvMicPlainToken`] is written on the wire.
pub proof fn lemma_ssv_mic_plain_token_layout(v: SpecSsvMicPlainToken)
    ensures
        <SsvMicPlainToken as XdrSerialize>::spec_emit(v) == ({
            <u32 as XdrSerialize>::spec_emit(v.ssv_seq).and_then(<XdrOpaque as XdrSerialize>::spec_emit(v.orig_plain))
        }),
{
}

/// How a [`SsvSealPlainToken`] is written on the wire.
pub proof fn lemma_ssv_seal_plain_token_layout(v: SpecSsvSealPlainToken)
    ensures
        <SsvSealPlainToken as XdrSerialize>::spec_emit(v) == ({
            <XdrOpaque as XdrSerialize>::spec_emit(v.confounder).and_then(<u32 as XdrSerialize>::spec_emit(v.ssv_seq)).and_then(<XdrOpaque as XdrSerialize>::spec_emit(v.orig_plain)).and_then(<XdrOpaque as XdrSerialize>::spec_emit(v.pad))
        }),
{
}

/// How a [`SsvSealCipherToken`] is written on the wire.
pub proof fn lemma_ssv_seal_cipher_token_layout(v: SpecSsvSealCipherToken)
    ensures
        <SsvSealCipherToken as XdrSerialize>::spec_emit(v) == ({
            <u32 as XdrSerialize>::spec_emit(v.ssv_seq).and_then(<XdrOpaque as XdrSerialize>::spec_emit(v.iv)).and_then(<XdrOpaque as XdrSerialize>::spec_emit(v.encr_data)).and_then(<XdrOpaque as XdrSerialize>::spec_emit(v.hmac))
        }),
{
}

/// How a [`NfsFsLocationsServer`] is written on the wire.
pub proof fn lemma_nfs_fs_locations_server_layout(v: SpecNfsFsLocationsServer)
    ensures
        <NfsFsLocationsServer as XdrSerialize>::spec_emit(v) == ({
            <i32 as XdrSerialize>::spec_emit(v.currency).and_then(<XdrOpaque as XdrSerialize>::spec_emit(v.info)).and_then(<Utf8StringCaseInsensitive as XdrSerialize>::spec_emit(v.server))
        }),
{
}

/// How a [`NfsFsLocationsItem`] is written on the wire.
pub proof fn lemma_nfs_fs_locations_item_layout(v: SpecNfsFsLocationsItem)
    ensures
        <NfsFsLocationsItem as XdrSerialize>::spec_emit(v) == ({
            spec_vec_emit::<NfsFsLocationsServer>(v.entries).and_then(<NfsPathName as XdrSerialize>::spec_emit(v.rootpath))
        }),
{
}

/// How a [`NfsFsLocationsInfo`] is written on the wire.
pub proof fn lemma_nfs_fs_locations_info_layout(v: SpecNfsFsLocationsInfo)
    ensures
        <NfsFsLocationsInfo as XdrSerialize>::spec_emit(v) == ({
            <u32 as XdrSerialize>::spec_emit(v.flags).and_then(<i32 as XdrSerialize>::spec_emit(v.valid_for)).and_then(<NfsPathName as XdrSerialize>::spec_emit(v.fs_root)).and_then(spec_vec_emit::<NfsFsLocationsItem>(v.items))
        }),
{
}

/// How a [`NfsFileLayoutHint`] is written on the wire.
pub proof fn lemma_nfs_file_layout_hint_layout(v: SpecNfsFileLayoutHint)
    ensures
        <NfsFileLayoutHint as XdrSerialize>::spec_emit(v) == ({
            <u32 as XdrSerialize>::spec_emit(v.care).and_then(<NflUtil as XdrSerialize>::spec_emit(v.util)).and_then(<Count as XdrSerialize>::spec_emit(v.stripe_count))
        }),
{
}

/// How a [`NfsFileLayoutDsAddress`] is written on the wire.
pub proof fn lemma_nfs_file_layout_ds_address_layout(v: SpecNfsFileLayoutDsAddress)
    ensures
        <NfsFileLayoutDsAddress as XdrSerialize>::spec_emit(v) == ({
            <Vec<u32> as XdrSerialize>::spec_emit(v.stripe_indices).and_then(spec_vecs_emit::<NetAddress>(v.multipath_ds_list))
        }),
{
}

/// How a [`NfsFileLayout`] is written on the wire.
pub proof fn lemma_nfs_file_layout_layout(v: SpecNfsFileLayout)
    ensures
        <NfsFileLayout as XdrSerialize>::spec_emit(v) == ({
            <DeviceId as XdrSerialize>::spec_emit(v.device_id).and_then(<NflUtil as XdrSerialize>::spec_emit(v.util)).and_then(<u32 as XdrSerialize>::spec_emit(v.first_stripe_index)).and_then(<Offset as XdrSerialize>::spec_emit(v.pattern_offset)).and_then(spec_vec_emit::<NfsFh>(v.fh_list))
        }),
{
}

/// How a [`AccessArgs`] is written on the wire.
pub proof fn lemma_access_args_layout(v: SpecAccessArgs)
    ensures
        <AccessArgs as XdrSerialize>::spec_emit(v) == ({
            <u32 as XdrSerialize>::spec_emit(v.access)
        }),
{
}

/// How a [`AccessOk`] is written on the wire.
pub proof fn lemma_access_ok_layout(v: SpecAccessOk)
    ensures
        <AccessOk as XdrSerialize>::spec_emit(v) == ({
            <u32 as XdrSerialize>::spec_emit(v.supported).and_then(<u32 as XdrSerialize>::spec_emit(v.access))
        }),
{
}

/// How a [`CloseArgs`] is written on the wire.
pub proof fn lemma_close_args_layout(v: SpecCloseArgs)
    ensures
        <CloseArgs as XdrSerialize>::spec_emit(v) == ({
            <SeqId as XdrSerialize>::spec_emit(v.seq_id).and_then(<StateId as XdrSerialize>::spec_emit(v.open_state_id))
        }),
{
}

/// How a [`CloseOk`] is written on the wire.
pub proof fn lemma_close_ok_layout(v: SpecCloseOk)
    ensures
        <CloseOk as XdrSerialize>::spec_emit(v) == ({
            <StateId as XdrSerialize>::spec_emit(v.state_id)
        }),
{
}

/// How a [`CommitArgs`] is written on the wire.
pub proof fn lemma_commit_args_layout(v: SpecCommitArgs)
    ensures
        <CommitArgs as XdrSerialize>::spec_emit(v) == ({
            <Offset as XdrSerialize>::spec_emit(v.offset).and_then(<Count as XdrSerialize>::spec_emit(v.count))
        }),
{
}

/// How a [`CommitOk`] is written on the wire.
pub proof fn lemma_commit_ok_layout(v: SpecCommitOk)
    ensures
        <CommitOk as XdrSerialize>::spec_emit(v) == ({
            <Verifier as XdrSerialize>::spec_emit(v.verifier)
        }),
{
}

/// How a [`CreateType`] is written on the wire.
pub proof fn lemma_create_type_layout(v: SpecCreateType)
    ensures
        <CreateType as XdrSerialize>::spec_emit(v) == ({
            match v {
                SpecCreateType::Link(x) => spec_u32_emit(NfsFileType::Link.spec_to_u32()).and_then(<LinkText as XdrSerialize>::spec_emit(x)),
                SpecCreateType::Block(x) => spec_u32_emit(NfsFileType::Block.spec_to_u32()).and_then(<NfsSpecData as XdrSerialize>::spec_emit(x)),
                SpecCreateType::Character(x) => spec_u32_emit(NfsFileType::Character.spec_to_u32()).and_then(<NfsSpecData as XdrSerialize>::spec_emit(x)),
                SpecCreateType::Socket => spec_u32_emit(NfsFileType::Socket.spec_to_u32()),
                SpecCreateType::Fifo => spec_u32_emit(NfsFileType::Fifo.spec_to_u32()),
                SpecCreateType::Directory => spec_u32_emit(NfsFileType::Directory.spec_to_u32()),
                SpecCreateType::Invalid(_) => Emit::Panics,
            }
        }),
{
}

/// How a [`CreateArgs`] is written on the wire.
pub proof fn lemma_create_args_layout(v: SpecCreateArgs)
    ensures
        <CreateArgs as XdrSerialize>::spec_emit(v) == ({
            <CreateType as XdrSerialize>::spec_emit(v.object_type).and_then(<Component as XdrSerialize>::spec_emit(v.object_name)).and_then(<FileAttrs as XdrSerialize>::spec_emit(v.create_attrs))
        }),
{
}

/// How a [`CreateOk`] is written on the wire.
pub proof fn lemma_create_ok_layout(v: SpecCreateOk)
    ensures
        <CreateOk as XdrSerialize>::spec_emit(v) == ({
            <ChangeInfo as XdrSerialize>::spec_emit(v.change_info).and_then(<BitMap as XdrSerialize>::spec_emit(v.attrset))
        }),
{
}

/// How a [`PurgeDelegationsArgs`] is written on the wire.
pub proof fn lemma_purge_delegations_args_layout(v: SpecPurgeDelegationsArgs)
    ensures
        <PurgeDelegationsArgs as XdrSerialize>::spec_emit(v) == ({
            <ClientId as XdrSerialize>::spec_emit(v.client_id)
        }),
{
}

/// How a [`ReturnDelegationArgs`] is written on the wire.
pub proof fn lemma_return_delegation_args_layout(v: SpecReturnDelegationArgs)
    ensures
        <ReturnDelegationArgs as XdrSerialize>::spec_emit(v) == ({
            <StateId as XdrSerialize>::spec_emit(v.delegation_state_id)
        }),
{
}

/// How a [`GetAttributesArgs`] is written on the wire.
pub proof fn lemma_get_attributes_args_layout(v: SpecGetAttributesArgs)
    ensures
        <GetAttributesArgs as XdrSerialize>::spec_emit(v) == ({
            <BitMap as XdrSerialize>::spec_emit(v.attr_request)
        }),
{
}

/// How a [`GetAttributesOk`] is written on the wire.
pub proof fn lemma_get_attributes_ok_layout(v: SpecGetAttributesOk)
    ensures
        <GetAttributesOk as XdrSerialize>::spec_emit(v) == ({
            <FileAttrs as XdrSerialize>::spec_emit(v.attributes)
        }),
{
}

/// How a [`GetFhOk`] is written on the wire.
pub proof fn lemma_get_fh_ok_layout(v: SpecGetFhOk)
    ensures
        <GetFhOk as XdrSerialize>::spec_emit(v) == ({
            <NfsFh as XdrSerialize>::spec_emit(v.object)
        }),
{
}

/// How a [`LinkArgs`] is written on the wire.
pub proof fn lemma_link_args_layout(v: SpecLinkArgs)
    ensures
        <LinkArgs as XdrSerialize>::spec_emit(v) == ({
            <Component as XdrSerialize>::spec_emit(v.new_name)
        }),
{
}

/// How a [`LinkOk`] is written on the wire.
pub proof fn lemma_link_ok_layout(v: SpecLinkOk)
    ensures
        <LinkOk as XdrSerialize>::spec_emit(v) == ({
            <ChangeInfo as XdrSerialize>::spec_emit(v.change_info)
        }),
{
}

/// How a [`OpenToLockOwner`] is written on the wire.
pub proof fn lemma_open_to_lock_owner_layout(v: SpecOpenToLockOwner)
    ensures
        <OpenToLockOwner as XdrSerialize>::spec_emit(v) == ({
            <SeqId as XdrSerialize>::spec_emit(v.open_seq_id).and_then(<StateId as XdrSerialize>::spec_emit(v.open_state_id)).and_then(<SeqId as XdrSerialize>::spec_emit(v.lock_seq_id)).and_then(<LockOwner as XdrSerialize>::spec_emit(v.lock_owner))
        }),
{
}

/// How a [`ExistingLockOwner`] is written on the wire.
pub proof fn lemma_existing_lock_owner_layout(v: SpecExistingLockOwner)
    ensures
        <ExistingLockOwner as XdrSerialize>::spec_emit(v) == ({
            <StateId as XdrSerialize>::spec_emit(v.state_id).and_then(<SeqId as XdrSerialize>::spec_emit(v.seq_id))
        }),
{
}

/// How a [`Locker`] is written on the wire.
pub proof fn lemma_locker_layout(v: SpecLocker)
    ensures
        <Locker as XdrSerialize>::spec_emit(v) == ({
            match v {
                SpecLocker::OpenOwner(x) => spec_u32_emit(spec_bool_word(true)).and_then(<OpenToLockOwner as XdrSerialize>::spec_emit(x)),
                SpecLocker::LockOwner(x) => spec_u32_emit(spec_bool_word(false)).and_then(<ExistingLockOwner as XdrSerialize>::spec_emit(x)),
            }
        }),
{
}

/// How a [`LockArgs`] is written on the wire.
pub proof fn lemma_lock_args_layout(v: SpecLockArgs)
    ensures
        <LockArgs as XdrSerialize>::spec_emit(v) == ({
            <NfsLockType as XdrSerialize>::spec_emit(v.lock_type).and_then(<bool as XdrSerialize>::spec_emit(v.reclaim)).and_then(<Offset as XdrSerialize>::spec_emit(v.offset)).and_then(<Length as XdrSerialize>::spec_emit(v.length)).and_then(<Locker as XdrSerialize>::spec_emit(v.locker))
        }),
{
}

/// How a [`LockOk`] is written on the wire.
pub proof fn lemma_lock_ok_layout(v: SpecLockOk)
    ensures
        <LockOk as XdrSerialize>::spec_emit(v) == ({
            <StateId as XdrSerialize>::spec_emit(v.state_id)
        }),
{
}

/// How a [`LockDenied`] is written on the wire.
pub proof fn lemma_lock_denied_layout(v: SpecLockDenied)
    ensures
        <LockDenied as XdrSerialize>::spec_emit(v) == ({
            <Offset as XdrSerialize>::spec_emit(v.offset).and_then(<Length as XdrSerialize>::spec_emit(v.length)).and_then(<NfsLockType as XdrSerialize>::spec_emit(v.lock_type)).and_then(<LockOwner as XdrSerialize>::spec_emit(v.owner))
        }),
{
}

/// How a [`LockReturn`] is written on the wire.
pub proof fn lemma_lock_return_layout(v: SpecLockReturn)
    ensures
        <LockReturn as XdrSerialize>::spec_emit(v) == ({
            match v {
                SpecLockReturn::Success(x) => <LockOk as XdrSerialize>::spec_emit(x),
                SpecLockReturn::Denied(x) => <LockDenied as XdrSerialize>::spec_emit(x),
            }
        }),
{
}

/// How a [`LockTestArgs`] is written on the wire.
pub proof fn lemma_lock_test_args_layout(v: SpecLockTestArgs)
    ensures
        <LockTestArgs as XdrSerialize>::spec_emit(v) == ({
            <NfsLockType as XdrSerialize>::spec_emit(v.lock_type).and_then(<Offset as XdrSerialize>::spec_emit(v.offset)).and_then(<Length as XdrSerialize>::spec_emit(v.length)).and_then(<LockOwner as XdrSerialize>::spec_emit(v.owner))
        }),
{
}

/// How a [`LockTestReturn`] is written on the wire.
pub proof fn lemma_lock_test_return_layout(v: SpecLockTestReturn)
    ensures
        <LockTestReturn as XdrSerialize>::spec_emit(v) == ({
            match v {
                SpecLockTestReturn::Success => Emit::Done(Seq::empty()),
                SpecLockTestReturn::Denied(x) => <LockDenied as XdrSerialize>::spec_emit(x),
            }
        }),
{
}

/// How a [`LockReleaseArgs`] is written on the wire.
pub proof fn lemma_lock_release_args_layout(v: SpecLockReleaseArgs)
    ensures
        <LockReleaseArgs as XdrSerialize>::spec_emit(v) == ({
            <NfsLockType as XdrSerialize>::spec_emit(v.lock_type).and_then(<SeqId as XdrSerialize>::spec_emit(v.seq_id)).and_then(<StateId as XdrSerialize>::spec_emit(v.state_id)).and_then(<Offset as XdrSerialize>::spec_emit(v.offset)).and_then(<Length as XdrSerialize>::spec_emit(v.length))
        }),
{
}

/// How a [`LockReleaseOk`] is written on the wire.
pub proof fn lemma_lock_release_ok_layout(v: SpecLockReleaseOk)
    ensures
        <LockReleaseOk as XdrSerialize>::spec_emit(v) == ({
            <StateId as XdrSerialize>::spec_emit(v.state_id)
        }),
{
}

/// How a [`LookupArgs`] is written on the wire.
pub proof fn lemma_lookup_args_layout(v: SpecLookupArgs)
    ensures
        <LookupArgs as XdrSerialize>::spec_emit(v) == ({
            <Component as XdrSerialize>::spec_emit(v.object_name)
        }),
{
}

/// How a [`VerifyAttributeDifferenceArgs`] is written on the wire.
pub proof fn lemma_verify_attribute_difference_args_layout(v: SpecVerifyAttributeDifferenceArgs)
    ensures
        <VerifyAttributeDifferenceArgs as XdrSerialize>::spec_emit(v) == ({
            <FileAttrs as XdrSerialize>::spec_emit(v.object_attrs)
        }),
{
}

/// How a [`CreateVerifiedFileAttrs`] is written on the wire.
pub proof fn lemma_create_verified_file_attrs_layout(v: SpecCreateVerifiedFileAttrs)
    ensures
        <CreateVerifiedFileAttrs as XdrSerialize>::spec_emit(v) == ({
            <Verifier as XdrSerialize>::spec_emit(v.verifier).and_then(<FileAttrs as XdrSerialize>::spec_emit(v.attrs))
        }),
{
}

/// How a [`CreateHow`] is written on the wire.
pub proof fn lemma_create_how_layout(v: SpecCreateHow)
    ensures
        <CreateHow as XdrSerialize>::spec_emit(v) == ({
            match v {
                SpecCreateHow::Unchecked(x) => spec_u32_emit(CreateMode::Unchecked.spec_to_u32()).and_then(<FileAttrs as XdrSerialize>::spec_emit(x)),
                SpecCreateHow::Guarded(x) => spec_u32_emit(CreateMode::Guarded.spec_to_u32()).and_then(<FileAttrs as XdrSerialize>::spec_emit(x)),
                SpecCreateHow::Exclusive4(x) => spec_u32_emit(CreateMode::Exclusive4.spec_to_u32()).and_then(<Verifier as XdrSerialize>::spec_emit(x)),
                SpecCreateHow::Exclusive4_1(x) => spec_u32_emit(CreateMode::Exclusive4_1.spec_to_u32()).and_then(<CreateVerifiedFileAttrs as XdrSerialize>::spec_emit(x)),
            }
        }),
{
}

/// How a [`OpenFlag`] is written on the wire.
pub proof fn lemma_open_flag_layout(v: SpecOpenFlag)
    ensures
        <OpenFlag as XdrSerialize>::spec_emit(v) == ({
            match v {
                SpecOpenFlag::NoCreate => spec_u32_emit(OpenType::NoCreate.spec_to_u32()),
                SpecOpenFlag::Create(x) => spec_u32_emit(OpenType::Create.spec_to_u32()).and_then(<CreateHow as XdrSerialize>::spec_emit(x)),
            }
        }),
{
}

/// How a [`NfsModifiedLimit`] is written on the wire.
pub proof fn lemma_nfs_modified_limit_layout(v: SpecNfsModifiedLimit)
    ensures
        <NfsModifiedLimit as XdrSerialize>::spec_emit(v) == ({
            <u32 as XdrSerialize>::spec_emit(v.num_blocks).and_then(<u32 as XdrSerialize>::spec_emit(v.bytes_per_block))
        }),
{
}

/// How a [`NfsSpaceLimit`] is written on the wire.
pub proof fn lemma_nfs_space_limit_layout(v: SpecNfsSpaceLimit)
    ensures
        <NfsSpaceLimit as XdrSerialize>::spec_emit(v) == ({
            match v {
                SpecNfsSpaceLimit::Size(x) => spec_u32_emit(LimitBy::Size.spec_to_u32()).and_then(<u64 as XdrSerialize>::spec_emit(x)),
                SpecNfsSpaceLimit::Blocks(x) => spec_u32_emit(LimitBy::Blocks.spec_to_u32()).and_then(<NfsModifiedLimit as XdrSerialize>::spec_emit(x)),
            }
        }),
{
}

/// How a [`CurrentDelegateOpenClaim`] is written on the wire.
pub proof fn lemma_current_delegate_open_claim_layout(v: SpecCurrentDelegateOpenClaim)
    ensures
        <CurrentDelegateOpenClaim as XdrSerialize>::spec_emit(v) == ({
            <StateId as XdrSerialize>::spec_emit(v.delegate_state_id).and_then(<Component as XdrSerialize>::spec_emit(v.file))
        }),
{
}

/// How a [`OpenClaim`] is written on the wire.
pub proof fn lemma_open_claim_layout(v: SpecOpenClaim)
    ensures
        <OpenClaim as XdrSerialize>::spec_emit(v) == ({
            match v {
                SpecOpenClaim::Null(x) => spec_u32_emit(OpenClaimType::Null.spec_to_u32()).and_then(<Component as XdrSerialize>::spec_emit(x)),
                SpecOpenClaim::Previous(x) => spec_u32_emit(OpenClaimType::Previous.spec_to_u32()).and_then(<OpenDelegationType as XdrSerialize>::spec_emit(x)),
                SpecOpenClaim::CurrentDelegate(x) => spec_u32_emit(OpenClaimType::CurrentDelegate.spec_to_u32()).and_then(<CurrentDelegateOpenClaim as XdrSerialize>::spec_emit(x)),
                SpecOpenClaim::PreviousDelegate(x) => spec_u32_emit(OpenClaimType::PreviousDelegate.spec_to_u32()).and_then(<Component as XdrSerialize>::spec_emit(x)),
                SpecOpenClaim::CurrentFh => spec_u32_emit(OpenClaimType::CurrentFh.spec_to_u32()),
                SpecOpenClaim::CurrentDelegateFh(x) => spec_u32_emit(OpenClaimType::CurrentDelegateFh.spec_to_u32()).and_then(<StateId as XdrSerialize>::spec_emit(x)),
                SpecOpenClaim::PreviousDelegateFh => spec_u32_emit(OpenClaimType::PreviousDelegateFh.spec_to_u32()),
            }
        }),
{
}

/// How a [`OpenArgs`] is written on the wire.
pub proof fn lemma_open_args_layout(v: SpecOpenArgs)
    ensures
        <OpenArgs as XdrSerialize>::spec_emit(v) == ({
            <SeqId as XdrSerialize>::spec_emit(v.seq_id).and_then(<u32 as XdrSerialize>::spec_emit(v.share_access)).and_then(<u32 as XdrSerialize>::spec_emit(v.share_deny)).and_then(<OpenOwner as XdrSerialize>::spec_emit(v.owner)).and_then(<OpenFlag as XdrSerialize>::spec_emit(v.how)).and_then(<OpenClaim as XdrSerialize>::spec_emit(v.claim))
        }),
{
}

/// How a [`OpenReadDelegation`] is written on the wire.
pub proof fn lemma_open_read_delegation_layout(v: SpecOpenReadDelegation)
    ensures
        <OpenReadDelegation as XdrSerialize>::spec_emit(v) == ({
            <StateId as XdrSerialize>::spec_emit(v.state_id).and_then(<bool as XdrSerialize>::spec_emit(v.recall)).and_then(<NfsAce as XdrSerialize>::spec_emit(v.permissions))
        }),
{
}

/// How a [`OpenWriteDelegation`] is written on the wire.
pub proof fn lemma_open_write_delegation_layout(v: SpecOpenWriteDelegation)
    ensures
        <OpenWriteDelegation as XdrSerialize>::spec_emit(v) == ({
            <StateId as XdrSerialize>::spec_emit(v.state_id).and_then(<bool as XdrSerialize>::spec_emit(v.recall)).and_then(<NfsSpaceLimit as XdrSerialize>::spec_emit(v.space_limit)).and_then(<NfsAce as XdrSerialize>::spec_emit(v.permissions))
        }),
{
}

/// How a [`OpenNoneDelegation`] is written on the wire.
pub proof fn lemma_open_none_delegation_layout(v: OpenNoneDelegation)
    ensures
        <OpenNoneDelegation as XdrSerialize>::spec_emit(v) == ({
            match v {
                OpenNoneDelegation::NotWanted => spec_u32_emit(WhyNoDelegation::NotWanted.spec_to_u32()),
                OpenNoneDelegation::Contention(x) => spec_u32_emit(WhyNoDelegation::Contention.spec_to_u32()).and_then(<bool as XdrSerialize>::spec_emit(x)),
                OpenNoneDelegation::Resource(x) => spec_u32_emit(WhyNoDelegation::Resource.spec_to_u32()).and_then(<bool as XdrSerialize>::spec_emit(x)),
                OpenNoneDelegation::NotSupportedFileType => spec_u32_emit(WhyNoDelegation::NotSupportedFileType.spec_to_u32()),
                OpenNoneDelegation::WriteDelegationNotSupportedFileType => spec_u32_emit(WhyNoDelegation::WriteDelegationNotSupportedFileType.spec_to_u32()),
                OpenNoneDelegation::NotSupportedUpgrade => spec_u32_emit(WhyNoDelegation::NotSupportedUpgrade.spec_to_u32()),
                OpenNoneDelegation::NotSupportedDowngrade => spec_u32_emit(WhyNoDelegation::NotSupportedDowngrade.spec_to_u32()),
                OpenNoneDelegation::Cancelled => spec_u32_emit(WhyNoDelegation::Cancelled.spec_to_u32()),
                OpenNoneDelegation::IsDirectory => spec_u32_emit(WhyNoDelegation::IsDirectory.spec_to_u32()),
            }
        }),
{
}

/// How a [`OpenDelegation`] is written on the wire.
pub proof fn lemma_open_delegation_layout(v: SpecOpenDelegation)
    ensures
        <OpenDelegation as XdrSerialize>::spec_emit(v) == ({
            match v {
                SpecOpenDelegation::NoDelegation => spec_u32_emit(OpenDelegationType::NoDelegation.spec_to_u32()),
                SpecOpenDelegation::Read(x) => spec_u32_emit(OpenDelegationType::Read.spec_to_u32()).and_then(<OpenReadDelegation as XdrSerialize>::spec_emit(x)),
                SpecOpenDelegation::Write(x) => spec_u32_emit(OpenDelegationType::Write.spec_to_u32()).and_then(<OpenWriteDelegation as XdrSerialize>::spec_emit(x)),
                SpecOpenDelegation::NoneExt(x) => spec_u32_emit(OpenDelegationType::NoneExt.spec_to_u32()).and_then(<OpenNoneDelegation as XdrSerialize>::spec_emit(x)),
            }
        }),
{
}

/// How a [`OpenResultFlags`] is written on the wire.
pub proof fn lemma_open_result_flags_layout(v: SpecOpenResultFlags)
    ensures
        <OpenResultFlags as XdrSerialize>::spec_emit(v) == ({
            <u32 as XdrSerialize>::spec_emit(v.0)
        }),
{
}

/// How a [`OpenOk`] is written on the wire.
pub proof fn lemma_open_ok_layout(v: SpecOpenOk)
    ensures
        <OpenOk as XdrSerialize>::spec_emit(v) == ({
            <StateId as XdrSerialize>::spec_emit(v.state_id).and_then(<ChangeInfo as XdrSerialize>::spec_emit(v.change_info)).and_then(<OpenResultFlags as XdrSerialize>::spec_emit(v.rflags)).and_then(<BitMap as XdrSerialize>::spec_emit(v.attrset)).and_then(<OpenDelegation as XdrSerialize>::spec_emit(v.delegation))
        }),
{
}

/// How a [`OpenAttributesArgs`] is written on the wire.
pub proof fn lemma_open_attributes_args_layout(v: SpecOpenAttributesArgs)
    ensures
        <OpenAttributesArgs as XdrSerialize>::spec_emit(v) == ({
            <bool as XdrSerialize>::spec_emit(v.create_dir)
        }),
{
}

/// How a [`OpenConfirmArgs`] is written on the wire.
pub proof fn lemma_open_confirm_args_layout(v: SpecOpenConfirmArgs)
    ensures
        <OpenConfirmArgs as XdrSerialize>::spec_emit(v) == ({
            <StateId as XdrSerialize>::spec_emit(v.open_state_id).and_then(<SeqId as XdrSerialize>::spec_emit(v.seq_id))
        }),
{
}

/// How a [`OpenDowngradeArgs`] is written on the wire.
pub proof fn lemma_open_downgrade_args_layout(v: SpecOpenDowngradeArgs)
    ensures
        <OpenDowngradeArgs as XdrSerialize>::spec_emit(v) == ({
            <StateId as XdrSerialize>::spec_emit(v.open_state_id).and_then(<SeqId as XdrSerialize>::spec_emit(v.seq_id))
        }),
{
}

/// How a [`OpenDowngradeOk`] is written on the wire.
pub proof fn lemma_open_downgrade_ok_layout(v: SpecOpenDowngradeOk)
    ensures
        <OpenDowngradeOk as XdrSerialize>::spec_emit(v) == ({
            <StateId as XdrSerialize>::spec_emit(v.open_state_id)
        }),
{
}

/// How a [`PutFhArgs`] is written on the wire.
pub proof fn lemma_put_fh_args_layout(v: SpecPutFhArgs)
    ensures
        <PutFhArgs as XdrSerialize>::spec_emit(v) == ({
            <NfsFh as XdrSerialize>::spec_emit(v.object)
        }),
{
}

/// How a [`ReadArgs`] is written on the wire.
pub proof fn lemma_read_args_layout(v: SpecReadArgs)
    ensures
        <ReadArgs as XdrSerialize>::spec_emit(v) == ({
            <StateId as XdrSerialize>::spec_emit(v.state_id).and_then(<Offset as XdrSerialize>::spec_emit(v.offset)).and_then(<Count as XdrSerialize>::spec_emit(v.count))
        }),
{
}

/// How a [`ReadOk`] is written on the wire.
pub proof fn lemma_read_ok_layout(v: SpecReadOk)
    ensures
        <ReadOk as XdrSerialize>::spec_emit(v) == ({
            <bool as XdrSerialize>::spec_emit(v.eof).and_then(<XdrOpaque as XdrSerialize>::spec_emit(v.data))
        }),
{
}

/// How a [`ReadDirectoryArgs`] is written on the wire.
pub proof fn lemma_read_directory_args_layout(v: SpecReadDirectoryArgs)
    ensures
        <ReadDirectoryArgs as XdrSerialize>::spec_emit(v) == ({
            <NfsCookie as XdrSerialize>::spec_emit(v.cookie).and_then(<Verifier as XdrSerialize>::spec_emit(v.cookie_verifier)).and_then(<Count as XdrSerialize>::spec_emit(v.directory_count)).and_then(<Count as XdrSerialize>::spec_emit(v.max_count)).and_then(<BitMap as XdrSerialize>::spec_emit(v.attr_request))
        }),
{
}

/// How a [`Entry`] is written on the wire.
pub proof fn lemma_entry_layout(v: SpecEntry)
    ensures
        <Entry as XdrSerialize>::spec_emit(v) == ({
            <NfsCookie as XdrSerialize>::spec_emit(v.cookie).and_then(<Component as XdrSerialize>::spec_emit(v.name)).and_then(<FileAttrs as XdrSerialize>::spec_emit(v.attrs))
        }),
{
}

/// How a [`DirectoryList`] is written on the wire.
pub proof fn lemma_directory_list_layout(v: SpecDirectoryList)
    ensures
        <DirectoryList as XdrSerialize>::spec_emit(v) == ({
            <OptionalData<Entry> as XdrSerialize>::spec_emit(v.entries).and_then(<bool as XdrSerialize>::spec_emit(v.eof))
        }),
{
}

/// How a [`ReadDirectoryOk`] is written on the wire.
pub proof fn lemma_read_directory_ok_layout(v: SpecReadDirectoryOk)
    ensures
        <ReadDirectoryOk as XdrSerialize>::spec_emit(v) == ({
            <Verifier as XdrSerialize>::spec_emit(v.cookie_verifier).and_then(<DirectoryList as XdrSerialize>::spec_emit(v.reply))
        }),
{
}

/// How a [`ReadLinkOk`] is written on the wire.
pub proof fn lemma_read_link_ok_layout(v: SpecReadLinkOk)
    ensures
        <ReadLinkOk as XdrSerialize>::spec_emit(v) == ({
            <LinkText as XdrSerialize>::spec_emit(v.link)
        }),
{
}

/// How a [`RemoveArgs`] is written on the wire.
pub proof fn lemma_remove_args_layout(v: SpecRemoveArgs)
    ensures
        <RemoveArgs as XdrSerialize>::spec_emit(v) == ({
            <Component as XdrSerialize>::spec_emit(v.target)
        }),
{
}

/// How a [`RemoveOk`] is written on the wire.
pub proof fn lemma_remove_ok_layout(v: SpecRemoveOk)
    ensures
        <RemoveOk as XdrSerialize>::spec_emit(v) == ({
            <ChangeInfo as XdrSerialize>::spec_emit(v.change_info)
        }),
{
}

/// How a [`RenameArgs`] is written on the wire.
pub proof fn lemma_rename_args_layout(v: SpecRenameArgs)
    ensures
        <RenameArgs as XdrSerialize>::spec_emit(v) == ({
            <Component as XdrSerialize>::spec_emit(v.old_name).and_then(<Component as XdrSerialize>::spec_emit(v.new_name))
        }),
{
}

/// How a [`RenameOk`] is written on the wire.
pub proof fn lemma_rename_ok_layout(v: SpecRenameOk)
    ensures
        <RenameOk as XdrSerialize>::spec_emit(v) == ({
            <ChangeInfo as XdrSerialize>::spec_emit(v.source_change_info).and_then(<ChangeInfo as XdrSerialize>::spec_emit(v.target_change_info))
        }),
{
}

/// How a [`RenewArgs`] is written on the wire.
pub proof fn lemma_renew_args_layout(v: SpecRenewArgs)
    ensures
        <RenewArgs as XdrSerialize>::spec_emit(v) == ({
            <ClientId as XdrSerialize>::spec_emit(v.client_id)
        }),
{
}

/// How a [`SecurityInfoArgs`] is written on the wire.
pub proof fn lemma_security_info_args_layout(v: SpecSecurityInfoArgs)
    ensures
        <SecurityInfoArgs as XdrSerialize>::spec_emit(v) == ({
            <Component as XdrSerialize>::spec_emit(v.name)
        }),
{
}

/// How a [`RpcSecGssInfo`] is written on the wire.
pub proof fn lemma_rpc_sec_gss_info_layout(v: SpecRpcSecGssInfo)
    ensures
        <RpcSecGssInfo as XdrSerialize>::spec_emit(v) == ({
            <SecOid as XdrSerialize>::spec_emit(v.oid).and_then(<QOp as XdrSerialize>::spec_emit(v.qop)).and_then(<RpcGssSvc as XdrSerialize>::spec_emit(v.service))
        }),
{
}

/// How a [`SecurityInfo`] is written on the wire.
pub proof fn lemma_security_info_layout(v: SpecSecurityInfo)
    ensures
        <SecurityInfo as XdrSerialize>::spec_emit(v) == ({
            match v {
                SpecSecurityInfo::RpcSecGss(x) => spec_u32_emit(RPCSEC_GSS).and_then(<RpcSecGssInfo as XdrSerialize>::spec_emit(x)),
                SpecSecurityInfo::Unknown => spec_u32_emit(0),
            }
        }),
{
}

/// How a [`SecurityInfoOk`] is written on the wire.
pub proof fn lemma_security_info_ok_layout(v: SpecSecurityInfoOk)
    ensures
        <SecurityInfoOk as XdrSerialize>::spec_emit(v) == ({
            spec_vec_emit::<SecurityInfo>(v.0)
        }),
{
}

/// How a [`SetAttributesArgs`] is written on the wire.
pub proof fn lemma_set_attributes_args_layout(v: SpecSetAttributesArgs)
    ensures
        <SetAttributesArgs as XdrSerialize>::spec_emit(v) == ({
            <StateId as XdrSerialize>::spec_emit(v.state_id).and_then(<FileAttrs as XdrSerialize>::spec_emit(v.object_attrs))
        }),
{
}

/// How a [`SetAttributesResult`] is written on the wire.
pub proof fn lemma_set_attributes_result_layout(v: SpecSetAttributesResult)
    ensures
        <SetAttributesResult as XdrSerialize>::spec_emit(v) == ({
            <BitMap as XdrSerialize>::spec_emit(v.attrsset)
        }),
{
}

/// How a [`SetClientIdArgs`] is written on the wire.
pub proof fn lemma_set_client_id_args_layout(v: SpecSetClientIdArgs)
    ensures
        <SetClientIdArgs as XdrSerialize>::spec_emit(v) == ({
            <NfsClientId as XdrSerialize>::spec_emit(v.client).and_then(<CallbackClient as XdrSerialize>::spec_emit(v.callback)).and_then(<u32 as XdrSerialize>::spec_emit(v.callback_ident))
        }),
{
}

/// How a [`SetClientIdOk`] is written on the wire.
pub proof fn lemma_set_client_id_ok_layout(v: SpecSetClientIdOk)
    ensures
        <SetClientIdOk as XdrSerialize>::spec_emit(v) == ({
            <ClientId as XdrSerialize>::spec_emit(v.client_id).and_then(<Verifier as XdrSerialize>::spec_emit(v.set_client_id_confirm))
        }),
{
}

/// How a [`SetClientIdConfirmArgs`] is written on the wire.
pub proof fn lemma_set_client_id_confirm_args_layout(v: SpecSetClientIdConfirmArgs)
    ensures
        <SetClientIdConfirmArgs as XdrSerialize>::spec_emit(v) == ({
            <ClientId as XdrSerialize>::spec_emit(v.client_id).and_then(<Verifier as XdrSerialize>::spec_emit(v.set_client_id_confirm))
        }),
{
}

/// How a [`VerifyArgs`] is written on the wire.
pub proof fn lemma_verify_args_layout(v: SpecVerifyArgs)
    ensures
        <VerifyArgs as XdrSerialize>::spec_emit(v) == ({
            <FileAttrs as XdrSerialize>::spec_emit(v.object_attrs)
        }),
{
}

/// How a [`WriteArgs`] is written on the wire.
pub proof fn lemma_write_args_layout(v: SpecWriteArgs)
    ensures
        <WriteArgs as XdrSerialize>::spec_emit(v) == ({
            <StateId as XdrSerialize>::spec_emit(v.state_id).and_then(<Offset as XdrSerialize>::spec_emit(v.offset)).and_then(<StableHow as XdrSerialize>::spec_emit(v.stable)).and_then(<XdrOpaque as XdrSerialize>::spec_emit(v.data))
        }),
{
}

/// How a [`WriteOk`] is written on the wire.
pub proof fn lemma_write_ok_layout(v: SpecWriteOk)
    ensures
        <WriteOk as XdrSerialize>::spec_emit(v) == ({
            <Count as XdrSerialize>::spec_emit(v.count).and_then(<StableHow as XdrSerialize>::spec_emit(v.committed)).and_then(<Verifier as XdrSerialize>::spec_emit(v.write_verifier))
        }),
{
}

/// How a [`ReleaseLockOwnerArgs`] is written on the wire.
pub proof fn lemma_release_lock_owner_args_layout(v: SpecReleaseLockOwnerArgs)
    ensures
        <ReleaseLockOwnerArgs as XdrSerialize>::spec_emit(v) == ({
            <LockOwner as XdrSerialize>::spec_emit(v.lock_owner)
        }),
{
}

/// How a [`GssCallbackHandles`] is written on the wire.
pub proof fn lemma_gss_callback_handles_layout(v: SpecGssCallbackHandles)
    ensures
        <GssCallbackHandles as XdrSerialize>::spec_emit(v) == ({
            <RpcGssSvc as XdrSerialize>::spec_emit(v.gcbp_service).and_then(<GssHandle as XdrSerialize>::spec_emit(v.gcbp_handle_from_server)).and_then(<GssHandle as XdrSerialize>::spec_emit(v.gcbp_handle_from_client))
        }),
{
}

/// How a [`CallbackSecurityParameters`] is written on the wire.
pub proof fn lemma_callback_security_parameters_layout(v: SpecCallbackSecurityParameters)
    ensures
        <CallbackSecurityParameters as XdrSerialize>::spec_emit(v) == ({
            match v {
                SpecCallbackSecurityParameters::NoAuth => spec_u32_emit(AuthFlavor::Null.spec_to_u32()),
                SpecCallbackSecurityParameters::Sys(x) => spec_u32_emit(AuthFlavor::Unix.spec_to_u32()).and_then(<AuthUnix as XdrSerialize>::spec_emit(x)),
                SpecCallbackSecurityParameters::RpcSecGss(x) => spec_u32_emit(AuthFlavor::RpcSecGss.spec_to_u32()).and_then(<GssCallbackHandles as XdrSerialize>::spec_emit(x)),
            }
        }),
{
}

/// How a [`BackchannelControlArgs`] is written on the wire.
pub proof fn lemma_backchannel_control_args_layout(v: SpecBackchannelControlArgs)
    ensures
        <BackchannelControlArgs as XdrSerialize>::spec_emit(v) == ({
            <u32 as XdrSerialize>::spec_emit(v.callback_program).and_then(<CallbackSecurityParameters as XdrSerialize>::spec_emit(v.security_parameters))
        }),
{
}

/// How a [`BindConnectionToSessionArgs`] is written on the wire.
pub proof fn lemma_bind_connection_to_session_args_layout(v: SpecBindConnectionToSessionArgs)
    ensures
        <BindConnectionToSessionArgs as XdrSerialize>::spec_emit(v) == ({
            <SessionId as XdrSerialize>::spec_emit(v.session_id).and_then(<ChannelDirectionFromClient as XdrSerialize>::spec_emit(v.channel_direction_from_client)).and_then(<bool as XdrSerialize>::spec_emit(v.use_conn_in_rdma))
        }),
{
}

/// How a [`BindConnectionToSessionOk`] is written on the wire.
pub proof fn lemma_bind_connection_to_session_ok_layout(v: SpecBindConnectionToSessionOk)
    ensures
        <BindConnectionToSessionOk as XdrSerialize>::spec_emit(v) == ({
            <SessionId as XdrSerialize>::spec_emit(v.session_id).and_then(<ChannelDirectionFromServer as XdrSerialize>::spec_emit(v.channel_direction_from_server)).and_then(<bool as XdrSerialize>::spec_emit(v.use_conn_in_rdma))
        }),
{
}

/// How a [`StateProtectOps`] is written on the wire.
pub proof fn lemma_state_protect_ops_layout(v: SpecStateProtectOps)
    ensures
        <StateProtectOps as XdrSerialize>::spec_emit(v) == ({
            <BitMap as XdrSerialize>::spec_emit(v.must_enforce).and_then(<BitMap as XdrSerialize>::spec_emit(v.must_allow))
        }),
{
}

/// How a [`SsvStateProtectParameters`] is written on the wire.
pub proof fn lemma_ssv_state_protect_parameters_layout(v: SpecSsvStateProtectParameters)
    ensures
        <SsvStateProtectParameters as XdrSerialize>::spec_emit(v) == ({
            <StateProtectOps as XdrSerialize>::spec_emit(v.ops).and_then(spec_vec_emit::<SecOid>(v.hash_algorithms)).and_then(spec_vec_emit::<SecOid>(v.encryption_algorithms)).and_then(<u32 as XdrSerialize>::spec_emit(v.window)).and_then(<u32 as XdrSerialize>::spec_emit(v.num_gss_handles))
        }),
{
}

/// How a [`StateProtectionArg`] is written on the wire.
pub proof fn lemma_state_protection_arg_layout(v: SpecStateProtectionArg)
    ensures
        <StateProtectionArg as XdrSerialize>::spec_emit(v) == ({
            match v {
                SpecStateProtectionArg::NoProtection => spec_u32_emit(StateProtectHow::NoProtection.spec_to_u32()),
                SpecStateProtectionArg::MachineCredentials(x) => spec_u32_emit(StateProtectHow::MachineCredentials.spec_to_u32()).and_then(<StateProtectOps as XdrSerialize>::spec_emit(x)),
                SpecStateProtectionArg::Ssv(x) => spec_u32_emit(StateProtectHow::Ssv.spec_to_u32()).and_then(<SsvStateProtectParameters as XdrSerialize>::spec_emit(x)),
            }
        }),
{
}

/// How a [`ExchangeIdArgs`] is written on the wire.
pub proof fn lemma_exchange_id_args_layout(v: SpecExchangeIdArgs)
    ensures
        <ExchangeIdArgs as XdrSerialize>::spec_emit(v) == ({
            <ClientOwner as XdrSerialize>::spec_emit(v.client_owner).and_then(<u32 as XdrSerialize>::spec_emit(v.flags)).and_then(<StateProtectionArg as XdrSerialize>::spec_emit(v.state_protect)).and_then(<Option<NfsImplId> as XdrSerialize>::spec_emit(v.client_impl_id))
        }),
{
}

/// How a [`SsvProtectionInfo`] is written on the wire.
pub proof fn lemma_ssv_protection_info_layout(v: SpecSsvProtectionInfo)
    ensures
        <SsvProtectionInfo as XdrSerialize>::spec_emit(v) == ({
            <StateProtectOps as XdrSerialize>::spec_emit(v.ops).and_then(<u32 as XdrSerialize>::spec_emit(v.hash_algorithm)).and_then(<u32 as XdrSerialize>::spec_emit(v.encryption_algorithm)).and_then(<u32 as XdrSerialize>::spec_emit(v.ssv_len)).and_then(<u32 as XdrSerialize>::spec_emit(v.window)).and_then(spec_vec_emit::<GssHandle>(v.handles))
        }),
{
}

/// How a [`StateProtectionResult`] is written on the wire.
pub proof fn lemma_state_protection_result_layout(v: SpecStateProtectionResult)
    ensures
        <StateProtectionResult as XdrSerialize>::spec_emit(v) == ({
            match v {
                SpecStateProtectionResult::NoProtection => spec_u32_emit(StateProtectHow::NoProtection.spec_to_u32()),
                SpecStateProtectionResult::MachineCredentials(x) => spec_u32_emit(StateProtectHow::MachineCredentials.spec_to_u32()).and_then(<StateProtectOps as XdrSerialize>::spec_emit(x)),
                SpecStateProtectionResult::Ssv(x) => spec_u32_emit(StateProtectHow::Ssv.spec_to_u32()).and_then(<SsvProtectionInfo as XdrSerialize>::spec_emit(x)),
            }
        }),
{
}

/// How a [`ExchangeIdOk`] is written on the wire.
pub proof fn lemma_exchange_id_ok_layout(v: SpecExchangeIdOk)
    ensures
        <ExchangeIdOk as XdrSerialize>::spec_emit(v) == ({
            <ClientId as XdrSerialize>::spec_emit(v.client_id).and_then(<SequenceId as XdrSerialize>::spec_emit(v.sequence_id)).and_then(<u32 as XdrSerialize>::spec_emit(v.flags)).and_then(<StateProtectionResult as XdrSerialize>::spec_emit(v.state_protection)).and_then(<ServerOwner as XdrSerialize>::spec_emit(v.server_owner)).and_then(<MaxLenBytes<NFS_OPAQUE_LIMIT> as XdrSerialize>::spec_emit(v.server_scope)).and_then(<Option<NfsImplId> as XdrSerialize>::spec_emit(v.server_impl_id))
        }),
{
}

/// How a [`ChannelAttrs`] is written on the wire.
pub proof fn lemma_channel_attrs_layout(v: ChannelAttrs)
    ensures
        <ChannelAttrs as XdrSerialize>::spec_emit(v) == ({
            <Count as XdrSerialize>::spec_emit(v.header_pad_size).and_then(<Count as XdrSerialize>::spec_emit(v.max_request_size)).and_then(<Count as XdrSerialize>::spec_emit(v.max_response_size)).and_then(<Count as XdrSerialize>::spec_emit(v.max_response_size_cached)).and_then(<Count as XdrSerialize>::spec_emit(v.max_operations)).and_then(<Count as XdrSerialize>::spec_emit(v.max_requests)).and_then(<Option<u32> as XdrSerialize>::spec_emit(v.rdma_ird))
        }),
{
}

/// How a [`CreateSessionArgs`] is written on the wire.
pub proof fn lemma_create_session_args_layout(v: SpecCreateSessionArgs)
    ensures
        <CreateSessionArgs as XdrSerialize>::spec_emit(v) == ({
            <ClientId as XdrSerialize>::spec_emit(v.client_id).and_then(<SequenceId as XdrSerialize>::spec_emit(v.sequence)).and_then(<u32 as XdrSerialize>::spec_emit(v.flags)).and_then(<ChannelAttrs as XdrSerialize>::spec_emit(v.fore_channel_attrs)).and_then(<ChannelAttrs as XdrSerialize>::spec_emit(v.back_channel_attrs)).and_then(<u32 as XdrSerialize>::spec_emit(v.callback_program)).and_then(spec_vec_emit::<CallbackSecurityParameters>(v.security_parameters))
        }),
{
}

/// How a [`CreateSessionOk`] is written on the wire.
pub proof fn lemma_create_session_ok_layout(v: SpecCreateSessionOk)
    ensures
        <CreateSessionOk as XdrSerialize>::spec_emit(v) == ({
            <SessionId as XdrSerialize>::spec_emit(v.session_id).and_then(<SequenceId as XdrSerialize>::spec_emit(v.sequence)).and_then(<u32 as XdrSerialize>::spec_emit(v.flags)).and_then(<ChannelAttrs as XdrSerialize>::spec_emit(v.fore_channel_attrs)).and_then(<ChannelAttrs as XdrSerialize>::spec_emit(v.back_channel_attrs))
        }),
{
}

/// How a [`DestroySessionArgs`] is written on the wire.
pub proof fn lemma_destroy_session_args_layout(v: SpecDestroySessionArgs)
    ensures
        <DestroySessionArgs as XdrSerialize>::spec_emit(v) == ({
            <SessionId as XdrSerialize>::spec_emit(v.session_id)
        }),
{
}

/// How a [`FreeStateIdArgs`] is written on the wire.
pub proof fn lemma_free_state_id_args_layout(v: SpecFreeStateIdArgs)
    ensures
        <FreeStateIdArgs as XdrSerialize>::spec_emit(v) == ({
            <StateId as XdrSerialize>::spec_emit(v.state_id)
        }),
{
}

/// How a [`GetDirectoryDelegationArgs`] is written on the wire.
pub proof fn lemma_get_directory_delegation_args_layout(v: SpecGetDirectoryDelegationArgs)
    ensures
        <GetDirectoryDelegationArgs as XdrSerialize>::spec_emit(v) == ({
            <bool as XdrSerialize>::spec_emit(v.signal_delegation_available).and_then(<BitMap as XdrSerialize>::spec_emit(v.notification_types)).and_then(<AttributeNotice as XdrSerialize>::spec_emit(v.child_attribute_delay)).and_then(<AttributeNotice as XdrSerialize>::spec_emit(v.directory_attribute_delay)).and_then(<BitMap as XdrSerialize>::spec_emit(v.child_attributes)).and_then(<BitMap as XdrSerialize>::spec_emit(v.directory_attributes))
        }),
{
}

/// How a [`GetDirectoryDelegationOk`] is written on the wire.
pub proof fn lemma_get_directory_delegation_ok_layout(v: SpecGetDirectoryDelegationOk)
    ensures
        <GetDirectoryDelegationOk as XdrSerialize>::spec_emit(v) == ({
            <Verifier as XdrSerialize>::spec_emit(v.cookie_verifier).and_then(<StateId as XdrSerialize>::spec_emit(v.state_id)).and_then(<BitMap as XdrSerialize>::spec_emit(v.notification)).and_then(<BitMap as XdrSerialize>::spec_emit(v.child_attributes))
        }),
{
}

/// How a [`GetDirectoryDelegationNonFatal`] is written on the wire.
pub proof fn lemma_get_directory_delegation_non_fatal_layout(v: SpecGetDirectoryDelegationNonFatal)
    ensures
        <GetDirectoryDelegationNonFatal as XdrSerialize>::spec_emit(v) == ({
            match v {
                SpecGetDirectoryDelegationNonFatal::Success(x) => spec_u32_emit(GetDirectoryDelegationStatus::Success.spec_to_u32()).and_then(<GetDirectoryDelegationOk as XdrSerialize>::spec_emit(x)),
                SpecGetDirectoryDelegationNonFatal::Unavailable(x) => spec_u32_emit(GetDirectoryDelegationStatus::Unavailable.spec_to_u32()).and_then(<bool as XdrSerialize>::spec_emit(x)),
            }
        }),
{
}

/// How a [`GetDeviceInfoArgs`] is written on the wire.
pub proof fn lemma_get_device_info_args_layout(v: SpecGetDeviceInfoArgs)
    ensures
        <GetDeviceInfoArgs as XdrSerialize>::spec_emit(v) == ({
            <DeviceId as XdrSerialize>::spec_emit(v.device_id).and_then(<NfsLayoutType as XdrSerialize>::spec_emit(v.layout_type)).and_then(<Count as XdrSerialize>::spec_emit(v.max_count)).and_then(<BitMap as XdrSerialize>::spec_emit(v.notify_types))
        }),
{
}

/// How a [`GetDeviceInfoOk`] is written on the wire.
pub proof fn lemma_get_device_info_ok_layout(v: SpecGetDeviceInfoOk)
    ensures
        <GetDeviceInfoOk as XdrSerialize>::spec_emit(v) == ({
            <DeviceAddress as XdrSerialize>::spec_emit(v.device_address).and_then(<BitMap as XdrSerialize>::spec_emit(v.notification))
        }),
{
}

/// How a [`GetDeviceInfoReturn`] is written on the wire.
pub proof fn lemma_get_device_info_return_layout(v: SpecGetDeviceInfoReturn)
    ensures
        <GetDeviceInfoReturn as XdrSerialize>::spec_emit(v) == ({
            match v {
                SpecGetDeviceInfoReturn::Success(x) => <GetDeviceInfoOk as XdrSerialize>::spec_emit(x),
                SpecGetDeviceInfoReturn::TooSmall(x) => <Count as XdrSerialize>::spec_emit(x),
            }
        }),
{
}

/// How a [`GetDeviceListArgs`] is written on the wire.
pub proof fn lemma_get_device_list_args_layout(v: SpecGetDeviceListArgs)
    ensures
        <GetDeviceListArgs as XdrSerialize>::spec_emit(v) == ({
            <NfsLayoutType as XdrSerialize>::spec_emit(v.layout_type).and_then(<Count as XdrSerialize>::spec_emit(v.max_devices)).and_then(<NfsCookie as XdrSerialize>::spec_emit(v.cookie)).and_then(<Verifier as XdrSerialize>::spec_emit(v.cookie_verifier))
        }),
{
}

/// How a [`GetDeviceListOk`] is written on the wire.
pub proof fn lemma_get_device_list_ok_layout(v: SpecGetDeviceListOk)
    ensures
        <GetDeviceListOk as XdrSerialize>::spec_emit(v) == ({
            <NfsCookie as XdrSerialize>::spec_emit(v.cookie).and_then(<Verifier as XdrSerialize>::spec_emit(v.cookie_verifier)).and_then(spec_vec_emit::<DeviceId>(v.device_ids)).and_then(<bool as XdrSerialize>::spec_emit(v.eof))
        }),
{
}

/// How a [`NewTime`] is written on the wire.
pub proof fn lemma_new_time_layout(v: NewTime)
    ensures
        <NewTime as XdrSerialize>::spec_emit(v) == ({
            match v {
                NewTime::Changed(x) => spec_u32_emit(spec_bool_word(true)).and_then(<NfsTime as XdrSerialize>::spec_emit(x)),
                NewTime::Unchanged => spec_u32_emit(spec_bool_word(false)),
            }
        }),
{
}

/// How a [`NewOffset`] is written on the wire.
pub proof fn lemma_new_offset_layout(v: NewOffset)
    ensures
        <NewOffset as XdrSerialize>::spec_emit(v) == ({
            match v {
                NewOffset::Changed(x) => spec_u32_emit(spec_bool_word(true)).and_then(<Offset as XdrSerialize>::spec_emit(x)),
                NewOffset::Unchanged => spec_u32_emit(spec_bool_word(false)),
            }
        }),
{
}

/// How a [`LayoutCommitArgs`] is written on the wire.
pub proof fn lemma_layout_commit_args_layout(v: SpecLayoutCommitArgs)
    ensures
        <LayoutCommitArgs as XdrSerialize>::spec_emit(v) == ({
            <Offset as XdrSerialize>::spec_emit(v.offset).and_then(<Length as XdrSerialize>::spec_emit(v.length)).and_then(<StateId as XdrSerialize>::spec_emit(v.state_id)).and_then(<NewOffset as XdrSerialize>::spec_emit(v.last_write_offset)).and_then(<NewTime as XdrSerialize>::spec_emit(v.time_modify)).and_then(<LayoutUpdate as XdrSerialize>::spec_emit(v.layout_update))
        }),
{
}

/// How a [`NewSize`] is written on the wire.
pub proof fn lemma_new_size_layout(v: NewSize)
    ensures
        <NewSize as XdrSerialize>::spec_emit(v) == ({
            match v {
                NewSize::Changed(x) => spec_u32_emit(spec_bool_word(true)).and_then(<Length as XdrSerialize>::spec_emit(x)),
                NewSize::Unchanged => spec_u32_emit(spec_bool_word(false)),
            }
        }),
{
}

/// How a [`LayoutCommitOk`] is written on the wire.
pub proof fn lemma_layout_commit_ok_layout(v: SpecLayoutCommitOk)
    ensures
        <LayoutCommitOk as XdrSerialize>::spec_emit(v) == ({
            <NewSize as XdrSerialize>::spec_emit(v.new_size)
        }),
{
}

/// How a [`LayoutGetArgs`] is written on the wire.
pub proof fn lemma_layout_get_args_layout(v: SpecLayoutGetArgs)
    ensures
        <LayoutGetArgs as XdrSerialize>::spec_emit(v) == ({
            <bool as XdrSerialize>::spec_emit(v.signal_layout_available).and_then(<NfsLayoutType as XdrSerialize>::spec_emit(v.layout_type)).and_then(<LayoutIoMode as XdrSerialize>::spec_emit(v.io_mode)).and_then(<Offset as XdrSerialize>::spec_emit(v.offset)).and_then(<Length as XdrSerialize>::spec_emit(v.length)).and_then(<Length as XdrSerialize>::spec_emit(v.min_length)).and_then(<StateId as XdrSerialize>::spec_emit(v.state_id)).and_then(<Count as XdrSerialize>::spec_emit(v.max_count))
        }),
{
}

/// How a [`LayoutGetOk`] is written on the wire.
pub proof fn lemma_layout_get_ok_layout(v: SpecLayoutGetOk)
    ensures
        <LayoutGetOk as XdrSerialize>::spec_emit(v) == ({
            <bool as XdrSerialize>::spec_emit(v.return_on_close).and_then(<StateId as XdrSerialize>::spec_emit(v.state_id)).and_then(spec_vec_emit::<Layout>(v.layout))
        }),
{
}

/// How a [`LayoutGetReturn`] is written on the wire.
pub proof fn lemma_layout_get_return_layout(v: SpecLayoutGetReturn)
    ensures
        <LayoutGetReturn as XdrSerialize>::spec_emit(v) == ({
            match v {
                SpecLayoutGetReturn::Success(x) => <LayoutGetOk as XdrSerialize>::spec_emit(x),
                SpecLayoutGetReturn::TryLater(x) => <bool as XdrSerialize>::spec_emit(x),
            }
        }),
{
}

/// How a [`LayoutReturnArgs`] is written on the wire.
pub proof fn lemma_layout_return_args_layout(v: SpecLayoutReturnArgs)
    ensures
        <LayoutReturnArgs as XdrSerialize>::spec_emit(v) == ({
            <bool as XdrSerialize>::spec_emit(v.reclaim).and_then(<NfsLayoutType as XdrSerialize>::spec_emit(v.layout_type)).and_then(<LayoutIoMode as XdrSerialize>::spec_emit(v.io_mode)).and_then(<LayoutReturn as XdrSerialize>::spec_emit(v.layout_return))
        }),
{
}

/// How a [`LayoutReturnReturn`] is written on the wire.
pub proof fn lemma_layout_return_return_layout(v: SpecLayoutReturnReturn)
    ensures
        <LayoutReturnReturn as XdrSerialize>::spec_emit(v) == ({
            match v {
                SpecLayoutReturnReturn::WithStateId(x) => spec_u32_emit(spec_bool_word(true)).and_then(<StateId as XdrSerialize>::spec_emit(x)),
                SpecLayoutReturnReturn::WithoutStateId => spec_u32_emit(spec_bool_word(false)),
            }
        }),
{
}

/// How a [`SequenceArgs`] is written on the wire.
pub proof fn lemma_sequence_args_layout(v: SpecSequenceArgs)
    ensures
        <SequenceArgs as XdrSerialize>::spec_emit(v) == ({
            <SessionId as XdrSerialize>::spec_emit(v.session_id).and_then(<SequenceId as XdrSerialize>::spec_emit(v.sequence_id)).and_then(<SlotId as XdrSerialize>::spec_emit(v.slot_id)).and_then(<SlotId as XdrSerialize>::spec_emit(v.highest_slot_id)).and_then(<bool as XdrSerialize>::spec_emit(v.cache_this))
        }),
{
}

/// How a [`SequenceOk`] is written on the wire.
pub proof fn lemma_sequence_ok_layout(v: SpecSequenceOk)
    ensures
        <SequenceOk as XdrSerialize>::spec_emit(v) == ({
            <SessionId as XdrSerialize>::spec_emit(v.session_id).and_then(<SequenceId as XdrSerialize>::spec_emit(v.sequence_id)).and_then(<SlotId as XdrSerialize>::spec_emit(v.slot_id)).and_then(<SlotId as XdrSerialize>::spec_emit(v.highest_slot_id)).and_then(<SlotId as XdrSerialize>::spec_emit(v.target_highest_slot_id)).and_then(<u32 as XdrSerialize>::spec_emit(v.status_flags))
        }),
{
}

/// How a [`SsaDigestInput`] is written on the wire.
pub proof fn lemma_ssa_digest_input_layout(v: SpecSsaDigestInput)
    ensures
        <SsaDigestInput as XdrSerialize>::spec_emit(v) == ({
            <SequenceArgs as XdrSerialize>::spec_emit(v.sequence_args)
        }),
{
}

/// How a [`SetSsvArgs`] is written on the wire.
pub proof fn lemma_set_ssv_args_layout(v: SpecSetSsvArgs)
    ensures
        <SetSsvArgs as XdrSerialize>::spec_emit(v) == ({
            <XdrOpaque as XdrSerialize>::spec_emit(v.ssv).and_then(<XdrOpaque as XdrSerialize>::spec_emit(v.digest))
        }),
{
}

/// How a [`SetSsvOk`] is written on the wire.
pub proof fn lemma_set_ssv_ok_layout(v: SpecSetSsvOk)
    ensures
        <SetSsvOk as XdrSerialize>::spec_emit(v) == ({
            <XdrOpaque as XdrSerialize>::spec_emit(v.digest)
        }),
{
}

/// How a [`TestStateIdsArgs`] is written on the wire.
pub proof fn lemma_test_state_ids_args_layout(v: SpecTestStateIdsArgs)
    ensures
        <TestStateIdsArgs as XdrSerialize>::spec_emit(v) == ({
            spec_vec_emit::<StateId>(v.state_ids)
        }),
{
}

/// How a [`TestStateIdsOk`] is written on the wire.
pub proof fn lemma_test_state_ids_ok_layout(v: SpecTestStateIdsOk)
    ensures
        <TestStateIdsOk as XdrSerialize>::spec_emit(v) == ({
            spec_vec_emit::<StateId>(v.state_ids)
        }),
{
}

/// How a [`DelegationClaim`] is written on the wire.
pub proof fn lemma_delegation_claim_layout(v: DelegationClaim)
    ensures
        <DelegationClaim as XdrSerialize>::spec_emit(v) == ({
            match v {
                DelegationClaim::Previous(x) => spec_u32_emit(OpenClaimType::Previous.spec_to_u32()).and_then(<OpenDelegationType as XdrSerialize>::spec_emit(x)),
                DelegationClaim::CurrentFh => spec_u32_emit(OpenClaimType::CurrentFh.spec_to_u32()),
                DelegationClaim::PreviousDelegateFh => spec_u32_emit(OpenClaimType::PreviousDelegateFh.spec_to_u32()),
                DelegationClaim::Invalid(_) => Emit::Fails(XdrError::Other, Seq::empty()),
            }
        }),
{
}

/// How a [`WantDelegationArgs`] is written on the wire.
pub proof fn lemma_want_delegation_args_layout(v: SpecWantDelegationArgs)
    ensures
        <WantDelegationArgs as XdrSerialize>::spec_emit(v) == ({
            <u32 as XdrSerialize>::spec_emit(v.want).and_then(<DelegationClaim as XdrSerialize>::spec_emit(v.claim))
        }),
{
}

/// How a [`WantDelegationOk`] is written on the wire.
pub proof fn lemma_want_delegation_ok_layout(v: SpecWantDelegationOk)
    ensures
        <WantDelegationOk as XdrSerialize>::spec_emit(v) == ({
            <OpenDelegation as XdrSerialize>::spec_emit(v.open_delegation)
        }),
{
}

/// How a [`DestroyClientIdArgs`] is written on the wire.
pub proof fn lemma_destroy_client_id_args_layout(v: DestroyClientIdArgs)
    ensures
        <DestroyClientIdArgs as XdrSerialize>::spec_emit(v) == ({
            <ClientId as XdrSerialize>::spec_emit(v.client_id)
        }),
{
}

/// How a [`ReclaimCompleteArgs`] is written on the wire.
pub proof fn lemma_reclaim_complete_args_layout(v: ReclaimCompleteArgs)
    ensures
        <ReclaimCompleteArgs as XdrSerialize>::spec_emit(v) == ({
            <bool as XdrSerialize>::spec_emit(v.one_fs)
        }),
{
}

} // verus!
