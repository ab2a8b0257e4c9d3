//! What a file system served over NFS is described with.
mod attributes;

pub use attributes::{NfsAttribute, NfsAttributes, SpecNfsAttributes};

pub use super::types::{
    NfsAce, NfsAceFlag, NfsAceMask, NfsAceType, NfsAclFlag, NfsChangePolicy, NfsExpirationPolicy,
    NfsFh, NfsFileSystemId, NfsFileType, NfsFsLocation, NfsFsLocations, NfsFsLocationsInfo,
    NfsFsLocationsItem, NfsFsLocationsServer, NfsFsStatus, NfsLayoutHint, NfsLayoutType,
    NfsModeMasked, NfsPathName, NfsSpecData, NfsTime,
};
pub use super::NfsStatus;
