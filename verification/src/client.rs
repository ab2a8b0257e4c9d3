//! The clients a server knows.
use vstd::prelude::*;
use crate::nfs::constants::NFS_OPAQUE_LIMIT;
use crate::nfs::types::{ClientId, ClientOwner, SequenceId, SpecClientOwner, Verifier};
use crate::xdr::MaxLenBytes;

verus! {

/// A client of the server: who owns it, the verifier it identified with,
/// its id, its sequence and whether it has been confirmed.
#[derive(Debug)]
pub struct Client {
    pub owner_id: MaxLenBytes<NFS_OPAQUE_LIMIT>,
    pub verifier: Verifier,
    pub client_id: ClientId,
    pub sequence: SequenceId,
    pub confirmed: bool,
}

/// The deep view of a [`Client`].
pub struct SpecClient {
    pub owner_id: Seq<u8>,
    pub verifier: Seq<u8>,
    pub client_id: u64,
    pub sequence: u32,
    pub confirmed: bool,
}

impl DeepView for Client {
    type V = SpecClient;

    open spec fn deep_view(&self) -> SpecClient {
        SpecClient {
            owner_id: self.owner_id.deep_view(),
            verifier: self.verifier.deep_view(),
            client_id: self.client_id,
            sequence: self.sequence,
            confirmed: self.confirmed,
        }
    }
}

impl Client {
    /// A new, unconfirmed client of the owner `owner`, with the id
    /// `client_id` and the sequence 1.
    pub fn new(owner: ClientOwner, client_id: ClientId) -> (c: Self)
        ensures
            c.deep_view() == (SpecClient {
                owner_id: owner.deep_view().owner_id,
                verifier: owner.deep_view().verifier,
                client_id,
                sequence: 1,
                confirmed: false,
            }),
    {
        Self {
            owner_id: owner.owner_id,
            verifier: owner.verifier,
            client_id,
            sequence: 1,
            confirmed: false,
        }
    }
}

} // verus!
