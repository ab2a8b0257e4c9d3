//! The state of an NFSv4.1 server: its identity, its clients and their
//! sessions, and the operations that change them.
use std::collections::HashMap;
use rand::RngExt as _;
use vstd::prelude::*;
use vstd::string::*;
use crate::client::{Client, SpecClient};
use crate::nfs::constants::{
    EXCHANGE_ID_FLAG_CONFIRMED_R, EXCHANGE_ID_FLAG_USE_NON_PNFS, NFS_OPAQUE_LIMIT,
};
use crate::nfs::types::{
    ChannelAttrs, ClientId, CreateSessionArgs, CreateSessionOk, CreateSessionResult,
    ExchangeIdArgs, ExchangeIdOk, ExchangeIdResult, ServerOwner, SessionId,
    SpecCreateSessionArgs, SpecCreateSessionOk, SpecExchangeIdArgs, SpecExchangeIdOk,
    SpecServerOwner, SpecStateProtectionArg, SpecStateProtectionResult, StateProtectionArg,
    StateProtectionResult,
};
use crate::nfs::connection::{
    spec_acked, spec_read_to, spec_replied, NfsRequest, RequestError, RequestProgress,
};
use crate::nfs::types::{
    AccessArgs, BackchannelControlArgs, BindConnectionToSessionArgs, CloseArgs, CommitArgs,
    CreateArgs, DestroyClientIdArgs, DestroySessionArgs, FreeStateIdArgs, GetAttributesArgs,
    GetDeviceInfoArgs, GetDeviceListArgs, GetDirectoryDelegationArgs, LayoutCommitArgs,
    LayoutGetArgs, LayoutReturnArgs, LinkArgs, LockArgs, LockReleaseArgs, LockTestArgs,
    LookupArgs, OpenArgs, OpenAttributesArgs, OpenDowngradeArgs, PurgeDelegationsArgs,
    PutFhArgs, ReadArgs, ReadDirectoryArgs, ReclaimCompleteArgs, RemoveArgs, RenameArgs,
    ReturnDelegationArgs, SecurityInfoArgs, SecurityInfoNoNameArgs, SequenceArgs,
    SetAttributesArgs, SetSsvArgs, TestStateIdsArgs, VerifyArgs,
    VerifyAttributeDifferenceArgs, WantDelegationArgs, WriteArgs,
};
use crate::nfs::{NfsOperation, NfsStatus};
use crate::session::{spec_new_session, Session, SpecSession};
use crate::xdr::{be_write_u64, lemma_u128_be_injective, spec_u128_be, Emit, MaxLenBytes, Parse, XdrDeserialize, XdrError, XdrSerialize};

verus! {

broadcast use {
    vstd::std_specs::hash::group_hash_axioms,
    crate::byte_seq::lemma_bytes_deep_view,
    crate::byte_seq::lemma_byte_array_deep_view,
};

/// `rand::rng().random::<u64>()`: a number drawn from the thread's random
/// generator. Any `u64` may come back.
#[verifier::external_body]
fn random_u64() -> (n: u64) {
    rand::rng().random::<u64>()
}

/// The sixteen bytes of `n`, most significant first: those of its high
/// half, then those of its low half.
fn u128_to_be_bytes(n: u128) -> (b: [u8; 16])
    ensures
        b@ == spec_u128_be(n),
{
    assert((n >> 64u32) as u64 == (n / 0x1_0000_0000_0000_0000u128) as u64) by (bit_vector);
    assert(n as u64 == (n % 0x1_0000_0000_0000_0000u128) as u64) by (bit_vector);
    let hi = (n >> 64u32) as u64;
    let lo = n as u64;
    let h = be_write_u64(hi);
    let l = be_write_u64(lo);
    let b = [
        h[0], h[1], h[2], h[3], h[4], h[5], h[6], h[7],
        l[0], l[1], l[2], l[3], l[4], l[5], l[6], l[7],
    ];
    assert(b@ =~= h@ + l@);
    b
}

/// What a server holds: its owner and scope, its clients by id, the ids of
/// registered owners, its sessions by number (a session's id is the sixteen
/// bytes of its number, most significant first), and the next client id
/// and session number to hand out.
pub struct ServerView {
    pub server_owner: SpecServerOwner,
    pub server_scope: Seq<u8>,
    pub clients: Map<u64, SpecClient>,
    pub owners: Map<Seq<u8>, u64>,
    pub next_client_id: u64,
    pub sessions: Map<u128, SpecSession>,
    pub next_session_id: u128,
}

/// The map from owners to client ids that the pairs `s` make.
pub open spec fn spec_owner_map(s: Seq<(Seq<u8>, u64)>) -> Map<Seq<u8>, u64>
    decreases s.len(),
{
    if s.len() == 0 {
        Map::empty()
    } else {
        spec_owner_map(s.drop_last()).insert(s.last().0, s.last().1)
    }
}

/// The state of a server.
#[derive(Debug)]
pub struct NFSv41ServerInner {
    server_owner: ServerOwner,
    server_scope: MaxLenBytes<NFS_OPAQUE_LIMIT>,
    clients: HashMap<ClientId, Client>,
    client_ids_by_owner: Vec<(MaxLenBytes<NFS_OPAQUE_LIMIT>, ClientId)>,
    next_client_id: u64,
    sessions: HashMap<u128, Session>,
    next_session_id: u128,
}

impl View for NFSv41ServerInner {
    type V = ServerView;

    /// What the server holds.
    closed spec fn view(&self) -> ServerView {
        ServerView {
            server_owner: self.server_owner.deep_view(),
            server_scope: self.server_scope.deep_view(),
            clients: self.clients@.map_values(|c: Client| c.deep_view()),
            owners: spec_owner_map(self.owner_pairs()),
            next_client_id: self.next_client_id,
            sessions: self.sessions@.map_values(|s: Session| s.deep_view()),
            next_session_id: self.next_session_id,
        }
    }
}

impl NFSv41ServerInner {
    /// The owner and client id pairs of the registered owners.
    pub closed spec fn owner_pairs(&self) -> Seq<(Seq<u8>, u64)> {
        self.client_ids_by_owner.deep_view()
    }

    /// Each owner is registered once, to a client it owns; each client is
    /// kept under its own id.
    pub closed spec fn wf(&self) -> bool {
        let pairs = self.owner_pairs();
        &&& spec_unique_owners(pairs)
        &&& forall|i: int|
            0 <= i < pairs.len() ==> self.clients@.contains_key(#[trigger] pairs[i].1)
                && self.clients@[pairs[i].1].owner_id.deep_view() == pairs[i].0
        &&& forall|k: u64|
            #[trigger] self.clients@.contains_key(k) ==> self.clients@[k].client_id == k
                && k < self.next_client_id
    }
}


/// No owner occurs twice among the pairs `s`.
pub open spec fn spec_unique_owners(s: Seq<(Seq<u8>, u64)>) -> bool {
    forall|i: int, j: int| 0 <= i < j < s.len() ==> #[trigger] s[i].0 != #[trigger] s[j].0
}

/// The map holds an owner just where a pair does, and, where no owner occurs
/// twice, the id of that pair.
proof fn lemma_owner_map_lookup(s: Seq<(Seq<u8>, u64)>, k: Seq<u8>)
    ensures
        spec_owner_map(s).contains_key(k) <==> exists|i: int| 0 <= i < s.len() && #[trigger] s[i].0 == k,
        spec_unique_owners(s) ==> forall|i: int|
            0 <= i < s.len() && #[trigger] s[i].0 == k ==> spec_owner_map(s)[k] == s[i].1,
    decreases s.len(),
{
    if s.len() > 0 {
        let init = s.drop_last();
        lemma_owner_map_lookup(init, k);
        if spec_owner_map(s).contains_key(k) && s.last().0 != k {
            let i = choose|i: int| 0 <= i < init.len() && #[trigger] init[i].0 == k;
            assert(s[i].0 == k);
        }
        if exists|i: int| 0 <= i < s.len() && #[trigger] s[i].0 == k {
            let i = choose|i: int| 0 <= i < s.len() && #[trigger] s[i].0 == k;
            if i < s.len() - 1 {
                assert(init[i].0 == k);
            }
        }
        if spec_unique_owners(s) {
            assert(spec_unique_owners(init)) by {
                assert forall|i: int, j: int| 0 <= i < j < init.len() implies #[trigger] init[i].0
                    != #[trigger] init[j].0 by {
                    assert(s[i].0 != s[j].0);
                }
            }
            assert forall|i: int| 0 <= i < s.len() && #[trigger] s[i].0 == k implies spec_owner_map(
                s,
            )[k] == s[i].1 by {
                if i < s.len() - 1 {
                    assert(init[i].0 == k);
                    assert(s[i].0 != s[s.len() - 1].0);
                }
            }
        }
    }
}

/// Removing the pair of an owner that occurs once removes the owner from the
/// map.
proof fn lemma_owner_map_remove(s: Seq<(Seq<u8>, u64)>, i: int)
    requires
        spec_unique_owners(s),
        0 <= i < s.len(),
    ensures
        spec_unique_owners(s.remove(i)),
        spec_owner_map(s.remove(i)) == spec_owner_map(s).remove(s[i].0),
{
    let t = s.remove(i);
    assert forall|a: int, b: int| 0 <= a < b < t.len() implies #[trigger] t[a].0 != #[trigger] t[b].0 by {
        let a2 = if a < i { a } else { a + 1 };
        let b2 = if b < i { b } else { b + 1 };
        assert(t[a] == s[a2] && t[b] == s[b2]);
    }
    assert forall|k: Seq<u8>| #[trigger] spec_owner_map(t).contains_key(k) <==> spec_owner_map(s).remove(s[i].0).contains_key(k) by {
        lemma_owner_map_lookup(t, k);
        lemma_owner_map_lookup(s, k);
        if exists|j: int| 0 <= j < s.len() && #[trigger] s[j].0 == k {
            let j = choose|j: int| 0 <= j < s.len() && #[trigger] s[j].0 == k;
            if j < i {
                assert(t[j].0 == k);
            } else if j > i {
                assert(t[j - 1].0 == k);
            }
        }
        if exists|j: int| 0 <= j < t.len() && #[trigger] t[j].0 == k {
            let j = choose|j: int| 0 <= j < t.len() && #[trigger] t[j].0 == k;
            let j2 = if j < i { j } else { j + 1 };
            assert(s[j2].0 == k);
        }
    }
    assert forall|k: Seq<u8>| #[trigger] spec_owner_map(t).contains_key(k) implies spec_owner_map(t)[k] == spec_owner_map(s).remove(s[i].0)[k] by {
        lemma_owner_map_lookup(t, k);
        lemma_owner_map_lookup(s, k);
        let j = choose|j: int| 0 <= j < t.len() && #[trigger] t[j].0 == k;
        let j2 = if j < i { j } else { j + 1 };
        assert(s[j2].0 == k);
    }
    assert(spec_owner_map(t) =~= spec_owner_map(s).remove(s[i].0));
}

/// Setting the id of an owner that occurs once sets it in the map.
proof fn lemma_owner_map_update(s: Seq<(Seq<u8>, u64)>, i: int, v: u64)
    requires
        spec_unique_owners(s),
        0 <= i < s.len(),
    ensures
        spec_unique_owners(s.update(i, (s[i].0, v))),
        spec_owner_map(s.update(i, (s[i].0, v))) == spec_owner_map(s).insert(s[i].0, v),
{
    let t = s.update(i, (s[i].0, v));
    assert forall|a: int, b: int| 0 <= a < b < t.len() implies #[trigger] t[a].0 != #[trigger] t[b].0 by {
        assert(t[a].0 == s[a].0 && t[b].0 == s[b].0);
    }
    assert forall|k: Seq<u8>| #[trigger] spec_owner_map(t).contains_key(k) <==> spec_owner_map(s).insert(s[i].0, v).contains_key(k) by {
        lemma_owner_map_lookup(t, k);
        lemma_owner_map_lookup(s, k);
        if exists|j: int| 0 <= j < s.len() && #[trigger] s[j].0 == k {
            let j = choose|j: int| 0 <= j < s.len() && #[trigger] s[j].0 == k;
            assert(t[j].0 == k);
        }
        if exists|j: int| 0 <= j < t.len() && #[trigger] t[j].0 == k {
            let j = choose|j: int| 0 <= j < t.len() && #[trigger] t[j].0 == k;
            assert(s[j].0 == k);
        }
        assert(t[i].0 == s[i].0);
    }
    assert forall|k: Seq<u8>| #[trigger] spec_owner_map(t).contains_key(k) implies spec_owner_map(t)[k] == spec_owner_map(s).insert(s[i].0, v)[k] by {
        lemma_owner_map_lookup(t, k);
        lemma_owner_map_lookup(s, k);
        let j = choose|j: int| 0 <= j < t.len() && #[trigger] t[j].0 == k;
        assert(s[j].0 == k);
        if j == i {
            assert(t[i].1 == v);
        }
    }
    assert(spec_owner_map(t) =~= spec_owner_map(s).insert(s[i].0, v));
}


/// The clients a server holds, with the client `id` forgotten, and its
/// owner unregistered with it.
pub open spec fn spec_remove_client(s: ServerView, id: u64) -> ServerView {
    if s.clients.contains_key(id) {
        ServerView {
            clients: s.clients.remove(id),
            owners: s.owners.remove(s.clients[id].owner_id),
            ..s
        }
    } else {
        s
    }
}

/// The clients a server holds, with the client `c` kept under its id and
/// its owner registered to it.
pub open spec fn spec_add_client(s: ServerView, c: SpecClient) -> ServerView {
    ServerView {
        clients: s.clients.insert(c.client_id, c),
        owners: s.owners.insert(c.owner_id, c.client_id),
        ..s
    }
}

/// The flags of an `EXCHANGE_ID` answer: files without pNFS, and whether the
/// client is confirmed.
pub open spec fn spec_exchange_id_flags(confirmed: bool) -> u32 {
    if confirmed {
        EXCHANGE_ID_FLAG_USE_NON_PNFS | EXCHANGE_ID_FLAG_CONFIRMED_R
    } else {
        EXCHANGE_ID_FLAG_USE_NON_PNFS
    }
}

/// The answer of `EXCHANGE_ID` for the client `id` with the sequence `seq`.
pub open spec fn spec_exchange_id_ok(s: ServerView, id: u64, seq: u32, confirmed: bool) -> SpecExchangeIdOk {
    SpecExchangeIdOk {
        client_id: id,
        sequence_id: seq,
        flags: spec_exchange_id_flags(confirmed),
        state_protection: SpecStateProtectionResult::NoProtection,
        server_owner: s.server_owner,
        server_scope: s.server_scope,
        server_impl_id: None,
    }
}

/// What `EXCHANGE_ID` does to a server and answers. State protection is
/// refused. An owner registered to a client with the same verifier gets that
/// client back; otherwise a client registered to the owner is forgotten, and
/// the owner gets a new client under the next id, unconfirmed, with the
/// sequence 1 (the owner is not registered to it).
pub open spec fn spec_exchange_id(s: ServerView, args: SpecExchangeIdArgs) -> (
    ServerView,
    Result<SpecExchangeIdOk, NfsStatus>,
) {
    let owner = args.client_owner.owner_id;
    if !(args.state_protect is NoProtection) {
        (s, Err(NfsStatus::EINVAL))
    } else if s.owners.contains_key(owner) && s.clients[s.owners[owner]].verifier
        == args.client_owner.verifier {
        let id = s.owners[owner];
        let c = s.clients[id];
        (s, Ok(spec_exchange_id_ok(s, id, c.sequence, c.confirmed)))
    } else {
        let s1 = if s.owners.contains_key(owner) {
            spec_remove_client(s, s.owners[owner])
        } else {
            s
        };
        let id = s1.next_client_id;
        let c = SpecClient {
            owner_id: owner,
            verifier: args.client_owner.verifier,
            client_id: id,
            sequence: 1,
            confirmed: false,
        };
        let s2 = ServerView {
            clients: s1.clients.insert(id, c),
            next_client_id: (id + 1) as u64,
            ..s1
        };
        (s2, Ok(spec_exchange_id_ok(s1, id, 1, false)))
    }
}

/// What `CREATE_SESSION` does to a server and answers. The next session
/// number is taken whatever comes; the request's client, where the server
/// has it, is confirmed and gets the session the request asks for, under
/// that number; otherwise the client id is stale.
pub open spec fn spec_create_session(s: ServerView, args: SpecCreateSessionArgs) -> (
    ServerView,
    Result<SpecCreateSessionOk, NfsStatus>,
) {
    let num = s.next_session_id;
    let s1 = ServerView { next_session_id: (num + 1) as u128, ..s };
    if s.clients.contains_key(args.client_id) {
        let c = s.clients[args.client_id];
        let s2 = ServerView {
            clients: s1.clients.insert(args.client_id, SpecClient { confirmed: true, ..c }),
            sessions: s1.sessions.insert(num, spec_new_session(args)),
            ..s1
        };
        (
            s2,
            Ok(
                SpecCreateSessionOk {
                    session_id: spec_u128_be(num),
                    sequence: args.sequence,
                    flags: 0,
                    fore_channel_attrs: args.fore_channel_attrs,
                    back_channel_attrs: args.back_channel_attrs,
                },
            ),
        )
    } else {
        (s1, Err(NfsStatus::StaleClientId))
    }
}

/// `r` is the answer `a`.
pub open spec fn spec_answers<T: DeepView>(r: Result<T, NfsStatus>, a: Result<T::V, NfsStatus>) -> bool {
    match a {
        Ok(v) => r is Ok && r->Ok_0.deep_view() == v,
        Err(e) => r == Err::<T, NfsStatus>(e),
    }
}

/// Whether two verifiers are the same.
fn same_verifier(a: &[u8; 8], b: &[u8; 8]) -> (r: bool)
    ensures
        r == (a@ == b@),
{
    for i in 0..8usize
        invariant
            forall|j: int| 0 <= j < i ==> a@[j] == b@[j],
    {
        if a[i] != b[i] {
            return false;
        }
    }
    assert(a@ =~= b@);
    true
}

impl NFSv41ServerInner {
    /// The index of the pair of the owner `owner`, if it is registered.
    fn find_owner(&self, owner: &MaxLenBytes<NFS_OPAQUE_LIMIT>) -> (r: Option<usize>)
        ensures
            match r {
                Some(i) => i < self.owner_pairs().len() && self.owner_pairs()[i as int].0
                    == owner.deep_view(),
                None => forall|i: int|
                    0 <= i < self.owner_pairs().len() ==> #[trigger] self.owner_pairs()[i].0
                        != owner.deep_view(),
            },
    {
        let n = self.client_ids_by_owner.len();
        for i in 0..n
            invariant
                n == self.owner_pairs().len(),
                forall|j: int| 0 <= j < i ==> #[trigger] self.owner_pairs()[j].0 != owner.deep_view(),
        {
            if self.client_ids_by_owner[i].0.same_bytes(owner) {
                return Some(i);
            }
        }
        None
    }

    /// A copy of the server's owner.
    fn copy_owner(&self) -> (o: ServerOwner)
        ensures
            o.deep_view() == self@.server_owner,
    {
        ServerOwner {
            minor_id: self.server_owner.minor_id,
            major_id: self.server_owner.major_id.duplicate(),
        }
    }

    /// Adds the client `client`: it is kept under its id, and its owner is
    /// registered to it. The server keeps its invariant where the id is one
    /// it has handed out already (below the next client id); `EXCHANGE_ID`
    /// relies on the next id being free.
    fn add_client(&mut self, client: Client)
        requires
            old(self).wf(),
            !old(self)@.clients.contains_key(client.client_id),
        ensures
            final(self)@ == spec_add_client(old(self)@, client.deep_view()),
            client.client_id < old(self)@.next_client_id ==> final(self).wf(),
    {
        let ghost pairs = self.owner_pairs();
        let id = client.client_id;
        let owner = client.owner_id.duplicate();
        match self.find_owner(&owner) {
            Some(i) => {
                proof {
                    lemma_owner_map_update(pairs, i as int, id);
                }
                self.client_ids_by_owner.set(i, (owner, id));
                assert(self.owner_pairs() =~= pairs.update(i as int, (pairs[i as int].0, id)));
            },
            None => {
                self.client_ids_by_owner.push((owner, id));
                assert(self.owner_pairs() =~= pairs.push((client.owner_id.deep_view(), id)));
                assert(self.owner_pairs().drop_last() =~= pairs);
            },
        }
        self.clients.insert(id, client);
        assert(self@.clients =~= old(self)@.clients.insert(id, client.deep_view()));
    }

    /// Forgets the client `client_id`, and unregisters its owner; an unknown
    /// client changes nothing.
    fn remove_client(&mut self, client_id: ClientId)
        requires
            old(self).wf(),
        ensures
            final(self).wf(),
            final(self)@ == spec_remove_client(old(self)@, client_id),
    {
        let ghost pairs = self.owner_pairs();
        let removed = self.clients.remove(&client_id);
        match removed {
            None => {
                assert(self@.clients =~= old(self)@.clients);
            },
            Some(client) => {
                assert(self@.clients =~= old(self)@.clients.remove(client_id));
                match self.find_owner(&client.owner_id) {
                    Some(i) => {
                        proof {
                            lemma_owner_map_remove(pairs, i as int);
                        }
                        self.client_ids_by_owner.remove(i);
                        assert(self.owner_pairs() =~= pairs.remove(i as int));
                    },
                    None => {
                        proof {
                            lemma_owner_map_lookup(pairs, client.owner_id.deep_view());
                            assert(spec_owner_map(pairs).remove(client.owner_id.deep_view())
                                =~= spec_owner_map(pairs));
                        }
                    },
                }
            },
        }
    }
}


impl NFSv41ServerInner {
    /// Instantiates a client id (`EXCHANGE_ID`, RFC 8881 section 18.35): an
    /// owner registered to a client with the same verifier gets that client
    /// back; any other gets a new client id. State protection is refused.
    pub fn exchange_id(&mut self, args: ExchangeIdArgs) -> (r: ExchangeIdResult)
        requires
            old(self).wf(),
            old(self)@.next_client_id < u64::MAX,
        ensures
            final(self).wf(),
            final(self)@ == spec_exchange_id(old(self)@, args.deep_view()).0,
            spec_answers(r, spec_exchange_id(old(self)@, args.deep_view()).1),
    {
        if !matches!(args.state_protect, StateProtectionArg::NoProtection) {
            return Err(NfsStatus::EINVAL);
        }
        let ghost pairs = self.owner_pairs();
        let ghost owner = args.client_owner.owner_id.deep_view();
        proof {
            lemma_owner_map_lookup(pairs, owner);
        }
        match self.find_owner(&args.client_owner.owner_id) {
            Some(i) => {
                let client_id = self.client_ids_by_owner[i].1;
                assert(self.owner_pairs()[i as int].1 == client_id);
                match self.clients.get(&client_id) {
                    Some(client) => {
                        if same_verifier(&args.client_owner.verifier, &client.verifier) {
                            let mut flags = EXCHANGE_ID_FLAG_USE_NON_PNFS;
                            if client.confirmed {
                                flags = flags | EXCHANGE_ID_FLAG_CONFIRMED_R;
                            }
                            let sequence_id = client.sequence;
                            return Ok(
                                ExchangeIdOk {
                                    client_id,
                                    sequence_id,
                                    flags,
                                    state_protection: StateProtectionResult::NoProtection,
                                    server_owner: self.copy_owner(),
                                    server_scope: self.server_scope.duplicate(),
                                    server_impl_id: None,
                                },
                            );
                        }
                    },
                    None => {
                        assert(false);
                    },
                }
                self.remove_client(client_id);
            },
            None => {},
        }
        let client_id = self.next_client_id;
        self.next_client_id = self.next_client_id + 1;
        let client = Client::new(args.client_owner, client_id);
        let sequence_id = client.sequence;
        proof {
            assert forall|j: int| 0 <= j < self.owner_pairs().len() implies #[trigger] self.owner_pairs()[j].1
                != client_id || self.clients@.contains_key(client_id) by {}
        }
        self.clients.insert(client_id, client);
        assert(self@.clients =~= spec_exchange_id(old(self)@, args.deep_view()).0.clients);
        Ok(
            ExchangeIdOk {
                client_id,
                sequence_id,
                flags: EXCHANGE_ID_FLAG_USE_NON_PNFS,
                state_protection: StateProtectionResult::NoProtection,
                server_owner: self.copy_owner(),
                server_scope: self.server_scope.duplicate(),
                server_impl_id: None,
            },
        )
    }

    /// Creates a session and confirms its client (`CREATE_SESSION`, RFC 8881
    /// section 18.36). The session number is taken even where the client id
    /// is stale.
    pub fn create_session(&mut self, args: CreateSessionArgs) -> (r: CreateSessionResult)
        requires
            old(self).wf(),
            old(self)@.next_session_id < u128::MAX,
        ensures
            final(self).wf(),
            final(self)@ == spec_create_session(old(self)@, args.deep_view()).0,
            spec_answers(r, spec_create_session(old(self)@, args.deep_view()).1),
    {
        let num = self.next_session_id;
        self.next_session_id = self.next_session_id + 1;
        let session_id = u128_to_be_bytes(num);
        let client_id = args.client_id;
        match self.clients.remove(&client_id) {
            Some(client) => {
                let mut client = client;
                client.confirmed = true;
                self.clients.insert(client_id, client);
                let resp = CreateSessionOk {
                    session_id,
                    sequence: args.sequence,
                    flags: 0,
                    fore_channel_attrs: copy_channel_attrs(&args.fore_channel_attrs),
                    back_channel_attrs: copy_channel_attrs(&args.back_channel_attrs),
                };
                let session = Session::new(args);
                self.sessions.insert(num, session);
                assert(self@.clients =~= spec_create_session(old(self)@, args.deep_view()).0.clients);
                assert(self@.sessions =~= spec_create_session(old(self)@, args.deep_view()).0.sessions);
                Ok(resp)
            },
            None => {
                assert(self@.clients =~= old(self)@.clients);
                Err(NfsStatus::StaleClientId)
            },
        }
    }
}

/// A copy of the channel attributes `a`.
fn copy_channel_attrs(a: &ChannelAttrs) -> (c: ChannelAttrs)
    ensures
        c.deep_view() == a.deep_view(),
{
    ChannelAttrs {
        header_pad_size: a.header_pad_size,
        max_request_size: a.max_request_size,
        max_response_size: a.max_response_size,
        max_response_size_cached: a.max_response_size_cached,
        max_operations: a.max_operations,
        max_requests: a.max_requests,
        rdma_ird: a.rdma_ird,
    }
}


// ---------------------------------------------------------------------------
// Answering the operations of a request
// ---------------------------------------------------------------------------

/// Why answering an operation stopped the request.
#[derive(Clone, Copy, Debug, PartialEq, Eq, Structural)]
pub enum DispatchError {
    /// The operation is not one this server serves yet.
    NotServed(NfsOperation),
    /// Its arguments hold padding that is not zero; whoever sent them is not
    /// served further.
    InvalidPadding,
    /// Its reply could not be written.
    Reply(XdrError),
}

/// Why a request stopped.
#[derive(Clone, Copy, Debug, PartialEq, Eq, Structural)]
pub enum ServeError {
    /// An operation number could not be read; the request was answered with
    /// an illegal operation, and the client is not served further.
    IllegalOperation,
    /// Answering an operation stopped the request.
    Dispatch(DispatchError),
}

/// What reading a value gives, with the value left out.
pub open spec fn spec_forget<V>(p: Parse<V>) -> Parse<()> {
    match p {
        Parse::Done(_, q) => Parse::Done((), q),
        Parse::Fails(e, q) => Parse::Fails(e, q),
    }
}

/// Reading the arguments of the operation `op` from `data` at `pos`, with
/// their value left out: `None` for an operation that takes none.
#[verifier::opaque]
pub open spec fn spec_args_read(op: NfsOperation, data: Seq<u8>, pos: int) -> Option<Parse<()>> {
    match op {
        NfsOperation::Access => Some(spec_forget(<AccessArgs as XdrDeserialize>::spec_parse(data, pos))),
        NfsOperation::Close => Some(spec_forget(<CloseArgs as XdrDeserialize>::spec_parse(data, pos))),
        NfsOperation::Commit => Some(spec_forget(<CommitArgs as XdrDeserialize>::spec_parse(data, pos))),
        NfsOperation::Create => Some(spec_forget(<CreateArgs as XdrDeserialize>::spec_parse(data, pos))),
        NfsOperation::PurgeDelegations => Some(spec_forget(<PurgeDelegationsArgs as XdrDeserialize>::spec_parse(data, pos))),
        NfsOperation::ReturnDelegation => Some(spec_forget(<ReturnDelegationArgs as XdrDeserialize>::spec_parse(data, pos))),
        NfsOperation::GetAttributes => Some(spec_forget(<GetAttributesArgs as XdrDeserialize>::spec_parse(data, pos))),
        NfsOperation::Link => Some(spec_forget(<LinkArgs as XdrDeserialize>::spec_parse(data, pos))),
        NfsOperation::LockCreate => Some(spec_forget(<LockArgs as XdrDeserialize>::spec_parse(data, pos))),
        NfsOperation::LockTest => Some(spec_forget(<LockTestArgs as XdrDeserialize>::spec_parse(data, pos))),
        NfsOperation::LockRelease => Some(spec_forget(<LockReleaseArgs as XdrDeserialize>::spec_parse(data, pos))),
        NfsOperation::Lookup => Some(spec_forget(<LookupArgs as XdrDeserialize>::spec_parse(data, pos))),
        NfsOperation::VerifyAttributeDiff => Some(spec_forget(<VerifyAttributeDifferenceArgs as XdrDeserialize>::spec_parse(data, pos))),
        NfsOperation::Open => Some(spec_forget(<OpenArgs as XdrDeserialize>::spec_parse(data, pos))),
        NfsOperation::OpenAttrs => Some(spec_forget(<OpenAttributesArgs as XdrDeserialize>::spec_parse(data, pos))),
        NfsOperation::OpenDowngrade => Some(spec_forget(<OpenDowngradeArgs as XdrDeserialize>::spec_parse(data, pos))),
        NfsOperation::PutFh => Some(spec_forget(<PutFhArgs as XdrDeserialize>::spec_parse(data, pos))),
        NfsOperation::Read => Some(spec_forget(<ReadArgs as XdrDeserialize>::spec_parse(data, pos))),
        NfsOperation::ReadDir => Some(spec_forget(<ReadDirectoryArgs as XdrDeserialize>::spec_parse(data, pos))),
        NfsOperation::Remove => Some(spec_forget(<RemoveArgs as XdrDeserialize>::spec_parse(data, pos))),
        NfsOperation::Rename => Some(spec_forget(<RenameArgs as XdrDeserialize>::spec_parse(data, pos))),
        NfsOperation::SecurityInfo => Some(spec_forget(<SecurityInfoArgs as XdrDeserialize>::spec_parse(data, pos))),
        NfsOperation::SetAttr => Some(spec_forget(<SetAttributesArgs as XdrDeserialize>::spec_parse(data, pos))),
        NfsOperation::Verify => Some(spec_forget(<VerifyArgs as XdrDeserialize>::spec_parse(data, pos))),
        NfsOperation::Write => Some(spec_forget(<WriteArgs as XdrDeserialize>::spec_parse(data, pos))),
        NfsOperation::BackchannelControl => Some(spec_forget(<BackchannelControlArgs as XdrDeserialize>::spec_parse(data, pos))),
        NfsOperation::BindConnectionToSession => Some(spec_forget(<BindConnectionToSessionArgs as XdrDeserialize>::spec_parse(data, pos))),
        NfsOperation::ExchangeId => Some(spec_forget(<ExchangeIdArgs as XdrDeserialize>::spec_parse(data, pos))),
        NfsOperation::CreateSession => Some(spec_forget(<CreateSessionArgs as XdrDeserialize>::spec_parse(data, pos))),
        NfsOperation::DestroySession => Some(spec_forget(<DestroySessionArgs as XdrDeserialize>::spec_parse(data, pos))),
        NfsOperation::FreeStateId => Some(spec_forget(<FreeStateIdArgs as XdrDeserialize>::spec_parse(data, pos))),
        NfsOperation::GetDirDelegation => Some(spec_forget(<GetDirectoryDelegationArgs as XdrDeserialize>::spec_parse(data, pos))),
        NfsOperation::GetDeviceInfo => Some(spec_forget(<GetDeviceInfoArgs as XdrDeserialize>::spec_parse(data, pos))),
        NfsOperation::GetDeviceList => Some(spec_forget(<GetDeviceListArgs as XdrDeserialize>::spec_parse(data, pos))),
        NfsOperation::LayoutCommit => Some(spec_forget(<LayoutCommitArgs as XdrDeserialize>::spec_parse(data, pos))),
        NfsOperation::LayoutGet => Some(spec_forget(<LayoutGetArgs as XdrDeserialize>::spec_parse(data, pos))),
        NfsOperation::LayoutReturn => Some(spec_forget(<LayoutReturnArgs as XdrDeserialize>::spec_parse(data, pos))),
        NfsOperation::SecurityInfoNoName => Some(spec_forget(<SecurityInfoNoNameArgs as XdrDeserialize>::spec_parse(data, pos))),
        NfsOperation::Sequence => Some(spec_forget(<SequenceArgs as XdrDeserialize>::spec_parse(data, pos))),
        NfsOperation::SetSSV => Some(spec_forget(<SetSsvArgs as XdrDeserialize>::spec_parse(data, pos))),
        NfsOperation::TestStateIds => Some(spec_forget(<TestStateIdsArgs as XdrDeserialize>::spec_parse(data, pos))),
        NfsOperation::WantDelegation => Some(spec_forget(<WantDelegationArgs as XdrDeserialize>::spec_parse(data, pos))),
        NfsOperation::DestroyClientId => Some(spec_forget(<DestroyClientIdArgs as XdrDeserialize>::spec_parse(data, pos))),
        NfsOperation::ReclaimComplete => Some(spec_forget(<ReclaimCompleteArgs as XdrDeserialize>::spec_parse(data, pos))),
        _ => None,
    }
}

/// What answering the operation `op` comes to where its arguments, read
/// up to where `q` is, could not be read with the error `e`: padding that is
/// not zero stops the request; any other error is answered with a server
/// fault.
pub open spec fn spec_args_failed(q: RequestProgress, op: NfsOperation, e: XdrError) -> (
    RequestProgress,
    Result<(), DispatchError>,
) {
    if e == XdrError::NonZeroPadding {
        (q, Err(DispatchError::InvalidPadding))
    } else {
        (spec_acked(q, op, NfsStatus::ServerFault), Ok(()))
    }
}

/// What answering an operation this server does not serve comes to: its
/// arguments are read, and where that fails the failure is answered;
/// otherwise the operation is not served.
pub open spec fn spec_unserved_step(q: RequestProgress, op: NfsOperation) -> (
    RequestProgress,
    Result<(), DispatchError>,
) {
    match spec_args_read(op, q.rpc.data, q.rpc.pos) {
        None => (q, Err(DispatchError::NotServed(op))),
        Some(Parse::Fails(e, p)) => spec_args_failed(spec_read_to(q, p), op, e),
        Some(Parse::Done(_, p)) => (spec_read_to(q, p), Err(DispatchError::NotServed(op))),
    }
}

/// The reply of an operation answered with a body: a failure to write the
/// body stops the request.
pub open spec fn spec_reply_result(r: Result<(), XdrError>) -> Result<(), DispatchError> {
    match r {
        Ok(()) => Ok(()),
        Err(x) => Err(DispatchError::Reply(x)),
    }
}

/// What answering the operation `op` does to the server `s` and the request
/// `q`, and whether the request goes on. `ILLEGAL` is answered with an
/// illegal operation; `EXCHANGE_ID` and `CREATE_SESSION` read their
/// arguments, change the server, and answer with their result or status;
/// any other operation is not served once its arguments are read. Arguments
/// that cannot be read are answered as [`spec_args_failed`] says.
#[verifier::opaque]
pub open spec fn spec_dispatch(s: ServerView, q: RequestProgress, op: NfsOperation) -> (
    ServerView,
    RequestProgress,
    Result<(), DispatchError>,
) {
    match op {
        NfsOperation::Illegal => (s, spec_acked(q, op, NfsStatus::OpIllegal), Ok(())),
        NfsOperation::ExchangeId => match <ExchangeIdArgs as XdrDeserialize>::spec_parse(
            q.rpc.data,
            q.rpc.pos,
        ) {
            Parse::Fails(e, p) => {
                let (q1, r) = spec_args_failed(spec_read_to(q, p), op, e);
                (s, q1, r)
            },
            Parse::Done(args, p) => {
                let q1 = spec_read_to(q, p);
                let (s2, a) = spec_exchange_id(s, args);
                match a {
                    Ok(ok) => {
                        let (q2, w) = spec_replied(
                            q1,
                            op,
                            <ExchangeIdOk as XdrSerialize>::spec_emit(ok),
                        );
                        (s2, q2, spec_reply_result(w))
                    },
                    Err(st) => (s2, spec_acked(q1, op, st), Ok(())),
                }
            },
        },
        NfsOperation::CreateSession => match <CreateSessionArgs as XdrDeserialize>::spec_parse(
            q.rpc.data,
            q.rpc.pos,
        ) {
            Parse::Fails(e, p) => {
                let (q1, r) = spec_args_failed(spec_read_to(q, p), op, e);
                (s, q1, r)
            },
            Parse::Done(args, p) => {
                let q1 = spec_read_to(q, p);
                let (s2, a) = spec_create_session(s, args);
                match a {
                    Ok(ok) => {
                        let (q2, w) = spec_replied(
                            q1,
                            op,
                            <CreateSessionOk as XdrSerialize>::spec_emit(ok),
                        );
                        (s2, q2, spec_reply_result(w))
                    },
                    Err(st) => (s2, spec_acked(q1, op, st), Ok(())),
                }
            },
        },
        _ => {
            let (q1, r) = spec_unserved_step(q, op);
            (s, q1, r)
        },
    }
}

/// Answers the operation `op` where its arguments could not be read with
/// the error `e`.
fn args_failed(req: &mut NfsRequest, op: NfsOperation, e: XdrError) -> (r: Result<
    (),
    DispatchError,
>)
    requires
        old(req).wf(),
        old(req).replied < u32::MAX,
    ensures
        spec_args_failed(old(req).progress(), op, e) == (final(req).progress(), r),
        final(req).wf(),
        final(req).same_except_progress(*old(req)),
{
    if matches!(e, XdrError::NonZeroPadding) {
        return Err(DispatchError::InvalidPadding);
    }
    let _ = req.ack(op, NfsStatus::ServerFault);
    Ok(())
}

/// [`read_unserved_args`] for the operations from `Access` to `Open`.
fn read_unserved_args_1(req: &mut NfsRequest, op: NfsOperation) -> (r: Result<(), DispatchError>)
    requires
        op is Access || op is Close || op is Commit || op is Create || op is PurgeDelegations || op is ReturnDelegation || op is GetAttributes || op is Link || op is LockCreate || op is LockTest || op is LockRelease || op is Lookup || op is VerifyAttributeDiff || op is Open,
        old(req).wf(),
        old(req).replied < u32::MAX,
    ensures
        spec_unserved_step(old(req).progress(), op) == (final(req).progress(), r),
        final(req).wf(),
        final(req).same_except_progress(*old(req)),
{
    proof {
        reveal(spec_args_read);
    }
    match op {
        NfsOperation::Access => match req.read::<AccessArgs>() {
            Ok(_) => Err(DispatchError::NotServed(op)),
            Err(e) => args_failed(req, op, e),
        },
        NfsOperation::Close => match req.read::<CloseArgs>() {
            Ok(_) => Err(DispatchError::NotServed(op)),
            Err(e) => args_failed(req, op, e),
        },
        NfsOperation::Commit => match req.read::<CommitArgs>() {
            Ok(_) => Err(DispatchError::NotServed(op)),
            Err(e) => args_failed(req, op, e),
        },
        NfsOperation::Create => match req.read::<CreateArgs>() {
            Ok(_) => Err(DispatchError::NotServed(op)),
            Err(e) => args_failed(req, op, e),
        },
        NfsOperation::PurgeDelegations => match req.read::<PurgeDelegationsArgs>() {
            Ok(_) => Err(DispatchError::NotServed(op)),
            Err(e) => args_failed(req, op, e),
        },
        NfsOperation::ReturnDelegation => match req.read::<ReturnDelegationArgs>() {
            Ok(_) => Err(DispatchError::NotServed(op)),
            Err(e) => args_failed(req, op, e),
        },
        NfsOperation::GetAttributes => match req.read::<GetAttributesArgs>() {
            Ok(_) => Err(DispatchError::NotServed(op)),
            Err(e) => args_failed(req, op, e),
        },
        NfsOperation::Link => match req.read::<LinkArgs>() {
            Ok(_) => Err(DispatchError::NotServed(op)),
            Err(e) => args_failed(req, op, e),
        },
        NfsOperation::LockCreate => match req.read::<LockArgs>() {
            Ok(_) => Err(DispatchError::NotServed(op)),
            Err(e) => args_failed(req, op, e),
        },
        NfsOperation::LockTest => match req.read::<LockTestArgs>() {
            Ok(_) => Err(DispatchError::NotServed(op)),
            Err(e) => args_failed(req, op, e),
        },
        NfsOperation::LockRelease => match req.read::<LockReleaseArgs>() {
            Ok(_) => Err(DispatchError::NotServed(op)),
            Err(e) => args_failed(req, op, e),
        },
        NfsOperation::Lookup => match req.read::<LookupArgs>() {
            Ok(_) => Err(DispatchError::NotServed(op)),
            Err(e) => args_failed(req, op, e),
        },
        NfsOperation::VerifyAttributeDiff => match req.read::<VerifyAttributeDifferenceArgs>() {
            Ok(_) => Err(DispatchError::NotServed(op)),
            Err(e) => args_failed(req, op, e),
        },
        NfsOperation::Open => match req.read::<OpenArgs>() {
            Ok(_) => Err(DispatchError::NotServed(op)),
            Err(e) => args_failed(req, op, e),
        },
        _ => Err(DispatchError::NotServed(op)),
    }
}

/// [`read_unserved_args`] for the operations from `OpenAttrs` to `DestroySession`.
fn read_unserved_args_2(req: &mut NfsRequest, op: NfsOperation) -> (r: Result<(), DispatchError>)
    requires
        op is OpenAttrs || op is OpenDowngrade || op is PutFh || op is Read || op is ReadDir || op is Remove || op is Rename || op is SecurityInfo || op is SetAttr || op is Verify || op is Write || op is BackchannelControl || op is BindConnectionToSession || op is DestroySession,
        old(req).wf(),
        old(req).replied < u32::MAX,
    ensures
        spec_unserved_step(old(req).progress(), op) == (final(req).progress(), r),
        final(req).wf(),
        final(req).same_except_progress(*old(req)),
{
    proof {
        reveal(spec_args_read);
    }
    match op {
        NfsOperation::OpenAttrs => match req.read::<OpenAttributesArgs>() {
            Ok(_) => Err(DispatchError::NotServed(op)),
            Err(e) => args_failed(req, op, e),
        },
        NfsOperation::OpenDowngrade => match req.read::<OpenDowngradeArgs>() {
            Ok(_) => Err(DispatchError::NotServed(op)),
            Err(e) => args_failed(req, op, e),
        },
        NfsOperation::PutFh => match req.read::<PutFhArgs>() {
            Ok(_) => Err(DispatchError::NotServed(op)),
            Err(e) => args_failed(req, op, e),
        },
        NfsOperation::Read => match req.read::<ReadArgs>() {
            Ok(_) => Err(DispatchError::NotServed(op)),
            Err(e) => args_failed(req, op, e),
        },
        NfsOperation::ReadDir => match req.read::<ReadDirectoryArgs>() {
            Ok(_) => Err(DispatchError::NotServed(op)),
            Err(e) => args_failed(req, op, e),
        },
        NfsOperation::Remove => match req.read::<RemoveArgs>() {
            Ok(_) => Err(DispatchError::NotServed(op)),
            Err(e) => args_failed(req, op, e),
        },
        NfsOperation::Rename => match req.read::<RenameArgs>() {
            Ok(_) => Err(DispatchError::NotServed(op)),
            Err(e) => args_failed(req, op, e),
        },
        NfsOperation::SecurityInfo => match req.read::<SecurityInfoArgs>() {
            Ok(_) => Err(DispatchError::NotServed(op)),
            Err(e) => args_failed(req, op, e),
        },
        NfsOperation::SetAttr => match req.read::<SetAttributesArgs>() {
            Ok(_) => Err(DispatchError::NotServed(op)),
            Err(e) => args_failed(req, op, e),
        },
        NfsOperation::Verify => match req.read::<VerifyArgs>() {
            Ok(_) => Err(DispatchError::NotServed(op)),
            Err(e) => args_failed(req, op, e),
        },
        NfsOperation::Write => match req.read::<WriteArgs>() {
            Ok(_) => Err(DispatchError::NotServed(op)),
            Err(e) => args_failed(req, op, e),
        },
        NfsOperation::BackchannelControl => match req.read::<BackchannelControlArgs>() {
            Ok(_) => Err(DispatchError::NotServed(op)),
            Err(e) => args_failed(req, op, e),
        },
        NfsOperation::BindConnectionToSession => match req.read::<BindConnectionToSessionArgs>() {
            Ok(_) => Err(DispatchError::NotServed(op)),
            Err(e) => args_failed(req, op, e),
        },
        NfsOperation::DestroySession => match req.read::<DestroySessionArgs>() {
            Ok(_) => Err(DispatchError::NotServed(op)),
            Err(e) => args_failed(req, op, e),
        },
        _ => Err(DispatchError::NotServed(op)),
    }
}

/// [`read_unserved_args`] for the operations from `FreeStateId` to `ReclaimComplete`.
fn read_unserved_args_3(req: &mut NfsRequest, op: NfsOperation) -> (r: Result<(), DispatchError>)
    requires
        op is FreeStateId || op is GetDirDelegation || op is GetDeviceInfo || op is GetDeviceList || op is LayoutCommit || op is LayoutGet || op is LayoutReturn || op is SecurityInfoNoName || op is Sequence || op is SetSSV || op is TestStateIds || op is WantDelegation || op is DestroyClientId || op is ReclaimComplete,
        old(req).wf(),
        old(req).replied < u32::MAX,
    ensures
        spec_unserved_step(old(req).progress(), op) == (final(req).progress(), r),
        final(req).wf(),
        final(req).same_except_progress(*old(req)),
{
    proof {
        reveal(spec_args_read);
    }
    match op {
        NfsOperation::FreeStateId => match req.read::<FreeStateIdArgs>() {
            Ok(_) => Err(DispatchError::NotServed(op)),
            Err(e) => args_failed(req, op, e),
        },
        NfsOperation::GetDirDelegation => match req.read::<GetDirectoryDelegationArgs>() {
            Ok(_) => Err(DispatchError::NotServed(op)),
            Err(e) => args_failed(req, op, e),
        },
        NfsOperation::GetDeviceInfo => match req.read::<GetDeviceInfoArgs>() {
            Ok(_) => Err(DispatchError::NotServed(op)),
            Err(e) => args_failed(req, op, e),
        },
        NfsOperation::GetDeviceList => match req.read::<GetDeviceListArgs>() {
            Ok(_) => Err(DispatchError::NotServed(op)),
            Err(e) => args_failed(req, op, e),
        },
        NfsOperation::LayoutCommit => match req.read::<LayoutCommitArgs>() {
            Ok(_) => Err(DispatchError::NotServed(op)),
            Err(e) => args_failed(req, op, e),
        },
        NfsOperation::LayoutGet => match req.read::<LayoutGetArgs>() {
            Ok(_) => Err(DispatchError::NotServed(op)),
            Err(e) => args_failed(req, op, e),
        },
        NfsOperation::LayoutReturn => match req.read::<LayoutReturnArgs>() {
            Ok(_) => Err(DispatchError::NotServed(op)),
            Err(e) => args_failed(req, op, e),
        },
        NfsOperation::SecurityInfoNoName => match req.read::<SecurityInfoNoNameArgs>() {
            Ok(_) => Err(DispatchError::NotServed(op)),
            Err(e) => args_failed(req, op, e),
        },
        NfsOperation::Sequence => match req.read::<SequenceArgs>() {
            Ok(_) => Err(DispatchError::NotServed(op)),
            Err(e) => args_failed(req, op, e),
        },
        NfsOperation::SetSSV => match req.read::<SetSsvArgs>() {
            Ok(_) => Err(DispatchError::NotServed(op)),
            Err(e) => args_failed(req, op, e),
        },
        NfsOperation::TestStateIds => match req.read::<TestStateIdsArgs>() {
            Ok(_) => Err(DispatchError::NotServed(op)),
            Err(e) => args_failed(req, op, e),
        },
        NfsOperation::WantDelegation => match req.read::<WantDelegationArgs>() {
            Ok(_) => Err(DispatchError::NotServed(op)),
            Err(e) => args_failed(req, op, e),
        },
        NfsOperation::DestroyClientId => match req.read::<DestroyClientIdArgs>() {
            Ok(_) => Err(DispatchError::NotServed(op)),
            Err(e) => args_failed(req, op, e),
        },
        NfsOperation::ReclaimComplete => match req.read::<ReclaimCompleteArgs>() {
            Ok(_) => Err(DispatchError::NotServed(op)),
            Err(e) => args_failed(req, op, e),
        },
        _ => Err(DispatchError::NotServed(op)),
    }
}

/// Reads the arguments of an operation this server does not serve: where
/// they cannot be read, the operation is answered as `args_failed` says;
/// else it is not served.
fn read_unserved_args(req: &mut NfsRequest, op: NfsOperation) -> (r: Result<(), DispatchError>)
    requires
        !(op is Illegal || op is ExchangeId || op is CreateSession),
        old(req).wf(),
        old(req).replied < u32::MAX,
    ensures
        spec_unserved_step(old(req).progress(), op) == (final(req).progress(), r),
        final(req).wf(),
        final(req).same_except_progress(*old(req)),
{
    match op {
        NfsOperation::Access | NfsOperation::Close | NfsOperation::Commit | NfsOperation::Create | NfsOperation::PurgeDelegations | NfsOperation::ReturnDelegation | NfsOperation::GetAttributes | NfsOperation::Link | NfsOperation::LockCreate | NfsOperation::LockTest | NfsOperation::LockRelease | NfsOperation::Lookup | NfsOperation::VerifyAttributeDiff | NfsOperation::Open => read_unserved_args_1(req, op),
        NfsOperation::OpenAttrs | NfsOperation::OpenDowngrade | NfsOperation::PutFh | NfsOperation::Read | NfsOperation::ReadDir | NfsOperation::Remove | NfsOperation::Rename | NfsOperation::SecurityInfo | NfsOperation::SetAttr | NfsOperation::Verify | NfsOperation::Write | NfsOperation::BackchannelControl | NfsOperation::BindConnectionToSession | NfsOperation::DestroySession => read_unserved_args_2(req, op),
        NfsOperation::FreeStateId | NfsOperation::GetDirDelegation | NfsOperation::GetDeviceInfo | NfsOperation::GetDeviceList | NfsOperation::LayoutCommit | NfsOperation::LayoutGet | NfsOperation::LayoutReturn | NfsOperation::SecurityInfoNoName | NfsOperation::Sequence | NfsOperation::SetSSV | NfsOperation::TestStateIds | NfsOperation::WantDelegation | NfsOperation::DestroyClientId | NfsOperation::ReclaimComplete => read_unserved_args_3(req, op),
        _ => {
            proof {
                reveal(spec_args_read);
            }
            Err(DispatchError::NotServed(op))
        },
    }
}

impl NFSv41ServerInner {
    /// Answers the operation `op` of the request `req`, as
    /// [`spec_dispatch`] says.
    pub fn dispatch(&mut self, req: &mut NfsRequest, op: NfsOperation) -> (r: Result<
        (),
        DispatchError,
    >)
        requires
            old(self).wf(),
            old(self)@.next_client_id < u64::MAX,
            old(self)@.next_session_id < u128::MAX,
            old(req).wf(),
            old(req).replied < u32::MAX,
        ensures
            final(self).wf(),
            spec_dispatch(old(self)@, old(req).progress(), op) == (
                final(self)@,
                final(req).progress(),
                r,
            ),
            final(req).wf(),
            final(req).same_except_progress(*old(req)),
    {
        proof {
            reveal(spec_dispatch);
        }
        match op {
            NfsOperation::Illegal => {
                let _ = req.ack(op, NfsStatus::OpIllegal);
                Ok(())
            },
            NfsOperation::ExchangeId => {
                let args = match req.read::<ExchangeIdArgs>() {
                    Ok(a) => a,
                    Err(e) => return args_failed(req, op, e),
                };
                match self.exchange_id(args) {
                    Ok(ok) => match req.reply(op, &ok) {
                        Ok(()) => Ok(()),
                        Err(x) => Err(DispatchError::Reply(x)),
                    },
                    Err(st) => {
                        let _ = req.ack(op, st);
                        Ok(())
                    },
                }
            },
            NfsOperation::CreateSession => {
                let args = match req.read::<CreateSessionArgs>() {
                    Ok(a) => a,
                    Err(e) => return args_failed(req, op, e),
                };
                match self.create_session(args) {
                    Ok(ok) => match req.reply(op, &ok) {
                        Ok(()) => Ok(()),
                        Err(x) => Err(DispatchError::Reply(x)),
                    },
                    Err(st) => {
                        let _ = req.ack(op, st);
                        Ok(())
                    },
                }
            },
            _ => read_unserved_args(req, op),
        }
    }
}


/// What reading the next operation of `q` comes to: once every operation has
/// been read, an error; else the operation, or the error reading it, with
/// the count of operations read one higher.
pub open spec fn spec_next_op(q: RequestProgress) -> (RequestProgress, Result<NfsOperation, RequestError>) {
    if q.curr_op >= q.num_ops {
        (q, Err(RequestError::Consumed))
    } else {
        let q1 = RequestProgress { curr_op: (q.curr_op + 1) as usize, ..q };
        match <NfsOperation as XdrDeserialize>::spec_parse(q.rpc.data, q.rpc.pos) {
            Parse::Done(op, p) => (spec_read_to(q1, p), Ok(op)),
            Parse::Fails(e, p) => (spec_read_to(q1, p), Err(RequestError::Decode(e))),
        }
    }
}

/// What answering `k` more operations of the request `q` does to the server
/// `s` and the request, and how it ends: each operation is read and
/// answered in turn; an operation that cannot be read is answered as an
/// illegal operation and ends the request with an error, and so does an
/// answer that stops it.
pub open spec fn spec_serve(s: ServerView, q: RequestProgress, k: nat) -> (
    ServerView,
    RequestProgress,
    Result<(), ServeError>,
)
    decreases k,
{
    if k == 0 {
        (s, q, Ok(()))
    } else {
        let (q1, next) = spec_next_op(q);
        match next {
            Err(_) => (
                s,
                spec_acked(q1, NfsOperation::Illegal, NfsStatus::OpIllegal),
                Err(ServeError::IllegalOperation),
            ),
            Ok(op) => {
                let (s2, q2, r) = spec_dispatch(s, q1, op);
                match r {
                    Err(e) => (s2, q2, Err(ServeError::Dispatch(e))),
                    Ok(()) => spec_serve(s2, q2, (k - 1) as nat),
                }
            },
        }
    }
}

/// Answering an operation takes at most one client id and one session
/// number, and writes at most one reply.
proof fn lemma_dispatch_bounds(s: ServerView, q: RequestProgress, op: NfsOperation)
    requires
        q.replied < u32::MAX,
    ensures
        ({
            let (s2, q2, r) = spec_dispatch(s, q, op);
            &&& s2.next_client_id <= s.next_client_id + 1
            &&& s2.next_session_id <= s.next_session_id + 1
            &&& q2.replied <= q.replied + 1
            &&& q2.curr_op == q.curr_op
            &&& q2.num_ops == q.num_ops
        }),
{
    reveal(spec_dispatch);
}

impl NFSv41ServerInner {
    /// A server with a random minor id, the major id
    /// "some-sort-of-unique-strng" and the scope "localhost", no clients and
    /// no sessions; the first client id and session number handed out are 1.
    pub fn new() -> (s: Self)
        ensures
            s.wf(),
            s@.server_owner.major_id == "some-sort-of-unique-strng".spec_bytes(),
            s@.server_scope == "localhost".spec_bytes(),
            s@.clients == Map::<u64, SpecClient>::empty(),
            s@.owners == Map::<Seq<u8>, u64>::empty(),
            s@.sessions == Map::<u128, SpecSession>::empty(),
            s@.next_client_id == 1,
            s@.next_session_id == 1,
    {
        let owner_name = "some-sort-of-unique-strng";
        let scope_name = "localhost";
        proof {
            reveal_strlit("some-sort-of-unique-strng");
            reveal_strlit("localhost");
        }
        assert(is_ascii(owner_name) && is_ascii(scope_name));
        let major_id = match MaxLenBytes::<NFS_OPAQUE_LIMIT>::new(
            vstd::slice::slice_to_vec(owner_name.as_bytes()),
        ) {
            Ok(m) => m,
            Err(_) => {
                assert(false);
                MaxLenBytes::<NFS_OPAQUE_LIMIT>::empty()
            },
        };
        let server_scope = match MaxLenBytes::<NFS_OPAQUE_LIMIT>::new(
            vstd::slice::slice_to_vec(scope_name.as_bytes()),
        ) {
            Ok(m) => m,
            Err(_) => {
                assert(false);
                MaxLenBytes::<NFS_OPAQUE_LIMIT>::empty()
            },
        };
        let server_owner = ServerOwner { minor_id: random_u64(), major_id };
        let s = NFSv41ServerInner {
            server_owner,
            server_scope,
            clients: HashMap::new(),
            client_ids_by_owner: Vec::new(),
            next_client_id: 1,
            sessions: HashMap::new(),
            next_session_id: 1,
        };
        assert(s.owner_pairs() =~= Seq::<(Seq<u8>, u64)>::empty());
        assert(s@.clients =~= Map::<u64, SpecClient>::empty());
        assert(s@.sessions =~= Map::<u128, SpecSession>::empty());
        s
    }

    /// Whether `num_ops` more operations can each take a new client id and
    /// a new session number without running out of either.
    pub fn has_room_for(&self, num_ops: usize) -> (b: bool)
        ensures
            b == (self@.next_client_id + num_ops < u64::MAX && self@.next_session_id + num_ops
                < u128::MAX),
    {
        let n = num_ops as u64;
        let room_for_clients = self.next_client_id < u64::MAX - n;
        let room_for_sessions = self.next_session_id < u128::MAX - (n as u128);
        room_for_clients && room_for_sessions
    }

    /// Answers the operations of a request just taken, in turn, as
    /// [`spec_serve`] says, until all are answered or one stops the request.
    pub fn serve(&mut self, req: &mut NfsRequest) -> (r: Result<(), ServeError>)
        requires
            old(self).wf(),
            old(req).wf(),
            old(req).curr_op == 0,
            old(req).replied == 0,
            old(self)@.next_client_id + old(req).num_ops < u64::MAX,
            old(self)@.next_session_id + old(req).num_ops < u128::MAX,
        ensures
            final(self).wf(),
            final(req).wf(),
            final(req).same_except_progress(*old(req)),
            spec_serve(old(self)@, old(req).progress(), old(req).num_ops as nat) == (
                final(self)@,
                final(req).progress(),
                r,
            ),
    {
        let n = req.num_ops();
        let ghost s0 = self@;
        let ghost q0 = req.progress();
        let ghost r0 = *req;
        for i in 0..n
            invariant
                n == q0.num_ops,
                s0 == old(self)@,
                q0 == old(req).progress(),
                r0 == *old(req),
                self.wf(),
                req.wf(),
                req.same_except_progress(r0),
                req.curr_op == i,
                req.num_ops == n,
                req.replied <= i,
                self@.next_client_id <= s0.next_client_id + i,
                self@.next_session_id <= s0.next_session_id + i,
                s0.next_client_id + n < u64::MAX,
                s0.next_session_id + n < u128::MAX,
                spec_serve(s0, q0, n as nat) == spec_serve(self@, req.progress(), (n - i) as nat),
        {
            let ghost s1 = self@;
            let ghost q1 = req.progress();
            let op = match req.next_op() {
                Ok(op) => op,
                Err(_) => {
                    let _ = req.ack(NfsOperation::Illegal, NfsStatus::OpIllegal);
                    return Err(ServeError::IllegalOperation);
                },
            };
            proof {
                lemma_dispatch_bounds(self@, req.progress(), op);
            }
            match self.dispatch(req, op) {
                Ok(()) => {},
                Err(e) => return Err(ServeError::Dispatch(e)),
            }
        }
        Ok(())
    }
}

// ---------------------------------------------------------------------------
// What calls in turn come to
// ---------------------------------------------------------------------------

/// Every registered owner is registered to a client the server holds.
pub open spec fn spec_owners_held(s: ServerView) -> bool {
    forall|o: Seq<u8>| #[trigger] s.owners.contains_key(o) ==> s.clients.contains_key(s.owners[o])
}

/// A server's view keeps its registered owners' clients.
pub proof fn lemma_wf_owners_held(s: &NFSv41ServerInner)
    requires
        s.wf(),
    ensures
        spec_owners_held(s@),
{
    let pairs = s.owner_pairs();
    assert forall|o: Seq<u8>| #[trigger] s@.owners.contains_key(o) implies s@.clients.contains_key(
        s@.owners[o],
    ) by {
        lemma_owner_map_lookup(pairs, o);
    }
}

/// A `CREATE_SESSION` that names the client `EXCHANGE_ID` has just answered
/// succeeds: the client is confirmed, and the session it asked for is kept
/// under the next session number, whose sixteen bytes are its id.
pub proof fn lemma_exchange_id_then_create_session(
    s: ServerView,
    ex: SpecExchangeIdArgs,
    cs: SpecCreateSessionArgs,
)
    requires
        spec_owners_held(s),
        ex.state_protect is NoProtection,
        s.next_client_id < u64::MAX,
        cs.client_id == spec_exchange_id(s, ex).1->Ok_0.client_id,
    ensures
        ({
            let (s1, r1) = spec_exchange_id(s, ex);
            let (s2, r2) = spec_create_session(s1, cs);
            &&& r1 is Ok
            &&& r2 is Ok
            &&& r2->Ok_0.session_id == spec_u128_be(s1.next_session_id)
            &&& s2.clients.contains_key(cs.client_id)
            &&& s2.clients[cs.client_id].confirmed
            &&& s2.sessions.contains_key(s1.next_session_id)
            &&& s2.sessions[s1.next_session_id] == spec_new_session(cs)
        }),
{
}

/// Two `EXCHANGE_ID`s in turn, for owners that are not registered, hand out
/// two new clients with different ids.
pub proof fn lemma_client_ids_distinct(s: ServerView, a1: SpecExchangeIdArgs, a2: SpecExchangeIdArgs)
    requires
        a1.state_protect is NoProtection,
        a2.state_protect is NoProtection,
        !s.owners.contains_key(a1.client_owner.owner_id),
        !s.owners.contains_key(a2.client_owner.owner_id),
        s.next_client_id + 1 < u64::MAX,
    ensures
        ({
            let (s1, r1) = spec_exchange_id(s, a1);
            let (s2, r2) = spec_exchange_id(s1, a2);
            &&& r1 is Ok
            &&& r2 is Ok
            &&& r1->Ok_0.client_id != r2->Ok_0.client_id
            &&& s2.clients.contains_key(r1->Ok_0.client_id)
            &&& s2.clients.contains_key(r2->Ok_0.client_id)
        }),
{
}

/// Two `CREATE_SESSION`s in turn that both succeed give sessions with
/// different ids.
pub proof fn lemma_session_ids_distinct(s: ServerView, c1: SpecCreateSessionArgs, c2: SpecCreateSessionArgs)
    requires
        s.next_session_id + 1 < u128::MAX,
    ensures
        ({
            let (s1, r1) = spec_create_session(s, c1);
            let (s2, r2) = spec_create_session(s1, c2);
            r1 is Ok && r2 is Ok ==> r1->Ok_0.session_id != r2->Ok_0.session_id
        }),
{
    let (s1, r1) = spec_create_session(s, c1);
    let (s2, r2) = spec_create_session(s1, c2);
    if r1 is Ok && r2 is Ok && r1->Ok_0.session_id == r2->Ok_0.session_id {
        lemma_u128_be_injective(s.next_session_id, s1.next_session_id);
    }
}

/// An operation answered without stopping the request gets exactly one
/// reply.
proof fn lemma_dispatch_ok_replies_once(s: ServerView, q: RequestProgress, op: NfsOperation)
    requires
        q.replied < u32::MAX,
    ensures
        ({
            let (s2, q2, r) = spec_dispatch(s, q, op);
            r is Ok ==> q2.replied == q.replied + 1 && q2.curr_op == q.curr_op
        }),
{
    reveal(spec_dispatch);
}

/// A request whose operations are all answered without stopping it has
/// every one of them read and replied to, one reply each.
pub proof fn lemma_served_request_replies_to_every_operation(
    s: ServerView,
    q: RequestProgress,
    k: nat,
)
    requires
        q.curr_op + k <= q.num_ops,
        q.replied + k <= u32::MAX,
    ensures
        ({
            let (s2, q2, r) = spec_serve(s, q, k);
            r is Ok ==> q2.curr_op == q.curr_op + k && q2.replied == q.replied + k
        }),
    decreases k,
{
    if k > 0 {
        let (q1, next) = spec_next_op(q);
        if let Ok(op) = next {
            let (s2, q2, r) = spec_dispatch(s, q1, op);
            lemma_dispatch_ok_replies_once(s, q1, op);
            lemma_dispatch_bounds(s, q1, op);
            if r is Ok {
                lemma_served_request_replies_to_every_operation(s2, q2, (k - 1) as nat);
            }
        }
    }
}

/// What `CREATE_SESSION` answers and keeps. It takes the next session
/// number whatever comes. It succeeds just where the server holds the
/// request's client. Then the answer carries the sixteen bytes of that
/// number, the request's sequence, no flags, and the request's fore and back
/// channel attributes as they were asked for. The client is confirmed with
/// its other fields kept, and the session kept under that number holds the
/// request's client, sequence, channel attributes, callback program and
/// security parameters, with no flags and one empty slot per request the
/// fore channel allows. Otherwise the client id is stale and no client or
/// session changes.
pub proof fn lemma_create_session_answer(s: ServerView, args: SpecCreateSessionArgs)
    requires
        s.next_session_id < u128::MAX,
    ensures
        ({
            let (s2, r) = spec_create_session(s, args);
            let n = s.next_session_id;
            &&& s2.next_session_id == n + 1
            &&& s2.next_client_id == s.next_client_id
            &&& s2.owners == s.owners
            &&& s2.server_owner == s.server_owner
            &&& s2.server_scope == s.server_scope
            &&& (r is Ok) == s.clients.contains_key(args.client_id)
            &&& !s.clients.contains_key(args.client_id) ==> r == Err::<SpecCreateSessionOk, NfsStatus>(
                NfsStatus::StaleClientId,
            ) && s2.clients == s.clients && s2.sessions == s.sessions
            &&& (r matches Ok(ok) ==> {
                let c = s.clients[args.client_id];
                let c2 = s2.clients[args.client_id];
                let ses = s2.sessions[n];
                &&& ok.session_id == spec_u128_be(n)
                &&& ok.sequence == args.sequence
                &&& ok.flags == 0
                &&& ok.fore_channel_attrs == args.fore_channel_attrs
                &&& ok.back_channel_attrs == args.back_channel_attrs
                &&& s2.clients.dom() == s.clients.dom()
                &&& forall|k: u64| k != args.client_id && #[trigger] s.clients.contains_key(k)
                    ==> s2.clients[k] == s.clients[k]
                &&& c2.confirmed
                &&& c2.owner_id == c.owner_id && c2.verifier == c.verifier
                &&& c2.client_id == c.client_id && c2.sequence == c.sequence
                &&& s2.sessions.dom() == s.sessions.dom().insert(n)
                &&& forall|k: u128| k != n && #[trigger] s.sessions.contains_key(k)
                    ==> s2.sessions[k] == s.sessions[k]
                &&& ses.client_id == args.client_id
                &&& ses.sequence == args.sequence
                &&& ses.flags == 0
                &&& ses.fore_channel_attrs == args.fore_channel_attrs
                &&& ses.back_channel_attrs == args.back_channel_attrs
                &&& ses.callback_program == args.callback_program
                &&& ses.security_parameters == args.security_parameters
                &&& ses.slots.len() == args.fore_channel_attrs.max_requests
                &&& forall|i: int| 0 <= i < ses.slots.len() ==> #[trigger] ses.slots[i] is None
            })
        }),
{
    let (s2, r) = spec_create_session(s, args);
    if r is Ok {
        assert(s2.clients.dom() =~= s.clients.dom());
        assert(s2.sessions.dom() =~= s.sessions.dom().insert(s.next_session_id));
    }
}

/// What `EXCHANGE_ID` answers and keeps. A request with state protection is
/// refused as invalid and changes nothing. An owner that is not registered
/// gets a new client under the next client id: the answer carries that id,
/// the sequence 1, the flag that files are served without pNFS (and not
/// that the client is confirmed), no state protection, the server's owner
/// and scope, and no implementation id. The new client holds the request's
/// owner and verifier, the sequence 1, unconfirmed; the other clients stay.
/// An owner registered to a client with the same verifier gets that
/// client's id and sequence back, the confirmed flag just where that client
/// is confirmed, and nothing changes.
pub proof fn lemma_exchange_id_answer(s: ServerView, args: SpecExchangeIdArgs)
    requires
        s.next_client_id < u64::MAX,
    ensures
        ({
            let (s2, r) = spec_exchange_id(s, args);
            let owner = args.client_owner.owner_id;
            &&& !(args.state_protect is NoProtection) ==> r == Err::<SpecExchangeIdOk, NfsStatus>(
                NfsStatus::EINVAL,
            ) && s2 == s
            &&& (args.state_protect is NoProtection && !s.owners.contains_key(owner)) ==> {
                let id = s.next_client_id;
                &&& r matches Ok(ok)
                &&& ok.client_id == id
                &&& ok.sequence_id == 1
                &&& ok.flags == EXCHANGE_ID_FLAG_USE_NON_PNFS
                &&& ok.state_protection == SpecStateProtectionResult::NoProtection
                &&& ok.server_owner == s.server_owner
                &&& ok.server_scope == s.server_scope
                &&& ok.server_impl_id is None
                &&& s2.next_client_id == id + 1
                &&& s2.clients.contains_key(id)
                &&& s2.clients[id].owner_id == owner
                &&& s2.clients[id].verifier == args.client_owner.verifier
                &&& s2.clients[id].client_id == id
                &&& s2.clients[id].sequence == 1
                &&& !s2.clients[id].confirmed
                &&& forall|k: u64| k != id && #[trigger] s.clients.contains_key(k)
                    ==> s2.clients.contains_key(k) && s2.clients[k] == s.clients[k]
                &&& s2.owners == s.owners
                &&& s2.sessions == s.sessions
            }
            &&& (args.state_protect is NoProtection && s.owners.contains_key(owner)
                && s.clients[s.owners[owner]].verifier == args.client_owner.verifier) ==> {
                let c = s.clients[s.owners[owner]];
                &&& r matches Ok(ok)
                &&& ok.client_id == s.owners[owner]
                &&& ok.sequence_id == c.sequence
                &&& ok.flags & EXCHANGE_ID_FLAG_USE_NON_PNFS != 0
                &&& (ok.flags & EXCHANGE_ID_FLAG_CONFIRMED_R != 0) == c.confirmed
                &&& s2 == s
            }
        }),
{
    assert((EXCHANGE_ID_FLAG_USE_NON_PNFS | EXCHANGE_ID_FLAG_CONFIRMED_R) & EXCHANGE_ID_FLAG_USE_NON_PNFS
        != 0) by (bit_vector);
    assert((EXCHANGE_ID_FLAG_USE_NON_PNFS | EXCHANGE_ID_FLAG_CONFIRMED_R) & EXCHANGE_ID_FLAG_CONFIRMED_R
        != 0) by (bit_vector);
    assert(EXCHANGE_ID_FLAG_USE_NON_PNFS & EXCHANGE_ID_FLAG_CONFIRMED_R == 0) by (bit_vector);
    assert(EXCHANGE_ID_FLAG_USE_NON_PNFS & EXCHANGE_ID_FLAG_USE_NON_PNFS != 0) by (bit_vector);
}

/// `ILLEGAL` is answered with the illegal-operation status, as one more
/// reply, and changes nothing on the server.
pub proof fn lemma_dispatch_illegal(s: ServerView, q: RequestProgress)
    ensures
        ({
            let (s2, q2, r) = spec_dispatch(s, q, NfsOperation::Illegal);
            s2 == s && r is Ok && q2.status == NfsStatus::OpIllegal && q2.replied == (q.replied
                + 1) as u32
        }),
{
    reveal(spec_dispatch);
}

/// `EXCHANGE_ID`, once its arguments are read, changes the server as that
/// operation does; arguments that cannot be read leave it as it was.
pub proof fn lemma_dispatch_exchange_id(s: ServerView, q: RequestProgress)
    ensures
        ({
            let s2 = spec_dispatch(s, q, NfsOperation::ExchangeId).0;
            match <ExchangeIdArgs as XdrDeserialize>::spec_parse(q.rpc.data, q.rpc.pos) {
                Parse::Done(args, _) => s2 == spec_exchange_id(s, args).0,
                Parse::Fails(_, _) => s2 == s,
            }
        }),
{
    reveal(spec_dispatch);
}

/// `CREATE_SESSION`, once its arguments are read, changes the server as that
/// operation does; arguments that cannot be read leave it as it was.
pub proof fn lemma_dispatch_create_session(s: ServerView, q: RequestProgress)
    ensures
        ({
            let s2 = spec_dispatch(s, q, NfsOperation::CreateSession).0;
            match <CreateSessionArgs as XdrDeserialize>::spec_parse(q.rpc.data, q.rpc.pos) {
                Parse::Done(args, _) => s2 == spec_create_session(s, args).0,
                Parse::Fails(_, _) => s2 == s,
            }
        }),
{
    reveal(spec_dispatch);
}

/// Every operation other than `ILLEGAL`, `EXCHANGE_ID` and `CREATE_SESSION`
/// leaves the server as it was.
pub proof fn lemma_dispatch_others(s: ServerView, q: RequestProgress, op: NfsOperation)
    requires
        !(op is Illegal || op is ExchangeId || op is CreateSession),
    ensures
        spec_dispatch(s, q, op).0 == s,
{
    reveal(spec_dispatch);
}

} // verus!
