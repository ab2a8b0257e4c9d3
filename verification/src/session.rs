//! The sessions a server keeps for its clients.
use vstd::prelude::*;
use crate::nfs::types::{
    CallbackSecurityParameters, ChannelAttrs, ClientId, CreateSessionArgs, SequenceId,
    SpecCallbackSecurityParameters,
};

verus! {

/// A session: its client and sequence, the attributes of its channels, its
/// callback program and security, and the sequence last seen on each of its
/// slots.
#[derive(Debug)]
pub struct Session {
    pub client_id: ClientId,
    pub sequence: SequenceId,
    pub flags: u32,
    pub fore_channel_attrs: ChannelAttrs,
    pub back_channel_attrs: ChannelAttrs,
    pub callback_program: u32,
    pub security_parameters: Vec<CallbackSecurityParameters>,
    pub slots: Vec<Option<SequenceId>>,
}

/// The deep view of a [`Session`].
pub struct SpecSession {
    pub client_id: u64,
    pub sequence: u32,
    pub flags: u32,
    pub fore_channel_attrs: ChannelAttrs,
    pub back_channel_attrs: ChannelAttrs,
    pub callback_program: u32,
    pub security_parameters: Seq<SpecCallbackSecurityParameters>,
    pub slots: Seq<Option<u32>>,
}

impl DeepView for Session {
    type V = SpecSession;

    open spec fn deep_view(&self) -> SpecSession {
        SpecSession {
            client_id: self.client_id,
            sequence: self.sequence,
            flags: self.flags,
            fore_channel_attrs: self.fore_channel_attrs.deep_view(),
            back_channel_attrs: self.back_channel_attrs.deep_view(),
            callback_program: self.callback_program,
            security_parameters: self.security_parameters.deep_view(),
            slots: self.slots.deep_view(),
        }
    }
}

/// The session that the request `args` asks for: its client, sequence,
/// channels, callback program and security, no flags, and as many empty
/// slots as the fore channel takes requests.
pub open spec fn spec_new_session(args: crate::nfs::types::SpecCreateSessionArgs) -> SpecSession {
    SpecSession {
        client_id: args.client_id,
        sequence: args.sequence,
        flags: 0,
        fore_channel_attrs: args.fore_channel_attrs,
        back_channel_attrs: args.back_channel_attrs,
        callback_program: args.callback_program,
        security_parameters: args.security_parameters,
        slots: Seq::new(args.fore_channel_attrs.max_requests as nat, |i: int| None),
    }
}

impl Session {
    /// The session that the request `args` asks for, with as many empty slots
    /// as its fore channel takes requests.
    pub fn new(args: CreateSessionArgs) -> (s: Self)
        ensures
            s.deep_view() == spec_new_session(args.deep_view()),
    {
        let num_slots = args.fore_channel_attrs.max_requests;
        let mut slots: Vec<Option<SequenceId>> = Vec::new();
        let mut i: u32 = 0;
        while i < num_slots
            invariant
                i <= num_slots,
                slots@.len() == i,
                forall|k: int| 0 <= k < i ==> slots@[k] is None,
            decreases num_slots - i,
        {
            slots.push(None);
            i = i + 1;
        }
        assert(slots.deep_view() =~= Seq::new(num_slots as nat, |k: int| None::<u32>));
        Self {
            client_id: args.client_id,
            sequence: args.sequence,
            flags: 0,
            fore_channel_attrs: args.fore_channel_attrs,
            back_channel_attrs: args.back_channel_attrs,
            callback_program: args.callback_program,
            security_parameters: args.security_parameters,
            slots,
        }
    }
}

} // verus!
