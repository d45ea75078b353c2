use vstd::prelude::*;
use crate::coordinator::lookup::{chain_step, next_in_chain, LatestNext};
use crate::hash::Address;
use crate::host::{Call, RecordInfo, Reply, Step, ZomeError};

verus! {

/// A lookup of the latest version of a record: it asks for the details of an
/// action, and follows its last update, and that update's last update, until
/// it reaches a record that was never updated.
pub struct GetLatest {
    /// The action whose details were asked for.
    pub hash: Address,
}

/// The step of a lookup that asks for the details of `hash`.
pub open spec fn asks_details_of<T, X>(s: Step<GetLatest, T, X>, hash: Seq<u8>) -> bool {
    s matches Step::Ask(m, Call::GetDetails { hash: h }) && m.hash@ == hash && h@ == hash
}

/// Starts the lookup of the latest version of the record of `action_hash`.
pub fn get_latest<R, X>(action_hash: Address) -> (s: Step<GetLatest, RecordInfo<R>, X>)
    ensures
        asks_details_of(s, action_hash@),
{
    let hash = action_hash.copied();
    Step::Ask(GetLatest { hash: action_hash }, Call::GetDetails { hash })
}

impl GetLatest {
    /// What the lookup does with the host's answer to the details of
    /// `self.hash`: a host error ends it with that error; otherwise the
    /// details decide, as [`next_in_chain`] says: an error ends it, an update
    /// is followed, and a record without updates is the result.
    pub open spec fn next<R, X>(self, reply: Reply<R, X>, s: Step<GetLatest, RecordInfo<R>, X>) -> bool {
        &&& reply matches Reply::Failed(e) ==> s == Step::<GetLatest, RecordInfo<R>, X>::Done(Err(ZomeError::Host(e)))
        &&& reply matches Reply::Details(d) ==> match next_in_chain::<R, X>(d) {
            Err(err) => s == Step::<GetLatest, RecordInfo<R>, X>::Done(Err(err)),
            Ok(LatestNext::Follow(u)) => asks_details_of(s, u@),
            Ok(LatestNext::Found(rec)) => s == Step::<GetLatest, RecordInfo<R>, X>::Done(Ok(rec)),
        }
    }

    /// Resumes the lookup with the host's answer to the details of
    /// `self.hash` (see [`Self::next`]).
    pub fn resume<R, X>(self, reply: Reply<R, X>) -> (s: Step<GetLatest, RecordInfo<R>, X>)
        requires
            reply is Failed || reply is Details,
        ensures
            self.next(reply, s),
    {
        match reply {
            Reply::Failed(e) => Step::Done(Err(ZomeError::Host(e))),
            Reply::Details(d) => match chain_step::<R, X>(d) {
                Err(err) => Step::Done(Err(err)),
                Ok(LatestNext::Follow(u)) => get_latest(u),
                Ok(LatestNext::Found(rec)) => Step::Done(Ok(rec)),
            },
            _ => vstd::pervasive::unreached(),
        }
    }
}

} // verus!
