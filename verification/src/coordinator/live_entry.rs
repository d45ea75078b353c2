use vstd::prelude::*;
use crate::hash::Address;
use crate::host::{Call, DetailsInfo, EntryAction, Step, ZomeError};

verus! {

/// Whether `action` is among the actions that `deletes` delete.
pub open spec fn deleted(deletes: Seq<Address>, action: Seq<u8>) -> bool {
    exists|j: int| 0 <= j < deletes.len() && (#[trigger] deletes[j])@ == action
}

/// Whether `agent` wrote the entry by an action that is not deleted.
pub open spec fn live_for(actions: Seq<EntryAction>, deletes: Seq<Address>, agent: Seq<u8>) -> bool {
    exists|i: int| 0 <= i < actions.len() && (#[trigger] actions[i]).author@ == agent
        && !deleted(deletes, actions[i].action_hash@)
}

/// Which actions count as deleted: none where nothing is deleted; the action
/// a delete names; and an action stays deleted, or not deleted, as deletes of
/// other actions come.
pub proof fn law_deleted_are_those_named(deletes: Seq<Address>, action: Seq<u8>, more: Address)
    ensures
        !deleted(Seq::<Address>::empty(), action),
        deleted(deletes.push(more), more@),
        more@ != action ==> (deleted(deletes.push(more), action) <==> deleted(deletes, action)),
{
    let d = deletes.push(more);
    assert(d[deletes.len() as int] == more);
    if more@ != action {
        if deleted(d, action) {
            let j = choose|j: int| 0 <= j < d.len() && (#[trigger] d[j])@ == action;
            assert(d[j] == deletes[j]);
        }
        if deleted(deletes, action) {
            let j = choose|j: int| 0 <= j < deletes.len() && (#[trigger] deletes[j])@ == action;
            assert(d[j] == deletes[j]);
        }
    }
}

/// An entry is live for the caller exactly when some action of the caller
/// that wrote it is not deleted, whatever other agents wrote: one such action
/// makes it live; actions of others, deleted or not, neither make it live nor
/// keep it from being live.
pub proof fn law_live_for_is_an_undeleted_action_of_the_caller(
    actions: Seq<EntryAction>,
    deletes: Seq<Address>,
    agent: Seq<u8>,
    i: int,
    other: EntryAction,
)
    ensures
        0 <= i < actions.len() && actions[i].author@ == agent && !deleted(deletes, actions[i].action_hash@)
            ==> live_for(actions, deletes, agent),
        live_for(actions, deletes, agent) ==> exists|k: int| 0 <= k < actions.len()
            && (#[trigger] actions[k]).author@ == agent && !deleted(deletes, actions[k].action_hash@),
        other.author@ != agent ==> (live_for(actions.push(other), deletes, agent) <==> live_for(actions, deletes, agent)),
        !live_for(Seq::<EntryAction>::empty(), deletes, agent),
{
    let a = actions.push(other);
    if live_for(actions, deletes, agent) {
        let k = choose|k: int| 0 <= k < actions.len() && (#[trigger] actions[k]).author@ == agent
            && !deleted(deletes, actions[k].action_hash@);
        assert(a[k] == actions[k]);
    }
    if other.author@ != agent && live_for(a, deletes, agent) {
        let k = choose|k: int| 0 <= k < a.len() && (#[trigger] a[k]).author@ == agent
            && !deleted(deletes, a[k].action_hash@);
        assert(a[k] == actions[k]);
    }
}

/// Whether `action` is among the actions that `deletes` delete.
pub fn is_deleted(deletes: &Vec<Address>, action: &Address) -> (r: bool)
    ensures
        r == deleted(deletes@, action@),
{
    let mut j: usize = 0;
    while j < deletes.len()
        invariant
            j <= deletes@.len(),
            forall|k: int| 0 <= k < j ==> (#[trigger] deletes@[k])@ != action@,
        decreases deletes@.len() - j,
    {
        if deletes[j].same_as(action) {
            return true;
        }
        j = j + 1;
    }
    false
}

/// Whether `agent` wrote the entry by an action that is not deleted.
pub fn is_live_for(actions: &Vec<EntryAction>, deletes: &Vec<Address>, agent: &Address) -> (r: bool)
    ensures
        r == live_for(actions@, deletes@, agent@),
{
    let mut i: usize = 0;
    while i < actions.len()
        invariant
            i <= actions@.len(),
            forall|k: int| 0 <= k < i ==> !((#[trigger] actions@[k]).author@ == agent@
                && !deleted(deletes@, actions@[k].action_hash@)),
        decreases actions@.len() - i,
    {
        if actions[i].author.same_as(agent) && !is_deleted(deletes, &actions[i].action_hash) {
            return true;
        }
        i = i + 1;
    }
    false
}

/// What the host answers to a lookup of a live burner.
pub enum LiveEntryReply<E, X> {
    Failed(X),
    /// The caller's key.
    Agent(Address),
    /// The details of an entry hash, if any.
    Details(Option<DetailsInfo<(), E>>),
}

/// A lookup of the caller's live burner by an entry hash. It asks for the
/// caller's key and the entry's details. Without an action of the caller that
/// wrote the entry and is not deleted, there is no live burner. Otherwise it
/// follows the entry's last update, and that entry's last update, to an entry
/// that was never updated, which is the answer; every entry on the way must
/// be live for the caller in the same sense, else there is no live burner.
pub enum GetMyLiveBurner {
    AwaitAgent { hash: Address },
    AwaitDetails { hash: Address, agent: Address },
}

/// The steps of a live burner lookup.
pub type LiveEntryStep<E, X> = Step<GetMyLiveBurner, Option<E>, X>;

/// The first step of a lookup of the caller's live burner at `entry_hash`.
pub fn get_my_live_burner_from_entry<E, X>(entry_hash: Address) -> (s: LiveEntryStep<E, X>)
    ensures
        s matches Step::Ask(GetMyLiveBurner::AwaitAgent { hash }, Call::AgentInfo) && hash == entry_hash,
{
    Step::Ask(GetMyLiveBurner::AwaitAgent { hash: entry_hash }, Call::AgentInfo)
}

/// The lookup follows an update: it asks for the details of `hash`, still for
/// `agent`.
pub open spec fn follows<E, X>(s: LiveEntryStep<E, X>, hash: Seq<u8>, agent: Seq<u8>) -> bool {
    &&& s matches Step::Ask(GetMyLiveBurner::AwaitDetails { hash: kept, agent: a }, Call::GetDetails { hash: h })
    &&& h@ == hash && kept@ == hash && a@ == agent
}

impl GetMyLiveBurner {
    /// The kind of reply the lookup waits for.
    pub open spec fn expects<E, X>(self, reply: LiveEntryReply<E, X>) -> bool {
        reply is Failed || (self is AwaitAgent && reply is Agent) || (!(self is AwaitAgent) && reply is Details)
    }

    /// Resumes the lookup with the host's reply.
    pub fn resume<E, X>(self, reply: LiveEntryReply<E, X>) -> (s: LiveEntryStep<E, X>)
        requires
            self.expects(reply),
        ensures
            reply matches LiveEntryReply::Failed(e) ==> s == LiveEntryStep::<E, X>::Done(Err(ZomeError::Host(e))),
            self matches GetMyLiveBurner::AwaitAgent { hash } ==> (reply matches LiveEntryReply::Agent(agent) ==>
                s matches Step::Ask(GetMyLiveBurner::AwaitDetails { hash: h, agent: a }, Call::GetDetails { hash: asked })
                    && h@ == hash@ && asked@ == hash@ && a == agent),
            self matches GetMyLiveBurner::AwaitDetails { agent, .. } ==> (reply matches LiveEntryReply::Details(d) ==> match d {
                None => s == LiveEntryStep::<E, X>::Done(Err(ZomeError::NotFound)),
                Some(DetailsInfo::Record { .. }) => s == LiveEntryStep::<E, X>::Done(Err(ZomeError::MalformedDetails)),
                Some(DetailsInfo::Entry { entry, actions, deletes, updates }) => {
                    if !live_for(actions@, deletes@, agent@) {
                        s == LiveEntryStep::<E, X>::Done(Ok(None))
                    } else if updates@.len() > 0 {
                        follows(s, updates@.last()@, agent@)
                    } else {
                        s == LiveEntryStep::<E, X>::Done(Ok(Some(entry)))
                    }
                },
            }),
    {
        match reply {
            LiveEntryReply::Failed(e) => Step::Done(Err(ZomeError::Host(e))),
            LiveEntryReply::Agent(agent) => match self {
                GetMyLiveBurner::AwaitAgent { hash } => {
                    let asked = hash.copied();
                    Step::Ask(GetMyLiveBurner::AwaitDetails { hash, agent }, Call::GetDetails { hash: asked })
                },
                _ => vstd::pervasive::unreached(),
            },
            LiveEntryReply::Details(None) => Step::Done(Err(ZomeError::NotFound)),
            LiveEntryReply::Details(Some(DetailsInfo::Record { .. })) => Step::Done(Err(ZomeError::MalformedDetails)),
            LiveEntryReply::Details(Some(DetailsInfo::Entry { entry, actions, deletes, updates })) => match self {
                GetMyLiveBurner::AwaitDetails { agent, .. } => {
                    if !is_live_for(&actions, &deletes, &agent) {
                        return Step::Done(Ok(None));
                    }
                    let mut updates = updates;
                    match updates.pop() {
                        Some(last) => {
                            let asked = last.copied();
                            Step::Ask(GetMyLiveBurner::AwaitDetails { hash: last, agent }, Call::GetDetails { hash: asked })
                        },
                        None => Step::Done(Ok(Some(entry))),
                    }
                },
                _ => vstd::pervasive::unreached(),
            },
        }
    }
}

} // verus!
