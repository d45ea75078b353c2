use vstd::prelude::*;
use crate::coordinator::latest::{get_latest, GetLatest};
use crate::coordinator::listing::{keep_found, somes};
use crate::coordinator::lookup::{next_in_chain, LatestNext};
use crate::entries::LinkTypes;
use crate::host::{Call, DetailsInfo, LinkInfo, RecordInfo, Reply, Step, ZomeError};

verus! {

/// A listing of the live burners of the caller: the agent's key, its
/// `AgentToBurner` links, then for each link in order the latest record
/// behind it and the latest record of that record's entry; the entry records
/// that were found are the result.
pub enum GetMyLiveBurners<R> {
    AwaitAgent,
    AwaitLinks,
    /// Looking up the latest record behind `links[next]`.
    Latest { links: Vec<LinkInfo>, next: usize, found: Vec<Option<RecordInfo<R>>>, lookup: GetLatest },
    /// Waiting for the record of the entry of that latest record.
    AwaitEntry { links: Vec<LinkInfo>, next: usize, found: Vec<Option<RecordInfo<R>>> },
}

/// The steps of a listing of the caller's live burners.
pub type LiveStep<R, X> = Step<GetMyLiveBurners<R>, Vec<RecordInfo<R>>, X>;

/// The first step of a listing of the caller's live burners.
pub fn get_my_live_burners<R, X>() -> (s: LiveStep<R, X>)
    ensures
        s matches Step::Ask(GetMyLiveBurners::AwaitAgent, Call::AgentInfo),
{
    Step::Ask(GetMyLiveBurners::AwaitAgent, Call::AgentInfo)
}

/// The listing looks up the latest record behind `links[next]`, with this
/// progress, and asks for the details of `hash`.
pub open spec fn looks_up<R, X>(s: LiveStep<R, X>, links: Seq<LinkInfo>, next: int, found: Seq<Option<RecordInfo<R>>>, hash: Seq<u8>) -> bool {
    &&& s matches Step::Ask(GetMyLiveBurners::Latest { links: l, next: n, found: f, lookup }, Call::GetDetails { hash: h })
    &&& l@ == links && n == next && f@ == found && lookup.hash@ == hash && h@ == hash
}

/// The listing goes on after the entry record of `links[next]` was answered:
/// with the next link's target, or with the result when it was the last link.
pub open spec fn goes_on<R, X>(s: LiveStep<R, X>, links: Seq<LinkInfo>, next: int, found: Seq<Option<RecordInfo<R>>>) -> bool {
    if next + 1 == links.len() {
        s matches Step::Done(Ok(v)) && v@ == somes(found)
    } else {
        looks_up(s, links, next + 1, found, links[next + 1].target@)
    }
}

impl<R> GetMyLiveBurners<R> {
    pub open spec fn wf(self) -> bool {
        match self {
            GetMyLiveBurners::Latest { links, next, found, .. } => next < links@.len() && found@.len() == next,
            GetMyLiveBurners::AwaitEntry { links, next, found } => next < links@.len() && found@.len() == next,
            _ => true,
        }
    }

    /// The kind of reply the listing waits for.
    pub open spec fn expects<X>(self, reply: Reply<R, X>) -> bool {
        reply is Failed || match self {
            GetMyLiveBurners::AwaitAgent => reply is Hash,
            GetMyLiveBurners::AwaitLinks => reply is Links,
            GetMyLiveBurners::Latest { .. } => reply is Details,
            GetMyLiveBurners::AwaitEntry { .. } => reply is Record,
        }
    }

    /// Where the listing cannot go on (the handler insists on each lookup
    /// succeeding): a host error while looking up a link's latest record or
    /// its entry; a lookup that ends in an error; or a latest record without
    /// an entry.
    pub open spec fn stuck<X>(self, reply: Reply<R, X>) -> bool {
        match self {
            GetMyLiveBurners::Latest { .. } => reply is Failed || (reply matches Reply::Details(d) && match next_in_chain::<R, X>(d) {
                Err(_) => true,
                Ok(LatestNext::Found(rec)) => rec.entry_hash is None,
                Ok(LatestNext::Follow(_)) => false,
            }),
            GetMyLiveBurners::AwaitEntry { .. } => reply is Failed,
            _ => false,
        }
    }

    /// Whether the listing cannot go on with this reply (see [`Self::stuck`]).
    pub fn is_stuck<X>(&self, reply: &Reply<R, X>) -> (r: bool)
        ensures
            r == self.stuck(*reply),
    {
        match self {
            GetMyLiveBurners::Latest { .. } => match reply {
                Reply::Failed(_) => true,
                Reply::Details(None) => true,
                Reply::Details(Some(DetailsInfo::Entry { .. })) => true,
                Reply::Details(Some(DetailsInfo::Record { record, updates })) => {
                    updates.len() == 0 && record.entry_hash.is_none()
                },
                _ => false,
            },
            GetMyLiveBurners::AwaitEntry { .. } => match reply {
                Reply::Failed(_) => true,
                _ => false,
            },
            _ => false,
        }
    }

    /// What the listing does with the host's reply: a host error while
    /// asking for the agent or its links ends it with that error; the links
    /// start the lookups, one link after the other; a lookup follows updates
    /// to the latest record, whose entry is then read; the entry records found
    /// are the result.
    pub open spec fn next<X>(self, reply: Reply<R, X>, s: LiveStep<R, X>) -> bool {
        &&& self is AwaitAgent ==> (reply matches Reply::Failed(e) ==> s == LiveStep::<R, X>::Done(Err(ZomeError::Host(e))))
        &&& self is AwaitLinks ==> (reply matches Reply::Failed(e) ==> s == LiveStep::<R, X>::Done(Err(ZomeError::Host(e))))
        &&& self is AwaitAgent ==> (reply matches Reply::Hash(agent) ==> s matches Step::Ask(GetMyLiveBurners::AwaitLinks, Call::GetLinks { base, link_type })
            && base == agent && link_type == Some(LinkTypes::AgentToBurner))
        &&& self is AwaitLinks ==> (reply matches Reply::Links(links) ==> if links@.len() == 0 {
            s matches Step::Done(Ok(v)) && v@.len() == 0
        } else {
            looks_up(s, links@, 0, Seq::empty(), links@[0].target@)
        })
        &&& self matches GetMyLiveBurners::Latest { links, next, found, .. } ==> (reply matches Reply::Details(d) ==> match next_in_chain::<R, X>(d) {
            Ok(LatestNext::Follow(u)) => looks_up(s, links@, next as int, found@, u@),
            Ok(LatestNext::Found(rec)) => s matches Step::Ask(GetMyLiveBurners::AwaitEntry { links: l, next: n, found: f }, Call::Get { hash })
                && l@ == links@ && n == next && f@ == found@ && rec.entry_hash == Some(hash),
            Err(_) => false,
        })
        &&& self matches GetMyLiveBurners::AwaitEntry { links, next, found } ==> (reply matches Reply::Record(o) ==>
            goes_on(s, links@, next as int, found@.push(o)))
    }

    /// Resumes the listing with the host's reply (see [`Self::next`]).
    pub fn resume<X>(self, reply: Reply<R, X>) -> (s: LiveStep<R, X>)
        requires
            self.wf(),
            self.expects(reply),
            !self.stuck(reply),
        ensures
            s matches Step::Ask(m, _) ==> m.wf(),
            self.next(reply, s),
    {
        match self {
            GetMyLiveBurners::AwaitAgent => match reply {
                Reply::Failed(e) => Step::Done(Err(ZomeError::Host(e))),
                Reply::Hash(agent) => Step::Ask(
                    GetMyLiveBurners::AwaitLinks,
                    Call::GetLinks { base: agent, link_type: Some(LinkTypes::AgentToBurner) },
                ),
                _ => vstd::pervasive::unreached(),
            },
            GetMyLiveBurners::AwaitLinks => match reply {
                Reply::Failed(e) => Step::Done(Err(ZomeError::Host(e))),
                Reply::Links(links) => {
                    if links.len() == 0 {
                        return Step::Done(Ok(Vec::new()));
                    }
                    let found: Vec<Option<RecordInfo<R>>> = Vec::new();
                    assert(found@ =~= Seq::<Option<RecordInfo<R>>>::empty());
                    Self::look_up(links, 0, found)
                },
                _ => vstd::pervasive::unreached(),
            },
            GetMyLiveBurners::Latest { links, next, found, lookup } => match lookup.resume::<R, X>(reply) {
                Step::Ask(lookup, call) => Step::Ask(GetMyLiveBurners::Latest { links, next, found, lookup }, call),
                Step::Done(Ok(rec)) => match rec.entry_hash {
                    Some(hash) => Step::Ask(GetMyLiveBurners::AwaitEntry { links, next, found }, Call::Get { hash }),
                    None => vstd::pervasive::unreached(),
                },
                Step::Done(Err(_)) => vstd::pervasive::unreached(),
            },
            GetMyLiveBurners::AwaitEntry { links, next, found } => match reply {
                Reply::Record(o) => {
                    let mut found = found;
                    found.push(o);
                    let n = links.len();
                    if next + 1 == n {
                        Step::Done(Ok(keep_found(found)))
                    } else {
                        Self::look_up(links, next + 1, found)
                    }
                },
                _ => vstd::pervasive::unreached(),
            },
        }
    }

    /// Starts the lookup of the latest record behind `links[next]`.
    fn look_up<X>(links: Vec<LinkInfo>, next: usize, found: Vec<Option<RecordInfo<R>>>) -> (s: LiveStep<R, X>)
        requires
            next < links@.len(),
            found@.len() == next,
        ensures
            looks_up(s, links@, next as int, found@, links@[next as int].target@),
            s matches Step::Ask(m, _) ==> m.wf(),
    {
        let target = links[next].target.copied();
        match get_latest::<R, X>(target) {
            Step::Ask(lookup, call) => Step::Ask(GetMyLiveBurners::Latest { links, next, found, lookup }, call),
            Step::Done(_) => vstd::pervasive::unreached(),
        }
    }
}

/// The listing stops only on a host error while it looks up a link's latest
/// record or reads its entry, on a lookup that ends in an error, and on a
/// latest record without an entry. Reading an entry that the host no longer
/// finds (its burner was deleted) never stops it: the listing goes on without
/// that burner.
pub proof fn law_live_listing_is_stuck_only_on_failure<R, X>(m: GetMyLiveBurners<R>, reply: Reply<R, X>, s: LiveStep<R, X>)
    ensures
        m.stuck(reply) ==> reply is Failed || (m is Latest && (reply matches Reply::Details(d)
            && (next_in_chain::<R, X>(d) is Err
                || (next_in_chain::<R, X>(d) matches Ok(LatestNext::Found(rec)) && rec.entry_hash is None)))),
        m is AwaitEntry && reply is Record ==> !m.stuck(reply),
        m matches GetMyLiveBurners::AwaitEntry { links, next, found } ==> (reply == Reply::<R, X>::Record(None)
            && m.next(reply, s) ==> goes_on(s, links@, next as int, found@.push(None))),
        m is Latest ==> (reply matches Reply::Details(d) ==> (next_in_chain::<R, X>(d) matches Ok(LatestNext::Follow(_)) ==> !m.stuck(reply))),
        m is Latest ==> (reply matches Reply::Details(d) ==> (next_in_chain::<R, X>(d) matches Ok(LatestNext::Found(rec))
            ==> (rec.entry_hash is Some ==> !m.stuck(reply)))),
        m is AwaitAgent || m is AwaitLinks ==> !m.stuck(reply),
{
}

} // verus!
