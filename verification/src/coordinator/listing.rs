use vstd::prelude::*;
use crate::coordinator::latest::{get_latest, GetLatest};
use crate::coordinator::lookup::{next_in_chain, LatestNext};
use crate::entries::LinkTypes;
use crate::host::{Call, LinkInfo, RecordInfo, Reply, Step, ZomeError};
use crate::text::{burners_path, burners_root, text_path};

verus! {

/// The latest records behind a list of links, looked up one link after the
/// other, in the order of the links; the first failure ends it.
pub struct LatestOfLinks<R> {
    pub links: Vec<LinkInfo>,
    /// The link whose target is being looked up.
    pub next: usize,
    /// The latest records of the links before `next`.
    pub found: Vec<RecordInfo<R>>,
    pub lookup: GetLatest,
}

/// The steps of a lookup of the latest records behind links.
pub type LatestOfLinksStep<R, X> = Step<LatestOfLinks<R>, Vec<RecordInfo<R>>, X>;

impl<R> LatestOfLinks<R> {
    pub open spec fn wf(self) -> bool {
        self.next < self.links@.len() && self.found@.len() == self.next
    }

    /// The lookup asks for the details of `hash`, with this progress.
    pub open spec fn asks<X>(s: LatestOfLinksStep<R, X>, links: Seq<LinkInfo>, next: int, found: Seq<RecordInfo<R>>, hash: Seq<u8>) -> bool {
        &&& s matches Step::Ask(m, Call::GetDetails { hash: h })
        &&& m.wf() && m.links@ == links && m.next == next && m.found@ == found
        &&& m.lookup.hash@ == hash && h@ == hash
    }

    /// What the lookup does with the details of the current action: a failure
    /// ends it; an update is followed; a record without updates is the latest
    /// of the current link, and the lookup goes on with the next link's
    /// target, or ends with every latest record when there is none.
    pub open spec fn next_step<X>(self, reply: Reply<R, X>, s: LatestOfLinksStep<R, X>) -> bool {
        match reply {
            Reply::Failed(e) => s == LatestOfLinksStep::<R, X>::Done(Err(ZomeError::Host(e))),
            Reply::Details(d) => match next_in_chain::<R, X>(d) {
                Err(err) => s == LatestOfLinksStep::<R, X>::Done(Err(err)),
                Ok(LatestNext::Follow(u)) => Self::asks(s, self.links@, self.next as int, self.found@, u@),
                Ok(LatestNext::Found(rec)) => if self.next + 1 == self.links@.len() {
                    s matches Step::Done(Ok(v)) && v@ == self.found@.push(rec)
                } else {
                    Self::asks(s, self.links@, self.next + 1, self.found@.push(rec), self.links@[self.next + 1].target@)
                },
            },
            _ => false,
        }
    }

    /// Resumes the lookup with the host's reply.
    pub fn resume<X>(self, reply: Reply<R, X>) -> (s: LatestOfLinksStep<R, X>)
        requires
            self.wf(),
            reply is Failed || reply is Details,
        ensures
            self.next_step(reply, s),
            s matches Step::Done(Ok(v)) ==> v@.len() == self.links@.len(),
    {
        let ghost old_self = self;
        let LatestOfLinks { links, next, found, lookup } = self;
        assert(next < links@.len() && found@.len() == next) by {
            assert(old_self.wf());
        }
        match lookup.resume::<R, X>(reply) {
            Step::Done(Err(err)) => Step::Done(Err(err)),
            Step::Ask(lookup, call) => Step::Ask(LatestOfLinks { links, next, found, lookup }, call),
            Step::Done(Ok(rec)) => {
                let mut found = found;
                found.push(rec);
                let n = links.len();
                if next + 1 == n {
                    Step::Done(Ok(found))
                } else {
                    let target = links[next + 1].target.copied();
                    match get_latest::<R, X>(target) {
                        Step::Ask(lookup, call) => Step::Ask(LatestOfLinks { links, next: next + 1, found, lookup }, call),
                        Step::Done(_) => vstd::pervasive::unreached(),
                    }
                }
            },
        }
    }
}

/// Starts the lookup of the latest records behind `links`; with no link, the
/// result is at once empty.
pub fn latest_of_links<R, X>(links: Vec<LinkInfo>) -> (s: LatestOfLinksStep<R, X>)
    ensures
        links@.len() == 0 ==> (s matches Step::Done(Ok(v)) && v@.len() == 0),
        links@.len() > 0 ==> LatestOfLinks::<R>::asks(s, links@, 0, Seq::empty(), links@[0].target@),
{
    if links.len() == 0 {
        return Step::Done(Ok(Vec::new()));
    }
    let target = links[0].target.copied();
    let found: Vec<RecordInfo<R>> = Vec::new();
    match get_latest::<R, X>(target) {
        Step::Ask(lookup, call) => {
            assert(found@ =~= Seq::<RecordInfo<R>>::empty());
            Step::Ask(LatestOfLinks { links, next: 0, found, lookup }, call)
        },
        Step::Done(_) => vstd::pervasive::unreached(),
    }
}

/// A listing of the latest version of each burner that the caller links to:
/// the agent's key, its `AgentToBurner` links, then the latest record behind
/// each link, in order; the first failure ends it.
pub enum GetAllMyBurners<R> {
    AwaitAgent,
    AwaitLinks,
    Looking(LatestOfLinks<R>),
}

/// The steps of a listing of the caller's burners.
pub type AllMineStep<R, X> = Step<GetAllMyBurners<R>, Vec<RecordInfo<R>>, X>;

/// The first step of a listing of the caller's burners.
pub fn get_all_my_burners<R, X>() -> (s: AllMineStep<R, X>)
    ensures
        s matches Step::Ask(GetAllMyBurners::AwaitAgent, Call::AgentInfo),
{
    Step::Ask(GetAllMyBurners::AwaitAgent, Call::AgentInfo)
}

/// A step of the inner lookup, seen from a listing that wraps it in `wrap`.
pub open spec fn lowered<M, R, X>(s: Step<M, Vec<RecordInfo<R>>, X>, inner: spec_fn(M) -> Option<LatestOfLinks<R>>) -> Option<LatestOfLinksStep<R, X>> {
    match s {
        Step::Done(r) => Some(Step::Done(r)),
        Step::Ask(m, c) => match inner(m) {
            Some(l) => Some(Step::Ask(l, c)),
            None => None,
        },
    }
}

impl<R> GetAllMyBurners<R> {
    /// The inner lookup of a listing state, if it is looking.
    pub open spec fn looking(self) -> Option<LatestOfLinks<R>> {
        match self {
            GetAllMyBurners::Looking(l) => Some(l),
            _ => None,
        }
    }

    pub open spec fn wf(self) -> bool {
        self matches GetAllMyBurners::Looking(l) ==> l.wf()
    }

    /// The kind of reply the listing waits for.
    pub open spec fn expects<X>(self, reply: Reply<R, X>) -> bool {
        reply is Failed || match self {
            GetAllMyBurners::AwaitAgent => reply is Hash,
            GetAllMyBurners::AwaitLinks => reply is Links,
            GetAllMyBurners::Looking(_) => reply is Details,
        }
    }

    /// Resumes the listing with the host's reply.
    pub fn resume<X>(self, reply: Reply<R, X>) -> (s: AllMineStep<R, X>)
        requires
            self.wf(),
            self.expects(reply),
        ensures
            s matches Step::Ask(m, _) ==> m.wf(),
            reply matches Reply::Failed(e) ==> s == AllMineStep::<R, X>::Done(Err(ZomeError::Host(e))),
            self is AwaitAgent ==> (reply matches Reply::Hash(agent) ==> s matches Step::Ask(GetAllMyBurners::AwaitLinks, Call::GetLinks { base, link_type })
                && base == agent && link_type == Some(LinkTypes::AgentToBurner)),
            self is AwaitLinks ==> (reply matches Reply::Links(links) ==> if links@.len() == 0 {
                s matches Step::Done(Ok(v)) && v@.len() == 0
            } else {
                lowered(s, |m: GetAllMyBurners<R>| m.looking()) matches Some(t)
                    && LatestOfLinks::<R>::asks(t, links@, 0, Seq::empty(), links@[0].target@)
            }),
            self matches GetAllMyBurners::Looking(l) ==> (lowered(s, |m: GetAllMyBurners<R>| m.looking()) matches Some(t)
                && l.next_step(reply, t)),
    {
        match self {
            GetAllMyBurners::AwaitAgent => match reply {
                Reply::Failed(e) => Step::Done(Err(ZomeError::Host(e))),
                Reply::Hash(agent) => Step::Ask(
                    GetAllMyBurners::AwaitLinks,
                    Call::GetLinks { base: agent, link_type: Some(LinkTypes::AgentToBurner) },
                ),
                _ => vstd::pervasive::unreached(),
            },
            GetAllMyBurners::AwaitLinks => match reply {
                Reply::Failed(e) => Step::Done(Err(ZomeError::Host(e))),
                Reply::Links(links) => match latest_of_links::<R, X>(links) {
                    Step::Ask(l, c) => Step::Ask(GetAllMyBurners::Looking(l), c),
                    Step::Done(r) => Step::Done(r),
                },
                _ => vstd::pervasive::unreached(),
            },
            GetAllMyBurners::Looking(l) => match l.resume(reply) {
                Step::Ask(l, c) => Step::Ask(GetAllMyBurners::Looking(l), c),
                Step::Done(r) => Step::Done(r),
            },
        }
    }
}

} // verus!

verus! {

/// A listing of every burner linked under the search paths: the links of type
/// `PathToBurner` from each child path of `all_burners`, then the latest
/// record behind each link, in order; the first failure ends it.
pub enum GetBurners<R> {
    AwaitLinks,
    Looking(LatestOfLinks<R>),
}

/// The steps of a listing of every burner.
pub type AllBurnersStep<R, X> = Step<GetBurners<R>, Vec<RecordInfo<R>>, X>;

/// The first step of a listing of every burner: the links under the children
/// of the `all_burners` path.
pub fn get_burners<R, X>() -> (s: AllBurnersStep<R, X>)
    ensures
        s matches Step::Ask(GetBurners::AwaitLinks, Call::ChildPathLinks { path, path_type, link_type })
            && path.deep_view() == text_path(burners_root())
            && path_type == LinkTypes::PrefixPath && link_type == LinkTypes::PathToBurner,
{
    Step::Ask(
        GetBurners::AwaitLinks,
        Call::ChildPathLinks { path: burners_path(), path_type: LinkTypes::PrefixPath, link_type: LinkTypes::PathToBurner },
    )
}

impl<R> GetBurners<R> {
    /// The inner lookup of a listing state, if it is looking.
    pub open spec fn looking(self) -> Option<LatestOfLinks<R>> {
        match self {
            GetBurners::Looking(l) => Some(l),
            _ => None,
        }
    }

    pub open spec fn wf(self) -> bool {
        self matches GetBurners::Looking(l) ==> l.wf()
    }

    /// Resumes the listing with the host's reply.
    pub fn resume<X>(self, reply: Reply<R, X>) -> (s: AllBurnersStep<R, X>)
        requires
            self.wf(),
            reply is Failed || (self is AwaitLinks && reply is Links) || (self is Looking && reply is Details),
        ensures
            s matches Step::Ask(m, _) ==> m.wf(),
            reply matches Reply::Failed(e) ==> s == AllBurnersStep::<R, X>::Done(Err(ZomeError::Host(e))),
            self is AwaitLinks ==> (reply matches Reply::Links(links) ==> if links@.len() == 0 {
                s matches Step::Done(Ok(v)) && v@.len() == 0
            } else {
                lowered(s, |m: GetBurners<R>| m.looking()) matches Some(t)
                    && LatestOfLinks::<R>::asks(t, links@, 0, Seq::empty(), links@[0].target@)
            }),
            self matches GetBurners::Looking(l) ==> (lowered(s, |m: GetBurners<R>| m.looking()) matches Some(t)
                && l.next_step(reply, t)),
    {
        match self {
            GetBurners::AwaitLinks => match reply {
                Reply::Failed(e) => Step::Done(Err(ZomeError::Host(e))),
                Reply::Links(links) => match latest_of_links::<R, X>(links) {
                    Step::Ask(l, c) => Step::Ask(GetBurners::Looking(l), c),
                    Step::Done(r) => Step::Done(r),
                },
                _ => vstd::pervasive::unreached(),
            },
            GetBurners::Looking(l) => match l.resume(reply) {
                Step::Ask(l, c) => Step::Ask(GetBurners::Looking(l), c),
                Step::Done(r) => Step::Done(r),
            },
        }
    }
}

/// The values of the `Some` items of a sequence, in order.
pub open spec fn somes<T>(s: Seq<Option<T>>) -> Seq<T>
    decreases s.len(),
{
    if s.len() == 0 {
        Seq::empty()
    } else {
        match s.last() {
            Some(v) => somes(s.drop_last()).push(v),
            None => somes(s.drop_last()),
        }
    }
}

/// The found records among lookups that may have found nothing, in order.
pub fn keep_found<T>(items: Vec<Option<T>>) -> (r: Vec<T>)
    ensures
        r@ == somes(items@),
{
    let ghost all = items@;
    let mut items = items;
    let mut rev: Vec<T> = Vec::new();
    // Take the items from the back, keeping the found ones.
    let mut n = items.len();
    while n > 0
        invariant
            n == items.len(),
            n <= all.len(),
            items@ == all.subrange(0, n as int),
            somes(all) == somes(items@) + rev@.reverse(),
        decreases n,
    {
        let ghost before = items@;
        let ghost rev_before = rev@;
        let item = items.pop().unwrap();
        proof {
            assert(before.drop_last() =~= items@);
        }
        match item {
            Some(v) => {
                rev.push(v);
                assert(rev@.reverse() =~= seq![v] + rev_before.reverse());
                assert(somes(before) == somes(items@).push(v));
                assert(somes(items@).push(v) + rev_before.reverse() =~= somes(items@) + rev@.reverse());
            },
            None => {
                assert(somes(before) == somes(items@));
            },
        }
        n = n - 1;
        proof {
            assert(items@ =~= all.subrange(0, n as int));
        }
    }
    assert(somes(items@) =~= Seq::<T>::empty());
    assert(somes(all) =~= rev@.reverse());
    let mut r: Vec<T> = Vec::new();
    let mut m = rev.len();
    while m > 0
        invariant
            m == rev.len(),
            r@ + rev@.reverse() == somes(all),
        decreases m,
    {
        let ghost rev_before = rev@;
        let ghost r_before = r@;
        let v = rev.pop().unwrap();
        proof {
            assert(rev_before.reverse() =~= seq![v] + rev@.reverse());
        }
        r.push(v);
        assert(r@ + rev@.reverse() =~= r_before + rev_before.reverse());
        m = m - 1;
    }
    assert(rev@.reverse() =~= Seq::<T>::empty());
    assert(r@ =~= somes(all));
    r
}

} // verus!
