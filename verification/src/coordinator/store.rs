//! A model of what the host keeps for the caller, and the laws that the
//! handlers obey across calls over that model. The host's shared store is
//! seen through what it answers: `details` is its answer to a request for the
//! details of an action, `records` its answer to a read of an entry. The
//! handlers' own contracts say what each step makes of such answers; the
//! spec functions here chain those steps.

use vstd::prelude::*;
use crate::coordinator::latest::{asks_details_of, GetLatest};
use crate::coordinator::listing::somes;
use crate::coordinator::live::{GetMyLiveBurners, LiveStep};
use crate::coordinator::lookup::{creations_to, last_with_action, next_in_chain, LatestNext};
use crate::coordinator::update::{lemma_creations_to_come_from, UpdateBurner, UpdatePhase, UpdateStep};
use crate::entries::LinkTypes;
use crate::host::{Call, DetailsInfo, LinkInfo, RecordInfo, Reply, Step, ZomeError};

verus! {

/// The outcome of a lookup of the latest record from `hash` (see
/// [`crate::coordinator::latest::GetLatest`]) when the host answers each
/// request for details by `details`: each answer is read by
/// [`next_in_chain`]. `None` where the lookup would ask for more than `fuel`
/// details.
pub open spec fn latest_in<R, X>(
    details: spec_fn(Seq<u8>) -> Option<DetailsInfo<R, ()>>,
    hash: Seq<u8>,
    fuel: nat,
) -> Option<Result<RecordInfo<R>, ZomeError<X>>>
    decreases fuel,
{
    if fuel == 0 {
        None
    } else {
        match next_in_chain::<R, X>(details(hash)) {
            Err(e) => Some(Err(e)),
            Ok(LatestNext::Found(r)) => Some(Ok(r)),
            Ok(LatestNext::Follow(u)) => latest_in::<R, X>(details, u@, (fuel - 1) as nat),
        }
    }
}

/// Where a lookup of the latest record stands, over the store: its result
/// once it is done; otherwise the outcome, within `fuel` more requests, of the
/// lookup from the action it asks about.
pub open spec fn latest_after<R, X>(
    s: Step<GetLatest, RecordInfo<R>, X>,
    details: spec_fn(Seq<u8>) -> Option<DetailsInfo<R, ()>>,
    fuel: nat,
) -> Option<Result<RecordInfo<R>, ZomeError<X>>> {
    match s {
        Step::Done(r) => Some(r),
        Step::Ask(m, _) => latest_in::<R, X>(details, m.hash@, fuel),
    }
}

/// The lookup of the latest record keeps to [`latest_in`]: its first step
/// stands where a lookup from its action starts, and each step that the host
/// answers from the store takes one request of that lookup. So a lookup whose
/// every request the host answers from `details` ends as `latest_in` says.
pub proof fn law_latest_steps_follow_the_store<R, X>(
    hash: Seq<u8>,
    first: Step<GetLatest, RecordInfo<R>, X>,
    m: GetLatest,
    s: Step<GetLatest, RecordInfo<R>, X>,
    details: spec_fn(Seq<u8>) -> Option<DetailsInfo<R, ()>>,
    fuel: nat,
)
    requires
        asks_details_of(first, hash),
        m.next(Reply::<R, X>::Details(details(m.hash@)), s),
    ensures
        latest_after(first, details, fuel) == latest_in::<R, X>(details, hash, fuel),
        latest_after(s, details, fuel) == latest_in::<R, X>(details, m.hash@, fuel + 1),
{
}

/// The host answers the details of an action with the record of that very
/// action.
pub open spec fn answers_own_record<R>(details: spec_fn(Seq<u8>) -> Option<DetailsInfo<R, ()>>) -> bool {
    forall|x: Seq<u8>| #[trigger] details(x) matches Some(DetailsInfo::Record { record, .. }) ==> record.action_hash@ == x
}

/// A lookup of the latest record that ends within some number of requests
/// ends the same way when it may ask for more.
pub proof fn law_latest_needs_no_more_lookups<R, X>(
    details: spec_fn(Seq<u8>) -> Option<DetailsInfo<R, ()>>,
    hash: Seq<u8>,
    fuel: nat,
    more: nat,
)
    requires
        fuel <= more,
        latest_in::<R, X>(details, hash, fuel) is Some,
    ensures
        latest_in::<R, X>(details, hash, more) == latest_in::<R, X>(details, hash, fuel),
    decreases fuel,
{
    if let Ok(LatestNext::Follow(u)) = next_in_chain::<R, X>(details(hash)) {
        law_latest_needs_no_more_lookups::<R, X>(details, u@, (fuel - 1) as nat, (more - 1) as nat);
    }
}

/// The latest record is its own latest record: where a lookup from `hash`
/// finds `r`, a lookup from `r`'s action, over the same store, finds `r` with
/// its first request.
pub proof fn law_latest_is_its_own_latest<R, X>(
    details: spec_fn(Seq<u8>) -> Option<DetailsInfo<R, ()>>,
    hash: Seq<u8>,
    fuel: nat,
    r: RecordInfo<R>,
)
    requires
        answers_own_record(details),
        latest_in::<R, X>(details, hash, fuel) == Some(Ok::<RecordInfo<R>, ZomeError<X>>(r)),
    ensures
        latest_in::<R, X>(details, r.action_hash@, 1) == Some(Ok::<RecordInfo<R>, ZomeError<X>>(r)),
    decreases fuel,
{
    match next_in_chain::<R, X>(details(hash)) {
        Ok(LatestNext::Follow(u)) => {
            law_latest_is_its_own_latest::<R, X>(details, u@, (fuel - 1) as nat, r);
        },
        _ => {
            assert(details(hash) matches Some(DetailsInfo::Record { record, .. }) ==> record.action_hash@ == hash);
            assert(details(r.action_hash@) == details(hash));
        },
    }
}

/// Every update that the host lists for an action is newer than it: `age`
/// goes down along every update chain.
pub open spec fn updates_are_newer<R>(
    details: spec_fn(Seq<u8>) -> Option<DetailsInfo<R, ()>>,
    age: spec_fn(Seq<u8>) -> nat,
) -> bool {
    forall|x: Seq<u8>| #[trigger] details(x) matches Some(DetailsInfo::Record { updates, .. })
        ==> (updates@.len() > 0 ==> age(updates@.last()@) < age(x))
}

/// A lookup of the latest record ends: where updates are newer than what
/// they update, the lookup from `hash` asks for at most `age(hash) + 1`
/// details.
pub proof fn law_latest_ends<R, X>(
    details: spec_fn(Seq<u8>) -> Option<DetailsInfo<R, ()>>,
    age: spec_fn(Seq<u8>) -> nat,
    hash: Seq<u8>,
)
    requires
        updates_are_newer(details, age),
    ensures
        latest_in::<R, X>(details, hash, age(hash) + 1) is Some,
    decreases age(hash),
{
    if let Ok(LatestNext::Follow(u)) = next_in_chain::<R, X>(details(hash)) {
        assert(details(hash) matches Some(DetailsInfo::Record { updates, .. })
            ==> (updates@.len() > 0 ==> age(updates@.last()@) < age(hash)));
        law_latest_ends::<R, X>(details, age, u@);
        law_latest_needs_no_more_lookups::<R, X>(details, u@, age(u@) + 1, age(hash));
    }
}

/// The targets of `links`.
pub open spec fn link_targets(links: Seq<LinkInfo>) -> Set<Seq<u8>> {
    Set::new(|t: Seq<u8>| exists|i: int| 0 <= i < links.len() && (#[trigger] links[i]).target@ == t)
}

/// The actions that created `links`.
pub open spec fn link_creations(links: Seq<LinkInfo>) -> Set<Seq<u8>> {
    Set::new(|c: Seq<u8>| exists|i: int| 0 <= i < links.len() && (#[trigger] links[i]).create_link_hash@ == c)
}

/// No two of `links` share a target, and no two were created by one action.
pub open spec fn links_apart(links: Seq<LinkInfo>) -> bool {
    forall|i: int, j: int| 0 <= i < links.len() && 0 <= j < links.len() && i != j ==>
        (#[trigger] links[i]).target@ != (#[trigger] links[j]).target@
            && links[i].create_link_hash@ != links[j].create_link_hash@
}

/// The links that remain once the host deletes the link that `address`
/// created.
pub open spec fn without_link(links: Seq<LinkInfo>, address: Seq<u8>) -> Seq<LinkInfo>
    decreases links.len(),
{
    if links.len() == 0 {
        Seq::empty()
    } else if links.last().create_link_hash@ == address {
        without_link(links.drop_last(), address)
    } else {
        without_link(links.drop_last(), address).push(links.last())
    }
}

/// The caller's burner links once an update of `original` is done (see
/// [`crate::coordinator::update::UpdateBurner`]): the first link to the
/// original, if there is one, is deleted, and `added`, the link to the update,
/// is created.
pub open spec fn relinked(links: Seq<LinkInfo>, original: Seq<u8>, added: LinkInfo) -> Seq<LinkInfo> {
    unlinked(links, original).push(added)
}

/// The caller's burner links once the first link to `original`, if there is
/// one, is deleted.
pub open spec fn unlinked(links: Seq<LinkInfo>, original: Seq<u8>) -> Seq<LinkInfo> {
    let gone = creations_to(links, original);
    if gone.len() > 0 { without_link(links, gone[0]) } else { links }
}

/// The caller's burner links once the host has carried out `call` and
/// answered it with `reply`: deleting a link removes it; creating a burner
/// link adds it, as created by the action the host answered.
pub open spec fn links_after_call<R, X>(links: Seq<LinkInfo>, call: Call, reply: Reply<R, X>) -> Seq<LinkInfo> {
    match call {
        Call::DeleteLink { address } => without_link(links, address@),
        Call::CreateLink { target, link_type, .. } => match reply {
            Reply::Hash(created) => if link_type == LinkTypes::AgentToBurner {
                links.push(LinkInfo { target, create_link_hash: created })
            } else {
                links
            },
            _ => links,
        },
        _ => links,
    }
}

/// The requests that an update makes on the caller's burner links, carried
/// out by the host, turn the links it read into [`relinked`] ones: the
/// request that follows the links deletes the first link to the original, if
/// any; the request that follows the agent's key for the new link adds a link
/// to the update; every other request of the update leaves the caller's
/// burner links as they are.
pub proof fn law_update_requests_relink<R, X>(
    m: UpdateBurner,
    reply: Reply<R, X>,
    s: UpdateStep<R, X>,
    links: Seq<LinkInfo>,
    answer: Reply<R, X>,
)
    requires
        m.next(reply, s),
        s is Ask,
    ensures
        m.phase is AwaitAgentLinks ==> (reply matches Reply::Links(l) ==> (l@ == links
            ==> links_after_call(links, s->Ask_1, answer) == unlinked(links, m.original@))),
        m.phase matches UpdatePhase::AwaitAgent { action } ==> (answer matches Reply::Hash(created)
            ==> links_after_call(links, s->Ask_1, answer) == links.push(LinkInfo { target: s->Ask_1->CreateLink_target, create_link_hash: created })
                && s->Ask_1->CreateLink_target@ == action@),
        !(m.phase is AwaitAgentLinks || m.phase is AwaitAgent) ==> links_after_call(links, s->Ask_1, answer) == links,
{
}

/// Every burner link of the caller points at a burner action of the caller's
/// chain (`mine`) that was not updated (`updated`), and the links are apart.
pub open spec fn links_to_live_burners(links: Seq<LinkInfo>, mine: Set<Seq<u8>>, updated: Set<Seq<u8>>) -> bool {
    &&& links_apart(links)
    &&& forall|t: Seq<u8>| #[trigger] link_targets(links).contains(t) ==> mine.contains(t) && !updated.contains(t)
}

proof fn lemma_push_targets(links: Seq<LinkInfo>, added: LinkInfo)
    ensures
        link_targets(links.push(added)) == link_targets(links).insert(added.target@),
        link_creations(links.push(added)) == link_creations(links).insert(added.create_link_hash@),
{
    let s = links.push(added);
    assert forall|t: Seq<u8>| link_targets(links).insert(added.target@).contains(t) implies link_targets(s).contains(t) by {
        if t == added.target@ {
            assert(s[links.len() as int] == added);
        } else {
            let i = choose|i: int| 0 <= i < links.len() && (#[trigger] links[i]).target@ == t;
            assert(s[i] == links[i]);
        }
    }
    assert forall|t: Seq<u8>| link_targets(s).contains(t) implies link_targets(links).insert(added.target@).contains(t) by {
        let i = choose|i: int| 0 <= i < s.len() && (#[trigger] s[i]).target@ == t;
        if i < links.len() {
            assert(s[i] == links[i]);
        }
    }
    assert(link_targets(s) =~= link_targets(links).insert(added.target@));
    assert forall|c: Seq<u8>| link_creations(links).insert(added.create_link_hash@).contains(c) implies link_creations(s).contains(c) by {
        if c == added.create_link_hash@ {
            assert(s[links.len() as int] == added);
        } else {
            let i = choose|i: int| 0 <= i < links.len() && (#[trigger] links[i]).create_link_hash@ == c;
            assert(s[i] == links[i]);
        }
    }
    assert forall|c: Seq<u8>| link_creations(s).contains(c) implies link_creations(links).insert(added.create_link_hash@).contains(c) by {
        let i = choose|i: int| 0 <= i < s.len() && (#[trigger] s[i]).create_link_hash@ == c;
        if i < links.len() {
            assert(s[i] == links[i]);
        }
    }
    assert(link_creations(s) =~= link_creations(links).insert(added.create_link_hash@));
}

proof fn lemma_push_apart(links: Seq<LinkInfo>, added: LinkInfo)
    requires
        links_apart(links),
        !link_targets(links).contains(added.target@),
        !link_creations(links).contains(added.create_link_hash@),
    ensures
        links_apart(links.push(added)),
{
    let s = links.push(added);
    assert forall|i: int, j: int| 0 <= i < s.len() && 0 <= j < s.len() && i != j implies
        (#[trigger] s[i]).target@ != (#[trigger] s[j]).target@ && s[i].create_link_hash@ != s[j].create_link_hash@ by {
        if i < links.len() && j < links.len() {
            assert(s[i] == links[i] && s[j] == links[j]);
        } else if i < links.len() {
            assert(s[i] == links[i]);
            assert(link_targets(links).contains(links[i].target@));
            assert(link_creations(links).contains(links[i].create_link_hash@));
        } else {
            assert(s[j] == links[j]);
            assert(link_targets(links).contains(links[j].target@));
            assert(link_creations(links).contains(links[j].create_link_hash@));
        }
    }
}

/// What deleting the link of `address` keeps: exactly the links that other
/// actions created; and the links kept stay apart.
proof fn lemma_without_link(links: Seq<LinkInfo>, address: Seq<u8>)
    ensures
        forall|t: Seq<u8>| #[trigger] link_targets(without_link(links, address)).contains(t) <==>
            exists|i: int| 0 <= i < links.len() && (#[trigger] links[i]).target@ == t && links[i].create_link_hash@ != address,
        link_creations(without_link(links, address)).subset_of(link_creations(links)),
        link_targets(without_link(links, address)).subset_of(link_targets(links)),
        links_apart(links) ==> links_apart(without_link(links, address)),
    decreases links.len(),
{
    if links.len() > 0 {
        let rest = links.drop_last();
        let last = links.last();
        lemma_without_link(rest, address);
        let kept = without_link(rest, address);
        if last.create_link_hash@ != address {
            lemma_push_targets(kept, last);
        }
        assert forall|t: Seq<u8>| #[trigger] link_targets(without_link(links, address)).contains(t) <==>
            exists|i: int| 0 <= i < links.len() && (#[trigger] links[i]).target@ == t && links[i].create_link_hash@ != address by {
            if exists|i: int| 0 <= i < links.len() && (#[trigger] links[i]).target@ == t && links[i].create_link_hash@ != address {
                let i = choose|i: int| 0 <= i < links.len() && (#[trigger] links[i]).target@ == t && links[i].create_link_hash@ != address;
                if i < rest.len() {
                    assert(rest[i] == links[i]);
                }
            }
            if link_targets(kept).contains(t) {
                let i = choose|i: int| 0 <= i < rest.len() && (#[trigger] rest[i]).target@ == t && rest[i].create_link_hash@ != address;
                assert(rest[i] == links[i]);
            }
        }
        assert forall|c: Seq<u8>| link_creations(rest).contains(c) implies link_creations(links).contains(c) by {
            let i = choose|i: int| 0 <= i < rest.len() && (#[trigger] rest[i]).create_link_hash@ == c;
            assert(rest[i] == links[i]);
        }
        assert forall|t: Seq<u8>| link_targets(rest).contains(t) implies link_targets(links).contains(t) by {
            let i = choose|i: int| 0 <= i < rest.len() && (#[trigger] rest[i]).target@ == t;
            assert(rest[i] == links[i]);
        }
        assert(link_targets(links).contains(last.target@)) by {
            assert(links[links.len() - 1] == last);
        }
        assert(link_creations(links).contains(last.create_link_hash@)) by {
            assert(links[links.len() - 1] == last);
        }
        if links_apart(links) {
            assert(links_apart(rest)) by {
                assert forall|i: int, j: int| 0 <= i < rest.len() && 0 <= j < rest.len() && i != j implies
                    (#[trigger] rest[i]).target@ != (#[trigger] rest[j]).target@ && rest[i].create_link_hash@ != rest[j].create_link_hash@ by {
                    assert(rest[i] == links[i] && rest[j] == links[j]);
                }
            }
            if last.create_link_hash@ != address {
                assert(!link_targets(kept).contains(last.target@)) by {
                    if link_targets(kept).contains(last.target@) {
                        let i = choose|i: int| 0 <= i < rest.len() && (#[trigger] rest[i]).target@ == last.target@;
                        assert(rest[i] == links[i]);
                        assert(links[links.len() - 1] == last);
                    }
                }
                assert(!link_creations(kept).contains(last.create_link_hash@)) by {
                    if link_creations(kept).contains(last.create_link_hash@) {
                        let i = choose|i: int| 0 <= i < rest.len() && (#[trigger] rest[i]).create_link_hash@ == last.create_link_hash@;
                        assert(rest[i] == links[i]);
                        assert(links[links.len() - 1] == last);
                    }
                }
                lemma_push_apart(kept, last);
            }
        }
    } else {
        assert(link_targets(without_link(links, address)) =~= Set::empty());
        assert(link_creations(without_link(links, address)) =~= Set::empty());
    }
}

/// No creation is listed for a target that no link points at.
proof fn lemma_no_creations_to(links: Seq<LinkInfo>, target: Seq<u8>)
    requires
        creations_to(links, target).len() == 0,
    ensures
        !link_targets(links).contains(target),
    decreases links.len(),
{
    if links.len() > 0 {
        let rest = links.drop_last();
        lemma_no_creations_to(rest, target);
        if link_targets(links).contains(target) {
            let i = choose|i: int| 0 <= i < links.len() && (#[trigger] links[i]).target@ == target;
            if i < rest.len() {
                assert(rest[i] == links[i]);
            }
        }
    }
}

/// An update moves the caller's burner link from the original to the update:
/// the targets of the caller's burner links afterwards are those before, less
/// the original, plus the update's action. Where every link pointed at a burner
/// of the caller's chain that was not updated, and the links were apart, that
/// still holds once the chain holds the update and the original counts as
/// updated, provided the update's action and its link are new.
pub proof fn law_update_moves_the_burner_link(
    links: Seq<LinkInfo>,
    original: Seq<u8>,
    added: LinkInfo,
    mine: Set<Seq<u8>>,
    updated: Set<Seq<u8>>,
)
    requires
        links_to_live_burners(links, mine, updated),
        added.target@ != original,
        !updated.contains(added.target@),
        !link_targets(links).contains(added.target@),
        !link_creations(links).contains(added.create_link_hash@),
    ensures
        link_targets(relinked(links, original, added)) == link_targets(links).remove(original).insert(added.target@),
        links_to_live_burners(relinked(links, original, added), mine.insert(added.target@), updated.insert(original)),
{
    let gone = creations_to(links, original);
    let kept = if gone.len() > 0 { without_link(links, gone[0]) } else { links };
    if gone.len() > 0 {
        lemma_creations_to_come_from(links, original, 0);
        let k = choose|k: int| 0 <= k < links.len() && links[k].target@ == original
            && #[trigger] links[k].create_link_hash@ == gone[0];
        lemma_without_link(links, gone[0]);
        assert forall|t: Seq<u8>| link_targets(kept).contains(t) <==> link_targets(links).remove(original).contains(t) by {
            if link_targets(kept).contains(t) {
                let i = choose|i: int| 0 <= i < links.len() && (#[trigger] links[i]).target@ == t && links[i].create_link_hash@ != gone[0];
                assert(i != k);
            }
            if link_targets(links).remove(original).contains(t) {
                let i = choose|i: int| 0 <= i < links.len() && (#[trigger] links[i]).target@ == t;
                assert(i != k);
                assert(links[i].create_link_hash@ != links[k].create_link_hash@);
            }
        }
        assert(link_targets(kept) =~= link_targets(links).remove(original));
    } else {
        lemma_no_creations_to(links, original);
        assert(link_targets(kept) =~= link_targets(links).remove(original));
    }
    lemma_push_targets(kept, added);
    assert(link_targets(relinked(links, original, added)) =~= link_targets(links).remove(original).insert(added.target@));
    assert(link_creations(kept).subset_of(link_creations(links)));
    lemma_push_apart(kept, added);
}

/// What the live listing finds behind a link to `target` (see
/// [`crate::coordinator::live::GetMyLiveBurners`]): the latest record behind
/// it, then the host's answer (`records`) to a read of that record's entry.
/// `None` where the listing cannot go on (a lookup that fails, a latest record
/// without an entry) or would ask for more than `fuel` details.
pub open spec fn found_behind<R>(
    details: spec_fn(Seq<u8>) -> Option<DetailsInfo<R, ()>>,
    records: spec_fn(Seq<u8>) -> Option<RecordInfo<R>>,
    target: Seq<u8>,
    fuel: nat,
) -> Option<Option<RecordInfo<R>>> {
    match latest_in::<R, ()>(details, target, fuel) {
        Some(Ok(rec)) => match rec.entry_hash {
            Some(e) => Some(records(e@)),
            None => None,
        },
        _ => None,
    }
}

/// What the live listing finds behind each of `links`, in order.
pub open spec fn found_behind_all<R>(
    details: spec_fn(Seq<u8>) -> Option<DetailsInfo<R, ()>>,
    records: spec_fn(Seq<u8>) -> Option<RecordInfo<R>>,
    links: Seq<LinkInfo>,
    fuel: nat,
) -> Option<Seq<Option<RecordInfo<R>>>>
    decreases links.len(),
{
    if links.len() == 0 {
        Some(Seq::empty())
    } else {
        match found_behind_all(details, records, links.drop_last(), fuel) {
            Some(f) => match found_behind(details, records, links.last().target@, fuel) {
                Some(o) => Some(f.push(o)),
                None => None,
            },
            None => None,
        }
    }
}

/// The result of the live listing over the caller's burner links `links`:
/// the entry records found, in link order.
pub open spec fn live_list<R>(
    details: spec_fn(Seq<u8>) -> Option<DetailsInfo<R, ()>>,
    records: spec_fn(Seq<u8>) -> Option<RecordInfo<R>>,
    links: Seq<LinkInfo>,
    fuel: nat,
) -> Option<Seq<RecordInfo<R>>> {
    match found_behind_all(details, records, links, fuel) {
        Some(f) => Some(somes(f)),
        None => None,
    }
}

/// The host answers `call` from the store: the details of an action by
/// `details`, a read of an entry by `records`.
pub open spec fn answered_from_store<R, X>(
    details: spec_fn(Seq<u8>) -> Option<DetailsInfo<R, ()>>,
    records: spec_fn(Seq<u8>) -> Option<RecordInfo<R>>,
    call: Call,
    reply: Reply<R, X>,
) -> bool {
    match call {
        Call::GetDetails { hash } => reply == Reply::<R, X>::Details(details(hash@)),
        Call::Get { hash } => reply == Reply::<R, X>::Record(records(hash@)),
        _ => false,
    }
}

/// What the live listing finds behind the links from `from` on.
pub open spec fn found_from<R>(
    details: spec_fn(Seq<u8>) -> Option<DetailsInfo<R, ()>>,
    records: spec_fn(Seq<u8>) -> Option<RecordInfo<R>>,
    links: Seq<LinkInfo>,
    from: int,
    fuel: nat,
) -> Option<Seq<Option<RecordInfo<R>>>> {
    found_behind_all(details, records, links.subrange(from, links.len() as int), fuel)
}

/// The result that a live listing heads for from the step `s`, where the
/// host answers each of its requests from the store: what it has found, what
/// the request in flight will find, and what it will find behind the links
/// after it. `None` where the store leads it nowhere.
pub open spec fn live_after<R, X>(
    s: LiveStep<R, X>,
    details: spec_fn(Seq<u8>) -> Option<DetailsInfo<R, ()>>,
    records: spec_fn(Seq<u8>) -> Option<RecordInfo<R>>,
    fuel: nat,
) -> Option<Seq<RecordInfo<R>>> {
    match s {
        Step::Done(Ok(v)) => Some(v@),
        Step::Ask(GetMyLiveBurners::Latest { links, next, found, lookup }, Call::GetDetails { hash }) => {
            if hash@ == lookup.hash@ {
                match found_behind(details, records, hash@, fuel) {
                    Some(o) => match found_from(details, records, links@, next + 1, fuel) {
                        Some(rest) => Some(somes(found@.push(o) + rest)),
                        None => None,
                    },
                    None => None,
                }
            } else {
                None
            }
        },
        Step::Ask(GetMyLiveBurners::AwaitEntry { links, next, found }, Call::Get { hash }) => {
            match found_from(details, records, links@, next + 1, fuel) {
                Some(rest) => Some(somes(found@.push(records(hash@)) + rest)),
                None => None,
            }
        },
        _ => None,
    }
}

proof fn lemma_found_behind_all_concat<R>(
    details: spec_fn(Seq<u8>) -> Option<DetailsInfo<R, ()>>,
    records: spec_fn(Seq<u8>) -> Option<RecordInfo<R>>,
    a: Seq<LinkInfo>,
    b: Seq<LinkInfo>,
    fuel: nat,
)
    ensures
        found_behind_all(details, records, a + b, fuel) == match found_behind_all(details, records, a, fuel) {
            Some(x) => match found_behind_all(details, records, b, fuel) {
                Some(y) => Some(x + y),
                None => None,
            },
            None => None,
        },
    decreases b.len(),
{
    if b.len() == 0 {
        assert(a + b =~= a);
        if let Some(x) = found_behind_all(details, records, a, fuel) {
            assert(x + Seq::<Option<RecordInfo<R>>>::empty() =~= x);
        }
    } else {
        let b0 = b.drop_last();
        lemma_found_behind_all_concat(details, records, a, b0, fuel);
        assert((a + b).drop_last() =~= a + b0);
        assert((a + b).last() == b.last());
        if let Some(x) = found_behind_all(details, records, a, fuel) {
            if let Some(y0) = found_behind_all(details, records, b0, fuel) {
                if let Some(o) = found_behind(details, records, b.last().target@, fuel) {
                    assert(x + y0.push(o) =~= (x + y0).push(o));
                }
            }
        }
    }
}

proof fn lemma_found_from_front<R>(
    details: spec_fn(Seq<u8>) -> Option<DetailsInfo<R, ()>>,
    records: spec_fn(Seq<u8>) -> Option<RecordInfo<R>>,
    links: Seq<LinkInfo>,
    from: int,
    fuel: nat,
)
    requires
        0 <= from < links.len(),
    ensures
        found_from(details, records, links, from, fuel) == match found_behind(details, records, links[from].target@, fuel) {
            Some(o) => match found_from(details, records, links, from + 1, fuel) {
                Some(rest) => Some(seq![o] + rest),
                None => None,
            },
            None => None,
        },
{
    let one = seq![links[from]];
    assert(links.subrange(from, links.len() as int) =~= one + links.subrange(from + 1, links.len() as int));
    lemma_found_behind_all_concat(details, records, one, links.subrange(from + 1, links.len() as int), fuel);
    assert(one.drop_last() =~= Seq::<LinkInfo>::empty());
    assert(one.last() == links[from]);
    assert(found_behind_all(details, records, Seq::<LinkInfo>::empty(), fuel) == Some(Seq::<Option<RecordInfo<R>>>::empty()));
    assert(found_behind_all(details, records, one.drop_last(), fuel) == Some(Seq::<Option<RecordInfo<R>>>::empty()));
    if let Some(o) = found_behind(details, records, links[from].target@, fuel) {
        assert(Seq::<Option<RecordInfo<R>>>::empty().push(o) =~= seq![o]);
        assert(found_behind_all(details, records, one, fuel) == Some(seq![o]));
    } else {
        assert(found_behind_all(details, records, one, fuel) is None);
    }
}

/// The live listing keeps to [`live_list`]: where the host answers its
/// request for the caller's links with `links`, it heads for the listing of
/// those links over the store.
pub proof fn law_live_listing_starts_from_the_store<R, X>(
    links: Vec<LinkInfo>,
    s: LiveStep<R, X>,
    details: spec_fn(Seq<u8>) -> Option<DetailsInfo<R, ()>>,
    records: spec_fn(Seq<u8>) -> Option<RecordInfo<R>>,
    fuel: nat,
    v: Seq<RecordInfo<R>>,
)
    requires
        GetMyLiveBurners::<R>::AwaitLinks.next(Reply::<R, X>::Links(links), s),
        live_list(details, records, links@, fuel) == Some(v),
    ensures
        live_after(s, details, records, fuel) == Some(v),
{
    let f = found_behind_all(details, records, links@, fuel)->Some_0;
    if links@.len() == 0 {
        assert(f =~= Seq::<Option<RecordInfo<R>>>::empty());
        assert(v =~= Seq::<RecordInfo<R>>::empty());
        assert(s->Done_0->Ok_0@ =~= v);
    } else {
        assert(links@.subrange(0, links@.len() as int) =~= links@);
        lemma_found_from_front(details, records, links@, 0, fuel);
        let o = found_behind(details, records, links@[0].target@, fuel)->Some_0;
        let rest = found_from(details, records, links@, 1, fuel)->Some_0;
        assert(Seq::<Option<RecordInfo<R>>>::empty().push(o) + rest =~= seq![o] + rest);
    }
}

/// Each step of the live listing that the host answers from the store keeps
/// it heading for the same result, and never stops it (an entry the host no
/// longer finds included); so a listing that the host answers from the store
/// throughout ends with that result.
pub proof fn law_live_steps_follow_the_store<R, X>(
    m: GetMyLiveBurners<R>,
    call: Call,
    reply: Reply<R, X>,
    s: LiveStep<R, X>,
    details: spec_fn(Seq<u8>) -> Option<DetailsInfo<R, ()>>,
    records: spec_fn(Seq<u8>) -> Option<RecordInfo<R>>,
    fuel: nat,
    v: Seq<RecordInfo<R>>,
)
    requires
        m.wf(),
        m.next(reply, s),
        answered_from_store(details, records, call, reply),
        live_after(LiveStep::<R, X>::Ask(m, call), details, records, fuel) == Some(v),
    ensures
        live_after(s, details, records, fuel) == Some(v),
        !m.stuck(reply),
{
    match m {
        GetMyLiveBurners::Latest { links, next, found, lookup } => {
            let hash = call->GetDetails_hash;
            let o = found_behind(details, records, hash@, fuel)->Some_0;
            let rest = found_from(details, records, links@, next + 1, fuel)->Some_0;
            match next_in_chain::<R, X>(details(hash@)) {
                Ok(LatestNext::Follow(u)) => {
                    assert(latest_in::<R, ()>(details, hash@, fuel) == latest_in::<R, ()>(details, u@, (fuel - 1) as nat));
                    law_latest_needs_no_more_lookups::<R, ()>(details, u@, (fuel - 1) as nat, fuel);
                },
                _ => {},
            }
        },
        GetMyLiveBurners::AwaitEntry { links, next, found } => {
            let hash = call->Get_hash;
            let o = records(hash@);
            let rest = found_from(details, records, links@, next + 1, fuel)->Some_0;
            if next + 1 == links@.len() {
                assert(links@.subrange(next + 1, links@.len() as int) =~= Seq::<LinkInfo>::empty());
                assert(found@.push(o) + rest =~= found@.push(o));
            } else {
                lemma_found_from_front(details, records, links@, next + 1, fuel);
                let o1 = found_behind(details, records, links@[next + 1].target@, fuel)->Some_0;
                let rest2 = found_from(details, records, links@, next + 2, fuel)->Some_0;
                assert(found@.push(o) + (seq![o1] + rest2) =~= found@.push(o).push(o1) + rest2);
            }
        },
        _ => {},
    }
}

/// Whether `x` is a record of the entry `e`.
pub open spec fn of_entry<R>(x: RecordInfo<R>, e: Seq<u8>) -> bool {
    x.entry_hash matches Some(h) && h@ == e
}

/// The host answers a read of an entry with a record of that very entry.
pub open spec fn answers_own_entry<R>(records: spec_fn(Seq<u8>) -> Option<RecordInfo<R>>) -> bool {
    forall|e: Seq<u8>| #[trigger] records(e) matches Some(x) ==> of_entry(x, e)
}

/// How many of `v` are records of the entry `e`.
pub open spec fn count_of_entry<R>(v: Seq<RecordInfo<R>>, e: Seq<u8>) -> nat
    decreases v.len(),
{
    if v.len() == 0 {
        0
    } else {
        count_of_entry(v.drop_last(), e) + if of_entry(v.last(), e) { 1nat } else { 0nat }
    }
}

/// How many of `f` found a record of the entry `e`.
pub open spec fn count_found<R>(f: Seq<Option<RecordInfo<R>>>, e: Seq<u8>) -> nat
    decreases f.len(),
{
    if f.len() == 0 {
        0
    } else {
        count_found(f.drop_last(), e) + if f.last() matches Some(x) && of_entry(x, e) { 1nat } else { 0nat }
    }
}

proof fn lemma_found_behind_all<R>(
    details: spec_fn(Seq<u8>) -> Option<DetailsInfo<R, ()>>,
    records: spec_fn(Seq<u8>) -> Option<RecordInfo<R>>,
    links: Seq<LinkInfo>,
    fuel: nat,
    f: Seq<Option<RecordInfo<R>>>,
)
    requires
        found_behind_all(details, records, links, fuel) == Some(f),
    ensures
        f.len() == links.len(),
        forall|i: int| 0 <= i < links.len() ==> found_behind(details, records, (#[trigger] links[i]).target@, fuel) == Some(f[i]),
    decreases links.len(),
{
    if links.len() > 0 {
        let rest = links.drop_last();
        let f0 = found_behind_all(details, records, rest, fuel)->Some_0;
        lemma_found_behind_all(details, records, rest, fuel, f0);
        assert forall|i: int| 0 <= i < links.len() implies found_behind(details, records, (#[trigger] links[i]).target@, fuel) == Some(f[i]) by {
            if i < rest.len() {
                assert(rest[i] == links[i]);
            }
        }
    }
}

proof fn lemma_somes_members<T>(f: Seq<Option<T>>, x: T)
    ensures
        somes(f).contains(x) <==> exists|i: int| 0 <= i < f.len() && f[i] == Some(x),
    decreases f.len(),
{
    if f.len() > 0 {
        let rest = f.drop_last();
        lemma_somes_members(rest, x);
        let sr = somes(rest);
        if exists|i: int| 0 <= i < f.len() && f[i] == Some(x) {
            let i = choose|i: int| 0 <= i < f.len() && f[i] == Some(x);
            if i < rest.len() {
                assert(rest[i] == f[i]);
                let j = choose|j: int| 0 <= j < sr.len() && sr[j] == x;
                if let Some(v) = f.last() {
                    assert(somes(f) == sr.push(v));
                    assert(somes(f)[j] == x);
                }
            } else {
                assert(f.last() == Some(x));
                assert(somes(f) == sr.push(x));
                assert(somes(f)[sr.len() as int] == x);
            }
        }
        if somes(f).contains(x) {
            let j = choose|j: int| 0 <= j < somes(f).len() && somes(f)[j] == x;
            match f.last() {
                Some(v) => {
                    assert(somes(f) == sr.push(v));
                    if j < sr.len() {
                        assert(sr[j] == x);
                        let i = choose|i: int| 0 <= i < rest.len() && rest[i] == Some(x);
                        assert(f[i] == rest[i]);
                    } else {
                        assert(f[f.len() - 1] == Some(x));
                    }
                },
                None => {
                    assert(somes(f) == sr);
                    assert(sr[j] == x);
                    let i = choose|i: int| 0 <= i < rest.len() && rest[i] == Some(x);
                    assert(f[i] == rest[i]);
                },
            }
        }
    } else {
        assert(somes(f) =~= Seq::<T>::empty());
    }
}

proof fn lemma_somes_count<R>(f: Seq<Option<RecordInfo<R>>>, e: Seq<u8>)
    ensures
        count_of_entry(somes(f), e) == count_found(f, e),
    decreases f.len(),
{
    if f.len() > 0 {
        let rest = f.drop_last();
        lemma_somes_count(rest, e);
        if let Some(x) = f.last() {
            assert(somes(f).drop_last() =~= somes(rest));
        }
    }
}

proof fn lemma_count_found_none<R>(f: Seq<Option<RecordInfo<R>>>, e: Seq<u8>)
    requires
        forall|i: int| 0 <= i < f.len() ==> !(#[trigger] f[i] matches Some(x) && of_entry(x, e)),
    ensures
        count_found(f, e) == 0,
    decreases f.len(),
{
    if f.len() > 0 {
        let rest = f.drop_last();
        assert forall|i: int| 0 <= i < rest.len() implies !(#[trigger] rest[i] matches Some(x) && of_entry(x, e)) by {
            assert(rest[i] == f[i]);
        }
        lemma_count_found_none(rest, e);
        assert(f.last() == f[f.len() - 1]);
    }
}

/// What the live listing answers: a record is listed exactly when it is what
/// the listing found behind one of the caller's burner links.
pub proof fn law_live_list_members<R>(
    details: spec_fn(Seq<u8>) -> Option<DetailsInfo<R, ()>>,
    records: spec_fn(Seq<u8>) -> Option<RecordInfo<R>>,
    links: Seq<LinkInfo>,
    fuel: nat,
    v: Seq<RecordInfo<R>>,
    x: RecordInfo<R>,
)
    requires
        live_list(details, records, links, fuel) == Some(v),
    ensures
        v.contains(x) <==> exists|i: int| 0 <= i < links.len()
            && found_behind(details, records, (#[trigger] links[i]).target@, fuel) == Some(Some(x)),
{
    let f = found_behind_all(details, records, links, fuel)->Some_0;
    lemma_found_behind_all(details, records, links, fuel, f);
    lemma_somes_members(f, x);
    if v.contains(x) {
        let i = choose|i: int| 0 <= i < f.len() && f[i] == Some(x);
        assert(found_behind(details, records, links[i].target@, fuel) == Some(Some(x)));
    }
}

/// A burner that was created and never updated is listed: where a link of the
/// caller points at an action whose details are its record without updates,
/// the host's record of that record's entry is in the live listing.
pub proof fn law_created_burner_is_listed<R>(
    details: spec_fn(Seq<u8>) -> Option<DetailsInfo<R, ()>>,
    records: spec_fn(Seq<u8>) -> Option<RecordInfo<R>>,
    links: Seq<LinkInfo>,
    fuel: nat,
    v: Seq<RecordInfo<R>>,
    i: int,
    created: RecordInfo<R>,
    x: RecordInfo<R>,
)
    requires
        live_list(details, records, links, fuel) == Some(v),
        fuel > 0,
        0 <= i < links.len(),
        details(links[i].target@) matches Some(DetailsInfo::Record { record, updates })
            && record == created && updates@.len() == 0,
        created.entry_hash matches Some(e) && records(e@) == Some(x),
    ensures
        v.contains(x),
{
    assert(found_behind(details, records, links[i].target@, fuel) == Some(Some(x)));
    law_live_list_members(details, records, links, fuel, v, x);
}

/// A burner whose entry the host no longer finds (its creation was deleted)
/// is not listed, where the host reads an entry only as a record of that
/// entry.
pub proof fn law_deleted_burner_is_not_listed<R>(
    details: spec_fn(Seq<u8>) -> Option<DetailsInfo<R, ()>>,
    records: spec_fn(Seq<u8>) -> Option<RecordInfo<R>>,
    links: Seq<LinkInfo>,
    fuel: nat,
    v: Seq<RecordInfo<R>>,
    e: Seq<u8>,
)
    requires
        live_list(details, records, links, fuel) == Some(v),
        answers_own_entry(records),
        records(e) is None,
    ensures
        forall|j: int| 0 <= j < v.len() ==> !of_entry(#[trigger] v[j], e),
{
    assert forall|j: int| 0 <= j < v.len() implies !of_entry(#[trigger] v[j], e) by {
        let x = v[j];
        assert(v.contains(x));
        law_live_list_members(details, records, links, fuel, v, x);
        let i = choose|i: int| 0 <= i < links.len()
            && found_behind(details, records, (#[trigger] links[i]).target@, fuel) == Some(Some(x));
        let rec = latest_in::<R, ()>(details, links[i].target@, fuel)->Some_0->Ok_0;
        let h = rec.entry_hash->Some_0;
        assert(records(h@) == Some(x));
        assert(records(h@) matches Some(y) ==> of_entry(y, h@));
    }
}

/// After an update, the live listing holds the updated burner once and the
/// original not at all: over the caller's burner links after the update,
/// where the link to the update leads to a record of the new entry, and no
/// other link of the caller leads to a record of the new entry or of the
/// original's entry.
pub proof fn law_updated_burner_is_listed_once<R>(
    details: spec_fn(Seq<u8>) -> Option<DetailsInfo<R, ()>>,
    records: spec_fn(Seq<u8>) -> Option<RecordInfo<R>>,
    links: Seq<LinkInfo>,
    original: Seq<u8>,
    added: LinkInfo,
    fuel: nat,
    v: Seq<RecordInfo<R>>,
    old_entry: Seq<u8>,
    new_entry: Seq<u8>,
)
    requires
        links_apart(links),
        old_entry != new_entry,
        live_list(details, records, relinked(links, original, added), fuel) == Some(v),
        found_behind(details, records, added.target@, fuel) matches Some(Some(x)) && of_entry(x, new_entry),
        forall|t: Seq<u8>| #[trigger] link_targets(links).contains(t) && t != original ==>
            (found_behind(details, records, t, fuel) matches Some(Some(x)) ==> !of_entry(x, new_entry) && !of_entry(x, old_entry)),
    ensures
        count_of_entry(v, new_entry) == 1,
        count_of_entry(v, old_entry) == 0,
{
    let gone = creations_to(links, original);
    let kept = if gone.len() > 0 { without_link(links, gone[0]) } else { links };
    let all = relinked(links, original, added);
    assert(all == kept.push(added));
    assert(all.drop_last() =~= kept);
    let f = found_behind_all(details, records, all, fuel)->Some_0;
    let fk = found_behind_all(details, records, kept, fuel)->Some_0;
    lemma_found_behind_all(details, records, kept, fuel, fk);
    assert(f == fk.push(found_behind(details, records, added.target@, fuel)->Some_0));
    // The kept links point at targets of the links before, other than the original.
    assert forall|i: int| 0 <= i < kept.len() implies
        (#[trigger] kept[i]).target@ != original && link_targets(links).contains(kept[i].target@) by {
        assert(link_targets(kept).contains(kept[i].target@));
        if gone.len() > 0 {
            lemma_creations_to_come_from(links, original, 0);
            let k = choose|k: int| 0 <= k < links.len() && links[k].target@ == original
                && #[trigger] links[k].create_link_hash@ == gone[0];
            lemma_without_link(links, gone[0]);
            let j = choose|j: int| 0 <= j < links.len() && (#[trigger] links[j]).target@ == kept[i].target@
                && links[j].create_link_hash@ != gone[0];
            assert(j != k);
            assert(link_targets(links).contains(links[j].target@));
        } else {
            lemma_no_creations_to(links, original);
        }
    }
    assert forall|i: int| 0 <= i < fk.len() implies !(#[trigger] fk[i] matches Some(x) && of_entry(x, new_entry)) by {
        assert(found_behind(details, records, kept[i].target@, fuel) == Some(fk[i]));
    }
    assert forall|i: int| 0 <= i < fk.len() implies !(#[trigger] fk[i] matches Some(x) && of_entry(x, old_entry)) by {
        assert(found_behind(details, records, kept[i].target@, fuel) == Some(fk[i]));
    }
    lemma_count_found_none(fk, new_entry);
    lemma_count_found_none(fk, old_entry);
    assert(f.drop_last() =~= fk);
    lemma_somes_count(f, new_entry);
    lemma_somes_count(f, old_entry);
}

/// A burner that the caller wrote (by a creation or an update) is found by its
/// action (see [`crate::coordinator::owned::GetMyBurner`]): once the host has
/// put its record on the caller's chain, a lookup by that action among the
/// chain's burner records answers that record, whatever records the chain
/// gained since by other actions.
pub proof fn law_written_burner_is_found<R>(before: Seq<RecordInfo<R>>, written: RecordInfo<R>, after: Seq<RecordInfo<R>>)
    requires
        forall|i: int| 0 <= i < after.len() ==> (#[trigger] after[i]).action_hash@ != written.action_hash@,
    ensures
        last_with_action(before.push(written) + after, written.action_hash@) == Some(written),
    decreases after.len(),
{
    let chain = before.push(written) + after;
    if after.len() == 0 {
        assert(chain =~= before.push(written));
        assert(chain.last() == written);
    } else {
        let rest = after.drop_last();
        assert forall|i: int| 0 <= i < rest.len() implies (#[trigger] rest[i]).action_hash@ != written.action_hash@ by {
            assert(rest[i] == after[i]);
        }
        law_written_burner_is_found(before, written, rest);
        assert(chain.drop_last() =~= before.push(written) + rest);
        assert(chain.last() == after[after.len() - 1]);
    }
}

} // verus!
