use vstd::prelude::*;
use crate::hash::Address;
use crate::host::{DetailsInfo, LinkInfo, RecordInfo, ZomeError};

verus! {

/// The last record of `records` whose action hash is `hash`, if any.
pub open spec fn last_with_action<R>(records: Seq<RecordInfo<R>>, hash: Seq<u8>) -> Option<RecordInfo<R>>
    decreases records.len(),
{
    if records.len() == 0 {
        None
    } else if records.last().action_hash@ == hash {
        Some(records.last())
    } else {
        last_with_action(records.drop_last(), hash)
    }
}

/// The record of the caller's burner that `original` created: among the
/// burner records of the caller's own chain, the last one whose action hash is
/// `original`.
pub fn my_burner_among<R>(chain: Vec<RecordInfo<R>>, original: &Address) -> (r: Option<RecordInfo<R>>)
    ensures
        r == last_with_action(chain@, original@),
{
    let ghost all = chain@;
    let mut records = chain;
    let mut n = records.len();
    while n > 0
        invariant
            n == records.len(),
            n <= all.len(),
            all == chain@,
            records@ == all.subrange(0, n as int),
            last_with_action(all, original@) == last_with_action(records@, original@),
        decreases n,
    {
        let ghost before = records@;
        let rec = records.pop().unwrap();
        proof {
            assert(before.drop_last() =~= records@);
            assert(rec == before.last());
        }
        if rec.action_hash.same_as(original) {
            assert(last_with_action(before, original@) == Some(before.last()));
            return Some(rec);
        }
        n = n - 1;
        proof {
            assert(records@ =~= all.subrange(0, n as int));
        }
    }
    None
}

/// The record that [`last_with_action`] finds has the action hash looked
/// for, and it finds none exactly when no record has that hash.
pub proof fn lemma_last_with_action_matches<R>(records: Seq<RecordInfo<R>>, hash: Seq<u8>)
    ensures
        last_with_action(records, hash) matches Some(r) ==> r.action_hash@ == hash,
        last_with_action(records, hash) is None <==> forall|i: int| 0 <= i < records.len() ==> records[i].action_hash@ != hash,
    decreases records.len(),
{
    if records.len() > 0 {
        let rest = records.drop_last();
        lemma_last_with_action_matches(rest, hash);
        if records.last().action_hash@ != hash {
            assert forall|i: int| 0 <= i < records.len() && (forall|j: int| 0 <= j < rest.len() ==> rest[j].action_hash@ != hash)
                implies records[i].action_hash@ != hash by {
                if i < rest.len() {
                    assert(records[i] == rest[i]);
                }
            }
            if last_with_action(rest, hash) is Some {
                let j = choose|j: int| 0 <= j < rest.len() && !(rest[j].action_hash@ != hash);
                assert(records[j] == rest[j]);
            }
        }
    }
}

/// The agent's links, or `None` when there is none.
pub fn links_if_any(links: Vec<LinkInfo>) -> (r: Option<Vec<LinkInfo>>)
    ensures
        links@.len() == 0 ==> r is None,
        links@.len() > 0 ==> r == Some(links),
{
    if links.len() == 0 {
        None
    } else {
        Some(links)
    }
}

/// The creation hashes, in order, of those links that point at `target`.
pub open spec fn creations_to(links: Seq<LinkInfo>, target: Seq<u8>) -> Seq<Seq<u8>>
    decreases links.len(),
{
    if links.len() == 0 {
        Seq::empty()
    } else if links.last().target@ == target {
        creations_to(links.drop_last(), target).push(links.last().create_link_hash@)
    } else {
        creations_to(links.drop_last(), target)
    }
}

/// The creation hashes of the links that point at `target`, in the order of
/// `links`.
pub fn link_creations_to(links: &Vec<LinkInfo>, target: &Address) -> (r: Vec<Address>)
    ensures
        r@.map_values(|a: Address| a@) == creations_to(links@, target@),
{
    let mut r: Vec<Address> = Vec::new();
    let mut i: usize = 0;
    while i < links.len()
        invariant
            i <= links.len(),
            r@.map_values(|a: Address| a@) == creations_to(links@.subrange(0, i as int), target@),
        decreases links.len() - i,
    {
        let ghost before = r@;
        proof {
            assert(links@.subrange(0, i + 1).drop_last() =~= links@.subrange(0, i as int));
        }
        if links[i].target.same_as(target) {
            r.push(links[i].create_link_hash.copied());
            assert(r@.map_values(|a: Address| a@) =~= before.map_values(|a: Address| a@).push(
                links@[i as int].create_link_hash@,
            ));
        }
        i = i + 1;
    }
    assert(links@.subrange(0, links@.len() as int) =~= links@);
    r
}

/// Where a lookup along an update chain goes next.
pub enum LatestNext<R> {
    /// The record was updated; the last update is this action.
    Follow(Address),
    /// The record was never updated: it is the latest.
    Found(RecordInfo<R>),
}

/// What the details of an action say of its update chain.
pub open spec fn next_in_chain<R, X>(details: Option<DetailsInfo<R, ()>>) -> Result<LatestNext<R>, ZomeError<X>> {
    match details {
        None => Err(ZomeError::NotFound),
        Some(DetailsInfo::Entry { .. }) => Err(ZomeError::MalformedDetails),
        Some(DetailsInfo::Record { record, updates }) => if updates@.len() > 0 {
            Ok(LatestNext::Follow(updates@.last()))
        } else {
            Ok(LatestNext::Found(record))
        },
    }
}

/// Reads the details of an action: no details is `NotFound`; details of an
/// entry are `MalformedDetails`; a record with updates continues at its last
/// update; a record without updates is the latest.
pub fn chain_step<R, X>(details: Option<DetailsInfo<R, ()>>) -> (r: Result<LatestNext<R>, ZomeError<X>>)
    ensures
        r == next_in_chain::<R, X>(details),
{
    match details {
        None => Err(ZomeError::NotFound),
        Some(DetailsInfo::Entry { .. }) => Err(ZomeError::MalformedDetails),
        Some(DetailsInfo::Record { record, updates }) => {
            let mut updates = updates;
            match updates.pop() {
                Some(last) => Ok(LatestNext::Follow(last)),
                None => Ok(LatestNext::Found(record)),
            }
        },
    }
}

} // verus!
