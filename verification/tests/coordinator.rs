use std::collections::BTreeMap;

use atomic_habits::coordinator::create::{create_burner, CreateBurner};
use atomic_habits::coordinator::latest::{get_latest, GetLatest};
use atomic_habits::coordinator::listing::{get_all_my_burners, get_burners, keep_found, GetAllMyBurners, GetBurners};
use atomic_habits::coordinator::live::{get_my_live_burners, GetMyLiveBurners};
use atomic_habits::coordinator::live_entry::{get_my_live_burner_from_entry, GetMyLiveBurner, LiveEntryReply};
use atomic_habits::coordinator::lookup::{link_creations_to, links_if_any, my_burner_among};
use atomic_habits::coordinator::owned::{agent_to_burner_links, delete_my_burner, get_my_burner, AgentBurnerLinks, DeleteMyBurner, GetMyBurner};
use atomic_habits::coordinator::update::{update_burner, UpdateBurner};
use atomic_habits::entries::{Burner, DeleteResponse, EntryTypes, LinkTypes, UpdateInput};
use atomic_habits::hash::Address;
use atomic_habits::host::{answers_call, Call, DetailsInfo, EntryAction, LinkInfo, RecordInfo, Reply, Step, ZomeError};
use atomic_habits::text::prefix_path;

type R = &'static str;
type X = String;

fn h(n: u8) -> Address {
    Address::from_raw(vec![n; 39])
}

fn burner(name: &str) -> Burner {
    let mut metadata = BTreeMap::new();
    metadata.insert("color".to_string(), "red".to_string());
    Burner { name: name.to_string(), metadata }
}

fn rec(action: u8, entry: Option<u8>, record: R) -> RecordInfo<R> {
    RecordInfo { action_hash: h(action), entry_hash: entry.map(h), record }
}

fn link(target: u8, created_by: u8) -> LinkInfo {
    LinkInfo { target: h(target), create_link_hash: h(created_by) }
}

fn ask<M, T>(s: Step<M, T, X>) -> (M, Call) {
    match s {
        Step::Ask(m, c) => (m, c),
        Step::Done(_) => panic!("expected a request"),
    }
}

fn done<M, T>(s: Step<M, T, X>) -> Result<T, ZomeError<X>> {
    match s {
        Step::Ask(_, c) => panic!("expected a result, got {:?}", c),
        Step::Done(r) => r,
    }
}

#[test]
fn create_burner_asks_in_order_and_links_the_new_action() {
    let b = burner("Cooking");
    let (m, c) = ask(create_burner::<R, X>(b.clone()));
    assert_eq!(c, Call::AgentInfo);
    let (m, c) = ask(m.resume::<R, X>(Reply::Hash(h(1))));
    assert_eq!(c, Call::CreateEntry { entry: EntryTypes::Burner(b.clone()) });
    let (m, c) = ask(m.resume::<R, X>(Reply::Hash(h(2))));
    assert_eq!(c, Call::EnsurePath { path: prefix_path("Cooking"), link_type: LinkTypes::PrefixPath });
    let (m, c) = ask(m.resume::<R, X>(Reply::Done));
    assert_eq!(c, Call::PathEntryHash { path: prefix_path("Cooking") });
    let (m, c) = ask(m.resume::<R, X>(Reply::Hash(h(3))));
    assert_eq!(
        c,
        Call::CreateLink { base: h(3), target: h(2), link_type: LinkTypes::PathToBurner, tag: b"Cooking".to_vec() }
    );
    let (m, c) = ask(m.resume::<R, X>(Reply::Hash(h(4))));
    assert_eq!(c, Call::CreateLink { base: h(1), target: h(2), link_type: LinkTypes::AgentToBurner, tag: vec![] });
    let (m, c) = ask(m.resume::<R, X>(Reply::Hash(h(5))));
    assert_eq!(c, Call::Get { hash: h(2) });
    let r = done(m.resume::<R, X>(Reply::Record(Some(rec(2, Some(9), "the burner")))));
    assert_eq!(r, Ok(rec(2, Some(9), "the burner")));
}

#[test]
fn create_burner_without_record_is_unreachable() {
    let (m, _) = ask(create_burner::<R, X>(burner("Cooking")));
    let mut m: CreateBurner = m;
    for reply in [Reply::Hash(h(1)), Reply::Hash(h(2)), Reply::Done, Reply::Hash(h(3)), Reply::Hash(h(4)), Reply::Hash(h(5))] {
        m = ask(m.resume::<R, X>(reply)).0;
    }
    assert_eq!(done(m.resume::<R, X>(Reply::Record(None))), Err(ZomeError::Unreachable));
}

#[test]
fn create_burner_stops_at_a_host_error() {
    let (m, _) = ask(create_burner::<R, X>(burner("Cooking")));
    let (m, _) = ask(m.resume::<R, X>(Reply::Hash(h(1))));
    let r = done(m.resume::<R, X>(Reply::Failed("source chain head moved".to_string())));
    assert_eq!(r, Err(ZomeError::Host("source chain head moved".to_string())));
}

#[test]
fn create_burner_with_a_short_name_stops_after_the_entry_is_written() {
    let (m, _) = ask(create_burner::<R, X>(burner("ab")));
    let (m, c) = ask(m.resume::<R, X>(Reply::Hash(h(1))));
    assert_eq!(c, Call::CreateEntry { entry: EntryTypes::Burner(burner("ab")) });
    let m: CreateBurner = m;
    assert!(m.is_stuck::<R, X>(&Reply::Hash(h(2))));
    assert!(!m.is_stuck::<R, X>(&Reply::Failed("x".to_string())));
    assert_eq!(done(m.resume::<R, X>(Reply::Failed("x".to_string()))), Err(ZomeError::Host("x".to_string())));
}

#[test]
fn create_burner_with_a_short_name_still_reports_host_errors() {
    let (m, _) = ask(create_burner::<R, X>(burner("ab")));
    assert_eq!(done(m.resume::<R, X>(Reply::Failed("no agent".to_string()))), Err(ZomeError::Host("no agent".to_string())));
}

#[test]
fn update_burner_replaces_the_agent_link_of_the_original() {
    let input = UpdateInput { original_action_hash: h(7), updated: burner("Reading") };
    let (m, c) = ask(update_burner::<R, X>(input));
    assert_eq!(c, Call::QueryBurners);
    let records = vec![rec(6, Some(60), "other"), rec(7, Some(70), "first"), rec(8, Some(80), "later")];
    let (m, c) = ask(m.resume::<R, X>(Reply::Records(records)));
    assert_eq!(c, Call::UpdateEntry { original: h(7), entry: EntryTypes::Burner(burner("Reading")) });
    let (m, c) = ask(m.resume::<R, X>(Reply::Hash(h(20))));
    assert_eq!(c, Call::EnsurePath { path: prefix_path("Reading"), link_type: LinkTypes::PrefixPath });
    let (m, c) = ask(m.resume::<R, X>(Reply::Done));
    assert_eq!(c, Call::AgentInfo);
    let (m, c) = ask(m.resume::<R, X>(Reply::Hash(h(1))));
    assert_eq!(c, Call::GetLinks { base: h(1), link_type: Some(LinkTypes::AgentToBurner) });
    let links = Reply::Links(vec![link(6, 31), link(7, 32), link(7, 33)]);
    assert!(!m.is_stuck::<R, X>(&links));
    let (m, c) = ask(m.resume::<R, X>(links));
    assert_eq!(c, Call::DeleteLink { address: h(32) });
    let (m, c) = ask(m.resume::<R, X>(Reply::Hash(h(40))));
    assert_eq!(c, Call::AgentInfo);
    let (m, c) = ask(m.resume::<R, X>(Reply::Hash(h(1))));
    assert_eq!(c, Call::CreateLink { base: h(1), target: h(20), link_type: LinkTypes::AgentToBurner, tag: vec![] });
    let (m, c) = ask(m.resume::<R, X>(Reply::Hash(h(41))));
    assert_eq!(c, Call::PathEntryHash { path: prefix_path("Reading") });
    let (m, c) = ask(m.resume::<R, X>(Reply::Hash(h(50))));
    assert_eq!(
        c,
        Call::CreateLink { base: h(50), target: h(20), link_type: LinkTypes::PathToBurner, tag: b"Reading".to_vec() }
    );
    let (m, c) = ask(m.resume::<R, X>(Reply::Hash(h(42))));
    assert_eq!(c, Call::Get { hash: h(20) });
    assert_eq!(done(m.resume::<R, X>(Reply::Record(Some(rec(20, Some(21), "updated"))))), Ok(rec(20, Some(21), "updated")));
}

#[test]
fn update_burner_of_someone_else_is_not_owned() {
    let input = UpdateInput { original_action_hash: h(7), updated: burner("Reading") };
    let (m, _) = ask(update_burner::<R, X>(input));
    let r = done(m.resume::<R, X>(Reply::Records(vec![rec(6, None, "mine")])));
    assert_eq!(r, Err(ZomeError::NotOwned));
}

#[test]
fn a_second_update_skips_the_missing_link() {
    let input = UpdateInput { original_action_hash: h(7), updated: burner("Reading") };
    let (m, _) = ask(update_burner::<R, X>(input));
    let (m, _) = ask(m.resume::<R, X>(Reply::Records(vec![rec(7, None, "mine")])));
    let (m, _) = ask(m.resume::<R, X>(Reply::Hash(h(20))));
    let (m, _) = ask(m.resume::<R, X>(Reply::Done));
    let (m, _) = ask(m.resume::<R, X>(Reply::Hash(h(1))));
    let m: UpdateBurner = m;
    let links = Reply::Links(vec![link(19, 31)]);
    assert!(!m.is_stuck::<R, X>(&links));
    let (m, c) = ask(m.resume::<R, X>(links));
    assert_eq!(c, Call::AgentInfo);
    let (_, c) = ask(m.resume::<R, X>(Reply::Hash(h(1))));
    assert_eq!(c, Call::CreateLink { base: h(1), target: h(20), link_type: LinkTypes::AgentToBurner, tag: vec![] });
}

#[test]
fn update_burner_with_a_short_name_checks_ownership_first() {
    let input = UpdateInput { original_action_hash: h(7), updated: burner("xy") };
    let (m, _) = ask(update_burner::<R, X>(input));
    assert_eq!(done(m.resume::<R, X>(Reply::Records(vec![]))), Err(ZomeError::NotOwned));
    let input = UpdateInput { original_action_hash: h(7), updated: burner("xy") };
    let (m, _) = ask(update_burner::<R, X>(input));
    let (m, c) = ask(m.resume::<R, X>(Reply::Records(vec![rec(7, None, "mine")])));
    assert_eq!(c, Call::UpdateEntry { original: h(7), entry: EntryTypes::Burner(burner("xy")) });
    let m: UpdateBurner = m;
    assert!(m.is_stuck::<R, X>(&Reply::Hash(h(20))));
}

#[test]
fn delete_my_burner_deletes_the_original_and_answers_both_hashes() {
    let (m, c) = ask(delete_my_burner::<X>(h(7)));
    assert_eq!(c, Call::QueryBurners);
    let (m, c) = ask(m.resume::<R, X>(Reply::Records(vec![rec(7, None, "mine")])));
    assert_eq!(c, Call::DeleteEntry { original: h(7) });
    let r = done(m.resume::<R, X>(Reply::Hash(h(90))));
    assert_eq!(r, Ok(Some(DeleteResponse { delete_action_hash: h(90), original_action_hash: h(7) })));
}

#[test]
fn delete_my_burner_of_someone_else_deletes_nothing() {
    let (m, _) = ask(delete_my_burner::<X>(h(7)));
    let m: DeleteMyBurner = m;
    assert_eq!(done(m.resume::<R, X>(Reply::Records(vec![]))), Err(ZomeError::NotOwned));
}

#[test]
fn get_my_burner_answers_the_last_matching_record() {
    let (m, c) = ask(get_my_burner::<R, X>(h(7)));
    assert_eq!(c, Call::QueryBurners);
    let m: GetMyBurner = m;
    let records = vec![rec(7, None, "first"), rec(8, None, "other"), rec(7, None, "second")];
    assert_eq!(done(m.resume::<R, X>(Reply::Records(records))), Ok(Some(rec(7, None, "second"))));
    let (m, _) = ask(get_my_burner::<R, X>(h(9)));
    assert_eq!(done(m.resume::<R, X>(Reply::Records(vec![rec(7, None, "first")]))), Ok(None));
}

#[test]
fn my_burner_among_finds_the_last() {
    let records = vec![rec(1, None, "a"), rec(2, None, "b"), rec(1, None, "c")];
    assert_eq!(my_burner_among(records, &h(1)), Some(rec(1, None, "c")));
    assert_eq!(my_burner_among::<R>(vec![], &h(1)), None);
}

#[test]
fn agent_links_read() {
    let (m, c) = ask(agent_to_burner_links::<X>());
    assert_eq!(c, Call::AgentInfo);
    let m: AgentBurnerLinks = m;
    let (m, c) = ask(m.resume::<R, X>(Reply::Hash(h(1))));
    assert_eq!(c, Call::GetLinks { base: h(1), link_type: Some(LinkTypes::AgentToBurner) });
    assert_eq!(done(m.resume::<R, X>(Reply::Links(vec![]))), Ok(None));
    let (m, _) = ask(agent_to_burner_links::<X>());
    let (m, _) = ask(m.resume::<R, X>(Reply::Hash(h(1))));
    assert_eq!(done(m.resume::<R, X>(Reply::Links(vec![link(3, 4)]))), Ok(Some(vec![link(3, 4)])));
}

#[test]
fn links_if_any_and_creations() {
    assert_eq!(links_if_any(vec![]), None);
    assert_eq!(links_if_any(vec![link(1, 2)]), Some(vec![link(1, 2)]));
    let links = vec![link(1, 10), link(2, 11), link(1, 12)];
    assert_eq!(link_creations_to(&links, &h(1)), vec![h(10), h(12)]);
    assert_eq!(link_creations_to(&links, &h(3)), Vec::<Address>::new());
}

fn details(action: u8, updates: &[u8]) -> Reply<R, X> {
    Reply::Details(Some(DetailsInfo::Record {
        record: rec(action, Some(action + 100), "rec"),
        updates: updates.iter().map(|u| h(*u)).collect(),
    }))
}

#[test]
fn get_latest_follows_the_last_update() {
    let (m, c) = ask(get_latest::<R, X>(h(1)));
    assert_eq!(c, Call::GetDetails { hash: h(1) });
    let m: GetLatest = m;
    let (m, c) = ask(m.resume::<R, X>(details(1, &[2, 3])));
    assert_eq!(c, Call::GetDetails { hash: h(3) });
    let r = done(m.resume::<R, X>(details(3, &[])));
    assert_eq!(r, Ok(rec(3, Some(103), "rec")));
}

#[test]
fn get_latest_errors() {
    let (m, _) = ask(get_latest::<R, X>(h(1)));
    assert_eq!(done(m.resume::<R, X>(Reply::Details(None))), Err(ZomeError::NotFound));
    let (m, _) = ask(get_latest::<R, X>(h(1)));
    assert_eq!(
        done(m.resume::<R, X>(Reply::Details(Some(DetailsInfo::Entry { entry: (), actions: vec![], deletes: vec![], updates: vec![] })))),
        Err(ZomeError::MalformedDetails)
    );
    let (m, _) = ask(get_latest::<R, X>(h(1)));
    assert_eq!(done(m.resume::<R, X>(Reply::Failed("offline".to_string()))), Err(ZomeError::Host("offline".to_string())));
}

fn entry_details(entry: &'static str, actions: Vec<(u8, u8)>, deletes: &[u8], updates: &[u8]) -> LiveEntryReply<&'static str, X> {
    LiveEntryReply::Details(Some(DetailsInfo::Entry {
        entry,
        actions: actions.into_iter().map(|(a, author)| EntryAction { action_hash: h(a), author: h(author) }).collect(),
        deletes: deletes.iter().map(|d| h(*d)).collect(),
        updates: updates.iter().map(|u| h(*u)).collect(),
    }))
}

fn live_lookup(entry_hash: u8) -> GetMyLiveBurner {
    let (m, c) = ask(get_my_live_burner_from_entry::<&'static str, X>(h(entry_hash)));
    assert_eq!(c, Call::AgentInfo);
    let m: GetMyLiveBurner = m;
    let (m, c) = ask(m.resume::<&'static str, X>(LiveEntryReply::Agent(h(1))));
    assert_eq!(c, Call::GetDetails { hash: h(entry_hash) });
    m
}

#[test]
fn live_burner_follows_updates_to_the_live_version() {
    let m = live_lookup(50);
    let (m, c) = ask(m.resume::<&'static str, X>(entry_details("b", vec![(60, 1)], &[], &[51, 52])));
    assert_eq!(c, Call::GetDetails { hash: h(52) });
    let (m, c) = ask(m.resume::<&'static str, X>(entry_details("b2", vec![(61, 1)], &[], &[53])));
    assert_eq!(c, Call::GetDetails { hash: h(53) });
    assert_eq!(done(m.resume::<&'static str, X>(entry_details("b3", vec![(62, 1)], &[], &[]))), Ok(Some("b3")));
}

#[test]
fn live_burner_needs_an_undeleted_action_of_the_caller() {
    let m = live_lookup(50);
    assert_eq!(done(m.resume::<&'static str, X>(entry_details("b", vec![(60, 2)], &[], &[]))), Ok(None));
    let m = live_lookup(50);
    assert_eq!(done(m.resume::<&'static str, X>(entry_details("b", vec![(60, 1)], &[60], &[]))), Ok(None));
    let m = live_lookup(50);
    let r = done(m.resume::<&'static str, X>(entry_details("b", vec![(60, 1), (61, 1)], &[60], &[])));
    assert_eq!(r, Ok(Some("b")));
}

#[test]
fn live_burner_errors() {
    let m = live_lookup(50);
    assert_eq!(done(m.resume::<&'static str, X>(LiveEntryReply::Details(None))), Err(ZomeError::NotFound));
    let m = live_lookup(50);
    let record: LiveEntryReply<&'static str, X> =
        LiveEntryReply::Details(Some(DetailsInfo::Record { record: RecordInfo { action_hash: h(3), entry_hash: None, record: () }, updates: vec![] }));
    assert_eq!(done(m.resume::<&'static str, X>(record)), Err(ZomeError::MalformedDetails));
    let (m, _) = ask(get_my_live_burner_from_entry::<&'static str, X>(h(50)));
    let m: GetMyLiveBurner = m;
    assert_eq!(done(m.resume::<&'static str, X>(LiveEntryReply::Failed("x".to_string()))), Err(ZomeError::Host("x".to_string())));
}

#[test]
fn all_my_burners_are_the_latest_behind_each_link() {
    let (m, c) = ask(get_all_my_burners::<R, X>());
    assert_eq!(c, Call::AgentInfo);
    let m: GetAllMyBurners<R> = m;
    let (m, c) = ask(m.resume::<X>(Reply::Hash(h(1))));
    assert_eq!(c, Call::GetLinks { base: h(1), link_type: Some(LinkTypes::AgentToBurner) });
    let (m, c) = ask(m.resume::<X>(Reply::Links(vec![link(10, 90), link(20, 91)])));
    assert_eq!(c, Call::GetDetails { hash: h(10) });
    let (m, c) = ask(m.resume::<X>(details(10, &[11])));
    assert_eq!(c, Call::GetDetails { hash: h(11) });
    let (m, c) = ask(m.resume::<X>(details(11, &[])));
    assert_eq!(c, Call::GetDetails { hash: h(20) });
    let r = done(m.resume::<X>(details(20, &[])));
    assert_eq!(r, Ok(vec![rec(11, Some(111), "rec"), rec(20, Some(120), "rec")]));
}

#[test]
fn all_my_burners_stop_at_the_first_failure() {
    let (m, _) = ask(get_all_my_burners::<R, X>());
    let (m, _) = ask(m.resume::<X>(Reply::Hash(h(1))));
    let (m, _) = ask(m.resume::<X>(Reply::Links(vec![link(10, 90), link(20, 91)])));
    assert_eq!(done(m.resume::<X>(Reply::Details(None))), Err(ZomeError::NotFound));
    let (m, _) = ask(get_all_my_burners::<R, X>());
    let (m, _) = ask(m.resume::<X>(Reply::Hash(h(1))));
    assert_eq!(done(m.resume::<X>(Reply::Links(vec![]))), Ok(vec![]));
}

#[test]
fn every_burner_under_the_search_paths() {
    let (m, c) = ask(get_burners::<R, X>());
    assert_eq!(
        c,
        Call::ChildPathLinks { path: atomic_habits::text::burners_path(), path_type: LinkTypes::PrefixPath, link_type: LinkTypes::PathToBurner }
    );
    let m: GetBurners<R> = m;
    let (m, c) = ask(m.resume::<X>(Reply::Links(vec![link(10, 90)])));
    assert_eq!(c, Call::GetDetails { hash: h(10) });
    assert_eq!(done(m.resume::<X>(details(10, &[]))), Ok(vec![rec(10, Some(110), "rec")]));
}

#[test]
fn live_burners_read_the_entry_of_each_latest_record() {
    let (m, c) = ask(get_my_live_burners::<R, X>());
    assert_eq!(c, Call::AgentInfo);
    let m: GetMyLiveBurners<R> = m;
    let (m, _) = ask(m.resume::<X>(Reply::Hash(h(1))));
    let (m, c) = ask(m.resume::<X>(Reply::Links(vec![link(10, 90), link(20, 91)])));
    assert_eq!(c, Call::GetDetails { hash: h(10) });
    let (m, c) = ask(m.resume::<X>(details(10, &[])));
    assert_eq!(c, Call::Get { hash: h(110) });
    let (m, c) = ask(m.resume::<X>(Reply::Record(None)));
    assert_eq!(c, Call::GetDetails { hash: h(20) });
    let (m, c) = ask(m.resume::<X>(details(20, &[])));
    assert_eq!(c, Call::Get { hash: h(120) });
    let r = done(m.resume::<X>(Reply::Record(Some(rec(120, None, "live")))));
    assert_eq!(r, Ok(vec![rec(120, None, "live")]));
}

#[test]
fn live_burners_are_stuck_where_a_lookup_fails() {
    let (m, _) = ask(get_my_live_burners::<R, X>());
    let m: GetMyLiveBurners<R> = m;
    let (m, _) = ask(m.resume::<X>(Reply::Hash(h(1))));
    let (m, _) = ask(m.resume::<X>(Reply::Links(vec![link(10, 90)])));
    assert!(m.is_stuck::<X>(&Reply::Details(None)));
    assert!(m.is_stuck::<X>(&Reply::Failed("x".to_string())));
    let no_entry: Reply<R, X> = Reply::Details(Some(DetailsInfo::Record { record: rec(10, None, "r"), updates: vec![] }));
    assert!(m.is_stuck::<X>(&no_entry));
    assert!(!m.is_stuck::<X>(&details(10, &[])));
    assert!(!m.is_stuck::<X>(&details(10, &[11])));
}

#[test]
fn keep_found_keeps_order() {
    assert_eq!(keep_found(vec![Some(1), None, Some(3), None]), vec![1, 3]);
    assert_eq!(keep_found::<u8>(vec![None, None]), Vec::<u8>::new());
}

#[test]
fn error_messages() {
    assert_eq!(ZomeError::<X>::Unreachable.message(), "Unreachable");
    assert_eq!(ZomeError::<X>::NotOwned.message(), "Burner doesn't exist or isn't owned by you");
    assert_eq!(ZomeError::<X>::NotFound.message(), "Burner not found");
    assert_eq!(ZomeError::<X>::MalformedDetails.message(), "Malformed details");
    assert_eq!(ZomeError::<X>::NotABurner.message(), "Could not deserialize element to Burner.");
    assert_eq!(ZomeError::<X>::NotAHabit.message(), "Could not deserialize element to Habit.");
    assert_eq!(ZomeError::Host("x".to_string()).message(), "");
}

#[test]
fn replies_answer_their_calls() {
    let get: Reply<R, X> = Reply::Record(None);
    assert!(answers_call(&Call::Get { hash: h(1) }, &get));
    assert!(!answers_call(&Call::AgentInfo, &get));
    let failed: Reply<R, X> = Reply::Failed("x".to_string());
    assert!(answers_call(&Call::QueryBurners, &failed));
    let done: Reply<R, X> = Reply::Done;
    assert!(answers_call(&Call::EnsurePath { path: vec![], link_type: LinkTypes::PrefixPath }, &done));
}

#[test]
fn live_burner_is_none_where_a_followed_version_is_not_live() {
    let m = live_lookup(50);
    let (m, c) = ask(m.resume::<&'static str, X>(entry_details("b", vec![(60, 1)], &[], &[51])));
    assert_eq!(c, Call::GetDetails { hash: h(51) });
    assert_eq!(done(m.resume::<&'static str, X>(entry_details("b2", vec![(61, 2)], &[], &[]))), Ok(None));
    let m = live_lookup(50);
    let (m, _) = ask(m.resume::<&'static str, X>(entry_details("b", vec![(60, 1)], &[], &[51])));
    assert_eq!(done(m.resume::<&'static str, X>(entry_details("b2", vec![(61, 1)], &[61], &[]))), Ok(None));
}

#[test]
fn try_resume_of_a_creation_answers_none_where_it_is_stuck() {
    let (m, _) = ask(create_burner::<R, X>(burner("ab")));
    let (m, _) = ask(m.resume::<R, X>(Reply::Hash(h(1))));
    let m: CreateBurner = m;
    assert!(m.try_resume::<R, X>(Reply::Hash(h(2))).is_none());
    let (m, _) = ask(create_burner::<R, X>(burner("Cooking")));
    let (m, _) = ask(m.resume::<R, X>(Reply::Hash(h(1))));
    let m: CreateBurner = m;
    let (_, c) = ask(m.try_resume::<R, X>(Reply::Hash(h(2))).unwrap());
    assert_eq!(c, Call::EnsurePath { path: prefix_path("Cooking"), link_type: LinkTypes::PrefixPath });
}

#[test]
fn try_resume_of_an_update_answers_none_where_it_is_stuck() {
    let input = UpdateInput { original_action_hash: h(7), updated: burner("xy") };
    let (m, _) = ask(update_burner::<R, X>(input));
    let (m, _) = ask(m.resume::<R, X>(Reply::Records(vec![rec(7, None, "mine")])));
    let m: UpdateBurner = m;
    assert!(m.try_resume::<R, X>(Reply::Hash(h(20))).is_none());
    let input = UpdateInput { original_action_hash: h(7), updated: burner("Reading") };
    let (m, _) = ask(update_burner::<R, X>(input));
    let (m, _) = ask(m.resume::<R, X>(Reply::Records(vec![rec(7, None, "mine")])));
    let m: UpdateBurner = m;
    let (_, c) = ask(m.try_resume::<R, X>(Reply::Hash(h(20))).unwrap());
    assert_eq!(c, Call::EnsurePath { path: prefix_path("Reading"), link_type: LinkTypes::PrefixPath });
}

/// A store of records: action 1 was updated by 2, then by 3; 3 is the latest.
fn store_details(hash: &Address) -> Reply<R, X> {
    if *hash == h(1) {
        details(1, &[2, 3])
    } else if *hash == h(3) {
        details(3, &[])
    } else {
        Reply::Details(None)
    }
}

fn run_latest(from: Address) -> (Result<RecordInfo<R>, ZomeError<X>>, usize) {
    let mut s = get_latest::<R, X>(from);
    let mut asked = 0;
    loop {
        match s {
            Step::Ask(m, Call::GetDetails { hash }) => {
                asked += 1;
                s = m.resume::<R, X>(store_details(&hash));
            },
            Step::Ask(_, c) => panic!("unexpected request {:?}", c),
            Step::Done(r) => return (r, asked),
        }
    }
}

#[test]
fn the_latest_record_is_its_own_latest() {
    let (r, asked) = run_latest(h(1));
    assert_eq!(asked, 2);
    let r = r.unwrap();
    assert_eq!(r, rec(3, Some(103), "rec"));
    let (again, asked) = run_latest(r.action_hash.clone());
    assert_eq!(asked, 1);
    assert_eq!(again, Ok(r));
}

#[test]
fn a_written_burner_is_found_after_later_records() {
    let (m, _) = ask(get_my_burner::<R, X>(h(7)));
    let records = vec![rec(5, None, "before"), rec(7, Some(70), "written"), rec(8, None, "later"), rec(9, None, "later")];
    assert_eq!(done(m.resume::<R, X>(Reply::Records(records))), Ok(Some(rec(7, Some(70), "written"))));
}

fn run_live(links: Vec<LinkInfo>, entry_record: impl Fn(&Address) -> Option<RecordInfo<R>>) -> Vec<RecordInfo<R>> {
    let (m, _) = ask(get_my_live_burners::<R, X>());
    let m: GetMyLiveBurners<R> = m;
    let mut s = m.resume::<X>(Reply::Hash(h(1)));
    let (m, _) = ask(s);
    s = m.resume::<X>(Reply::Links(links));
    loop {
        match s {
            Step::Ask(m, Call::GetDetails { hash }) => {
                let n = hash.raw[0];
                s = m.resume::<X>(details(n, &[]));
            },
            Step::Ask(m, Call::Get { hash }) => s = m.resume::<X>(Reply::Record(entry_record(&hash))),
            Step::Ask(_, c) => panic!("unexpected request {:?}", c),
            Step::Done(r) => return r.unwrap(),
        }
    }
}

#[test]
fn live_listing_shows_created_and_hides_deleted_and_replaced_burners() {
    // A created burner (action 10, entry 110) is listed.
    let listed = run_live(vec![link(10, 90)], |e| Some(rec(e.raw[0] - 100, Some(e.raw[0]), "live")));
    assert_eq!(listed, vec![rec(10, Some(110), "live")]);
    // Once its creation is deleted the host finds no entry: it is not listed.
    let listed = run_live(vec![link(10, 90)], |_| None);
    assert_eq!(listed, vec![]);
    // After an update (action 20, entry 120) the link to 10 is gone: only the update is listed.
    let listed = run_live(vec![link(20, 91)], |e| Some(rec(e.raw[0] - 100, Some(e.raw[0]), "live")));
    assert_eq!(listed, vec![rec(20, Some(120), "live")]);
}
