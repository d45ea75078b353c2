use std::collections::BTreeMap;

use atomic_habits::entries::{Burner, EntryTypes, Habit, Timeframe};
use atomic_habits::hash::Address;
use atomic_habits::host::{Call, DetailsInfo, LinkInfo, RecordInfo, Reply, Step, ZomeError};
use atomic_habits::text::{burners_path, habits_path};
use atomic_habits::zome::burner::{
    burner_from_record, create_burner, delete_burner, get_all_burners, get_burner, get_hash_from_link_target,
    placeholder_burner, update_burner, BurnerNode, Connection, Edge, GetAllBurners, GraphQLCreatePayload,
    HashFromLinkTarget, NewBurnerOutput, UpdateBurnerInput,
};
use atomic_habits::zome::habit::{
    self, create_habit, delete_habit, get_all_habits, get_habit, habit_from_record, update_habit, GetAllHabits,
    NewHabitOutput, UpdateHabitInput,
};
use atomic_habits::zome::validation::{validate, ValidateCallbackResult};
use atomic_habits::zome::burner::BurnerLinkType;
use atomic_habits::zome::habit::HabitLinkType;

type R = &'static str;
type X = String;

fn h(n: u8) -> Address {
    Address::from_raw(vec![n; 39])
}

fn burner(name: &str) -> Burner {
    Burner { name: name.to_string(), metadata: BTreeMap::new() }
}

fn habit_named(name: &str) -> Habit {
    Habit {
        name: name.to_string(),
        timeframe: Timeframe { start_time: "06:00".to_string(), end_time: "07:00".to_string() },
        metadata: BTreeMap::new(),
    }
}

fn link(target: u8, created_by: u8) -> LinkInfo {
    LinkInfo { target: h(target), create_link_hash: h(created_by) }
}

fn ask<M, T>(s: Step<M, T, X>) -> (M, Call) {
    match s {
        Step::Ask(m, c) => (m, c),
        Step::Done(_) => panic!("expected a request"),
    }
}

fn done<M, T>(s: Step<M, T, X>) -> Result<T, ZomeError<X>> {
    match s {
        Step::Ask(_, c) => panic!("expected a result, got {:?}", c),
        Step::Done(r) => r,
    }
}

#[test]
fn edge_and_connection_of_burners() {
    let node = BurnerNode { id: h(1), name: "Cooking".to_string(), metadata: BTreeMap::new() };
    let e = Edge::new(node.clone());
    assert_eq!(e.cursor, "NOT IMPLEMENTED");
    assert_eq!(e.node, node);
    let c = Connection::new(vec![burner("A"), burner("B")], vec![h(1), h(2), h(3)]);
    assert_eq!(c.page_info, "NOT IMPLEMENTED");
    assert_eq!(c.edges.len(), 2);
    assert_eq!(c.edges[0].node, BurnerNode { id: h(1), name: "A".to_string(), metadata: BTreeMap::new() });
    assert_eq!(c.edges[1].node, BurnerNode { id: h(2), name: "B".to_string(), metadata: BTreeMap::new() });
    assert_eq!(c.edges[1].cursor, "NOT IMPLEMENTED");
    assert_eq!(Connection::new(vec![], vec![]).edges, vec![]);
}

#[test]
fn create_listed_burner() {
    let (m, c) = ask(create_burner::<X>(burner("Cooking")));
    assert_eq!(c, Call::CreateEntry { entry: EntryTypes::Burner(burner("Cooking")) });
    let (m, c) = ask(m.resume::<R, X>(Reply::Hash(h(1))));
    assert_eq!(c, Call::HashEntry { entry: EntryTypes::Burner(burner("Cooking")) });
    let (m, c) = ask(m.resume::<R, X>(Reply::Hash(h(2))));
    assert_eq!(c, Call::EnsureIndexedPath { path: burners_path(), link_type: 0 });
    let (m, c) = ask(m.resume::<R, X>(Reply::Done));
    assert_eq!(c, Call::PathEntryHash { path: burners_path() });
    let (m, c) = ask(m.resume::<R, X>(Reply::Hash(h(3))));
    assert_eq!(c, Call::CreateIndexedLink { base: h(3), target: h(2), link_type: 0, tag: vec![] });
    let r = done(m.resume::<R, X>(Reply::Hash(h(4))));
    assert_eq!(r, Ok(GraphQLCreatePayload { payload: NewBurnerOutput { header_hash: h(1), entry_hash: h(2) } }));
}

#[test]
fn create_listed_burner_stops_at_a_host_error() {
    let (m, _) = ask(create_burner::<X>(burner("Cooking")));
    assert_eq!(done(m.resume::<R, X>(Reply::Failed("full".to_string()))), Err(ZomeError::Host("full".to_string())));
}

#[test]
fn read_a_burner() {
    assert_eq!(burner_from_record::<X>(None), Ok(None));
    assert_eq!(burner_from_record::<X>(Some((h(1), None))), Err(ZomeError::NotABurner));
    assert_eq!(burner_from_record::<X>(Some((h(1), Some(burner("A"))))), Ok(Some(burner("A"))));
    let (m, c) = ask(get_burner::<X>(h(5)));
    assert_eq!(c, Call::GetBurner { hash: h(5) });
    assert_eq!(done(m.resume::<R, X>(Reply::Burner(Some((h(1), Some(burner("A"))))))), Ok(Some(burner("A"))));
}

#[test]
fn update_and_delete_a_listed_burner() {
    let input = UpdateBurnerInput { original_header_hash: h(1), updated_burner: burner("New") };
    let (m, c) = ask(update_burner::<X>(input));
    assert_eq!(c, Call::UpdateEntry { original: h(1), entry: EntryTypes::Burner(burner("New")) });
    let (m, c) = ask(m.resume::<R, X>(Reply::Hash(h(2))));
    assert_eq!(c, Call::HashEntry { entry: EntryTypes::Burner(burner("New")) });
    assert_eq!(done(m.resume::<R, X>(Reply::Hash(h(3)))), Ok(NewBurnerOutput { header_hash: h(2), entry_hash: h(3) }));
    let (m, c) = ask(delete_burner::<X>(h(1)));
    assert_eq!(c, Call::DeleteEntry { original: h(1) });
    assert_eq!(done(m.resume::<R, X>(Reply::Hash(h(9)))), Ok(h(9)));
}

#[test]
fn hash_from_link_target() {
    let (m, c) = ask(get_hash_from_link_target::<X>(h(5)));
    assert_eq!(c, Call::GetDetails { hash: h(5) });
    let m: HashFromLinkTarget = m;
    let found: Reply<R, X> = Reply::Details(Some(DetailsInfo::Record {
        record: RecordInfo { action_hash: h(6), entry_hash: Some(h(5)), record: "r" },
        updates: vec![],
    }));
    assert_eq!(done(m.resume::<R, X>(found)), Ok(h(6)));
    let (m, _) = ask(get_hash_from_link_target::<X>(h(5)));
    let (m, c) = ask(m.resume::<R, X>(Reply::Details(None)));
    assert_eq!(c, Call::CreateEntry { entry: EntryTypes::Burner(placeholder_burner()) });
    assert_eq!(placeholder_burner(), burner("ok"));
    assert_eq!(done(m.resume::<R, X>(Reply::Hash(h(7)))), Ok(h(7)));
}

#[test]
fn list_every_burner_with_ids() {
    let (m, c) = ask(get_all_burners::<X>());
    assert_eq!(c, Call::PathEntryHash { path: burners_path() });
    let m: GetAllBurners = m;
    let (m, c) = ask(m.resume::<R, X>(Reply::Hash(h(1))));
    assert_eq!(c, Call::GetLinks { base: h(1), link_type: None });
    let (m, c) = ask(m.resume::<R, X>(Reply::Links(vec![link(10, 90), link(20, 91)])));
    assert_eq!(c, Call::GetBurner { hash: h(10) });
    let (m, c) = ask(m.resume::<R, X>(Reply::Burner(Some((h(11), Some(burner("A")))))));
    assert_eq!(c, Call::GetBurner { hash: h(20) });
    let (m, c) = ask(m.resume::<R, X>(Reply::Burner(Some((h(21), Some(burner("B")))))));
    assert_eq!(c, Call::GetDetails { hash: h(10) });
    let found: Reply<R, X> = Reply::Details(Some(DetailsInfo::Record {
        record: RecordInfo { action_hash: h(11), entry_hash: Some(h(10)), record: "r" },
        updates: vec![],
    }));
    let (m, c) = ask(m.resume::<R, X>(found));
    assert_eq!(c, Call::GetDetails { hash: h(20) });
    let (m, c) = ask(m.resume::<R, X>(Reply::Details(None)));
    assert_eq!(c, Call::CreateEntry { entry: EntryTypes::Burner(burner("ok")) });
    let c = done(m.resume::<R, X>(Reply::Hash(h(30)))).unwrap();
    assert_eq!(c, Connection::new(vec![burner("A"), burner("B")], vec![h(11), h(30)]));
}

#[test]
fn list_every_burner_errors() {
    let (m, _) = ask(get_all_burners::<X>());
    let (m, _) = ask(m.resume::<R, X>(Reply::Hash(h(1))));
    let (m, _) = ask(m.resume::<R, X>(Reply::Links(vec![link(10, 90)])));
    let m: GetAllBurners = m;
    assert!(m.is_stuck::<R, X>(&Reply::Burner(None)));
    assert_eq!(done(m.resume::<R, X>(Reply::Burner(Some((h(11), None))))), Err(ZomeError::NotABurner));
    let (m, _) = ask(get_all_burners::<X>());
    let (m, _) = ask(m.resume::<R, X>(Reply::Hash(h(1))));
    assert_eq!(done(m.resume::<R, X>(Reply::Links(vec![]))), Ok(Connection::new(vec![], vec![])));
}

#[test]
fn habits_connection_and_edges() {
    let e = habit::Edge::new(habit_named("Run"));
    assert_eq!(e.cursor, "NOT IMPLEMENTED");
    assert_eq!(e.node, habit_named("Run"));
    let c = habit::Connection::new(vec![habit_named("Run"), habit_named("Read")]);
    assert_eq!(c.edges.len(), 2);
    assert_eq!(c.edges[1].node, habit_named("Read"));
    assert_eq!(c.page_info, "NOT IMPLEMENTED");
}

#[test]
fn create_listed_habit() {
    let (m, c) = ask(create_habit::<X>(habit_named("Run")));
    assert_eq!(c, Call::CreateEntry { entry: EntryTypes::Habit(habit_named("Run")) });
    let (m, c) = ask(m.resume::<R, X>(Reply::Hash(h(1))));
    assert_eq!(c, Call::HashEntry { entry: EntryTypes::Habit(habit_named("Run")) });
    let (m, c) = ask(m.resume::<R, X>(Reply::Hash(h(2))));
    assert_eq!(c, Call::EnsureIndexedPath { path: habits_path(), link_type: 0 });
    let (m, c) = ask(m.resume::<R, X>(Reply::Done));
    assert_eq!(c, Call::PathEntryHash { path: habits_path() });
    let (m, c) = ask(m.resume::<R, X>(Reply::Hash(h(3))));
    assert_eq!(c, Call::CreateIndexedLink { base: h(3), target: h(2), link_type: 0, tag: vec![] });
    let r = done(m.resume::<R, X>(Reply::Hash(h(4))));
    assert_eq!(r, Ok(habit::GraphQLCreatePayload { payload: NewHabitOutput { header_hash: h(1), entry_hash: h(2) } }));
}

#[test]
fn read_update_delete_habits() {
    assert_eq!(habit_from_record::<X>(None), Ok(None));
    assert_eq!(habit_from_record::<X>(Some((h(1), None))), Err(ZomeError::NotAHabit));
    let (m, c) = ask(get_habit::<X>(h(5)));
    assert_eq!(c, Call::GetHabit { hash: h(5) });
    assert_eq!(done(m.resume::<R, X>(Reply::Habit(Some((h(1), Some(habit_named("Run"))))))), Ok(Some(habit_named("Run"))));
    let input = UpdateHabitInput { original_header_hash: h(1), updated_habit: habit_named("Walk") };
    let (m, c) = ask(update_habit::<X>(input));
    assert_eq!(c, Call::UpdateEntry { original: h(1), entry: EntryTypes::Habit(habit_named("Walk")) });
    let (m, _) = ask(m.resume::<R, X>(Reply::Hash(h(2))));
    assert_eq!(done(m.resume::<R, X>(Reply::Hash(h(3)))), Ok(NewHabitOutput { header_hash: h(2), entry_hash: h(3) }));
    let (m, c) = ask(delete_habit::<X>(h(1)));
    assert_eq!(c, Call::DeleteEntry { original: h(1) });
    assert_eq!(done(m.resume::<R, X>(Reply::Failed("gone".to_string()))), Err(ZomeError::Host("gone".to_string())));
}

#[test]
fn list_every_habit() {
    let (m, c) = ask(get_all_habits::<X>());
    assert_eq!(c, Call::PathEntryHash { path: habits_path() });
    let m: GetAllHabits = m;
    let (m, _) = ask(m.resume::<R, X>(Reply::Hash(h(1))));
    let (m, c) = ask(m.resume::<R, X>(Reply::Links(vec![link(10, 90), link(20, 91)])));
    assert_eq!(c, Call::GetHabit { hash: h(10) });
    let (m, _) = ask(m.resume::<R, X>(Reply::Habit(Some((h(11), Some(habit_named("Run")))))));
    assert!(m.is_stuck::<R, X>(&Reply::Habit(None)));
    let c = done(m.resume::<R, X>(Reply::Habit(Some((h(21), Some(habit_named("Read"))))))).unwrap();
    assert_eq!(c, habit::Connection::new(vec![habit_named("Run"), habit_named("Read")]));
}

#[test]
fn every_operation_is_valid() {
    assert_eq!(validate(42u8), ValidateCallbackResult::Valid);
}

#[test]
fn listing_link_types_are_the_first() {
    assert_eq!(BurnerLinkType::PathToBurner.index(), 0);
    assert_eq!(HabitLinkType::PathToHabit.index(), 0);
}

#[test]
fn a_created_burner_reads_back() {
    let mut kept: BTreeMap<u8, (Address, Burner)> = BTreeMap::new();
    let mut written = None;
    let mut s = create_burner::<X>(burner("Cooking"));
    let payload = loop {
        match s {
            Step::Ask(m, Call::CreateEntry { entry: EntryTypes::Burner(b) }) => {
                written = Some(b);
                s = m.resume::<R, X>(Reply::Hash(h(1)));
            },
            Step::Ask(m, Call::HashEntry { .. }) => {
                kept.insert(2, (h(1), written.clone().unwrap()));
                s = m.resume::<R, X>(Reply::Hash(h(2)));
            },
            Step::Ask(m, Call::EnsureIndexedPath { .. }) => s = m.resume::<R, X>(Reply::Done),
            Step::Ask(m, _) => s = m.resume::<R, X>(Reply::Hash(h(3))),
            Step::Done(r) => break r.unwrap().payload,
        }
    };
    kept.insert(9, (h(8), burner("Other")));
    let (m, _) = ask(get_burner::<X>(payload.entry_hash.clone()));
    let found = kept.get(&payload.entry_hash.raw[0]).map(|(a, b)| (a.clone(), Some(b.clone())));
    let read = done(m.resume::<R, X>(Reply::Burner(found))).unwrap().unwrap();
    assert_eq!(read.name, "Cooking");
    assert_eq!(read.metadata, burner("Cooking").metadata);
}

#[test]
fn a_created_habit_reads_back() {
    let mut kept: BTreeMap<u8, (Address, Habit)> = BTreeMap::new();
    let mut written = None;
    let mut s = create_habit::<X>(habit_named("Run"));
    let payload = loop {
        match s {
            Step::Ask(m, Call::CreateEntry { entry: EntryTypes::Habit(x) }) => {
                written = Some(x);
                s = m.resume::<R, X>(Reply::Hash(h(1)));
            },
            Step::Ask(m, Call::HashEntry { .. }) => {
                kept.insert(2, (h(1), written.clone().unwrap()));
                s = m.resume::<R, X>(Reply::Hash(h(2)));
            },
            Step::Ask(m, Call::EnsureIndexedPath { .. }) => s = m.resume::<R, X>(Reply::Done),
            Step::Ask(m, _) => s = m.resume::<R, X>(Reply::Hash(h(3))),
            Step::Done(r) => break r.unwrap().payload,
        }
    };
    let (m, _) = ask(get_habit::<X>(payload.entry_hash.clone()));
    let found = kept.get(&payload.entry_hash.raw[0]).map(|(a, x)| (a.clone(), Some(x.clone())));
    let read = done(m.resume::<R, X>(Reply::Habit(found))).unwrap().unwrap();
    let want = habit_named("Run");
    assert_eq!(read.name, want.name);
    assert_eq!(read.timeframe.start_time, want.timeframe.start_time);
    assert_eq!(read.timeframe.end_time, want.timeframe.end_time);
    assert_eq!(read.metadata, want.metadata);
}
