use std::collections::BTreeMap;
use vstd::prelude::*;
use crate::hash::Address;

verus! {

/// A burner: a named stove top on which habits are kept, with free-form metadata.
#[derive(Clone, Debug, PartialEq)]
pub struct Burner {
    pub name: String,
    pub metadata: BTreeMap<String, String>,
}

/// The time span over which a habit is tracked.
#[derive(Clone, Debug, PartialEq)]
pub struct Timeframe {
    pub start_time: String,
    pub end_time: String,
}

/// A habit: a name, the time frame it is kept over, and free-form metadata.
#[derive(Clone, Debug, PartialEq)]
pub struct Habit {
    pub name: String,
    pub timeframe: Timeframe,
    pub metadata: BTreeMap<String, String>,
}

impl Burner {
    /// Whether two burners hold the same name and metadata.
    pub open spec fn same(self, other: Burner) -> bool {
        self.name@ == other.name@ && self.metadata@ == other.metadata@
    }

    /// A copy of this burner.
    pub fn copied(&self) -> (b: Burner)
        ensures
            b.same(*self),
    {
        Burner { name: self.name.clone(), metadata: self.metadata.clone() }
    }
}

impl Habit {
    /// Whether two habits hold the same name, time frame and metadata.
    pub open spec fn same(self, other: Habit) -> bool {
        &&& self.name@ == other.name@
        &&& self.timeframe.start_time@ == other.timeframe.start_time@
        &&& self.timeframe.end_time@ == other.timeframe.end_time@
        &&& self.metadata@ == other.metadata@
    }

    /// A copy of this habit.
    pub fn copied(&self) -> (h: Habit)
        ensures
            h.same(*self),
    {
        Habit {
            name: self.name.clone(),
            timeframe: Timeframe { start_time: self.timeframe.start_time.clone(), end_time: self.timeframe.end_time.clone() },
            metadata: self.metadata.clone(),
        }
    }
}

/// The application entries that this zome writes to the source chain.
#[derive(Clone, Debug, PartialEq)]
pub enum EntryTypes {
    Burner(Burner),
    Habit(Habit),
}

/// The kinds of link that this zome writes.
#[derive(Clone, Copy, Debug, PartialEq, Eq)]
pub enum LinkTypes {
    PrefixPath,
    PathToBurner,
    PathToHabit,
    AgentToBurner,
    AgentToHabit,
}

/// The input of an update: the action that created the original entry, and the
/// new value.
#[derive(Clone, Debug, PartialEq)]
pub struct UpdateInput<T> {
    pub original_action_hash: Address,
    pub updated: T,
}

/// What a deletion answers: the hash of the delete action, and of the action
/// that was deleted.
#[derive(Clone, Debug, PartialEq)]
pub struct DeleteResponse {
    pub delete_action_hash: Address,
    pub original_action_hash: Address,
}

} // verus!
