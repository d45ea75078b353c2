use vstd::prelude::*;
use crate::entries::{Burner, EntryTypes, Habit, LinkTypes};
use crate::hash::Address;

verus! {

/// A link as the handlers read it: where it points, and the action that
/// created it.
#[derive(Clone, Debug, PartialEq)]
pub struct LinkInfo {
    pub target: Address,
    pub create_link_hash: Address,
}

/// A record of the source chain or the DHT as the handlers read it: the hash
/// of its action, the hash of the entry that the action wrote (if any), and
/// the record itself, which the handlers hand back untouched.
#[derive(Clone, Debug, PartialEq)]
pub struct RecordInfo<R> {
    pub action_hash: Address,
    pub entry_hash: Option<Address>,
    pub record: R,
}

/// An action that wrote an entry: its hash and its author.
#[derive(Clone, Debug, PartialEq)]
pub struct EntryAction {
    pub action_hash: Address,
    pub author: Address,
}

/// What `get_details` answers.
#[derive(Clone, Debug, PartialEq)]
pub enum DetailsInfo<R, E> {
    /// Asked for an action: the record, and the action hashes of the updates
    /// made to it, in the order the host lists them.
    Record { record: RecordInfo<R>, updates: Vec<Address> },
    /// Asked for an entry: the entry; the actions that wrote it (creations and
    /// updates); the actions that its deletions delete; and the entry hashes
    /// that its updates write, in the order the host lists them.
    Entry { entry: E, actions: Vec<EntryAction>, deletes: Vec<Address>, updates: Vec<Address> },
}

/// A request to the host. Every read asks for the latest data the host knows.
#[derive(Clone, Debug, PartialEq)]
pub enum Call {
    /// `agent_info`: the calling agent's initial public key.
    AgentInfo,
    /// `create_entry`: commit a new application entry.
    CreateEntry { entry: EntryTypes },
    /// `hash_entry`: the entry hash of an application entry.
    HashEntry { entry: EntryTypes },
    /// `update_entry`: commit a new value for the entry created by `original`.
    UpdateEntry { original: Address, entry: EntryTypes },
    /// `delete_entry` of the action `original`, with strict chain-top ordering.
    DeleteEntry { original: Address },
    /// Attach `link_type` to the path with these components, and make sure
    /// that every level of it is linked from its parent.
    EnsurePath { path: Vec<Vec<u8>>, link_type: LinkTypes },
    /// The entry hash of the path with these components.
    PathEntryHash { path: Vec<Vec<u8>> },
    /// `create_link` from `base` to `target`.
    CreateLink { base: Address, target: Address, link_type: LinkTypes, tag: Vec<u8> },
    /// As `EnsurePath`, with the link type given by its index among the zome's
    /// link types.
    EnsureIndexedPath { path: Vec<Vec<u8>>, link_type: u8 },
    /// As `CreateLink`, with the link type given by its index among the zome's
    /// link types.
    CreateIndexedLink { base: Address, target: Address, link_type: u8, tag: Vec<u8> },
    /// `delete_link` of the link created by `address`.
    DeleteLink { address: Address },
    /// `get_links` from `base`, of one type, or of every type of this zome.
    GetLinks { base: Address, link_type: Option<LinkTypes> },
    /// `get` of a record.
    Get { hash: Address },
    /// `get` of a record, read as a burner entry.
    GetBurner { hash: Address },
    /// `get` of a record, read as a habit entry.
    GetHabit { hash: Address },
    /// `get_details` of an action or an entry.
    GetDetails { hash: Address },
    /// `query` of the agent's own source chain for burner entries.
    QueryBurners,
    /// The links of type `link_type` from every child path of `path` (typed
    /// with `path_type`).
    ChildPathLinks { path: Vec<Vec<u8>>, path_type: LinkTypes, link_type: LinkTypes },
}

/// What the host answered to a [`Call`]. `X` is the host's error.
#[derive(Clone, Debug, PartialEq)]
pub enum Reply<R, X> {
    /// The call failed with this host error.
    Failed(X),
    /// A hash: of an agent, a new action, an entry or a path.
    Hash(Address),
    /// The call succeeded and answered nothing.
    Done,
    /// Links.
    Links(Vec<LinkInfo>),
    /// A record, if the host found one.
    Record(Option<RecordInfo<R>>),
    /// A record read as a burner: none found, found without an application
    /// entry, or found with this burner.
    Burner(Option<(Address, Option<Burner>)>),
    /// A record read as a habit, as for burners.
    Habit(Option<(Address, Option<Habit>)>),
    /// Details, if the host found any.
    Details(Option<DetailsInfo<R, ()>>),
    /// Records.
    Records(Vec<RecordInfo<R>>),
}

/// The kind of reply that a call is answered with.
pub open spec fn answers<R, X>(call: Call, reply: Reply<R, X>) -> bool {
    reply is Failed || match call {
        Call::AgentInfo | Call::CreateEntry { .. } | Call::HashEntry { .. }
        | Call::UpdateEntry { .. } | Call::DeleteEntry { .. } | Call::PathEntryHash { .. }
        | Call::CreateLink { .. } | Call::DeleteLink { .. } | Call::CreateIndexedLink { .. } => reply is Hash,
        Call::EnsurePath { .. } | Call::EnsureIndexedPath { .. } => reply is Done,
        Call::GetLinks { .. } | Call::ChildPathLinks { .. } => reply is Links,
        Call::Get { .. } => reply is Record,
        Call::GetBurner { .. } => reply is Burner,
        Call::GetHabit { .. } => reply is Habit,
        Call::GetDetails { .. } => reply is Details,
        Call::QueryBurners => reply is Records,
    }
}

/// Whether `reply` is of the kind that answers `call`.
pub fn answers_call<R, X>(call: &Call, reply: &Reply<R, X>) -> (r: bool)
    ensures
        r == answers(*call, *reply),
{
    match reply {
        Reply::Failed(_) => true,
        Reply::Hash(_) => match call {
            Call::AgentInfo | Call::CreateEntry { .. } | Call::HashEntry { .. }
            | Call::UpdateEntry { .. } | Call::DeleteEntry { .. } | Call::PathEntryHash { .. }
            | Call::CreateLink { .. } | Call::DeleteLink { .. } | Call::CreateIndexedLink { .. } => true,
            _ => false,
        },
        Reply::Done => matches!(call, Call::EnsurePath { .. } | Call::EnsureIndexedPath { .. }),
        Reply::Links(_) => match call {
            Call::GetLinks { .. } | Call::ChildPathLinks { .. } => true,
            _ => false,
        },
        Reply::Record(_) => matches!(call, Call::Get { .. }),
        Reply::Burner(_) => matches!(call, Call::GetBurner { .. }),
        Reply::Habit(_) => matches!(call, Call::GetHabit { .. }),
        Reply::Details(_) => matches!(call, Call::GetDetails { .. }),
        Reply::Records(_) => matches!(call, Call::QueryBurners),
    }
}

/// Why a handler failed.
#[derive(Clone, Debug, PartialEq)]
pub enum ZomeError<X> {
    /// The host failed with this error.
    Host(X),
    /// A record that was just written could not be read back.
    Unreachable,
    /// The burner does not exist on the caller's own source chain.
    NotOwned,
    /// The host holds no details for the address.
    NotFound,
    /// The host answered details of an entry where those of an action were
    /// expected, or the other way round.
    MalformedDetails,
    /// A record holds no burner entry.
    NotABurner,
    /// A record holds no habit entry.
    NotAHabit,
}

impl<X> ZomeError<X> {
    /// The guest message of this error, as the zome reports it (empty for a
    /// host error, which carries its own).
    pub fn message(&self) -> (m: &'static str)
        ensures
            self is Host ==> m@ == Seq::<char>::empty(),
            self is Unreachable ==> m@ == "Unreachable"@,
            self is NotOwned ==> m@ == "Burner doesn't exist or isn't owned by you"@,
            self is NotFound ==> m@ == "Burner not found"@,
            self is MalformedDetails ==> m@ == "Malformed details"@,
            self is NotABurner ==> m@ == "Could not deserialize element to Burner."@,
            self is NotAHabit ==> m@ == "Could not deserialize element to Habit."@,
    {
        match self {
            ZomeError::Host(_) => {
                let m = "";
                proof { reveal_strlit(""); }
                m
            },
            ZomeError::Unreachable => "Unreachable",
            ZomeError::NotOwned => "Burner doesn't exist or isn't owned by you",
            ZomeError::NotFound => "Burner not found",
            ZomeError::MalformedDetails => "Malformed details",
            ZomeError::NotABurner => "Could not deserialize element to Burner.",
            ZomeError::NotAHabit => "Could not deserialize element to Habit.",
        }
    }
}

/// One step of a handler: either a request to the host, with the handler
/// waiting for its reply, or the handler's result.
pub enum Step<M, T, X> {
    Ask(M, Call),
    Done(Result<T, ZomeError<X>>),
}

/// A copy of a path.
pub fn copy_path(p: &Vec<Vec<u8>>) -> (q: Vec<Vec<u8>>)
    ensures
        q.deep_view() == p.deep_view(),
{
    let mut q: Vec<Vec<u8>> = Vec::new();
    let mut i: usize = 0;
    while i < p.len()
        invariant
            i <= p.len(),
            q.len() == i,
            forall|j: int| 0 <= j < i ==> #[trigger] q@[j]@ == p@[j]@,
        decreases p.len() - i,
    {
        let c = p[i].clone();
        assert(c@ =~= p@[i as int]@);
        q.push(c);
        i = i + 1;
    }
    assert(q.deep_view() =~= p.deep_view());
    q
}

} // verus!
