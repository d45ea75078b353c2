use vstd::prelude::*;
use crate::entries::{EntryTypes, Habit};
use crate::hash::Address;
use crate::host::{Call, LinkInfo, Reply, Step, ZomeError};
use crate::text::{habits_path, habits_root, text_path};
use crate::zome::burner::{not_implemented, not_implemented_text};

verus! {

/// The link types of the listing of habits: a path link, the zome's first
/// link type.
#[derive(Clone, Copy, Debug, PartialEq, Eq)]
pub enum HabitLinkType {
    PathToHabit,
}

impl HabitLinkType {
    /// The index of this link type among the zome's link types.
    pub fn index(self) -> (i: u8)
        ensures
            i == 0,
    {
        match self {
            HabitLinkType::PathToHabit => 0,
        }
    }
}

/// The hashes of a new habit: of the action that wrote it, and of its entry.
#[derive(Clone, Debug, PartialEq)]
pub struct NewHabitOutput {
    pub header_hash: Address,
    pub entry_hash: Address,
}

/// What a habit creation answers.
#[derive(Clone, Debug, PartialEq)]
pub struct GraphQLCreatePayload {
    pub payload: NewHabitOutput,
}

/// The input of a habit update.
#[derive(Clone, Debug, PartialEq)]
pub struct UpdateHabitInput {
    pub original_header_hash: Address,
    pub updated_habit: Habit,
}

/// An edge of a listing: a cursor and a habit.
#[derive(Clone, Debug, PartialEq)]
pub struct Edge {
    pub cursor: String,
    pub node: Habit,
}

/// A listing of habits.
#[derive(Clone, Debug, PartialEq)]
pub struct Connection {
    pub edges: Vec<Edge>,
    pub page_info: String,
}

impl Edge {
    /// An edge to `habit`, whose cursor is the placeholder.
    pub fn new(habit: Habit) -> (e: Edge)
        ensures
            e.node == habit,
            e.cursor@ == not_implemented(),
    {
        Edge { cursor: not_implemented_text(), node: habit }
    }
}

impl Connection {
    /// This listing shows `habits`, in order, with the placeholder as every
    /// cursor and as page information.
    pub open spec fn lists(self, habits: Seq<Habit>) -> bool {
        &&& self.edges@.len() == habits.len()
        &&& forall|i: int| 0 <= i < habits.len() ==> {
            &&& (#[trigger] self.edges@[i]).cursor@ == not_implemented()
            &&& self.edges@[i].node.same(habits[i])
        }
        &&& self.page_info@ == not_implemented()
    }

    /// The listing of `habits`, in order.
    pub fn new(habits: Vec<Habit>) -> (c: Connection)
        ensures
            c.lists(habits@),
    {
        let mut edges: Vec<Edge> = Vec::new();
        let mut i: usize = 0;
        while i < habits.len()
            invariant
                i <= habits@.len(),
                edges@.len() == i,
                forall|j: int| 0 <= j < i ==> {
                    &&& (#[trigger] edges@[j]).cursor@ == not_implemented()
                    &&& edges@[j].node.same(habits@[j])
                },
            decreases habits@.len() - i,
        {
            edges.push(Edge::new(habits[i].copied()));
            i = i + 1;
        }
        Connection { edges, page_info: not_implemented_text() }
    }
}

/// The creation of a listed habit: it asks for the creation of the entry, for
/// the entry's hash, that the `all_habits` path exists, for the path's hash,
/// and for a link from the path to the entry; the answer is the new action's
/// and entry's hashes.
pub enum CreateHabit {
    AwaitHeader { habit: Habit },
    AwaitEntryHash { header: Address },
    AwaitEnsure { header: Address, entry: Address },
    AwaitPathHash { header: Address, entry: Address },
    AwaitLink { header: Address, entry: Address },
}

/// The steps of a listed habit's creation.
pub type CreateStep<X> = Step<CreateHabit, GraphQLCreatePayload, X>;

/// The first step of a listed habit's creation: writing its entry.
pub fn create_habit<X>(habit: Habit) -> (s: CreateStep<X>)
    ensures
        s matches Step::Ask(CreateHabit::AwaitHeader { habit: h }, Call::CreateEntry { entry })
            && h.same(habit) && entry == EntryTypes::Habit(habit),
{
    let kept = habit.copied();
    Step::Ask(CreateHabit::AwaitHeader { habit: kept }, Call::CreateEntry { entry: EntryTypes::Habit(habit) })
}

impl CreateHabit {
    /// The kind of reply the creation waits for.
    pub open spec fn expects<R, X>(self, reply: Reply<R, X>) -> bool {
        reply is Failed || (self is AwaitEnsure && reply is Done) || (!(self is AwaitEnsure) && reply is Hash)
    }

    /// What the creation does with a reply: a host error ends it with that
    /// error; otherwise it goes on as the steps above say.
    pub open spec fn next<R, X>(self, reply: Reply<R, X>, s: CreateStep<X>) -> bool {
        match reply {
            Reply::Failed(e) => s == CreateStep::<X>::Done(Err(ZomeError::Host(e))),
            _ => match self {
                CreateHabit::AwaitHeader { habit } => {
                    &&& reply matches Reply::Hash(header)
                    &&& s matches Step::Ask(CreateHabit::AwaitEntryHash { header: h }, Call::HashEntry { entry })
                    &&& h == header && entry == EntryTypes::Habit(habit)
                },
                CreateHabit::AwaitEntryHash { header } => {
                    &&& reply matches Reply::Hash(entry)
                    &&& s matches Step::Ask(CreateHabit::AwaitEnsure { header: h, entry: e }, Call::EnsureIndexedPath { path, link_type })
                    &&& h == header && e == entry
                    &&& path.deep_view() == text_path(habits_root()) && link_type == 0
                },
                CreateHabit::AwaitEnsure { header, entry } => {
                    &&& s matches Step::Ask(CreateHabit::AwaitPathHash { header: h, entry: e }, Call::PathEntryHash { path })
                    &&& h == header && e == entry && path.deep_view() == text_path(habits_root())
                },
                CreateHabit::AwaitPathHash { header, entry } => {
                    &&& reply matches Reply::Hash(path_hash)
                    &&& s matches Step::Ask(CreateHabit::AwaitLink { header: h, entry: e }, Call::CreateIndexedLink { base, target, link_type, tag })
                    &&& h == header && e == entry
                    &&& base == path_hash && target@ == entry@ && link_type == 0 && tag@ == Seq::<u8>::empty()
                },
                CreateHabit::AwaitLink { header, entry } => {
                    s == CreateStep::<X>::Done(Ok(GraphQLCreatePayload {
                        payload: NewHabitOutput { header_hash: header, entry_hash: entry },
                    }))
                },
            },
        }
    }

    /// Resumes the creation with the host's reply.
    pub fn resume<R, X>(self, reply: Reply<R, X>) -> (s: CreateStep<X>)
        requires
            self.expects(reply),
        ensures
            self.next(reply, s),
    {
        if let Reply::Failed(e) = reply {
            return Step::Done(Err(ZomeError::Host(e)));
        }
        match self {
            CreateHabit::AwaitHeader { habit } => match reply {
                Reply::Hash(header) => Step::Ask(
                    CreateHabit::AwaitEntryHash { header },
                    Call::HashEntry { entry: EntryTypes::Habit(habit) },
                ),
                _ => vstd::pervasive::unreached(),
            },
            CreateHabit::AwaitEntryHash { header } => match reply {
                Reply::Hash(entry) => Step::Ask(
                    CreateHabit::AwaitEnsure { header, entry },
                    Call::EnsureIndexedPath { path: habits_path(), link_type: HabitLinkType::PathToHabit.index() },
                ),
                _ => vstd::pervasive::unreached(),
            },
            CreateHabit::AwaitEnsure { header, entry } => Step::Ask(
                CreateHabit::AwaitPathHash { header, entry },
                Call::PathEntryHash { path: habits_path() },
            ),
            CreateHabit::AwaitPathHash { header, entry } => match reply {
                Reply::Hash(path_hash) => {
                    let target = entry.copied();
                    let tag: Vec<u8> = Vec::new();
                    Step::Ask(
                        CreateHabit::AwaitLink { header, entry },
                        Call::CreateIndexedLink { base: path_hash, target, link_type: HabitLinkType::PathToHabit.index(), tag },
                    )
                },
                _ => vstd::pervasive::unreached(),
            },
            CreateHabit::AwaitLink { header, entry } => Step::Done(Ok(GraphQLCreatePayload {
                payload: NewHabitOutput { header_hash: header, entry_hash: entry },
            })),
        }
    }
}

/// What a read of a record as a habit answers: no record is `None`; a record
/// without a habit entry fails with `NotAHabit`; otherwise the habit.
pub open spec fn read_habit<X>(found: Option<(Address, Option<Habit>)>) -> Result<Option<Habit>, ZomeError<X>> {
    match found {
        None => Ok(None),
        Some((_, None)) => Err(ZomeError::NotAHabit),
        Some((_, Some(h))) => Ok(Some(h)),
    }
}

/// Reads a record as a habit (see [`read_habit`]).
pub fn habit_from_record<X>(found: Option<(Address, Option<Habit>)>) -> (r: Result<Option<Habit>, ZomeError<X>>)
    ensures
        r == read_habit::<X>(found),
{
    match found {
        None => Ok(None),
        Some((_, None)) => Err(ZomeError::NotAHabit),
        Some((_, Some(h))) => Ok(Some(h)),
    }
}

/// A read of the habit stored at an entry hash.
pub struct GetHabit;

/// The steps of a habit read.
pub type GetHabitStep<X> = Step<GetHabit, Option<Habit>, X>;

/// The first step of a read of the habit at `entry_hash`.
pub fn get_habit<X>(entry_hash: Address) -> (s: GetHabitStep<X>)
    ensures
        s matches Step::Ask(GetHabit, Call::GetHabit { hash }) && hash == entry_hash,
{
    Step::Ask(GetHabit, Call::GetHabit { hash: entry_hash })
}

impl GetHabit {
    /// Resumes the read with the record found, read as a habit.
    pub fn resume<R, X>(self, reply: Reply<R, X>) -> (s: GetHabitStep<X>)
        requires
            reply is Failed || reply is Habit,
        ensures
            reply matches Reply::Failed(e) ==> s == GetHabitStep::<X>::Done(Err(ZomeError::Host(e))),
            reply matches Reply::Habit(found) ==> s == GetHabitStep::<X>::Done(read_habit::<X>(found)),
    {
        match reply {
            Reply::Failed(e) => Step::Done(Err(ZomeError::Host(e))),
            Reply::Habit(found) => Step::Done(habit_from_record(found)),
            _ => vstd::pervasive::unreached(),
        }
    }
}

/// The update of a listed habit: the update of the entry, then the new
/// entry's hash; the answer is both hashes.
pub enum UpdateHabit {
    AwaitHeader { habit: Habit },
    AwaitEntryHash { header: Address },
}

/// The steps of a listed habit's update.
pub type UpdateStep<X> = Step<UpdateHabit, NewHabitOutput, X>;

/// The first step of a listed habit's update: updating the original entry.
pub fn update_habit<X>(input: UpdateHabitInput) -> (s: UpdateStep<X>)
    ensures
        s matches Step::Ask(UpdateHabit::AwaitHeader { habit }, Call::UpdateEntry { original, entry })
            && habit.same(input.updated_habit) && original == input.original_header_hash
            && entry == EntryTypes::Habit(input.updated_habit),
{
    let UpdateHabitInput { original_header_hash, updated_habit } = input;
    let kept = updated_habit.copied();
    Step::Ask(
        UpdateHabit::AwaitHeader { habit: kept },
        Call::UpdateEntry { original: original_header_hash, entry: EntryTypes::Habit(updated_habit) },
    )
}

impl UpdateHabit {
    /// Resumes the update: a host error ends it with that error; the new
    /// action's hash leads to hashing the new entry; and that hash to the
    /// answer.
    pub fn resume<R, X>(self, reply: Reply<R, X>) -> (s: UpdateStep<X>)
        requires
            reply is Failed || reply is Hash,
        ensures
            reply matches Reply::Failed(e) ==> s == UpdateStep::<X>::Done(Err(ZomeError::Host(e))),
            self matches UpdateHabit::AwaitHeader { habit } ==> (reply matches Reply::Hash(header) ==>
                s matches Step::Ask(UpdateHabit::AwaitEntryHash { header: h }, Call::HashEntry { entry })
                    && h == header && entry == EntryTypes::Habit(habit)),
            self matches UpdateHabit::AwaitEntryHash { header } ==> (reply matches Reply::Hash(entry) ==>
                s == UpdateStep::<X>::Done(Ok(NewHabitOutput { header_hash: header, entry_hash: entry }))),
    {
        match (self, reply) {
            (_, Reply::Failed(e)) => Step::Done(Err(ZomeError::Host(e))),
            (UpdateHabit::AwaitHeader { habit }, Reply::Hash(header)) => Step::Ask(
                UpdateHabit::AwaitEntryHash { header },
                Call::HashEntry { entry: EntryTypes::Habit(habit) },
            ),
            (UpdateHabit::AwaitEntryHash { header }, Reply::Hash(entry)) => Step::Done(Ok(NewHabitOutput {
                header_hash: header,
                entry_hash: entry,
            })),
            _ => vstd::pervasive::unreached(),
        }
    }
}

/// The deletion of a listed habit by the action that wrote it.
pub struct DeleteHabit;

/// The steps of a listed habit's deletion.
pub type DeleteStep<X> = Step<DeleteHabit, Address, X>;

/// The first step of a listed habit's deletion: deleting the action.
pub fn delete_habit<X>(header_hash: Address) -> (s: DeleteStep<X>)
    ensures
        s matches Step::Ask(DeleteHabit, Call::DeleteEntry { original }) && original == header_hash,
{
    Step::Ask(DeleteHabit, Call::DeleteEntry { original: header_hash })
}

impl DeleteHabit {
    /// Resumes the deletion: the answer is the delete action's hash.
    pub fn resume<R, X>(self, reply: Reply<R, X>) -> (s: DeleteStep<X>)
        requires
            reply is Failed || reply is Hash,
        ensures
            reply matches Reply::Failed(e) ==> s == DeleteStep::<X>::Done(Err(ZomeError::Host(e))),
            reply matches Reply::Hash(h) ==> s == DeleteStep::<X>::Done(Ok(h)),
    {
        match reply {
            Reply::Failed(e) => Step::Done(Err(ZomeError::Host(e))),
            Reply::Hash(h) => Step::Done(Ok(h)),
            _ => vstd::pervasive::unreached(),
        }
    }
}

/// Where a listing of every habit stands.
pub enum GetAllHabits {
    AwaitPathHash,
    AwaitLinks,
    /// Reading the habit that `links[next]` points at.
    Reading { links: Vec<LinkInfo>, next: usize, habits: Vec<Habit> },
}

/// The steps of a listing of every habit.
pub type AllStep<X> = Step<GetAllHabits, Connection, X>;

/// The first step of a listing of every habit: the hash of the `all_habits`
/// path.
pub fn get_all_habits<X>() -> (s: AllStep<X>)
    ensures
        s matches Step::Ask(GetAllHabits::AwaitPathHash, Call::PathEntryHash { path })
            && path.deep_view() == text_path(habits_root()),
{
    Step::Ask(GetAllHabits::AwaitPathHash, Call::PathEntryHash { path: habits_path() })
}

/// The listing reads the habit at the target of `links[next]`, with the
/// habits read so far.
pub open spec fn reads<X>(s: AllStep<X>, links: Seq<LinkInfo>, next: int, habits: Seq<Habit>) -> bool {
    &&& s matches Step::Ask(GetAllHabits::Reading { links: l, next: n, habits: h }, Call::GetHabit { hash })
    &&& l@ == links && n == next && h@ == habits && hash@ == links[next].target@
}

impl GetAllHabits {
    pub open spec fn wf(self) -> bool {
        self matches GetAllHabits::Reading { links, next, habits } ==> next < links@.len() && habits@.len() == next
    }

    /// The kind of reply the listing waits for.
    pub open spec fn expects<R, X>(self, reply: Reply<R, X>) -> bool {
        reply is Failed || match self {
            GetAllHabits::AwaitPathHash => reply is Hash,
            GetAllHabits::AwaitLinks => reply is Links,
            GetAllHabits::Reading { .. } => reply is Habit,
        }
    }

    /// Where the listing cannot go on (the handler insists that every link
    /// target has a record): a target without a record.
    pub open spec fn stuck<R, X>(self, reply: Reply<R, X>) -> bool {
        self is Reading && reply == Reply::<R, X>::Habit(None)
    }

    /// Whether the listing cannot go on with this reply.
    pub fn is_stuck<R, X>(&self, reply: &Reply<R, X>) -> (r: bool)
        ensures
            r == self.stuck(*reply),
    {
        match (self, reply) {
            (GetAllHabits::Reading { .. }, Reply::Habit(None)) => true,
            _ => false,
        }
    }

    /// Resumes the listing with the host's reply: it reads every linked
    /// habit, in link order, and answers their listing. A host error, or a
    /// target that holds no habit, ends it.
    pub fn resume<R, X>(self, reply: Reply<R, X>) -> (s: AllStep<X>)
        requires
            self.wf(),
            self.expects(reply),
            !self.stuck(reply),
        ensures
            s matches Step::Ask(m, _) ==> m.wf(),
            reply matches Reply::Failed(e) ==> s == AllStep::<X>::Done(Err(ZomeError::Host(e))),
            self is AwaitPathHash ==> (reply matches Reply::Hash(p) ==>
                s matches Step::Ask(GetAllHabits::AwaitLinks, Call::GetLinks { base, link_type }) && base == p && link_type is None),
            self is AwaitLinks ==> (reply matches Reply::Links(links) ==> if links@.len() == 0 {
                s matches Step::Done(Ok(c)) && c.lists(Seq::empty())
            } else {
                reads(s, links@, 0, Seq::empty())
            }),
            self matches GetAllHabits::Reading { links, next, habits } ==> (reply matches Reply::Habit(Some((_, found))) ==> match found {
                None => s == AllStep::<X>::Done(Err(ZomeError::NotAHabit)),
                Some(h) => if next + 1 == links@.len() {
                    s matches Step::Done(Ok(c)) && c.lists(habits@.push(h))
                } else {
                    reads(s, links@, next + 1, habits@.push(h))
                },
            }),
    {
        match self {
            GetAllHabits::AwaitPathHash => match reply {
                Reply::Failed(e) => Step::Done(Err(ZomeError::Host(e))),
                Reply::Hash(p) => Step::Ask(GetAllHabits::AwaitLinks, Call::GetLinks { base: p, link_type: None }),
                _ => vstd::pervasive::unreached(),
            },
            GetAllHabits::AwaitLinks => match reply {
                Reply::Failed(e) => Step::Done(Err(ZomeError::Host(e))),
                Reply::Links(links) => {
                    if links.len() == 0 {
                        let c = Connection::new(Vec::new());
                        return Step::Done(Ok(c));
                    }
                    let habits: Vec<Habit> = Vec::new();
                    assert(habits@ =~= Seq::<Habit>::empty());
                    Self::read(links, 0, habits)
                },
                _ => vstd::pervasive::unreached(),
            },
            GetAllHabits::Reading { links, next, habits } => match reply {
                Reply::Failed(e) => Step::Done(Err(ZomeError::Host(e))),
                Reply::Habit(Some((_, None))) => Step::Done(Err(ZomeError::NotAHabit)),
                Reply::Habit(Some((_, Some(h)))) => {
                    let mut habits = habits;
                    habits.push(h);
                    let n = links.len();
                    if next + 1 == n {
                        Step::Done(Ok(Connection::new(habits)))
                    } else {
                        Self::read(links, next + 1, habits)
                    }
                },
                _ => vstd::pervasive::unreached(),
            },
        }
    }

    /// Reads the habit at the target of `links[next]`.
    fn read<X>(links: Vec<LinkInfo>, next: usize, habits: Vec<Habit>) -> (s: AllStep<X>)
        requires
            next < links@.len(),
            habits@.len() == next,
        ensures
            reads(s, links@, next as int, habits@),
            s matches Step::Ask(m, _) ==> m.wf(),
    {
        let hash = links[next].target.copied();
        Step::Ask(GetAllHabits::Reading { links, next, habits }, Call::GetHabit { hash })
    }
}

/// The listing of every habit stops only on a link target that holds no
/// record; a host error ends it with that error rather than stopping it.
pub proof fn law_habit_listing_is_stuck_only_without_a_record<R, X>(m: GetAllHabits, reply: Reply<R, X>)
    ensures
        m.stuck(reply) ==> m is Reading && reply == Reply::<R, X>::Habit(None),
        reply is Failed ==> !m.stuck(reply),
        reply matches Reply::Habit(Some(_)) ==> !m.stuck(reply),
        m is AwaitPathHash || m is AwaitLinks ==> !m.stuck(reply),
{
}

/// What the host answers to a read of the entry `hash` as a habit, where it
/// keeps `kept`: each habit entry it keeps, by entry hash, with the action
/// that wrote it.
pub open spec fn habit_kept_at(kept: Map<Seq<u8>, (Address, Habit)>, hash: Seq<u8>) -> Option<(Address, Option<Habit>)> {
    if kept.contains_key(hash) {
        Some((kept[hash].0, Some(kept[hash].1)))
    } else {
        None
    }
}

/// A created habit reads back as itself: once the host keeps the habit that a
/// creation wrote at the entry hash that the creation answered, a read of
/// that hash answers that habit, whatever the host kept at other hashes since.
pub proof fn law_created_habit_reads_back<X>(
    kept: Map<Seq<u8>, (Address, Habit)>,
    created: GraphQLCreatePayload,
    habit: Habit,
    later: Map<Seq<u8>, (Address, Habit)>,
)
    requires
        !later.contains_key(created.payload.entry_hash@),
    ensures
        read_habit::<X>(habit_kept_at(
            kept.insert(created.payload.entry_hash@, (created.payload.header_hash, habit)).union_prefer_right(later),
            created.payload.entry_hash@,
        )) == Ok::<Option<Habit>, ZomeError<X>>(Some(habit)),
{
}

} // verus!
