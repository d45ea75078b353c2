use std::collections::BTreeMap;
use vstd::prelude::*;
use crate::entries::{Burner, EntryTypes};
use crate::hash::Address;
use crate::host::{Call, DetailsInfo, LinkInfo, Reply, Step, ZomeError};
use crate::text::{burners_path, burners_root, text_path};

verus! {

/// The link types of the listing of burners: a path link, the zome's first
/// link type.
#[derive(Clone, Copy, Debug, PartialEq, Eq)]
pub enum BurnerLinkType {
    PathToBurner,
}

impl BurnerLinkType {
    /// The index of this link type among the zome's link types.
    pub fn index(self) -> (i: u8)
        ensures
            i == 0,
    {
        match self {
            BurnerLinkType::PathToBurner => 0,
        }
    }
}

/// The hashes of a new burner: of the action that wrote it, and of its entry.
#[derive(Clone, Debug, PartialEq)]
pub struct NewBurnerOutput {
    pub header_hash: Address,
    pub entry_hash: Address,
}

/// What a burner creation answers.
#[derive(Clone, Debug, PartialEq)]
pub struct GraphQLCreatePayload {
    pub payload: NewBurnerOutput,
}

/// A burner as a node of a listing: its id, name and metadata.
#[derive(Clone, Debug, PartialEq)]
pub struct BurnerNode {
    pub id: Address,
    pub name: String,
    pub metadata: BTreeMap<String, String>,
}

/// The input of a burner update.
#[derive(Clone, Debug, PartialEq)]
pub struct UpdateBurnerInput {
    pub original_header_hash: Address,
    pub updated_burner: Burner,
}

/// An edge of a listing: a cursor and a node.
#[derive(Clone, Debug, PartialEq)]
pub struct Edge {
    pub cursor: String,
    pub node: BurnerNode,
}

/// A listing of burners.
#[derive(Clone, Debug, PartialEq)]
pub struct Connection {
    pub edges: Vec<Edge>,
    pub page_info: String,
}

/// The placeholder that cursors and page information hold.
pub open spec fn not_implemented() -> Seq<char> {
    seq!['N', 'O', 'T', ' ', 'I', 'M', 'P', 'L', 'E', 'M', 'E', 'N', 'T', 'E', 'D']
}

/// The placeholder text.
pub fn not_implemented_text() -> (s: String)
    ensures
        s@ == not_implemented(),
{
    let s = String::from_str("NOT IMPLEMENTED");
    proof {
        reveal_strlit("NOT IMPLEMENTED");
        assert(s@ =~= not_implemented());
    }
    s
}

impl Edge {
    /// An edge to `burner`, whose cursor is the placeholder.
    pub fn new(burner: BurnerNode) -> (e: Edge)
        ensures
            e.node == burner,
            e.cursor@ == not_implemented(),
    {
        Edge { cursor: not_implemented_text(), node: burner }
    }
}

impl Connection {
    /// This listing shows `burners`, the i-th with id `ids[i]`, in order,
    /// with the placeholder as every cursor and as page information.
    pub open spec fn lists(self, burners: Seq<Burner>, ids: Seq<Address>) -> bool {
        &&& self.edges@.len() == burners.len()
        &&& forall|i: int| 0 <= i < burners.len() ==> {
            &&& (#[trigger] self.edges@[i]).cursor@ == not_implemented()
            &&& self.edges@[i].node.id@ == ids[i]@
            &&& self.edges@[i].node.name@ == burners[i].name@
            &&& self.edges@[i].node.metadata@ == burners[i].metadata@
        }
        &&& self.page_info@ == not_implemented()
    }

    /// The listing of `burners`, the i-th with id `ids[i]`, in order; its
    /// page information is the placeholder.
    pub fn new(burners: Vec<Burner>, ids: Vec<Address>) -> (c: Connection)
        requires
            burners@.len() <= ids@.len(),
        ensures
            c.lists(burners@, ids@),
    {
        let mut edges: Vec<Edge> = Vec::new();
        let mut i: usize = 0;
        while i < burners.len()
            invariant
                i <= burners@.len(),
                burners@.len() <= ids@.len(),
                edges@.len() == i,
                forall|j: int| 0 <= j < i ==> {
                    &&& (#[trigger] edges@[j]).cursor@ == not_implemented()
                    &&& edges@[j].node.id@ == ids@[j]@
                    &&& edges@[j].node.name@ == burners@[j].name@
                    &&& edges@[j].node.metadata@ == burners@[j].metadata@
                },
            decreases burners@.len() - i,
        {
            let b = &burners[i];
            let node = BurnerNode { id: ids[i].copied(), name: b.name.clone(), metadata: b.metadata.clone() };
            edges.push(Edge::new(node));
            i = i + 1;
        }
        Connection { edges, page_info: not_implemented_text() }
    }
}

/// The creation of a listed burner: it asks for the creation of the entry,
/// for the entry's hash, that the `all_burners` path exists, for the path's
/// hash, and for a link from the path to the entry; the answer is the new
/// action's and entry's hashes.
pub enum CreateBurner {
    AwaitHeader { burner: Burner },
    AwaitEntryHash { header: Address },
    AwaitEnsure { header: Address, entry: Address },
    AwaitPathHash { header: Address, entry: Address },
    AwaitLink { header: Address, entry: Address },
}

/// The steps of a listed burner's creation.
pub type CreateStep<X> = Step<CreateBurner, GraphQLCreatePayload, X>;

/// The first step of a listed burner's creation: writing its entry.
pub fn create_burner<X>(burner: Burner) -> (s: CreateStep<X>)
    ensures
        s matches Step::Ask(CreateBurner::AwaitHeader { burner: b }, Call::CreateEntry { entry })
            && b.same(burner) && entry == EntryTypes::Burner(burner),
{
    let kept = burner.copied();
    Step::Ask(CreateBurner::AwaitHeader { burner: kept }, Call::CreateEntry { entry: EntryTypes::Burner(burner) })
}

impl CreateBurner {
    /// The kind of reply the creation waits for.
    pub open spec fn expects<R, X>(self, reply: Reply<R, X>) -> bool {
        reply is Failed || (self is AwaitEnsure && reply is Done) || (!(self is AwaitEnsure) && reply is Hash)
    }

    /// What the creation does with a reply: a host error ends it with that
    /// error; otherwise it goes on as the steps above say.
    pub open spec fn next<R, X>(self, reply: Reply<R, X>, s: CreateStep<X>) -> bool {
        match reply {
            Reply::Failed(e) => s == CreateStep::<X>::Done(Err(ZomeError::Host(e))),
            _ => match self {
                CreateBurner::AwaitHeader { burner } => {
                    &&& reply matches Reply::Hash(header)
                    &&& s matches Step::Ask(CreateBurner::AwaitEntryHash { header: h }, Call::HashEntry { entry })
                    &&& h == header && entry == EntryTypes::Burner(burner)
                },
                CreateBurner::AwaitEntryHash { header } => {
                    &&& reply matches Reply::Hash(entry)
                    &&& s matches Step::Ask(CreateBurner::AwaitEnsure { header: h, entry: e }, Call::EnsureIndexedPath { path, link_type })
                    &&& h == header && e == entry
                    &&& path.deep_view() == text_path(burners_root()) && link_type == 0
                },
                CreateBurner::AwaitEnsure { header, entry } => {
                    &&& s matches Step::Ask(CreateBurner::AwaitPathHash { header: h, entry: e }, Call::PathEntryHash { path })
                    &&& h == header && e == entry && path.deep_view() == text_path(burners_root())
                },
                CreateBurner::AwaitPathHash { header, entry } => {
                    &&& reply matches Reply::Hash(path_hash)
                    &&& s matches Step::Ask(CreateBurner::AwaitLink { header: h, entry: e }, Call::CreateIndexedLink { base, target, link_type, tag })
                    &&& h == header && e == entry
                    &&& base == path_hash && target@ == entry@ && link_type == 0 && tag@ == Seq::<u8>::empty()
                },
                CreateBurner::AwaitLink { header, entry } => {
                    s == CreateStep::<X>::Done(Ok(GraphQLCreatePayload {
                        payload: NewBurnerOutput { header_hash: header, entry_hash: entry },
                    }))
                },
            },
        }
    }

    /// Resumes the creation with the host's reply.
    pub fn resume<R, X>(self, reply: Reply<R, X>) -> (s: CreateStep<X>)
        requires
            self.expects(reply),
        ensures
            self.next(reply, s),
    {
        if let Reply::Failed(e) = reply {
            return Step::Done(Err(ZomeError::Host(e)));
        }
        match self {
            CreateBurner::AwaitHeader { burner } => match reply {
                Reply::Hash(header) => Step::Ask(
                    CreateBurner::AwaitEntryHash { header },
                    Call::HashEntry { entry: EntryTypes::Burner(burner) },
                ),
                _ => vstd::pervasive::unreached(),
            },
            CreateBurner::AwaitEntryHash { header } => match reply {
                Reply::Hash(entry) => Step::Ask(
                    CreateBurner::AwaitEnsure { header, entry },
                    Call::EnsureIndexedPath { path: burners_path(), link_type: BurnerLinkType::PathToBurner.index() },
                ),
                _ => vstd::pervasive::unreached(),
            },
            CreateBurner::AwaitEnsure { header, entry } => Step::Ask(
                CreateBurner::AwaitPathHash { header, entry },
                Call::PathEntryHash { path: burners_path() },
            ),
            CreateBurner::AwaitPathHash { header, entry } => match reply {
                Reply::Hash(path_hash) => {
                    let target = entry.copied();
                    let tag: Vec<u8> = Vec::new();
                    Step::Ask(
                        CreateBurner::AwaitLink { header, entry },
                        Call::CreateIndexedLink { base: path_hash, target, link_type: BurnerLinkType::PathToBurner.index(), tag },
                    )
                },
                _ => vstd::pervasive::unreached(),
            },
            CreateBurner::AwaitLink { header, entry } => Step::Done(Ok(GraphQLCreatePayload {
                payload: NewBurnerOutput { header_hash: header, entry_hash: entry },
            })),
        }
    }
}

/// What a read of a record as a burner answers: no record is `None`; a record
/// without a burner entry fails with `NotABurner`; otherwise the burner.
pub open spec fn read_burner<X>(found: Option<(Address, Option<Burner>)>) -> Result<Option<Burner>, ZomeError<X>> {
    match found {
        None => Ok(None),
        Some((_, None)) => Err(ZomeError::NotABurner),
        Some((_, Some(b))) => Ok(Some(b)),
    }
}

/// Reads a record as a burner (see [`read_burner`]).
pub fn burner_from_record<X>(found: Option<(Address, Option<Burner>)>) -> (r: Result<Option<Burner>, ZomeError<X>>)
    ensures
        r == read_burner::<X>(found),
{
    match found {
        None => Ok(None),
        Some((_, None)) => Err(ZomeError::NotABurner),
        Some((_, Some(b))) => Ok(Some(b)),
    }
}

/// A read of the burner stored at an entry hash.
pub struct GetBurner;

/// The steps of a burner read.
pub type GetBurnerStep<X> = Step<GetBurner, Option<Burner>, X>;

/// The first step of a read of the burner at `entry_hash`.
pub fn get_burner<X>(entry_hash: Address) -> (s: GetBurnerStep<X>)
    ensures
        s matches Step::Ask(GetBurner, Call::GetBurner { hash }) && hash == entry_hash,
{
    Step::Ask(GetBurner, Call::GetBurner { hash: entry_hash })
}

impl GetBurner {
    /// Resumes the read with the record found, read as a burner.
    pub fn resume<R, X>(self, reply: Reply<R, X>) -> (s: GetBurnerStep<X>)
        requires
            reply is Failed || reply is Burner,
        ensures
            reply matches Reply::Failed(e) ==> s == GetBurnerStep::<X>::Done(Err(ZomeError::Host(e))),
            reply matches Reply::Burner(found) ==> s == GetBurnerStep::<X>::Done(read_burner::<X>(found)),
    {
        match reply {
            Reply::Failed(e) => Step::Done(Err(ZomeError::Host(e))),
            Reply::Burner(found) => Step::Done(burner_from_record(found)),
            _ => vstd::pervasive::unreached(),
        }
    }
}

/// The update of a listed burner: the update of the entry, then the new
/// entry's hash; the answer is both hashes.
pub enum UpdateBurner {
    AwaitHeader { burner: Burner },
    AwaitEntryHash { header: Address },
}

/// The steps of a listed burner's update.
pub type UpdateStep<X> = Step<UpdateBurner, NewBurnerOutput, X>;

/// The first step of a listed burner's update: updating the original entry.
pub fn update_burner<X>(input: UpdateBurnerInput) -> (s: UpdateStep<X>)
    ensures
        s matches Step::Ask(UpdateBurner::AwaitHeader { burner }, Call::UpdateEntry { original, entry })
            && burner.same(input.updated_burner) && original == input.original_header_hash
            && entry == EntryTypes::Burner(input.updated_burner),
{
    let UpdateBurnerInput { original_header_hash, updated_burner } = input;
    let kept = updated_burner.copied();
    Step::Ask(
        UpdateBurner::AwaitHeader { burner: kept },
        Call::UpdateEntry { original: original_header_hash, entry: EntryTypes::Burner(updated_burner) },
    )
}

impl UpdateBurner {
    /// Resumes the update: a host error ends it with that error; the new
    /// action's hash leads to hashing the new entry; and that hash to the
    /// answer.
    pub fn resume<R, X>(self, reply: Reply<R, X>) -> (s: UpdateStep<X>)
        requires
            reply is Failed || reply is Hash,
        ensures
            reply matches Reply::Failed(e) ==> s == UpdateStep::<X>::Done(Err(ZomeError::Host(e))),
            self matches UpdateBurner::AwaitHeader { burner } ==> (reply matches Reply::Hash(header) ==>
                s matches Step::Ask(UpdateBurner::AwaitEntryHash { header: h }, Call::HashEntry { entry })
                    && h == header && entry == EntryTypes::Burner(burner)),
            self matches UpdateBurner::AwaitEntryHash { header } ==> (reply matches Reply::Hash(entry) ==>
                s == UpdateStep::<X>::Done(Ok(NewBurnerOutput { header_hash: header, entry_hash: entry }))),
    {
        match (self, reply) {
            (_, Reply::Failed(e)) => Step::Done(Err(ZomeError::Host(e))),
            (UpdateBurner::AwaitHeader { burner }, Reply::Hash(header)) => Step::Ask(
                UpdateBurner::AwaitEntryHash { header },
                Call::HashEntry { entry: EntryTypes::Burner(burner) },
            ),
            (UpdateBurner::AwaitEntryHash { header }, Reply::Hash(entry)) => Step::Done(Ok(NewBurnerOutput {
                header_hash: header,
                entry_hash: entry,
            })),
            _ => vstd::pervasive::unreached(),
        }
    }
}

/// The deletion of a listed burner by the action that wrote it.
pub struct DeleteBurner;

/// The steps of a listed burner's deletion.
pub type DeleteStep<X> = Step<DeleteBurner, Address, X>;

/// The first step of a listed burner's deletion: deleting the action.
pub fn delete_burner<X>(header_hash: Address) -> (s: DeleteStep<X>)
    ensures
        s matches Step::Ask(DeleteBurner, Call::DeleteEntry { original }) && original == header_hash,
{
    Step::Ask(DeleteBurner, Call::DeleteEntry { original: header_hash })
}

impl DeleteBurner {
    /// Resumes the deletion: the answer is the delete action's hash.
    pub fn resume<R, X>(self, reply: Reply<R, X>) -> (s: DeleteStep<X>)
        requires
            reply is Failed || reply is Hash,
        ensures
            reply matches Reply::Failed(e) ==> s == DeleteStep::<X>::Done(Err(ZomeError::Host(e))),
            reply matches Reply::Hash(h) ==> s == DeleteStep::<X>::Done(Ok(h)),
    {
        match reply {
            Reply::Failed(e) => Step::Done(Err(ZomeError::Host(e))),
            Reply::Hash(h) => Step::Done(Ok(h)),
            _ => vstd::pervasive::unreached(),
        }
    }
}

/// The burner written where a link target has no record: named `ok`, with no
/// metadata.
pub fn placeholder_burner() -> (b: Burner)
    ensures
        b.name@ == seq!['o', 'k'],
        b.metadata@ == Map::<String, String>::empty(),
{
    let name = String::from_str("ok");
    proof {
        reveal_strlit("ok");
    }
    Burner { name, metadata: BTreeMap::new() }
}

/// The id of a link target: it asks for the target's details; a record gives
/// its action hash; anything else (no details, or details of an entry) leads
/// to writing a placeholder burner, whose action hash is the answer.
pub enum HashFromLinkTarget {
    AwaitDetails,
    AwaitPlaceholder,
}

/// The steps of a link target's id.
pub type HashStep<X> = Step<HashFromLinkTarget, Address, X>;

/// The first step of a link target's id: its details.
pub fn get_hash_from_link_target<X>(target_hash: Address) -> (s: HashStep<X>)
    ensures
        s matches Step::Ask(HashFromLinkTarget::AwaitDetails, Call::GetDetails { hash }) && hash == target_hash,
{
    Step::Ask(HashFromLinkTarget::AwaitDetails, Call::GetDetails { hash: target_hash })
}

impl HashFromLinkTarget {
    /// The kind of reply the read waits for.
    pub open spec fn expects<R, X>(self, reply: Reply<R, X>) -> bool {
        reply is Failed || (self is AwaitDetails && reply is Details) || (self is AwaitPlaceholder && reply is Hash)
    }

    /// Resumes the read with the host's reply.
    pub fn resume<R, X>(self, reply: Reply<R, X>) -> (s: HashStep<X>)
        requires
            self.expects(reply),
        ensures
            reply matches Reply::Failed(e) ==> s == HashStep::<X>::Done(Err(ZomeError::Host(e))),
            reply matches Reply::Details(Some(DetailsInfo::Record { record, .. })) ==> s == HashStep::<X>::Done(Ok(record.action_hash)),
            (reply is Details && !(reply matches Reply::Details(Some(DetailsInfo::Record { .. })))) ==> (
                s matches Step::Ask(HashFromLinkTarget::AwaitPlaceholder, Call::CreateEntry { entry: EntryTypes::Burner(b) })
                    && b.name@ == seq!['o', 'k'] && b.metadata@ == Map::<String, String>::empty()),
            reply matches Reply::Hash(h) ==> s == HashStep::<X>::Done(Ok(h)),
    {
        match reply {
            Reply::Failed(e) => Step::Done(Err(ZomeError::Host(e))),
            Reply::Details(Some(DetailsInfo::Record { record, .. })) => Step::Done(Ok(record.action_hash)),
            Reply::Details(_) => Step::Ask(
                HashFromLinkTarget::AwaitPlaceholder,
                Call::CreateEntry { entry: EntryTypes::Burner(placeholder_burner()) },
            ),
            Reply::Hash(h) => Step::Done(Ok(h)),
            _ => vstd::pervasive::unreached(),
        }
    }
}

/// Where a listing of every burner stands.
pub enum GetAllBurners {
    AwaitPathHash,
    AwaitLinks,
    /// Reading the burner that `links[next]` points at.
    Reading { links: Vec<LinkInfo>, next: usize, burners: Vec<Burner> },
    /// Finding the id of the target of `links[next]`.
    Naming { links: Vec<LinkInfo>, burners: Vec<Burner>, next: usize, ids: Vec<Address>, naming: HashFromLinkTarget },
}

/// The steps of a listing of every burner.
pub type AllStep<X> = Step<GetAllBurners, Connection, X>;

/// The first step of a listing of every burner: the hash of the
/// `all_burners` path.
pub fn get_all_burners<X>() -> (s: AllStep<X>)
    ensures
        s matches Step::Ask(GetAllBurners::AwaitPathHash, Call::PathEntryHash { path })
            && path.deep_view() == text_path(burners_root()),
{
    Step::Ask(GetAllBurners::AwaitPathHash, Call::PathEntryHash { path: burners_path() })
}

/// The listing reads the burner at the target of `links[next]`, with the
/// burners read so far.
pub open spec fn reads<X>(s: AllStep<X>, links: Seq<LinkInfo>, next: int, burners: Seq<Burner>) -> bool {
    &&& s matches Step::Ask(GetAllBurners::Reading { links: l, next: n, burners: b }, Call::GetBurner { hash })
    &&& l@ == links && n == next && b@ == burners && hash@ == links[next].target@
}

/// The listing asks for the details of the target of `links[next]`, to name
/// it, with the ids found so far.
pub open spec fn names<X>(s: AllStep<X>, links: Seq<LinkInfo>, burners: Seq<Burner>, next: int, ids: Seq<Address>) -> bool {
    &&& s matches Step::Ask(GetAllBurners::Naming { links: l, burners: b, next: n, ids: i, naming }, Call::GetDetails { hash })
    &&& l@ == links && b@ == burners && n == next && i@ == ids && naming is AwaitDetails
    &&& hash@ == links[next].target@
}

impl GetAllBurners {
    pub open spec fn wf(self) -> bool {
        match self {
            GetAllBurners::Reading { links, next, burners } => next < links@.len() && burners@.len() == next,
            GetAllBurners::Naming { links, burners, next, ids, .. } =>
                next < links@.len() && burners@.len() == links@.len() && ids@.len() == next,
            _ => true,
        }
    }

    /// The kind of reply the listing waits for.
    pub open spec fn expects<R, X>(self, reply: Reply<R, X>) -> bool {
        reply is Failed || match self {
            GetAllBurners::AwaitPathHash => reply is Hash,
            GetAllBurners::AwaitLinks => reply is Links,
            GetAllBurners::Reading { .. } => reply is Burner,
            GetAllBurners::Naming { naming, .. } => naming.expects(reply),
        }
    }

    /// Where the listing cannot go on (the handler insists that every link
    /// target has a record): a target without a record.
    pub open spec fn stuck<R, X>(self, reply: Reply<R, X>) -> bool {
        self is Reading && reply == Reply::<R, X>::Burner(None)
    }

    /// Whether the listing cannot go on with this reply.
    pub fn is_stuck<R, X>(&self, reply: &Reply<R, X>) -> (r: bool)
        ensures
            r == self.stuck(*reply),
    {
        match (self, reply) {
            (GetAllBurners::Reading { .. }, Reply::Burner(None)) => true,
            _ => false,
        }
    }

    /// Resumes the listing with the host's reply: it reads every linked
    /// burner, in link order, then finds the id of every link target, in link
    /// order, and answers the listing of the burners with their ids. A host
    /// error, or a target that holds no burner, ends it.
    pub fn resume<R, X>(self, reply: Reply<R, X>) -> (s: AllStep<X>)
        requires
            self.wf(),
            self.expects(reply),
            !self.stuck(reply),
        ensures
            s matches Step::Ask(m, _) ==> m.wf(),
            !(self is Naming) ==> (reply matches Reply::Failed(e) ==> s == AllStep::<X>::Done(Err(ZomeError::Host(e)))),
            self is AwaitPathHash ==> (reply matches Reply::Hash(p) ==>
                s matches Step::Ask(GetAllBurners::AwaitLinks, Call::GetLinks { base, link_type }) && base == p && link_type is None),
            self is AwaitLinks ==> (reply matches Reply::Links(links) ==> if links@.len() == 0 {
                s matches Step::Done(Ok(c)) && c.lists(Seq::empty(), Seq::empty())
            } else {
                reads(s, links@, 0, Seq::empty())
            }),
            self matches GetAllBurners::Reading { links, next, burners } ==> (reply matches Reply::Burner(Some((_, found))) ==> match found {
                None => s == AllStep::<X>::Done(Err(ZomeError::NotABurner)),
                Some(b) => if next + 1 == links@.len() {
                    names(s, links@, burners@.push(b), 0, Seq::empty())
                } else {
                    reads(s, links@, next + 1, burners@.push(b))
                },
            }),
            self matches GetAllBurners::Naming { links, burners, next, ids, naming } ==> match reply {
                Reply::Failed(e) => s == AllStep::<X>::Done(Err(ZomeError::Host(e))),
                Reply::Details(Some(DetailsInfo::Record { record, .. })) => if next + 1 == links@.len() {
                    s matches Step::Done(Ok(c)) && c.lists(burners@, ids@.push(record.action_hash))
                } else {
                    names(s, links@, burners@, next + 1, ids@.push(record.action_hash))
                },
                Reply::Details(_) => s matches Step::Ask(GetAllBurners::Naming { links: l, burners: b, next: n, ids: i, naming: m }, Call::CreateEntry { entry: EntryTypes::Burner(p) })
                    && l@ == links@ && b@ == burners@ && n == next && i@ == ids@ && m is AwaitPlaceholder
                    && p.name@ == seq!['o', 'k'] && p.metadata@ == Map::<String, String>::empty(),
                Reply::Hash(h) => if next + 1 == links@.len() {
                    s matches Step::Done(Ok(c)) && c.lists(burners@, ids@.push(h))
                } else {
                    names(s, links@, burners@, next + 1, ids@.push(h))
                },
                _ => false,
            },
    {
        match self {
            GetAllBurners::AwaitPathHash => match reply {
                Reply::Failed(e) => Step::Done(Err(ZomeError::Host(e))),
                Reply::Hash(p) => Step::Ask(GetAllBurners::AwaitLinks, Call::GetLinks { base: p, link_type: None }),
                _ => vstd::pervasive::unreached(),
            },
            GetAllBurners::AwaitLinks => match reply {
                Reply::Failed(e) => Step::Done(Err(ZomeError::Host(e))),
                Reply::Links(links) => {
                    if links.len() == 0 {
                        let c = Connection::new(Vec::new(), Vec::new());
                        return Step::Done(Ok(c));
                    }
                    let burners: Vec<Burner> = Vec::new();
                    assert(burners@ =~= Seq::<Burner>::empty());
                    Self::read(links, 0, burners)
                },
                _ => vstd::pervasive::unreached(),
            },
            GetAllBurners::Reading { links, next, burners } => match reply {
                Reply::Failed(e) => Step::Done(Err(ZomeError::Host(e))),
                Reply::Burner(Some((_, None))) => Step::Done(Err(ZomeError::NotABurner)),
                Reply::Burner(Some((_, Some(b)))) => {
                    let mut burners = burners;
                    burners.push(b);
                    let n = links.len();
                    if next + 1 == n {
                        let ids: Vec<Address> = Vec::new();
                        assert(ids@ =~= Seq::<Address>::empty());
                        Self::name(links, burners, 0, ids)
                    } else {
                        Self::read(links, next + 1, burners)
                    }
                },
                _ => vstd::pervasive::unreached(),
            },
            GetAllBurners::Naming { links, burners, next, ids, naming } => match naming.resume(reply) {
                Step::Ask(naming, call) => Step::Ask(GetAllBurners::Naming { links, burners, next, ids, naming }, call),
                Step::Done(Err(e)) => Step::Done(Err(e)),
                Step::Done(Ok(id)) => {
                    let mut ids = ids;
                    ids.push(id);
                    let n = links.len();
                    if next + 1 == n {
                        Step::Done(Ok(Connection::new(burners, ids)))
                    } else {
                        Self::name(links, burners, next + 1, ids)
                    }
                },
            },
        }
    }

    /// Reads the burner at the target of `links[next]`.
    fn read<X>(links: Vec<LinkInfo>, next: usize, burners: Vec<Burner>) -> (s: AllStep<X>)
        requires
            next < links@.len(),
            burners@.len() == next,
        ensures
            reads(s, links@, next as int, burners@),
            s matches Step::Ask(m, _) ==> m.wf(),
    {
        let hash = links[next].target.copied();
        Step::Ask(GetAllBurners::Reading { links, next, burners }, Call::GetBurner { hash })
    }

    /// Asks for the details of the target of `links[next]`, to name it.
    fn name<X>(links: Vec<LinkInfo>, burners: Vec<Burner>, next: usize, ids: Vec<Address>) -> (s: AllStep<X>)
        requires
            next < links@.len(),
            burners@.len() == links@.len(),
            ids@.len() == next,
        ensures
            names(s, links@, burners@, next as int, ids@),
            s matches Step::Ask(m, _) ==> m.wf(),
    {
        let target = links[next].target.copied();
        match get_hash_from_link_target::<X>(target) {
            Step::Ask(naming, call) => Step::Ask(GetAllBurners::Naming { links, burners, next, ids, naming }, call),
            Step::Done(_) => vstd::pervasive::unreached(),
        }
    }
}

/// The listing of every burner stops only on a link target that holds no
/// record; a host error ends it with that error rather than stopping it. Naming a target goes
/// on whatever its details are: a record gives its id, anything else leads to
/// the placeholder burner.
pub proof fn law_burner_listing_is_stuck_only_without_a_record<R, X>(m: GetAllBurners, reply: Reply<R, X>)
    ensures
        m.stuck(reply) ==> m is Reading && reply == Reply::<R, X>::Burner(None),
        reply is Failed ==> !m.stuck(reply),
        reply matches Reply::Burner(Some(_)) ==> !m.stuck(reply),
        m is Naming ==> !m.stuck(reply),
        m is AwaitPathHash || m is AwaitLinks ==> !m.stuck(reply),
{
}

/// What the host answers to a read of the entry `hash` as a burner, where it
/// keeps `kept`: each burner entry it keeps, by entry hash, with the action
/// that wrote it.
pub open spec fn burner_kept_at(kept: Map<Seq<u8>, (Address, Burner)>, hash: Seq<u8>) -> Option<(Address, Option<Burner>)> {
    if kept.contains_key(hash) {
        Some((kept[hash].0, Some(kept[hash].1)))
    } else {
        None
    }
}

/// A created burner reads back as itself: once the host keeps the burner that a
/// creation wrote at the entry hash that the creation answered, a read of
/// that hash answers that burner, whatever the host kept at other hashes since.
pub proof fn law_created_burner_reads_back<X>(
    kept: Map<Seq<u8>, (Address, Burner)>,
    created: GraphQLCreatePayload,
    burner: Burner,
    later: Map<Seq<u8>, (Address, Burner)>,
)
    requires
        !later.contains_key(created.payload.entry_hash@),
    ensures
        read_burner::<X>(burner_kept_at(
            kept.insert(created.payload.entry_hash@, (created.payload.header_hash, burner)).union_prefer_right(later),
            created.payload.entry_hash@,
        )) == Ok::<Option<Burner>, ZomeError<X>>(Some(burner)),
{
}

} // verus!
