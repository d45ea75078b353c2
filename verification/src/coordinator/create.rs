use vstd::prelude::*;
use vstd::utf8::*;
use crate::entries::{Burner, EntryTypes, LinkTypes};
use crate::hash::Address;
use crate::host::{copy_path, Call, RecordInfo, Reply, Step, ZomeError};
use crate::text::{has_bucket, law_bucket_is_three_whole_bytes, lowered_bytes, name_has_bucket, prefix_path, prefix_path_string, text_path};

verus! {

/// The creation of a burner for the calling agent. It asks, in turn: the
/// agent's key; the creation of the burner entry; that the burner's search
/// path (taken once the entry is created) exists; the hash of that path; a link from the path to the new action,
/// tagged with the burner's name; a link from the agent to the new action; and
/// the new record, which is the result.
pub enum CreateBurner {
    AwaitAgent { burner: Burner, name: String, tag: Vec<u8> },
    AwaitCreate { agent: Address, name: String, tag: Vec<u8> },
    AwaitEnsure { agent: Address, path: Vec<Vec<u8>>, tag: Vec<u8>, action: Address },
    AwaitPathHash { agent: Address, tag: Vec<u8>, action: Address },
    AwaitPathLink { agent: Address, action: Address },
    AwaitAgentLink { action: Address },
    AwaitRecord,
}

/// The steps of a burner creation.
pub type CreateStep<R, X> = Step<CreateBurner, RecordInfo<R>, X>;

impl CreateBurner {
    /// The hash of the action that created the burner, once the host has
    /// answered it.
    pub open spec fn created(self) -> Option<Seq<u8>> {
        match self {
            CreateBurner::AwaitAgent { .. } | CreateBurner::AwaitCreate { .. } | CreateBurner::AwaitRecord => None,
            CreateBurner::AwaitEnsure { action, .. } => Some(action@),
            CreateBurner::AwaitPathHash { action, .. } => Some(action@),
            CreateBurner::AwaitPathLink { action, .. } => Some(action@),
            CreateBurner::AwaitAgentLink { action } => Some(action@),
        }
    }

    /// The kind of reply the creation waits for in this state.
    pub open spec fn expects<R, X>(self, reply: Reply<R, X>) -> bool {
        reply is Failed || match self {
            CreateBurner::AwaitEnsure { .. } => reply is Done,
            CreateBurner::AwaitRecord => reply is Record,
            _ => reply is Hash,
        }
    }

    /// Where the creation cannot go on: the entry is created, and the name
    /// has no search bucket (see [`has_bucket`]).
    pub open spec fn stuck<R, X>(self, reply: Reply<R, X>) -> bool {
        self matches CreateBurner::AwaitCreate { name, .. } && reply is Hash && !has_bucket(name@)
    }

    /// Whether the creation cannot go on with this reply (see [`Self::stuck`]).
    pub fn is_stuck<R, X>(&self, reply: &Reply<R, X>) -> (r: bool)
        ensures
            r == self.stuck(*reply),
    {
        match (self, reply) {
            (CreateBurner::AwaitCreate { name, .. }, Reply::Hash(_)) => !name_has_bucket(name.as_str()),
            _ => false,
        }
    }

    /// What the creation does with a reply: a host error ends it with that
    /// error; any other reply leads to the next request, or to the result.
    pub open spec fn next<R, X>(self, reply: Reply<R, X>, s: CreateStep<R, X>) -> bool {
        match reply {
            Reply::Failed(e) => s == CreateStep::<R, X>::Done(Err(ZomeError::Host(e))),
            _ => match self {
                CreateBurner::AwaitAgent { burner, name, tag } => {
                    &&& reply matches Reply::Hash(agent)
                    &&& s matches Step::Ask(CreateBurner::AwaitCreate { agent: a, name: n, tag: t }, Call::CreateEntry { entry })
                    &&& a == agent && n == name && t == tag
                    &&& entry == EntryTypes::Burner(burner)
                },
                CreateBurner::AwaitCreate { agent, name, tag } => {
                    &&& reply matches Reply::Hash(created)
                    &&& s matches Step::Ask(CreateBurner::AwaitEnsure { agent: a, path: p, tag: t, action }, Call::EnsurePath { path: q, link_type })
                    &&& a == agent && t == tag && action == created
                    &&& p.deep_view() == text_path(prefix_path_string(name@))
                    &&& q.deep_view() == p.deep_view() && link_type == LinkTypes::PrefixPath
                },
                CreateBurner::AwaitEnsure { agent, path, tag, action } => {
                    &&& reply is Done
                    &&& s matches Step::Ask(CreateBurner::AwaitPathHash { agent: a, tag: t, action: h }, Call::PathEntryHash { path: p })
                    &&& a == agent && t == tag && h == action && p == path
                },
                CreateBurner::AwaitPathHash { agent, tag, action } => {
                    &&& reply matches Reply::Hash(path_hash)
                    &&& s matches Step::Ask(CreateBurner::AwaitPathLink { agent: a, action: h }, Call::CreateLink { base, target, link_type, tag: t })
                    &&& a == agent && h == action
                    &&& base == path_hash && target@ == action@ && link_type == LinkTypes::PathToBurner && t == tag
                },
                CreateBurner::AwaitPathLink { agent, action } => {
                    &&& reply is Hash
                    &&& s matches Step::Ask(CreateBurner::AwaitAgentLink { action: h }, Call::CreateLink { base, target, link_type, tag })
                    &&& h == action
                    &&& base == agent && target@ == action@ && link_type == LinkTypes::AgentToBurner && tag@ == Seq::<u8>::empty()
                },
                CreateBurner::AwaitAgentLink { action } => {
                    &&& reply is Hash
                    &&& s matches Step::Ask(CreateBurner::AwaitRecord, Call::Get { hash })
                    &&& hash == action
                },
                CreateBurner::AwaitRecord => {
                    &&& reply matches Reply::Record(found)
                    &&& match found {
                        None => s == CreateStep::<R, X>::Done(Err(ZomeError::Unreachable)),
                        Some(record) => s == CreateStep::<R, X>::Done(Ok(record)),
                    }
                },
            },
        }
    }

    /// Resumes the creation with the host's reply to its last request.
    pub fn resume<R, X>(self, reply: Reply<R, X>) -> (s: CreateStep<R, X>)
        requires
            self.expects(reply),
            !self.stuck(reply),
        ensures
            self.next(reply, s),
            // Every link asked for points at the action that created the burner.
            s matches Step::Ask(_, Call::CreateLink { target, .. }) ==> self.created() == Some(target@),
            // Once answered, the creating action stays the same.
            self.created() is Some ==> (s matches Step::Ask(m, _) ==> m.created() == self.created() || m is AwaitRecord),
    {
        if let Reply::Failed(e) = reply {
            return Step::Done(Err(ZomeError::Host(e)));
        }
        match self {
            CreateBurner::AwaitAgent { burner, name, tag } => match reply {
                Reply::Hash(agent) => Step::Ask(
                    CreateBurner::AwaitCreate { agent, name, tag },
                    Call::CreateEntry { entry: EntryTypes::Burner(burner) },
                ),
                _ => vstd::pervasive::unreached(),
            },
            CreateBurner::AwaitCreate { agent, name, tag } => match reply {
                Reply::Hash(action) => {
                    let path = prefix_path(name.as_str());
                    let q = copy_path(&path);
                    Step::Ask(
                        CreateBurner::AwaitEnsure { agent, path, tag, action },
                        Call::EnsurePath { path: q, link_type: LinkTypes::PrefixPath },
                    )
                },
                _ => vstd::pervasive::unreached(),
            },
            CreateBurner::AwaitEnsure { agent, path, tag, action } => Step::Ask(
                CreateBurner::AwaitPathHash { agent, tag, action },
                Call::PathEntryHash { path },
            ),
            CreateBurner::AwaitPathHash { agent, tag, action } => match reply {
                Reply::Hash(path_hash) => {
                    let target = action.copied();
                    Step::Ask(
                        CreateBurner::AwaitPathLink { agent, action },
                        Call::CreateLink { base: path_hash, target, link_type: LinkTypes::PathToBurner, tag },
                    )
                },
                _ => vstd::pervasive::unreached(),
            },
            CreateBurner::AwaitPathLink { agent, action } => {
                let target = action.copied();
                let tag: Vec<u8> = Vec::new();
                Step::Ask(
                    CreateBurner::AwaitAgentLink { action },
                    Call::CreateLink { base: agent, target, link_type: LinkTypes::AgentToBurner, tag },
                )
            },
            CreateBurner::AwaitAgentLink { action } => Step::Ask(CreateBurner::AwaitRecord, Call::Get { hash: action }),
            CreateBurner::AwaitRecord => match reply {
                Reply::Record(None) => Step::Done(Err(ZomeError::Unreachable)),
                Reply::Record(Some(record)) => Step::Done(Ok(record)),
                _ => vstd::pervasive::unreached(),
            },
        }
    }
}

impl CreateBurner {
    /// Resumes the creation where it can go on with the reply, and answers
    /// `None` where it cannot (see [`Self::stuck`]).
    pub fn try_resume<R, X>(self, reply: Reply<R, X>) -> (s: Option<CreateStep<R, X>>)
        requires
            self.expects(reply),
        ensures
            s is None <==> self.stuck(reply),
            s matches Some(step) ==> self.next(reply, step),
    {
        if self.is_stuck(&reply) {
            None
        } else {
            Some(self.resume(reply))
        }
    }
}

/// The creation stops only once the entry is written, and only for a name
/// whose lower-cased UTF-8 form is shorter than three bytes or splits a
/// character after its third byte. A name whose lower-cased form is three
/// bytes long (any three-letter name such as `Run`), or longer with a whole
/// character after the third byte, goes on to its search path: the creation
/// is not stuck and asks to ensure the path of `all_burners.<bucket>`.
pub proof fn law_create_is_stuck_only_without_a_bucket<R, X>(m: CreateBurner, reply: Reply<R, X>, s: CreateStep<R, X>)
    ensures
        m.stuck(reply) ==> (m matches CreateBurner::AwaitCreate { name, .. } && reply is Hash
            && (lowered_bytes(name@).len() < 3
                || (lowered_bytes(name@).len() > 3 && is_continuation_byte(lowered_bytes(name@)[3])))),
        m matches CreateBurner::AwaitCreate { name, .. } ==> (
            (lowered_bytes(name@).len() == 3
                || (lowered_bytes(name@).len() > 3 && !is_continuation_byte(lowered_bytes(name@)[3])))
            ==> !m.stuck(reply) && (reply is Hash && m.next(reply, s) ==> (s matches Step::Ask(_, Call::EnsurePath { path, .. })
                && path.deep_view() == text_path(prefix_path_string(name@))))),
{
    if let CreateBurner::AwaitCreate { name, .. } = m {
        law_bucket_is_three_whole_bytes(name@);
    }
}

/// The first step of a burner creation: asking for the agent's key. The tag
/// of its path link (the UTF-8 bytes of the name) is fixed here.
pub fn create_burner<R, X>(burner: Burner) -> (s: CreateStep<R, X>)
    ensures
        s matches Step::Ask(CreateBurner::AwaitAgent { burner: b, name, tag }, Call::AgentInfo)
            && b == burner && name@ == burner.name@
            && tag@ == encode_utf8(burner.name@),
{
    let name = burner.name.clone();
    let tag = vstd::slice::slice_to_vec(burner.name.as_str().as_bytes());
    Step::Ask(CreateBurner::AwaitAgent { burner, name, tag }, Call::AgentInfo)
}

} // verus!
