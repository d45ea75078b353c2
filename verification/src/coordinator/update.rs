use vstd::prelude::*;
use vstd::utf8::*;
use crate::coordinator::lookup::{creations_to, last_with_action, lemma_last_with_action_matches, link_creations_to, my_burner_among};
use crate::entries::{Burner, EntryTypes, LinkTypes, UpdateInput};
use crate::hash::Address;
use crate::host::{copy_path, Call, LinkInfo, RecordInfo, Reply, Step, ZomeError};
use crate::text::{has_bucket, law_bucket_is_three_whole_bytes, lowered_bytes, name_has_bucket, prefix_path, prefix_path_string, text_path};

verus! {

/// Where an update of a burner stands.
pub enum UpdatePhase {
    /// Waiting for the burner records of the caller's own chain.
    AwaitOwned { updated: Burner },
    /// Waiting for the update action.
    AwaitUpdate,
    /// Waiting for the new name's search path to exist.
    AwaitEnsure { action: Address },
    /// Waiting for the agent's key, to read its burner links.
    AwaitLinksAgent { action: Address },
    /// Waiting for the agent's burner links.
    AwaitAgentLinks { action: Address },
    /// Waiting for the removal of the agent's link to the original.
    AwaitUnlink { action: Address },
    /// Waiting for the agent's key, to link the update.
    AwaitAgent { action: Address },
    /// Waiting for the agent's link to the update.
    AwaitAgentLink { action: Address },
    /// Waiting for the hash of the search path.
    AwaitPathHash { action: Address },
    /// Waiting for the search path's link to the update.
    AwaitPathLink { action: Address },
    /// Waiting for the updated record.
    AwaitRecord,
}

/// The update of one of the caller's burners. It asks, in turn: the burner
/// records of the caller's own chain, among which the original must be; the
/// update of the original's entry; that the new name's search path exists; the
/// agent's key and its burner links; the removal of the first of those links
/// that points at the original; the agent's key again and a link from it to
/// the update; the hash of the search path and a link from it to the update,
/// tagged with the new name; and the updated record, which is the result.
pub struct UpdateBurner {
    /// The action that created the burner being updated.
    pub original: Address,
    /// The new name.
    pub name: String,
    /// The search path of the new name, once the update is written.
    pub path: Vec<Vec<u8>>,
    /// The tag of the path link: the new name's UTF-8 bytes.
    pub tag: Vec<u8>,
    pub phase: UpdatePhase,
}

/// The steps of a burner update.
pub type UpdateStep<R, X> = Step<UpdateBurner, RecordInfo<R>, X>;

impl UpdateBurner {
    /// The hash of the update action, once the host has answered it.
    pub open spec fn updated_action(self) -> Option<Seq<u8>> {
        match self.phase {
            UpdatePhase::AwaitOwned { .. } | UpdatePhase::AwaitUpdate | UpdatePhase::AwaitRecord => None,
            UpdatePhase::AwaitEnsure { action } => Some(action@),
            UpdatePhase::AwaitLinksAgent { action } => Some(action@),
            UpdatePhase::AwaitAgentLinks { action } => Some(action@),
            UpdatePhase::AwaitUnlink { action } => Some(action@),
            UpdatePhase::AwaitAgent { action } => Some(action@),
            UpdatePhase::AwaitAgentLink { action } => Some(action@),
            UpdatePhase::AwaitPathHash { action } => Some(action@),
            UpdatePhase::AwaitPathLink { action } => Some(action@),
        }
    }

    /// The kind of reply the update waits for in this phase.
    pub open spec fn expects<R, X>(self, reply: Reply<R, X>) -> bool {
        reply is Failed || match self.phase {
            UpdatePhase::AwaitOwned { .. } => reply is Records,
            UpdatePhase::AwaitEnsure { .. } => reply is Done,
            UpdatePhase::AwaitAgentLinks { .. } => reply is Links,
            UpdatePhase::AwaitRecord => reply is Record,
            _ => reply is Hash,
        }
    }

    /// Where the update cannot go on: the update is written, and the new name
    /// has no search bucket (see [`has_bucket`]).
    pub open spec fn stuck<R, X>(self, reply: Reply<R, X>) -> bool {
        self.phase is AwaitUpdate && reply is Hash && !has_bucket(self.name@)
    }

    /// Whether the update cannot go on with this reply (see [`Self::stuck`]).
    pub fn is_stuck<R, X>(&self, reply: &Reply<R, X>) -> (r: bool)
        ensures
            r == self.stuck(*reply),
    {
        match (&self.phase, reply) {
            (UpdatePhase::AwaitUpdate, Reply::Hash(_)) => !name_has_bucket(self.name.as_str()),
            _ => false,
        }
    }

    /// Once the update is written, the path is the new name's search path.
    pub open spec fn wf(self) -> bool {
        !(self.phase is AwaitOwned || self.phase is AwaitUpdate)
            ==> self.path.deep_view() == text_path(prefix_path_string(self.name@))
    }

    /// The next state keeps the original, the name and the tag.
    pub open spec fn keeps_names(self, m: UpdateBurner) -> bool {
        m.original@ == self.original@ && m.name@ == self.name@ && m.tag@ == self.tag@
    }

    /// The next state keeps the original, the name, the tag and the path.
    pub open spec fn keeps_frame(self, m: UpdateBurner) -> bool {
        self.keeps_names(m) && m.path.deep_view() == self.path.deep_view()
    }

    /// What the update does with a reply: a host error ends it with that
    /// error; any other reply leads to the next request, or to the result.
    pub open spec fn next<R, X>(self, reply: Reply<R, X>, s: UpdateStep<R, X>) -> bool {
        match reply {
            Reply::Failed(e) => s == UpdateStep::<R, X>::Done(Err(ZomeError::Host(e))),
            _ => match self.phase {
                UpdatePhase::AwaitOwned { updated } => {
                    &&& reply matches Reply::Records(records)
                    &&& match last_with_action(records@, self.original@) {
                        None => s == UpdateStep::<R, X>::Done(Err(ZomeError::NotOwned)),
                        Some(record) => {
                            &&& s matches Step::Ask(m, Call::UpdateEntry { original, entry })
                            &&& self.keeps_frame(m) && m.phase is AwaitUpdate
                            &&& original == record.action_hash
                            &&& entry == EntryTypes::Burner(updated)
                        },
                    }
                },
                UpdatePhase::AwaitUpdate => {
                    &&& reply matches Reply::Hash(action)
                    &&& s matches Step::Ask(m, Call::EnsurePath { path, link_type })
                    &&& self.keeps_names(m) && m.phase == (UpdatePhase::AwaitEnsure { action })
                    &&& m.path.deep_view() == text_path(prefix_path_string(self.name@))
                    &&& path.deep_view() == m.path.deep_view() && link_type == LinkTypes::PrefixPath
                },
                UpdatePhase::AwaitEnsure { action } => {
                    &&& reply is Done
                    &&& s matches Step::Ask(m, Call::AgentInfo)
                    &&& self.keeps_frame(m) && m.phase == (UpdatePhase::AwaitLinksAgent { action })
                },
                UpdatePhase::AwaitLinksAgent { action } => {
                    &&& reply matches Reply::Hash(agent)
                    &&& s matches Step::Ask(m, Call::GetLinks { base, link_type })
                    &&& self.keeps_frame(m) && m.phase == (UpdatePhase::AwaitAgentLinks { action })
                    &&& base == agent && link_type == Some(LinkTypes::AgentToBurner)
                },
                UpdatePhase::AwaitAgentLinks { action } => {
                    &&& reply matches Reply::Links(links)
                    &&& if creations_to(links@, self.original@).len() == 0 {
                        &&& s matches Step::Ask(m, Call::AgentInfo)
                        &&& self.keeps_frame(m) && m.phase == (UpdatePhase::AwaitAgent { action })
                    } else {
                        &&& s matches Step::Ask(m, Call::DeleteLink { address })
                        &&& self.keeps_frame(m) && m.phase == (UpdatePhase::AwaitUnlink { action })
                        &&& address@ == creations_to(links@, self.original@)[0]
                    }
                },
                UpdatePhase::AwaitUnlink { action } => {
                    &&& reply is Hash
                    &&& s matches Step::Ask(m, Call::AgentInfo)
                    &&& self.keeps_frame(m) && m.phase == (UpdatePhase::AwaitAgent { action })
                },
                UpdatePhase::AwaitAgent { action } => {
                    &&& reply matches Reply::Hash(agent)
                    &&& s matches Step::Ask(m, Call::CreateLink { base, target, link_type, tag })
                    &&& self.keeps_frame(m)
                    &&& m.phase matches UpdatePhase::AwaitAgentLink { action: a } && a@ == action@
                    &&& base == agent && target@ == action@ && link_type == LinkTypes::AgentToBurner
                    &&& tag@ == Seq::<u8>::empty()
                },
                UpdatePhase::AwaitAgentLink { action } => {
                    &&& reply is Hash
                    &&& s matches Step::Ask(m, Call::PathEntryHash { path })
                    &&& self.keeps_frame(m) && m.phase == (UpdatePhase::AwaitPathHash { action })
                    &&& path.deep_view() == self.path.deep_view()
                },
                UpdatePhase::AwaitPathHash { action } => {
                    &&& reply matches Reply::Hash(path_hash)
                    &&& s matches Step::Ask(m, Call::CreateLink { base, target, link_type, tag })
                    &&& self.keeps_frame(m)
                    &&& m.phase matches UpdatePhase::AwaitPathLink { action: a } && a@ == action@
                    &&& base == path_hash && target@ == action@ && link_type == LinkTypes::PathToBurner
                    &&& tag@ == self.tag@
                },
                UpdatePhase::AwaitPathLink { action } => {
                    &&& reply is Hash
                    &&& s matches Step::Ask(m, Call::Get { hash })
                    &&& self.keeps_frame(m) && m.phase is AwaitRecord
                    &&& hash == action
                },
                UpdatePhase::AwaitRecord => {
                    &&& reply matches Reply::Record(found)
                    &&& match found {
                        None => s == UpdateStep::<R, X>::Done(Err(ZomeError::Unreachable)),
                        Some(record) => s == UpdateStep::<R, X>::Done(Ok(record)),
                    }
                },
            },
        }
    }

    /// Resumes the update with the host's reply to its last request.
    pub fn resume<R, X>(self, reply: Reply<R, X>) -> (s: UpdateStep<R, X>)
        requires
            self.wf(),
            self.expects(reply),
            !self.stuck(reply),
        ensures
            self.next(reply, s),
            s matches Step::Ask(m, _) ==> m.wf(),
            // The entry updated is the original, found on the caller's own chain.
            s matches Step::Ask(_, Call::UpdateEntry { original, .. }) ==> original@ == self.original@,
            // The link removed points at the original.
            s matches Step::Ask(_, Call::DeleteLink { address }) ==> reply matches Reply::Links(links)
                && exists|i: int| 0 <= i < links@.len() && links@[i].target@ == self.original@
                    && #[trigger] links@[i].create_link_hash@ == address@,
            // Every link created points at the update action.
            s matches Step::Ask(_, Call::CreateLink { target, .. }) ==> self.updated_action() == Some(target@),
    {
        let UpdateBurner { original, name, tag, path, phase } = self;
        if let Reply::Failed(e) = reply {
            return Step::Done(Err(ZomeError::Host(e)));
        }
        match phase {
            UpdatePhase::AwaitOwned { updated } => match reply {
                Reply::Records(records) => {
                    let ghost all = records@;
                    match my_burner_among(records, &original) {
                        None => Step::Done(Err(ZomeError::NotOwned)),
                        Some(record) => {
                            proof { lemma_last_with_action_matches(all, original@); }
                            Step::Ask(
                                UpdateBurner { original, name, tag, path, phase: UpdatePhase::AwaitUpdate },
                                Call::UpdateEntry { original: record.action_hash, entry: EntryTypes::Burner(updated) },
                            )
                        },
                    }
                },
                _ => vstd::pervasive::unreached(),
            },
            UpdatePhase::AwaitUpdate => match reply {
                Reply::Hash(action) => {
                    let path = prefix_path(name.as_str());
                    let q = copy_path(&path);
                    Step::Ask(
                        UpdateBurner { original, name, tag, path, phase: UpdatePhase::AwaitEnsure { action } },
                        Call::EnsurePath { path: q, link_type: LinkTypes::PrefixPath },
                    )
                },
                _ => vstd::pervasive::unreached(),
            },
            UpdatePhase::AwaitEnsure { action } => Step::Ask(
                UpdateBurner { original, name, tag, path, phase: UpdatePhase::AwaitLinksAgent { action } },
                Call::AgentInfo,
            ),
            UpdatePhase::AwaitLinksAgent { action } => match reply {
                Reply::Hash(agent) => Step::Ask(
                    UpdateBurner { original, name, tag, path, phase: UpdatePhase::AwaitAgentLinks { action } },
                    Call::GetLinks { base: agent, link_type: Some(LinkTypes::AgentToBurner) },
                ),
                _ => vstd::pervasive::unreached(),
            },
            UpdatePhase::AwaitAgentLinks { action } => match reply {
                Reply::Links(links) => {
                    let to_delete = link_creations_to(&links, &original);
                    if to_delete.len() == 0 {
                        return Step::Ask(
                            UpdateBurner { original, name, tag, path, phase: UpdatePhase::AwaitAgent { action } },
                            Call::AgentInfo,
                        );
                    }
                    proof {
                        assert(to_delete@.map_values(|a: Address| a@).len() == to_delete@.len());
                        assert(to_delete@.map_values(|a: Address| a@)[0] == to_delete@[0]@);
                        lemma_creations_to_come_from(links@, original@, 0);
                    }
                    let address = to_delete[0].copied();
                    Step::Ask(
                        UpdateBurner { original, name, tag, path, phase: UpdatePhase::AwaitUnlink { action } },
                        Call::DeleteLink { address },
                    )
                },
                _ => vstd::pervasive::unreached(),
            },
            UpdatePhase::AwaitUnlink { action } => Step::Ask(
                UpdateBurner { original, name, tag, path, phase: UpdatePhase::AwaitAgent { action } },
                Call::AgentInfo,
            ),
            UpdatePhase::AwaitAgent { action } => match reply {
                Reply::Hash(agent) => {
                    let target = action.copied();
                    let empty: Vec<u8> = Vec::new();
                    Step::Ask(
                        UpdateBurner { original, name, tag, path, phase: UpdatePhase::AwaitAgentLink { action } },
                        Call::CreateLink { base: agent, target, link_type: LinkTypes::AgentToBurner, tag: empty },
                    )
                },
                _ => vstd::pervasive::unreached(),
            },
            UpdatePhase::AwaitAgentLink { action } => {
                let q = copy_path(&path);
                Step::Ask(
                    UpdateBurner { original, name, tag, path, phase: UpdatePhase::AwaitPathHash { action } },
                    Call::PathEntryHash { path: q },
                )
            },
            UpdatePhase::AwaitPathHash { action } => match reply {
                Reply::Hash(path_hash) => {
                    let target = action.copied();
                    let link_tag = tag.clone();
                    assert(link_tag@ =~= tag@);
                    Step::Ask(
                        UpdateBurner { original, name, tag, path, phase: UpdatePhase::AwaitPathLink { action } },
                        Call::CreateLink { base: path_hash, target, link_type: LinkTypes::PathToBurner, tag: link_tag },
                    )
                },
                _ => vstd::pervasive::unreached(),
            },
            UpdatePhase::AwaitPathLink { action } => Step::Ask(
                UpdateBurner { original, name, tag, path, phase: UpdatePhase::AwaitRecord },
                Call::Get { hash: action },
            ),
            UpdatePhase::AwaitRecord => match reply {
                Reply::Record(None) => Step::Done(Err(ZomeError::Unreachable)),
                Reply::Record(Some(record)) => Step::Done(Ok(record)),
                _ => vstd::pervasive::unreached(),
            },
        }
    }
}

impl UpdateBurner {
    /// Resumes the update where it can go on with the reply, and answers
    /// `None` where it cannot (see [`Self::stuck`]).
    pub fn try_resume<R, X>(self, reply: Reply<R, X>) -> (s: Option<UpdateStep<R, X>>)
        requires
            self.wf(),
            self.expects(reply),
        ensures
            s is None <==> self.stuck(reply),
            s matches Some(step) ==> self.next(reply, step) && (step matches Step::Ask(m, _) ==> m.wf()),
    {
        if self.is_stuck(&reply) {
            None
        } else {
            Some(self.resume(reply))
        }
    }
}

/// The update stops only once it is written, and only for a new name whose
/// lower-cased UTF-8 form is shorter than three bytes or splits a character
/// after its third byte. A new name whose lower-cased form is three bytes
/// long (any three-letter name such as `Gym`), or longer with a whole
/// character after the third byte, goes on to its search path: the update is
/// not stuck and asks to ensure the path of `all_burners.<bucket>`.
pub proof fn law_update_is_stuck_only_without_a_bucket<R, X>(m: UpdateBurner, reply: Reply<R, X>, s: UpdateStep<R, X>)
    ensures
        m.stuck(reply) ==> (m.phase is AwaitUpdate && reply is Hash
            && (lowered_bytes(m.name@).len() < 3
                || (lowered_bytes(m.name@).len() > 3 && is_continuation_byte(lowered_bytes(m.name@)[3])))),
        (lowered_bytes(m.name@).len() == 3
            || (lowered_bytes(m.name@).len() > 3 && !is_continuation_byte(lowered_bytes(m.name@)[3])))
            ==> !m.stuck(reply) && (m.phase is AwaitUpdate && reply is Hash && m.next(reply, s)
                ==> (s matches Step::Ask(_, Call::EnsurePath { path, .. })
                    && path.deep_view() == text_path(prefix_path_string(m.name@)))),
{
    law_bucket_is_three_whole_bytes(m.name@);
}

/// Every creation hash that [`creations_to`] lists is that of a link pointing
/// at the target.
pub proof fn lemma_creations_to_come_from(links: Seq<LinkInfo>, target: Seq<u8>, k: int)
    requires
        0 <= k < creations_to(links, target).len(),
    ensures
        exists|i: int| 0 <= i < links.len() && links[i].target@ == target
            && #[trigger] links[i].create_link_hash@ == creations_to(links, target)[k],
    decreases links.len(),
{
    let rest = links.drop_last();
    if links.last().target@ == target && k == creations_to(rest, target).len() {
        assert(links[links.len() - 1].create_link_hash@ == creations_to(links, target)[k]);
    } else {
        lemma_creations_to_come_from(rest, target, k);
        let i = choose|i: int| 0 <= i < rest.len() && rest[i].target@ == target
            && #[trigger] rest[i].create_link_hash@ == creations_to(rest, target)[k];
        assert(links[i] == rest[i]);
    }
}

/// The first step of an update of a burner: asking for the burner records of
/// the caller's own chain. The tag of the new path link (the new name's UTF-8
/// bytes) is fixed here.
pub fn update_burner<R, X>(input: UpdateInput<Burner>) -> (s: UpdateStep<R, X>)
    ensures
        s matches Step::Ask(m, Call::QueryBurners)
            && m.original == input.original_action_hash
            && m.phase == (UpdatePhase::AwaitOwned { updated: input.updated })
            && m.name@ == input.updated.name@
            && m.tag@ == encode_utf8(input.updated.name@)
            && m.wf(),
{
    let UpdateInput { original_action_hash, updated } = input;
    let name = updated.name.clone();
    let tag = vstd::slice::slice_to_vec(updated.name.as_str().as_bytes());
    let path: Vec<Vec<u8>> = Vec::new();
    Step::Ask(
        UpdateBurner { original: original_action_hash, name, tag, path, phase: UpdatePhase::AwaitOwned { updated } },
        Call::QueryBurners,
    )
}

} // verus!
