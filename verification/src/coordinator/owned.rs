use vstd::prelude::*;
use crate::coordinator::lookup::{last_with_action, links_if_any, my_burner_among};
use crate::entries::{DeleteResponse, LinkTypes};
use crate::hash::Address;
use crate::host::{Call, LinkInfo, RecordInfo, Reply, Step, ZomeError};

verus! {

/// A lookup of one of the caller's burners by the action that created it,
/// among the burner records of the caller's own source chain.
pub struct GetMyBurner {
    pub original: Address,
}

/// The steps of a burner lookup.
pub type GetMyBurnerStep<R, X> = Step<GetMyBurner, Option<RecordInfo<R>>, X>;

/// The first step of a lookup of the burner that `original` created: asking
/// for the burner records of the caller's own chain.
pub fn get_my_burner<R, X>(original: Address) -> (s: GetMyBurnerStep<R, X>)
    ensures
        s matches Step::Ask(m, Call::QueryBurners) && m.original == original,
{
    Step::Ask(GetMyBurner { original }, Call::QueryBurners)
}

impl GetMyBurner {
    /// Resumes the lookup with the chain's burner records: the result is the
    /// last of them created by the original action, if any.
    pub fn resume<R, X>(self, reply: Reply<R, X>) -> (s: GetMyBurnerStep<R, X>)
        requires
            reply is Failed || reply is Records,
        ensures
            reply matches Reply::Failed(e) ==> s == GetMyBurnerStep::<R, X>::Done(Err(ZomeError::Host(e))),
            reply matches Reply::Records(records) ==> s == GetMyBurnerStep::<R, X>::Done(
                Ok(last_with_action(records@, self.original@)),
            ),
    {
        match reply {
            Reply::Failed(e) => Step::Done(Err(ZomeError::Host(e))),
            Reply::Records(records) => Step::Done(Ok(my_burner_among(records, &self.original))),
            _ => vstd::pervasive::unreached(),
        }
    }
}

/// The deletion of one of the caller's burners: it asks for the burner records
/// of the caller's own chain, among which the original must be, then for the
/// deletion of the original (with strict chain-top ordering).
pub enum DeleteMyBurner {
    AwaitOwned { original: Address },
    AwaitDelete { original: Address },
}

/// The steps of a burner deletion.
pub type DeleteStep<X> = Step<DeleteMyBurner, Option<DeleteResponse>, X>;

/// The first step of the deletion of the burner that `original` created.
pub fn delete_my_burner<X>(original: Address) -> (s: DeleteStep<X>)
    ensures
        s matches Step::Ask(DeleteMyBurner::AwaitOwned { original: o }, Call::QueryBurners) && o == original,
{
    Step::Ask(DeleteMyBurner::AwaitOwned { original }, Call::QueryBurners)
}

impl DeleteMyBurner {
    /// The kind of reply the deletion waits for.
    pub open spec fn expects<R, X>(self, reply: Reply<R, X>) -> bool {
        reply is Failed || match self {
            DeleteMyBurner::AwaitOwned { .. } => reply is Records,
            DeleteMyBurner::AwaitDelete { .. } => reply is Hash,
        }
    }

    /// Resumes the deletion: a host error ends it with that error; without a
    /// record of the original on the caller's chain it fails with `NotOwned`
    /// and deletes nothing; otherwise it deletes exactly the original, and
    /// answers the delete action's hash with the original's.
    pub fn resume<R, X>(self, reply: Reply<R, X>) -> (s: DeleteStep<X>)
        requires
            self.expects(reply),
        ensures
            reply matches Reply::Failed(e) ==> s == DeleteStep::<X>::Done(Err(ZomeError::Host(e))),
            self matches DeleteMyBurner::AwaitOwned { original } ==> (reply matches Reply::Records(records) ==> {
                if last_with_action(records@, original@) is None {
                    s == DeleteStep::<X>::Done(Err(ZomeError::NotOwned))
                } else {
                    s matches Step::Ask(DeleteMyBurner::AwaitDelete { original: o }, Call::DeleteEntry { original: d })
                        && o == original && d@ == original@
                }
            }),
            self matches DeleteMyBurner::AwaitDelete { original } ==> (reply matches Reply::Hash(deleted) ==>
                s == DeleteStep::<X>::Done(Ok(Some(DeleteResponse { delete_action_hash: deleted, original_action_hash: original })))),
    {
        if let Reply::Failed(e) = reply {
            return Step::Done(Err(ZomeError::Host(e)));
        }
        match self {
            DeleteMyBurner::AwaitOwned { original } => match reply {
                Reply::Records(records) => match my_burner_among(records, &original) {
                    None => Step::Done(Err(ZomeError::NotOwned)),
                    Some(_) => {
                        let d = original.copied();
                        Step::Ask(DeleteMyBurner::AwaitDelete { original }, Call::DeleteEntry { original: d })
                    },
                },
                _ => vstd::pervasive::unreached(),
            },
            DeleteMyBurner::AwaitDelete { original } => match reply {
                Reply::Hash(deleted) => Step::Done(Ok(Some(DeleteResponse {
                    delete_action_hash: deleted,
                    original_action_hash: original,
                }))),
                _ => vstd::pervasive::unreached(),
            },
        }
    }
}

/// A read of the caller's links to its burners: the agent's key, then its
/// burner links, `None` when there is none.
pub enum AgentBurnerLinks {
    AwaitAgent,
    AwaitLinks,
}

/// The steps of a read of the agent's burner links.
pub type AgentLinksStep<X> = Step<AgentBurnerLinks, Option<Vec<LinkInfo>>, X>;

/// The first step of a read of the caller's burner links.
pub fn agent_to_burner_links<X>() -> (s: AgentLinksStep<X>)
    ensures
        s matches Step::Ask(AgentBurnerLinks::AwaitAgent, Call::AgentInfo),
{
    Step::Ask(AgentBurnerLinks::AwaitAgent, Call::AgentInfo)
}

impl AgentBurnerLinks {
    /// Resumes the read: from the agent's key to its links of type
    /// `AgentToBurner`, and from those to the result.
    pub fn resume<R, X>(self, reply: Reply<R, X>) -> (s: AgentLinksStep<X>)
        requires
            reply is Failed || (self is AwaitAgent && reply is Hash) || (self is AwaitLinks && reply is Links),
        ensures
            reply matches Reply::Failed(e) ==> s == AgentLinksStep::<X>::Done(Err(ZomeError::Host(e))),
            reply matches Reply::Hash(agent) ==> s matches Step::Ask(AgentBurnerLinks::AwaitLinks, Call::GetLinks { base, link_type })
                && base == agent && link_type == Some(LinkTypes::AgentToBurner),
            reply matches Reply::Links(links) ==> (if links@.len() == 0 {
                s == AgentLinksStep::<X>::Done(Ok(None))
            } else {
                s == AgentLinksStep::<X>::Done(Ok(Some(links)))
            }),
    {
        match reply {
            Reply::Failed(e) => Step::Done(Err(ZomeError::Host(e))),
            Reply::Hash(agent) => Step::Ask(
                AgentBurnerLinks::AwaitLinks,
                Call::GetLinks { base: agent, link_type: Some(LinkTypes::AgentToBurner) },
            ),
            Reply::Links(links) => Step::Done(Ok(links_if_any(links))),
            _ => vstd::pervasive::unreached(),
        }
    }
}

} // verus!
