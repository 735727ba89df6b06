//! The workflow that removes a link.
use vstd::prelude::*;
use crate::chain_pair::ChainPair;
use crate::entry::EntryBody;
use crate::error::{HolochainError, HolochainErrorView};
use crate::text::opt_text;
use crate::workflows::{HoldingWorkflow, HoldingWorkflowView, ValidatingWorkflow};

verus! {

/// Starts the workflow that removes a link: the chain pair must hold a link
/// removal.
///
/// The workflow gets hold of the validation package, has the removal
/// validated as data about other data, has the link removed, and then holds
/// the removal itself as an entry, so that queries for links can be
/// answered without asking the network again.
pub fn remove_link_workflow(chain_pair: ChainPair, agent: Option<String>) -> (r: Result<
    HoldingWorkflow,
    HolochainError,
>)
    ensures
        r is Ok <==> chain_pair@.entry.body is LinkRemove,
        r matches Ok(w) ==> w@ == HoldingWorkflowView::started(
            chain_pair@,
            ValidatingWorkflow::RemoveLink,
            opt_text(agent),
        ),
        r matches Err(e) ==> e@ == HolochainErrorView::ErrorGeneric(
            "remove_link_workflow expects entry to be an Entry::LinkRemove"@,
        ),
{
    let is_link_remove = match &chain_pair.entry().body {
        EntryBody::LinkRemove(_, _) => true,
        _ => false,
    };
    if is_link_remove {
        Ok(HoldingWorkflow::start(chain_pair, ValidatingWorkflow::RemoveLink, agent))
    } else {
        Err(
            HolochainError::ErrorGeneric(
                String::from_str("remove_link_workflow expects entry to be an Entry::LinkRemove"),
            ),
        )
    }
}

} // verus!
