//! Answering a query for links.
use vstd::prelude::*;
use crate::error::{HolochainError, HolochainErrorView};
use crate::network_state::{NetworkMessageView, NetworkState};
use crate::protocol::{QueryEntryData, QueryEntryResultDataView};

verus! {

/// Sends the answer to a query for links back to the one who asked, given
/// the serialized result of the query.
///
/// Exactly one answer is queued for the query, whatever the result holds:
/// an empty result is an answer too, so that nobody waits for one that
/// never comes. Only a session that does not know its space and its agent
/// queues nothing and fails.
pub fn reduce_respond_get_links_inner(
    network_state: &mut NetworkState,
    query_data: &QueryEntryData,
    query_result: Vec<u8>,
) -> (r: Result<(), HolochainError>)
    ensures
        r is Ok <==> old(network_state)@.initialized(),
        r is Ok ==> final(network_state)@ == old(network_state)@.queued(
            NetworkMessageView::HandleQueryEntryResult(
                QueryEntryResultDataView {
                    space_address: old(network_state)@.dna_address.unwrap(),
                    entry_address: query_data@.entry_address,
                    request_id: query_data@.request_id,
                    requester_agent_id: query_data@.requester_agent_id,
                    responder_agent_id: old(network_state)@.agent_id.unwrap(),
                    query_result: query_result@,
                },
            ),
        ),
        r is Ok ==> final(network_state)@.outbound.len() == old(network_state)@.outbound.len() + 1,
        r matches Err(e) ==> e@ == HolochainErrorView::NetworkUninitialized && final(
            network_state
        )@ == old(network_state)@,
{
    network_state.answer_query(
        query_data.request_id.clone(),
        query_data.requester_agent_id.clone(),
        query_data.entry_address.clone(),
        query_result,
    )
}

} // verus!
