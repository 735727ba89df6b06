//! Publishing an entry: which aspects go out, and at which addresses.
use vstd::prelude::*;
use crate::chain_pair::{ChainPair, ChainPairView};
use crate::entry::{EntryBody, EntryBodyView, EntryType, entry_type_name};
use crate::entry_aspect::{EntryAspect, EntryAspectView};
use crate::error::{HolochainError, HolochainErrorView, error_text};
use crate::text::clone_texts;
use crate::network_state::{
    NetworkActionResponse, NetworkActionResponseView, NetworkMessageView, NetworkState,
    NetworkStateView, PublishRequestView,
};

verus! {

/// How an entry stands after an update or a deletion.
#[derive(Clone, Copy, PartialEq, Eq, Structural, Debug)]
pub enum CrudStatus {
    Live,
    Rejected,
    Deleted,
    Modified,
    Locked,
}

/// The name of a status.
pub open spec fn crud_status_name(status: CrudStatus) -> Seq<char> {
    match status {
        CrudStatus::Live => "Live"@,
        CrudStatus::Rejected => "Rejected"@,
        CrudStatus::Deleted => "Deleted"@,
        CrudStatus::Modified => "Modified"@,
        CrudStatus::Locked => "Locked"@,
    }
}

/// The view of a chain pair that was looked up, or of the failure to find it.
pub open spec fn lookup_view(lookup: Result<ChainPair, HolochainError>) -> Result<
    ChainPairView,
    HolochainErrorView,
> {
    match lookup {
        Ok(pair) => Ok(pair@),
        Err(e) => Err(e@),
    }
}

/// The aspect that tells other nodes of an update or a deletion, if the
/// status is one of the two.
pub open spec fn crud_aspect(status: CrudStatus, pair: ChainPairView) -> Option<EntryAspectView> {
    match status {
        CrudStatus::Modified => Some(EntryAspectView::Update(pair.entry, pair.header)),
        CrudStatus::Deleted => Some(EntryAspectView::Deletion(pair.header)),
        _ => None,
    }
}

/// The address at which the link of a link entry is published, and the
/// aspect that is published there: the base of the link, not the address of
/// the link entry. `None` for an entry that is no link entry.
pub open spec fn link_meta(pair: ChainPairView) -> Option<(Seq<char>, EntryAspectView)> {
    match pair.entry.body {
        EntryBodyView::LinkAdd(link) => Some((link.base, EntryAspectView::LinkAdd(link, pair.header))),
        EntryBodyView::LinkRemove(link, removed) => Some(
            (link.base, EntryAspectView::LinkRemove(link, removed, pair.header)),
        ),
        _ => None,
    }
}

/// What is published for a chain pair, in order: each item is the address
/// at which an aspect is published, and the aspect.
///
/// The content always goes out at the entry's own address. An application
/// entry that updates another, and a deletion, go out a second time at the
/// address of the entry they change. A link entry goes out a second time at
/// the base of its link. Nothing is published for the other entry types.
pub open spec fn publish_plan(pair: ChainPairView) -> Result<
    Seq<(Seq<char>, EntryAspectView)>,
    HolochainErrorView,
> {
    let content = (pair.entry.address, EntryAspectView::Content(pair.entry, pair.header));
    match pair.entry.body {
        EntryBodyView::AgentId(_) => Ok(seq![content]),
        EntryBodyView::App(_, _) => match pair.header.link_update_delete {
            Some(modified) => Ok(
                seq![content, (modified, EntryAspectView::Update(pair.entry, pair.header))],
            ),
            None => Ok(seq![content]),
        },
        EntryBodyView::LinkAdd(_) => Ok(seq![content, link_meta(pair).unwrap()]),
        EntryBodyView::LinkRemove(_, _) => Ok(seq![content, link_meta(pair).unwrap()]),
        EntryBodyView::Deletion(_) => match pair.header.link_update_delete {
            Some(deleted) => Ok(seq![content, (deleted, EntryAspectView::Deletion(pair.header))]),
            None => Ok(seq![content]),
        },
        _ => Err(HolochainErrorView::NotImplemented(pair.entry.body.entry_type())),
    }
}

impl NetworkStateView {
    /// The state after each item of a plan was published, first to last.
    pub open spec fn published_all(self, plan: Seq<(Seq<char>, EntryAspectView)>) -> NetworkStateView
        decreases plan.len(),
    {
        if plan.len() == 0 {
            self
        } else {
            self.published_all(plan.drop_last()).published(plan.last().0, plan.last().1)
        }
    }
}

/// Publishes the content of an entry at the entry's address.
pub fn publish_entry(network_state: &mut NetworkState, chain_pair: &ChainPair) -> (r: Result<
    (),
    HolochainError,
>)
    ensures
        r is Ok <==> old(network_state)@.initialized(),
        r is Ok ==> final(network_state)@ == old(network_state)@.published(
            chain_pair@.entry.address,
            EntryAspectView::Content(chain_pair@.entry, chain_pair@.header),
        ),
        r matches Err(e) ==> e@ == HolochainErrorView::NetworkUninitialized && final(network_state)@ == old(network_state)@,
{
    network_state.publish_aspect(chain_pair.entry().address.clone(),
        EntryAspect::Content(chain_pair.entry().clone(), chain_pair.header().clone()),
    )
}

/// Publishes, at the address of the entry that was changed, that the entry
/// was updated or deleted.
pub fn publish_update_delete_meta(
    network_state: &mut NetworkState,
    orig_entry_address: String,
    crud_status: CrudStatus,
    chain_pair: &ChainPair,
) -> (r: Result<(), HolochainError>)
    ensures
        r is Ok <==> crud_aspect(crud_status, chain_pair@) is Some && old(network_state)@.initialized(),
        r is Ok ==> final(network_state)@ == old(network_state)@.published(
            orig_entry_address@,
            crud_aspect(crud_status, chain_pair@).unwrap(),
        ),
        r is Err ==> final(network_state)@ == old(network_state)@,
        r matches Err(e) ==> e@ == if crud_aspect(crud_status, chain_pair@) is None {
            HolochainErrorView::ErrorGeneric("Unexpeced CRUD variant "@ + crud_status_name(crud_status))
        } else {
            HolochainErrorView::NetworkUninitialized
        },
{
    let aspect = match crud_status {
        CrudStatus::Modified => EntryAspect::Update(
            chain_pair.entry().clone(),
            chain_pair.header().clone(),
        ),
        CrudStatus::Deleted => EntryAspect::Deletion(chain_pair.header().clone()),
        crud => {
            let name = match crud {
                CrudStatus::Live => "Live",
                CrudStatus::Rejected => "Rejected",
                CrudStatus::Locked => "Locked",
                CrudStatus::Deleted => "Deleted",
                CrudStatus::Modified => "Modified",
            };
            return Err(
                HolochainError::ErrorGeneric(
                    String::from_str("Unexpeced CRUD variant ").concat(name),
                ),
            );
        },
    };
    network_state.publish_aspect(orig_entry_address, aspect)
}

/// Publishes the link of a link entry at the base of the link, where a
/// query for the links of the base finds it.
pub fn publish_link_meta(network_state: &mut NetworkState, chain_pair: &ChainPair) -> (r: Result<
    (),
    HolochainError,
>)
    ensures
        r is Ok <==> link_meta(chain_pair@) is Some && old(network_state)@.initialized(),
        r is Ok ==> final(network_state)@ == old(network_state)@.published(
            link_meta(chain_pair@).unwrap().0,
            link_meta(chain_pair@).unwrap().1,
        ),
        r is Err ==> final(network_state)@ == old(network_state)@,
        r matches Err(e) ==> e@ == if link_meta(chain_pair@) is None {
            HolochainErrorView::ErrorGeneric(
                "Received bad entry type. Expected Entry::LinkAdd/Remove received "@
                    + entry_type_name(chain_pair@.entry.body.entry_type()),
            )
        } else {
            HolochainErrorView::NetworkUninitialized
        },
{
    let (base, aspect) = match &chain_pair.entry().body {
        EntryBody::LinkAdd(link_data) => (
            link_data.base.clone(),
            EntryAspect::LinkAdd(link_data.clone(), chain_pair.header().clone()),
        ),
        EntryBody::LinkRemove(link_data, links_to_remove) => (
            link_data.base.clone(),
            EntryAspect::LinkRemove(
                link_data.clone(),
                clone_texts(links_to_remove),
                chain_pair.header().clone(),
            ),
        ),
        _ => {
            let name = chain_pair.entry().entry_type().name();
            return Err(
                HolochainError::ErrorGeneric(
                    String::from_str(
                        "Received bad entry type. Expected Entry::LinkAdd/Remove received ",
                    ).concat(name.as_str()),
                ),
            );
        },
    };
    network_state.publish_aspect(base, aspect)
}

/// What a publish action comes to, given the chain pair that was looked up
/// for it: a failure, or the plan to publish.
pub open spec fn publish_outcome(
    state: NetworkStateView,
    lookup: Result<ChainPairView, HolochainErrorView>,
) -> Result<Seq<(Seq<char>, EntryAspectView)>, HolochainErrorView> {
    if !state.initialized() {
        Err(HolochainErrorView::NetworkUninitialized)
    } else {
        match lookup {
            Err(e) => Err(e),
            Ok(pair) => publish_plan(pair),
        }
    }
}

/// Publishes the chain pair that was looked up for a publish action.
///
/// Nothing is published unless the session knows its space and its agent,
/// the pair was found, and its entry type is one that is published; on
/// failure the session is left as it was.
pub fn reduce_publish_inner(
    network_state: &mut NetworkState,
    lookup: Result<ChainPair, HolochainError>,
) -> (r: Result<(), HolochainError>)
    ensures
        match publish_outcome(old(network_state)@, lookup_view(lookup)) {
            Ok(plan) => r is Ok && final(network_state)@ == old(network_state)@.published_all(
                plan,
            ),
            Err(e) => r matches Err(f) && f@ == e && final(network_state)@ == old(network_state)@,
        },
{
    match network_state.initialized() {
        Err(e) => {
            return Err(e);
        },
        Ok(_) => {},
    }
    let chain_pair = match lookup {
        Err(e) => {
            return Err(e);
        },
        Ok(pair) => pair,
    };
    let ghost start = network_state@;
    let ghost content = (
        chain_pair@.entry.address,
        EntryAspectView::Content(chain_pair@.entry, chain_pair@.header),
    );
    assert(start.published_all(seq![content]) == start.published(content.0, content.1)) by {
        assert(seq![content].drop_last() =~= Seq::empty());
        assert(start.published_all(Seq::empty()) == start);
    }
    assert forall|second: (Seq<char>, EntryAspectView)|
        start.published_all(seq![content, second]) == start.published(
            content.0,
            content.1,
        ).published(second.0, second.1) by {
        assert(seq![content, second].drop_last() =~= seq![content]);
    }
    match chain_pair.entry().entry_type() {
        EntryType::AgentId => publish_entry(network_state, &chain_pair),
        EntryType::App(_) => {
            let _ = publish_entry(network_state, &chain_pair);
            let modified = match &chain_pair.header().link_update_delete {
                Some(a) => Some(a.clone()),
                None => None,
            };
            match modified {
                Some(modified_entry) => publish_update_delete_meta(
                    network_state,
                    modified_entry,
                    CrudStatus::Modified,
                    &chain_pair,
                ),
                None => Ok(()),
            }
        },
        EntryType::LinkAdd => {
            let _ = publish_entry(network_state, &chain_pair);
            publish_link_meta(network_state, &chain_pair)
        },
        EntryType::LinkRemove => {
            let _ = publish_entry(network_state, &chain_pair);
            publish_link_meta(network_state, &chain_pair)
        },
        EntryType::Deletion => {
            let _ = publish_entry(network_state, &chain_pair);
            let deleted = match &chain_pair.header().link_update_delete {
                Some(a) => Some(a.clone()),
                None => None,
            };
            match deleted {
                Some(deleted_entry) => publish_update_delete_meta(
                    network_state,
                    deleted_entry,
                    CrudStatus::Deleted,
                    &chain_pair,
                ),
                None => Ok(()),
            }
        },
        other => Err(HolochainError::NotImplemented(other)),
    }
}

/// What is recorded for a publish action: the published address, or the
/// failure as text.
pub open spec fn publish_response(
    outcome: Result<Seq<(Seq<char>, EntryAspectView)>, HolochainErrorView>,
    address: Seq<char>,
) -> NetworkActionResponseView {
    match outcome {
        Ok(_) => NetworkActionResponseView::Publish(Ok(address)),
        Err(e) => NetworkActionResponseView::Publish(
            Err(HolochainErrorView::ErrorGeneric(error_text(e))),
        ),
    }
}

/// Carries out a publish action for the entry at `address`, given the
/// chain pair that was looked up for it, and records under the action's
/// number what became of it.
pub fn reduce_publish(
    network_state: &mut NetworkState,
    lookup: Result<ChainPair, HolochainError>,
    action: u64,
    address: &String,
)
    ensures
        ({
            let outcome = publish_outcome(old(network_state)@, lookup_view(lookup));
            let sent = match outcome {
                Ok(plan) => old(network_state)@.published_all(plan),
                Err(_) => old(network_state)@,
            };
            final(network_state)@ == (NetworkStateView {
                actions: sent.actions.insert(action, publish_response(outcome, address@)),
                ..sent
            })
        }),
{
    let result = reduce_publish_inner(network_state, lookup);
    network_state.record_response(
        action,
        NetworkActionResponse::Publish(
            match result {
                Ok(_) => Ok(address.clone()),
                Err(e) => Err(HolochainError::ErrorGeneric(e.to_string())),
            },
        ),
    );
}

/// The link of a link entry is published at the base of the link, and never
/// at the address of the link entry: the plan for a link entry has the
/// content at the entry's address and then the link at its base.
pub proof fn lemma_link_meta_goes_to_base(pair: ChainPairView)
    requires
        pair.entry.body is LinkAdd || pair.entry.body is LinkRemove,
    ensures
        publish_plan(pair) matches Ok(plan) && plan.len() == 2 && plan[0] == (
            pair.entry.address,
            EntryAspectView::Content(pair.entry, pair.header),
        ) && match pair.entry.body {
            EntryBodyView::LinkAdd(link) => plan[1] == (
                link.base,
                EntryAspectView::LinkAdd(link, pair.header),
            ),
            EntryBodyView::LinkRemove(link, removed) => plan[1] == (
                link.base,
                EntryAspectView::LinkRemove(link, removed, pair.header),
            ),
            _ => false,
        },
{
}

/// An application entry whose header names an entry that it updates is
/// published as two aspects: the content at its own address, and an update
/// at the address of the entry it updates.
pub proof fn lemma_update_publishes_two_aspects(pair: ChainPairView, updated: Seq<char>)
    requires
        pair.entry.body is App,
        pair.header.link_update_delete == Some(updated),
    ensures
        publish_plan(pair) == Ok::<Seq<(Seq<char>, EntryAspectView)>, HolochainErrorView>(
            seq![
                (pair.entry.address, EntryAspectView::Content(pair.entry, pair.header)),
                (updated, EntryAspectView::Update(pair.entry, pair.header)),
            ],
        ),
        crud_aspect(CrudStatus::Modified, pair) == Some(
            EntryAspectView::Update(pair.entry, pair.header),
        ),
{
}

/// Publishing a plan queues one message for each of its items, in order,
/// each with the one aspect of its item at the address of its item, and
/// changes nothing else.
pub proof fn lemma_published_all(state: NetworkStateView, plan: Seq<(Seq<char>, EntryAspectView)>)
    ensures
        state.published_all(plan).outbound.len() == state.outbound.len() + plan.len(),
        state.published_all(plan).dna_address == state.dna_address,
        state.published_all(plan).agent_id == state.agent_id,
        state.published_all(plan).actions == state.actions,
        forall|i: int|
            0 <= i < state.outbound.len() ==> state.published_all(plan).outbound[i]
                == state.outbound[i],
        forall|i: int|
            0 <= i < plan.len() ==> #[trigger] state.published_all(plan).outbound[state.outbound.len()
                + i] == NetworkMessageView::PublishEntry(
                PublishRequestView {
                    space_address: state.dna_address.unwrap(),
                    provider_agent_id: state.agent_id.unwrap(),
                    entry_address: plan[i].0,
                    aspect_list: seq![plan[i].1],
                },
            ),
    decreases plan.len(),
{
    if plan.len() > 0 {
        lemma_published_all(state, plan.drop_last());
        let before = state.published_all(plan.drop_last());
        assert forall|i: int| 0 <= i < plan.len() implies #[trigger] state.published_all(
            plan,
        ).outbound[state.outbound.len() + i]
            == NetworkMessageView::PublishEntry(
            PublishRequestView {
                space_address: state.dna_address.unwrap(),
                provider_agent_id: state.agent_id.unwrap(),
                entry_address: plan[i].0,
                aspect_list: seq![plan[i].1],
            },
        ) by {
            if i < plan.len() - 1 {
                assert(plan.drop_last()[i] == plan[i]);
                assert(before.outbound[state.outbound.len() + i] == state.published_all(
                    plan,
                ).outbound[state.outbound.len() + i]);
            }
        }
    }
}

} // verus!
