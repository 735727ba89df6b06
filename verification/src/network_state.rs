//! The node's side of its network session: who it is, what it has to send,
//! and what became of the actions it was asked to carry out.
use std::collections::HashMap;
use vstd::prelude::*;
use crate::entry_aspect::{
    EntryAspect, EntryAspectView, aspect_data_of, aspect_views, entry_data_to_entry_aspect_data,
};
use crate::error::{HolochainError, HolochainErrorView};
use crate::protocol::{
    EntryAspectData, EntryData, EntryDataView, Lib3hClientProtocol, Lib3hClientProtocolView,
    ProvidedEntryData, ProvidedEntryDataView, QueryEntryResultData, QueryEntryResultDataView,
    aspect_data_views,
};
use crate::text::{opt_text, texts};

verus! {

/// A copy of a list of aspects.
pub fn clone_aspects(v: &Vec<EntryAspect>) -> (r: Vec<EntryAspect>)
    ensures
        aspect_views(r@) == aspect_views(v@),
{
    let mut out: Vec<EntryAspect> = Vec::new();
    let mut i: usize = 0;
    while i < v.len()
        invariant
            i <= v.len(),
            out.len() == i,
            forall|j: int| 0 <= j < i ==> out@[j]@ == v@[j]@,
        decreases v.len() - i,
    {
        out.push(v[i].clone());
        i += 1;
    }
    assert(aspect_views(out@) =~= aspect_views(v@));
    out
}

/// Aspects of the entry at one address that the node gives to its space. The aspects are not serialized yet.
pub struct PublishRequest {
    pub space_address: String,
    pub provider_agent_id: String,
    /// The address at which the aspects are published.
    pub entry_address: String,
    pub aspect_list: Vec<EntryAspect>,
}

/// The mathematical value of a [`PublishRequest`].
pub struct PublishRequestView {
    pub space_address: Seq<char>,
    pub provider_agent_id: Seq<char>,
    pub entry_address: Seq<char>,
    pub aspect_list: Seq<EntryAspectView>,
}

impl View for PublishRequest {
    type V = PublishRequestView;

    open spec fn view(&self) -> PublishRequestView {
        PublishRequestView {
            space_address: self.space_address@,
            provider_agent_id: self.provider_agent_id@,
            entry_address: self.entry_address@,
            aspect_list: aspect_views(self.aspect_list@),
        }
    }
}

impl Clone for PublishRequest {
    fn clone(&self) -> (r: Self)
        ensures
            r@ == self@,
    {
        PublishRequest {
            space_address: self.space_address.clone(),
            provider_agent_id: self.provider_agent_id.clone(),
            entry_address: self.entry_address.clone(),
            aspect_list: clone_aspects(&self.aspect_list),
        }
    }
}


/// The aspects of a request in the form in which they travel, given the
/// serialized content of each.
pub open spec fn serialized_aspects(
    aspects: Seq<EntryAspectView>,
    contents: Seq<Seq<char>>,
) -> Seq<crate::protocol::EntryAspectDataView> {
    Seq::new(aspects.len(), |i: int| aspect_data_of(aspects[i], contents[i]))
}

impl PublishRequest {
    /// Turns the request into the message for the network layer, given the
    /// serialized content of each aspect, in the order of the aspects.
    /// `None` where the contents are not as many as the aspects.
    pub fn into_client_message(self, contents: &Vec<String>) -> (r: Option<Lib3hClientProtocol>)
        ensures
            r is Some <==> contents.len() == self@.aspect_list.len(),
            r matches Some(message) ==> message@ == Lib3hClientProtocolView::PublishEntry(
                ProvidedEntryDataView {
                    space_address: self@.space_address,
                    provider_agent_id: self@.provider_agent_id,
                    entry: EntryDataView {
                        entry_address: self@.entry_address,
                        aspect_list: serialized_aspects(self@.aspect_list, texts(contents@)),
                    },
                },
            ),
    {
        if contents.len() != self.aspect_list.len() {
            return None;
        }
        let mut aspect_list: Vec<EntryAspectData> = Vec::new();
        let mut i: usize = 0;
        while i < self.aspect_list.len()
            invariant
                i <= self.aspect_list.len(),
                contents.len() == self.aspect_list.len(),
                aspect_list.len() == i,
                forall|j: int|
                    0 <= j < i ==> aspect_list@[j]@ == aspect_data_of(
                        self.aspect_list@[j]@,
                        contents@[j]@,
                    ),
            decreases self.aspect_list.len() - i,
        {
            aspect_list.push(
                entry_data_to_entry_aspect_data(&self.aspect_list[i], contents[i].as_str()),
            );
            i += 1;
        }
        assert(aspect_data_views(aspect_list@) =~= serialized_aspects(
            self@.aspect_list,
            texts(contents@),
        ));
        Some(
            Lib3hClientProtocol::PublishEntry(
                ProvidedEntryData {
                    space_address: self.space_address,
                    provider_agent_id: self.provider_agent_id,
                    entry: EntryData { entry_address: self.entry_address, aspect_list },
                },
            ),
        )
    }
}

/// What the node has for the network.
pub enum NetworkMessage {
    /// Aspects to publish.
    PublishEntry(PublishRequest),
    /// The answer to a query.
    HandleQueryEntryResult(QueryEntryResultData),
}

/// The mathematical value of a [`NetworkMessage`].
pub enum NetworkMessageView {
    PublishEntry(PublishRequestView),
    HandleQueryEntryResult(QueryEntryResultDataView),
}

impl View for NetworkMessage {
    type V = NetworkMessageView;

    open spec fn view(&self) -> NetworkMessageView {
        match self {
            NetworkMessage::PublishEntry(p) => NetworkMessageView::PublishEntry(p@),
            NetworkMessage::HandleQueryEntryResult(r) =>
                NetworkMessageView::HandleQueryEntryResult(r@),
        }
    }
}

/// The views of a list of network messages, in order.
pub open spec fn network_message_views(v: Seq<NetworkMessage>) -> Seq<NetworkMessageView> {
    v.map_values(|m: NetworkMessage| m@)
}

/// What became of an action of the node.
pub enum NetworkActionResponse {
    /// A publish action: the published address, or what went wrong.
    Publish(Result<String, HolochainError>),
}

/// The mathematical value of a [`NetworkActionResponse`].
pub enum NetworkActionResponseView {
    Publish(Result<Seq<char>, HolochainErrorView>),
}

impl View for NetworkActionResponse {
    type V = NetworkActionResponseView;

    open spec fn view(&self) -> NetworkActionResponseView {
        match self {
            NetworkActionResponse::Publish(Ok(a)) => NetworkActionResponseView::Publish(Ok(a@)),
            NetworkActionResponse::Publish(Err(e)) => NetworkActionResponseView::Publish(Err(e@)),
        }
    }
}

/// The state of the node's network session.
pub struct NetworkState {
    /// The address of the space, once it is known.
    dna_address: Option<String>,
    /// The node's own agent id, once it is known.
    agent_id: Option<String>,
    /// What waits to be handed to the network layer, first to last.
    outbound: Vec<NetworkMessage>,
    /// What became of each action, by the action's number.
    actions: HashMap<u64, NetworkActionResponse>,
}

/// The mathematical value of a [`NetworkState`].
pub struct NetworkStateView {
    pub dna_address: Option<Seq<char>>,
    pub agent_id: Option<Seq<char>>,
    pub outbound: Seq<NetworkMessageView>,
    pub actions: Map<u64, NetworkActionResponseView>,
}

impl View for NetworkState {
    type V = NetworkStateView;

    closed spec fn view(&self) -> NetworkStateView {
        NetworkStateView {
            dna_address: opt_text(self.dna_address),
            agent_id: opt_text(self.agent_id),
            outbound: network_message_views(self.outbound@),
            actions: self.actions@.map_values(|r: NetworkActionResponse| r@),
        }
    }
}

impl NetworkStateView {
    /// Whether the session knows its space and its agent.
    pub open spec fn initialized(self) -> bool {
        self.dna_address is Some && self.agent_id is Some
    }

    /// The state after a message was queued for the network.
    pub open spec fn queued(self, message: NetworkMessageView) -> NetworkStateView {
        NetworkStateView { outbound: self.outbound.push(message), ..self }
    }

    /// The state after one aspect was published at an address.
    pub open spec fn published(self, entry_address: Seq<char>, aspect: EntryAspectView) -> NetworkStateView {
        self.queued(
            NetworkMessageView::PublishEntry(
                PublishRequestView {
                    space_address: self.dna_address.unwrap(),
                    provider_agent_id: self.agent_id.unwrap(),
                    entry_address,
                    aspect_list: seq![aspect],
                },
            ),
        )
    }
}

impl NetworkState {
    /// A session that knows neither space nor agent and has nothing queued.
    pub fn new() -> (r: NetworkState)
        ensures
            r@ == (NetworkStateView {
                dna_address: None,
                agent_id: None,
                outbound: Seq::empty(),
                actions: Map::empty(),
            }),
    {
        let r = NetworkState {
            dna_address: None,
            agent_id: None,
            outbound: Vec::new(),
            actions: HashMap::new(),
        };
        assert(network_message_views(r.outbound@) =~= Seq::empty());
        assert(r.actions@.map_values(|r: NetworkActionResponse| r@) =~= Map::empty());
        r
    }

    /// Fails unless the session knows its space and its agent.
    pub fn initialized(&self) -> (r: Result<(), HolochainError>)
        ensures
            r is Ok <==> self@.initialized(),
            r matches Err(e) ==> e@ == HolochainErrorView::NetworkUninitialized,
    {
        if self.dna_address.is_some() && self.agent_id.is_some() {
            Ok(())
        } else {
            Err(HolochainError::NetworkUninitialized)
        }
    }

    /// Queues a message for the network. Fails, and queues nothing, unless
    /// the session knows its space and its agent.
    pub fn send(&mut self, message: NetworkMessage) -> (r: Result<(), HolochainError>)
        ensures
            r is Ok <==> old(self)@.initialized(),
            r is Ok ==> final(self)@ == old(self)@.queued(message@),
            r matches Err(e) ==> e@ == HolochainErrorView::NetworkUninitialized && final(self)@
                == old(self)@,
    {
        if self.dna_address.is_some() && self.agent_id.is_some() {
            self.outbound.push(message);
            assert(network_message_views(self.outbound@) =~= network_message_views(
                old(self).outbound@,
            ).push(message@));
            Ok(())
        } else {
            Err(HolochainError::NetworkUninitialized)
        }
    }

    /// Hands out what waits for the network, first to last, and leaves the
    /// queue empty.
    pub fn take_outbound(&mut self) -> (r: Vec<NetworkMessage>)
        ensures
            network_message_views(r@) == old(self)@.outbound,
            final(self)@ == (NetworkStateView { outbound: Seq::empty(), ..old(self)@ }),
    {
        let mut out: Vec<NetworkMessage> = Vec::new();
        std::mem::swap(&mut self.outbound, &mut out);
        assert(network_message_views(self.outbound@) =~= Seq::empty());
        out
    }

    /// Records what became of an action, in place of anything recorded for
    /// it before.
    pub fn record_response(&mut self, action: u64, response: NetworkActionResponse)
        ensures
            final(self)@ == (NetworkStateView {
                actions: old(self)@.actions.insert(action, response@),
                ..old(self)@
            }),
    {
        broadcast use vstd::std_specs::hash::group_hash_axioms;

        self.actions.insert(action, response);
        assert(self.actions@.map_values(|r: NetworkActionResponse| r@) =~= old(
            self,
        ).actions@.map_values(|r: NetworkActionResponse| r@).insert(action, response@));
    }

    /// Hands out what became of an action, if anything is recorded for it,
    /// and forgets it: a response is read once.
    pub fn take_response(&mut self, action: u64) -> (r: Option<NetworkActionResponse>)
        ensures
            r is Some <==> old(self)@.actions.contains_key(action),
            r matches Some(response) ==> response@ == old(self)@.actions[action],
            final(self)@ == (NetworkStateView {
                actions: old(self)@.actions.remove(action),
                ..old(self)@
            }),
    {
        broadcast use vstd::std_specs::hash::group_hash_axioms;

        let r = self.actions.remove(&action);
        assert(self.actions@.map_values(|r: NetworkActionResponse| r@) =~= old(
            self,
        ).actions@.map_values(|r: NetworkActionResponse| r@).remove(action));
        r
    }

    /// Tells the session the address of its space.
    pub fn set_dna_address(&mut self, dna_address: String)
        ensures
            final(self)@ == (NetworkStateView { dna_address: Some(dna_address@), ..old(self)@ }),
    {
        self.dna_address = Some(dna_address);
    }

    /// Tells the session the id of its agent.
    pub fn set_agent_id(&mut self, agent_id: String)
        ensures
            final(self)@ == (NetworkStateView { agent_id: Some(agent_id@), ..old(self)@ }),
    {
        self.agent_id = Some(agent_id);
    }

    /// Queues the publication of one aspect at an address, in the name of
    /// the session's space and agent.
    pub fn publish_aspect(&mut self, entry_address: String, aspect: EntryAspect) -> (r: Result<
        (),
        HolochainError,
    >)
        ensures
            r is Ok <==> old(self)@.initialized(),
            r is Ok ==> final(self)@ == old(self)@.published(entry_address@, aspect@),
            r matches Err(e) ==> e@ == HolochainErrorView::NetworkUninitialized && final(self)@
                == old(self)@,
    {
        let (space_address, provider_agent_id) = match (&self.dna_address, &self.agent_id) {
            (Some(space), Some(agent)) => (space.clone(), agent.clone()),
            _ => {
                return Err(HolochainError::NetworkUninitialized);
            },
        };
        let mut aspect_list: Vec<EntryAspect> = Vec::new();
        aspect_list.push(aspect);
        assert(aspect_views(aspect_list@) =~= seq![aspect@]);
        self.send(
            NetworkMessage::PublishEntry(
                PublishRequest { space_address, provider_agent_id, entry_address, aspect_list },
            ),
        )
    }

    /// Queues the answer to a query, in the name of the session's space and
    /// agent.
    pub fn answer_query(
        &mut self,
        request_id: String,
        requester_agent_id: String,
        entry_address: String,
        query_result: Vec<u8>,
    ) -> (r: Result<(), HolochainError>)
        ensures
            r is Ok <==> old(self)@.initialized(),
            r is Ok ==> final(self)@ == old(self)@.queued(
                NetworkMessageView::HandleQueryEntryResult(
                    QueryEntryResultDataView {
                        space_address: old(self)@.dna_address.unwrap(),
                        entry_address: entry_address@,
                        request_id: request_id@,
                        requester_agent_id: requester_agent_id@,
                        responder_agent_id: old(self)@.agent_id.unwrap(),
                        query_result: query_result@,
                    },
                ),
            ),
            r matches Err(e) ==> e@ == HolochainErrorView::NetworkUninitialized && final(self)@
                == old(self)@,
    {
        let (space_address, responder_agent_id) = match (&self.dna_address, &self.agent_id) {
            (Some(space), Some(agent)) => (space.clone(), agent.clone()),
            _ => {
                return Err(HolochainError::NetworkUninitialized);
            },
        };
        self.send(
            NetworkMessage::HandleQueryEntryResult(
                QueryEntryResultData {
                    space_address,
                    entry_address,
                    request_id,
                    requester_agent_id,
                    responder_agent_id,
                    query_result,
                },
            ),
        )
    }
}

} // verus!
