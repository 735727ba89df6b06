//! The messages that pass between the node, its network layer and the relay.
use vstd::prelude::*;
use crate::text::clone_bytes;

verus! {

/// Names a space and the agent that joins or leaves it.
pub struct SpaceData {
    pub request_id: String,
    pub space_address: String,
    pub agent_id: String,
}

/// The mathematical value of a [`SpaceData`].
pub struct SpaceDataView {
    pub request_id: Seq<char>,
    pub space_address: Seq<char>,
    pub agent_id: Seq<char>,
}

impl View for SpaceData {
    type V = SpaceDataView;

    open spec fn view(&self) -> SpaceDataView {
        SpaceDataView {
            request_id: self.request_id@,
            space_address: self.space_address@,
            agent_id: self.agent_id@,
        }
    }
}

impl Clone for SpaceData {
    fn clone(&self) -> (r: Self)
        ensures
            r@ == self@,
    {
        SpaceData {
            request_id: self.request_id.clone(),
            space_address: self.space_address.clone(),
            agent_id: self.agent_id.clone(),
        }
    }
}

/// A request to connect to a peer.
pub struct ConnectData {
    pub request_id: String,
    pub peer_location: String,
    pub network_id: String,
}

/// The mathematical value of a [`ConnectData`].
pub struct ConnectDataView {
    pub request_id: Seq<char>,
    pub peer_location: Seq<char>,
    pub network_id: Seq<char>,
}

impl View for ConnectData {
    type V = ConnectDataView;

    open spec fn view(&self) -> ConnectDataView {
        ConnectDataView {
            request_id: self.request_id@,
            peer_location: self.peer_location@,
            network_id: self.network_id@,
        }
    }
}

impl Clone for ConnectData {
    fn clone(&self) -> (r: Self)
        ensures
            r@ == self@,
    {
        ConnectData {
            request_id: self.request_id.clone(),
            peer_location: self.peer_location.clone(),
            network_id: self.network_id.clone(),
        }
    }
}

/// The outcome of a request, as reported back to the node.
pub struct GenericResultData {
    pub request_id: String,
    pub space_address: String,
    pub to_agent_id: String,
    pub result_info: Vec<u8>,
}

/// The mathematical value of a [`GenericResultData`].
pub struct GenericResultDataView {
    pub request_id: Seq<char>,
    pub space_address: Seq<char>,
    pub to_agent_id: Seq<char>,
    pub result_info: Seq<u8>,
}

impl View for GenericResultData {
    type V = GenericResultDataView;

    open spec fn view(&self) -> GenericResultDataView {
        GenericResultDataView {
            request_id: self.request_id@,
            space_address: self.space_address@,
            to_agent_id: self.to_agent_id@,
            result_info: self.result_info@,
        }
    }
}

impl Clone for GenericResultData {
    fn clone(&self) -> (r: Self)
        ensures
            r@ == self@,
    {
        GenericResultData {
            request_id: self.request_id.clone(),
            space_address: self.space_address.clone(),
            to_agent_id: self.to_agent_id.clone(),
            result_info: clone_bytes(&self.result_info),
        }
    }
}

/// One aspect of an entry in the form in which it travels.
pub struct EntryAspectData {
    /// The address of the aspect's own content.
    pub aspect_address: String,
    /// The kind of aspect, as text.
    pub type_hint: String,
    /// The serialized aspect.
    pub aspect: Vec<u8>,
    /// Seconds since the Unix epoch, from the aspect's header.
    pub publish_ts: u64,
}

/// The mathematical value of a [`EntryAspectData`].
pub struct EntryAspectDataView {
    pub aspect_address: Seq<char>,
    pub type_hint: Seq<char>,
    pub aspect: Seq<u8>,
    pub publish_ts: u64,
}

impl View for EntryAspectData {
    type V = EntryAspectDataView;

    open spec fn view(&self) -> EntryAspectDataView {
        EntryAspectDataView {
            aspect_address: self.aspect_address@,
            type_hint: self.type_hint@,
            aspect: self.aspect@,
            publish_ts: self.publish_ts,
        }
    }
}

impl Clone for EntryAspectData {
    fn clone(&self) -> (r: Self)
        ensures
            r@ == self@,
    {
        EntryAspectData {
            aspect_address: self.aspect_address.clone(),
            type_hint: self.type_hint.clone(),
            aspect: clone_bytes(&self.aspect),
            publish_ts: self.publish_ts,
        }
    }
}

/// The views of a list of aspects, in order.
pub open spec fn aspect_data_views(v: Seq<EntryAspectData>) -> Seq<EntryAspectDataView> {
    v.map_values(|x: EntryAspectData| x@)
}

/// A copy of a list of aspects.
pub fn clone_aspect_data_list(v: &Vec<EntryAspectData>) -> (r: Vec<EntryAspectData>)
    ensures
        aspect_data_views(r@) == aspect_data_views(v@),
{
    let mut out: Vec<EntryAspectData> = Vec::new();
    let mut i: usize = 0;
    while i < v.len()
        invariant
            i <= v.len(),
            out.len() == i,
            forall|j: int| 0 <= j < i ==> out@[j]@ == v@[j]@,
        decreases v.len() - i,
    {
        out.push(v[i].clone());
        i += 1;
    }
    assert(aspect_data_views(out@) =~= aspect_data_views(v@));
    out
}

/// Aspects of the entry at one address.
pub struct EntryData {
    pub entry_address: String,
    pub aspect_list: Vec<EntryAspectData>,
}

/// The mathematical value of a [`EntryData`].
pub struct EntryDataView {
    pub entry_address: Seq<char>,
    pub aspect_list: Seq<EntryAspectDataView>,
}

impl View for EntryData {
    type V = EntryDataView;

    open spec fn view(&self) -> EntryDataView {
        EntryDataView {
            entry_address: self.entry_address@,
            aspect_list: aspect_data_views(self.aspect_list@),
        }
    }
}

impl Clone for EntryData {
    fn clone(&self) -> (r: Self)
        ensures
            r@ == self@,
    {
        EntryData {
            entry_address: self.entry_address.clone(),
            aspect_list: clone_aspect_data_list(&self.aspect_list),
        }
    }
}

/// Aspects that an agent provides to a space.
pub struct ProvidedEntryData {
    pub space_address: String,
    pub provider_agent_id: String,
    pub entry: EntryData,
}

/// The mathematical value of a [`ProvidedEntryData`].
pub struct ProvidedEntryDataView {
    pub space_address: Seq<char>,
    pub provider_agent_id: Seq<char>,
    pub entry: EntryDataView,
}

impl View for ProvidedEntryData {
    type V = ProvidedEntryDataView;

    open spec fn view(&self) -> ProvidedEntryDataView {
        ProvidedEntryDataView {
            space_address: self.space_address@,
            provider_agent_id: self.provider_agent_id@,
            entry: self.entry@,
        }
    }
}

impl Clone for ProvidedEntryData {
    fn clone(&self) -> (r: Self)
        ensures
            r@ == self@,
    {
        ProvidedEntryData {
            space_address: self.space_address.clone(),
            provider_agent_id: self.provider_agent_id.clone(),
            entry: self.entry.clone(),
        }
    }
}

/// A request to store one aspect of an entry.
pub struct StoreEntryAspectData {
    pub request_id: String,
    pub space_address: String,
    pub provider_agent_id: String,
    pub entry_address: String,
    pub entry_aspect: EntryAspectData,
}

/// The mathematical value of a [`StoreEntryAspectData`].
pub struct StoreEntryAspectDataView {
    pub request_id: Seq<char>,
    pub space_address: Seq<char>,
    pub provider_agent_id: Seq<char>,
    pub entry_address: Seq<char>,
    pub entry_aspect: EntryAspectDataView,
}

impl View for StoreEntryAspectData {
    type V = StoreEntryAspectDataView;

    open spec fn view(&self) -> StoreEntryAspectDataView {
        StoreEntryAspectDataView {
            request_id: self.request_id@,
            space_address: self.space_address@,
            provider_agent_id: self.provider_agent_id@,
            entry_address: self.entry_address@,
            entry_aspect: self.entry_aspect@,
        }
    }
}

impl Clone for StoreEntryAspectData {
    fn clone(&self) -> (r: Self)
        ensures
            r@ == self@,
    {
        StoreEntryAspectData {
            request_id: self.request_id.clone(),
            space_address: self.space_address.clone(),
            provider_agent_id: self.provider_agent_id.clone(),
            entry_address: self.entry_address.clone(),
            entry_aspect: self.entry_aspect.clone(),
        }
    }
}

/// A query about the entry at an address.
pub struct QueryEntryData {
    pub space_address: String,
    pub entry_address: String,
    pub request_id: String,
    pub requester_agent_id: String,
    pub query: Vec<u8>,
}

/// The mathematical value of a [`QueryEntryData`].
pub struct QueryEntryDataView {
    pub space_address: Seq<char>,
    pub entry_address: Seq<char>,
    pub request_id: Seq<char>,
    pub requester_agent_id: Seq<char>,
    pub query: Seq<u8>,
}

impl View for QueryEntryData {
    type V = QueryEntryDataView;

    open spec fn view(&self) -> QueryEntryDataView {
        QueryEntryDataView {
            space_address: self.space_address@,
            entry_address: self.entry_address@,
            request_id: self.request_id@,
            requester_agent_id: self.requester_agent_id@,
            query: self.query@,
        }
    }
}

impl Clone for QueryEntryData {
    fn clone(&self) -> (r: Self)
        ensures
            r@ == self@,
    {
        QueryEntryData {
            space_address: self.space_address.clone(),
            entry_address: self.entry_address.clone(),
            request_id: self.request_id.clone(),
            requester_agent_id: self.requester_agent_id.clone(),
            query: clone_bytes(&self.query),
        }
    }
}

/// The answer to a query about an entry.
pub struct QueryEntryResultData {
    pub space_address: String,
    pub entry_address: String,
    pub request_id: String,
    pub requester_agent_id: String,
    pub responder_agent_id: String,
    pub query_result: Vec<u8>,
}

/// The mathematical value of a [`QueryEntryResultData`].
pub struct QueryEntryResultDataView {
    pub space_address: Seq<char>,
    pub entry_address: Seq<char>,
    pub request_id: Seq<char>,
    pub requester_agent_id: Seq<char>,
    pub responder_agent_id: Seq<char>,
    pub query_result: Seq<u8>,
}

impl View for QueryEntryResultData {
    type V = QueryEntryResultDataView;

    open spec fn view(&self) -> QueryEntryResultDataView {
        QueryEntryResultDataView {
            space_address: self.space_address@,
            entry_address: self.entry_address@,
            request_id: self.request_id@,
            requester_agent_id: self.requester_agent_id@,
            responder_agent_id: self.responder_agent_id@,
            query_result: self.query_result@,
        }
    }
}

impl Clone for QueryEntryResultData {
    fn clone(&self) -> (r: Self)
        ensures
            r@ == self@,
    {
        QueryEntryResultData {
            space_address: self.space_address.clone(),
            entry_address: self.entry_address.clone(),
            request_id: self.request_id.clone(),
            requester_agent_id: self.requester_agent_id.clone(),
            responder_agent_id: self.responder_agent_id.clone(),
            query_result: clone_bytes(&self.query_result),
        }
    }
}

/// What the node asks of the network. Data that the network layer only passes on is carried in serialized form.
pub enum Lib3hClientProtocol {
    /// A request of the network succeeded.
    SuccessResult(GenericResultData),
    /// Connect to a peer.
    Connect(ConnectData),
    /// Join the network of a space.
    JoinSpace(SpaceData),
    /// Leave the network of a space.
    LeaveSpace(SpaceData),
    /// Send a message to another agent.
    SendDirectMessage(Vec<u8>),
    /// The node's answer to a direct message.
    HandleSendDirectMessageResult(Vec<u8>),
    /// Fetch an entry from the network. The node never sends this.
    FetchEntry(Vec<u8>),
    /// The node's answer to a fetch request.
    HandleFetchEntryResult(Vec<u8>),
    /// Publish aspects of an entry.
    PublishEntry(ProvidedEntryData),
    /// Ask about an entry.
    QueryEntry(QueryEntryData),
    /// The node's answer to a query.
    HandleQueryEntryResult(QueryEntryResultData),
    /// The entries that the node has authored.
    HandleGetAuthoringEntryListResult(Vec<u8>),
    /// The entries that the node holds for others.
    HandleGetGossipingEntryListResult(Vec<u8>),
    /// Stop the network layer.
    Shutdown,
}

/// The mathematical value of a [`Lib3hClientProtocol`].
pub enum Lib3hClientProtocolView {
    SuccessResult(GenericResultDataView),
    Connect(ConnectDataView),
    JoinSpace(SpaceDataView),
    LeaveSpace(SpaceDataView),
    SendDirectMessage(Seq<u8>),
    HandleSendDirectMessageResult(Seq<u8>),
    FetchEntry(Seq<u8>),
    HandleFetchEntryResult(Seq<u8>),
    PublishEntry(ProvidedEntryDataView),
    QueryEntry(QueryEntryDataView),
    HandleQueryEntryResult(QueryEntryResultDataView),
    HandleGetAuthoringEntryListResult(Seq<u8>),
    HandleGetGossipingEntryListResult(Seq<u8>),
    Shutdown,
}

impl View for Lib3hClientProtocol {
    type V = Lib3hClientProtocolView;

    open spec fn view(&self) -> Lib3hClientProtocolView {
        match self {
            Lib3hClientProtocol::SuccessResult(d) => Lib3hClientProtocolView::SuccessResult(d@),
            Lib3hClientProtocol::Connect(d) => Lib3hClientProtocolView::Connect(d@),
            Lib3hClientProtocol::JoinSpace(d) => Lib3hClientProtocolView::JoinSpace(d@),
            Lib3hClientProtocol::LeaveSpace(d) => Lib3hClientProtocolView::LeaveSpace(d@),
            Lib3hClientProtocol::SendDirectMessage(d) => Lib3hClientProtocolView::SendDirectMessage(d@),
            Lib3hClientProtocol::HandleSendDirectMessageResult(d) => Lib3hClientProtocolView::HandleSendDirectMessageResult(d@),
            Lib3hClientProtocol::FetchEntry(d) => Lib3hClientProtocolView::FetchEntry(d@),
            Lib3hClientProtocol::HandleFetchEntryResult(d) => Lib3hClientProtocolView::HandleFetchEntryResult(d@),
            Lib3hClientProtocol::PublishEntry(d) => Lib3hClientProtocolView::PublishEntry(d@),
            Lib3hClientProtocol::QueryEntry(d) => Lib3hClientProtocolView::QueryEntry(d@),
            Lib3hClientProtocol::HandleQueryEntryResult(d) => Lib3hClientProtocolView::HandleQueryEntryResult(d@),
            Lib3hClientProtocol::HandleGetAuthoringEntryListResult(d) => Lib3hClientProtocolView::HandleGetAuthoringEntryListResult(d@),
            Lib3hClientProtocol::HandleGetGossipingEntryListResult(d) => Lib3hClientProtocolView::HandleGetGossipingEntryListResult(d@),
            Lib3hClientProtocol::Shutdown => Lib3hClientProtocolView::Shutdown,
        }
    }
}

impl Clone for Lib3hClientProtocol {
    fn clone(&self) -> (r: Self)
        ensures
            r@ == self@,
    {
        match self {
            Lib3hClientProtocol::SuccessResult(d) => Lib3hClientProtocol::SuccessResult(d.clone()),
            Lib3hClientProtocol::Connect(d) => Lib3hClientProtocol::Connect(d.clone()),
            Lib3hClientProtocol::JoinSpace(d) => Lib3hClientProtocol::JoinSpace(d.clone()),
            Lib3hClientProtocol::LeaveSpace(d) => Lib3hClientProtocol::LeaveSpace(d.clone()),
            Lib3hClientProtocol::SendDirectMessage(d) => Lib3hClientProtocol::SendDirectMessage(clone_bytes(d)),
            Lib3hClientProtocol::HandleSendDirectMessageResult(d) => Lib3hClientProtocol::HandleSendDirectMessageResult(clone_bytes(d)),
            Lib3hClientProtocol::FetchEntry(d) => Lib3hClientProtocol::FetchEntry(clone_bytes(d)),
            Lib3hClientProtocol::HandleFetchEntryResult(d) => Lib3hClientProtocol::HandleFetchEntryResult(clone_bytes(d)),
            Lib3hClientProtocol::PublishEntry(d) => Lib3hClientProtocol::PublishEntry(d.clone()),
            Lib3hClientProtocol::QueryEntry(d) => Lib3hClientProtocol::QueryEntry(d.clone()),
            Lib3hClientProtocol::HandleQueryEntryResult(d) => Lib3hClientProtocol::HandleQueryEntryResult(d.clone()),
            Lib3hClientProtocol::HandleGetAuthoringEntryListResult(d) => Lib3hClientProtocol::HandleGetAuthoringEntryListResult(clone_bytes(d)),
            Lib3hClientProtocol::HandleGetGossipingEntryListResult(d) => Lib3hClientProtocol::HandleGetGossipingEntryListResult(clone_bytes(d)),
            Lib3hClientProtocol::Shutdown => Lib3hClientProtocol::Shutdown,
        }
    }
}

/// The views of a list of client messages, in order.
pub open spec fn client_message_views(v: Seq<Lib3hClientProtocol>) -> Seq<Lib3hClientProtocolView> {
    v.map_values(|x: Lib3hClientProtocol| x@)
}

/// What the network hands to the node.
pub enum Lib3hServerProtocol {
    /// A request of the node failed.
    FailureResult(GenericResultData),
    /// Store one aspect of an entry.
    HandleStoreEntryAspect(StoreEntryAspectData),
    /// Answer a query.
    HandleQueryEntry(QueryEntryData),
    /// The answer to a query of the node.
    QueryEntryResult(QueryEntryResultData),
    /// A request of the relay, passed on as it was received.
    Lib3hToClient(Vec<u8>),
    /// An answer of the relay, passed on as it was received.
    ClientToLib3hResponse(Vec<u8>),
}

/// The mathematical value of a [`Lib3hServerProtocol`].
pub enum Lib3hServerProtocolView {
    FailureResult(GenericResultDataView),
    HandleStoreEntryAspect(StoreEntryAspectDataView),
    HandleQueryEntry(QueryEntryDataView),
    QueryEntryResult(QueryEntryResultDataView),
    Lib3hToClient(Seq<u8>),
    ClientToLib3hResponse(Seq<u8>),
}

impl View for Lib3hServerProtocol {
    type V = Lib3hServerProtocolView;

    open spec fn view(&self) -> Lib3hServerProtocolView {
        match self {
            Lib3hServerProtocol::FailureResult(d) => Lib3hServerProtocolView::FailureResult(d@),
            Lib3hServerProtocol::HandleStoreEntryAspect(d) => Lib3hServerProtocolView::HandleStoreEntryAspect(d@),
            Lib3hServerProtocol::HandleQueryEntry(d) => Lib3hServerProtocolView::HandleQueryEntry(d@),
            Lib3hServerProtocol::QueryEntryResult(d) => Lib3hServerProtocolView::QueryEntryResult(d@),
            Lib3hServerProtocol::Lib3hToClient(d) => Lib3hServerProtocolView::Lib3hToClient(d@),
            Lib3hServerProtocol::ClientToLib3hResponse(d) => Lib3hServerProtocolView::ClientToLib3hResponse(d@),
        }
    }
}

impl Clone for Lib3hServerProtocol {
    fn clone(&self) -> (r: Self)
        ensures
            r@ == self@,
    {
        match self {
            Lib3hServerProtocol::FailureResult(d) => Lib3hServerProtocol::FailureResult(d.clone()),
            Lib3hServerProtocol::HandleStoreEntryAspect(d) => Lib3hServerProtocol::HandleStoreEntryAspect(d.clone()),
            Lib3hServerProtocol::HandleQueryEntry(d) => Lib3hServerProtocol::HandleQueryEntry(d.clone()),
            Lib3hServerProtocol::QueryEntryResult(d) => Lib3hServerProtocol::QueryEntryResult(d.clone()),
            Lib3hServerProtocol::Lib3hToClient(d) => Lib3hServerProtocol::Lib3hToClient(clone_bytes(d)),
            Lib3hServerProtocol::ClientToLib3hResponse(d) => Lib3hServerProtocol::ClientToLib3hResponse(clone_bytes(d)),
        }
    }
}

/// The views of a list of server messages, in order.
pub open spec fn server_message_views(v: Seq<Lib3hServerProtocol>) -> Seq<Lib3hServerProtocolView> {
    v.map_values(|x: Lib3hServerProtocol| x@)
}

/// A request of the node to the relay.
pub enum ClientToLib3h {
    JoinSpace(SpaceData),
    LeaveSpace(SpaceData),
    SendDirectMessage(Vec<u8>),
    PublishEntry(ProvidedEntryData),
}

/// The mathematical value of a [`ClientToLib3h`].
pub enum ClientToLib3hView {
    JoinSpace(SpaceDataView),
    LeaveSpace(SpaceDataView),
    SendDirectMessage(Seq<u8>),
    PublishEntry(ProvidedEntryDataView),
}

impl View for ClientToLib3h {
    type V = ClientToLib3hView;

    open spec fn view(&self) -> ClientToLib3hView {
        match self {
            ClientToLib3h::JoinSpace(d) => ClientToLib3hView::JoinSpace(d@),
            ClientToLib3h::LeaveSpace(d) => ClientToLib3hView::LeaveSpace(d@),
            ClientToLib3h::SendDirectMessage(d) => ClientToLib3hView::SendDirectMessage(d@),
            ClientToLib3h::PublishEntry(d) => ClientToLib3hView::PublishEntry(d@),
        }
    }
}

impl Clone for ClientToLib3h {
    fn clone(&self) -> (r: Self)
        ensures
            r@ == self@,
    {
        match self {
            ClientToLib3h::JoinSpace(d) => ClientToLib3h::JoinSpace(d.clone()),
            ClientToLib3h::LeaveSpace(d) => ClientToLib3h::LeaveSpace(d.clone()),
            ClientToLib3h::SendDirectMessage(d) => ClientToLib3h::SendDirectMessage(clone_bytes(d)),
            ClientToLib3h::PublishEntry(d) => ClientToLib3h::PublishEntry(d.clone()),
        }
    }
}

/// An answer of the node to a request of the relay.
pub enum Lib3hToClientResponse {
    HandleSendDirectMessageResult(Vec<u8>),
    HandleFetchEntryResult(Vec<u8>),
    HandleGetAuthoringEntryListResult(Vec<u8>),
    HandleGetGossipingEntryListResult(Vec<u8>),
}

/// The mathematical value of a [`Lib3hToClientResponse`].
pub enum Lib3hToClientResponseView {
    HandleSendDirectMessageResult(Seq<u8>),
    HandleFetchEntryResult(Seq<u8>),
    HandleGetAuthoringEntryListResult(Seq<u8>),
    HandleGetGossipingEntryListResult(Seq<u8>),
}

impl View for Lib3hToClientResponse {
    type V = Lib3hToClientResponseView;

    open spec fn view(&self) -> Lib3hToClientResponseView {
        match self {
            Lib3hToClientResponse::HandleSendDirectMessageResult(d) => Lib3hToClientResponseView::HandleSendDirectMessageResult(d@),
            Lib3hToClientResponse::HandleFetchEntryResult(d) => Lib3hToClientResponseView::HandleFetchEntryResult(d@),
            Lib3hToClientResponse::HandleGetAuthoringEntryListResult(d) => Lib3hToClientResponseView::HandleGetAuthoringEntryListResult(d@),
            Lib3hToClientResponse::HandleGetGossipingEntryListResult(d) => Lib3hToClientResponseView::HandleGetGossipingEntryListResult(d@),
        }
    }
}

impl Clone for Lib3hToClientResponse {
    fn clone(&self) -> (r: Self)
        ensures
            r@ == self@,
    {
        match self {
            Lib3hToClientResponse::HandleSendDirectMessageResult(d) => Lib3hToClientResponse::HandleSendDirectMessageResult(clone_bytes(d)),
            Lib3hToClientResponse::HandleFetchEntryResult(d) => Lib3hToClientResponse::HandleFetchEntryResult(clone_bytes(d)),
            Lib3hToClientResponse::HandleGetAuthoringEntryListResult(d) => Lib3hToClientResponse::HandleGetAuthoringEntryListResult(clone_bytes(d)),
            Lib3hToClientResponse::HandleGetGossipingEntryListResult(d) => Lib3hToClientResponse::HandleGetGossipingEntryListResult(clone_bytes(d)),
        }
    }
}

/// An error that the relay reports.
pub enum WireError {
    /// The relay got a message from an agent that it holds in no space.
    MessageWhileInLimbo,
    Other(String),
}

/// The mathematical value of a [`WireError`].
pub enum WireErrorView {
    MessageWhileInLimbo,
    Other(Seq<char>),
}

impl View for WireError {
    type V = WireErrorView;

    open spec fn view(&self) -> WireErrorView {
        match self {
            WireError::MessageWhileInLimbo => WireErrorView::MessageWhileInLimbo,
            WireError::Other(d) => WireErrorView::Other(d@),
        }
    }
}

impl Clone for WireError {
    fn clone(&self) -> (r: Self)
        ensures
            r@ == self@,
    {
        match self {
            WireError::MessageWhileInLimbo => WireError::MessageWhileInLimbo,
            WireError::Other(d) => WireError::Other(d.clone()),
        }
    }
}

/// A message between the node and the relay.
pub enum WireMessage {
    Ping,
    Pong,
    ClientToLib3h(ClientToLib3h),
    /// An answer of the relay, in serialized form.
    ClientToLib3hResponse(Vec<u8>),
    /// A request of the relay, in serialized form.
    Lib3hToClient(Vec<u8>),
    Lib3hToClientResponse(Lib3hToClientResponse),
    /// An error that the relay reports.
    Error(WireError),
}

/// The mathematical value of a [`WireMessage`].
pub enum WireMessageView {
    Ping,
    Pong,
    ClientToLib3h(ClientToLib3hView),
    ClientToLib3hResponse(Seq<u8>),
    Lib3hToClient(Seq<u8>),
    Lib3hToClientResponse(Lib3hToClientResponseView),
    Error(WireErrorView),
}

impl View for WireMessage {
    type V = WireMessageView;

    open spec fn view(&self) -> WireMessageView {
        match self {
            WireMessage::Ping => WireMessageView::Ping,
            WireMessage::Pong => WireMessageView::Pong,
            WireMessage::ClientToLib3h(d) => WireMessageView::ClientToLib3h(d@),
            WireMessage::ClientToLib3hResponse(d) => WireMessageView::ClientToLib3hResponse(d@),
            WireMessage::Lib3hToClient(d) => WireMessageView::Lib3hToClient(d@),
            WireMessage::Lib3hToClientResponse(d) => WireMessageView::Lib3hToClientResponse(d@),
            WireMessage::Error(d) => WireMessageView::Error(d@),
        }
    }
}

impl Clone for WireMessage {
    fn clone(&self) -> (r: Self)
        ensures
            r@ == self@,
    {
        match self {
            WireMessage::Ping => WireMessage::Ping,
            WireMessage::Pong => WireMessage::Pong,
            WireMessage::ClientToLib3h(d) => WireMessage::ClientToLib3h(d.clone()),
            WireMessage::ClientToLib3hResponse(d) => WireMessage::ClientToLib3hResponse(clone_bytes(d)),
            WireMessage::Lib3hToClient(d) => WireMessage::Lib3hToClient(clone_bytes(d)),
            WireMessage::Lib3hToClientResponse(d) => WireMessage::Lib3hToClientResponse(d.clone()),
            WireMessage::Error(d) => WireMessage::Error(d.clone()),
        }
    }
}

/// The views of a list of wire messages, in order.
pub open spec fn wire_message_views(v: Seq<WireMessage>) -> Seq<WireMessageView> {
    v.map_values(|x: WireMessage| x@)
}

} // verus!
