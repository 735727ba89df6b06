//! The network worker that bridges the node's protocol to the relay's wire
//! protocol.
//!
//! The worker decides; it performs no I/O. Its driver asks the transport for
//! the connection status and for stream events, hands both to the worker, and
//! carries out what the worker returns: connecting, signing and sending wire
//! messages, passing messages to the node's handler.
//!
//! The relay is taken to keep a full mirror of the space. On that assumption
//! alone, published aspects and queries are played back to the node at once
//! instead of waiting for the relay. This is an optimisation for that
//! topology, not a consistency guarantee.
use vstd::prelude::*;
use crate::protocol::{
    ClientToLib3h, ClientToLib3hView, EntryAspectData, GenericResultData, GenericResultDataView,
    Lib3hClientProtocol, Lib3hClientProtocolView, Lib3hServerProtocol, Lib3hServerProtocolView,
    Lib3hToClientResponse, Lib3hToClientResponseView, ProvidedEntryData, ProvidedEntryDataView,
    SpaceData, SpaceDataView, StoreEntryAspectData, StoreEntryAspectDataView, WireError,
    WireErrorView, WireMessage, WireMessageView, client_message_views, server_message_views,
    wire_message_views,
};
use crate::entry::{Provenance, ProvenanceView};
use crate::text::{opt_text, texts};
use crate::wire::{SignedWireMessage, SignedWireMessageView};

verus! {

/// Milliseconds that must have passed since the last connection attempt
/// before the worker asks for another.
pub const RECONNECT_INTERVAL_MS: u64 = 1000;

/// The state of the connection to the relay.
#[derive(Clone, Copy, PartialEq, Eq, Structural, Debug)]
pub enum ConnectionStatus {
    /// There is no connection and none is being set up.
    Disconnected,
    /// A connection is being set up.
    Initializing,
    /// The connection can carry messages.
    Ready,
}

/// Where the relay is found.
pub struct Sim2hConfig {
    pub sim2h_url: String,
}

/// What the transport reports to the worker.
pub enum StreamEvent {
    /// Data came in from the given address. The message is `None` where the
    /// data could not be read as a wire message.
    ReceivedData(String, Option<WireMessage>),
    /// Someone connected to this node.
    IncomingConnectionEstablished(String),
    /// The connection to the given address reported an error.
    ErrorOccured(String, String),
    /// The connection to the given address was closed.
    ConnectionClosed(String),
    /// A connection attempt to the given address ended, with a network id.
    ConnectResult(String, String),
}

/// The mathematical value of a [`StreamEvent`].
pub enum StreamEventView {
    ReceivedData(Seq<char>, Option<WireMessageView>),
    IncomingConnectionEstablished(Seq<char>),
    ErrorOccured(Seq<char>, Seq<char>),
    ConnectionClosed(Seq<char>),
    ConnectResult(Seq<char>, Seq<char>),
}

/// The view of an optional wire message.
pub open spec fn opt_wire(o: Option<WireMessage>) -> Option<WireMessageView> {
    match o {
        Some(m) => Some(m@),
        None => None,
    }
}

impl View for StreamEvent {
    type V = StreamEventView;

    open spec fn view(&self) -> StreamEventView {
        match self {
            StreamEvent::ReceivedData(uri, message) => StreamEventView::ReceivedData(
                uri@,
                opt_wire(*message),
            ),
            StreamEvent::IncomingConnectionEstablished(uri) =>
                StreamEventView::IncomingConnectionEstablished(uri@),
            StreamEvent::ErrorOccured(uri, error) => StreamEventView::ErrorOccured(uri@, error@),
            StreamEvent::ConnectionClosed(uri) => StreamEventView::ConnectionClosed(uri@),
            StreamEvent::ConnectResult(uri, net_id) => StreamEventView::ConnectResult(
                uri@,
                net_id@,
            ),
        }
    }
}

/// The views of a list of stream events, in order.
pub open spec fn stream_event_views(v: Seq<StreamEvent>) -> Seq<StreamEventView> {
    v.map_values(|e: StreamEvent| e@)
}

/// The addresses whose connections the events report as closed, in the
/// order of the events.
pub open spec fn closed_connections(events: Seq<StreamEventView>) -> Seq<Seq<char>>
    decreases events.len(),
{
    if events.len() == 0 {
        Seq::empty()
    } else {
        let rest = closed_connections(events.drop_last());
        match events.last() {
            StreamEventView::ConnectionClosed(uri) => rest.push(uri),
            _ => rest,
        }
    }
}

/// What the driver has to do after a tick.
pub struct TickPlan {
    /// Whether to start a connection attempt to the relay.
    pub connect: bool,
    /// Wire messages to sign and send to the relay, in order.
    pub to_send: Vec<WireMessage>,
    /// Messages to pass to the node's handler, in order.
    pub to_handler: Vec<Lib3hServerProtocol>,
    /// Addresses of closed connections to close on this side too.
    pub to_close: Vec<String>,
    /// Whether the tick found anything to do.
    pub did_something: bool,
}

/// The mathematical value of a [`TickPlan`].
pub struct TickPlanView {
    pub connect: bool,
    pub to_send: Seq<WireMessageView>,
    pub to_handler: Seq<Lib3hServerProtocolView>,
    pub to_close: Seq<Seq<char>>,
    pub did_something: bool,
}

impl View for TickPlan {
    type V = TickPlanView;

    open spec fn view(&self) -> TickPlanView {
        TickPlanView {
            connect: self.connect,
            to_send: wire_message_views(self.to_send@),
            to_handler: server_message_views(self.to_handler@),
            to_close: texts(self.to_close@),
            did_something: self.did_something,
        }
    }
}

/// Milliseconds from `earlier` to `now`; zero where the clock went back.
pub open spec fn elapsed_ms(now: u64, earlier: u64) -> u64 {
    if now >= earlier {
        (now - earlier) as u64
    } else {
        0
    }
}

/// The URL that a text denotes, in the form in which `url::Url` writes it
/// out again; `None` for a text that `Url::parse` does not accept.
pub uninterp spec fn parsed_url(text: Seq<char>) -> Option<Seq<char>>;

/// Calls `url::Url::parse` and, on success, `Url::as_str` on the result.
/// The contract only names what the crate makes of the text.
#[verifier::external_body]
fn parse_url(text: &str) -> (r: Option<String>)
    ensures
        opt_text(r) == parsed_url(text@),
{
    match url::Url::parse(text) {
        Ok(parsed) => Some(parsed.as_str().to_owned()),
        Err(_) => None,
    }
}

/// The worker's state.
pub struct Sim2hWorker {
    /// Messages of the node that wait for a ready connection.
    inbox: Vec<Lib3hClientProtocol>,
    /// Messages for the node that wait for the next tick.
    to_core: Vec<Lib3hServerProtocol>,
    /// Wire messages that wait to be signed and sent by the driver.
    outgoing: Vec<WireMessage>,
    server_url: String,
    /// The space that the node joined last, kept to join again.
    space_data: Option<SpaceData>,
    agent_id: String,
    time_of_last_sent: u64,
    connection_status: ConnectionStatus,
    time_of_last_connection_attempt: u64,
}

/// The mathematical value of a [`Sim2hWorker`].
pub struct Sim2hWorkerView {
    pub inbox: Seq<Lib3hClientProtocolView>,
    pub to_core: Seq<Lib3hServerProtocolView>,
    pub outgoing: Seq<WireMessageView>,
    pub server_url: Seq<char>,
    pub space_data: Option<SpaceDataView>,
    pub agent_id: Seq<char>,
    pub time_of_last_sent: u64,
    pub connection_status: ConnectionStatus,
    pub time_of_last_connection_attempt: u64,
}

/// The view of an optional space.
pub open spec fn opt_space(o: Option<SpaceData>) -> Option<SpaceDataView> {
    match o {
        Some(s) => Some(s@),
        None => None,
    }
}

impl View for Sim2hWorker {
    type V = Sim2hWorkerView;

    closed spec fn view(&self) -> Sim2hWorkerView {
        Sim2hWorkerView {
            inbox: client_message_views(self.inbox@),
            to_core: server_message_views(self.to_core@),
            outgoing: wire_message_views(self.outgoing@),
            server_url: self.server_url@,
            space_data: opt_space(self.space_data),
            agent_id: self.agent_id@,
            time_of_last_sent: self.time_of_last_sent,
            connection_status: self.connection_status,
            time_of_last_connection_attempt: self.time_of_last_connection_attempt,
        }
    }
}

/// The notification that plays one aspect of a published entry back to the
/// node.
pub open spec fn store_notification(data: ProvidedEntryDataView, i: int) -> Lib3hServerProtocolView {
    Lib3hServerProtocolView::HandleStoreEntryAspect(
        StoreEntryAspectDataView {
            request_id: Seq::empty(),
            space_address: data.space_address,
            provider_agent_id: data.provider_agent_id,
            entry_address: data.entry.entry_address,
            entry_aspect: data.entry.aspect_list[i],
        },
    )
}

/// The notifications that play a published entry back to the node: one for
/// each aspect, in the order of the aspects.
pub open spec fn store_notifications(data: ProvidedEntryDataView) -> Seq<Lib3hServerProtocolView> {
    Seq::new(data.entry.aspect_list.len(), |i: int| store_notification(data, i))
}

impl Sim2hWorkerView {
    /// No message in the inbox asks to fetch an entry.
    pub open spec fn wf(self) -> bool {
        forall|i: int| 0 <= i < self.inbox.len() ==> !(#[trigger] self.inbox[i] is FetchEntry)
    }

    /// The worker after it has queued a wire message for sending at `now`.
    pub open spec fn sent(self, message: WireMessageView, now: u64) -> Sim2hWorkerView {
        Sim2hWorkerView {
            outgoing: self.outgoing.push(message),
            time_of_last_sent: now,
            ..self
        }
    }

    /// The worker after it has queued a message for the node.
    pub open spec fn told(self, message: Lib3hServerProtocolView) -> Sim2hWorkerView {
        Sim2hWorkerView { to_core: self.to_core.push(message), ..self }
    }

    /// The worker after it has handled one message of the node at `now`.
    pub open spec fn after_client_message(
        self,
        data: Lib3hClientProtocolView,
        now: u64,
    ) -> Sim2hWorkerView {
        match data {
            Lib3hClientProtocolView::SuccessResult(result) => self.told(
                Lib3hServerProtocolView::FailureResult(result),
            ),
            Lib3hClientProtocolView::Connect(connect) => self.told(
                Lib3hServerProtocolView::FailureResult(
                    GenericResultDataView {
                        request_id: connect.request_id,
                        space_address: Seq::empty(),
                        to_agent_id: Seq::empty(),
                        result_info: Seq::empty(),
                    },
                ),
            ),
            Lib3hClientProtocolView::JoinSpace(space) => (Sim2hWorkerView {
                space_data: Some(space),
                ..self
            }).sent(WireMessageView::ClientToLib3h(ClientToLib3hView::JoinSpace(space)), now),
            Lib3hClientProtocolView::LeaveSpace(space) => self.sent(
                WireMessageView::ClientToLib3h(ClientToLib3hView::LeaveSpace(space)),
                now,
            ),
            Lib3hClientProtocolView::SendDirectMessage(message) => self.sent(
                WireMessageView::ClientToLib3h(ClientToLib3hView::SendDirectMessage(message)),
                now,
            ),
            Lib3hClientProtocolView::HandleSendDirectMessageResult(message) => self.sent(
                WireMessageView::Lib3hToClientResponse(
                    Lib3hToClientResponseView::HandleSendDirectMessageResult(message),
                ),
                now,
            ),
            Lib3hClientProtocolView::FetchEntry(_) => self,
            Lib3hClientProtocolView::HandleFetchEntryResult(result) => self.sent(
                WireMessageView::Lib3hToClientResponse(
                    Lib3hToClientResponseView::HandleFetchEntryResult(result),
                ),
                now,
            ),
            Lib3hClientProtocolView::PublishEntry(provided) => (Sim2hWorkerView {
                to_core: self.to_core + store_notifications(provided),
                ..self
            }).sent(WireMessageView::ClientToLib3h(ClientToLib3hView::PublishEntry(provided)), now),
            Lib3hClientProtocolView::QueryEntry(query) => self.told(
                Lib3hServerProtocolView::HandleQueryEntry(query),
            ),
            Lib3hClientProtocolView::HandleQueryEntryResult(result) => self.told(
                Lib3hServerProtocolView::QueryEntryResult(result),
            ),
            Lib3hClientProtocolView::HandleGetAuthoringEntryListResult(list) => self.sent(
                WireMessageView::Lib3hToClientResponse(
                    Lib3hToClientResponseView::HandleGetAuthoringEntryListResult(list),
                ),
                now,
            ),
            Lib3hClientProtocolView::HandleGetGossipingEntryListResult(list) => self.sent(
                WireMessageView::Lib3hToClientResponse(
                    Lib3hToClientResponseView::HandleGetGossipingEntryListResult(list),
                ),
                now,
            ),
            Lib3hClientProtocolView::Shutdown => self,
        }
    }

    /// The worker after it has handled one message of the relay at `now`.
    pub open spec fn after_server_message(self, message: WireMessageView, now: u64) -> Sim2hWorkerView {
        match message {
            WireMessageView::Ping => self.sent(WireMessageView::Pong, now),
            WireMessageView::Pong => self,
            WireMessageView::Lib3hToClient(m) => self.told(
                Lib3hServerProtocolView::Lib3hToClient(m),
            ),
            WireMessageView::ClientToLib3hResponse(m) => self.told(
                Lib3hServerProtocolView::ClientToLib3hResponse(m),
            ),
            WireMessageView::Lib3hToClientResponse(_) => self,
            WireMessageView::ClientToLib3h(_) => self,
            WireMessageView::Error(WireErrorView::MessageWhileInLimbo) => match self.space_data {
                Some(space) => self.sent(
                    WireMessageView::ClientToLib3h(ClientToLib3hView::JoinSpace(space)),
                    now,
                ),
                None => self,
            },
            WireMessageView::Error(WireErrorView::Other(_)) => self,
        }
    }

    /// The worker after it has handled the given messages of the node, first
    /// to last.
    pub open spec fn after_client_messages(
        self,
        messages: Seq<Lib3hClientProtocolView>,
        now: u64,
    ) -> Sim2hWorkerView
        decreases messages.len(),
    {
        if messages.len() == 0 {
            self
        } else {
            self.after_client_messages(messages.drop_last(), now).after_client_message(
                messages.last(),
                now,
            )
        }
    }

    /// The worker after one event of the transport at `now`. Only data from
    /// the relay's own address that reads as a wire message has an effect.
    pub open spec fn after_stream_event(self, event: StreamEventView, now: u64) -> Sim2hWorkerView {
        match event {
            StreamEventView::ReceivedData(uri, Some(message)) => if uri == self.server_url {
                self.after_server_message(message, now)
            } else {
                self
            },
            _ => self,
        }
    }

    /// The worker after the given events of the transport, first to last.
    pub open spec fn after_stream_events(
        self,
        events: Seq<StreamEventView>,
        now: u64,
    ) -> Sim2hWorkerView
        decreases events.len(),
    {
        if events.len() == 0 {
            self
        } else {
            self.after_stream_events(events.drop_last(), now).after_stream_event(
                events.last(),
                now,
            )
        }
    }

    /// Whether a tick at `now` that finds the connection in `status` starts
    /// a connection attempt: only without a connection, and only when more
    /// than the reconnect interval has passed since the last attempt.
    pub open spec fn reconnect_due(self, now: u64, status: ConnectionStatus) -> bool {
        status == ConnectionStatus::Disconnected && elapsed_ms(
            now,
            self.time_of_last_connection_attempt,
        ) > RECONNECT_INTERVAL_MS
    }

    /// The worker in the middle of a tick: after the connection was looked
    /// at and, on a ready connection, the inbox was worked off.
    pub open spec fn tick_outbound(self, now: u64, status: ConnectionStatus) -> Sim2hWorkerView {
        let attempted = if self.reconnect_due(now, status) {
            Sim2hWorkerView { time_of_last_connection_attempt: now, ..self }
        } else {
            self
        };
        if status == ConnectionStatus::Ready {
            (Sim2hWorkerView { inbox: Seq::empty(), ..attempted }).after_client_messages(
                self.inbox,
                now,
            )
        } else {
            attempted
        }
    }

    /// The worker after a whole tick.
    pub open spec fn after_tick(
        self,
        now: u64,
        status: ConnectionStatus,
        events: Seq<StreamEventView>,
    ) -> Sim2hWorkerView {
        let delivered = Sim2hWorkerView { to_core: Seq::empty(), ..self.tick_outbound(now, status) };
        Sim2hWorkerView { outgoing: Seq::empty(), ..delivered.after_stream_events(events, now) }
    }

    /// What a tick asks of the driver.
    pub open spec fn tick_plan(
        self,
        now: u64,
        status: ConnectionStatus,
        events: Seq<StreamEventView>,
    ) -> TickPlanView {
        let outbound = self.tick_outbound(now, status);
        let delivered = Sim2hWorkerView { to_core: Seq::empty(), ..outbound };
        TickPlanView {
            connect: self.reconnect_due(now, status),
            to_send: delivered.after_stream_events(events, now).outgoing,
            to_handler: outbound.to_core,
            to_close: closed_connections(events),
            did_something: (status == ConnectionStatus::Ready && self.inbox.len() > 0)
                || outbound.to_core.len() > 0 || events.len() > 0,
        }
    }
}

impl Sim2hWorkerView {
    /// Handling messages of the node leaves the inbox as it is.
    proof fn lemma_client_messages_keep_inbox(
        self,
        messages: Seq<Lib3hClientProtocolView>,
        now: u64,
    )
        ensures
            self.after_client_messages(messages, now).inbox == self.inbox,
        decreases messages.len(),
    {
        if messages.len() > 0 {
            self.lemma_client_messages_keep_inbox(messages.drop_last(), now);
        }
    }

    /// Handling events of the transport leaves the inbox as it is.
    proof fn lemma_stream_events_keep_inbox(self, events: Seq<StreamEventView>, now: u64)
        ensures
            self.after_stream_events(events, now).inbox == self.inbox,
        decreases events.len(),
    {
        if events.len() > 0 {
            self.lemma_stream_events_keep_inbox(events.drop_last(), now);
        }
    }

    /// A tick never leaves a request to fetch an entry in the inbox.
    proof fn lemma_tick_keeps_inbox_clean(
        self,
        now: u64,
        status: ConnectionStatus,
        events: Seq<StreamEventView>,
    )
        requires
            self.wf(),
        ensures
            self.after_tick(now, status, events).wf(),
    {
        let attempted = if self.reconnect_due(now, status) {
            Sim2hWorkerView { time_of_last_connection_attempt: now, ..self }
        } else {
            self
        };
        let outbound = self.tick_outbound(now, status);
        if status == ConnectionStatus::Ready {
            let emptied = Sim2hWorkerView { inbox: Seq::empty(), ..attempted };
            emptied.lemma_client_messages_keep_inbox(self.inbox, now);
            assert(outbound.inbox =~= Seq::empty());
        } else {
            assert(outbound.inbox == self.inbox);
        }
        let delivered = Sim2hWorkerView { to_core: Seq::empty(), ..outbound };
        delivered.lemma_stream_events_keep_inbox(events, now);
    }

    /// Handling events of the transport leaves the time of the last
    /// connection attempt as it is.
    proof fn lemma_stream_events_keep_attempt_time(self, events: Seq<StreamEventView>, now: u64)
        ensures
            self.after_stream_events(events, now).time_of_last_connection_attempt
                == self.time_of_last_connection_attempt,
        decreases events.len(),
    {
        if events.len() > 0 {
            self.lemma_stream_events_keep_attempt_time(events.drop_last(), now);
        }
    }

    /// Handling messages of the node only adds to what waits for the node,
    /// and leaves the time of the last connection attempt as it is.
    proof fn lemma_client_messages_extend_to_core(
        self,
        messages: Seq<Lib3hClientProtocolView>,
        now: u64,
    )
        ensures
            self.to_core.len() <= self.after_client_messages(messages, now).to_core.len(),
            self.after_client_messages(messages, now).to_core.subrange(
                0,
                self.to_core.len() as int,
            ) == self.to_core,
            self.after_client_messages(messages, now).time_of_last_connection_attempt
                == self.time_of_last_connection_attempt,
        decreases messages.len(),
    {
        if messages.len() > 0 {
            self.lemma_client_messages_extend_to_core(messages.drop_last(), now);
            let before = self.after_client_messages(messages.drop_last(), now);
            let after = before.after_client_message(messages.last(), now);
            assert(after.to_core.subrange(0, self.to_core.len() as int) =~= before.to_core.subrange(
                0,
                self.to_core.len() as int,
            ));
        } else {
            assert(self.to_core.subrange(0, self.to_core.len() as int) =~= self.to_core);
        }
    }
}

impl Sim2hWorker {
    /// Queues a wire message for the driver to sign and send, and notes the
    /// time.
    pub fn send_wire_message(&mut self, message: WireMessage, now_ms: u64)
        ensures
            final(self)@ == old(self)@.sent(message@, now_ms),
    {
        self.time_of_last_sent = now_ms;
        self.outgoing.push(message);
        assert(wire_message_views(self.outgoing@) =~= wire_message_views(old(self).outgoing@).push(
            message@,
        ));
    }

    /// Queues a message for the node.
    fn tell_core(&mut self, message: Lib3hServerProtocol)
        ensures
            final(self)@ == old(self)@.told(message@),
    {
        self.to_core.push(message);
        assert(server_message_views(self.to_core@) =~= server_message_views(
            old(self).to_core@,
        ).push(message@));
    }

    /// Plays a published entry back to the node: queues one store request
    /// for each of its aspects.
    fn mirror_published_aspects(&mut self, provided: &ProvidedEntryData)
        ensures
            final(self)@ == (Sim2hWorkerView {
                to_core: old(self)@.to_core + store_notifications(provided@),
                ..old(self)@
            }),
    {
        let n = provided.entry.aspect_list.len();
        let mut i: usize = 0;
        while i < n
            invariant
                i <= n,
                n == provided.entry.aspect_list.len(),
                self.inbox == old(self).inbox,
                self.outgoing == old(self).outgoing,
                self.server_url == old(self).server_url,
                self.space_data == old(self).space_data,
                self.agent_id == old(self).agent_id,
                self.time_of_last_sent == old(self).time_of_last_sent,
                self.connection_status == old(self).connection_status,
                self.time_of_last_connection_attempt == old(self).time_of_last_connection_attempt,
                server_message_views(self.to_core@) == server_message_views(old(self).to_core@)
                    + store_notifications(provided@).subrange(0, i as int),
            decreases n - i,
        {
            let aspect: EntryAspectData = provided.entry.aspect_list[i].clone();
            let notification = Lib3hServerProtocol::HandleStoreEntryAspect(
                StoreEntryAspectData {
                    request_id: String::new(),
                    space_address: provided.space_address.clone(),
                    provider_agent_id: provided.provider_agent_id.clone(),
                    entry_address: provided.entry.entry_address.clone(),
                    entry_aspect: aspect,
                },
            );
            assert(notification@ == store_notification(provided@, i as int));
            let ghost before = self.to_core@;
            self.to_core.push(notification);
            assert(server_message_views(self.to_core@) =~= server_message_views(before).push(
                notification@,
            ));
            assert(store_notifications(provided@).subrange(0, i + 1) =~= store_notifications(
                provided@,
            ).subrange(0, i as int).push(store_notification(provided@, i as int)));
            i += 1;
        }
        assert(store_notifications(provided@).subrange(0, n as int) =~= store_notifications(
            provided@,
        ));
    }

    /// Handles one message of the node: answers it locally, or queues the
    /// wire message that carries it to the relay.
    ///
    /// A request to fetch an entry never comes from the node; the worker
    /// does not accept one.
    pub fn handle_client_message(&mut self, data: Lib3hClientProtocol, now_ms: u64)
        requires
            !(data@ is FetchEntry),
        ensures
            final(self)@ == old(self)@.after_client_message(data@, now_ms),
    {
        match data {
            Lib3hClientProtocol::SuccessResult(generic_result_data) => {
                self.tell_core(Lib3hServerProtocol::FailureResult(generic_result_data));
            },
            Lib3hClientProtocol::Connect(connect_data) => {
                self.tell_core(
                    Lib3hServerProtocol::FailureResult(
                        GenericResultData {
                            request_id: connect_data.request_id,
                            space_address: String::new(),
                            to_agent_id: String::new(),
                            result_info: Vec::new(),
                        },
                    ),
                );
            },
            Lib3hClientProtocol::JoinSpace(space_data) => {
                self.space_data = Some(space_data.clone());
                self.send_wire_message(
                    WireMessage::ClientToLib3h(ClientToLib3h::JoinSpace(space_data)),
                    now_ms,
                );
            },
            Lib3hClientProtocol::LeaveSpace(space_data) => {
                self.send_wire_message(
                    WireMessage::ClientToLib3h(ClientToLib3h::LeaveSpace(space_data)),
                    now_ms,
                );
            },
            Lib3hClientProtocol::SendDirectMessage(dm_data) => {
                self.send_wire_message(
                    WireMessage::ClientToLib3h(ClientToLib3h::SendDirectMessage(dm_data)),
                    now_ms,
                );
            },
            Lib3hClientProtocol::HandleSendDirectMessageResult(dm_data) => {
                self.send_wire_message(
                    WireMessage::Lib3hToClientResponse(
                        Lib3hToClientResponse::HandleSendDirectMessageResult(dm_data),
                    ),
                    now_ms,
                );
            },
            Lib3hClientProtocol::FetchEntry(_) => {},
            Lib3hClientProtocol::HandleFetchEntryResult(fetch_entry_result_data) => {
                self.send_wire_message(
                    WireMessage::Lib3hToClientResponse(
                        Lib3hToClientResponse::HandleFetchEntryResult(fetch_entry_result_data),
                    ),
                    now_ms,
                );
            },
            Lib3hClientProtocol::PublishEntry(provided_entry_data) => {
                self.mirror_published_aspects(&provided_entry_data);
                self.send_wire_message(
                    WireMessage::ClientToLib3h(ClientToLib3h::PublishEntry(provided_entry_data)),
                    now_ms,
                );
            },
            Lib3hClientProtocol::QueryEntry(query_entry_data) => {
                self.tell_core(Lib3hServerProtocol::HandleQueryEntry(query_entry_data));
            },
            Lib3hClientProtocol::HandleQueryEntryResult(query_entry_result_data) => {
                self.tell_core(Lib3hServerProtocol::QueryEntryResult(query_entry_result_data));
            },
            Lib3hClientProtocol::HandleGetAuthoringEntryListResult(entry_list_data) => {
                self.send_wire_message(
                    WireMessage::Lib3hToClientResponse(
                        Lib3hToClientResponse::HandleGetAuthoringEntryListResult(entry_list_data),
                    ),
                    now_ms,
                );
            },
            Lib3hClientProtocol::HandleGetGossipingEntryListResult(entry_list_data) => {
                self.send_wire_message(
                    WireMessage::Lib3hToClientResponse(
                        Lib3hToClientResponse::HandleGetGossipingEntryListResult(entry_list_data),
                    ),
                    now_ms,
                );
            },
            Lib3hClientProtocol::Shutdown => {},
        }
    }

    /// Handles one message of the relay: answers a ping, passes requests and
    /// answers on to the node, joins the remembered space again when the
    /// relay has lost the session, and drops what the relay has no business
    /// sending.
    pub fn handle_server_message(&mut self, message: WireMessage, now_ms: u64)
        ensures
            final(self)@ == old(self)@.after_server_message(message@, now_ms),
    {
        match message {
            WireMessage::Ping => {
                self.send_wire_message(WireMessage::Pong, now_ms);
            },
            WireMessage::Pong => {},
            WireMessage::Lib3hToClient(m) => {
                self.tell_core(Lib3hServerProtocol::Lib3hToClient(m));
            },
            WireMessage::ClientToLib3hResponse(m) => {
                self.tell_core(Lib3hServerProtocol::ClientToLib3hResponse(m));
            },
            WireMessage::Lib3hToClientResponse(_) => {},
            WireMessage::ClientToLib3h(_) => {},
            WireMessage::Error(sim2h_error) => match sim2h_error {
                WireError::MessageWhileInLimbo => {
                    let rejoin = match &self.space_data {
                        Some(space_data) => Some(space_data.clone()),
                        None => None,
                    };
                    match rejoin {
                        Some(space_data) => {
                            self.send_wire_message(
                                WireMessage::ClientToLib3h(ClientToLib3h::JoinSpace(space_data)),
                                now_ms,
                            );
                        },
                        None => {},
                    }
                },
                WireError::Other(_) => {},
            },
        }
    }

    /// Sends a ping to the relay.
    pub fn send_ping(&mut self, now_ms: u64)
        ensures
            final(self)@ == old(self)@.sent(WireMessageView::Ping, now_ms),
    {
        self.send_wire_message(WireMessage::Ping, now_ms);
    }

    /// Takes a message of the node into the inbox. It is handled by the
    /// first tick that finds the connection ready.
    ///
    /// A request to fetch an entry never comes from the node; the worker
    /// does not accept one.
    pub fn receive(&mut self, data: Lib3hClientProtocol)
        requires
            old(self)@.wf(),
            !(data@ is FetchEntry),
        ensures
            final(self)@ == (Sim2hWorkerView {
                inbox: old(self)@.inbox.push(data@),
                ..old(self)@
            }),
            final(self)@.wf(),
    {
        self.inbox.push(data);
        assert(client_message_views(self.inbox@) =~= client_message_views(old(self).inbox@).push(
            data@,
        ));
    }

    /// Works off the inbox: handles each message in turn and leaves the
    /// inbox empty.
    fn drain_inbox(&mut self, now_ms: u64)
        requires
            old(self)@.wf(),
        ensures
            final(self)@ == (Sim2hWorkerView {
                inbox: Seq::empty(),
                ..old(self)@
            }).after_client_messages(old(self)@.inbox, now_ms),
    {
        let mut messages: Vec<Lib3hClientProtocol> = Vec::new();
        std::mem::swap(&mut self.inbox, &mut messages);
        let ghost all = client_message_views(messages@);
        let ghost start = Sim2hWorkerView { inbox: Seq::empty(), ..old(self)@ };
        assert(self@ == start) by {
            assert(client_message_views(self.inbox@) =~= Seq::empty());
        }
        assert(start.after_client_messages(all.subrange(0, 0), now_ms) == start);
        let mut i: usize = 0;
        while i < messages.len()
            invariant
                i <= messages.len(),
                all == client_message_views(messages@),
                forall|j: int| 0 <= j < all.len() ==> !(#[trigger] all[j] is FetchEntry),
                self@ == start.after_client_messages(all.subrange(0, i as int), now_ms),
            decreases messages.len() - i,
        {
            let data = messages[i].clone();
            assert(data@ == all[i as int]);
            assert(all.subrange(0, i + 1).drop_last() =~= all.subrange(0, i as int));
            assert(all.subrange(0, i + 1).last() == all[i as int]);
            self.handle_client_message(data, now_ms);
            i += 1;
        }
        assert(all.subrange(0, all.len() as int) =~= all);
    }

    /// Handles the events of the transport in turn and returns the
    /// addresses of the connections that were reported closed.
    fn handle_stream_events(&mut self, events: Vec<StreamEvent>, now_ms: u64) -> (to_close: Vec<
        String,
    >)
        ensures
            final(self)@ == old(self)@.after_stream_events(stream_event_views(events@), now_ms),
            texts(to_close@) == closed_connections(stream_event_views(events@)),
    {
        let ghost all = stream_event_views(events@);
        let ghost start = self@;
        let mut to_close: Vec<String> = Vec::new();
        assert(texts(to_close@) =~= closed_connections(all.subrange(0, 0)));
        let mut i: usize = 0;
        while i < events.len()
            invariant
                i <= events.len(),
                all == stream_event_views(events@),
                self@ == start.after_stream_events(all.subrange(0, i as int), now_ms),
                texts(to_close@) == closed_connections(all.subrange(0, i as int)),
            decreases events.len() - i,
        {
            assert(all.subrange(0, i + 1).drop_last() =~= all.subrange(0, i as int));
            assert(all.subrange(0, i + 1).last() == all[i as int]);
            assert(all[i as int] == events@[i as int]@);
            match &events[i] {
                StreamEvent::ReceivedData(uri, message) => {
                    if *uri == self.server_url {
                        match message {
                            Some(wire_message) => {
                                self.handle_server_message(wire_message.clone(), now_ms);
                            },
                            None => {},
                        }
                    }
                },
                StreamEvent::IncomingConnectionEstablished(_) => {},
                StreamEvent::ErrorOccured(_, _) => {},
                StreamEvent::ConnectionClosed(uri) => {
                    let ghost before = to_close@;
                    to_close.push(uri.clone());
                    assert(texts(to_close@) =~= texts(before).push(uri@));
                },
                StreamEvent::ConnectResult(_, _) => {},
            }
            i += 1;
        }
        assert(all.subrange(0, all.len() as int) =~= all);
        to_close
    }

    /// One round of the worker's work, at time `now_ms`, given the state of
    /// the connection and the events that the transport has reported since
    /// the last round.
    ///
    /// Without a connection, a new attempt is asked for if more than the
    /// reconnect interval has passed since the last one. On a ready
    /// connection the inbox is worked off. Whatever the connection, all
    /// messages that wait for the node are handed out, and then the events
    /// are handled. Messages that the events bring for the node wait for
    /// the next tick.
    pub fn tick(&mut self, now_ms: u64, status: ConnectionStatus, events: Vec<StreamEvent>) -> (plan:
        TickPlan)
        requires
            old(self)@.wf(),
        ensures
            final(self)@ == old(self)@.after_tick(now_ms, status, stream_event_views(events@)),
            plan@ == old(self)@.tick_plan(now_ms, status, stream_event_views(events@)),
            final(self)@.wf(),
            plan.connect ==> status == ConnectionStatus::Disconnected && elapsed_ms(
                now_ms,
                old(self)@.time_of_last_connection_attempt,
            ) > RECONNECT_INTERVAL_MS,
            plan@.to_handler == old(self)@.tick_outbound(now_ms, status).to_core,
            final(self)@.outgoing.len() == 0,
    {
        let mut did_something = false;
        let mut connect = false;
        match status {
            ConnectionStatus::Disconnected => {
                let elapsed = if now_ms >= self.time_of_last_connection_attempt {
                    now_ms - self.time_of_last_connection_attempt
                } else {
                    0
                };
                if elapsed > RECONNECT_INTERVAL_MS {
                    self.time_of_last_connection_attempt = now_ms;
                    connect = true;
                }
            },
            ConnectionStatus::Initializing => {},
            ConnectionStatus::Ready => {
                did_something = self.inbox.len() > 0;
                assert(old(self)@.inbox.len() == self.inbox.len());
                self.drain_inbox(now_ms);
            },
        }
        assert(self@ == old(self)@.tick_outbound(now_ms, status));
        let ghost outbound = self@;

        let mut to_handler: Vec<Lib3hServerProtocol> = Vec::new();
        std::mem::swap(&mut self.to_core, &mut to_handler);
        if to_handler.len() > 0 {
            did_something = true;
        }
        assert(self@ == (Sim2hWorkerView { to_core: Seq::empty(), ..outbound })) by {
            assert(server_message_views(self.to_core@) =~= Seq::empty());
        }
        assert(outbound.to_core.len() == to_handler.len());

        if events.len() > 0 {
            did_something = true;
        }
        assert(stream_event_views(events@).len() == events.len());
        let to_close = self.handle_stream_events(events, now_ms);
        let ghost handled = self@;

        let mut to_send: Vec<WireMessage> = Vec::new();
        std::mem::swap(&mut self.outgoing, &mut to_send);
        assert(self@ == (Sim2hWorkerView { outgoing: Seq::empty(), ..handled })) by {
            assert(wire_message_views(self.outgoing@) =~= Seq::empty());
        }
        proof {
            old(self)@.lemma_tick_keeps_inbox_clean(now_ms, status, stream_event_views(events@));
        }
        TickPlan { connect, to_send, to_handler, to_close, did_something }
    }

    /// A worker for the relay at the configured address and for the given
    /// agent, made at time `now_ms`. It has no connection yet: the driver
    /// connects and reports how that went.
    ///
    /// The configured address must be a URL.
    pub fn new(config: Sim2hConfig, agent_id: String, now_ms: u64) -> (r: Sim2hWorker)
        requires
            parsed_url(config.sim2h_url@) is Some,
        ensures
            r@ == (Sim2hWorkerView {
                inbox: Seq::empty(),
                to_core: Seq::empty(),
                outgoing: Seq::empty(),
                server_url: parsed_url(config.sim2h_url@).unwrap(),
                space_data: None,
                agent_id: agent_id@,
                time_of_last_sent: now_ms,
                connection_status: ConnectionStatus::Disconnected,
                time_of_last_connection_attempt: now_ms,
            }),
            r@.wf(),
    {
        let server_url = match parse_url(config.sim2h_url.as_str()) {
            Some(url) => url,
            None => unreached(),
        };
        let r = Sim2hWorker {
            inbox: Vec::new(),
            to_core: Vec::new(),
            outgoing: Vec::new(),
            server_url,
            space_data: None,
            agent_id,
            time_of_last_sent: now_ms,
            connection_status: ConnectionStatus::Disconnected,
            time_of_last_connection_attempt: now_ms,
        };
        assert(client_message_views(r.inbox@) =~= Seq::empty());
        assert(server_message_views(r.to_core@) =~= Seq::empty());
        assert(wire_message_views(r.outgoing@) =~= Seq::empty());
        r
    }

    /// A worker as [`Sim2hWorker::new`] makes it, or `None` where the
    /// configured address is no URL.
    pub fn try_new(config: Sim2hConfig, agent_id: String, now_ms: u64) -> (r: Option<Sim2hWorker>)
        ensures
            r is Some <==> parsed_url(config.sim2h_url@) is Some,
            r matches Some(worker) ==> worker@.wf() && worker@ == (Sim2hWorkerView {
                inbox: Seq::empty(),
                to_core: Seq::empty(),
                outgoing: Seq::empty(),
                server_url: parsed_url(config.sim2h_url@).unwrap(),
                space_data: None,
                agent_id: agent_id@,
                time_of_last_sent: now_ms,
                connection_status: ConnectionStatus::Disconnected,
                time_of_last_connection_attempt: now_ms,
            }),
    {
        match parse_url(config.sim2h_url.as_str()) {
            Some(_) => Some(Sim2hWorker::new(config, agent_id, now_ms)),
            None => None,
        }
    }

    /// Notes how the first attempt to connect has ended: the state that was
    /// reached, or no connection where the attempt failed.
    pub fn finish_connect(&mut self, outcome: &Result<ConnectionStatus, String>)
        ensures
            final(self)@ == (Sim2hWorkerView {
                connection_status: match outcome {
                    Ok(status) => *status,
                    Err(_) => ConnectionStatus::Disconnected,
                },
                ..old(self)@
            }),
    {
        self.connection_status = match outcome {
            Ok(status) => *status,
            Err(_) => ConnectionStatus::Disconnected,
        };
    }

    /// The envelope for a serialized wire message and the signature that
    /// the worker's agent has made for it.
    pub fn sign_wire_message(&self, serialized: &str, signature: String) -> (r: SignedWireMessage)
        ensures
            r@ == (SignedWireMessageView {
                provenance: ProvenanceView { source: self@.agent_id, signature: signature@ },
                payload: vstd::utf8::encode_utf8(serialized@),
            }),
    {
        SignedWireMessage::new(
            serialized,
            Provenance { source: self.agent_id.clone(), signature },
        )
    }

    /// The address that the worker advertises: a fixed one, since the
    /// worker takes no connections.
    pub fn advertise(self) -> (r: Option<String>)
        ensures
            opt_text(r) == parsed_url("ws://example.com"@),
    {
        parse_url("ws://example.com")
    }

    /// The address of the relay.
    pub fn p2p_endpoint(&self) -> (r: Option<String>)
        ensures
            opt_text(r) == Some(self@.server_url),
    {
        Some(self.server_url.clone())
    }

    /// The worker's own endpoint: an empty text, since it has none.
    pub fn endpoint(&self) -> (r: Option<String>)
        ensures
            opt_text(r) == Some(Seq::<char>::empty()),
    {
        Some(String::new())
    }

    /// The id of the agent that the worker sends for.
    pub fn agent_id(&self) -> (r: &String)
        ensures
            r@ == self@.agent_id,
    {
        &self.agent_id
    }

    /// The state of the connection as it was noted last.
    pub fn connection_status(&self) -> (r: ConnectionStatus)
        ensures
            r == self@.connection_status,
    {
        self.connection_status
    }

    /// How many messages of the node wait in the inbox.
    pub fn inbox_len(&self) -> (r: usize)
        ensures
            r == self@.inbox.len(),
    {
        self.inbox.len()
    }

    /// Hands out the wire messages that wait to be signed and sent, first
    /// to last, and leaves none waiting.
    pub fn take_outgoing(&mut self) -> (r: Vec<WireMessage>)
        ensures
            wire_message_views(r@) == old(self)@.outgoing,
            final(self)@ == (Sim2hWorkerView { outgoing: Seq::empty(), ..old(self)@ }),
    {
        let mut out: Vec<WireMessage> = Vec::new();
        std::mem::swap(&mut self.outgoing, &mut out);
        assert(wire_message_views(self.outgoing@) =~= Seq::empty());
        out
    }

    /// Hands out the messages that wait for the node, first to last, and
    /// leaves none waiting.
    pub fn take_server_messages(&mut self) -> (r: Vec<Lib3hServerProtocol>)
        ensures
            server_message_views(r@) == old(self)@.to_core,
            final(self)@ == (Sim2hWorkerView { to_core: Seq::empty(), ..old(self)@ }),
    {
        let mut out: Vec<Lib3hServerProtocol> = Vec::new();
        std::mem::swap(&mut self.to_core, &mut out);
        assert(server_message_views(self.to_core@) =~= Seq::empty());
        out
    }
}

/// The published entry is played back to the node as exactly one store
/// request for each of its aspects, in order, each with its own aspect and
/// so with that aspect's address and type hint, and all for the entry,
/// space and provider of the publication.
pub proof fn lemma_mirror_plays_back_each_aspect(
    worker: Sim2hWorkerView,
    provided: ProvidedEntryDataView,
    now: u64,
)
    ensures
        ({
            let after = worker.after_client_message(
                Lib3hClientProtocolView::PublishEntry(provided),
                now,
            );
            let n = provided.entry.aspect_list.len();
            &&& after.to_core.len() == worker.to_core.len() + n
            &&& after.to_core.subrange(0, worker.to_core.len() as int) == worker.to_core
            &&& forall|i: int|
                0 <= i < n ==> (#[trigger] after.to_core[worker.to_core.len() + i]
                    matches Lib3hServerProtocolView::HandleStoreEntryAspect(store) && {
                    &&& store.entry_aspect == provided.entry.aspect_list[i]
                    &&& store.entry_aspect.aspect_address
                        == provided.entry.aspect_list[i].aspect_address
                    &&& store.entry_aspect.type_hint == provided.entry.aspect_list[i].type_hint
                    &&& store.entry_address == provided.entry.entry_address
                    &&& store.space_address == provided.space_address
                    &&& store.provider_agent_id == provided.provider_agent_id
                })
            &&& after.outgoing == worker.outgoing.push(
                WireMessageView::ClientToLib3h(ClientToLib3hView::PublishEntry(provided)),
            )
        }),
{
    let after = worker.after_client_message(Lib3hClientProtocolView::PublishEntry(provided), now);
    assert(after.to_core.subrange(0, worker.to_core.len() as int) =~= worker.to_core);
}

/// What one tick is given: the time, the state of the connection, and the
/// events of the transport.
pub struct TickInput {
    pub now: u64,
    pub status: ConnectionStatus,
    pub events: Seq<StreamEventView>,
}

impl Sim2hWorkerView {
    /// The worker after the given ticks, first to last.
    pub open spec fn after_ticks(self, ticks: Seq<TickInput>) -> Sim2hWorkerView
        decreases ticks.len(),
    {
        if ticks.len() == 0 {
            self
        } else {
            let last = ticks.last();
            self.after_ticks(ticks.drop_last()).after_tick(last.now, last.status, last.events)
        }
    }

    /// A tick changes the time of the last connection attempt only when it
    /// asks for one, and then to its own time.
    pub proof fn lemma_tick_notes_attempt(
        self,
        now: u64,
        status: ConnectionStatus,
        events: Seq<StreamEventView>,
    )
        ensures
            self.after_tick(now, status, events).time_of_last_connection_attempt == if self.tick_plan(
                now,
                status,
                events,
            ).connect {
                now
            } else {
                self.time_of_last_connection_attempt
            },
    {
        let attempted = if self.reconnect_due(now, status) {
            Sim2hWorkerView { time_of_last_connection_attempt: now, ..self }
        } else {
            self
        };
        let outbound = self.tick_outbound(now, status);
        if status == ConnectionStatus::Ready {
            let emptied = Sim2hWorkerView { inbox: Seq::empty(), ..attempted };
            emptied.lemma_client_messages_extend_to_core(self.inbox, now);
        }
        let delivered = Sim2hWorkerView { to_core: Seq::empty(), ..outbound };
        delivered.lemma_stream_events_keep_attempt_time(events, now);
    }
}

/// A tick asks for a connection attempt if and only if there is no
/// connection and more than the reconnect interval has passed since the
/// last attempt.
pub proof fn lemma_tick_reconnects_when_due(
    worker: Sim2hWorkerView,
    now: u64,
    status: ConnectionStatus,
    events: Seq<StreamEventView>,
)
    ensures
        worker.tick_plan(now, status, events).connect <==> status == ConnectionStatus::Disconnected
            && elapsed_ms(now, worker.time_of_last_connection_attempt) > RECONNECT_INTERVAL_MS,
{
}

/// However often the worker ticks within the reconnect interval after a
/// connection attempt, and whatever those ticks meet, none of them asks for
/// another attempt.
pub proof fn lemma_no_reconnect_within_interval(
    worker: Sim2hWorkerView,
    ticks: Seq<TickInput>,
    i: int,
)
    requires
        0 <= i < ticks.len(),
        forall|k: int|
            0 <= k <= i ==> (#[trigger] ticks[k]).now <= worker.time_of_last_connection_attempt
                + RECONNECT_INTERVAL_MS,
    ensures
        !worker.after_ticks(ticks.take(i)).tick_plan(
            ticks[i].now,
            ticks[i].status,
            ticks[i].events,
        ).connect,
        worker.after_ticks(ticks.take(i + 1)).time_of_last_connection_attempt
            == worker.time_of_last_connection_attempt,
    decreases i,
{
    let before = worker.after_ticks(ticks.take(i));
    if i > 0 {
        lemma_no_reconnect_within_interval(worker, ticks, i - 1);
        assert(ticks.take(i).drop_last() =~= ticks.take(i - 1));
        assert(ticks.take(i) =~= ticks.take(i - 1 + 1));
    } else {
        assert(ticks.take(0).len() == 0);
    }
    assert(before.time_of_last_connection_attempt == worker.time_of_last_connection_attempt);
    before.lemma_tick_notes_attempt(ticks[i].now, ticks[i].status, ticks[i].events);
    assert(ticks.take(i + 1).drop_last() =~= ticks.take(i));
    assert(ticks.take(i + 1).last() == ticks[i]);
}

/// Whatever the connection is, and whether or not the inbox holds anything,
/// a tick hands out every message that waited for the node, in order and
/// first of all; with nothing to work off from the inbox it hands out just
/// these.
pub proof fn lemma_tick_always_delivers(
    worker: Sim2hWorkerView,
    now: u64,
    status: ConnectionStatus,
    events: Seq<StreamEventView>,
)
    ensures
        worker.to_core.len() <= worker.tick_plan(now, status, events).to_handler.len(),
        worker.tick_plan(now, status, events).to_handler.subrange(0, worker.to_core.len() as int)
            == worker.to_core,
        status != ConnectionStatus::Ready || worker.inbox.len() == 0 ==> worker.tick_plan(
            now,
            status,
            events,
        ).to_handler == worker.to_core,
        worker.after_tick(now, status, events).to_core == (Sim2hWorkerView {
            to_core: Seq::empty(),
            ..worker.tick_outbound(now, status)
        }).after_stream_events(events, now).to_core,
{
    let outbound = worker.tick_outbound(now, status);
    let attempted = if worker.reconnect_due(now, status) {
        Sim2hWorkerView { time_of_last_connection_attempt: now, ..worker }
    } else {
        worker
    };
    if status == ConnectionStatus::Ready {
        let emptied = Sim2hWorkerView { inbox: Seq::empty(), ..attempted };
        emptied.lemma_client_messages_extend_to_core(worker.inbox, now);
        assert(worker.inbox.len() == 0 ==> outbound == emptied);
    }
    assert(outbound.to_core.subrange(0, worker.to_core.len() as int) =~= worker.to_core);
}

/// Milliseconds that the first attempt to connect may take.
pub const CONNECT_TIMEOUT_MS: u64 = 5000;

/// Milliseconds to sleep after the transport was pumped.
pub const PUMP_SLEEP_MS: u64 = 10;

/// What the driver reports while it tries to connect.
pub enum ConnectEvent {
    /// The transport was asked for the state of the connection.
    Observed(ConnectionStatus),
    /// A connection attempt was started, or could not be.
    Connected(Result<(), String>),
    /// The transport was pumped for progress, or failed at it.
    Pumped(Result<(), String>),
    /// The driver has slept for the reconnect interval.
    Waited,
}

/// The mathematical value of a [`ConnectEvent`].
pub enum ConnectEventView {
    Observed(ConnectionStatus),
    Connected(Result<(), Seq<char>>),
    Pumped(Result<(), Seq<char>>),
    Waited,
}

impl View for ConnectEvent {
    type V = ConnectEventView;

    open spec fn view(&self) -> ConnectEventView {
        match self {
            ConnectEvent::Observed(s) => ConnectEventView::Observed(*s),
            ConnectEvent::Connected(Ok(_)) => ConnectEventView::Connected(Ok(())),
            ConnectEvent::Connected(Err(e)) => ConnectEventView::Connected(Err(e@)),
            ConnectEvent::Pumped(Ok(_)) => ConnectEventView::Pumped(Ok(())),
            ConnectEvent::Pumped(Err(e)) => ConnectEventView::Pumped(Err(e@)),
            ConnectEvent::Waited => ConnectEventView::Waited,
        }
    }
}

/// What the driver is to do next while it tries to connect.
pub enum ConnectStep {
    /// Ask the transport for the state of the connection.
    Observe,
    /// Start a connection attempt.
    Connect,
    /// Pump the transport for progress, keep the events it reports for the
    /// next tick, and sleep for [`PUMP_SLEEP_MS`].
    Pump,
    /// Sleep for the reconnect interval.
    Wait,
    /// Stop: the state that was reached, or why connecting failed.
    Done(Result<ConnectionStatus, String>),
}

/// The mathematical value of a [`ConnectStep`].
pub enum ConnectStepView {
    Observe,
    Connect,
    Pump,
    Wait,
    Done(Result<ConnectionStatus, Seq<char>>),
}

/// The view of how far connecting has come, or of why it failed.
pub open spec fn outcome_view(o: Result<ConnectionStatus, String>) -> Result<
    ConnectionStatus,
    Seq<char>,
> {
    match o {
        Ok(s) => Ok(s),
        Err(e) => Err(e@),
    }
}

impl View for ConnectStep {
    type V = ConnectStepView;

    open spec fn view(&self) -> ConnectStepView {
        match self {
            ConnectStep::Observe => ConnectStepView::Observe,
            ConnectStep::Connect => ConnectStepView::Connect,
            ConnectStep::Pump => ConnectStepView::Pump,
            ConnectStep::Wait => ConnectStepView::Wait,
            ConnectStep::Done(o) => ConnectStepView::Done(outcome_view(*o)),
        }
    }
}

/// A first attempt to connect, in progress: what would be reported if time
/// ran out now, and how much time there is.
pub struct ConnectAttempt {
    pub outcome: Result<ConnectionStatus, String>,
    pub timeout_ms: u64,
}

/// The mathematical value of a [`ConnectAttempt`].
pub struct ConnectAttemptView {
    pub outcome: Result<ConnectionStatus, Seq<char>>,
    pub timeout_ms: u64,
}

impl View for ConnectAttempt {
    type V = ConnectAttemptView;

    open spec fn view(&self) -> ConnectAttemptView {
        ConnectAttemptView { outcome: outcome_view(self.outcome), timeout_ms: self.timeout_ms }
    }
}

impl ConnectAttemptView {
    /// What follows a round of work once `elapsed` milliseconds have gone
    /// by since the attempt began: the end when time is up, else a wait.
    pub open spec fn round_over(self, elapsed: u64) -> ConnectStepView {
        if elapsed > self.timeout_ms {
            ConnectStepView::Done(self.outcome)
        } else {
            ConnectStepView::Wait
        }
    }

    /// The attempt after an event that comes `elapsed` milliseconds after
    /// its start, and what the driver is to do next.
    ///
    /// A ready connection ends the attempt at once. Without a connection
    /// one is asked for; while one is being set up the transport is pumped.
    /// A failure to pump ends the attempt; a failure to connect is only
    /// noted. After each round the attempt ends if time is up, with what
    /// was noted last, and goes on after a wait if it is not.
    pub open spec fn step(self, event: ConnectEventView, elapsed: u64) -> (
        ConnectAttemptView,
        ConnectStepView,
    ) {
        match event {
            ConnectEventView::Observed(ConnectionStatus::Ready) => (
                self,
                ConnectStepView::Done(Ok(ConnectionStatus::Ready)),
            ),
            ConnectEventView::Observed(ConnectionStatus::Disconnected) => (
                self,
                ConnectStepView::Connect,
            ),
            ConnectEventView::Observed(ConnectionStatus::Initializing) => (
                ConnectAttemptView { outcome: Ok(ConnectionStatus::Initializing), ..self },
                ConnectStepView::Pump,
            ),
            ConnectEventView::Connected(Ok(_)) => (self, self.round_over(elapsed)),
            ConnectEventView::Connected(Err(e)) => {
                let noted = ConnectAttemptView { outcome: Err(e), ..self };
                (noted, noted.round_over(elapsed))
            },
            ConnectEventView::Pumped(Ok(_)) => (self, self.round_over(elapsed)),
            ConnectEventView::Pumped(Err(e)) => (self, ConnectStepView::Done(Err(e))),
            ConnectEventView::Waited => (self, ConnectStepView::Observe),
        }
    }
}

impl ConnectAttempt {
    /// An attempt that may take `timeout_ms` milliseconds. The driver
    /// starts by asking the transport for the state of the connection.
    pub fn new(timeout_ms: u64) -> (r: ConnectAttempt)
        ensures
            r@ == (ConnectAttemptView { outcome: Ok(ConnectionStatus::Disconnected), timeout_ms }),
    {
        ConnectAttempt { outcome: Ok(ConnectionStatus::Disconnected), timeout_ms }
    }

    /// What follows a round of work.
    fn round_over(&self, elapsed_ms: u64) -> (r: ConnectStep)
        ensures
            r@ == self@.round_over(elapsed_ms),
    {
        if elapsed_ms > self.timeout_ms {
            ConnectStep::Done(
                match &self.outcome {
                    Ok(status) => Ok(*status),
                    Err(e) => Err(e.clone()),
                },
            )
        } else {
            ConnectStep::Wait
        }
    }

    /// Takes what the driver reports `elapsed_ms` milliseconds after the
    /// start of the attempt and says what to do next.
    pub fn try_connect(&mut self, event: ConnectEvent, elapsed_ms: u64) -> (step: ConnectStep)
        ensures
            (final(self)@, step@) == old(self)@.step(event@, elapsed_ms),
    {
        match event {
            ConnectEvent::Observed(ConnectionStatus::Ready) => ConnectStep::Done(
                Ok(ConnectionStatus::Ready),
            ),
            ConnectEvent::Observed(ConnectionStatus::Disconnected) => ConnectStep::Connect,
            ConnectEvent::Observed(ConnectionStatus::Initializing) => {
                self.outcome = Ok(ConnectionStatus::Initializing);
                ConnectStep::Pump
            },
            ConnectEvent::Connected(Ok(_)) => self.round_over(elapsed_ms),
            ConnectEvent::Connected(Err(e)) => {
                self.outcome = Err(e);
                self.round_over(elapsed_ms)
            },
            ConnectEvent::Pumped(Ok(_)) => self.round_over(elapsed_ms),
            ConnectEvent::Pumped(Err(e)) => ConnectStep::Done(Err(e)),
            ConnectEvent::Waited => ConnectStep::Observe,
        }
    }
}

/// Once time is up, the round that is under way is the last: whether it
/// tried to connect or pumped, and however that went, the attempt ends.
/// Running out of time is no error: after a round that went well the
/// attempt ends with what was noted last.
pub proof fn lemma_connect_attempt_ends_when_time_is_up(
    attempt: ConnectAttemptView,
    event: ConnectEventView,
    elapsed: u64,
)
    requires
        elapsed > attempt.timeout_ms,
        event is Connected || event is Pumped,
    ensures
        attempt.step(event, elapsed).1 is Done,
        event == ConnectEventView::Connected(Ok(())) || event == ConnectEventView::Pumped(Ok(()))
            ==> attempt.step(event, elapsed) == (attempt, ConnectStepView::Done(attempt.outcome)),
{
}

} // verus!
