use dht_core::protocol::{
    ClientToLib3h, ConnectData, EntryAspectData, EntryData, GenericResultData,
    Lib3hClientProtocol, Lib3hServerProtocol, Lib3hToClientResponse, ProvidedEntryData,
    QueryEntryData, QueryEntryResultData, SpaceData, WireError, WireMessage,
};
use dht_core::sim2h_worker::{
    ConnectAttempt, ConnectEvent, ConnectStep, ConnectionStatus, Sim2hConfig, Sim2hWorker,
    StreamEvent, CONNECT_TIMEOUT_MS, PUMP_SLEEP_MS, RECONNECT_INTERVAL_MS,
};

const RELAY: &str = "wss://sim2h.example.org:9000/";

fn worker_at(now: u64) -> Sim2hWorker {
    let config = Sim2hConfig { sim2h_url: "wss://sim2h.example.org:9000".to_string() };
    Sim2hWorker::new(config, "alice".to_string(), now)
}

fn space() -> SpaceData {
    SpaceData {
        request_id: "r1".to_string(),
        space_address: "QmDna".to_string(),
        agent_id: "alice".to_string(),
    }
}

fn aspect(n: u8) -> EntryAspectData {
    EntryAspectData {
        aspect_address: format!("QmAspect{}", n),
        type_hint: if n % 2 == 0 { "content".to_string() } else { "link_add".to_string() },
        aspect: vec![n, n, n],
        publish_ts: 1000 + n as u64,
    }
}

fn provided(n: u8) -> ProvidedEntryData {
    ProvidedEntryData {
        space_address: "QmDna".to_string(),
        provider_agent_id: "alice".to_string(),
        entry: EntryData {
            entry_address: "QmEntry".to_string(),
            aspect_list: (0..n).map(aspect).collect(),
        },
    }
}

fn query() -> QueryEntryData {
    QueryEntryData {
        space_address: "QmDna".to_string(),
        entry_address: "QmEntry".to_string(),
        request_id: "q1".to_string(),
        requester_agent_id: "alice".to_string(),
        query: b"links".to_vec(),
    }
}

#[test]
fn constants_of_the_worker() {
    assert_eq!(RECONNECT_INTERVAL_MS, 1000);
    assert_eq!(CONNECT_TIMEOUT_MS, 5000);
    assert_eq!(PUMP_SLEEP_MS, 10);
}

#[test]
fn new_worker_normalizes_url() {
    let w = worker_at(5);
    assert_eq!(w.p2p_endpoint(), Some(RELAY.to_string()));
    assert_eq!(w.endpoint(), Some("".to_string()));
    assert_eq!(w.agent_id(), "alice");
    assert_eq!(w.connection_status(), ConnectionStatus::Disconnected);
    assert_eq!(w.inbox_len(), 0);
    assert_eq!(w.advertise(), Some("ws://example.com/".to_string()));
}

#[test]
fn try_new_rejects_bad_url() {
    let bad = Sim2hConfig { sim2h_url: "not a url".to_string() };
    assert!(Sim2hWorker::try_new(bad, "alice".to_string(), 0).is_none());
    let empty = Sim2hConfig { sim2h_url: "".to_string() };
    assert!(Sim2hWorker::try_new(empty, "alice".to_string(), 0).is_none());
    let good = Sim2hConfig { sim2h_url: "ws://localhost:9000".to_string() };
    let w = Sim2hWorker::try_new(good, "alice".to_string(), 0).unwrap();
    assert_eq!(w.p2p_endpoint(), Some("ws://localhost:9000/".to_string()));
}

#[test]
fn publish_is_mirrored_once_per_aspect() {
    for n in [0u8, 1, 3] {
        let mut w = worker_at(0);
        w.handle_client_message(Lib3hClientProtocol::PublishEntry(provided(n)), 42);
        let to_core = w.take_server_messages();
        assert_eq!(to_core.len(), n as usize);
        for (i, m) in to_core.iter().enumerate() {
            match m {
                Lib3hServerProtocol::HandleStoreEntryAspect(store) => {
                    assert_eq!(store.request_id, "");
                    assert_eq!(store.space_address, "QmDna");
                    assert_eq!(store.provider_agent_id, "alice");
                    assert_eq!(store.entry_address, "QmEntry");
                    assert_eq!(store.entry_aspect.aspect_address, format!("QmAspect{}", i));
                    assert_eq!(store.entry_aspect.type_hint, aspect(i as u8).type_hint);
                    assert_eq!(store.entry_aspect.aspect, vec![i as u8; 3]);
                    assert_eq!(store.entry_aspect.publish_ts, 1000 + i as u64);
                }
                _ => panic!("a store request"),
            }
        }
        let out = w.take_outgoing();
        assert_eq!(out.len(), 1);
        match &out[0] {
            WireMessage::ClientToLib3h(ClientToLib3h::PublishEntry(p)) => {
                assert_eq!(p.entry.aspect_list.len(), n as usize);
                assert_eq!(p.entry.entry_address, "QmEntry");
            }
            _ => panic!("the publication goes to the relay"),
        }
    }
}

#[test]
fn query_is_answered_locally() {
    let mut w = worker_at(0);
    w.handle_client_message(Lib3hClientProtocol::QueryEntry(query()), 1);
    assert!(w.take_outgoing().is_empty());
    let to_core = w.take_server_messages();
    assert_eq!(to_core.len(), 1);
    match &to_core[0] {
        Lib3hServerProtocol::HandleQueryEntry(q) => {
            assert_eq!(q.request_id, "q1");
            assert_eq!(q.query, b"links".to_vec());
        }
        _ => panic!("the query comes back"),
    }
    let result = QueryEntryResultData {
        space_address: "QmDna".to_string(),
        entry_address: "QmEntry".to_string(),
        request_id: "q1".to_string(),
        requester_agent_id: "alice".to_string(),
        responder_agent_id: "alice".to_string(),
        query_result: b"[]".to_vec(),
    };
    w.handle_client_message(Lib3hClientProtocol::HandleQueryEntryResult(result), 2);
    assert!(w.take_outgoing().is_empty());
    let to_core = w.take_server_messages();
    assert!(matches!(&to_core[0], Lib3hServerProtocol::QueryEntryResult(r) if r.query_result == b"[]".to_vec()));
}

#[test]
fn connect_and_success_are_reported_as_failure() {
    let mut w = worker_at(0);
    w.handle_client_message(
        Lib3hClientProtocol::Connect(ConnectData {
            request_id: "c1".to_string(),
            peer_location: "wss://peer".to_string(),
            network_id: "net".to_string(),
        }),
        1,
    );
    w.handle_client_message(
        Lib3hClientProtocol::SuccessResult(GenericResultData {
            request_id: "s1".to_string(),
            space_address: "QmDna".to_string(),
            to_agent_id: "bob".to_string(),
            result_info: b"ok".to_vec(),
        }),
        1,
    );
    assert!(w.take_outgoing().is_empty());
    let to_core = w.take_server_messages();
    assert_eq!(to_core.len(), 2);
    match &to_core[0] {
        Lib3hServerProtocol::FailureResult(g) => {
            assert_eq!(g.request_id, "c1");
            assert_eq!(g.space_address, "");
            assert_eq!(g.to_agent_id, "");
            assert!(g.result_info.is_empty());
        }
        _ => panic!("a failure"),
    }
    match &to_core[1] {
        Lib3hServerProtocol::FailureResult(g) => {
            assert_eq!(g.request_id, "s1");
            assert_eq!(g.to_agent_id, "bob");
            assert_eq!(g.result_info, b"ok".to_vec());
        }
        _ => panic!("a failure"),
    }
}

#[test]
fn client_messages_map_to_wire_messages() {
    let mut w = worker_at(0);
    w.handle_client_message(Lib3hClientProtocol::JoinSpace(space()), 1);
    w.handle_client_message(Lib3hClientProtocol::LeaveSpace(space()), 2);
    w.handle_client_message(Lib3hClientProtocol::SendDirectMessage(vec![1]), 3);
    w.handle_client_message(Lib3hClientProtocol::HandleSendDirectMessageResult(vec![2]), 4);
    w.handle_client_message(Lib3hClientProtocol::HandleFetchEntryResult(vec![3]), 5);
    w.handle_client_message(Lib3hClientProtocol::HandleGetAuthoringEntryListResult(vec![4]), 6);
    w.handle_client_message(Lib3hClientProtocol::HandleGetGossipingEntryListResult(vec![5]), 7);
    w.handle_client_message(Lib3hClientProtocol::Shutdown, 8);
    assert!(w.take_server_messages().is_empty());
    let out = w.take_outgoing();
    assert_eq!(out.len(), 7);
    assert!(matches!(&out[0], WireMessage::ClientToLib3h(ClientToLib3h::JoinSpace(s)) if s.request_id == "r1"));
    assert!(matches!(&out[1], WireMessage::ClientToLib3h(ClientToLib3h::LeaveSpace(_))));
    assert!(matches!(&out[2], WireMessage::ClientToLib3h(ClientToLib3h::SendDirectMessage(d)) if d == &vec![1]));
    assert!(matches!(&out[3], WireMessage::Lib3hToClientResponse(Lib3hToClientResponse::HandleSendDirectMessageResult(d)) if d == &vec![2]));
    assert!(matches!(&out[4], WireMessage::Lib3hToClientResponse(Lib3hToClientResponse::HandleFetchEntryResult(d)) if d == &vec![3]));
    assert!(matches!(&out[5], WireMessage::Lib3hToClientResponse(Lib3hToClientResponse::HandleGetAuthoringEntryListResult(d)) if d == &vec![4]));
    assert!(matches!(&out[6], WireMessage::Lib3hToClientResponse(Lib3hToClientResponse::HandleGetGossipingEntryListResult(d)) if d == &vec![5]));
}

#[test]
fn ping_is_answered_with_pong() {
    let mut w = worker_at(0);
    w.handle_server_message(WireMessage::Ping, 9);
    let out = w.take_outgoing();
    assert_eq!(out.len(), 1);
    assert!(matches!(out[0], WireMessage::Pong));
    w.handle_server_message(WireMessage::Pong, 9);
    assert!(w.take_outgoing().is_empty());
    w.send_ping(10);
    assert!(matches!(w.take_outgoing()[0], WireMessage::Ping));
}

#[test]
fn relay_messages_are_passed_to_the_node() {
    let mut w = worker_at(0);
    w.handle_server_message(WireMessage::Lib3hToClient(vec![7, 7]), 1);
    w.handle_server_message(WireMessage::ClientToLib3hResponse(vec![8]), 1);
    let to_core = w.take_server_messages();
    assert_eq!(to_core.len(), 2);
    assert!(matches!(&to_core[0], Lib3hServerProtocol::Lib3hToClient(b) if b == &vec![7, 7]));
    assert!(matches!(&to_core[1], Lib3hServerProtocol::ClientToLib3hResponse(b) if b == &vec![8]));
    assert!(w.take_outgoing().is_empty());
}

#[test]
fn misdirected_messages_are_dropped() {
    let mut w = worker_at(0);
    w.handle_server_message(WireMessage::ClientToLib3h(ClientToLib3h::JoinSpace(space())), 1);
    w.handle_server_message(
        WireMessage::Lib3hToClientResponse(Lib3hToClientResponse::HandleFetchEntryResult(vec![])),
        1,
    );
    w.handle_server_message(WireMessage::Error(WireError::Other("boom".to_string())), 1);
    assert!(w.take_outgoing().is_empty());
    assert!(w.take_server_messages().is_empty());
}

#[test]
fn limbo_rejoins_remembered_space() {
    let mut w = worker_at(0);
    w.handle_server_message(WireMessage::Error(WireError::MessageWhileInLimbo), 1);
    assert!(w.take_outgoing().is_empty());
    w.handle_client_message(Lib3hClientProtocol::JoinSpace(space()), 2);
    w.take_outgoing();
    w.handle_server_message(WireMessage::Error(WireError::MessageWhileInLimbo), 3);
    let out = w.take_outgoing();
    assert_eq!(out.len(), 1);
    match &out[0] {
        WireMessage::ClientToLib3h(ClientToLib3h::JoinSpace(s)) => {
            assert_eq!(s.space_address, "QmDna");
            assert_eq!(s.agent_id, "alice");
            assert_eq!(s.request_id, "r1");
        }
        _ => panic!("the worker joins again"),
    }
}

#[test]
fn tick_reconnects_only_after_interval() {
    let mut w = worker_at(10_000);
    let plan = w.tick(10_500, ConnectionStatus::Disconnected, vec![]);
    assert!(!plan.connect);
    assert!(!plan.did_something);
    let plan = w.tick(11_000, ConnectionStatus::Disconnected, vec![]);
    assert!(!plan.connect);
    let plan = w.tick(11_001, ConnectionStatus::Disconnected, vec![]);
    assert!(plan.connect);
    let plan = w.tick(11_002, ConnectionStatus::Disconnected, vec![]);
    assert!(!plan.connect);
    let plan = w.tick(12_001, ConnectionStatus::Disconnected, vec![]);
    assert!(!plan.connect);
    let plan = w.tick(12_002, ConnectionStatus::Disconnected, vec![]);
    assert!(plan.connect);
    let plan = w.tick(20_000, ConnectionStatus::Initializing, vec![]);
    assert!(!plan.connect);
    let plan = w.tick(20_000, ConnectionStatus::Ready, vec![]);
    assert!(!plan.connect);
    let plan = w.tick(5, ConnectionStatus::Disconnected, vec![]);
    assert!(!plan.connect);
}

#[test]
fn tick_holds_inbox_until_ready() {
    let mut w = worker_at(0);
    w.receive(Lib3hClientProtocol::JoinSpace(space()));
    w.receive(Lib3hClientProtocol::PublishEntry(provided(2)));
    assert_eq!(w.inbox_len(), 2);
    let plan = w.tick(100, ConnectionStatus::Initializing, vec![]);
    assert!(plan.to_send.is_empty());
    assert!(plan.to_handler.is_empty());
    assert!(!plan.did_something);
    assert_eq!(w.inbox_len(), 2);
    let plan = w.tick(200, ConnectionStatus::Disconnected, vec![]);
    assert!(plan.to_send.is_empty());
    assert_eq!(w.inbox_len(), 2);
    let plan = w.tick(300, ConnectionStatus::Ready, vec![]);
    assert!(plan.did_something);
    assert_eq!(w.inbox_len(), 0);
    assert_eq!(plan.to_send.len(), 2);
    assert!(matches!(&plan.to_send[0], WireMessage::ClientToLib3h(ClientToLib3h::JoinSpace(_))));
    assert!(matches!(&plan.to_send[1], WireMessage::ClientToLib3h(ClientToLib3h::PublishEntry(_))));
    assert_eq!(plan.to_handler.len(), 2);
    assert!(matches!(&plan.to_handler[0], Lib3hServerProtocol::HandleStoreEntryAspect(_)));
    let plan = w.tick(400, ConnectionStatus::Ready, vec![]);
    assert!(!plan.did_something);
    assert!(plan.to_send.is_empty() && plan.to_handler.is_empty());
}

#[test]
fn tick_delivers_to_node_whatever_the_connection() {
    for status in [
        ConnectionStatus::Disconnected,
        ConnectionStatus::Initializing,
        ConnectionStatus::Ready,
    ] {
        let mut w = worker_at(0);
        w.handle_client_message(Lib3hClientProtocol::QueryEntry(query()), 1);
        assert_eq!(w.inbox_len(), 0);
        let plan = w.tick(2, status, vec![]);
        assert_eq!(plan.to_handler.len(), 1);
        assert!(plan.did_something);
        assert!(matches!(&plan.to_handler[0], Lib3hServerProtocol::HandleQueryEntry(_)));
        let plan = w.tick(3, status, vec![]);
        assert!(plan.to_handler.is_empty());
    }
}

#[test]
fn tick_handles_stream_events() {
    let mut w = worker_at(0);
    let events = vec![
        StreamEvent::ReceivedData(RELAY.to_string(), Some(WireMessage::Ping)),
        StreamEvent::ReceivedData("wss://stranger/".to_string(), Some(WireMessage::Ping)),
        StreamEvent::ReceivedData(RELAY.to_string(), None),
        StreamEvent::ReceivedData(RELAY.to_string(), Some(WireMessage::Lib3hToClient(vec![1]))),
        StreamEvent::IncomingConnectionEstablished("wss://stranger/".to_string()),
        StreamEvent::ErrorOccured(RELAY.to_string(), "reset".to_string()),
        StreamEvent::ConnectionClosed(RELAY.to_string()),
        StreamEvent::ConnectResult(RELAY.to_string(), "net".to_string()),
        StreamEvent::ConnectionClosed("wss://other/".to_string()),
    ];
    let plan = w.tick(50, ConnectionStatus::Ready, events);
    assert!(plan.did_something);
    assert_eq!(plan.to_send.len(), 1);
    assert!(matches!(plan.to_send[0], WireMessage::Pong));
    assert_eq!(plan.to_close, vec![RELAY.to_string(), "wss://other/".to_string()]);
    assert!(plan.to_handler.is_empty());
    let plan = w.tick(60, ConnectionStatus::Ready, vec![]);
    assert_eq!(plan.to_handler.len(), 1);
    assert!(matches!(&plan.to_handler[0], Lib3hServerProtocol::Lib3hToClient(b) if b == &vec![1]));
}

#[test]
fn finish_connect_notes_status() {
    let mut w = worker_at(0);
    w.finish_connect(&Ok(ConnectionStatus::Ready));
    assert_eq!(w.connection_status(), ConnectionStatus::Ready);
    w.finish_connect(&Ok(ConnectionStatus::Initializing));
    assert_eq!(w.connection_status(), ConnectionStatus::Initializing);
    w.finish_connect(&Err("refused".to_string()));
    assert_eq!(w.connection_status(), ConnectionStatus::Disconnected);
}

#[test]
fn connect_attempt_ends_when_ready() {
    let mut a = ConnectAttempt::new(CONNECT_TIMEOUT_MS);
    assert!(matches!(
        a.try_connect(ConnectEvent::Observed(ConnectionStatus::Ready), 0),
        ConnectStep::Done(Ok(ConnectionStatus::Ready))
    ));
}

#[test]
fn connect_attempt_connects_pumps_and_waits() {
    let mut a = ConnectAttempt::new(CONNECT_TIMEOUT_MS);
    assert!(matches!(
        a.try_connect(ConnectEvent::Observed(ConnectionStatus::Disconnected), 0),
        ConnectStep::Connect
    ));
    assert!(matches!(a.try_connect(ConnectEvent::Connected(Ok(())), 1), ConnectStep::Wait));
    assert!(matches!(a.try_connect(ConnectEvent::Waited, 1001), ConnectStep::Observe));
    assert!(matches!(
        a.try_connect(ConnectEvent::Observed(ConnectionStatus::Initializing), 1001),
        ConnectStep::Pump
    ));
    assert!(matches!(a.try_connect(ConnectEvent::Pumped(Ok(())), 1011), ConnectStep::Wait));
    assert!(matches!(a.try_connect(ConnectEvent::Pumped(Ok(())), 5000), ConnectStep::Wait));
    assert!(matches!(
        a.try_connect(ConnectEvent::Pumped(Ok(())), 5001),
        ConnectStep::Done(Ok(ConnectionStatus::Initializing))
    ));
}

#[test]
fn connect_attempt_times_out_without_connection() {
    let mut a = ConnectAttempt::new(CONNECT_TIMEOUT_MS);
    assert!(matches!(
        a.try_connect(ConnectEvent::Connected(Ok(())), 6000),
        ConnectStep::Done(Ok(ConnectionStatus::Disconnected))
    ));
}

#[test]
fn connect_attempt_notes_connect_failure() {
    let mut a = ConnectAttempt::new(CONNECT_TIMEOUT_MS);
    assert!(matches!(
        a.try_connect(ConnectEvent::Connected(Err("refused".to_string())), 10),
        ConnectStep::Wait
    ));
    match a.try_connect(ConnectEvent::Connected(Ok(())), 5001) {
        ConnectStep::Done(Err(e)) => assert_eq!(e, "refused"),
        _ => panic!("the failure is reported when time is up"),
    }
    let mut a = ConnectAttempt::new(CONNECT_TIMEOUT_MS);
    a.try_connect(ConnectEvent::Connected(Err("refused".to_string())), 10);
    a.try_connect(ConnectEvent::Observed(ConnectionStatus::Initializing), 1010);
    assert!(matches!(
        a.try_connect(ConnectEvent::Pumped(Ok(())), 5001),
        ConnectStep::Done(Ok(ConnectionStatus::Initializing))
    ));
}

#[test]
fn connect_attempt_ends_on_pump_failure() {
    let mut a = ConnectAttempt::new(CONNECT_TIMEOUT_MS);
    a.try_connect(ConnectEvent::Observed(ConnectionStatus::Initializing), 0);
    match a.try_connect(ConnectEvent::Pumped(Err("tls".to_string())), 10) {
        ConnectStep::Done(Err(e)) => assert_eq!(e, "tls"),
        _ => panic!("pumping failed"),
    }
}
