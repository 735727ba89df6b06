use dht_core::entry::Provenance;
use dht_core::protocol::{ClientToLib3h, SpaceData, WireError, WireMessage};
use dht_core::wire::{strip_quotes, wire_message_into_escaped_string, SignedWireMessage};

#[test]
fn ping_and_pong_have_fixed_text() {
    assert_eq!(wire_message_into_escaped_string(&WireMessage::Ping, "\"Ping\""), "\\\"Ping\\\"");
    assert_eq!(wire_message_into_escaped_string(&WireMessage::Pong, "\"Pong\""), "\\\"Pong\\\"");
    assert_eq!(wire_message_into_escaped_string(&WireMessage::Ping, ""), "\\\"Ping\\\"");
    assert_eq!(wire_message_into_escaped_string(&WireMessage::Pong, "anything"), "\\\"Pong\\\"");
}

#[test]
fn other_messages_are_escaped_without_quotes() {
    let join = WireMessage::ClientToLib3h(ClientToLib3h::JoinSpace(SpaceData {
        request_id: "r".to_string(),
        space_address: "s".to_string(),
        agent_id: "a".to_string(),
    }));
    let json = "{\"ClientToLib3h\":{\"JoinSpace\":{\"request_id\":\"r\"}}}";
    assert_eq!(
        wire_message_into_escaped_string(&join, json),
        "{\\\"ClientToLib3h\\\":{\\\"JoinSpace\\\":{\\\"request_id\\\":\\\"r\\\"}}}"
    );
    assert_ne!(wire_message_into_escaped_string(&join, json), json);
    let err = WireMessage::Error(WireError::Other("a\\b\n".to_string()));
    assert_eq!(wire_message_into_escaped_string(&err, "a\\b\n\u{e9}"), "a\\\\b\\n\u{e9}");
    assert_eq!(wire_message_into_escaped_string(&err, ""), "");
    assert_eq!(wire_message_into_escaped_string(&err, "plain"), "plain");
}

#[test]
fn escaped_text_loses_every_quote_at_its_end() {
    let err = WireMessage::Error(WireError::MessageWhileInLimbo);
    assert_eq!(wire_message_into_escaped_string(&err, "\"x\""), "\\\"x\\");
    assert_eq!(wire_message_into_escaped_string(&err, "\""), "\\");
}

#[test]
fn strip_quotes_trims_both_ends() {
    assert_eq!(strip_quotes("\"\"abc\"\""), "abc");
    assert_eq!(strip_quotes("\"\"\""), "");
    assert_eq!(strip_quotes(""), "");
    assert_eq!(strip_quotes("a\"b"), "a\"b");
    assert_eq!(strip_quotes("\"a\"b"), "a\"b");
    assert_eq!(strip_quotes("\u{e9}\""), "\u{e9}");
    assert_eq!(strip_quotes("no quotes"), "no quotes");
}

#[test]
fn signed_message_holds_serialized_bytes() {
    let provenance = Provenance { source: "alice".to_string(), signature: "c2ln".to_string() };
    let signed = SignedWireMessage::new("{\"a\":\"\u{e9}\"}", provenance);
    assert_eq!(signed.payload, "{\"a\":\"\u{e9}\"}".as_bytes().to_vec());
    assert_eq!(signed.provenance.source, "alice");
    assert_eq!(signed.provenance.signature, "c2ln");
}
