//! The text of a wire message that is signed, and the signed envelope.
use vstd::prelude::*;
use crate::entry::{Provenance, ProvenanceView};
use crate::protocol::{WireMessage, WireMessageView};

verus! {

/// A text written as a JSON string, quotes included: what
/// `serde_json::to_string` returns for a JSON string value.
pub uninterp spec fn json_string_literal(text: Seq<char>) -> Seq<char>;

/// Calls `serde_json::to_string` on a `serde_json::Value::String` that holds
/// the text. The documentation of `to_string` names two ways to fail, a
/// `Serialize` impl that fails and a map with keys that are no strings; a
/// string value has neither. The contract only names the text returned.
#[verifier::external_body]
fn to_json_string_literal(text: &str) -> (r: String)
    ensures
        r@ == json_string_literal(text@),
{
    serde_json::to_string(&serde_json::Value::String(text.to_owned())).unwrap()
}

/// A text without the double quotes at its start.
pub open spec fn trim_start_quotes(s: Seq<char>) -> Seq<char>
    decreases s.len(),
{
    if s.len() > 0 && s[0] == '"' {
        trim_start_quotes(s.skip(1))
    } else {
        s
    }
}

/// A text without the double quotes at its end.
pub open spec fn trim_end_quotes(s: Seq<char>) -> Seq<char>
    decreases s.len(),
{
    if s.len() > 0 && s.last() == '"' {
        trim_end_quotes(s.drop_last())
    } else {
        s
    }
}

/// A text without the double quotes at its start and at its end.
pub open spec fn trim_quotes(s: Seq<char>) -> Seq<char> {
    trim_end_quotes(trim_start_quotes(s))
}

proof fn lemma_trim_start(s: Seq<char>, i: int)
    requires
        0 <= i <= s.len(),
        forall|k: int| 0 <= k < i ==> s[k] == '"',
        i < s.len() ==> s[i] != '"',
    ensures
        trim_start_quotes(s) == s.subrange(i, s.len() as int),
    decreases i,
{
    if i == 0 {
        assert(s.subrange(0, s.len() as int) =~= s);
    } else {
        let rest = s.skip(1);
        assert forall|k: int| 0 <= k < i - 1 implies rest[k] == '"' by {
            assert(rest[k] == s[k + 1]);
        }
        lemma_trim_start(rest, i - 1);
        assert(rest.subrange(i - 1, rest.len() as int) =~= s.subrange(i, s.len() as int));
    }
}

proof fn lemma_trim_end(s: Seq<char>, j: int)
    requires
        0 <= j <= s.len(),
        forall|k: int| j <= k < s.len() ==> s[k] == '"',
        j > 0 ==> s[j - 1] != '"',
    ensures
        trim_end_quotes(s) == s.subrange(0, j),
    decreases s.len() - j,
{
    if j == s.len() {
        assert(s.subrange(0, j) =~= s);
    } else {
        let rest = s.drop_last();
        lemma_trim_end(rest, j);
        assert(rest.subrange(0, j) =~= s.subrange(0, j));
    }
}

/// Strips the double quotes at the start and at the end of a text.
pub fn strip_quotes(text: &str) -> (r: String)
    ensures
        r@ == trim_quotes(text@),
{
    let len = text.unicode_len();
    let mut i: usize = 0;
    while i < len && text.get_char(i) == '"'
        invariant
            i <= len,
            len == text@.len(),
            forall|k: int| 0 <= k < i ==> text@[k] == '"',
        decreases len - i,
    {
        i += 1;
    }
    let mut j: usize = len;
    while j > i && text.get_char(j - 1) == '"'
        invariant
            i <= j <= len,
            len == text@.len(),
            forall|k: int| j <= k < len ==> text@[k] == '"',
        decreases j,
    {
        j -= 1;
    }
    proof {
        lemma_trim_start(text@, i as int);
        let tail = text@.subrange(i as int, len as int);
        assert forall|k: int| j - i <= k < tail.len() implies tail[k] == '"' by {
            assert(tail[k] == text@[k + i]);
        }
        lemma_trim_end(tail, j - i);
        assert(tail.subrange(0, j - i) =~= text@.subrange(i as int, j as int));
    }
    String::from_str(text.substring_char(i, j))
}

/// The text of a wire message that is signed, given the message in
/// serialized form: a fixed text for a ping and for a pong; for every other
/// message its serialized form written as a JSON string, without the quotes
/// around it.
pub open spec fn escaped_text(message: WireMessageView, serialized: Seq<char>) -> Seq<char> {
    match message {
        WireMessageView::Ping => "\\\"Ping\\\""@,
        WireMessageView::Pong => "\\\"Pong\\\""@,
        _ => trim_quotes(json_string_literal(serialized)),
    }
}

/// The text of a wire message that is signed, given the message in
/// serialized form.
pub fn wire_message_into_escaped_string(message: &WireMessage, serialized: &str) -> (r: String)
    ensures
        r@ == escaped_text(message@, serialized@),
{
    match message {
        WireMessage::Ping => String::from_str("\\\"Ping\\\""),
        WireMessage::Pong => String::from_str("\\\"Pong\\\""),
        _ => {
            let literal = to_json_string_literal(serialized);
            strip_quotes(literal.as_str())
        },
    }
}

/// A wire message with the signature of the agent that sends it.
pub struct SignedWireMessage {
    pub provenance: Provenance,
    /// The message in serialized form.
    pub payload: Vec<u8>,
}

/// The mathematical value of a [`SignedWireMessage`].
pub struct SignedWireMessageView {
    pub provenance: ProvenanceView,
    pub payload: Seq<u8>,
}

impl View for SignedWireMessage {
    type V = SignedWireMessageView;

    open spec fn view(&self) -> SignedWireMessageView {
        SignedWireMessageView { provenance: self.provenance@, payload: self.payload@ }
    }
}

impl SignedWireMessage {
    /// Puts a serialized message and the provenance that signs it into one
    /// envelope.
    pub fn new(serialized: &str, provenance: Provenance) -> (r: SignedWireMessage)
        ensures
            r@ == (SignedWireMessageView {
                provenance: provenance@,
                payload: vstd::utf8::encode_utf8(serialized@),
            }),
    {
        SignedWireMessage { provenance, payload: serialized.as_bytes_vec() }
    }
}

} // verus!
