//! Entries, chain headers and the pairs that are validated and stored.
use vstd::prelude::*;
use crate::text::{clone_opt_text, clone_texts, opt_text, texts};

verus! {

/// The kind of an entry on a source chain.
pub enum EntryType {
    AgentId,
    App(String),
    Dna,
    LinkAdd,
    LinkRemove,
    LinkList,
    ChainHeader,
    ChainMigrate,
    Deletion,
    CapTokenGrant,
    CapTokenClaim,
}

/// The mathematical value of an [`EntryType`].
pub enum EntryTypeView {
    AgentId,
    App(Seq<char>),
    Dna,
    LinkAdd,
    LinkRemove,
    LinkList,
    ChainHeader,
    ChainMigrate,
    Deletion,
    CapTokenGrant,
    CapTokenClaim,
}

impl View for EntryType {
    type V = EntryTypeView;

    open spec fn view(&self) -> EntryTypeView {
        match self {
            EntryType::AgentId => EntryTypeView::AgentId,
            EntryType::App(name) => EntryTypeView::App(name@),
            EntryType::Dna => EntryTypeView::Dna,
            EntryType::LinkAdd => EntryTypeView::LinkAdd,
            EntryType::LinkRemove => EntryTypeView::LinkRemove,
            EntryType::LinkList => EntryTypeView::LinkList,
            EntryType::ChainHeader => EntryTypeView::ChainHeader,
            EntryType::ChainMigrate => EntryTypeView::ChainMigrate,
            EntryType::Deletion => EntryTypeView::Deletion,
            EntryType::CapTokenGrant => EntryTypeView::CapTokenGrant,
            EntryType::CapTokenClaim => EntryTypeView::CapTokenClaim,
        }
    }
}

impl Clone for EntryType {
    fn clone(&self) -> (r: Self)
        ensures
            r@ == self@,
    {
        match self {
            EntryType::AgentId => EntryType::AgentId,
            EntryType::App(name) => EntryType::App(name.clone()),
            EntryType::Dna => EntryType::Dna,
            EntryType::LinkAdd => EntryType::LinkAdd,
            EntryType::LinkRemove => EntryType::LinkRemove,
            EntryType::LinkList => EntryType::LinkList,
            EntryType::ChainHeader => EntryType::ChainHeader,
            EntryType::ChainMigrate => EntryType::ChainMigrate,
            EntryType::Deletion => EntryType::Deletion,
            EntryType::CapTokenGrant => EntryType::CapTokenGrant,
            EntryType::CapTokenClaim => EntryType::CapTokenClaim,
        }
    }
}

impl EntryType {
    /// Whether two entry types are the same kind, with the same name for
    /// application types.
    pub fn same(&self, other: &EntryType) -> (r: bool)
        ensures
            r == (self@ == other@),
    {
        match (self, other) {
            (EntryType::AgentId, EntryType::AgentId) => true,
            (EntryType::App(a), EntryType::App(b)) => *a == *b,
            (EntryType::Dna, EntryType::Dna) => true,
            (EntryType::LinkAdd, EntryType::LinkAdd) => true,
            (EntryType::LinkRemove, EntryType::LinkRemove) => true,
            (EntryType::LinkList, EntryType::LinkList) => true,
            (EntryType::ChainHeader, EntryType::ChainHeader) => true,
            (EntryType::ChainMigrate, EntryType::ChainMigrate) => true,
            (EntryType::Deletion, EntryType::Deletion) => true,
            (EntryType::CapTokenGrant, EntryType::CapTokenGrant) => true,
            (EntryType::CapTokenClaim, EntryType::CapTokenClaim) => true,
            _ => false,
        }
    }
}


/// The name under which an entry type is written in messages: the
/// application's own name for its types, a fixed name for the others.
pub open spec fn entry_type_name(t: EntryTypeView) -> Seq<char> {
    match t {
        EntryTypeView::AgentId => "%agent_id"@,
        EntryTypeView::App(name) => name,
        EntryTypeView::Dna => "%dna"@,
        EntryTypeView::LinkAdd => "%link_add"@,
        EntryTypeView::LinkRemove => "%link_remove"@,
        EntryTypeView::LinkList => "%link_list"@,
        EntryTypeView::ChainHeader => "%chain_header"@,
        EntryTypeView::ChainMigrate => "%chain_migrate"@,
        EntryTypeView::Deletion => "%deletion"@,
        EntryTypeView::CapTokenGrant => "%cap_token_grant"@,
        EntryTypeView::CapTokenClaim => "%cap_token_claim"@,
    }
}

impl EntryType {
    /// The name of this entry type as text.
    pub fn name(&self) -> (r: String)
        ensures
            r@ == entry_type_name(self@),
    {
        match self {
            EntryType::AgentId => String::from_str("%agent_id"),
            EntryType::App(name) => name.clone(),
            EntryType::Dna => String::from_str("%dna"),
            EntryType::LinkAdd => String::from_str("%link_add"),
            EntryType::LinkRemove => String::from_str("%link_remove"),
            EntryType::LinkList => String::from_str("%link_list"),
            EntryType::ChainHeader => String::from_str("%chain_header"),
            EntryType::ChainMigrate => String::from_str("%chain_migrate"),
            EntryType::Deletion => String::from_str("%deletion"),
            EntryType::CapTokenGrant => String::from_str("%cap_token_grant"),
            EntryType::CapTokenClaim => String::from_str("%cap_token_claim"),
        }
    }
}

/// Who signed a header: the signer's address and the signature.
pub struct Provenance {
    pub source: String,
    pub signature: String,
}

/// The mathematical value of a [`Provenance`].
pub struct ProvenanceView {
    pub source: Seq<char>,
    pub signature: Seq<char>,
}

impl View for Provenance {
    type V = ProvenanceView;

    open spec fn view(&self) -> ProvenanceView {
        ProvenanceView { source: self.source@, signature: self.signature@ }
    }
}

impl Clone for Provenance {
    fn clone(&self) -> (r: Self)
        ensures
            r@ == self@,
    {
        Provenance { source: self.source.clone(), signature: self.signature.clone() }
    }
}

/// The views of a list of provenances, in order.
pub open spec fn provenance_views(v: Seq<Provenance>) -> Seq<ProvenanceView> {
    v.map_values(|p: Provenance| p@)
}

/// A copy of a list of provenances.
pub fn clone_provenances(v: &Vec<Provenance>) -> (r: Vec<Provenance>)
    ensures
        provenance_views(r@) == provenance_views(v@),
{
    let mut out: Vec<Provenance> = Vec::new();
    let mut i: usize = 0;
    while i < v.len()
        invariant
            i <= v.len(),
            out.len() == i,
            forall|j: int| 0 <= j < i ==> out@[j]@ == v@[j]@,
        decreases v.len() - i,
    {
        out.push(v[i].clone());
        i += 1;
    }
    assert(provenance_views(out@) =~= provenance_views(v@));
    out
}

/// The instant, in whole seconds since the Unix epoch, that an RFC 3339 text
/// denotes; `None` for a text that is no RFC 3339 date and time.
pub uninterp spec fn unix_seconds_of_rfc3339(text: Seq<char>) -> Option<i64>;

/// Calls `chrono::DateTime::parse_from_rfc3339` and, on success,
/// `DateTime::timestamp` on the result. The contract only names what chrono
/// computes from the text; nothing about the value itself is claimed.
#[verifier::external_body]
fn rfc3339_to_unix_seconds(text: &str) -> (r: Option<i64>)
    ensures
        r == unix_seconds_of_rfc3339(text@),
{
    match chrono::DateTime::parse_from_rfc3339(text) {
        Ok(instant) => Some(instant.timestamp()),
        Err(_) => None,
    }
}

/// A timestamp as a header carries it: the RFC 3339 text together with the
/// Unix seconds it denotes.
pub struct Iso8601 {
    text: String,
    seconds: i64,
}

/// The mathematical value of an [`Iso8601`].
pub struct Iso8601View {
    pub text: Seq<char>,
    pub seconds: i64,
}

impl View for Iso8601 {
    type V = Iso8601View;

    closed spec fn view(&self) -> Iso8601View {
        Iso8601View { text: self.text@, seconds: self.seconds }
    }
}

impl Clone for Iso8601 {
    fn clone(&self) -> (r: Self)
        ensures
            r@ == self@,
    {
        Iso8601 { text: self.text.clone(), seconds: self.seconds }
    }
}

impl Iso8601 {
    /// Whether the seconds are those that the text denotes.
    pub closed spec fn wf(&self) -> bool {
        Some(self.seconds) == unix_seconds_of_rfc3339(self.text@)
    }

    /// Reads a timestamp from RFC 3339 text; `None` when the text does not
    /// parse.
    pub fn parse(text: String) -> (r: Option<Iso8601>)
        ensures
            r is Some <==> unix_seconds_of_rfc3339(text@) is Some,
            r matches Some(t) ==> t.wf() && t@ == (Iso8601View {
                text: text@,
                seconds: unix_seconds_of_rfc3339(text@).unwrap(),
            }),
    {
        match rfc3339_to_unix_seconds(text.as_str()) {
            Some(seconds) => Some(Iso8601 { text, seconds }),
            None => None,
        }
    }

    /// The text this timestamp was read from.
    pub fn text(&self) -> (r: &String)
        ensures
            r@ == self@.text,
    {
        &self.text
    }

    /// Whole seconds since the Unix epoch.
    pub fn seconds(&self) -> (r: i64)
        ensures
            r == self@.seconds,
    {
        self.seconds
    }
}

/// The signed record of one position on a source chain.
pub struct ChainHeader {
    pub entry_type: EntryType,
    pub entry_address: String,
    pub provenances: Vec<Provenance>,
    /// Address of the previous header on the chain.
    pub link: Option<String>,
    /// Address of the previous header of the same entry type.
    pub link_same_type: Option<String>,
    /// Address of the entry that this one updates or deletes.
    pub link_update_delete: Option<String>,
    pub timestamp: Iso8601,
}

/// The mathematical value of a [`ChainHeader`].
pub struct ChainHeaderView {
    pub entry_type: EntryTypeView,
    pub entry_address: Seq<char>,
    pub provenances: Seq<ProvenanceView>,
    pub link: Option<Seq<char>>,
    pub link_same_type: Option<Seq<char>>,
    pub link_update_delete: Option<Seq<char>>,
    pub timestamp: Iso8601View,
}

impl View for ChainHeader {
    type V = ChainHeaderView;

    open spec fn view(&self) -> ChainHeaderView {
        ChainHeaderView {
            entry_type: self.entry_type@,
            entry_address: self.entry_address@,
            provenances: provenance_views(self.provenances@),
            link: opt_text(self.link),
            link_same_type: opt_text(self.link_same_type),
            link_update_delete: opt_text(self.link_update_delete),
            timestamp: self.timestamp@,
        }
    }
}

impl Clone for ChainHeader {
    fn clone(&self) -> (r: Self)
        ensures
            r@ == self@,
    {
        ChainHeader {
            entry_type: self.entry_type.clone(),
            entry_address: self.entry_address.clone(),
            provenances: clone_provenances(&self.provenances),
            link: clone_opt_text(&self.link),
            link_same_type: clone_opt_text(&self.link_same_type),
            link_update_delete: clone_opt_text(&self.link_update_delete),
            timestamp: self.timestamp.clone(),
        }
    }
}

/// Whether some provenance in the list names the given signer.
pub open spec fn signed_by(provenances: Seq<ProvenanceView>, agent: Seq<char>) -> bool {
    exists|i: int| 0 <= i < provenances.len() && #[trigger] provenances[i].source == agent
}

impl ChainHeader {
    /// Whether the given agent is among the signers of this header.
    pub fn is_signed_by(&self, agent: &String) -> (r: bool)
        ensures
            r == signed_by(self@.provenances, agent@),
    {
        let mut i: usize = 0;
        while i < self.provenances.len()
            invariant
                i <= self.provenances.len(),
                forall|j: int| 0 <= j < i ==> self.provenances@[j].source@ != agent@,
            decreases self.provenances.len() - i,
        {
            if self.provenances[i].source == *agent {
                assert(provenance_views(self.provenances@)[i as int].source == agent@);
                return true;
            }
            i += 1;
        }
        assert forall|j: int| 0 <= j < self@.provenances.len() implies
            self@.provenances[j].source != agent@ by {
            assert(self@.provenances[j] == self.provenances@[j]@);
        }
        false
    }
}

/// A link from a base entry to a target entry.
pub struct LinkData {
    pub base: String,
    pub target: String,
    pub link_type: String,
    pub tag: String,
}

/// The mathematical value of a [`LinkData`].
pub struct LinkDataView {
    pub base: Seq<char>,
    pub target: Seq<char>,
    pub link_type: Seq<char>,
    pub tag: Seq<char>,
}

impl View for LinkData {
    type V = LinkDataView;

    open spec fn view(&self) -> LinkDataView {
        LinkDataView {
            base: self.base@,
            target: self.target@,
            link_type: self.link_type@,
            tag: self.tag@,
        }
    }
}

impl Clone for LinkData {
    fn clone(&self) -> (r: Self)
        ensures
            r@ == self@,
    {
        LinkData {
            base: self.base.clone(),
            target: self.target.clone(),
            link_type: self.link_type.clone(),
            tag: self.tag.clone(),
        }
    }
}

/// What an entry holds, by kind. Content that the node never looks into is
/// carried as serialized text.
pub enum EntryBody {
    AgentId(String),
    App(String, String),
    Dna(String),
    LinkAdd(LinkData),
    /// The link to remove and the addresses of the link entries it removes.
    LinkRemove(LinkData, Vec<String>),
    LinkList(String),
    ChainHeader(ChainHeader),
    ChainMigrate(String),
    /// The address of the deleted entry.
    Deletion(String),
    CapTokenGrant(String),
    CapTokenClaim(String),
}

/// The mathematical value of an [`EntryBody`].
pub enum EntryBodyView {
    AgentId(Seq<char>),
    App(Seq<char>, Seq<char>),
    Dna(Seq<char>),
    LinkAdd(LinkDataView),
    LinkRemove(LinkDataView, Seq<Seq<char>>),
    LinkList(Seq<char>),
    ChainHeader(ChainHeaderView),
    ChainMigrate(Seq<char>),
    Deletion(Seq<char>),
    CapTokenGrant(Seq<char>),
    CapTokenClaim(Seq<char>),
}

impl EntryBodyView {
    /// The entry type that goes with this content.
    pub open spec fn entry_type(self) -> EntryTypeView {
        match self {
            EntryBodyView::AgentId(_) => EntryTypeView::AgentId,
            EntryBodyView::App(name, _) => EntryTypeView::App(name),
            EntryBodyView::Dna(_) => EntryTypeView::Dna,
            EntryBodyView::LinkAdd(_) => EntryTypeView::LinkAdd,
            EntryBodyView::LinkRemove(_, _) => EntryTypeView::LinkRemove,
            EntryBodyView::LinkList(_) => EntryTypeView::LinkList,
            EntryBodyView::ChainHeader(_) => EntryTypeView::ChainHeader,
            EntryBodyView::ChainMigrate(_) => EntryTypeView::ChainMigrate,
            EntryBodyView::Deletion(_) => EntryTypeView::Deletion,
            EntryBodyView::CapTokenGrant(_) => EntryTypeView::CapTokenGrant,
            EntryBodyView::CapTokenClaim(_) => EntryTypeView::CapTokenClaim,
        }
    }
}

impl View for EntryBody {
    type V = EntryBodyView;

    open spec fn view(&self) -> EntryBodyView {
        match self {
            EntryBody::AgentId(c) => EntryBodyView::AgentId(c@),
            EntryBody::App(name, c) => EntryBodyView::App(name@, c@),
            EntryBody::Dna(c) => EntryBodyView::Dna(c@),
            EntryBody::LinkAdd(l) => EntryBodyView::LinkAdd(l@),
            EntryBody::LinkRemove(l, removed) => EntryBodyView::LinkRemove(l@, texts(removed@)),
            EntryBody::LinkList(c) => EntryBodyView::LinkList(c@),
            EntryBody::ChainHeader(h) => EntryBodyView::ChainHeader(h@),
            EntryBody::ChainMigrate(c) => EntryBodyView::ChainMigrate(c@),
            EntryBody::Deletion(a) => EntryBodyView::Deletion(a@),
            EntryBody::CapTokenGrant(c) => EntryBodyView::CapTokenGrant(c@),
            EntryBody::CapTokenClaim(c) => EntryBodyView::CapTokenClaim(c@),
        }
    }
}

impl Clone for EntryBody {
    fn clone(&self) -> (r: Self)
        ensures
            r@ == self@,
    {
        match self {
            EntryBody::AgentId(c) => EntryBody::AgentId(c.clone()),
            EntryBody::App(name, c) => EntryBody::App(name.clone(), c.clone()),
            EntryBody::Dna(c) => EntryBody::Dna(c.clone()),
            EntryBody::LinkAdd(l) => EntryBody::LinkAdd(l.clone()),
            EntryBody::LinkRemove(l, removed) => EntryBody::LinkRemove(
                l.clone(),
                clone_texts(removed),
            ),
            EntryBody::LinkList(c) => EntryBody::LinkList(c.clone()),
            EntryBody::ChainHeader(h) => EntryBody::ChainHeader(h.clone()),
            EntryBody::ChainMigrate(c) => EntryBody::ChainMigrate(c.clone()),
            EntryBody::Deletion(a) => EntryBody::Deletion(a.clone()),
            EntryBody::CapTokenGrant(c) => EntryBody::CapTokenGrant(c.clone()),
            EntryBody::CapTokenClaim(c) => EntryBody::CapTokenClaim(c.clone()),
        }
    }
}

/// A content-addressed unit of data: its address and what it holds.
pub struct Entry {
    /// The address under which the content is stored.
    pub address: String,
    pub body: EntryBody,
}

/// The mathematical value of an [`Entry`].
pub struct EntryView {
    pub address: Seq<char>,
    pub body: EntryBodyView,
}

impl View for Entry {
    type V = EntryView;

    open spec fn view(&self) -> EntryView {
        EntryView { address: self.address@, body: self.body@ }
    }
}

impl Clone for Entry {
    fn clone(&self) -> (r: Self)
        ensures
            r@ == self@,
    {
        Entry { address: self.address.clone(), body: self.body.clone() }
    }
}

impl Entry {
    /// The type of this entry.
    pub fn entry_type(&self) -> (r: EntryType)
        ensures
            r@ == self@.body.entry_type(),
    {
        match &self.body {
            EntryBody::AgentId(_) => EntryType::AgentId,
            EntryBody::App(name, _) => EntryType::App(name.clone()),
            EntryBody::Dna(_) => EntryType::Dna,
            EntryBody::LinkAdd(_) => EntryType::LinkAdd,
            EntryBody::LinkRemove(_, _) => EntryType::LinkRemove,
            EntryBody::LinkList(_) => EntryType::LinkList,
            EntryBody::ChainHeader(_) => EntryType::ChainHeader,
            EntryBody::ChainMigrate(_) => EntryType::ChainMigrate,
            EntryBody::Deletion(_) => EntryType::Deletion,
            EntryBody::CapTokenGrant(_) => EntryType::CapTokenGrant,
            EntryBody::CapTokenClaim(_) => EntryType::CapTokenClaim,
        }
    }
}

/// The views of a list of entries, in order.
pub open spec fn entry_views(v: Seq<Entry>) -> Seq<EntryView> {
    v.map_values(|e: Entry| e@)
}

/// The views of a list of headers, in order.
pub open spec fn header_views(v: Seq<ChainHeader>) -> Seq<ChainHeaderView> {
    v.map_values(|h: ChainHeader| h@)
}

/// A copy of a list of entries.
pub fn clone_entries(v: &Vec<Entry>) -> (r: Vec<Entry>)
    ensures
        entry_views(r@) == entry_views(v@),
{
    let mut out: Vec<Entry> = Vec::new();
    let mut i: usize = 0;
    while i < v.len()
        invariant
            i <= v.len(),
            out.len() == i,
            forall|j: int| 0 <= j < i ==> out@[j]@ == v@[j]@,
        decreases v.len() - i,
    {
        out.push(v[i].clone());
        i += 1;
    }
    assert(entry_views(out@) =~= entry_views(v@));
    out
}

/// A copy of a list of headers.
pub fn clone_headers(v: &Vec<ChainHeader>) -> (r: Vec<ChainHeader>)
    ensures
        header_views(r@) == header_views(v@),
{
    let mut out: Vec<ChainHeader> = Vec::new();
    let mut i: usize = 0;
    while i < v.len()
        invariant
            i <= v.len(),
            out.len() == i,
            forall|j: int| 0 <= j < i ==> out@[j]@ == v@[j]@,
        decreases v.len() - i,
    {
        out.push(v[i].clone());
        i += 1;
    }
    assert(header_views(out@) =~= header_views(v@));
    out
}

} // verus!
