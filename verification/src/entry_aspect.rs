//! Aspects: the units in which an entry and the data about it are published.
use vstd::prelude::*;
use crate::entry::{
    ChainHeader, ChainHeaderView, Entry, EntryView, LinkData, LinkDataView,
};
use crate::protocol::{EntryAspectData, EntryAspectDataView};
use crate::text::{clone_texts, texts};

verus! {

/// One published unit of data about an entry.
pub enum EntryAspect {
    /// The entry itself, with its header.
    Content(Entry, ChainHeader),
    /// The header alone, for an entry that is not published.
    Header(ChainHeader),
    /// A link that starts at the entry.
    LinkAdd(LinkData, ChainHeader),
    /// The removal of links that start at the entry: the link, and the
    /// addresses of the link entries that are removed.
    LinkRemove(LinkData, Vec<String>, ChainHeader),
    /// A newer version of the entry.
    Update(Entry, ChainHeader),
    /// The deletion of the entry.
    Deletion(ChainHeader),
}

/// The mathematical value of an [`EntryAspect`].
pub enum EntryAspectView {
    Content(EntryView, ChainHeaderView),
    Header(ChainHeaderView),
    LinkAdd(LinkDataView, ChainHeaderView),
    LinkRemove(LinkDataView, Seq<Seq<char>>, ChainHeaderView),
    Update(EntryView, ChainHeaderView),
    Deletion(ChainHeaderView),
}

impl View for EntryAspect {
    type V = EntryAspectView;

    open spec fn view(&self) -> EntryAspectView {
        match self {
            EntryAspect::Content(e, h) => EntryAspectView::Content(e@, h@),
            EntryAspect::Header(h) => EntryAspectView::Header(h@),
            EntryAspect::LinkAdd(l, h) => EntryAspectView::LinkAdd(l@, h@),
            EntryAspect::LinkRemove(l, removed, h) => EntryAspectView::LinkRemove(
                l@,
                texts(removed@),
                h@,
            ),
            EntryAspect::Update(e, h) => EntryAspectView::Update(e@, h@),
            EntryAspect::Deletion(h) => EntryAspectView::Deletion(h@),
        }
    }
}

impl Clone for EntryAspect {
    fn clone(&self) -> (r: Self)
        ensures
            r@ == self@,
    {
        match self {
            EntryAspect::Content(e, h) => EntryAspect::Content(e.clone(), h.clone()),
            EntryAspect::Header(h) => EntryAspect::Header(h.clone()),
            EntryAspect::LinkAdd(l, h) => EntryAspect::LinkAdd(l.clone(), h.clone()),
            EntryAspect::LinkRemove(l, removed, h) => EntryAspect::LinkRemove(
                l.clone(),
                clone_texts(removed),
                h.clone(),
            ),
            EntryAspect::Update(e, h) => EntryAspect::Update(e.clone(), h.clone()),
            EntryAspect::Deletion(h) => EntryAspect::Deletion(h.clone()),
        }
    }
}

/// The views of a list of aspects, in order.
pub open spec fn aspect_views(v: Seq<EntryAspect>) -> Seq<EntryAspectView> {
    v.map_values(|a: EntryAspect| a@)
}

impl EntryAspectView {
    /// The kind of the aspect, as text.
    pub open spec fn type_hint(self) -> Seq<char> {
        match self {
            EntryAspectView::Content(_, _) => "content"@,
            EntryAspectView::Header(_) => "header"@,
            EntryAspectView::LinkAdd(_, _) => "link_add"@,
            EntryAspectView::LinkRemove(_, _, _) => "link_remove"@,
            EntryAspectView::Update(_, _) => "update"@,
            EntryAspectView::Deletion(_) => "deletion"@,
        }
    }

    /// The header that the aspect comes with.
    pub open spec fn header(self) -> ChainHeaderView {
        match self {
            EntryAspectView::Content(_, h) => h,
            EntryAspectView::Header(h) => h,
            EntryAspectView::LinkAdd(_, h) => h,
            EntryAspectView::LinkRemove(_, _, h) => h,
            EntryAspectView::Update(_, h) => h,
            EntryAspectView::Deletion(h) => h,
        }
    }
}

impl EntryAspect {
    /// The kind of the aspect, as text.
    pub fn type_hint(&self) -> (r: String)
        ensures
            r@ == self@.type_hint(),
    {
        match self {
            EntryAspect::Content(_, _) => String::from_str("content"),
            EntryAspect::Header(_) => String::from_str("header"),
            EntryAspect::LinkAdd(_, _) => String::from_str("link_add"),
            EntryAspect::LinkRemove(_, _, _) => String::from_str("link_remove"),
            EntryAspect::Update(_, _) => String::from_str("update"),
            EntryAspect::Deletion(_) => String::from_str("deletion"),
        }
    }

    /// The header that the aspect comes with.
    pub fn header(&self) -> (r: &ChainHeader)
        ensures
            r@ == self@.header(),
    {
        match self {
            EntryAspect::Content(_, h) => h,
            EntryAspect::Header(h) => h,
            EntryAspect::LinkAdd(_, h) => h,
            EntryAspect::LinkRemove(_, _, h) => h,
            EntryAspect::Update(_, h) => h,
            EntryAspect::Deletion(h) => h,
        }
    }
}

/// The multihash of the SHA2-256 digest of a byte string: what
/// `multihash::encode` returns for `Hash::SHA2256`.
pub uninterp spec fn sha2_256_multihash(bytes: Seq<u8>) -> Seq<u8>;

/// A byte string in base 58, as `rust_base58::ToBase58::to_base58` writes it.
pub uninterp spec fn base58_text(bytes: Seq<u8>) -> Seq<char>;

/// Calls `multihash::encode` with `Hash::SHA2256`. For that hash the
/// function has an encoder and returns `Ok`; the contract only names the
/// bytes it returns.
#[verifier::external_body]
fn multihash_sha2_256(bytes: &Vec<u8>) -> (r: Vec<u8>)
    ensures
        r@ == sha2_256_multihash(bytes@),
{
    multihash::encode(multihash::Hash::SHA2256, bytes.as_slice()).unwrap()
}

/// Calls `to_base58` of `rust_base58::ToBase58` on the bytes. The contract
/// only names the text it returns.
#[verifier::external_body]
fn to_base58(bytes: &Vec<u8>) -> (r: String)
    ensures
        r@ == base58_text(bytes@),
{
    rust_base58::ToBase58::to_base58(bytes.as_slice())
}

/// The address of serialized content: the base 58 text of the multihash of
/// its SHA2-256 digest.
pub open spec fn address_of(content: Seq<char>) -> Seq<char> {
    base58_text(sha2_256_multihash(vstd::utf8::encode_utf8(content)))
}

/// The address under which serialized content is stored.
pub fn content_address(content: &str) -> (r: String)
    ensures
        r@ == address_of(content@),
{
    let bytes = content.as_bytes_vec();
    let hash = multihash_sha2_256(&bytes);
    to_base58(&hash)
}

/// The form in which an aspect travels, given its serialized content: the
/// address of the content, the kind of the aspect, the content as bytes,
/// and the time of the aspect's header. A time before the Unix epoch wraps
/// around as its seconds do when they are read as an unsigned number.
pub open spec fn aspect_data_of(aspect: EntryAspectView, content: Seq<char>) -> EntryAspectDataView {
    EntryAspectDataView {
        aspect_address: address_of(content),
        type_hint: aspect.type_hint(),
        aspect: vstd::utf8::encode_utf8(content),
        publish_ts: aspect.header().timestamp.seconds as u64,
    }
}

/// Puts an aspect into the form in which it travels, given its serialized
/// content.
pub fn entry_data_to_entry_aspect_data(ea: &EntryAspect, content: &str) -> (r: EntryAspectData)
    ensures
        r@ == aspect_data_of(ea@, content@),
{
    let type_hint = ea.type_hint();
    let aspect_address = content_address(content);
    let seconds: i64 = ea.header().timestamp.seconds();
    EntryAspectData {
        type_hint,
        aspect_address,
        aspect: content.as_bytes_vec(),
        publish_ts: seconds as u64,
    }
}

} // verus!
