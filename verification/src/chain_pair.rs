//! The unit of validation and storage: an entry with the header that signs it.
use vstd::prelude::*;
use crate::entry::{ChainHeader, ChainHeaderView, Entry, EntryView};
use crate::error::{HolochainError, HolochainErrorView};

verus! {

/// An entry together with its chain header. Both always speak of the same
/// entry address.
pub struct ChainPair {
    header: ChainHeader,
    entry: Entry,
}

/// The mathematical value of a [`ChainPair`].
pub struct ChainPairView {
    pub header: ChainHeaderView,
    pub entry: EntryView,
}

impl ChainPairView {
    /// Whether header and entry speak of the same entry address.
    pub open spec fn wf(self) -> bool {
        self.header.entry_address == self.entry.address
    }
}

impl View for ChainPair {
    type V = ChainPairView;

    closed spec fn view(&self) -> ChainPairView {
        ChainPairView { header: self.header@, entry: self.entry@ }
    }
}

impl Clone for ChainPair {
    fn clone(&self) -> (r: Self)
        ensures
            r@ == self@,
    {
        proof {
            use_type_invariant(self);
        }
        ChainPair { header: self.header.clone(), entry: self.entry.clone() }
    }
}

impl ChainPair {
    #[verifier::type_invariant]
    spec fn agrees(self) -> bool {
        self.header.entry_address@ == self.entry.address@
    }

    /// Pairs a header with an entry, if the header names the entry's address.
    pub fn try_from_header_and_entry(header: ChainHeader, entry: Entry) -> (r: Result<
        ChainPair,
        HolochainError,
    >)
        ensures
            r is Ok <==> header@.entry_address == entry@.address,
            r matches Ok(pair) ==> pair@ == (ChainPairView { header: header@, entry: entry@ }),
            r matches Err(e) ==> e@ == HolochainErrorView::HeaderEntryMismatch,
    {
        if header.entry_address == entry.address {
            Ok(ChainPair { header, entry })
        } else {
            Err(HolochainError::HeaderEntryMismatch)
        }
    }

    /// The header of the pair.
    pub fn header(&self) -> (r: &ChainHeader)
        ensures
            r@ == self@.header,
            self@.wf(),
    {
        proof {
            use_type_invariant(self);
        }
        &self.header
    }

    /// The entry of the pair.
    pub fn entry(&self) -> (r: &Entry)
        ensures
            r@ == self@.entry,
            self@.wf(),
    {
        proof {
            use_type_invariant(self);
        }
        &self.entry
    }
}

} // verus!
