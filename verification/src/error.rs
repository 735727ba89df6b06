//! The failures that the node's operations report.
use vstd::prelude::*;
use crate::entry::{EntryType, EntryTypeView, entry_type_name};
use crate::text::{clone_texts, texts};

verus! {

/// Why an operation of the node did not succeed.
pub enum HolochainError {
    /// A failure that is passed on as it came.
    ErrorGeneric(String),
    /// The network session has no space address or no agent id yet.
    NetworkUninitialized,
    /// The evidence needs the author's chain and this node is not the author.
    CannotBuildLocally,
    /// A header or entry at this address could not be fetched.
    DependencyFetchFailed(String),
    /// The header chain leads back to this address, which was already walked.
    CycleDetected(String),
    /// Validation has to wait; the addresses are the known missing dependencies.
    ValidationPending(Vec<String>),
    /// Nothing is published for entries of this type.
    NotImplemented(EntryType),
    /// The header does not speak of the entry it is paired with.
    HeaderEntryMismatch,
}

/// The mathematical value of a [`HolochainError`].
pub enum HolochainErrorView {
    ErrorGeneric(Seq<char>),
    NetworkUninitialized,
    CannotBuildLocally,
    DependencyFetchFailed(Seq<char>),
    CycleDetected(Seq<char>),
    ValidationPending(Seq<Seq<char>>),
    NotImplemented(EntryTypeView),
    HeaderEntryMismatch,
}

impl View for HolochainError {
    type V = HolochainErrorView;

    open spec fn view(&self) -> HolochainErrorView {
        match self {
            HolochainError::ErrorGeneric(s) => HolochainErrorView::ErrorGeneric(s@),
            HolochainError::NetworkUninitialized => HolochainErrorView::NetworkUninitialized,
            HolochainError::CannotBuildLocally => HolochainErrorView::CannotBuildLocally,
            HolochainError::DependencyFetchFailed(a) => HolochainErrorView::DependencyFetchFailed(
                a@,
            ),
            HolochainError::CycleDetected(a) => HolochainErrorView::CycleDetected(a@),
            HolochainError::ValidationPending(d) => HolochainErrorView::ValidationPending(
                texts(d@),
            ),
            HolochainError::NotImplemented(t) => HolochainErrorView::NotImplemented(t@),
            HolochainError::HeaderEntryMismatch => HolochainErrorView::HeaderEntryMismatch,
        }
    }
}

impl Clone for HolochainError {
    fn clone(&self) -> (r: Self)
        ensures
            r@ == self@,
    {
        match self {
            HolochainError::ErrorGeneric(s) => HolochainError::ErrorGeneric(s.clone()),
            HolochainError::NetworkUninitialized => HolochainError::NetworkUninitialized,
            HolochainError::CannotBuildLocally => HolochainError::CannotBuildLocally,
            HolochainError::DependencyFetchFailed(a) => HolochainError::DependencyFetchFailed(
                a.clone(),
            ),
            HolochainError::CycleDetected(a) => HolochainError::CycleDetected(a.clone()),
            HolochainError::ValidationPending(d) => HolochainError::ValidationPending(
                clone_texts(d),
            ),
            HolochainError::NotImplemented(t) => HolochainError::NotImplemented(t.clone()),
            HolochainError::HeaderEntryMismatch => HolochainError::HeaderEntryMismatch,
        }
    }
}

/// The text that stands for an error where only text can be kept.
pub open spec fn error_text(e: HolochainErrorView) -> Seq<char> {
    match e {
        HolochainErrorView::ErrorGeneric(s) => s,
        HolochainErrorView::NetworkUninitialized => "Network not initialized"@,
        HolochainErrorView::CannotBuildLocally => "Can't create validation package locally"@,
        HolochainErrorView::DependencyFetchFailed(a) =>
            "Could not retrieve a dependency at address: "@ + a,
        HolochainErrorView::CycleDetected(a) => "Header chain loops back to address: "@ + a,
        HolochainErrorView::ValidationPending(_) => "Entry not validated - pending"@,
        HolochainErrorView::NotImplemented(t) => "not implemented for "@ + entry_type_name(t),
        HolochainErrorView::HeaderEntryMismatch => "Header does not match entry"@,
    }
}

impl HolochainError {
    /// This error as text.
    pub fn to_string(&self) -> (r: String)
        ensures
            r@ == error_text(self@),
    {
        match self {
            HolochainError::ErrorGeneric(s) => s.clone(),
            HolochainError::NetworkUninitialized => String::from_str("Network not initialized"),
            HolochainError::CannotBuildLocally => String::from_str(
                "Can't create validation package locally",
            ),
            HolochainError::DependencyFetchFailed(a) => String::from_str(
                "Could not retrieve a dependency at address: ",
            ).concat(a.as_str()),
            HolochainError::CycleDetected(a) => String::from_str(
                "Header chain loops back to address: ",
            ).concat(a.as_str()),
            HolochainError::ValidationPending(_) => String::from_str(
                "Entry not validated - pending",
            ),
            HolochainError::NotImplemented(t) => {
                let name = t.name();
                String::from_str("not implemented for ").concat(name.as_str())
            },
            HolochainError::HeaderEntryMismatch => String::from_str("Header does not match entry"),
        }
    }
}

} // verus!
