//! Validation packages: the evidence that a validator is given, and what the
//! validation of an entry can answer.
use vstd::prelude::*;
use crate::entry::{
    ChainHeader, ChainHeaderView, Entry, EntryView, clone_entries, clone_headers, entry_views,
    header_views,
};
use crate::error::{HolochainError, HolochainErrorView, error_text};
use crate::text::{clone_opt_text, opt_text, texts};

verus! {

/// What an entry type asks to be validated against.
pub enum ValidationPackageDefinition {
    /// The header of the entry alone.
    Entry,
    /// The public entries of the author's chain.
    ChainEntries,
    /// The headers of the author's chain.
    ChainHeaders,
    /// Headers and public entries of the author's chain.
    ChainFull,
    /// Data of the application's own making.
    Custom(String),
}

/// The mathematical value of a [`ValidationPackageDefinition`].
pub enum ValidationPackageDefinitionView {
    Entry,
    ChainEntries,
    ChainHeaders,
    ChainFull,
    Custom(Seq<char>),
}

impl View for ValidationPackageDefinition {
    type V = ValidationPackageDefinitionView;

    open spec fn view(&self) -> ValidationPackageDefinitionView {
        match self {
            ValidationPackageDefinition::Entry => ValidationPackageDefinitionView::Entry,
            ValidationPackageDefinition::ChainEntries =>
                ValidationPackageDefinitionView::ChainEntries,
            ValidationPackageDefinition::ChainHeaders =>
                ValidationPackageDefinitionView::ChainHeaders,
            ValidationPackageDefinition::ChainFull => ValidationPackageDefinitionView::ChainFull,
            ValidationPackageDefinition::Custom(s) => ValidationPackageDefinitionView::Custom(s@),
        }
    }
}

impl Clone for ValidationPackageDefinition {
    fn clone(&self) -> (r: Self)
        ensures
            r@ == self@,
    {
        match self {
            ValidationPackageDefinition::Entry => ValidationPackageDefinition::Entry,
            ValidationPackageDefinition::ChainEntries => ValidationPackageDefinition::ChainEntries,
            ValidationPackageDefinition::ChainHeaders => ValidationPackageDefinition::ChainHeaders,
            ValidationPackageDefinition::ChainFull => ValidationPackageDefinition::ChainFull,
            ValidationPackageDefinition::Custom(s) => ValidationPackageDefinition::Custom(
                s.clone(),
            ),
        }
    }
}

/// The evidence for the validation of one entry. The header is always
/// there; of the other parts exactly those that the definition asks for.
pub struct ValidationPackage {
    pub chain_header: ChainHeader,
    pub source_chain_entries: Option<Vec<Entry>>,
    pub source_chain_headers: Option<Vec<ChainHeader>>,
    pub custom: Option<String>,
}

/// The mathematical value of a [`ValidationPackage`].
pub struct ValidationPackageView {
    pub chain_header: ChainHeaderView,
    pub source_chain_entries: Option<Seq<EntryView>>,
    pub source_chain_headers: Option<Seq<ChainHeaderView>>,
    pub custom: Option<Seq<char>>,
}

/// The view of an optional list of entries.
pub open spec fn opt_entries(o: Option<Vec<Entry>>) -> Option<Seq<EntryView>> {
    match o {
        Some(v) => Some(entry_views(v@)),
        None => None,
    }
}

/// The view of an optional list of headers.
pub open spec fn opt_headers(o: Option<Vec<ChainHeader>>) -> Option<Seq<ChainHeaderView>> {
    match o {
        Some(v) => Some(header_views(v@)),
        None => None,
    }
}

impl View for ValidationPackage {
    type V = ValidationPackageView;

    open spec fn view(&self) -> ValidationPackageView {
        ValidationPackageView {
            chain_header: self.chain_header@,
            source_chain_entries: opt_entries(self.source_chain_entries),
            source_chain_headers: opt_headers(self.source_chain_headers),
            custom: opt_text(self.custom),
        }
    }
}

impl Clone for ValidationPackage {
    fn clone(&self) -> (r: Self)
        ensures
            r@ == self@,
    {
        ValidationPackage {
            chain_header: self.chain_header.clone(),
            source_chain_entries: match &self.source_chain_entries {
                Some(v) => Some(clone_entries(v)),
                None => None,
            },
            source_chain_headers: match &self.source_chain_headers {
                Some(v) => Some(clone_headers(v)),
                None => None,
            },
            custom: clone_opt_text(&self.custom),
        }
    }
}

impl ValidationPackageView {
    /// The package that holds the header and nothing else.
    pub open spec fn only_header(header: ChainHeaderView) -> ValidationPackageView {
        ValidationPackageView {
            chain_header: header,
            source_chain_entries: None,
            source_chain_headers: None,
            custom: None,
        }
    }

    /// The package for a definition, given the headers of the author's
    /// chain and its public entries.
    pub open spec fn assemble(
        definition: ValidationPackageDefinitionView,
        header: ChainHeaderView,
        chain_headers: Seq<ChainHeaderView>,
        public_entries: Seq<EntryView>,
    ) -> ValidationPackageView {
        let bare = Self::only_header(header);
        match definition {
            ValidationPackageDefinitionView::Entry => bare,
            ValidationPackageDefinitionView::ChainEntries => ValidationPackageView {
                source_chain_entries: Some(public_entries),
                ..bare
            },
            ValidationPackageDefinitionView::ChainHeaders => ValidationPackageView {
                source_chain_headers: Some(chain_headers),
                ..bare
            },
            ValidationPackageDefinitionView::ChainFull => ValidationPackageView {
                source_chain_entries: Some(public_entries),
                source_chain_headers: Some(chain_headers),
                ..bare
            },
            ValidationPackageDefinitionView::Custom(s) => ValidationPackageView {
                custom: Some(s),
                ..bare
            },
        }
    }
}

impl ValidationPackage {
    /// A package that holds the header and nothing else.
    pub fn only_header(header: ChainHeader) -> (r: ValidationPackage)
        ensures
            r@ == ValidationPackageView::only_header(header@),
    {
        ValidationPackage {
            chain_header: header,
            source_chain_entries: None,
            source_chain_headers: None,
            custom: None,
        }
    }
}

/// Whether the entry under validation is data of its own or speaks about
/// other data, as links, updates and deletions do.
#[derive(Clone, Copy, PartialEq, Eq, Structural, Debug)]
pub enum EntryLifecycle {
    Data,
    Meta,
}

/// What the validation of an entry is given.
pub struct ValidationData {
    pub package: ValidationPackage,
    pub lifecycle: EntryLifecycle,
}

/// The mathematical value of a [`ValidationData`].
pub struct ValidationDataView {
    pub package: ValidationPackageView,
    pub lifecycle: EntryLifecycle,
}

impl View for ValidationData {
    type V = ValidationDataView;

    open spec fn view(&self) -> ValidationDataView {
        ValidationDataView { package: self.package@, lifecycle: self.lifecycle }
    }
}

/// Why the validation of an entry did not pass.
pub enum ValidationError {
    /// The entry is not valid, for this reason.
    Fail(String),
    /// Entries at these addresses are needed and not held yet.
    UnresolvedDependencies(Vec<String>),
    /// The application has no validation for this entry.
    NotImplemented,
    /// Validation itself failed.
    Error(HolochainError),
}

/// The mathematical value of a [`ValidationError`].
pub enum ValidationErrorView {
    Fail(Seq<char>),
    UnresolvedDependencies(Seq<Seq<char>>),
    NotImplemented,
    Error(HolochainErrorView),
}

impl View for ValidationError {
    type V = ValidationErrorView;

    open spec fn view(&self) -> ValidationErrorView {
        match self {
            ValidationError::Fail(s) => ValidationErrorView::Fail(s@),
            ValidationError::UnresolvedDependencies(d) =>
                ValidationErrorView::UnresolvedDependencies(texts(d@)),
            ValidationError::NotImplemented => ValidationErrorView::NotImplemented,
            ValidationError::Error(e) => ValidationErrorView::Error(e@),
        }
    }
}

/// What a validation failure means for the entry.
pub enum ValidationVerdict {
    /// Try again later, when the entries at these addresses are held.
    Pending(Vec<String>),
    /// The entry is rejected for good, for this reason.
    Rejected(String),
}

/// The mathematical value of a [`ValidationVerdict`].
pub enum ValidationVerdictView {
    Pending(Seq<Seq<char>>),
    Rejected(Seq<char>),
}

impl View for ValidationVerdict {
    type V = ValidationVerdictView;

    open spec fn view(&self) -> ValidationVerdictView {
        match self {
            ValidationVerdict::Pending(d) => ValidationVerdictView::Pending(texts(d@)),
            ValidationVerdict::Rejected(s) => ValidationVerdictView::Rejected(s@),
        }
    }
}

/// The verdict on a validation failure: one that names unresolved
/// dependencies is retried later, every other one rejects the entry.
pub open spec fn verdict_of(error: ValidationErrorView) -> ValidationVerdictView {
    match error {
        ValidationErrorView::UnresolvedDependencies(d) => ValidationVerdictView::Pending(d),
        ValidationErrorView::Fail(s) => ValidationVerdictView::Rejected(s),
        ValidationErrorView::NotImplemented => ValidationVerdictView::Rejected(
            "Validation not implemented"@,
        ),
        ValidationErrorView::Error(e) => ValidationVerdictView::Rejected(error_text(e)),
    }
}

/// Classifies a validation failure as to be retried or as final.
pub fn classify_validation_failure(error: ValidationError) -> (verdict: ValidationVerdict)
    ensures
        verdict@ == verdict_of(error@),
        verdict is Pending <==> error is UnresolvedDependencies,
        verdict is Rejected <==> !(error is UnresolvedDependencies),
{
    match error {
        ValidationError::UnresolvedDependencies(dependencies) => ValidationVerdict::Pending(
            dependencies,
        ),
        ValidationError::Fail(reason) => ValidationVerdict::Rejected(reason),
        ValidationError::NotImplemented => ValidationVerdict::Rejected(
            String::from_str("Validation not implemented"),
        ),
        ValidationError::Error(e) => ValidationVerdict::Rejected(e.to_string()),
    }
}

/// The classification leaves nothing out and nothing in doubt: an error is
/// retried later if and only if it names unresolved dependencies, and is
/// rejected for good if and only if it does not.
pub proof fn lemma_verdict_is_total_and_exclusive(error: ValidationErrorView)
    ensures
        verdict_of(error) is Pending || verdict_of(error) is Rejected,
        !(verdict_of(error) is Pending && verdict_of(error) is Rejected),
        verdict_of(error) is Pending <==> error is UnresolvedDependencies,
        verdict_of(error) matches ValidationVerdictView::Pending(d) ==> error
            == ValidationErrorView::UnresolvedDependencies(d),
{
}

} // verus!
