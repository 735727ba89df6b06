//! The holding workflows: how a node decides whether to hold what another
//! agent authored.
//!
//! A workflow gets hold of the validation package, has the entry validated
//! against it, and on success has the entry stored. It only decides: the
//! caller runs what a step asks for and hands the result to the next step.
pub mod remove_link;

use vstd::prelude::*;
use crate::chain_pair::{ChainPair, ChainPairView};
use crate::entry::{EntryBodyView, entry_type_name};
use crate::error::{HolochainError, HolochainErrorView};
use crate::text::{opt_text, texts};
use crate::validation::{
    EntryLifecycle, ValidationData, ValidationDataView, ValidationError, ValidationErrorView,
    ValidationPackage, ValidationPackageDefinition, ValidationPackageDefinitionView,
    ValidationPackageView, ValidationVerdict, ValidationVerdictView, classify_validation_failure,
    verdict_of,
};

verus! {

/// The holding workflows, by what they store.
#[derive(Clone, Copy, PartialEq, Eq, Structural, Debug)]
pub enum ValidatingWorkflow {
    HoldLink,
    HoldEntry,
    RemoveLink,
    UpdateEntry,
    RemoveEntry,
}

/// A chain pair that waits to be validated by the given workflow.
pub struct PendingValidation {
    pub chain_pair: ChainPair,
    pub workflow: ValidatingWorkflow,
}

/// What the application answers when asked which validation package an
/// entry type needs.
pub enum CallbackResult {
    Fail(String),
    NotImplemented(String),
    ValidationPackageDefinition(ValidationPackageDefinition),
}

/// The mathematical value of a [`CallbackResult`].
pub enum CallbackResultView {
    Fail(Seq<char>),
    NotImplemented(Seq<char>),
    ValidationPackageDefinition(ValidationPackageDefinitionView),
}

impl View for CallbackResult {
    type V = CallbackResultView;

    open spec fn view(&self) -> CallbackResultView {
        match self {
            CallbackResult::Fail(s) => CallbackResultView::Fail(s@),
            CallbackResult::NotImplemented(s) => CallbackResultView::NotImplemented(s@),
            CallbackResult::ValidationPackageDefinition(d) =>
                CallbackResultView::ValidationPackageDefinition(d@),
        }
    }
}

/// How far a validation package can be made without asking another node.
pub enum LocalPackage {
    /// The header is all that is needed: this is the package.
    Ready(ValidationPackage),
    /// This node authored the entry: the package is to be assembled from
    /// its own chain.
    FromOwnChain,
    /// The package cannot be made here.
    Unavailable(HolochainError),
}

/// The mathematical value of a [`LocalPackage`].
pub enum LocalPackageView {
    Ready(ValidationPackageView),
    FromOwnChain,
    Unavailable(HolochainErrorView),
}

impl View for LocalPackage {
    type V = LocalPackageView;

    open spec fn view(&self) -> LocalPackageView {
        match self {
            LocalPackage::Ready(p) => LocalPackageView::Ready(p@),
            LocalPackage::FromOwnChain => LocalPackageView::FromOwnChain,
            LocalPackage::Unavailable(e) => LocalPackageView::Unavailable(e@),
        }
    }
}

/// The view of what the application answered, or of the failure to ask.
pub open spec fn definition_view(d: Result<CallbackResult, HolochainError>) -> Result<
    CallbackResultView,
    HolochainErrorView,
> {
    match d {
        Ok(c) => Ok(c@),
        Err(e) => Err(e@),
    }
}

/// The text of the failure that stands for a missing package callback.
pub open spec fn callback_not_implemented_text(body: EntryBodyView, reason: Seq<char>) -> Seq<
    char,
> {
    "ValidationPackage callback not implemented for "@ + entry_type_name(body.entry_type())
        + " ("@ + reason + ")"@
}

/// How far the package for a chain pair can be made locally.
///
/// Where the header alone is asked for, the package is ready, whoever the
/// author is. Otherwise the package comes from the author's chain, which
/// only the author has: the local agent must be among the signers of the
/// header.
pub open spec fn local_package(
    pair: ChainPairView,
    definition: Result<CallbackResultView, HolochainErrorView>,
    agent: Option<Seq<char>>,
) -> LocalPackageView {
    match definition {
        Err(e) => LocalPackageView::Unavailable(e),
        Ok(CallbackResultView::Fail(s)) => LocalPackageView::Unavailable(
            HolochainErrorView::ErrorGeneric(s),
        ),
        Ok(CallbackResultView::NotImplemented(reason)) => LocalPackageView::Unavailable(
            HolochainErrorView::ErrorGeneric(
                callback_not_implemented_text(pair.entry.body, reason),
            ),
        ),
        Ok(
            CallbackResultView::ValidationPackageDefinition(ValidationPackageDefinitionView::Entry),
        ) => LocalPackageView::Ready(ValidationPackageView::only_header(pair.header)),
        Ok(CallbackResultView::ValidationPackageDefinition(_)) => match agent {
            Some(a) => if crate::entry::signed_by(pair.header.provenances, a) {
                LocalPackageView::FromOwnChain
            } else {
                LocalPackageView::Unavailable(HolochainErrorView::CannotBuildLocally)
            },
            None => LocalPackageView::Unavailable(HolochainErrorView::CannotBuildLocally),
        },
    }
}

/// Tries to make the validation package for a chain pair without asking
/// another node, given what the application answered about the entry type
/// and the address of the local agent, if it is known.
pub fn try_make_local_validation_package(
    chain_pair: &ChainPair,
    definition: Result<CallbackResult, HolochainError>,
    agent: &Option<String>,
) -> (r: LocalPackage)
    ensures
        r@ == local_package(chain_pair@, definition_view(definition), opt_text(*agent)),
{
    let validation_package_definition = match definition {
        Err(e) => {
            return LocalPackage::Unavailable(e);
        },
        Ok(CallbackResult::Fail(error_string)) => {
            return LocalPackage::Unavailable(HolochainError::ErrorGeneric(error_string));
        },
        Ok(CallbackResult::NotImplemented(reason)) => {
            let name = chain_pair.entry().entry_type().name();
            let text = String::from_str("ValidationPackage callback not implemented for ").concat(
                name.as_str(),
            ).concat(" (").concat(reason.as_str()).concat(")");
            return LocalPackage::Unavailable(HolochainError::ErrorGeneric(text));
        },
        Ok(CallbackResult::ValidationPackageDefinition(def)) => def,
    };
    match validation_package_definition {
        ValidationPackageDefinition::Entry => LocalPackage::Ready(
            ValidationPackage::only_header(chain_pair.header().clone()),
        ),
        _ => {
            let authored_here = match agent {
                Some(address) => chain_pair.header().is_signed_by(address),
                None => false,
            };
            if authored_here {
                LocalPackage::FromOwnChain
            } else {
                LocalPackage::Unavailable(HolochainError::CannotBuildLocally)
            }
        },
    }
}

/// A definition that asks for the header alone always gives a package with
/// the header and nothing else, whatever the entry is and whoever signed it.
pub proof fn lemma_entry_definition_needs_header_only(
    pair: ChainPairView,
    agent: Option<Seq<char>>,
)
    ensures
        local_package(
            pair,
            Ok(
                CallbackResultView::ValidationPackageDefinition(
                    ValidationPackageDefinitionView::Entry,
                ),
            ),
            agent,
        ) == LocalPackageView::Ready(
            ValidationPackageView {
                chain_header: pair.header,
                source_chain_entries: None,
                source_chain_headers: None,
                custom: None,
            },
        ),
{
}

/// What a workflow decided about an entry.
pub enum Decision {
    /// The entry is valid and is held now.
    Accepted,
    /// The entry is not valid and is dropped, for this reason.
    Rejected(String),
}

/// The mathematical value of a [`Decision`].
pub enum DecisionView {
    Accepted,
    Rejected(Seq<char>),
}

impl View for Decision {
    type V = DecisionView;

    open spec fn view(&self) -> DecisionView {
        match self {
            Decision::Accepted => DecisionView::Accepted,
            Decision::Rejected(s) => DecisionView::Rejected(s@),
        }
    }
}

/// What a workflow waits for.
#[derive(Clone, Copy, PartialEq, Eq, Structural, Debug)]
pub enum Stage {
    /// The application's answer about the package that the entry type needs.
    AwaitingDefinition,
    /// The package from this node's own chain.
    AwaitingOwnChainPackage,
    /// The package from the entry's author.
    AwaitingSourcePackage,
    /// The result of the validation.
    AwaitingValidation,
    /// The result of storing.
    AwaitingStorage,
    /// Nothing: the workflow has ended.
    Finished,
}

/// What the caller reports to a workflow.
pub enum WorkflowEvent {
    /// The application's answer about the package that the entry type needs,
    /// or why it could not be asked.
    Definition(Result<CallbackResult, HolochainError>),
    /// The package assembled from this node's own chain, or why there is none.
    OwnChainPackage(Result<ValidationPackage, HolochainError>),
    /// The author's answer to the request for the package: the package, no
    /// package, or why the request failed.
    SourcePackage(Result<Option<ValidationPackage>, HolochainError>),
    /// The result of the validation.
    Validated(Result<(), ValidationError>),
    /// The result of storing.
    Stored(Result<(), HolochainError>),
}

/// The mathematical value of a [`WorkflowEvent`].
pub enum WorkflowEventView {
    Definition(Result<CallbackResultView, HolochainErrorView>),
    OwnChainPackage(Result<ValidationPackageView, HolochainErrorView>),
    SourcePackage(Result<Option<ValidationPackageView>, HolochainErrorView>),
    Validated(Result<(), ValidationErrorView>),
    Stored(Result<(), HolochainErrorView>),
}

impl View for WorkflowEvent {
    type V = WorkflowEventView;

    open spec fn view(&self) -> WorkflowEventView {
        match self {
            WorkflowEvent::Definition(d) => WorkflowEventView::Definition(definition_view(*d)),
            WorkflowEvent::OwnChainPackage(Ok(p)) => WorkflowEventView::OwnChainPackage(Ok(p@)),
            WorkflowEvent::OwnChainPackage(Err(e)) => WorkflowEventView::OwnChainPackage(Err(e@)),
            WorkflowEvent::SourcePackage(Ok(Some(p))) => WorkflowEventView::SourcePackage(
                Ok(Some(p@)),
            ),
            WorkflowEvent::SourcePackage(Ok(None)) => WorkflowEventView::SourcePackage(Ok(None)),
            WorkflowEvent::SourcePackage(Err(e)) => WorkflowEventView::SourcePackage(Err(e@)),
            WorkflowEvent::Validated(Ok(_)) => WorkflowEventView::Validated(Ok(())),
            WorkflowEvent::Validated(Err(e)) => WorkflowEventView::Validated(Err(e@)),
            WorkflowEvent::Stored(Ok(_)) => WorkflowEventView::Stored(Ok(())),
            WorkflowEvent::Stored(Err(e)) => WorkflowEventView::Stored(Err(e@)),
        }
    }
}

/// What a workflow asks the caller to do next.
pub enum WorkflowAction {
    /// Ask the application which validation package the entry type needs.
    GetDefinition,
    /// Assemble the validation package from this node's own chain.
    BuildOwnChainPackage,
    /// Request the validation package from the author of the entry.
    RequestPackageFromSource,
    /// Have the entry validated against this data.
    Validate(ValidationData),
    /// Store what the named workflow stores for the chain pair.
    Store(ValidatingWorkflow),
    /// The workflow has ended with this result.
    Finish(Result<Decision, HolochainError>),
    /// The event was not waited for; nothing changed.
    Ignored,
}

/// The mathematical value of a [`WorkflowAction`].
pub enum WorkflowActionView {
    GetDefinition,
    BuildOwnChainPackage,
    RequestPackageFromSource,
    Validate(ValidationDataView),
    Store(ValidatingWorkflow),
    Finish(Result<DecisionView, HolochainErrorView>),
    Ignored,
}

impl View for WorkflowAction {
    type V = WorkflowActionView;

    open spec fn view(&self) -> WorkflowActionView {
        match self {
            WorkflowAction::GetDefinition => WorkflowActionView::GetDefinition,
            WorkflowAction::BuildOwnChainPackage => WorkflowActionView::BuildOwnChainPackage,
            WorkflowAction::RequestPackageFromSource =>
                WorkflowActionView::RequestPackageFromSource,
            WorkflowAction::Validate(d) => WorkflowActionView::Validate(d@),
            WorkflowAction::Store(w) => WorkflowActionView::Store(*w),
            WorkflowAction::Finish(Ok(d)) => WorkflowActionView::Finish(Ok(d@)),
            WorkflowAction::Finish(Err(e)) => WorkflowActionView::Finish(Err(e@)),
            WorkflowAction::Ignored => WorkflowActionView::Ignored,
        }
    }
}

/// Whether a workflow validates its entry as data of its own or as data
/// about other data.
pub open spec fn lifecycle_of(workflow: ValidatingWorkflow) -> EntryLifecycle {
    match workflow {
        ValidatingWorkflow::HoldEntry => EntryLifecycle::Data,
        _ => EntryLifecycle::Meta,
    }
}

/// A holding workflow in progress.
pub struct HoldingWorkflow {
    chain_pair: ChainPair,
    /// The workflow that was asked for.
    requested: ValidatingWorkflow,
    /// The workflow that runs now. It differs from the one asked for only
    /// when a removed link is being held as an entry.
    current: ValidatingWorkflow,
    stage: Stage,
    /// The address of the local agent, if it is known.
    agent: Option<String>,
}

/// The mathematical value of a [`HoldingWorkflow`].
pub struct HoldingWorkflowView {
    pub chain_pair: ChainPairView,
    pub requested: ValidatingWorkflow,
    pub current: ValidatingWorkflow,
    pub stage: Stage,
    pub agent: Option<Seq<char>>,
}

impl View for HoldingWorkflow {
    type V = HoldingWorkflowView;

    closed spec fn view(&self) -> HoldingWorkflowView {
        HoldingWorkflowView {
            chain_pair: self.chain_pair@,
            requested: self.requested,
            current: self.current,
            stage: self.stage,
            agent: opt_text(self.agent),
        }
    }
}

impl HoldingWorkflowView {
    /// A workflow that has just been started.
    pub open spec fn started(
        pair: ChainPairView,
        workflow: ValidatingWorkflow,
        agent: Option<Seq<char>>,
    ) -> HoldingWorkflowView {
        HoldingWorkflowView {
            chain_pair: pair,
            requested: workflow,
            current: workflow,
            stage: Stage::AwaitingDefinition,
            agent,
        }
    }

    /// The workflow at the given stage.
    pub open spec fn at(self, stage: Stage) -> HoldingWorkflowView {
        HoldingWorkflowView { stage, ..self }
    }

    /// The request to validate against a package.
    pub open spec fn validate(self, package: ValidationPackageView) -> WorkflowActionView {
        WorkflowActionView::Validate(
            ValidationDataView { package, lifecycle: lifecycle_of(self.current) },
        )
    }

    /// The workflow after an event, and what it asks for next.
    ///
    /// The package is made locally where that is possible and requested
    /// from the author where it is not. A failed request means that
    /// validation has to wait. A validation failure that names unresolved
    /// dependencies means the same; every other one rejects the entry, and
    /// that is a result, not an error. Only a valid entry is stored. A
    /// removed link is held as an entry after its removal was stored.
    pub open spec fn step(self, event: WorkflowEventView) -> (HoldingWorkflowView, WorkflowActionView) {
        match (self.stage, event) {
            (Stage::AwaitingDefinition, WorkflowEventView::Definition(d)) => match local_package(
                self.chain_pair,
                d,
                self.agent,
            ) {
                LocalPackageView::Ready(p) => (self.at(Stage::AwaitingValidation), self.validate(p)),
                LocalPackageView::FromOwnChain => (
                    self.at(Stage::AwaitingOwnChainPackage),
                    WorkflowActionView::BuildOwnChainPackage,
                ),
                LocalPackageView::Unavailable(_) => (
                    self.at(Stage::AwaitingSourcePackage),
                    WorkflowActionView::RequestPackageFromSource,
                ),
            },
            (Stage::AwaitingOwnChainPackage, WorkflowEventView::OwnChainPackage(Ok(p))) => (
                self.at(Stage::AwaitingValidation),
                self.validate(p),
            ),
            (Stage::AwaitingOwnChainPackage, WorkflowEventView::OwnChainPackage(Err(_))) => (
                self.at(Stage::AwaitingSourcePackage),
                WorkflowActionView::RequestPackageFromSource,
            ),
            (Stage::AwaitingSourcePackage, WorkflowEventView::SourcePackage(Ok(Some(p)))) => (
                self.at(Stage::AwaitingValidation),
                self.validate(p),
            ),
            (Stage::AwaitingSourcePackage, WorkflowEventView::SourcePackage(Ok(None))) => (
                self.at(Stage::Finished),
                WorkflowActionView::Finish(
                    Err(
                        HolochainErrorView::ErrorGeneric(
                            "Could not get validation package from source"@,
                        ),
                    ),
                ),
            ),
            (Stage::AwaitingSourcePackage, WorkflowEventView::SourcePackage(Err(_))) => (
                self.at(Stage::Finished),
                WorkflowActionView::Finish(
                    Err(HolochainErrorView::ValidationPending(Seq::empty())),
                ),
            ),
            (Stage::AwaitingValidation, WorkflowEventView::Validated(Ok(_))) => (
                self.at(Stage::AwaitingStorage),
                WorkflowActionView::Store(self.current),
            ),
            (Stage::AwaitingValidation, WorkflowEventView::Validated(Err(e))) => (
                self.at(Stage::Finished),
                match verdict_of(e) {
                    ValidationVerdictView::Pending(d) => WorkflowActionView::Finish(
                        Err(HolochainErrorView::ValidationPending(d)),
                    ),
                    ValidationVerdictView::Rejected(reason) => WorkflowActionView::Finish(
                        Ok(DecisionView::Rejected(reason)),
                    ),
                },
            ),
            (Stage::AwaitingStorage, WorkflowEventView::Stored(Ok(_))) => if self.current
                == ValidatingWorkflow::RemoveLink {
                (
                    HoldingWorkflowView {
                        current: ValidatingWorkflow::HoldEntry,
                        stage: Stage::AwaitingDefinition,
                        ..self
                    },
                    WorkflowActionView::GetDefinition,
                )
            } else {
                (self.at(Stage::Finished), WorkflowActionView::Finish(Ok(DecisionView::Accepted)))
            },
            (Stage::AwaitingStorage, WorkflowEventView::Stored(Err(e))) => (
                self.at(Stage::Finished),
                WorkflowActionView::Finish(Err(e)),
            ),
            _ => (self, WorkflowActionView::Ignored),
        }
    }
}

impl HoldingWorkflow {
    /// Starts a workflow for a chain pair. The first thing to do is always
    /// to ask the application which validation package the entry type needs.
    pub fn start(chain_pair: ChainPair, workflow: ValidatingWorkflow, agent: Option<String>) -> (r:
        HoldingWorkflow)
        ensures
            r@ == HoldingWorkflowView::started(chain_pair@, workflow, opt_text(agent)),
    {
        HoldingWorkflow {
            chain_pair,
            requested: workflow,
            current: workflow,
            stage: Stage::AwaitingDefinition,
            agent,
        }
    }

    /// What the workflow waits for.
    pub fn stage(&self) -> (r: Stage)
        ensures
            r == self@.stage,
    {
        self.stage
    }

    /// The chain pair that the workflow is about.
    pub fn chain_pair(&self) -> (r: &ChainPair)
        ensures
            r@ == self@.chain_pair,
    {
        &self.chain_pair
    }

    /// The workflow that was asked for.
    pub fn requested(&self) -> (r: ValidatingWorkflow)
        ensures
            r == self@.requested,
    {
        self.requested
    }

    /// Gives the chain pair back as a pending validation of the workflow
    /// that was asked for, to be run again later: this is what follows a
    /// workflow that ended with validation pending.
    pub fn into_pending(self) -> (r: PendingValidation)
        ensures
            r.chain_pair@ == self@.chain_pair,
            r.workflow == self@.requested,
    {
        PendingValidation { chain_pair: self.chain_pair, workflow: self.requested }
    }

    /// The request to validate against a package.
    fn validate(&self, package: ValidationPackage) -> (r: WorkflowAction)
        ensures
            r@ == self@.validate(package@),
    {
        let lifecycle = match self.current {
            ValidatingWorkflow::HoldEntry => EntryLifecycle::Data,
            _ => EntryLifecycle::Meta,
        };
        WorkflowAction::Validate(ValidationData { package, lifecycle })
    }

    /// Takes an event and says what to do next.
    pub fn step(&mut self, event: WorkflowEvent) -> (action: WorkflowAction)
        ensures
            (final(self)@, action@) == old(self)@.step(event@),
    {
        match (self.stage, event) {
            (Stage::AwaitingDefinition, WorkflowEvent::Definition(d)) => {
                match try_make_local_validation_package(&self.chain_pair, d, &self.agent) {
                    LocalPackage::Ready(package) => {
                        self.stage = Stage::AwaitingValidation;
                        self.validate(package)
                    },
                    LocalPackage::FromOwnChain => {
                        self.stage = Stage::AwaitingOwnChainPackage;
                        WorkflowAction::BuildOwnChainPackage
                    },
                    LocalPackage::Unavailable(_) => {
                        self.stage = Stage::AwaitingSourcePackage;
                        WorkflowAction::RequestPackageFromSource
                    },
                }
            },
            (Stage::AwaitingOwnChainPackage, WorkflowEvent::OwnChainPackage(Ok(package))) => {
                self.stage = Stage::AwaitingValidation;
                self.validate(package)
            },
            (Stage::AwaitingOwnChainPackage, WorkflowEvent::OwnChainPackage(Err(_))) => {
                self.stage = Stage::AwaitingSourcePackage;
                WorkflowAction::RequestPackageFromSource
            },
            (Stage::AwaitingSourcePackage, WorkflowEvent::SourcePackage(Ok(Some(package)))) => {
                self.stage = Stage::AwaitingValidation;
                self.validate(package)
            },
            (Stage::AwaitingSourcePackage, WorkflowEvent::SourcePackage(Ok(None))) => {
                self.stage = Stage::Finished;
                WorkflowAction::Finish(
                    Err(
                        HolochainError::ErrorGeneric(
                            String::from_str("Could not get validation package from source"),
                        ),
                    ),
                )
            },
            (Stage::AwaitingSourcePackage, WorkflowEvent::SourcePackage(Err(_))) => {
                self.stage = Stage::Finished;
                let none: Vec<String> = Vec::new();
                assert(texts(none@) =~= Seq::empty());
                WorkflowAction::Finish(Err(HolochainError::ValidationPending(none)))
            },
            (Stage::AwaitingValidation, WorkflowEvent::Validated(Ok(_))) => {
                self.stage = Stage::AwaitingStorage;
                WorkflowAction::Store(self.current)
            },
            (Stage::AwaitingValidation, WorkflowEvent::Validated(Err(e))) => {
                self.stage = Stage::Finished;
                match classify_validation_failure(e) {
                    ValidationVerdict::Pending(dependencies) => WorkflowAction::Finish(
                        Err(HolochainError::ValidationPending(dependencies)),
                    ),
                    ValidationVerdict::Rejected(reason) => WorkflowAction::Finish(
                        Ok(Decision::Rejected(reason)),
                    ),
                }
            },
            (Stage::AwaitingStorage, WorkflowEvent::Stored(Ok(_))) => {
                if self.current == ValidatingWorkflow::RemoveLink {
                    self.current = ValidatingWorkflow::HoldEntry;
                    self.stage = Stage::AwaitingDefinition;
                    WorkflowAction::GetDefinition
                } else {
                    self.stage = Stage::Finished;
                    WorkflowAction::Finish(Ok(Decision::Accepted))
                }
            },
            (Stage::AwaitingStorage, WorkflowEvent::Stored(Err(e))) => {
                self.stage = Stage::Finished;
                WorkflowAction::Finish(Err(e))
            },
            _ => WorkflowAction::Ignored,
        }
    }
}

/// Runs the given pending validation with the workflow it names: starts
/// that workflow for the chain pair.
pub fn run_holding_workflow(pending: PendingValidation, agent: Option<String>) -> (r: Result<
    HoldingWorkflow,
    HolochainError,
>)
    ensures
        r is Err <==> pending.workflow == ValidatingWorkflow::RemoveLink
            && !(pending.chain_pair@.entry.body is LinkRemove),
        r matches Ok(w) ==> w@ == HoldingWorkflowView::started(
            pending.chain_pair@,
            pending.workflow,
            opt_text(agent),
        ),
        r matches Err(e) ==> e@ == HolochainErrorView::ErrorGeneric(
            "remove_link_workflow expects entry to be an Entry::LinkRemove"@,
        ),
{
    match pending.workflow {
        ValidatingWorkflow::HoldLink => Ok(
            HoldingWorkflow::start(pending.chain_pair, ValidatingWorkflow::HoldLink, agent),
        ),
        ValidatingWorkflow::HoldEntry => Ok(
            HoldingWorkflow::start(pending.chain_pair, ValidatingWorkflow::HoldEntry, agent),
        ),
        ValidatingWorkflow::RemoveLink => remove_link::remove_link_workflow(
            pending.chain_pair,
            agent,
        ),
        ValidatingWorkflow::UpdateEntry => Ok(
            HoldingWorkflow::start(pending.chain_pair, ValidatingWorkflow::UpdateEntry, agent),
        ),
        ValidatingWorkflow::RemoveEntry => Ok(
            HoldingWorkflow::start(pending.chain_pair, ValidatingWorkflow::RemoveEntry, agent),
        ),
    }
}

impl HoldingWorkflowView {
    /// The workflow after the given events, first to last.
    pub open spec fn after(self, events: Seq<WorkflowEventView>) -> HoldingWorkflowView
        decreases events.len(),
    {
        if events.len() == 0 {
            self
        } else {
            self.after(events.drop_last()).step(events.last()).0
        }
    }

    /// What the workflow stores over the given events, in order: the
    /// workflows named by its requests to store.
    pub open spec fn stores(self, events: Seq<WorkflowEventView>) -> Seq<ValidatingWorkflow>
        decreases events.len(),
    {
        if events.len() == 0 {
            Seq::empty()
        } else {
            let earlier = self.stores(events.drop_last());
            match self.after(events.drop_last()).step(events.last()).1 {
                WorkflowActionView::Store(workflow) => earlier.push(workflow),
                _ => earlier,
            }
        }
    }

    /// Whether the last of the given events ended the workflow with the
    /// entry accepted.
    pub open spec fn accepted_by(self, events: Seq<WorkflowEventView>) -> bool {
        events.len() > 0 && self.after(events.drop_last()).step(events.last()).1
            == WorkflowActionView::Finish(Ok(DecisionView::Accepted))
    }
}

/// What an accepted run of a workflow stores: what the workflow stands for,
/// and for a removed link the removal and then the entry that records it.
pub open spec fn stores_of(workflow: ValidatingWorkflow) -> Seq<ValidatingWorkflow> {
    if workflow == ValidatingWorkflow::RemoveLink {
        seq![ValidatingWorkflow::RemoveLink, ValidatingWorkflow::HoldEntry]
    } else {
        seq![workflow]
    }
}

/// What holds of a workflow that was started for `workflow`, and of what it
/// has stored so far, at every point of its run.
spec fn on_track(
    workflow: ValidatingWorkflow,
    state: HoldingWorkflowView,
    stored: Seq<ValidatingWorkflow>,
) -> bool {
    let second = workflow == ValidatingWorkflow::RemoveLink && state.current
        == ValidatingWorkflow::HoldEntry;
    &&& state.requested == workflow
    &&& state.current == workflow || second
    &&& state.stage == Stage::AwaitingStorage ==> stored == if second {
        stores_of(workflow)
    } else {
        seq![workflow]
    }
    &&& state.stage != Stage::AwaitingStorage && state.stage != Stage::Finished ==> stored == if second {
        seq![ValidatingWorkflow::RemoveLink]
    } else {
        Seq::<ValidatingWorkflow>::empty()
    }
}

proof fn lemma_run_stays_on_track(
    pair: ChainPairView,
    workflow: ValidatingWorkflow,
    agent: Option<Seq<char>>,
    events: Seq<WorkflowEventView>,
)
    ensures
        on_track(
            workflow,
            HoldingWorkflowView::started(pair, workflow, agent).after(events),
            HoldingWorkflowView::started(pair, workflow, agent).stores(events),
        ),
    decreases events.len(),
{
    let start = HoldingWorkflowView::started(pair, workflow, agent);
    if events.len() > 0 {
        lemma_run_stays_on_track(pair, workflow, agent, events.drop_last());
        let before = start.after(events.drop_last());
        let stored = start.stores(events.drop_last());
        let (after, action) = before.step(events.last());
        if before.stage == Stage::AwaitingValidation && action is Store {
            assert(stored.push(before.current) =~= if workflow == ValidatingWorkflow::RemoveLink
                && before.current == ValidatingWorkflow::HoldEntry {
                stores_of(workflow)
            } else {
                seq![workflow]
            });
        }
    }
}

/// A run that ends with the entry accepted has stored exactly what its
/// workflow stands for, each thing once and in the same order, whatever
/// events it met on the way. A second accepted run for the same chain pair
/// therefore asks the store for nothing that the first has not already put
/// there, and no step of a workflow asks for anything to be published.
pub proof fn lemma_accepted_run_stores_once(
    pair: ChainPairView,
    workflow: ValidatingWorkflow,
    agent: Option<Seq<char>>,
    events: Seq<WorkflowEventView>,
)
    requires
        HoldingWorkflowView::started(pair, workflow, agent).accepted_by(events),
    ensures
        HoldingWorkflowView::started(pair, workflow, agent).stores(events) == stores_of(workflow),
        HoldingWorkflowView::started(pair, workflow, agent).after(events).stage == Stage::Finished,
{
    lemma_run_stays_on_track(pair, workflow, agent, events.drop_last());
}

/// What a content-addressed store holds after it was asked to store, for
/// the entry at `address`, what the given workflows store, first to last.
/// Such a store keeps each thing once: what it is given again, it has.
pub open spec fn held_after(
    held: Set<(ValidatingWorkflow, Seq<char>)>,
    address: Seq<char>,
    stores: Seq<ValidatingWorkflow>,
) -> Set<(ValidatingWorkflow, Seq<char>)>
    decreases stores.len(),
{
    if stores.len() == 0 {
        held
    } else {
        held_after(held, address, stores.drop_last()).insert((stores.last(), address))
    }
}

proof fn lemma_held_after_contains(
    held: Set<(ValidatingWorkflow, Seq<char>)>,
    address: Seq<char>,
    stores: Seq<ValidatingWorkflow>,
)
    ensures
        forall|x: (ValidatingWorkflow, Seq<char>)|
            #[trigger] held_after(held, address, stores).contains(x) <==> held.contains(x) || (x.1
                == address && stores.contains(x.0)),
    decreases stores.len(),
{
    if stores.len() > 0 {
        let earlier = stores.drop_last();
        lemma_held_after_contains(held, address, earlier);
        let before = held_after(held, address, earlier);
        assert forall|x: (ValidatingWorkflow, Seq<char>)|
            #[trigger] held_after(held, address, stores).contains(x) <==> held.contains(x) || (x.1
                == address && stores.contains(x.0)) by {
            assert(held_after(held, address, stores).contains(x) <==> x == (stores.last(), address)
                || before.contains(x));
            assert(stores.contains(x.0) <==> x.0 == stores.last() || earlier.contains(x.0)) by {
                if x.0 == stores.last() {
                    assert(stores[stores.len() - 1] == x.0);
                }
                if earlier.contains(x.0) {
                    let i = choose|i: int| 0 <= i < earlier.len() && earlier[i] == x.0;
                    assert(stores[i] == x.0);
                }
                if stores.contains(x.0) && x.0 != stores.last() {
                    let i = choose|i: int| 0 <= i < stores.len() && stores[i] == x.0;
                    assert(earlier[i] == x.0);
                }
            }
        }
    }
}

/// Running a workflow again for a chain pair that was accepted before
/// leaves a content-addressed store as the first run left it: whatever the
/// two runs met on the way, the second asks the store only for what the
/// first has put there.
pub proof fn lemma_second_accepted_run_changes_nothing(
    pair: ChainPairView,
    workflow: ValidatingWorkflow,
    agent: Option<Seq<char>>,
    first: Seq<WorkflowEventView>,
    second: Seq<WorkflowEventView>,
    held: Set<(ValidatingWorkflow, Seq<char>)>,
)
    requires
        HoldingWorkflowView::started(pair, workflow, agent).accepted_by(first),
        HoldingWorkflowView::started(pair, workflow, agent).accepted_by(second),
    ensures
        ({
            let start = HoldingWorkflowView::started(pair, workflow, agent);
            let after_first = held_after(held, pair.entry.address, start.stores(first));
            held_after(after_first, pair.entry.address, start.stores(second)) == after_first
        }),
{
    let start = HoldingWorkflowView::started(pair, workflow, agent);
    lemma_accepted_run_stores_once(pair, workflow, agent, first);
    lemma_accepted_run_stores_once(pair, workflow, agent, second);
    let after_first = held_after(held, pair.entry.address, start.stores(first));
    lemma_held_after_contains(held, pair.entry.address, start.stores(first));
    lemma_held_after_contains(after_first, pair.entry.address, start.stores(second));
    let after_second = held_after(after_first, pair.entry.address, start.stores(second));
    assert(start.stores(first) == start.stores(second));
    assert forall|x: (ValidatingWorkflow, Seq<char>)| after_second.contains(x) == after_first.contains(
        x,
    ) by {
        assert(after_second.contains(x) <==> after_first.contains(x) || (x.1 == pair.entry.address
            && start.stores(second).contains(x.0)));
        assert(after_first.contains(x) <==> held.contains(x) || (x.1 == pair.entry.address
            && start.stores(first).contains(x.0)));
    }
    assert(after_second =~= after_first);
}

/// A failed validation ends the workflow without anything being stored: as
/// pending, with the missing dependencies, if and only if the failure names
/// unresolved dependencies, and with the entry rejected in every other case.
pub proof fn lemma_failed_validation_ends_workflow(
    state: HoldingWorkflowView,
    error: ValidationErrorView,
)
    requires
        state.stage == Stage::AwaitingValidation,
    ensures
        ({
            let (after, action) = state.step(WorkflowEventView::Validated(Err(error)));
            &&& after == state.at(Stage::Finished)
            &&& match error {
                ValidationErrorView::UnresolvedDependencies(missing) => action
                    == WorkflowActionView::Finish(
                    Err(HolochainErrorView::ValidationPending(missing)),
                ),
                _ => action matches WorkflowActionView::Finish(Ok(DecisionView::Rejected(_))),
            }
        }),
{
}

/// A workflow that has ended takes no further event: nothing changes and
/// nothing is asked for.
pub proof fn lemma_finished_workflow_ignores_events(
    state: HoldingWorkflowView,
    event: WorkflowEventView,
)
    requires
        state.stage == Stage::Finished,
    ensures
        state.step(event) == (state, WorkflowActionView::Ignored),
{
}

} // verus!
