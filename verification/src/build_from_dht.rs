//! Building a validation package from what the DHT holds, for an entry that
//! another agent authored.
//!
//! The builder walks the author's chain backwards, header by header, and
//! then collects the public entries of the headers it found. It fetches
//! nothing itself: each step names the address to fetch next, and the caller
//! hands the result of that fetch to the next step. A fetch that fails
//! ends the build; a package is never given out in part.
use vstd::prelude::*;
use crate::chain_pair::{ChainPair, ChainPairView};
use crate::entry::{
    ChainHeader, ChainHeaderView, Entry, EntryBody, EntryBodyView, EntryType, EntryTypeView,
    EntryView, clone_entries, clone_headers, entry_views, header_views,
};
use crate::error::{HolochainError, HolochainErrorView};
use crate::text::{opt_text, texts};
use crate::validation::{
    ValidationPackage, ValidationPackageDefinition, ValidationPackageDefinitionView,
    ValidationPackageView,
};
use crate::workflows::{
    CallbackResult, CallbackResultView, callback_not_implemented_text, definition_view,
};

verus! {

/// Milliseconds that the caller gives each single fetch.
pub const GET_TIMEOUT_MS: u64 = 500;

/// The views of a list of entry types, in order.
pub open spec fn entry_type_views(v: Seq<EntryType>) -> Seq<EntryTypeView> {
    v.map_values(|t: EntryType| t@)
}

/// Whether entries of a type may be given to other nodes: all but those of
/// the types that are kept private.
pub open spec fn publishable(private: Seq<EntryTypeView>, entry_type: EntryTypeView) -> bool {
    !private.contains(entry_type)
}

/// The entry addresses of those headers whose entry type may be published,
/// in the order of the headers.
pub open spec fn public_entry_addresses(
    headers: Seq<ChainHeaderView>,
    private: Seq<EntryTypeView>,
) -> Seq<Seq<char>>
    decreases headers.len(),
{
    if headers.len() == 0 {
        Seq::empty()
    } else {
        let earlier = public_entry_addresses(headers.drop_last(), private);
        if publishable(private, headers.last().entry_type) {
            earlier.push(headers.last().entry_address)
        } else {
            earlier
        }
    }
}

/// Whether entries of the given type may be given to other nodes.
pub fn can_publish(entry_type: &EntryType, private: &Vec<EntryType>) -> (r: bool)
    ensures
        r == publishable(entry_type_views(private@), entry_type@),
{
    let mut i: usize = 0;
    while i < private.len()
        invariant
            i <= private.len(),
            forall|j: int| 0 <= j < i ==> private@[j]@ != entry_type@,
        decreases private.len() - i,
    {
        if private[i].same(entry_type) {
            assert(entry_type_views(private@)[i as int] == entry_type@);
            return false;
        }
        i += 1;
    }
    assert forall|j: int| 0 <= j < entry_type_views(private@).len() implies entry_type_views(
        private@,
    )[j] != entry_type@ by {
        assert(entry_type_views(private@)[j] == private@[j]@);
    }
    true
}

/// Where a build stands.
pub enum BuildStage {
    /// The header at this address is being fetched.
    Walking(String),
    /// The public entries of the chain are being fetched.
    Collecting,
    /// The build has ended.
    Done,
}

/// The mathematical value of a [`BuildStage`].
pub enum BuildStageView {
    Walking(Seq<char>),
    Collecting,
    Done,
}

impl View for BuildStage {
    type V = BuildStageView;

    open spec fn view(&self) -> BuildStageView {
        match self {
            BuildStage::Walking(a) => BuildStageView::Walking(a@),
            BuildStage::Collecting => BuildStageView::Collecting,
            BuildStage::Done => BuildStageView::Done,
        }
    }
}

/// What a build asks the caller to do next.
pub enum BuildAction {
    /// Fetch what the DHT holds at this address and hand it to the next step.
    Fetch(String),
    /// The package is complete.
    Finished(ValidationPackage),
    /// The build has failed.
    Failed(HolochainError),
    /// The build had ended before; nothing changed.
    Ignored,
}

/// The mathematical value of a [`BuildAction`].
pub enum BuildActionView {
    Fetch(Seq<char>),
    Finished(ValidationPackageView),
    Failed(HolochainErrorView),
    Ignored,
}

impl View for BuildAction {
    type V = BuildActionView;

    open spec fn view(&self) -> BuildActionView {
        match self {
            BuildAction::Fetch(a) => BuildActionView::Fetch(a@),
            BuildAction::Finished(p) => BuildActionView::Finished(p@),
            BuildAction::Failed(e) => BuildActionView::Failed(e@),
            BuildAction::Ignored => BuildActionView::Ignored,
        }
    }
}

/// The view of what a fetch brought, if anything.
pub open spec fn opt_entry(o: Option<Entry>) -> Option<EntryView> {
    match o {
        Some(e) => Some(e@),
        None => None,
    }
}

/// A build of a validation package from the DHT, in progress.
pub struct DhtPackageBuilder {
    definition: ValidationPackageDefinition,
    /// The header of the entry to validate.
    header: ChainHeader,
    /// The entry types that are kept private.
    private: Vec<EntryType>,
    /// The headers found so far, from the newest back.
    headers: Vec<ChainHeader>,
    /// The addresses at which those headers were found.
    visited: Vec<String>,
    /// The addresses of the public entries to fetch once the walk is over.
    wanted: Vec<String>,
    /// The public entries fetched so far.
    entries: Vec<Entry>,
    stage: BuildStage,
}

/// The mathematical value of a [`DhtPackageBuilder`].
pub struct DhtPackageBuilderView {
    pub definition: ValidationPackageDefinitionView,
    pub header: ChainHeaderView,
    pub private: Seq<EntryTypeView>,
    pub headers: Seq<ChainHeaderView>,
    pub visited: Seq<Seq<char>>,
    pub wanted: Seq<Seq<char>>,
    pub entries: Seq<EntryView>,
    pub stage: BuildStageView,
}

impl View for DhtPackageBuilder {
    type V = DhtPackageBuilderView;

    closed spec fn view(&self) -> DhtPackageBuilderView {
        DhtPackageBuilderView {
            definition: self.definition@,
            header: self.header@,
            private: entry_type_views(self.private@),
            headers: header_views(self.headers@),
            visited: texts(self.visited@),
            wanted: texts(self.wanted@),
            entries: entry_views(self.entries@),
            stage: self.stage@,
        }
    }
}

impl DhtPackageBuilderView {
    /// A build that has found no header yet and waits for nothing.
    pub open spec fn fresh(
        definition: ValidationPackageDefinitionView,
        header: ChainHeaderView,
        private: Seq<EntryTypeView>,
    ) -> DhtPackageBuilderView {
        DhtPackageBuilderView {
            definition,
            header,
            private,
            headers: Seq::empty(),
            visited: Seq::empty(),
            wanted: Seq::empty(),
            entries: Seq::empty(),
            stage: BuildStageView::Done,
        }
    }

    /// The package of this build, from the headers and entries it has.
    pub open spec fn package(self) -> ValidationPackageView {
        ValidationPackageView::assemble(self.definition, self.header, self.headers, self.entries)
    }

    /// Whether the definition asks for entries of the chain.
    pub open spec fn needs_entries(self) -> bool {
        self.definition is ChainEntries || self.definition is ChainFull
    }

    /// The build when the walk has found a header whose predecessor is at
    /// `link`, or that has none: the walk goes on at a new address, fails
    /// at one it has been at, and is over where there is no predecessor.
    pub open spec fn walk_on(self, link: Option<Seq<char>>) -> (
        DhtPackageBuilderView,
        BuildActionView,
    ) {
        match link {
            Some(next) => if self.visited.contains(next) {
                (
                    DhtPackageBuilderView { stage: BuildStageView::Done, ..self },
                    BuildActionView::Failed(HolochainErrorView::CycleDetected(next)),
                )
            } else {
                (
                    DhtPackageBuilderView { stage: BuildStageView::Walking(next), ..self },
                    BuildActionView::Fetch(next),
                )
            },
            None => self.walk_over(),
        }
    }

    /// The build when the walk is over: the package is complete unless the
    /// definition asks for entries and the chain has public ones, which are
    /// fetched then, first to last.
    pub open spec fn walk_over(self) -> (DhtPackageBuilderView, BuildActionView) {
        let wanted = if self.needs_entries() {
            public_entry_addresses(self.headers, self.private)
        } else {
            Seq::empty()
        };
        let collecting = DhtPackageBuilderView { wanted, ..self };
        collecting.collect_on()
    }

    /// The build between two fetches of entries: the next wanted entry is
    /// fetched, and the package is complete when none is left.
    pub open spec fn collect_on(self) -> (DhtPackageBuilderView, BuildActionView) {
        if self.entries.len() < self.wanted.len() {
            (
                DhtPackageBuilderView { stage: BuildStageView::Collecting, ..self },
                BuildActionView::Fetch(self.wanted[self.entries.len() as int]),
            )
        } else {
            (
                DhtPackageBuilderView { stage: BuildStageView::Done, ..self },
                BuildActionView::Finished(self.package()),
            )
        }
    }

    /// The build after the fetch of a header at `address` has brought
    /// `fetched`: anything but a header entry fails the build.
    pub open spec fn walk_step(self, address: Seq<char>, fetched: Option<EntryView>) -> (
        DhtPackageBuilderView,
        BuildActionView,
    ) {
        match fetched {
            Some(EntryView { body: EntryBodyView::ChainHeader(found), .. }) => (
                DhtPackageBuilderView {
                    headers: self.headers.push(found),
                    visited: self.visited.push(address),
                    ..self
                }
            ).walk_on(found.link),
            _ => (
                DhtPackageBuilderView { stage: BuildStageView::Done, ..self },
                BuildActionView::Failed(HolochainErrorView::DependencyFetchFailed(address)),
            ),
        }
    }

    /// The build after the fetch of the next wanted entry has brought
    /// `fetched`: nothing fails the build.
    pub open spec fn collect_step(self, fetched: Option<EntryView>) -> (
        DhtPackageBuilderView,
        BuildActionView,
    ) {
        match fetched {
            Some(entry) => (DhtPackageBuilderView {
                entries: self.entries.push(entry),
                ..self
            }).collect_on(),
            None => (
                DhtPackageBuilderView { stage: BuildStageView::Done, ..self },
                BuildActionView::Failed(
                    HolochainErrorView::DependencyFetchFailed(
                        self.wanted[self.entries.len() as int],
                    ),
                ),
            ),
        }
    }

    /// The build after a fetch has brought `fetched`, and what it asks for
    /// next.
    pub open spec fn step(self, fetched: Option<EntryView>) -> (
        DhtPackageBuilderView,
        BuildActionView,
    ) {
        match self.stage {
            BuildStageView::Walking(address) => self.walk_step(address, fetched),
            BuildStageView::Collecting => self.collect_step(fetched),
            BuildStageView::Done => (self, BuildActionView::Ignored),
        }
    }

    /// What holds of every build: during the walk no entry is wanted or
    /// there yet; while entries are collected, the wanted ones are the
    /// public entries of the headers found, and not all of them are there.
    pub open spec fn wf(self) -> bool {
        &&& self.stage is Walking ==> self.wanted.len() == 0 && self.entries.len() == 0
        &&& self.stage is Collecting ==> {
            &&& self.needs_entries()
            &&& self.wanted == public_entry_addresses(self.headers, self.private)
            &&& self.entries.len() < self.wanted.len()
        }
    }

    /// The build that starts the walk for a header, and what it asks for
    /// first.
    pub open spec fn started(
        definition: ValidationPackageDefinitionView,
        header: ChainHeaderView,
        private: Seq<EntryTypeView>,
    ) -> (DhtPackageBuilderView, BuildActionView) {
        Self::fresh(definition, header, private).walk_on(header.link)
    }
}

/// How a build from the DHT starts for a chain pair: not at all where the
/// application has named no package definition, else with the walk.
pub open spec fn dht_build_start(
    pair: ChainPairView,
    definition: Result<CallbackResultView, HolochainErrorView>,
    private: Seq<EntryTypeView>,
) -> Result<(DhtPackageBuilderView, BuildActionView), HolochainErrorView> {
    match definition {
        Err(e) => Err(e),
        Ok(CallbackResultView::Fail(s)) => Err(HolochainErrorView::ErrorGeneric(s)),
        Ok(CallbackResultView::NotImplemented(reason)) => Err(
            HolochainErrorView::ErrorGeneric(
                callback_not_implemented_text(pair.entry.body, reason),
            ),
        ),
        Ok(CallbackResultView::ValidationPackageDefinition(d)) => Ok(
            DhtPackageBuilderView::started(d, pair.header, private),
        ),
    }
}

/// The view of a started build, or of the failure to start one.
pub open spec fn build_start_view(r: Result<(DhtPackageBuilder, BuildAction), HolochainError>) -> Result<
    (DhtPackageBuilderView, BuildActionView),
    HolochainErrorView,
> {
    match r {
        Ok((b, a)) => Ok((b@, a@)),
        Err(e) => Err(e@),
    }
}

/// Starts the build of a validation package from the DHT for a chain pair,
/// given what the application answered about the entry type and the entry
/// types that are kept private.
///
/// The walk along the chain is made whatever the definition asks for; a
/// definition that needs no chain data throws its result away.
pub fn try_make_validation_package_dht(
    chain_pair: &ChainPair,
    definition: Result<CallbackResult, HolochainError>,
    private: Vec<EntryType>,
) -> (r: Result<(DhtPackageBuilder, BuildAction), HolochainError>)
    ensures
        build_start_view(r) == dht_build_start(
            chain_pair@,
            definition_view(definition),
            entry_type_views(private@),
        ),
        r matches Ok((b, _)) ==> b@.wf(),
{
    let validation_package_definition = match definition {
        Err(e) => {
            return Err(e);
        },
        Ok(CallbackResult::Fail(error_string)) => {
            return Err(HolochainError::ErrorGeneric(error_string));
        },
        Ok(CallbackResult::NotImplemented(reason)) => {
            let name = chain_pair.entry().entry_type().name();
            let text = String::from_str("ValidationPackage callback not implemented for ").concat(
                name.as_str(),
            ).concat(" (").concat(reason.as_str()).concat(")");
            return Err(HolochainError::ErrorGeneric(text));
        },
        Ok(CallbackResult::ValidationPackageDefinition(def)) => def,
    };
    let entry_header = chain_pair.header().clone();
    let link = match &entry_header.link {
        Some(a) => Some(a.clone()),
        None => None,
    };
    let mut builder = DhtPackageBuilder {
        definition: validation_package_definition,
        header: entry_header,
        private,
        headers: Vec::new(),
        visited: Vec::new(),
        wanted: Vec::new(),
        entries: Vec::new(),
        stage: BuildStage::Done,
    };
    assert(builder@ == DhtPackageBuilderView::fresh(
        validation_package_definition@,
        chain_pair@.header,
        entry_type_views(private@),
    )) by {
        assert(header_views(builder.headers@) =~= Seq::empty());
        assert(texts(builder.visited@) =~= Seq::empty());
        assert(texts(builder.wanted@) =~= Seq::empty());
        assert(entry_views(builder.entries@) =~= Seq::empty());
    }
    let action = builder.walk_on(link);
    Ok((builder, action))
}

impl DhtPackageBuilder {
    /// Where the build stands.
    pub fn stage(&self) -> (r: &BuildStage)
        ensures
            r@ == self@.stage,
    {
        &self.stage
    }

    /// How many headers the walk has found so far.
    pub fn headers_walked(&self) -> (r: usize)
        ensures
            r == self@.headers.len(),
    {
        self.headers.len()
    }

    /// The package of this build, from the headers and entries it has.
    fn package(&self) -> (r: ValidationPackage)
        ensures
            r@ == self@.package(),
    {
        let mut package = ValidationPackage::only_header(self.header.clone());
        match &self.definition {
            ValidationPackageDefinition::Entry => {},
            ValidationPackageDefinition::ChainEntries => {
                package.source_chain_entries = Some(clone_entries(&self.entries));
            },
            ValidationPackageDefinition::ChainHeaders => {
                package.source_chain_headers = Some(clone_headers(&self.headers));
            },
            ValidationPackageDefinition::ChainFull => {
                package.source_chain_headers = Some(clone_headers(&self.headers));
                package.source_chain_entries = Some(clone_entries(&self.entries));
            },
            ValidationPackageDefinition::Custom(string) => {
                package.custom = Some(string.clone());
            },
        }
        package
    }

    /// Whether the walk has been at the given address.
    fn has_visited(&self, address: &String) -> (r: bool)
        ensures
            r == self@.visited.contains(address@),
    {
        let mut i: usize = 0;
        while i < self.visited.len()
            invariant
                i <= self.visited.len(),
                forall|j: int| 0 <= j < i ==> self.visited@[j]@ != address@,
            decreases self.visited.len() - i,
        {
            if self.visited[i] == *address {
                assert(texts(self.visited@)[i as int] == address@);
                return true;
            }
            i += 1;
        }
        assert forall|j: int| 0 <= j < texts(self.visited@).len() implies texts(
            self.visited@,
        )[j] != address@ by {
            assert(texts(self.visited@)[j] == self.visited@[j]@);
        }
        false
    }

    /// Goes on with the collection of entries, or ends the build with the
    /// complete package.
    fn collect_on(&mut self) -> (action: BuildAction)
        requires
            old(self)@.entries.len() < old(self)@.wanted.len() ==> old(self)@.needs_entries()
                && old(self)@.wanted == public_entry_addresses(
                old(self)@.headers,
                old(self)@.private,
            ),
        ensures
            (final(self)@, action@) == old(self)@.collect_on(),
            final(self)@.wf(),
    {
        if self.entries.len() < self.wanted.len() {
            self.stage = BuildStage::Collecting;
            BuildAction::Fetch(self.wanted[self.entries.len()].clone())
        } else {
            self.stage = BuildStage::Done;
            BuildAction::Finished(self.package())
        }
    }

    /// Ends the walk: works out which entries the package needs and goes on
    /// to collect them.
    fn walk_over(&mut self) -> (action: BuildAction)
        requires
            old(self)@.wanted.len() == 0,
            old(self)@.entries.len() == 0,
        ensures
            (final(self)@, action@) == old(self)@.walk_over(),
            final(self)@.wf(),
    {
        let needs_entries = match &self.definition {
            ValidationPackageDefinition::ChainEntries => true,
            ValidationPackageDefinition::ChainFull => true,
            _ => false,
        };
        let mut wanted: Vec<String> = Vec::new();
        if needs_entries {
            let ghost all = header_views(self.headers@);
            let ghost private = entry_type_views(self.private@);
            assert(texts(wanted@) =~= public_entry_addresses(all.subrange(0, 0), private));
            let mut i: usize = 0;
            while i < self.headers.len()
                invariant
                    i <= self.headers.len(),
                    all == header_views(self.headers@),
                    private == entry_type_views(self.private@),
                    texts(wanted@) == public_entry_addresses(all.subrange(0, i as int), private),
                decreases self.headers.len() - i,
            {
                assert(all.subrange(0, i + 1).drop_last() =~= all.subrange(0, i as int));
                assert(all.subrange(0, i + 1).last() == self.headers@[i as int]@);
                if can_publish(&self.headers[i].entry_type, &self.private) {
                    let ghost before = wanted@;
                    wanted.push(self.headers[i].entry_address.clone());
                    assert(texts(wanted@) =~= texts(before).push(
                        self.headers@[i as int].entry_address@,
                    ));
                }
                i += 1;
            }
            assert(all.subrange(0, all.len() as int) =~= all);
        } else {
            assert(texts(wanted@) =~= Seq::empty());
        }
        self.wanted = wanted;
        self.collect_on()
    }

    /// Goes on with the walk at the predecessor of the header found last.
    fn walk_on(&mut self, link: Option<String>) -> (action: BuildAction)
        requires
            old(self)@.wanted.len() == 0,
            old(self)@.entries.len() == 0,
        ensures
            (final(self)@, action@) == old(self)@.walk_on(opt_text(link)),
            final(self)@.wf(),
    {
        match link {
            Some(next) => {
                if self.has_visited(&next) {
                    self.stage = BuildStage::Done;
                    BuildAction::Failed(HolochainError::CycleDetected(next))
                } else {
                    self.stage = BuildStage::Walking(next.clone());
                    BuildAction::Fetch(next)
                }
            },
            None => self.walk_over(),
        }
    }

    /// One step of the walk back along the chain: takes what the fetch at
    /// `address` brought. A header is kept and its predecessor is fetched
    /// next; anything else ends the build with the address that failed.
    pub fn all_chain_headers_before_header_dht(&mut self, fetched: Option<Entry>) -> (action:
        BuildAction)
        requires
            old(self)@.wf(),
            old(self)@.stage is Walking,
        ensures
            (final(self)@, action@) == old(self)@.step(opt_entry(fetched)),
            final(self)@.wf(),
    {
        let address = match &self.stage {
            BuildStage::Walking(a) => a.clone(),
            _ => String::new(),
        };
        match fetched {
            Some(Entry { body: EntryBody::ChainHeader(chain_header), .. }) => {
                let link = match &chain_header.link {
                    Some(a) => Some(a.clone()),
                    None => None,
                };
                let ghost headers_before = self.headers@;
                let ghost visited_before = self.visited@;
                self.headers.push(chain_header);
                self.visited.push(address);
                assert(header_views(self.headers@) =~= header_views(headers_before).push(
                    chain_header@,
                ));
                assert(texts(self.visited@) =~= texts(visited_before).push(address@));
                self.walk_on(link)
            },
            _ => {
                self.stage = BuildStage::Done;
                BuildAction::Failed(HolochainError::DependencyFetchFailed(address))
            },
        }
    }

    /// One step of the collection of public entries: takes what the fetch
    /// of the next wanted entry brought. An entry is kept and the next one
    /// is fetched; nothing ends the build with the address that failed.
    pub fn public_chain_entries_from_headers_dht(&mut self, fetched: Option<Entry>) -> (action:
        BuildAction)
        requires
            old(self)@.wf(),
            old(self)@.stage is Collecting,
        ensures
            (final(self)@, action@) == old(self)@.step(opt_entry(fetched)),
            final(self)@.wf(),
    {
        match fetched {
            Some(entry) => {
                let ghost before = self.entries@;
                self.entries.push(entry);
                assert(entry_views(self.entries@) =~= entry_views(before).push(entry@));
                self.collect_on()
            },
            None => {
                self.stage = BuildStage::Done;
                BuildAction::Failed(
                    HolochainError::DependencyFetchFailed(
                        self.wanted[self.entries.len()].clone(),
                    ),
                )
            },
        }
    }

    /// Takes what the last fetch brought and says what to do next.
    pub fn step(&mut self, fetched: Option<Entry>) -> (action: BuildAction)
        requires
            old(self)@.wf(),
        ensures
            (final(self)@, action@) == old(self)@.step(opt_entry(fetched)),
            final(self)@.wf(),
    {
        match &self.stage {
            BuildStage::Walking(_) => self.all_chain_headers_before_header_dht(fetched),
            BuildStage::Collecting => self.public_chain_entries_from_headers_dht(fetched),
            BuildStage::Done => BuildAction::Ignored,
        }
    }
}

/// The build and its last request after the given fetch results, first to
/// last, from where it started.
pub open spec fn dht_build_run(
    start: (DhtPackageBuilderView, BuildActionView),
    fetches: Seq<Option<EntryView>>,
) -> (DhtPackageBuilderView, BuildActionView)
    decreases fetches.len(),
{
    if fetches.len() == 0 {
        start
    } else {
        dht_build_run(start, fetches.drop_last()).0.step(fetches.last())
    }
}

/// Whether a fetch result is an entry that holds the given header.
pub open spec fn brought_header(fetched: Option<EntryView>, header: ChainHeaderView) -> bool {
    fetched matches Some(entry) && entry.body == EntryBodyView::ChainHeader(header)
}

/// The address that a build asked for before its fetch number `k`: during
/// the walk the address of a header, after it the address of a public entry.
pub open spec fn asked_address(build: DhtPackageBuilderView, k: int) -> Seq<char> {
    if k < build.headers.len() {
        build.visited[k]
    } else {
        build.wanted[k - build.headers.len()]
    }
}

/// How the state of a build and its last request hang together with the
/// fetch results that led there.
spec fn explained_by(
    start: (DhtPackageBuilderView, BuildActionView),
    build: DhtPackageBuilderView,
    action: BuildActionView,
    fetches: Seq<Option<EntryView>>,
) -> bool {
    let walked = build.headers.len();
    let collected = build.entries.len();
    action is Fetch || action is Finished ==> {
        &&& build.visited.len() == walked
        &&& fetches.len() == walked + collected
        &&& forall|i: int| 0 <= i < walked ==> brought_header(#[trigger] fetches[i], build.headers[i])
        &&& forall|j: int|
            0 <= j < collected ==> #[trigger] fetches[walked + j] == Some(build.entries[j])
        &&& forall|k: int|
            0 <= k < fetches.len() ==> (#[trigger] dht_build_run(start, fetches.take(k))).1
                == BuildActionView::Fetch(asked_address(build, k))
        &&& collected <= build.wanted.len()
        &&& action matches BuildActionView::Fetch(address) ==> {
            &&& build.wf()
            &&& build.stage is Walking ==> build.stage == BuildStageView::Walking(address)
            &&& build.stage is Collecting ==> address == build.wanted[collected as int]
            &&& !(build.stage is Done)
        }
        &&& action matches BuildActionView::Finished(package) ==> {
            &&& package == build.package()
            &&& collected == build.wanted.len()
            &&& build.wanted == if build.needs_entries() {
                public_entry_addresses(build.headers, build.private)
            } else {
                Seq::empty()
            }
        }
    }
}

proof fn lemma_build_run_is_explained(
    definition: ValidationPackageDefinitionView,
    header: ChainHeaderView,
    private: Seq<EntryTypeView>,
    fetches: Seq<Option<EntryView>>,
)
    ensures
        ({
            let start = DhtPackageBuilderView::started(definition, header, private);
            let (build, action) = dht_build_run(start, fetches);
            &&& explained_by(start, build, action, fetches)
            &&& build.definition == definition
            &&& build.header == header
            &&& build.private == private
        }),
    decreases fetches.len(),
{
    let start = DhtPackageBuilderView::started(definition, header, private);
    if fetches.len() > 0 {
        let earlier = fetches.drop_last();
        lemma_build_run_is_explained(definition, header, private, earlier);
        let (before, asked) = dht_build_run(start, earlier);
        let (build, action) = before.step(fetches.last());
        if action is Fetch || action is Finished {
            assert(asked is Fetch);
            let walked = build.headers.len();
            let collected = build.entries.len();
            assert forall|i: int| 0 <= i < walked implies brought_header(
                #[trigger] fetches[i],
                build.headers[i],
            ) by {
                if i < before.headers.len() {
                    assert(fetches[i] == earlier[i]);
                }
            }
            assert forall|j: int| 0 <= j < collected implies #[trigger] fetches[walked + j] == Some(
                build.entries[j],
            ) by {
                if j < before.entries.len() {
                    assert(fetches[walked + j] == earlier[before.headers.len() + j]);
                }
            }
            assert forall|k: int| 0 <= k < fetches.len() implies (#[trigger] dht_build_run(
                start,
                fetches.take(k),
            )).1 == BuildActionView::Fetch(asked_address(build, k)) by {
                if k < earlier.len() {
                    assert(fetches.take(k) =~= earlier.take(k));
                    assert(asked_address(build, k) == asked_address(before, k));
                } else {
                    assert(fetches.take(k) =~= earlier);
                }
            }
        }
    }
}

/// What a finished build has done, whatever the chain looked like.
///
/// The package is the one that the definition stands for, made from the
/// headers walked and the entries collected. Each header walked was brought
/// by one of the first fetches, in order, and each entry by one of the
/// fetches after them. Where the definition asks for entries, the build
/// asked for the entry of each header whose entry type may be published, in
/// the order of the headers, and for no other; where it does not, it asked
/// for none.
pub proof fn lemma_finished_build(
    definition: ValidationPackageDefinitionView,
    header: ChainHeaderView,
    private: Seq<EntryTypeView>,
    fetches: Seq<Option<EntryView>>,
)
    requires
        dht_build_run(DhtPackageBuilderView::started(definition, header, private), fetches).1
            is Finished,
    ensures
        ({
            let start = DhtPackageBuilderView::started(definition, header, private);
            let (build, action) = dht_build_run(start, fetches);
            let walked = build.headers.len();
            let collected = build.entries.len();
            let public = if definition is ChainEntries || definition is ChainFull {
                public_entry_addresses(build.headers, private)
            } else {
                Seq::empty()
            };
            &&& action == BuildActionView::Finished(
                ValidationPackageView::assemble(definition, header, build.headers, build.entries),
            )
            &&& fetches.len() == walked + collected
            &&& collected == public.len()
            &&& forall|i: int|
                0 <= i < walked ==> brought_header(#[trigger] fetches[i], build.headers[i])
            &&& forall|j: int|
                0 <= j < collected ==> #[trigger] fetches[walked + j] == Some(build.entries[j])
            &&& forall|j: int|
                0 <= j < collected ==> (#[trigger] dht_build_run(start, fetches.take(walked + j))).1
                    == BuildActionView::Fetch(public[j])
        }),
{
    lemma_build_run_is_explained(definition, header, private, fetches);
    let start = DhtPackageBuilderView::started(definition, header, private);
    let (build, action) = dht_build_run(start, fetches);
    let walked = build.headers.len();
    assert forall|j: int| 0 <= j < build.entries.len() implies (#[trigger] dht_build_run(
        start,
        fetches.take(walked + j),
    )).1 == BuildActionView::Fetch(build.wanted[j]) by {
        assert(asked_address(build, walked + j) == build.wanted[j]);
    }
}

/// A definition that asks for the header alone gives a package with the
/// header and nothing else, however long the chain is.
pub proof fn lemma_entry_definition_ignores_chain(
    header: ChainHeaderView,
    private: Seq<EntryTypeView>,
    fetches: Seq<Option<EntryView>>,
)
    requires
        dht_build_run(
            DhtPackageBuilderView::started(ValidationPackageDefinitionView::Entry, header, private),
            fetches,
        ).1 is Finished,
    ensures
        dht_build_run(
            DhtPackageBuilderView::started(ValidationPackageDefinitionView::Entry, header, private),
            fetches,
        ).1 == BuildActionView::Finished(ValidationPackageView::only_header(header)),
{
    lemma_finished_build(ValidationPackageDefinitionView::Entry, header, private, fetches);
}

/// A definition that asks for the whole chain gives a package with the
/// headers that were walked, all of them, and with the entries that the
/// fetches brought for those of them whose entry type may be published: one
/// for each such header, asked for at the header's entry address, in the
/// order of the headers.
pub proof fn lemma_chain_full_package(
    header: ChainHeaderView,
    private: Seq<EntryTypeView>,
    fetches: Seq<Option<EntryView>>,
)
    requires
        dht_build_run(
            DhtPackageBuilderView::started(
                ValidationPackageDefinitionView::ChainFull,
                header,
                private,
            ),
            fetches,
        ).1 is Finished,
    ensures
        ({
            let (build, action) = dht_build_run(
                DhtPackageBuilderView::started(
                    ValidationPackageDefinitionView::ChainFull,
                    header,
                    private,
                ),
                fetches,
            );
            &&& action matches BuildActionView::Finished(package)
            &&& package.chain_header == header
            &&& package.custom is None
            &&& package.source_chain_headers == Some(build.headers)
            &&& package.source_chain_entries == Some(build.entries)
            &&& build.entries.len() == public_entry_addresses(build.headers, private).len()
            &&& fetches.len() == build.headers.len() + build.entries.len()
            &&& forall|j: int|
                0 <= j < build.entries.len() ==> {
                    &&& #[trigger] fetches[build.headers.len() + j] == Some(build.entries[j])
                    &&& dht_build_run(
                        DhtPackageBuilderView::started(
                            ValidationPackageDefinitionView::ChainFull,
                            header,
                            private,
                        ),
                        fetches.take(build.headers.len() + j),
                    ).1 == BuildActionView::Fetch(
                        public_entry_addresses(build.headers, private)[j],
                    )
                }
        }),
{
    lemma_finished_build(ValidationPackageDefinitionView::ChainFull, header, private, fetches);
}

} // verus!
