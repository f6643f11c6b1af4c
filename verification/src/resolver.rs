//! Following the selected origin to a resolved source.
//!
//! [`SourceResolver`] is the state of one resolution between the moments at
//! which the host has something to do: [`SourceResolver::start`] and
//! [`SourceResolver::step`] say what that is, and the host reports back with
//! an [`Event`]. Each origin is attempted once, and a failure is the result:
//! no other origin is tried in its place.

use crate::error::{AcquisitionError, AcquisitionErrorView, RemoteDetailView};
use crate::extract::{json_path_texts, ExtractErrorView, FIELDS_PATH};
use crate::fetch::{
    arrival_view, latched, outcome_view, OutcomeView, RemoteFetcher, RemoteFetcherView,
    TransportError,
};
use crate::origin::{
    filename_or_default, OriginOptions, OriginOptionsView, SourceOrigin, SourceOriginView,
};
use crate::snippet::{get_gist_file, load_gist, remote_resolution, snippet_request};
use crate::source::{resolved_view, ResolvedSource, ResolvedSourceView, SENTINEL_FILENAME};
use crate::text::text_of;
use vstd::prelude::*;

verus! {

/// What a file resolves to, given what the loader answered: its content
/// under its path, or a file failure that names the path. A file without a
/// name cannot be a source.
pub open spec fn file_resolution(path: Seq<char>, loaded: Option<Seq<char>>) -> Result<
    ResolvedSourceView,
    AcquisitionErrorView,
> {
    match loaded {
        Some(content) => if path.len() > 0 {
            Ok(ResolvedSourceView { filename: path, content })
        } else {
            Err(AcquisitionErrorView::FileFailure(path))
        },
        None => Err(AcquisitionErrorView::FileFailure(path)),
    }
}

/// Turns the answer of the file loader into the result of the resolution.
pub fn file_source(path: String, loaded: Option<String>) -> (resolved: Result<
    ResolvedSource,
    AcquisitionError,
>)
    ensures
        resolved_view(resolved) == file_resolution(path@, text_of(loaded)),
{
    match loaded {
        None => Err(AcquisitionError::FileFailure(path)),
        Some(content) => {
            let name = path.clone();
            match ResolvedSource::new(name, content) {
                Some(source) => Ok(source),
                None => Err(AcquisitionError::FileFailure(path)),
            }
        },
    }
}

/// The state of a resolution that waits for the host.
#[derive(Debug, PartialEq, Eq)]
pub enum SourceResolver {
    /// The snippet with this id is being fetched.
    Fetching { id: String, fetcher: RemoteFetcher },
    /// The file at this path is being loaded.
    Loading { path: String },
}

/// Mathematical model of a [`SourceResolver`].
pub enum SourceResolverView {
    Fetching { id: Seq<char>, fetcher: RemoteFetcherView },
    Loading { path: Seq<char> },
}

impl View for SourceResolver {
    type V = SourceResolverView;

    open spec fn view(&self) -> SourceResolverView {
        match self {
            SourceResolver::Fetching { id, fetcher } => SourceResolverView::Fetching {
                id: id@,
                fetcher: fetcher@,
            },
            SourceResolver::Loading { path } => SourceResolverView::Loading { path: path@ },
        }
    }
}

/// What the host reports to a waiting resolution.
#[derive(Debug, PartialEq, Eq)]
pub enum Event {
    /// One poll of the transport: nothing yet, or the terminal value.
    Polled(Option<Result<String, TransportError>>),
    /// The answer of the file loader: the content, or nothing where the file
    /// could not be read.
    Loaded(Option<String>),
}

/// Mathematical model of an [`Event`].
pub enum EventView {
    Polled(Option<OutcomeView>),
    Loaded(Option<Seq<char>>),
}

impl View for Event {
    type V = EventView;

    open spec fn view(&self) -> EventView {
        match self {
            Event::Polled(arrival) => EventView::Polled(arrival_view(*arrival)),
            Event::Loaded(loaded) => EventView::Loaded(text_of(*loaded)),
        }
    }
}

/// What comes next in a resolution: the result, or what the host has to do
/// before it reports back to the state that is handed along.
#[derive(Debug, PartialEq, Eq)]
pub enum Step {
    /// Send the request of the state's fetcher, then poll it.
    Fetch(SourceResolver),
    /// Nothing has arrived: yield for one tick, then poll again.
    Wait(SourceResolver),
    /// Load the file at the state's path.
    Load(SourceResolver),
    /// The resolution is over.
    Done(Result<ResolvedSource, AcquisitionError>),
}

/// Mathematical model of a [`Step`].
pub enum StepView {
    Fetch(SourceResolverView),
    Wait(SourceResolverView),
    Load(SourceResolverView),
    Done(Result<ResolvedSourceView, AcquisitionErrorView>),
}

impl View for Step {
    type V = StepView;

    open spec fn view(&self) -> StepView {
        match self {
            Step::Fetch(state) => StepView::Fetch(state@),
            Step::Wait(state) => StepView::Wait(state@),
            Step::Load(state) => StepView::Load(state@),
            Step::Done(resolved) => StepView::Done(resolved_view(*resolved)),
        }
    }
}

impl SourceResolver {
    /// The first step of a resolution. Inline code is the source at once,
    /// under the sentinel file name; a remote snippet is to be fetched and a
    /// file to be loaded.
    pub open spec fn started(options: OriginOptionsView) -> StepView {
        match SourceOrigin::selected(options) {
            SourceOriginView::InlineText(code) => StepView::Done(
                Ok(ResolvedSourceView { filename: SENTINEL_FILENAME@, content: code }),
            ),
            SourceOriginView::RemoteSnippet(id) => StepView::Fetch(
                SourceResolverView::Fetching { id, fetcher: snippet_request(id) },
            ),
            SourceOriginView::FilePath(path) => StepView::Load(SourceResolverView::Loading { path }),
        }
    }

    /// The step a waiting resolution takes on an event.
    ///
    /// A fetch ends with the first terminal value its fetcher has seen, and
    /// waits while there is none; a report of the file loader counts there as
    /// a poll that saw nothing. A load ends with the loader's answer; a poll
    /// reported there changes nothing, and the load is asked for again.
    pub open spec fn stepped(state: SourceResolverView, event: EventView) -> StepView {
        match state {
            SourceResolverView::Fetching { id, fetcher } => {
                let arrival = match event {
                    EventView::Polled(arrival) => arrival,
                    EventView::Loaded(_) => None,
                };
                match latched(fetcher.outcome, arrival) {
                    Some(outcome) => StepView::Done(remote_resolution(id, outcome)),
                    None => StepView::Wait(state),
                }
            },
            SourceResolverView::Loading { path } => match event {
                EventView::Loaded(loaded) => StepView::Done(file_resolution(path, loaded)),
                EventView::Polled(_) => StepView::Load(state),
            },
        }
    }

    /// What the options resolve to, given the terminal value of the fetch
    /// and the answer of the file loader. Only the answer that belongs to the
    /// selected origin is looked at.
    pub open spec fn resolution(
        options: OriginOptionsView,
        outcome: OutcomeView,
        loaded: Option<Seq<char>>,
    ) -> Result<ResolvedSourceView, AcquisitionErrorView> {
        match SourceOrigin::selected(options) {
            SourceOriginView::InlineText(code) => Ok(
                ResolvedSourceView { filename: SENTINEL_FILENAME@, content: code },
            ),
            SourceOriginView::RemoteSnippet(id) => remote_resolution(id, outcome),
            SourceOriginView::FilePath(path) => file_resolution(path, loaded),
        }
    }

    /// Begins the resolution of `options`.
    pub fn start(options: OriginOptions) -> (step: Step)
        ensures
            step@ == Self::started(options@),
    {
        match SourceOrigin::select(options) {
            SourceOrigin::InlineText(code) => Step::Done(Ok(ResolvedSource::from_sourcecode(code))),
            SourceOrigin::RemoteSnippet(id) => {
                let fetcher = load_gist(id.as_str());
                Step::Fetch(SourceResolver::Fetching { id, fetcher })
            },
            SourceOrigin::FilePath(path) => Step::Load(SourceResolver::Loading { path }),
        }
    }

    /// Takes the host's report and says what comes next.
    pub fn step(self, event: Event) -> (step: Step)
        ensures
            step@ == Self::stepped(self@, event@),
    {
        match self {
            SourceResolver::Fetching { id, fetcher } => {
                let arrival = match event {
                    Event::Polled(arrival) => arrival,
                    Event::Loaded(_) => None,
                };
                let mut fetcher = fetcher;
                match fetcher.poll(arrival) {
                    Some(outcome) => Step::Done(get_gist_file(id, outcome)),
                    None => Step::Wait(SourceResolver::Fetching { id, fetcher }),
                }
            },
            SourceResolver::Loading { path } => match event {
                Event::Loaded(loaded) => Step::Done(file_source(path, loaded)),
                Event::Polled(_) => Step::Load(SourceResolver::Loading { path }),
            },
        }
    }

    /// Resolves `options` against answers that are already in hand: the
    /// terminal value of the fetch and the answer of the file loader. This is
    /// what [`SourceResolver::start`] and [`SourceResolver::step`] arrive at
    /// when the host reports these answers.
    pub fn resolve(
        options: OriginOptions,
        outcome: Result<String, TransportError>,
        loaded: Option<String>,
    ) -> (resolved: Result<ResolvedSource, AcquisitionError>)
        ensures
            resolved_view(resolved) == Self::resolution(
                options@,
                outcome_view(outcome),
                text_of(loaded),
            ),
    {
        match SourceOrigin::select(options) {
            SourceOrigin::InlineText(code) => Ok(ResolvedSource::from_sourcecode(code)),
            SourceOrigin::RemoteSnippet(id) => get_gist_file(id, outcome),
            SourceOrigin::FilePath(path) => file_source(path, loaded),
        }
    }
}

/// Inline code wins over everything else. Whatever the other two options
/// hold, and whatever a transport or a file loader would answer, the
/// resolution is over at its start, and the source is the inline code as it
/// was given, under the sentinel file name.
pub proof fn lemma_inline_takes_precedence(
    options: OriginOptionsView,
    outcome: OutcomeView,
    loaded: Option<Seq<char>>,
)
    requires
        options.inline is Some,
    ensures
        SourceResolver::resolution(options, outcome, loaded) == Ok::<
            ResolvedSourceView,
            AcquisitionErrorView,
        >(ResolvedSourceView { filename: SENTINEL_FILENAME@, content: options.inline->0 }),
        SourceResolver::started(options) == StepView::Done(
            SourceResolver::resolution(options, outcome, loaded),
        ),
{
}

/// A remote snippet whose response body does not parse is a remote failure:
/// the error names the snippet and carries the parser's message, and there
/// is no source, not even in part.
pub proof fn lemma_malformed_body_is_remote_failure(
    options: OriginOptionsView,
    body: Seq<char>,
    loaded: Option<Seq<char>>,
)
    requires
        options.inline is None,
        options.remote_id is Some,
        json_path_texts(body, FIELDS_PATH@) is Err,
    ensures
        SourceResolver::resolution(options, Ok(body), loaded) == Err::<
            ResolvedSourceView,
            AcquisitionErrorView,
        >(
            AcquisitionErrorView::RemoteFailure(
                options.remote_id->0,
                RemoteDetailView::Extract(
                    ExtractErrorView::Malformed(json_path_texts(body, FIELDS_PATH@)->Err_0),
                ),
            ),
        ),
{
}

/// A failure of a remote snippet is always a remote failure that names the
/// snippet: a resolution from a remote origin never ends in another error.
pub proof fn lemma_remote_origin_fails_remotely(
    options: OriginOptionsView,
    outcome: OutcomeView,
    loaded: Option<Seq<char>>,
)
    requires
        options.inline is None,
        options.remote_id is Some,
    ensures
        SourceResolver::resolution(options, outcome, loaded) matches Err(error) ==> error
            is RemoteFailure && error->RemoteFailure_0 == options.remote_id->0,
{
}

/// With a file as the only origin, a file that cannot be read is a file
/// failure that names the very path that was asked for, or the default path
/// where none was.
pub proof fn lemma_unreadable_file_is_file_failure(options: OriginOptionsView, outcome: OutcomeView)
    requires
        options.inline is None,
        options.remote_id is None,
    ensures
        SourceResolver::resolution(options, outcome, None) == Err::<
            ResolvedSourceView,
            AcquisitionErrorView,
        >(AcquisitionErrorView::FileFailure(filename_or_default(options.path))),
        options.path is Some ==> filename_or_default(options.path) == options.path->0,
{
}

/// Resolving twice gives the same twice. Two calls of
/// [`SourceResolver::resolve`] on options that read alike, with answers that
/// read alike, end in results that read alike, character by character.
pub proof fn lemma_resolve_is_repeatable(
    first: (OriginOptions, Result<String, TransportError>, Option<String>),
    second: (OriginOptions, Result<String, TransportError>, Option<String>),
    first_resolved: Result<ResolvedSource, AcquisitionError>,
    second_resolved: Result<ResolvedSource, AcquisitionError>,
)
    requires
        first.0@ == second.0@,
        outcome_view(first.1) == outcome_view(second.1),
        text_of(first.2) == text_of(second.2),
        resolved_view(first_resolved) == SourceResolver::resolution(
            first.0@,
            outcome_view(first.1),
            text_of(first.2),
        ),
        resolved_view(second_resolved) == SourceResolver::resolution(
            second.0@,
            outcome_view(second.1),
            text_of(second.2),
        ),
    ensures
        resolved_view(first_resolved) == resolved_view(second_resolved),
{
}

/// The steps arrive at the resolution. A resolution is over at its start or
/// asks the host for one thing. While a fetch observes nothing it waits,
/// unchanged; on the terminal value, and a load on the loader's answer, it
/// is done, with the result that [`SourceResolver::resolution`] gives.
pub proof fn lemma_steps_reach_the_resolution(
    options: OriginOptionsView,
    outcome: OutcomeView,
    loaded: Option<Seq<char>>,
)
    ensures
        match SourceResolver::started(options) {
            StepView::Done(resolved) => resolved == SourceResolver::resolution(
                options,
                outcome,
                loaded,
            ),
            StepView::Fetch(state) => {
                &&& SourceResolver::stepped(state, EventView::Polled(None)) == StepView::Wait(state)
                &&& SourceResolver::stepped(state, EventView::Polled(Some(outcome)))
                    == StepView::Done(SourceResolver::resolution(options, outcome, loaded))
            },
            StepView::Load(state) => SourceResolver::stepped(state, EventView::Loaded(loaded))
                == StepView::Done(SourceResolver::resolution(options, outcome, loaded)),
            StepView::Wait(_) => false,
        },
{
}

/// A resolved source always has a file name: no resolution ends in a source
/// whose name is empty.
pub proof fn lemma_resolved_source_is_named(
    options: OriginOptionsView,
    outcome: OutcomeView,
    loaded: Option<Seq<char>>,
)
    ensures
        SourceResolver::resolution(options, outcome, loaded) matches Ok(source)
            ==> source.filename.len() > 0,
{
    reveal_strlit("noname.txt");
}

} // verus!
