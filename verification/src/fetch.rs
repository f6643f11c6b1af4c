//! One outbound GET and the handle that is polled for its outcome.
//!
//! The library sends nothing. A [`RemoteFetcher`] holds what the host has to
//! send and remembers the outcome once the host has reported one. The host
//! polls its transport once per tick and hands each observation to
//! [`RemoteFetcher::poll`]: before the outcome is in, the answer is `None`;
//! from the tick it arrives on, the answer is that outcome, whatever the
//! transport says afterwards.

use vstd::prelude::*;

verus! {

/// Why the transport could not deliver a response body.
#[derive(Debug, PartialEq, Eq)]
pub struct TransportError {
    /// What the transport reported.
    pub detail: String,
}

impl View for TransportError {
    type V = Seq<char>;

    open spec fn view(&self) -> Seq<char> {
        self.detail@
    }
}

impl Clone for TransportError {
    fn clone(&self) -> (copy: TransportError)
        ensures
            copy@ == self@,
    {
        TransportError { detail: self.detail.clone() }
    }
}

/// Model of a terminal value: the response body, or the transport's report.
pub type OutcomeView = Result<Seq<char>, Seq<char>>;

/// Model of the terminal value of a fetch.
pub open spec fn outcome_view(outcome: Result<String, TransportError>) -> OutcomeView {
    match outcome {
        Ok(body) => Ok(body@),
        Err(error) => Err(error@),
    }
}

/// Model of one observation of the transport: nothing yet, or the terminal
/// value.
pub open spec fn arrival_view(arrival: Option<Result<String, TransportError>>) -> Option<
    OutcomeView,
> {
    match arrival {
        Some(outcome) => Some(outcome_view(outcome)),
        None => None,
    }
}

/// Model of a list of header lines.
pub open spec fn headers_view(headers: Seq<(String, String)>) -> Seq<(Seq<char>, Seq<char>)> {
    Seq::new(headers.len(), |i: int| (headers[i].0@, headers[i].1@))
}

/// What one poll makes of the handle's memory and of one observation: the
/// first outcome observed is kept, and nothing replaces it.
pub open spec fn latched(held: Option<OutcomeView>, arrival: Option<OutcomeView>) -> Option<
    OutcomeView,
> {
    match held {
        Some(outcome) => Some(outcome),
        None => arrival,
    }
}

/// What the handle remembers after a run of polls, one per observation.
pub open spec fn latched_all(held: Option<OutcomeView>, arrivals: Seq<Option<OutcomeView>>) -> Option<
    OutcomeView,
>
    decreases arrivals.len(),
{
    if arrivals.len() == 0 {
        held
    } else {
        latched(latched_all(held, arrivals.drop_last()), arrivals.last())
    }
}

/// Model of a [`RemoteFetcher`].
pub struct RemoteFetcherView {
    pub url: Seq<char>,
    pub headers: Seq<(Seq<char>, Seq<char>)>,
    /// The terminal value, once the fetch has one.
    pub outcome: Option<OutcomeView>,
}

/// The handle of one GET: the request, and its outcome once it is known.
#[derive(Debug, PartialEq, Eq)]
pub struct RemoteFetcher {
    url: String,
    headers: Vec<(String, String)>,
    outcome: Option<Result<String, TransportError>>,
}

impl View for RemoteFetcher {
    type V = RemoteFetcherView;

    closed spec fn view(&self) -> RemoteFetcherView {
        RemoteFetcherView {
            url: self.url@,
            headers: headers_view(self.headers@),
            outcome: arrival_view(self.outcome),
        }
    }
}

fn clone_outcome(outcome: &Result<String, TransportError>) -> (copy: Result<String, TransportError>)
    ensures
        outcome_view(copy) == outcome_view(*outcome),
{
    match outcome {
        Ok(body) => Ok(body.clone()),
        Err(error) => Err(error.clone()),
    }
}

impl RemoteFetcher {
    /// Prepares a GET of `url` with `headers`. The handle starts in flight.
    pub fn fetch(url: String, headers: Vec<(String, String)>) -> (handle: RemoteFetcher)
        ensures
            handle@ == (RemoteFetcherView {
                url: url@,
                headers: headers_view(headers@),
                outcome: None,
            }),
    {
        RemoteFetcher { url, headers, outcome: None }
    }

    /// The address to get.
    pub fn url(&self) -> (url: &str)
        ensures
            url@ == self@.url,
    {
        self.url.as_str()
    }

    /// The header lines to send, each a name and a value.
    pub fn headers(&self) -> (headers: &Vec<(String, String)>)
        ensures
            headers_view(headers@) == self@.headers,
    {
        &self.headers
    }

    /// Whether the outcome is in.
    pub fn is_terminal(&self) -> (terminal: bool)
        ensures
            terminal == self@.outcome is Some,
    {
        self.outcome.is_some()
    }

    /// Takes one observation of the transport and answers with the state of
    /// the fetch: `None` while it is in flight, and the terminal value from
    /// the first tick on which one was observed. Nothing but the memory of the
    /// outcome changes.
    pub fn poll(&mut self, arrival: Option<Result<String, TransportError>>) -> (answer: Option<
        Result<String, TransportError>,
    >)
        ensures
            final(self)@ == (RemoteFetcherView {
                outcome: latched(old(self)@.outcome, arrival_view(arrival)),
                ..old(self)@
            }),
            arrival_view(answer) == final(self)@.outcome,
    {
        if self.outcome.is_none() {
            self.outcome = arrival;
        }
        match &self.outcome {
            Some(outcome) => Some(clone_outcome(outcome)),
            None => None,
        }
    }
}

/// While nothing arrives, the fetch stays in flight: a handle that holds no
/// outcome still holds none after any run of polls that observed nothing.
pub proof fn lemma_in_flight_until_arrival(arrivals: Seq<Option<OutcomeView>>)
    requires
        forall|i: int| 0 <= i < arrivals.len() ==> arrivals[i] is None,
    ensures
        latched_all(None, arrivals) is None,
    decreases arrivals.len(),
{
    if arrivals.len() > 0 {
        lemma_in_flight_until_arrival(arrivals.drop_last());
    }
}

/// A terminal value is final: a handle that holds an outcome holds the same
/// one after any run of polls, whatever they observed.
pub proof fn lemma_terminal_is_final(outcome: OutcomeView, arrivals: Seq<Option<OutcomeView>>)
    ensures
        latched_all(Some(outcome), arrivals) == Some(outcome),
    decreases arrivals.len(),
{
    if arrivals.len() > 0 {
        lemma_terminal_is_final(outcome, arrivals.drop_last());
    }
}

/// The handle's answer is the first outcome observed: after a run of polls it
/// holds the first arrival that is an outcome, or nothing where there was
/// none.
pub proof fn lemma_first_arrival_wins(arrivals: Seq<Option<OutcomeView>>, first: int)
    requires
        0 <= first < arrivals.len(),
        arrivals[first] is Some,
        forall|i: int| 0 <= i < first ==> arrivals[i] is None,
    ensures
        latched_all(None, arrivals) == arrivals[first],
    decreases arrivals.len(),
{
    let earlier = arrivals.drop_last();
    if first == arrivals.len() - 1 {
        lemma_in_flight_until_arrival(earlier);
    } else {
        lemma_first_arrival_wins(earlier, first);
    }
}

} // verus!
