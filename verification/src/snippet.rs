//! Remote snippets: the request for one, and what its response resolves to.

use crate::error::{AcquisitionError, AcquisitionErrorView, RemoteDetail, RemoteDetailView};
use crate::extract::{
    extraction, json_path_texts, ExtractError, ExtractErrorView, FieldFault, JsonFieldExtractor,
    FIELDS_PATH,
};
use crate::fetch::{outcome_view, OutcomeView, RemoteFetcher, RemoteFetcherView, TransportError};
use crate::source::{resolved_view, ResolvedSource, ResolvedSourceView};
use vstd::prelude::*;

verus! {

/// Where the snippets of the paste service are found; the id follows.
pub const SNIPPET_URL: &'static str = "https://api.github.com/gists/";

/// The name of the one header line sent with a snippet request.
pub const ACCEPT_HEADER: &'static str = "Accept";

/// The media type asked of the paste service.
pub const ACCEPT_VALUE: &'static str = "application/vnd.github.v3+json";

/// The request for the snippet with the given id: a fetch in flight of the
/// snippet's address, with the one header line that names the media type.
pub open spec fn snippet_request(id: Seq<char>) -> RemoteFetcherView {
    RemoteFetcherView {
        url: SNIPPET_URL@ + id,
        headers: seq![(ACCEPT_HEADER@, ACCEPT_VALUE@)],
        outcome: None,
    }
}

/// Prepares the fetch of the snippet with the given id.
pub fn load_gist(gist_id: &str) -> (handle: RemoteFetcher)
    ensures
        handle@ == snippet_request(gist_id@),
{
    let url = SNIPPET_URL.to_string().concat(gist_id);
    let mut headers: Vec<(String, String)> = Vec::new();
    headers.push((ACCEPT_HEADER.to_string(), ACCEPT_VALUE.to_string()));
    let handle = RemoteFetcher::fetch(url, headers);
    proof {
        // the one line pushed is the whole list
        assert(handle@.headers =~= seq![(ACCEPT_HEADER@, ACCEPT_VALUE@)]);
    }
    handle
}

/// The source a response body holds, given what the query finds in it: the
/// extracted file name and content, provided the file name names something.
pub open spec fn parsed(found: Result<Seq<Option<Seq<char>>>, Seq<char>>) -> Result<
    ResolvedSourceView,
    ExtractErrorView,
> {
    match extraction(FIELDS_PATH@, found) {
        Ok((filename, content)) => if filename.len() > 0 {
            Ok(ResolvedSourceView { filename, content })
        } else {
            Err(ExtractErrorView::MissingField(FieldFault::EmptyFilename))
        },
        Err(error) => Err(error),
    }
}

/// Reads the response of the paste service. The first value that the query
/// finds is the file name and the second the content: in a response of the
/// expected shape, those of the first file listed.
pub fn parse_gist_response(json: &str) -> (source: Result<ResolvedSource, ExtractError>)
    ensures
        resolved_view(source) == parsed(json_path_texts(json@, FIELDS_PATH@)),
{
    match JsonFieldExtractor::extract(json, FIELDS_PATH) {
        Err(error) => Err(error),
        Ok((filename, content)) => match ResolvedSource::new(filename, content) {
            Some(source) => Ok(source),
            None => Err(ExtractError::MissingField(FieldFault::EmptyFilename)),
        },
    }
}

/// What a remote snippet resolves to, given the terminal value of its fetch:
/// a report of the transport is a remote failure, and so is a body that
/// cannot be read; a body that can is the source.
pub open spec fn remote_resolution(id: Seq<char>, outcome: OutcomeView) -> Result<
    ResolvedSourceView,
    AcquisitionErrorView,
> {
    match outcome {
        Err(report) => Err(
            AcquisitionErrorView::RemoteFailure(id, RemoteDetailView::Transport(report)),
        ),
        Ok(body) => match parsed(json_path_texts(body, FIELDS_PATH@)) {
            Ok(source) => Ok(source),
            Err(error) => Err(
                AcquisitionErrorView::RemoteFailure(id, RemoteDetailView::Extract(error)),
            ),
        },
    }
}

/// Turns the terminal value of a snippet's fetch into the result of the
/// resolution.
pub fn get_gist_file(gist_id: String, outcome: Result<String, TransportError>) -> (resolved: Result<
    ResolvedSource,
    AcquisitionError,
>)
    ensures
        resolved_view(resolved) == remote_resolution(gist_id@, outcome_view(outcome)),
{
    match outcome {
        Err(report) => Err(AcquisitionError::RemoteFailure(gist_id, RemoteDetail::Transport(report))),
        Ok(body) => match parse_gist_response(body.as_str()) {
            Ok(source) => Ok(source),
            Err(error) => Err(AcquisitionError::RemoteFailure(gist_id, RemoteDetail::Extract(error))),
        },
    }
}

} // verus!
