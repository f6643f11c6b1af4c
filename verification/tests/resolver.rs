use rusty_code::error::{AcquisitionError, RemoteDetail};
use rusty_code::extract::{ExtractError, FieldFault, FIELDS_PATH};
use rusty_code::fetch::{RemoteFetcher, TransportError};
use rusty_code::origin::{get_filename, OriginOptions, SourceOrigin, DEFAULT_PATH};
use rusty_code::resolver::{file_source, Event, SourceResolver, Step};
use rusty_code::snippet::{
    get_gist_file, load_gist, parse_gist_response, ACCEPT_HEADER, ACCEPT_VALUE, SNIPPET_URL,
};
use rusty_code::source::ResolvedSource;

const RESPONSE: &str = r#"{"files":{"a":{"filename":"x.py","content":"print(1)"}}}"#;

fn given(value: &str) -> Option<String> {
    Some(value.to_string())
}

fn options(inline: Option<&str>, remote_id: Option<&str>, path: Option<&str>) -> OriginOptions {
    OriginOptions {
        inline: inline.map(String::from),
        remote_id: remote_id.map(String::from),
        path: path.map(String::from),
    }
}

fn source(filename: &str, content: &str) -> ResolvedSource {
    ResolvedSource::new(filename.to_string(), content.to_string()).unwrap()
}

fn down() -> Result<String, TransportError> {
    Err(TransportError { detail: "IOError".to_string() })
}

fn remote_failure(id: &str, error: ExtractError) -> AcquisitionError {
    AcquisitionError::RemoteFailure(id.to_string(), RemoteDetail::Extract(error))
}

fn snippet_fetcher(id: &str) -> RemoteFetcher {
    RemoteFetcher::fetch(
        format!("https://api.github.com/gists/{}", id),
        vec![("Accept".to_string(), "application/vnd.github.v3+json".to_string())],
    )
}

#[test]
fn inline_code_wins_over_the_other_origins() {
    let resolved = SourceResolver::resolve(
        options(Some("fn main() {}"), Some("abc123"), Some("src/main.rs")),
        Ok(RESPONSE.to_string()),
        given("from the file"),
    );
    assert_eq!(resolved, Ok(source("noname.txt", "fn main() {}")));
}

#[test]
fn inline_code_is_taken_whatever_the_others_would_give() {
    for remote_id in [None, Some("abc123")] {
        for path in [None, Some("src/main.rs"), Some("")] {
            for outcome in [down(), Ok(RESPONSE.to_string()), Ok("not json".to_string())] {
                for loaded in [None, given("from the file")] {
                    let resolved = SourceResolver::resolve(
                        options(Some("let x = 1;"), remote_id, path),
                        outcome.clone(),
                        loaded,
                    );
                    assert_eq!(resolved, Ok(source("noname.txt", "let x = 1;")));
                }
            }
        }
    }
}

#[test]
fn inline_code_is_kept_exactly() {
    for code in ["", " ", "\n\tfn main() {}\r\n", "{\"files\":{}}", "größe"] {
        let resolved = SourceResolver::resolve(options(Some(code), None, None), down(), None);
        assert_eq!(resolved, Ok(source("noname.txt", code)));
    }
}

#[test]
fn inline_code_needs_no_step_of_the_host() {
    let step = SourceResolver::start(options(Some("fn main() {}"), Some("abc123"), Some("a.rs")));
    assert_eq!(step, Step::Done(Ok(source("noname.txt", "fn main() {}"))));
}

#[test]
fn a_remote_snippet_resolves_to_its_first_file() {
    let resolved =
        SourceResolver::resolve(options(None, Some("abc123"), None), Ok(RESPONSE.to_string()), None);
    assert_eq!(resolved, Ok(source("x.py", "print(1)")));
}

#[test]
fn a_remote_snippet_wins_over_a_file() {
    let resolved = SourceResolver::resolve(
        options(None, Some("abc123"), Some("src/main.rs")),
        Ok(RESPONSE.to_string()),
        given("from the file"),
    );
    assert_eq!(resolved, Ok(source("x.py", "print(1)")));
}

#[test]
fn a_remote_snippet_is_fetched_then_polled() {
    let step = SourceResolver::start(options(None, Some("abc123"), None));
    let state = match step {
        Step::Fetch(state) => state,
        other => panic!("expected a fetch, got {:?}", other),
    };
    match &state {
        SourceResolver::Fetching { id, fetcher } => {
            assert_eq!(id, "abc123");
            assert_eq!(fetcher.url(), "https://api.github.com/gists/abc123");
            assert_eq!(
                fetcher.headers(),
                &vec![("Accept".to_string(), "application/vnd.github.v3+json".to_string())]
            );
            assert!(!fetcher.is_terminal());
        }
        other => panic!("expected a fetching state, got {:?}", other),
    }
    let state = match state.step(Event::Polled(None)) {
        Step::Wait(state) => state,
        other => panic!("expected a wait, got {:?}", other),
    };
    let state = match state.step(Event::Polled(None)) {
        Step::Wait(state) => state,
        other => panic!("expected a wait, got {:?}", other),
    };
    assert_eq!(
        state,
        SourceResolver::Fetching { id: "abc123".to_string(), fetcher: snippet_fetcher("abc123") }
    );
    assert_eq!(
        state.step(Event::Polled(Some(Ok(RESPONSE.to_string())))),
        Step::Done(Ok(source("x.py", "print(1)")))
    );
}

#[test]
fn a_fetch_takes_a_report_of_the_loader_for_an_idle_tick() {
    let state =
        SourceResolver::Fetching { id: "abc123".to_string(), fetcher: snippet_fetcher("abc123") };
    let step = state.step(Event::Loaded(given("from the file")));
    assert_eq!(
        step,
        Step::Wait(SourceResolver::Fetching {
            id: "abc123".to_string(),
            fetcher: snippet_fetcher("abc123")
        })
    );
}

#[test]
fn a_fetch_acts_on_the_first_terminal_value_only() {
    let mut fetcher = snippet_fetcher("abc123");
    fetcher.poll(Some(Ok(RESPONSE.to_string())));
    let state = SourceResolver::Fetching { id: "abc123".to_string(), fetcher };
    assert_eq!(state.step(Event::Polled(Some(down()))), Step::Done(Ok(source("x.py", "print(1)"))));
}

#[test]
fn a_malformed_body_is_a_remote_failure() {
    let resolved =
        SourceResolver::resolve(options(None, Some("abc123"), None), Ok("{".to_string()), None);
    let message = jsonpath_rust::JsonPathFinder::from_str("{", FIELDS_PATH).err().unwrap();
    assert_eq!(resolved, Err(remote_failure("abc123", ExtractError::Malformed(message))));
}

#[test]
fn a_malformed_body_never_yields_a_source() {
    for body in ["", "not json", "{", "<html></html>", r#"{"files":{"a":{"filename":"x.py","#] {
        let resolved = SourceResolver::resolve(
            options(None, Some("abc123"), Some("src/main.rs")),
            Ok(body.to_string()),
            given("from the file"),
        );
        match resolved {
            Err(AcquisitionError::RemoteFailure(id, RemoteDetail::Extract(ExtractError::Malformed(
                message,
            )))) => {
                assert_eq!(id, "abc123");
                assert!(!message.is_empty());
            }
            other => panic!("expected a remote failure, got {:?}", other),
        }
    }
}

#[test]
fn a_body_without_the_fields_is_a_remote_failure() {
    let resolve = |body: &str| {
        SourceResolver::resolve(options(None, Some("abc123"), None), Ok(body.to_string()), None)
    };
    assert_eq!(
        resolve("{}"),
        Err(remote_failure("abc123", ExtractError::MissingField(FieldFault::FilenameNotText)))
    );
    assert_eq!(
        resolve(r#"{"files":{"a":{"filename":"x.py"}}}"#),
        Err(remote_failure("abc123", ExtractError::MissingField(FieldFault::NoContent)))
    );
    assert_eq!(
        resolve(r#"{"files":{"a":{"filename":"x.py","content":{}}}}"#),
        Err(remote_failure("abc123", ExtractError::MissingField(FieldFault::ContentNotText)))
    );
    assert_eq!(
        resolve(r#"{"files":{"a":{"filename":"","content":"print(1)"}}}"#),
        Err(remote_failure("abc123", ExtractError::MissingField(FieldFault::EmptyFilename)))
    );
}

#[test]
fn a_snippet_may_be_empty() {
    let resolved = SourceResolver::resolve(
        options(None, Some("abc123"), None),
        Ok(r#"{"files":{"a":{"filename":"empty.rs","content":""}}}"#.to_string()),
        None,
    );
    assert_eq!(resolved, Ok(source("empty.rs", "")));
}

#[test]
fn a_failed_transport_is_a_remote_failure() {
    let resolved =
        SourceResolver::resolve(options(None, Some("abc123"), Some("a.rs")), down(), given("file"));
    assert_eq!(
        resolved,
        Err(AcquisitionError::RemoteFailure(
            "abc123".to_string(),
            RemoteDetail::Transport(TransportError { detail: "IOError".to_string() })
        ))
    );
}

#[test]
fn a_remote_failure_is_not_mended_by_the_file() {
    let state =
        SourceResolver::Fetching { id: "abc123".to_string(), fetcher: snippet_fetcher("abc123") };
    let step = state.step(Event::Polled(Some(down())));
    assert_eq!(
        step,
        Step::Done(Err(AcquisitionError::RemoteFailure(
            "abc123".to_string(),
            RemoteDetail::Transport(TransportError { detail: "IOError".to_string() })
        )))
    );
}

#[test]
fn a_file_resolves_to_its_content() {
    let resolved = SourceResolver::resolve(
        options(None, None, Some("src/main.rs")),
        down(),
        given("fn main() {}"),
    );
    assert_eq!(resolved, Ok(source("src/main.rs", "fn main() {}")));
}

#[test]
fn a_missing_file_is_a_file_failure_with_its_path() {
    let resolved =
        SourceResolver::resolve(options(None, None, Some("no/such/file.rs")), down(), None);
    assert_eq!(resolved, Err(AcquisitionError::FileFailure("no/such/file.rs".to_string())));
}

#[test]
fn a_missing_file_is_named_as_it_was_asked_for() {
    for path in ["a.rs", "./a.rs", "../up/a.rs", "/abs/a.rs", "dir//a.rs", "sp ace.rs", "ü.rs"] {
        let resolved = SourceResolver::resolve(
            options(None, None, Some(path)),
            Ok(RESPONSE.to_string()),
            None,
        );
        assert_eq!(resolved, Err(AcquisitionError::FileFailure(path.to_string())));
    }
}

#[test]
fn no_origin_at_all_means_the_default_file() {
    assert_eq!(
        SourceResolver::start(options(None, None, None)),
        Step::Load(SourceResolver::Loading { path: "assets/helloworld.rs".to_string() })
    );
    assert_eq!(
        SourceResolver::resolve(options(None, None, None), down(), given("fn main() {}")),
        Ok(source("assets/helloworld.rs", "fn main() {}"))
    );
    assert_eq!(
        SourceResolver::resolve(options(None, None, None), down(), None),
        Err(AcquisitionError::FileFailure("assets/helloworld.rs".to_string()))
    );
}

#[test]
fn a_file_is_loaded_then_done() {
    let state = match SourceResolver::start(options(None, None, Some("src/main.rs"))) {
        Step::Load(state) => state,
        other => panic!("expected a load, got {:?}", other),
    };
    assert_eq!(state, SourceResolver::Loading { path: "src/main.rs".to_string() });
    assert_eq!(
        state.step(Event::Loaded(given("fn main() {}"))),
        Step::Done(Ok(source("src/main.rs", "fn main() {}")))
    );
}

#[test]
fn a_load_asks_again_when_it_is_told_of_a_poll() {
    let state = SourceResolver::Loading { path: "src/main.rs".to_string() };
    for arrival in [None, Some(Ok(RESPONSE.to_string())), Some(down())] {
        let state = SourceResolver::Loading { path: "src/main.rs".to_string() };
        assert_eq!(
            state.step(Event::Polled(arrival)),
            Step::Load(SourceResolver::Loading { path: "src/main.rs".to_string() })
        );
    }
    assert_eq!(
        state.step(Event::Loaded(None)),
        Step::Done(Err(AcquisitionError::FileFailure("src/main.rs".to_string())))
    );
}

#[test]
fn a_file_without_a_name_is_a_file_failure() {
    assert_eq!(
        SourceResolver::resolve(options(None, None, Some("")), down(), given("fn main() {}")),
        Err(AcquisitionError::FileFailure(String::new()))
    );
    assert_eq!(file_source(String::new(), None), Err(AcquisitionError::FileFailure(String::new())));
}

#[test]
fn resolving_twice_gives_the_same_twice() {
    let cases = [
        (options(Some("x"), Some("abc123"), Some("a.rs")), down(), None),
        (options(None, Some("abc123"), None), Ok(RESPONSE.to_string()), None),
        (options(None, Some("abc123"), None), Ok("not json".to_string()), None),
        (options(None, Some("abc123"), None), down(), None),
        (options(None, None, Some("a.rs")), down(), given("fn a() {}")),
        (options(None, None, Some("a.rs")), down(), None),
        (options(None, None, None), down(), None),
    ];
    for (options, outcome, loaded) in cases {
        let again = OriginOptions {
            inline: options.inline.clone(),
            remote_id: options.remote_id.clone(),
            path: options.path.clone(),
        };
        let first = SourceResolver::resolve(options, outcome.clone(), loaded.clone());
        let second = SourceResolver::resolve(again, outcome, loaded);
        assert_eq!(first, second);
    }
}

#[test]
fn the_steps_arrive_where_resolve_does() {
    let by_steps = match SourceResolver::start(options(None, Some("abc123"), Some("a.rs"))) {
        Step::Fetch(state) => match state.step(Event::Polled(Some(Ok(RESPONSE.to_string())))) {
            Step::Done(resolved) => resolved,
            other => panic!("expected the result, got {:?}", other),
        },
        other => panic!("expected a fetch, got {:?}", other),
    };
    let at_once = SourceResolver::resolve(
        options(None, Some("abc123"), Some("a.rs")),
        Ok(RESPONSE.to_string()),
        None,
    );
    assert_eq!(by_steps, at_once);
}

#[test]
fn select_applies_the_precedence() {
    assert_eq!(
        SourceOrigin::select(options(Some("x"), Some("abc123"), Some("a.rs"))),
        SourceOrigin::InlineText("x".to_string())
    );
    assert_eq!(
        SourceOrigin::select(options(Some("x"), None, Some("a.rs"))),
        SourceOrigin::InlineText("x".to_string())
    );
    assert_eq!(
        SourceOrigin::select(options(None, Some("abc123"), Some("a.rs"))),
        SourceOrigin::RemoteSnippet("abc123".to_string())
    );
    assert_eq!(
        SourceOrigin::select(options(None, None, Some("a.rs"))),
        SourceOrigin::FilePath("a.rs".to_string())
    );
    assert_eq!(
        SourceOrigin::select(options(None, None, None)),
        SourceOrigin::FilePath("assets/helloworld.rs".to_string())
    );
}

#[test]
fn an_empty_option_is_still_given() {
    assert_eq!(
        SourceOrigin::select(options(Some(""), Some("abc123"), None)),
        SourceOrigin::InlineText(String::new())
    );
    assert_eq!(
        SourceOrigin::select(options(None, Some(""), Some("a.rs"))),
        SourceOrigin::RemoteSnippet(String::new())
    );
}

#[test]
fn get_filename_falls_back_to_the_default() {
    assert_eq!(get_filename(None), "assets/helloworld.rs");
    assert_eq!(get_filename(given("src/main.rs")), "src/main.rs");
    assert_eq!(get_filename(given("")), "");
    assert_eq!(DEFAULT_PATH, "assets/helloworld.rs");
}

#[test]
fn load_gist_prepares_the_request() {
    let fetcher = load_gist("0123456789abcdef");
    assert_eq!(fetcher.url(), "https://api.github.com/gists/0123456789abcdef");
    assert_eq!(
        fetcher.headers(),
        &vec![("Accept".to_string(), "application/vnd.github.v3+json".to_string())]
    );
    assert!(!fetcher.is_terminal());
    assert_eq!(load_gist("").url(), "https://api.github.com/gists/");
    assert_eq!(SNIPPET_URL, "https://api.github.com/gists/");
    assert_eq!(ACCEPT_HEADER, "Accept");
    assert_eq!(ACCEPT_VALUE, "application/vnd.github.v3+json");
}

#[test]
fn parse_gist_response_reads_a_response() {
    assert_eq!(parse_gist_response(RESPONSE), Ok(source("x.py", "print(1)")));
    assert_eq!(
        parse_gist_response(r#"{"files":{"a":{"filename":"","content":"print(1)"}}}"#),
        Err(ExtractError::MissingField(FieldFault::EmptyFilename))
    );
    assert_eq!(
        parse_gist_response("[]"),
        Err(ExtractError::MissingField(FieldFault::FilenameNotText))
    );
}

#[test]
fn get_gist_file_names_the_snippet_in_its_errors() {
    assert_eq!(
        get_gist_file("abc123".to_string(), Ok(RESPONSE.to_string())),
        Ok(source("x.py", "print(1)"))
    );
    assert_eq!(
        get_gist_file("abc123".to_string(), Ok("{}".to_string())),
        Err(remote_failure("abc123", ExtractError::MissingField(FieldFault::FilenameNotText)))
    );
    assert_eq!(
        get_gist_file(String::new(), down()),
        Err(AcquisitionError::RemoteFailure(
            String::new(),
            RemoteDetail::Transport(TransportError { detail: "IOError".to_string() })
        ))
    );
}

#[test]
fn the_message_of_a_failed_resolution_is_one_line() {
    let message = |resolved: Result<ResolvedSource, AcquisitionError>| resolved.unwrap_err().message();
    assert_eq!(
        message(SourceResolver::resolve(options(None, None, Some("no/such.rs")), down(), None)),
        "Couldn't load file: no/such.rs"
    );
    assert_eq!(
        message(SourceResolver::resolve(options(None, Some("abc123"), None), down(), None)),
        "Couldn't load Gist with ID: abc123"
    );
    assert_eq!(
        message(SourceResolver::resolve(
            options(None, Some("abc123"), None),
            Ok(String::new()),
            None
        )),
        "Couldn't parse JSON: EOF while parsing a value at line 1 column 0"
    );
    assert_eq!(
        message(SourceResolver::resolve(
            options(None, Some("abc123"), None),
            Ok(r#"{"files":{"a":{"filename":"x.py"}}}"#.to_string()),
            None
        )),
        "Couldn't parse JSON: Content missing"
    );
}
