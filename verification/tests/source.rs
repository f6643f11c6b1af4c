use rusty_code::source::{ResolvedSource, SENTINEL_FILENAME};

#[test]
fn inline_code_gets_the_sentinel_name() {
    let source = ResolvedSource::from_sourcecode("fn main() {}".to_string());
    assert_eq!(source.filename(), "noname.txt");
    assert_eq!(source.content(), "fn main() {}");
    assert_eq!(SENTINEL_FILENAME, "noname.txt");
}

#[test]
fn a_source_needs_a_name() {
    assert!(ResolvedSource::new(String::new(), "text".to_string()).is_none());
}

#[test]
fn a_source_may_be_empty() {
    let source = ResolvedSource::new("a.rs".to_string(), String::new()).unwrap();
    assert_eq!(source.filename(), "a.rs");
    assert_eq!(source.content(), "");
}

#[test]
fn a_clone_reads_like_its_source() {
    let source = ResolvedSource::new("a.rs".to_string(), "fn a() {}".to_string()).unwrap();
    let copy = source.clone();
    assert_eq!(copy, source);
    assert_eq!(copy.filename(), "a.rs");
    assert_eq!(copy.content(), "fn a() {}");
}

#[test]
fn the_language_of_a_source_follows_its_name() {
    let source = ResolvedSource::new("src/lib.rs".to_string(), String::new()).unwrap();
    assert_eq!(source.language(None), Some("rust".to_string()));
}

#[test]
fn the_language_of_a_source_yields_to_the_override() {
    let source = ResolvedSource::new("src/lib.rs".to_string(), String::new()).unwrap();
    assert_eq!(source.language(Some("toml".to_string())), Some("toml".to_string()));
}

#[test]
fn inline_code_has_no_language_of_its_own() {
    let source = ResolvedSource::from_sourcecode("print(1)".to_string());
    assert_eq!(source.language(None), None);
    assert_eq!(source.language(Some("python".to_string())), Some("python".to_string()));
}
