use zenocode::chunks::ChunkSource;
use zenocode::config::Config;
use zenocode::errors::CoreError;
use zenocode::provider::interpret_outcome;
use zenocode::provider::EchoProvider;
use zenocode::provider::LLMProvider;
use zenocode::provider::Provider;
use zenocode::provider::TransportOutcome;
use zenocode::registry::EchoFactory;
use zenocode::registry::Factory;
use zenocode::registry::ProviderRegistry;
use zenocode::text::normalize_whitespace;
use zenocode::text::split_whitespace_words;

fn drain(src: &mut ChunkSource) -> Vec<String> {
    let mut out = Vec::new();
    while let Some(item) = src.next_chunk() {
        out.push(item.unwrap());
    }
    out
}

#[test]
fn stream_splits_on_whitespace_in_order() {
    let p = EchoProvider::new();
    let mut src = p.stream("a b c").unwrap();
    assert_eq!(src.next_chunk().unwrap().unwrap(), "a");
    assert_eq!(src.next_chunk().unwrap().unwrap(), "b");
    assert_eq!(src.next_chunk().unwrap().unwrap(), "c");
    assert!(src.next_chunk().is_none());
    assert!(src.next_chunk().is_none());
}

#[test]
fn stream_reproduces_complete_up_to_whitespace() {
    let p = EchoProvider::new();
    let prompt = "  The  quick\tbrown\n fox ";
    let first = p.complete(prompt).unwrap();
    let second = p.complete(prompt).unwrap();
    assert_eq!(first, second);
    let mut src = p.stream(prompt).unwrap();
    let chunks = drain(&mut src);
    let rejoined = chunks.join(" ");
    assert_eq!(
        normalize_whitespace(&rejoined),
        normalize_whitespace(&first)
    );
    // And a second stream of the same prompt delivers the same chunks.
    let mut src2 = p.stream(prompt).unwrap();
    assert_eq!(drain(&mut src2), chunks);
}

#[test]
fn canceled_stream_delivers_nothing_more() {
    let mut reg = ProviderRegistry::new();
    reg.register(Factory::Echo(EchoFactory::new("echo", false)));
    let cfg = Config::new("echo".to_string(), None, None);
    let provider = reg.create_provider("echo", &cfg).unwrap();
    let p = match provider {
        Provider::Echo(p) => p,
        _ => panic!("expected the echo provider"),
    };
    let mut src = p.stream("one two three").unwrap();
    assert_eq!(src.next_chunk().unwrap().unwrap(), "one");
    src.cancel();
    assert!(src.next_chunk().is_none());
    assert!(src.next_chunk().is_none());
    // The registry and the provider stay usable for unrelated calls.
    assert_eq!(p.complete("still here").unwrap(), "still here");
    let again = reg.create_provider("echo", &cfg);
    assert!(again.is_ok());
}

#[test]
fn mid_stream_failure_is_terminal_and_keeps_prior_chunks() {
    let chunks = vec!["alpha".to_string(), "beta".to_string()];
    let failure = CoreError::TransportError("connection lost".to_string());
    let mut src = ChunkSource::from_chunks_then_failure(chunks, failure);
    assert_eq!(src.next_chunk().unwrap().unwrap(), "alpha");
    assert_eq!(src.next_chunk().unwrap().unwrap(), "beta");
    match src.next_chunk() {
        Some(Err(CoreError::TransportError(m))) => assert_eq!(m, "connection lost"),
        _ => panic!("expected the terminal transport failure"),
    }
    assert!(src.next_chunk().is_none());
    assert!(src.next_chunk().is_none());
}

#[test]
fn split_words_examples() {
    let empty: Vec<String> = Vec::new();
    assert_eq!(split_whitespace_words(""), empty);
    assert_eq!(split_whitespace_words("   \t\n  "), empty);
    assert_eq!(
        split_whitespace_words(" a  b\tc \r\nd"),
        vec!["a".to_string(), "b".to_string(), "c".to_string(), "d".to_string()]
    );
    assert_eq!(split_whitespace_words("word"), vec!["word".to_string()]);
}

#[test]
fn normalize_examples() {
    assert_eq!(normalize_whitespace(""), "");
    assert_eq!(normalize_whitespace("   "), "");
    assert_eq!(normalize_whitespace("a   b"), "a b");
    assert_eq!(normalize_whitespace(" a b "), "a b");
    let once = normalize_whitespace("  x \t y ");
    assert_eq!(normalize_whitespace(&once), once);
}

#[test]
fn outcome_mapping_covers_every_error_variant() {
    match interpret_outcome(TransportOutcome::NetworkFailure("dns failed".to_string())) {
        Err(CoreError::TransportError(m)) => assert_eq!(m, "dns failed"),
        _ => panic!("expected TransportError"),
    }
    match interpret_outcome(TransportOutcome::HttpFailure(401)) {
        Err(CoreError::AuthError(m)) => assert_eq!(m, "credential rejected: status 401"),
        _ => panic!("expected AuthError"),
    }
    match interpret_outcome(TransportOutcome::HttpFailure(403)) {
        Err(CoreError::AuthError(m)) => assert_eq!(m, "credential rejected: status 403"),
        _ => panic!("expected AuthError"),
    }
    match interpret_outcome(TransportOutcome::HttpFailure(500)) {
        Err(CoreError::BackendError(m)) => assert_eq!(m, "backend returned status 500"),
        _ => panic!("expected BackendError"),
    }
    match interpret_outcome(TransportOutcome::Payload(Vec::new())) {
        Err(CoreError::BackendError(m)) => assert_eq!(m, "backend returned no choices"),
        _ => panic!("expected BackendError"),
    }
    match interpret_outcome(TransportOutcome::MalformedPayload("missing field choices".to_string())) {
        Err(CoreError::BackendError(m)) => assert_eq!(m, "missing field choices"),
        _ => panic!("expected BackendError"),
    }
    let choices = vec!["first".to_string(), "second".to_string()];
    assert_eq!(
        interpret_outcome(TransportOutcome::Payload(choices)).unwrap(),
        "first"
    );
}
