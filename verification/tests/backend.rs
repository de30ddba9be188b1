use zenocode::config::Config;
use zenocode::errors::CoreError;
use zenocode::provider::CompletionStep;
use zenocode::provider::Provider;
use zenocode::provider::ProviderFactory;
use zenocode::openai::OpenAIClient;
use zenocode::openai::OpenAIFactory;
use zenocode::registry::Factory;
use zenocode::registry::ProviderRegistry;
use zenocode::text::u64_to_decimal;

#[test]
fn openai_factory_requires_a_credential() {
    let f = OpenAIFactory::new();
    assert_eq!(f.name(), "openai");
    let cfg = Config::new("openai".to_string(), None, None);
    match f.create(&cfg) {
        Err(CoreError::ConfigError(m)) => {
            assert_eq!(m, "provider 'openai' requires a credential");
        }
        _ => panic!("expected ConfigError"),
    }
}

#[test]
fn openai_factory_builds_a_client_from_the_credential() {
    let f = OpenAIFactory::new();
    let cfg = Config::new(
        "openai".to_string(),
        Some("SECRET-REDACTED".to_string()),
        None,
    );
    let provider = f.create(&cfg).unwrap();
    match provider.begin_complete("ping") {
        CompletionStep::Send(req) => {
            assert_eq!(req.endpoint, "https://api.openai.com/v1/chat/completions");
            assert_eq!(req.api_key, "SECRET-REDACTED");
            assert_eq!(req.model, "gpt-4-turbo");
            assert_eq!(req.role, "user");
            assert_eq!(req.content, "ping");
            assert!(!req.stream);
        }
        CompletionStep::Done(_) => panic!("an HTTP backend needs an exchange"),
    }
}

#[test]
fn openai_factory_honours_the_configured_model() {
    let f = OpenAIFactory::new();
    let cfg = Config::new(
        "openai".to_string(),
        Some("SECRET-REDACTED".to_string()),
        Some("gpt-4o-mini".to_string()),
    );
    let provider = f.create(&cfg).unwrap();
    match provider.begin_complete("x") {
        CompletionStep::Send(req) => assert_eq!(req.model, "gpt-4o-mini"),
        CompletionStep::Done(_) => panic!("an HTTP backend needs an exchange"),
    }
}

#[test]
fn openai_registers_and_resolves_through_the_registry() {
    let mut reg = ProviderRegistry::new();
    reg.register(Factory::OpenAi(OpenAIFactory::new()));
    let cfg = Config::new(
        "openai".to_string(),
        Some("SECRET-REDACTED".to_string()),
        None,
    );
    let provider = reg.create_provider("openai", &cfg).unwrap();
    assert!(matches!(provider, Provider::OpenAi(_)));
    let missing_key = Config::new("openai".to_string(), None, None);
    assert!(matches!(
        reg.create_provider("openai", &missing_key),
        Err(CoreError::ConfigError(_))
    ));
}

#[test]
fn echo_provider_answers_locally() {
    let client = OpenAIClient::new("SECRET-REDACTED");
    let req = client.request_for("hello");
    assert_eq!(req.model, "gpt-4-turbo");
    let echo = Provider::Echo(zenocode::provider::EchoProvider::new());
    match echo.begin_complete("hello") {
        CompletionStep::Done(t) => assert_eq!(t, "hello"),
        CompletionStep::Send(_) => panic!("echo needs no exchange"),
    }
}

#[test]
fn decimal_rendering_is_exact() {
    assert_eq!(u64_to_decimal(0), "0");
    assert_eq!(u64_to_decimal(7), "7");
    assert_eq!(u64_to_decimal(42), "42");
    assert_eq!(u64_to_decimal(100), "100");
    assert_eq!(u64_to_decimal(65535), "65535");
    assert_eq!(u64_to_decimal(18446744073709551615), "18446744073709551615");
}
