use vstd::prelude::*;
use vstd::string::StringExecFns;
use crate::chunks::ChunkSource;
use crate::config::Config;
use crate::errors::CoreError;
use crate::openai::CompletionRequest;
use crate::openai::OpenAIClient;
use crate::text::content_chars;
use crate::text::join_spaces;
use crate::text::lemma_normalize_idempotent;
use crate::text::lemma_split_preserves_content;
use crate::text::normalize_spaces;
use crate::text::spec_decimal;
use crate::text::split_spaces;
use crate::text::u64_to_decimal;

verus! {

/// The uniform contract every backend satisfies towards its callers:
/// a single-shot completion and a streaming completion of the same
/// prompt. `spec_ok` says on which prompts the backend answers;
/// `spec_completion` is the answered text and `spec_chunks` the chunk
/// texts its stream delivers, in order.
pub trait LLMProvider: Sized {
    spec fn spec_ok(&self, prompt: Seq<char>) -> bool;

    spec fn spec_completion(&self, prompt: Seq<char>) -> Seq<char>;

    spec fn spec_chunks(&self, prompt: Seq<char>) -> Seq<Seq<char>>;

    /// Send the prompt and return the full response at once. It fails
    /// only as an exchange can fail: transport, backend or credential.
    fn complete(&self, prompt: &str) -> (r: Result<String, CoreError>)
        ensures
            (r is Ok) == self.spec_ok(prompt@),
            r matches Ok(text) ==> text@ == self.spec_completion(prompt@),
            r matches Err(e) ==> (e is TransportError || e is BackendError || e is AuthError),
    ;

    /// Send the prompt and return a source of response chunks. Setup
    /// fails on exactly the prompts `complete` fails on; a fresh
    /// source has delivered nothing and owes no failure.
    fn stream(&self, prompt: &str) -> (r: Result<ChunkSource, CoreError>)
        ensures
            (r is Ok) == self.spec_ok(prompt@),
            r matches Ok(src) ==> (src.wf() && !src.is_canceled() && src.spec_failure() is None
                && src.remaining_texts() == self.spec_chunks(prompt@)),
            r matches Err(e) ==> (e is TransportError || e is BackendError || e is AuthError),
    ;
}

/// The contract every backend factory satisfies towards the registry:
/// a constant registration name, and construction of a ready provider
/// from a configuration value. `spec_accepts` says which
/// configurations the factory accepts; construction succeeds on
/// exactly those and performs no I/O.
pub trait ProviderFactory: Sized {
    spec fn spec_name(&self) -> Seq<char>;

    spec fn spec_accepts(&self, config: Config) -> bool;

    spec fn spec_created(&self, config: Config, p: Provider) -> bool;

    spec fn spec_rejection(&self, config: Config) -> Seq<char>;

    fn name(&self) -> (r: String)
        ensures
            r@ == self.spec_name(),
    ;

    /// Construction succeeds on exactly the configurations the
    /// factory accepts; on the rest it fails with a `ConfigError`
    /// carrying the factory's own rejection message.
    fn create(&self, config: &Config) -> (r: Result<Provider, CoreError>)
        ensures
            (r is Ok) == self.spec_accepts(*config),
            r matches Ok(p) ==> self.spec_created(*config, p),
            r matches Err(e) ==> (e matches CoreError::ConfigError(m) && m@ == self.spec_rejection(
                *config,
            )),
    ;
}

/// A backend that answers every prompt with the prompt itself, and
/// streams by re-splitting that answer into word-sized chunks — the
/// sanctioned degenerate implementation of `stream` on top of
/// `complete`. It needs no network and is handy for wiring tests and
/// diagnostics.
pub struct EchoProvider {}

impl EchoProvider {
    pub fn new() -> (r: EchoProvider) {
        EchoProvider {  }
    }
}

impl LLMProvider for EchoProvider {
    open spec fn spec_ok(&self, prompt: Seq<char>) -> bool {
        true
    }

    open spec fn spec_completion(&self, prompt: Seq<char>) -> Seq<char> {
        prompt
    }

    open spec fn spec_chunks(&self, prompt: Seq<char>) -> Seq<Seq<char>> {
        split_spaces(prompt)
    }

    fn complete(&self, prompt: &str) -> (r: Result<String, CoreError>) {
        Ok(prompt.to_owned())
    }

    fn stream(&self, prompt: &str) -> (r: Result<ChunkSource, CoreError>) {
        Ok(ChunkSource::from_completion(prompt))
    }
}

/// Law: a backend that degenerately reuses `complete` inside `stream`
/// neither invents nor drops content. For any provider whose stream
/// chunks are the whitespace words of its completed text: the chunks
/// joined back together and whitespace-normalized reproduce the
/// completed text whitespace-normalized — on every prompt, however
/// often either operation is repeated — and the chunks, concatenated,
/// are exactly the completed text's non-whitespace characters in
/// order.
pub proof fn lemma_degenerate_stream_faithful<P: LLMProvider>(p: P, prompt: Seq<char>)
    requires
        p.spec_chunks(prompt) == split_spaces(p.spec_completion(prompt)),
    ensures
        normalize_spaces(join_spaces(p.spec_chunks(prompt))) == normalize_spaces(
            p.spec_completion(prompt),
        ),
        p.spec_chunks(prompt).flatten_alt() == content_chars(p.spec_completion(prompt)),
{
    lemma_normalize_idempotent(p.spec_completion(prompt));
    lemma_split_preserves_content(p.spec_completion(prompt));
}

/// A constructed provider instance, as handed out by the registry.
/// An echo provider completes locally; an HTTP-backed provider needs
/// one network exchange, which the caller performs between
/// `begin_complete` and `finish_complete`.
pub enum Provider {
    Echo(EchoProvider),
    OpenAi(OpenAIClient),
}

/// What a caller must do to finish a completion: nothing (the answer
/// is already there), or perform the described exchange and hand the
/// outcome back.
pub enum CompletionStep {
    Done(String),
    Send(CompletionRequest),
}

/// Everything a performed exchange can come back as, in plain values:
/// a network failure with its message, a non-success status code, a
/// payload that could not be decoded, or the message contents of the
/// decoded response payload.
pub enum TransportOutcome {
    NetworkFailure(String),
    HttpFailure(u16),
    MalformedPayload(String),
    Payload(Vec<String>),
}

impl Provider {
    /// The first half of a completion: either the finished text (echo
    /// answers locally) or the exact request the caller must perform.
    pub fn begin_complete(&self, prompt: &str) -> (s: CompletionStep)
        ensures
            (*self) matches Provider::Echo(p) ==> (s matches CompletionStep::Done(t) && t@
                == p.spec_completion(prompt@)),
            (*self) matches Provider::OpenAi(c) ==> (s matches CompletionStep::Send(q)
                && q.endpoint@ == "https://api.openai.com/v1/chat/completions"@
                && q.api_key@ == c.spec_api_key()
                && q.model@ == c.spec_model()
                && q.role@ == "user"@
                && q.content@ == prompt@
                && q.stream == false),
    {
        match self {
            Provider::Echo(_) => CompletionStep::Done(prompt.to_owned()),
            Provider::OpenAi(c) => CompletionStep::Send(c.request_for(prompt)),
        }
    }
}

/// The second half of a completion over a network backend: turn the
/// outcome of the performed exchange into the caller-facing result.
/// A network failure is a `TransportError`; a rejected credential
/// (status 401 or 403) is an `AuthError`; any other non-success
/// status, an undecodable payload, and a payload without choices are
/// each a `BackendError`; a payload with choices completes with the
/// first one.
pub fn interpret_outcome(outcome: TransportOutcome) -> (r: Result<String, CoreError>)
    ensures
        outcome matches TransportOutcome::NetworkFailure(m) ==> r == Err::<String, CoreError>(
            CoreError::TransportError(m),
        ),
        outcome matches TransportOutcome::HttpFailure(status) ==> ({
            &&& (status == 401 || status == 403) ==> (r matches Err(e)
                && e matches CoreError::AuthError(m)
                && m@ == "credential rejected: status "@ + spec_decimal(status as nat))
            &&& !(status == 401 || status == 403) ==> (r matches Err(e)
                && e matches CoreError::BackendError(m)
                && m@ == "backend returned status "@ + spec_decimal(status as nat))
        }),
        outcome matches TransportOutcome::MalformedPayload(m) ==> r == Err::<String, CoreError>(
            CoreError::BackendError(m),
        ),
        outcome matches TransportOutcome::Payload(choices) ==> ({
            &&& choices@.len() > 0 ==> (r matches Ok(c) && c@ == choices.deep_view()[0])
            &&& choices@.len() == 0 ==> (r matches Err(e) && e matches CoreError::BackendError(m)
                && m@ == "backend returned no choices"@)
        }),
{
    match outcome {
        TransportOutcome::NetworkFailure(m) => Err(CoreError::TransportError(m)),
        TransportOutcome::HttpFailure(status) => {
            let digits = u64_to_decimal(status as u64);
            if status == 401 || status == 403 {
                let mut m = String::from_str("credential rejected: status ");
                m.append(digits.as_str());
                Err(CoreError::AuthError(m))
            } else {
                let mut m = String::from_str("backend returned status ");
                m.append(digits.as_str());
                Err(CoreError::BackendError(m))
            }
        },
        TransportOutcome::MalformedPayload(m) => Err(CoreError::BackendError(m)),
        TransportOutcome::Payload(choices) => {
            if choices.len() > 0 {
                let c = choices[0].clone();
                proof {
                    assert(c@ == choices.deep_view()[0]);
                }
                Ok(c)
            } else {
                Err(CoreError::BackendError(String::from_str("backend returned no choices")))
            }
        },
    }
}

} // verus!
