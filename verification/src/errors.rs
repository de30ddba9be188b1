use vstd::prelude::*;

verus! {

/// Everything a registry or provider operation can fail with.
///
/// Each variant carries a human-readable message. `ConfigError` and
/// `ProviderNotFound` are raised by the registry and the factories;
/// the remaining variants describe a failed exchange with a backend:
/// `AuthError` for a rejected credential, `TransportError` for a
/// network failure, and `BackendError` for a reachable backend that
/// returned a failure or an unusable payload.
#[derive(Debug)]
pub enum CoreError {
    ConfigError(String),
    ProviderNotFound(String),
    AuthError(String),
    TransportError(String),
    BackendError(String),
}

impl CoreError {
    /// The message carried by the error, whichever variant it is.
    pub open spec fn spec_message(&self) -> Seq<char> {
        match self {
            CoreError::ConfigError(m) => m@,
            CoreError::ProviderNotFound(m) => m@,
            CoreError::AuthError(m) => m@,
            CoreError::TransportError(m) => m@,
            CoreError::BackendError(m) => m@,
        }
    }

    pub fn message(&self) -> (r: &str)
        ensures
            r@ == self.spec_message(),
    {
        match self {
            CoreError::ConfigError(m) => m.as_str(),
            CoreError::ProviderNotFound(m) => m.as_str(),
            CoreError::AuthError(m) => m.as_str(),
            CoreError::TransportError(m) => m.as_str(),
            CoreError::BackendError(m) => m.as_str(),
        }
    }

    /// Whether a caller may retry the failed operation as it stands,
    /// with backoff: only a transport failure is. The library itself
    /// never retries; a configuration or registry failure needs a
    /// change first, a rejected credential a new credential, and a
    /// backend failure is non-retryable by default.
    pub fn is_retryable(&self) -> (r: bool)
        ensures
            r == (self is TransportError),
    {
        match self {
            CoreError::TransportError(_) => true,
            _ => false,
        }
    }
}

} // verus!
