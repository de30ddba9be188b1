use vstd::prelude::*;

verus! {

/// The configuration value handed to the library by an external loader:
/// the chosen provider name, an optional credential, and an optional
/// model identifier. It is created once and read-only thereafter.
pub struct Config {
    pub provider_name: String,
    pub credential: Option<String>,
    pub model: Option<String>,
}

impl Config {
    pub fn new(provider_name: String, credential: Option<String>, model: Option<String>) -> (r: Config)
        ensures
            r.provider_name == provider_name,
            r.credential == credential,
            r.model == model,
    {
        Config { provider_name, credential, model }
    }

    /// Whether a credential was supplied.
    pub open spec fn spec_has_credential(&self) -> bool {
        self.credential is Some
    }

    pub fn has_credential(&self) -> (r: bool)
        ensures
            r == self.spec_has_credential(),
    {
        self.credential.is_some()
    }
}

} // verus!
