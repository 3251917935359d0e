//! Which service generates the text, and where its key is looked for.

use vstd::prelude::*;
use crate::errors::RalphError;
use crate::text::{lowercase_of, same_text};

verus! {

/// The provider that is used where none is chosen.
pub const DEFAULT_PROVIDER: &'static str = "gemini";

/// The model that is used where none is chosen.
pub const DEFAULT_MODEL: &'static str = "gemini-3-pro-preview";

/// The choice of a model: the name of its provider and its own name.
#[derive(Debug, Clone, PartialEq, Eq)]
pub struct ModelConfig {
    pub provider: String,
    pub model_name: String,
}

/// The providers that can be chosen.
#[derive(Clone, Copy, Debug, PartialEq, Eq, Structural)]
pub enum Provider {
    Anthropic,
    OpenAi,
    Gemini,
}

/// The provider with the given name, which is in lower case.
pub open spec fn provider_named(lowered: Seq<char>) -> Option<Provider> {
    if lowered == "anthropic"@ {
        Some(Provider::Anthropic)
    } else if lowered == "openai"@ {
        Some(Provider::OpenAi)
    } else if lowered == "gemini"@ {
        Some(Provider::Gemini)
    } else {
        None
    }
}

/// The message for a provider that is not known.
pub open spec fn unsupported_provider(lowered: Seq<char>) -> Seq<char> {
    "Unsupported model provider: "@ + lowered + ". Supported: anthropic, openai, gemini"@
}

/// The message for a provider whose key is not set.
pub open spec fn missing_key(provider: Provider) -> Seq<char> {
    match provider {
        Provider::Anthropic => "ANTHROPIC_API_KEY environment variable not set"@,
        Provider::OpenAi => "OPENAI_API_KEY environment variable not set"@,
        Provider::Gemini => "GEMINI_API_KEY or GOOGLE_API_KEY environment variable not set"@,
    }
}

/// The names of the variables that can hold the key of a provider, the
/// preferred one first.
pub open spec fn key_variables_spec(provider: Provider) -> Seq<Seq<char>> {
    match provider {
        Provider::Anthropic => seq!["ANTHROPIC_API_KEY"@],
        Provider::OpenAi => seq!["OPENAI_API_KEY"@],
        Provider::Gemini => seq!["GEMINI_API_KEY"@, "GOOGLE_API_KEY"@],
    }
}

impl ModelConfig {
    /// The choice of the model `model_name` of `provider`.
    pub fn new(provider: &str, model_name: &str) -> (config: ModelConfig)
        ensures
            config.provider@ == provider@,
            config.model_name@ == model_name@,
    {
        ModelConfig { provider: provider.to_owned(), model_name: model_name.to_owned() }
    }

    /// The provider of the choice; its name is read without regard to case.
    /// A provider that is not known is a configuration error.
    pub fn provider(&self) -> (r: Result<Provider, RalphError>)
        ensures
            match provider_named(lowercase_of(self.provider@)) {
                Some(p) => r == Ok::<Provider, RalphError>(p),
                None => r matches Err(RalphError::Configuration(m)) && m@ == unsupported_provider(
                    lowercase_of(self.provider@),
                ),
            },
    {
        let lowered = self.provider.as_str().to_lowercase();
        provider_from_lowered(lowered.as_str())
    }
}

impl Default for ModelConfig {
    fn default() -> (config: ModelConfig)
        ensures
            config.provider@ == DEFAULT_PROVIDER@,
            config.model_name@ == DEFAULT_MODEL@,
    {
        ModelConfig::new(DEFAULT_PROVIDER, DEFAULT_MODEL)
    }
}

/// The provider with the given name, which is in lower case already. A
/// provider that is not known is a configuration error.
pub fn provider_from_lowered(lowered: &str) -> (r: Result<Provider, RalphError>)
    ensures
        match provider_named(lowered@) {
            Some(p) => r == Ok::<Provider, RalphError>(p),
            None => r matches Err(RalphError::Configuration(m)) && m@ == unsupported_provider(
                lowered@,
            ),
        },
{
    if same_text(lowered, "anthropic") {
        Ok(Provider::Anthropic)
    } else if same_text(lowered, "openai") {
        Ok(Provider::OpenAi)
    } else if same_text(lowered, "gemini") {
        Ok(Provider::Gemini)
    } else {
        let mut message = "Unsupported model provider: ".to_owned();
        message.append(lowered);
        message.append(". Supported: anthropic, openai, gemini");
        Err(RalphError::Configuration(message))
    }
}

impl Provider {
    /// The name of the provider.
    pub fn name(&self) -> (name: &'static str)
        ensures
            provider_named(name@) == Some(*self),
    {
        proof {
            lemma_provider_names();
        }
        match self {
            Provider::Anthropic => "anthropic",
            Provider::OpenAi => "openai",
            Provider::Gemini => "gemini",
        }
    }

    /// The names of the variables that can hold the key, the preferred one
    /// first.
    pub fn key_variables(&self) -> (names: Vec<&'static str>)
        ensures
            names.deep_view() == key_variables_spec(*self),
            names.len() >= 1,
    {
        let names = match self {
            Provider::Anthropic => vec!["ANTHROPIC_API_KEY"],
            Provider::OpenAi => vec!["OPENAI_API_KEY"],
            Provider::Gemini => vec!["GEMINI_API_KEY", "GOOGLE_API_KEY"],
        };
        names
    }

    /// The error for a key that is not set.
    pub fn missing_key_error(&self) -> (e: RalphError)
        ensures
            e matches RalphError::Configuration(m) && m@ == missing_key(*self),
    {
        let message = match self {
            Provider::Anthropic => "ANTHROPIC_API_KEY environment variable not set",
            Provider::OpenAi => "OPENAI_API_KEY environment variable not set",
            Provider::Gemini => "GEMINI_API_KEY or GOOGLE_API_KEY environment variable not set",
        };
        RalphError::Configuration(message.to_owned())
    }
}

/// The three names of providers differ from each other.
proof fn lemma_provider_names()
    ensures
        "anthropic"@ != "openai"@,
        "anthropic"@ != "gemini"@,
        "openai"@ != "gemini"@,
{
    reveal_strlit("anthropic");
    reveal_strlit("openai");
    reveal_strlit("gemini");
    assert("anthropic"@.len() == 9);
    assert("openai"@.len() == 6 && "openai"@[0] == 'o');
}

} // verus!
