//! AI formatting: requests, errors, provider selection and prompt building.
use vstd::prelude::*;

use crate::text::{decimal, decimal_string, is_blank, push_str, trim};

pub mod config;
pub mod openai;
pub mod prompts;

pub use config::MAX_TEXT_LENGTH;
pub use prompts::EnhancementOptions;

verus! {

/// A request to format a transcript.
#[derive(Debug, Clone)]
pub struct AIEnhancementRequest {
    pub text: String,
    pub context: Option<String>,
    pub options: Option<EnhancementOptions>,
    /// ISO 639-1 language code for output language (e.g., "en", "es", "fr")
    pub language: Option<String>,
}

/// The number of bytes of the UTF-8 encoding of `s`, as `str::len` reports it
/// (the encoding of a string held in memory always fits in a `usize`).
pub open spec fn utf8_len(s: Seq<char>) -> usize {
    vstd::utf8::encode_utf8(s).len() as usize
}

/// Message of the error for blank text.
pub const EMPTY_TEXT_MESSAGE: &'static str = "Text cannot be empty";

/// Start of the message of the error for text that is too long.
pub const TOO_LONG_PREFIX: &'static str = "Text exceeds maximum length of ";

/// End of the message of the error for text that is too long.
pub const TOO_LONG_SUFFIX: &'static str = " characters";

impl AIEnhancementRequest {
    /// Checks that the text is not blank and not longer than `MAX_TEXT_LENGTH` bytes.
    pub fn validate(&self) -> (r: Result<(), AIError>)
        ensures
            trim(self.text@).len() == 0 ==> (r matches Err(AIError::ValidationError(m)) && m@
                == EMPTY_TEXT_MESSAGE@),
            trim(self.text@).len() != 0 && utf8_len(self.text@) > MAX_TEXT_LENGTH ==> (r matches Err(
                AIError::ValidationError(m),
            ) && m@ == TOO_LONG_PREFIX@ + decimal(MAX_TEXT_LENGTH as nat) + TOO_LONG_SUFFIX@),
            r is Ok <==> (trim(self.text@).len() != 0 && utf8_len(self.text@) <= MAX_TEXT_LENGTH),
    {
        if is_blank(self.text.as_str()) {
            return Err(AIError::ValidationError(EMPTY_TEXT_MESSAGE.to_owned()));
        }
        if self.text.as_str().len() > MAX_TEXT_LENGTH {
            let mut msg = TOO_LONG_PREFIX.to_owned();
            let n = decimal_string(MAX_TEXT_LENGTH as u64);
            push_str(&mut msg, n.as_str());
            push_str(&mut msg, TOO_LONG_SUFFIX);
            return Err(AIError::ValidationError(msg));
        }
        Ok(())
    }
}

/// The result of a formatting request.
#[derive(Debug, Clone)]
pub struct AIEnhancementResponse {
    pub enhanced_text: String,
    pub original_text: String,
    pub provider: String,
    pub model: String,
}

/// Errors of AI formatting.
#[derive(Debug, Clone)]
pub enum AIError {
    ApiError(String),
    NetworkError(String),
    InvalidResponse(String),
    ProviderNotFound(String),
    ValidationError(String),
    RateLimitExceeded,
}

/// The displayed message of an error.
pub open spec fn ai_error_message(e: AIError) -> Seq<char> {
    match e {
        AIError::ApiError(m) => "API error: "@ + m@,
        AIError::NetworkError(m) => "Network error: "@ + m@,
        AIError::InvalidResponse(m) => "Invalid response: "@ + m@,
        AIError::ProviderNotFound(m) => "Provider not found: "@ + m@,
        AIError::ValidationError(m) => "Validation error: "@ + m@,
        AIError::RateLimitExceeded => "Rate limit exceeded"@,
    }
}

impl AIError {
    /// The displayed message of the error.
    pub fn to_string(&self) -> (r: String)
        ensures
            r@ == ai_error_message(*self),
    {
        match self {
            AIError::ApiError(m) => {
                let mut r = "API error: ".to_owned();
                push_str(&mut r, m.as_str());
                r
            },
            AIError::NetworkError(m) => {
                let mut r = "Network error: ".to_owned();
                push_str(&mut r, m.as_str());
                r
            },
            AIError::InvalidResponse(m) => {
                let mut r = "Invalid response: ".to_owned();
                push_str(&mut r, m.as_str());
                r
            },
            AIError::ProviderNotFound(m) => {
                let mut r = "Provider not found: ".to_owned();
                push_str(&mut r, m.as_str());
                r
            },
            AIError::ValidationError(m) => {
                let mut r = "Validation error: ".to_owned();
                push_str(&mut r, m.as_str());
                r
            },
            AIError::RateLimitExceeded => "Rate limit exceeded".to_owned(),
        }
    }
}

/// Description of a model offered by a provider.
#[derive(Debug, Clone)]
pub struct AIModel {
    pub id: String,
    pub name: String,
    pub description: Option<String>,
}

/// The providers that can format text.
#[derive(Debug, Clone, Copy, PartialEq, Eq, Structural)]
pub enum ProviderKind {
    Gemini,
    OpenAI,
}

/// The provider a name denotes, if any.
pub open spec fn provider_named(name: Seq<char>) -> Option<ProviderKind> {
    if name == "gemini"@ {
        Some(ProviderKind::Gemini)
    } else if name == "openai"@ {
        Some(ProviderKind::OpenAI)
    } else {
        None
    }
}

/// A service that formats text. Sending the request is the application's
/// part; the library knows a provider by its name.
pub trait AIProvider {
    /// The name under which configurations select the provider.
    fn name(&self) -> &str;
}

impl AIProvider for ProviderKind {
    fn name(&self) -> (r: &str)
        ensures
            provider_named(r@) == Some(*self),
    {
        proof {
            reveal_strlit("gemini");
            reveal_strlit("openai");
        }
        let r = match self {
            ProviderKind::Gemini => "gemini",
            ProviderKind::OpenAI => "openai",
        };
        assert("gemini"@ != "openai"@) by {
            assert("gemini"@[0] != "openai"@[0]);
        }
        r
    }
}

/// Chooses the provider implementation for a configuration.
pub struct AIProviderFactory;

impl AIProviderFactory {
    /// Whether `provider` names a supported provider.
    pub fn is_valid_provider(provider: &str) -> (b: bool)
        ensures
            b == provider_named(provider@).is_some(),
    {
        crate::text::str_eq(provider, "gemini") || crate::text::str_eq(provider, "openai")
    }

    /// The provider to construct for the configured name; an unknown name is
    /// `ProviderNotFound` carrying the name.
    pub fn select_provider(provider: &str) -> (r: Result<ProviderKind, AIError>)
        ensures
            match r {
                Ok(k) => provider_named(provider@) == Some(k),
                Err(e) => provider_named(provider@).is_none() && (e matches AIError::ProviderNotFound(
                    n,
                ) && n@ == provider@),
            },
    {
        if !Self::is_valid_provider(provider) {
            return Err(AIError::ProviderNotFound(provider.to_owned()));
        }
        if crate::text::str_eq(provider, "gemini") {
            Ok(ProviderKind::Gemini)
        } else {
            Ok(ProviderKind::OpenAI)
        }
    }
}

} // verus!
