//! Decisions of the OpenAI-compatible provider: which token parameter a model
//! takes, how an API error is recognised, and how a request is adjusted and
//! retried when the endpoint rejects a parameter.
use vstd::prelude::*;

use super::config::MIN_API_KEY_LENGTH;
use super::{utf8_len, AIError};
use crate::text::{
    ascii_lowercase, chars_contain, chars_of, chars_start_with, contains, has_prefix, is_blank,
    push_str, str_ascii_lower, str_contains, str_starts_with, trim, trim_str,
};

verus! {

/// Whether a model takes `max_completion_tokens` (and no temperature).
pub open spec fn uses_max_completion_tokens(model: Seq<char>) -> bool {
    let n = ascii_lowercase(trim(model));
    has_prefix(n, "gpt-5"@) || has_prefix(n, "o1"@) || has_prefix(n, "o3"@) || has_prefix(
        n,
        "o4"@,
    )
}

/// Whether a model takes `max_completion_tokens`: GPT-5 and the o1/o3/o4
/// families, compared after trimming and ASCII lower-casing the name.
pub fn model_uses_max_completion_tokens(model: &str) -> (b: bool)
    ensures
        b == uses_max_completion_tokens(model@),
{
    let trimmed = trim_str(model);
    let normalized = str_ascii_lower(trimmed.as_str());
    let n = normalized.as_str();
    str_starts_with(n, "gpt-5") || str_starts_with(n, "o1") || str_starts_with(n, "o3")
        || str_starts_with(n, "o4")
}

/// Whether an API error rejects the parameter `param` (both lower-cased).
pub open spec fn rejects_parameter(haystack: Seq<char>, param: Seq<char>) -> bool {
    ||| contains(haystack, "unsupported parameter: '"@ + param + "'"@)
    ||| contains(haystack, "unsupported parameter: \""@ + param + "\""@)
    ||| contains(haystack, "\"param\":\""@ + param + "\""@)
}

/// Whether `error_text` says that the token parameter `parameter_name` is not
/// supported; the comparison ignores ASCII case.
pub fn is_unsupported_token_parameter_error(error_text: &str, parameter_name: &str) -> (b: bool)
    ensures
        b == rejects_parameter(ascii_lowercase(error_text@), ascii_lowercase(parameter_name@)),
{
    let haystack = str_ascii_lower(error_text);
    let parameter = str_ascii_lower(parameter_name);

    let mut single = "unsupported parameter: '".to_owned();
    push_str(&mut single, parameter.as_str());
    push_str(&mut single, "'");

    let mut double = "unsupported parameter: \"".to_owned();
    push_str(&mut double, parameter.as_str());
    push_str(&mut double, "\"");

    let mut field = "\"param\":\"".to_owned();
    push_str(&mut field, parameter.as_str());
    push_str(&mut field, "\"");

    str_contains(haystack.as_str(), single.as_str()) || str_contains(
        haystack.as_str(),
        double.as_str(),
    ) || str_contains(haystack.as_str(), field.as_str())
}

/// Whether an API error (lower-cased) rejects the temperature value.
pub open spec fn rejects_temperature(h: Seq<char>) -> bool {
    contains(h, "unsupported value"@) && contains(h, "temperature"@) && (contains(h, "default"@)
        || contains(h, "only"@))
}

/// Whether `error_text` says that the requested temperature is not supported;
/// the comparison ignores ASCII case.
pub fn is_unsupported_temperature_value_error(error_text: &str) -> (b: bool)
    ensures
        b == rejects_temperature(ascii_lowercase(error_text@)),
{
    let haystack = str_ascii_lower(error_text);
    let h = haystack.as_str();
    str_contains(h, "unsupported value") && str_contains(h, "temperature") && (str_contains(
        h,
        "default",
    ) || str_contains(h, "only"))
}

/// Message of the error for a malformed API key.
pub const INVALID_KEY_MESSAGE: &'static str = "Invalid API key format";

/// Whether an API key passes the basic format check.
pub open spec fn key_format_ok(key: Seq<char>) -> bool {
    trim(key).len() != 0 && utf8_len(key) >= MIN_API_KEY_LENGTH
}

/// Checks the API key of an OpenAI-compatible endpoint; endpoints that need
/// no authentication accept any key.
pub fn check_api_key(api_key: &str, no_auth: bool) -> (r: Result<(), AIError>)
    ensures
        r is Ok <==> (no_auth || key_format_ok(api_key@)),
        r is Err ==> (r matches Err(AIError::ValidationError(m)) && m@ == INVALID_KEY_MESSAGE@),
{
    if !no_auth && (is_blank(api_key) || api_key.len() < MIN_API_KEY_LENGTH) {
        return Err(AIError::ValidationError(INVALID_KEY_MESSAGE.to_owned()));
    }
    Ok(())
}

/// Default base URL of the OpenAI API.
pub const DEFAULT_BASE_URL: &'static str = "https://api.openai.com/v1";

/// Path appended to the base URL.
pub const CHAT_COMPLETIONS_PATH: &'static str = "/chat/completions";

/// `s` without its trailing `'/'` characters.
pub open spec fn strip_trailing_slashes(s: Seq<char>) -> Seq<char>
    decreases s.len(),
{
    if s.len() > 0 && s.last() == '/' {
        strip_trailing_slashes(s.drop_last())
    } else {
        s
    }
}

/// The chat-completions URL for a configured base URL (or the default one):
/// trailing slashes are dropped and `/chat/completions` is appended.
pub fn chat_completions_url(base_url: Option<&str>) -> (r: String)
    ensures
        r@ == strip_trailing_slashes(
            match base_url {
                Some(b) => b@,
                None => DEFAULT_BASE_URL@,
            },
        ) + CHAT_COMPLETIONS_PATH@,
{
    let base = match base_url {
        Some(b) => b,
        None => DEFAULT_BASE_URL,
    };
    let v = chars_of(base);
    let mut end = v.len();
    assert(v@.take(v@.len() as int) =~= v@);
    while end > 0 && v[end - 1] == '/'
        invariant
            end <= v@.len(),
            strip_trailing_slashes(v@) == strip_trailing_slashes(v@.take(end as int)),
        decreases end,
    {
        assert(v@.take(end as int).drop_last() =~= v@.take(end - 1));
        end = end - 1;
    }
    assert(strip_trailing_slashes(v@.take(end as int)) == v@.take(end as int));
    let kept = crate::text::slice_chars(v.as_slice(), 0, end);
    let mut url = crate::text::string_from(kept.as_slice());
    push_str(&mut url, CHAT_COMPLETIONS_PATH);
    proof {
        assert(v@.take(v@.len() as int) =~= v@);
        assert(v@.subrange(0, end as int) =~= v@.take(end as int));
    }
    url
}

/// The parameters of a chat request that the compatibility retries adjust.
/// The temperature's value itself is held by the caller.
#[derive(Debug, Clone)]
pub struct OpenAIRequestPlan {
    pub model: String,
    /// Whether the request carries a temperature.
    pub has_temperature: bool,
    pub max_tokens: Option<u32>,
    pub max_completion_tokens: Option<u32>,
    pub reasoning_effort: Option<String>,
}

/// Builds the first request for a model and an optional token limit: models
/// that take `max_completion_tokens` get no temperature and the limit under
/// that name; GPT-5 models get minimal reasoning effort.
pub fn plan_openai_request(model: &str, max_tokens: Option<u32>) -> (r: OpenAIRequestPlan)
    ensures
        r.model@ == model@,
        r.has_temperature == !uses_max_completion_tokens(model@),
        r.max_tokens == (if uses_max_completion_tokens(model@) {
            None
        } else {
            max_tokens
        }),
        r.max_completion_tokens == (if uses_max_completion_tokens(model@) {
            max_tokens
        } else {
            None
        }),
        has_prefix(model@, "gpt-5"@) ==> (r.reasoning_effort matches Some(e) && e@ == "minimal"@),
        !has_prefix(model@, "gpt-5"@) ==> r.reasoning_effort.is_none(),
{
    let use_completion = model_uses_max_completion_tokens(model);
    let reasoning_effort = if str_starts_with(model, "gpt-5") {
        Some("minimal".to_owned())
    } else {
        None
    };
    OpenAIRequestPlan {
        model: model.to_owned(),
        has_temperature: !use_completion,
        max_tokens: if use_completion {
            None
        } else {
            max_tokens
        },
        max_completion_tokens: if use_completion {
            max_tokens
        } else {
            None
        },
        reasoning_effort,
    }
}

/// What to do after the endpoint rejected a request with an API error.
#[derive(Debug, Clone, Copy, PartialEq, Eq, Structural)]
pub enum CompatRetry {
    /// Retry without the temperature.
    DropTemperature,
    /// Retry with the token limit under the other parameter name.
    SwapTokenParameter,
    /// Report the error.
    GiveUp,
}

/// The name of the token parameter that a request carries.
pub open spec fn attempted_token_parameter(plan: OpenAIRequestPlan) -> Seq<char> {
    if plan.max_completion_tokens.is_some() {
        "max_completion_tokens"@
    } else {
        "max_tokens"@
    }
}

/// Adjusts the request after an API error: a rejected temperature is dropped;
/// otherwise, when a token limit is configured and the error rejects the token
/// parameter in use, the limit moves to the other parameter; otherwise the
/// request stays as it was and the error is reported.
pub fn compat_retry(plan: &mut OpenAIRequestPlan, error_text: &str, max_tokens_configured: bool) -> (r:
    CompatRetry)
    ensures
        ({
            let temp = old(plan).has_temperature && rejects_temperature(ascii_lowercase(error_text@));
            let swap = max_tokens_configured && rejects_parameter(
                ascii_lowercase(error_text@),
                ascii_lowercase(attempted_token_parameter(*old(plan))),
            );
            &&& temp ==> r == CompatRetry::DropTemperature && *final(plan) == (OpenAIRequestPlan {
                has_temperature: false,
                ..*old(plan)
            })
            &&& !temp && swap ==> r == CompatRetry::SwapTokenParameter && *final(plan) == (
            OpenAIRequestPlan {
                max_tokens: old(plan).max_completion_tokens,
                max_completion_tokens: old(plan).max_tokens,
                ..*old(plan)
            })
            &&& !temp && !swap ==> r == CompatRetry::GiveUp && *final(plan) == *old(plan)
        }),
{
    if plan.has_temperature && is_unsupported_temperature_value_error(error_text) {
        plan.has_temperature = false;
        return CompatRetry::DropTemperature;
    }
    if max_tokens_configured {
        let attempted = if plan.max_completion_tokens.is_some() {
            "max_completion_tokens"
        } else {
            "max_tokens"
        };
        if is_unsupported_token_parameter_error(error_text, attempted) {
            let t = plan.max_tokens;
            plan.max_tokens = plan.max_completion_tokens;
            plan.max_completion_tokens = t;
            return CompatRetry::SwapTokenParameter;
        }
    }
    CompatRetry::GiveUp
}

/// Message for a reply without choices.
pub const NO_CHOICES_MESSAGE: &'static str = "No choices in response";

/// Message for a reply whose text is blank.
pub const EMPTY_REPLY_MESSAGE: &'static str = "Empty response from API";

/// The formatted text from the content of the first choice of a reply, if any:
/// the content trimmed, or an error when there is no choice or it is blank.
pub fn extract_enhanced_text(first_choice: Option<&str>) -> (r: Result<String, AIError>)
    ensures
        match first_choice {
            None => r matches Err(AIError::InvalidResponse(m)) && m@ == NO_CHOICES_MESSAGE@,
            Some(c) => if trim(c@).len() == 0 {
                r matches Err(AIError::InvalidResponse(m)) && m@ == EMPTY_REPLY_MESSAGE@
            } else {
                r matches Ok(t) && t@ == trim(c@)
            },
        },
{
    match first_choice {
        None => Err(AIError::InvalidResponse(NO_CHOICES_MESSAGE.to_owned())),
        Some(content) => {
            let t = trim_str(content);
            if t.as_str().is_empty() {
                Err(AIError::InvalidResponse(EMPTY_REPLY_MESSAGE.to_owned()))
            } else {
                Ok(t)
            }
        },
    }
}

} // verus!
