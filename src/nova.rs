use vstd::prelude::*;
use vstd::string::*;
use crate::config::ReasoningSettings;
use crate::decimal::{decimal_digits, u16_to_decimal};

verus! {

/// Status the gateway answers with when it throttles callers.
pub const RATE_LIMIT_STATUS: u16 = 429;

/// Attempts made for one prompt before a rate limit is reported.
pub const MAX_PROMPT_ATTEMPTS: u8 = 3;

/// Back-off unit: the wait after attempt `n` is `n` times this many milliseconds.
pub const BACKOFF_STEP_MS: u64 = 500;

/// Effort parameters for reasoning models.
#[derive(Debug, Clone)]
pub struct NovaReasoningParams {
    pub effort: Option<String>,
}

/// A prompt as sent to the gateway.
#[derive(Debug)]
pub struct NovaRequest {
    pub ref_id: Option<String>,
    pub input: String,
    pub model: String,
    pub verbosity: String,
    pub max_tokens: u32,
    pub reasoning: bool,
    pub reasoning_params: Option<NovaReasoningParams>,
    pub image_urls: Option<Vec<String>>,
}

/// The gateway's answer to a prompt.
#[derive(Debug)]
pub struct NovaResponse {
    pub text: Option<String>,
}

/// The body of a gateway failure, as far as it could be decoded.
#[derive(Debug)]
pub struct NovaErrorResponse {
    pub message: Option<String>,
}

/// A failed gateway call.
#[derive(Debug)]
pub enum NovaClientError {
    /// Transport failure (network, protocol, timeout, undecodable body), with its description.
    Http(String),
    /// The authorization header could not be built, with its description.
    Header(String),
    /// The gateway answered with a non-success status.
    Gateway { status: u16, message: String },
}

pub open spec fn option_view(o: Option<String>) -> Option<Seq<char>> {
    match o {
        Some(s) => Some(s@),
        None => None,
    }
}

fn clone_option(o: &Option<String>) -> (r: Option<String>)
    ensures
        option_view(r) == option_view(*o),
{
    match o {
        Some(s) => Some(s.clone()),
        None => None,
    }
}

/// A base address without its trailing slashes.
pub open spec fn strip_trailing_slashes(s: Seq<char>) -> Seq<char>
    decreases s.len(),
{
    if s.len() > 0 && s.last() == '/' {
        strip_trailing_slashes(s.drop_last())
    } else {
        s
    }
}

/// The gateway's base address as the client keeps it: without trailing slashes.
pub fn sanitize_base_url(base_url: &str) -> (r: String)
    ensures
        r@ == strip_trailing_slashes(base_url@),
{
    let mut k: usize = base_url.unicode_len();
    assert(base_url@.subrange(0, k as int) =~= base_url@);
    while k > 0 && base_url.get_char(k - 1) == '/'
        invariant
            0 <= k <= base_url@.len(),
            strip_trailing_slashes(base_url@) == strip_trailing_slashes(
                base_url@.subrange(0, k as int),
            ),
        decreases k,
    {
        assert(base_url@.subrange(0, k as int).drop_last() =~= base_url@.subrange(0, k - 1));
        k = k - 1;
    }
    String::from_str(base_url.substring_char(0, k))
}

/// The endpoint for prompts and resets, below the base address.
pub fn endpoint_url(base_url: &str) -> (r: String)
    ensures
        r@ == base_url@ + "/ai"@,
{
    String::from_str(base_url).concat("/ai")
}

/// The value of the authorization header for an API key.
pub fn bearer_value(api_key: &str) -> (r: String)
    ensures
        r@ == "Bearer "@ + api_key@,
{
    String::from_str("Bearer ").concat(api_key)
}

/// Builds the prompt request from the chat's token, the prompt and the configured settings.
pub fn create_request(
    ref_id: Option<String>,
    input: String,
    model: &str,
    verbosity: &str,
    max_tokens: u32,
    reasoning: &ReasoningSettings,
) -> (r: NovaRequest)
    ensures
        option_view(r.ref_id) == option_view(ref_id),
        r.input@ == input@,
        r.model@ == model@,
        r.verbosity@ == verbosity@,
        r.max_tokens == max_tokens,
        r.reasoning == reasoning.enabled,
        reasoning.enabled ==> r.reasoning_params is Some && option_view(
            r.reasoning_params.unwrap().effort,
        ) == option_view(reasoning.effort),
        !reasoning.enabled ==> r.reasoning_params is None,
        r.image_urls is None,
{
    let reasoning_params = if reasoning.enabled {
        Some(NovaReasoningParams { effort: clone_option(&reasoning.effort) })
    } else {
        None
    };
    NovaRequest {
        ref_id,
        input,
        model: String::from_str(model),
        verbosity: String::from_str(verbosity),
        max_tokens,
        reasoning: reasoning.enabled,
        reasoning_params,
        image_urls: None,
    }
}

/// A `2xx` status.
pub open spec fn is_success_spec(status: u16) -> bool {
    200 <= status <= 299
}

pub fn is_success(status: u16) -> (r: bool)
    ensures
        r == is_success_spec(status),
{
    200 <= status && status <= 299
}

/// What to do after an attempt of a prompt call got its status.
#[derive(Debug, Clone, Copy, PartialEq, Eq)]
pub enum PromptStep {
    /// Wait this many milliseconds, then try again.
    Retry { delay_ms: u64 },
    /// Decode the body as the response.
    Decode,
    /// Report the status as a gateway failure.
    Fail,
}

/// The step after attempt number `attempt` (counted from 1) answered with `status`.
pub open spec fn prompt_step_spec(attempt: u8, status: u16) -> PromptStep {
    if status == RATE_LIMIT_STATUS && attempt < MAX_PROMPT_ATTEMPTS {
        PromptStep::Retry { delay_ms: (BACKOFF_STEP_MS * attempt as u64) as u64 }
    } else if is_success_spec(status) {
        PromptStep::Decode
    } else {
        PromptStep::Fail
    }
}

pub fn prompt_step(attempt: u8, status: u16) -> (r: PromptStep)
    ensures
        r == prompt_step_spec(attempt, status),
{
    if status == RATE_LIMIT_STATUS && attempt < MAX_PROMPT_ATTEMPTS {
        PromptStep::Retry { delay_ms: BACKOFF_STEP_MS * attempt as u64 }
    } else if is_success(status) {
        PromptStep::Decode
    } else {
        PromptStep::Fail
    }
}

/// Rate limits are retried after 500 ms and then 1000 ms; a third one in a row is reported
/// as a failure, and a success on the second attempt is decoded after the first wait.
pub proof fn lemma_rate_limit_backoff(success: u16)
    requires
        is_success_spec(success),
    ensures
        prompt_step_spec(1, RATE_LIMIT_STATUS) == (PromptStep::Retry { delay_ms: 500 }),
        prompt_step_spec(2, RATE_LIMIT_STATUS) == (PromptStep::Retry { delay_ms: 1000 }),
        prompt_step_spec(3, RATE_LIMIT_STATUS) == PromptStep::Fail,
        prompt_step_spec(2, success) == PromptStep::Decode,
{
}

/// Counts the attempts of one prompt call.
pub struct PromptAttempts {
    pub made: u8,
}

impl PromptAttempts {
    pub fn new() -> (r: PromptAttempts)
        ensures
            r.made == 0,
    {
        PromptAttempts { made: 0 }
    }

    /// Records that another attempt is being made (saturating at the largest count).
    pub fn begin(&mut self)
        ensures
            final(self).made == if old(self).made < u8::MAX {
                (old(self).made + 1) as u8
            } else {
                u8::MAX
            },
    {
        self.made = self.made.saturating_add(1);
    }

    /// The step once the current attempt answered with `status`.
    pub fn on_status(&self, status: u16) -> (r: PromptStep)
        ensures
            r == prompt_step_spec(self.made, status),
    {
        prompt_step(self.made, status)
    }
}

/// Which gateway call failed; it decides the wording of a synthesized message.
#[derive(Debug, Clone, Copy, PartialEq, Eq)]
pub enum GatewayCall {
    Prompt,
    ClearHistory,
}

pub open spec fn failure_prefix(call: GatewayCall) -> Seq<char> {
    match call {
        GatewayCall::Prompt => "request failed with status "@,
        GatewayCall::ClearHistory => "failed to clear history: status "@,
    }
}

/// The message of a failed call: the gateway's own, or one made of the status and the body.
pub open spec fn failure_message_spec(
    call: GatewayCall,
    status: u16,
    body: Seq<char>,
    reported: Option<Seq<char>>,
) -> Seq<char> {
    match reported {
        Some(m) => m,
        None => if body.len() == 0 {
            failure_prefix(call) + decimal_digits(status as nat)
        } else {
            failure_prefix(call) + decimal_digits(status as nat) + ": "@ + body
        },
    }
}

/// The failure for a non-success `status`, given the body text and the `message` field that
/// decoding the body found (none when the body did not decode or had no message).
pub fn gateway_failure(call: GatewayCall, status: u16, body: &str, reported: Option<String>) -> (r:
    NovaClientError)
    ensures
        match r {
            NovaClientError::Gateway { status: s, message } => s == status && message@
                == failure_message_spec(call, status, body@, option_view(reported)),
            _ => false,
        },
{
    let message = match reported {
        Some(m) => m,
        None => {
            let prefix = match call {
                GatewayCall::Prompt => String::from_str("request failed with status "),
                GatewayCall::ClearHistory => String::from_str("failed to clear history: status "),
            };
            let code = u16_to_decimal(status);
            let mut m = prefix.concat(code.as_str());
            if body.unicode_len() > 0 {
                m.append(": ");
                m.append(body);
            }
            m
        },
    };
    NovaClientError::Gateway { status, message }
}

} // verus!
