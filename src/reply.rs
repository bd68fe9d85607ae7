use vstd::prelude::*;
use crate::command::{trim_str, trimmed};
use crate::decimal::{decimal_digits, u16_to_decimal};
use crate::nova::{NovaClientError, NovaResponse};

verus! {

pub const HELP_TEXT: &'static str = "Hello! I'm a Nova Gateway assistant.\n\nUse these commands:\n/start - Start interacting with the bot\n/help - Show this help message\n/reset - Clear the conversation context\n\nSend any other message and I'll forward it to Nova Gateway.";

pub const EMPTY_RESPONSE_TEXT: &'static str = "Nova Gateway returned an empty response.";

pub const MISSING_PROMPT_TEXT: &'static str = "Please provide a message after /chat. Example: /chat Hello, how are you?";

pub const FALLBACK_ERROR_TEXT: &'static str = "Something went wrong while handling your request. Please try again.";

pub const RESET_DONE_TEXT: &'static str = "Conversation context cleared.";

/// A failure while handling one command.
#[derive(Debug)]
pub enum BotError {
    /// The delivery channel itself failed.
    Telegram,
    /// The gateway call failed.
    Nova(NovaClientError),
    /// A chat command came without a prompt.
    MissingMessageText,
}

/// The help text.
pub fn format_help_text() -> (r: String)
    ensures
        r@ == HELP_TEXT@,
{
    String::from_str(HELP_TEXT)
}

/// The text shown for a gateway response: its text, or a placeholder when it is absent or blank.
pub open spec fn nova_reply_spec(response: NovaResponse) -> Seq<char> {
    match response.text {
        Some(t) => if trimmed(t@).len() > 0 {
            t@
        } else {
            EMPTY_RESPONSE_TEXT@
        },
        None => EMPTY_RESPONSE_TEXT@,
    }
}

pub fn format_nova_response(response: &NovaResponse) -> (r: String)
    ensures
        r@ == nova_reply_spec(*response),
{
    if let Some(text) = &response.text {
        if trim_str(text.as_str()).unicode_len() > 0 {
            return text.clone();
        }
    }
    String::from_str(EMPTY_RESPONSE_TEXT)
}

/// How a gateway failure reads.
pub open spec fn describe_spec(err: NovaClientError) -> Seq<char> {
    match err {
        NovaClientError::Http(d) => "http error: "@ + d@,
        NovaClientError::Header(d) => "failed to build request headers: "@ + d@,
        NovaClientError::Gateway { status, message } => "nova gateway error ("@ + decimal_digits(
            status as nat,
        ) + "): "@ + message@,
    }
}

impl NovaClientError {
    pub fn describe(&self) -> (r: String)
        ensures
            r@ == describe_spec(*self),
    {
        match self {
            NovaClientError::Http(d) => String::from_str("http error: ").concat(d.as_str()),
            NovaClientError::Header(d) => String::from_str("failed to build request headers: ").concat(
                d.as_str(),
            ),
            NovaClientError::Gateway { status, message } => {
                let code = u16_to_decimal(*status);
                let mut r = String::from_str("nova gateway error (").concat(code.as_str());
                r.append("): ");
                r.append(message.as_str());
                r
            },
        }
    }
}

/// The message a user is shown for an error; none for a delivery failure.
pub open spec fn user_message_spec(error: BotError) -> Option<Seq<char>> {
    match error {
        BotError::Telegram => None,
        BotError::Nova(err) => Some("Nova Gateway error: "@ + describe_spec(err)),
        BotError::MissingMessageText => Some(MISSING_PROMPT_TEXT@),
    }
}

impl BotError {
    pub fn user_message(&self) -> (r: Option<String>)
        ensures
            match (r, user_message_spec(*self)) {
                (Some(s), Some(t)) => s@ == t,
                (None, None) => true,
                _ => false,
            },
    {
        match self {
            BotError::Telegram => None,
            BotError::Nova(err) => Some(String::from_str("Nova Gateway error: ").concat(err.describe().as_str())),
            BotError::MissingMessageText => Some(String::from_str(MISSING_PROMPT_TEXT)),
        }
    }
}

/// What to send the user after an error: nothing for a delivery failure, which goes back to
/// the dispatcher; otherwise the error's message, or a generic one.
pub open spec fn error_reply_spec(error: BotError) -> Option<Seq<char>> {
    match error {
        BotError::Telegram => None,
        _ => match user_message_spec(error) {
            Some(m) => Some(m),
            None => Some(FALLBACK_ERROR_TEXT@),
        },
    }
}

pub fn error_reply(error: &BotError) -> (r: Option<String>)
    ensures
        match (r, error_reply_spec(*error)) {
            (Some(s), Some(t)) => s@ == t,
            (None, None) => true,
            _ => false,
        },
{
    if let BotError::Telegram = error {
        return None;
    }
    match error.user_message() {
        Some(m) => Some(m),
        None => Some(String::from_str(FALLBACK_ERROR_TEXT)),
    }
}

} // verus!
