use vstd::prelude::*;

verus! {

pub const DEFAULT_BASE_URL: &'static str = "https://gateway.inferenco.com";
pub const DEFAULT_MODEL: &'static str = "gpt-5-mini";
pub const DEFAULT_VERBOSITY: &'static str = "Medium";
pub const DEFAULT_MAX_TOKENS: u32 = 1024;
pub const DEFAULT_TIMEOUT_SECS: u64 = 60;

/// Whether the model reasons, and with which effort.
#[derive(Debug, Clone)]
pub struct ReasoningSettings {
    pub enabled: bool,
    pub effort: Option<String>,
}

/// The outcome of looking up one environment variable.
#[derive(Debug)]
pub enum EnvValue {
    Present(String),
    NotPresent,
    NotUnicode,
}

/// The environment variables the bot reads, as looked up.
#[derive(Debug)]
pub struct EnvSnapshot {
    pub telegram_bot_token: EnvValue,
    pub nova_api_key: EnvValue,
    pub nova_base_url: EnvValue,
    pub nova_model: EnvValue,
    pub nova_verbosity: EnvValue,
    pub nova_max_tokens: EnvValue,
    pub nova_reasoning: EnvValue,
    pub nova_reasoning_effort: EnvValue,
    pub nova_timeout_seconds: EnvValue,
}

/// Why the settings could not be loaded; each variant names the variable.
#[derive(Debug, PartialEq, Eq)]
pub enum ConfigError {
    MissingVar(String),
    InvalidNumber(String, String),
    InvalidBoolean(String, String),
    Env(String),
}

/// What a `ConfigError` says, over plain texts.
pub enum ConfigFault {
    MissingVar(Seq<char>),
    InvalidNumber(Seq<char>, Seq<char>),
    InvalidBoolean(Seq<char>, Seq<char>),
    Env(Seq<char>),
}

impl View for ConfigError {
    type V = ConfigFault;

    open spec fn view(&self) -> ConfigFault {
        match self {
            ConfigError::MissingVar(k) => ConfigFault::MissingVar(k@),
            ConfigError::InvalidNumber(k, v) => ConfigFault::InvalidNumber(k@, v@),
            ConfigError::InvalidBoolean(k, v) => ConfigFault::InvalidBoolean(k@, v@),
            ConfigError::Env(k) => ConfigFault::Env(k@),
        }
    }
}

/// The bot's settings.
#[derive(Debug, Clone)]
pub struct Config {
    telegram_bot_token: String,
    nova_api_key: String,
    nova_base_url: String,
    nova_model: String,
    nova_verbosity: String,
    nova_max_tokens: u32,
    reasoning: ReasoningSettings,
    nova_timeout_seconds: u64,
}

/// An ASCII decimal digit.
pub open spec fn is_digit(c: char) -> bool {
    '0' <= c && c <= '9'
}

/// The value of a string of decimal digits.
pub open spec fn digits_value(s: Seq<char>) -> nat
    decreases s.len(),
{
    if s.len() == 0 {
        0
    } else {
        digits_value(s.drop_last()) * 10 + ((s.last() as u32) - ('0' as u32)) as nat
    }
}

/// The value an unsigned integer text denotes: an optional '+' followed by one or more digits.
pub open spec fn unsigned_value(s: Seq<char>) -> Option<nat> {
    let d = if s.len() > 0 && s[0] == '+' {
        s.drop_first()
    } else {
        s
    };
    if d.len() > 0 && (forall|i: int| 0 <= i < d.len() ==> is_digit(#[trigger] d[i])) {
        Some(digits_value(d))
    } else {
        None
    }
}

/// Parsing an unsigned integer that must not exceed `max`.
pub open spec fn parse_bounded(s: Seq<char>, max: nat) -> Option<nat> {
    match unsigned_value(s) {
        Some(v) => if v <= max {
            Some(v)
        } else {
            None
        },
        None => None,
    }
}

/// Relies on `str::parse::<u32>`: an optional '+' and decimal digits, within range.
#[verifier::external_body]
fn parse_u32(s: &str) -> (r: Option<u32>)
    ensures
        match parse_bounded(s@, u32::MAX as nat) {
            Some(v) => r == Some(v as u32),
            None => r is None,
        },
{
    s.parse::<u32>().ok()
}

/// Relies on `str::parse::<u64>`: an optional '+' and decimal digits, within range.
#[verifier::external_body]
fn parse_u64(s: &str) -> (r: Option<u64>)
    ensures
        match parse_bounded(s@, u64::MAX as nat) {
            Some(v) => r == Some(v as u64),
            None => r is None,
        },
{
    s.parse::<u64>().ok()
}

/// The lower-case form of a text, by Unicode's case mapping.
pub uninterp spec fn lowercase_of(s: Seq<char>) -> Seq<char>;

/// Relies on `str::to_lowercase`: the result depends on the characters alone.
#[verifier::external_body]
fn to_lowercase(s: &str) -> (r: String)
    ensures
        r@ == lowercase_of(s@),
{
    s.to_lowercase()
}

/// The truth value a lower-case word stands for.
pub open spec fn bool_word(t: Seq<char>) -> Option<bool> {
    if t == "true"@ || t == "1"@ || t == "yes"@ || t == "y"@ {
        Some(true)
    } else if t == "false"@ || t == "0"@ || t == "no"@ || t == "n"@ {
        Some(false)
    } else {
        None
    }
}

/// Reads a truth value, ignoring case.
pub open spec fn parse_bool_spec(s: Seq<char>) -> Option<bool> {
    bool_word(lowercase_of(s))
}

fn str_eq(a: &String, b: &str) -> (r: bool)
    ensures
        r == (a@ == b@),
{
    let bs = String::from_str(b);
    *a == bs
}

/// Reads a word that names a truth value, whatever its case.
pub fn parse_bool(value: &str) -> (r: Option<bool>)
    ensures
        r == parse_bool_spec(value@),
{
    let t = to_lowercase(value);
    if str_eq(&t, "true") || str_eq(&t, "1") || str_eq(&t, "yes") || str_eq(&t, "y") {
        Some(true)
    } else if str_eq(&t, "false") || str_eq(&t, "0") || str_eq(&t, "no") || str_eq(&t, "n") {
        Some(false)
    } else {
        None
    }
}

/// A variable that must be set.
pub open spec fn required_spec(key: Seq<char>, v: EnvValue) -> Result<Seq<char>, ConfigFault> {
    match v {
        EnvValue::Present(s) => Ok(s@),
        EnvValue::NotPresent => Err(ConfigFault::MissingVar(key)),
        EnvValue::NotUnicode => Err(ConfigFault::Env(key)),
    }
}

/// A text variable with a default for when it cannot be read.
pub open spec fn text_or_spec(v: EnvValue, default: Seq<char>) -> Seq<char> {
    match v {
        EnvValue::Present(s) => s@,
        _ => default,
    }
}

/// A number variable no larger than `max`, with a default for when it cannot be read.
pub open spec fn number_spec(key: Seq<char>, v: EnvValue, max: nat, default: nat) -> Result<
    nat,
    ConfigFault,
> {
    match v {
        EnvValue::Present(s) => match parse_bounded(s@, max) {
            Some(n) => Ok(n),
            None => Err(ConfigFault::InvalidNumber(key, s@)),
        },
        _ => Ok(default),
    }
}

/// A truth-value variable, false when it cannot be read.
pub open spec fn flag_spec(key: Seq<char>, v: EnvValue) -> Result<bool, ConfigFault> {
    match v {
        EnvValue::Present(s) => match parse_bool_spec(s@) {
            Some(b) => Ok(b),
            None => Err(ConfigFault::InvalidBoolean(key, s@)),
        },
        _ => Ok(false),
    }
}

/// An optional text variable; an empty value counts as absent.
pub open spec fn optional_text_spec(v: EnvValue) -> Option<Seq<char>> {
    match v {
        EnvValue::Present(s) => if s@.len() > 0 {
            Some(s@)
        } else {
            None
        },
        _ => None,
    }
}

/// The first fault among the variables, in the order they are read.
pub open spec fn config_fault(env: EnvSnapshot) -> Option<ConfigFault> {
    if required_spec("TELEGRAM_BOT_TOKEN"@, env.telegram_bot_token) is Err {
        Some(required_spec("TELEGRAM_BOT_TOKEN"@, env.telegram_bot_token)->Err_0)
    } else if required_spec("NOVA_API_KEY"@, env.nova_api_key) is Err {
        Some(required_spec("NOVA_API_KEY"@, env.nova_api_key)->Err_0)
    } else if number_spec(
        "NOVA_MAX_TOKENS"@,
        env.nova_max_tokens,
        u32::MAX as nat,
        DEFAULT_MAX_TOKENS as nat,
    ) is Err {
        Some(
            number_spec(
                "NOVA_MAX_TOKENS"@,
                env.nova_max_tokens,
                u32::MAX as nat,
                DEFAULT_MAX_TOKENS as nat,
            )->Err_0,
        )
    } else if flag_spec("NOVA_REASONING"@, env.nova_reasoning) is Err {
        Some(flag_spec("NOVA_REASONING"@, env.nova_reasoning)->Err_0)
    } else if number_spec(
        "NOVA_TIMEOUT_SECONDS"@,
        env.nova_timeout_seconds,
        u64::MAX as nat,
        DEFAULT_TIMEOUT_SECS as nat,
    ) is Err {
        Some(
            number_spec(
                "NOVA_TIMEOUT_SECONDS"@,
                env.nova_timeout_seconds,
                u64::MAX as nat,
                DEFAULT_TIMEOUT_SECS as nat,
            )->Err_0,
        )
    } else {
        None
    }
}

fn load_required(key: &str, v: EnvValue) -> (r: Result<String, ConfigError>)
    ensures
        match (r, required_spec(key@, v)) {
            (Ok(s), Ok(t)) => s@ == t,
            (Err(e), Err(f)) => e@ == f,
            _ => false,
        },
{
    match v {
        EnvValue::Present(s) => Ok(s),
        EnvValue::NotPresent => Err(ConfigError::MissingVar(String::from_str(key))),
        EnvValue::NotUnicode => Err(ConfigError::Env(String::from_str(key))),
    }
}

fn load_text_or(v: EnvValue, default: &str) -> (r: String)
    ensures
        r@ == text_or_spec(v, default@),
{
    match v {
        EnvValue::Present(s) => s,
        _ => String::from_str(default),
    }
}

fn load_u32(key: &str, v: EnvValue, default: u32) -> (r: Result<u32, ConfigError>)
    ensures
        match (r, number_spec(key@, v, u32::MAX as nat, default as nat)) {
            (Ok(n), Ok(m)) => n as nat == m,
            (Err(e), Err(f)) => e@ == f,
            _ => false,
        },
{
    match v {
        EnvValue::Present(s) => match parse_u32(s.as_str()) {
            Some(n) => Ok(n),
            None => Err(ConfigError::InvalidNumber(String::from_str(key), s)),
        },
        _ => Ok(default),
    }
}

fn load_u64(key: &str, v: EnvValue, default: u64) -> (r: Result<u64, ConfigError>)
    ensures
        match (r, number_spec(key@, v, u64::MAX as nat, default as nat)) {
            (Ok(n), Ok(m)) => n as nat == m,
            (Err(e), Err(f)) => e@ == f,
            _ => false,
        },
{
    match v {
        EnvValue::Present(s) => match parse_u64(s.as_str()) {
            Some(n) => Ok(n),
            None => Err(ConfigError::InvalidNumber(String::from_str(key), s)),
        },
        _ => Ok(default),
    }
}

fn load_flag(key: &str, v: EnvValue) -> (r: Result<bool, ConfigError>)
    ensures
        match (r, flag_spec(key@, v)) {
            (Ok(b), Ok(c)) => b == c,
            (Err(e), Err(f)) => e@ == f,
            _ => false,
        },
{
    match v {
        EnvValue::Present(s) => match parse_bool(s.as_str()) {
            Some(b) => Ok(b),
            None => Err(ConfigError::InvalidBoolean(String::from_str(key), s)),
        },
        _ => Ok(false),
    }
}

fn load_optional_text(v: EnvValue) -> (r: Option<String>)
    ensures
        match (r, optional_text_spec(v)) {
            (Some(s), Some(t)) => s@ == t,
            (None, None) => true,
            _ => false,
        },
{
    match v {
        EnvValue::Present(s) => if s.unicode_len() > 0 {
            Some(s)
        } else {
            None
        },
        _ => None,
    }
}

impl Config {
    pub closed spec fn telegram_bot_token_spec(&self) -> Seq<char> {
        self.telegram_bot_token@
    }

    pub closed spec fn nova_api_key_spec(&self) -> Seq<char> {
        self.nova_api_key@
    }

    pub closed spec fn nova_base_url_spec(&self) -> Seq<char> {
        self.nova_base_url@
    }

    pub closed spec fn nova_model_spec(&self) -> Seq<char> {
        self.nova_model@
    }

    pub closed spec fn nova_verbosity_spec(&self) -> Seq<char> {
        self.nova_verbosity@
    }

    pub closed spec fn nova_max_tokens_spec(&self) -> u32 {
        self.nova_max_tokens
    }

    pub closed spec fn reasoning_spec(&self) -> ReasoningSettings {
        self.reasoning
    }

    pub closed spec fn nova_timeout_seconds_spec(&self) -> u64 {
        self.nova_timeout_seconds
    }

    /// Builds the settings from the looked-up variables, with defaults for the optional ones.
    pub fn from_env_values(env: EnvSnapshot) -> (r: Result<Config, ConfigError>)
        ensures
            match r {
                Err(e) => config_fault(env) == Some(e@),
                Ok(c) => {
                    &&& config_fault(env) is None
                    &&& c.telegram_bot_token_spec() == required_spec(
                        "TELEGRAM_BOT_TOKEN"@,
                        env.telegram_bot_token,
                    )->Ok_0
                    &&& c.nova_api_key_spec() == required_spec(
                        "NOVA_API_KEY"@,
                        env.nova_api_key,
                    )->Ok_0
                    &&& c.nova_base_url_spec() == text_or_spec(
                        env.nova_base_url,
                        DEFAULT_BASE_URL@,
                    )
                    &&& c.nova_model_spec() == text_or_spec(env.nova_model, DEFAULT_MODEL@)
                    &&& c.nova_verbosity_spec() == text_or_spec(
                        env.nova_verbosity,
                        DEFAULT_VERBOSITY@,
                    )
                    &&& c.nova_max_tokens_spec() as nat == number_spec(
                        "NOVA_MAX_TOKENS"@,
                        env.nova_max_tokens,
                        u32::MAX as nat,
                        DEFAULT_MAX_TOKENS as nat,
                    )->Ok_0
                    &&& c.reasoning_spec().enabled == flag_spec(
                        "NOVA_REASONING"@,
                        env.nova_reasoning,
                    )->Ok_0
                    &&& match (c.reasoning_spec().effort, optional_text_spec(
                        env.nova_reasoning_effort,
                    )) {
                        (Some(s), Some(t)) => s@ == t,
                        (None, None) => true,
                        _ => false,
                    }
                    &&& c.nova_timeout_seconds_spec() as nat == number_spec(
                        "NOVA_TIMEOUT_SECONDS"@,
                        env.nova_timeout_seconds,
                        u64::MAX as nat,
                        DEFAULT_TIMEOUT_SECS as nat,
                    )->Ok_0
                },
            },
    {
        let ghost env0 = env;
        let EnvSnapshot {
            telegram_bot_token,
            nova_api_key,
            nova_base_url,
            nova_model,
            nova_verbosity,
            nova_max_tokens,
            nova_reasoning,
            nova_reasoning_effort,
            nova_timeout_seconds,
        } = env;
        let telegram_bot_token = match load_required("TELEGRAM_BOT_TOKEN", telegram_bot_token) {
            Ok(s) => s,
            Err(e) => return Err(e),
        };
        let nova_api_key = match load_required("NOVA_API_KEY", nova_api_key) {
            Ok(s) => s,
            Err(e) => return Err(e),
        };
        let nova_base_url = load_text_or(nova_base_url, DEFAULT_BASE_URL);
        let nova_model = load_text_or(nova_model, DEFAULT_MODEL);
        let nova_verbosity = load_text_or(nova_verbosity, DEFAULT_VERBOSITY);
        let nova_max_tokens = match load_u32("NOVA_MAX_TOKENS", nova_max_tokens, DEFAULT_MAX_TOKENS) {
            Ok(n) => n,
            Err(e) => return Err(e),
        };
        let enabled = match load_flag("NOVA_REASONING", nova_reasoning) {
            Ok(b) => b,
            Err(e) => return Err(e),
        };
        let effort = load_optional_text(nova_reasoning_effort);
        let nova_timeout_seconds = match load_u64(
            "NOVA_TIMEOUT_SECONDS",
            nova_timeout_seconds,
            DEFAULT_TIMEOUT_SECS,
        ) {
            Ok(n) => n,
            Err(e) => return Err(e),
        };
        Ok(Config {
            telegram_bot_token,
            nova_api_key,
            nova_base_url,
            nova_model,
            nova_verbosity,
            nova_max_tokens,
            reasoning: ReasoningSettings { enabled, effort },
            nova_timeout_seconds,
        })
    }

    pub fn telegram_bot_token(&self) -> (r: &str)
        ensures
            r@ == self.telegram_bot_token_spec(),
    {
        self.telegram_bot_token.as_str()
    }

    pub fn nova_api_key(&self) -> (r: &str)
        ensures
            r@ == self.nova_api_key_spec(),
    {
        self.nova_api_key.as_str()
    }

    pub fn nova_base_url(&self) -> (r: &str)
        ensures
            r@ == self.nova_base_url_spec(),
    {
        self.nova_base_url.as_str()
    }

    pub fn nova_model(&self) -> (r: &str)
        ensures
            r@ == self.nova_model_spec(),
    {
        self.nova_model.as_str()
    }

    pub fn nova_verbosity(&self) -> (r: &str)
        ensures
            r@ == self.nova_verbosity_spec(),
    {
        self.nova_verbosity.as_str()
    }

    pub fn nova_max_tokens(&self) -> (r: u32)
        ensures
            r == self.nova_max_tokens_spec(),
    {
        self.nova_max_tokens
    }

    pub fn reasoning(&self) -> (r: &ReasoningSettings)
        ensures
            *r == self.reasoning_spec(),
    {
        &self.reasoning
    }

    pub fn nova_timeout_seconds(&self) -> (r: u64)
        ensures
            r == self.nova_timeout_seconds_spec(),
    {
        self.nova_timeout_seconds
    }
}

} // verus!
