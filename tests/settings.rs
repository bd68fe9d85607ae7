use nova_bot::config::{parse_bool, Config, ConfigError, EnvSnapshot, EnvValue};

fn present(s: &str) -> EnvValue {
    EnvValue::Present(s.to_string())
}

fn snapshot() -> EnvSnapshot {
    EnvSnapshot {
        telegram_bot_token: present("bot-token"),
        nova_api_key: present("api-key"),
        nova_base_url: EnvValue::NotPresent,
        nova_model: EnvValue::NotPresent,
        nova_verbosity: EnvValue::NotPresent,
        nova_max_tokens: EnvValue::NotPresent,
        nova_reasoning: EnvValue::NotPresent,
        nova_reasoning_effort: EnvValue::NotPresent,
        nova_timeout_seconds: EnvValue::NotPresent,
    }
}

#[test]
fn defaults_apply() {
    let c = Config::from_env_values(snapshot()).unwrap();
    assert_eq!(c.telegram_bot_token(), "bot-token");
    assert_eq!(c.nova_api_key(), "api-key");
    assert_eq!(c.nova_base_url(), "https://gateway.inferenco.com");
    assert_eq!(c.nova_model(), "gpt-5-mini");
    assert_eq!(c.nova_verbosity(), "Medium");
    assert_eq!(c.nova_max_tokens(), 1024);
    assert!(!c.reasoning().enabled);
    assert_eq!(c.reasoning().effort, None);
    assert_eq!(c.nova_timeout_seconds(), 60);
}

#[test]
fn values_are_read() {
    let mut env = snapshot();
    env.nova_base_url = present("http://localhost:8080/");
    env.nova_model = present("m2");
    env.nova_verbosity = present("High");
    env.nova_max_tokens = present("+2048");
    env.nova_reasoning = present("YES");
    env.nova_reasoning_effort = present("low");
    env.nova_timeout_seconds = present("5");
    let c = Config::from_env_values(env).unwrap();
    assert_eq!(c.nova_base_url(), "http://localhost:8080/");
    assert_eq!(c.nova_model(), "m2");
    assert_eq!(c.nova_verbosity(), "High");
    assert_eq!(c.nova_max_tokens(), 2048);
    assert!(c.reasoning().enabled);
    assert_eq!(c.reasoning().effort, Some("low".to_string()));
    assert_eq!(c.nova_timeout_seconds(), 5);
}

#[test]
fn empty_effort_counts_as_absent() {
    let mut env = snapshot();
    env.nova_reasoning = present("1");
    env.nova_reasoning_effort = present("");
    let c = Config::from_env_values(env).unwrap();
    assert!(c.reasoning().enabled);
    assert_eq!(c.reasoning().effort, None);
}

#[test]
fn required_variables() {
    let mut env = snapshot();
    env.telegram_bot_token = EnvValue::NotPresent;
    assert_eq!(
        Config::from_env_values(env).unwrap_err(),
        ConfigError::MissingVar("TELEGRAM_BOT_TOKEN".to_string())
    );
    let mut env = snapshot();
    env.nova_api_key = EnvValue::NotUnicode;
    assert_eq!(Config::from_env_values(env).unwrap_err(), ConfigError::Env("NOVA_API_KEY".to_string()));
}

#[test]
fn invalid_values() {
    let mut env = snapshot();
    env.nova_max_tokens = present("4294967296");
    assert_eq!(
        Config::from_env_values(env).unwrap_err(),
        ConfigError::InvalidNumber("NOVA_MAX_TOKENS".to_string(), "4294967296".to_string())
    );
    let mut env = snapshot();
    env.nova_reasoning = present("maybe");
    assert_eq!(
        Config::from_env_values(env).unwrap_err(),
        ConfigError::InvalidBoolean("NOVA_REASONING".to_string(), "maybe".to_string())
    );
    let mut env = snapshot();
    env.nova_timeout_seconds = present("-1");
    assert_eq!(
        Config::from_env_values(env).unwrap_err(),
        ConfigError::InvalidNumber("NOVA_TIMEOUT_SECONDS".to_string(), "-1".to_string())
    );
}

#[test]
fn truth_words() {
    for w in ["true", "TRUE", "1", "yes", "Y"] {
        assert_eq!(parse_bool(w), Some(true), "{w}");
    }
    for w in ["false", "False", "0", "no", "N"] {
        assert_eq!(parse_bool(w), Some(false), "{w}");
    }
    assert_eq!(parse_bool(""), None);
    assert_eq!(parse_bool("on"), None);
}
