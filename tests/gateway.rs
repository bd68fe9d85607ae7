use nova_bot::config::ReasoningSettings;
use nova_bot::nova::{
    bearer_value, create_request, endpoint_url, gateway_failure, is_success, prompt_step,
    sanitize_base_url, GatewayCall, NovaClientError, PromptAttempts, PromptStep,
};
use nova_bot::reply::{
    error_reply, format_help_text, format_nova_response, BotError, EMPTY_RESPONSE_TEXT,
    FALLBACK_ERROR_TEXT,
};
use nova_bot::nova::NovaResponse;

fn message_of(err: NovaClientError) -> (u16, String) {
    match err {
        NovaClientError::Gateway { status, message } => (status, message),
        other => panic!("unexpected error {:?}", other),
    }
}

#[test]
fn three_rate_limits_exhaust_the_retries() {
    let mut attempts = PromptAttempts::new();
    attempts.begin();
    assert_eq!(attempts.on_status(429), PromptStep::Retry { delay_ms: 500 });
    attempts.begin();
    assert_eq!(attempts.on_status(429), PromptStep::Retry { delay_ms: 1000 });
    attempts.begin();
    assert_eq!(attempts.on_status(429), PromptStep::Fail);
    let (status, message) = message_of(gateway_failure(GatewayCall::Prompt, 429, "", None));
    assert_eq!(status, 429);
    assert_eq!(message, "request failed with status 429");
}

#[test]
fn rate_limit_then_success_decodes_second_answer() {
    let mut attempts = PromptAttempts::new();
    attempts.begin();
    match attempts.on_status(429) {
        PromptStep::Retry { delay_ms } => assert!(delay_ms >= 500),
        other => panic!("unexpected step {:?}", other),
    }
    attempts.begin();
    assert_eq!(attempts.on_status(200), PromptStep::Decode);
}

#[test]
fn steps_by_status() {
    assert_eq!(prompt_step(1, 204), PromptStep::Decode);
    assert_eq!(prompt_step(1, 500), PromptStep::Fail);
    assert_eq!(prompt_step(1, 404), PromptStep::Fail);
    assert_eq!(prompt_step(255, 429), PromptStep::Fail);
    assert!(is_success(200));
    assert!(is_success(299));
    assert!(!is_success(300));
    assert!(!is_success(199));
}

#[test]
fn attempts_saturate() {
    let mut attempts = PromptAttempts::new();
    for _ in 0..300 {
        attempts.begin();
    }
    assert_eq!(attempts.made, 255);
}

#[test]
fn failure_messages() {
    let (s, m) = message_of(gateway_failure(GatewayCall::Prompt, 500, "boom", None));
    assert_eq!((s, m.as_str()), (500, "request failed with status 500: boom"));
    let (s, m) = message_of(gateway_failure(GatewayCall::ClearHistory, 404, "", None));
    assert_eq!((s, m.as_str()), (404, "failed to clear history: status 404"));
    let (_, m) = message_of(gateway_failure(GatewayCall::ClearHistory, 503, "down", None));
    assert_eq!(m, "failed to clear history: status 503: down");
    let (s, m) = message_of(gateway_failure(
        GatewayCall::Prompt,
        400,
        "{\"message\":\"bad input\"}",
        Some("bad input".to_string()),
    ));
    assert_eq!((s, m.as_str()), (400, "bad input"));
}

#[test]
fn empty_responses_render_placeholder() {
    let none = NovaResponse { text: None };
    assert_eq!(format_nova_response(&none), "Nova Gateway returned an empty response.");
    let blank = NovaResponse { text: Some("  ".to_string()) };
    assert_eq!(format_nova_response(&blank), EMPTY_RESPONSE_TEXT);
    let hi = NovaResponse { text: Some("Hi".to_string()) };
    assert_eq!(format_nova_response(&hi), "Hi");
    let padded = NovaResponse { text: Some(" Hi \n".to_string()) };
    assert_eq!(format_nova_response(&padded), " Hi \n");
}

#[test]
fn help_text_lists_commands() {
    let help = format_help_text();
    assert!(help.starts_with("Hello! I'm a Nova Gateway assistant.\n\nUse these commands:\n"));
    assert!(help.contains("/reset - Clear the conversation context"));
}

#[test]
fn error_replies() {
    let gateway = BotError::Nova(NovaClientError::Gateway { status: 429, message: "slow down".to_string() });
    assert_eq!(
        error_reply(&gateway),
        Some("Nova Gateway error: nova gateway error (429): slow down".to_string())
    );
    let http = BotError::Nova(NovaClientError::Http("timed out".to_string()));
    assert_eq!(error_reply(&http), Some("Nova Gateway error: http error: timed out".to_string()));
    let header = BotError::Nova(NovaClientError::Header("bad byte".to_string()));
    assert_eq!(
        error_reply(&header),
        Some("Nova Gateway error: failed to build request headers: bad byte".to_string())
    );
    assert_eq!(
        error_reply(&BotError::MissingMessageText),
        Some("Please provide a message after /chat. Example: /chat Hello, how are you?".to_string())
    );
    assert_eq!(error_reply(&BotError::Telegram), None);
    assert!(!FALLBACK_ERROR_TEXT.is_empty());
}

#[test]
fn addresses_and_headers() {
    assert_eq!(sanitize_base_url("https://gw.example.com///"), "https://gw.example.com");
    assert_eq!(sanitize_base_url("https://gw.example.com"), "https://gw.example.com");
    assert_eq!(sanitize_base_url("/"), "");
    assert_eq!(endpoint_url("https://gw.example.com"), "https://gw.example.com/ai");
    assert_eq!(bearer_value("k-1"), "Bearer k-1");
}

#[test]
fn request_with_reasoning() {
    let settings = ReasoningSettings { enabled: true, effort: Some("high".to_string()) };
    let r = create_request(None, "q".to_string(), "m", "Low", 10, &settings);
    assert_eq!(r.ref_id, None);
    assert_eq!(r.input, "q");
    assert_eq!(r.model, "m");
    assert_eq!(r.verbosity, "Low");
    assert_eq!(r.max_tokens, 10);
    assert!(r.reasoning);
    assert_eq!(r.reasoning_params.unwrap().effort, Some("high".to_string()));
    let off = ReasoningSettings { enabled: false, effort: Some("high".to_string()) };
    let r = create_request(Some("t".to_string()), "q".to_string(), "m", "Low", 10, &off);
    assert!(r.reasoning_params.is_none());
}
