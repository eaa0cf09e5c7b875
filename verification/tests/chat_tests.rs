use chat_gateway::chat::{
    plan_chat, chat_turn_step, describe_error, ChatTurn, ChatError, HttpEvent, TurnResult,
};
use chat_gateway::config::{ChatMessage, GatewayConfig};

fn msg(role: &str, content: &str) -> ChatMessage {
    ChatMessage { role: role.to_string(), content: content.to_string() }
}

fn local_config() -> GatewayConfig {
    GatewayConfig {
        provider: "ollama".to_string(),
        base_url: "http://localhost:11434/".to_string(),
        api_key: None,
        model: None,
        ollama_path: None,
        models: None,
        streaming_enabled: None,
        default_think: None,
        max_context_messages: None,
        temperature_milli: None,
    }
}

fn remote_config() -> GatewayConfig {
    GatewayConfig {
        provider: "openai".to_string(),
        base_url: "https://api.example.com".to_string(),
        api_key: Some("sk-12345678".to_string()),
        model: None,
        ollama_path: None,
        models: None,
        streaming_enabled: None,
        default_think: None,
        max_context_messages: None,
        temperature_milli: Some(200),
    }
}

#[test]
fn local_plan_builds_chat_request_with_fallback() {
    let msgs = vec![msg("user", "hi")];
    let turn = plan_chat(&local_config(), &msgs, "llama3".to_string(), false);
    match turn {
        ChatTurn::LocalPrimary { request, fallback } => {
            assert_eq!(request.url, "http://localhost:11434/api/chat");
            assert_eq!(request.model.as_deref(), Some("llama3"));
            assert_eq!(request.messages.len(), 1);
            assert_eq!(request.messages[0].content, "hi /no_think");
            assert!(!request.think);
            assert_eq!(fallback.url, "http://localhost:11434/api/generate");
            assert_eq!(fallback.prompt, "user: hi /no_think");
        }
        _ => panic!("expected the local primary state"),
    }
}

#[test]
fn local_plan_empty_model_is_omitted() {
    let msgs = vec![msg("user", "hi")];
    let turn = plan_chat(&local_config(), &msgs, String::new(), true);
    match turn {
        ChatTurn::LocalPrimary { request, fallback } => {
            assert!(request.model.is_none());
            assert!(fallback.model.is_none());
            assert!(request.think);
            assert_eq!(request.messages[0].content, "hi");
        }
        _ => panic!("expected the local primary state"),
    }
}

#[test]
fn remote_plan_uses_completions_endpoint_and_temperature_default() {
    let msgs = vec![msg("user", "hi")];
    let mut config = remote_config();
    config.temperature_milli = None;
    let turn = plan_chat(&config, &msgs, "gpt-x".to_string(), false);
    match turn {
        ChatTurn::Remote { request } => {
            assert_eq!(request.url, "https://api.example.com/chat/completions");
            assert_eq!(request.model, "gpt-x");
            assert_eq!(request.temperature_milli, 600);
            assert_eq!(request.api_key.as_deref(), Some("sk-12345678"));
            assert_eq!(request.messages[0].content, "hi");
        }
        _ => panic!("expected the remote state"),
    }
}

#[test]
fn remote_plan_drops_empty_credential() {
    let msgs = vec![msg("user", "hi")];
    let mut config = remote_config();
    config.api_key = Some(String::new());
    let turn = plan_chat(&config, &msgs, "gpt-x".to_string(), false);
    match turn {
        ChatTurn::Remote { request } => {
            assert!(request.api_key.is_none());
            assert_eq!(request.temperature_milli, 200);
        }
        _ => panic!("expected the remote state"),
    }
}

fn local_turn() -> ChatTurn {
    let msgs = vec![msg("user", "hi")];
    plan_chat(&local_config(), &msgs, "llama3".to_string(), false)
}

#[test]
fn local_primary_content_is_returned_unmodified() {
    let step = chat_turn_step(
        local_turn(),
        HttpEvent::Response {
            status: 200,
            body: "{\"message\":{\"content\":\"Hello there\"}}".to_string(),
        },
    );
    match step {
        TurnResult::Done(Ok(text)) => assert_eq!(text, "Hello there"),
        _ => panic!("expected success with the primary field's text"),
    }
}

#[test]
fn local_flat_response_field_is_second_strategy() {
    let step = chat_turn_step(
        local_turn(),
        HttpEvent::Response { status: 200, body: "{\"response\":\"flat text\"}".to_string() },
    );
    match step {
        TurnResult::Done(Ok(text)) => assert_eq!(text, "flat text"),
        _ => panic!("expected success with the response field's text"),
    }
}

#[test]
fn local_failure_status_surfaces_daemon_error() {
    let step = chat_turn_step(
        local_turn(),
        HttpEvent::Response {
            status: 500,
            body: "{\"error\":\"model not found\"}".to_string(),
        },
    );
    match step {
        TurnResult::Done(Err(ChatError::Upstream(m))) => assert_eq!(m, "model not found"),
        _ => panic!("expected the daemon's error verbatim"),
    }
}

#[test]
fn local_failure_without_error_field_surfaces_raw_body() {
    let step = chat_turn_step(
        local_turn(),
        HttpEvent::Response { status: 500, body: "{\"busy\":true}".to_string() },
    );
    match step {
        TurnResult::Done(Err(ChatError::Upstream(m))) => assert_eq!(m, "{\"busy\":true}"),
        _ => panic!("expected the raw body as the error"),
    }
}

#[test]
fn local_empty_content_falls_back_to_generate() {
    let step = chat_turn_step(
        local_turn(),
        HttpEvent::Response {
            status: 200,
            body: "{\"message\":{\"content\":\"\"}}".to_string(),
        },
    );
    match step {
        TurnResult::Pending(ChatTurn::LocalFallback { request, primary_status, primary_body }) => {
            assert_eq!(request.url, "http://localhost:11434/api/generate");
            assert_eq!(request.prompt, "user: hi /no_think");
            assert_eq!(primary_status, 200);
            assert_eq!(primary_body, "{\"message\":{\"content\":\"\"}}");
        }
        _ => panic!("expected the fallback exchange"),
    }
}

#[test]
fn unparsable_failure_then_empty_fallback_references_primary_status() {
    let step = chat_turn_step(
        local_turn(),
        HttpEvent::Response { status: 500, body: "gateway blew up".to_string() },
    );
    let fallback_turn = match step {
        TurnResult::Pending(t) => t,
        _ => panic!("an unparsable body goes to the fallback"),
    };
    let step2 = chat_turn_step(
        fallback_turn,
        HttpEvent::Response { status: 200, body: "{}".to_string() },
    );
    match step2 {
        TurnResult::Done(Err(ChatError::Empty { status, body })) => {
            assert_eq!(status, 500);
            assert_eq!(body, "gateway blew up");
        }
        _ => panic!("expected the empty-response classification"),
    }
}

#[test]
fn fallback_empty_response_field_is_not_success() {
    let step = chat_turn_step(
        local_turn(),
        HttpEvent::Response { status: 200, body: "{}".to_string() },
    );
    let fallback_turn = match step {
        TurnResult::Pending(t) => t,
        _ => panic!("expected the fallback exchange"),
    };
    let step2 = chat_turn_step(
        fallback_turn,
        HttpEvent::Response { status: 200, body: "{\"response\":\"\"}".to_string() },
    );
    match step2 {
        TurnResult::Done(Err(ChatError::Empty { status, body })) => {
            assert_eq!(status, 200);
            assert_eq!(body, "{}");
        }
        _ => panic!("expected the empty-response classification"),
    }
}

#[test]
fn fallback_failure_status_surfaces_daemon_error() {
    let step = chat_turn_step(
        local_turn(),
        HttpEvent::Response { status: 200, body: "not json".to_string() },
    );
    let fallback_turn = match step {
        TurnResult::Pending(t) => t,
        _ => panic!("expected the fallback exchange"),
    };
    let step2 = chat_turn_step(
        fallback_turn,
        HttpEvent::Response {
            status: 404,
            body: "{\"error\":\"no such model\"}".to_string(),
        },
    );
    match step2 {
        TurnResult::Done(Err(ChatError::Upstream(m))) => assert_eq!(m, "no such model"),
        _ => panic!("expected the daemon's error verbatim"),
    }
}

#[test]
fn fallback_response_text_is_returned() {
    let step = chat_turn_step(
        local_turn(),
        HttpEvent::Response { status: 200, body: "{}".to_string() },
    );
    let fallback_turn = match step {
        TurnResult::Pending(t) => t,
        _ => panic!("expected the fallback exchange"),
    };
    let step2 = chat_turn_step(
        fallback_turn,
        HttpEvent::Response { status: 200, body: "{\"response\":\"from generate\"}".to_string() },
    );
    match step2 {
        TurnResult::Done(Ok(text)) => assert_eq!(text, "from generate"),
        _ => panic!("expected the fallback's text"),
    }
}

#[test]
fn remote_transport_failure_ends_the_turn_without_fallback() {
    let msgs = vec![msg("user", "hi")];
    let turn = plan_chat(&remote_config(), &msgs, "gpt-x".to_string(), false);
    let step = chat_turn_step(turn, HttpEvent::Transport("connection refused".to_string()));
    match step {
        TurnResult::Done(Err(ChatError::Transport(m))) => assert_eq!(m, "connection refused"),
        TurnResult::Pending(_) => panic!("the remote path has no secondary endpoint"),
        _ => panic!("expected a transport error"),
    }
}

#[test]
fn local_transport_failure_ends_the_turn() {
    let step = chat_turn_step(local_turn(), HttpEvent::Transport("refused".to_string()));
    match step {
        TurnResult::Done(Err(ChatError::Transport(m))) => assert_eq!(m, "refused"),
        _ => panic!("expected a transport error"),
    }
}

#[test]
fn remote_content_is_returned_unmodified() {
    let msgs = vec![msg("user", "hi")];
    let turn = plan_chat(&remote_config(), &msgs, "gpt-x".to_string(), false);
    let step = chat_turn_step(
        turn,
        HttpEvent::Response {
            status: 200,
            body: "{\"choices\":[{\"message\":{\"content\":\"ok!\"}}]}".to_string(),
        },
    );
    match step {
        TurnResult::Done(Ok(text)) => assert_eq!(text, "ok!"),
        _ => panic!("expected the provider's content"),
    }
}

#[test]
fn remote_failure_surfaces_nested_error_message() {
    let msgs = vec![msg("user", "hi")];
    let turn = plan_chat(&remote_config(), &msgs, "gpt-x".to_string(), false);
    let step = chat_turn_step(
        turn,
        HttpEvent::Response {
            status: 401,
            body: "{\"error\":{\"message\":\"bad key\"}}".to_string(),
        },
    );
    match step {
        TurnResult::Done(Err(ChatError::Upstream(m))) => assert_eq!(m, "bad key"),
        _ => panic!("expected the provider's error message"),
    }
}

#[test]
fn remote_empty_reply_is_classified_empty() {
    let msgs = vec![msg("user", "hi")];
    let turn = plan_chat(&remote_config(), &msgs, "gpt-x".to_string(), false);
    let step = chat_turn_step(
        turn,
        HttpEvent::Response { status: 200, body: "{}".to_string() },
    );
    match step {
        TurnResult::Done(Err(ChatError::Empty { status, body })) => {
            assert_eq!(status, 200);
            assert_eq!(body, "{}");
        }
        _ => panic!("expected the empty-response classification"),
    }
}

#[test]
fn empty_error_description_references_status_and_body() {
    let e = ChatError::Empty { status: 500, body: "gateway blew up".to_string() };
    assert_eq!(describe_error(&e), "empty response: status=500 body=gateway blew up");
    let t = ChatError::Transport("refused".to_string());
    assert_eq!(describe_error(&t), "refused");
    let u = ChatError::Upstream("model not found".to_string());
    assert_eq!(describe_error(&u), "model not found");
}
