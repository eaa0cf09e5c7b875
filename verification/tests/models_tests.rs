use chat_gateway::models::{
    ensure_model_decision, local_model_names, local_models_payload, model_check_verdict,
    model_listed, needs_model_check, remote_model_names, remote_models_payload,
    resolve_daemon_exe, PullDecision,
};

#[test]
fn local_inventory_names_in_order() {
    let body = "{\"models\":[{\"name\":\"llama3\"},{\"name\":\"phi\"},{\"size\":1}]}";
    let names = local_model_names(body).expect("the body is JSON");
    assert_eq!(names, vec!["llama3".to_string(), "phi".to_string()]);
}

#[test]
fn local_inventory_missing_array_is_empty() {
    let names = local_model_names("{}").expect("the body is JSON");
    assert!(names.is_empty());
}

#[test]
fn local_inventory_not_json_is_a_parse_failure() {
    assert!(local_model_names("oops").is_none());
    assert!(local_models_payload("oops").is_none());
}

#[test]
fn local_payload_is_one_json_array_of_strings() {
    let body = "{\"models\":[{\"name\":\"llama3\"},{\"name\":\"phi\"}]}";
    let payload = local_models_payload(body).expect("the body is JSON");
    assert_eq!(payload, "[\"llama3\",\"phi\"]");
}

#[test]
fn remote_inventory_reads_data_ids() {
    let body = "{\"data\":[{\"id\":\"gpt-a\"},{\"id\":\"gpt-b\"}]}";
    let names = remote_model_names(body).expect("the body is JSON");
    assert_eq!(names, vec!["gpt-a".to_string(), "gpt-b".to_string()]);
    let payload = remote_models_payload(body).expect("the body is JSON");
    assert_eq!(payload, "[\"gpt-a\",\"gpt-b\"]");
}

#[test]
fn listing_is_exact_name_matching() {
    let names = vec!["llama3".to_string(), "phi".to_string()];
    assert!(model_listed(&names, &"llama3".to_string()));
    assert!(!model_listed(&names, &"llama".to_string()));
    assert!(!model_listed(&names, &"llama3:latest".to_string()));
}

#[test]
fn empty_model_name_needs_no_check() {
    assert!(!needs_model_check(&String::new()));
    assert!(needs_model_check(&"llama3".to_string()));
}

#[test]
fn existence_verdict_from_inventory_body() {
    let body = "{\"models\":[{\"name\":\"llama3\"}]}";
    assert_eq!(model_check_verdict(&"llama3".to_string(), body), Some(true));
    assert_eq!(model_check_verdict(&"phi".to_string(), body), Some(false));
    assert_eq!(model_check_verdict(&"phi".to_string(), "{}"), Some(false));
    assert_eq!(model_check_verdict(&"phi".to_string(), "oops"), None);
}

#[test]
fn ensure_decision_pulls_only_when_missing() {
    let listed = Some("{\"models\":[{\"name\":\"llama3\"}]}".to_string());
    assert_eq!(ensure_model_decision(&"llama3".to_string(), &listed), PullDecision::NoAction);
    assert_eq!(ensure_model_decision(&"phi".to_string(), &listed), PullDecision::PullModel);
    assert_eq!(ensure_model_decision(&String::new(), &None), PullDecision::NoAction);
    assert_eq!(ensure_model_decision(&"phi".to_string(), &None), PullDecision::PullModel);
    let bad = Some("oops".to_string());
    assert_eq!(ensure_model_decision(&"phi".to_string(), &bad), PullDecision::PullModel);
}

#[test]
fn daemon_executable_falls_back_when_blank() {
    assert_eq!(resolve_daemon_exe(&None), "ollama");
    assert_eq!(resolve_daemon_exe(&Some("   ".to_string())), "ollama");
    assert_eq!(resolve_daemon_exe(&Some(String::new())), "ollama");
    assert_eq!(resolve_daemon_exe(&Some("/opt/bin/ollama".to_string())), "/opt/bin/ollama");
}
