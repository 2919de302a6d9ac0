use openai_api_server::chat::{default_api_key, get_role, translate_request, Content, Role, UserInput};
use openai_api_server::envelope::Envelope;
use openai_api_server::timing::time_diff;
use openai_api_server::upstream::translate_response;

fn input(api_key: &str, max_tokens: u16, turns: &[(&str, &str)]) -> UserInput {
    let mut contents = Vec::new();
    for (role, content) in turns {
        contents.push(Content { role: role.to_string(), content: content.to_string() });
    }
    UserInput { api_key: api_key.to_string(), max_tokens, contents }
}

#[test]
fn default_api_key_is_empty() {
    assert_eq!(default_api_key(), "");
}

#[test]
fn recognized_roles() {
    assert_eq!(get_role("user".to_string()), Role::User);
    assert_eq!(get_role("assistant".to_string()), Role::Assistant);
    assert_eq!(get_role("system".to_string()), Role::System);
}

#[test]
fn unrecognized_role_normalizes_to_user() {
    assert_eq!(get_role("moderator".to_string()), Role::User);
    assert_eq!(get_role("".to_string()), Role::User);
    assert_eq!(get_role("User".to_string()), Role::User);
    assert_eq!(get_role("systemd".to_string()), Role::User);
}

#[test]
fn missing_credential_fails_before_upstream() {
    let r = translate_request(input("", 16, &[("user", "hello")]), &None);
    let env = r.err().expect("no credential resolves");
    assert_eq!(env.message, "api_key is empty");
    assert_eq!(env.code, 500);
}

#[test]
fn fallback_credential_is_used_when_request_key_empty() {
    let fallback = Some("sk-fallback".to_string());
    let r = translate_request(input("", 16, &[("user", "hello")]), &fallback);
    let req = r.ok().expect("fallback credential resolves");
    assert_eq!(req.api_key, "sk-fallback");
}

#[test]
fn request_key_takes_priority_over_fallback() {
    let fallback = Some("sk-fallback".to_string());
    let r = translate_request(input("sk-request", 16, &[("user", "hello")]), &fallback);
    let req = r.ok().expect("request key resolves");
    assert_eq!(req.api_key, "sk-request");
}

#[test]
fn translation_keeps_order_limit_and_text() {
    let fallback = Some("sk-fallback".to_string());
    let turns = [("system", "be brief"), ("user", "hi"), ("assistant", "hello"), ("moderator", "?")];
    let r = translate_request(input("", 1024, &turns), &fallback);
    let req = r.ok().expect("credential resolves");
    assert_eq!(req.max_tokens, 1024);
    assert_eq!(req.messages.len(), 4);
    assert_eq!(req.messages[0].role, Role::System);
    assert_eq!(req.messages[0].content, "be brief");
    assert_eq!(req.messages[1].role, Role::User);
    assert_eq!(req.messages[1].content, "hi");
    assert_eq!(req.messages[2].role, Role::Assistant);
    assert_eq!(req.messages[2].content, "hello");
    assert_eq!(req.messages[3].role, Role::User);
    assert_eq!(req.messages[3].content, "?");
}

#[test]
fn empty_contents_translate_to_no_turns() {
    let fallback = Some("sk-fallback".to_string());
    let r = translate_request(input("", 8, &[]), &fallback);
    let req = r.ok().expect("credential resolves");
    assert_eq!(req.messages.len(), 0);
}

#[test]
fn upstream_error_message_is_relayed() {
    let env = translate_response(Err("connection refused".to_string()));
    assert_eq!(env.message, "connection refused");
    assert_eq!(env.code, 500);
}

#[test]
fn zero_choices_yield_no_choices() {
    let env = translate_response(Ok(Vec::new()));
    assert_eq!(env.message, "no choices");
    assert_eq!(env.code, 500);
}

#[test]
fn absent_content_yields_no_content() {
    let env = translate_response(Ok(vec![None, Some("ignored".to_string())]));
    assert_eq!(env.message, "no content");
    assert_eq!(env.code, 500);
}

#[test]
fn first_choice_text_is_relayed() {
    let env = translate_response(Ok(vec![Some("first".to_string()), Some("second".to_string())]));
    assert_eq!(env.message, "first");
    assert_eq!(env.code, 200);
}

#[test]
fn round_trip_echo() {
    let fallback = Some("sk-configured".to_string());
    let r = translate_request(input("", 50, &[("user", "hello")]), &fallback);
    let req = r.ok().expect("configured credential resolves");
    assert_eq!(req.api_key, "sk-configured");
    assert_eq!(req.max_tokens, 50);
    assert_eq!(req.messages.len(), 1);
    assert_eq!(req.messages[0].role, Role::User);
    assert_eq!(req.messages[0].content, "hello");
    // A stubbed upstream that echoes a fixed reply for the request above.
    let echoed = vec![Some("hi there".to_string())];
    let env = translate_response(Ok(echoed));
    assert_eq!(env.message, "hi there");
    assert_eq!(env.code, 200);
}

#[test]
fn envelope_constructors() {
    let ok = Envelope::success("done".to_string());
    assert_eq!(ok.message, "done");
    assert_eq!(ok.code, 200);
    let err = Envelope::failure("broken".to_string());
    assert_eq!(err.message, "broken");
    assert_eq!(err.code, 500);
}

#[test]
fn time_diff_measures_and_saturates() {
    assert_eq!(time_diff(100, 350), 250);
    assert_eq!(time_diff(42, 42), 0);
    assert_eq!(time_diff(350, 100), 0);
}
