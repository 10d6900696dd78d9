use mention_relay::completion::{
    ApiOutcome, ChatCompletionResponse, ChatMessage, Choice, EMPTY_REPLY, UNAVAILABLE_REPLY,
    UNREADABLE_REPLY,
};
use mention_relay::config::Config;
use mention_relay::handler::{handle_message, reply_for_outcome, Action, InboundMessage, NO_TEXT_REPLY};

fn config() -> Config {
    Config {
        teloxide_token: "tg-token".to_string(),
        openapi_baseurl: "https://api.example.com/v1/".to_string(),
        openapi_token: "sk-test".to_string(),
        system_msg: "You are helpful.".to_string(),
        openai_model: "gpt-4".to_string(),
    }
}

fn inbound(text: Option<&str>) -> InboundMessage {
    InboundMessage { chat_id: -100123, message_id: 42, sender_id: Some(7), text: text.map(|t| t.to_string()) }
}

fn bot() -> Option<String> {
    Some("mybot".to_string())
}

fn answer(contents: &[&str]) -> ApiOutcome {
    let choices = contents
        .iter()
        .map(|c| Choice { message: ChatMessage { role: "assistant".to_string(), content: c.to_string() } })
        .collect();
    ApiOutcome::Answered { status: 200, body: Some(ChatCompletionResponse { choices }) }
}

#[test]
fn mention_of_mybot_is_relayed_and_answered() {
    let msg = inbound(Some("@mybot hello"));
    match handle_message(&msg, &config(), &bot()) {
        Action::Call(call) => {
            assert_eq!(call.url, "https://api.example.com/v1/chat/completions");
            assert_eq!(call.token, "sk-test");
            assert_eq!(call.request.model, "gpt-4");
            assert_eq!(call.request.messages.len(), 2);
            assert_eq!(call.request.messages[0].role, "system");
            assert_eq!(call.request.messages[0].content, "You are helpful.");
            assert_eq!(call.request.messages[1].role, "user");
            assert_eq!(call.request.messages[1].content, "@mybot hello");
        }
        other => panic!("expected a call, got {:?}", other),
    }
    let out = reply_for_outcome(&msg, &answer(&["Hi there!"]));
    assert_eq!(out.chat_id, -100123);
    assert_eq!(out.reply_to, 42);
    assert_eq!(out.text, "Hi there!");
}

#[test]
fn message_without_text_gets_notice() {
    for msg in [inbound(None), inbound(Some(""))] {
        for name in [bot(), None, Some(String::new())] {
            match handle_message(&msg, &config(), &name) {
                Action::Reply(out) => {
                    assert_eq!(out.chat_id, -100123);
                    assert_eq!(out.reply_to, 42);
                    assert_eq!(out.text, "i don't see text");
                    assert_eq!(out.text, NO_TEXT_REPLY);
                }
                other => panic!("expected the notice, got {:?}", other),
            }
        }
    }
}

#[test]
fn bot_without_username_ignores_everything() {
    for text in ["@mybot hello", "@ hi", "plain"] {
        let msg = inbound(Some(text));
        assert!(matches!(handle_message(&msg, &config(), &None), Action::Ignore));
        assert!(matches!(handle_message(&msg, &config(), &Some(String::new())), Action::Ignore));
    }
}

#[test]
fn unmentioned_text_is_ignored() {
    for text in ["hello", "mybot hello", "@MyBot hello", "@myb ot", " ", "@my"] {
        let msg = inbound(Some(text));
        assert!(matches!(handle_message(&msg, &config(), &bot()), Action::Ignore), "{}", text);
    }
}

#[test]
fn mention_is_plain_substring_containment() {
    for text in ["hey @mybotty", "x@mybot", "first line\n@mybot", "@mybot"] {
        let msg = inbound(Some(text));
        match handle_message(&msg, &config(), &bot()) {
            Action::Call(call) => assert_eq!(call.request.messages[1].content, text),
            other => panic!("expected a call for {:?}, got {:?}", text, other),
        }
    }
}

#[test]
fn user_text_is_not_trimmed() {
    let text = "  @mybot   what is 2+2?  \n";
    let msg = inbound(Some(text));
    match handle_message(&msg, &config(), &bot()) {
        Action::Call(call) => assert_eq!(call.request.messages[1].content, text),
        other => panic!("expected a call, got {:?}", other),
    }
}

#[test]
fn non_ascii_mention_is_found() {
    let msg = inbound(Some("grüß dich @bøt ✓"));
    let name = Some("bøt".to_string());
    assert!(matches!(handle_message(&msg, &config(), &name), Action::Call(_)));
    let other = Some("bot".to_string());
    assert!(matches!(handle_message(&msg, &config(), &other), Action::Ignore));
}

#[test]
fn first_candidate_is_sent_verbatim() {
    let msg = inbound(Some("@mybot hi"));
    let out = reply_for_outcome(&msg, &answer(&["  spaced out \n", "second"]));
    assert_eq!(out.text, "  spaced out \n");
    let out = reply_for_outcome(&msg, &answer(&[""]));
    assert_eq!(out.text, "");
}

#[test]
fn no_candidates_gives_empty_apology() {
    let msg = inbound(Some("@mybot hi"));
    let out = reply_for_outcome(&msg, &answer(&[]));
    assert_eq!(out.text, "Sorry, I couldn't get a response from the AI.");
    assert_eq!(out.text, EMPTY_REPLY);
    assert_eq!(out.reply_to, 42);
}

#[test]
fn failure_status_or_transport_gives_unavailable_apology() {
    let msg = inbound(Some("@mybot hi"));
    let expected = "Sorry, I couldn't process your request at the moment.";
    assert_eq!(expected, UNAVAILABLE_REPLY);
    assert_eq!(reply_for_outcome(&msg, &ApiOutcome::TransportFailed).text, expected);
    for status in [100u16, 199, 300, 301, 404, 429, 500, 503] {
        let outcome = ApiOutcome::Answered { status, body: None };
        assert_eq!(reply_for_outcome(&msg, &outcome).text, expected, "{}", status);
    }
}

#[test]
fn unparsable_success_body_gives_unreadable_apology() {
    let msg = inbound(Some("@mybot hi"));
    let expected = "Sorry, I couldn't understand the AI's response.";
    assert_eq!(expected, UNREADABLE_REPLY);
    for status in [200u16, 201, 204, 299] {
        let outcome = ApiOutcome::Answered { status, body: None };
        assert_eq!(reply_for_outcome(&msg, &outcome).text, expected, "{}", status);
    }
}

#[test]
fn any_success_status_reads_the_body() {
    let msg = inbound(Some("@mybot hi"));
    let outcome = ApiOutcome::Answered {
        status: 299,
        body: Some(ChatCompletionResponse {
            choices: vec![Choice { message: ChatMessage { role: "assistant".to_string(), content: "ok".to_string() } }],
        }),
    };
    assert_eq!(reply_for_outcome(&msg, &outcome).text, "ok");
}
