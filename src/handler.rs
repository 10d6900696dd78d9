//! The per-message decisions of the relay: whether to answer an inbound chat
//! message, with what, and which completion call to make for it.
use vstd::prelude::*;
use vstd::string::*;
use crate::completion::{
    build_request, endpoint_spec, endpoint_url, is_request_for, reply_spec, reply_text,
    ApiOutcome, ChatCompletionRequest,
};
use crate::config::Config;
use crate::text::{contains_str, occurs_in};

verus! {

broadcast use vstd::string::group_string_axioms;

/// Reply to a message that carries no text.
pub const NO_TEXT_REPLY: &'static str = "i don't see text";

/// A message delivered by the chat platform.
#[derive(Clone, Debug)]
pub struct InboundMessage {
    pub chat_id: i64,
    pub message_id: i32,
    pub sender_id: Option<u64>,
    pub text: Option<String>,
}

/// A message to send to a chat, as a reply to one of its messages.
#[derive(Clone, Debug)]
pub struct OutboundMessage {
    pub chat_id: i64,
    pub reply_to: i32,
    pub text: String,
}

/// A call to the completion service: the body is posted to `url` with `token`
/// as bearer credential.
#[derive(Clone, Debug)]
pub struct ApiCall {
    pub url: String,
    pub token: String,
    pub request: ChatCompletionRequest,
}

/// What to do with an inbound message.
#[derive(Clone, Debug)]
pub enum Action {
    /// Send nothing.
    Ignore,
    /// Send this message and stop.
    Reply(OutboundMessage),
    /// Make this call; its outcome decides the reply.
    Call(ApiCall),
}

/// `out` answers `msg` in its own chat with `text`.
pub open spec fn is_reply_to(out: OutboundMessage, msg: InboundMessage, text: Seq<char>) -> bool {
    &&& out.chat_id == msg.chat_id
    &&& out.reply_to == msg.message_id
    &&& out.text@ == text
}

/// The token that mentions a bot named `username`.
pub open spec fn mention_spec(username: Seq<char>) -> Seq<char> {
    "@"@ + username
}

/// The message carries a non-empty text body.
pub open spec fn has_text(text: Option<String>) -> bool {
    text is Some && text->0@.len() > 0
}

/// The bot has a non-empty username.
pub open spec fn has_username(username: Option<String>) -> bool {
    username is Some && username->0@.len() > 0
}

/// `text` mentions the bot.
pub open spec fn is_mentioned(text: Seq<char>, username: Option<String>) -> bool {
    has_username(username) && occurs_in(text, mention_spec(username->0@))
}

/// `call` is the completion call that `cfg` prescribes for `text`.
pub open spec fn is_call_for(call: ApiCall, cfg: Config, text: Seq<char>) -> bool {
    &&& call.url@ == endpoint_spec(cfg.openapi_baseurl@)
    &&& call.token@ == cfg.openapi_token@
    &&& is_request_for(call.request, cfg.openai_model@, cfg.system_msg@, text)
}

/// The token that mentions a bot named `username`.
pub fn mention_token(username: &str) -> (r: String)
    ensures
        r@ == mention_spec(username@),
{
    let mut m = String::from_str("@");
    m.append(username);
    m
}

/// A reply to `msg` in its own chat.
fn reply_to(msg: &InboundMessage, text: String) -> (r: OutboundMessage)
    ensures
        is_reply_to(r, *msg, text@),
{
    OutboundMessage { chat_id: msg.chat_id, reply_to: msg.message_id, text }
}

/// Decides what to do with `msg`, for a bot named `username` (if it has a
/// name) running with `cfg`.
///
/// A message whose text is absent or empty is answered with a fixed notice.
/// Otherwise the message is ignored unless the bot has a name and the text
/// contains `@` followed by it; then the text, untouched, goes to the
/// completion service under the configured model, after the configured system
/// prompt.
pub fn handle_message(msg: &InboundMessage, cfg: &Config, username: &Option<String>) -> (r: Action)
    ensures
        !has_text(msg.text) ==> (r matches Action::Reply(out) && is_reply_to(
            out,
            *msg,
            NO_TEXT_REPLY@,
        )),
        has_text(msg.text) && !has_username(*username) ==> r is Ignore,
        has_text(msg.text) && !is_mentioned(msg.text->0@, *username) ==> r is Ignore,
        has_text(msg.text) && is_mentioned(msg.text->0@, *username) ==> (r matches Action::Call(
            call,
        ) && is_call_for(call, *cfg, msg.text->0@)),
{
    let text = match &msg.text {
        Some(t) if !t.as_str().is_empty() => t,
        _ => {
            return Action::Reply(reply_to(msg, String::from_str(NO_TEXT_REPLY)));
        },
    };
    let name = match username {
        Some(n) => n,
        None => {
            return Action::Ignore;
        },
    };
    if name.as_str().is_empty() {
        return Action::Ignore;
    }
    let mention = mention_token(name.as_str());
    if !contains_str(text.as_str(), mention.as_str()) {
        return Action::Ignore;
    }
    let request = build_request(cfg.openai_model.as_str(), cfg.system_msg.as_str(), text.as_str());
    Action::Call(
        ApiCall {
            url: endpoint_url(cfg.openapi_baseurl.as_str()),
            token: cfg.openapi_token.clone(),
            request,
        },
    )
}

/// The reply to `msg` once its completion call ended with `outcome`.
pub fn reply_for_outcome(msg: &InboundMessage, outcome: &ApiOutcome) -> (r: OutboundMessage)
    ensures
        is_reply_to(r, *msg, reply_spec(*outcome)),
{
    reply_to(msg, reply_text(outcome))
}

} // verus!
