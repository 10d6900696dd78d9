//! The exchange with the completion service: the request that is sent, the
//! answer that comes back, and the chat reply that each answer yields.
use vstd::prelude::*;
use vstd::string::*;
use crate::text::{trim_end_char, trim_end_matches_char};

verus! {

broadcast use vstd::string::group_string_axioms;

/// Role of the entry that carries the configured instructions.
pub const SYSTEM_ROLE: &'static str = "system";

/// Role of the entry that carries the chat user's text.
pub const USER_ROLE: &'static str = "user";

/// Path of the completion endpoint below the service's base URL.
pub const COMPLETIONS_PATH: &'static str = "/chat/completions";

/// Reply when the service could not be reached or answered with a failure status.
pub const UNAVAILABLE_REPLY: &'static str = "Sorry, I couldn't process your request at the moment.";

/// Reply when a successful answer does not have the expected shape.
pub const UNREADABLE_REPLY: &'static str = "Sorry, I couldn't understand the AI's response.";

/// Reply when a successful answer holds no candidate.
pub const EMPTY_REPLY: &'static str = "Sorry, I couldn't get a response from the AI.";

/// One entry of a chat-style conversation.
#[derive(Clone, Debug)]
pub struct ChatMessage {
    pub role: String,
    pub content: String,
}

/// The body of a completion request.
#[derive(Clone, Debug)]
pub struct ChatCompletionRequest {
    pub model: String,
    pub messages: Vec<ChatMessage>,
}

/// One candidate completion.
#[derive(Clone, Debug)]
pub struct Choice {
    pub message: ChatMessage,
}

/// The body of a successful completion answer.
#[derive(Clone, Debug)]
pub struct ChatCompletionResponse {
    pub choices: Vec<Choice>,
}

/// What came of one call to the completion service.
#[derive(Clone, Debug)]
pub enum ApiOutcome {
    /// The request never got an answer (connection, TLS, timeout).
    TransportFailed,
    /// The service answered with `status`; `body` is the parsed answer when
    /// the status is a success and the body has the expected shape.
    Answered { status: u16, body: Option<ChatCompletionResponse> },
}

/// HTTP success: a status in the 2xx range.
pub open spec fn is_success_spec(status: u16) -> bool {
    200 <= status < 300
}

/// Whether `status` is a success status (2xx).
pub fn is_success_status(status: u16) -> (r: bool)
    ensures
        r == is_success_spec(status),
{
    200 <= status && status < 300
}

/// The endpoint below `base`: trailing slashes of `base` removed, then the path.
pub open spec fn endpoint_spec(base: Seq<char>) -> Seq<char> {
    trim_end_char(base, '/') + COMPLETIONS_PATH@
}

/// The URL that completion requests are posted to.
pub fn endpoint_url(base: &str) -> (r: String)
    ensures
        r@ == endpoint_spec(base@),
{
    let mut url = String::from_str(trim_end_matches_char(base, '/'));
    url.append(COMPLETIONS_PATH);
    url
}

/// The request holds exactly the system entry, then the user entry.
pub open spec fn is_request_for(
    req: ChatCompletionRequest,
    model: Seq<char>,
    system: Seq<char>,
    text: Seq<char>,
) -> bool {
    &&& req.model@ == model
    &&& req.messages@.len() == 2
    &&& req.messages@[0].role@ == SYSTEM_ROLE@
    &&& req.messages@[0].content@ == system
    &&& req.messages@[1].role@ == USER_ROLE@
    &&& req.messages@[1].content@ == text
}

/// The completion request for `text` under the given model and system prompt.
pub fn build_request(model: &str, system: &str, text: &str) -> (r: ChatCompletionRequest)
    ensures
        is_request_for(r, model@, system@, text@),
{
    let mut messages: Vec<ChatMessage> = Vec::new();
    messages.push(ChatMessage { role: String::from_str(SYSTEM_ROLE), content: String::from_str(system) });
    messages.push(ChatMessage { role: String::from_str(USER_ROLE), content: String::from_str(text) });
    ChatCompletionRequest { model: String::from_str(model), messages }
}

/// The text sent back to the chat for an outcome of the completion call.
pub open spec fn reply_spec(outcome: ApiOutcome) -> Seq<char> {
    match outcome {
        ApiOutcome::TransportFailed => UNAVAILABLE_REPLY@,
        ApiOutcome::Answered { status, body } => {
            if !is_success_spec(status) {
                UNAVAILABLE_REPLY@
            } else {
                match body {
                    None => UNREADABLE_REPLY@,
                    Some(resp) => {
                        if resp.choices@.len() == 0 {
                            EMPTY_REPLY@
                        } else {
                            resp.choices@[0].message.content@
                        }
                    },
                }
            }
        },
    }
}

/// The text sent back to the chat for `outcome`: the first candidate's content
/// verbatim, or one of three fixed apologies.
pub fn reply_text(outcome: &ApiOutcome) -> (r: String)
    ensures
        r@ == reply_spec(*outcome),
{
    match outcome {
        ApiOutcome::TransportFailed => String::from_str(UNAVAILABLE_REPLY),
        ApiOutcome::Answered { status, body } => {
            if !is_success_status(*status) {
                String::from_str(UNAVAILABLE_REPLY)
            } else {
                match body {
                    None => String::from_str(UNREADABLE_REPLY),
                    Some(resp) => {
                        if resp.choices.len() == 0 {
                            String::from_str(EMPTY_REPLY)
                        } else {
                            resp.choices[0].message.content.clone()
                        }
                    },
                }
            }
        },
    }
}

/// Every reply is either the first candidate's content or one of the three
/// fixed apologies; raw failure details never reach the chat.
pub proof fn lemma_reply_is_candidate_or_apology(outcome: ApiOutcome)
    ensures
        reply_spec(outcome) == UNAVAILABLE_REPLY@ || reply_spec(outcome) == UNREADABLE_REPLY@
            || reply_spec(outcome) == EMPTY_REPLY@ || (outcome matches ApiOutcome::Answered {
            status,
            body: Some(resp),
        } && is_success_spec(status) && resp.choices@.len() > 0 && reply_spec(outcome)
            == resp.choices@[0].message.content@),
{
}

/// The three apologies are distinct and none is empty, so a reader of the
/// chat can tell the failure kinds apart.
pub proof fn lemma_apologies_distinct()
    ensures
        UNAVAILABLE_REPLY@ != UNREADABLE_REPLY@,
        UNAVAILABLE_REPLY@ != EMPTY_REPLY@,
        UNREADABLE_REPLY@ != EMPTY_REPLY@,
        UNAVAILABLE_REPLY@.len() > 0,
        UNREADABLE_REPLY@.len() > 0,
        EMPTY_REPLY@.len() > 0,
{
    reveal_strlit("Sorry, I couldn't process your request at the moment.");
    reveal_strlit("Sorry, I couldn't understand the AI's response.");
    reveal_strlit("Sorry, I couldn't get a response from the AI.");
    assert(UNAVAILABLE_REPLY@[18] != UNREADABLE_REPLY@[18]);
    assert(UNAVAILABLE_REPLY@[18] != EMPTY_REPLY@[18]);
    assert(UNREADABLE_REPLY@[18] != EMPTY_REPLY@[18]);
}

} // verus!
