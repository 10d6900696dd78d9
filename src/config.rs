//! The settings that the relay runs with, and how they are assembled from the
//! values looked up for each setting name.
use vstd::prelude::*;
use vstd::string::*;

verus! {

broadcast use vstd::string::group_string_axioms;

/// Name of the setting that holds the chat platform's bot token.
pub const TELOXIDE_TOKEN_VAR: &'static str = "TELOXIDE_TOKEN";

/// Name of the setting that holds the completion service's base URL.
pub const OPENAPI_BASEURL_VAR: &'static str = "OPENAPI_BASEURL";

/// Name of the setting that holds the completion service's bearer token.
pub const OPENAPI_TOKEN_VAR: &'static str = "OPENAPI_TOKEN";

/// Name of the setting that holds the system prompt.
pub const SYSTEM_MSG_VAR: &'static str = "SYSTEM_MSG";

/// Name of the setting that holds the model identifier.
pub const OPENAI_MODEL_VAR: &'static str = "OPENAI_MODEL";

/// Process-wide settings, read once at startup and never changed.
#[derive(Clone, Debug)]
pub struct Config {
    pub teloxide_token: String,
    pub openapi_baseurl: String,
    pub openapi_token: String,
    pub system_msg: String,
    pub openai_model: String,
}

/// The error text for a setting `name` that could not be read, for `reason`.
pub open spec fn missing_setting_spec(name: Seq<char>, reason: Seq<char>) -> Seq<char> {
    "Environment variable '"@ + name + "' not found: "@ + reason
}

/// The error text for a setting `name` that could not be read, for `reason`.
pub fn missing_setting_message(name: &str, reason: &str) -> (r: String)
    ensures
        r@ == missing_setting_spec(name@, reason@),
{
    let mut m = String::from_str("Environment variable '");
    m.append(name);
    m.append("' not found: ");
    m.append(reason);
    m
}

/// A looked-up value, or the error message for its setting `name`.
fn require_setting(name: &str, value: Result<String, String>) -> (r: Result<String, String>)
    ensures
        value is Ok ==> r is Ok && r->Ok_0@ == value->Ok_0@,
        value is Err ==> r is Err && r->Err_0@ == missing_setting_spec(name@, value->Err_0@),
{
    match value {
        Ok(v) => Ok(v),
        Err(reason) => Err(missing_setting_message(name, reason.as_str())),
    }
}

/// The error for a lookup that failed under setting `name`.
pub open spec fn lookup_error(name: Seq<char>, value: Result<String, String>) -> Seq<char> {
    missing_setting_spec(name, value->Err_0@)
}

impl Config {
    /// Builds the settings from the value looked up for each setting name:
    /// `Ok` with the text found, or `Err` with the reason it could not be read.
    /// The first failed lookup, in field order, is reported.
    pub fn from_settings(
        teloxide_token: Result<String, String>,
        openapi_baseurl: Result<String, String>,
        openapi_token: Result<String, String>,
        system_msg: Result<String, String>,
        openai_model: Result<String, String>,
    ) -> (r: Result<Config, String>)
        ensures
            (r is Ok) == (teloxide_token is Ok && openapi_baseurl is Ok && openapi_token is Ok
                && system_msg is Ok && openai_model is Ok),
            r is Ok ==> {
                let c = r->Ok_0;
                &&& c.teloxide_token@ == teloxide_token->Ok_0@
                &&& c.openapi_baseurl@ == openapi_baseurl->Ok_0@
                &&& c.openapi_token@ == openapi_token->Ok_0@
                &&& c.system_msg@ == system_msg->Ok_0@
                &&& c.openai_model@ == openai_model->Ok_0@
            },
            teloxide_token is Err ==> r is Err && r->Err_0@ == lookup_error(
                TELOXIDE_TOKEN_VAR@,
                teloxide_token,
            ),
            teloxide_token is Ok && openapi_baseurl is Err ==> r is Err && r->Err_0@
                == lookup_error(OPENAPI_BASEURL_VAR@, openapi_baseurl),
            teloxide_token is Ok && openapi_baseurl is Ok && openapi_token is Err ==> r is Err
                && r->Err_0@ == lookup_error(OPENAPI_TOKEN_VAR@, openapi_token),
            teloxide_token is Ok && openapi_baseurl is Ok && openapi_token is Ok && system_msg is Err
                ==> r is Err && r->Err_0@ == lookup_error(SYSTEM_MSG_VAR@, system_msg),
            teloxide_token is Ok && openapi_baseurl is Ok && openapi_token is Ok && system_msg is Ok
                && openai_model is Err ==> r is Err && r->Err_0@ == lookup_error(
                OPENAI_MODEL_VAR@,
                openai_model,
            ),
    {
        let teloxide_token = match require_setting(TELOXIDE_TOKEN_VAR, teloxide_token) {
            Ok(v) => v,
            Err(e) => return Err(e),
        };
        let openapi_baseurl = match require_setting(OPENAPI_BASEURL_VAR, openapi_baseurl) {
            Ok(v) => v,
            Err(e) => return Err(e),
        };
        let openapi_token = match require_setting(OPENAPI_TOKEN_VAR, openapi_token) {
            Ok(v) => v,
            Err(e) => return Err(e),
        };
        let system_msg = match require_setting(SYSTEM_MSG_VAR, system_msg) {
            Ok(v) => v,
            Err(e) => return Err(e),
        };
        let openai_model = match require_setting(OPENAI_MODEL_VAR, openai_model) {
            Ok(v) => v,
            Err(e) => return Err(e),
        };
        Ok(Config { teloxide_token, openapi_baseurl, openapi_token, system_msg, openai_model })
    }
}

} // verus!
