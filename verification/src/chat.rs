//! The decisions around the text-generation API: the startup
//! configuration holding the credential and the model identifier, the
//! system prompts assembled for the chat and audit endpoints, the blank
//! checks that answer without any network call, and the classification of
//! whatever the API sent back. The network call itself is made outside
//! this crate and its outcome handed in as an `AgentOutcome` value.

use vstd::prelude::*;
use crate::text::{blank, is_blank};

verus! {

/// The configuration the API-calling side is constructed with: the
/// credential read once at startup and the fixed model identifier. It is
/// passed explicitly to whatever makes the network calls; nothing else is
/// shared between requests.
pub struct AgentConfig {
    pub api_key: String,
    pub model: String,
}

/// Builds the startup configuration from the secret store's answer: with
/// the credential present the service starts, addressed at the fixed
/// model; without it startup fails before any request is served.
pub fn startup_config(secret: Option<String>) -> (r: Result<AgentConfig, &'static str>)
    ensures
        r is Ok <==> secret is Some,
        secret matches Some(key) ==> (r matches Ok(c) && c.api_key@ == key@ && c.model@
            == "gpt-4o-mini"@),
        secret is None ==> (r matches Err(m) && m@ == "OpenAI API KEY is not set"@),
{
    match secret {
        Some(key) => Ok(AgentConfig { api_key: key, model: String::from_str("gpt-4o-mini") }),
        None => Err("OpenAI API KEY is not set"),
    }
}

/// The system prompt of the chat endpoint: the fixed expert preamble, the
/// question, and the template's closing indentation.
pub open spec fn chat_prompt_of(question: Seq<char>) -> Seq<char> {
    "You are blockchain expert specializing in Aptos Move smart contracts. \n        Answer this question shortly:\n        "@
        + question + "\n        "@
}

/// The system prompt of the audit endpoint: the fixed expert preamble, the
/// code under audit, and the template's closing indentation.
pub open spec fn audit_prompt_of(code: Seq<char>) -> Seq<char> {
    "You are blockchain expert specializing in Aptos Move smart contracts. \n        Audit this code for vulnerabilities:\n        "@
        + code + "\n        "@
}

/// What a handler does with user-supplied text: answer at once with a
/// fixed reply, or send a prompt to the text-generation API.
pub enum AgentStep {
    Reply(String),
    Query(String),
}

/// Decides the chat endpoint's step: a blank question is answered at once,
/// with no network call; anything else becomes the chat prompt to send.
pub fn chat_step(question: &str) -> (r: AgentStep)
    ensures
        is_blank(question@) ==> (r matches AgentStep::Reply(m) && m@ == "Empty question"@),
        !is_blank(question@) ==> (r matches AgentStep::Query(p) && p@ == chat_prompt_of(
            question@,
        )),
{
    if blank(question) {
        AgentStep::Reply(String::from_str("Empty question"))
    } else {
        let mut p = String::from_str(
            "You are blockchain expert specializing in Aptos Move smart contracts. \n        Answer this question shortly:\n        ",
        );
        p.append(question);
        p.append("\n        ");
        AgentStep::Query(p)
    }
}

/// Decides the audit endpoint's step: blank code is answered at once, with
/// no network call; anything else becomes the audit prompt to send.
pub fn audit_step(code: &str) -> (r: AgentStep)
    ensures
        is_blank(code@) ==> (r matches AgentStep::Reply(m) && m@ == "Empty code"@),
        !is_blank(code@) ==> (r matches AgentStep::Query(p) && p@ == audit_prompt_of(code@)),
{
    if blank(code) {
        AgentStep::Reply(String::from_str("Empty code"))
    } else {
        let mut p = String::from_str(
            "You are blockchain expert specializing in Aptos Move smart contracts. \n        Audit this code for vulnerabilities:\n        ",
        );
        p.append(code);
        p.append("\n        ");
        AgentStep::Query(p)
    }
}

/// What came back from one API call: a completion that may or may not
/// carry text, or a transport or API failure.
pub enum AgentOutcome {
    Answer(Option<String>),
    ApiError,
}

/// Turns an API call's outcome into the reply text: the completion's text
/// verbatim when there is one, a fixed sentinel when the completion was
/// empty, and a fixed sentinel -- not a propagated error -- when the call
/// failed.
pub fn agent_reply(outcome: AgentOutcome) -> (r: String)
    ensures
        outcome matches AgentOutcome::Answer(Some(text)) ==> r@ == text@,
        outcome matches AgentOutcome::Answer(None::<String>) ==> r@ == "No response"@,
        outcome is ApiError ==> r@ == "Error response"@,
{
    match outcome {
        AgentOutcome::Answer(Some(text)) => text,
        AgentOutcome::Answer(None) => String::from_str("No response"),
        AgentOutcome::ApiError => String::from_str("Error response"),
    }
}

/// The audit endpoint's result list. The service obtains the API's audit
/// reply and then returns no vulnerabilities: the reply has no agreed
/// machine-readable shape yet, so it is logged by the caller and dropped
/// here, and the list is empty whatever the reply said. A future response
/// format would be parsed at this point.
pub fn audit_vulnerabilities(reply: &str) -> (r: Vec<String>)
    ensures
        r@.len() == 0,
{
    let _ = reply;
    let r: Vec<String> = Vec::new();
    r
}

} // verus!
