//! What a worker is asked, and what is said when it does not answer.

use crate::mesh::quic_http::QuicHttpError;
use crate::number::{decimal, decimal_text};
use crate::text::concat;
use vstd::prelude::*;

verus! {

/// A member of a request. `V` holds what is passed on as it came.
#[derive(Debug, Clone, PartialEq, Eq)]
pub enum BodyValue<V> {
    Given(V),
    Number(u32),
    Flag(bool),
}

/// What a worker is asked: the conversation, how to sample and the tools where
/// there are any. Workers do not stream, and ask no other worker.
pub open spec fn request_members<V>(
    model: V,
    messages: V,
    tools: Option<V>,
    max_tokens: u32,
    temperature: V,
    top_p: V,
) -> Seq<(&'static str, BodyValue<V>)> {
    let always = seq![("model", BodyValue::Given(model))].push(
        ("messages", BodyValue::Given(messages)),
    ).push(("max_tokens", BodyValue::Number(max_tokens))).push(
        ("temperature", BodyValue::Given(temperature)),
    ).push(("top_p", BodyValue::Given(top_p))).push(("stream", BodyValue::Flag(false))).push(
        ("mesh_hooks", BodyValue::Flag(false)),
    );
    match tools {
        Some(tools) => always.push(("tools", BodyValue::Given(tools))),
        None => always,
    }
}

/// What a worker is asked.
pub fn completion_request<V>(
    model: V,
    messages: V,
    tools: Option<V>,
    max_tokens: u32,
    temperature: V,
    top_p: V,
) -> (members: Vec<(&'static str, BodyValue<V>)>)
    ensures
        members@ == request_members(model, messages, tools, max_tokens, temperature, top_p),
{
    let mut members: Vec<(&'static str, BodyValue<V>)> = Vec::new();
    members.push(("model", BodyValue::Given(model)));
    members.push(("messages", BodyValue::Given(messages)));
    members.push(("max_tokens", BodyValue::Number(max_tokens)));
    members.push(("temperature", BodyValue::Given(temperature)));
    members.push(("top_p", BodyValue::Given(top_p)));
    members.push(("stream", BodyValue::Flag(false)));
    members.push(("mesh_hooks", BodyValue::Flag(false)));
    if let Some(tools) = tools {
        members.push(("tools", BodyValue::Given(tools)));
    }
    members
}

/// How many characters of a refusal are repeated.
pub const EXCERPT_CHARS: usize = 200;

impl QuicHttpError {
    /// What is said of the error. `excerpt` is the beginning of the response.
    pub fn message(&self, excerpt: &str) -> (message: String)
        ensures
            message@ == match *self {
                QuicHttpError::Malformed => "malformed HTTP response"@,
                QuicHttpError::Status { status, .. } => "HTTP "@ + decimal(status as nat) + ": "@
                    + excerpt@,
                QuicHttpError::Parse(error) => "parse: "@ + error@,
            },
    {
        match self {
            QuicHttpError::Malformed => "malformed HTTP response".to_owned(),
            QuicHttpError::Status { status, .. } => {
                let number = decimal_text(*status as u64);
                concat(concat(concat("HTTP ".to_owned(), number.as_str()), ": "), excerpt)
            },
            QuicHttpError::Parse(error) => concat("parse: ".to_owned(), error.as_str()),
        }
    }
}

/// A worker is asked for the model and the messages that were given, with the
/// limit and the sampling, never for a stream and never to ask others; the tools
/// come last, where there are any.
pub proof fn law_workers_are_asked_plainly<V>(
    model: V,
    messages: V,
    tools: Option<V>,
    max_tokens: u32,
    temperature: V,
    top_p: V,
)
    ensures
        ({
            let members = request_members(model, messages, tools, max_tokens, temperature, top_p);
            &&& members[0] == ("model", BodyValue::Given(model))
            &&& members[1] == ("messages", BodyValue::Given(messages))
            &&& members[2] == ("max_tokens", BodyValue::<V>::Number(max_tokens))
            &&& members[3] == ("temperature", BodyValue::Given(temperature))
            &&& members[4] == ("top_p", BodyValue::Given(top_p))
            &&& members[5] == ("stream", BodyValue::<V>::Flag(false))
            &&& members[6] == ("mesh_hooks", BodyValue::<V>::Flag(false))
            &&& tools is None ==> members.len() == 7
            &&& tools matches Some(given) ==> members.len() == 8 && members[7] == (
                "tools",
                BodyValue::Given(given),
            )
        }),
{
}

} // verus!
