use vstd::prelude::*;
use vstd::string::StringExecFns;

use crate::error::Error;
use crate::provider;
use crate::provider::{Message, MessageView};

verus! {

/// One message of the request body of an OpenAI-compatible chat
/// completion call: a role name and the text content.
pub struct PayloadMessage {
    pub role: String,
    pub content: String,
}

/// The tool block of a request body.
pub struct PayloadTools {
    pub _type: ToolCallsType,
    pub function: Vec<PayloadToolCallFunction>,
}

/// One callable function offered to the backend.
pub struct PayloadToolCallFunction {
    pub name: String,
    pub parameters: Option<String>,
    pub description: Option<String>,
    pub strict: Option<bool>,
}

/// Streaming options of a request body.
pub struct PayloadStreamOptions {
    pub include_usage: bool,
}

/// The message part of one returned choice.
pub struct ResponseMessage {
    pub role: String,
    pub content: String,
    pub reasoning_content: Option<String>,
    pub tool_calls: Option<Vec<ResponseToolCalls>>,
}

/// Why the backend stopped generating.
#[derive(Clone, Copy, PartialEq, Eq, Structural, Debug)]
pub enum FinishReason {
    Stop,
    Eos,
    Length,
    ToolCalls,
}

/// One returned completion choice.
pub struct Choice {
    pub message: ResponseMessage,
}

/// Token counts reported by the backend for one call.
#[derive(Clone, Copy, PartialEq, Eq, Structural, Debug)]
pub struct Usage {
    pub completion_tokens: i64,
    pub prompt_tokens: i64,
    pub total_tokens: i64,
}

/// The kind of a tool call (only functions exist).
#[derive(Clone, Copy, PartialEq, Eq, Structural, Debug)]
pub enum ToolCallsType {
    Function,
}

/// A tool call requested by the backend.
pub struct ResponseToolCalls {
    pub id: String,
    pub _type: ToolCallsType,
}

/// The function part of a requested tool call.
pub struct ResponseToolCallFunction {
    pub name: String,
    pub arguments: String,
}

/// The decoded response body of a chat completion call.
pub struct Response {
    pub choices: Vec<Choice>,
    pub created: i64,
    pub id: String,
    pub model: String,
    pub object: Option<String>,
    pub usage: Option<Usage>,
}

/// The wire role name of a prompt message.
pub open spec fn role_name(m: MessageView) -> Seq<char> {
    match m {
        MessageView::User(_) => "user"@,
        MessageView::Assistant(_) => "assistant"@,
        MessageView::System(_) => "system"@,
    }
}

/// The text carried by a prompt message.
pub open spec fn content_of(m: MessageView) -> Seq<char> {
    match m {
        MessageView::User(t) => t,
        MessageView::Assistant(t) => t,
        MessageView::System(t) => t,
    }
}

/// Renders a prompt as the message list of a request body, tagging each
/// message with its wire role name.
pub fn to_payload_messages(msgs: &Vec<Message>) -> (r: Vec<PayloadMessage>)
    ensures
        r@.len() == msgs@.len(),
        forall|i: int|
            0 <= i < msgs@.len() ==> {
                &&& (#[trigger] r@[i]).role@ == role_name(msgs@[i]@)
                &&& r@[i].content@ == content_of(msgs@[i]@)
            },
{
    let mut r: Vec<PayloadMessage> = Vec::new();
    let n = msgs.len();
    let mut i: usize = 0;
    while i < n
        invariant
            0 <= i <= n,
            n == msgs@.len(),
            r@.len() == i,
            forall|j: int|
                0 <= j < i ==> {
                    &&& (#[trigger] r@[j]).role@ == role_name(msgs@[j]@)
                    &&& r@[j].content@ == content_of(msgs@[j]@)
                },
        decreases n - i,
    {
        let m = match &msgs[i] {
            Message::User(t) => PayloadMessage {
                role: String::from_str("user"),
                content: t.clone(),
            },
            Message::Assistant(t) => PayloadMessage {
                role: String::from_str("assistant"),
                content: t.clone(),
            },
            Message::System(t) => PayloadMessage {
                role: String::from_str("system"),
                content: t.clone(),
            },
        };
        r.push(m);
        i += 1;
    }
    r
}

/// Picks the generated text and the usage statistics out of a decoded
/// response: the content of the first choice, failing on an empty
/// choice list, and the token counts narrowed to machine integers.
pub fn extract_response(resp: &Response) -> (r: Result<(String, Option<provider::Usage>), Error>)
    ensures
        match r {
            Ok(p) => {
                &&& resp.choices@.len() > 0
                &&& p.0@ == resp.choices@[0].message.content@
                &&& match (p.1, resp.usage) {
                    (Some(u), Some(w)) => {
                        &&& u.completion == w.completion_tokens as usize
                        &&& u.prompt == w.prompt_tokens as usize
                        &&& 0 <= w.completion_tokens <= usize::MAX ==> u.completion
                            == w.completion_tokens
                        &&& 0 <= w.prompt_tokens <= usize::MAX ==> u.prompt == w.prompt_tokens
                    },
                    (None, None) => true,
                    _ => false,
                }
            },
            Err(e) => {
                &&& resp.choices@.len() == 0
                &&& e == Error::ProviderFailure
            },
        },
{
    if resp.choices.len() == 0 {
        return Err(Error::ProviderFailure);
    }
    let text = resp.choices[0].message.content.clone();
    let usage = match resp.usage {
        Some(w) => Some(
            provider::Usage {
                completion: #[verifier::truncate] (w.completion_tokens as usize),
                prompt: #[verifier::truncate] (w.prompt_tokens as usize),
            },
        ),
        None => None,
    };
    Ok((text, usage))
}

} // verus!
