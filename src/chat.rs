use vstd::prelude::*;

use crate::error::BackendError;
use crate::params::{ChatMessage, LLaMACPPRunParams};
use crate::text::{replace, replace_all};

verus! {

/// The code around the cursor and the context retrieved for it.
#[derive(Debug, Clone, PartialEq, Eq)]
pub struct Prompt {
    pub context: String,
    pub code: String,
}

pub open spec fn context_marker() -> Seq<char> {
    seq!['{', 'c', 'o', 'n', 't', 'e', 'x', 't', '}']
}

pub open spec fn code_marker() -> Seq<char> {
    seq!['{', 'c', 'o', 'd', 'e', '}']
}

/// A turn's text with the prompt merged in: each `{context}` becomes the
/// retrieved context, then each `{code}` becomes the code.
pub open spec fn filled(content: Seq<char>, prompt: Prompt) -> Seq<char> {
    replace_all(replace_all(content, context_marker(), prompt.context@), code_marker(), prompt.code@)
}

/// `out` is `turns` in the same order, with the same roles, each text filled
/// from `prompt`.
pub open spec fn merged(turns: Seq<ChatMessage>, prompt: Prompt, out: Seq<ChatMessage>) -> bool {
    &&& out.len() == turns.len()
    &&& forall|i: int|
        0 <= i < turns.len() ==> (#[trigger] out[i]).role == turns[i].role && out[i].content@ == filled(
            turns[i].content@,
            prompt,
        )
}

/// Merges the prompt into the chat turns, as `merged` says.
pub fn format_chat_messages(turns: &Vec<ChatMessage>, prompt: &Prompt) -> (r: Vec<ChatMessage>)
    ensures
        merged(turns@, *prompt, r@),
{
    let context_key = "{context}";
    let code_key = "{code}";
    proof {
        reveal_strlit("{context}");
        reveal_strlit("{code}");
        assert(context_key@ =~= context_marker());
        assert(code_key@ =~= code_marker());
    }
    let mut out: Vec<ChatMessage> = Vec::new();
    let mut i: usize = 0;
    while i < turns.len()
        invariant
            context_key@ == context_marker(),
            code_key@ == code_marker(),
            i <= turns@.len(),
            out@.len() == i,
            forall|k: int|
                0 <= k < i ==> (#[trigger] out@[k]).role == turns@[k].role && out@[k].content@
                    == filled(turns@[k].content@, *prompt),
        decreases turns@.len() - i,
    {
        let with_context = replace(turns[i].content.as_str(), context_key, prompt.context.as_str());
        let content = replace(with_context.as_str(), code_key, prompt.code.as_str());
        out.push(ChatMessage { role: turns[i].role, content });
        i = i + 1;
    }
    out
}

/// How far the prompt of one request has been resolved. Each state but the
/// two final ones names what the engine is asked next.
#[derive(Debug)]
pub enum Resolution {
    /// The prompt to generate from.
    Ready(String),
    /// Ask the engine for its beginning-of-sequence token.
    NeedBosToken { template: String, messages: Vec<ChatMessage> },
    /// Ask the engine for its end-of-sequence token.
    NeedEosToken { template: String, messages: Vec<ChatMessage>, bos_token: String },
    /// Render the custom template against the turns and the two tokens.
    NeedRender {
        template: String,
        messages: Vec<ChatMessage>,
        bos_token: String,
        eos_token: String,
    },
    /// Ask the engine to apply its built-in template, by name or its default.
    NeedNamedTemplate { messages: Vec<ChatMessage>, chat_format: Option<String> },
    /// Resolution failed.
    Failed(BackendError),
}

impl Resolution {
    /// The state after the engine has answered the current question with
    /// `reply` (text, or a failure message).
    pub open spec fn advanced(self, reply: Result<String, String>) -> Resolution {
        match self {
            Resolution::NeedBosToken { template, messages } => match reply {
                Ok(bos_token) => Resolution::NeedEosToken { template, messages, bos_token },
                Err(e) => Resolution::Failed(BackendError::MissingSpecialToken(e)),
            },
            Resolution::NeedEosToken { template, messages, bos_token } => match reply {
                Ok(eos_token) => Resolution::NeedRender { template, messages, bos_token, eos_token },
                Err(e) => Resolution::Failed(BackendError::MissingSpecialToken(e)),
            },
            Resolution::NeedRender { .. } => match reply {
                Ok(text) => Resolution::Ready(text),
                Err(e) => Resolution::Failed(BackendError::TemplateRenderError(e)),
            },
            Resolution::NeedNamedTemplate { .. } => match reply {
                Ok(text) => Resolution::Ready(text),
                Err(e) => Resolution::Failed(BackendError::EngineTemplateError(e)),
            },
            _ => self,
        }
    }

    /// Takes the engine's answer to the current question.
    pub fn advance(self, reply: Result<String, String>) -> (r: Resolution)
        ensures
            r == self.advanced(reply),
    {
        match self {
            Resolution::NeedBosToken { template, messages } => match reply {
                Ok(bos_token) => Resolution::NeedEosToken { template, messages, bos_token },
                Err(e) => Resolution::Failed(BackendError::MissingSpecialToken(e)),
            },
            Resolution::NeedEosToken { template, messages, bos_token } => match reply {
                Ok(eos_token) => Resolution::NeedRender { template, messages, bos_token, eos_token },
                Err(e) => Resolution::Failed(BackendError::MissingSpecialToken(e)),
            },
            Resolution::NeedRender { .. } => match reply {
                Ok(text) => Resolution::Ready(text),
                Err(e) => Resolution::Failed(BackendError::TemplateRenderError(e)),
            },
            Resolution::NeedNamedTemplate { .. } => match reply {
                Ok(text) => Resolution::Ready(text),
                Err(e) => Resolution::Failed(BackendError::EngineTemplateError(e)),
            },
            other => other,
        }
    }
}

/// The first state of resolving `prompt` under `params`: the code itself when
/// there are no chat turns; else the merged turns, headed for the custom
/// template when one is given, and for the named template otherwise.
pub open spec fn resolution_begun(prompt: Prompt, params: LLaMACPPRunParams, r: Resolution) -> bool {
    match params.messages {
        None => r == Resolution::Ready(prompt.code),
        Some(turns) => match params.chat_template {
            Some(t) => match r {
                Resolution::NeedBosToken { template, messages } => template == t && merged(
                    turns@,
                    prompt,
                    messages@,
                ),
                _ => false,
            },
            None => match r {
                Resolution::NeedNamedTemplate { messages, chat_format } => chat_format
                    == params.chat_format && merged(turns@, prompt, messages@),
                _ => false,
            },
        },
    }
}

} // verus!
