use vstd::prelude::*;

use crate::error::{BackendError, PayloadField};
use crate::json::{field, find_field, members, text_field, text_of, Json, JsonNumber};
use crate::text::same_text;

verus! {

/// The number of new tokens asked of the engine when a request does not say.
pub fn max_new_tokens_default() -> (r: usize)
    ensures
        r == 32,
{
    32
}

/// Fill-in-middle markers, handed to the engine untouched.
#[derive(Debug, Clone, PartialEq, Eq)]
pub struct Fim {
    pub start: String,
    pub middle: String,
    pub end: String,
}

/// Who speaks a chat turn.
#[derive(Debug, Clone, Copy, PartialEq, Eq, Structural)]
pub enum Role {
    System,
    User,
    Assistant,
}

/// One turn of a conversation.
#[derive(Debug, Clone, PartialEq, Eq)]
pub struct ChatMessage {
    pub role: Role,
    pub content: String,
}

/// The typed run-time parameters of one request.
#[derive(Debug, Clone, PartialEq, Eq)]
pub struct LLaMACPPRunParams {
    pub fim: Option<Fim>,
    /// Chat turns; where present, the prompt is a rendered conversation.
    pub messages: Option<Vec<ChatMessage>>,
    /// The source text of a custom chat template.
    pub chat_template: Option<String>,
    /// The name of a chat template built into the engine.
    pub chat_format: Option<String>,
    pub max_new_tokens: usize,
}

/// An optional string member: absent or null gives `Some(None)`, a string
/// gives it, anything else does not decode (`None`).
pub open spec fn optional_text(v: Option<Json>) -> Option<Option<String>> {
    match v {
        None => Some(None),
        Some(Json::Null) => Some(None),
        Some(Json::Text(s)) => Some(Some(s)),
        _ => None,
    }
}

/// The `fim` member: absent or null, or an object with three string members.
pub open spec fn fim_of(v: Option<Json>) -> Option<Option<Fim>> {
    match v {
        None => Some(None),
        Some(Json::Null) => Some(None),
        Some(Json::Object(fs)) => {
            let start = text_of(field(fs@, "start"@));
            let middle = text_of(field(fs@, "middle"@));
            let end = text_of(field(fs@, "end"@));
            if start is Some && middle is Some && end is Some {
                Some(Some(Fim { start: start->0, middle: middle->0, end: end->0 }))
            } else {
                None
            }
        },
        _ => None,
    }
}

/// The `max_new_tokens` member: absent gives the default, a whole number that
/// fits a `usize` gives itself, anything else (null included) does not decode.
pub open spec fn max_new_tokens_of(v: Option<Json>) -> Option<usize> {
    match v {
        None => Some(32),
        Some(Json::Number(JsonNumber::Unsigned(u))) => if u <= usize::MAX {
            Some(u as usize)
        } else {
            None
        },
        _ => None,
    }
}

pub open spec fn role_named(s: Seq<char>) -> Option<Role> {
    if s == "system"@ {
        Some(Role::System)
    } else if s == "user"@ {
        Some(Role::User)
    } else if s == "assistant"@ {
        Some(Role::Assistant)
    } else {
        None
    }
}

/// One chat turn: an object with a known `role` and a string `content`.
pub open spec fn message_of(v: Json) -> Option<ChatMessage> {
    let role = match text_of(field(members(v), "role"@)) {
        Some(s) => role_named(s@),
        None => None,
    };
    let content = text_of(field(members(v), "content"@));
    if v is Object && role is Some && content is Some {
        Some(ChatMessage { role: role->0, content: content->0 })
    } else {
        None
    }
}

/// The `messages` member: absent or null, or an array of chat turns.
pub open spec fn messages_of(v: Option<Json>) -> Option<Option<Seq<ChatMessage>>> {
    match v {
        None => Some(None),
        Some(Json::Null) => Some(None),
        Some(Json::Array(items)) => if forall|k: int|
            0 <= k < items@.len() ==> (#[trigger] message_of(items@[k])) is Some {
            Some(Some(items@.map_values(|m: Json| message_of(m)->0)))
        } else {
            None
        },
        _ => None,
    }
}

/// The first member of a payload, in declaration order, that does not decode.
pub open spec fn malformed_field(j: Json) -> Option<PayloadField> {
    let fs = members(j);
    if !(j is Object) {
        Some(PayloadField::Payload)
    } else if fim_of(field(fs, "fim"@)) is None {
        Some(PayloadField::Fim)
    } else if messages_of(field(fs, "messages"@)) is None {
        Some(PayloadField::Messages)
    } else if optional_text(field(fs, "chat_template"@)) is None {
        Some(PayloadField::ChatTemplate)
    } else if optional_text(field(fs, "chat_format"@)) is None {
        Some(PayloadField::ChatFormat)
    } else if max_new_tokens_of(field(fs, "max_new_tokens"@)) is None {
        Some(PayloadField::MaxNewTokens)
    } else {
        None
    }
}

pub open spec fn messages_view(m: Option<Vec<ChatMessage>>) -> Option<Seq<ChatMessage>> {
    match m {
        Some(v) => Some(v@),
        None => None,
    }
}

/// `p` holds what the payload members `fs` say; other members are ignored.
pub open spec fn decoded_from(fs: Seq<(String, Json)>, p: LLaMACPPRunParams) -> bool {
    &&& fim_of(field(fs, "fim"@)) == Some(p.fim)
    &&& messages_of(field(fs, "messages"@)) == Some(messages_view(p.messages))
    &&& optional_text(field(fs, "chat_template"@)) == Some(p.chat_template)
    &&& optional_text(field(fs, "chat_format"@)) == Some(p.chat_format)
    &&& max_new_tokens_of(field(fs, "max_new_tokens"@)) == Some(p.max_new_tokens)
}

fn optional_text_field(fs: &Vec<(String, Json)>, key: &str) -> (r: Option<Option<String>>)
    ensures
        r == optional_text(field(fs@, key@)),
{
    match find_field(fs, key) {
        None => Some(None),
        Some(i) => match &fs[i].1 {
            Json::Null => Some(None),
            Json::Text(s) => Some(Some(s.clone())),
            _ => None,
        },
    }
}

fn decode_fim(fs: &Vec<(String, Json)>) -> (r: Option<Option<Fim>>)
    ensures
        r == fim_of(field(fs@, "fim"@)),
{
    match find_field(fs, "fim") {
        None => Some(None),
        Some(i) => match &fs[i].1 {
            Json::Null => Some(None),
            Json::Object(inner) => {
                let start = text_field(inner, "start");
                let middle = text_field(inner, "middle");
                let end = text_field(inner, "end");
                match (start, middle, end) {
                    (Some(start), Some(middle), Some(end)) => Some(Some(Fim { start, middle, end })),
                    _ => None,
                }
            },
            _ => None,
        },
    }
}

fn decode_role(s: &str) -> (r: Option<Role>)
    ensures
        r == role_named(s@),
{
    if same_text(s, "system") {
        Some(Role::System)
    } else if same_text(s, "user") {
        Some(Role::User)
    } else if same_text(s, "assistant") {
        Some(Role::Assistant)
    } else {
        None
    }
}

fn decode_message(v: &Json) -> (r: Option<ChatMessage>)
    ensures
        r == message_of(*v),
{
    match v {
        Json::Object(fs) => {
            let role = match text_field(fs, "role") {
                Some(s) => decode_role(s.as_str()),
                None => None,
            };
            let content = text_field(fs, "content");
            match (role, content) {
                (Some(role), Some(content)) => Some(ChatMessage { role, content }),
                _ => None,
            }
        },
        _ => None,
    }
}

fn decode_messages(fs: &Vec<(String, Json)>) -> (r: Option<Option<Vec<ChatMessage>>>)
    ensures
        r is None <==> messages_of(field(fs@, "messages"@)) is None,
        r is Some ==> messages_of(field(fs@, "messages"@)) == Some(messages_view(r->0)),
{
    match find_field(fs, "messages") {
        None => Some(None),
        Some(i) => match &fs[i].1 {
            Json::Null => Some(None),
            Json::Array(items) => {
                let mut out: Vec<ChatMessage> = Vec::new();
                let mut k: usize = 0;
                while k < items.len()
                    invariant
                        field(fs@, "messages"@) == Some(Json::Array(*items)),
                        k <= items@.len(),
                        out@.len() == k,
                        forall|j: int| 0 <= j < k ==> (#[trigger] message_of(items@[j])) is Some,
                        forall|j: int| 0 <= j < k ==> out@[j] == message_of(items@[j])->0,
                    decreases items@.len() - k,
                {
                    match decode_message(&items[k]) {
                        Some(m) => out.push(m),
                        None => {
                            assert(message_of(items@[k as int]) is None);
                            return None;
                        },
                    }
                    k = k + 1;
                }
                assert(out@ =~= items@.map_values(|m: Json| message_of(m)->0));
                Some(Some(out))
            },
            _ => None,
        },
    }
}

impl LLaMACPPRunParams {
    /// Decodes a payload; unknown members are ignored, `max_new_tokens`
    /// defaults to 32, and the first member that does not decode is reported.
    pub fn from_json(j: &Json) -> (r: Result<LLaMACPPRunParams, BackendError>)
        ensures
            malformed_field(*j) is Some ==> r == Err::<LLaMACPPRunParams, BackendError>(
                BackendError::MalformedParameters(malformed_field(*j)->0),
            ),
            malformed_field(*j) is None ==> r is Ok && decoded_from(members(*j), r->Ok_0),
    {
        let fs = match j {
            Json::Object(fs) => fs,
            _ => return Err(BackendError::MalformedParameters(PayloadField::Payload)),
        };
        let fim = match decode_fim(fs) {
            Some(f) => f,
            None => return Err(BackendError::MalformedParameters(PayloadField::Fim)),
        };
        let messages = match decode_messages(fs) {
            Some(m) => m,
            None => return Err(BackendError::MalformedParameters(PayloadField::Messages)),
        };
        let chat_template = match optional_text_field(fs, "chat_template") {
            Some(t) => t,
            None => return Err(BackendError::MalformedParameters(PayloadField::ChatTemplate)),
        };
        let chat_format = match optional_text_field(fs, "chat_format") {
            Some(t) => t,
            None => return Err(BackendError::MalformedParameters(PayloadField::ChatFormat)),
        };
        let max_new_tokens = match find_field(fs, "max_new_tokens") {
            None => max_new_tokens_default(),
            Some(i) => match &fs[i].1 {
                Json::Number(JsonNumber::Unsigned(u)) if *u <= usize::MAX as u64 => *u as usize,
                _ => return Err(BackendError::MalformedParameters(PayloadField::MaxNewTokens)),
            },
        };
        Ok(LLaMACPPRunParams { fim, messages, chat_template, chat_format, max_new_tokens })
    }
}

} // verus!
