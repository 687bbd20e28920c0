use vstd::prelude::*;

use crate::chat::{format_chat_messages, resolution_begun, Prompt, Resolution};
use crate::error::BackendError;
use crate::json::{members, Json};
use crate::params::{decoded_from, malformed_field, LLaMACPPRunParams};

verus! {

/// Where the model file is to be found.
#[derive(Debug, Clone, PartialEq, Eq)]
pub struct ModelSource {
    pub repository: String,
    /// The file's name within the repository; required.
    pub name: Option<String>,
}

/// The llama.cpp backend: it decides, request by request, what the engine is
/// asked, and holds which model the engine runs.
#[derive(Debug)]
pub struct LLaMACPP {
    repository: String,
    name: String,
}

/// The answer to a completion request.
#[derive(Debug, Clone, PartialEq, Eq)]
pub struct DoCompletionResponse {
    pub insert_text: String,
}

/// The answer to a generation request.
#[derive(Debug, Clone, PartialEq, Eq)]
pub struct DoGenerationResponse {
    pub generated_text: String,
}

/// The answer to a streaming generation request.
#[derive(Debug, Clone, PartialEq, Eq)]
pub struct DoGenerationStreamResponse {
    pub generated_text: String,
}

/// A streaming generation request.
#[derive(Debug, Clone, PartialEq, Eq)]
pub struct GenerationStreamRequest {
    pub prompt: Prompt,
}

/// Which operation a request serves.
#[derive(Debug, Clone, Copy, PartialEq, Eq, Structural)]
pub enum Operation {
    Completion,
    Generation,
}

/// The finished answer of a request, named after its operation.
#[derive(Debug, Clone, PartialEq, Eq)]
pub enum Response {
    Completion(DoCompletionResponse),
    Generation(DoGenerationResponse),
}

/// How far one request has come. Each state but `Done` names what the engine
/// is asked next: a question of the resolution, or a completion of `prompt`
/// with the markers and token budget of `params`.
#[derive(Debug)]
pub enum Stage {
    Resolving { params: LLaMACPPRunParams, resolution: Resolution },
    Generating { params: LLaMACPPRunParams, prompt: String },
    Done(Result<String, BackendError>),
}

/// One request in flight.
#[derive(Debug)]
pub struct Request {
    pub operation: Operation,
    pub stage: Stage,
}

/// The stage that a resolution state leads to.
pub open spec fn settled(params: LLaMACPPRunParams, resolution: Resolution) -> Stage {
    match resolution {
        Resolution::Ready(prompt) => Stage::Generating { params, prompt },
        Resolution::Failed(e) => Stage::Done(Err(e)),
        _ => Stage::Resolving { params, resolution },
    }
}

impl Stage {
    /// A stage that still resolves holds a question for the engine, never a
    /// settled resolution.
    pub open spec fn wf(self) -> bool {
        match self {
            Stage::Resolving { resolution, .. } => !(resolution is Ready) && !(resolution is Failed),
            _ => true,
        }
    }

    /// The stage after the engine has answered with `reply`.
    pub open spec fn next(self, reply: Result<String, String>) -> Stage {
        match self {
            Stage::Resolving { params, resolution } => settled(params, resolution.advanced(reply)),
            Stage::Generating { .. } => match reply {
                Ok(text) => Stage::Done(Ok(text)),
                Err(e) => Stage::Done(Err(BackendError::EngineFailure(e))),
            },
            Stage::Done(_) => self,
        }
    }
}

/// The first stage of a request for `prompt` with the payload `payload`: a
/// payload that does not decode ends it at once; otherwise it resolves the
/// prompt under the decoded parameters.
pub open spec fn pipeline_begun(prompt: Prompt, payload: Json, s: Stage) -> bool {
    match malformed_field(payload) {
        Some(f) => s == Stage::Done(Err(BackendError::MalformedParameters(f))),
        None => match s {
            Stage::Resolving { params, resolution } => {
                &&& decoded_from(members(payload), params)
                &&& resolution_begun(prompt, params, resolution)
                &&& !(resolution is Ready)
            },
            Stage::Generating { params, prompt: text } => {
                &&& decoded_from(members(payload), params)
                &&& resolution_begun(prompt, params, Resolution::Ready(text))
            },
            Stage::Done(_) => false,
        },
    }
}

/// What a finished request answers: the text named after its operation, or
/// its error; nothing while it is in flight.
pub open spec fn response_of(r: Request) -> Option<Result<Response, BackendError>> {
    match r.stage {
        Stage::Done(Ok(text)) => Some(
            Ok(
                match r.operation {
                    Operation::Completion => Response::Completion(
                        DoCompletionResponse { insert_text: text },
                    ),
                    Operation::Generation => Response::Generation(
                        DoGenerationResponse { generated_text: text },
                    ),
                },
            ),
        ),
        Stage::Done(Err(e)) => Some(Err(e)),
        _ => None,
    }
}

impl Request {
    /// Takes the engine's answer to what the current stage asks.
    pub fn on_reply(self, reply: Result<String, String>) -> (r: Request)
        ensures
            r == (Request { operation: self.operation, stage: self.stage.next(reply) }),
            r.stage.wf(),
    {
        let stage = match self.stage {
            Stage::Resolving { params, resolution } => settle(params, resolution.advance(reply)),
            Stage::Generating { .. } => match reply {
                Ok(text) => Stage::Done(Ok(text)),
                Err(e) => Stage::Done(Err(BackendError::EngineFailure(e))),
            },
            Stage::Done(result) => Stage::Done(result),
        };
        Request { operation: self.operation, stage }
    }

    /// Whether the request has its answer.
    pub fn is_done(&self) -> (r: bool)
        ensures
            r == (self.stage is Done),
    {
        match self.stage {
            Stage::Done(_) => true,
            _ => false,
        }
    }

    /// The answer of a finished request.
    pub fn into_response(self) -> (r: Option<Result<Response, BackendError>>)
        ensures
            r == response_of(self),
    {
        match self.stage {
            Stage::Done(Ok(text)) => Some(
                Ok(
                    match self.operation {
                        Operation::Completion => Response::Completion(
                            DoCompletionResponse { insert_text: text },
                        ),
                        Operation::Generation => Response::Generation(
                            DoGenerationResponse { generated_text: text },
                        ),
                    },
                ),
            ),
            Stage::Done(Err(e)) => Some(Err(e)),
            _ => None,
        }
    }
}

fn settle(params: LLaMACPPRunParams, resolution: Resolution) -> (r: Stage)
    ensures
        r == settled(params, resolution),
        r.wf(),
{
    match resolution {
        Resolution::Ready(prompt) => Stage::Generating { params, prompt },
        Resolution::Failed(e) => Stage::Done(Err(e)),
        other => Stage::Resolving { params, resolution: other },
    }
}

impl LLaMACPP {
    /// Builds the backend for a model; the file's name is required.
    pub fn new(configuration: ModelSource) -> (r: Result<LLaMACPP, BackendError>)
        ensures
            configuration.name is None ==> r is Err && r->Err_0 is ConfigurationError,
            configuration.name is Some ==> r is Ok && r->Ok_0.repository() == configuration.repository
                && r->Ok_0.model_name() == configuration.name->0,
    {
        match configuration.name {
            Some(name) => Ok(LLaMACPP { repository: configuration.repository, name }),
            None => Err(
                BackendError::ConfigurationError(
                    String::from_str("Please set `name` to use LLaMA.cpp"),
                ),
            ),
        }
    }

    pub closed spec fn repository(&self) -> String {
        self.repository
    }

    pub closed spec fn model_name(&self) -> String {
        self.name
    }

    /// The repository that holds the model file.
    pub fn get_repository(&self) -> (r: &String)
        ensures
            *r == self.repository(),
    {
        &self.repository
    }

    /// The model file's name.
    pub fn get_model_name(&self) -> (r: &String)
        ensures
            *r == self.model_name(),
    {
        &self.name
    }

    /// Starts resolving the prompt that the engine generates from.
    pub fn get_prompt_string(&self, prompt: &Prompt, params: &LLaMACPPRunParams) -> (r:
        Resolution)
        ensures
            resolution_begun(*prompt, *params, r),
    {
        match &params.messages {
            Some(turns) => {
                let messages = format_chat_messages(turns, prompt);
                match &params.chat_template {
                    Some(template) => Resolution::NeedBosToken {
                        template: template.clone(),
                        messages,
                    },
                    None => {
                        let chat_format = match &params.chat_format {
                            Some(f) => Some(f.clone()),
                            None => None,
                        };
                        Resolution::NeedNamedTemplate { messages, chat_format }
                    },
                }
            },
            None => Resolution::Ready(prompt.code.clone()),
        }
    }

    /// Decodes the payload and starts resolving; shared by completion and
    /// generation.
    fn begin(&self, prompt: &Prompt, payload: &Json) -> (r: Stage)
        ensures
            pipeline_begun(*prompt, *payload, r),
            r.wf(),
    {
        match LLaMACPPRunParams::from_json(payload) {
            Err(e) => Stage::Done(Err(e)),
            Ok(params) => {
                let resolution = self.get_prompt_string(prompt, &params);
                settle(params, resolution)
            },
        }
    }

    /// Starts a completion request.
    pub fn do_completion(&self, prompt: &Prompt, params: &Json) -> (r: Request)
        ensures
            r.operation == Operation::Completion,
            pipeline_begun(*prompt, *params, r.stage),
            r.stage.wf(),
    {
        Request { operation: Operation::Completion, stage: self.begin(prompt, params) }
    }

    /// Starts a generation request.
    pub fn do_generate(&self, prompt: &Prompt, params: &Json) -> (r: Request)
        ensures
            r.operation == Operation::Generation,
            pipeline_begun(*prompt, *params, r.stage),
            r.stage.wf(),
    {
        Request { operation: Operation::Generation, stage: self.begin(prompt, params) }
    }

    /// Streaming is not offered by this backend: it always fails.
    pub fn do_generate_stream(&self, request: &GenerationStreamRequest, params: &Json) -> (r:
        Result<DoGenerationStreamResponse, BackendError>)
        ensures
            r == Err::<DoGenerationStreamResponse, BackendError>(
                BackendError::CapabilityUnavailable,
            ),
    {
        Err(BackendError::CapabilityUnavailable)
    }
}

} // verus!
