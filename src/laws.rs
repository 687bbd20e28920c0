use vstd::prelude::*;

use crate::backend::{pipeline_begun, response_of, Operation, Request, Response, Stage};
use crate::chat::{merged, resolution_begun, Prompt, Resolution};
use crate::error::BackendError;
use crate::json::{field, members, Json};
use crate::params::{decoded_from, malformed_field, messages_of, ChatMessage, LLaMACPPRunParams};

verus! {

/// The resolution state after the engine has given `replies`, in order.
pub open spec fn resolution_after(r: Resolution, replies: Seq<Result<String, String>>) -> Resolution
    decreases replies.len(),
{
    if replies.len() == 0 {
        r
    } else {
        resolution_after(r.advanced(replies[0]), replies.drop_first())
    }
}

/// The request after the engine has given `replies`, in order.
pub open spec fn run(r: Request, replies: Seq<Result<String, String>>) -> Request
    decreases replies.len(),
{
    if replies.len() == 0 {
        r
    } else {
        run(Request { operation: r.operation, stage: r.stage.next(replies[0]) }, replies.drop_first())
    }
}

/// Without chat turns the engine generates from the code itself, whatever
/// template text or template name the payload holds.
pub proof fn lemma_no_messages_uses_code(prompt: Prompt, payload: Json, s: Stage)
    requires
        pipeline_begun(prompt, payload, s),
        malformed_field(payload) is None,
        messages_of(field(members(payload), "messages"@)) == Some(None::<Seq<ChatMessage>>),
    ensures
        match s {
            Stage::Generating { prompt: text, .. } => text == prompt.code,
            _ => false,
        },
{
    match s {
        Stage::Resolving { params, resolution } => {
            assert(params.messages is None);
        },
        Stage::Generating { params, prompt: text } => {
            assert(params.messages is None);
        },
        _ => {},
    }
}

/// With chat turns and a custom template, the engine is asked for its
/// beginning-of-sequence token, then its end-of-sequence token, and the
/// template is then rendered against the merged turns and both tokens; a
/// missing token fails the request with `MissingSpecialToken`.
pub proof fn lemma_custom_template_renders(
    prompt: Prompt,
    params: LLaMACPPRunParams,
    r: Resolution,
    bos: String,
    eos: String,
    failure: String,
)
    requires
        params.messages is Some,
        params.chat_template is Some,
        resolution_begun(prompt, params, r),
    ensures
        r is NeedBosToken,
        r.advanced(Err(failure)) == Resolution::Failed(BackendError::MissingSpecialToken(failure)),
        r.advanced(Ok(bos)) is NeedEosToken,
        r.advanced(Ok(bos)).advanced(Err(failure)) == Resolution::Failed(
            BackendError::MissingSpecialToken(failure),
        ),
        match r.advanced(Ok(bos)).advanced(Ok(eos)) {
            Resolution::NeedRender { template, messages, bos_token, eos_token } => {
                &&& template == params.chat_template->0
                &&& bos_token == bos
                &&& eos_token == eos
                &&& merged(params.messages->0@, prompt, messages@)
            },
            _ => false,
        },
{
}

/// Two requests that differ only in their template text ask the engine the
/// same two token questions, and render the same turns with the same tokens,
/// each with its own template.
pub proof fn lemma_template_text_changes_only_rendering(
    prompt: Prompt,
    p1: LLaMACPPRunParams,
    p2: LLaMACPPRunParams,
    r1: Resolution,
    r2: Resolution,
    bos: String,
    eos: String,
)
    requires
        p1.messages is Some,
        p1.chat_template is Some,
        p2.chat_template is Some,
        p2.messages == p1.messages,
        p2.chat_format == p1.chat_format,
        p2.fim == p1.fim,
        p2.max_new_tokens == p1.max_new_tokens,
        resolution_begun(prompt, p1, r1),
        resolution_begun(prompt, p2, r2),
    ensures
        r1 is NeedBosToken && r2 is NeedBosToken,
        r1.advanced(Ok(bos)) is NeedEosToken && r2.advanced(Ok(bos)) is NeedEosToken,
        match (r1.advanced(Ok(bos)).advanced(Ok(eos)), r2.advanced(Ok(bos)).advanced(Ok(eos))) {
            (
                Resolution::NeedRender { template: t1, messages: m1, bos_token: b1, eos_token: e1 },
                Resolution::NeedRender { template: t2, messages: m2, bos_token: b2, eos_token: e2 },
            ) => {
                &&& t1 == p1.chat_template->0
                &&& t2 == p2.chat_template->0
                &&& b1 == b2 && e1 == e2
                &&& m1@.len() == m2@.len()
                &&& forall|i: int|
                    0 <= i < m1@.len() ==> (#[trigger] m1@[i]).role == m2@[i].role && m1@[i].content@
                        == m2@[i].content@
            },
            _ => false,
        },
{
    lemma_custom_template_renders(prompt, p1, r1, bos, eos, bos);
    lemma_custom_template_renders(prompt, p2, r2, bos, eos, bos);
}

/// Once a custom template is given, the engine's named template is never
/// asked for, whatever the engine answers and whatever template name is given.
pub proof fn lemma_custom_template_wins(
    prompt: Prompt,
    params: LLaMACPPRunParams,
    r: Resolution,
    replies: Seq<Result<String, String>>,
)
    requires
        params.chat_template is Some,
        resolution_begun(prompt, params, r),
    ensures
        !(resolution_after(r, replies) is NeedNamedTemplate),
{
    lemma_named_template_unreached(r, replies);
}

proof fn lemma_named_template_unreached(r: Resolution, replies: Seq<Result<String, String>>)
    requires
        !(r is NeedNamedTemplate),
    ensures
        !(resolution_after(r, replies) is NeedNamedTemplate),
    decreases replies.len(),
{
    if replies.len() > 0 {
        lemma_named_template_unreached(r.advanced(replies[0]), replies.drop_first());
    }
}

/// A payload without `max_new_tokens` asks for 32 new tokens.
pub proof fn lemma_max_new_tokens_defaults(payload: Json, params: LLaMACPPRunParams)
    requires
        field(members(payload), "max_new_tokens"@) is None,
        decoded_from(members(payload), params),
    ensures
        params.max_new_tokens == 32,
{
}

/// The parameters decoded at the start of a request are the ones the engine
/// completes with: no answer of the engine changes them.
pub proof fn lemma_params_reach_engine(
    r: Request,
    params: LLaMACPPRunParams,
    replies: Seq<Result<String, String>>,
)
    requires
        r.stage is Resolving ==> r.stage->Resolving_params == params,
        r.stage is Generating ==> r.stage->Generating_params == params,
    ensures
        run(r, replies).stage is Resolving ==> run(r, replies).stage->Resolving_params == params,
        run(r, replies).stage is Generating ==> run(r, replies).stage->Generating_params == params,
    decreases replies.len(),
{
    if replies.len() > 0 {
        lemma_params_reach_engine(
            Request { operation: r.operation, stage: r.stage.next(replies[0]) },
            params,
            replies.drop_first(),
        );
    }
}

/// A completion and a generation from the same stage ask the engine the same
/// things, whatever it answers, and end with the same text or the same error:
/// only the name of the answer's field differs.
pub proof fn lemma_completion_matches_generation(
    c: Request,
    g: Request,
    replies: Seq<Result<String, String>>,
)
    requires
        c.operation == Operation::Completion,
        g.operation == Operation::Generation,
        c.stage == g.stage,
    ensures
        run(c, replies).stage == run(g, replies).stage,
        run(c, replies).operation == Operation::Completion,
        run(g, replies).operation == Operation::Generation,
        match (response_of(run(c, replies)), response_of(run(g, replies))) {
            (Some(Ok(Response::Completion(a))), Some(Ok(Response::Generation(b)))) => a.insert_text
                == b.generated_text,
            (Some(Err(e1)), Some(Err(e2))) => e1 == e2,
            (None, None) => true,
            _ => false,
        },
    decreases replies.len(),
{
    if replies.len() > 0 {
        lemma_completion_matches_generation(
            Request { operation: c.operation, stage: c.stage.next(replies[0]) },
            Request { operation: g.operation, stage: g.stage.next(replies[0]) },
            replies.drop_first(),
        );
    }
}

} // verus!
