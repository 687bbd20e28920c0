use llama_backend::backend::{
    GenerationStreamRequest, LLaMACPP, ModelSource, Operation, Request, Response, Stage,
};
use llama_backend::chat::{format_chat_messages, Prompt, Resolution};
use llama_backend::error::{BackendError, PayloadField};
use llama_backend::json::{Json, JsonNumber};
use llama_backend::params::{max_new_tokens_default, ChatMessage, Fim, LLaMACPPRunParams, Role};
use llama_backend::text::{replace, same_text};

fn text(s: &str) -> Json {
    Json::Text(s.to_string())
}

fn num(n: u64) -> Json {
    Json::Number(JsonNumber::Unsigned(n))
}

fn obj(members: Vec<(&str, Json)>) -> Json {
    Json::Object(members.into_iter().map(|(k, v)| (k.to_string(), v)).collect())
}

fn fim_markers() -> Json {
    obj(vec![("start", text("<pre>")), ("middle", text("<suf>")), ("end", text("<mid>"))])
}

fn user_turn(content: &str) -> Json {
    obj(vec![("role", text("user")), ("content", text(content))])
}

fn backend() -> LLaMACPP {
    LLaMACPP::new(ModelSource {
        repository: "stabilityai/stable-code-3b".to_string(),
        name: Some("stable-code-3b-Q5_K_M.gguf".to_string()),
    })
    .unwrap()
}

fn prompt() -> Prompt {
    Prompt { context: "fn helper() {}".to_string(), code: "fn main() {".to_string() }
}

fn ok(s: &str) -> Result<String, String> {
    Ok(s.to_string())
}

fn err(s: &str) -> Result<String, String> {
    Err(s.to_string())
}

fn done_error(r: Request) -> BackendError {
    match r.into_response() {
        Some(Err(e)) => e,
        other => panic!("expected an error, got {:?}", other),
    }
}

#[test]
fn default_max_new_tokens_is_32() {
    assert_eq!(max_new_tokens_default(), 32);
    let p = LLaMACPPRunParams::from_json(&obj(vec![])).unwrap();
    assert_eq!(p.max_new_tokens, 32);
    assert_eq!(p.fim, None);
    assert_eq!(p.messages, None);
    assert_eq!(p.chat_template, None);
    assert_eq!(p.chat_format, None);
}

#[test]
fn fim_and_max_tokens_pass_through() {
    let payload = obj(vec![("fim", fim_markers()), ("max_new_tokens", num(64))]);
    let r = backend().do_completion(&prompt(), &payload);
    assert_eq!(r.operation, Operation::Completion);
    match &r.stage {
        Stage::Generating { params, prompt: text } => {
            assert_eq!(text, "fn main() {");
            assert_eq!(params.max_new_tokens, 64);
            assert_eq!(
                params.fim,
                Some(Fim {
                    start: "<pre>".to_string(),
                    middle: "<suf>".to_string(),
                    end: "<mid>".to_string()
                })
            );
        }
        other => panic!("unexpected stage {:?}", other),
    }
    let r = r.on_reply(ok("    println!();"));
    match r.into_response() {
        Some(Ok(Response::Completion(c))) => assert_eq!(c.insert_text, "    println!();"),
        other => panic!("unexpected response {:?}", other),
    }
}

#[test]
fn unknown_members_are_ignored() {
    let payload = obj(vec![("max_tokens", num(64)), ("temperature", text("hot"))]);
    let p = LLaMACPPRunParams::from_json(&payload).unwrap();
    assert_eq!(p.max_new_tokens, 32);
}

#[test]
fn messages_without_template_use_engine_default() {
    let payload = obj(vec![("messages", Json::Array(vec![user_turn("Complete: {code}")]))]);
    let r = backend().do_generate(&prompt(), &payload);
    match &r.stage {
        Stage::Resolving { resolution: Resolution::NeedNamedTemplate { messages, chat_format }, .. } => {
            assert_eq!(chat_format, &None);
            assert_eq!(
                messages,
                &vec![ChatMessage { role: Role::User, content: "Complete: fn main() {".to_string() }]
            );
        }
        other => panic!("unexpected stage {:?}", other),
    }
    let r = r.on_reply(ok("rendered"));
    match &r.stage {
        Stage::Generating { prompt: text, .. } => assert_eq!(text, "rendered"),
        other => panic!("unexpected stage {:?}", other),
    }
    let r = r.on_reply(ok("out"));
    match r.into_response() {
        Some(Ok(Response::Generation(g))) => assert_eq!(g.generated_text, "out"),
        other => panic!("unexpected response {:?}", other),
    }
}

#[test]
fn named_format_is_handed_over() {
    let payload = obj(vec![
        ("messages", Json::Array(vec![user_turn("hi")])),
        ("chat_format", text("chatml")),
    ]);
    let r = backend().do_completion(&prompt(), &payload);
    match &r.stage {
        Stage::Resolving { resolution: Resolution::NeedNamedTemplate { chat_format, .. }, .. } => {
            assert_eq!(chat_format, &Some("chatml".to_string()))
        }
        other => panic!("unexpected stage {:?}", other),
    }
}

#[test]
fn malformed_max_new_tokens_is_refused() {
    let payload = obj(vec![("max_new_tokens", text("many"))]);
    let r = backend().do_completion(&prompt(), &payload);
    assert!(r.is_done());
    assert_eq!(done_error(r), BackendError::MalformedParameters(PayloadField::MaxNewTokens));
}

#[test]
fn malformed_payloads_name_their_field() {
    let cases = vec![
        (text("not an object"), PayloadField::Payload),
        (obj(vec![("fim", obj(vec![("start", text("a"))]))]), PayloadField::Fim),
        (obj(vec![("messages", Json::Array(vec![obj(vec![("role", text("robot")), ("content", text("x"))])]))]), PayloadField::Messages),
        (obj(vec![("messages", text("hi"))]), PayloadField::Messages),
        (obj(vec![("chat_template", num(3))]), PayloadField::ChatTemplate),
        (obj(vec![("chat_format", Json::Bool(true))]), PayloadField::ChatFormat),
        (obj(vec![("max_new_tokens", Json::Null)]), PayloadField::MaxNewTokens),
        (obj(vec![("max_new_tokens", Json::Number(JsonNumber::Negative(-1)))]), PayloadField::MaxNewTokens),
        (obj(vec![("max_new_tokens", Json::Number(JsonNumber::Fraction))]), PayloadField::MaxNewTokens),
    ];
    for (payload, field) in cases {
        assert_eq!(
            LLaMACPPRunParams::from_json(&payload),
            Err(BackendError::MalformedParameters(field))
        );
    }
}

#[test]
fn first_bad_member_is_reported() {
    let payload = obj(vec![("max_new_tokens", text("x")), ("fim", num(1))]);
    assert_eq!(
        LLaMACPPRunParams::from_json(&payload),
        Err(BackendError::MalformedParameters(PayloadField::Fim))
    );
}

#[test]
fn null_optionals_are_absent() {
    let payload = obj(vec![
        ("fim", Json::Null),
        ("messages", Json::Null),
        ("chat_template", Json::Null),
        ("chat_format", Json::Null),
    ]);
    let p = LLaMACPPRunParams::from_json(&payload).unwrap();
    assert_eq!((p.fim, p.messages, p.chat_template, p.chat_format), (None, None, None, None));
}

#[test]
fn first_occurrence_of_a_key_counts() {
    let payload = obj(vec![("max_new_tokens", num(7)), ("max_new_tokens", num(9))]);
    assert_eq!(LLaMACPPRunParams::from_json(&payload).unwrap().max_new_tokens, 7);
}

#[test]
fn largest_token_budget_is_kept() {
    let payload = obj(vec![("max_new_tokens", num(u64::MAX))]);
    assert_eq!(LLaMACPPRunParams::from_json(&payload).unwrap().max_new_tokens as u64, u64::MAX);
}

#[test]
fn no_messages_ignores_templates() {
    let payload = obj(vec![("chat_template", text("{{bos_token}}")), ("chat_format", text("chatml"))]);
    let r = backend().do_completion(&prompt(), &payload);
    match &r.stage {
        Stage::Generating { prompt: text, .. } => assert_eq!(text, "fn main() {"),
        other => panic!("unexpected stage {:?}", other),
    }
}

#[test]
fn custom_template_asks_tokens_then_renders() {
    let payload = obj(vec![
        ("messages", Json::Array(vec![user_turn("{context}|{code}")])),
        ("chat_template", text("T")),
        ("chat_format", text("chatml")),
    ]);
    let r = backend().do_completion(&prompt(), &payload);
    assert!(matches!(&r.stage, Stage::Resolving { resolution: Resolution::NeedBosToken { .. }, .. }));
    let r = r.on_reply(ok("<s>"));
    assert!(matches!(&r.stage, Stage::Resolving { resolution: Resolution::NeedEosToken { .. }, .. }));
    let r = r.on_reply(ok("</s>"));
    match &r.stage {
        Stage::Resolving {
            resolution: Resolution::NeedRender { template, messages, bos_token, eos_token },
            ..
        } => {
            assert_eq!(template, "T");
            assert_eq!(bos_token, "<s>");
            assert_eq!(eos_token, "</s>");
            assert_eq!(messages[0].content, "fn helper() {}|fn main() {");
        }
        other => panic!("unexpected stage {:?}", other),
    }
    let r = r.on_reply(ok("<s>rendered"));
    match &r.stage {
        Stage::Generating { prompt: text, .. } => assert_eq!(text, "<s>rendered"),
        other => panic!("unexpected stage {:?}", other),
    }
}

fn custom_template_request() -> Request {
    let payload = obj(vec![
        ("messages", Json::Array(vec![user_turn("x")])),
        ("chat_template", text("T")),
    ]);
    backend().do_completion(&prompt(), &payload)
}

#[test]
fn missing_bos_token_fails() {
    let r = custom_template_request().on_reply(err("no bos"));
    assert_eq!(done_error(r), BackendError::MissingSpecialToken("no bos".to_string()));
}

#[test]
fn missing_eos_token_fails() {
    let r = custom_template_request().on_reply(ok("<s>")).on_reply(err("no eos"));
    assert_eq!(done_error(r), BackendError::MissingSpecialToken("no eos".to_string()));
}

#[test]
fn render_failure_is_reported() {
    let r = custom_template_request()
        .on_reply(ok("<s>"))
        .on_reply(ok("</s>"))
        .on_reply(err("bad syntax"));
    assert_eq!(done_error(r), BackendError::TemplateRenderError("bad syntax".to_string()));
}

#[test]
fn named_template_failure_is_reported() {
    let payload = obj(vec![("messages", Json::Array(vec![user_turn("x")])), ("chat_format", text("nope"))]);
    let r = backend().do_completion(&prompt(), &payload).on_reply(err("unknown format"));
    assert_eq!(done_error(r), BackendError::EngineTemplateError("unknown format".to_string()));
}

#[test]
fn engine_failure_is_reported() {
    let r = backend().do_generate(&prompt(), &obj(vec![])).on_reply(err("out of memory"));
    assert_eq!(done_error(r), BackendError::EngineFailure("out of memory".to_string()));
}

#[test]
fn done_request_ignores_replies() {
    let r = backend().do_generate(&prompt(), &obj(vec![])).on_reply(ok("a")).on_reply(ok("b"));
    match r.into_response() {
        Some(Ok(Response::Generation(g))) => assert_eq!(g.generated_text, "a"),
        other => panic!("unexpected response {:?}", other),
    }
}

#[test]
fn in_flight_request_has_no_response() {
    let r = backend().do_generate(&prompt(), &obj(vec![]));
    assert!(!r.is_done());
    assert_eq!(r.into_response(), None);
}

#[test]
fn completion_and_generation_differ_only_in_naming() {
    let payload = obj(vec![("messages", Json::Array(vec![user_turn("{code}")]))]);
    let replies = vec![ok("rendered"), ok("generated")];
    let mut c = backend().do_completion(&prompt(), &payload);
    let mut g = backend().do_generate(&prompt(), &payload);
    for reply in replies {
        c = c.on_reply(reply.clone());
        g = g.on_reply(reply);
    }
    match (c.into_response(), g.into_response()) {
        (Some(Ok(Response::Completion(a))), Some(Ok(Response::Generation(b)))) => {
            assert_eq!(a.insert_text, "generated");
            assert_eq!(b.generated_text, "generated");
        }
        other => panic!("unexpected responses {:?}", other),
    }
}

#[test]
fn streaming_is_unavailable() {
    let request = GenerationStreamRequest { prompt: prompt() };
    assert_eq!(
        backend().do_generate_stream(&request, &obj(vec![])),
        Err(BackendError::CapabilityUnavailable)
    );
    assert_eq!(
        backend().do_generate_stream(&request, &text("garbage")),
        Err(BackendError::CapabilityUnavailable)
    );
}

#[test]
fn backend_needs_a_model_name() {
    let r = LLaMACPP::new(ModelSource { repository: "r".to_string(), name: None });
    assert!(matches!(r, Err(BackendError::ConfigurationError(_))));
    let b = backend();
    assert_eq!(b.get_repository(), "stabilityai/stable-code-3b");
    assert_eq!(b.get_model_name(), "stable-code-3b-Q5_K_M.gguf");
}

#[test]
fn turns_are_filled_in_order() {
    let turns = vec![
        ChatMessage { role: Role::System, content: "ctx: {context}".to_string() },
        ChatMessage { role: Role::User, content: "{code}{code} and {context}".to_string() },
        ChatMessage { role: Role::Assistant, content: "plain".to_string() },
    ];
    let p = Prompt { context: "C".to_string(), code: "{context}".to_string() };
    let out = format_chat_messages(&turns, &p);
    assert_eq!(out[0], ChatMessage { role: Role::System, content: "ctx: C".to_string() });
    assert_eq!(out[1].content, "{context}{context} and C");
    assert_eq!(out[2], turns[2]);
}

#[test]
fn replace_is_left_to_right() {
    assert_eq!(replace("aaa", "aa", "b"), "ba");
    assert_eq!(replace("", "x", "y"), "");
    assert_eq!(replace("héllo wörld", "ö", "o"), "héllo world");
    assert!(same_text("abc", "abc"));
    assert!(!same_text("abc", "abd"));
}
