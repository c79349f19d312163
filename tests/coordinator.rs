use camera_director::{
    camera_tool_descriptor, camera_tool_reply, describe_error, ids_distinct, outcome_content, Action,
    AssistantTurn, Coordinator, CoordinatorError, GenerationOptions, Message, ModelError, MyToolParams,
    ParamSpec, Phase, Role, ToolCallRequest, ToolDescriptor, ToolError, ToolRegistry,
};

fn calculator() -> ToolDescriptor {
    ToolDescriptor {
        name: "calculator".to_string(),
        description: "Evaluates an arithmetic expression".to_string(),
        params: vec![ParamSpec {
            name: "expression".to_string(),
            json_type: "string".to_string(),
            hint: String::new(),
        }],
    }
}

fn coordinator_with(tools: Vec<ToolDescriptor>, max_rounds: u64) -> Coordinator {
    let mut registry = ToolRegistry::new();
    for t in tools {
        assert!(registry.add_tool(t));
    }
    Coordinator::new(registry, GenerationOptions { num_ctx: Some(16384) }, max_rounds, false)
}

fn call(id: &str, name: &str, arguments: &str) -> ToolCallRequest {
    ToolCallRequest::new(id.to_string(), name.to_string(), arguments.to_string())
}

fn expect_generate(a: Action) {
    assert!(matches!(a, Action::Generate), "expected Generate, got {:?}", a);
}

fn expect_reply(a: Action) -> Message {
    match a {
        Action::Reply(m) => m,
        other => panic!("expected a reply, got {:?}", other),
    }
}

fn expect_dispatch(a: Action) -> Vec<ToolCallRequest> {
    match a {
        Action::DispatchTools(calls) => calls,
        other => panic!("expected a dispatch, got {:?}", other),
    }
}

#[test]
fn plain_replies_return_content_and_grow_history_by_two() {
    let mut c = coordinator_with(vec![], 5);
    for (i, answer) in ["first answer", "", "third  answer\n"].iter().enumerate() {
        let before = c.history().len();
        expect_generate(c.chat(vec![Message::user(format!("line {}", i))]));
        assert_eq!(c.phase(), Phase::RequestSent);
        let m = expect_reply(c.on_model_reply(Ok(AssistantTurn::Final(answer.to_string()))));
        assert_eq!(m.role, Role::Assistant);
        assert_eq!(m.content, *answer);
        assert!(m.tool_calls.is_empty());
        assert_eq!(c.history().len(), before + 2);
        assert_eq!(c.history()[before].role, Role::User);
        assert_eq!(c.history()[before].content, format!("line {}", i));
        assert_eq!(c.history()[before + 1].content, *answer);
        assert_eq!(c.phase(), Phase::AwaitingUserInput);
    }
}

#[test]
fn system_message_then_user_turn() {
    let mut c = coordinator_with(vec![], 5);
    expect_generate(c.chat(vec![Message::system("You direct the cameras.".to_string())]));
    let m = expect_reply(c.on_model_reply(Ok(AssistantTurn::Final("Ready.".to_string()))));
    assert_eq!(m.content, "Ready.");
    assert_eq!(c.history()[0].role, Role::System);
    assert_eq!(c.history().len(), 2);
}

#[test]
fn calculator_round_trip() {
    let mut c = coordinator_with(vec![calculator()], 5);
    expect_generate(c.chat(vec![Message::user("what is 2+2?".to_string())]));
    let calls = expect_dispatch(c.on_model_reply(Ok(AssistantTurn::ToolCalls(
        vec![call("call_0", "calculator", "{\"expression\":\"2+2\"}")],
        String::new(),
    ))));
    assert_eq!(calls.len(), 1);
    assert_eq!(calls[0].name, "calculator");
    assert_eq!(calls[0].arguments, "{\"expression\":\"2+2\"}");
    assert_eq!(c.phase(), Phase::ToolDispatch);
    expect_generate(c.on_tool_results(vec![Ok("4".to_string())]));
    let m = expect_reply(c.on_model_reply(Ok(AssistantTurn::Final("4".to_string()))));
    assert_eq!(m.role, Role::Assistant);
    assert_eq!(m.content, "4");
    let h = c.history();
    assert_eq!(h.len(), 4);
    assert_eq!(h[0].role, Role::User);
    assert_eq!(h[1].role, Role::Assistant);
    assert_eq!(h[1].tool_calls.len(), 1);
    assert_eq!(h[2].role, Role::Tool);
    assert_eq!(h[2].content, "4");
    assert_eq!(h[2].tool_call_id.as_deref(), Some("call_0"));
    assert_eq!(h[2].tool_name.as_deref(), Some("calculator"));
    assert_eq!(h[3].role, Role::Assistant);
    assert_eq!(h[3].content, "4");
}

#[test]
fn unknown_tool_is_reported_to_the_model() {
    let mut c = coordinator_with(vec![calculator()], 5);
    expect_generate(c.chat(vec![Message::user("weather in Oslo?".to_string())]));
    let calls = expect_dispatch(c.on_model_reply(Ok(AssistantTurn::ToolCalls(
        vec![call("call_0", "weather", "{\"city\":\"Oslo\"}")],
        String::new(),
    ))));
    let outcome = c.registry().resolve(&calls[0].name);
    assert!(matches!(outcome, Err(ToolError::UnknownTool)));
    expect_generate(c.on_tool_results(vec![Err(ToolError::UnknownTool)]));
    assert_eq!(c.history()[2].role, Role::Tool);
    assert_eq!(c.history()[2].content, "error: unknown tool weather");
    let m = expect_reply(c.on_model_reply(Ok(AssistantTurn::Final("I have no weather tool.".to_string()))));
    assert_eq!(m.content, "I have no weather tool.");
    assert_eq!(c.history().len(), 4);
}

#[test]
fn transport_error_on_first_request() {
    let mut c = coordinator_with(vec![calculator()], 5);
    expect_generate(c.chat(vec![Message::user("hello".to_string())]));
    match c.on_model_reply(Err(ModelError::TransportError)) {
        Action::Fail(e) => assert_eq!(e, CoordinatorError::ModelError(ModelError::TransportError)),
        other => panic!("expected a failure, got {:?}", other),
    }
    assert_eq!(c.history().len(), 1);
    assert_eq!(c.history()[0].content, "hello");
    assert_eq!(c.phase(), Phase::AwaitingUserInput);
    // The conversation resumes, unanswered turn included.
    expect_generate(c.chat(vec![Message::user("again".to_string())]));
    let m = expect_reply(c.on_model_reply(Ok(AssistantTurn::Final("hi".to_string()))));
    assert_eq!(m.content, "hi");
    assert_eq!(c.history().len(), 3);
}

#[test]
fn tool_turns_follow_call_order() {
    let mut c = coordinator_with(vec![calculator()], 5);
    expect_generate(c.chat(vec![Message::user("two sums".to_string())]));
    let calls = expect_dispatch(c.on_model_reply(Ok(AssistantTurn::ToolCalls(
        vec![
            call("b", "calculator", "{\"expression\":\"1+1\"}"),
            call("a", "calculator", "{\"expression\":\"2+3\"}"),
            call("c", "missing", "{}"),
        ],
        "working".to_string(),
    ))));
    assert_eq!(calls.iter().map(|k| k.id.as_str()).collect::<Vec<_>>(), vec!["b", "a", "c"]);
    expect_generate(c.on_tool_results(vec![
        Ok("2".to_string()),
        Err(ToolError::ExecutionFailed("division by zero".to_string())),
        Err(ToolError::UnknownTool),
    ]));
    let h = c.history();
    assert_eq!(h.len(), 5);
    assert_eq!(h[1].content, "working");
    let ids: Vec<_> = h[2..].iter().map(|m| m.tool_call_id.clone().unwrap()).collect();
    assert_eq!(ids, vec!["b", "a", "c"]);
    assert_eq!(h[2].content, "2");
    assert_eq!(h[3].content, "error: tool calculator failed: division by zero");
    assert_eq!(h[4].content, "error: unknown tool missing");
    assert_eq!(c.phase(), Phase::RequestSent);
}

#[test]
fn tool_loop_exceeded_keeps_transcript() {
    let mut c = coordinator_with(vec![calculator()], 1);
    expect_generate(c.chat(vec![Message::user("loop".to_string())]));
    expect_dispatch(c.on_model_reply(Ok(AssistantTurn::ToolCalls(
        vec![call("1", "calculator", "{}")],
        String::new(),
    ))));
    expect_generate(c.on_tool_results(vec![Err(ToolError::InvalidParameters("missing field `expression`".to_string()))]));
    assert_eq!(c.history()[2].content, "error: invalid parameters for calculator: missing field `expression`");
    match c.on_model_reply(Ok(AssistantTurn::ToolCalls(vec![call("2", "calculator", "{}")], String::new()))) {
        Action::Fail(e) => assert_eq!(e, CoordinatorError::ToolLoopExceeded),
        other => panic!("expected a failure, got {:?}", other),
    }
    let h = c.history();
    assert_eq!(h.len(), 4);
    assert_eq!(h[3].role, Role::Assistant);
    assert_eq!(h[3].tool_calls[0].id, "2");
    assert_eq!(c.phase(), Phase::AwaitingUserInput);
}

#[test]
fn zero_rounds_refuses_any_tool_call() {
    let mut c = coordinator_with(vec![calculator()], 0);
    expect_generate(c.chat(vec![Message::user("x".to_string())]));
    match c.on_model_reply(Ok(AssistantTurn::ToolCalls(vec![call("1", "calculator", "{}")], String::new()))) {
        Action::Fail(e) => assert_eq!(e, CoordinatorError::ToolLoopExceeded),
        other => panic!("expected a failure, got {:?}", other),
    }
    assert_eq!(c.history().len(), 2);
}

#[test]
fn repeated_call_ids_are_a_protocol_error() {
    let mut c = coordinator_with(vec![calculator()], 5);
    expect_generate(c.chat(vec![Message::user("x".to_string())]));
    let reply = AssistantTurn::ToolCalls(
        vec![call("same", "calculator", "{}"), call("same", "calculator", "{}")],
        String::new(),
    );
    match c.on_model_reply(Ok(reply)) {
        Action::Fail(e) => assert_eq!(e, CoordinatorError::ModelError(ModelError::ProtocolError)),
        other => panic!("expected a failure, got {:?}", other),
    }
    assert_eq!(c.history().len(), 1);
}

#[test]
fn empty_tool_call_list_is_a_plain_answer() {
    let mut c = coordinator_with(vec![], 5);
    expect_generate(c.chat(vec![Message::user("x".to_string())]));
    let m = expect_reply(c.on_model_reply(Ok(AssistantTurn::ToolCalls(vec![], "plain".to_string()))));
    assert_eq!(m.content, "plain");
    assert_eq!(c.history().len(), 2);
}

#[test]
fn cancel_keeps_history_before_the_stage() {
    let mut c = coordinator_with(vec![calculator()], 5);
    expect_generate(c.chat(vec![Message::user("x".to_string())]));
    expect_dispatch(c.on_model_reply(Ok(AssistantTurn::ToolCalls(vec![call("1", "calculator", "{}")], String::new()))));
    match c.on_cancel() {
        Action::Fail(e) => assert_eq!(e, CoordinatorError::Cancelled),
        other => panic!("expected a failure, got {:?}", other),
    }
    assert_eq!(c.history().len(), 2);
    assert_eq!(c.phase(), Phase::AwaitingUserInput);
}

#[test]
fn describe_is_stable_across_calls() {
    let mut c = coordinator_with(vec![calculator(), camera_tool_descriptor()], 5);
    let names = |c: &Coordinator| c.describe().iter().map(|d| d.name.clone()).collect::<Vec<_>>();
    let first = names(&c);
    assert_eq!(first, vec!["calculator", "my_tool"]);
    expect_generate(c.chat(vec![Message::user("x".to_string())]));
    assert_eq!(names(&c), first);
    expect_dispatch(c.on_model_reply(Ok(AssistantTurn::ToolCalls(vec![call("1", "my_tool", "{}")], String::new()))));
    assert_eq!(names(&c), first);
    expect_generate(c.on_tool_results(vec![Ok("done".to_string())]));
    assert_eq!(names(&c), first);
    assert_eq!(c.describe().len(), 2);
}

#[test]
fn registry_refuses_a_second_tool_of_one_name() {
    let mut r = ToolRegistry::new();
    assert!(r.add_tool(calculator()));
    assert!(!r.add_tool(calculator()));
    assert_eq!(r.describe().len(), 1);
    assert!(matches!(r.resolve(&"calculator".to_string()), Ok(0)));
    assert!(matches!(r.resolve(&"weather".to_string()), Err(ToolError::UnknownTool)));
}

#[test]
fn error_descriptions() {
    assert_eq!(describe_error("t", &ToolError::UnknownTool), "error: unknown tool t");
    assert_eq!(
        describe_error("t", &ToolError::InvalidParameters("bad".to_string())),
        "error: invalid parameters for t: bad"
    );
    assert_eq!(
        describe_error("t", &ToolError::ExecutionFailed("boom".to_string())),
        "error: tool t failed: boom"
    );
    assert_eq!(outcome_content("t", &Ok("fine".to_string())), "fine");
    assert_eq!(outcome_content("t", &Err(ToolError::UnknownTool)), "error: unknown tool t");
}

#[test]
fn distinct_ids_check() {
    assert!(ids_distinct(&vec![]));
    assert!(ids_distinct(&vec![call("a", "x", ""), call("b", "x", "")]));
    assert!(!ids_distinct(&vec![call("a", "x", ""), call("b", "y", ""), call("a", "z", "")]));
}

#[test]
fn camera_tool() {
    let d = camera_tool_descriptor();
    assert_eq!(d.name, "my_tool");
    assert_eq!(d.description, "My custom tool");
    assert_eq!(d.params.len(), 1);
    assert_eq!(d.params[0].name, "camera");
    assert_eq!(d.params[0].json_type, "string");
    assert!(d.params[0].hint.contains("`altar` for viewing the altar"));
    let p = MyToolParams::new("wide".to_string());
    assert_eq!(p.camera, "wide");
    assert_eq!(camera_tool_reply(&p), "done");
}

#[test]
fn options_and_flags_are_kept() {
    let c = Coordinator::new(ToolRegistry::new(), GenerationOptions { num_ctx: Some(16384) }, 7, true);
    assert_eq!(c.options().num_ctx, Some(16384));
    assert!(c.debug());
    assert_eq!(c.max_rounds(), 7);
    assert_eq!(c.phase(), Phase::AwaitingUserInput);
    assert!(c.history().is_empty());
}
