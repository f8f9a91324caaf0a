use reply_parts::stream::{AdapterAction, AdapterEvent, AdapterMode, StreamAdapter,
    messages_for_provider};
use reply_parts::toolshim::{
    modify_system_prompt_for_tool_json, toolshim_postprocess, InterpreterOutcome,
};
use reply_parts::types::{
    Message, MessageContent, ModelConfig, ProviderError, ProviderUsage, Role, Tool, ToolResponse,
    Usage,
};

fn config(toolshim: bool) -> ModelConfig {
    ModelConfig { model_name: "test-model".to_string(), toolshim }
}

fn assistant_text(text: &str) -> Message {
    Message::new(Role::Assistant, 1, vec![MessageContent::Text(text.to_string())])
}

fn some_usage(model: &str) -> Option<ProviderUsage> {
    Some(ProviderUsage {
        model: model.to_string(),
        usage: Usage { input_tokens: Some(1), output_tokens: Some(2), total_tokens: Some(3) },
    })
}

#[test]
fn open_failure_yields_exactly_that_error_and_nothing_more() {
    let mut adapter = StreamAdapter::new(&config(false), Vec::new());
    let action = adapter.step(AdapterEvent::OpenFailed(ProviderError::RequestFailed(
        "boom".to_string(),
    )));
    assert!(
        matches!(&action, AdapterAction::YieldError(ProviderError::RequestFailed(m)) if m == "boom")
    );
    // Whatever the host feeds afterwards, nothing more is yielded.
    let after = adapter.step(AdapterEvent::Chunk {
        message: Some(assistant_text("late")),
        usage: some_usage("m"),
    });
    assert!(matches!(after, AdapterAction::Stop));
    let after_end = adapter.step(AdapterEvent::StreamEnded);
    assert!(matches!(after_end, AdapterAction::Stop));
}

#[test]
fn chunks_are_yielded_in_order_without_toolshim() {
    let mut adapter = StreamAdapter::new(&config(false), Vec::new());
    assert!(matches!(adapter.step(AdapterEvent::Opened), AdapterAction::Stop));

    let first = adapter.step(AdapterEvent::Chunk {
        message: Some(assistant_text("partial")),
        usage: None,
    });
    match first {
        AdapterAction::Yield { message, usage } => {
            let message = message.expect("message should be yielded");
            assert!(matches!(&message.content[0], MessageContent::Text(t) if t == "partial"));
            assert!(usage.is_none());
        }
        _ => panic!("expected a yield"),
    }

    let second = adapter.step(AdapterEvent::Chunk { message: None, usage: some_usage("gpt-x") });
    match second {
        AdapterAction::Yield { message, usage } => {
            assert!(message.is_none());
            assert_eq!(usage.expect("usage should be yielded").model, "gpt-x");
        }
        _ => panic!("expected a yield"),
    }
    assert_eq!(adapter.last_model.as_deref(), Some("gpt-x"));

    assert!(matches!(adapter.step(AdapterEvent::StreamEnded), AdapterAction::Stop));
    assert!(matches!(adapter.mode, AdapterMode::Done));
}

#[test]
fn chunk_failure_ends_the_sequence_with_that_error() {
    let mut adapter = StreamAdapter::new(&config(false), Vec::new());
    adapter.step(AdapterEvent::Opened);

    // One good chunk is yielded first.
    let first = adapter.step(AdapterEvent::Chunk {
        message: Some(assistant_text("partial")),
        usage: None,
    });
    assert!(matches!(first, AdapterAction::Yield { .. }));

    // The failed receive becomes the terminal item.
    let failed = adapter.step(AdapterEvent::ChunkFailed(ProviderError::RequestFailed(
        "connection reset".to_string(),
    )));
    assert!(matches!(
        &failed,
        AdapterAction::YieldError(ProviderError::RequestFailed(m)) if m == "connection reset"
    ));
    assert!(matches!(adapter.mode, AdapterMode::Done));

    // Nothing more is yielded, whatever still arrives.
    let after = adapter.step(AdapterEvent::Chunk {
        message: Some(assistant_text("late")),
        usage: some_usage("m"),
    });
    assert!(matches!(after, AdapterAction::Stop));
    assert!(matches!(adapter.step(AdapterEvent::StreamEnded), AdapterAction::Stop));
}

#[test]
fn usage_records_last_model_seen() {
    let mut adapter = StreamAdapter::new(&config(false), Vec::new());
    adapter.step(AdapterEvent::Opened);
    assert!(adapter.last_model.is_none());
    adapter.step(AdapterEvent::Chunk { message: None, usage: some_usage("first") });
    assert_eq!(adapter.last_model.as_deref(), Some("first"));
    adapter.step(AdapterEvent::Chunk { message: None, usage: some_usage("second") });
    assert_eq!(adapter.last_model.as_deref(), Some("second"));
    adapter.step(AdapterEvent::Chunk { message: None, usage: None });
    assert_eq!(adapter.last_model.as_deref(), Some("second"));
}

#[test]
fn toolshim_routes_completed_messages_through_the_interpreter() {
    let mut adapter = StreamAdapter::new(&config(true), Vec::new());
    adapter.step(AdapterEvent::Opened);

    let action = adapter.step(AdapterEvent::Chunk {
        message: Some(assistant_text("raw model text")),
        usage: some_usage("shim-model"),
    });
    match action {
        AdapterAction::Interpret(m) => {
            assert!(matches!(&m.content[0], MessageContent::Text(t) if t == "raw model text"));
        }
        _ => panic!("expected an interpreter request"),
    }

    // The chunk's usage is held back and yielded with the augmented message.
    let augmented = assistant_text("augmented");
    let done = adapter.step(AdapterEvent::Interpreted(Ok(augmented)));
    match done {
        AdapterAction::Yield { message, usage } => {
            let message = message.expect("augmented message should be yielded");
            assert!(matches!(&message.content[0], MessageContent::Text(t) if t == "augmented"));
            assert_eq!(usage.expect("pending usage should be yielded").model, "shim-model");
        }
        _ => panic!("expected a yield"),
    }
}

#[test]
fn interpreter_failure_ends_the_sequence_with_that_error() {
    let mut adapter = StreamAdapter::new(&config(true), Vec::new());
    adapter.step(AdapterEvent::Opened);
    adapter.step(AdapterEvent::Chunk { message: Some(assistant_text("x")), usage: None });
    let action = adapter.step(AdapterEvent::Interpreted(Err(ProviderError::ExecutionError(
        "interpreter broke".to_string(),
    ))));
    assert!(matches!(
        &action,
        AdapterAction::YieldError(ProviderError::ExecutionError(m)) if m == "interpreter broke"
    ));
    assert!(matches!(adapter.mode, AdapterMode::Done));
    let after = adapter.step(AdapterEvent::Chunk { message: None, usage: None });
    assert!(matches!(after, AdapterAction::Stop));
}

#[test]
fn toolshim_postprocess_wraps_construction_failure() {
    let r = toolshim_postprocess(InterpreterOutcome::Unavailable("no local model".to_string()));
    match r {
        Err(ProviderError::ExecutionError(m)) => {
            assert_eq!(m, "Failed to create tool call interpreter: no local model");
        }
        _ => panic!("expected an execution error"),
    }
}

#[test]
fn toolshim_postprocess_wraps_augmentation_failure() {
    let r = toolshim_postprocess(InterpreterOutcome::AugmentFailed("bad json".to_string()));
    match r {
        Err(ProviderError::ExecutionError(m)) => {
            assert_eq!(m, "Failed to augment message: bad json");
        }
        _ => panic!("expected an execution error"),
    }
}

#[test]
fn toolshim_postprocess_passes_augmented_message_through() {
    let r = toolshim_postprocess(InterpreterOutcome::Augmented(assistant_text("ok")));
    match r {
        Ok(m) => assert!(matches!(&m.content[0], MessageContent::Text(t) if t == "ok")),
        _ => panic!("expected the message"),
    }
}

#[test]
fn modify_system_prompt_appends_exact_schema_section() {
    let tools = vec![Tool {
        name: "nm".to_string(),
        description: "dsc".to_string(),
        input_schema: "{\"type\":\"object\"}".to_string(),
    }];
    let prompt = modify_system_prompt_for_tool_json("base", &tools);
    let expected = format!(
        "base\n\nAvailable tools, described as JSON schemas. To call a tool, answer with a JSON object holding the tool name and its arguments.\n{}",
        "Tool: nm\nDescription: dsc\nSchema: {\"type\":\"object\"}\n"
    );
    assert_eq!(prompt, expected);
}

#[test]
fn convert_rewrites_tool_results_to_text_and_keeps_the_rest() {
    let message = Message::new(
        Role::User,
        9,
        vec![
            MessageContent::Text("before".to_string()),
            MessageContent::ToolResponse(ToolResponse {
                id: "call-1".to_string(),
                output: "42".to_string(),
            }),
        ],
    );
    let converted = messages_for_provider(&config(true), vec![message]);
    assert_eq!(converted.len(), 1);
    assert_eq!(converted[0].role, Role::User);
    assert_eq!(converted[0].created, 9);
    assert_eq!(converted[0].content.len(), 2);
    assert!(matches!(&converted[0].content[0], MessageContent::Text(t) if t == "before"));
    assert!(
        matches!(&converted[0].content[1], MessageContent::Text(t) if t == "Tool result for call-1: 42")
    );
}

#[test]
fn opaque_content_survives_outbound_conversion() {
    let message = Message::new(
        Role::User,
        4,
        vec![
            MessageContent::Other("image: a sunset".to_string()),
            MessageContent::ToolResponse(ToolResponse {
                id: "call-2".to_string(),
                output: "done".to_string(),
            }),
        ],
    );
    let converted = messages_for_provider(&config(true), vec![message]);
    assert_eq!(converted[0].content.len(), 2);
    assert!(
        matches!(&converted[0].content[0], MessageContent::Other(raw) if raw == "image: a sunset")
    );
    assert!(matches!(&converted[0].content[1], MessageContent::Text(_)));
}

#[test]
fn messages_pass_through_unchanged_without_toolshim() {
    let message = Message::new(
        Role::User,
        2,
        vec![MessageContent::ToolResponse(ToolResponse {
            id: "call-1".to_string(),
            output: "42".to_string(),
        })],
    );
    let converted = messages_for_provider(&config(false), vec![message]);
    assert_eq!(converted.len(), 1);
    assert!(matches!(&converted[0].content[0], MessageContent::ToolResponse(r) if r.id == "call-1"));
}
