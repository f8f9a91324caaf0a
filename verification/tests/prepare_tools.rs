use reply_parts::prepare::{
    dynamic_task_tool_prefix, prepare_tools_and_prompt, sort_tools_by_name,
    subagent_execute_task_tool_name,
};
use reply_parts::types::{ModelConfig, Tool};

fn tool(name: &str, description: &str) -> Tool {
    Tool {
        name: name.to_string(),
        description: description.to_string(),
        input_schema: "{\"type\":\"object\",\"properties\":{}}".to_string(),
    }
}

fn names(tools: &[Tool]) -> Vec<String> {
    tools.iter().map(|t| t.name.clone()).collect()
}

fn config(toolshim: bool) -> ModelConfig {
    ModelConfig { model_name: "test-model".to_string(), toolshim }
}

#[test]
fn prepare_tools_sorts_when_router_disabled_and_includes_frontend_and_list_tools() {
    let fallback = vec![tool("platform__manage_extensions", "Manage extensions")];
    let frontend = vec![tool("frontend__z_tool", "Z tool"), tool("frontend__a_tool", "A tool")];

    let (tools, _toolshim_tools, _system_prompt) = prepare_tools_and_prompt(
        false,
        Vec::new(),
        fallback,
        true,
        &frontend,
        "desc".to_string(),
        &config(false),
    );

    let names: Vec<String> = names(&tools);
    assert!(names.iter().any(|n| n.starts_with("platform__")));
    assert!(names.iter().any(|n| n == "frontend__a_tool"));
    assert!(names.iter().any(|n| n == "frontend__z_tool"));

    let mut sorted = names.clone();
    sorted.sort();
    assert_eq!(names, sorted);
}

#[test]
fn router_disabled_sorts_tool_names() {
    let merged = vec![tool("z_tool", "z"), tool("a_tool", "a"), tool("m_tool", "m")];
    let (tools, toolshim_tools, prompt) = prepare_tools_and_prompt(
        false,
        merged,
        Vec::new(),
        true,
        &Vec::new(),
        "base prompt".to_string(),
        &config(false),
    );
    assert_eq!(names(&tools), vec!["a_tool", "m_tool", "z_tool"]);
    assert!(toolshim_tools.is_empty());
    assert_eq!(prompt, "base prompt");
}

#[test]
fn router_enabled_keeps_router_order() {
    let router = vec![tool("z_tool", "z"), tool("a_tool", "a")];
    let frontend = vec![tool("m_tool", "m")];
    let (tools, _, _) = prepare_tools_and_prompt(
        true,
        router,
        Vec::new(),
        true,
        &frontend,
        "p".to_string(),
        &config(false),
    );
    assert_eq!(names(&tools), vec!["z_tool", "a_tool", "m_tool"]);
}

#[test]
fn toolshim_disabled_injects_no_schema_text() {
    let (tools, toolshim_tools, prompt) = prepare_tools_and_prompt(
        false,
        vec![tool("a_tool", "a")],
        Vec::new(),
        true,
        &Vec::new(),
        "the system prompt".to_string(),
        &config(false),
    );
    assert_eq!(names(&tools), vec!["a_tool"]);
    assert!(toolshim_tools.is_empty());
    assert_eq!(prompt, "the system prompt");
    assert!(!prompt.contains("Available tools"));
}

#[test]
fn toolshim_enabled_clears_tools_and_injects_schema_text() {
    let (tools, toolshim_tools, prompt) = prepare_tools_and_prompt(
        false,
        vec![tool("b_tool", "b"), tool("a_tool", "a")],
        Vec::new(),
        true,
        &Vec::new(),
        "the system prompt".to_string(),
        &config(true),
    );
    assert!(tools.is_empty());
    assert_eq!(names(&toolshim_tools), vec!["a_tool", "b_tool"]);
    assert!(prompt.starts_with("the system prompt"));
    assert!(prompt.contains("Available tools"));
    assert!(prompt.contains("Tool: a_tool"));
    assert!(prompt.contains("Tool: b_tool"));
}

#[test]
fn fallback_strips_task_tools_when_subagents_unsupported() {
    let fallback = vec![
        tool("alpha", "a"),
        tool(subagent_execute_task_tool_name(), "run a sub-agent task"),
        tool(&format!("{}summarize", dynamic_task_tool_prefix()), "generated"),
        tool("beta", "b"),
    ];
    let (tools, _, _) = prepare_tools_and_prompt(
        false,
        Vec::new(),
        fallback,
        false,
        &Vec::new(),
        "p".to_string(),
        &config(false),
    );
    assert_eq!(names(&tools), vec!["alpha", "beta"]);
}

#[test]
fn fallback_keeps_task_tools_when_subagents_supported() {
    let fallback = vec![tool("alpha", "a"), tool(subagent_execute_task_tool_name(), "run")];
    let (tools, _, _) = prepare_tools_and_prompt(
        false,
        Vec::new(),
        fallback,
        true,
        &Vec::new(),
        "p".to_string(),
        &config(false),
    );
    assert_eq!(names(&tools), vec!["alpha", subagent_execute_task_tool_name()]);
}

#[test]
fn fallback_unused_when_router_returns_tools() {
    let router = vec![tool("kept", "k")];
    let fallback = vec![tool("ignored", "i")];
    let (tools, _, _) = prepare_tools_and_prompt(
        false,
        router,
        fallback,
        true,
        &Vec::new(),
        "p".to_string(),
        &config(false),
    );
    assert_eq!(names(&tools), vec!["kept"]);
}

#[test]
fn sort_is_stable_for_equal_names() {
    let tools = vec![tool("dup", "first"), tool("aaa", "x"), tool("dup", "second")];
    let sorted = sort_tools_by_name(tools);
    assert_eq!(names(&sorted), vec!["aaa", "dup", "dup"]);
    assert_eq!(sorted[1].description, "first");
    assert_eq!(sorted[2].description, "second");
}

#[test]
fn sort_of_empty_list_is_empty() {
    let sorted = sort_tools_by_name(Vec::new());
    assert!(sorted.is_empty());
}

#[test]
fn frontend_tools_appended_without_dedup() {
    let router = vec![tool("shared", "router copy")];
    let frontend = vec![tool("shared", "frontend copy")];
    let (tools, _, _) = prepare_tools_and_prompt(
        true,
        router,
        Vec::new(),
        true,
        &frontend,
        "p".to_string(),
        &config(false),
    );
    assert_eq!(names(&tools), vec!["shared", "shared"]);
    assert_eq!(tools[0].description, "router copy");
    assert_eq!(tools[1].description, "frontend copy");
}
