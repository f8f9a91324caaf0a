//! The text-based tool-calling compatibility layer: embedding tool schemas
//! into the system prompt, rewriting tool-result content into plain text
//! before dispatch to a provider without a native tool channel, and folding
//! the external text interpreter's outcome into the provider error channel.

use vstd::prelude::*;
use vstd::string::StringExecFns;

use crate::types::{Message, MessageContent, ProviderError, Tool, ToolResponse};

verus! {

/// Text that opens the schema section appended to a toolshim prompt.
pub open spec fn spec_tool_section_header() -> Seq<char> {
    "\n\nAvailable tools, described as JSON schemas. To call a tool, answer with a JSON object holding the tool name and its arguments.\n"@
}

/// The schema text injected for one tool.
pub open spec fn spec_tool_entry(t: Tool) -> Seq<char> {
    "Tool: "@ + t.name@ + "\nDescription: "@ + t.description@ + "\nSchema: "@ + t.input_schema@
        + "\n"@
}

/// The schema text injected for a tool list, in list order.
pub open spec fn spec_tool_entries(tools: Seq<Tool>) -> Seq<char>
    decreases tools.len(),
{
    if tools.len() == 0 {
        Seq::empty()
    } else {
        spec_tool_entries(tools.drop_last()) + spec_tool_entry(tools.last())
    }
}

/// Everything `modify_system_prompt_for_tool_json` appends to the prompt.
pub open spec fn spec_tool_json_section(tools: Seq<Tool>) -> Seq<char> {
    spec_tool_section_header() + spec_tool_entries(tools)
}

/// Appends a textual specification of every tool's schema to the system
/// prompt, so a model without native tool-calling sees the tools as
/// instructions.
pub fn modify_system_prompt_for_tool_json(system_prompt: &str, tools: &Vec<Tool>) -> (r: String)
    ensures
        r@ == system_prompt@ + spec_tool_json_section(tools@),
{
    let mut out = system_prompt.to_owned();
    out.append(
        "\n\nAvailable tools, described as JSON schemas. To call a tool, answer with a JSON object holding the tool name and its arguments.\n",
    );
    let n = tools.len();
    let mut i: usize = 0;
    proof {
        assert(tools@.take(0) =~= Seq::<Tool>::empty());
    }
    while i < n
        invariant
            n == tools@.len(),
            i <= n,
            out@ == system_prompt@ + spec_tool_section_header() + spec_tool_entries(
                tools@.take(i as int),
            ),
        decreases n - i,
    {
        out.append("Tool: ");
        out.append(tools[i].name.as_str());
        out.append("\nDescription: ");
        out.append(tools[i].description.as_str());
        out.append("\nSchema: ");
        out.append(tools[i].input_schema.as_str());
        out.append("\n");
        proof {
            let post = tools@.take(i as int + 1);
            assert(post.drop_last() =~= tools@.take(i as int));
            assert(post.last() == tools@[i as int]);
            assert(out@ =~= system_prompt@ + spec_tool_section_header() + spec_tool_entries(post));
        }
        i += 1;
    }
    proof {
        assert(tools@.take(n as int) =~= tools@);
    }
    out
}

/// The plain-text rendering a tool result is replaced by.
pub open spec fn spec_tool_response_text(r: ToolResponse) -> Seq<char> {
    "Tool result for "@ + r.id@ + ": "@ + r.output@
}

/// Renders one tool result as plain text.
pub fn render_tool_response(resp: &ToolResponse) -> (r: String)
    ensures
        r@ == spec_tool_response_text(*resp),
{
    let mut out = "Tool result for ".to_owned();
    out.append(resp.id.as_str());
    out.append(": ");
    out.append(resp.output.as_str());
    out
}

/// How one content item is rewritten for a provider without a native
/// tool-result channel: a tool result becomes its text rendering, everything
/// else is untouched.
pub open spec fn spec_converted_item(c: MessageContent, d: MessageContent) -> bool {
    match c {
        MessageContent::ToolResponse(resp) => d matches MessageContent::Text(t) && t@
            == spec_tool_response_text(resp),
        _ => d == c,
    }
}

/// Rewrites tool-result-bearing messages into plain text, item by item;
/// message order, content order and all other fields are preserved.
pub fn convert_tool_messages_to_text(messages: &Vec<Message>) -> (r: Vec<Message>)
    ensures
        r@.len() == messages@.len(),
        forall|i: int|
            0 <= i < messages@.len() ==> {
                &&& (#[trigger] r@[i]).role == messages@[i].role
                &&& r@[i].created == messages@[i].created
                &&& r@[i].id == messages@[i].id
                &&& r@[i].content@.len() == messages@[i].content@.len()
                &&& forall|j: int|
                    0 <= j < messages@[i].content@.len() ==> spec_converted_item(
                        messages@[i].content@[j],
                        #[trigger] r@[i].content@[j],
                    )
            },
{
    let mut result: Vec<Message> = Vec::new();
    let n = messages.len();
    let mut i: usize = 0;
    while i < n
        invariant
            n == messages@.len(),
            i <= n,
            result@.len() == i,
            forall|k: int|
                0 <= k < i ==> {
                    &&& (#[trigger] result@[k]).role == messages@[k].role
                    &&& result@[k].created == messages@[k].created
                    &&& result@[k].id == messages@[k].id
                    &&& result@[k].content@.len() == messages@[k].content@.len()
                    &&& forall|j: int|
                        0 <= j < messages@[k].content@.len() ==> spec_converted_item(
                            messages@[k].content@[j],
                            #[trigger] result@[k].content@[j],
                        )
                },
        decreases n - i,
    {
        let message = &messages[i];
        let mut content: Vec<MessageContent> = Vec::new();
        let m = message.content.len();
        let mut j: usize = 0;
        while j < m
            invariant
                m == message.content@.len(),
                j <= m,
                content@.len() == j,
                forall|l: int|
                    0 <= l < j ==> spec_converted_item(
                        message.content@[l],
                        #[trigger] content@[l],
                    ),
            decreases m - j,
        {
            match &message.content[j] {
                MessageContent::ToolResponse(resp) => {
                    content.push(MessageContent::Text(render_tool_response(resp)));
                },
                other => {
                    content.push(other.clone());
                },
            }
            j += 1;
        }
        let id = match &message.id {
            Some(s) => Some(s.clone()),
            None => None,
        };
        result.push(
            Message { role: message.role, created: message.created, content, id },
        );
        i += 1;
    }
    result
}

/// What happened when the completed message was handed to the external
/// tool-call text interpreter.
pub enum InterpreterOutcome {
    /// The interpreter could not be constructed.
    Unavailable(String),
    /// The interpreter ran but failed to augment the message.
    AugmentFailed(String),
    /// The augmented message, carrying the reconstructed tool requests.
    Augmented(Message),
}

/// Prefix of the error reported when the interpreter cannot be constructed.
pub open spec fn spec_interpreter_unavailable_prefix() -> Seq<char> {
    "Failed to create tool call interpreter: "@
}

/// Prefix of the error reported when augmentation fails.
pub open spec fn spec_augment_failed_prefix() -> Seq<char> {
    "Failed to augment message: "@
}

/// Folds the interpreter's outcome into the provider error channel: both
/// failure modes surface as execution errors, success passes the augmented
/// message through unchanged.
pub fn toolshim_postprocess(outcome: InterpreterOutcome) -> (r: Result<Message, ProviderError>)
    ensures
        match outcome {
            InterpreterOutcome::Unavailable(e) => r matches Err(
                ProviderError::ExecutionError(m),
            ) && m@ == spec_interpreter_unavailable_prefix() + e@,
            InterpreterOutcome::AugmentFailed(e) => r matches Err(
                ProviderError::ExecutionError(m),
            ) && m@ == spec_augment_failed_prefix() + e@,
            InterpreterOutcome::Augmented(msg) => r matches Ok(m) && m == msg,
        },
{
    match outcome {
        InterpreterOutcome::Unavailable(e) => {
            let mut m = "Failed to create tool call interpreter: ".to_owned();
            m.append(e.as_str());
            Err(ProviderError::ExecutionError(m))
        },
        InterpreterOutcome::AugmentFailed(e) => {
            let mut m = "Failed to augment message: ".to_owned();
            m.append(e.as_str());
            Err(ProviderError::ExecutionError(m))
        },
        InterpreterOutcome::Augmented(msg) => Ok(msg),
    }
}

} // verus!
