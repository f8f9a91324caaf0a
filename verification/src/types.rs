//! Plain data model of the pipeline: tools, messages, usage figures and the
//! errors the pipeline can produce or pass through.

use vstd::prelude::*;

verus! {

/// An immutable capability descriptor. Identity is the name; the description
/// and the JSON input schema are carried opaquely (the schema as its
/// serialized text).
pub struct Tool {
    pub name: String,
    pub description: String,
    pub input_schema: String,
}

impl Clone for Tool {
    fn clone(&self) -> (r: Self)
        ensures
            r == *self,
    {
        Tool {
            name: self.name.clone(),
            description: self.description.clone(),
            input_schema: self.input_schema.clone(),
        }
    }
}

/// The slice of a provider's model configuration this pipeline reads.
pub struct ModelConfig {
    pub model_name: String,
    pub toolshim: bool,
}

#[derive(Clone, Copy, Debug, PartialEq, Eq, Structural)]
pub enum Role {
    User,
    Assistant,
    System,
}

/// A successfully parsed tool invocation.
pub struct ToolCall {
    pub name: String,
    pub arguments: String,
}

impl Clone for ToolCall {
    fn clone(&self) -> (r: Self)
        ensures
            r == *self,
    {
        ToolCall { name: self.name.clone(), arguments: self.arguments.clone() }
    }
}

/// Why a tool call could not be parsed from the model's output.
pub struct ToolCallError {
    pub message: String,
}

impl Clone for ToolCallError {
    fn clone(&self) -> (r: Self)
        ensures
            r == *self,
    {
        ToolCallError { message: self.message.clone() }
    }
}

/// A tool invocation requested by the model. A request whose call failed to
/// parse is still a valid request; no tool name is available for it.
pub struct ToolRequest {
    pub id: String,
    pub tool_call: Result<ToolCall, ToolCallError>,
}

impl Clone for ToolRequest {
    fn clone(&self) -> (r: Self)
        ensures
            r == *self,
    {
        let tool_call = match &self.tool_call {
            Ok(c) => Ok(c.clone()),
            Err(e) => Err(e.clone()),
        };
        ToolRequest { id: self.id.clone(), tool_call }
    }
}

/// The result a tool execution reported back, carried opaquely.
pub struct ToolResponse {
    pub id: String,
    pub output: String,
}

impl Clone for ToolResponse {
    fn clone(&self) -> (r: Self)
        ensures
            r == *self,
    {
        ToolResponse { id: self.id.clone(), output: self.output.clone() }
    }
}

/// One item of a message's content. Only `ToolRequest` is interpreted by the
/// pipeline; the other variants pass through untouched. Content kinds the
/// pipeline has no interest in (images, thinking, and whatever else a host
/// carries) travel in `Other`, opaquely.
pub enum MessageContent {
    Text(String),
    ToolRequest(ToolRequest),
    ToolResponse(ToolResponse),
    Other(String),
}

impl Clone for MessageContent {
    fn clone(&self) -> (r: Self)
        ensures
            r == *self,
    {
        match self {
            MessageContent::Text(t) => MessageContent::Text(t.clone()),
            MessageContent::ToolRequest(req) => MessageContent::ToolRequest(req.clone()),
            MessageContent::ToolResponse(resp) => MessageContent::ToolResponse(resp.clone()),
            MessageContent::Other(raw) => MessageContent::Other(raw.clone()),
        }
    }
}

/// A conversation message. The order of `content` is meaningful and is
/// preserved by every transformation in this pipeline.
pub struct Message {
    pub role: Role,
    pub created: i64,
    pub content: Vec<MessageContent>,
    pub id: Option<String>,
}

impl Clone for Message {
    fn clone(&self) -> (r: Self)
        ensures
            r.role == self.role,
            r.created == self.created,
            r.id == self.id,
            r.content@ == self.content@,
    {
        let mut content: Vec<MessageContent> = Vec::new();
        let n = self.content.len();
        let mut i: usize = 0;
        while i < n
            invariant
                n == self.content@.len(),
                i <= n,
                content@ == self.content@.take(i as int),
            decreases n - i,
        {
            content.push(self.content[i].clone());
            proof {
                assert(content@ =~= self.content@.take(i as int + 1));
            }
            i += 1;
        }
        proof {
            assert(self.content@.take(n as int) =~= self.content@);
        }
        let id = match &self.id {
            Some(s) => Some(s.clone()),
            None => None,
        };
        Message { role: self.role, created: self.created, content, id }
    }
}

impl Message {
    pub fn new(role: Role, created: i64, content: Vec<MessageContent>) -> (m: Message)
        ensures
            m.role == role,
            m.created == created,
            m.content == content,
            m.id matches Option::<String>::None,
    {
        Message { role, created, content, id: None }
    }

    pub fn with_id(self, id: String) -> (m: Message)
        ensures
            m.role == self.role,
            m.created == self.created,
            m.content == self.content,
            m.id == Some(id),
    {
        Message { id: Some(id), ..self }
    }
}

/// Token counts of one model call; absence means "unknown", never zero.
#[derive(Clone, Copy, PartialEq, Eq, Structural)]
pub struct Usage {
    pub input_tokens: Option<i32>,
    pub output_tokens: Option<i32>,
    pub total_tokens: Option<i32>,
}

/// Usage of one call together with the model that served it.
pub struct ProviderUsage {
    pub model: String,
    pub usage: Usage,
}

impl Clone for ProviderUsage {
    fn clone(&self) -> (r: Self)
        ensures
            r == *self,
    {
        ProviderUsage { model: self.model.clone(), usage: self.usage }
    }
}

/// Identifies the durable session one model call belongs to.
pub struct SessionConfig {
    pub id: String,
    pub schedule_id: Option<String>,
}

/// The accumulated counters the external session store holds for a session.
#[derive(Clone, Copy, PartialEq, Eq, Structural)]
pub struct Session {
    pub accumulated_total_tokens: Option<i32>,
    pub accumulated_input_tokens: Option<i32>,
    pub accumulated_output_tokens: Option<i32>,
}

/// A failure of a provider call, or of the toolshim layer folded into the
/// provider error channel so callers have a single place to branch on.
pub enum ProviderError {
    /// The provider call itself failed (transport, auth, model).
    RequestFailed(String),
    /// A step around the call failed (e.g. the toolshim interpreter).
    ExecutionError(String),
}

impl Clone for ProviderError {
    fn clone(&self) -> (r: Self)
        ensures
            r == *self,
    {
        match self {
            ProviderError::RequestFailed(m) => ProviderError::RequestFailed(m.clone()),
            ProviderError::ExecutionError(m) => ProviderError::ExecutionError(m.clone()),
        }
    }
}

} // verus!
