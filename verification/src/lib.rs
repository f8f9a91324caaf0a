//! Core of an LLM agent's response-generation pipeline: preparing the tool
//! list and system prompt for a model call, adapting streaming and one-shot
//! providers into one uniform item sequence, the text-based tool-calling
//! compatibility layer ("toolshim"), partitioning tool requests between
//! frontend- and agent-handled execution, and merging per-call token usage
//! into session accounting.

pub mod categorize;
pub mod metrics;
pub mod prepare;
pub mod stream;
pub mod text;
pub mod toolshim;
pub mod types;
