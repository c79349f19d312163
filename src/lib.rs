//! A conversation coordinator that drives a language model through a
//! multi-turn dialogue, dispatching the tool calls the model asks for and
//! feeding their results back until the model gives a plain answer.
//!
//! The coordinator is a state machine: it decides, and the caller performs
//! the outside work (a model request, tool runs) that each decision names.
mod camera;
mod captions;
mod coordinator;
mod laws;
mod message;
mod tools;

pub use camera::{
    camera_tool_descriptor, camera_tool_reply, MyToolParams, CAMERA_HINT, CAMERA_TOOL_DESCRIPTION,
    CAMERA_TOOL_NAME, CAMERA_TOOL_REPLY,
};
pub use captions::caption_spans;
pub use coordinator::{
    ids_distinct, Action, ActionView, AssistantTurn, Coordinator, CoordinatorError, CoordinatorView,
    GenerationOptions, DEFAULT_MAX_TOOL_ROUNDS, ModelError, Phase, TurnView,
};
pub use laws::{
    history_append_only, model_failure_keeps_history, plain_run_growth, plain_turn, tool_failures_recovered,
    tool_loop_bounded, tool_turns_match_calls, tools_stable,
};
pub use message::{duplicate_calls, CallView, Message, MessageView, Role, ToolCallRequest};
pub use tools::{
    describe_error, outcome_content, DescriptorView, ParamSpec, ParamView, ToolDescriptor, ToolError,
    ToolRegistry,
};
