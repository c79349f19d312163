use vstd::prelude::*;

verus! {

/// Who produced a message.
#[derive(Clone, Copy, Debug, PartialEq, Eq, Structural)]
pub enum Role {
    System,
    User,
    Assistant,
    Tool,
}

/// One tool invocation requested by the model.
#[derive(Clone, Debug)]
pub struct ToolCallRequest {
    /// Identifies the call within the assistant turn that requested it.
    pub id: String,
    /// Name of the tool to run.
    pub name: String,
    /// Parameter payload, as JSON text.
    pub arguments: String,
}

/// The mathematical value of a [`ToolCallRequest`].
pub struct CallView {
    pub id: Seq<char>,
    pub name: Seq<char>,
    pub arguments: Seq<char>,
}

impl View for ToolCallRequest {
    type V = CallView;

    open spec fn view(&self) -> CallView {
        CallView { id: self.id@, name: self.name@, arguments: self.arguments@ }
    }
}

/// The views of a sequence of call requests.
pub open spec fn calls_view(calls: Seq<ToolCallRequest>) -> Seq<CallView> {
    calls.map_values(|c: ToolCallRequest| c@)
}

impl ToolCallRequest {
    pub fn new(id: String, name: String, arguments: String) -> (r: Self)
        ensures
            r.id == id,
            r.name == name,
            r.arguments == arguments,
    {
        ToolCallRequest { id, name, arguments }
    }

    /// A copy with the same text in every field.
    pub fn duplicate(&self) -> (r: Self)
        ensures
            r@ == self@,
    {
        ToolCallRequest { id: self.id.clone(), name: self.name.clone(), arguments: self.arguments.clone() }
    }
}

/// Copies a list of call requests.
pub fn duplicate_calls(calls: &Vec<ToolCallRequest>) -> (r: Vec<ToolCallRequest>)
    ensures
        calls_view(r@) == calls_view(calls@),
{
    let mut r: Vec<ToolCallRequest> = Vec::new();
    let mut i: usize = 0;
    while i < calls.len()
        invariant
            i <= calls.len(),
            r@.len() == i,
            forall|k: int| 0 <= k < i ==> #[trigger] r@[k]@ == calls@[k]@,
        decreases calls.len() - i,
    {
        r.push(calls[i].duplicate());
        i = i + 1;
    }
    assert(calls_view(r@) =~= calls_view(calls@));
    r
}

/// One turn of a conversation.
#[derive(Clone, Debug)]
pub struct Message {
    pub role: Role,
    /// The text of the turn; may be empty when the turn only requests tools.
    pub content: String,
    /// The tools an assistant turn asks for; empty otherwise.
    pub tool_calls: Vec<ToolCallRequest>,
    /// For a tool turn, the tool that produced it.
    pub tool_name: Option<String>,
    /// For a tool turn, the id of the call it answers.
    pub tool_call_id: Option<String>,
}

/// The mathematical value of a [`Message`].
pub struct MessageView {
    pub role: Role,
    pub content: Seq<char>,
    pub calls: Seq<CallView>,
    pub tool_name: Option<Seq<char>>,
    pub tool_call_id: Option<Seq<char>>,
}

pub open spec fn opt_view(s: Option<String>) -> Option<Seq<char>> {
    match s {
        Some(t) => Some(t@),
        None => None,
    }
}

impl View for Message {
    type V = MessageView;

    open spec fn view(&self) -> MessageView {
        MessageView {
            role: self.role,
            content: self.content@,
            calls: calls_view(self.tool_calls@),
            tool_name: opt_view(self.tool_name),
            tool_call_id: opt_view(self.tool_call_id),
        }
    }
}

/// The views of a sequence of messages.
pub open spec fn messages_view(ms: Seq<Message>) -> Seq<MessageView> {
    ms.map_values(|m: Message| m@)
}

/// A message with the given role and text, no tool calls and no correlation.
pub open spec fn plain_view(role: Role, content: Seq<char>) -> MessageView {
    MessageView { role, content, calls: Seq::empty(), tool_name: None, tool_call_id: None }
}

/// An assistant turn with its text and the tools it requests.
pub open spec fn assistant_view(content: Seq<char>, calls: Seq<CallView>) -> MessageView {
    MessageView { role: Role::Assistant, content, calls, tool_name: None, tool_call_id: None }
}

/// The tool turn that answers `call` with `content`.
pub open spec fn tool_view(call: CallView, content: Seq<char>) -> MessageView {
    MessageView {
        role: Role::Tool,
        content,
        calls: Seq::empty(),
        tool_name: Some(call.name),
        tool_call_id: Some(call.id),
    }
}

fn copy_opt(s: &Option<String>) -> (r: Option<String>)
    ensures
        opt_view(r) == opt_view(*s),
{
    match s {
        Some(t) => Some(t.clone()),
        None => None,
    }
}

impl Message {
    fn plain(role: Role, content: String) -> (r: Self)
        ensures
            r@ == plain_view(role, content@),
    {
        let r = Message { role, content, tool_calls: Vec::new(), tool_name: None, tool_call_id: None };
        assert(r@.calls =~= Seq::<CallView>::empty());
        r
    }

    pub fn system(content: String) -> (r: Self)
        ensures
            r@ == plain_view(Role::System, content@),
    {
        Message::plain(Role::System, content)
    }

    pub fn user(content: String) -> (r: Self)
        ensures
            r@ == plain_view(Role::User, content@),
    {
        Message::plain(Role::User, content)
    }

    pub fn assistant(content: String, tool_calls: Vec<ToolCallRequest>) -> (r: Self)
        ensures
            r@ == assistant_view(content@, calls_view(tool_calls@)),
    {
        Message { role: Role::Assistant, content, tool_calls, tool_name: None, tool_call_id: None }
    }

    /// The tool turn that answers `call` with `content`.
    pub fn tool(call: &ToolCallRequest, content: String) -> (r: Self)
        ensures
            r@ == tool_view(call@, content@),
    {
        let r = Message {
            role: Role::Tool,
            content,
            tool_calls: Vec::new(),
            tool_name: Some(call.name.clone()),
            tool_call_id: Some(call.id.clone()),
        };
        assert(r@.calls =~= Seq::<CallView>::empty());
        r
    }

    /// A copy with the same view.
    pub fn duplicate(&self) -> (r: Self)
        ensures
            r@ == self@,
    {
        Message {
            role: self.role,
            content: self.content.clone(),
            tool_calls: duplicate_calls(&self.tool_calls),
            tool_name: copy_opt(&self.tool_name),
            tool_call_id: copy_opt(&self.tool_call_id),
        }
    }
}

} // verus!
