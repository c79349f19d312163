use vstd::prelude::*;
use crate::message::{
    assistant_view, calls_view, duplicate_calls, messages_view, plain_view, tool_view, CallView,
    Message, MessageView, Role, ToolCallRequest,
};
use crate::tools::{descriptors_view, names_distinct, ToolDescriptor, outcome_content, outcome_text, DescriptorView, ToolError, ToolRegistry};

verus! {

/// A bound on tool-dispatch rounds per chat call that suits most models.
pub const DEFAULT_MAX_TOOL_ROUNDS: u64 = 8;

/// Options handed to the model unchanged on every request.
#[derive(Clone, Copy, Debug)]
pub struct GenerationOptions {
    /// The context window, in tokens, the model should consider.
    pub num_ctx: Option<u64>,
}

/// What the model answered to one request.
#[derive(Clone, Debug)]
pub enum AssistantTurn {
    /// A plain answer.
    Final(String),
    /// Requests for tools, with whatever text came beside them.
    ToolCalls(Vec<ToolCallRequest>, String),
}

pub enum TurnView {
    Final(Seq<char>),
    ToolCalls(Seq<CallView>, Seq<char>),
}

impl View for AssistantTurn {
    type V = TurnView;

    open spec fn view(&self) -> TurnView {
        match self {
            AssistantTurn::Final(c) => TurnView::Final(c@),
            AssistantTurn::ToolCalls(calls, c) => TurnView::ToolCalls(calls_view(calls@), c@),
        }
    }
}

/// Why the model gave no turn.
#[derive(Clone, Copy, Debug, PartialEq, Eq, Structural)]
pub enum ModelError {
    /// The connection failed.
    TransportError,
    /// The response was malformed.
    ProtocolError,
    /// The model refused to answer.
    ModelRefused,
}

/// Why a chat call ended without an answer.
#[derive(Clone, Copy, Debug, PartialEq, Eq, Structural)]
pub enum CoordinatorError {
    ModelError(ModelError),
    /// The model kept asking for tools past the configured number of rounds.
    ToolLoopExceeded,
    /// The caller cancelled the stage in flight.
    Cancelled,
}

/// Where a coordinator stands in its cycle.
#[derive(Clone, Copy, Debug, PartialEq, Eq, Structural)]
pub enum Phase {
    /// Between chat calls.
    AwaitingUserInput,
    /// A model request is in flight.
    RequestSent,
    /// The tools of the last assistant turn are running.
    ToolDispatch,
}

/// What the caller has to do next.
#[derive(Debug)]
pub enum Action {
    /// Send the history, the tool descriptors and the options to the model.
    Generate,
    /// Run these tools and hand their outcomes back in this order.
    DispatchTools(Vec<ToolCallRequest>),
    /// The chat call is over: this is its answer.
    Reply(Message),
    /// The chat call is over and failed.
    Fail(CoordinatorError),
}

pub enum ActionView {
    Generate,
    DispatchTools(Seq<CallView>),
    Reply(MessageView),
    Fail(CoordinatorError),
}

impl View for Action {
    type V = ActionView;

    open spec fn view(&self) -> ActionView {
        match self {
            Action::Generate => ActionView::Generate,
            Action::DispatchTools(calls) => ActionView::DispatchTools(calls_view(calls@)),
            Action::Reply(m) => ActionView::Reply(m@),
            Action::Fail(e) => ActionView::Fail(*e),
        }
    }
}

/// The mathematical state of a coordinator.
pub struct CoordinatorView {
    pub history: Seq<MessageView>,
    pub tools: Seq<DescriptorView>,
    pub options: GenerationOptions,
    pub debug: bool,
    pub max_rounds: nat,
    pub phase: Phase,
    /// Tool-dispatch rounds taken in the current chat call.
    pub rounds: nat,
}

/// No two calls of one turn share an id.
pub open spec fn distinct_ids(calls: Seq<CallView>) -> bool {
    forall|i: int, j: int|
        0 <= i < calls.len() && 0 <= j < calls.len() && i != j ==> #[trigger] calls[i].id != #[trigger] calls[j].id
}

/// The calls that the last assistant turn requested.
pub open spec fn pending(s: CoordinatorView) -> Seq<CallView> {
    s.history.last().calls
}

pub open spec fn valid(s: CoordinatorView) -> bool {
    &&& names_distinct(s.tools)
    &&& s.rounds <= s.max_rounds
    &&& s.phase == Phase::ToolDispatch ==> {
        &&& s.history.len() > 0
        &&& s.history.last().role == Role::Assistant
        &&& pending(s).len() > 0
        &&& distinct_ids(pending(s))
    }
}

/// The state between chat calls, with the same history.
pub open spec fn idle(s: CoordinatorView) -> CoordinatorView {
    CoordinatorView { phase: Phase::AwaitingUserInput, rounds: 0, ..s }
}

/// A chat call starts: its messages join the history and a request is due.
pub open spec fn chat_step(s: CoordinatorView, msgs: Seq<MessageView>) -> CoordinatorView {
    CoordinatorView { history: s.history + msgs, phase: Phase::RequestSent, rounds: 0, ..s }
}

/// The model answered plainly with `content`.
pub open spec fn final_step(s: CoordinatorView, content: Seq<char>) -> (CoordinatorView, ActionView) {
    let m = plain_view(Role::Assistant, content);
    (CoordinatorView { history: s.history.push(m), ..idle(s) }, ActionView::Reply(m))
}

/// The model's reply, or its failure, arrived.
pub open spec fn reply_step(s: CoordinatorView, reply: Result<TurnView, ModelError>) -> (CoordinatorView, ActionView) {
    match reply {
        Err(e) => (idle(s), ActionView::Fail(CoordinatorError::ModelError(e))),
        Ok(TurnView::Final(c)) => final_step(s, c),
        Ok(TurnView::ToolCalls(calls, c)) => {
            let m = assistant_view(c, calls);
            if calls.len() == 0 {
                final_step(s, c)
            } else if !distinct_ids(calls) {
                (idle(s), ActionView::Fail(CoordinatorError::ModelError(ModelError::ProtocolError)))
            } else if s.rounds >= s.max_rounds {
                (
                    CoordinatorView { history: s.history.push(m), ..idle(s) },
                    ActionView::Fail(CoordinatorError::ToolLoopExceeded),
                )
            } else {
                (
                    CoordinatorView {
                        history: s.history.push(m),
                        phase: Phase::ToolDispatch,
                        rounds: s.rounds + 1,
                        ..s
                    },
                    ActionView::DispatchTools(calls),
                )
            }
        },
    }
}

/// The tool turns that answer `calls` with `results`, one per call, in call order.
pub open spec fn tool_turns(calls: Seq<CallView>, results: Seq<Result<String, ToolError>>) -> Seq<MessageView> {
    Seq::new(calls.len(), |i: int| tool_view(calls[i], outcome_text(calls[i].name, results[i])))
}

/// The outcomes of the pending tools arrived; the model is asked again.
pub open spec fn tools_step(s: CoordinatorView, results: Seq<Result<String, ToolError>>) -> (CoordinatorView, ActionView) {
    (
        CoordinatorView {
            history: s.history + tool_turns(pending(s), results),
            phase: Phase::RequestSent,
            ..s
        },
        ActionView::Generate,
    )
}

/// The caller cancelled the stage in flight; nothing of it is kept.
pub open spec fn cancel_step(s: CoordinatorView) -> (CoordinatorView, ActionView) {
    (idle(s), ActionView::Fail(CoordinatorError::Cancelled))
}

pub open spec fn reply_view(r: Result<AssistantTurn, ModelError>) -> Result<TurnView, ModelError> {
    match r {
        Ok(t) => Ok(t@),
        Err(e) => Err(e),
    }
}

/// Whether no two of `calls` share an id.
pub fn ids_distinct(calls: &Vec<ToolCallRequest>) -> (r: bool)
    ensures
        r == distinct_ids(calls_view(calls@)),
{
    let ghost v = calls_view(calls@);
    let mut i: usize = 0;
    while i < calls.len()
        invariant
            i <= calls.len(),
            v == calls_view(calls@),
            forall|a: int, b: int| 0 <= a < i && 0 <= b < calls.len() && a != b ==> #[trigger] v[a].id != #[trigger] v[b].id,
        decreases calls.len() - i,
    {
        let mut j: usize = 0;
        while j < calls.len()
            invariant
                i < calls.len(),
                j <= calls.len(),
                v == calls_view(calls@),
                forall|a: int, b: int| 0 <= a < i && 0 <= b < calls.len() && a != b ==> #[trigger] v[a].id != #[trigger] v[b].id,
                forall|b: int| 0 <= b < j && b != i ==> v[i as int].id != #[trigger] v[b].id,
            decreases calls.len() - j,
        {
            if j != i && calls[i].id.eq(&calls[j].id) {
                assert(v[i as int].id == v[j as int].id);
                return false;
            }
            j = j + 1;
        }
        i = i + 1;
    }
    true
}

/// Drives one conversation: keeps its history and decides, event by event,
/// what the caller does next.
pub struct Coordinator {
    history: Vec<Message>,
    registry: ToolRegistry,
    options: GenerationOptions,
    debug: bool,
    max_rounds: u64,
    phase: Phase,
    rounds: u64,
}

impl View for Coordinator {
    type V = CoordinatorView;

    closed spec fn view(&self) -> CoordinatorView {
        CoordinatorView {
            history: messages_view(self.history@),
            tools: self.registry@,
            options: self.options,
            debug: self.debug,
            max_rounds: self.max_rounds as nat,
            phase: self.phase,
            rounds: self.rounds as nat,
        }
    }
}

impl Coordinator {
    pub closed spec fn wf(&self) -> bool {
        valid(self@)
    }

    /// A coordinator with an empty history, waiting for the first chat call.
    pub fn new(registry: ToolRegistry, options: GenerationOptions, max_rounds: u64, debug: bool) -> (r: Self)
        requires
            registry.wf(),
        ensures
            r.wf(),
            r@ == (CoordinatorView {
                history: Seq::empty(),
                tools: registry@,
                options,
                debug,
                max_rounds: max_rounds as nat,
                phase: Phase::AwaitingUserInput,
                rounds: 0,
            }),
    {
        let r = Coordinator {
            history: Vec::new(),
            registry,
            options,
            debug,
            max_rounds,
            phase: Phase::AwaitingUserInput,
            rounds: 0,
        };
        assert(r@.history =~= Seq::<MessageView>::empty());
        r
    }

    /// Every message of the conversation so far, oldest first.
    pub fn history(&self) -> (r: &Vec<Message>)
        ensures
            messages_view(r@) == self@.history,
    {
        &self.history
    }

    /// The tools offered to the model.
    pub fn registry(&self) -> (r: &ToolRegistry)
        requires
            self.wf(),
        ensures
            r@ == self@.tools,
            r.wf(),
    {
        &self.registry
    }

    /// The descriptors of the tools offered to the model.
    pub fn describe(&self) -> (r: &Vec<ToolDescriptor>)
        ensures
            descriptors_view(r@) == self@.tools,
    {
        self.registry.describe()
    }

    pub fn phase(&self) -> (r: Phase)
        ensures
            r == self@.phase,
    {
        self.phase
    }

    pub fn options(&self) -> (r: GenerationOptions)
        ensures
            r == self@.options,
    {
        self.options
    }

    /// Whether the caller should trace every request, reply and dispatch.
    pub fn debug(&self) -> (r: bool)
        ensures
            r == self@.debug,
    {
        self.debug
    }

    pub fn max_rounds(&self) -> (r: u64)
        ensures
            r as nat == self@.max_rounds,
    {
        self.max_rounds
    }

    /// Starts a chat call with `new_messages`; the model is to be asked next.
    pub fn chat(&mut self, new_messages: Vec<Message>) -> (a: Action)
        requires
            old(self).wf(),
            old(self)@.phase == Phase::AwaitingUserInput,
            new_messages.len() > 0,
        ensures
            final(self).wf(),
            final(self)@ == chat_step(old(self)@, messages_view(new_messages@)),
            a@ == ActionView::Generate,
    {
        let mut new_messages = new_messages;
        proof {
            assert(messages_view(self.history@ + new_messages@) =~= messages_view(self.history@)
                + messages_view(new_messages@));
        }
        self.history.append(&mut new_messages);
        self.phase = Phase::RequestSent;
        self.rounds = 0;
        Action::Generate
    }

    fn push_message(&mut self, m: Message)
        ensures
            final(self)@ == (CoordinatorView { history: old(self)@.history.push(m@), ..old(self)@ }),
            final(self).registry == old(self).registry,
    {
        proof {
            assert(messages_view(self.history@.push(m)) =~= messages_view(self.history@).push(m@));
        }
        self.history.push(m);
    }

    /// Takes the model's reply to the request in flight, or its failure.
    pub fn on_model_reply(&mut self, reply: Result<AssistantTurn, ModelError>) -> (a: Action)
        requires
            old(self).wf(),
            old(self)@.phase == Phase::RequestSent,
        ensures
            final(self).wf(),
            (final(self)@, a@) == reply_step(old(self)@, reply_view(reply)),
    {
        match reply {
            Err(e) => {
                self.phase = Phase::AwaitingUserInput;
                self.rounds = 0;
                Action::Fail(CoordinatorError::ModelError(e))
            },
            Ok(AssistantTurn::Final(c)) => self.finish(c),
            Ok(AssistantTurn::ToolCalls(calls, c)) => {
                if calls.len() == 0 {
                    self.finish(c)
                } else if !ids_distinct(&calls) {
                    self.phase = Phase::AwaitingUserInput;
                    self.rounds = 0;
                    Action::Fail(CoordinatorError::ModelError(ModelError::ProtocolError))
                } else if self.rounds >= self.max_rounds {
                    self.push_message(Message::assistant(c, calls));
                    self.phase = Phase::AwaitingUserInput;
                    self.rounds = 0;
                    Action::Fail(CoordinatorError::ToolLoopExceeded)
                } else {
                    let requested = duplicate_calls(&calls);
                    self.push_message(Message::assistant(c, calls));
                    self.phase = Phase::ToolDispatch;
                    self.rounds = self.rounds + 1;
                    Action::DispatchTools(requested)
                }
            },
        }
    }

    fn finish(&mut self, content: String) -> (a: Action)
        requires
            old(self).wf(),
        ensures
            final(self).wf(),
            (final(self)@, a@) == final_step(old(self)@, content@),
    {
        let m = Message::assistant(content, Vec::new());
        assert(m@ == plain_view(Role::Assistant, content@)) by {
            assert(m@.calls =~= Seq::<CallView>::empty());
        }
        let answer = m.duplicate();
        self.push_message(m);
        self.phase = Phase::AwaitingUserInput;
        self.rounds = 0;
        Action::Reply(answer)
    }

    /// Takes the outcomes of the tools that the last assistant turn requested,
    /// one per call and in call order; the model is to be asked again.
    pub fn on_tool_results(&mut self, results: Vec<Result<String, ToolError>>) -> (a: Action)
        requires
            old(self).wf(),
            old(self)@.phase == Phase::ToolDispatch,
            results.len() == pending(old(self)@).len(),
        ensures
            final(self).wf(),
            (final(self)@, a@) == tools_step(old(self)@, results@),
    {
        let ghost s = self@;
        let n = self.history.len();
        let mut turns: Vec<Message> = Vec::new();
        {
            let calls = &self.history[n - 1].tool_calls;
            assert(calls_view(calls@) == pending(s));
            let mut i: usize = 0;
            while i < calls.len()
                invariant
                    i <= calls.len(),
                    calls.len() == results.len(),
                    calls_view(calls@) == pending(s),
                    turns@.len() == i,
                    forall|k: int| 0 <= k < i ==> #[trigger] turns@[k]@ == tool_turns(pending(s), results@)[k],
                decreases calls.len() - i,
            {
                let call = &calls[i];
                let content = outcome_content(call.name.as_str(), &results[i]);
                turns.push(Message::tool(call, content));
                i = i + 1;
            }
            assert(messages_view(turns@) =~= tool_turns(pending(s), results@));
        }
        proof {
            assert(messages_view(self.history@ + turns@) =~= messages_view(self.history@)
                + messages_view(turns@));
        }
        self.history.append(&mut turns);
        self.phase = Phase::RequestSent;
        Action::Generate
    }

    /// The caller cancelled the model request or the tool runs in flight.
    pub fn on_cancel(&mut self) -> (a: Action)
        requires
            old(self).wf(),
            old(self)@.phase != Phase::AwaitingUserInput,
        ensures
            final(self).wf(),
            (final(self)@, a@) == cancel_step(old(self)@),
    {
        self.phase = Phase::AwaitingUserInput;
        self.rounds = 0;
        Action::Fail(CoordinatorError::Cancelled)
    }
}

} // verus!
