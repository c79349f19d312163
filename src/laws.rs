use vstd::prelude::*;
use crate::coordinator::{
    cancel_step, chat_step, distinct_ids, pending, reply_step, tools_step, valid, ActionView,
    CoordinatorError, CoordinatorView, ModelError, Phase, TurnView,
};
use crate::message::{assistant_view, plain_view, MessageView, Role};
use crate::tools::{error_text, ToolError};

verus! {

/// A chat call whose request the model answers plainly: the answer is the
/// model's text unchanged, and the history grows by the call's message and
/// that answer.
pub proof fn plain_turn(s: CoordinatorView, msg: MessageView, content: Seq<char>)
    requires
        valid(s),
        s.phase == Phase::AwaitingUserInput,
    ensures
        ({
            let s1 = chat_step(s, seq![msg]);
            let (s2, a) = reply_step(s1, Ok(TurnView::Final(content)));
            &&& valid(s1)
            &&& valid(s2)
            &&& a == ActionView::Reply(plain_view(Role::Assistant, content))
            &&& s2.history == s.history.push(msg).push(plain_view(Role::Assistant, content))
            &&& s2.history.len() == s.history.len() + 2
            &&& s2.phase == Phase::AwaitingUserInput
        }),
{
    assert(s.history + seq![msg] =~= s.history.push(msg));
}

/// The state after a series of chat calls, each of one message that the model
/// answers plainly.
pub open spec fn plain_run(s: CoordinatorView, turns: Seq<(MessageView, Seq<char>)>) -> CoordinatorView
    decreases turns.len(),
{
    if turns.len() == 0 {
        s
    } else {
        let s1 = chat_step(s, seq![turns[0].0]);
        plain_run(reply_step(s1, Ok(TurnView::Final(turns[0].1))).0, turns.drop_first())
    }
}

/// Over a series of plainly answered chat calls the history grows by two
/// messages per call, and the coordinator ends between calls.
pub proof fn plain_run_growth(s: CoordinatorView, turns: Seq<(MessageView, Seq<char>)>)
    requires
        valid(s),
        s.phase == Phase::AwaitingUserInput,
    ensures
        valid(plain_run(s, turns)),
        plain_run(s, turns).phase == Phase::AwaitingUserInput,
        plain_run(s, turns).history.len() == s.history.len() + 2 * turns.len(),
        plain_run(s, turns).history.subrange(0, s.history.len() as int) == s.history,
    decreases turns.len(),
{
    if turns.len() > 0 {
        plain_turn(s, turns[0].0, turns[0].1);
        let s2 = reply_step(chat_step(s, seq![turns[0].0]), Ok(TurnView::Final(turns[0].1))).0;
        plain_run_growth(s2, turns.drop_first());
        let r = plain_run(s, turns);
        assert(r.history.subrange(0, s.history.len() as int) =~= s.history) by {
            assert(r.history.subrange(0, s2.history.len() as int) == s2.history);
            assert forall|k: int| 0 <= k < s.history.len() implies r.history[k] == s.history[k] by {
                assert(r.history.subrange(0, s2.history.len() as int)[k] == s2.history[k]);
            }
        }
    }
}

/// After a dispatch, the new tool turns answer the calls of the assistant turn
/// just before them one for one and in call order: the i-th carries the id and
/// tool name of the i-th call, and no other call has that id.
pub proof fn tool_turns_match_calls(s: CoordinatorView, results: Seq<Result<String, ToolError>>)
    requires
        valid(s),
        s.phase == Phase::ToolDispatch,
        results.len() == pending(s).len(),
    ensures
        ({
            let (s2, a) = tools_step(s, results);
            let n = s.history.len();
            let calls = s.history[n - 1].calls;
            &&& valid(s2)
            &&& s2.history.len() == n + calls.len()
            &&& s2.history.subrange(0, n as int) == s.history
            &&& s2.history[n - 1].role == Role::Assistant
            &&& forall|i: int| 0 <= i < calls.len() ==> {
                &&& (#[trigger] s2.history[n + i]).role == Role::Tool
                &&& s2.history[n + i].tool_call_id == Some(calls[i].id)
                &&& s2.history[n + i].tool_name == Some(calls[i].name)
                &&& forall|j: int| 0 <= j < calls.len() && calls[j].id == calls[i].id ==> j == i
            }
        }),
{
    let (s2, a) = tools_step(s, results);
    let n = s.history.len();
    assert(s2.history.subrange(0, n as int) =~= s.history);
    assert(s2.history[n - 1] == s.history[n - 1]);
    assert(distinct_ids(pending(s)));
}

/// A failed tool never ends the chat call: its turn reports the error to the
/// model, and the model is asked again.
pub proof fn tool_failures_recovered(s: CoordinatorView, results: Seq<Result<String, ToolError>>)
    requires
        valid(s),
        s.phase == Phase::ToolDispatch,
        results.len() == pending(s).len(),
    ensures
        ({
            let (s2, a) = tools_step(s, results);
            let n = s.history.len();
            &&& a == ActionView::Generate
            &&& s2.phase == Phase::RequestSent
            &&& forall|i: int| 0 <= i < results.len() && results[i] is Err ==> {
                &&& (#[trigger] s2.history[n + i]).role == Role::Tool
                &&& s2.history[n + i].content == error_text(pending(s)[i].name, results[i]->Err_0)
            }
        }),
{
}

/// Once the rounds of the current chat call have reached the bound, a further
/// request for tools ends the call with `ToolLoopExceeded`; the history keeps
/// everything up to and including that request.
pub proof fn tool_loop_bounded(s: CoordinatorView, calls: Seq<crate::message::CallView>, content: Seq<char>)
    requires
        valid(s),
        s.phase == Phase::RequestSent,
        s.rounds >= s.max_rounds,
        calls.len() > 0,
        distinct_ids(calls),
    ensures
        ({
            let (s2, a) = reply_step(s, Ok(TurnView::ToolCalls(calls, content)));
            &&& valid(s2)
            &&& a == ActionView::Fail(CoordinatorError::ToolLoopExceeded)
            &&& s2.history == s.history.push(assistant_view(content, calls))
            &&& s2.phase == Phase::AwaitingUserInput
        }),
{
}

/// No step of a chat call changes the set of tools, so describing them again
/// between steps gives the same descriptors.
pub proof fn tools_stable(
    s: CoordinatorView,
    msgs: Seq<MessageView>,
    reply: Result<TurnView, ModelError>,
    results: Seq<Result<String, ToolError>>,
)
    ensures
        chat_step(s, msgs).tools == s.tools,
        reply_step(s, reply).0.tools == s.tools,
        tools_step(s, results).0.tools == s.tools,
        cancel_step(s).0.tools == s.tools,
{
}

/// Every step keeps the history it started from as a prefix: messages are
/// only ever appended, never changed or removed.
pub proof fn history_append_only(
    s: CoordinatorView,
    msgs: Seq<MessageView>,
    reply: Result<TurnView, ModelError>,
    results: Seq<Result<String, ToolError>>,
)
    ensures
        chat_step(s, msgs).history.subrange(0, s.history.len() as int) == s.history,
        reply_step(s, reply).0.history.subrange(0, s.history.len() as int) == s.history,
        tools_step(s, results).0.history.subrange(0, s.history.len() as int) == s.history,
        cancel_step(s).0.history == s.history,
{
    assert(chat_step(s, msgs).history.subrange(0, s.history.len() as int) =~= s.history);
    assert(reply_step(s, reply).0.history.subrange(0, s.history.len() as int) =~= s.history);
    assert(tools_step(s, results).0.history.subrange(0, s.history.len() as int) =~= s.history);
}

/// A failed model request ends the chat call with that error and adds nothing
/// to the history.
pub proof fn model_failure_keeps_history(s: CoordinatorView, e: ModelError)
    requires
        valid(s),
        s.phase == Phase::RequestSent,
    ensures
        ({
            let (s2, a) = reply_step(s, Err(e));
            &&& valid(s2)
            &&& a == ActionView::Fail(CoordinatorError::ModelError(e))
            &&& s2.history == s.history
            &&& s2.phase == Phase::AwaitingUserInput
        }),
{
}

} // verus!
