//! What holds of whole runs of the workflow, and of every reply.

use vstd::prelude::*;
use crate::api::{account_view, bearer, report_view, start_view, stop_view, Operation};
use crate::reply::{is_success, reply_outcome, ClientError, Payload, Reply};
use crate::model::{ActivityLists, TrackingSession};
use crate::workflow::{transition, ActionView, Stage, WorkflowView};

verus! {

/// The actions that a workflow takes on a sequence of replies, one each.
pub open spec fn run(w: WorkflowView, replies: Seq<Reply>) -> Seq<ActionView>
    decreases replies.len(),
{
    if replies.len() == 0 {
        Seq::empty()
    } else {
        let (next, action) = transition(w, replies[0]);
        seq![action] + run(next, replies.drop_first())
    }
}

/// The position of a stage in the fixed order of the workflow.
pub open spec fn stage_rank(s: Stage) -> nat {
    match s {
        Stage::SigningIn => 0,
        Stage::FetchingAccount => 1,
        Stage::FetchingWorkspaces => 2,
        Stage::FetchingActivities => 3,
        Stage::StartingTracking => 4,
        Stage::StoppingTracking => 5,
        Stage::FetchingReport => 6,
        Stage::Finished => 7,
        Stage::Failed => 8,
    }
}

/// The rank of the stage that waits for an operation's reply.
pub open spec fn op_rank(op: Operation) -> nat {
    match op {
        Operation::SignIn => 0,
        Operation::FetchAccount => 1,
        Operation::FetchWorkspaces => 2,
        Operation::FetchActivities => 3,
        Operation::StartTracking => 4,
        Operation::StopTracking => 5,
        Operation::FetchReport => 6,
    }
}

pub open spec fn sends(a: ActionView, op: Operation) -> bool {
    a is Send && a->Send_0.operation == op
}

/// A 2xx reply with the given payload.
pub open spec fn ok_reply(reply: Reply, payload: Payload) -> bool {
    reply is Received && is_success(reply->status) && reply->payload == payload
}

proof fn lemma_step_moves_forward(w: WorkflowView, reply: Reply)
    ensures
        stage_rank(transition(w, reply).0.stage) >= stage_rank(w.stage),
        transition(w, reply).0.token == w.token || w.stage == Stage::SigningIn,
        transition(w, reply).1 is Send ==> op_rank(transition(w, reply).1->Send_0.operation)
            == stage_rank(transition(w, reply).0.stage) > stage_rank(w.stage),
        transition(w, reply).1 is Send && w.stage != Stage::SigningIn
            ==> transition(w, reply).1->Send_0.authorization == Some(bearer(w.token)),
{
}

/// Every request that a run sends belongs to a later stage than the one it
/// started in, and, once signed in, carries the session token it started with.
proof fn lemma_run_moves_forward(w: WorkflowView, replies: Seq<Reply>)
    ensures
        run(w, replies).len() == replies.len(),
        forall|i: int|
            0 <= i < replies.len() && (#[trigger] run(w, replies)[i]) is Send ==> op_rank(
                run(w, replies)[i]->Send_0.operation,
            ) > stage_rank(w.stage),
        w.stage != Stage::SigningIn ==> forall|i: int|
            0 <= i < replies.len() && (#[trigger] run(w, replies)[i]) is Send
                ==> run(w, replies)[i]->Send_0.authorization == Some(bearer(w.token)),
    decreases replies.len(),
{
    if replies.len() > 0 {
        let (next, action) = transition(w, replies[0]);
        lemma_step_moves_forward(w, replies[0]);
        lemma_run_moves_forward(next, replies.drop_first());
        assert forall|i: int| 0 < i < replies.len() implies run(w, replies)[i] == run(
            next,
            replies.drop_first(),
        )[i - 1] by {}
    }
}

/// Once failed or finished, a workflow does nothing more, whatever comes back.
pub proof fn law_end_is_final(w: WorkflowView, replies: Seq<Reply>)
    requires
        w.stage == Stage::Failed || w.stage == Stage::Finished,
    ensures
        forall|i: int| 0 <= i < replies.len() ==> #[trigger] run(w, replies)[i] == ActionView::Halt,
    decreases replies.len(),
{
    if replies.len() > 0 {
        law_end_is_final(w, replies.drop_first());
        lemma_run_moves_forward(w, replies.drop_first());
        assert forall|i: int| 0 <= i < replies.len() implies #[trigger] run(w, replies)[i]
            == ActionView::Halt by {
            if i > 0 {
                assert(run(w, replies)[i] == run(w, replies.drop_first())[i - 1]);
            }
        }
    }
}

/// The token that sign-in returns is the one the server supplied, and every
/// request after it carries `Bearer <token>` verbatim.
pub proof fn law_token_attached_verbatim(w: WorkflowView, replies: Seq<Reply>, token: String)
    requires
        w.stage == Stage::SigningIn,
        replies.len() > 0,
        ok_reply(replies[0], Payload::Token(Some(token))),
        token@.len() > 0,
    ensures
        transition(w, replies[0]).0.token == token@,
        run(w, replies)[0] == ActionView::Send(account_view(token@)),
        forall|i: int|
            0 <= i < replies.len() && (#[trigger] run(w, replies)[i]) is Send
                ==> run(w, replies)[i]->Send_0.authorization == Some(bearer(token@)),
{
    let (next, action) = transition(w, replies[0]);
    lemma_run_moves_forward(next, replies.drop_first());
    assert forall|i: int|
        0 <= i < replies.len() && (#[trigger] run(w, replies)[i]) is Send implies run(
        w,
        replies,
    )[i]->Send_0.authorization == Some(bearer(token@)) by {
        if i > 0 {
            assert(run(w, replies)[i] == run(next, replies.drop_first())[i - 1]);
        }
    }
}

/// A sign-in reply without a token fails the sign-in with an authentication
/// error, and no request is sent after it.
pub proof fn law_missing_token_stops(w: WorkflowView, replies: Seq<Reply>)
    requires
        w.stage == Stage::SigningIn,
        replies.len() > 0,
        ok_reply(replies[0], Payload::Token(None)),
    ensures
        run(w, replies)[0] == ActionView::Abort(Operation::SignIn, ClientError::Auth(None)),
        forall|i: int| 0 < i < replies.len() ==> #[trigger] run(w, replies)[i] == ActionView::Halt,
{
    let (next, action) = transition(w, replies[0]);
    law_end_is_final(next, replies.drop_first());
    lemma_run_moves_forward(next, replies.drop_first());
    assert forall|i: int| 0 < i < replies.len() implies #[trigger] run(w, replies)[i]
        == ActionView::Halt by {
        assert(run(w, replies)[i] == run(next, replies.drop_first())[i - 1]);
    }
}

/// With no active activity, the workflow goes straight to the report and
/// never starts or stops tracking.
pub proof fn law_no_active_no_tracking(w: WorkflowView, replies: Seq<Reply>, lists: ActivityLists)
    requires
        w.stage == Stage::FetchingActivities,
        replies.len() > 0,
        ok_reply(replies[0], Payload::Activities(lists)),
        lists.active@.len() == 0,
    ensures
        run(w, replies)[0] == ActionView::Send(report_view(w.token, w.report_from, w.report_to, w.timezone)),
        forall|i: int|
            0 <= i < replies.len() ==> !sends(#[trigger] run(w, replies)[i], Operation::StartTracking)
                && !sends(run(w, replies)[i], Operation::StopTracking),
{
    let (next, action) = transition(w, replies[0]);
    lemma_run_moves_forward(next, replies.drop_first());
    assert forall|i: int| 0 <= i < replies.len() implies !sends(
        #[trigger] run(w, replies)[i],
        Operation::StartTracking,
    ) && !sends(run(w, replies)[i], Operation::StopTracking) by {
        if i > 0 {
            assert(run(w, replies)[i] == run(next, replies.drop_first())[i - 1]);
        }
    }
}

/// With an active activity, the workflow starts tracking on the first one,
/// then stops tracking, and neither request is sent again.
pub proof fn law_track_first_once(
    w: WorkflowView,
    replies: Seq<Reply>,
    lists: ActivityLists,
    session: TrackingSession,
)
    requires
        w.stage == Stage::FetchingActivities,
        replies.len() >= 2,
        ok_reply(replies[0], Payload::Activities(lists)),
        lists.active@.len() > 0,
        ok_reply(replies[1], Payload::Tracking(session)),
    ensures
        run(w, replies)[0] == ActionView::Send(start_view(lists.active@[0].id@, w.token, w.started_at)),
        run(w, replies)[1] == ActionView::Send(stop_view(w.token, w.stopped_at)),
        forall|i: int|
            2 <= i < replies.len() ==> !sends(#[trigger] run(w, replies)[i], Operation::StartTracking)
                && !sends(run(w, replies)[i], Operation::StopTracking),
{
    let (w1, a0) = transition(w, replies[0]);
    let rest = replies.drop_first();
    let (w2, a1) = transition(w1, rest[0]);
    let rest2 = rest.drop_first();
    assert(run(w, replies) == seq![a0] + run(w1, rest));
    assert(run(w1, rest) == seq![a1] + run(w2, rest2));
    lemma_run_moves_forward(w2, rest2);
    assert forall|i: int| 2 <= i < replies.len() implies !sends(
        #[trigger] run(w, replies)[i],
        Operation::StartTracking,
    ) && !sends(run(w, replies)[i], Operation::StopTracking) by {
        assert(run(w, replies)[i] == run(w2, rest2)[i - 2]);
    }
}

/// A stop-tracking request is sent only right after tracking has started.
pub proof fn law_stop_only_after_start(w: WorkflowView, reply: Reply)
    ensures
        sends(transition(w, reply).1, Operation::StopTracking) ==> w.stage == Stage::StartingTracking
            && reply_outcome(Operation::StartTracking, reply) is Ok,
{
}

/// The report is written exactly as it came, and only after a successful
/// report reply.
pub proof fn law_report_written_verbatim(w: WorkflowView, reply: Reply)
    requires
        w.stage == Stage::FetchingReport,
    ensures
        transition(w, reply).1 is WriteReport <==> (reply is Received && is_success(reply->status)
            && reply->payload is Report),
        transition(w, reply).1 is WriteReport ==> transition(w, reply).1->WriteReport_0
            == reply->payload->Report_0@ && transition(w, reply).0.stage == Stage::Finished,
{
}

/// Outside sign-in, a status outside 2xx is a transport error, and a 2xx
/// reply whose body has not the expected shape is a decode error.
pub proof fn law_status_and_shape_errors(op: Operation, status: u16, payload: Payload)
    requires
        op != Operation::SignIn,
    ensures
        !is_success(status) ==> reply_outcome(op, Reply::Received { status, payload })
            == Err::<Payload, ClientError>(ClientError::Transport(Some(status))),
        is_success(status) && payload is Malformed ==> reply_outcome(
            op,
            Reply::Received { status, payload },
        ) == Err::<Payload, ClientError>(ClientError::Decode),
        ClientError::Transport(Some(status)) != ClientError::Decode,
{
}

} // verus!
