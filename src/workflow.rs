//! The session workflow as a state machine: sign in, fetch the account, the
//! workspaces and the activities, track once on the first active activity if
//! there is one, then fetch the report. The caller sends each request that an
//! action names and hands the reply back; the first failure ends the session.

use vstd::prelude::*;
use crate::api::{
    account_request, account_view, activities_request, activities_view, report_request,
    report_view, sign_in_request, sign_in_view, start_tracking_request, start_view,
    stop_tracking_request, stop_view, workspaces_request, workspaces_view, HttpRequest, Operation,
    RequestView,
};
use crate::model::Credentials;
use crate::reply::{check_reply, reply_outcome, sign_in_outcome, sign_in_result, ClientError, Payload, Reply};

verus! {

/// The timestamps that the workflow sends: when tracking starts and stops,
/// and the inclusive range and time zone of the report.
#[derive(Clone, Debug, PartialEq, Eq)]
pub struct Schedule {
    pub started_at: String,
    pub stopped_at: String,
    pub report_from: String,
    pub report_to: String,
    pub timezone: String,
}

/// Where the workflow stands: the reply it waits for, or the end.
#[derive(Clone, Copy, Debug, PartialEq, Eq, Structural)]
pub enum Stage {
    SigningIn,
    FetchingAccount,
    FetchingWorkspaces,
    FetchingActivities,
    StartingTracking,
    StoppingTracking,
    FetchingReport,
    Finished,
    Failed,
}

/// What the caller is to do next.
#[derive(Clone, Debug, PartialEq, Eq)]
pub enum Action {
    /// Send this request and hand its reply to `step`.
    Send(HttpRequest),
    /// Write these bytes to the report file; the workflow is done.
    WriteReport(Vec<u8>),
    /// The operation failed with this error; the workflow is over.
    Abort(Operation, ClientError),
    /// Nothing more to do.
    Halt,
}

pub enum ActionView {
    Send(RequestView),
    WriteReport(Seq<u8>),
    Abort(Operation, ClientError),
    Halt,
}

impl View for Action {
    type V = ActionView;

    open spec fn view(&self) -> ActionView {
        match self {
            Action::Send(r) => ActionView::Send(r@),
            Action::WriteReport(b) => ActionView::WriteReport(b@),
            Action::Abort(op, e) => ActionView::Abort(*op, *e),
            Action::Halt => ActionView::Halt,
        }
    }
}

pub struct WorkflowView {
    pub stage: Stage,
    /// The session token; empty before sign-in succeeds.
    pub token: Seq<char>,
    pub key: Seq<char>,
    pub secret: Seq<char>,
    pub started_at: Seq<char>,
    pub stopped_at: Seq<char>,
    pub report_from: Seq<char>,
    pub report_to: Seq<char>,
    pub timezone: Seq<char>,
}

/// One run of the session workflow.
pub struct Workflow {
    stage: Stage,
    token: String,
    credentials: Credentials,
    schedule: Schedule,
}

impl View for Workflow {
    type V = WorkflowView;

    closed spec fn view(&self) -> WorkflowView {
        WorkflowView {
            stage: self.stage,
            token: self.token@,
            key: self.credentials.key@,
            secret: self.credentials.secret@,
            started_at: self.schedule.started_at@,
            stopped_at: self.schedule.stopped_at@,
            report_from: self.schedule.report_from@,
            report_to: self.schedule.report_to@,
            timezone: self.schedule.timezone@,
        }
    }
}

pub open spec fn initial(c: Credentials, s: Schedule) -> WorkflowView {
    WorkflowView {
        stage: Stage::SigningIn,
        token: Seq::empty(),
        key: c.key@,
        secret: c.secret@,
        started_at: s.started_at@,
        stopped_at: s.stopped_at@,
        report_from: s.report_from@,
        report_to: s.report_to@,
        timezone: s.timezone@,
    }
}

pub open spec fn with_stage(w: WorkflowView, stage: Stage) -> WorkflowView {
    WorkflowView { stage, ..w }
}

pub open spec fn report_of(w: WorkflowView) -> RequestView {
    report_view(w.token, w.report_from, w.report_to, w.timezone)
}

/// Moves on to `stage` by sending `req`.
pub open spec fn advance(w: WorkflowView, stage: Stage, req: RequestView) -> (WorkflowView, ActionView) {
    (with_stage(w, stage), ActionView::Send(req))
}

pub open spec fn fail(w: WorkflowView, op: Operation, e: ClientError) -> (WorkflowView, ActionView) {
    (with_stage(w, Stage::Failed), ActionView::Abort(op, e))
}

/// The next state and action, given the reply to the request that `w` waits for.
pub open spec fn transition(w: WorkflowView, reply: Reply) -> (WorkflowView, ActionView) {
    match w.stage {
        Stage::SigningIn => match sign_in_result(reply) {
            Ok(t) => (
                WorkflowView { stage: Stage::FetchingAccount, token: t@, ..w },
                ActionView::Send(account_view(t@)),
            ),
            Err(e) => fail(w, Operation::SignIn, e),
        },
        Stage::FetchingAccount => match reply_outcome(Operation::FetchAccount, reply) {
            Ok(_) => advance(w, Stage::FetchingWorkspaces, workspaces_view(w.token)),
            Err(e) => fail(w, Operation::FetchAccount, e),
        },
        Stage::FetchingWorkspaces => match reply_outcome(Operation::FetchWorkspaces, reply) {
            Ok(_) => advance(w, Stage::FetchingActivities, activities_view(w.token)),
            Err(e) => fail(w, Operation::FetchWorkspaces, e),
        },
        Stage::FetchingActivities => match reply_outcome(Operation::FetchActivities, reply) {
            Ok(Payload::Activities(lists)) => if lists.active@.len() == 0 {
                advance(w, Stage::FetchingReport, report_of(w))
            } else {
                advance(
                    w,
                    Stage::StartingTracking,
                    start_view(lists.active@[0].id@, w.token, w.started_at),
                )
            },
            Ok(_) => fail(w, Operation::FetchActivities, ClientError::Decode),
            Err(e) => fail(w, Operation::FetchActivities, e),
        },
        Stage::StartingTracking => match reply_outcome(Operation::StartTracking, reply) {
            Ok(_) => advance(w, Stage::StoppingTracking, stop_view(w.token, w.stopped_at)),
            Err(e) => fail(w, Operation::StartTracking, e),
        },
        Stage::StoppingTracking => match reply_outcome(Operation::StopTracking, reply) {
            Ok(_) => advance(w, Stage::FetchingReport, report_of(w)),
            Err(e) => fail(w, Operation::StopTracking, e),
        },
        Stage::FetchingReport => match reply_outcome(Operation::FetchReport, reply) {
            Ok(Payload::Report(bytes)) => (
                with_stage(w, Stage::Finished),
                ActionView::WriteReport(bytes@),
            ),
            Ok(_) => fail(w, Operation::FetchReport, ClientError::Decode),
            Err(e) => fail(w, Operation::FetchReport, e),
        },
        Stage::Finished | Stage::Failed => (w, ActionView::Halt),
    }
}

impl Workflow {
    /// A workflow that is about to sign in, and the sign-in request.
    pub fn start(credentials: Credentials, schedule: Schedule) -> (r: (Workflow, Action))
        ensures
            r.0@ == initial(credentials, schedule),
            r.1@ == ActionView::Send(sign_in_view(credentials.key@, credentials.secret@)),
    {
        let req = sign_in_request(credentials.key.as_str(), credentials.secret.as_str());
        let w = Workflow { stage: Stage::SigningIn, token: String::new(), credentials, schedule };
        (w, Action::Send(req))
    }

    pub fn stage(&self) -> (r: Stage)
        ensures
            r == self@.stage,
    {
        self.stage
    }

    /// The session token; empty until sign-in has succeeded.
    pub fn token(&self) -> (r: &str)
        ensures
            r@ == self@.token,
    {
        self.token.as_str()
    }

    fn fail(&mut self, op: Operation, e: ClientError) -> (r: Action)
        ensures
            (final(self)@, r@) == fail(old(self)@, op, e),
    {
        self.stage = Stage::Failed;
        Action::Abort(op, e)
    }

    fn report(&mut self) -> (r: Action)
        ensures
            (final(self)@, r@) == advance(old(self)@, Stage::FetchingReport, report_of(old(self)@)),
    {
        let req = report_request(
            self.token.as_str(),
            self.schedule.report_from.as_str(),
            self.schedule.report_to.as_str(),
            self.schedule.timezone.as_str(),
        );
        self.stage = Stage::FetchingReport;
        Action::Send(req)
    }

    /// Takes the reply to the request last sent and says what to do next.
    pub fn step(&mut self, reply: Reply) -> (r: Action)
        ensures
            (final(self)@, r@) == transition(old(self)@, reply),
    {
        match self.stage {
            Stage::SigningIn => match sign_in_outcome(reply) {
                Ok(t) => {
                    let req = account_request(t.as_str());
                    self.token = t;
                    self.stage = Stage::FetchingAccount;
                    Action::Send(req)
                },
                Err(e) => self.fail(Operation::SignIn, e),
            },
            Stage::FetchingAccount => match check_reply(Operation::FetchAccount, reply) {
                Ok(_) => {
                    self.stage = Stage::FetchingWorkspaces;
                    Action::Send(workspaces_request(self.token.as_str()))
                },
                Err(e) => self.fail(Operation::FetchAccount, e),
            },
            Stage::FetchingWorkspaces => match check_reply(Operation::FetchWorkspaces, reply) {
                Ok(_) => {
                    self.stage = Stage::FetchingActivities;
                    Action::Send(activities_request(self.token.as_str()))
                },
                Err(e) => self.fail(Operation::FetchWorkspaces, e),
            },
            Stage::FetchingActivities => match check_reply(Operation::FetchActivities, reply) {
                Ok(Payload::Activities(lists)) => {
                    if lists.active.len() == 0 {
                        self.report()
                    } else {
                        let req = start_tracking_request(
                            lists.active[0].id.as_str(),
                            self.token.as_str(),
                            self.schedule.started_at.as_str(),
                        );
                        self.stage = Stage::StartingTracking;
                        Action::Send(req)
                    }
                },
                Ok(_) => self.fail(Operation::FetchActivities, ClientError::Decode),
                Err(e) => self.fail(Operation::FetchActivities, e),
            },
            Stage::StartingTracking => match check_reply(Operation::StartTracking, reply) {
                Ok(_) => {
                    self.stage = Stage::StoppingTracking;
                    Action::Send(
                        stop_tracking_request(self.token.as_str(), self.schedule.stopped_at.as_str()),
                    )
                },
                Err(e) => self.fail(Operation::StartTracking, e),
            },
            Stage::StoppingTracking => match check_reply(Operation::StopTracking, reply) {
                Ok(_) => self.report(),
                Err(e) => self.fail(Operation::StopTracking, e),
            },
            Stage::FetchingReport => match check_reply(Operation::FetchReport, reply) {
                Ok(Payload::Report(bytes)) => {
                    self.stage = Stage::Finished;
                    Action::WriteReport(bytes)
                },
                Ok(_) => self.fail(Operation::FetchReport, ClientError::Decode),
                Err(e) => self.fail(Operation::FetchReport, e),
            },
            Stage::Finished | Stage::Failed => Action::Halt,
        }
    }
}

} // verus!
