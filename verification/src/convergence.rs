//! The stack convergence engine: create the stack, fall back to an update
//! where it exists already, then watch its status until it is terminal.
//!
//! The engine decides; the caller talks to the backend. The caller asks for
//! the next command, carries it out, and reports the backend's reply.

use vstd::prelude::*;
use vstd::string::StringExecFns;
use crate::error::{DeployError, DeployErrorView};
use crate::parameters::{copy_resolved, resolved_views, ResolvedParameter};
use crate::template::{copy_text, optional_text};
use crate::text::ends_with;

verus! {

/// The wait before a status is requested again, in time units.
pub const POLL_INTERVAL: u64 = 2;

/// The acknowledgment that the backend demands for a stack that may grant
/// named identities.
#[derive(Debug, Clone, Copy, PartialEq, Eq, Structural)]
pub enum Capability {
    NamedIam,
}

/// What is submitted to the backend, for a create and for an update alike.
#[derive(Debug, Clone, PartialEq, Eq)]
pub struct StackRequest {
    pub stack_name: String,
    pub parameters: Vec<ResolvedParameter>,
    pub template_url: String,
    pub capability: Capability,
}

/// A `StackRequest` over views.
pub struct StackRequestView {
    pub stack_name: Seq<char>,
    pub parameters: Seq<(Seq<char>, Seq<char>)>,
    pub template_url: Seq<char>,
    pub capability: Capability,
}

impl View for StackRequest {
    type V = StackRequestView;

    open spec fn view(&self) -> StackRequestView {
        StackRequestView {
            stack_name: self.stack_name@,
            parameters: resolved_views(self.parameters@),
            template_url: self.template_url@,
            capability: self.capability,
        }
    }
}

impl StackRequest {
    /// The request for the stack named `stack_name`.
    pub fn new(stack_name: String, parameters: Vec<ResolvedParameter>, template_url: String) -> (r:
        StackRequest)
        ensures
            r@ == (StackRequestView {
                stack_name: stack_name@,
                parameters: resolved_views(parameters@),
                template_url: template_url@,
                capability: Capability::NamedIam,
            }),
    {
        StackRequest { stack_name, parameters, template_url, capability: Capability::NamedIam }
    }

    /// A copy of this request.
    pub fn duplicate(&self) -> (r: StackRequest)
        ensures
            r@ == self@,
    {
        StackRequest {
            stack_name: self.stack_name.clone(),
            parameters: copy_resolved(&self.parameters),
            template_url: self.template_url.clone(),
            capability: self.capability,
        }
    }
}

/// What the backend answered to the last command.
#[derive(Debug, Clone, PartialEq, Eq)]
pub enum BackendReply {
    /// The create or update was accepted; this is the stack's identifier.
    Accepted(String),
    /// The create was refused because a stack of that name exists.
    AlreadyExists,
    /// The call failed for any other reason; this is the full error context.
    Failed(String),
    /// The status of the stack, or `None` where the backend sent no record.
    Status(Option<String>),
}

/// A `BackendReply` over views.
pub enum BackendReplyView {
    Accepted(Seq<char>),
    AlreadyExists,
    Failed(Seq<char>),
    Status(Option<Seq<char>>),
}

impl View for BackendReply {
    type V = BackendReplyView;

    open spec fn view(&self) -> BackendReplyView {
        match self {
            BackendReply::Accepted(id) => BackendReplyView::Accepted(id@),
            BackendReply::AlreadyExists => BackendReplyView::AlreadyExists,
            BackendReply::Failed(context) => BackendReplyView::Failed(context@),
            BackendReply::Status(status) => BackendReplyView::Status(optional_text(*status)),
        }
    }
}

/// What the caller does next.
#[derive(Debug, Clone, PartialEq, Eq)]
pub enum Command {
    /// Submit the request as a create.
    CreateStack(StackRequest),
    /// Submit the request as an update.
    UpdateStack(StackRequest),
    /// Report `report`, where there is one; wait `delay` time units; then
    /// ask for the status of the stack.
    DescribeStack { stack_id: String, delay: u64, report: Option<String> },
    /// Report the final status and stop. Whether it means success is for
    /// the operator to read.
    Finish { status: String },
    /// Stop with the error.
    Abort { error: DeployError },
}

/// A `Command` over views.
pub enum CommandView {
    CreateStack(StackRequestView),
    UpdateStack(StackRequestView),
    DescribeStack { stack_id: Seq<char>, delay: u64, report: Option<Seq<char>> },
    Finish { status: Seq<char> },
    Abort { error: DeployErrorView },
}

impl View for Command {
    type V = CommandView;

    open spec fn view(&self) -> CommandView {
        match self {
            Command::CreateStack(request) => CommandView::CreateStack(request@),
            Command::UpdateStack(request) => CommandView::UpdateStack(request@),
            Command::DescribeStack { stack_id, delay, report } => CommandView::DescribeStack {
                stack_id: stack_id@,
                delay: *delay,
                report: optional_text(*report),
            },
            Command::Finish { status } => CommandView::Finish { status: status@ },
            Command::Abort { error } => CommandView::Abort { error: error@ },
        }
    }
}

/// Where a convergence stands.
pub enum PhaseView {
    /// The create is out; its reply is awaited.
    Creating,
    /// The stack exists; the update is out and its reply is awaited.
    Updating,
    /// The action was accepted. `last_status` is the status seen last, all
    /// statuses seen so far being non-terminal.
    Polling { stack_id: Seq<char>, last_status: Option<Seq<char>> },
    /// A terminal status was seen.
    Terminal { status: Seq<char> },
    /// The run is over with an error.
    Fatal { error: DeployErrorView },
}

/// A status is non-terminal where it ends with `PROGRESS`, and terminal
/// otherwise.
pub open spec fn in_progress(status: Seq<char>) -> bool {
    "PROGRESS"@.is_suffix_of(status)
}

/// The status that stands for a missing status record.
pub open spec fn unknown_status() -> Seq<char> {
    "Unknown status"@
}

/// The error context for a reply that answers no command that was given.
pub open spec fn unexpected_reply() -> Seq<char> {
    "unexpected reply from the stack backend"@
}

/// The phase after `reply` arrived in `phase`.
pub open spec fn next_phase(phase: PhaseView, reply: BackendReplyView) -> PhaseView {
    match phase {
        PhaseView::Creating => match reply {
            BackendReplyView::Accepted(stack_id) => PhaseView::Polling {
                stack_id,
                last_status: None,
            },
            BackendReplyView::AlreadyExists => PhaseView::Updating,
            BackendReplyView::Failed(context) => PhaseView::Fatal {
                error: DeployErrorView::RemoteState(context),
            },
            BackendReplyView::Status(_) => PhaseView::Fatal {
                error: DeployErrorView::RemoteState(unexpected_reply()),
            },
        },
        PhaseView::Updating => match reply {
            BackendReplyView::Accepted(stack_id) => PhaseView::Polling {
                stack_id,
                last_status: None,
            },
            BackendReplyView::Failed(context) => PhaseView::Fatal {
                error: DeployErrorView::RemoteState(context),
            },
            _ => PhaseView::Fatal { error: DeployErrorView::RemoteState(unexpected_reply()) },
        },
        PhaseView::Polling { stack_id, last_status } => match reply {
            BackendReplyView::Status(Some(status)) => if in_progress(status) {
                PhaseView::Polling { stack_id, last_status: Some(status) }
            } else {
                PhaseView::Terminal { status }
            },
            BackendReplyView::Status(None) => PhaseView::Terminal { status: unknown_status() },
            BackendReplyView::Failed(context) => PhaseView::Fatal {
                error: DeployErrorView::RemoteState(context),
            },
            _ => PhaseView::Fatal { error: DeployErrorView::RemoteState(unexpected_reply()) },
        },
        PhaseView::Terminal { status } => phase,
        PhaseView::Fatal { error } => phase,
    }
}

/// The state of a convergence: what is submitted, and where it stands.
pub struct EngineView {
    pub request: StackRequestView,
    pub phase: PhaseView,
}

impl EngineView {
    /// The state in which a convergence starts.
    pub open spec fn start(request: StackRequestView) -> EngineView {
        EngineView { request, phase: PhaseView::Creating }
    }

    /// The command that the caller carries out in this state.
    pub open spec fn command(self) -> CommandView {
        match self.phase {
            PhaseView::Creating => CommandView::CreateStack(self.request),
            PhaseView::Updating => CommandView::UpdateStack(self.request),
            PhaseView::Polling { stack_id, last_status } => CommandView::DescribeStack {
                stack_id,
                delay: if last_status is Some {
                    POLL_INTERVAL
                } else {
                    0
                },
                report: last_status,
            },
            PhaseView::Terminal { status } => CommandView::Finish { status },
            PhaseView::Fatal { error } => CommandView::Abort { error },
        }
    }

    /// The state after `reply` arrived.
    pub open spec fn replied(self, reply: BackendReplyView) -> EngineView {
        EngineView { request: self.request, phase: next_phase(self.phase, reply) }
    }

    /// The state after the replies `replies` arrived one after the other.
    pub open spec fn replied_all(self, replies: Seq<BackendReplyView>) -> EngineView
        decreases replies.len(),
    {
        if replies.len() == 0 {
            self
        } else {
            self.replied_all(replies.drop_last()).replied(replies.last())
        }
    }
}

/// Whether `status` is non-terminal.
pub fn is_in_progress(status: &str) -> (r: bool)
    ensures
        r == in_progress(status@),
{
    ends_with(status, "PROGRESS")
}

/// Where a convergence stands.
enum Phase {
    Creating,
    Updating,
    Polling { stack_id: String, last_status: Option<String> },
    Terminal { status: String },
    Fatal { error: DeployError },
}

impl View for Phase {
    type V = PhaseView;

    closed spec fn view(&self) -> PhaseView {
        match self {
            Phase::Creating => PhaseView::Creating,
            Phase::Updating => PhaseView::Updating,
            Phase::Polling { stack_id, last_status } => PhaseView::Polling {
                stack_id: stack_id@,
                last_status: optional_text(*last_status),
            },
            Phase::Terminal { status } => PhaseView::Terminal { status: status@ },
            Phase::Fatal { error } => PhaseView::Fatal { error: error@ },
        }
    }
}

/// The phase that ends a run on a reply that answers no command.
fn unexpected() -> (r: Phase)
    ensures
        r@ == (PhaseView::Fatal { error: DeployErrorView::RemoteState(unexpected_reply()) }),
{
    Phase::Fatal {
        error: DeployError::RemoteState(String::from_str("unexpected reply from the stack backend")),
    }
}

/// The phase that ends a run on a failed call.
fn failed(context: String) -> (r: Phase)
    ensures
        r@ == (PhaseView::Fatal { error: DeployErrorView::RemoteState(context@) }),
{
    Phase::Fatal { error: DeployError::RemoteState(context) }
}

/// A convergence in progress.
pub struct ConvergenceEngine {
    request: StackRequest,
    phase: Phase,
}

impl View for ConvergenceEngine {
    type V = EngineView;

    closed spec fn view(&self) -> EngineView {
        EngineView { request: self.request@, phase: self.phase@ }
    }
}

impl ConvergenceEngine {
    /// Starts a convergence: the first command is the create.
    pub fn new(request: StackRequest) -> (r: ConvergenceEngine)
        ensures
            r@ == EngineView::start(request@),
    {
        ConvergenceEngine { request, phase: Phase::Creating }
    }

    /// What the caller does next.
    pub fn next_command(&self) -> (r: Command)
        ensures
            r@ == self@.command(),
    {
        match &self.phase {
            Phase::Creating => Command::CreateStack(self.request.duplicate()),
            Phase::Updating => Command::UpdateStack(self.request.duplicate()),
            Phase::Polling { stack_id, last_status } => {
                let delay: u64 = if last_status.is_some() {
                    POLL_INTERVAL
                } else {
                    0
                };
                Command::DescribeStack {
                    stack_id: stack_id.clone(),
                    delay,
                    report: copy_text(last_status),
                }
            },
            Phase::Terminal { status } => Command::Finish { status: status.clone() },
            Phase::Fatal { error } => Command::Abort { error: error.duplicate() },
        }
    }

    /// Takes the backend's reply to the command that was given last.
    pub fn on_reply(&mut self, reply: BackendReply)
        ensures
            final(self)@ == old(self)@.replied(reply@),
    {
        let next = match &self.phase {
            Phase::Creating => match reply {
                BackendReply::Accepted(stack_id) => Phase::Polling { stack_id, last_status: None },
                BackendReply::AlreadyExists => Phase::Updating,
                BackendReply::Failed(context) => failed(context),
                BackendReply::Status(_) => unexpected(),
            },
            Phase::Updating => match reply {
                BackendReply::Accepted(stack_id) => Phase::Polling { stack_id, last_status: None },
                BackendReply::Failed(context) => failed(context),
                _ => unexpected(),
            },
            Phase::Polling { stack_id, last_status } => match reply {
                BackendReply::Status(Some(status)) => {
                    if is_in_progress(status.as_str()) {
                        Phase::Polling { stack_id: stack_id.clone(), last_status: Some(status) }
                    } else {
                        Phase::Terminal { status }
                    }
                },
                BackendReply::Status(None) => Phase::Terminal {
                    status: String::from_str("Unknown status"),
                },
                BackendReply::Failed(context) => failed(context),
                _ => unexpected(),
            },
            Phase::Terminal { status } => Phase::Terminal { status: status.clone() },
            Phase::Fatal { error } => Phase::Fatal { error: error.duplicate() },
        };
        self.phase = next;
    }
}

/// The replies that carry the statuses `statuses`, one each, in order.
pub open spec fn status_replies(statuses: Seq<Seq<char>>) -> Seq<BackendReplyView> {
    statuses.map_values(|status: Seq<char>| BackendReplyView::Status(Some(status)))
}

/// Where a convergence stands after its first `k` replies: it never waits
/// for a create again, and it waits for an update only right after the
/// create was refused because the stack exists.
proof fn lemma_phases(request: StackRequestView, replies: Seq<BackendReplyView>, k: int)
    requires
        0 <= k <= replies.len(),
    ensures
        ({
            let state = EngineView::start(request).replied_all(replies.take(k));
            &&& state.request == request
            &&& state.phase is Creating <==> k == 0
            &&& state.phase is Updating <==> k == 1 && replies[0] is AlreadyExists
        }),
    decreases k,
{
    if k > 0 {
        lemma_phases(request, replies, k - 1);
        assert(replies.take(k).drop_last() =~= replies.take(k - 1));
        assert(replies.take(k).last() == replies[k - 1]);
    }
}

/// Create, and fall back to update. Whatever the backend replies, the first
/// command is the create and no later one is. An update is commanded only
/// straight after the create was refused because the stack exists, hence once
/// at most, and it carries the request that the create carried.
pub proof fn law_create_update_fallback(
    request: StackRequestView,
    replies: Seq<BackendReplyView>,
    k: int,
)
    requires
        0 <= k <= replies.len(),
    ensures
        ({
            let command = EngineView::start(request).replied_all(replies.take(k)).command();
            &&& k == 0 ==> command == CommandView::CreateStack(request)
            &&& k > 0 ==> !(command is CreateStack)
            &&& command is UpdateStack <==> k == 1 && replies[0] is AlreadyExists
            &&& command is UpdateStack ==> command == CommandView::UpdateStack(request)
        }),
{
    lemma_phases(request, replies, k);
}

/// Polling ends with the first terminal status. Where every status but the
/// last is non-terminal and the last is terminal, each status before the
/// last is answered by one delayed request for the next, which reports it,
/// and the last is answered by the command to finish with it.
pub proof fn law_polling(engine: EngineView, statuses: Seq<Seq<char>>, k: int)
    requires
        engine.phase is Polling,
        statuses.len() > 0,
        forall|i: int| 0 <= i < statuses.len() - 1 ==> in_progress(#[trigger] statuses[i]),
        !in_progress(statuses.last()),
        0 < k <= statuses.len(),
    ensures
        ({
            let command = engine.replied_all(status_replies(statuses.take(k))).command();
            &&& k < statuses.len() ==> command == (CommandView::DescribeStack {
                stack_id: engine.phase->stack_id,
                delay: POLL_INTERVAL,
                report: Some(statuses[k - 1]),
            })
            &&& k == statuses.len() ==> command == (CommandView::Finish {
                status: statuses.last(),
            })
        }),
    decreases k,
{
    let replies = status_replies(statuses.take(k));
    assert(replies.drop_last() =~= status_replies(statuses.take(k - 1)));
    assert(replies.last() == BackendReplyView::Status(Some(statuses[k - 1])));
    if k > 1 {
        law_polling(engine, statuses, k - 1);
    } else {
        assert(engine.replied_all(replies.drop_last()) == engine);
    }
}


} // verus!
