//! Disconnecting: the end of a session.
//!
//! A session that is being disconnected belongs to the operation, so nothing else can be done
//! over it.  The operation ends by freeing the session, whether it was disconnected or not.
use vstd::prelude::*;

use crate::call::{Call, CallView, Reply, ReplyKind, ReplyView};
use crate::error::{SessionError, SessionErrorView};
use crate::return_code::{code_of, SolClientReturnCode};
use crate::run::{succeeded, Replies};
use crate::session::{drop_warning, Session};

verus! {

/// What disconnecting waits for.
#[derive(Debug)]
enum Stage {
    /// The session is being disconnected.
    Disconnect,
    /// The C client is asked why the session was not disconnected.
    LastError { code: SolClientReturnCode },
    /// The session is being freed, and the rest is known.
    Destroy { result: Result<(), SessionError> },
}

/// What disconnecting waits for.
#[verifier::ext_equal]
pub enum StageView {
    /// The session is being disconnected.
    Disconnect,
    /// The C client is asked why the session was not disconnected.
    LastError { code: SolClientReturnCode },
    /// The session is being freed, and the rest is known.
    Destroy { result: Result<(), SessionErrorView> },
}

/// A session that is being disconnected.
#[derive(Debug)]
pub struct Disconnecting {
    session: Session,
    stage: Stage,
}

/// The contents of a [`Disconnecting`].
#[verifier::ext_equal]
pub struct DisconnectingView {
    /// The session.
    pub session: Session,
    /// What is waited for.
    pub stage: StageView,
}

/// The contents of a result.
pub open spec fn result_view(result: Result<(), SessionError>) -> Result<(), SessionErrorView> {
    match result {
        Ok(_) => Ok(()),
        Err(error) => Err(error@),
    }
}

impl View for Disconnecting {
    type V = DisconnectingView;

    closed spec fn view(&self) -> DisconnectingView {
        DisconnectingView {
            session: self.session,
            stage: match self.stage {
                Stage::Disconnect => StageView::Disconnect,
                Stage::LastError { code } => StageView::LastError { code },
                Stage::Destroy { result } => StageView::Destroy { result: result_view(result) },
            },
        }
    }
}

/// How disconnecting goes on.
#[derive(Debug)]
pub enum DisconnectStep {
    /// The call is to be made, and its reply to be handed in with what waits for it.
    Perform(Call, Disconnecting),
    /// The session is gone.  The warning is the code with which it was not freed properly.
    Done { result: Result<(), SessionError>, warning: Option<SolClientReturnCode> },
}

/// The contents of a [`DisconnectStep`].
#[verifier::ext_equal]
pub enum DisconnectStepView {
    /// The call is to be made, and its reply to be handed in with what waits for it.
    Perform(CallView, DisconnectingView),
    /// The session is gone.  The warning is the code with which it was not freed properly.
    Done { result: Result<(), SessionErrorView>, warning: Option<SolClientReturnCode> },
}

impl View for DisconnectStep {
    type V = DisconnectStepView;

    open spec fn view(&self) -> DisconnectStepView {
        match self {
            DisconnectStep::Perform(call, waits) => DisconnectStepView::Perform(call@, waits@),
            DisconnectStep::Done { result, warning } => DisconnectStepView::Done {
                result: result_view(*result),
                warning: *warning,
            },
        }
    }
}

/// The step that frees the session, after which `result` is what disconnecting came to.
pub open spec fn free_step(
    session: Session,
    result: Result<(), SessionErrorView>,
) -> DisconnectStepView {
    DisconnectStepView::Perform(
        session.drop_call(),
        DisconnectingView { session, stage: StageView::Destroy { result } },
    )
}

/// The first step of disconnecting.
pub open spec fn first_step(session: Session) -> DisconnectStepView {
    DisconnectStepView::Perform(
        CallView::Disconnect { session: session.session },
        DisconnectingView { session, stage: StageView::Disconnect },
    )
}

impl DisconnectingView {
    /// The shape of the reply that is waited for.
    pub open spec fn reply_kind(self) -> ReplyKind {
        match self.stage {
            StageView::Disconnect => ReplyKind::Code,
            StageView::LastError { .. } => ReplyKind::ErrorInfo,
            StageView::Destroy { .. } => ReplyKind::Session,
        }
    }

    /// The step after the reply that was waited for.
    pub open spec fn after(self, reply: ReplyView) -> DisconnectStepView {
        match self.stage {
            StageView::Disconnect => if succeeded(reply) {
                free_step(self.session, Ok(()))
            } else {
                DisconnectStepView::Perform(
                    CallView::LastErrorInfo,
                    DisconnectingView {
                        stage: StageView::LastError { code: code_of(reply.code()) },
                        ..self
                    },
                )
            },
            StageView::LastError { code } => free_step(
                self.session,
                Err(SessionErrorView::DisconnectError(code, reply.info())),
            ),
            StageView::Destroy { result } => DisconnectStepView::Done {
                result,
                warning: drop_warning(reply.code()),
            },
        }
    }

    /// How many calls can follow at most.
    pub open spec fn calls_left(self) -> nat {
        match self.stage {
            StageView::Disconnect => 3,
            StageView::LastError { .. } => 2,
            StageView::Destroy { .. } => 1,
        }
    }
}

impl Disconnecting {
    /// Begins to disconnect a session.
    pub(crate) fn begin(session: Session) -> (step: DisconnectStep)
        ensures
            step@ == first_step(session),
            step matches DisconnectStep::Perform(Call::Disconnect { session: ended }, _) && ended
                == session.session,
    {
        DisconnectStep::Perform(
            Call::Disconnect { session: session.session },
            Disconnecting { session, stage: Stage::Disconnect },
        )
    }

    /// The shape of the reply that is waited for.
    pub fn reply_kind(&self) -> (kind: ReplyKind)
        ensures
            kind == self@.reply_kind(),
    {
        match &self.stage {
            Stage::Disconnect => ReplyKind::Code,
            Stage::LastError { .. } => ReplyKind::ErrorInfo,
            Stage::Destroy { .. } => ReplyKind::Session,
        }
    }

    /// Goes on after the reply that was waited for.
    pub fn resume(self, reply: Reply) -> (step: DisconnectStep)
        requires
            reply@.kind() == self@.reply_kind(),
        ensures
            step@ == self@.after(reply@),
    {
        let Disconnecting { session, stage } = self;
        match (stage, reply) {
            (Stage::Disconnect, Reply::Code(raw)) => {
                let code = SolClientReturnCode::from_raw(raw);
                if code.is_ok() {
                    Self::free(session, Ok(()))
                } else {
                    DisconnectStep::Perform(
                        Call::LastErrorInfo,
                        Disconnecting { session, stage: Stage::LastError { code } },
                    )
                }
            },
            (Stage::LastError { code }, Reply::ErrorInfo(info)) => {
                Self::free(session, Err(SessionError::DisconnectError(code, info)))
            },
            (Stage::Destroy { result }, Reply::Session { code, session: left }) => {
                let mut session = session;
                DisconnectStep::Done { result, warning: session.finish_drop(code, left) }
            },
            _ => vstd::pervasive::unreached(),
        }
    }

    /// Frees the session, after which `result` is what disconnecting came to.
    fn free(session: Session, result: Result<(), SessionError>) -> (step: DisconnectStep)
        ensures
            step@ == free_step(session, result_view(result)),
    {
        DisconnectStep::Perform(
            session.begin_drop(),
            Disconnecting { session, stage: Stage::Destroy { result } },
        )
    }
}

/// Disconnecting from its first step to its end.
#[verifier::ext_equal]
pub struct DisconnectRun {
    /// The calls that were made, in their order.
    pub calls: Seq<CallView>,
    /// What disconnecting came to.
    pub result: Result<(), SessionErrorView>,
    /// The code with which the session was not freed properly.
    pub warning: Option<SolClientReturnCode>,
}

/// Carries disconnecting to its end, where `replies(n)` is the reply to the call that `step` asks
/// for, `replies(n + 1)` the one to the call after it, and so on.
pub open spec fn run_disconnect(
    step: DisconnectStepView,
    replies: Replies,
    n: int,
) -> DisconnectRun
    decreases
            match step {
                DisconnectStepView::Done { .. } => 0nat,
                DisconnectStepView::Perform(_, waits) => waits.calls_left(),
            },
{
    match step {
        DisconnectStepView::Done { result, warning } => DisconnectRun {
            calls: seq![],
            result,
            warning,
        },
        DisconnectStepView::Perform(call, waits) => {
            let rest = run_disconnect(waits.after(replies(n)), replies, n + 1);
            DisconnectRun { calls: seq![call] + rest.calls, ..rest }
        },
    }
}

/// Disconnecting makes one call.  Where it fails, the C client is asked why, and the error holds
/// the code of the call and the answer.  Either way the session is freed then, and where that
/// fails, the code of that call is warned about.
pub open spec fn disconnect_run(session: Session, replies: Replies) -> DisconnectRun {
    let sent = CallView::Disconnect { session: session.session };
    let free = CallView::DestroySession { session: session.session };
    if succeeded(replies(0)) {
        DisconnectRun {
            calls: seq![sent, free],
            result: Ok(()),
            warning: drop_warning(replies(1).code()),
        }
    } else {
        DisconnectRun {
            calls: seq![sent, CallView::LastErrorInfo, free],
            result: Err(
                SessionErrorView::DisconnectError(code_of(replies(0).code()), replies(1).info()),
            ),
            warning: drop_warning(replies(2).code()),
        }
    }
}

/// Disconnecting goes as [`disconnect_run`] says, whatever the replies are.
pub proof fn law_disconnect(session: Session, replies: Replies)
    ensures
        run_disconnect(first_step(session), replies, 0) == disconnect_run(session, replies),
{
    reveal_with_fuel(run_disconnect, 4);
}

/// Disconnecting ends by freeing the session itself, whether it was disconnected or not, and
/// frees nothing before.
pub proof fn law_disconnect_then_drop(session: Session, replies: Replies)
    ensures
        ({
            let calls = run_disconnect(first_step(session), replies, 0).calls;
            &&& calls.len() >= 2
            &&& calls[0] == (CallView::Disconnect { session: session.session })
            &&& calls.last() == session.drop_call()
            &&& session.drop_call() == (CallView::DestroySession { session: session.session })
            &&& forall|i: int|
                0 <= i < calls.len() - 1 ==> !(#[trigger] calls[i] is DestroySession)
        }),
{
    law_disconnect(session, replies);
}

/// Disconnecting succeeds if and only if the call that disconnects does: whether the session is
/// freed properly has no say in it.
pub proof fn law_disconnect_success(session: Session, replies: Replies)
    ensures
        run_disconnect(first_step(session), replies, 0).result is Ok <==> succeeded(replies(0)),
{
    law_disconnect(session, replies);
}

/// A step waits for a reply of just the shape that the call it asks for is answered with, and
/// every reply brings disconnecting closer to its end.
pub proof fn law_disconnect_progress(
    session: Session,
    waiting: DisconnectingView,
    reply: ReplyView,
)
    ensures
        first_step(session) matches DisconnectStepView::Perform(call, waits) ==> call.reply_kind()
            == waits.reply_kind(),
        waiting.after(reply) matches DisconnectStepView::Perform(call, waits) ==> call.reply_kind()
            == waits.reply_kind() && waits.calls_left() < waiting.calls_left(),
{
}

/// The contents of a step are the call with what waits for it, or what disconnecting came to with
/// the code that is warned about, as they stand.
pub proof fn law_disconnect_step_contents(step: DisconnectStep)
    ensures
        step matches DisconnectStep::Perform(call, waits) ==> step@ == DisconnectStepView::Perform(
            call@,
            waits@,
        ),
        step matches DisconnectStep::Done { result: Ok(_), warning } ==> step@ == (
        DisconnectStepView::Done { result: Ok(()), warning }),
        step matches DisconnectStep::Done { result: Err(error), warning } ==> step@ == (
        DisconnectStepView::Done { result: Err(error@), warning }),
{
}

/// Disconnecting waits for a return code, for the details of a failure, or for what is left of the
/// session.
pub proof fn law_disconnect_awaits(waiting: DisconnectingView)
    ensures
        waiting.reply_kind() is Code <==> waiting.stage is Disconnect,
        waiting.reply_kind() is ErrorInfo <==> waiting.stage is LastError,
        waiting.reply_kind() is Session <==> waiting.stage is Destroy,
{
}

} // verus!
