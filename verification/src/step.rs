//! Operations that are under way.
use vstd::prelude::*;
use vstd::utf8::{decode_utf8, valid_utf8};

use crate::call::{Call, CallView, ReplyKind};
use crate::ctext::{is_nul_free, lossy_text, CText};
use crate::error::{SessionError, SessionErrorView, SolClientSubCode, SubCodeView};
use crate::return_code::SolClientReturnCode;

verus! {

/// Whether a topic or a queue is taken up or given up.
#[derive(Clone, Copy, Debug, PartialEq, Eq, Structural)]
pub enum Direction {
    /// Messages are wanted from now on.
    Subscribe,
    /// Messages are no longer wanted.
    Unsubscribe,
}

/// A call that failed, as far as its error is known before the C client is asked for details.
#[derive(Debug)]
pub enum Failure {
    /// A message was not sent.
    Publish { code: SolClientReturnCode },
    /// The named topic or queue was not taken up or not given up.
    Named { direction: Direction, name: CText, code: SolClientReturnCode },
}

/// The contents of a [`Failure`].
#[verifier::ext_equal]
pub enum FailureView {
    /// A message was not sent.
    Publish { code: SolClientReturnCode },
    /// The named topic or queue was not taken up or not given up.
    Named { direction: Direction, name: Seq<u8>, code: SolClientReturnCode },
}

impl View for Failure {
    type V = FailureView;

    open spec fn view(&self) -> FailureView {
        match self {
            Failure::Publish { code } => FailureView::Publish { code: *code },
            Failure::Named { direction, name, code } => {
                FailureView::Named { direction: *direction, name: name@, code: *code }
            },
        }
    }
}

/// The error for a topic or a queue whose name reads `name`.
pub open spec fn named_error(
    direction: Direction,
    name: Seq<char>,
    code: SolClientReturnCode,
    info: SubCodeView,
) -> SessionErrorView {
    match direction {
        Direction::Subscribe => SessionErrorView::SubscriptionFailure(name, code, info),
        Direction::Unsubscribe => SessionErrorView::UnsubscriptionFailure(name, code, info),
    }
}

impl FailureView {
    /// The error, once the details are known.
    pub open spec fn error(self, info: SubCodeView) -> SessionErrorView {
        match self {
            FailureView::Publish { code } => SessionErrorView::PublishError(code, info),
            FailureView::Named { direction, name, code } => {
                named_error(direction, lossy_text(name), code, info)
            },
        }
    }
}

/// Makes the error for a topic or a queue whose name reads `name`.
pub fn named_failure(
    direction: Direction,
    name: String,
    code: SolClientReturnCode,
    info: SolClientSubCode,
) -> (error: SessionError)
    ensures
        error@ == named_error(direction, name@, code, info@),
{
    match direction {
        Direction::Subscribe => SessionError::SubscriptionFailure(name, code, info),
        Direction::Unsubscribe => SessionError::UnsubscriptionFailure(name, code, info),
    }
}

impl Failure {
    /// Makes the error from the details that the C client gave.
    pub fn into_error(self, info: SolClientSubCode) -> (error: SessionError)
        ensures
            error@ == self@.error(info@),
            self@ matches FailureView::Named { direction, name, code } ==> (valid_utf8(name)
                ==> error@ == named_error(direction, decode_utf8(name), code, info@)),
    {
        match self {
            Failure::Publish { code } => SessionError::PublishError(code, info),
            Failure::Named { direction, name, code } => {
                named_failure(direction, name.to_string_lossy(), code, info)
            },
        }
    }
}

/// What an operation waits for.
#[derive(Debug)]
pub enum Pending {
    /// A message is being sent.
    Publish,
    /// A topic is being taken up or given up.
    Topic { direction: Direction, topic: CText },
    /// The session is asked whether it can manage queues, before the named one is touched.
    Capability { direction: Direction, name: Vec<u8> },
    /// A queue is being created.
    Provision { queue: CText },
    /// A flow to a queue is being made.
    CreateFlow { queue: CText },
    /// The flow to a queue is being destroyed.
    DestroyFlow { queue: CText },
    /// A queue is being removed.
    Deprovision { queue: CText },
    /// The C client is asked why a call failed.
    LastError { failure: Failure },
}

/// The contents of a [`Pending`].
#[verifier::ext_equal]
pub enum PendingView {
    /// A message is being sent.
    Publish,
    /// A topic is being taken up or given up.
    Topic { direction: Direction, topic: Seq<u8> },
    /// The session is asked whether it can manage queues, before the named one is touched.
    Capability { direction: Direction, name: Seq<u8> },
    /// A queue is being created.
    Provision { queue: Seq<u8> },
    /// A flow to a queue is being made.
    CreateFlow { queue: Seq<u8> },
    /// The flow to a queue is being destroyed.
    DestroyFlow { queue: Seq<u8> },
    /// A queue is being removed.
    Deprovision { queue: Seq<u8> },
    /// The C client is asked why a call failed.
    LastError { failure: FailureView },
}

impl View for Pending {
    type V = PendingView;

    open spec fn view(&self) -> PendingView {
        match self {
            Pending::Publish => PendingView::Publish,
            Pending::Topic { direction, topic } => {
                PendingView::Topic { direction: *direction, topic: topic@ }
            },
            Pending::Capability { direction, name } => {
                PendingView::Capability { direction: *direction, name: name@ }
            },
            Pending::Provision { queue } => PendingView::Provision { queue: queue@ },
            Pending::CreateFlow { queue } => PendingView::CreateFlow { queue: queue@ },
            Pending::DestroyFlow { queue } => PendingView::DestroyFlow { queue: queue@ },
            Pending::Deprovision { queue } => PendingView::Deprovision { queue: queue@ },
            Pending::LastError { failure } => PendingView::LastError { failure: failure@ },
        }
    }
}

impl PendingView {
    /// The shape of the reply that is waited for.
    pub open spec fn reply_kind(self) -> ReplyKind {
        match self {
            PendingView::Capability { .. } => ReplyKind::Capability,
            PendingView::CreateFlow { .. } => ReplyKind::Flow,
            PendingView::DestroyFlow { .. } => ReplyKind::Flow,
            PendingView::LastError { .. } => ReplyKind::ErrorInfo,
            _ => ReplyKind::Code,
        }
    }

    /// Whether C can hold every name that was checked already.
    pub open spec fn is_nul_free(self) -> bool {
        match self {
            PendingView::Topic { topic, .. } => is_nul_free(topic),
            PendingView::Provision { queue } => is_nul_free(queue),
            PendingView::CreateFlow { queue } => is_nul_free(queue),
            PendingView::DestroyFlow { queue } => is_nul_free(queue),
            PendingView::Deprovision { queue } => is_nul_free(queue),
            _ => true,
        }
    }
}

impl Pending {
    /// The shape of the reply that is waited for.
    pub fn reply_kind(&self) -> (kind: ReplyKind)
        ensures
            kind == self@.reply_kind(),
    {
        match self {
            Pending::Capability { .. } => ReplyKind::Capability,
            Pending::CreateFlow { .. } => ReplyKind::Flow,
            Pending::DestroyFlow { .. } => ReplyKind::Flow,
            Pending::LastError { .. } => ReplyKind::ErrorInfo,
            _ => ReplyKind::Code,
        }
    }
}

/// What a request waits for.
#[derive(Debug)]
pub enum PendingRequest {
    /// The reply.
    Reply,
    /// The C client is asked why no reply came.
    LastError { code: SolClientReturnCode },
}

impl View for PendingRequest {
    type V = PendingRequest;

    open spec fn view(&self) -> PendingRequest {
        *self
    }
}

impl PendingRequest {
    /// The shape of the reply that is waited for.
    pub open spec fn awaited(self) -> ReplyKind {
        match self {
            PendingRequest::Reply => ReplyKind::Message,
            PendingRequest::LastError { .. } => ReplyKind::ErrorInfo,
        }
    }

    /// The shape of the reply that is waited for.
    pub fn reply_kind(&self) -> (kind: ReplyKind)
        ensures
            kind == self.awaited(),
    {
        match self {
            PendingRequest::Reply => ReplyKind::Message,
            PendingRequest::LastError { .. } => ReplyKind::ErrorInfo,
        }
    }
}

/// How an operation goes on.
#[derive(Debug)]
pub enum Step<P, T> {
    /// The call is to be made, and its reply to be handed in with what waits for it.
    Perform(Call, P),
    /// The operation is over.
    Done(Result<T, SessionError>),
}

/// The contents of a [`Step`].
#[verifier::ext_equal]
pub enum StepView<P, T> {
    /// The call is to be made, and its reply to be handed in with what waits for it.
    Perform(CallView, P),
    /// The operation is over.
    Done(Result<T, SessionErrorView>),
}

impl<T> StepView<PendingView, T> {
    /// Whether C can hold every string that the step hands to the C client or keeps for later.
    pub open spec fn is_nul_free(self) -> bool {
        self matches StepView::Perform(call, pending) ==> call.is_nul_free()
            && pending.is_nul_free()
    }
}

impl<P: View, T> View for Step<P, T> {
    type V = StepView<P::V, T>;

    open spec fn view(&self) -> StepView<P::V, T> {
        match self {
            Step::Perform(call, pending) => StepView::Perform(call@, pending@),
            Step::Done(Ok(value)) => StepView::Done(Ok(*value)),
            Step::Done(Err(error)) => StepView::Done(Err(error@)),
        }
    }
}

/// A step asks for a call just when its contents do, for that call and with what waits for it,
/// and a step that is over came to just what its contents came to.
pub proof fn law_step_contents<P: View, T>(step: Step<P, T>)
    ensures
        step matches Step::Perform(call, pending) ==> step@ == StepView::<P::V, T>::Perform(
            call@,
            pending@,
        ),
        step matches Step::Done(Ok(value)) ==> step@ == StepView::<P::V, T>::Done(Ok(value)),
        step matches Step::Done(Err(error)) ==> step@ == StepView::<P::V, T>::Done(Err(error@)),
{
}

/// What an operation waits for is kept as it stands, byte by byte and code by code.
pub proof fn law_pending_contents(pending: Pending)
    ensures
        pending is Publish <==> pending@ is Publish,
        pending matches Pending::Topic { direction, topic } ==> pending@ == (PendingView::Topic {
            direction,
            topic: topic@,
        }),
        pending matches Pending::Capability { direction, name } ==> pending@ == (
        PendingView::Capability { direction, name: name@ }),
        pending matches Pending::Provision { queue } ==> pending@ == (PendingView::Provision {
            queue: queue@,
        }),
        pending matches Pending::CreateFlow { queue } ==> pending@ == (PendingView::CreateFlow {
            queue: queue@,
        }),
        pending matches Pending::DestroyFlow { queue } ==> pending@ == (PendingView::DestroyFlow {
            queue: queue@,
        }),
        pending matches Pending::Deprovision { queue } ==> pending@ == (PendingView::Deprovision {
            queue: queue@,
        }),
        pending matches Pending::LastError { failure: Failure::Publish { code } } ==> pending@ == (
        PendingView::LastError { failure: FailureView::Publish { code } }),
        pending matches Pending::LastError {
            failure: Failure::Named { direction, name, code },
        } ==> pending@ == (PendingView::LastError {
            failure: FailureView::Named { direction, name: name@, code },
        }),
{
}

/// What shape of reply is waited for: the answer to a question, what stands in the place of a flow
/// or of a message, or a return code alone.
pub proof fn law_awaited(pending: PendingView, request: PendingRequest)
    ensures
        pending.reply_kind() is Capability <==> pending is Capability,
        pending.reply_kind() is Flow <==> pending is CreateFlow || pending is DestroyFlow,
        pending.reply_kind() is ErrorInfo <==> pending is LastError,
        pending.reply_kind() is Code <==> pending is Publish || pending is Topic
            || pending is Provision || pending is Deprovision,
        request.awaited() is Message <==> request is Reply,
        request.awaited() is ErrorInfo <==> request is LastError,
{
}

/// A failure to take something up is told from a failure to give it up, and both keep the name,
/// the code and the details.
pub proof fn law_named_error(name: Seq<char>, code: SolClientReturnCode, info: SubCodeView)
    ensures
        named_error(Direction::Subscribe, name, code, info)
            == SessionErrorView::SubscriptionFailure(name, code, info),
        named_error(Direction::Unsubscribe, name, code, info)
            == SessionErrorView::UnsubscriptionFailure(name, code, info),
{
}

/// The error of a failure keeps the code of the call that failed, the details and, where there is
/// one, the name.
pub proof fn law_failure_error(failure: FailureView, info: SubCodeView)
    ensures
        failure matches FailureView::Publish { code } ==> failure.error(info)
            == SessionErrorView::PublishError(code, info),
        failure matches FailureView::Named { direction: Direction::Subscribe, name, code }
            ==> failure.error(info) == SessionErrorView::SubscriptionFailure(
            lossy_text(name),
            code,
            info,
        ),
        failure matches FailureView::Named { direction: Direction::Unsubscribe, name, code }
            ==> failure.error(info) == SessionErrorView::UnsubscriptionFailure(
            lossy_text(name),
            code,
            info,
        ),
{
}

} // verus!
