//! Whole operations: what calls they make and what they come to, for all replies.
use vstd::prelude::*;

use crate::call::{CallView, MessageHandle, ReplyKind, ReplyView, SessionHandle};
use crate::ctext::{bytes_of, first_nul, is_nul_free, lossy_text, NulErrorView};
use crate::error::{SessionErrorView, SubCodeView};
use crate::properties::{
    deprovision_entries, flow_entries, law_arrays_are_property_lists, law_endpoint_is_identified,
    lemma_texts_are_nul_free, provision_entries, provision_flags, CAPABILITY_ENDPOINT_MANAGEMENT,
};
use crate::return_code::{code_of, SolClientReturnCode};
use crate::session::{Session, ENDPOINT_MANAGEMENT_UNSUPPORTED};
use crate::step::{named_error, Direction, PendingRequest, PendingView, StepView};

verus! {

/// The replies to the calls of an operation, by the number of the call.
pub type Replies = spec_fn(int) -> ReplyView;

/// An operation from its first step to its end.
#[verifier::ext_equal]
pub struct Run<T> {
    /// The calls that were made, in their order.
    pub calls: Seq<CallView>,
    /// The session after the operation.
    pub session: Session,
    /// What the operation came to.
    pub result: Result<T, SessionErrorView>,
}

/// How many calls can follow at most.
pub open spec fn calls_left(step: StepView<PendingView, ()>) -> nat {
    match step {
        StepView::Done(_) => 0,
        StepView::Perform(_, PendingView::Capability { .. }) => 4,
        StepView::Perform(_, PendingView::Provision { .. }) => 3,
        StepView::Perform(_, PendingView::DestroyFlow { .. }) => 3,
        StepView::Perform(_, PendingView::LastError { .. }) => 1,
        StepView::Perform(_, _) => 2,
    }
}

/// Carries an operation to its end, where `replies(n)` is the reply to the call that `step` asks
/// for, `replies(n + 1)` the one to the call after it, and so on.
pub open spec fn run(
    session: Session,
    step: StepView<PendingView, ()>,
    replies: Replies,
    n: int,
) -> Run<()>
    decreases calls_left(step),
{
    match step {
        StepView::Done(result) => Run { calls: seq![], session, result },
        StepView::Perform(call, pending) => {
            let (session, next) = session.after(pending, replies(n));
            let rest = run(session, next, replies, n + 1);
            Run { calls: seq![call] + rest.calls, ..rest }
        },
    }
}

/// Carries a request to its end.
pub open spec fn run_request(
    session: Session,
    step: StepView<PendingRequest, MessageHandle>,
    replies: Replies,
    n: int,
) -> Run<MessageHandle>
    decreases
            match step {
                StepView::Done(_) => 0nat,
                StepView::Perform(_, PendingRequest::LastError { .. }) => 1nat,
                StepView::Perform(_, PendingRequest::Reply) => 2nat,
            },
{
    match step {
        StepView::Done(result) => Run { calls: seq![], session, result },
        StepView::Perform(call, pending) => {
            let rest = run_request(
                session,
                session.after_request(pending, replies(n)),
                replies,
                n + 1,
            );
            Run { calls: seq![call] + rest.calls, ..rest }
        },
    }
}

/// A run is made step by step: a step that is over calls nothing and ends as it says, and any other
/// one makes its own call first, and goes on with the reply to it.
pub proof fn law_run_is_stepwise(
    session: Session,
    step: StepView<PendingView, ()>,
    replies: Replies,
    n: int,
)
    ensures
        step matches StepView::Done(result) ==> run(session, step, replies, n) == (Run {
            calls: seq![],
            session,
            result,
        }),
        step matches StepView::Perform(call, pending) ==> ({
            let (left, next) = session.after(pending, replies(n));
            let whole = run(session, step, replies, n);
            let rest = run(left, next, replies, n + 1);
            &&& whole.calls.len() == rest.calls.len() + 1
            &&& whole.calls[0] == call
            &&& forall|i: int| 0 <= i < rest.calls.len() ==> whole.calls[i + 1] == rest.calls[i]
            &&& whole.session == rest.session
            &&& whole.result == rest.result
        }),
{
}

/// Whether a call returned success.
pub open spec fn succeeded(reply: ReplyView) -> bool {
    code_of(reply.code()) == SolClientReturnCode::Success
}

/// Sending a message makes one call.  Where it fails, the C client is asked why, and the error
/// holds the code of the call and the answer.
pub open spec fn publish_run(
    session: Session,
    message: MessageHandle,
    replies: Replies,
) -> Run<()> {
    let sent = CallView::SendMsg { session: session.session, message };
    if succeeded(replies(0)) {
        Run { calls: seq![sent], session, result: Ok(()) }
    } else {
        Run {
            calls: seq![sent, CallView::LastErrorInfo],
            session,
            result: Err(
                SessionErrorView::PublishError(
                    code_of(replies(0).code()),
                    replies(1).info(),
                ),
            ),
        }
    }
}

/// Sending a message goes as [`publish_run`] says, whatever the replies are.
pub proof fn law_publish(session: Session, message: MessageHandle, replies: Replies)
    ensures
        run(session, session.publish_step(message), replies, 0) == publish_run(
            session,
            message,
            replies,
        ),
{
    reveal_with_fuel(run, 3);
}

/// The call that takes up or gives up a topic.
pub open spec fn topic_call(session: Session, direction: Direction, topic: Seq<u8>) -> CallView {
    match direction {
        Direction::Subscribe => CallView::TopicSubscribe { session: session.session, topic },
        Direction::Unsubscribe => CallView::TopicUnsubscribe { session: session.session, topic },
    }
}

/// The error on a name that C cannot hold.
pub open spec fn invalid_name(name: Seq<u8>) -> SessionErrorView {
    SessionErrorView::InvalidText(NulErrorView { position: first_nul(name), bytes: name })
}

/// The error on a name when the call whose reply is `reply` failed and `info` says why.
pub open spec fn failed(
    direction: Direction,
    name: Seq<u8>,
    reply: ReplyView,
    info: SubCodeView,
) -> SessionErrorView {
    named_error(direction, lossy_text(name), code_of(reply.code()), info)
}

/// Subscribing to a topic and unsubscribing from it make no call where the topic holds a nul, and
/// one call otherwise.  Where that fails, the C client is asked why, and the error holds the
/// topic, the code of the call and the answer.
pub open spec fn topic_run(
    session: Session,
    direction: Direction,
    topic: Seq<u8>,
    replies: Replies,
) -> Run<()> {
    if !is_nul_free(topic) {
        Run { calls: seq![], session, result: Err(invalid_name(topic)) }
    } else if succeeded(replies(0)) {
        Run { calls: seq![topic_call(session, direction, topic)], session, result: Ok(()) }
    } else {
        Run {
            calls: seq![topic_call(session, direction, topic), CallView::LastErrorInfo],
            session,
            result: Err(failed(direction, topic, replies(0), replies(1).info())),
        }
    }
}

/// An operation on a topic goes as [`topic_run`] says, whatever the replies are.
pub proof fn law_topic(session: Session, direction: Direction, topic: Seq<u8>, replies: Replies)
    ensures
        run(session, session.topic_step(direction, topic), replies, 0) == topic_run(
            session,
            direction,
            topic,
            replies,
        ),
{
    reveal_with_fuel(run, 3);
}

/// The call that asks whether queues can be managed over a session.
pub open spec fn capability_call(session: Session) -> CallView {
    CallView::IsCapable {
        session: session.session,
        capability: bytes_of(CAPABILITY_ENDPOINT_MANAGEMENT),
    }
}

/// The call that creates a queue.
pub open spec fn provision_call(session: Session, queue: Seq<u8>) -> CallView {
    CallView::EndpointProvision {
        session: session.session,
        properties: provision_entries(queue),
        flags: provision_flags(),
    }
}

/// The call that makes a flow to a queue.
pub open spec fn create_flow_call(session: Session, queue: Seq<u8>) -> CallView {
    CallView::CreateFlow {
        session: session.session,
        flow: session.flow,
        properties: flow_entries(queue, session.flow_config),
    }
}

/// The call that removes a queue.
pub open spec fn deprovision_call(session: Session, queue: Seq<u8>) -> CallView {
    CallView::EndpointDeprovision {
        session: session.session,
        properties: deprovision_entries(queue),
        flags: provision_flags(),
    }
}

/// The error of a queue operation over a session that cannot manage queues.
pub open spec fn unsupported() -> SessionErrorView {
    SessionErrorView::QueueSubscriptionFailure(ENDPOINT_MANAGEMENT_UNSUPPORTED@)
}

/// Subscribing to a queue asks for the capability, creates the queue and makes a flow to it, each
/// only when all before it went well.  A session without the capability is refused before the
/// name is looked at, and a name that holds a nul before anything is created.  Where a call
/// fails, the C client is asked why, and the error holds the queue, the code of the call and the
/// answer.  The session's flow is what the C client left in its place once a flow was asked for.
pub open spec fn subscribe_queue_run(
    session: Session,
    queue: Seq<u8>,
    replies: Replies,
) -> Run<()> {
    let ask = capability_call(session);
    let provision = provision_call(session, queue);
    let create = create_flow_call(session, queue);
    let why = CallView::LastErrorInfo;
    let with_flow = Session { flow: replies(2).flow(), ..session };
    if replies(0).capability() == 0 {
        Run { calls: seq![ask], session, result: Err(unsupported()) }
    } else if !is_nul_free(queue) {
        Run { calls: seq![ask], session, result: Err(invalid_name(queue)) }
    } else if !succeeded(replies(1)) {
        Run {
            calls: seq![ask, provision, why],
            session,
            result: Err(
                failed(Direction::Subscribe, queue, replies(1), replies(2).info()),
            ),
        }
    } else if !succeeded(replies(2)) {
        Run {
            calls: seq![ask, provision, create, why],
            session: with_flow,
            result: Err(
                failed(Direction::Subscribe, queue, replies(2), replies(3).info()),
            ),
        }
    } else {
        Run { calls: seq![ask, provision, create], session: with_flow, result: Ok(()) }
    }
}

/// Subscribing to a queue goes as [`subscribe_queue_run`] says, whatever the replies are.
pub proof fn law_subscribe_queue(session: Session, queue: Seq<u8>, replies: Replies)
    ensures
        run(session, session.queue_step(Direction::Subscribe, queue), replies, 0)
            == subscribe_queue_run(session, queue, replies),
{
    reveal_with_fuel(run, 5);
}

/// Unsubscribing from a queue asks for the capability, destroys the session's flow and removes
/// the queue, each only when all before it went well.  A session without the capability is
/// refused before the name is looked at, and a name that holds a nul before anything is
/// destroyed.  Where a call fails, the C client is asked why, and the error holds the queue, the
/// code of the call and the answer.  The session's flow is what the C client left in its place
/// once the flow was to be destroyed.
pub open spec fn unsubscribe_queue_run(
    session: Session,
    queue: Seq<u8>,
    replies: Replies,
) -> Run<()> {
    let ask = capability_call(session);
    let destroy = CallView::DestroyFlow { flow: session.flow };
    let deprovision = deprovision_call(session, queue);
    let why = CallView::LastErrorInfo;
    let without_flow = Session { flow: replies(1).flow(), ..session };
    if replies(0).capability() == 0 {
        Run { calls: seq![ask], session, result: Err(unsupported()) }
    } else if !is_nul_free(queue) {
        Run { calls: seq![ask], session, result: Err(invalid_name(queue)) }
    } else if !succeeded(replies(1)) {
        Run {
            calls: seq![ask, destroy, why],
            session: without_flow,
            result: Err(
                failed(Direction::Unsubscribe, queue, replies(1), replies(2).info()),
            ),
        }
    } else if !succeeded(replies(2)) {
        Run {
            calls: seq![ask, destroy, deprovision, why],
            session: without_flow,
            result: Err(
                failed(Direction::Unsubscribe, queue, replies(2), replies(3).info()),
            ),
        }
    } else {
        Run {
            calls: seq![ask, destroy, deprovision],
            session: without_flow,
            result: Ok(()),
        }
    }
}

/// Unsubscribing from a queue goes as [`unsubscribe_queue_run`] says, whatever the replies are.
pub proof fn law_unsubscribe_queue(session: Session, queue: Seq<u8>, replies: Replies)
    ensures
        run(session, session.queue_step(Direction::Unsubscribe, queue), replies, 0)
            == unsubscribe_queue_run(session, queue, replies),
{
    reveal_with_fuel(run, 5);
}

/// A request makes one call and returns the reply message.  Where it fails, the C client is asked
/// why, and the error holds the code of the call and the answer.
pub open spec fn request_run(
    session: Session,
    message: MessageHandle,
    timeout_ms: u32,
    replies: Replies,
) -> Run<MessageHandle> {
    let sent = CallView::SendRequest { session: session.session, message, timeout_ms };
    if succeeded(replies(0)) {
        Run { calls: seq![sent], session, result: Ok(replies(0).message()) }
    } else {
        Run {
            calls: seq![sent, CallView::LastErrorInfo],
            session,
            result: Err(
                SessionErrorView::RequestError(
                    code_of(replies(0).code()),
                    replies(1).info(),
                ),
            ),
        }
    }
}

/// A request goes as [`request_run`] says, whatever the replies are.
pub proof fn law_request(
    session: Session,
    message: MessageHandle,
    timeout_ms: u32,
    replies: Replies,
)
    ensures
        run_request(session, session.request_step(message, timeout_ms), replies, 0) == request_run(
            session,
            message,
            timeout_ms,
            replies,
        ),
{
    reveal_with_fuel(run_request, 3);
}

/// An operation that comes to nothing but success or an error, and leaves the session in use.
pub enum Operation {
    /// Sending a message.
    Publish { message: MessageHandle },
    /// Subscribing to a topic or unsubscribing from it.
    Topic { direction: Direction, name: Seq<u8> },
    /// Subscribing to a queue or unsubscribing from it.
    Queue { direction: Direction, name: Seq<u8> },
}

impl Operation {
    /// The first step of the operation.
    pub open spec fn first_step(self, session: Session) -> StepView<PendingView, ()> {
        match self {
            Operation::Publish { message } => session.publish_step(message),
            Operation::Topic { direction, name } => session.topic_step(direction, name),
            Operation::Queue { direction, name } => session.queue_step(direction, name),
        }
    }

    /// The operation from its first step to its end.
    pub open spec fn run(self, session: Session, replies: Replies) -> Run<()> {
        run(session, self.first_step(session), replies, 0)
    }

    /// Whether C can hold the name that the operation is on, if there is one.
    pub open spec fn name_is_valid(self) -> bool {
        match self {
            Operation::Topic { name, .. } => is_nul_free(name),
            Operation::Queue { name, .. } => is_nul_free(name),
            _ => true,
        }
    }
}

/// The laws on single operations, told of them all.
proof fn lemma_run(operation: Operation, session: Session, replies: Replies)
    ensures
        operation.run(session, replies) == match operation {
            Operation::Publish { message } => publish_run(session, message, replies),
            Operation::Topic { direction, name } => topic_run(session, direction, name, replies),
            Operation::Queue { direction: Direction::Subscribe, name } => subscribe_queue_run(
                session,
                name,
                replies,
            ),
            Operation::Queue { direction: Direction::Unsubscribe, name } => unsubscribe_queue_run(
                session,
                name,
                replies,
            ),
        },
{
    match operation {
        Operation::Publish { message } => law_publish(session, message, replies),
        Operation::Topic { direction, name } => law_topic(session, direction, name, replies),
        Operation::Queue { direction: Direction::Subscribe, name } => law_subscribe_queue(
            session,
            name,
            replies,
        ),
        Operation::Queue { direction: Direction::Unsubscribe, name } => law_unsubscribe_queue(
            session,
            name,
            replies,
        ),
    }
}

/// Whether a call went well: the session has the capability, or the call returned success.
pub open spec fn went_well(call: CallView, reply: ReplyView) -> bool {
    match call {
        CallView::IsCapable { .. } => reply.capability() != 0,
        CallView::LastErrorInfo => true,
        _ => succeeded(reply),
    }
}

/// The return code and the details in an error, where it holds them.
pub open spec fn details(error: SessionErrorView) -> Option<(SolClientReturnCode, SubCodeView)> {
    match error {
        SessionErrorView::InvalidText(_) => None,
        SessionErrorView::QueueSubscriptionFailure(_) => None,
        SessionErrorView::PublishError(code, info) => Some((code, info)),
        SessionErrorView::SubscriptionFailure(_, code, info) => Some((code, info)),
        SessionErrorView::UnsubscriptionFailure(_, code, info) => Some((code, info)),
        SessionErrorView::RequestError(code, info) => Some((code, info)),
        SessionErrorView::DisconnectError(code, info) => Some((code, info)),
    }
}

/// The session that a call is made on, where it names one.
pub open spec fn session_of(call: CallView) -> Option<SessionHandle> {
    match call {
        CallView::IsCapable { session, .. } => Some(session),
        CallView::SendMsg { session, .. } => Some(session),
        CallView::TopicSubscribe { session, .. } => Some(session),
        CallView::TopicUnsubscribe { session, .. } => Some(session),
        CallView::EndpointProvision { session, .. } => Some(session),
        CallView::EndpointDeprovision { session, .. } => Some(session),
        CallView::CreateFlow { session, .. } => Some(session),
        CallView::SendRequest { session, .. } => Some(session),
        CallView::Disconnect { session } => Some(session),
        CallView::DestroySession { session } => Some(session),
        CallView::DestroyFlow { .. } => None,
        CallView::LastErrorInfo => None,
    }
}

/// An operation succeeds if and only if the name that it is on is valid and every call that it
/// made went well.
pub proof fn law_success(operation: Operation, session: Session, replies: Replies)
    ensures
        ({
            let whole = operation.run(session, replies);
            whole.result is Ok <==> operation.name_is_valid() && forall|i: int|
                0 <= i < whole.calls.len() ==> went_well(#[trigger] whole.calls[i], replies(i))
        }),
{
    lemma_run(operation, session, replies);
    let whole = operation.run(session, replies);
    if whole.result is Err && operation.name_is_valid() {
        if whole.calls.len() == 1 {
            assert(!went_well(whole.calls[0], replies(0)));
        } else {
            let last = whole.calls.len() - 2;
            assert(!went_well(whole.calls[last], replies(last)));
        }
    }
}

/// The C client is asked why a call failed just when a call failed, and right after that call:
/// an error with a return code holds the code of the last call but one, which is no success, and
/// what the C client answered last.  An operation that ends otherwise never asks.
pub proof fn law_error_details(operation: Operation, session: Session, replies: Replies)
    ensures
        ({
            let whole = operation.run(session, replies);
            let last = whole.calls.len() - 1;
            &&& forall|i: int|
                0 <= i < last ==> !(#[trigger] whole.calls[i] is LastErrorInfo)
            &&& whole.result matches Err(error) ==> (details(error) matches Some((code, info)) ==> {
                &&& last >= 1
                &&& whole.calls[last] is LastErrorInfo
                &&& code == code_of(replies(last - 1).code())
                &&& code != SolClientReturnCode::Success
                &&& info == replies(last).info()
            })
            &&& last >= 0 && whole.calls[last] is LastErrorInfo ==> (whole.result matches Err(error)
                && details(error) is Some)
        }),
{
    lemma_run(operation, session, replies);
}

/// No [`Operation`] makes more than four calls, and only those on queues make more than two.
pub proof fn law_calls_are_bounded(operation: Operation, session: Session, replies: Replies)
    ensures
        operation.run(session, replies).calls.len() <= if operation is Queue {
            4int
        } else {
            2int
        },
{
    lemma_run(operation, session, replies);
}

/// Every call of an operation is made on the session itself, and with strings that C can hold.
pub proof fn law_calls_are_sound(operation: Operation, session: Session, replies: Replies)
    ensures
        forall|i: int|
            #![trigger operation.run(session, replies).calls[i]]
            0 <= i < operation.run(session, replies).calls.len() ==> {
                let call = operation.run(session, replies).calls[i];
                &&& call.is_nul_free()
                &&& session_of(call) matches Some(handle) ==> handle == session.session
            },
{
    lemma_texts_are_nul_free();
    if let Operation::Queue { name, .. } = operation {
        if is_nul_free(name) {
            law_arrays_are_property_lists(name, session.flow_config);
        }
    }
    lemma_run(operation, session, replies);
}

/// No [`Operation`] changes the session but for its flow, and that only where it had a flow made or
/// destroyed: then the flow is what the C client left in its place.
pub proof fn law_session_is_kept(operation: Operation, session: Session, replies: Replies)
    ensures
        ({
            let whole = operation.run(session, replies);
            &&& whole.session == Session { flow: whole.session.flow, ..session }
            &&& (forall|i: int|
                0 <= i < whole.calls.len() ==> !(#[trigger] whole.calls[i] is CreateFlow)
                    && !(whole.calls[i] is DestroyFlow)) ==> whole.session == session
            &&& forall|i: int|
                0 <= i < whole.calls.len() && (#[trigger] whole.calls[i] is CreateFlow
                    || whole.calls[i] is DestroyFlow) ==> whole.session.flow == replies(i).flow()
        }),
{
    lemma_run(operation, session, replies);
    let whole = operation.run(session, replies);
    if whole.session != session {
        if operation matches Operation::Queue { direction: Direction::Subscribe, .. } {
            assert(whole.calls[2] is CreateFlow);
        } else {
            assert(whole.calls[1] is DestroyFlow);
        }
    }
}

/// Whatever was done over a session, dropping it frees the session that it was made for.
pub proof fn law_drop_frees_the_session(operation: Operation, session: Session, replies: Replies)
    ensures
        operation.run(session, replies).session.drop_call() == (CallView::DestroySession {
            session: session.session,
        }),
{
    lemma_run(operation, session, replies);
}

/// No [`Operation`] frees the session: that is left to dropping it.
pub proof fn law_no_operation_frees_the_session(
    operation: Operation,
    session: Session,
    replies: Replies,
)
    ensures
        forall|i: int|
            0 <= i < operation.run(session, replies).calls.len() ==> !(
            #[trigger] operation.run(session, replies).calls[i] is DestroySession),
{
    lemma_run(operation, session, replies);
}

/// No request frees the session: that is left to dropping it.
pub proof fn law_no_request_frees_the_session(
    session: Session,
    message: MessageHandle,
    timeout_ms: u32,
    replies: Replies,
)
    ensures
        ({
            let whole = run_request(
                session,
                session.request_step(message, timeout_ms),
                replies,
                0,
            );
            forall|i: int|
                0 <= i < whole.calls.len() ==> !(#[trigger] whole.calls[i] is DestroySession)
        }),
{
    law_request(session, message, timeout_ms, replies);
}

/// Unsubscribing from a queue destroys the flow that subscribing to it made and, once that went
/// well, removes the queue that subscribing to it created: over the same session, with the same
/// properties and with the same flags.
pub proof fn law_unsubscribe_removes_what_subscribe_made(
    session: Session,
    queue: Seq<u8>,
    replies: Replies,
    later: Replies,
)
    requires
        run(session, session.queue_step(Direction::Subscribe, queue), replies, 0).result is Ok,
        later(0).capability() != 0,
    ensures
        ({
            let before = run(session, session.queue_step(Direction::Subscribe, queue), replies, 0);
            let subscribed = before.session;
            let whole = run(
                subscribed,
                subscribed.queue_step(Direction::Unsubscribe, queue),
                later,
                0,
            );
            &&& whole.calls.len() >= 2
            &&& whole.calls[1] == (CallView::DestroyFlow { flow: replies(2).flow() })
            &&& before.calls[1] == (CallView::EndpointProvision {
                session: session.session,
                properties: provision_entries(queue),
                flags: provision_flags(),
            })
            &&& succeeded(later(1)) ==> whole.calls.len() >= 3 && whole.calls[2] == (
            CallView::EndpointDeprovision {
                session: session.session,
                properties: provision_entries(queue),
                flags: provision_flags(),
            })
        }),
{
    law_subscribe_queue(session, queue, replies);
    let subscribed = Session { flow: replies(2).flow(), ..session };
    law_unsubscribe_queue(subscribed, queue, later);
    law_endpoint_is_identified(queue);
}

/// Where the C client keeps its promise on requests, a request that succeeds returns a message
/// that is there, and one that fails leaves none behind.
pub proof fn law_request_reply(
    session: Session,
    message: MessageHandle,
    timeout_ms: u32,
    replies: Replies,
)
    requires
        replies(0).kind() == ReplyKind::Message,
        replies(0).is_coherent(),
    ensures
        match run_request(session, session.request_step(message, timeout_ms), replies, 0).result {
            Ok(reply) => reply == replies(0).message() && reply.0 != 0,
            Err(_) => replies(0).message().0 == 0,
        },
{
    law_request(session, message, timeout_ms, replies);
}

/// A request waits for a reply of just the shape that the call it asks for is answered with, and
/// is over after two replies at most.
pub proof fn law_request_progress(
    session: Session,
    message: MessageHandle,
    timeout_ms: u32,
    pending: PendingRequest,
    reply: ReplyView,
)
    ensures
        session.request_step(message, timeout_ms) matches StepView::Perform(call, waits)
            ==> call.reply_kind() == waits.awaited() && waits is Reply,
        session.after_request(pending, reply) matches StepView::Perform(call, waits)
            ==> call.reply_kind() == waits.awaited() && waits is LastError && pending is Reply,
{
}

/// A step waits for a reply of just the shape that the call it asks for is answered with, and
/// every reply brings the operation closer to its end.
pub proof fn law_progress(
    session: Session,
    operation: Operation,
    pending: PendingView,
    reply: ReplyView,
)
    ensures
        operation.first_step(session) matches StepView::Perform(call, waits)
            ==> call.reply_kind() == waits.reply_kind(),
        session.after(pending, reply).1 matches StepView::Perform(call, waits)
            ==> call.reply_kind() == waits.reply_kind(),
        forall|call: CallView|
            calls_left(session.after(pending, reply).1) < #[trigger] calls_left(
                StepView::Perform(call, pending),
            ),
{
}

} // verus!
