//! What callers can rely on: every operation told by what goes in and what comes out, byte by byte
//! and number by number.
use vstd::prelude::*;
use vstd::utf8::encode_utf8;

use crate::call::{CallView, FlowHandle, MessageHandle, ReplyView, SessionHandle};
use crate::ctext::{
    first_nul, is_nul_free, law_first_nul, law_nul_free_is_without_zero, lossy_text,
};
use crate::decimal::decimal;
use crate::disconnect::{first_step, law_disconnect, run_disconnect};
use crate::error::{SessionErrorView, SubCodeView};
use crate::properties::{
    law_endpoint_is_identified, law_endpoint_layout, law_flow_carries_configuration,
    law_flow_layout, law_provision_flags, property_value,
};
use crate::return_code::{
    code_of, law_documented_codes, law_raw_round_trip, raw_of, SolClientReturnCode,
};
use crate::run::{
    law_publish, law_request, law_subscribe_queue, law_topic, law_unsubscribe_queue, run,
    run_request, Replies,
};
use crate::session::{drop_warning, Session};
use crate::step::Direction;

verus! {

/// What is known of a return code: its number, and that it is told from success by that number.
proof fn lemma_code(raw: i32)
    ensures
        raw_of(code_of(raw)) == raw,
        code_of(raw) == SolClientReturnCode::Success <==> raw == 0,
{
    law_raw_round_trip(raw);
    law_documented_codes(raw);
}

/// What is known of a name: whether it holds a zero, and where the first one stands.
proof fn lemma_name(name: Seq<u8>)
    ensures
        is_nul_free(name) <==> !name.contains(0u8),
        name.contains(0u8) ==> {
            &&& 0 <= first_nul(name) < name.len()
            &&& name[first_nul(name)] == 0
            &&& forall|i: int| 0 <= i < first_nul(name) ==> name[i] != 0
        },
{
    law_nul_free_is_without_zero(name);
    if name.contains(0u8) {
        law_first_nul(name);
    }
}

/// Publishing sends the given message over the session.
pub proof fn law_publish_sends_the_message(
    session: Session,
    message: MessageHandle,
    replies: Replies,
)
    ensures
        ({
            let whole = run(session, session.publish_step(message), replies, 0);
            &&& whole.calls.len() >= 1
            &&& whole.calls[0] matches CallView::SendMsg { session: on, message: sent }
            &&& on.0 == session.session.0
            &&& sent.0 == message.0
        }),
{
    law_publish(session, message, replies);
}

/// Publishing different messages, or over different sessions, makes different calls.
pub proof fn law_publish_tells_messages_apart(
    session1: Session,
    message1: MessageHandle,
    replies1: Replies,
    session2: Session,
    message2: MessageHandle,
    replies2: Replies,
)
    requires
        message1 != message2 || session1.session != session2.session,
    ensures
        run(session1, session1.publish_step(message1), replies1, 0).calls[0] != run(
            session2,
            session2.publish_step(message2),
            replies2,
            0,
        ).calls[0],
{
    law_publish_sends_the_message(session1, message1, replies1);
    law_publish_sends_the_message(session2, message2, replies2);
}

/// Publishing succeeds if and only if the C client returns zero; nothing more is called then.  Any
/// other number is reported with what the C client has to say of it.
pub proof fn law_publish_outcome(
    session: Session,
    message: MessageHandle,
    code: i32,
    info: SubCodeView,
    replies: Replies,
)
    requires
        replies(0) == ReplyView::Code(code),
        code != 0 ==> replies(1) == ReplyView::ErrorInfo(info),
    ensures
        ({
            let whole = run(session, session.publish_step(message), replies, 0);
            &&& whole.session == session
            &&& whole.result is Ok <==> code == 0
            &&& code == 0 ==> whole.calls.len() == 1
            &&& code != 0 ==> {
                &&& whole.calls.len() == 2
                &&& whole.calls[1] is LastErrorInfo
                &&& whole.result matches Err(SessionErrorView::PublishError(reported, details))
                &&& raw_of(reported) == code
                &&& details == info
            }
        }),
{
    lemma_code(code);
    law_publish(session, message, replies);
}

/// Subscribing to a topic without a zero byte calls for just that topic, byte by byte, over the
/// session.
pub proof fn law_subscribe_names_the_topic(session: Session, topic: Seq<u8>, replies: Replies)
    requires
        !topic.contains(0u8),
    ensures
        ({
            let whole = run(
                session,
                session.topic_step(Direction::Subscribe, topic),
                replies,
                0,
            );
            &&& whole.calls.len() >= 1
            &&& whole.calls[0] matches CallView::TopicSubscribe { session: on, topic: named }
            &&& on.0 == session.session.0
            &&& named.len() == topic.len()
            &&& forall|i: int| 0 <= i < topic.len() ==> named[i] == topic[i]
        }),
{
    lemma_name(topic);
    law_topic(session, Direction::Subscribe, topic, replies);
}

/// Unsubscribing from a topic without a zero byte calls for just that topic, byte by byte, over
/// the session.
pub proof fn law_unsubscribe_names_the_topic(session: Session, topic: Seq<u8>, replies: Replies)
    requires
        !topic.contains(0u8),
    ensures
        ({
            let whole = run(
                session,
                session.topic_step(Direction::Unsubscribe, topic),
                replies,
                0,
            );
            &&& whole.calls.len() >= 1
            &&& whole.calls[0] matches CallView::TopicUnsubscribe { session: on, topic: named }
            &&& on.0 == session.session.0
            &&& named.len() == topic.len()
            &&& forall|i: int| 0 <= i < topic.len() ==> named[i] == topic[i]
        }),
{
    lemma_name(topic);
    law_topic(session, Direction::Unsubscribe, topic, replies);
}

/// Operations on different topics, or in different directions, make different calls.
pub proof fn law_topics_are_told_apart(
    session: Session,
    direction1: Direction,
    topic1: Seq<u8>,
    replies1: Replies,
    direction2: Direction,
    topic2: Seq<u8>,
    replies2: Replies,
)
    requires
        !topic1.contains(0u8),
        !topic2.contains(0u8),
        topic1 != topic2 || direction1 != direction2,
    ensures
        run(session, session.topic_step(direction1, topic1), replies1, 0).calls[0] != run(
            session,
            session.topic_step(direction2, topic2),
            replies2,
            0,
        ).calls[0],
{
    lemma_name(topic1);
    lemma_name(topic2);
    law_topic(session, direction1, topic1, replies1);
    law_topic(session, direction2, topic2, replies2);
}

/// Subscribing to a topic without a zero byte succeeds if and only if the C client returns zero;
/// nothing more is called then.  Any other number is reported with the topic and with what the C
/// client has to say of it.
pub proof fn law_subscribe_outcome(
    session: Session,
    topic: Seq<u8>,
    code: i32,
    info: SubCodeView,
    replies: Replies,
)
    requires
        !topic.contains(0u8),
        replies(0) == ReplyView::Code(code),
        code != 0 ==> replies(1) == ReplyView::ErrorInfo(info),
    ensures
        ({
            let whole = run(
                session,
                session.topic_step(Direction::Subscribe, topic),
                replies,
                0,
            );
            &&& whole.session == session
            &&& whole.result is Ok <==> code == 0
            &&& code == 0 ==> whole.calls.len() == 1
            &&& code != 0 ==> {
                &&& whole.calls.len() == 2
                &&& whole.calls[1] is LastErrorInfo
                &&& whole.result matches Err(
                    SessionErrorView::SubscriptionFailure(name, reported, details),
                )
                &&& name == lossy_text(topic)
                &&& raw_of(reported) == code
                &&& details == info
            }
        }),
{
    lemma_name(topic);
    lemma_code(code);
    law_topic(session, Direction::Subscribe, topic, replies);
}

/// Unsubscribing from a topic without a zero byte succeeds if and only if the C client returns
/// zero; nothing more is called then.  Any other number is reported with the topic and with what
/// the C client has to say of it.
pub proof fn law_unsubscribe_outcome(
    session: Session,
    topic: Seq<u8>,
    code: i32,
    info: SubCodeView,
    replies: Replies,
)
    requires
        !topic.contains(0u8),
        replies(0) == ReplyView::Code(code),
        code != 0 ==> replies(1) == ReplyView::ErrorInfo(info),
    ensures
        ({
            let whole = run(
                session,
                session.topic_step(Direction::Unsubscribe, topic),
                replies,
                0,
            );
            &&& whole.session == session
            &&& whole.result is Ok <==> code == 0
            &&& code == 0 ==> whole.calls.len() == 1
            &&& code != 0 ==> {
                &&& whole.calls.len() == 2
                &&& whole.calls[1] is LastErrorInfo
                &&& whole.result matches Err(
                    SessionErrorView::UnsubscriptionFailure(name, reported, details),
                )
                &&& name == lossy_text(topic)
                &&& raw_of(reported) == code
                &&& details == info
            }
        }),
{
    lemma_name(topic);
    lemma_code(code);
    law_topic(session, Direction::Unsubscribe, topic, replies);
}

/// A topic with a zero byte is refused, with the place of the first one, before any call.
pub proof fn law_topic_with_zero_is_refused(
    session: Session,
    direction: Direction,
    topic: Seq<u8>,
    replies: Replies,
)
    requires
        topic.contains(0u8),
    ensures
        ({
            let whole = run(session, session.topic_step(direction, topic), replies, 0);
            &&& whole.calls.len() == 0
            &&& whole.session == session
            &&& whole.result matches Err(SessionErrorView::InvalidText(refused))
            &&& refused.bytes == topic
            &&& 0 <= refused.position < topic.len()
            &&& topic[refused.position] == 0
            &&& forall|i: int| 0 <= i < refused.position ==> topic[i] != 0
        }),
{
    lemma_name(topic);
    law_topic(session, direction, topic, replies);
}

/// An operation on a queue begins by asking the session whether it can manage queues, and without
/// that capability it goes no further, whatever the queue.
pub proof fn law_queue_needs_capability(
    session: Session,
    direction: Direction,
    queue: Seq<u8>,
    capability: u8,
    replies: Replies,
)
    requires
        replies(0) == ReplyView::Capability(capability),
    ensures
        ({
            let whole = run(session, session.queue_step(direction, queue), replies, 0);
            &&& whole.calls.len() >= 1
            &&& whole.calls[0] matches CallView::IsCapable { session: on, capability: asked }
            &&& on.0 == session.session.0
            &&& asked == encode_utf8("SESSION_CAPABILITY_ENDPOINT_MANAGEMENT"@)
            &&& capability == 0 ==> {
                &&& whole.calls.len() == 1
                &&& whole.session == session
                &&& whole.result matches Err(SessionErrorView::QueueSubscriptionFailure(reason))
                &&& reason == "Endpoint management not supported on this appliance."@
            }
            &&& whole.result matches Err(SessionErrorView::QueueSubscriptionFailure(_))
                ==> capability == 0
        }),
{
    match direction {
        Direction::Subscribe => law_subscribe_queue(session, queue, replies),
        Direction::Unsubscribe => law_unsubscribe_queue(session, queue, replies),
    }
}

/// A queue's name with a zero byte is refused, with the place of the first one, before anything
/// is created or destroyed.
pub proof fn law_queue_with_zero_is_refused(
    session: Session,
    direction: Direction,
    queue: Seq<u8>,
    capability: u8,
    replies: Replies,
)
    requires
        replies(0) == ReplyView::Capability(capability),
        capability != 0,
        queue.contains(0u8),
    ensures
        ({
            let whole = run(session, session.queue_step(direction, queue), replies, 0);
            &&& whole.calls.len() == 1
            &&& whole.session == session
            &&& whole.result matches Err(SessionErrorView::InvalidText(refused))
            &&& refused.bytes == queue
            &&& 0 <= refused.position < queue.len()
            &&& queue[refused.position] == 0
            &&& forall|i: int| 0 <= i < refused.position ==> queue[i] != 0
        }),
{
    lemma_name(queue);
    match direction {
        Direction::Subscribe => law_subscribe_queue(session, queue, replies),
        Direction::Unsubscribe => law_unsubscribe_queue(session, queue, replies),
    }
}

/// Subscribing to a queue over a capable session creates just that queue: over the session, as a
/// queue, under the given name, waiting for the broker, and without minding that it is there
/// already.
pub proof fn law_subscribe_queue_creates_the_queue(
    session: Session,
    queue: Seq<u8>,
    capability: u8,
    replies: Replies,
)
    requires
        replies(0) == ReplyView::Capability(capability),
        capability != 0,
        !queue.contains(0u8),
    ensures
        ({
            let whole = run(
                session,
                session.queue_step(Direction::Subscribe, queue),
                replies,
                0,
            );
            &&& whole.calls.len() >= 2
            &&& whole.calls[1] matches CallView::EndpointProvision {
                session: on,
                properties,
                flags,
            }
            &&& on.0 == session.session.0
            &&& flags == 3
            &&& properties.len() == 5
            &&& properties[0] == Some(encode_utf8("ENDPOINT_ID"@))
            &&& properties[1] == Some(encode_utf8("2"@))
            &&& properties[2] == Some(encode_utf8("ENDPOINT_NAME"@))
            &&& properties[3] == Some(queue)
            &&& properties[4] is None
        }),
{
    lemma_name(queue);
    law_provision_flags();
    law_endpoint_layout(queue);
    law_subscribe_queue(session, queue, replies);
}

/// Once the queue is created, subscribing to it makes a flow: over the session, in the place of
/// the session's flow, bound to the queue that was asked for and created, and with the session's
/// own settings, each given one as its number in decimal digits and no other.
pub proof fn law_subscribe_queue_binds_the_queue(
    session: Session,
    queue: Seq<u8>,
    capability: u8,
    replies: Replies,
)
    requires
        replies(0) == ReplyView::Capability(capability),
        capability != 0,
        !queue.contains(0u8),
        replies(1) == ReplyView::Code(0),
    ensures
        ({
            let whole = run(
                session,
                session.queue_step(Direction::Subscribe, queue),
                replies,
                0,
            );
            let config = session.flow_config;
            let timer = 6 + if config.window_size is Some { 2int } else { 0int };
            let threshold = timer + if config.ack_timer_ms is Some { 2int } else { 0int };
            let end = threshold + if config.ack_threshold is Some { 2int } else { 0int };
            &&& whole.calls.len() >= 3
            &&& whole.calls[2] matches CallView::CreateFlow { session: on, flow, properties }
            &&& on.0 == session.session.0
            &&& flow.0 == session.flow.0
            &&& properties.len() == end + 1
            &&& properties[0] == Some(encode_utf8("FLOW_BIND_ENTITY_ID"@))
            &&& properties[1] == Some(encode_utf8("2"@))
            &&& properties[2] == Some(encode_utf8("FLOW_ACKMODE"@))
            &&& properties[3] == Some(encode_utf8("1"@))
            &&& properties[4] == Some(encode_utf8("FLOW_BIND_NAME"@))
            &&& properties[5] == Some(queue)
            &&& config.window_size matches Some(n) ==> properties[6] == Some(
                encode_utf8("FLOW_WINDOWSIZE"@),
            ) && properties[7] == Some(decimal(n as nat))
            &&& config.ack_timer_ms matches Some(n) ==> properties[timer] == Some(
                encode_utf8("FLOW_ACK_TIMER_MS"@),
            ) && properties[timer + 1] == Some(decimal(n as nat))
            &&& config.ack_threshold matches Some(n) ==> properties[threshold] == Some(
                encode_utf8("FLOW_ACK_THRESHOLD"@),
            ) && properties[threshold + 1] == Some(decimal(n as nat))
            &&& properties[end] is None
        }),
{
    lemma_name(queue);
    lemma_code(0);
    law_flow_layout(queue, session.flow_config);
    law_subscribe_queue(session, queue, replies);
}

/// Wherever subscribing to a queue makes a flow, the name that the flow is bound to is the queue's
/// and the one under which the queue was created, and the values of the flow's settings are those
/// of the session.
pub proof fn law_flow_is_bound_to_the_created_queue(
    session: Session,
    queue: Seq<u8>,
    replies: Replies,
    i: int,
)
    requires
        !queue.contains(0u8),
        0 <= i < run(
            session,
            session.queue_step(Direction::Subscribe, queue),
            replies,
            0,
        ).calls.len(),
    ensures
        ({
            let calls = run(
                session,
                session.queue_step(Direction::Subscribe, queue),
                replies,
                0,
            ).calls;
            calls[i] matches CallView::CreateFlow { properties, .. } ==> {
                let config = session.flow_config;
                &&& i >= 1
                &&& calls[i - 1] matches CallView::EndpointProvision { properties: created, .. }
                &&& property_value(created, encode_utf8("ENDPOINT_NAME"@)) == Some(queue)
                &&& property_value(properties, encode_utf8("FLOW_BIND_NAME"@)) == Some(queue)
                &&& property_value(properties, encode_utf8("FLOW_WINDOWSIZE"@))
                    == match config.window_size {
                    Some(n) => Some(decimal(n as nat)),
                    None => None,
                }
                &&& property_value(properties, encode_utf8("FLOW_ACK_TIMER_MS"@))
                    == match config.ack_timer_ms {
                    Some(n) => Some(decimal(n as nat)),
                    None => None,
                }
                &&& property_value(properties, encode_utf8("FLOW_ACK_THRESHOLD"@))
                    == match config.ack_threshold {
                    Some(n) => Some(decimal(n as nat)),
                    None => None,
                }
            }
        }),
{
    law_endpoint_is_identified(queue);
    law_flow_carries_configuration(queue, session.flow_config);
    law_subscribe_queue(session, queue, replies);
}

/// Subscribing to a queue over a capable session succeeds if and only if creating the queue and
/// making the flow both return zero.  The first other number ends it, and is reported with the
/// queue and with what the C client has to say of it.  The session keeps its flow until one is
/// asked for, and then has what the C client left in its place.
pub proof fn law_subscribe_queue_outcome(
    session: Session,
    queue: Seq<u8>,
    capability: u8,
    created: i32,
    made: i32,
    flow: FlowHandle,
    info: SubCodeView,
    replies: Replies,
)
    requires
        !queue.contains(0u8),
        replies(0) == ReplyView::Capability(capability),
        capability != 0,
        replies(1) == ReplyView::Code(created),
        created != 0 ==> replies(2) == ReplyView::ErrorInfo(info),
        created == 0 ==> replies(2) == (ReplyView::Flow { code: made, flow }),
        created == 0 && made != 0 ==> replies(3) == ReplyView::ErrorInfo(info),
    ensures
        ({
            let whole = run(
                session,
                session.queue_step(Direction::Subscribe, queue),
                replies,
                0,
            );
            let wrong = if created != 0 { created } else { made };
            &&& whole.result is Ok <==> created == 0 && made == 0
            &&& whole.session.session == session.session
            &&& whole.session.flow_config == session.flow_config
            &&& whole.session.flow == if created == 0 { flow } else { session.flow }
            &&& created == 0 && made == 0 ==> whole.calls.len() == 3
            &&& created != 0 ==> whole.calls.len() == 3 && whole.calls[2] is LastErrorInfo
            &&& created == 0 && made != 0 ==> whole.calls.len() == 4
                && whole.calls[3] is LastErrorInfo
            &&& created != 0 || made != 0 ==> {
                &&& whole.result matches Err(
                    SessionErrorView::SubscriptionFailure(name, reported, details),
                )
                &&& name == lossy_text(queue)
                &&& raw_of(reported) == wrong
                &&& details == info
            }
        }),
{
    lemma_name(queue);
    lemma_code(created);
    lemma_code(made);
    law_subscribe_queue(session, queue, replies);
}

/// Unsubscribing from a queue over a capable session destroys the session's own flow and, once
/// that returned zero, removes just that queue: over the session, as a queue, under the given
/// name, waiting for the broker, and without minding that it is gone already.
pub proof fn law_unsubscribe_queue_removes_the_queue(
    session: Session,
    queue: Seq<u8>,
    capability: u8,
    left: FlowHandle,
    replies: Replies,
)
    requires
        replies(0) == ReplyView::Capability(capability),
        capability != 0,
        !queue.contains(0u8),
    ensures
        ({
            let whole = run(
                session,
                session.queue_step(Direction::Unsubscribe, queue),
                replies,
                0,
            );
            &&& whole.calls.len() >= 2
            &&& whole.calls[1] matches CallView::DestroyFlow { flow }
            &&& flow.0 == session.flow.0
            &&& replies(1) == (ReplyView::Flow { code: 0, flow: left }) ==> {
                &&& whole.calls.len() >= 3
                &&& whole.calls[2] matches CallView::EndpointDeprovision {
                    session: on,
                    properties,
                    flags,
                }
                &&& on.0 == session.session.0
                &&& flags == 3
                &&& properties.len() == 5
                &&& properties[0] == Some(encode_utf8("ENDPOINT_ID"@))
                &&& properties[1] == Some(encode_utf8("2"@))
                &&& properties[2] == Some(encode_utf8("ENDPOINT_NAME"@))
                &&& properties[3] == Some(queue)
                &&& properties[4] is None
            }
        }),
{
    lemma_name(queue);
    lemma_code(0);
    law_provision_flags();
    law_endpoint_layout(queue);
    law_unsubscribe_queue(session, queue, replies);
}

/// Unsubscribing from a queue over a capable session succeeds if and only if destroying the flow
/// and removing the queue both return zero.  The first other number ends it, and is reported with
/// the queue and with what the C client has to say of it.  The session then has what the C client
/// left in the place of its flow.
pub proof fn law_unsubscribe_queue_outcome(
    session: Session,
    queue: Seq<u8>,
    capability: u8,
    destroyed: i32,
    left: FlowHandle,
    removed: i32,
    info: SubCodeView,
    replies: Replies,
)
    requires
        !queue.contains(0u8),
        replies(0) == ReplyView::Capability(capability),
        capability != 0,
        replies(1) == (ReplyView::Flow { code: destroyed, flow: left }),
        destroyed != 0 ==> replies(2) == ReplyView::ErrorInfo(info),
        destroyed == 0 ==> replies(2) == ReplyView::Code(removed),
        destroyed == 0 && removed != 0 ==> replies(3) == ReplyView::ErrorInfo(info),
    ensures
        ({
            let whole = run(
                session,
                session.queue_step(Direction::Unsubscribe, queue),
                replies,
                0,
            );
            let wrong = if destroyed != 0 { destroyed } else { removed };
            &&& whole.result is Ok <==> destroyed == 0 && removed == 0
            &&& whole.session.session == session.session
            &&& whole.session.flow_config == session.flow_config
            &&& whole.session.flow == left
            &&& destroyed == 0 && removed == 0 ==> whole.calls.len() == 3
            &&& destroyed != 0 ==> whole.calls.len() == 3 && whole.calls[2] is LastErrorInfo
            &&& destroyed == 0 && removed != 0 ==> whole.calls.len() == 4
                && whole.calls[3] is LastErrorInfo
            &&& destroyed != 0 || removed != 0 ==> {
                &&& whole.result matches Err(
                    SessionErrorView::UnsubscriptionFailure(name, reported, details),
                )
                &&& name == lossy_text(queue)
                &&& raw_of(reported) == wrong
                &&& details == info
            }
        }),
{
    lemma_name(queue);
    lemma_code(destroyed);
    lemma_code(removed);
    law_unsubscribe_queue(session, queue, replies);
}

/// A request sends the given message over the session, and waits for just as long as it was told
/// to.
pub proof fn law_request_sends_the_message(
    session: Session,
    message: MessageHandle,
    timeout_ms: u32,
    replies: Replies,
)
    ensures
        ({
            let whole = run_request(
                session,
                session.request_step(message, timeout_ms),
                replies,
                0,
            );
            &&& whole.calls.len() >= 1
            &&& whole.calls[0] matches CallView::SendRequest {
                session: on,
                message: sent,
                timeout_ms: waits,
            }
            &&& on.0 == session.session.0
            &&& sent.0 == message.0
            &&& waits == timeout_ms
        }),
{
    law_request(session, message, timeout_ms, replies);
}

/// Requests with different messages, with different timeouts or over different sessions make
/// different calls.
pub proof fn law_requests_are_told_apart(
    session1: Session,
    message1: MessageHandle,
    timeout1: u32,
    replies1: Replies,
    session2: Session,
    message2: MessageHandle,
    timeout2: u32,
    replies2: Replies,
)
    requires
        message1 != message2 || timeout1 != timeout2 || session1.session != session2.session,
    ensures
        run_request(session1, session1.request_step(message1, timeout1), replies1, 0).calls[0]
            != run_request(
            session2,
            session2.request_step(message2, timeout2),
            replies2,
            0,
        ).calls[0],
{
    law_request_sends_the_message(session1, message1, timeout1, replies1);
    law_request_sends_the_message(session2, message2, timeout2, replies2);
}

/// A request succeeds if and only if the C client returns zero; it then returns the reply message
/// that the C client gave, and nothing more is called.  Any other number is reported with what the
/// C client has to say of it.
pub proof fn law_request_outcome(
    session: Session,
    message: MessageHandle,
    timeout_ms: u32,
    code: i32,
    reply: MessageHandle,
    info: SubCodeView,
    replies: Replies,
)
    requires
        replies(0) == (ReplyView::Message { code, message: reply }),
        code != 0 ==> replies(1) == ReplyView::ErrorInfo(info),
    ensures
        ({
            let whole = run_request(
                session,
                session.request_step(message, timeout_ms),
                replies,
                0,
            );
            &&& whole.session == session
            &&& whole.result is Ok <==> code == 0
            &&& code == 0 ==> {
                &&& whole.calls.len() == 1
                &&& whole.result matches Ok(got)
                &&& got.0 == reply.0
            }
            &&& code != 0 ==> {
                &&& whole.calls.len() == 2
                &&& whole.calls[1] is LastErrorInfo
                &&& whole.result matches Err(SessionErrorView::RequestError(reported, details))
                &&& raw_of(reported) == code
                &&& details == info
            }
        }),
{
    lemma_code(code);
    law_request(session, message, timeout_ms, replies);
}

/// Disconnecting a session calls for just that session, succeeds if and only if the C client
/// returns zero, and frees that session at the end either way.  Any other number is reported with
/// what the C client has to say of it.  Where freeing returns another number than zero, that is
/// warned about.
pub proof fn law_disconnect_outcome(
    session: Session,
    code: i32,
    info: SubCodeView,
    freed: i32,
    left: SessionHandle,
    replies: Replies,
)
    requires
        replies(0) == ReplyView::Code(code),
        code == 0 ==> replies(1) == (ReplyView::Session { code: freed, session: left }),
        code != 0 ==> replies(1) == ReplyView::ErrorInfo(info),
        code != 0 ==> replies(2) == (ReplyView::Session { code: freed, session: left }),
    ensures
        ({
            let whole = run_disconnect(first_step(session), replies, 0);
            &&& whole.calls.len() == if code == 0 { 2int } else { 3int }
            &&& whole.calls[0] matches CallView::Disconnect { session: ended }
            &&& ended.0 == session.session.0
            &&& code != 0 ==> whole.calls[1] is LastErrorInfo
            &&& whole.calls[whole.calls.len() - 1] matches CallView::DestroySession {
                session: gone,
            }
            &&& gone.0 == session.session.0
            &&& whole.result is Ok <==> code == 0
            &&& code != 0 ==> {
                &&& whole.result matches Err(SessionErrorView::DisconnectError(reported, details))
                &&& raw_of(reported) == code
                &&& details == info
            }
            &&& whole.warning is None <==> freed == 0
            &&& whole.warning matches Some(warned) ==> raw_of(warned) == freed
        }),
{
    lemma_code(code);
    lemma_code(freed);
    law_disconnect(session, replies);
}

/// Dropping a session frees just that session, and warns just where the C client returns another
/// number than zero, with that number.
pub proof fn law_drop_outcome(session: Session, code: i32)
    ensures
        session.drop_call() matches CallView::DestroySession { session: gone } && gone.0
            == session.session.0,
        drop_warning(code) is None <==> code == 0,
        drop_warning(code) matches Some(warned) ==> raw_of(warned) == code,
{
    lemma_code(code);
}

} // verus!
