use solace_session::call::{
    Call, FlowHandle, MessageHandle, Reply, ReplyKind, SessionHandle,
};
use solace_session::config::FlowConfig;
use solace_session::disconnect::DisconnectStep;
use solace_session::error::{SessionError, SolClientSubCode};
use solace_session::return_code::SolClientReturnCode;
use solace_session::session::Session;
use solace_session::step::{
    named_failure, Direction, Pending, PendingRequest, Step,
};

fn session() -> Session {
    Session {
        session: SessionHandle(0x5e55),
        flow: FlowHandle(0),
        flow_config: FlowConfig { window_size: Some(20), ..FlowConfig::default() },
    }
}

fn why(subcode: u32) -> Reply {
    Reply::ErrorInfo(SolClientSubCode { subcode, error_string: format!("reason {}", subcode) })
}

/// Hands the replies in one after the other; all of them are needed.
fn drive(
    session: &mut Session,
    first: Step<Pending, ()>,
    replies: Vec<Reply>,
) -> (Vec<Call>, Result<(), SessionError>) {
    let mut calls = Vec::new();
    let mut replies = replies.into_iter();
    let mut step = first;
    loop {
        match step {
            Step::Perform(call, pending) => {
                let reply = replies.next().unwrap();
                assert_eq!(reply.kind(), call.reply_kind());
                assert_eq!(reply.kind(), pending.reply_kind());
                calls.push(call);
                step = session.resume(pending, reply);
            }
            Step::Done(result) => {
                assert!(replies.next().is_none());
                return (calls, result);
            }
        }
    }
}

#[test]
fn publish_succeeds() {
    let mut s = session();
    let first = s.publish(MessageHandle(9));
    let (calls, result) = drive(&mut s, first, vec![Reply::Code(0)]);
    assert!(result.is_ok());
    assert_eq!(calls.len(), 1);
    assert!(matches!(
        calls[0],
        Call::SendMsg { session: SessionHandle(0x5e55), message: MessageHandle(9) }
    ));
}

#[test]
fn publish_fails_with_the_reason() {
    let mut s = session();
    let first = s.publish(MessageHandle(9));
    let (calls, result) = drive(&mut s, first, vec![Reply::Code(-1), why(21)]);
    assert!(matches!(calls[1], Call::LastErrorInfo));
    match result {
        Err(SessionError::PublishError(SolClientReturnCode::Fail, info)) => {
            assert_eq!(info.subcode, 21);
            assert_eq!(info.error_string, "reason 21");
        }
        other => panic!("{:?}", other),
    }
}

#[test]
fn publish_that_would_block_is_an_error() {
    let mut s = session();
    let first = s.publish(MessageHandle(9));
    let (_, result) = drive(&mut s, first, vec![Reply::Code(1), why(0)]);
    assert!(matches!(
        result,
        Err(SessionError::PublishError(SolClientReturnCode::WouldBlock, _))
    ));
}

#[test]
fn subscribe_to_a_topic() {
    let mut s = session();
    let first = s.subscribe(b"try-me".to_vec());
    let (calls, result) = drive(&mut s, first, vec![Reply::Code(0)]);
    assert!(result.is_ok());
    match &calls[0] {
        Call::TopicSubscribe { session, topic } => {
            assert_eq!(*session, SessionHandle(0x5e55));
            assert_eq!(topic.as_bytes(), b"try-me");
        }
        other => panic!("{:?}", other),
    }
}

#[test]
fn subscribe_fails_with_the_topic_and_the_reason() {
    let mut s = session();
    let first = s.subscribe(vec![b't', 0xff]);
    let (calls, result) = drive(&mut s, first, vec![Reply::Code(5), why(4)]);
    assert_eq!(calls.len(), 2);
    match result {
        Err(SessionError::SubscriptionFailure(name, SolClientReturnCode::NotFound, info)) => {
            assert_eq!(name, "t\u{fffd}");
            assert_eq!(info.subcode, 4);
        }
        other => panic!("{:?}", other),
    }
}

#[test]
fn subscribe_to_a_topic_with_a_nul_makes_no_call() {
    let mut s = session();
    let first = s.subscribe(vec![b't', 0, b'x']);
    let (calls, result) = drive(&mut s, first, vec![]);
    assert!(calls.is_empty());
    match result {
        Err(SessionError::InvalidText(error)) => {
            assert_eq!(error.nul_position(), 1);
            assert_eq!(error.into_vec(), vec![b't', 0, b'x']);
        }
        other => panic!("{:?}", other),
    }
}

#[test]
fn unsubscribe_from_a_topic() {
    let mut s = session();
    let first = s.unsubscribe(b"default".to_vec());
    let (calls, result) = drive(&mut s, first, vec![Reply::Code(0)]);
    assert!(result.is_ok());
    match &calls[0] {
        Call::TopicUnsubscribe { session, topic } => {
            assert_eq!(*session, SessionHandle(0x5e55));
            assert_eq!(topic.as_bytes(), b"default");
        }
        other => panic!("{:?}", other),
    }
}

#[test]
fn unsubscribe_fails_with_the_topic_and_the_reason() {
    let mut s = session();
    let first = s.unsubscribe(b"default".to_vec());
    let (_, result) = drive(&mut s, first, vec![Reply::Code(-1), why(8)]);
    match result {
        Err(SessionError::UnsubscriptionFailure(name, SolClientReturnCode::Fail, info)) => {
            assert_eq!(name, "default");
            assert_eq!(info.error_string, "reason 8");
        }
        other => panic!("{:?}", other),
    }
}

#[test]
fn unsubscribe_from_a_topic_with_a_nul_makes_no_call() {
    let mut s = session();
    let first = s.unsubscribe(vec![0]);
    let (calls, result) = drive(&mut s, first, vec![]);
    assert!(calls.is_empty());
    assert!(matches!(result, Err(SessionError::InvalidText(_))));
}

#[test]
fn subscribe_to_a_queue() {
    let mut s = session();
    let first = s.subscribe_queue(b"default".to_vec());
    let (calls, result) = drive(
        &mut s,
        first,
        vec![
            Reply::Capability(1),
            Reply::Code(0),
            Reply::Flow { code: 0, flow: FlowHandle(0xf1) },
        ],
    );
    assert!(result.is_ok());
    assert_eq!(calls.len(), 3);
    match &calls[0] {
        Call::IsCapable { session, capability } => {
            assert_eq!(*session, SessionHandle(0x5e55));
            assert_eq!(capability.as_bytes(), b"SESSION_CAPABILITY_ENDPOINT_MANAGEMENT");
        }
        other => panic!("{:?}", other),
    }
    match &calls[1] {
        Call::EndpointProvision { session, properties, flags } => {
            assert_eq!(*session, SessionHandle(0x5e55));
            assert_eq!(properties.len(), 5);
            assert_eq!(properties.entry(3), Some(&b"default"[..]));
            assert_eq!(properties.entry(4), None);
            assert_eq!(*flags, 3);
        }
        other => panic!("{:?}", other),
    }
    match &calls[2] {
        Call::CreateFlow { session, flow, properties } => {
            assert_eq!(*session, SessionHandle(0x5e55));
            assert_eq!(*flow, FlowHandle(0));
            assert_eq!(properties.len(), 9);
            assert_eq!(properties.entry(6), Some(&b"FLOW_WINDOWSIZE"[..]));
            assert_eq!(properties.entry(7), Some(&b"20"[..]));
        }
        other => panic!("{:?}", other),
    }
    assert_eq!(s.flow, FlowHandle(0xf1));
    assert_eq!(s.session, SessionHandle(0x5e55));
    assert_eq!(s.flow_config.window_size, Some(20));
}

#[test]
fn queues_need_the_capability_before_a_valid_name() {
    for direction in [Direction::Subscribe, Direction::Unsubscribe] {
        let mut s = session();
        let first = match direction {
            Direction::Subscribe => s.subscribe_queue(vec![0]),
            Direction::Unsubscribe => s.unsubscribe_queue(vec![0]),
        };
        let (calls, result) = drive(&mut s, first, vec![Reply::Capability(0)]);
        assert_eq!(calls.len(), 1);
        match result {
            Err(SessionError::QueueSubscriptionFailure(reason)) => {
                assert_eq!(reason, "Endpoint management not supported on this appliance.");
            }
            other => panic!("{:?}", other),
        }
    }
}

#[test]
fn queue_names_with_a_nul_are_refused_before_anything_is_touched() {
    for direction in [Direction::Subscribe, Direction::Unsubscribe] {
        let mut s = session();
        let first = match direction {
            Direction::Subscribe => s.subscribe_queue(vec![b'q', 0]),
            Direction::Unsubscribe => s.unsubscribe_queue(vec![b'q', 0]),
        };
        let (calls, result) = drive(&mut s, first, vec![Reply::Capability(255)]);
        assert_eq!(calls.len(), 1);
        match result {
            Err(SessionError::InvalidText(error)) => assert_eq!(error.nul_position(), 1),
            other => panic!("{:?}", other),
        }
    }
}

#[test]
fn queue_that_cannot_be_created() {
    let mut s = session();
    let first = s.subscribe_queue(b"q".to_vec());
    let (calls, result) =
        drive(&mut s, first, vec![Reply::Capability(1), Reply::Code(-1), why(30)]);
    assert_eq!(calls.len(), 3);
    assert!(matches!(calls[2], Call::LastErrorInfo));
    match result {
        Err(SessionError::SubscriptionFailure(name, SolClientReturnCode::Fail, info)) => {
            assert_eq!(name, "q");
            assert_eq!(info.subcode, 30);
        }
        other => panic!("{:?}", other),
    }
    assert_eq!(s.flow, FlowHandle(0));
}

#[test]
fn flow_that_cannot_be_made() {
    let mut s = session();
    let first = s.subscribe_queue(b"q".to_vec());
    let (calls, result) = drive(
        &mut s,
        first,
        vec![
            Reply::Capability(1),
            Reply::Code(0),
            Reply::Flow { code: 3, flow: FlowHandle(0) },
            why(31),
        ],
    );
    assert_eq!(calls.len(), 4);
    assert!(matches!(
        result,
        Err(SessionError::SubscriptionFailure(_, SolClientReturnCode::NotReady, _))
    ));
}

#[test]
fn unsubscribing_destroys_the_flow_that_subscribing_made() {
    let mut s = session();
    let first = s.subscribe_queue(b"q".to_vec());
    let replies = vec![
        Reply::Capability(1),
        Reply::Code(0),
        Reply::Flow { code: 0, flow: FlowHandle(77) },
    ];
    assert!(drive(&mut s, first, replies).1.is_ok());
    let first = s.unsubscribe_queue(b"q".to_vec());
    let replies = vec![
        Reply::Capability(1),
        Reply::Flow { code: 0, flow: FlowHandle(0) },
        Reply::Code(0),
    ];
    let (calls, result) = drive(&mut s, first, replies);
    assert!(result.is_ok());
    assert!(calls.iter().all(|call| !matches!(call, Call::DestroySession { .. })));
    assert!(matches!(calls[1], Call::DestroyFlow { flow: FlowHandle(77) }));
    match &calls[2] {
        Call::EndpointDeprovision { session, properties, flags } => {
            assert_eq!(*session, SessionHandle(0x5e55));
            assert_eq!(properties.len(), 5);
            assert_eq!(properties.entry(0), Some(&b"ENDPOINT_ID"[..]));
            assert_eq!(properties.entry(1), Some(&b"2"[..]));
            assert_eq!(properties.entry(2), Some(&b"ENDPOINT_NAME"[..]));
            assert_eq!(properties.entry(3), Some(&b"q"[..]));
            assert_eq!(properties.entry(4), None);
            assert_eq!(*flags, 3);
        }
        other => panic!("{:?}", other),
    }
    assert_eq!(s.flow, FlowHandle(0));
}

#[test]
fn flow_that_cannot_be_destroyed_leaves_the_queue() {
    let mut s = session();
    s.flow = FlowHandle(77);
    let first = s.unsubscribe_queue(b"q".to_vec());
    let replies = vec![
        Reply::Capability(1),
        Reply::Flow { code: -1, flow: FlowHandle(77) },
        why(40),
    ];
    let (calls, result) = drive(&mut s, first, replies);
    assert_eq!(calls.len(), 3);
    match result {
        Err(SessionError::UnsubscriptionFailure(name, SolClientReturnCode::Fail, info)) => {
            assert_eq!(name, "q");
            assert_eq!(info.subcode, 40);
        }
        other => panic!("{:?}", other),
    }
    assert_eq!(s.flow, FlowHandle(77));
}

#[test]
fn queue_that_cannot_be_removed() {
    let mut s = session();
    s.flow = FlowHandle(77);
    let first = s.unsubscribe_queue(b"q".to_vec());
    let replies = vec![
        Reply::Capability(1),
        Reply::Flow { code: 0, flow: FlowHandle(0) },
        Reply::Code(12),
        why(41),
    ];
    let (calls, result) = drive(&mut s, first, replies);
    assert_eq!(calls.len(), 4);
    assert!(matches!(
        result,
        Err(SessionError::UnsubscriptionFailure(_, SolClientReturnCode::Other(12), _))
    ));
}

#[test]
fn request_returns_the_reply() {
    let s = session();
    match s.request(MessageHandle(4), 500) {
        Step::Perform(
            Call::SendRequest {
                session: SessionHandle(0x5e55),
                message: MessageHandle(4),
                timeout_ms: 500,
            },
            pending,
        ) => {
            assert_eq!(pending.reply_kind(), ReplyKind::Message);
            let reply = Reply::Message { code: 0, message: MessageHandle(6) };
            assert!(reply.is_coherent());
            match s.resume_request(pending, reply) {
                Step::Done(Ok(message)) => assert_eq!(message, MessageHandle(6)),
                other => panic!("{:?}", other),
            }
        }
        other => panic!("{:?}", other),
    }
}

#[test]
fn request_fails_with_the_reason() {
    let s = session();
    let reply = Reply::Message { code: 7, message: MessageHandle(0) };
    assert!(reply.is_coherent());
    match s.resume_request(PendingRequest::Reply, reply) {
        Step::Perform(Call::LastErrorInfo, pending) => {
            assert_eq!(pending.reply_kind(), ReplyKind::ErrorInfo);
            match s.resume_request(pending, why(50)) {
                Step::Done(Err(SessionError::RequestError(code, info))) => {
                    assert_eq!(code, SolClientReturnCode::Incomplete);
                    assert_eq!(info.subcode, 50);
                }
                other => panic!("{:?}", other),
            }
        }
        other => panic!("{:?}", other),
    }
}

#[test]
fn replies_to_requests_that_break_the_promise() {
    assert!(!Reply::Message { code: 0, message: MessageHandle(0) }.is_coherent());
    assert!(!Reply::Message { code: -1, message: MessageHandle(6) }.is_coherent());
    assert!(Reply::Code(-1).is_coherent());
}

#[test]
fn cache_session_takes_everything_over() {
    let request = session().cache_session(b"cache".to_vec(), Some(1), None, Some(3));
    assert_eq!(request.session.session, SessionHandle(0x5e55));
    assert_eq!(request.session.flow_config.window_size, Some(20));
    assert_eq!(request.cache_name, b"cache".to_vec());
    assert_eq!(request.max_message, Some(1));
    assert_eq!(request.max_age, None);
    assert_eq!(request.timeout_ms, Some(3));
}

/// Hands the replies in one after the other; all of them are needed.
fn drive_disconnect(
    session: Session,
    replies: Vec<Reply>,
) -> (Vec<Call>, Result<(), SessionError>, Option<SolClientReturnCode>) {
    let mut calls = Vec::new();
    let mut replies = replies.into_iter();
    let mut step = session.disconnect();
    loop {
        match step {
            DisconnectStep::Perform(call, waits) => {
                let reply = replies.next().unwrap();
                assert_eq!(reply.kind(), call.reply_kind());
                assert_eq!(reply.kind(), waits.reply_kind());
                calls.push(call);
                step = waits.resume(reply);
            }
            DisconnectStep::Done { result, warning } => {
                assert!(replies.next().is_none());
                return (calls, result, warning);
            }
        }
    }
}

#[test]
fn disconnect_succeeds_and_frees_the_session() {
    let (calls, result, warning) = drive_disconnect(
        session(),
        vec![Reply::Code(0), Reply::Session { code: 0, session: SessionHandle(0) }],
    );
    assert!(result.is_ok());
    assert_eq!(warning, None);
    assert_eq!(calls.len(), 2);
    assert!(matches!(calls[0], Call::Disconnect { session: SessionHandle(0x5e55) }));
    assert!(matches!(calls[1], Call::DestroySession { session: SessionHandle(0x5e55) }));
}

#[test]
fn disconnect_fails_with_the_reason_and_frees_the_session() {
    let (calls, result, warning) = drive_disconnect(
        session(),
        vec![Reply::Code(-1), why(60), Reply::Session { code: 0, session: SessionHandle(0) }],
    );
    assert_eq!(calls.len(), 3);
    assert!(matches!(calls[1], Call::LastErrorInfo));
    assert!(matches!(calls[2], Call::DestroySession { session: SessionHandle(0x5e55) }));
    assert_eq!(warning, None);
    match result {
        Err(SessionError::DisconnectError(SolClientReturnCode::Fail, info)) => {
            assert_eq!(info.subcode, 60);
        }
        other => panic!("{:?}", other),
    }
}

#[test]
fn disconnect_warns_where_the_session_is_not_freed() {
    let (_, result, warning) = drive_disconnect(
        session(),
        vec![Reply::Code(0), Reply::Session { code: 3, session: SessionHandle(0x5e55) }],
    );
    assert!(result.is_ok());
    assert_eq!(warning, Some(SolClientReturnCode::NotReady));
}

#[test]
fn dropping_frees_the_session() {
    let mut s = session();
    let first = s.publish(MessageHandle(9));
    assert!(drive(&mut s, first, vec![Reply::Code(0)]).1.is_ok());
    let call = s.begin_drop();
    assert!(matches!(call, Call::DestroySession { session: SessionHandle(0x5e55) }));
    assert_eq!(call.reply_kind(), ReplyKind::Session);
    assert_eq!(s.finish_drop(0, SessionHandle(0)), None);
    assert_eq!(s.session, SessionHandle(0));
}

#[test]
fn dropping_warns_where_it_fails() {
    let mut s = session();
    assert_eq!(s.finish_drop(-1, SessionHandle(0x5e55)), Some(SolClientReturnCode::Fail));
    assert_eq!(s.session, SessionHandle(0x5e55));
}

#[test]
fn named_failures() {
    let info = SolClientSubCode { subcode: 1, error_string: String::new() };
    let error =
        named_failure(Direction::Subscribe, "n".to_string(), SolClientReturnCode::Fail, info);
    assert!(matches!(
        error,
        SessionError::SubscriptionFailure(ref name, SolClientReturnCode::Fail, _) if name == "n"
    ));
    let info = SolClientSubCode { subcode: 2, error_string: String::new() };
    let error =
        named_failure(Direction::Unsubscribe, "m".to_string(), SolClientReturnCode::NotFound, info);
    match error {
        SessionError::UnsubscriptionFailure(name, SolClientReturnCode::NotFound, info) => {
            assert_eq!(name, "m");
            assert_eq!(info.subcode, 2);
        }
        other => panic!("{:?}", other),
    }
}
