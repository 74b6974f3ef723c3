//! Sessions.
use vstd::prelude::*;
use vstd::utf8::{decode_utf8, encode_utf8, valid_utf8};

use crate::call::{Call, CallView, FlowHandle, MessageHandle, Reply, ReplyView, SessionHandle};
use crate::config::FlowConfig;
use crate::ctext::{bytes_of, first_nul, is_nul_free, CText, NulErrorView};
use crate::disconnect::{
    disconnect_run, first_step, law_disconnect, run_disconnect, DisconnectStep, Disconnecting,
};
use crate::error::{SessionError, SessionErrorView};
use crate::properties::{
    deprovision_array, deprovision_entries, flow_array, flow_entries,
    law_arrays_are_property_lists, lemma_texts_are_nul_free, provision_array, provision_entries,
    provision_flags, CAPABILITY_ENDPOINT_MANAGEMENT, PROVISION_FLAGS_IGNORE_EXIST_ERRORS,
    PROVISION_FLAGS_WAITFORCONFIRM,
};
use crate::return_code::{code_of, raw_of, SolClientReturnCode};
use crate::run::{
    law_publish, law_request, law_subscribe_queue, law_topic, law_unsubscribe_queue, publish_run,
    request_run, run, run_request, subscribe_queue_run, topic_run, unsubscribe_queue_run, Replies,
};
use crate::step::{
    named_error, Direction, Failure, FailureView, Pending, PendingRequest, PendingView, Step,
    StepView,
};

verus! {

/// Why a queue operation is refused over a session that cannot manage queues.
pub const ENDPOINT_MANAGEMENT_UNSUPPORTED: &'static str =
    "Endpoint management not supported on this appliance.";

/// A session of the C client.
#[derive(Debug)]
pub struct Session {
    /// The session.
    pub session: SessionHandle,
    /// The flow that the subscribed queue is read through.
    pub flow: FlowHandle,
    /// Flow configuration for queue subscriptions.
    pub flow_config: FlowConfig,
}

/// A session, and what a cache session is to be made from it with.
#[derive(Debug)]
pub struct CacheSessionRequest {
    /// The session that the cache session takes over.
    pub session: Session,
    /// The name of the cache.
    pub cache_name: Vec<u8>,
    /// How many messages are wanted at most.
    pub max_message: Option<u64>,
    /// How old messages may be at most.
    pub max_age: Option<u64>,
    /// How long to wait for the cache, in milliseconds.
    pub timeout_ms: Option<u64>,
}

/// The step that asks why a call failed.
pub open spec fn ask_why(failure: FailureView) -> StepView<PendingView, ()> {
    StepView::Perform(CallView::LastErrorInfo, PendingView::LastError { failure })
}

/// The step after a call that returned `code`: `next` if the call succeeded, and otherwise the
/// question why it failed.
pub open spec fn unless_failed(
    code: i32,
    failure: FailureView,
    next: StepView<PendingView, ()>,
) -> StepView<PendingView, ()> {
    if code_of(code) == SolClientReturnCode::Success {
        next
    } else {
        ask_why(failure)
    }
}

/// The failure to take up or give up what is named `name`.
pub open spec fn named(direction: Direction, name: Seq<u8>, code: i32) -> FailureView {
    FailureView::Named { direction, name, code: code_of(code) }
}

/// The code to warn about when the call that frees a session returned `code`.
pub open spec fn drop_warning(code: i32) -> Option<SolClientReturnCode> {
    if code_of(code) == SolClientReturnCode::Success {
        None
    } else {
        Some(code_of(code))
    }
}

/// The end of an operation on a name that C cannot hold.
pub open spec fn refuse_name(name: Seq<u8>) -> StepView<PendingView, ()> {
    StepView::Done(
        Err(
            SessionErrorView::InvalidText(
                NulErrorView { position: first_nul(name), bytes: name },
            ),
        ),
    )
}

impl Session {
    /// The first step of sending a message.
    pub open spec fn publish_step(self, message: MessageHandle) -> StepView<PendingView, ()> {
        StepView::Perform(
            CallView::SendMsg { session: self.session, message },
            PendingView::Publish,
        )
    }

    /// The first step of taking up or giving up a topic.
    pub open spec fn topic_step(
        self,
        direction: Direction,
        topic: Seq<u8>,
    ) -> StepView<PendingView, ()> {
        if is_nul_free(topic) {
            StepView::Perform(
                match direction {
                    Direction::Subscribe => CallView::TopicSubscribe {
                        session: self.session,
                        topic,
                    },
                    Direction::Unsubscribe => CallView::TopicUnsubscribe {
                        session: self.session,
                        topic,
                    },
                },
                PendingView::Topic { direction, topic },
            )
        } else {
            refuse_name(topic)
        }
    }

    /// The first step of taking up or giving up a queue.
    pub open spec fn queue_step(
        self,
        direction: Direction,
        queue: Seq<u8>,
    ) -> StepView<PendingView, ()> {
        StepView::Perform(
            CallView::IsCapable {
                session: self.session,
                capability: bytes_of(CAPABILITY_ENDPOINT_MANAGEMENT),
            },
            PendingView::Capability { direction, name: queue },
        )
    }

    /// The first step of a request.
    pub open spec fn request_step(
        self,
        message: MessageHandle,
        timeout_ms: u32,
    ) -> StepView<PendingRequest, MessageHandle> {
        StepView::Perform(
            CallView::SendRequest { session: self.session, message, timeout_ms },
            PendingRequest::Reply,
        )
    }

    /// The call that frees the session when it is dropped.
    pub open spec fn drop_call(self) -> CallView {
        CallView::DestroySession { session: self.session }
    }

    /// The step of a queue operation once it is known whether the session can manage queues.
    pub open spec fn queue_step_if_capable(
        self,
        direction: Direction,
        queue: Seq<u8>,
        capability: u8,
    ) -> StepView<PendingView, ()> {
        if capability == 0 {
            StepView::Done(
                Err(
                    SessionErrorView::QueueSubscriptionFailure(ENDPOINT_MANAGEMENT_UNSUPPORTED@),
                ),
            )
        } else if !is_nul_free(queue) {
            refuse_name(queue)
        } else {
            match direction {
                Direction::Subscribe => StepView::Perform(
                    CallView::EndpointProvision {
                        session: self.session,
                        properties: provision_entries(queue),
                        flags: provision_flags(),
                    },
                    PendingView::Provision { queue },
                ),
                Direction::Unsubscribe => StepView::Perform(
                    CallView::DestroyFlow { flow: self.flow },
                    PendingView::DestroyFlow { queue },
                ),
            }
        }
    }

    /// The session and the step after the reply that was waited for.
    pub open spec fn after(self, pending: PendingView, reply: ReplyView) -> (
        Session,
        StepView<PendingView, ()>,
    ) {
        let done = StepView::<PendingView, ()>::Done(Ok(()));
        let code = reply.code();
        match pending {
            PendingView::Publish => (
                self,
                unless_failed(code, FailureView::Publish { code: code_of(code) }, done),
            ),
            PendingView::Topic { direction, topic } => (
                self,
                unless_failed(code, named(direction, topic, code), done),
            ),
            PendingView::Capability { direction, name } => (
                self,
                self.queue_step_if_capable(direction, name, reply.capability()),
            ),
            PendingView::Provision { queue } => (
                self,
                unless_failed(
                    code,
                    named(Direction::Subscribe, queue, code),
                    StepView::Perform(
                        CallView::CreateFlow {
                            session: self.session,
                            flow: self.flow,
                            properties: flow_entries(queue, self.flow_config),
                        },
                        PendingView::CreateFlow { queue },
                    ),
                ),
            ),
            PendingView::CreateFlow { queue } => (
                Session { flow: reply.flow(), ..self },
                unless_failed(code, named(Direction::Subscribe, queue, code), done),
            ),
            PendingView::DestroyFlow { queue } => (
                Session { flow: reply.flow(), ..self },
                unless_failed(
                    code,
                    named(Direction::Unsubscribe, queue, code),
                    StepView::Perform(
                        CallView::EndpointDeprovision {
                            session: self.session,
                            properties: deprovision_entries(queue),
                            flags: provision_flags(),
                        },
                        PendingView::Deprovision { queue },
                    ),
                ),
            ),
            PendingView::Deprovision { queue } => (
                self,
                unless_failed(code, named(Direction::Unsubscribe, queue, code), done),
            ),
            PendingView::LastError { failure } => (
                self,
                StepView::Done(Err(failure.error(reply.info()))),
            ),
        }
    }

    /// The step of a request after the reply that was waited for.
    pub open spec fn after_request(self, pending: PendingRequest, reply: ReplyView) -> StepView<
        PendingRequest,
        MessageHandle,
    > {
        match pending {
            PendingRequest::Reply => if code_of(reply.code()) == SolClientReturnCode::Success {
                StepView::Done(Ok(reply.message()))
            } else {
                StepView::Perform(
                    CallView::LastErrorInfo,
                    PendingRequest::LastError { code: code_of(reply.code()) },
                )
            },
            PendingRequest::LastError { code } => StepView::Done(
                Err(SessionErrorView::RequestError(code, reply.info())),
            ),
        }
    }

    /// Sends a message.
    pub fn publish(&self, message: MessageHandle) -> (step: Step<Pending, ()>)
        ensures
            step@ == self.publish_step(message),
            forall|replies: Replies| #[trigger] run(*self, step@, replies, 0)
                == publish_run(*self, message, replies),
            step matches Step::Perform(Call::SendMsg { session, message: sent }, _) && session
                == self.session && sent == message,
    {
        proof {
            let first = self.publish_step(message);
            assert forall|replies: Replies| #[trigger] run(*self, first, replies, 0)
                == publish_run(*self, message, replies) by {
                law_publish(*self, message, replies);
            }
        }
        Step::Perform(Call::SendMsg { session: self.session, message }, Pending::Publish)
    }

    /// Subscribes to a topic.
    pub fn subscribe(&self, topic: Vec<u8>) -> (step: Step<Pending, ()>)
        ensures
            step@ == self.topic_step(Direction::Subscribe, topic@),
            forall|replies: Replies| #[trigger] run(*self, step@, replies, 0)
                == topic_run(*self, Direction::Subscribe, topic@, replies),
            step@.is_nul_free(),
            !topic@.contains(0u8) ==> (step matches Step::Perform(
                Call::TopicSubscribe { session, topic: named },
                _,
            ) && session == self.session && named@ == topic@),
            topic@.contains(0u8) ==> step is Done,
    {
        proof {
            let first = self.topic_step(Direction::Subscribe, topic@);
            assert forall|replies: Replies| #[trigger] run(*self, first, replies, 0)
                == topic_run(*self, Direction::Subscribe, topic@, replies) by {
                law_topic(*self, Direction::Subscribe, topic@, replies);
            }
        }
        match CText::new(topic) {
            Ok(topic) => Step::Perform(
                Call::TopicSubscribe { session: self.session, topic: topic.duplicate() },
                Pending::Topic { direction: Direction::Subscribe, topic },
            ),
            Err(error) => Step::Done(Err(SessionError::InvalidText(error))),
        }
    }

    /// Unsubscribes from a topic.
    pub fn unsubscribe(&self, topic: Vec<u8>) -> (step: Step<Pending, ()>)
        ensures
            step@ == self.topic_step(Direction::Unsubscribe, topic@),
            forall|replies: Replies| #[trigger] run(*self, step@, replies, 0)
                == topic_run(*self, Direction::Unsubscribe, topic@, replies),
            step@.is_nul_free(),
            !topic@.contains(0u8) ==> (step matches Step::Perform(
                Call::TopicUnsubscribe { session, topic: named },
                _,
            ) && session == self.session && named@ == topic@),
            topic@.contains(0u8) ==> step is Done,
    {
        proof {
            let first = self.topic_step(Direction::Unsubscribe, topic@);
            assert forall|replies: Replies| #[trigger] run(*self, first, replies, 0)
                == topic_run(*self, Direction::Unsubscribe, topic@, replies) by {
                law_topic(*self, Direction::Unsubscribe, topic@, replies);
            }
        }
        match CText::new(topic) {
            Ok(topic) => Step::Perform(
                Call::TopicUnsubscribe { session: self.session, topic: topic.duplicate() },
                Pending::Topic { direction: Direction::Unsubscribe, topic },
            ),
            Err(error) => Step::Done(Err(SessionError::InvalidText(error))),
        }
    }

    /// Asks whether queues can be managed over the session.
    fn ask_capability(&self, direction: Direction, queue: Vec<u8>) -> (step: Step<Pending, ()>)
        ensures
            step@ == self.queue_step(direction, queue@),
            step@.is_nul_free(),
            step matches Step::Perform(Call::IsCapable { session, capability }, _) && session
                == self.session && capability@ == encode_utf8(
                "SESSION_CAPABILITY_ENDPOINT_MANAGEMENT"@,
            ),
    {
        proof {
            lemma_texts_are_nul_free();
        }
        Step::Perform(
            Call::IsCapable {
                session: self.session,
                capability: CText::from_text(CAPABILITY_ENDPOINT_MANAGEMENT),
            },
            Pending::Capability { direction, name: queue },
        )
    }

    /// Subscribes to a queue: creates it, and makes a flow to it.
    pub fn subscribe_queue(&mut self, queue: Vec<u8>) -> (step: Step<Pending, ()>)
        ensures
            *final(self) == *old(self),
            step@ == old(self).queue_step(Direction::Subscribe, queue@),
            forall|replies: Replies| #[trigger] run(*old(self), step@, replies, 0)
                == subscribe_queue_run(*old(self), queue@, replies),
            step@.is_nul_free(),
            step matches Step::Perform(Call::IsCapable { session, capability }, _) && session
                == old(self).session && capability@ == encode_utf8(
                "SESSION_CAPABILITY_ENDPOINT_MANAGEMENT"@,
            ),
    {
        proof {
            let first = self.queue_step(Direction::Subscribe, queue@);
            assert forall|replies: Replies| #[trigger] run(*self, first, replies, 0)
                == subscribe_queue_run(*self, queue@, replies) by {
                law_subscribe_queue(*self, queue@, replies);
            }
        }
        self.ask_capability(Direction::Subscribe, queue)
    }

    /// Unsubscribes from a queue: destroys the flow to it, and removes it.
    pub fn unsubscribe_queue(&mut self, queue: Vec<u8>) -> (step: Step<Pending, ()>)
        ensures
            *final(self) == *old(self),
            step@ == old(self).queue_step(Direction::Unsubscribe, queue@),
            forall|replies: Replies| #[trigger] run(*old(self), step@, replies, 0)
                == unsubscribe_queue_run(*old(self), queue@, replies),
            step@.is_nul_free(),
            step matches Step::Perform(Call::IsCapable { session, capability }, _) && session
                == old(self).session && capability@ == encode_utf8(
                "SESSION_CAPABILITY_ENDPOINT_MANAGEMENT"@,
            ),
    {
        proof {
            let first = self.queue_step(Direction::Unsubscribe, queue@);
            assert forall|replies: Replies| #[trigger] run(*self, first, replies, 0)
                == unsubscribe_queue_run(*self, queue@, replies) by {
                law_unsubscribe_queue(*self, queue@, replies);
            }
        }
        self.ask_capability(Direction::Unsubscribe, queue)
    }

    /// Sends a message and waits for the reply to it.
    pub fn request(&self, message: MessageHandle, timeout_ms: u32) -> (step: Step<
        PendingRequest,
        MessageHandle,
    >)
        requires
            timeout_ms != 0,
        ensures
            step@ == self.request_step(message, timeout_ms),
            forall|replies: Replies| #[trigger] run_request(*self, step@, replies, 0)
                == request_run(*self, message, timeout_ms, replies),
            step matches Step::Perform(
                Call::SendRequest { session, message: sent, timeout_ms: waits },
                _,
            ) && session == self.session && sent == message && waits == timeout_ms,
    {
        proof {
            let first = self.request_step(message, timeout_ms);
            assert forall|replies: Replies| #[trigger] run_request(*self, first, replies, 0)
                == request_run(*self, message, timeout_ms, replies) by {
                law_request(*self, message, timeout_ms, replies);
            }
        }
        Step::Perform(
            Call::SendRequest { session: self.session, message, timeout_ms },
            PendingRequest::Reply,
        )
    }

    /// Turns the session into a cache session.
    pub fn cache_session(
        self,
        cache_name: Vec<u8>,
        max_message: Option<u64>,
        max_age: Option<u64>,
        timeout_ms: Option<u64>,
    ) -> (request: CacheSessionRequest)
        ensures
            request.session == self,
            request.cache_name@ == cache_name@,
            request.max_message == max_message,
            request.max_age == max_age,
            request.timeout_ms == timeout_ms,
    {
        CacheSessionRequest { session: self, cache_name, max_message, max_age, timeout_ms }
    }

    /// Disconnects the session, and frees it.
    pub fn disconnect(self) -> (step: DisconnectStep)
        ensures
            step@ == first_step(self),
            forall|replies: Replies| #[trigger] run_disconnect(step@, replies, 0)
                == disconnect_run(self, replies),
            step matches DisconnectStep::Perform(Call::Disconnect { session }, _) && session
                == self.session,
    {
        proof {
            let first = first_step(self);
            assert forall|replies: Replies| #[trigger] run_disconnect(first, replies, 0)
                == disconnect_run(self, replies) by {
                law_disconnect(self, replies);
            }
        }
        Disconnecting::begin(self)
    }

    /// Goes on with an operation after the reply that it waits for.
    pub fn resume(&mut self, pending: Pending, reply: Reply) -> (step: Step<Pending, ()>)
        requires
            reply@.kind() == pending@.reply_kind(),
        ensures
            (*final(self), step@) == old(self).after(pending@, reply@),
            step@.is_nul_free(),
            pending@ matches PendingView::LastError {
                failure: FailureView::Named { direction, name, code },
            } ==> (valid_utf8(name) ==> step@ == StepView::<PendingView, ()>::Done(
                Err(named_error(direction, decode_utf8(name), code, reply@.info())),
            )),
            final(self).session == old(self).session,
            final(self).flow_config == old(self).flow_config,
            final(self).flow == match reply {
                Reply::Flow { flow, .. } => flow,
                _ => old(self).flow,
            },
            pending matches Pending::Provision { queue } ==> (reply == Reply::Code(0) ==> (
            step matches Step::Perform(Call::CreateFlow { session, flow, properties }, _)
                && session == old(self).session && flow == old(self).flow && properties@.len() >= 7
                && properties@[4] == Some(encode_utf8("FLOW_BIND_NAME"@)) && properties@[5] == Some(
                queue@,
            ))),
    {
        match (pending, reply) {
            (Pending::Publish, Reply::Code(raw)) => {
                let code = SolClientReturnCode::from_raw(raw);
                Self::finish(code, Failure::Publish { code })
            },
            (Pending::Topic { direction, topic }, Reply::Code(raw)) => {
                let code = SolClientReturnCode::from_raw(raw);
                Self::finish(code, Failure::Named { direction, name: topic, code })
            },
            (Pending::Capability { direction, name }, Reply::Capability(capable)) => {
                self.queue_step_after_capability(direction, name, capable)
            },
            (Pending::Provision { queue }, Reply::Code(raw)) => {
                let code = SolClientReturnCode::from_raw(raw);
                proof {
                    use_type_invariant(&queue);
                    law_arrays_are_property_lists(queue@, self.flow_config);
                }
                if code.is_ok() {
                    Step::Perform(
                        Call::CreateFlow {
                            session: self.session,
                            flow: self.flow,
                            properties: flow_array(&queue, self.flow_config),
                        },
                        Pending::CreateFlow { queue },
                    )
                } else {
                    Self::ask(Failure::Named { direction: Direction::Subscribe, name: queue, code })
                }
            },
            (Pending::CreateFlow { queue }, Reply::Flow { code: raw, flow }) => {
                self.flow = flow;
                let code = SolClientReturnCode::from_raw(raw);
                Self::finish(
                    code,
                    Failure::Named { direction: Direction::Subscribe, name: queue, code },
                )
            },
            (Pending::DestroyFlow { queue }, Reply::Flow { code: raw, flow }) => {
                self.flow = flow;
                let code = SolClientReturnCode::from_raw(raw);
                proof {
                    use_type_invariant(&queue);
                    law_arrays_are_property_lists(queue@, self.flow_config);
                }
                if code.is_ok() {
                    Step::Perform(
                        Call::EndpointDeprovision {
                            session: self.session,
                            properties: deprovision_array(&queue),
                            flags: PROVISION_FLAGS_WAITFORCONFIRM
                                | PROVISION_FLAGS_IGNORE_EXIST_ERRORS,
                        },
                        Pending::Deprovision { queue },
                    )
                } else {
                    Self::ask(
                        Failure::Named { direction: Direction::Unsubscribe, name: queue, code },
                    )
                }
            },
            (Pending::Deprovision { queue }, Reply::Code(raw)) => {
                let code = SolClientReturnCode::from_raw(raw);
                Self::finish(
                    code,
                    Failure::Named { direction: Direction::Unsubscribe, name: queue, code },
                )
            },
            (Pending::LastError { failure }, Reply::ErrorInfo(info)) => {
                Step::Done(Err(failure.into_error(info)))
            },
            _ => vstd::pervasive::unreached(),
        }
    }

    /// Goes on with a request after the reply that it waits for.
    pub fn resume_request(&self, pending: PendingRequest, reply: Reply) -> (step: Step<
        PendingRequest,
        MessageHandle,
    >)
        requires
            reply@.kind() == pending.awaited(),
        ensures
            step@ == self.after_request(pending, reply@),
            reply matches Reply::Message { code, message } ==> (step == Step::<
                PendingRequest,
                MessageHandle,
            >::Done(Ok(message)) <==> code == 0),
            reply matches Reply::Message { code, .. } ==> (step matches Step::Perform(
                Call::LastErrorInfo,
                _,
            ) <==> code != 0),
    {
        match (pending, reply) {
            (PendingRequest::Reply, Reply::Message { code: raw, message }) => {
                let code = SolClientReturnCode::from_raw(raw);
                if code.is_ok() {
                    Step::Done(Ok(message))
                } else {
                    Step::Perform(Call::LastErrorInfo, PendingRequest::LastError { code })
                }
            },
            (PendingRequest::LastError { code }, Reply::ErrorInfo(info)) => {
                Step::Done(Err(SessionError::RequestError(code, info)))
            },
            _ => vstd::pervasive::unreached(),
        }
    }

    /// The call that frees the session when it is dropped.
    pub fn begin_drop(&self) -> (call: Call)
        ensures
            call@ == self.drop_call(),
            call matches Call::DestroySession { session } && session == self.session,
    {
        Call::DestroySession { session: self.session }
    }

    /// Takes the reply to [`Session::begin_drop`], and returns the code to warn about where the
    /// session was not dropped properly.
    pub fn finish_drop(&mut self, code: i32, session: SessionHandle) -> (warning: Option<
        SolClientReturnCode,
    >)
        ensures
            *final(self) == (Session { session, ..*old(self) }),
            warning == drop_warning(code),
            warning is None <==> code == 0,
            warning matches Some(warned) ==> raw_of(warned) == code,
    {
        self.session = session;
        let code = SolClientReturnCode::from_raw(code);
        if code.is_ok() {
            None
        } else {
            Some(code)
        }
    }

    /// Asks why a call failed.
    fn ask(failure: Failure) -> (step: Step<Pending, ()>)
        ensures
            step@ == ask_why(failure@),
    {
        Step::Perform(Call::LastErrorInfo, Pending::LastError { failure })
    }

    /// Ends an operation whose last call returned `code`, unless the call failed.
    fn finish(code: SolClientReturnCode, failure: Failure) -> (step: Step<Pending, ()>)
        ensures
            step@ == if code == SolClientReturnCode::Success {
                StepView::Done(Ok(()))
            } else {
                ask_why(failure@)
            },
    {
        if code.is_ok() {
            Step::Done(Ok(()))
        } else {
            Self::ask(failure)
        }
    }

    /// Goes on with a queue operation once it is known whether the session can manage queues.
    fn queue_step_after_capability(
        &self,
        direction: Direction,
        queue: Vec<u8>,
        capable: u8,
    ) -> (step: Step<Pending, ()>)
        ensures
            step@ == self.queue_step_if_capable(direction, queue@, capable),
            step@.is_nul_free(),
    {
        if capable == 0 {
            return Step::Done(
                Err(
                    SessionError::QueueSubscriptionFailure(
                        ENDPOINT_MANAGEMENT_UNSUPPORTED.to_owned(),
                    ),
                ),
            );
        }
        let queue = match CText::new(queue) {
            Ok(queue) => queue,
            Err(error) => return Step::Done(Err(SessionError::InvalidText(error))),
        };
        proof {
            law_arrays_are_property_lists(queue@, self.flow_config);
        }
        match direction {
            Direction::Subscribe => Step::Perform(
                Call::EndpointProvision {
                    session: self.session,
                    properties: provision_array(&queue),
                    flags: PROVISION_FLAGS_WAITFORCONFIRM | PROVISION_FLAGS_IGNORE_EXIST_ERRORS,
                },
                Pending::Provision { queue },
            ),
            Direction::Unsubscribe => Step::Perform(
                Call::DestroyFlow { flow: self.flow },
                Pending::DestroyFlow { queue },
            ),
        }
    }
}

} // verus!
