//! Calls into the C client and their replies.
use vstd::prelude::*;

use crate::ctext::{is_nul_free, CText};
use crate::error::{SolClientSubCode, SubCodeView};
use crate::properties::{entries_are_nul_free, Entries, PropertyArray};
use crate::return_code::{code_of, SolClientReturnCode};

verus! {

/// The address of a session of the C client.
#[derive(Clone, Copy, Debug, PartialEq, Eq, Structural)]
pub struct SessionHandle(pub usize);

/// The address of a flow of the C client; zero where there is none.
#[derive(Clone, Copy, Debug, PartialEq, Eq, Structural)]
pub struct FlowHandle(pub usize);

/// The address of a message of the C client; zero where there is none.
#[derive(Clone, Copy, Debug, PartialEq, Eq, Structural)]
pub struct MessageHandle(pub usize);

/// A call into the C client, with its arguments.
#[derive(Debug)]
pub enum Call {
    /// `solClient_session_isCapable`
    IsCapable { session: SessionHandle, capability: CText },
    /// `solClient_session_sendMsg`
    SendMsg { session: SessionHandle, message: MessageHandle },
    /// `solClient_session_topicSubscribe`
    TopicSubscribe { session: SessionHandle, topic: CText },
    /// `solClient_session_topicUnsubscribe`
    TopicUnsubscribe { session: SessionHandle, topic: CText },
    /// `solClient_session_endpointProvision`, without a correlation tag and without room for the
    /// queue's network name
    EndpointProvision { session: SessionHandle, properties: PropertyArray, flags: u32 },
    /// `solClient_session_endpointDeprovision`, without a correlation tag
    EndpointDeprovision { session: SessionHandle, properties: PropertyArray, flags: u32 },
    /// `solClient_session_createFlow`, with the callbacks that the session was made with; the
    /// flow is the place that the C client writes the new flow over
    CreateFlow { session: SessionHandle, flow: FlowHandle, properties: PropertyArray },
    /// `solClient_flow_destroy`; the flow is the place that the C client reads and writes over
    DestroyFlow { flow: FlowHandle },
    /// `solClient_session_sendRequest`, with no reply message to begin with
    SendRequest { session: SessionHandle, message: MessageHandle, timeout_ms: u32 },
    /// `solClient_session_disconnect`
    Disconnect { session: SessionHandle },
    /// `solClient_session_destroy`; the session is the place that the C client reads and writes
    /// over
    DestroySession { session: SessionHandle },
    /// `solClient_getLastErrorInfo`
    LastErrorInfo,
}

/// The contents of a [`Call`].
#[verifier::ext_equal]
pub enum CallView {
    /// `solClient_session_isCapable`
    IsCapable { session: SessionHandle, capability: Seq<u8> },
    /// `solClient_session_sendMsg`
    SendMsg { session: SessionHandle, message: MessageHandle },
    /// `solClient_session_topicSubscribe`
    TopicSubscribe { session: SessionHandle, topic: Seq<u8> },
    /// `solClient_session_topicUnsubscribe`
    TopicUnsubscribe { session: SessionHandle, topic: Seq<u8> },
    /// `solClient_session_endpointProvision`
    EndpointProvision { session: SessionHandle, properties: Entries, flags: u32 },
    /// `solClient_session_endpointDeprovision`
    EndpointDeprovision { session: SessionHandle, properties: Entries, flags: u32 },
    /// `solClient_session_createFlow`
    CreateFlow { session: SessionHandle, flow: FlowHandle, properties: Entries },
    /// `solClient_flow_destroy`
    DestroyFlow { flow: FlowHandle },
    /// `solClient_session_sendRequest`
    SendRequest { session: SessionHandle, message: MessageHandle, timeout_ms: u32 },
    /// `solClient_session_disconnect`
    Disconnect { session: SessionHandle },
    /// `solClient_session_destroy`
    DestroySession { session: SessionHandle },
    /// `solClient_getLastErrorInfo`
    LastErrorInfo,
}

impl View for Call {
    type V = CallView;

    open spec fn view(&self) -> CallView {
        match self {
            Call::IsCapable { session, capability } => {
                CallView::IsCapable { session: *session, capability: capability@ }
            },
            Call::SendMsg { session, message } => {
                CallView::SendMsg { session: *session, message: *message }
            },
            Call::TopicSubscribe { session, topic } => {
                CallView::TopicSubscribe { session: *session, topic: topic@ }
            },
            Call::TopicUnsubscribe { session, topic } => {
                CallView::TopicUnsubscribe { session: *session, topic: topic@ }
            },
            Call::EndpointProvision { session, properties, flags } => {
                CallView::EndpointProvision {
                    session: *session,
                    properties: properties@,
                    flags: *flags,
                }
            },
            Call::EndpointDeprovision { session, properties, flags } => {
                CallView::EndpointDeprovision {
                    session: *session,
                    properties: properties@,
                    flags: *flags,
                }
            },
            Call::CreateFlow { session, flow, properties } => {
                CallView::CreateFlow { session: *session, flow: *flow, properties: properties@ }
            },
            Call::DestroyFlow { flow } => CallView::DestroyFlow { flow: *flow },
            Call::SendRequest { session, message, timeout_ms } => {
                CallView::SendRequest {
                    session: *session,
                    message: *message,
                    timeout_ms: *timeout_ms,
                }
            },
            Call::Disconnect { session } => CallView::Disconnect { session: *session },
            Call::DestroySession { session } => CallView::DestroySession { session: *session },
            Call::LastErrorInfo => CallView::LastErrorInfo,
        }
    }
}

/// What the C client replied to a call.
#[derive(Debug)]
pub enum Reply {
    /// Whether the session is capable: anything but zero is yes.
    Capability(u8),
    /// A return code.
    Code(i32),
    /// A return code, and what the place of the flow holds after the call.
    Flow { code: i32, flow: FlowHandle },
    /// A return code, and the reply message.
    Message { code: i32, message: MessageHandle },
    /// A return code, and what the place of the session holds after the call.
    Session { code: i32, session: SessionHandle },
    /// What the last failed call has to say.
    ErrorInfo(SolClientSubCode),
}

/// The contents of a [`Reply`].
#[verifier::ext_equal]
pub enum ReplyView {
    /// Whether the session is capable: anything but zero is yes.
    Capability(u8),
    /// A return code.
    Code(i32),
    /// A return code, and what the place of the flow holds after the call.
    Flow { code: i32, flow: FlowHandle },
    /// A return code, and the reply message.
    Message { code: i32, message: MessageHandle },
    /// A return code, and what the place of the session holds after the call.
    Session { code: i32, session: SessionHandle },
    /// What the last failed call has to say.
    ErrorInfo(SubCodeView),
}

impl View for Reply {
    type V = ReplyView;

    open spec fn view(&self) -> ReplyView {
        match self {
            Reply::Capability(capable) => ReplyView::Capability(*capable),
            Reply::Code(code) => ReplyView::Code(*code),
            Reply::Flow { code, flow } => ReplyView::Flow { code: *code, flow: *flow },
            Reply::Message { code, message } => {
                ReplyView::Message { code: *code, message: *message }
            },
            Reply::Session { code, session } => {
                ReplyView::Session { code: *code, session: *session }
            },
            Reply::ErrorInfo(info) => ReplyView::ErrorInfo(info@),
        }
    }
}

/// The shapes that replies come in.
#[derive(Clone, Copy, Debug, PartialEq, Eq, Structural)]
pub enum ReplyKind {
    /// A [`Reply::Capability`].
    Capability,
    /// A [`Reply::Code`].
    Code,
    /// A [`Reply::Flow`].
    Flow,
    /// A [`Reply::Message`].
    Message,
    /// A [`Reply::Session`].
    Session,
    /// A [`Reply::ErrorInfo`].
    ErrorInfo,
}

impl ReplyView {
    /// The shape of the reply.
    pub open spec fn kind(self) -> ReplyKind {
        match self {
            ReplyView::Capability(_) => ReplyKind::Capability,
            ReplyView::Code(_) => ReplyKind::Code,
            ReplyView::Flow { .. } => ReplyKind::Flow,
            ReplyView::Message { .. } => ReplyKind::Message,
            ReplyView::Session { .. } => ReplyKind::Session,
            ReplyView::ErrorInfo(_) => ReplyKind::ErrorInfo,
        }
    }

    /// The return code in the reply, where it holds one.
    pub open spec fn code(self) -> i32 {
        match self {
            ReplyView::Code(code) => code,
            ReplyView::Flow { code, .. } => code,
            ReplyView::Message { code, .. } => code,
            ReplyView::Session { code, .. } => code,
            _ => arbitrary(),
        }
    }

    /// The capability in the reply, where it holds one.
    pub open spec fn capability(self) -> u8 {
        self->Capability_0
    }

    /// The flow in the reply, where it holds one.
    pub open spec fn flow(self) -> FlowHandle {
        self->flow
    }

    /// The message in the reply, where it holds one.
    pub open spec fn message(self) -> MessageHandle {
        self->message
    }

    /// Whether the reply keeps the C client's promise on requests: a reply message is there just
    /// when the request succeeded.
    pub open spec fn is_coherent(self) -> bool {
        self matches ReplyView::Message { code, message } ==> (code_of(code)
            == SolClientReturnCode::Success <==> message.0 != 0)
    }

    /// The error information in the reply, where it holds some.
    pub open spec fn info(self) -> SubCodeView {
        self->ErrorInfo_0
    }
}

impl CallView {
    /// The shape of the reply to the call.
    pub open spec fn reply_kind(self) -> ReplyKind {
        match self {
            CallView::IsCapable { .. } => ReplyKind::Capability,
            CallView::SendMsg { .. } => ReplyKind::Code,
            CallView::TopicSubscribe { .. } => ReplyKind::Code,
            CallView::TopicUnsubscribe { .. } => ReplyKind::Code,
            CallView::EndpointProvision { .. } => ReplyKind::Code,
            CallView::EndpointDeprovision { .. } => ReplyKind::Code,
            CallView::CreateFlow { .. } => ReplyKind::Flow,
            CallView::DestroyFlow { .. } => ReplyKind::Flow,
            CallView::SendRequest { .. } => ReplyKind::Message,
            CallView::Disconnect { .. } => ReplyKind::Code,
            CallView::DestroySession { .. } => ReplyKind::Session,
            CallView::LastErrorInfo => ReplyKind::ErrorInfo,
        }
    }

    /// Whether C can hold every string among the arguments.
    pub open spec fn is_nul_free(self) -> bool {
        match self {
            CallView::IsCapable { capability, .. } => is_nul_free(capability),
            CallView::TopicSubscribe { topic, .. } => is_nul_free(topic),
            CallView::TopicUnsubscribe { topic, .. } => is_nul_free(topic),
            CallView::EndpointProvision { properties, .. } => entries_are_nul_free(properties),
            CallView::EndpointDeprovision { properties, .. } => entries_are_nul_free(properties),
            CallView::CreateFlow { properties, .. } => entries_are_nul_free(properties),
            _ => true,
        }
    }
}

impl Call {
    /// The shape of the reply to the call.
    pub fn reply_kind(&self) -> (kind: ReplyKind)
        ensures
            kind == self@.reply_kind(),
    {
        match self {
            Call::IsCapable { .. } => ReplyKind::Capability,
            Call::SendMsg { .. } => ReplyKind::Code,
            Call::TopicSubscribe { .. } => ReplyKind::Code,
            Call::TopicUnsubscribe { .. } => ReplyKind::Code,
            Call::EndpointProvision { .. } => ReplyKind::Code,
            Call::EndpointDeprovision { .. } => ReplyKind::Code,
            Call::CreateFlow { .. } => ReplyKind::Flow,
            Call::DestroyFlow { .. } => ReplyKind::Flow,
            Call::SendRequest { .. } => ReplyKind::Message,
            Call::Disconnect { .. } => ReplyKind::Code,
            Call::DestroySession { .. } => ReplyKind::Session,
            Call::LastErrorInfo => ReplyKind::ErrorInfo,
        }
    }
}

impl Reply {
    /// The shape of the reply.
    pub fn kind(&self) -> (kind: ReplyKind)
        ensures
            kind == self@.kind(),
    {
        match self {
            Reply::Capability(_) => ReplyKind::Capability,
            Reply::Code(_) => ReplyKind::Code,
            Reply::Flow { .. } => ReplyKind::Flow,
            Reply::Message { .. } => ReplyKind::Message,
            Reply::Session { .. } => ReplyKind::Session,
            Reply::ErrorInfo(_) => ReplyKind::ErrorInfo,
        }
    }

    /// Whether the reply keeps the C client's promise on requests: a reply message is there just
    /// when the request succeeded.
    pub fn is_coherent(&self) -> (coherent: bool)
        ensures
            coherent == self@.is_coherent(),
    {
        match self {
            Reply::Message { code, message } => {
                SolClientReturnCode::from_raw(*code).is_ok() == (message.0 != 0)
            },
            _ => true,
        }
    }
}

/// The contents of a call are its own arguments, argument by argument.
pub proof fn law_call_contents(call: Call)
    ensures
        call matches Call::IsCapable { session, capability } ==> call@ == (CallView::IsCapable {
            session,
            capability: capability@,
        }),
        call matches Call::SendMsg { session, message } ==> call@ == (CallView::SendMsg {
            session,
            message,
        }),
        call matches Call::TopicSubscribe { session, topic } ==> call@ == (
        CallView::TopicSubscribe { session, topic: topic@ }),
        call matches Call::TopicUnsubscribe { session, topic } ==> call@ == (
        CallView::TopicUnsubscribe { session, topic: topic@ }),
        call matches Call::EndpointProvision { session, properties, flags } ==> call@ == (
        CallView::EndpointProvision { session, properties: properties@, flags }),
        call matches Call::EndpointDeprovision { session, properties, flags } ==> call@ == (
        CallView::EndpointDeprovision { session, properties: properties@, flags }),
        call matches Call::CreateFlow { session, flow, properties } ==> call@ == (
        CallView::CreateFlow { session, flow, properties: properties@ }),
        call matches Call::DestroyFlow { flow } ==> call@ == (CallView::DestroyFlow { flow }),
        call matches Call::SendRequest { session, message, timeout_ms } ==> call@ == (
        CallView::SendRequest { session, message, timeout_ms }),
        call matches Call::Disconnect { session } ==> call@ == (CallView::Disconnect { session }),
        call matches Call::DestroySession { session } ==> call@ == (CallView::DestroySession {
            session,
        }),
        call is LastErrorInfo <==> call@ is LastErrorInfo,
{
}

/// The contents of a reply are what the C client replied, value by value.
pub proof fn law_reply_contents(reply: Reply)
    ensures
        reply matches Reply::Capability(capable) ==> reply@ == ReplyView::Capability(capable),
        reply matches Reply::Code(code) ==> reply@ == ReplyView::Code(code),
        reply matches Reply::Flow { code, flow } ==> reply@ == (ReplyView::Flow { code, flow }),
        reply matches Reply::Message { code, message } ==> reply@ == (ReplyView::Message {
            code,
            message,
        }),
        reply matches Reply::Session { code, session } ==> reply@ == (ReplyView::Session {
            code,
            session,
        }),
        reply matches Reply::ErrorInfo(info) ==> reply@ == ReplyView::ErrorInfo(
            SubCodeView { subcode: info.subcode, error_string: info.error_string@ },
        ),
{
}

/// The parts of a reply are read as they stand in it.
pub proof fn law_reply_parts(reply: ReplyView)
    ensures
        reply matches ReplyView::Capability(capable) ==> reply.capability() == capable
            && reply.kind() is Capability,
        reply matches ReplyView::Code(code) ==> reply.code() == code && reply.kind() is Code,
        reply matches ReplyView::Flow { code, flow } ==> reply.code() == code && reply.flow()
            == flow && reply.kind() is Flow,
        reply matches ReplyView::Message { code, message } ==> reply.code() == code
            && reply.message() == message && reply.kind() is Message,
        reply matches ReplyView::Session { code, .. } ==> reply.code() == code
            && reply.kind() is Session,
        reply matches ReplyView::ErrorInfo(info) ==> reply.info() == info
            && reply.kind() is ErrorInfo,
        reply matches ReplyView::Message { code, message } ==> (reply.is_coherent() <==> (code == 0
            <==> message.0 != 0)),
        !(reply is Message) ==> reply.is_coherent(),
{
}

/// What shape a call is answered in: calls that write a flow, a message or a session over give it
/// back, the two questions give their answers, and all others give a return code alone.
pub proof fn law_answers(call: CallView)
    ensures
        call.reply_kind() is Capability <==> call is IsCapable,
        call.reply_kind() is Flow <==> call is CreateFlow || call is DestroyFlow,
        call.reply_kind() is Message <==> call is SendRequest,
        call.reply_kind() is Session <==> call is DestroySession,
        call.reply_kind() is ErrorInfo <==> call is LastErrorInfo,
        call.reply_kind() is Code <==> call is SendMsg || call is TopicSubscribe
            || call is TopicUnsubscribe || call is EndpointProvision || call is EndpointDeprovision
            || call is Disconnect,
{
}

} // verus!
