//! What can go wrong with a session.
use vstd::prelude::*;

use crate::ctext::{NulError, NulErrorView};
use crate::return_code::SolClientReturnCode;

verus! {

/// What the C client says of the last call that failed.
#[derive(Debug)]
pub struct SolClientSubCode {
    /// The number of the failure.
    pub subcode: u32,
    /// The failure in words.
    pub error_string: String,
}

/// The contents of a [`SolClientSubCode`].
#[verifier::ext_equal]
pub struct SubCodeView {
    /// The number of the failure.
    pub subcode: u32,
    /// The failure in words.
    pub error_string: Seq<char>,
}

impl View for SolClientSubCode {
    type V = SubCodeView;

    open spec fn view(&self) -> SubCodeView {
        SubCodeView { subcode: self.subcode, error_string: self.error_string@ }
    }
}

/// How an operation on a session fails.
#[derive(Debug)]
pub enum SessionError {
    /// A topic or a queue name holds a nul.
    InvalidText(NulError),
    /// A message was not sent.
    PublishError(SolClientReturnCode, SolClientSubCode),
    /// The named topic or queue was not subscribed to.
    SubscriptionFailure(String, SolClientReturnCode, SolClientSubCode),
    /// The named topic or queue was not unsubscribed from.
    UnsubscriptionFailure(String, SolClientReturnCode, SolClientSubCode),
    /// Queues cannot be managed over this session.
    QueueSubscriptionFailure(String),
    /// A request got no reply.
    RequestError(SolClientReturnCode, SolClientSubCode),
    /// The session was not disconnected.
    DisconnectError(SolClientReturnCode, SolClientSubCode),
}

/// The contents of a [`SessionError`].
#[verifier::ext_equal]
pub enum SessionErrorView {
    /// A topic or a queue name holds a nul.
    InvalidText(NulErrorView),
    /// A message was not sent.
    PublishError(SolClientReturnCode, SubCodeView),
    /// The named topic or queue was not subscribed to.
    SubscriptionFailure(Seq<char>, SolClientReturnCode, SubCodeView),
    /// The named topic or queue was not unsubscribed from.
    UnsubscriptionFailure(Seq<char>, SolClientReturnCode, SubCodeView),
    /// Queues cannot be managed over this session.
    QueueSubscriptionFailure(Seq<char>),
    /// A request got no reply.
    RequestError(SolClientReturnCode, SubCodeView),
    /// The session was not disconnected.
    DisconnectError(SolClientReturnCode, SubCodeView),
}

impl View for SessionError {
    type V = SessionErrorView;

    open spec fn view(&self) -> SessionErrorView {
        match self {
            SessionError::InvalidText(error) => SessionErrorView::InvalidText(error@),
            SessionError::PublishError(code, info) => SessionErrorView::PublishError(*code, info@),
            SessionError::SubscriptionFailure(name, code, info) => {
                SessionErrorView::SubscriptionFailure(name@, *code, info@)
            },
            SessionError::UnsubscriptionFailure(name, code, info) => {
                SessionErrorView::UnsubscriptionFailure(name@, *code, info@)
            },
            SessionError::QueueSubscriptionFailure(reason) => {
                SessionErrorView::QueueSubscriptionFailure(reason@)
            },
            SessionError::RequestError(code, info) => SessionErrorView::RequestError(*code, info@),
            SessionError::DisconnectError(code, info) => {
                SessionErrorView::DisconnectError(*code, info@)
            },
        }
    }
}

/// The contents of an error are its own, part by part.
pub proof fn law_error_contents(error: SessionError)
    ensures
        error matches SessionError::InvalidText(nul) ==> error@ == SessionErrorView::InvalidText(
            nul@,
        ),
        error matches SessionError::PublishError(code, info) ==> error@
            == SessionErrorView::PublishError(code, info@),
        error matches SessionError::SubscriptionFailure(name, code, info) ==> error@
            == SessionErrorView::SubscriptionFailure(name@, code, info@),
        error matches SessionError::UnsubscriptionFailure(name, code, info) ==> error@
            == SessionErrorView::UnsubscriptionFailure(name@, code, info@),
        error matches SessionError::QueueSubscriptionFailure(reason) ==> error@
            == SessionErrorView::QueueSubscriptionFailure(reason@),
        error matches SessionError::RequestError(code, info) ==> error@
            == SessionErrorView::RequestError(code, info@),
        error matches SessionError::DisconnectError(code, info) ==> error@
            == SessionErrorView::DisconnectError(code, info@),
{
}

/// The contents of the details of a failure are their own.
pub proof fn law_details_contents(info: SolClientSubCode)
    ensures
        info@.subcode == info.subcode,
        info@.error_string == info.error_string@,
{
}

} // verus!
