//! Return codes of the C client.
use vstd::prelude::*;

verus! {

/// What a call into the C client returned.
#[derive(Clone, Copy, Debug, PartialEq, Eq, Structural)]
pub enum SolClientReturnCode {
    /// The call succeeded.
    Success,
    /// The call would block, and non-blocking was asked for.
    WouldBlock,
    /// The call is still in progress.
    InProgress,
    /// The object is not ready for the call.
    NotReady,
    /// There is no more data.
    EndOfStream,
    /// What was asked for is not there.
    NotFound,
    /// The context has no event to process.
    NoEvent,
    /// The call did some of its work, not all of it.
    Incomplete,
    /// The transaction was rolled back.
    Rollback,
    /// The call failed.
    Fail,
    /// A number that the C client does not document.
    Other(i32),
}

/// The number by which the C client writes `code`.
pub open spec fn raw_of(code: SolClientReturnCode) -> i32 {
    match code {
        SolClientReturnCode::Success => 0,
        SolClientReturnCode::WouldBlock => 1,
        SolClientReturnCode::InProgress => 2,
        SolClientReturnCode::NotReady => 3,
        SolClientReturnCode::EndOfStream => 4,
        SolClientReturnCode::NotFound => 5,
        SolClientReturnCode::NoEvent => 6,
        SolClientReturnCode::Incomplete => 7,
        SolClientReturnCode::Rollback => 8,
        SolClientReturnCode::Fail => (-1) as i32,
        SolClientReturnCode::Other(raw) => raw,
    }
}

/// Whether `raw` is one of the numbers that the C client documents.
pub open spec fn is_documented(raw: i32) -> bool {
    -1 <= raw <= 8
}

/// The code that the C client writes as `raw`.
pub open spec fn code_of(raw: i32) -> SolClientReturnCode {
    match raw {
        0 => SolClientReturnCode::Success,
        1 => SolClientReturnCode::WouldBlock,
        2 => SolClientReturnCode::InProgress,
        3 => SolClientReturnCode::NotReady,
        4 => SolClientReturnCode::EndOfStream,
        5 => SolClientReturnCode::NotFound,
        6 => SolClientReturnCode::NoEvent,
        7 => SolClientReturnCode::Incomplete,
        8 => SolClientReturnCode::Rollback,
        -1 => SolClientReturnCode::Fail,
        _ => SolClientReturnCode::Other(raw),
    }
}

impl SolClientReturnCode {
    /// Reads a number returned by the C client.
    pub fn from_raw(raw: i32) -> (code: Self)
        ensures
            code == code_of(raw),
    {
        match raw {
            0 => SolClientReturnCode::Success,
            1 => SolClientReturnCode::WouldBlock,
            2 => SolClientReturnCode::InProgress,
            3 => SolClientReturnCode::NotReady,
            4 => SolClientReturnCode::EndOfStream,
            5 => SolClientReturnCode::NotFound,
            6 => SolClientReturnCode::NoEvent,
            7 => SolClientReturnCode::Incomplete,
            8 => SolClientReturnCode::Rollback,
            -1 => SolClientReturnCode::Fail,
            _ => SolClientReturnCode::Other(raw),
        }
    }

    /// The number behind the code.
    pub fn to_raw(&self) -> (raw: i32)
        ensures
            raw == raw_of(*self),
    {
        match self {
            SolClientReturnCode::Success => 0,
            SolClientReturnCode::WouldBlock => 1,
            SolClientReturnCode::InProgress => 2,
            SolClientReturnCode::NotReady => 3,
            SolClientReturnCode::EndOfStream => 4,
            SolClientReturnCode::NotFound => 5,
            SolClientReturnCode::NoEvent => 6,
            SolClientReturnCode::Incomplete => 7,
            SolClientReturnCode::Rollback => 8,
            SolClientReturnCode::Fail => -1,
            SolClientReturnCode::Other(raw) => *raw,
        }
    }

    /// Whether the call succeeded.
    pub fn is_ok(&self) -> (ok: bool)
        ensures
            ok == (*self == SolClientReturnCode::Success),
    {
        *self == SolClientReturnCode::Success
    }
}

/// No return code is lost: the number behind the code that was read from a number is that number.
pub proof fn law_raw_round_trip(raw: i32)
    ensures
        raw_of(code_of(raw)) == raw,
        code_of(raw) is Other <==> !is_documented(raw),
{
}

/// Zero is the one number that reads as success.
pub proof fn law_only_zero_is_ok(raw: i32)
    ensures
        code_of(raw) == SolClientReturnCode::Success <==> raw == 0,
{
}

/// Every number reads as the code that the C client documents it as, and as no other; a number
/// that it does not document is kept as it is.
pub proof fn law_documented_codes(raw: i32)
    ensures
        code_of(raw) is Success <==> raw == 0,
        code_of(raw) is WouldBlock <==> raw == 1,
        code_of(raw) is InProgress <==> raw == 2,
        code_of(raw) is NotReady <==> raw == 3,
        code_of(raw) is EndOfStream <==> raw == 4,
        code_of(raw) is NotFound <==> raw == 5,
        code_of(raw) is NoEvent <==> raw == 6,
        code_of(raw) is Incomplete <==> raw == 7,
        code_of(raw) is Rollback <==> raw == 8,
        code_of(raw) is Fail <==> raw == -1,
        raw < -1 || raw > 8 ==> code_of(raw) == SolClientReturnCode::Other(raw),
        raw_of(SolClientReturnCode::Other(raw)) == raw,
{
}

/// Different numbers read as different codes.
pub proof fn law_codes_are_distinct(raw1: i32, raw2: i32)
    requires
        raw1 != raw2,
    ensures
        code_of(raw1) != code_of(raw2),
{
    law_raw_round_trip(raw1);
    law_raw_round_trip(raw2);
}

} // verus!
