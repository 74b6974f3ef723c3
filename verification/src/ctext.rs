//! Text for the C client: bytes without a nul, which a C string could not hold.
use vstd::prelude::*;
use vstd::utf8::{
    decode_utf8, encode_utf8, encode_utf8_decode_utf8, encode_utf8_valid_utf8, valid_utf8,
};

verus! {

/// Bytes that cannot become a C string, with the place of the first nul among them.
#[derive(Debug)]
pub struct NulError {
    position: usize,
    bytes: Vec<u8>,
}

/// What a [`NulError`] says.
#[verifier::ext_equal]
pub struct NulErrorView {
    /// Where the first nul stands.
    pub position: int,
    /// The rejected bytes.
    pub bytes: Seq<u8>,
}

impl View for NulError {
    type V = NulErrorView;

    closed spec fn view(&self) -> NulErrorView {
        NulErrorView { position: self.position as int, bytes: self.bytes@ }
    }
}

/// Whether a C string can hold `bytes`.
pub open spec fn is_nul_free(bytes: Seq<u8>) -> bool {
    forall|i: int| 0 <= i < bytes.len() ==> bytes[i] != 0
}

/// Whether the first nul in `bytes` stands at `position`.
pub open spec fn first_nul_at(bytes: Seq<u8>, position: int) -> bool {
    &&& 0 <= position < bytes.len()
    &&& bytes[position] == 0
    &&& is_nul_free(bytes.take(position))
}

/// Where the first nul in `bytes` stands, if there is one.
pub open spec fn first_nul(bytes: Seq<u8>) -> int {
    choose|position: int| first_nul_at(bytes, position)
}

/// The bytes that encode `text`.
pub open spec fn bytes_of(text: &str) -> Seq<u8> {
    encode_utf8(text@)
}

/// The text that bytes stand for when each stretch that is no UTF-8 is shown as U+FFFD.
pub uninterp spec fn lossy_text(bytes: Seq<u8>) -> Seq<char>;

/// `String::from_utf8_lossy`: bytes as text, with U+FFFD wherever they are no UTF-8.  The result
/// depends on the bytes alone, and bytes that are UTF-8 throughout are decoded as they stand.
/// How invalid stretches are cut up is left unsaid.
#[verifier::external_body]
fn string_from_utf8_lossy(bytes: &[u8]) -> (text: String)
    ensures
        text@ == lossy_text(bytes@),
        valid_utf8(bytes@) ==> text@ == decode_utf8(bytes@),
{
    String::from_utf8_lossy(bytes).into_owned()
}

impl NulError {
    /// Where the first nul stands.
    pub fn nul_position(&self) -> (position: usize)
        ensures
            position == self@.position,
    {
        self.position
    }

    /// Hands the rejected bytes back.
    pub fn into_vec(self) -> (bytes: Vec<u8>)
        ensures
            bytes@ == self@.bytes,
    {
        self.bytes
    }
}

/// Bytes that a C string can hold.
#[derive(Debug)]
pub struct CText {
    bytes: Vec<u8>,
}

impl View for CText {
    type V = Seq<u8>;

    closed spec fn view(&self) -> Seq<u8> {
        self.bytes@
    }
}

impl CText {
    /// What every such text keeps.
    #[verifier::type_invariant]
    pub open spec fn holds_no_nul(self) -> bool {
        is_nul_free(self@)
    }

    /// Takes bytes for the C client, unless a nul is among them.
    pub fn new(bytes: Vec<u8>) -> (result: Result<CText, NulError>)
        ensures
            result is Ok <==> is_nul_free(bytes@),
            result is Ok <==> !bytes@.contains(0u8),
            result matches Ok(text) ==> text@ == bytes@,
            result matches Err(error) ==> error@ == (NulErrorView {
                position: first_nul(bytes@),
                bytes: bytes@,
            }) && first_nul_at(bytes@, first_nul(bytes@)),
            result matches Err(error) ==> 0 <= error@.position < bytes@.len()
                && bytes@[error@.position] == 0 && error@.bytes == bytes@ && forall|i: int|
                0 <= i < error@.position ==> bytes@[i] != 0,
    {
        proof {
            law_nul_free_is_without_zero(bytes@);
        }
        let mut i: usize = 0;
        while i < bytes.len()
            invariant
                i <= bytes.len(),
                is_nul_free(bytes@.take(i as int)),
            decreases bytes.len() - i,
        {
            if bytes[i] == 0 {
                proof {
                    assert(first_nul_at(bytes@, i as int));
                    lemma_first_nul(bytes@, i as int);
                    law_first_nul(bytes@);
                }
                return Err(NulError { position: i, bytes });
            }
            assert(bytes@.take(i + 1) =~= bytes@.take(i as int).push(bytes@[i as int]));
            i += 1;
        }
        assert(bytes@.take(i as int) =~= bytes@);
        Ok(CText { bytes })
    }

    /// Takes a text that is known to hold no nul.
    pub(crate) fn from_text(text: &str) -> (result: CText)
        requires
            is_nul_free(bytes_of(text)),
        ensures
            result@ == bytes_of(text),
    {
        CText { bytes: vstd::slice::slice_to_vec(text.as_bytes()) }
    }

    /// Another copy of the same bytes.
    pub(crate) fn duplicate(&self) -> (copy: CText)
        ensures
            copy@ == self@,
    {
        proof {
            use_type_invariant(self);
        }
        CText { bytes: vstd::slice::slice_to_vec(self.bytes.as_slice()) }
    }

    /// The bytes, none of which is a nul.
    pub fn as_bytes(&self) -> (bytes: &[u8])
        ensures
            bytes@ == self@,
            is_nul_free(bytes@),
    {
        proof {
            use_type_invariant(self);
        }
        self.bytes.as_slice()
    }

    /// The bytes as text, with U+FFFD wherever they are no UTF-8.
    pub fn to_string_lossy(&self) -> (text: String)
        ensures
            text@ == lossy_text(self@),
            valid_utf8(self@) ==> text@ == decode_utf8(self@),
    {
        string_from_utf8_lossy(self.bytes.as_slice())
    }
}

/// There is at most one first nul.
proof fn lemma_first_nul(bytes: Seq<u8>, position: int)
    requires
        first_nul_at(bytes, position),
    ensures
        first_nul(bytes) == position,
{
    let other = first_nul(bytes);
    assert(first_nul_at(bytes, other));
    if other < position {
        assert(bytes.take(position)[other] != 0);
    }
    if position < other {
        assert(bytes.take(other)[position] != 0);
    }
}

/// C can hold just the bytes among which there is no zero.
pub proof fn law_nul_free_is_without_zero(bytes: Seq<u8>)
    ensures
        is_nul_free(bytes) <==> !bytes.contains(0u8),
{
    if !is_nul_free(bytes) {
        let i = choose|i: int| 0 <= i < bytes.len() && bytes[i] == 0;
        assert(bytes[i] == 0u8);
    }
}

/// The first nul is a zero byte with none before it, and there is one wherever there is a zero.
pub proof fn law_first_nul(bytes: Seq<u8>)
    requires
        bytes.contains(0u8),
    ensures
        0 <= first_nul(bytes) < bytes.len(),
        bytes[first_nul(bytes)] == 0,
        forall|i: int| 0 <= i < first_nul(bytes) ==> bytes[i] != 0,
{
    let some = choose|i: int| 0 <= i < bytes.len() && bytes[i] == 0u8;
    lemma_has_first_nul(bytes, some);
    let position = first_nul(bytes);
    assert(first_nul_at(bytes, position));
    assert forall|i: int| 0 <= i < position implies bytes[i] != 0 by {
        assert(bytes.take(position)[i] == bytes[i]);
    }
}

/// Where there is a nul, there is a first one.
proof fn lemma_has_first_nul(bytes: Seq<u8>, some: int)
    requires
        0 <= some < bytes.len(),
        bytes[some] == 0,
    ensures
        exists|position: int| first_nul_at(bytes, position),
    decreases some,
{
    if is_nul_free(bytes.take(some)) {
        assert(first_nul_at(bytes, some));
    } else {
        let earlier = choose|i: int| 0 <= i < some && bytes.take(some)[i] == 0;
        lemma_has_first_nul(bytes, earlier);
    }
}

/// The bytes of a text are its encoding in UTF-8, so that decoding them gives the text.
pub proof fn law_bytes_of(text: &str)
    ensures
        valid_utf8(bytes_of(text)),
        decode_utf8(bytes_of(text)) == text@,
{
    encode_utf8_valid_utf8(text@);
    encode_utf8_decode_utf8(text@);
}

} // verus!
