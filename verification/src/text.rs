use vstd::prelude::*;
use vstd::utf8::*;

verus! {

/// Whether a byte is ASCII white space: a blank, or one of the five control
/// characters from horizontal tab to carriage return.
pub open spec fn spec_is_space(byte: u8) -> bool {
    byte == 0x20 || (0x09 <= byte && byte <= 0x0d)
}

/// How many bytes are left of `bytes` once the white space at its end is gone.
pub open spec fn spec_trimmed_len(bytes: Seq<u8>) -> nat
    decreases bytes.len(),
{
    if bytes.len() > 0 && spec_is_space(bytes.last()) {
        spec_trimmed_len(bytes.drop_last())
    } else {
        bytes.len()
    }
}

/// `bytes` without the white space at its end.
pub open spec fn spec_trim_end(bytes: Seq<u8>) -> Seq<u8> {
    bytes.take(spec_trimmed_len(bytes) as int)
}

/// What the trimmed length is: the one cut after which everything is white
/// space and before which the last byte, if there is one, is not.
pub proof fn lemma_trimmed_len(bytes: Seq<u8>)
    ensures
        spec_trimmed_len(bytes) <= bytes.len(),
        forall|i: int| spec_trimmed_len(bytes) <= i < bytes.len() ==> spec_is_space(#[trigger] bytes[i]),
        spec_trimmed_len(bytes) > 0 ==> !spec_is_space(bytes[spec_trimmed_len(bytes) - 1]),
    decreases bytes.len(),
{
    if bytes.len() > 0 && spec_is_space(bytes.last()) {
        let front = bytes.drop_last();
        lemma_trimmed_len(front);
        assert forall|i: int| spec_trimmed_len(bytes) <= i < bytes.len() implies spec_is_space(
            #[trigger] bytes[i],
        ) by {
            if i < front.len() {
                assert(front[i] == bytes[i]);
            }
        }
    }
}

/// A cut with the two properties of the trimmed length is the trimmed length.
pub proof fn lemma_trimmed_len_unique(bytes: Seq<u8>, cut: int)
    requires
        0 <= cut <= bytes.len(),
        forall|i: int| cut <= i < bytes.len() ==> spec_is_space(#[trigger] bytes[i]),
        cut > 0 ==> !spec_is_space(bytes[cut - 1]),
    ensures
        spec_trimmed_len(bytes) == cut,
    decreases bytes.len(),
{
    if bytes.len() > 0 && spec_is_space(bytes.last()) {
        let front = bytes.drop_last();
        assert forall|i: int| cut <= i < front.len() implies spec_is_space(#[trigger] front[i]) by {
            assert(front[i] == bytes[i]);
        }
        lemma_trimmed_len_unique(front, cut);
    }
}

/// Trimming what is already trimmed changes nothing.
pub proof fn lemma_trim_end_idempotent(bytes: Seq<u8>)
    ensures
        spec_trim_end(spec_trim_end(bytes)) == spec_trim_end(bytes),
{
    lemma_trimmed_len(bytes);
    let cut = spec_trimmed_len(bytes) as int;
    lemma_trimmed_len_unique(spec_trim_end(bytes), cut);
    assert(spec_trim_end(bytes).take(cut) =~= spec_trim_end(bytes));
}

/// Whether a byte is ASCII white space.
pub fn is_space(byte: u8) -> (space: bool)
    ensures
        space == spec_is_space(byte),
{
    byte == 0x20 || (0x09 <= byte && byte <= 0x0d)
}

/// A copy of `bytes` without the white space at its end.
pub fn trim_end(bytes: &[u8]) -> (trimmed: Vec<u8>)
    ensures
        trimmed@ == spec_trim_end(bytes@),
{
    let mut cut: usize = bytes.len();
    while cut > 0 && is_space(bytes[cut - 1])
        invariant
            cut <= bytes.len(),
            forall|i: int| cut <= i < bytes.len() ==> spec_is_space(#[trigger] bytes@[i]),
        decreases cut,
    {
        cut = cut - 1;
    }
    proof {
        lemma_trimmed_len_unique(bytes@, cut as int);
    }
    let mut trimmed: Vec<u8> = Vec::new();
    let mut at: usize = 0;
    while at < cut
        invariant
            at <= cut <= bytes.len(),
            trimmed@ == bytes@.take(at as int),
        decreases cut - at,
    {
        trimmed.push(bytes[at]);
        at = at + 1;
        assert(trimmed@ =~= bytes@.take(at as int));
    }
    trimmed
}

/// Calls `String::from_utf8` of std, which hands back the text that the bytes
/// encode where they are valid UTF-8, and an error where they are not. The
/// error is kept as its own description.
#[verifier::external_body]
pub(crate) fn utf8_text(bytes: Vec<u8>) -> (text: Result<String, String>)
    ensures
        text is Ok <==> valid_utf8(bytes@),
        text matches Ok(s) ==> s@ == decode_utf8(bytes@),
{
    String::from_utf8(bytes).map_err(|e| e.to_string())
}

} // verus!
