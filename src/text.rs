use vstd::prelude::*;

verus! {

/// What strict UTF-8 decoding gives for some bytes: the text, or the length
/// of the longest valid prefix together with the length of the invalid
/// sequence after it (`None` where the input ends inside a sequence).
pub uninterp spec fn utf8_decoded(b: Seq<u8>) -> core::result::Result<Seq<char>, (nat, Option<nat>)>;

/// What lossy UTF-8 decoding gives for some bytes.
pub uninterp spec fn lossy_text(b: Seq<u8>) -> Seq<char>;

/// Relies on std::str::from_utf8: the text, borrowed from the bytes, when
/// they are valid UTF-8; else the error's `valid_up_to`, the length of the
/// longest valid prefix, and its `error_len`.
#[verifier::external_body]
pub(crate) fn decode_utf8<'a>(b: &'a [u8]) -> (r: core::result::Result<&'a str, (usize, Option<usize>)>)
    ensures
        r is Ok <==> utf8_decoded(b@) is Ok,
        r is Ok ==> utf8_decoded(b@)->Ok_0 == r->Ok_0@,
        r is Err ==> utf8_decoded(b@)->Err_0.0 == r->Err_0.0 as nat && r->Err_0.0 < b@.len(),
        r is Err ==> utf8_decoded(b@)->Err_0.1 == (match r->Err_0.1 {
            Some(k) => Some(k as nat),
            None => None,
        }),
        b@.len() == 0 ==> r is Ok && r->Ok_0@.len() == 0,
{
    match std::str::from_utf8(b) {
        Ok(s) => Ok(s),
        Err(e) => Err((e.valid_up_to(), e.error_len().map(|k| k as usize))),
    }
}

/// Relies on String::from_utf8_lossy: invalid sequences become U+FFFD, and
/// valid UTF-8 comes back as the same text.
#[verifier::external_body]
pub(crate) fn decode_lossy(b: &[u8]) -> (r: String)
    ensures
        r@ == lossy_text(b@),
        utf8_decoded(b@) is Ok ==> r@ == utf8_decoded(b@)->Ok_0,
        b@.len() == 0 ==> r@.len() == 0,
{
    String::from_utf8_lossy(b).into_owned()
}

} // verus!
