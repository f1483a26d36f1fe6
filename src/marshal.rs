use vstd::prelude::*;
use crate::result_type::{result_of_code, AprilResultType};
use crate::text::{decode_lossy, lossy_text};
use crate::token::{AprilToken, AprilTokenFlags, AprilTokens};

verus! {

/// One token as the engine hands it to a callback, copied out of the
/// engine's memory: the bytes of its nul-terminated text (without the nul),
/// the bit pattern of its log-probability, its flag bits and its time offset.
#[derive(Clone, Debug)]
pub struct RawToken {
    pub text: Vec<u8>,
    pub logprob_bits: u32,
    pub flags: u32,
    pub time_ms: usize,
}

/// `t` is the owned, typed copy of `raw`: text decoded leniently, every
/// other field kept verbatim, unknown flag bits included.
pub open spec fn marshaled_token(raw: RawToken, t: AprilToken) -> bool {
    &&& t.token@ == lossy_text(raw.text@)
    &&& t.logprob_bits == raw.logprob_bits
    &&& t.flag_bits.bits == raw.flags
    &&& t.time_ms == raw.time_ms
}

/// `ts` holds the typed copies of `raws`, one for one, in order.
pub open spec fn marshaled_tokens(raws: Seq<RawToken>, ts: Seq<AprilToken>) -> bool {
    &&& ts.len() == raws.len()
    &&& forall|i: int| 0 <= i < raws.len() ==> #[trigger] marshaled_token(raws[i], ts[i])
}

/// Copies one engine token into an owned token. Never fails: text that is
/// not valid UTF-8 is decoded leniently.
pub fn marshal_token(raw: &RawToken) -> (t: AprilToken)
    ensures
        marshaled_token(*raw, t),
{
    let text = decode_lossy(raw.text.as_slice());
    AprilToken::new(text, raw.logprob_bits, AprilTokenFlags::from_bits_retain(raw.flags), raw.time_ms)
}

/// Copies the engine's token array; an absent array (a null pointer) gives
/// no tokens.
pub fn marshal_tokens(raws: Option<&[RawToken]>) -> (r: AprilTokens)
    ensures
        match raws {
            None => r.0@.len() == 0,
            Some(raws) => marshaled_tokens(raws@, r.0@),
        },
{
    let mut out: Vec<AprilToken> = Vec::new();
    match raws {
        None => {},
        Some(raws) => {
            let mut i: usize = 0;
            while i < raws.len()
                invariant
                    i <= raws@.len(),
                    marshaled_tokens(raws@.take(i as int), out@),
                decreases raws@.len() - i,
            {
                let t = marshal_token(&raws[i]);
                out.push(t);
                i = i + 1;
                assert(forall|j: int| 0 <= j < i ==> raws@.take(i as int)[j] == raws@[j]);
                assert(forall|j: int| 0 <= j < i - 1 ==> raws@.take(i as int - 1)[j] == raws@[j]);
            }
            assert(raws@.take(i as int) =~= raws@);
        },
    }
    AprilTokens(out)
}

/// The typed arguments of one engine callback: the result type that the
/// native code stands for, and the copied tokens.
pub fn marshal_callback(result_code: u32, raws: Option<&[RawToken]>) -> (r: (AprilResultType, AprilTokens))
    ensures
        r.0 == result_of_code(result_code),
        match raws {
            None => r.1.0@.len() == 0,
            Some(raws) => marshaled_tokens(raws@, r.1.0@),
        },
{
    (AprilResultType::from_code(result_code), marshal_tokens(raws))
}

} // verus!
