use vstd::prelude::*;
use vstd::string::StringExecFns;

verus! {

/// The flag bits of a token. Bits this binding does not name are kept;
/// every pattern of bits is a valid value.
#[derive(Copy, Clone, Debug, PartialEq, Eq, Structural)]
pub struct AprilTokenFlags {
    pub bits: u32,
}

/// No flag set.
pub const EMPTY_BITS: u32 = 0x0;

/// The token marks the start of a new word; in English, the token starts
/// with a space.
pub const WORD_BOUNDARY_BITS: u32 = 0x1;

/// The token ends a sentence: it is ".", "!" or "?". Some models lack it.
pub const SENTENCE_END_BITS: u32 = 0x2;

impl AprilTokenFlags {
    /// No flag set.
    pub fn empty() -> (r: AprilTokenFlags)
        ensures
            r.bits == EMPTY_BITS,
    {
        AprilTokenFlags { bits: EMPTY_BITS }
    }

    /// The start of a new word.
    pub fn word_boundary() -> (r: AprilTokenFlags)
        ensures
            r.bits == WORD_BOUNDARY_BITS,
    {
        AprilTokenFlags { bits: WORD_BOUNDARY_BITS }
    }

    /// The end of a sentence.
    pub fn sentence_end() -> (r: AprilTokenFlags)
        ensures
            r.bits == SENTENCE_END_BITS,
    {
        AprilTokenFlags { bits: SENTENCE_END_BITS }
    }

    /// Flags with exactly these bits, named or not.
    pub fn from_bits_retain(bits: u32) -> (r: AprilTokenFlags)
        ensures
            r.bits == bits,
    {
        AprilTokenFlags { bits }
    }

    /// The raw bits.
    pub fn bits(&self) -> (r: u32)
        ensures
            r == self.bits,
    {
        self.bits
    }

    /// The flags set in either operand.
    pub fn union(self, other: AprilTokenFlags) -> (r: AprilTokenFlags)
        ensures
            r.bits == self.bits | other.bits,
    {
        AprilTokenFlags { bits: self.bits | other.bits }
    }

    /// Whether every flag of `other` is set here.
    pub open spec fn has(self, other: AprilTokenFlags) -> bool {
        self.bits & other.bits == other.bits
    }

    /// Whether every flag of `other` is set here.
    pub fn contains(&self, other: AprilTokenFlags) -> (r: bool)
        ensures
            r == self.has(other),
    {
        self.bits & other.bits == other.bits
    }

    /// Whether no flag is set.
    pub fn is_empty(&self) -> (r: bool)
        ensures
            r == (self.bits == 0),
    {
        self.bits == 0
    }
}

/// Flags made of word boundary and sentence end report both flags set, and
/// no other bit.
pub proof fn lemma_flags_round_trip(word: AprilTokenFlags, sentence: AprilTokenFlags, f: AprilTokenFlags)
    requires
        word.bits == WORD_BOUNDARY_BITS,
        sentence.bits == SENTENCE_END_BITS,
        f.bits == word.bits | sentence.bits,
    ensures
        f.has(word),
        f.has(sentence),
        f.bits & !(word.bits | sentence.bits) == 0,
        f.bits == 3,
{
    assert((1u32 | 2u32) & 1u32 == 1u32) by (bit_vector);
    assert((1u32 | 2u32) & 2u32 == 2u32) by (bit_vector);
    assert((1u32 | 2u32) & !(1u32 | 2u32) == 0u32) by (bit_vector);
    assert((1u32 | 2u32) == 3u32) by (bit_vector);
}

/// One recognised token, an owned copy of what the engine reported.
#[derive(Clone, Debug)]
pub struct AprilToken {
    /// The token's text.
    pub token: String,
    /// The log-probability, as the bit pattern of a 32-bit float.
    pub logprob_bits: u32,
    /// The token's flags.
    pub flag_bits: AprilTokenFlags,
    /// The time offset of the token, in milliseconds.
    pub time_ms: usize,
}

impl AprilToken {
    /// A token from its parts, kept as given.
    pub fn new(token: String, logprob_bits: u32, flag_bits: AprilTokenFlags, time_ms: usize) -> (r: AprilToken)
        ensures
            r.token@ == token@,
            r.logprob_bits == logprob_bits,
            r.flag_bits == flag_bits,
            r.time_ms == time_ms,
    {
        AprilToken { token, logprob_bits, flag_bits, time_ms }
    }
}

/// The tokens of one callback, in the engine's order.
#[derive(Clone, Debug)]
pub struct AprilTokens(pub Vec<AprilToken>);

/// The text of tokens, one after the other.
pub open spec fn concat_text(tokens: Seq<AprilToken>) -> Seq<char>
    decreases tokens.len(),
{
    if tokens.len() == 0 {
        Seq::empty()
    } else {
        concat_text(tokens.drop_last()) + tokens.last().token@
    }
}

impl AprilTokens {
    /// The text of all tokens, one after the other.
    pub fn text(&self) -> (r: String)
        ensures
            r@ == concat_text(self.0@),
    {
        let mut s = String::new();
        let mut i: usize = 0;
        while i < self.0.len()
            invariant
                i <= self.0@.len(),
                s@ == concat_text(self.0@.take(i as int)),
            decreases self.0@.len() - i,
        {
            s.append(self.0[i].token.as_str());
            assert(self.0@.take(i as int + 1).drop_last() =~= self.0@.take(i as int));
            i = i + 1;
        }
        assert(self.0@.take(i as int) =~= self.0@);
        s
    }
}

} // verus!
