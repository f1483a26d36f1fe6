use vstd::prelude::*;
use vstd::string::StringExecFns;
use crate::decimal::{decimal, push_decimal};

verus! {

/// What a recognition callback reports.
#[derive(Copy, Clone, Debug, PartialEq, Eq, Structural)]
pub enum AprilResultType {
    Unknown,
    /// The result is only partial; a later call will hold much of the same
    /// text, updated.
    RecognitionPartial,
    /// The result is final; later calls start from empty and hold none of
    /// this text.
    RecognitionFinal,
    /// In a background mode, the internal audio buffer is full and processing
    /// cannot keep up. The token sequence is empty.
    ErrorCantKeepUp,
    /// There has been some silence. Not reported repeatedly. The token
    /// sequence is empty.
    Silence,
    /// A result code this binding does not know, kept verbatim.
    Other(u32),
}

/// The result type that a native result code stands for.
pub open spec fn result_of_code(code: u32) -> AprilResultType {
    if code == 0 {
        AprilResultType::Unknown
    } else if code == 1 {
        AprilResultType::RecognitionPartial
    } else if code == 2 {
        AprilResultType::RecognitionFinal
    } else if code == 3 {
        AprilResultType::ErrorCantKeepUp
    } else if code == 4 {
        AprilResultType::Silence
    } else {
        AprilResultType::Other(code)
    }
}

impl AprilResultType {
    /// The native result code of this result type.
    pub open spec fn spec_code(self) -> u32 {
        match self {
            AprilResultType::Unknown => 0,
            AprilResultType::RecognitionPartial => 1,
            AprilResultType::RecognitionFinal => 2,
            AprilResultType::ErrorCantKeepUp => 3,
            AprilResultType::Silence => 4,
            AprilResultType::Other(n) => n,
        }
    }

    /// The human-readable description of this result type.
    pub open spec fn spec_describe(self) -> Seq<char> {
        match self {
            AprilResultType::Unknown => "unknown"@,
            AprilResultType::RecognitionPartial => "partially completed"@,
            AprilResultType::RecognitionFinal => "final result"@,
            AprilResultType::ErrorCantKeepUp => "can't keep up"@,
            AprilResultType::Silence => "silence"@,
            AprilResultType::Other(n) => "other result "@ + decimal(n as nat),
        }
    }

    /// Maps a native result code; unknown codes become `Other` with the code kept.
    pub fn from_code(code: u32) -> (r: AprilResultType)
        ensures
            r == result_of_code(code),
    {
        match code {
            0 => AprilResultType::Unknown,
            1 => AprilResultType::RecognitionPartial,
            2 => AprilResultType::RecognitionFinal,
            3 => AprilResultType::ErrorCantKeepUp,
            4 => AprilResultType::Silence,
            n => AprilResultType::Other(n),
        }
    }

    /// The native result code; `Other(n)` gives `n` back.
    pub fn code(&self) -> (r: u32)
        ensures
            r == self.spec_code(),
    {
        match self {
            AprilResultType::Unknown => 0,
            AprilResultType::RecognitionPartial => 1,
            AprilResultType::RecognitionFinal => 2,
            AprilResultType::ErrorCantKeepUp => 3,
            AprilResultType::Silence => 4,
            AprilResultType::Other(n) => *n,
        }
    }

    /// A human-readable description, such as "final result" or "other result 7".
    pub fn describe(&self) -> (r: String)
        ensures
            r@ == self.spec_describe(),
    {
        match self {
            AprilResultType::Unknown => String::from_str("unknown"),
            AprilResultType::RecognitionPartial => String::from_str("partially completed"),
            AprilResultType::RecognitionFinal => String::from_str("final result"),
            AprilResultType::ErrorCantKeepUp => String::from_str("can't keep up"),
            AprilResultType::Silence => String::from_str("silence"),
            AprilResultType::Other(n) => {
                let mut s = String::from_str("other result ");
                push_decimal(&mut s, *n as u64);
                s
            },
        }
    }
}

impl From<u32> for AprilResultType {
    fn from(code: u32) -> (r: AprilResultType) {
        AprilResultType::from_code(code)
    }
}

impl vstd::std_specs::convert::FromSpecImpl<u32> for AprilResultType {
    open spec fn obeys_from_spec() -> bool {
        true
    }

    open spec fn from_spec(code: u32) -> AprilResultType {
        result_of_code(code)
    }
}

/// Every code outside the known ones maps to `Other` with that very code.
pub proof fn lemma_unknown_code_kept(n: u32)
    requires
        n > 4,
    ensures
        result_of_code(n) == AprilResultType::Other(n),
        result_of_code(n).spec_code() == n,
{
}

/// Mapping a code and reading the code back gives the code it started from,
/// and reading a result type's code and mapping it gives the same result type
/// for every result type that `Other` does not use to hold a known code.
pub proof fn lemma_code_round_trip(code: u32, r: AprilResultType)
    ensures
        result_of_code(code).spec_code() == code,
        (r matches AprilResultType::Other(n) ==> n > 4) ==> result_of_code(r.spec_code()) == r,
{
}

} // verus!
