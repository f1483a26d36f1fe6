use vstd::prelude::*;
use vstd::string::StringExecFns;
use crate::decimal::{decimal, push_decimal};

verus! {

/// Why an operation of this binding failed.
#[derive(Clone, Debug)]
pub enum Error {
    /// A path could not be encoded as a nul-terminated string: `bytes`, the
    /// path as given, holds a nul byte at `position`.
    CString { position: usize, bytes: Vec<u8> },
    /// The engine returned a null pointer.
    NullPtr,
    /// A string from the engine is not valid UTF-8. The bytes before
    /// `valid_up_to` are; `error_len` is the length of the invalid sequence
    /// that starts there, or `None` where the input ended inside a sequence.
    InvalidUtf8 { valid_up_to: usize, error_len: Option<usize> },
    /// An empty audio buffer was fed.
    EmptyAudio,
}

pub type Result<T> = core::result::Result<T, Error>;

/// Whether two byte vectors hold the same bytes.
fn same_bytes(a: &Vec<u8>, b: &Vec<u8>) -> (r: bool)
    ensures
        r == (a@ == b@),
{
    if a.len() != b.len() {
        return false;
    }
    let mut i: usize = 0;
    while i < a.len()
        invariant
            i <= a@.len(),
            a@.len() == b@.len(),
            a@.take(i as int) == b@.take(i as int),
        decreases a@.len() - i,
    {
        if a[i] != b[i] {
            assert(a@[i as int] != b@[i as int]);
            return false;
        }
        assert(a@.take(i as int + 1) =~= a@.take(i as int).push(a@[i as int]));
        assert(b@.take(i as int + 1) =~= b@.take(i as int).push(b@[i as int]));
        i = i + 1;
    }
    assert(a@ =~= a@.take(i as int));
    assert(b@ =~= b@.take(i as int));
    true
}

/// Whether two errors are the same error with the same data.
pub open spec fn same_error(a: Error, b: Error) -> bool {
    match (a, b) {
        (Error::CString { position: p, bytes: x }, Error::CString { position: q, bytes: y }) =>
            p == q && x@ == y@,
        (Error::NullPtr, Error::NullPtr) => true,
        (
            Error::InvalidUtf8 { valid_up_to: v, error_len: e },
            Error::InvalidUtf8 { valid_up_to: w, error_len: f },
        ) => v == w && e == f,
        (Error::EmptyAudio, Error::EmptyAudio) => true,
        _ => false,
    }
}

impl PartialEq for Error {
    fn eq(&self, other: &Error) -> (r: bool) {
        match (self, other) {
            (Error::CString { position: p, bytes: x }, Error::CString { position: q, bytes: y }) =>
                *p == *q && same_bytes(x, y),
            (Error::NullPtr, Error::NullPtr) => true,
            (
                Error::InvalidUtf8 { valid_up_to: v, error_len: e },
                Error::InvalidUtf8 { valid_up_to: w, error_len: f },
            ) => *v == *w && match (e, f) {
                (None, None) => true,
                (Some(k), Some(l)) => *k == *l,
                _ => false,
            },
            (Error::EmptyAudio, Error::EmptyAudio) => true,
            _ => false,
        }
    }
}

impl vstd::std_specs::cmp::PartialEqSpecImpl for Error {
    open spec fn obeys_eq_spec() -> bool {
        true
    }

    open spec fn eq_spec(&self, other: &Error) -> bool {
        same_error(*self, *other)
    }
}

impl Error {
    /// The message that describes this error; a nested error reads as its
    /// standard-library counterpart does.
    pub open spec fn spec_message(self) -> Seq<char> {
        match self {
            Error::CString { position, .. } => "failed to get CString: "@
                + "nul byte found in provided data at position: "@ + decimal(position as nat),
            Error::NullPtr => "got null ptr from april"@,
            Error::InvalidUtf8 { valid_up_to, error_len } => "got invalid UTF-8 in a string from april: "@
                + match error_len {
                    Some(k) => "invalid utf-8 sequence of "@ + decimal(k as nat) + " bytes from index "@
                        + decimal(valid_up_to as nat),
                    None => "incomplete utf-8 byte sequence from index "@ + decimal(valid_up_to as nat),
                },
            Error::EmptyAudio => "attempting to feed an empty audio sample to april"@,
        }
    }

    /// A human-readable message for this error.
    pub fn message(&self) -> (r: String)
        ensures
            r@ == self.spec_message(),
    {
        match self {
            Error::CString { position, .. } => {
                let mut s = String::from_str("failed to get CString: ");
                s.append("nul byte found in provided data at position: ");
                push_decimal(&mut s, *position as u64);
                s
            },
            Error::NullPtr => String::from_str("got null ptr from april"),
            Error::InvalidUtf8 { valid_up_to, error_len } => {
                let mut s = String::from_str("got invalid UTF-8 in a string from april: ");
                match error_len {
                    Some(k) => {
                        s.append("invalid utf-8 sequence of ");
                        push_decimal(&mut s, *k as u64);
                        s.append(" bytes from index ");
                        push_decimal(&mut s, *valid_up_to as u64);
                    },
                    None => {
                        s.append("incomplete utf-8 byte sequence from index ");
                        push_decimal(&mut s, *valid_up_to as u64);
                    },
                }
                s
            },
            Error::EmptyAudio => String::from_str("attempting to feed an empty audio sample to april"),
        }
    }
}

} // verus!
