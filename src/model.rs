use vstd::prelude::*;
use crate::error::{Error, Result};
use crate::text::{decode_utf8, utf8_decoded};

verus! {

/// Whether `b` holds no nul byte.
pub open spec fn nul_free(b: Seq<u8>) -> bool {
    forall|i: int| 0 <= i < b.len() ==> b[i] != 0
}

/// Turns a model path into the nul-terminated bytes that the engine takes.
/// Fails, naming the first nul byte and handing the path back, when the path
/// holds one.
pub fn encode_path(path: Vec<u8>) -> (r: Result<Vec<u8>>)
    ensures
        r is Ok <==> nul_free(path@),
        r is Ok ==> r->Ok_0@ == path@.push(0u8),
        r is Err ==> (r->Err_0 matches Error::CString { position, bytes } && position < path@.len()
            && path@[position as int] == 0 && nul_free(path@.take(position as int))
            && bytes@ == path@),
{
    let mut i: usize = 0;
    while i < path.len()
        invariant
            i <= path@.len(),
            nul_free(path@.take(i as int)),
        decreases path@.len() - i,
    {
        if path[i] == 0 {
            return Err(Error::CString { position: i, bytes: path });
        }
        assert(forall|j: int| 0 <= j < i ==> path@.take(i as int + 1)[j] == path@.take(i as int)[j]);
        i = i + 1;
    }
    assert(path@.take(i as int) =~= path@);
    let mut bytes = path;
    bytes.push(0u8);
    Ok(bytes)
}

/// Loads a model: encodes `path`, hands the encoded bytes to `load` (the
/// engine's loader, which gives `None` for a null handle), and checks the
/// handle. A path with a nul byte fails with `CString`; every failure to load
/// (a missing, unreadable or incompatible file) fails with `NullPtr`; a
/// handle, once given, is returned.
pub fn load_model<H, F: FnOnce(Vec<u8>) -> Option<H>>(path: Vec<u8>, load: F) -> (r: Result<H>)
    requires
        forall|b: Vec<u8>| b@ == path@.push(0u8) ==> #[trigger] load.requires((b,)),
    ensures
        !nul_free(path@) ==> (r is Err && r->Err_0 is CString),
        !nul_free(path@) ==> (r->Err_0 matches Error::CString { position, bytes } && position < path@.len()
            && path@[position as int] == 0 && nul_free(path@.take(position as int))
            && bytes@ == path@),
        nul_free(path@) ==> (r is Err ==> r->Err_0 == Error::NullPtr),
        nul_free(path@) ==> exists|b: Vec<u8>, h: Option<H>|
            #![trigger load.ensures((b,), h)]
            b@ == path@.push(0u8) && load.ensures((b,), h) && (h is None <==> r is Err)
            && (h is Some ==> r == Ok::<H, Error>(h->Some_0)),
{
    let bytes = match encode_path(path) {
        Ok(b) => b,
        Err(e) => return Err(e),
    };
    let handle = load(bytes);
    loaded_handle(handle)
}

/// The text of a metadata string that the engine returned (its bytes
/// without the terminating nul), borrowed from those bytes; `None` where the
/// engine returned a null pointer.
pub fn metadata_text<'a>(raw: Option<&'a [u8]>) -> (r: Result<&'a str>)
    ensures
        raw is None ==> r is Err && r->Err_0 == Error::NullPtr,
        raw is Some ==> (utf8_decoded(raw->Some_0@) is Ok <==> r is Ok),
        raw is Some && r is Ok ==> r->Ok_0@ == utf8_decoded(raw->Some_0@)->Ok_0,
        raw is Some && r is Err ==> (r->Err_0 matches Error::InvalidUtf8 { valid_up_to, error_len }
            && utf8_decoded(raw->Some_0@)->Err_0.0 == valid_up_to as nat
            && utf8_decoded(raw->Some_0@)->Err_0.1 == (match error_len {
                Some(k) => Some(k as nat),
                None => None,
            })),
{
    match raw {
        None => Err(Error::NullPtr),
        Some(bytes) => metadata_result(decode_utf8(bytes)),
    }
}

/// The result of a metadata query, from the strict decoding of its bytes:
/// the text, or `InvalidUtf8` with the decoding error's data.
pub fn metadata_result<'a>(decoded: core::result::Result<&'a str, (usize, Option<usize>)>) -> (r: Result<&'a str>)
    ensures
        decoded is Ok <==> r is Ok,
        decoded is Ok ==> r->Ok_0 == decoded->Ok_0,
        decoded is Err ==> r->Err_0 == (Error::InvalidUtf8 {
            valid_up_to: decoded->Err_0.0,
            error_len: decoded->Err_0.1,
        }),
{
    match decoded {
        Ok(s) => Ok(s),
        Err((n, k)) => Err(Error::InvalidUtf8 { valid_up_to: n, error_len: k }),
    }
}

/// The handle of a freshly loaded model, or `NullPtr` where loading gave none.
pub fn loaded_handle<H>(handle: Option<H>) -> (r: Result<H>)
    ensures
        handle is None <==> r is Err,
        handle is None ==> r->Err_0 == Error::NullPtr,
        handle is Some ==> r == Ok::<H, Error>(handle->Some_0),
{
    match handle {
        None => Err(Error::NullPtr),
        Some(h) => Ok(h),
    }
}

/// A gate for the engine's process-wide setup: it lets the setup run on the
/// first entry only.
#[derive(Debug)]
pub struct InitGate {
    done: bool,
}

/// Entering a gate: whether the setup runs, and whether it is done after.
pub open spec fn enter_step(done: bool) -> (bool, bool) {
    (!done, true)
}

/// How many of `calls` entries run the setup, from a gate in state `done`.
pub open spec fn runs_over(done: bool, calls: nat) -> nat
    decreases calls,
{
    if calls == 0 {
        0
    } else {
        (if enter_step(done).0 { 1nat } else { 0nat }) + runs_over(enter_step(done).1, (calls - 1) as nat)
    }
}

impl InitGate {
    pub closed spec fn is_done(&self) -> bool {
        self.done
    }

    /// A gate through which the setup has not run yet.
    pub fn new() -> (r: InitGate)
        ensures
            !r.is_done(),
    {
        InitGate { done: false }
    }

    /// Whether the caller is to run the setup now: true on the first entry
    /// only.
    pub fn enter(&mut self) -> (run: bool)
        ensures
            (run, final(self).is_done()) == enter_step(old(self).is_done()),
    {
        let run = !self.done;
        self.done = true;
        run
    }
}

/// However many models are loaded, each entering the init gate, the setup runs
/// exactly once (and not at all before the first load).
pub proof fn lemma_setup_runs_once(calls: nat)
    ensures
        runs_over(false, calls) == (if calls == 0 { 0nat } else { 1nat }),
{
    if calls > 0 {
        lemma_done_gate_never_runs((calls - 1) as nat);
    }
}

/// A gate through which the setup has run lets it run no more.
pub proof fn lemma_done_gate_never_runs(calls: nat)
    ensures
        runs_over(true, calls) == 0,
    decreases calls,
{
    if calls > 0 {
        lemma_done_gate_never_runs((calls - 1) as nat);
    }
}

} // verus!
