use vstd::prelude::*;
use crate::error::{Error, Result};

verus! {

/// A recognition session: the engine's session handle `S` and the callback
/// context `C` that the session's config handed over.
///
/// Teardown releases the engine's session first and the callback context
/// after it. Releasing the engine's session blocks until no callback for it
/// can run any more, so the context is never released while the engine might
/// still call into it.
pub struct AprilSession<S, C> {
    native: Option<S>,
    context: Option<C>,
}

impl<S, C> AprilSession<S, C> {
    /// The engine's session handle; `None` once torn down.
    pub closed spec fn spec_native(&self) -> Option<S> {
        self.native
    }

    /// The callback context the session owns; `None` once torn down.
    pub closed spec fn spec_context(&self) -> Option<C> {
        self.context
    }

    /// A live session: it holds its engine handle. Every session is live from
    /// `new` until `teardown`.
    pub open spec fn wf(&self) -> bool {
        self.spec_native() is Some
    }

    /// Wraps what the engine's session constructor returned. With no handle
    /// (construction failed) the context is released at once and the result
    /// is `NullPtr`.
    pub fn new(native: Option<S>, context: Option<C>) -> (r: Result<AprilSession<S, C>>)
        ensures
            native is None <==> r is Err,
            r is Err ==> r->Err_0 == Error::NullPtr,
            r is Ok ==> r->Ok_0.wf(),
            r is Ok ==> r->Ok_0.spec_native() == native && r->Ok_0.spec_context() == context,
    {
        match native {
            None => {
                release(context);
                Err(Error::NullPtr)
            },
            Some(handle) => Ok(AprilSession { native: Some(handle), context }),
        }
    }

    /// The engine's session handle.
    pub fn native(&self) -> (r: Option<&S>)
        ensures
            self.wf() ==> r is Some,
            r is Some <==> self.spec_native() is Some,
            r is Some ==> *r->Some_0 == self.spec_native()->Some_0,
    {
        self.native.as_ref()
    }

    /// The handle through which to feed `pcm` to the engine, or `None` where
    /// no engine call is to be made: an empty buffer is not fed.
    pub fn feed_pcm16_target(&self, pcm: &[i16]) -> (r: Option<&S>)
        ensures
            self.wf() ==> (r is Some <==> pcm@.len() > 0),
            r is Some <==> (pcm@.len() > 0 && self.spec_native() is Some),
            r is Some ==> *r->Some_0 == self.spec_native()->Some_0,
    {
        if pcm.len() == 0 {
            None
        } else {
            self.native.as_ref()
        }
    }

    /// Releases the engine's session, which returns once no callback for
    /// it can run any more. The context stays.
    fn release_native(&mut self)
        ensures
            final(self).spec_native() is None,
            final(self).spec_context() == old(self).spec_context(),
        opens_invariants none
        no_unwind
    {
        let mut native: Option<S> = None;
        core::mem::swap(&mut native, &mut self.native);
        release(native);
    }

    /// Releases the callback context. Only allowed once the engine's session
    /// is gone, so that no callback can reach the released context.
    fn release_context(&mut self)
        requires
            old(self).spec_native() is None,
        ensures
            final(self).spec_native() is None,
            final(self).spec_context() is None,
        opens_invariants none
        no_unwind
    {
        let mut context: Option<C> = None;
        core::mem::swap(&mut context, &mut self.context);
        release(context);
    }

    /// Ends the session: releases the engine's session, then the callback
    /// context, each exactly once. Dropping a session does this; calling it
    /// earlier, or again, releases nothing more.
    pub fn teardown(&mut self)
        ensures
            final(self).spec_native() is None,
            final(self).spec_context() is None,
        opens_invariants none
        no_unwind
    {
        self.release_native();
        self.release_context();
    }
}

impl<S, C> Drop for AprilSession<S, C> {
    fn drop(&mut self)
        opens_invariants none
        no_unwind
    {
        self.teardown();
    }
}

/// Releases a value: it is moved in and dropped here.
pub(crate) fn release<T>(value: T)
    opens_invariants none
    no_unwind
{
}

} // verus!
