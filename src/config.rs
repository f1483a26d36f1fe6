use vstd::prelude::*;
use crate::session::release;

verus! {

/// Processing-mode flags of a session. Every pattern of bits is a valid value.
#[derive(Copy, Clone, Debug, PartialEq, Eq, Structural)]
pub struct AprilConfigFlags {
    pub bits: i32,
}

/// Audio is fed in real time, in small chunks; feeding and flushing return
/// at once and a background thread of the engine processes the audio and
/// calls the handler. Accuracy may degrade on slow hardware.
pub const ASYNC_RT_BITS: i32 = 0x1;

/// Like real time, without the loss of accuracy; on slow hardware the
/// background thread falls behind and the handler is told that processing
/// cannot keep up.
pub const ASYNC_NO_RT_BITS: i32 = 0x2;

impl AprilConfigFlags {
    /// No flag: audio is processed synchronously, inside the feeding call.
    pub fn empty() -> (r: AprilConfigFlags)
        ensures
            r.bits == 0,
    {
        AprilConfigFlags { bits: 0 }
    }

    /// Background processing at real-time pace.
    pub fn async_rt() -> (r: AprilConfigFlags)
        ensures
            r.bits == ASYNC_RT_BITS,
    {
        AprilConfigFlags { bits: ASYNC_RT_BITS }
    }

    /// Background processing without pacing.
    pub fn async_no_rt() -> (r: AprilConfigFlags)
        ensures
            r.bits == ASYNC_NO_RT_BITS,
    {
        AprilConfigFlags { bits: ASYNC_NO_RT_BITS }
    }

    /// The flags set in either operand.
    pub fn union(self, other: AprilConfigFlags) -> (r: AprilConfigFlags)
        ensures
            r.bits == self.bits | other.bits,
    {
        AprilConfigFlags { bits: self.bits | other.bits }
    }

    /// Whether every flag of `other` is set here.
    pub fn contains(&self, other: AprilConfigFlags) -> (r: bool)
        ensures
            r == (self.bits & other.bits == other.bits),
    {
        self.bits & other.bits == other.bits
    }
}

/// The engine's speaker identity. The engine documents it as having no
/// effect yet; it is passed on as given.
#[derive(Copy, Clone, Debug)]
pub struct AprilSpeakerId {
    pub data: [u8; 16],
}

/// A pending session: the speaker identity, the mode flags, and at most one
/// installed callback context `C`, the owned pair of a callback and its data.
/// The config owns the context until it is handed on by `into_raw`;
/// replacing or clearing it releases it.
pub struct AprilConfig<C> {
    speaker: AprilSpeakerId,
    flags: AprilConfigFlags,
    context: Option<C>,
}

/// The parts of a config handed to the native session constructor. The
/// receiver becomes responsible for releasing `context`.
pub struct AprilConfigParts<C> {
    pub speaker: AprilSpeakerId,
    pub flags: AprilConfigFlags,
    pub context: Option<C>,
}

impl<C> AprilConfig<C> {
    /// The installed callback context, if any.
    pub closed spec fn context(&self) -> Option<C> {
        self.context
    }

    /// The mode flags.
    pub closed spec fn spec_flags(&self) -> AprilConfigFlags {
        self.flags
    }

    /// The speaker identity.
    pub closed spec fn spec_speaker(&self) -> AprilSpeakerId {
        self.speaker
    }

    /// No callback, no flags, an all-zero speaker identity.
    pub fn new() -> (r: AprilConfig<C>)
        ensures
            r.context() is None,
            r.spec_flags().bits == 0,
            r.spec_speaker().data@ == seq![0u8; 16],
    {
        let r = AprilConfig {
            speaker: AprilSpeakerId { data: [0u8; 16] },
            flags: AprilConfigFlags { bits: 0 },
            context: None,
        };
        assert(r.speaker.data@ =~= seq![0u8; 16]);
        r
    }

    /// The mode flags.
    pub fn flags(&self) -> (r: AprilConfigFlags)
        ensures
            r == self.spec_flags(),
    {
        self.flags
    }

    /// Sets the mode flags.
    pub fn set_flags(&mut self, flags: AprilConfigFlags)
        ensures
            final(self).spec_flags() == flags,
            final(self).context() == old(self).context(),
            final(self).spec_speaker() == old(self).spec_speaker(),
    {
        self.flags = flags;
    }

    /// The speaker identity.
    pub fn speaker(&self) -> (r: AprilSpeakerId)
        ensures
            r == self.spec_speaker(),
    {
        self.speaker
    }

    /// Whether a callback context is installed.
    pub fn has_handler(&self) -> (r: bool)
        ensures
            r == self.context() is Some,
    {
        self.context.is_some()
    }

    /// `after` is `before` with `context` installed in place of whatever
    /// was installed.
    pub open spec fn installed(before: Self, after: Self, context: C) -> bool {
        &&& after.context() == Some(context)
        &&& after.spec_flags() == before.spec_flags()
        &&& after.spec_speaker() == before.spec_speaker()
    }

    /// `after` is `before` with no context installed.
    pub open spec fn cleared(before: Self, after: Self) -> bool {
        &&& after.context() is None
        &&& after.spec_flags() == before.spec_flags()
        &&& after.spec_speaker() == before.spec_speaker()
    }

    /// Installs a callback context. One installed before is released first,
    /// so at most one is ever held.
    pub fn set_handler_fn(&mut self, context: C)
        ensures
            Self::installed(*old(self), *final(self), context),
    {
        self.clear_handler_fn();
        self.context = Some(context);
    }

    /// Releases the installed callback context, if any. With none installed
    /// it does nothing.
    pub fn clear_handler_fn(&mut self)
        ensures
            Self::cleared(*old(self), *final(self)),
    {
        let released = self.context.take();
        match released {
            Some(context) => {
                release(context);
            },
            None => {},
        }
    }

    /// Hands the config's parts on. Whoever receives them owns the context.
    pub fn into_raw(self) -> (r: AprilConfigParts<C>)
        ensures
            r.context == self.context(),
            r.flags == self.spec_flags(),
            r.speaker == self.spec_speaker(),
    {
        AprilConfigParts { speaker: self.speaker, flags: self.flags, context: self.context }
    }

    /// Rebuilds a config from parts that `into_raw` handed out.
    pub fn from_raw(parts: AprilConfigParts<C>) -> (r: AprilConfig<C>)
        ensures
            r.context() == parts.context,
            r.spec_flags() == parts.flags,
            r.spec_speaker() == parts.speaker,
    {
        AprilConfig { speaker: parts.speaker, flags: parts.flags, context: parts.context }
    }
}

impl<C> Default for AprilConfig<C> {
    /// No callback, no flags, an all-zero speaker identity.
    fn default() -> (r: AprilConfig<C>)
        ensures
            r.context() is None,
            r.spec_flags().bits == 0,
            r.spec_speaker().data@ == seq![0u8; 16],
    {
        AprilConfig::new()
    }
}

/// Installing a context, then another, then clearing: after each step the
/// config holds exactly the last context installed, none once cleared, and
/// the rest of the config is untouched. A context that the config no longer
/// holds has been released, since the config is its only owner.
pub proof fn lemma_register_register_clear<C>(
    c0: AprilConfig<C>,
    c1: AprilConfig<C>,
    c2: AprilConfig<C>,
    c3: AprilConfig<C>,
    a: C,
    b: C,
)
    requires
        AprilConfig::installed(c0, c1, a),
        AprilConfig::installed(c1, c2, b),
        AprilConfig::cleared(c2, c3),
    ensures
        c1.context() == Some(a),
        c2.context() == Some(b),
        c3.context() is None,
        c3.spec_flags() == c0.spec_flags(),
        c3.spec_speaker() == c0.spec_speaker(),
{
}

/// Clearing a config that holds no context changes nothing.
pub proof fn lemma_clear_without_handler_is_noop<C>(c0: AprilConfig<C>, c1: AprilConfig<C>)
    requires
        c0.context() is None,
        AprilConfig::cleared(c0, c1),
    ensures
        c1.context() == c0.context(),
        c1.spec_flags() == c0.spec_flags(),
        c1.spec_speaker() == c0.spec_speaker(),
{
}

} // verus!
