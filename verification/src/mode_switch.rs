//! Switching the encoder without a glitch.
//!
//! A switch takes a second session slot, builds the new encoder, asks it for a keyframe, routes
//! frames to it, drains the old encoder, and only after that lets the old slot go. When there is no
//! slot, or the encoder cannot be built, the old encoder goes on untouched.
use std::sync::Arc;

use tokio::sync::{OwnedSemaphorePermit, Semaphore};
use vstd::prelude::*;

use crate::classifier::ContentMode;
use crate::media::{EncodedPacket, EncoderConfig, MediaError, VideoEncoder, VideoFrame};
use crate::raw::RawEncoder;
use crate::text::push_decimal;

verus! {

/// The semaphore of the `tokio` crate.
#[verifier::external_type_specification]
#[verifier::external_body]
pub struct ExSemaphore(tokio::sync::Semaphore);

/// A permit of the semaphore; dropping it gives the permit back.
#[verifier::external_type_specification]
#[verifier::external_body]
pub struct ExOwnedSemaphorePermit(tokio::sync::OwnedSemaphorePermit);

/// The number of permits that a semaphore was made with.
pub uninterp spec fn permits_made(s: Semaphore) -> nat;

/// `OwnedSemaphorePermit::semaphore`: the semaphore that a permit was taken from.
pub uninterp spec fn taken_from(p: OwnedSemaphorePermit) -> Semaphore;

/// `Semaphore::new`: a semaphore with so many permits. It panics above `usize::MAX >> 3`.
#[verifier::external_body]
fn new_semaphore(permits: usize) -> (s: Semaphore)
    requires
        permits <= usize::MAX / 8,
    ensures
        permits_made(s) == permits,
{
    Semaphore::new(permits)
}

/// `Semaphore::try_acquire_owned`: takes a permit if one is free, without waiting. Whether one is
/// free depends on the other holders. There is none in a semaphore that was made without permits,
/// and none in one that was made with a single permit while `held`, which was taken from it, is
/// kept; nothing here adds permits to a semaphore, splits a permit or forgets one.
#[verifier::external_body]
fn try_acquire_owned(s: Arc<Semaphore>, held: Option<&OwnedSemaphorePermit>) -> (r: Option<
    OwnedSemaphorePermit,
>)
    ensures
        permits_made(*s) == 0 ==> r is None,
        permits_made(*s) == 1 && held is Some && taken_from(*held->0) == *s ==> r is None,
        r matches Some(p) ==> taken_from(p) == *s,
{
    s.try_acquire_owned().ok()
}

/// `Semaphore::available_permits`: the permits that are free now. How many depends on the other
/// holders. They are never more than the semaphore was made with, and fewer while `held`, which was
/// taken from it, is kept; nothing here adds permits to a semaphore, splits a permit or forgets one.
#[verifier::external_body]
fn available_permits(s: &Semaphore, held: Option<&OwnedSemaphorePermit>) -> (r: usize)
    ensures
        r <= permits_made(*s),
        held is Some && taken_from(*held->0) == *s ==> r < permits_made(*s),
{
    s.available_permits()
}

/// A switch could not be made.
#[derive(Debug, Clone, PartialEq, Eq)]
pub enum ModeSwitchError {
    /// All session slots are taken. The old encoder goes on.
    NoSessionAvailable {
        /// Slots in all.
        limit: u32,
        /// Slots taken.
        active: u32,
    },
    /// The new encoder could not be built. The old encoder goes on.
    FactoryError(MediaError),
}

impl ModeSwitchError {
    /// What the error says.
    pub open spec fn text(self) -> Seq<char> {
        match self {
            ModeSwitchError::NoSessionAvailable { limit, active } =>
                "no NVENC session available (limit="@ + crate::text::decimal(limit as nat)
                + ", active="@ + crate::text::decimal(active as nat) + ")"@,
            ModeSwitchError::FactoryError(e) => "encoder factory failed during mode switch: "@
                + e.text(),
        }
    }

    /// What the error says.
    pub fn to_text(&self) -> (r: String)
        ensures
            r@ == self.text(),
    {
        match self {
            ModeSwitchError::NoSessionAvailable { limit, active } => {
                let mut s = "no NVENC session available (limit=".to_owned();
                push_decimal(&mut s, *limit as u64);
                s.append(", active=");
                push_decimal(&mut s, *active as u64);
                s.append(")");
                s
            },
            ModeSwitchError::FactoryError(e) => {
                let mut s = "encoder factory failed during mode switch: ".to_owned();
                s.append(e.to_text().as_str());
                s
            },
        }
    }
}

/// What a switch left behind.
#[derive(Debug)]
pub struct SwitchOutcome {
    /// Packets that the old encoder still held; they go out before the new keyframe.
    pub tail_packets: Vec<EncodedPacket>,
    /// Why the old encoder could not be drained, if it could not.
    pub flush_error: Option<MediaError>,
}

impl SwitchOutcome {
    /// The outcome gives out what `before` held, or says why it could not be drained.
    pub open spec fn after_draining(self, before: DoubleBufferedEncoder) -> bool {
        match self.flush_error {
            None => before.drains(Ok(self.tail_packets)),
            Some(e) => self.tail_packets@.len() == 0 && before.drains(Err(e)),
        }
    }

    /// The outcome of a switch, given what draining the old encoder returned.
    pub fn of_flush(flushed: Result<Vec<EncodedPacket>, MediaError>) -> (r: Self)
        ensures
            flushed matches Ok(packets) ==> r.tail_packets == packets && r.flush_error is None,
            flushed matches Err(e) ==> r.tail_packets@.len() == 0 && r.flush_error == Some(e),
    {
        match flushed {
            Ok(packets) => SwitchOutcome { tail_packets: packets, flush_error: None },
            Err(e) => SwitchOutcome { tail_packets: Vec::new(), flush_error: Some(e) },
        }
    }
}

/// Counts the encoder sessions that are open at a time. Clones share the count.
pub struct SessionLimiter {
    semaphore: Arc<Semaphore>,
    max_sessions: u32,
}

/// Slots taken, when `available` of `max_sessions` are free.
pub open spec fn taken(max_sessions: u32, available: usize) -> u32 {
    if available >= max_sessions {
        0
    } else {
        (max_sessions - available) as u32
    }
}

impl SessionLimiter {
    #[verifier::type_invariant]
    spec fn wf(self) -> bool {
        permits_made(*self.semaphore) == self.max_sessions
    }

    /// Slots in all.
    pub closed spec fn limit(self) -> u32 {
        self.max_sessions
    }

    /// A limiter with so many slots.
    pub fn new(max_sessions: u32) -> (r: Self)
        requires
            max_sessions <= usize::MAX / 8,
        ensures
            r.limit() == max_sessions,
    {
        SessionLimiter { semaphore: Arc::new(new_semaphore(max_sessions as usize)), max_sessions }
    }

    /// The slot is one of this limiter's.
    pub closed spec fn issued(self, guard: SessionGuard) -> bool {
        taken_from(guard.permit) == *self.semaphore
    }

    /// Take a slot if one is free, without waiting. Other holders decide whether one is; a limiter
    /// without slots never gives one.
    pub fn try_acquire(&self) -> (r: Option<SessionGuard>)
        ensures
            self.limit() == 0 ==> r is None,
            r matches Some(guard) ==> self.issued(guard),
    {
        proof {
            use_type_invariant(&*self);
        }
        match try_acquire_owned(self.semaphore.clone(), None) {
            Some(permit) => Some(SessionGuard { permit }),
            None => None,
        }
    }

    /// Take a slot on top of the slot `held`, if one is free, without waiting. A limiter with a
    /// single slot never gives a second one.
    pub fn try_acquire_another(&self, held: &SessionGuard) -> (r: Option<SessionGuard>)
        ensures
            self.limit() == 0 ==> r is None,
            self.limit() == 1 && self.issued(*held) ==> r is None,
            r matches Some(guard) ==> self.issued(guard),
    {
        proof {
            use_type_invariant(&*self);
        }
        match try_acquire_owned(self.semaphore.clone(), Some(&held.permit)) {
            Some(permit) => Some(SessionGuard { permit }),
            None => None,
        }
    }

    /// Slots taken now.
    pub fn active_sessions(&self) -> (r: u32)
        ensures
            r <= self.limit(),
    {
        proof {
            use_type_invariant(&*self);
        }
        Self::sessions_in_use(self.max_sessions, available_permits(&self.semaphore, None))
    }

    /// Slots taken now, while the slot `held` is one of them.
    pub fn active_sessions_with(&self, held: &SessionGuard) -> (r: u32)
        ensures
            r <= self.limit(),
            self.issued(*held) ==> r >= 1,
    {
        proof {
            use_type_invariant(&*self);
        }
        Self::sessions_in_use(
            self.max_sessions,
            available_permits(&self.semaphore, Some(&held.permit)),
        )
    }

    /// Slots taken, when `available` of `max_sessions` are free.
    pub fn sessions_in_use(max_sessions: u32, available: usize) -> (r: u32)
        ensures
            r == taken(max_sessions, available),
    {
        if available >= max_sessions as usize {
            0
        } else {
            max_sessions - available as u32
        }
    }

    /// Slots in all.
    pub fn max_sessions(&self) -> (r: u32)
        ensures
            r == self.limit(),
    {
        self.max_sessions
    }
}

impl Clone for SessionLimiter {
    fn clone(&self) -> (r: Self)
        ensures
            r.limit() == self.limit(),
            forall|guard: SessionGuard| r.issued(guard) == self.issued(guard),
    {
        proof {
            use_type_invariant(&*self);
        }
        SessionLimiter { semaphore: self.semaphore.clone(), max_sessions: self.max_sessions }
    }
}

/// Holds one slot of a [`SessionLimiter`] until it is dropped.
pub struct SessionGuard {
    permit: OwnedSemaphorePermit,
}

/// What a full pipeline does with frames.
#[derive(Debug, Clone, Copy, PartialEq, Eq, Structural)]
pub enum BackpressurePolicy {
    /// Drop the oldest frame that waits and take the new one.
    DropOldest,
    /// Do not take the new frame.
    SkipCurrent,
}

impl BackpressurePolicy {
    /// The policy for a kind of content: fresh frames for motion, the running encode for work.
    pub open spec fn policy_for(mode: ContentMode) -> BackpressurePolicy {
        match mode {
            ContentMode::Game | ContentMode::Scrolling => BackpressurePolicy::DropOldest,
            ContentMode::Work => BackpressurePolicy::SkipCurrent,
        }
    }

    /// The policy for a kind of content.
    pub fn for_mode(mode: ContentMode) -> (r: Self)
        ensures
            r == BackpressurePolicy::policy_for(mode),
    {
        match mode {
            ContentMode::Game => BackpressurePolicy::DropOldest,
            ContentMode::Work => BackpressurePolicy::SkipCurrent,
            ContentMode::Scrolling => BackpressurePolicy::DropOldest,
        }
    }
}

/// Builds encoders.
pub trait EncoderFactory: Send {
    /// Which factory this is. It stays the same whatever the factory builds.
    spec fn lineage(&self) -> u64;

    /// The factory keeps count of what it is asked for. One that has no state does not.
    spec fn tallies(&self) -> bool;

    /// How many encoders the factory was asked for, if it keeps count.
    spec fn orders(&self) -> u64;

    /// `r` is an answer that this factory gives to the configuration.
    spec fn builds(
        &self,
        config: EncoderConfig,
        r: Result<Box<dyn VideoEncoder>, MediaError>,
    ) -> bool;

    /// An encoder for the given configuration.
    fn build(&mut self, config: &EncoderConfig) -> (r: Result<Box<dyn VideoEncoder>, MediaError>)
        ensures
            old(self).builds(*config, r),
            final(self).lineage() == old(self).lineage(),
            final(self).tallies() == old(self).tallies(),
            old(self).tallies() ==> final(self).orders() == crate::media::one_more(
                old(self).orders(),
            ),
    ;
}

/// A factory of raw encoders.
pub struct RawEncoderFactory;

impl EncoderFactory for RawEncoderFactory {
    /// Factories of raw encoders have no state to tell them apart by.
    open spec fn lineage(&self) -> u64 {
        0
    }

    open spec fn tallies(&self) -> bool {
        false
    }

    open spec fn orders(&self) -> u64 {
        0
    }

    /// Every configuration is accepted, and the encoder does what a raw encoder does.
    open spec fn builds(
        &self,
        config: EncoderConfig,
        r: Result<Box<dyn VideoEncoder>, MediaError>,
    ) -> bool {
        &&& r is Ok
        &&& r->Ok_0.primed()
        &&& r->Ok_0.lineage() == RawEncoder.lineage()
        &&& forall|frame: VideoFrame, out: Result<Option<EncodedPacket>, MediaError>|
            #[trigger] r->Ok_0.answers(frame, out) == RawEncoder.answers(frame, out)
        &&& forall|out: Result<Vec<EncodedPacket>, MediaError>|
            #[trigger] r->Ok_0.drains(out) == RawEncoder.drains(out)
    }

    fn build(&mut self, config: &EncoderConfig) -> (r: Result<
        Box<dyn VideoEncoder>,
        MediaError,
    >) {
        Ok(Box::new(RawEncoder::new()))
    }
}

/// A factory of raw encoders.
pub fn raw_encoder_factory() -> (r: Box<RawEncoderFactory>)
    ensures
        *r == RawEncoderFactory,
{
    Box::new(RawEncoderFactory)
}

/// An encoder and the slot that it holds.
struct Session<E> {
    encoder: E,
    guard: SessionGuard,
}

/// Holds what builds encoders.
struct Maker<F> {
    factory: F,
}

/// How an encoder was left when it was exchanged for another.
pub struct Retirement {
    /// Which encoder it was.
    pub lineage: u64,
    /// How many frames it was given, if it kept count.
    pub fed: u64,
    /// How often it was drained, if it kept count.
    pub drained: u64,
}

/// An encoder that can be exchanged for another between two frames.
pub struct DoubleBufferedEncoder {
    active: Session<Box<dyn VideoEncoder>>,
    limiter: SessionLimiter,
    maker: Maker<Box<dyn EncoderFactory>>,
    current_mode: ContentMode,
    current_config: EncoderConfig,
    last_retired: Ghost<Option<Retirement>>,
}

impl DoubleBufferedEncoder {
    /// Frames go to the encoder that was built, and it holds the slot `guard`.
    pub closed spec fn runs(
        self,
        built: Result<Box<dyn VideoEncoder>, MediaError>,
        guard: SessionGuard,
    ) -> bool {
        built matches Ok(encoder) && self.active.encoder == encoder && self.active.guard == guard
    }

    /// Frames go to an encoder that holds the slot `guard`.
    pub closed spec fn holds(self, guard: SessionGuard) -> bool {
        self.active.guard == guard
    }

    /// Frames go to the same encoder, with the same slot.
    pub closed spec fn same_session(self, other: DoubleBufferedEncoder) -> bool {
        self.active == other.active
    }

    /// The active encoder holds the same slot.
    pub closed spec fn same_slot(self, other: DoubleBufferedEncoder) -> bool {
        self.active.guard == other.active.guard
    }

    /// Which encoder frames go to.
    pub closed spec fn lineage(self) -> u64 {
        self.active.encoder.lineage()
    }

    /// The active encoder keeps count of what it is asked to do.
    pub closed spec fn tallies(self) -> bool {
        self.active.encoder.tallies()
    }

    /// How many frames the active encoder was given, if it keeps count.
    pub closed spec fn fed(self) -> u64 {
        self.active.encoder.fed()
    }

    /// How often the active encoder was drained, if it keeps count.
    pub closed spec fn drained(self) -> u64 {
        self.active.encoder.drained()
    }

    /// How the encoder was left that was active before this one, if there was any.
    pub closed spec fn retired(self) -> Option<Retirement> {
        self.last_retired@
    }

    /// The factory keeps count of what it is asked for.
    pub closed spec fn factory_tallies(self) -> bool {
        self.maker.factory.tallies()
    }

    /// How many encoders the factory was asked for, if it keeps count.
    pub closed spec fn orders(self) -> u64 {
        self.maker.factory.orders()
    }

    /// Which factory builds the encoders.
    pub closed spec fn factory_lineage(self) -> u64 {
        self.maker.factory.lineage()
    }

    /// The factory was not asked for anything.
    pub closed spec fn same_factory(self, other: DoubleBufferedEncoder) -> bool {
        self.maker == other.maker
    }

    /// The slots come from the limiter.
    pub closed spec fn limited_by(self, limiter: SessionLimiter) -> bool {
        self.limiter == limiter
    }

    /// The slots come from the same limiter, and the encoders from the same factory.
    pub open spec fn same_means(self, other: DoubleBufferedEncoder) -> bool {
        &&& forall|limiter: SessionLimiter|
            #[trigger] self.limited_by(limiter) == other.limited_by(limiter)
        &&& self.limit() == other.limit()
        &&& self.factory_lineage() == other.factory_lineage()
        &&& self.factory_tallies() == other.factory_tallies()
    }

    /// The kind of content.
    pub closed spec fn mode(self) -> ContentMode {
        self.current_mode
    }

    /// The configuration.
    pub closed spec fn config(self) -> EncoderConfig {
        self.current_config
    }

    /// Slots that the limiter has in all.
    pub closed spec fn limit(self) -> u32 {
        self.limiter.limit()
    }

    /// The slot is one of the limiter's.
    pub closed spec fn issued(self, guard: SessionGuard) -> bool {
        self.limiter.issued(guard)
    }

    /// The active encoder holds one of the limiter's slots.
    pub closed spec fn counted(self) -> bool {
        self.limiter.issued(self.active.guard)
    }

    /// The encoder goes on as `before`.
    pub open spec fn keeps(self, before: DoubleBufferedEncoder) -> bool {
        &&& self.same_session(before)
        &&& self.same_slot(before)
        &&& self.lineage() == before.lineage()
        &&& self.tallies() == before.tallies()
        &&& self.fed() == before.fed()
        &&& self.drained() == before.drained()
        &&& self.retired() == before.retired()
        &&& self.counted() == before.counted()
        &&& self.primed() == before.primed()
        &&& self.mode() == before.mode()
        &&& self.config() == before.config()
    }

    /// Given the frame, the active encoder answers `r`. It is the one that was active before and is
    /// given the frame once, and nothing else changes.
    pub open spec fn encodes(
        self,
        frame: VideoFrame,
        r: Result<Option<EncodedPacket>, MediaError>,
        after: DoubleBufferedEncoder,
    ) -> bool {
        &&& self.answers(frame, r)
        &&& self.primed() ==> (r matches Ok(Some(packet)) ==> packet.frame_type is Idr)
        &&& self.primed() ==> (r matches Ok(None) ==> after.primed())
        &&& after.lineage() == self.lineage()
        &&& after.tallies() == self.tallies()
        &&& self.tallies() ==> after.fed() == crate::media::one_more(self.fed())
        &&& after.drained() == self.drained()
        &&& after.retired() == self.retired()
        &&& after.mode() == self.mode()
        &&& after.config() == self.config()
        &&& after.limit() == self.limit()
        &&& after.counted() == self.counted()
        &&& after.same_slot(self)
        &&& after.same_means(self)
        &&& after.same_factory(self)
    }

    /// The encoder `built` takes the place of the active one. It was asked for a keyframe and was
    /// given no frame yet. The one that was active before was drained once, and `outcome` says what
    /// came of it.
    pub open spec fn switched(
        self,
        config: EncoderConfig,
        mode: ContentMode,
        built: Result<Box<dyn VideoEncoder>, MediaError>,
        outcome: SwitchOutcome,
        after: DoubleBufferedEncoder,
    ) -> bool {
        &&& built is Ok
        &&& after.lineage() == built->Ok_0.lineage()
        &&& after.tallies() == built->Ok_0.tallies()
        &&& after.fed() == built->Ok_0.fed()
        &&& after.drained() == built->Ok_0.drained()
        &&& after.primed()
        &&& after.mode() == mode
        &&& after.config() == config
        &&& outcome.after_draining(self)
        &&& after.retired() matches Some(old_one) && old_one.lineage == self.lineage()
            && old_one.fed == self.fed() && (self.tallies() ==> old_one.drained
            == crate::media::one_more(self.drained()))
    }

    /// `r` is an answer that the active encoder gives to the frame.
    pub closed spec fn answers(
        self,
        frame: VideoFrame,
        r: Result<Option<EncodedPacket>, MediaError>,
    ) -> bool {
        self.active.encoder.answers(frame, r)
    }

    /// `r` is an answer that the active encoder gives when it is drained.
    pub closed spec fn drains(self, r: Result<Vec<EncodedPacket>, MediaError>) -> bool {
        self.active.encoder.drains(r)
    }

    /// `r` is an answer that the factory gives to the configuration.
    pub closed spec fn builds(
        self,
        config: EncoderConfig,
        r: Result<Box<dyn VideoEncoder>, MediaError>,
    ) -> bool {
        self.maker.factory.builds(config, r)
    }

    /// The next packet will be a keyframe.
    pub closed spec fn primed(self) -> bool {
        self.active.encoder.primed()
    }

    /// An encoder for the given configuration. Takes the first slot.
    pub fn new(
        config: EncoderConfig,
        mode: ContentMode,
        factory: Box<dyn EncoderFactory>,
        limiter: SessionLimiter,
    ) -> (r: Result<Self, ModeSwitchError>)
        ensures
            r matches Ok(enc) ==> enc.mode() == mode && enc.config() == config && enc.limit()
                == limiter.limit() && enc.limited_by(limiter) && enc.counted(),
            r matches Ok(enc) ==> enc.factory_lineage() == factory.lineage() && enc.retired() is None
                && enc.factory_tallies() == factory.tallies() && (factory.tallies() ==> enc.orders()
                == crate::media::one_more(factory.orders())),
            r matches Ok(enc) ==> exists|
                built: Result<Box<dyn VideoEncoder>, MediaError>,
                guard: SessionGuard,
            | #[trigger] factory.builds(config, built) && #[trigger] enc.runs(built, guard),
            r matches Err(ModeSwitchError::NoSessionAvailable { limit, active }) ==> limit
                == limiter.limit() && active <= limit,
            r matches Err(ModeSwitchError::FactoryError(e)) ==> factory.builds(config, Err(e)),
            limiter.limit() == 0 ==> r == Err::<Self, _>(
                ModeSwitchError::NoSessionAvailable { limit: 0, active: 0 },
            ),
    {
        match limiter.try_acquire() {
            None => Err(
                ModeSwitchError::NoSessionAvailable {
                    limit: limiter.max_sessions(),
                    active: limiter.active_sessions(),
                },
            ),
            Some(guard) => {
                let mut maker = Maker { factory };
                let built = maker.factory.build(&config);
                Self::assemble(config, mode, maker, limiter, guard, built)
            },
        }
    }

    /// Put together an encoder from what the factory returned, with a slot that it holds.
    pub fn start(
        config: EncoderConfig,
        mode: ContentMode,
        factory: Box<dyn EncoderFactory>,
        limiter: SessionLimiter,
        guard: SessionGuard,
        built: Result<Box<dyn VideoEncoder>, MediaError>,
    ) -> (r: Result<Self, ModeSwitchError>)
        ensures
            built is Ok ==> (r matches Ok(enc) && enc.runs(built, guard)
                && enc.mode() == mode && enc.config() == config && enc.limit() == limiter.limit()
                && enc.limited_by(limiter) && enc.counted() == limiter.issued(guard)
                && enc.factory_lineage() == factory.lineage() && enc.retired() is None
                && enc.factory_tallies() == factory.tallies() && enc.orders() == factory.orders()),
            built is Ok ==> forall|c: EncoderConfig, b: Result<Box<dyn VideoEncoder>, MediaError>|
                #[trigger] r->Ok_0.builds(c, b) == factory.builds(c, b),
            built matches Err(e) ==> r == Err::<Self, _>(ModeSwitchError::FactoryError(e)),
    {
        let maker = Maker { factory };
        Self::assemble(config, mode, maker, limiter, guard, built)
    }

    fn assemble(
        config: EncoderConfig,
        mode: ContentMode,
        maker: Maker<Box<dyn EncoderFactory>>,
        limiter: SessionLimiter,
        guard: SessionGuard,
        built: Result<Box<dyn VideoEncoder>, MediaError>,
    ) -> (r: Result<Self, ModeSwitchError>)
        ensures
            built is Ok ==> (r matches Ok(enc) && enc.runs(built, guard) && enc.limiter == limiter
                && enc.maker == maker && enc.mode() == mode && enc.config() == config
                && enc.retired() is None),
            built matches Err(e) ==> r == Err::<Self, _>(ModeSwitchError::FactoryError(e)),
    {
        match built {
            Ok(encoder) => {
                let active = Session { encoder, guard };
                Ok(
                    DoubleBufferedEncoder {
                        active,
                        limiter,
                        maker,
                        current_mode: mode,
                        current_config: config,
                        last_retired: Ghost(None),
                    },
                )
            },
            Err(e) => Err(ModeSwitchError::FactoryError(e)),
        }
    }

    /// The kind of content.
    pub fn current_mode(&self) -> (r: ContentMode)
        ensures
            r == self.mode(),
    {
        self.current_mode
    }

    /// The configuration.
    pub fn current_config(&self) -> (r: &EncoderConfig)
        ensures
            *r == self.config(),
    {
        &self.current_config
    }

    /// What the pipeline does with frames when it is full.
    pub fn backpressure_policy(&self) -> (r: BackpressurePolicy)
        ensures
            r == BackpressurePolicy::policy_for(self.mode()),
    {
        BackpressurePolicy::for_mode(self.current_mode)
    }

    /// Encode one frame with the active encoder.
    pub fn encode(&mut self, frame: &VideoFrame) -> (r: Result<Option<EncodedPacket>, MediaError>)
        ensures
            old(self).encodes(*frame, r, *final(self)),
    {
        self.active.encoder.encode(frame)
    }

    /// Make the next packet a keyframe.
    pub fn request_keyframe(&mut self)
        ensures
            final(self).primed(),
            final(self).tallies() == old(self).tallies(),
            final(self).fed() == old(self).fed(),
            final(self).drained() == old(self).drained(),
            final(self).retired() == old(self).retired(),
            final(self).mode() == old(self).mode(),
            final(self).config() == old(self).config(),
            final(self).limit() == old(self).limit(),
            final(self).counted() == old(self).counted(),
            final(self).lineage() == old(self).lineage(),
            final(self).same_slot(*old(self)),
            final(self).same_means(*old(self)),
            final(self).same_factory(*old(self)),
    {
        self.active.encoder.request_keyframe();
    }

    /// Change the kind of content, and with it the backpressure policy, but not the encoder.
    pub fn request_mode(&mut self, mode: ContentMode)
        ensures
            final(self).mode() == mode,
            final(self).same_session(*old(self)),
            final(self).same_slot(*old(self)),
            final(self).primed() == old(self).primed(),
            final(self).config() == old(self).config(),
            final(self).limit() == old(self).limit(),
            final(self).counted() == old(self).counted(),
            final(self).lineage() == old(self).lineage(),
            final(self).tallies() == old(self).tallies(),
            final(self).fed() == old(self).fed(),
            final(self).drained() == old(self).drained(),
            final(self).retired() == old(self).retired(),
            final(self).same_means(*old(self)),
            final(self).same_factory(*old(self)),
    {
        self.current_mode = mode;
    }

    /// Exchange the encoder for a new one. The new slot is taken and the new encoder is built
    /// before the old one is touched: on an error everything goes on as before. After a switch the
    /// new encoder's first packet is a keyframe. Both encoders hold a slot while the switch is
    /// made, so that a limiter with a single slot allows none.
    pub fn switch_to(
        &mut self,
        new_config: EncoderConfig,
        new_mode: ContentMode,
    ) -> (r: Result<SwitchOutcome, ModeSwitchError>)
        ensures
            r matches Ok(outcome) ==> exists|built: Result<Box<dyn VideoEncoder>, MediaError>|
                #[trigger]
                old(self).builds(new_config, built) && old(self).switched(
                    new_config,
                    new_mode,
                    built,
                    outcome,
                    *final(self),
                ),
            r is Err ==> final(self).keeps(*old(self)),
            r matches Err(ModeSwitchError::FactoryError(e)) ==> old(self).builds(
                new_config,
                Err(e),
            ),
            r matches Err(ModeSwitchError::NoSessionAvailable { limit, active }) ==> limit == old(
                self,
            ).limit() && active <= limit && (old(self).counted() ==> active >= 1),
            r matches Err(ModeSwitchError::NoSessionAvailable { .. }) ==> final(self).same_factory(
                *old(self),
            ),
            old(self).limit() == 0 ==> r == Err::<SwitchOutcome, _>(
                ModeSwitchError::NoSessionAvailable { limit: 0, active: 0 },
            ),
            old(self).limit() == 1 && old(self).counted() ==> r == Err::<SwitchOutcome, _>(
                ModeSwitchError::NoSessionAvailable { limit: 1, active: 1 },
            ),
            !(r matches Err(ModeSwitchError::NoSessionAvailable { .. })) && old(
                self,
            ).factory_tallies() ==> final(self).orders() == crate::media::one_more(
                old(self).orders(),
            ),
            final(self).limit() == old(self).limit(),
            old(self).counted() ==> final(self).counted(),
            final(self).same_means(*old(self)),
    {
        match self.limiter.try_acquire_another(&self.active.guard) {
            None => Err(
                ModeSwitchError::NoSessionAvailable {
                    limit: self.limiter.max_sessions(),
                    active: self.limiter.active_sessions_with(&self.active.guard),
                },
            ),
            Some(guard) => {
                let built = self.maker.factory.build(&new_config);
                assert(old(self).builds(new_config, built));
                self.install(guard, built, new_config, new_mode)
            },
        }
    }

    /// Exchange the encoder for what the factory returned, with the slot that was taken for it.
    /// When the factory failed, the slot is let go and the old encoder goes on.
    pub fn install(
        &mut self,
        guard: SessionGuard,
        built: Result<Box<dyn VideoEncoder>, MediaError>,
        new_config: EncoderConfig,
        new_mode: ContentMode,
    ) -> (r: Result<SwitchOutcome, ModeSwitchError>)
        ensures
            built is Ok ==> (r matches Ok(outcome) && old(self).switched(
                new_config,
                new_mode,
                built,
                outcome,
                *final(self),
            ) && final(self).holds(guard)),
            built matches Err(e) ==> r == Err::<SwitchOutcome, _>(ModeSwitchError::FactoryError(e))
                && final(self).keeps(*old(self)),
            final(self).limit() == old(self).limit(),
            r is Ok ==> final(self).counted() == old(self).issued(guard),
            final(self).same_means(*old(self)),
            final(self).same_factory(*old(self)),
    {
        let encoder = match built {
            Ok(encoder) => encoder,
            Err(e) => {
                return Err(ModeSwitchError::FactoryError(e));
            },
        };
        let mut session = Session { encoder, guard };
        session.encoder.request_keyframe();
        std::mem::swap(&mut self.active, &mut session);
        self.current_config = new_config;
        self.current_mode = new_mode;
        // `session` is the old one now; its slot is let go when it is dropped.
        let outcome = SwitchOutcome::of_flush(session.encoder.flush());
        self.last_retired = Ghost(
            Some(
                Retirement {
                    lineage: session.encoder.lineage(),
                    fed: session.encoder.fed(),
                    drained: session.encoder.drained(),
                },
            ),
        );
        Ok(outcome)
    }
}

/// After a switch the next frame goes to the new encoder. It is the first one that the new encoder
/// is given, what comes out of it is a keyframe, and the old encoder is not asked again.
pub proof fn law_next_frame_goes_to_the_new_encoder(
    before: DoubleBufferedEncoder,
    config: EncoderConfig,
    mode: ContentMode,
    built: Result<Box<dyn VideoEncoder>, MediaError>,
    outcome: SwitchOutcome,
    switched: DoubleBufferedEncoder,
    frame: VideoFrame,
    r: Result<Option<EncodedPacket>, MediaError>,
    after: DoubleBufferedEncoder,
)
    requires
        before.switched(config, mode, built, outcome, switched),
        switched.encodes(frame, r, after),
    ensures
        after.lineage() == built->Ok_0.lineage(),
        built->Ok_0.tallies() ==> after.fed() == crate::media::one_more(built->Ok_0.fed()),
        r matches Ok(Some(packet)) ==> packet.frame_type is Idr,
        r matches Ok(None) ==> after.primed(),
        after.retired() == switched.retired(),
        after.retired() matches Some(old_one) && old_one.lineage == before.lineage()
            && old_one.fed == before.fed(),
        after.mode() == mode,
        after.config() == config,
{
}

/// Motion is kept fresh by dropping what waits; work is not interrupted.
pub proof fn law_policy_for_each_mode()
    ensures
        BackpressurePolicy::policy_for(ContentMode::Game) is DropOldest,
        BackpressurePolicy::policy_for(ContentMode::Scrolling) is DropOldest,
        BackpressurePolicy::policy_for(ContentMode::Work) is SkipCurrent,
{
}

/// The slots that are taken and those that are free make up all slots.
pub proof fn law_taken_and_free_make_up_all(max_sessions: u32, available: usize)
    ensures
        available <= max_sessions ==> taken(max_sessions, available) + available == max_sessions,
        available > max_sessions ==> taken(max_sessions, available) == 0,
{
}

/// What a drained encoder gave goes out, all of it; one that could not be drained says why, and
/// nothing goes out.
pub proof fn law_outcome_of_a_drain(
    outcome: SwitchOutcome,
    before: DoubleBufferedEncoder,
)
    requires
        outcome.after_draining(before),
    ensures
        outcome.flush_error is None ==> before.drains(Ok(outcome.tail_packets)),
        outcome.flush_error matches Some(e) ==> before.drains(Err(e)) && outcome.tail_packets@.len()
            == 0,
{
}

/// A switch leaves the old encoder drained once, with every packet that it held on its way out or
/// the reason why not; the new one untouched but for a keyframe that is due; and mode and
/// configuration as they were asked for.
pub proof fn law_a_switch_drains_once(
    before: DoubleBufferedEncoder,
    config: EncoderConfig,
    mode: ContentMode,
    built: Result<Box<dyn VideoEncoder>, MediaError>,
    outcome: SwitchOutcome,
    after: DoubleBufferedEncoder,
)
    requires
        before.switched(config, mode, built, outcome, after),
    ensures
        built is Ok,
        after.lineage() == built->Ok_0.lineage(),
        after.fed() == built->Ok_0.fed(),
        after.drained() == built->Ok_0.drained(),
        after.primed(),
        after.mode() == mode,
        after.config() == config,
        outcome.flush_error is None ==> before.drains(Ok(outcome.tail_packets)),
        outcome.flush_error matches Some(e) ==> before.drains(Err(e)) && outcome.tail_packets@.len()
            == 0,
        after.retired() is Some,
        after.retired()->0.lineage == before.lineage(),
        after.retired()->0.fed == before.fed(),
        before.tallies() && before.drained() < 0xFFFF_FFFF_FFFF_FFFF ==> after.retired()->0.drained
            == before.drained() + 1,
{
}

/// An encoder that was kept is the one that it was: nothing was asked of it, and it holds its slot.
pub proof fn law_a_failed_switch_changes_nothing(
    before: DoubleBufferedEncoder,
    after: DoubleBufferedEncoder,
)
    requires
        after.keeps(before),
    ensures
        after.same_session(before),
        after.same_slot(before),
        after.lineage() == before.lineage(),
        after.fed() == before.fed(),
        after.drained() == before.drained(),
        after.primed() == before.primed(),
        after.mode() == before.mode(),
        after.config() == before.config(),
        after.retired() == before.retired(),
{
}

/// A frame goes to the active encoder, once, and what that answers comes back.
pub proof fn law_frames_go_to_the_active_encoder(
    before: DoubleBufferedEncoder,
    frame: VideoFrame,
    r: Result<Option<EncodedPacket>, MediaError>,
    after: DoubleBufferedEncoder,
)
    requires
        before.encodes(frame, r, after),
    ensures
        before.answers(frame, r),
        after.lineage() == before.lineage(),
        before.tallies() && before.fed() < 0xFFFF_FFFF_FFFF_FFFF ==> after.fed() == before.fed() + 1,
        after.drained() == before.drained(),
        after.mode() == before.mode(),
        after.config() == before.config(),
        after.same_slot(before),
        after.same_factory(before),
        before.primed() && r is Ok && r->Ok_0 is Some ==> r->Ok_0->0.frame_type is Idr,
        before.primed() && r is Ok && r->Ok_0 is None ==> after.primed(),
{
}

/// What encoders are built and counted with stays: the limiter, its slots, and the factory.
pub proof fn law_means_stay(
    before: DoubleBufferedEncoder,
    after: DoubleBufferedEncoder,
    limiter: SessionLimiter,
)
    requires
        after.same_means(before),
    ensures
        after.limited_by(limiter) == before.limited_by(limiter),
        after.limit() == before.limit(),
        after.factory_lineage() == before.factory_lineage(),
        after.factory_tallies() == before.factory_tallies(),
{
}

/// A factory of raw encoders always gives one, and what it gives answers as any raw encoder does:
/// every frame of the right length becomes a raw keyframe, and nothing is held back.
pub proof fn law_raw_factory_gives_raw_encoders(
    factory: RawEncoderFactory,
    config: EncoderConfig,
    r: Result<Box<dyn VideoEncoder>, MediaError>,
    frame: VideoFrame,
    answer: Result<Option<EncodedPacket>, MediaError>,
    rest: Result<Vec<EncodedPacket>, MediaError>,
)
    requires
        factory.builds(config, r),
    ensures
        r is Ok,
        r->Ok_0.primed(),
        r->Ok_0.answers(frame, answer) ==> (answer is Ok <==> frame.pixels().len()
            == frame.format.bytes_for(frame.resolution)),
        r->Ok_0.answers(frame, answer) && answer is Ok ==> answer->Ok_0 is Some
            && crate::raw::raw_encodes_to(frame, answer->Ok_0->0),
        r->Ok_0.drains(rest) ==> rest is Ok && rest->Ok_0@.len() == 0,
{
}

} // verus!
