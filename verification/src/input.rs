//! Browser input: which events are let through to the injector.
use vstd::prelude::*;

use crate::time::Instant;

verus! {

/// Bytes of an input event on the wire.
pub const INPUT_EVENT_LEN: usize = 16;

/// Input events that are taken from the channel for each video frame.
pub const MAX_INPUT_PER_FRAME: usize = 256;

/// Input events that may wait for the injector.
pub const INPUT_QUEUE_DEPTH: usize = 256;

/// Rate-limited events that are let through in a second.
pub const MAX_THROTTLED_INPUT_PER_SEC: u32 = 500;

/// Rate-limited events that are let through in a burst.
pub const THROTTLED_INPUT_BURST: u32 = 120;

/// What an input event is about.
#[derive(Debug, Clone, Copy, PartialEq, Eq, Hash, Structural)]
pub enum EventType {
    /// The pointer moved.
    PointerMove,
    /// A button changed.
    Button,
    /// The wheel turned.
    Wheel,
    /// A key changed.
    Key,
    /// A touch changed.
    Touch,
    /// A pen changed.
    Pen,
}

impl EventType {
    /// The name of the kind.
    pub open spec fn label(self) -> Seq<char> {
        match self {
            EventType::PointerMove => "PointerMove"@,
            EventType::Button => "Button"@,
            EventType::Wheel => "Wheel"@,
            EventType::Key => "Key"@,
            EventType::Touch => "Touch"@,
            EventType::Pen => "Pen"@,
        }
    }

    /// The name of the kind.
    pub fn name(self) -> (r: &'static str)
        ensures
            r@ == self.label(),
    {
        match self {
            EventType::PointerMove => "PointerMove",
            EventType::Button => "Button",
            EventType::Wheel => "Wheel",
            EventType::Key => "Key",
            EventType::Touch => "Touch",
            EventType::Pen => "Pen",
        }
    }

    /// An event of this kind can be dropped without harm: the next one makes up for it, or it
    /// stands by itself. Dropping a button or key change would leave it stuck.
    pub open spec fn drop_safe(self) -> bool {
        self is PointerMove || self is Wheel
    }
}

/// One input event.
#[derive(Debug, Clone, Copy, PartialEq, Eq, Structural)]
pub struct InputEvent {
    /// What it is about.
    pub event_type: EventType,
    /// Modifier keys, one bit each.
    pub modifiers: u8,
    /// Pointer position, from the left edge to the right.
    pub pointer_x: u16,
    /// Pointer position, from the top edge to the bottom.
    pub pointer_y: u16,
    /// Buttons, one bit each.
    pub button_mask: u8,
    /// Key.
    pub key_code: u16,
    /// Wheel, sideways.
    pub scroll_x: i16,
    /// Wheel.
    pub scroll_y: i16,
    /// Pressure of a touch or pen.
    pub pressure: u16,
}

/// `event` is what `decode` reads in a message: nothing when the message is not as long as an event.
pub open spec fn reads<D: FnOnce(&[u8]) -> Option<InputEvent>>(
    decode: D,
    bytes: &[u8],
    event: Option<InputEvent>,
) -> bool {
    if bytes@.len() != INPUT_EVENT_LEN {
        event is None
    } else {
        decode.ensures((bytes,), event)
    }
}

/// The input event in a message, which `decode` reads off the wire. A message that is not as long
/// as an event is none, and `decode` does not see it.
pub fn decode_input<D: FnOnce(&[u8]) -> Option<InputEvent>>(bytes: &[u8], decode: D) -> (r: Option<
    InputEvent,
>)
    requires
        bytes@.len() == INPUT_EVENT_LEN ==> decode.requires((bytes,)),
    ensures
        reads(decode, bytes, r),
{
    if bytes.len() != INPUT_EVENT_LEN {
        return None;
    }
    decode(bytes)
}

/// Decide whether an event is let through: as the limiter answers, which `allow` asks for one event,
/// when the event is safe to drop. Button, key, touch and pen events, whose loss would leave
/// something stuck, are always let through, and the limiter does not count them.
pub fn admit_input<L, A: FnOnce(&mut L, Instant) -> bool>(
    event: &InputEvent,
    limiter: &mut L,
    now: Instant,
    allow: A,
) -> (r: bool)
    requires
        forall|l: &mut L| allow.requires((l, now)),
    ensures
        event.event_type.drop_safe() ==> exists|l: &mut L|
            *l == *old(limiter) && *final(l) == *final(limiter) && #[trigger] allow.ensures(
                (l, now),
                r,
            ),
        !event.event_type.drop_safe() ==> r && *final(limiter) == *old(limiter),
{
    match event.event_type {
        EventType::PointerMove | EventType::Wheel => allow(limiter, now),
        EventType::Button | EventType::Key => true,
        EventType::Touch | EventType::Pen => true,
    }
}

/// Decode a message and decide whether its event goes to the injector. Events that are held back
/// are counted; messages that are no events are ignored.
pub fn forward_input<
    D: FnOnce(&[u8]) -> Option<InputEvent>,
    L,
    A: FnOnce(&mut L, Instant) -> bool,
>(
    bytes: &[u8],
    decode: D,
    limiter: &mut L,
    now: Instant,
    allow: A,
    throttled: &mut u64,
) -> (r: Option<InputEvent>)
    requires
        bytes@.len() == INPUT_EVENT_LEN ==> decode.requires((bytes,)),
        forall|l: &mut L| allow.requires((l, now)),
    ensures
        exists|event: Option<InputEvent>| #[trigger]
            reads(decode, bytes, event) && match event {
                None => {
                    &&& r is None
                    &&& *final(limiter) == *old(limiter)
                    &&& *final(throttled) == *old(throttled)
                },
                Some(e) => {
                    &&& e.event_type.drop_safe() ==> exists|l: &mut L|
                        *l == *old(limiter) && *final(l) == *final(limiter)
                            && #[trigger] allow.ensures((l, now), r is Some)
                    &&& !e.event_type.drop_safe() ==> r is Some && *final(limiter) == *old(limiter)
                    &&& r matches Some(out) ==> out == e && *final(throttled) == *old(throttled)
                    &&& r is None ==> *final(throttled) == (if *old(throttled) == u64::MAX {
                        u64::MAX as int
                    } else {
                        *old(throttled) + 1
                    })
                },
            },
{
    let event = decode_input(bytes, decode);
    match event {
        None => None,
        Some(e) => {
            if admit_input(&e, limiter, now, allow) {
                Some(e)
            } else {
                *throttled = throttled.saturating_add(1);
                None
            }
        },
    }
}

/// Pointer moves and the wheel may be held back; a button, a key, a touch or a pen never is.
pub proof fn law_what_may_be_held_back()
    ensures
        EventType::PointerMove.drop_safe(),
        EventType::Wheel.drop_safe(),
        !EventType::Button.drop_safe(),
        !EventType::Key.drop_safe(),
        !EventType::Touch.drop_safe(),
        !EventType::Pen.drop_safe(),
{
}

/// A message of any other length than sixteen bytes is no event. What a message of sixteen bytes is,
/// the decoder says.
pub proof fn law_events_are_sixteen_bytes<D: FnOnce(&[u8]) -> Option<InputEvent>>(
    decode: D,
    bytes: &[u8],
    event: Option<InputEvent>,
)
    requires
        reads(decode, bytes, event),
    ensures
        bytes@.len() != 16 ==> event is None,
        bytes@.len() == 16 ==> decode.ensures((bytes,), event),
{
}

} // verus!
