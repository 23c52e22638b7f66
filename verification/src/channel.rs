//! The logical channels of a session.
use vstd::prelude::*;

verus! {

/// One of the six logical channels multiplexed over a session.
#[derive(Debug, Clone, Copy, PartialEq, Eq, Hash, Structural)]
pub enum ChannelId {
    /// Keyboard, pointer and touch events.
    Input,
    /// Session control messages.
    Control,
    /// Clipboard synchronisation.
    Clipboard,
    /// Audio stream.
    Audio,
    /// Video stream.
    Video,
    /// File transfer.
    File,
}

} // verus!
