//! Machine-readable lines that tell a test harness what a headless host received.
use vstd::prelude::*;

use crate::input::InputEvent;
use crate::text::push_decimal;

verus! {

/// One more, saturating.
pub open spec fn one_more(n: u64) -> u64 {
    if n == u64::MAX {
        n
    } else {
        (n + 1) as u64
    }
}

/// Counts injected events and words a line for each.
pub struct InputLog {
    count: u64,
}

impl InputLog {
    /// Events so far.
    pub closed spec fn events(self) -> u64 {
        self.count
    }

    /// A log without events.
    pub fn new() -> (r: Self)
        ensures
            r.events() == 0,
    {
        InputLog { count: 0 }
    }

    /// The line for one more event.
    pub fn line(&mut self, event: &InputEvent) -> (r: String)
        ensures
            final(self).events() == one_more(old(self).events()),
            r@ == "INPUT_INJECTED seq="@ + crate::text::decimal(final(self).events() as nat)
                + " type="@ + event.event_type.label(),
    {
        self.count = self.count.saturating_add(1);
        let mut s = "INPUT_INJECTED seq=".to_owned();
        push_decimal(&mut s, self.count);
        s.append(" type=");
        s.append(event.event_type.name());
        s
    }
}

/// Counts pastes and words a line for each: how long a text is, never what it says.
pub struct PasteLog {
    count: u64,
}

impl PasteLog {
    /// Pastes so far.
    pub closed spec fn pastes(self) -> u64 {
        self.count
    }

    /// A log without pastes.
    pub fn new() -> (r: Self)
        ensures
            r.pastes() == 0,
    {
        PasteLog { count: 0 }
    }

    /// The line for one more paste. It depends on the length of the text alone.
    pub fn line(&mut self, text: &str) -> (r: String)
        ensures
            final(self).pastes() == one_more(old(self).pastes()),
            r@ == "CLIPBOARD_PASTED seq="@ + crate::text::decimal(final(self).pastes() as nat)
                + " bytes="@ + crate::text::decimal(text.len() as nat),
    {
        self.count = self.count.saturating_add(1);
        let mut s = "CLIPBOARD_PASTED seq=".to_owned();
        push_decimal(&mut s, self.count);
        s.append(" bytes=");
        push_decimal(&mut s, text.len() as u64);
        s
    }
}

/// A count goes up by one until it cannot.
pub proof fn law_counts_go_up_by_one(n: u64)
    ensures
        n < 0xFFFF_FFFF_FFFF_FFFF ==> one_more(n) == n + 1,
        n == 0xFFFF_FFFF_FFFF_FFFF ==> one_more(n) == n,
{
}

} // verus!
