//! Gap detection over 16-bit wrapping sequence numbers.
//!
//! The detector keeps the highest sequence number seen and a window over the sixteen numbers
//! behind it. Offset `i` of the window stands for the number `highest - 1 - i`. A number counts as
//! newer than the highest when it lies less than half the number circle ahead of it.
use vstd::prelude::*;

verus! {

/// Numbers that the window covers.
pub const WINDOW: u16 = 16;

/// Half of the number circle: a forward distance below it means "newer".
pub const HALF_CIRCLE: u16 = 32768;

/// Size of the number circle.
pub open spec fn circle() -> int {
    0x1_0000
}

/// What the detector reports after a packet.
#[derive(Debug, Clone, PartialEq, Eq)]
pub struct GapReport {
    /// How many of the numbers directly behind the highest are missing in a row.
    pub consecutive_loss: u32,
    /// Distance from the last received number up to the highest.
    pub frame_gap: u32,
    /// Bit `i` is set when the number at offset `i` is missing.
    pub nack_bitmap: u16,
    /// The missing numbers, newest first.
    pub missing_seqs: Vec<u16>,
}

/// Bit `i` of `m`.
pub open spec fn bit(m: u16, i: u16) -> bool {
    (m >> i) & 1u16 == 1u16
}

/// The number `n` steps behind `seq` on the circle.
pub open spec fn behind(seq: u16, n: int) -> u16 {
    ((seq - n) % circle()) as u16
}

/// Abstract state of the detector.
pub struct GapState {
    /// The highest number seen and the last one received, once there is one.
    pub ends: Option<(u16, u16)>,
    /// Offsets of the window whose numbers were received.
    pub received: Set<int>,
    /// Offsets below this one lie after the first packet.
    pub covered: int,
}

/// The state before the first packet.
pub open spec fn fresh() -> GapState {
    GapState { ends: None, received: Set::empty(), covered: 0 }
}

/// The state after `seq` arrived in state `s`.
pub open spec fn after(s: GapState, seq: u16) -> GapState {
    match s.ends {
        None => GapState { ends: Some((seq, seq)), received: Set::empty(), covered: 0 },
        Some((highest, _)) => {
            let ahead = (seq - highest) % circle();
            let back = (highest - seq) % circle();
            if 0 < ahead < HALF_CIRCLE {
                // The window moves up by `ahead`; the old highest enters it as received.
                GapState {
                    ends: Some((seq, seq)),
                    received: Set::new(
                        |i: int|
                            0 <= i < WINDOW && (i == ahead - 1 || s.received.contains(i - ahead)),
                    ),
                    covered: if s.covered + ahead < WINDOW {
                        s.covered + ahead
                    } else {
                        WINDOW as int
                    },
                }
            } else {
                GapState {
                    ends: Some((highest, seq)),
                    received: if 0 < back <= WINDOW {
                        s.received.insert(back - 1)
                    } else {
                        s.received
                    },
                    covered: s.covered,
                }
            }
        },
    }
}

/// The number at offset `i` is missing: it lies after the first packet and was not received.
pub open spec fn missing(s: GapState, i: int) -> bool {
    0 <= i < s.covered && !s.received.contains(i)
}

/// The numbers missing at offsets below `n`, newest first.
pub open spec fn missing_below(s: GapState, highest: u16, n: int) -> Seq<u16>
    decreases n,
{
    if n <= 0 {
        Seq::empty()
    } else if missing(s, n - 1) {
        missing_below(s, highest, n - 1).push(behind(highest, n))
    } else {
        missing_below(s, highest, n - 1)
    }
}

/// `r` is what a detector in state `s` reports.
pub open spec fn reports(s: GapState, r: GapReport) -> bool {
    match s.ends {
        None => r.consecutive_loss == 0 && r.frame_gap == 0 && r.nack_bitmap == 0
            && r.missing_seqs@ == Seq::<u16>::empty(),
        Some((highest, last)) => {
            &&& 0 <= r.consecutive_loss <= s.covered
            &&& forall|i: int| 0 <= i < r.consecutive_loss ==> missing(s, i)
            &&& !missing(s, r.consecutive_loss as int)
            &&& r.frame_gap == (highest - last) % circle()
            &&& forall|i: u16|
                i < WINDOW ==> (#[trigger] bit(r.nack_bitmap, i) <==> missing(s, i as int))
            &&& r.missing_seqs@ == missing_below(s, highest, WINDOW as int)
        },
    }
}

proof fn lemma_bit_shl_high(m: u16, d: u16, i: u16, j: u16)
    by (bit_vector)
    requires
        i < 16,
        j < 16,
        d < 16,
        i == j + d,
    ensures
        ((m << d) >> i) & 1u16 == (m >> j) & 1u16,
{
}

proof fn lemma_bit_shl_low(m: u16, d: u16, i: u16)
    by (bit_vector)
    requires
        i < d,
        d < 16,
    ensures
        ((m << d) >> i) & 1u16 == 0u16,
{
}

proof fn lemma_bit_or(a: u16, b: u16, i: u16)
    by (bit_vector)
    requires
        i < 16,
    ensures
        ((a | b) >> i) & 1u16 == 1u16 <==> (a >> i) & 1u16 == 1u16 || (b >> i) & 1u16 == 1u16,
{
}

proof fn lemma_bit_single(k: u16, i: u16)
    by (bit_vector)
    requires
        i < 16,
        k < 16,
    ensures
        ((1u16 << k) >> i) & 1u16 == 1u16 <==> i == k,
{
}

proof fn lemma_bit_clear(i: u16)
    by (bit_vector)
    requires
        i < 16,
    ensures
        (0u16 >> i) & 1u16 == 0u16,
{
}

/// Detects gaps in a stream of sequence numbers.
pub struct GapDetector {
    /// Highest number seen.
    highest_seq: Option<u16>,
    /// Bit `i` set when the number at offset `i` was received.
    received_mask: u16,
    /// Last number received.
    last_received_seq: Option<u16>,
    /// Offsets that lie after the first packet, at most [`WINDOW`].
    seqs_tracked: u16,
}

impl View for GapDetector {
    type V = GapState;

    closed spec fn view(&self) -> GapState {
        GapState {
            ends: match (self.highest_seq, self.last_received_seq) {
                (Some(h), Some(l)) => Some((h, l)),
                _ => None,
            },
            received: Set::new(|i: int| 0 <= i < WINDOW && bit(self.received_mask, i as u16)),
            covered: self.seqs_tracked as int,
        }
    }
}

impl GapDetector {
    #[verifier::type_invariant]
    spec fn consistent(self) -> bool {
        &&& self.highest_seq is Some <==> self.last_received_seq is Some
        &&& self.seqs_tracked <= WINDOW
        &&& self.highest_seq is None ==> self.received_mask == 0 && self.seqs_tracked == 0
    }

    /// A detector with no history.
    pub fn new() -> (r: Self)
        ensures
            r@ == fresh(),
    {
        proof {
            assert forall|i: u16| i < 16 implies !#[trigger] bit(0, i) by {
                lemma_bit_clear(i);
            }
            assert(Set::new(|i: int| 0 <= i < WINDOW && bit(0, i as u16)) =~= Set::<int>::empty());
        }
        GapDetector { highest_seq: None, received_mask: 0, last_received_seq: None, seqs_tracked: 0 }
    }

    /// Record the packet with number `seq` and report the gaps.
    pub fn on_receive(&mut self, seq: u16) -> (r: GapReport)
        ensures
            final(self)@ == after(old(self)@, seq),
            reports(final(self)@, r),
    {
        proof {
            use_type_invariant(&*self);
        }
        let ghost before = self@;
        match self.highest_seq {
            None => {
                proof {
                    assert forall|i: u16| i < 16 implies !#[trigger] bit(0, i) by {
                        lemma_bit_clear(i);
                    }
                }
                *self = GapDetector {
                    highest_seq: Some(seq),
                    received_mask: 0,
                    last_received_seq: Some(seq),
                    seqs_tracked: 0,
                };
                assert(self@.received =~= Set::<int>::empty());
            },
            Some(highest) => {
                let delta: u16 = seq.wrapping_sub(highest);
                let mask: u16 = self.received_mask;
                let covered: u16 = self.seqs_tracked;
                assert(delta as int == (seq - highest) % circle());
                if delta > 0 && delta < HALF_CIRCLE {
                    let shifted: u16 = if delta >= WINDOW {
                        0
                    } else {
                        mask << delta
                    };
                    let old_highest: u16 = if delta <= WINDOW {
                        1u16 << (delta - 1)
                    } else {
                        0
                    };
                    let moved: u16 = if delta < WINDOW {
                        delta
                    } else {
                        WINDOW
                    };
                    let now_covered: u16 = if covered + moved < WINDOW {
                        covered + moved
                    } else {
                        WINDOW
                    };
                    *self = GapDetector {
                        highest_seq: Some(seq),
                        received_mask: shifted | old_highest,
                        last_received_seq: Some(seq),
                        seqs_tracked: now_covered,
                    };
                    proof {
                        let want = after(before, seq).received;
                        assert forall|i: int| 0 <= i < 16 implies (#[trigger] self@.received.contains(
                            i,
                        ) <==> want.contains(i)) by {
                            let k = i as u16;
                            lemma_bit_or(shifted, old_highest, k);
                            lemma_bit_clear(k);
                            if delta < 16 {
                                if i < delta {
                                    lemma_bit_shl_low(mask, delta, k);
                                } else {
                                    lemma_bit_shl_high(mask, delta, k, (k - delta) as u16);
                                }
                            }
                            if delta <= 16 {
                                lemma_bit_single((delta - 1) as u16, k);
                            }
                        }
                        assert(self@.received =~= want);
                    }
                } else {
                    let back: u16 = highest.wrapping_sub(seq);
                    assert(back as int == (highest - seq) % circle());
                    let marked: u16 = if back > 0 && back <= WINDOW {
                        mask | (1u16 << (back - 1))
                    } else {
                        mask
                    };
                    *self = GapDetector {
                        highest_seq: Some(highest),
                        received_mask: marked,
                        last_received_seq: Some(seq),
                        seqs_tracked: covered,
                    };
                    proof {
                        let want = after(before, seq).received;
                        assert forall|i: int| 0 <= i < 16 implies (#[trigger] self@.received.contains(
                            i,
                        ) <==> want.contains(i)) by {
                            let k = i as u16;
                            if back > 0 && back <= 16 {
                                lemma_bit_or(mask, 1u16 << ((back - 1) as u16), k);
                                lemma_bit_single((back - 1) as u16, k);
                            }
                        }
                        assert(self@.received =~= want);
                    }
                }
            },
        }
        self.build_report()
    }

    /// The report for the present state.
    pub fn build_report(&self) -> (r: GapReport)
        ensures
            reports(self@, r),
    {
        proof {
            use_type_invariant(self);
        }
        let (highest, last) = match (self.highest_seq, self.last_received_seq) {
            (Some(h), Some(l)) => (h, l),
            _ => {
                return GapReport {
                    consecutive_loss: 0,
                    frame_gap: 0,
                    nack_bitmap: 0,
                    missing_seqs: Vec::new(),
                };
            },
        };
        let gap: u16 = highest.wrapping_sub(last);
        let mut nack_bitmap: u16 = 0;
        let mut missing_seqs: Vec<u16> = Vec::new();
        let mut consecutive_loss: u16 = 0;
        let mut i: u16 = 0;
        proof {
            assert forall|j: u16| j < 16 implies !#[trigger] bit(0, j) by {
                lemma_bit_clear(j);
            }
        }
        while i < WINDOW
            invariant
                i <= WINDOW,
                self.seqs_tracked <= WINDOW,
                self@.covered == self.seqs_tracked,
                self@.ends == Some((highest, last)),
                missing_seqs@ == missing_below(self@, highest, i as int),
                forall|j: u16|
                    j < WINDOW ==> (#[trigger] bit(nack_bitmap, j) <==> j < i && missing(
                        self@,
                        j as int,
                    )),
                consecutive_loss <= i,
                consecutive_loss <= self.seqs_tracked,
                forall|j: int| 0 <= j < consecutive_loss ==> missing(self@, j),
                consecutive_loss < i ==> !missing(self@, consecutive_loss as int),
            decreases WINDOW - i,
        {
            if i < self.seqs_tracked && (self.received_mask >> i) & 1 != 1 {
                assert(!self@.received.contains(i as int));
                proof {
                    assert forall|j: u16| j < 16 implies (#[trigger] bit(
                        nack_bitmap | (1u16 << i),
                        j,
                    ) <==> bit(nack_bitmap, j) || j == i) by {
                        lemma_bit_or(nack_bitmap, 1u16 << i, j);
                        lemma_bit_single(i, j);
                    }
                }
                nack_bitmap = nack_bitmap | (1u16 << i);
                missing_seqs.push(highest.wrapping_sub(1 + i));
                if consecutive_loss == i {
                    consecutive_loss = i + 1;
                }
            } else {
                assert(!missing(self@, i as int));
            }
            i = i + 1;
        }
        GapReport {
            consecutive_loss: consecutive_loss as u32,
            frame_gap: gap as u32,
            nack_bitmap,
            missing_seqs,
        }
    }
}

impl Default for GapDetector {
    fn default() -> (r: Self)
        ensures
            r@ == fresh(),
    {
        GapDetector::new()
    }
}

/// The 16-bit number that stands on the wire for packet number `t` of an unbounded count.
pub open spec fn wire(t: int) -> u16 {
    (t % circle()) as u16
}

/// The detector's state after the first `n` packets of an arrival history.
pub open spec fn state_after(arrivals: Seq<int>, n: int) -> GapState
    decreases n,
{
    if n <= 0 {
        fresh()
    } else {
        after(state_after(arrivals, n - 1), wire(arrivals[n - 1]))
    }
}

/// The largest of the first `n` packet numbers.
pub open spec fn newest(arrivals: Seq<int>, n: int) -> int
    decreases n,
{
    if n <= 1 {
        arrivals[0]
    } else if newest(arrivals, n - 1) < arrivals[n - 1] {
        arrivals[n - 1]
    } else {
        newest(arrivals, n - 1)
    }
}

/// Packet `t` is among the first `n`.
pub open spec fn arrived(arrivals: Seq<int>, n: int, t: int) -> bool
    decreases n,
{
    n > 0 && (arrivals[n - 1] == t || arrived(arrivals, n - 1, t))
}

/// Every packet lies less than half a circle from the newest one before it, so that its 16-bit
/// number tells whether it is newer or older.
pub open spec fn within_reach(arrivals: Seq<int>) -> bool {
    forall|k: int|
        1 <= k < arrivals.len() ==> -HALF_CIRCLE < #[trigger] arrivals[k] - newest(arrivals, k)
            < HALF_CIRCLE
}

proof fn lemma_newest_is_bound(arrivals: Seq<int>, n: int, t: int)
    requires
        1 <= n <= arrivals.len(),
        arrived(arrivals, n, t),
    ensures
        t <= newest(arrivals, n),
    decreases n,
{
    if n > 1 && arrivals[n - 1] != t {
        lemma_newest_is_bound(arrivals, n - 1, t);
    } else if n == 1 {
        assert(!arrived(arrivals, 0, t));
    }
}

proof fn lemma_wire_distance(a: int, b: int)
    ensures
        (wire(a) - wire(b)) % circle() == (a - b) % circle(),
{
    vstd::arithmetic::div_mod::lemma_sub_mod_noop(a, b, circle());
}

/// The detector tracks the true history, across any number of wraps of the 16-bit numbers: the
/// highest number is that of the newest packet, the window starts at the first packet, and an
/// offset counts as received exactly when the packet it stands for has arrived.
pub proof fn law_detector_tracks_history(arrivals: Seq<int>, n: int)
    requires
        1 <= n <= arrivals.len(),
        within_reach(arrivals),
    ensures
        state_after(arrivals, n).ends == Some(
            (wire(newest(arrivals, n)), wire(arrivals[n - 1])),
        ),
        arrivals[0] <= newest(arrivals, n),
        state_after(arrivals, n).covered == if newest(arrivals, n) - arrivals[0] < WINDOW {
            newest(arrivals, n) - arrivals[0]
        } else {
            WINDOW as int
        },
        forall|i: int| #[trigger]
            state_after(arrivals, n).received.contains(i) <==> 0 <= i < WINDOW && arrived(
                arrivals,
                n,
                newest(arrivals, n) - 1 - i,
            ),
    decreases n,
{
    let s = state_after(arrivals, n);
    if n == 1 {
        let p = state_after(arrivals, 0);
        assert(p == fresh());
        assert(!arrived(arrivals, 0, arrivals[0]));
        assert forall|i: int| #[trigger]
            s.received.contains(i) <==> 0 <= i < WINDOW && arrived(
                arrivals,
                1,
                newest(arrivals, 1) - 1 - i,
            ) by {
            assert(!arrived(arrivals, 0, arrivals[0] - 1 - i));
        }
    } else {
        law_detector_tracks_history(arrivals, n - 1);
        let p = state_after(arrivals, n - 1);
        let t = arrivals[n - 1];
        let top = newest(arrivals, n - 1);
        lemma_wire_distance(t, top);
        lemma_wire_distance(top, t);
        assert(-HALF_CIRCLE < t - top < HALF_CIRCLE);
        let ahead = (wire(t) - wire(top)) % circle();
        let back = (wire(top) - wire(t)) % circle();
        if t > top {
            assert(ahead == t - top) by {
                vstd::arithmetic::div_mod::lemma_small_mod((t - top) as nat, circle() as nat);
            }
            assert forall|i: int| #[trigger]
                s.received.contains(i) <==> 0 <= i < WINDOW && arrived(
                    arrivals,
                    n,
                    newest(arrivals, n) - 1 - i,
                ) by {
                let v = t - 1 - i;
                assert(newest(arrivals, n) == t);
                if 0 <= i < WINDOW {
                    if i == ahead - 1 {
                        lemma_newest_arrived(arrivals, n - 1);
                        assert(v == top);
                    } else if i < ahead - 1 {
                        assert(v > top);
                        if arrived(arrivals, n - 1, v) {
                            lemma_newest_is_bound(arrivals, n - 1, v);
                        }
                        assert(!p.received.contains(i - ahead));
                    } else {
                        assert(v == top - 1 - (i - ahead));
                        assert(p.received.contains(i - ahead) <==> arrived(arrivals, n - 1, v));
                    }
                }
            }
        } else if t == top {
            assert(ahead == 0 && back == 0);
            lemma_newest_arrived(arrivals, n - 1);
            assert forall|i: int| #[trigger]
                s.received.contains(i) <==> 0 <= i < WINDOW && arrived(
                    arrivals,
                    n,
                    newest(arrivals, n) - 1 - i,
                ) by {
                assert(p.received.contains(i) <==> 0 <= i < WINDOW && arrived(
                    arrivals,
                    n - 1,
                    top - 1 - i,
                ));
            }
        } else {
            assert(back == top - t) by {
                vstd::arithmetic::div_mod::lemma_small_mod((top - t) as nat, circle() as nat);
            }
            assert(ahead == circle() - (top - t)) by {
                vstd::arithmetic::div_mod::lemma_mod_add_multiples_vanish(t - top, circle());
                vstd::arithmetic::div_mod::lemma_small_mod(
                    (circle() - (top - t)) as nat,
                    circle() as nat,
                );
            }
            assert forall|i: int| #[trigger]
                s.received.contains(i) <==> 0 <= i < WINDOW && arrived(
                    arrivals,
                    n,
                    newest(arrivals, n) - 1 - i,
                ) by {
                assert(p.received.contains(i) <==> 0 <= i < WINDOW && arrived(
                    arrivals,
                    n - 1,
                    top - 1 - i,
                ));
            }
        }
    }
}

proof fn lemma_newest_arrived(arrivals: Seq<int>, n: int)
    requires
        1 <= n <= arrivals.len(),
    ensures
        arrived(arrivals, n, newest(arrivals, n)),
    decreases n,
{
    if n > 1 {
        lemma_newest_arrived(arrivals, n - 1);
    }
}

/// What is reported missing is exactly what has not arrived: an offset is missing when and only
/// when the packet it stands for is among the sixteen behind the newest, came after the first
/// packet, and has not arrived.
pub proof fn law_missing_is_not_arrived(arrivals: Seq<int>, n: int, i: int)
    requires
        1 <= n <= arrivals.len(),
        within_reach(arrivals),
    ensures
        missing(state_after(arrivals, n), i) <==> {
            let packet = newest(arrivals, n) - 1 - i;
            0 <= i < WINDOW && packet >= arrivals[0] && !arrived(arrivals, n, packet)
        },
{
    law_detector_tracks_history(arrivals, n);
    let s = state_after(arrivals, n);
    assert(s.received.contains(i) <==> 0 <= i < WINDOW && arrived(
        arrivals,
        n,
        newest(arrivals, n) - 1 - i,
    ));
}

/// Packets that arrive in order, each one ahead of the last by one, leave nothing missing.
pub proof fn law_in_order_has_no_gap(arrivals: Seq<int>, n: int, i: int)
    requires
        1 <= n <= arrivals.len(),
        forall|k: int| 1 <= k < arrivals.len() ==> #[trigger] arrivals[k] == arrivals[0] + k,
    ensures
        !missing(state_after(arrivals, n), i),
{
    assert forall|k: int| 1 <= k <= arrivals.len() implies #[trigger] newest(arrivals, k)
        == arrivals[0] + k - 1 by {
        lemma_in_order_newest(arrivals, k);
    }
    assert(within_reach(arrivals)) by {
        assert forall|k: int| 1 <= k < arrivals.len() implies -HALF_CIRCLE < #[trigger] arrivals[k]
            - newest(arrivals, k) < HALF_CIRCLE by {
            assert(newest(arrivals, k) == arrivals[0] + k - 1);
        }
    }
    law_missing_is_not_arrived(arrivals, n, i);
    let packet = newest(arrivals, n) - 1 - i;
    assert(newest(arrivals, n) == arrivals[0] + n - 1);
    if 0 <= i < WINDOW && packet >= arrivals[0] {
        lemma_in_order_arrived(arrivals, n, packet - arrivals[0]);
    }
}

proof fn lemma_in_order_newest(arrivals: Seq<int>, k: int)
    requires
        1 <= k <= arrivals.len(),
        forall|k: int| 1 <= k < arrivals.len() ==> #[trigger] arrivals[k] == arrivals[0] + k,
    ensures
        newest(arrivals, k) == arrivals[0] + k - 1,
    decreases k,
{
    if k > 1 {
        lemma_in_order_newest(arrivals, k - 1);
        assert(arrivals[k - 1] == arrivals[0] + (k - 1));
    }
}

proof fn lemma_in_order_arrived(arrivals: Seq<int>, n: int, k: int)
    requires
        0 <= k < n <= arrivals.len(),
        forall|k: int| 1 <= k < arrivals.len() ==> #[trigger] arrivals[k] == arrivals[0] + k,
    ensures
        arrived(arrivals, n, arrivals[0] + k),
    decreases n,
{
    if k == n - 1 {
        if k > 0 {
            assert(arrivals[k] == arrivals[0] + k);
        }
    } else {
        lemma_in_order_arrived(arrivals, n - 1, k);
    }
}

/// The numbers that are listed as missing are those at the missing offsets, and they are listed in
/// the order of the offsets.
proof fn lemma_listed_numbers(s: GapState, highest: u16, n: int)
    requires
        0 <= n <= 16,
    ensures
        forall|q: u16| #[trigger]
            missing_below(s, highest, n).contains(q) <==> exists|i: int|
                0 <= i < n && #[trigger] missing(s, i) && q == (highest - 1 - i) % 0x1_0000,
        forall|k: int|
            0 <= k < missing_below(s, highest, n).len() ==> 1 <= (highest
                - #[trigger] missing_below(s, highest, n)[k]) % 0x1_0000 <= n,
        forall|a: int, b: int|
            0 <= a < b < missing_below(s, highest, n).len() ==> (highest
                - #[trigger] missing_below(s, highest, n)[a]) % 0x1_0000 < (highest
                - #[trigger] missing_below(s, highest, n)[b]) % 0x1_0000,
    decreases n,
{
    let all = missing_below(s, highest, n);
    if n > 0 {
        lemma_listed_numbers(s, highest, n - 1);
        let rest = missing_below(s, highest, n - 1);
        let x = behind(highest, n);
        assert(x == (highest - n) % 0x1_0000);
        assert((highest - x) % 0x1_0000 == n);
        assert forall|q: u16| #[trigger] all.contains(q) <==> exists|i: int|
            0 <= i < n && #[trigger] missing(s, i) && q == (highest - 1 - i) % 0x1_0000 by {
            if missing(s, n - 1) {
                assert(all == rest.push(x));
                assert(all[all.len() - 1] == x);
                if all.contains(q) {
                    let k = choose|k: int| 0 <= k < all.len() && all[k] == q;
                    if k < rest.len() {
                        assert(rest[k] == q);
                        assert(rest.contains(q));
                    } else {
                        assert(missing(s, n - 1) && q == (highest - 1 - (n - 1)) % 0x1_0000);
                    }
                }
                if exists|i: int|
                    0 <= i < n && #[trigger] missing(s, i) && q == (highest - 1 - i) % 0x1_0000 {
                    let i = choose|i: int|
                        0 <= i < n && #[trigger] missing(s, i) && q == (highest - 1 - i)
                            % 0x1_0000;
                    if i < n - 1 {
                        assert(rest.contains(q));
                        let k = choose|k: int| 0 <= k < rest.len() && rest[k] == q;
                        assert(all[k] == q);
                    }
                }
            } else {
                assert(all == rest);
                assert(rest.contains(q) <==> exists|i: int|
                    0 <= i < n - 1 && #[trigger] missing(s, i) && q == (highest - 1 - i)
                        % 0x1_0000);
            }
        }
        if missing(s, n - 1) {
            assert(all == rest.push(x));
            assert forall|k: int| 0 <= k < all.len() implies 1 <= (highest - #[trigger] all[k])
                % 0x1_0000 <= n by {
                if k < rest.len() {
                    assert(all[k] == rest[k]);
                }
            }
            assert forall|a: int, b: int| 0 <= a < b < all.len() implies (highest
                - #[trigger] all[a]) % 0x1_0000 < (highest - #[trigger] all[b]) % 0x1_0000 by {
                assert(all[a] == rest[a]);
                if b < rest.len() {
                    assert(all[b] == rest[b]);
                }
            }
        }
    }
}

/// Distances on the circle are those of the packets.
proof fn lemma_circle_distance(top: int, highest: u16, x: int)
    requires
        highest == top % 0x1_0000,
    ensures
        (top - x) % 0x1_0000 == (highest - x) % 0x1_0000,
{
}

/// Two numbers at most sixteen behind another one are equal only at the same distance.
proof fn lemma_same_distance(highest: u16, i: int, j: int)
    requires
        0 <= i < 16,
        0 <= j < 16,
        (highest - 1 - i) % 0x1_0000 == (highest - 1 - j) % 0x1_0000,
    ensures
        i == j,
{
}

/// The report of a history of arrivals lists the packets that are missing: those among the sixteen
/// before the newest that came after the first and have not arrived. In the bitmap, bit 0 stands
/// for the packet right before the newest.
pub proof fn law_report_lists_what_has_not_arrived(
    arrivals: Seq<int>,
    n: int,
    r: GapReport,
    back: int,
)
    requires
        1 <= n <= arrivals.len(),
        forall|k: int|
            1 <= k < arrivals.len() ==> -32768 < #[trigger] arrivals[k] - newest(arrivals, k)
                < 32768,
        reports(state_after(arrivals, n), r),
        1 <= back <= 16,
    ensures
        ({
            let packet = newest(arrivals, n) - back;
            let lost = packet > arrivals[0] && !arrived(arrivals, n, packet);
            &&& r.missing_seqs@.contains((packet % 0x1_0000) as u16) <==> lost
            &&& bit(r.nack_bitmap, (back - 1) as u16) <==> lost
        }),
{
    let s = state_after(arrivals, n);
    let top = newest(arrivals, n);
    let packet = top - back;
    assert(within_reach(arrivals));
    law_detector_tracks_history(arrivals, n);
    law_missing_is_not_arrived(arrivals, n, back - 1);
    lemma_first_arrived(arrivals, n);
    let lost = packet > arrivals[0] && !arrived(arrivals, n, packet);
    assert(missing(s, back - 1) <==> lost);
    assert(bit(r.nack_bitmap, (back - 1) as u16) <==> missing(s, back - 1));
    let highest = wire(top);
    let q = (packet % 0x1_0000) as u16;
    lemma_circle_distance(top, highest, back);
    let listed = r.missing_seqs@;
    assert(listed.contains(q) <==> lost) by {
        lemma_listed_numbers(s, highest, 16);
        assert(listed == missing_below(s, highest, 16));
        if listed.contains(q) {
            let i = choose|i: int|
                0 <= i < 16 && #[trigger] missing(s, i) && q == (highest - 1 - i) % 0x1_0000;
            lemma_same_distance(highest, i, back - 1);
        }
        if lost {
            assert(missing(s, back - 1) && q == (highest - 1 - (back - 1)) % 0x1_0000);
        }
    }
}

/// The missing packets are listed newest first, none twice, and none from farther back than sixteen
/// before the newest.
pub proof fn law_report_lists_newest_first(arrivals: Seq<int>, n: int, r: GapReport, a: int, b: int)
    requires
        1 <= n <= arrivals.len(),
        forall|k: int|
            1 <= k < arrivals.len() ==> -32768 < #[trigger] arrivals[k] - newest(arrivals, k)
                < 32768,
        reports(state_after(arrivals, n), r),
        0 <= a < r.missing_seqs@.len(),
    ensures
        1 <= (newest(arrivals, n) - r.missing_seqs@[a]) % 0x1_0000 <= 16,
        a < b < r.missing_seqs@.len() ==> (newest(arrivals, n) - r.missing_seqs@[a]) % 0x1_0000 < (
        newest(arrivals, n) - r.missing_seqs@[b]) % 0x1_0000,
{
    let s = state_after(arrivals, n);
    let top = newest(arrivals, n);
    assert(within_reach(arrivals));
    law_detector_tracks_history(arrivals, n);
    let highest = wire(top);
    lemma_listed_numbers(s, highest, 16);
    let listed = r.missing_seqs@;
    assert(listed == missing_below(s, highest, 16));
    lemma_circle_distance(top, highest, listed[a] as int);
    if a < b < listed.len() {
        lemma_circle_distance(top, highest, listed[b] as int);
    }
}

proof fn lemma_first_arrived(arrivals: Seq<int>, n: int)
    requires
        1 <= n <= arrivals.len(),
    ensures
        arrived(arrivals, n, arrivals[0]),
    decreases n,
{
    if n > 1 {
        lemma_first_arrived(arrivals, n - 1);
    }
}

/// The report of a history of arrivals counts the packets lost in a row right before the newest, at
/// most sixteen of them, and says how far the last packet lies behind the newest.
pub proof fn law_report_counts_losses_in_a_row(arrivals: Seq<int>, n: int, r: GapReport, back: int)
    requires
        1 <= n <= arrivals.len(),
        forall|k: int|
            1 <= k < arrivals.len() ==> -32768 < #[trigger] arrivals[k] - newest(arrivals, k)
                < 32768,
        reports(state_after(arrivals, n), r),
    ensures
        r.consecutive_loss <= 16,
        1 <= back <= r.consecutive_loss ==> newest(arrivals, n) - back > arrivals[0] && !arrived(
            arrivals,
            n,
            newest(arrivals, n) - back,
        ),
        r.consecutive_loss < 16 ==> arrived(
            arrivals,
            n,
            newest(arrivals, n) - 1 - r.consecutive_loss,
        ) || newest(arrivals, n) - 1 - r.consecutive_loss < arrivals[0],
        r.frame_gap == newest(arrivals, n) - arrivals[n - 1],
{
    let s = state_after(arrivals, n);
    assert(within_reach(arrivals));
    law_detector_tracks_history(arrivals, n);
    lemma_first_arrived(arrivals, n);
    if 1 <= back <= r.consecutive_loss {
        assert(missing(s, back - 1));
        law_missing_is_not_arrived(arrivals, n, back - 1);
    }
    law_missing_is_not_arrived(arrivals, n, r.consecutive_loss as int);
    let (top, last) = (newest(arrivals, n), arrivals[n - 1]);
    lemma_wire_distance(top, last);
    assert(0 <= top - last < 32768) by {
        if n > 1 {
            let before = newest(arrivals, n - 1);
            assert(-32768 < arrivals[n - 1] - newest(arrivals, n - 1) < 32768);
        }
    }
    vstd::arithmetic::div_mod::lemma_small_mod((top - last) as nat, 0x1_0000);
}

/// A number up to 32767 ahead of the highest becomes the highest. A number farther ahead counts as
/// one behind and leaves the highest as it is. Either way it is the last one received.
pub proof fn law_newer_numbers_take_over(s: GapState, seq: u16)
    ensures
        s.ends is None ==> after(s, seq).ends == Some((seq, seq)),
        s.ends matches Some((highest, _)) ==> after(s, seq).ends == Some(
            (
                if (seq - highest) % 0x1_0000 < 0x8000 {
                    seq
                } else {
                    highest
                },
                seq,
            ),
        ),
{
}

/// Before the first packet nothing is reported.
pub proof fn law_nothing_is_missing_before_the_first(r: GapReport)
    requires
        reports(fresh(), r),
    ensures
        r.consecutive_loss == 0,
        r.frame_gap == 0,
        r.nack_bitmap == 0,
        r.missing_seqs@.len() == 0,
{
}

/// In the bitmap, bit `i` is worth 2 to the power `i`.
pub proof fn law_bitmap_bits(m: u16, i: u16)
    requires
        i < 16,
    ensures
        bit(m, i) <==> m & (1u16 << i) != 0,
{
    assert((m >> i) & 1u16 == 1u16 <==> m & (1u16 << i) != 0) by (bit_vector)
        requires
            i < 16,
    ;
}

/// What one packet does to the window. A newer one moves it up, so that what was at an offset is
/// then as much further back; an older one within sixteen of the highest is marked as received; and
/// any other leaves it alone.
pub proof fn law_one_packet_moves_the_window(s: GapState, seq: u16, i: int)
    requires
        s.ends is Some,
    ensures
        ({
            let (highest, _) = s.ends->0;
            let ahead = (seq - highest) % 0x1_0000;
            let back = (highest - seq) % 0x1_0000;
            let t = after(s, seq);
            &&& 0 < ahead < 0x8000 ==> {
                &&& t.received.contains(i) <==> 0 <= i < 16 && (i + 1 == ahead
                    || s.received.contains(i - ahead))
                &&& t.covered == (if s.covered + ahead <= 16 {
                    s.covered + ahead
                } else {
                    16
                })
            }
            &&& !(0 < ahead < 0x8000) ==> {
                &&& t.covered == s.covered
                &&& t.received.contains(i) <==> s.received.contains(i) || i + 1 == back && 1 <= back
                    <= 16
            }
        }),
{
}

} // verus!
