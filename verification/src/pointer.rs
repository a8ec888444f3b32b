//! Pointer bookkeeping of the input monitor: click debouncing and the hover cursor.

use vstd::prelude::*;

verus! {

/// Clicks closer than this to the last accepted click are duplicates, in milliseconds.
pub const DEBOUNCE_MS: u64 = 800;

/// What the input monitor remembers between pointer events.
///
/// `last_click_time_ms` is meaningful once `click_seen` is set; before the
/// first accepted click there is nothing to debounce against.
#[derive(Clone, Copy, Debug, PartialEq, Eq, Structural)]
pub struct PointerRegionState {
    pub click_seen: bool,
    pub last_click_time_ms: u64,
    pub cursor_is_hand: bool,
}

/// A click is accepted when it is the first one, or when at least the debounce
/// window has passed since the last accepted one. A click stamped earlier than
/// the last accepted one counts as no time passed.
pub open spec fn spec_click_accepted(s: PointerRegionState, now_ms: u64) -> bool {
    !s.click_seen || now_ms - s.last_click_time_ms >= DEBOUNCE_MS
}

/// The state after a click: an accepted click becomes the one to debounce
/// against, a discarded click leaves no trace.
pub open spec fn spec_after_click(s: PointerRegionState, now_ms: u64) -> PointerRegionState {
    if spec_click_accepted(s, now_ms) {
        PointerRegionState { click_seen: true, last_click_time_ms: now_ms, ..s }
    } else {
        s
    }
}

/// The state after a run of clicks, oldest first.
pub open spec fn spec_after_clicks(s: PointerRegionState, times: Seq<u64>) -> PointerRegionState
    decreases times.len(),
{
    if times.len() == 0 {
        s
    } else {
        spec_after_click(spec_after_clicks(s, times.drop_last()), times.last())
    }
}

/// The cursor change that a pointer move calls for: the hand on entering the
/// avatar, the arrow on leaving it, nothing while the pointer stays on its side.
pub open spec fn spec_cursor_change(s: PointerRegionState, over_avatar: bool) -> Option<bool> {
    if over_avatar != s.cursor_is_hand {
        Some(over_avatar)
    } else {
        None
    }
}

/// The state after a pointer move.
pub open spec fn spec_after_move(s: PointerRegionState, over_avatar: bool) -> PointerRegionState {
    PointerRegionState { cursor_is_hand: over_avatar, ..s }
}

impl PointerRegionState {
    /// The state before any pointer event.
    pub fn new() -> (r: PointerRegionState)
        ensures
            r == (PointerRegionState {
                click_seen: false,
                last_click_time_ms: 0,
                cursor_is_hand: false,
            }),
    {
        PointerRegionState { click_seen: false, last_click_time_ms: 0, cursor_is_hand: false }
    }

    /// Debounces one click: returns whether it is accepted and, if so, records
    /// its time stamp.
    pub fn accept_click(&mut self, now_ms: u64) -> (accepted: bool)
        ensures
            accepted == spec_click_accepted(*old(self), now_ms),
            *final(self) == spec_after_click(*old(self), now_ms),
    {
        let accepted = if !self.click_seen {
            true
        } else if now_ms > self.last_click_time_ms {
            now_ms - self.last_click_time_ms >= DEBOUNCE_MS
        } else {
            false
        };
        if accepted {
            self.click_seen = true;
            self.last_click_time_ms = now_ms;
        }
        accepted
    }

    /// Tracks whether the pointer is over the avatar; returns the cursor to
    /// switch to when it has just entered or left.
    pub fn track_hover(&mut self, over_avatar: bool) -> (change: Option<bool>)
        ensures
            change == spec_cursor_change(*old(self), over_avatar),
            *final(self) == spec_after_move(*old(self), over_avatar),
    {
        if over_avatar != self.cursor_is_hand {
            self.cursor_is_hand = over_avatar;
            Some(over_avatar)
        } else {
            None
        }
    }
}

/// After an accepted click, every click that follows within the debounce window
/// is discarded and leaves the state as the accepted click left it.
pub proof fn lemma_click_in_window_is_discarded(
    s: PointerRegionState,
    first_ms: u64,
    second_ms: u64,
)
    requires
        spec_click_accepted(s, first_ms),
        second_ms - first_ms < DEBOUNCE_MS,
    ensures
        !spec_click_accepted(spec_after_click(s, first_ms), second_ms),
        spec_after_click(spec_after_click(s, first_ms), second_ms) == spec_after_click(
            s,
            first_ms,
        ),
{
}

/// Of a run of clicks that all fall within the debounce window of an accepted
/// first click, no matter how many and in what order, none is accepted.
pub proof fn lemma_burst_keeps_first_click(
    s: PointerRegionState,
    first_ms: u64,
    burst: Seq<u64>,
)
    requires
        spec_click_accepted(s, first_ms),
        forall|i: int| 0 <= i < burst.len() ==> burst[i] - first_ms < DEBOUNCE_MS,
    ensures
        spec_after_clicks(spec_after_click(s, first_ms), burst) == spec_after_click(s, first_ms),
        forall|i: int|
            0 <= i < burst.len() ==> !spec_click_accepted(
                spec_after_clicks(spec_after_click(s, first_ms), burst.take(i)),
                #[trigger] burst[i],
            ),
    decreases burst.len(),
{
    let first = spec_after_click(s, first_ms);
    if burst.len() > 0 {
        let shorter = burst.drop_last();
        lemma_burst_keeps_first_click(s, first_ms, shorter);
        lemma_click_in_window_is_discarded(s, first_ms, burst.last());
        assert forall|i: int| 0 <= i < burst.len() implies !spec_click_accepted(
            spec_after_clicks(first, burst.take(i)),
            #[trigger] burst[i],
        ) by {
            if i < shorter.len() {
                assert(burst.take(i) =~= shorter.take(i));
                assert(burst[i] == shorter[i]);
            } else {
                assert(burst.take(i) =~= shorter);
            }
        }
    }
}

} // verus!
