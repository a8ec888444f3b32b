//! The animation scheduler: a cursor over three sprite sequences.
//!
//! The spawn and yawn sequences play once, in that order; the idle sequence
//! then loops for as long as the animation runs.

use vstd::prelude::*;

verus! {

/// Pause between frames of the spawn sequence, in milliseconds.
pub const SPAWN_DELAY_MS: u64 = 50;

/// Pause between frames of the yawn sequence, in milliseconds.
pub const YAWN_DELAY_MS: u64 = 50;

/// Pause between frames of the idle loop, in milliseconds.
pub const IDLE_DELAY_MS: u64 = 80;

/// How often a scheduler that is waiting for its frames looks again, in milliseconds.
pub const READY_POLL_MS: u64 = 10;

/// One of the three stages of the sprite animation.
#[derive(Clone, Copy, Debug, PartialEq, Eq, Structural)]
pub enum Phase {
    Spawn,
    Yawn,
    Idle,
}

/// How many frames each sequence holds.
#[derive(Clone, Copy, Debug, PartialEq, Eq, Structural)]
pub struct FrameCounts {
    pub spawn: usize,
    pub yawn: usize,
    pub idle: usize,
}

/// Position of the animation: the active phase and the frame within it.
#[derive(Clone, Copy, Debug, PartialEq, Eq, Structural)]
pub struct AnimationCursor {
    pub phase: Phase,
    pub frame_index: usize,
    pub frames_ready: bool,
}

/// Position of a phase in the order spawn, yawn, idle.
pub open spec fn phase_rank(phase: Phase) -> nat {
    match phase {
        Phase::Spawn => 0,
        Phase::Yawn => 1,
        Phase::Idle => 2,
    }
}

/// Number of frames of one phase.
pub open spec fn spec_count(counts: FrameCounts, phase: Phase) -> usize {
    match phase {
        Phase::Spawn => counts.spawn,
        Phase::Yawn => counts.yawn,
        Phase::Idle => counts.idle,
    }
}

/// Pause after a frame of the given phase.
pub open spec fn spec_delay(phase: Phase) -> u64 {
    match phase {
        Phase::Spawn => SPAWN_DELAY_MS,
        Phase::Yawn => YAWN_DELAY_MS,
        Phase::Idle => IDLE_DELAY_MS,
    }
}

/// The cursor at the start of an animation run.
pub open spec fn spec_start(frames_ready: bool) -> AnimationCursor {
    AnimationCursor { phase: Phase::Spawn, frame_index: 0, frames_ready }
}

/// The frame index stays inside the active sequence whenever that sequence has
/// frames at all; with an empty sequence it rests at zero.
pub open spec fn cursor_valid(cursor: AnimationCursor, counts: FrameCounts) -> bool {
    let count = spec_count(counts, cursor.phase);
    if count > 0 {
        cursor.frame_index < count
    } else {
        cursor.frame_index == 0
    }
}

/// The frame to put on screen at this tick: none while the active sequence is
/// empty.
pub open spec fn spec_shown(cursor: AnimationCursor, counts: FrameCounts) -> Option<usize> {
    let count = spec_count(counts, cursor.phase);
    if count > 0 {
        Some(((cursor.frame_index as int) % (count as int)) as usize)
    } else {
        None
    }
}

/// The cursor after one tick. Spawn hands over to yawn and yawn to idle once
/// their last frame has been shown; idle wraps around.
pub open spec fn spec_advance(cursor: AnimationCursor, counts: FrameCounts) -> AnimationCursor {
    let count = spec_count(counts, cursor.phase);
    let next = cursor.frame_index + 1;
    match cursor.phase {
        Phase::Spawn => if next >= count {
            AnimationCursor { phase: Phase::Yawn, frame_index: 0, ..cursor }
        } else {
            AnimationCursor { frame_index: next as usize, ..cursor }
        },
        Phase::Yawn => if next >= count {
            AnimationCursor { phase: Phase::Idle, frame_index: 0, ..cursor }
        } else {
            AnimationCursor { frame_index: next as usize, ..cursor }
        },
        Phase::Idle => if count > 0 {
            AnimationCursor { frame_index: (next % (count as int)) as usize, ..cursor }
        } else {
            AnimationCursor { frame_index: 0, ..cursor }
        },
    }
}

/// The cursor after `ticks` ticks.
pub open spec fn spec_advance_by(cursor: AnimationCursor, counts: FrameCounts, ticks: nat)
    -> AnimationCursor
    decreases ticks,
{
    if ticks == 0 {
        cursor
    } else {
        spec_advance(spec_advance_by(cursor, counts, (ticks - 1) as nat), counts)
    }
}

impl FrameCounts {
    /// Counts of an overlay without any frame.
    pub fn empty() -> (r: FrameCounts)
        ensures
            r == (FrameCounts { spawn: 0, yawn: 0, idle: 0 }),
    {
        FrameCounts { spawn: 0, yawn: 0, idle: 0 }
    }

    /// Number of frames of one phase.
    pub fn count(&self, phase: Phase) -> (r: usize)
        ensures
            r == spec_count(*self, phase),
    {
        match phase {
            Phase::Spawn => self.spawn,
            Phase::Yawn => self.yawn,
            Phase::Idle => self.idle,
        }
    }
}

/// Pause after a frame of the given phase, in milliseconds.
pub fn frame_delay(phase: Phase) -> (r: u64)
    ensures
        r == spec_delay(phase),
{
    match phase {
        Phase::Spawn => SPAWN_DELAY_MS,
        Phase::Yawn => YAWN_DELAY_MS,
        Phase::Idle => IDLE_DELAY_MS,
    }
}

impl AnimationCursor {
    /// A cursor at the first spawn frame, still waiting for its frames.
    pub fn new() -> (r: AnimationCursor)
        ensures
            r == spec_start(false),
            forall|counts: FrameCounts| cursor_valid(r, counts),
    {
        AnimationCursor { phase: Phase::Spawn, frame_index: 0, frames_ready: false }
    }

    /// The frame to display at this tick, if the active sequence has any.
    pub fn shown(&self, counts: FrameCounts) -> (r: Option<usize>)
        ensures
            r == spec_shown(*self, counts),
            r matches Some(i) ==> i < spec_count(counts, self.phase),
    {
        let count = counts.count(self.phase);
        if count > 0 {
            Some(self.frame_index % count)
        } else {
            None
        }
    }

    /// Moves the cursor on by one tick.
    pub fn advance(&mut self, counts: FrameCounts)
        requires
            cursor_valid(*old(self), counts),
        ensures
            *final(self) == spec_advance(*old(self), counts),
            cursor_valid(*final(self), counts),
            phase_rank(old(self).phase) <= phase_rank(final(self).phase) <= phase_rank(
                old(self).phase,
            ) + 1,
    {
        let count = counts.count(self.phase);
        match self.phase {
            Phase::Spawn => {
                if count == 0 || self.frame_index + 1 >= count {
                    self.phase = Phase::Yawn;
                    self.frame_index = 0;
                } else {
                    self.frame_index = self.frame_index + 1;
                }
            },
            Phase::Yawn => {
                if count == 0 || self.frame_index + 1 >= count {
                    self.phase = Phase::Idle;
                    self.frame_index = 0;
                } else {
                    self.frame_index = self.frame_index + 1;
                }
            },
            Phase::Idle => {
                if count == 0 {
                    self.frame_index = 0;
                } else {
                    self.frame_index = (self.frame_index + 1) % count;
                }
            },
        }
    }
}

/// Every tick leaves the frame index inside the active sequence and never moves
/// the phase backward, however many ticks are taken.
pub proof fn lemma_ticks_keep_cursor_valid(
    cursor: AnimationCursor,
    counts: FrameCounts,
    ticks: nat,
)
    requires
        cursor_valid(cursor, counts),
    ensures
        cursor_valid(spec_advance_by(cursor, counts, ticks), counts),
        spec_count(counts, spec_advance_by(cursor, counts, ticks).phase) > 0
            ==> spec_advance_by(cursor, counts, ticks).frame_index < spec_count(
            counts,
            spec_advance_by(cursor, counts, ticks).phase,
        ),
        phase_rank(cursor.phase) <= phase_rank(spec_advance_by(cursor, counts, ticks).phase),
        spec_advance_by(cursor, counts, ticks).frames_ready == cursor.frames_ready,
    decreases ticks,
{
    if ticks > 0 {
        lemma_ticks_keep_cursor_valid(cursor, counts, (ticks - 1) as nat);
    }
}

/// Between any two moments of one run the phase has not gone backward: the
/// phase after `earlier` ticks is never past the phase after `later` ticks.
pub proof fn lemma_phase_never_goes_back(
    cursor: AnimationCursor,
    counts: FrameCounts,
    earlier: nat,
    later: nat,
)
    requires
        cursor_valid(cursor, counts),
        earlier <= later,
    ensures
        phase_rank(spec_advance_by(cursor, counts, earlier).phase) <= phase_rank(
            spec_advance_by(cursor, counts, later).phase,
        ),
    decreases later,
{
    if earlier < later {
        lemma_phase_never_goes_back(cursor, counts, earlier, (later - 1) as nat);
        lemma_ticks_keep_cursor_valid(cursor, counts, (later - 1) as nat);
    }
}

/// Once the idle loop is reached it is never left.
pub proof fn lemma_idle_is_final(cursor: AnimationCursor, counts: FrameCounts, ticks: nat)
    requires
        cursor.phase == Phase::Idle,
    ensures
        spec_advance_by(cursor, counts, ticks).phase == Phase::Idle,
    decreases ticks,
{
    if ticks > 0 {
        lemma_idle_is_final(cursor, counts, (ticks - 1) as nat);
    }
}

} // verus!
