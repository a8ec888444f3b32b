//! What the controller asks its host to do.
//!
//! Actions carry no text. Where an action shows text (a reply, a speech
//! bubble), the host reads it from the controller at the moment it performs
//! the action, so that a newer text always supersedes an older one.

use vstd::prelude::*;
use crate::animation::Phase;
use crate::geometry::Anchor;

verus! {

/// One display or scheduling request, performed by the host in list order.
#[derive(Clone, Copy, Debug, PartialEq, Eq, Structural)]
pub enum Action {
    /// Build the overlay panel and its surfaces at this anchor.
    CreatePanel(Anchor),
    /// Start the loop that delivers animation ticks.
    SpawnAnimation,
    /// Start the loop that delivers screen-monitor ticks.
    SpawnScreenMonitor,
    /// Subscribe to pointer and key events and start the loop that keeps the
    /// subscriptions alive.
    SpawnClickMonitor,
    /// Bring the overlay panel to the front.
    ShowOverlay,
    /// Take the overlay panel off screen.
    HideOverlay,
    /// Close the overlay panel and release its surfaces.
    CloseOverlay,
    /// Drop the sprite images.
    ReleaseFrames,
    /// Move the overlay panel to this anchor and keep it above other windows.
    MoveOverlay(Anchor),
    /// Put this frame of this phase on the avatar surface.
    DisplayFrame(Phase, usize),
    /// Show the speech bubble with the controller's bubble text.
    ShowSpeechBubble,
    /// Hide the speech bubble.
    HideSpeechBubble,
    /// Play the bounce that acknowledges a click on the avatar.
    ClickFeedback,
    /// Switch between the pointing-hand cursor (true) and the arrow (false).
    SetHandCursor(bool),
    /// Show the chat input surface.
    ShowInput,
    /// Give the chat input the keyboard focus.
    FocusInput,
    /// Hide the chat input surface.
    HideInput,
    /// Empty the chat input.
    ClearInput,
    /// Let pointer events pass through the overlay (true) or not (false).
    SetPassThrough(bool),
    /// Show the thinking indicator.
    ShowThinking,
    /// Hide the thinking indicator.
    HideThinking,
    /// Show the reply surface with the text revealed so far.
    ShowReply,
    /// Replace the text of the reply surface with the text revealed so far.
    UpdateReply,
    /// Hide the reply surface.
    HideReply,
    /// Run one query for the submitted message, off the interaction thread, and
    /// report its outcome back.
    StartQuery,
    /// Deliver a reveal tick after this many milliseconds.
    ScheduleRevealTick(u64),
    /// Deliver the auto-hide after this many milliseconds.
    ScheduleAutoHide(u64),
}

/// One turn of a polling loop: what to do now, and after how many milliseconds
/// to come back. A loop that gets no delay ends.
#[derive(Clone, Debug, PartialEq, Eq)]
pub struct Step {
    pub actions: Vec<Action>,
    pub next_ms: Option<u64>,
}

impl View for Step {
    type V = (Seq<Action>, Option<u64>);

    open spec fn view(&self) -> (Seq<Action>, Option<u64>) {
        (self.actions@, self.next_ms)
    }
}

/// An empty action list.
pub fn no_actions() -> (r: Vec<Action>)
    ensures
        r@ == Seq::<Action>::empty(),
{
    Vec::new()
}

/// A list of one action.
pub fn one_action(a: Action) -> (r: Vec<Action>)
    ensures
        r@ == seq![a],
{
    let mut v = Vec::new();
    v.push(a);
    v
}

} // verus!
