//! The overlay controller: every entry point of the overlay, as a transition
//! on one owned state.
//!
//! The host keeps the controller behind whatever synchronisation it likes and
//! feeds it events: commands of the application shell, pointer and key events,
//! ticks of its polling loops, and the outcome of a query. Each call commits
//! one transition and returns what has to happen on screen.

use vstd::prelude::*;
use vstd::string::*;
use crate::action::{no_actions, one_action, Action, Step};
use crate::animation::{
    cursor_valid,
    frame_delay,
    spec_advance,
    spec_delay,
    spec_shown,
    spec_start,
    AnimationCursor,
    FrameCounts,
    Phase,
    READY_POLL_MS,
};
use crate::chat::{
    idle_session,
    session_wf,
    spec_begin_thinking,
    spec_close_input,
    spec_dismiss,
    spec_open_input,
    spec_respond,
    spec_reveal_tick,
    spec_revealed,
    spec_send,
    spec_start_reveal,
    spec_submit,
    spec_toggle,
    ChatSession,
    ChatState,
    SessionView,
};
use crate::geometry::{
    active_screen,
    anchor_position,
    is_on_avatar,
    on_avatar,
    spec_active_screen,
    spec_anchor,
    Anchor,
    Point,
    ScreenRect,
};
use crate::pointer::{
    spec_after_click,
    spec_after_move,
    spec_click_accepted,
    spec_cursor_change,
    PointerRegionState,
};
use crate::query::{
    body_fields,
    interpret_body,
    outcome_view,
    prepare_request,
    reply_text,
    spec_classify,
    spec_reply_text,
    spec_request,
    ChatRequest,
    Persona,
    QueryError,
    QueryFailure,
};

verus! {

/// How often the screen monitor looks for the active display, in milliseconds.
pub const SCREEN_POLL_MS: u64 = 500;

/// How often the click monitor checks whether it should go on, in milliseconds.
pub const CLICK_MONITOR_POLL_MS: u64 = 100;

/// Key code of the return key.
pub const KEY_RETURN: u16 = 36;

/// Key code of the enter key of the numeric pad.
pub const KEY_ENTER: u16 = 76;

/// Size of the overlay panel, fixed when the overlay is created.
#[derive(Clone, Copy, Debug, PartialEq, Eq, Structural)]
pub struct OverlayConfig {
    pub anchor_width: i32,
    pub anchor_height: i32,
}

/// Everything the overlay knows.
pub struct OverlayController {
    config: OverlayConfig,
    open: bool,
    visible: bool,
    anchor: Anchor,
    frame_counts: FrameCounts,
    cursor: AnimationCursor,
    animation_running: bool,
    monitor_running: bool,
    click_monitor_running: bool,
    pointer: PointerRegionState,
    session: ChatSession,
    api_key: String,
    bubble_text: String,
    bubble_shown: bool,
}

/// The controller's state as plain mathematical values.
pub struct OverlayModel {
    pub config: OverlayConfig,
    /// The overlay exists: it was created and not closed since.
    pub open: bool,
    pub visible: bool,
    /// Where the panel was last put.
    pub anchor: Anchor,
    pub frame_counts: FrameCounts,
    pub cursor: AnimationCursor,
    pub animation_running: bool,
    pub monitor_running: bool,
    pub click_monitor_running: bool,
    pub pointer: PointerRegionState,
    pub session: SessionView,
    pub api_key: Seq<char>,
    pub bubble_text: Seq<char>,
    pub bubble_shown: bool,
}

impl View for OverlayController {
    type V = OverlayModel;

    closed spec fn view(&self) -> OverlayModel {
        OverlayModel {
            config: self.config,
            open: self.open,
            visible: self.visible,
            anchor: self.anchor,
            frame_counts: self.frame_counts,
            cursor: self.cursor,
            animation_running: self.animation_running,
            monitor_running: self.monitor_running,
            click_monitor_running: self.click_monitor_running,
            pointer: self.pointer,
            session: self.session@,
            api_key: self.api_key@,
            bubble_text: self.bubble_text@,
            bubble_shown: self.bubble_shown,
        }
    }
}

/// The invariant of the controller: the session and the animation cursor are
/// sound, and an overlay that does not exist is neither visible nor in a chat.
pub open spec fn model_wf(m: OverlayModel) -> bool {
    &&& session_wf(m.session)
    &&& cursor_valid(m.cursor, m.frame_counts)
    &&& !m.open ==> !m.visible && !m.bubble_shown && m.session == idle_session()
}

/// The state before any overlay was created.
pub open spec fn initial_model() -> OverlayModel {
    OverlayModel {
        config: OverlayConfig { anchor_width: 320, anchor_height: 320 },
        open: false,
        visible: false,
        anchor: Anchor { x: 0, y: 0 },
        frame_counts: FrameCounts { spawn: 0, yawn: 0, idle: 0 },
        cursor: spec_start(false),
        animation_running: false,
        monitor_running: false,
        click_monitor_running: false,
        pointer: PointerRegionState {
            click_seen: false,
            last_click_time_ms: 0,
            cursor_is_hand: false,
        },
        session: idle_session(),
        api_key: Seq::empty(),
        bubble_text: Seq::empty(),
        bubble_shown: false,
    }
}

/// Applies a session transition to an overlay that exists; without an overlay
/// the event is dropped.
pub open spec fn with_session(m: OverlayModel, t: (SessionView, Seq<Action>)) -> (
    OverlayModel,
    Seq<Action>,
) {
    if m.open {
        (OverlayModel { session: t.0, ..m }, t.1)
    } else {
        (m, Seq::empty())
    }
}

/// The action that starts a loop, unless the loop is already running.
pub open spec fn spawn_unless(running: bool, spawn: Action) -> Seq<Action> {
    if running {
        Seq::empty()
    } else {
        seq![spawn]
    }
}

/// The first frame to put on a new panel: the first spawn frame, if any.
pub open spec fn first_frame(counts: FrameCounts) -> Seq<Action> {
    if counts.spawn > 0 {
        seq![Action::DisplayFrame(Phase::Spawn, 0)]
    } else {
        Seq::empty()
    }
}

/// Creating the overlay: the panel is built at the bottom-right anchor of the
/// active display and shown, the session starts idle, the animation starts at
/// the first spawn frame and waits for its frames, and the animation and input
/// loops are started unless they still run.
pub open spec fn spec_create(
    m: OverlayModel,
    width: i32,
    height: i32,
    counts: FrameCounts,
    pointer: Point,
    screens: Seq<ScreenRect>,
    primary: ScreenRect,
) -> (OverlayModel, Seq<Action>) {
    let anchor = spec_anchor(spec_active_screen(pointer, screens, primary), width);
    (
        OverlayModel {
            config: OverlayConfig { anchor_width: width, anchor_height: height },
            open: true,
            visible: true,
            anchor,
            frame_counts: counts,
            cursor: spec_start(false),
            animation_running: true,
            click_monitor_running: true,
            session: idle_session(),
            bubble_shown: false,
            ..m
        },
        seq![Action::CreatePanel(anchor)] + first_frame(counts) + spawn_unless(
            m.animation_running,
            Action::SpawnAnimation,
        ) + spawn_unless(m.click_monitor_running, Action::SpawnClickMonitor),
    )
}

/// The frames are on screen: the animation may run.
pub open spec fn spec_frames_ready(m: OverlayModel) -> OverlayModel {
    if m.open {
        OverlayModel { cursor: AnimationCursor { frames_ready: true, ..m.cursor }, ..m }
    } else {
        m
    }
}

/// Showing the overlay.
pub open spec fn spec_show(m: OverlayModel) -> (OverlayModel, Seq<Action>) {
    if m.open {
        (OverlayModel { visible: true, ..m }, seq![Action::ShowOverlay])
    } else {
        (m, Seq::empty())
    }
}

/// Hiding the overlay.
pub open spec fn spec_hide(m: OverlayModel) -> (OverlayModel, Seq<Action>) {
    if m.open {
        (OverlayModel { visible: false, ..m }, seq![Action::HideOverlay])
    } else {
        (m, Seq::empty())
    }
}

/// Closing the overlay: every loop is told to stop, the reveal is cut short,
/// the session returns to idle, the frames are dropped, and a query that is
/// still under way will find no overlay to answer to.
pub open spec fn spec_close(m: OverlayModel) -> (OverlayModel, Seq<Action>) {
    if m.open {
        (
            OverlayModel {
                open: false,
                visible: false,
                frame_counts: FrameCounts { spawn: 0, yawn: 0, idle: 0 },
                cursor: spec_start(false),
                animation_running: false,
                monitor_running: false,
                click_monitor_running: false,
                session: idle_session(),
                bubble_shown: false,
                ..m
            },
            seq![Action::CloseOverlay, Action::ReleaseFrames],
        )
    } else {
        (m, Seq::empty())
    }
}

/// Moving the overlay to the display under the pointer. The panel is put at
/// the bottom-right anchor of that display and raised, which also shows it.
pub open spec fn spec_move(
    m: OverlayModel,
    pointer: Point,
    screens: Seq<ScreenRect>,
    primary: ScreenRect,
) -> (OverlayModel, Seq<Action>) {
    if m.open {
        let anchor = spec_anchor(
            spec_active_screen(pointer, screens, primary),
            m.config.anchor_width,
        );
        (
            OverlayModel { anchor, visible: true, ..m },
            seq![Action::MoveOverlay(anchor), Action::ShowOverlay],
        )
    } else {
        (m, Seq::empty())
    }
}

/// Starting the screen monitor.
pub open spec fn spec_start_monitor(m: OverlayModel) -> (OverlayModel, Seq<Action>) {
    (
        OverlayModel { monitor_running: true, ..m },
        spawn_unless(m.monitor_running, Action::SpawnScreenMonitor),
    )
}

/// One turn of the screen monitor: a stopped monitor ends; a running one
/// follows the pointer while the overlay is shown, leaves a hidden overlay
/// where it is, and comes back after the poll interval.
pub open spec fn spec_monitor_tick(
    m: OverlayModel,
    pointer: Point,
    screens: Seq<ScreenRect>,
    primary: ScreenRect,
) -> (OverlayModel, (Seq<Action>, Option<u64>)) {
    if !m.monitor_running {
        (m, (Seq::empty(), None))
    } else if m.visible {
        (
            spec_move(m, pointer, screens, primary).0,
            (spec_move(m, pointer, screens, primary).1, Some(SCREEN_POLL_MS)),
        )
    } else {
        (m, (Seq::empty(), Some(SCREEN_POLL_MS)))
    }
}

/// Starting the animation: a stopped animation starts over at the first spawn
/// frame; a running one is left alone.
pub open spec fn spec_start_animation(m: OverlayModel) -> (OverlayModel, Seq<Action>) {
    if m.animation_running {
        (m, Seq::empty())
    } else {
        (
            OverlayModel {
                animation_running: true,
                cursor: spec_start(m.cursor.frames_ready),
                ..m
            },
            seq![Action::SpawnAnimation],
        )
    }
}

/// The frame to display at a tick, as an action list.
pub open spec fn shown_frame(cursor: AnimationCursor, counts: FrameCounts) -> Seq<Action> {
    match spec_shown(cursor, counts) {
        Some(index) => seq![Action::DisplayFrame(cursor.phase, index)],
        None => Seq::empty(),
    }
}

/// One turn of the animation: a stopped animation ends; one that waits for its
/// frames looks again shortly; a running one displays the current frame, if
/// the active sequence has any, moves the cursor on and pauses for the
/// cadence of the phase it just displayed.
pub open spec fn spec_animation_tick(m: OverlayModel) -> (OverlayModel, (Seq<Action>, Option<u64>)) {
    if !m.animation_running {
        (m, (Seq::empty(), None))
    } else if !m.cursor.frames_ready {
        (m, (Seq::empty(), Some(READY_POLL_MS)))
    } else {
        (
            OverlayModel { cursor: spec_advance(m.cursor, m.frame_counts), ..m },
            (shown_frame(m.cursor, m.frame_counts), Some(spec_delay(m.cursor.phase))),
        )
    }
}

/// The overlay after `ticks` turns of the animation.
pub open spec fn spec_animation_ticks(m: OverlayModel, ticks: nat) -> OverlayModel
    decreases ticks,
{
    if ticks == 0 {
        m
    } else {
        spec_animation_tick(spec_animation_ticks(m, (ticks - 1) as nat)).0
    }
}

/// Showing the speech bubble with a text.
pub open spec fn spec_show_bubble(m: OverlayModel, text: Seq<char>) -> (OverlayModel, Seq<Action>) {
    if m.open {
        (
            OverlayModel { bubble_text: text, bubble_shown: true, ..m },
            seq![Action::ShowSpeechBubble],
        )
    } else {
        (m, Seq::empty())
    }
}

/// Hiding the speech bubble.
pub open spec fn spec_hide_bubble(m: OverlayModel) -> (OverlayModel, Seq<Action>) {
    if m.open {
        (OverlayModel { bubble_shown: false, ..m }, seq![Action::HideSpeechBubble])
    } else {
        (m, Seq::empty())
    }
}

/// Whether a location is on the avatar of an overlay that exists. `panel` is
/// the frame of the overlay panel as the display reports it, if it has one.
pub open spec fn over_avatar(m: OverlayModel, location: Point, panel: Option<ScreenRect>) -> bool {
    m.open && panel is Some && on_avatar(panel.unwrap(), location)
}

/// A pointer move: the cursor changes only when the pointer enters or leaves
/// the avatar. While the input monitor is stopped the event is dropped.
pub open spec fn spec_mouse_move(m: OverlayModel, location: Point, panel: Option<ScreenRect>) -> (
    OverlayModel,
    Seq<Action>,
) {
    let over = over_avatar(m, location, panel);
    if !m.click_monitor_running {
        (m, Seq::empty())
    } else {
        (
            OverlayModel { pointer: spec_after_move(m.pointer, over), ..m },
            match spec_cursor_change(m.pointer, over) {
                Some(hand) => seq![Action::SetHandCursor(hand)],
                None => Seq::empty(),
            },
        )
    }
}

/// A click: a duplicate is discarded without a trace; an accepted click is
/// stamped and, when it lands on the avatar, acknowledged and passed to the
/// chat as a toggle. A click elsewhere closes nothing. While the input monitor
/// is stopped the event is dropped: it changes neither the session nor the
/// time of the last click.
pub open spec fn spec_click(
    m: OverlayModel,
    now_ms: u64,
    location: Point,
    panel: Option<ScreenRect>,
) -> (OverlayModel, Seq<Action>) {
    if !m.click_monitor_running {
        (m, Seq::empty())
    } else if !spec_click_accepted(m.pointer, now_ms) {
        (m, Seq::empty())
    } else if over_avatar(m, location, panel) {
        (
            OverlayModel {
                pointer: spec_after_click(m.pointer, now_ms),
                session: spec_toggle(m.session).0,
                ..m
            },
            seq![Action::ClickFeedback] + spec_toggle(m.session).1,
        )
    } else {
        (OverlayModel { pointer: spec_after_click(m.pointer, now_ms), ..m }, Seq::empty())
    }
}

/// Starting the click monitor.
pub open spec fn spec_start_click_monitor(m: OverlayModel) -> (OverlayModel, Seq<Action>) {
    (
        OverlayModel { click_monitor_running: true, ..m },
        spawn_unless(m.click_monitor_running, Action::SpawnClickMonitor),
    )
}

/// One turn of the click monitor's keep-alive loop.
pub open spec fn spec_click_monitor_tick(m: OverlayModel) -> (Seq<Action>, Option<u64>) {
    if m.click_monitor_running {
        (Seq::empty(), Some(CLICK_MONITOR_POLL_MS))
    } else {
        (Seq::empty(), None)
    }
}

/// Whether a key submits the input.
pub open spec fn is_submit_key(key_code: u16) -> bool {
    key_code == KEY_RETURN || key_code == KEY_ENTER
}

/// Submitting the text of the input.
pub open spec fn spec_submit_chat(m: OverlayModel, text: Seq<char>) -> (OverlayModel, Seq<Action>) {
    with_session(m, spec_submit(m.session, text))
}

/// A key press: return and enter submit the input; any other key is not the
/// controller's business. While the input monitor is stopped the event is
/// dropped.
pub open spec fn spec_key_down(m: OverlayModel, key_code: u16, text: Seq<char>) -> (
    OverlayModel,
    Seq<Action>,
) {
    if m.click_monitor_running && is_submit_key(key_code) {
        spec_submit_chat(m, text)
    } else {
        (m, Seq::empty())
    }
}

/// Hiding the thinking indicator; the session is not touched.
pub open spec fn spec_hide_thinking(m: OverlayModel) -> Seq<Action> {
    if m.open {
        seq![Action::HideThinking]
    } else {
        Seq::empty()
    }
}

/// The outcome of a query arrives: its text becomes the reply.
pub open spec fn spec_complete(m: OverlayModel, outcome: Result<Seq<char>, QueryFailure>) -> (
    OverlayModel,
    Seq<Action>,
) {
    with_session(m, spec_respond(m.session, spec_reply_text(outcome)))
}

/// The response to the chat's query arrives: what its body holds decides the
/// reply, as the companion reads a response.
pub open spec fn spec_response(m: OverlayModel, body: Seq<char>) -> (OverlayModel, Seq<Action>) {
    spec_complete(m, spec_classify(Persona::Companion, body_fields(body)))
}

impl OverlayController {
    /// Whether the controller's invariant holds.
    pub open spec fn wf(&self) -> bool {
        model_wf(self@)
    }

    /// A controller without an overlay.
    pub fn new() -> (r: OverlayController)
        ensures
            r@ == initial_model(),
            r.wf(),
    {
        OverlayController {
            config: OverlayConfig { anchor_width: 320, anchor_height: 320 },
            open: false,
            visible: false,
            anchor: Anchor { x: 0, y: 0 },
            frame_counts: FrameCounts::empty(),
            cursor: AnimationCursor::new(),
            animation_running: false,
            monitor_running: false,
            click_monitor_running: false,
            pointer: PointerRegionState::new(),
            session: ChatSession::new(),
            api_key: String::new(),
            bubble_text: String::new(),
            bubble_shown: false,
        }
    }

    /// Size of the overlay panel.
    pub fn config(&self) -> (r: OverlayConfig)
        ensures
            r == self@.config,
    {
        self.config
    }

    /// Whether an overlay exists.
    pub fn is_open(&self) -> (r: bool)
        ensures
            r == self@.open,
    {
        self.open
    }

    /// Where the panel was last put.
    pub fn anchor(&self) -> (r: Anchor)
        ensures
            r == self@.anchor,
    {
        self.anchor
    }

    /// Number of frames in each sequence.
    pub fn frame_counts(&self) -> (r: FrameCounts)
        ensures
            r == self@.frame_counts,
    {
        self.frame_counts
    }

    /// Position of the animation.
    pub fn cursor(&self) -> (r: AnimationCursor)
        ensures
            r == self@.cursor,
    {
        self.cursor
    }

    /// Whether the animation loop is meant to run.
    pub fn animation_running(&self) -> (r: bool)
        ensures
            r == self@.animation_running,
    {
        self.animation_running
    }

    /// Whether the screen monitor is meant to run.
    pub fn monitor_running(&self) -> (r: bool)
        ensures
            r == self@.monitor_running,
    {
        self.monitor_running
    }

    /// Whether the click monitor is meant to run.
    pub fn click_monitor_running(&self) -> (r: bool)
        ensures
            r == self@.click_monitor_running,
    {
        self.click_monitor_running
    }

    /// What the input monitor remembers.
    pub fn pointer(&self) -> (r: PointerRegionState)
        ensures
            r == self@.pointer,
    {
        self.pointer
    }

    /// Where the chat turn stands.
    pub fn chat_state(&self) -> (r: ChatState)
        ensures
            r == self@.session.state,
    {
        self.session.state()
    }

    /// How many characters of the reply are revealed.
    pub fn reveal_index(&self) -> (r: usize)
        ensures
            r == self@.session.reveal_index,
    {
        self.session.reveal_index()
    }

    /// Whether a typed reveal is running.
    pub fn typing_active(&self) -> (r: bool)
        ensures
            r == self@.session.typing_active,
    {
        self.session.typing_active()
    }

    /// The full reply that is being shown, if any.
    pub fn pending_reply(&self) -> (r: Option<String>)
        ensures
            match r {
                Some(text) => self@.session.pending_reply == Some(text@),
                None => self@.session.pending_reply is None,
            },
    {
        self.session.pending_reply()
    }

    /// The part of the reply to put on the reply surface.
    pub fn revealed_text(&self) -> (r: String)
        requires
            self.wf(),
        ensures
            r@ == spec_revealed(self@.session),
    {
        self.session.revealed_text()
    }

    /// The text of the speech bubble.
    pub fn bubble_text(&self) -> (r: String)
        ensures
            r@ == self@.bubble_text,
    {
        self.bubble_text.clone()
    }

    /// Whether the speech bubble is shown.
    pub fn bubble_shown(&self) -> (r: bool)
        ensures
            r == self@.bubble_shown,
    {
        self.bubble_shown
    }

    /// The API key in use.
    pub fn api_key(&self) -> (r: String)
        ensures
            r@ == self@.api_key,
    {
        self.api_key.clone()
    }

    /// Whether a location is on the avatar, given the panel's frame.
    pub fn is_over_avatar(&self, location: Point, panel: Option<ScreenRect>) -> (r: bool)
        ensures
            r == over_avatar(self@, location, panel),
    {
        match panel {
            Some(frame) => self.open && is_on_avatar(frame, location),
            None => false,
        }
    }

    /// Checks the controller's invariant at run time.
    pub fn is_well_formed(&self) -> (r: bool)
        ensures
            r == self.wf(),
    {
        let count = self.frame_counts.count(self.cursor.phase);
        let cursor_ok = if count > 0 {
            self.cursor.frame_index < count
        } else {
            self.cursor.frame_index == 0
        };
        let closed_ok = self.open || (!self.visible && !self.bubble_shown
            && self.session.is_idle());
        self.session.is_well_formed() && cursor_ok && closed_ok
    }
}

/// Sets the API key for the queries to come. The key is kept in memory only.
pub fn set_groq_api_key(ctl: &mut OverlayController, key: &str)
    ensures
        final(ctl)@ == (OverlayModel { api_key: key@, ..old(ctl)@ }),
        old(ctl).wf() ==> final(ctl).wf(),
{
    ctl.api_key = key.to_owned();
}

/// Creates the overlay on the display under the pointer.
pub fn create_overlay(
    ctl: &mut OverlayController,
    width: i32,
    height: i32,
    counts: FrameCounts,
    pointer: Point,
    screens: &Vec<ScreenRect>,
    primary: ScreenRect,
) -> (actions: Vec<Action>)
    requires
        old(ctl).wf(),
    ensures
        final(ctl).wf(),
        (final(ctl)@, actions@) == spec_create(
            old(ctl)@,
            width,
            height,
            counts,
            pointer,
            screens@,
            primary,
        ),
{
    let screen = active_screen(pointer, screens, primary);
    let anchor = anchor_position(screen, width);
    let mut actions = one_action(Action::CreatePanel(anchor));
    if counts.spawn > 0 {
        actions.push(Action::DisplayFrame(Phase::Spawn, 0));
    }
    if !ctl.animation_running {
        actions.push(Action::SpawnAnimation);
    }
    if !ctl.click_monitor_running {
        actions.push(Action::SpawnClickMonitor);
    }
    ctl.config = OverlayConfig { anchor_width: width, anchor_height: height };
    ctl.open = true;
    ctl.visible = true;
    ctl.anchor = anchor;
    ctl.frame_counts = counts;
    ctl.cursor = AnimationCursor::new();
    ctl.animation_running = true;
    ctl.click_monitor_running = true;
    ctl.session.reset();
    ctl.bubble_shown = false;
    actions
}

/// Tells the animation that the first frame is on screen and it may run.
pub fn mark_frames_ready(ctl: &mut OverlayController)
    requires
        old(ctl).wf(),
    ensures
        final(ctl).wf(),
        final(ctl)@ == spec_frames_ready(old(ctl)@),
{
    if ctl.open {
        ctl.cursor.frames_ready = true;
    }
}

/// Shows the overlay.
pub fn show_overlay(ctl: &mut OverlayController) -> (actions: Vec<Action>)
    requires
        old(ctl).wf(),
    ensures
        final(ctl).wf(),
        (final(ctl)@, actions@) == spec_show(old(ctl)@),
{
    if ctl.open {
        ctl.visible = true;
        one_action(Action::ShowOverlay)
    } else {
        no_actions()
    }
}

/// Hides the overlay.
pub fn hide_overlay(ctl: &mut OverlayController) -> (actions: Vec<Action>)
    requires
        old(ctl).wf(),
    ensures
        final(ctl).wf(),
        (final(ctl)@, actions@) == spec_hide(old(ctl)@),
{
    if ctl.open {
        ctl.visible = false;
        one_action(Action::HideOverlay)
    } else {
        no_actions()
    }
}

/// Closes the overlay and stops everything that runs on its behalf.
pub fn close_overlay(ctl: &mut OverlayController) -> (actions: Vec<Action>)
    requires
        old(ctl).wf(),
    ensures
        final(ctl).wf(),
        (final(ctl)@, actions@) == spec_close(old(ctl)@),
{
    if ctl.open {
        ctl.open = false;
        ctl.visible = false;
        ctl.frame_counts = FrameCounts::empty();
        ctl.cursor = AnimationCursor::new();
        ctl.animation_running = false;
        ctl.monitor_running = false;
        ctl.click_monitor_running = false;
        ctl.session.reset();
        ctl.bubble_shown = false;
        vec![Action::CloseOverlay, Action::ReleaseFrames]
    } else {
        no_actions()
    }
}

/// Whether the overlay is on screen.
pub fn is_visible(ctl: &OverlayController) -> (r: bool)
    ensures
        r == ctl@.visible,
{
    ctl.visible
}

/// Moves the overlay to the display under the pointer.
pub fn move_to_active_screen(
    ctl: &mut OverlayController,
    pointer: Point,
    screens: &Vec<ScreenRect>,
    primary: ScreenRect,
) -> (actions: Vec<Action>)
    requires
        old(ctl).wf(),
    ensures
        final(ctl).wf(),
        (final(ctl)@, actions@) == spec_move(old(ctl)@, pointer, screens@, primary),
{
    if ctl.open {
        let screen = active_screen(pointer, screens, primary);
        let anchor = anchor_position(screen, ctl.config.anchor_width);
        ctl.anchor = anchor;
        ctl.visible = true;
        vec![Action::MoveOverlay(anchor), Action::ShowOverlay]
    } else {
        no_actions()
    }
}

/// Starts the screen monitor unless it runs.
pub fn start_screen_monitor(ctl: &mut OverlayController) -> (actions: Vec<Action>)
    requires
        old(ctl).wf(),
    ensures
        final(ctl).wf(),
        (final(ctl)@, actions@) == spec_start_monitor(old(ctl)@),
{
    if ctl.monitor_running {
        no_actions()
    } else {
        ctl.monitor_running = true;
        one_action(Action::SpawnScreenMonitor)
    }
}

/// Tells the screen monitor to stop at its next turn.
pub fn stop_screen_monitor(ctl: &mut OverlayController)
    ensures
        final(ctl)@ == (OverlayModel { monitor_running: false, ..old(ctl)@ }),
        old(ctl).wf() ==> final(ctl).wf(),
{
    ctl.monitor_running = false;
}

/// One turn of the screen monitor.
pub fn screen_monitor_tick(
    ctl: &mut OverlayController,
    pointer: Point,
    screens: &Vec<ScreenRect>,
    primary: ScreenRect,
) -> (step: Step)
    requires
        old(ctl).wf(),
    ensures
        final(ctl).wf(),
        (final(ctl)@, step@) == spec_monitor_tick(old(ctl)@, pointer, screens@, primary),
{
    if !ctl.monitor_running {
        Step { actions: no_actions(), next_ms: None }
    } else if ctl.visible {
        let actions = move_to_active_screen(ctl, pointer, screens, primary);
        Step { actions, next_ms: Some(SCREEN_POLL_MS) }
    } else {
        Step { actions: no_actions(), next_ms: Some(SCREEN_POLL_MS) }
    }
}

/// Starts the animation unless it runs.
pub fn start_animation(ctl: &mut OverlayController) -> (actions: Vec<Action>)
    requires
        old(ctl).wf(),
    ensures
        final(ctl).wf(),
        (final(ctl)@, actions@) == spec_start_animation(old(ctl)@),
{
    if ctl.animation_running {
        no_actions()
    } else {
        ctl.animation_running = true;
        ctl.cursor = AnimationCursor {
            phase: Phase::Spawn,
            frame_index: 0,
            frames_ready: ctl.cursor.frames_ready,
        };
        one_action(Action::SpawnAnimation)
    }
}

/// Tells the animation to stop at its next turn.
pub fn stop_animation(ctl: &mut OverlayController)
    ensures
        final(ctl)@ == (OverlayModel { animation_running: false, ..old(ctl)@ }),
        old(ctl).wf() ==> final(ctl).wf(),
{
    ctl.animation_running = false;
}

/// One turn of the animation.
pub fn animation_tick(ctl: &mut OverlayController) -> (step: Step)
    requires
        old(ctl).wf(),
    ensures
        final(ctl).wf(),
        (final(ctl)@, step@) == spec_animation_tick(old(ctl)@),
{
    if !ctl.animation_running {
        Step { actions: no_actions(), next_ms: None }
    } else if !ctl.cursor.frames_ready {
        Step { actions: no_actions(), next_ms: Some(READY_POLL_MS) }
    } else {
        let phase = ctl.cursor.phase;
        let actions = match ctl.cursor.shown(ctl.frame_counts) {
            Some(index) => one_action(Action::DisplayFrame(phase, index)),
            None => no_actions(),
        };
        let counts = ctl.frame_counts;
        ctl.cursor.advance(counts);
        Step { actions, next_ms: Some(frame_delay(phase)) }
    }
}

/// Shows the speech bubble with a text.
pub fn show_speech_bubble(ctl: &mut OverlayController, text: &str) -> (actions: Vec<Action>)
    requires
        old(ctl).wf(),
    ensures
        final(ctl).wf(),
        (final(ctl)@, actions@) == spec_show_bubble(old(ctl)@, text@),
{
    if ctl.open {
        ctl.bubble_text = text.to_owned();
        ctl.bubble_shown = true;
        one_action(Action::ShowSpeechBubble)
    } else {
        no_actions()
    }
}

/// Hides the speech bubble.
pub fn hide_speech_bubble(ctl: &mut OverlayController) -> (actions: Vec<Action>)
    requires
        old(ctl).wf(),
    ensures
        final(ctl).wf(),
        (final(ctl)@, actions@) == spec_hide_bubble(old(ctl)@),
{
    if ctl.open {
        ctl.bubble_shown = false;
        one_action(Action::HideSpeechBubble)
    } else {
        no_actions()
    }
}

/// Handles a pointer move to `location`, given the panel's frame.
pub fn handle_mouse_move(
    ctl: &mut OverlayController,
    location: Point,
    panel: Option<ScreenRect>,
) -> (actions: Vec<Action>)
    requires
        old(ctl).wf(),
    ensures
        final(ctl).wf(),
        (final(ctl)@, actions@) == spec_mouse_move(old(ctl)@, location, panel),
{
    if !ctl.click_monitor_running {
        return no_actions();
    }
    let over = ctl.is_over_avatar(location, panel);
    match ctl.pointer.track_hover(over) {
        Some(hand) => one_action(Action::SetHandCursor(hand)),
        None => no_actions(),
    }
}

/// Handles a click at `location` at time `now_ms`, given the panel's frame.
pub fn handle_click_at_location(
    ctl: &mut OverlayController,
    now_ms: u64,
    location: Point,
    panel: Option<ScreenRect>,
) -> (actions: Vec<Action>)
    requires
        old(ctl).wf(),
    ensures
        final(ctl).wf(),
        (final(ctl)@, actions@) == spec_click(old(ctl)@, now_ms, location, panel),
{
    if !ctl.click_monitor_running {
        return no_actions();
    }
    if !ctl.pointer.accept_click(now_ms) {
        return no_actions();
    }
    if ctl.is_over_avatar(location, panel) {
        let mut actions = one_action(Action::ClickFeedback);
        let mut toggled = ctl.session.toggle();
        actions.append(&mut toggled);
        actions
    } else {
        no_actions()
    }
}

/// Starts the click monitor unless it runs.
pub fn start_click_monitor(ctl: &mut OverlayController) -> (actions: Vec<Action>)
    requires
        old(ctl).wf(),
    ensures
        final(ctl).wf(),
        (final(ctl)@, actions@) == spec_start_click_monitor(old(ctl)@),
{
    if ctl.click_monitor_running {
        no_actions()
    } else {
        ctl.click_monitor_running = true;
        one_action(Action::SpawnClickMonitor)
    }
}

/// Tells the click monitor to stop at its next turn. From this call on, pointer
/// and key events are dropped.
pub fn stop_click_monitor(ctl: &mut OverlayController)
    ensures
        final(ctl)@ == (OverlayModel { click_monitor_running: false, ..old(ctl)@ }),
        old(ctl).wf() ==> final(ctl).wf(),
{
    ctl.click_monitor_running = false;
}

/// One turn of the click monitor's keep-alive loop.
pub fn click_monitor_tick(ctl: &OverlayController) -> (step: Step)
    ensures
        step@ == spec_click_monitor_tick(ctl@),
{
    if ctl.click_monitor_running {
        Step { actions: no_actions(), next_ms: Some(CLICK_MONITOR_POLL_MS) }
    } else {
        Step { actions: no_actions(), next_ms: None }
    }
}

/// Handles a key press, given the text that the input holds.
pub fn handle_key_down(ctl: &mut OverlayController, key_code: u16, text: &str) -> (actions: Vec<
    Action,
>)
    requires
        old(ctl).wf(),
    ensures
        final(ctl).wf(),
        (final(ctl)@, actions@) == spec_key_down(old(ctl)@, key_code, text@),
{
    if ctl.click_monitor_running && (key_code == KEY_RETURN || key_code == KEY_ENTER) {
        submit_chat_input(ctl, text)
    } else {
        no_actions()
    }
}

/// Opens the chat input.
pub fn show_chat_input(ctl: &mut OverlayController) -> (actions: Vec<Action>)
    requires
        old(ctl).wf(),
    ensures
        final(ctl).wf(),
        (final(ctl)@, actions@) == with_session(old(ctl)@, spec_open_input(old(ctl)@.session)),
{
    if ctl.open {
        ctl.session.open_input()
    } else {
        no_actions()
    }
}

/// Closes the chat input.
pub fn hide_chat_input(ctl: &mut OverlayController) -> (actions: Vec<Action>)
    requires
        old(ctl).wf(),
    ensures
        final(ctl).wf(),
        (final(ctl)@, actions@) == with_session(old(ctl)@, spec_close_input(old(ctl)@.session)),
{
    if ctl.open {
        ctl.session.close_input()
    } else {
        no_actions()
    }
}

/// Puts up the thinking indicator in place of the input.
pub fn show_thinking(ctl: &mut OverlayController) -> (actions: Vec<Action>)
    requires
        old(ctl).wf(),
    ensures
        final(ctl).wf(),
        (final(ctl)@, actions@) == with_session(
            old(ctl)@,
            spec_begin_thinking(old(ctl)@.session),
        ),
{
    if ctl.open {
        ctl.session.begin_thinking()
    } else {
        no_actions()
    }
}

/// Hides the thinking indicator.
pub fn hide_thinking(ctl: &OverlayController) -> (actions: Vec<Action>)
    ensures
        actions@ == spec_hide_thinking(ctl@),
{
    if ctl.open {
        one_action(Action::HideThinking)
    } else {
        no_actions()
    }
}

/// Starts showing a reply with the typed reveal.
pub fn show_response_with_typing(ctl: &mut OverlayController, text: String) -> (actions: Vec<
    Action,
>)
    requires
        old(ctl).wf(),
    ensures
        final(ctl).wf(),
        (final(ctl)@, actions@) == with_session(
            old(ctl)@,
            spec_respond(old(ctl)@.session, text@),
        ),
{
    if ctl.open {
        ctl.session.respond(text)
    } else {
        no_actions()
    }
}

/// Starts the typed reveal unless one runs.
pub fn start_typing_effect(ctl: &mut OverlayController) -> (actions: Vec<Action>)
    requires
        old(ctl).wf(),
    ensures
        final(ctl).wf(),
        (final(ctl)@, actions@) == with_session(
            old(ctl)@,
            spec_start_reveal(old(ctl)@.session),
        ),
{
    if ctl.open {
        ctl.session.start_reveal()
    } else {
        no_actions()
    }
}

/// One step of the typed reveal.
pub fn typing_tick(ctl: &mut OverlayController) -> (actions: Vec<Action>)
    requires
        old(ctl).wf(),
    ensures
        final(ctl).wf(),
        (final(ctl)@, actions@) == with_session(
            old(ctl)@,
            spec_reveal_tick(old(ctl)@.session),
        ),
{
    if ctl.open {
        ctl.session.reveal_tick()
    } else {
        no_actions()
    }
}

/// Takes the reply down and returns the chat to idle.
pub fn hide_response(ctl: &mut OverlayController) -> (actions: Vec<Action>)
    requires
        old(ctl).wf(),
    ensures
        final(ctl).wf(),
        (final(ctl)@, actions@) == with_session(old(ctl)@, spec_dismiss(old(ctl)@.session)),
{
    if ctl.open {
        ctl.session.dismiss()
    } else {
        no_actions()
    }
}

/// Sends a message: the chat starts thinking and one query is asked for.
pub fn send_to_groq(ctl: &mut OverlayController, message: &str) -> (actions: Vec<Action>)
    requires
        old(ctl).wf(),
    ensures
        final(ctl).wf(),
        (final(ctl)@, actions@) == with_session(
            old(ctl)@,
            spec_send(old(ctl)@.session, message@),
        ),
{
    if ctl.open {
        ctl.session.send(message)
    } else {
        no_actions()
    }
}

/// Submits the text of the chat input.
pub fn submit_chat_input(ctl: &mut OverlayController, text: &str) -> (actions: Vec<Action>)
    requires
        old(ctl).wf(),
    ensures
        final(ctl).wf(),
        (final(ctl)@, actions@) == spec_submit_chat(old(ctl)@, text@),
{
    if ctl.open {
        ctl.session.submit(text)
    } else {
        no_actions()
    }
}

/// Builds the request of the query that was asked for. Without an API key the
/// query fails here, before anything could be sent.
pub fn outbound_request(ctl: &OverlayController, message: &str) -> (r: Result<
    ChatRequest,
    QueryError,
>)
    ensures
        match r {
            Ok(request) => ctl@.api_key.len() > 0 && request@ == spec_request(
                Persona::Companion,
                ctl@.api_key,
                message@,
            ),
            Err(e) => ctl@.api_key.len() == 0 && e@ == QueryFailure::MissingKey,
        },
{
    prepare_request(Persona::Companion, ctl.api_key.as_str(), message)
}

/// Takes the outcome of the query and starts showing the reply, or the fixed
/// message of the failure.
pub fn request_completed(ctl: &mut OverlayController, outcome: Result<String, QueryError>) -> (actions:
    Vec<Action>)
    requires
        old(ctl).wf(),
    ensures
        final(ctl).wf(),
        (final(ctl)@, actions@) == spec_complete(old(ctl)@, outcome_view(outcome)),
{
    let text = reply_text(outcome);
    show_response_with_typing(ctl, text)
}

/// Takes the body of the response to the chat's query and starts showing the
/// reply that it holds, or the fixed message that stands for its failure.
pub fn response_received(ctl: &mut OverlayController, body: &str) -> (actions: Vec<Action>)
    requires
        old(ctl).wf(),
    ensures
        final(ctl).wf(),
        (final(ctl)@, actions@) == spec_response(old(ctl)@, body@),
{
    let outcome = interpret_body(Persona::Companion, body);
    request_completed(ctl, outcome)
}

} // verus!
