//! The chat state machine: idle, input open, thinking, responding.
//!
//! Every transition is a function from the session and one event to the next
//! session and the actions that make the change visible. An event that does not
//! fit the current state changes nothing and asks for nothing.

use vstd::prelude::*;
use vstd::string::*;
use crate::action::Action;

verus! {

/// Time between two steps of the typed reveal, in milliseconds.
pub const REVEAL_INTERVAL_MS: u64 = 30;

/// How long a fully revealed reply stays on screen, in milliseconds.
pub const AUTO_HIDE_DELAY_MS: u64 = 5000;

/// Where a chat turn stands.
#[derive(Clone, Copy, Debug, PartialEq, Eq, Structural)]
pub enum ChatState {
    Idle,
    InputOpen,
    Thinking,
    Responding,
}

/// The single source of truth of the chat surfaces.
pub struct ChatSession {
    state: ChatState,
    pending_reply: Option<String>,
    reveal_index: usize,
    typing_active: bool,
}

/// A session with its reply as a sequence of characters.
pub struct SessionView {
    pub state: ChatState,
    pub pending_reply: Option<Seq<char>>,
    pub reveal_index: nat,
    pub typing_active: bool,
}

impl View for ChatSession {
    type V = SessionView;

    closed spec fn view(&self) -> SessionView {
        SessionView {
            state: self.state,
            pending_reply: match self.pending_reply {
                Some(text) => Some(text@),
                None => None,
            },
            reveal_index: self.reveal_index as nat,
            typing_active: self.typing_active,
        }
    }
}

/// A reply is held exactly while responding, the reveal never runs outside of
/// responding, and never past the end of the reply.
pub open spec fn session_wf(s: SessionView) -> bool {
    &&& (s.state == ChatState::Responding) == (s.pending_reply is Some)
    &&& s.typing_active ==> s.state == ChatState::Responding
    &&& match s.pending_reply {
        Some(text) => s.reveal_index <= text.len(),
        None => s.reveal_index == 0,
    }
}

/// The session of a fresh or closed overlay.
pub open spec fn idle_session() -> SessionView {
    SessionView {
        state: ChatState::Idle,
        pending_reply: None,
        reveal_index: 0,
        typing_active: false,
    }
}

/// The part of the reply that the reveal has reached.
pub open spec fn spec_revealed(s: SessionView) -> Seq<char> {
    match s.pending_reply {
        Some(text) => text.take(s.reveal_index as int),
        None => Seq::empty(),
    }
}

/// Opening the input: only an idle session opens.
pub open spec fn spec_open_input(s: SessionView) -> (SessionView, Seq<Action>) {
    if s.state == ChatState::Idle {
        (
            SessionView { state: ChatState::InputOpen, ..s },
            seq![Action::ShowInput, Action::SetPassThrough(true), Action::FocusInput],
        )
    } else {
        (s, Seq::empty())
    }
}

/// Closing the input: only an open input closes.
pub open spec fn spec_close_input(s: SessionView) -> (SessionView, Seq<Action>) {
    if s.state == ChatState::InputOpen {
        (
            SessionView { state: ChatState::Idle, ..s },
            seq![Action::HideInput, Action::SetPassThrough(false)],
        )
    } else {
        (s, Seq::empty())
    }
}

/// A click on the avatar opens the input of an idle session, closes an open
/// input, and is ignored while the session is busy.
pub open spec fn spec_toggle(s: SessionView) -> (SessionView, Seq<Action>) {
    match s.state {
        ChatState::Idle => spec_open_input(s),
        ChatState::InputOpen => spec_close_input(s),
        ChatState::Thinking => (s, Seq::empty()),
        ChatState::Responding => (s, Seq::empty()),
    }
}

/// Putting up the thinking indicator in place of the input.
pub open spec fn spec_begin_thinking(s: SessionView) -> (SessionView, Seq<Action>) {
    if s.state == ChatState::InputOpen {
        (
            SessionView { state: ChatState::Thinking, ..s },
            seq![Action::HideInput, Action::ShowThinking],
        )
    } else {
        (s, Seq::empty())
    }
}

/// A message is accepted from an open input when it is not empty.
pub open spec fn spec_accepts(s: SessionView, message: Seq<char>) -> bool {
    s.state == ChatState::InputOpen && message.len() > 0
}

/// Sending a message: an accepted message starts thinking and exactly one
/// query; any other message is dropped.
pub open spec fn spec_send(s: SessionView, message: Seq<char>) -> (SessionView, Seq<Action>) {
    if spec_accepts(s, message) {
        (spec_begin_thinking(s).0, spec_begin_thinking(s).1.push(Action::StartQuery))
    } else {
        (s, Seq::empty())
    }
}

/// Submitting the input text: as sending, after emptying the input.
pub open spec fn spec_submit(s: SessionView, text: Seq<char>) -> (SessionView, Seq<Action>) {
    if spec_accepts(s, text) {
        (spec_send(s, text).0, seq![Action::ClearInput] + spec_send(s, text).1)
    } else {
        (s, Seq::empty())
    }
}

/// Starting the typed reveal: a no-op unless the session is responding and no
/// reveal is running yet.
pub open spec fn spec_start_reveal(s: SessionView) -> (SessionView, Seq<Action>) {
    if s.state == ChatState::Responding && !s.typing_active {
        (SessionView { typing_active: true, ..s }, seq![Action::ScheduleRevealTick(REVEAL_INTERVAL_MS)])
    } else {
        (s, Seq::empty())
    }
}

/// The session that starts responding with `text`, before its reveal starts.
pub open spec fn spec_hold_reply(s: SessionView, text: Seq<char>) -> SessionView {
    SessionView {
        state: ChatState::Responding,
        pending_reply: Some(text),
        reveal_index: 0,
        typing_active: false,
    }
}

/// The answer to a query arrives: a thinking session starts responding with
/// nothing revealed yet; any other session drops the text.
pub open spec fn spec_respond(s: SessionView, text: Seq<char>) -> (SessionView, Seq<Action>) {
    if s.state == ChatState::Thinking {
        (
            spec_start_reveal(spec_hold_reply(s, text)).0,
            seq![Action::HideThinking, Action::ShowReply] + spec_start_reveal(
                spec_hold_reply(s, text),
            ).1,
        )
    } else {
        (s, Seq::empty())
    }
}

/// One step of the typed reveal. While the reveal runs, a step shows one more
/// character and asks for the next step; once the whole reply is shown, the
/// step ends the reveal and asks for the auto-hide instead.
pub open spec fn spec_reveal_tick(s: SessionView) -> (SessionView, Seq<Action>) {
    if s.typing_active && s.pending_reply is Some {
        if s.reveal_index >= s.pending_reply.unwrap().len() {
            (SessionView { typing_active: false, ..s }, seq![Action::ScheduleAutoHide(AUTO_HIDE_DELAY_MS)])
        } else {
            (
                SessionView { reveal_index: s.reveal_index + 1, ..s },
                seq![Action::UpdateReply, Action::ScheduleRevealTick(REVEAL_INTERVAL_MS)],
            )
        }
    } else {
        (s, Seq::empty())
    }
}

/// The session after `ticks` reveal steps.
pub open spec fn spec_reveal_ticks(s: SessionView, ticks: nat) -> SessionView
    decreases ticks,
{
    if ticks == 0 {
        s
    } else {
        spec_reveal_tick(spec_reveal_ticks(s, (ticks - 1) as nat)).0
    }
}

/// Taking the reply down: a responding session returns to idle with its
/// buffers cleared and any reveal cut short.
pub open spec fn spec_dismiss(s: SessionView) -> (SessionView, Seq<Action>) {
    if s.state == ChatState::Responding {
        (idle_session(), seq![Action::HideReply, Action::SetPassThrough(true)])
    } else {
        (s, Seq::empty())
    }
}

impl ChatSession {
    /// An idle session.
    pub fn new() -> (r: ChatSession)
        ensures
            r@ == idle_session(),
            session_wf(r@),
    {
        ChatSession {
            state: ChatState::Idle,
            pending_reply: None,
            reveal_index: 0,
            typing_active: false,
        }
    }

    /// Where the chat turn stands.
    pub fn state(&self) -> (r: ChatState)
        ensures
            r == self@.state,
    {
        self.state
    }

    /// How many characters of the reply are revealed.
    pub fn reveal_index(&self) -> (r: usize)
        ensures
            r == self@.reveal_index,
    {
        self.reveal_index
    }

    /// Whether a typed reveal is running.
    pub fn typing_active(&self) -> (r: bool)
        ensures
            r == self@.typing_active,
    {
        self.typing_active
    }

    /// The full reply that is being shown, if any.
    pub fn pending_reply(&self) -> (r: Option<String>)
        ensures
            match r {
                Some(text) => self@.pending_reply == Some(text@),
                None => self@.pending_reply is None,
            },
    {
        match &self.pending_reply {
            Some(text) => Some(text.clone()),
            None => None,
        }
    }

    /// The part of the reply that the reveal has reached.
    pub fn revealed_text(&self) -> (r: String)
        requires
            session_wf(self@),
        ensures
            r@ == spec_revealed(self@),
    {
        match &self.pending_reply {
            Some(text) => {
                let shown = text.as_str().substring_char(0, self.reveal_index);
                shown.to_owned()
            },
            None => String::new(),
        }
    }

    /// Whether this is the session of a fresh or closed overlay.
    pub fn is_idle(&self) -> (r: bool)
        ensures
            r == (self@ == idle_session()),
    {
        let no_reply = match &self.pending_reply {
            Some(_) => false,
            None => true,
        };
        let idle = match self.state {
            ChatState::Idle => true,
            _ => false,
        };
        idle && no_reply && self.reveal_index == 0 && !self.typing_active
    }

    /// Checks the session's invariant at run time.
    pub fn is_well_formed(&self) -> (r: bool)
        ensures
            r == session_wf(self@),
    {
        let responding = match self.state {
            ChatState::Responding => true,
            _ => false,
        };
        match &self.pending_reply {
            Some(text) => responding && self.reveal_index <= text.as_str().unicode_len(),
            None => !responding && !self.typing_active && self.reveal_index == 0,
        }
    }

    /// Resets the session to idle and drops its buffers.
    pub fn reset(&mut self)
        ensures
            final(self)@ == idle_session(),
            session_wf(final(self)@),
    {
        self.state = ChatState::Idle;
        self.pending_reply = None;
        self.reveal_index = 0;
        self.typing_active = false;
    }

    /// Opens the input of an idle session.
    pub fn open_input(&mut self) -> (actions: Vec<Action>)
        requires
            session_wf(old(self)@),
        ensures
            (final(self)@, actions@) == spec_open_input(old(self)@),
            session_wf(final(self)@),
    {
        match self.state {
            ChatState::Idle => {
                self.state = ChatState::InputOpen;
                vec![Action::ShowInput, Action::SetPassThrough(true), Action::FocusInput]
            },
            _ => Vec::new(),
        }
    }

    /// Closes an open input.
    pub fn close_input(&mut self) -> (actions: Vec<Action>)
        requires
            session_wf(old(self)@),
        ensures
            (final(self)@, actions@) == spec_close_input(old(self)@),
            session_wf(final(self)@),
    {
        match self.state {
            ChatState::InputOpen => {
                self.state = ChatState::Idle;
                vec![Action::HideInput, Action::SetPassThrough(false)]
            },
            _ => Vec::new(),
        }
    }

    /// Handles a click on the avatar.
    pub fn toggle(&mut self) -> (actions: Vec<Action>)
        requires
            session_wf(old(self)@),
        ensures
            (final(self)@, actions@) == spec_toggle(old(self)@),
            session_wf(final(self)@),
    {
        match self.state {
            ChatState::Idle => self.open_input(),
            ChatState::InputOpen => self.close_input(),
            _ => Vec::new(),
        }
    }

    /// Replaces an open input by the thinking indicator.
    pub fn begin_thinking(&mut self) -> (actions: Vec<Action>)
        requires
            session_wf(old(self)@),
        ensures
            (final(self)@, actions@) == spec_begin_thinking(old(self)@),
            session_wf(final(self)@),
    {
        match self.state {
            ChatState::InputOpen => {
                self.state = ChatState::Thinking;
                vec![Action::HideInput, Action::ShowThinking]
            },
            _ => Vec::new(),
        }
    }

    /// Whether a message would be accepted right now.
    pub fn accepts(&self, message: &str) -> (r: bool)
        ensures
            r == spec_accepts(self@, message@),
    {
        match self.state {
            ChatState::InputOpen => !message.is_empty(),
            _ => false,
        }
    }

    /// Sends a message: starts thinking and asks for one query.
    pub fn send(&mut self, message: &str) -> (actions: Vec<Action>)
        requires
            session_wf(old(self)@),
        ensures
            (final(self)@, actions@) == spec_send(old(self)@, message@),
            session_wf(final(self)@),
    {
        if self.accepts(message) {
            let mut actions = self.begin_thinking();
            actions.push(Action::StartQuery);
            actions
        } else {
            Vec::new()
        }
    }

    /// Submits the text of the input.
    pub fn submit(&mut self, text: &str) -> (actions: Vec<Action>)
        requires
            session_wf(old(self)@),
        ensures
            (final(self)@, actions@) == spec_submit(old(self)@, text@),
            session_wf(final(self)@),
    {
        if self.accepts(text) {
            let mut actions = vec![Action::ClearInput];
            let mut sent = self.send(text);
            actions.append(&mut sent);
            actions
        } else {
            Vec::new()
        }
    }

    /// Starts the typed reveal unless one is running.
    pub fn start_reveal(&mut self) -> (actions: Vec<Action>)
        requires
            session_wf(old(self)@),
        ensures
            (final(self)@, actions@) == spec_start_reveal(old(self)@),
            session_wf(final(self)@),
    {
        match self.state {
            ChatState::Responding => {
                if self.typing_active {
                    Vec::new()
                } else {
                    self.typing_active = true;
                    vec![Action::ScheduleRevealTick(REVEAL_INTERVAL_MS)]
                }
            },
            _ => Vec::new(),
        }
    }

    /// Takes the text that answers the query and starts showing it.
    pub fn respond(&mut self, text: String) -> (actions: Vec<Action>)
        requires
            session_wf(old(self)@),
        ensures
            (final(self)@, actions@) == spec_respond(old(self)@, text@),
            session_wf(final(self)@),
    {
        match self.state {
            ChatState::Thinking => {
                self.state = ChatState::Responding;
                self.pending_reply = Some(text);
                self.reveal_index = 0;
                self.typing_active = false;
                let mut actions = vec![Action::HideThinking, Action::ShowReply];
                let mut started = self.start_reveal();
                actions.append(&mut started);
                actions
            },
            _ => Vec::new(),
        }
    }

    /// Performs one step of the typed reveal.
    pub fn reveal_tick(&mut self) -> (actions: Vec<Action>)
        requires
            session_wf(old(self)@),
        ensures
            (final(self)@, actions@) == spec_reveal_tick(old(self)@),
            session_wf(final(self)@),
    {
        if !self.typing_active {
            return Vec::new();
        }
        let length = match &self.pending_reply {
            Some(text) => text.as_str().unicode_len(),
            None => {
                return Vec::new();
            },
        };
        if self.reveal_index >= length {
            self.typing_active = false;
            vec![Action::ScheduleAutoHide(AUTO_HIDE_DELAY_MS)]
        } else {
            self.reveal_index = self.reveal_index + 1;
            vec![Action::UpdateReply, Action::ScheduleRevealTick(REVEAL_INTERVAL_MS)]
        }
    }

    /// Takes the reply down and returns to idle.
    pub fn dismiss(&mut self) -> (actions: Vec<Action>)
        requires
            session_wf(old(self)@),
        ensures
            (final(self)@, actions@) == spec_dismiss(old(self)@),
            session_wf(final(self)@),
    {
        match self.state {
            ChatState::Responding => {
                self.reset();
                vec![Action::HideReply, Action::SetPassThrough(true)]
            },
            _ => Vec::new(),
        }
    }
}

} // verus!
