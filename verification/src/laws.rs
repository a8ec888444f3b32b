//! What holds of the controller across calls, proved over its model.

use vstd::prelude::*;
use crate::action::Action;
use crate::animation::{cursor_valid, lemma_ticks_keep_cursor_valid, phase_rank, spec_advance_by, spec_count};
use crate::chat::{
    session_wf,
    spec_accepts,
    spec_begin_thinking,
    spec_close_input,
    spec_dismiss,
    spec_open_input,
    spec_respond,
    spec_reveal_tick,
    spec_reveal_ticks,
    spec_revealed,
    spec_send,
    spec_start_reveal,
    spec_submit,
    spec_toggle,
    ChatState,
    SessionView,
};
use crate::geometry::{Point, ScreenRect};
use crate::overlay::{
    model_wf,
    spec_animation_tick,
    spec_animation_ticks,
    spec_click,
    spec_key_down,
    spec_monitor_tick,
    spec_mouse_move,
    spec_move,
    spec_submit_chat,
    OverlayModel,
};
use crate::query::{
    no_reply_message,
    spec_classify,
    spec_error_text,
    spec_reply_text,
    unreadable_message,
    Persona,
    QueryFailure,
};
use crate::pointer::{spec_click_accepted, DEBOUNCE_MS};
use crate::chat::{AUTO_HIDE_DELAY_MS, REVEAL_INTERVAL_MS};

verus! {

/// How many queries a list of actions asks for.
pub open spec fn query_count(actions: Seq<Action>) -> nat
    decreases actions.len(),
{
    if actions.len() == 0 {
        0
    } else {
        query_count(actions.drop_last()) + if actions.last() == Action::StartQuery {
            1nat
        } else {
            0nat
        }
    }
}

/// Debounce: once a click has been accepted, a click that comes less than the
/// debounce window after it is not acted upon, wherever it lands: it changes
/// nothing and asks for nothing.
pub proof fn law_click_within_window_is_ignored(
    m: OverlayModel,
    first_ms: u64,
    first_at: Point,
    first_panel: Option<ScreenRect>,
    second_ms: u64,
    second_at: Point,
    second_panel: Option<ScreenRect>,
)
    requires
        spec_click_accepted(m.pointer, first_ms),
        second_ms - first_ms < DEBOUNCE_MS,
    ensures
        spec_click(
            spec_click(m, first_ms, first_at, first_panel).0,
            second_ms,
            second_at,
            second_panel,
        ) == (spec_click(m, first_ms, first_at, first_panel).0, Seq::<Action>::empty()),
{
}

/// Animation: after any number of ticks the frame index lies inside the active
/// sequence whenever that sequence has frames, the phase has not gone back, and
/// the rest of the invariant still holds.
pub proof fn law_animation_stays_in_range(m: OverlayModel, ticks: nat)
    requires
        model_wf(m),
    ensures
        model_wf(spec_animation_ticks(m, ticks)),
        spec_animation_ticks(m, ticks).frame_counts == m.frame_counts,
        spec_count(m.frame_counts, spec_animation_ticks(m, ticks).cursor.phase) > 0
            ==> spec_animation_ticks(m, ticks).cursor.frame_index < spec_count(
            m.frame_counts,
            spec_animation_ticks(m, ticks).cursor.phase,
        ),
        phase_rank(m.cursor.phase) <= phase_rank(spec_animation_ticks(m, ticks).cursor.phase),
    decreases ticks,
{
    if ticks > 0 {
        law_animation_stays_in_range(m, (ticks - 1) as nat);
        let before = spec_animation_ticks(m, (ticks - 1) as nat);
        lemma_ticks_keep_cursor_valid(before.cursor, before.frame_counts, 1);
        assert(spec_advance_by(before.cursor, before.frame_counts, 0) == before.cursor);
    }
}

/// Animation: the phase after more ticks is never before the phase after
/// fewer ticks.
pub proof fn law_phase_only_advances(m: OverlayModel, earlier: nat, later: nat)
    requires
        model_wf(m),
        earlier <= later,
    ensures
        phase_rank(spec_animation_ticks(m, earlier).cursor.phase) <= phase_rank(
            spec_animation_ticks(m, later).cursor.phase,
        ),
    decreases later,
{
    if earlier < later {
        law_phase_only_advances(m, earlier, (later - 1) as nat);
        law_animation_stays_in_range(m, (later - 1) as nat);
        let before = spec_animation_ticks(m, (later - 1) as nat);
        lemma_ticks_keep_cursor_valid(before.cursor, before.frame_counts, 1);
        assert(spec_advance_by(before.cursor, before.frame_counts, 0) == before.cursor);
    }
}

/// Chat: a submission is accepted exactly from an open input with a text that
/// is not empty. An accepted submission starts thinking and asks for exactly
/// one query; any other submission changes nothing and asks for nothing.
pub proof fn law_submission_asks_for_one_query(m: OverlayModel, text: Seq<char>)
    ensures
        m.open && spec_accepts(m.session, text) ==> {
            &&& spec_submit_chat(m, text).0.session.state == ChatState::Thinking
            &&& spec_submit_chat(m, text).1 == seq![
                Action::ClearInput,
                Action::HideInput,
                Action::ShowThinking,
                Action::StartQuery,
            ]
            &&& query_count(spec_submit_chat(m, text).1) == 1
        },
        !(m.open && spec_accepts(m.session, text)) ==> spec_submit_chat(m, text) == (
            m,
            Seq::<Action>::empty(),
        ),
{
    if m.open && spec_accepts(m.session, text) {
        let expected = seq![
            Action::ClearInput,
            Action::HideInput,
            Action::ShowThinking,
            Action::StartQuery,
        ];
        assert(spec_submit_chat(m, text).1 =~= expected);
        lemma_query_count_of_submission();
    }
}

proof fn lemma_query_count_of_submission()
    ensures
        query_count(
            seq![Action::ClearInput, Action::HideInput, Action::ShowThinking, Action::StartQuery],
        ) == 1,
        query_count(seq![Action::HideInput, Action::ShowThinking, Action::StartQuery]) == 1,
{
    let a0 = Seq::<Action>::empty();
    let a1 = seq![Action::ClearInput];
    let a2 = seq![Action::ClearInput, Action::HideInput];
    let a3 = seq![Action::ClearInput, Action::HideInput, Action::ShowThinking];
    let a4 = seq![Action::ClearInput, Action::HideInput, Action::ShowThinking, Action::StartQuery];
    assert(a1.drop_last() =~= a0);
    assert(a2.drop_last() =~= a1);
    assert(a3.drop_last() =~= a2);
    assert(a4.drop_last() =~= a3);
    assert(query_count(a0) == 0);
    assert(query_count(a1) == 0);
    assert(query_count(a2) == 0);
    assert(query_count(a3) == 0);
    assert(query_count(a4) == 1);
    let b1 = seq![Action::HideInput];
    let b2 = seq![Action::HideInput, Action::ShowThinking];
    let b3 = seq![Action::HideInput, Action::ShowThinking, Action::StartQuery];
    assert(b1.drop_last() =~= a0);
    assert(b2.drop_last() =~= b1);
    assert(b3.drop_last() =~= b2);
    assert(query_count(b1) == 0);
    assert(query_count(b2) == 0);
    assert(query_count(b3) == 1);
}

/// Chat: while a query is under way or its reply is on screen, no message is
/// accepted, so a session never has two queries under way.
pub proof fn law_busy_session_accepts_nothing(s: SessionView, message: Seq<char>)
    requires
        s.state == ChatState::Thinking || s.state == ChatState::Responding,
    ensures
        !spec_accepts(s, message),
        spec_send(s, message) == (s, Seq::<Action>::empty()),
        spec_submit(s, message) == (s, Seq::<Action>::empty()),
        spec_toggle(s) == (s, Seq::<Action>::empty()),
{
}

/// Chat: sending asks for one query when the message is accepted and for none
/// otherwise, and no other event of the session asks for a query at all.
pub proof fn law_only_submissions_ask_for_queries(s: SessionView, text: Seq<char>)
    ensures
        query_count(spec_send(s, text).1) == if spec_accepts(s, text) {
            1nat
        } else {
            0nat
        },
        query_count(spec_submit(s, text).1) == if spec_accepts(s, text) {
            1nat
        } else {
            0nat
        },
        query_count(spec_toggle(s).1) == 0,
        query_count(spec_open_input(s).1) == 0,
        query_count(spec_close_input(s).1) == 0,
        query_count(spec_begin_thinking(s).1) == 0,
        query_count(spec_respond(s, text).1) == 0,
        query_count(spec_start_reveal(s).1) == 0,
        query_count(spec_reveal_tick(s).1) == 0,
        query_count(spec_dismiss(s).1) == 0,
{
    lemma_query_count_of_submission();
    if spec_accepts(s, text) {
        assert(spec_send(s, text).1 =~= seq![
            Action::HideInput,
            Action::ShowThinking,
            Action::StartQuery,
        ]);
        assert(spec_submit(s, text).1 =~= seq![
            Action::ClearInput,
            Action::HideInput,
            Action::ShowThinking,
            Action::StartQuery,
        ]);
    }
    lemma_no_query_among(spec_toggle(s).1);
    lemma_no_query_among(spec_open_input(s).1);
    lemma_no_query_among(spec_close_input(s).1);
    lemma_no_query_among(spec_begin_thinking(s).1);
    lemma_no_query_among(spec_respond(s, text).1);
    lemma_no_query_among(spec_start_reveal(s).1);
    lemma_no_query_among(spec_reveal_tick(s).1);
    lemma_no_query_among(spec_dismiss(s).1);
}

proof fn lemma_no_query_among(actions: Seq<Action>)
    requires
        forall|i: int| 0 <= i < actions.len() ==> actions[i] != Action::StartQuery,
    ensures
        query_count(actions) == 0,
    decreases actions.len(),
{
    if actions.len() > 0 {
        lemma_no_query_among(actions.drop_last());
    }
}

/// Repositioning is idempotent: with the pointer and the displays unchanged,
/// a second move in a row puts the overlay at the same anchor, asks for the
/// same actions and leaves the state as the first move left it.
pub proof fn law_reposition_is_idempotent(
    m: OverlayModel,
    pointer: Point,
    screens: Seq<ScreenRect>,
    primary: ScreenRect,
)
    ensures
        spec_move(spec_move(m, pointer, screens, primary).0, pointer, screens, primary)
            == spec_move(m, pointer, screens, primary),
        spec_move(m, pointer, screens, primary).0.anchor == spec_move(
            spec_move(m, pointer, screens, primary).0,
            pointer,
            screens,
            primary,
        ).0.anchor,
        spec_monitor_tick(
            spec_monitor_tick(m, pointer, screens, primary).0,
            pointer,
            screens,
            primary,
        ).0 == spec_monitor_tick(m, pointer, screens, primary).0,
{
}

/// Typed reveal: from the moment a reply of `n` characters is taken, the
/// revealed length after `k` ticks is `k` for every `k` up to `n`, so it runs
/// through 0, 1, 2, ..., n without a skip. The tick after that ends the reveal
/// at `n`, and no later tick moves it.
pub proof fn law_reveal_counts_up(s: SessionView, text: Seq<char>, k: nat)
    requires
        s.state == ChatState::Thinking,
    ensures
        spec_respond(s, text).0.reveal_index == 0,
        spec_respond(s, text).0.typing_active,
        spec_reveal_ticks(spec_respond(s, text).0, k).pending_reply == Some(text),
        spec_reveal_ticks(spec_respond(s, text).0, k).state == ChatState::Responding,
        session_wf(spec_reveal_ticks(spec_respond(s, text).0, k)),
        k <= text.len() ==> {
            &&& spec_reveal_ticks(spec_respond(s, text).0, k).reveal_index == k
            &&& spec_reveal_ticks(spec_respond(s, text).0, k).typing_active
            &&& spec_revealed(spec_reveal_ticks(spec_respond(s, text).0, k)) == text.take(k as int)
        },
        k > text.len() ==> {
            &&& spec_reveal_ticks(spec_respond(s, text).0, k).reveal_index == text.len()
            &&& !spec_reveal_ticks(spec_respond(s, text).0, k).typing_active
        },
    decreases k,
{
    if k > 0 {
        law_reveal_counts_up(s, text, (k - 1) as nat);
    }
}

/// Typed reveal: what each tick asks for. A tick that reveals a character
/// updates the reply surface and asks for the next tick; the tick that finds
/// the reply fully revealed asks for the auto-hide; every tick after that asks
/// for nothing.
pub proof fn law_reveal_tick_actions(s: SessionView, text: Seq<char>, k: nat)
    requires
        s.state == ChatState::Thinking,
    ensures
        spec_reveal_tick(spec_reveal_ticks(spec_respond(s, text).0, k)).1 == if k < text.len() {
            seq![Action::UpdateReply, Action::ScheduleRevealTick(REVEAL_INTERVAL_MS)]
        } else if k == text.len() {
            seq![Action::ScheduleAutoHide(AUTO_HIDE_DELAY_MS)]
        } else {
            Seq::<Action>::empty()
        },
{
    law_reveal_counts_up(s, text, k);
}

/// Input monitor: once it is stopped, no pointer or key event changes anything,
/// in particular neither the session nor the time of the last click, and none
/// asks for an action.
pub proof fn law_stopped_monitor_drops_events(
    m: OverlayModel,
    now_ms: u64,
    location: Point,
    panel: Option<ScreenRect>,
    key_code: u16,
    text: Seq<char>,
)
    requires
        !m.click_monitor_running,
    ensures
        spec_click(m, now_ms, location, panel) == (m, Seq::<Action>::empty()),
        spec_mouse_move(m, location, panel) == (m, Seq::<Action>::empty()),
        spec_key_down(m, key_code, text) == (m, Seq::<Action>::empty()),
{
}

/// Chat replies: in the companion's chat the reply text of a response is shown
/// as it is, whatever else the response holds. A response without a reply text
/// shows the fixed text for that, never the message of an upstream error, which
/// is kept for the log. A body that is not JSON shows the apology.
pub proof fn law_companion_reply(error_message: Option<Seq<char>>, content: Seq<char>)
    ensures
        spec_reply_text(spec_classify(Persona::Companion, Some((error_message, Some(content)))))
            == content,
        spec_reply_text(spec_classify(Persona::Companion, Some((error_message, None))))
            == no_reply_message(),
        error_message matches Some(message) ==> spec_classify(
            Persona::Companion,
            Some((error_message, None)),
        ) == Err::<Seq<char>, QueryFailure>(QueryFailure::UpstreamError(message))
            && spec_error_text(QueryFailure::UpstreamError(message)) == message,
        spec_reply_text(spec_classify(Persona::Companion, None)) == unreadable_message(),
{
}

/// Assistant replies: an upstream error comes before a reply text; without an
/// error the reply text is the answer.
pub proof fn law_assistant_reply(error_message: Option<Seq<char>>, content: Option<Seq<char>>)
    ensures
        error_message matches Some(message) ==> spec_classify(
            Persona::Assistant,
            Some((error_message, content)),
        ) == Err::<Seq<char>, QueryFailure>(QueryFailure::UpstreamError(message)),
        error_message is None ==> spec_classify(Persona::Assistant, Some((error_message, content)))
            == match content {
            Some(text) => Ok::<Seq<char>, QueryFailure>(text),
            None => Err::<Seq<char>, QueryFailure>(QueryFailure::MalformedResponse),
        },
{
}

} // verus!
