use overlay_controller::action::Action;
use overlay_controller::animation::FrameCounts;
use overlay_controller::chat::{ChatSession, ChatState, AUTO_HIDE_DELAY_MS, REVEAL_INTERVAL_MS};
use overlay_controller::geometry::{Point, ScreenRect};
use overlay_controller::overlay::{
    close_overlay, create_overlay, hide_chat_input, hide_response, hide_thinking,
    outbound_request, request_completed, response_received, send_to_groq, set_groq_api_key, show_chat_input,
    show_response_with_typing, show_thinking, start_typing_effect, submit_chat_input,
    typing_tick, OverlayController,
};
use overlay_controller::query::QueryError;

fn open_overlay() -> OverlayController {
    let mut ctl = OverlayController::new();
    let primary = ScreenRect { x: 0, y: 0, width: 1920, height: 1080 };
    let counts = FrameCounts { spawn: 3, yawn: 2, idle: 4 };
    create_overlay(&mut ctl, 320, 320, counts, Point { x: 5, y: 5 }, &vec![primary], primary);
    ctl
}

fn thinking_overlay(key: &str, message: &str) -> OverlayController {
    let mut ctl = open_overlay();
    set_groq_api_key(&mut ctl, key);
    show_chat_input(&mut ctl);
    submit_chat_input(&mut ctl, message);
    ctl
}

#[test]
fn reveal_of_meow_takes_five_ticks_then_lingers() {
    let mut ctl = thinking_overlay("key", "hi");
    let shown = show_response_with_typing(&mut ctl, "Meow!".to_string());
    assert_eq!(
        shown,
        vec![Action::HideThinking, Action::ShowReply, Action::ScheduleRevealTick(30)]
    );
    assert_eq!(ctl.chat_state(), ChatState::Responding);
    assert_eq!(ctl.reveal_index(), 0);
    assert_eq!(ctl.revealed_text(), "");
    let mut lengths = Vec::new();
    let expected_text = ["M", "Me", "Meo", "Meow", "Meow!"];
    for step in 0..5 {
        let actions = typing_tick(&mut ctl);
        assert_eq!(actions, vec![Action::UpdateReply, Action::ScheduleRevealTick(30)]);
        assert_eq!(ctl.revealed_text(), expected_text[step]);
        lengths.push(ctl.reveal_index());
    }
    assert_eq!(lengths, vec![1, 2, 3, 4, 5]);
    assert!(ctl.typing_active());
    // the next tick finds the reply complete: the idle timer starts
    assert_eq!(typing_tick(&mut ctl), vec![Action::ScheduleAutoHide(5000)]);
    assert!(!ctl.typing_active());
    assert_eq!(ctl.reveal_index(), 5);
    // no further reveal ticks occur
    assert_eq!(typing_tick(&mut ctl), vec![]);
    assert_eq!(ctl.reveal_index(), 5);
    assert_eq!(ctl.chat_state(), ChatState::Responding);
    assert_eq!(hide_response(&mut ctl), vec![Action::HideReply, Action::SetPassThrough(true)]);
    assert_eq!(ctl.chat_state(), ChatState::Idle);
    assert_eq!(ctl.pending_reply(), None);
    assert_eq!(ctl.reveal_index(), 0);
}

#[test]
fn reveal_intervals_are_thirty_milliseconds_and_five_seconds() {
    assert_eq!(REVEAL_INTERVAL_MS, 30);
    assert_eq!(AUTO_HIDE_DELAY_MS, 5000);
}

#[test]
fn reveal_counts_characters_not_bytes() {
    let mut ctl = thinking_overlay("key", "hi");
    show_response_with_typing(&mut ctl, "héé🐱".to_string());
    let mut lengths = vec![ctl.reveal_index()];
    let mut texts = vec![ctl.revealed_text()];
    while ctl.typing_active() {
        if typing_tick(&mut ctl).contains(&Action::UpdateReply) {
            lengths.push(ctl.reveal_index());
            texts.push(ctl.revealed_text());
        }
    }
    assert_eq!(lengths, vec![0, 1, 2, 3, 4]);
    assert_eq!(texts, vec!["", "h", "hé", "héé", "héé🐱"]);
}

#[test]
fn empty_reply_ends_the_reveal_at_the_first_tick() {
    let mut ctl = thinking_overlay("key", "hi");
    show_response_with_typing(&mut ctl, String::new());
    assert!(ctl.typing_active());
    assert_eq!(typing_tick(&mut ctl), vec![Action::ScheduleAutoHide(5000)]);
    assert!(!ctl.typing_active());
    assert_eq!(ctl.reveal_index(), 0);
    assert_eq!(ctl.revealed_text(), "");
}

#[test]
fn empty_api_key_answers_with_the_configuration_message() {
    let mut ctl = open_overlay();
    set_groq_api_key(&mut ctl, "");
    show_chat_input(&mut ctl);
    assert_eq!(ctl.chat_state(), ChatState::InputOpen);
    let submitted = submit_chat_input(&mut ctl, "hi");
    assert_eq!(ctl.chat_state(), ChatState::Thinking);
    assert_eq!(
        submitted,
        vec![Action::ClearInput, Action::HideInput, Action::ShowThinking, Action::StartQuery]
    );
    // the query fails before there is anything to send
    let request = outbound_request(&ctl, "hi");
    assert_eq!(request, Err(QueryError::MissingKey));
    let actions = request_completed(&mut ctl, Err(QueryError::MissingKey));
    assert_eq!(
        actions,
        vec![Action::HideThinking, Action::ShowReply, Action::ScheduleRevealTick(30)]
    );
    assert_eq!(ctl.chat_state(), ChatState::Responding);
    assert_eq!(ctl.pending_reply(), Some("Please configure an API key".to_string()));
    while ctl.typing_active() {
        typing_tick(&mut ctl);
    }
    assert_eq!(ctl.revealed_text(), "Please configure an API key");
    hide_response(&mut ctl);
    assert_eq!(ctl.chat_state(), ChatState::Idle);
}

#[test]
fn submission_needs_an_open_input_and_a_text() {
    let mut idle = open_overlay();
    assert_eq!(submit_chat_input(&mut idle, "hi"), vec![]);
    assert_eq!(idle.chat_state(), ChatState::Idle);
    let mut open = open_overlay();
    show_chat_input(&mut open);
    assert_eq!(submit_chat_input(&mut open, ""), vec![]);
    assert_eq!(open.chat_state(), ChatState::InputOpen);
    let mut thinking = thinking_overlay("key", "first");
    assert_eq!(submit_chat_input(&mut thinking, "second"), vec![]);
    assert_eq!(send_to_groq(&mut thinking, "second"), vec![]);
    assert_eq!(thinking.chat_state(), ChatState::Thinking);
    let mut responding = thinking_overlay("key", "first");
    show_response_with_typing(&mut responding, "ok".to_string());
    assert_eq!(submit_chat_input(&mut responding, "second"), vec![]);
    assert_eq!(responding.chat_state(), ChatState::Responding);
}

#[test]
fn accepted_submission_asks_for_exactly_one_query() {
    let mut ctl = open_overlay();
    show_chat_input(&mut ctl);
    let actions = submit_chat_input(&mut ctl, "tell me");
    let queries = actions.iter().filter(|a| **a == Action::StartQuery).count();
    assert_eq!(queries, 1);
    let direct = {
        let mut other = open_overlay();
        show_chat_input(&mut other);
        send_to_groq(&mut other, "tell me")
    };
    assert_eq!(direct, vec![Action::HideInput, Action::ShowThinking, Action::StartQuery]);
}

#[test]
fn input_opens_and_closes_on_request() {
    let mut ctl = open_overlay();
    assert_eq!(
        show_chat_input(&mut ctl),
        vec![Action::ShowInput, Action::SetPassThrough(true), Action::FocusInput]
    );
    assert_eq!(show_chat_input(&mut ctl), vec![]);
    assert_eq!(
        hide_chat_input(&mut ctl),
        vec![Action::HideInput, Action::SetPassThrough(false)]
    );
    assert_eq!(ctl.chat_state(), ChatState::Idle);
    assert_eq!(hide_chat_input(&mut ctl), vec![]);
}

#[test]
fn busy_session_ignores_open_and_close() {
    let mut ctl = thinking_overlay("key", "hi");
    assert_eq!(show_chat_input(&mut ctl), vec![]);
    assert_eq!(hide_chat_input(&mut ctl), vec![]);
    assert_eq!(hide_response(&mut ctl), vec![]);
    assert_eq!(typing_tick(&mut ctl), vec![]);
    assert_eq!(start_typing_effect(&mut ctl), vec![]);
    assert_eq!(ctl.chat_state(), ChatState::Thinking);
}

#[test]
fn thinking_indicator_follows_the_session() {
    let mut ctl = open_overlay();
    assert_eq!(show_thinking(&mut ctl), vec![]);
    show_chat_input(&mut ctl);
    assert_eq!(show_thinking(&mut ctl), vec![Action::HideInput, Action::ShowThinking]);
    assert_eq!(ctl.chat_state(), ChatState::Thinking);
    assert_eq!(hide_thinking(&ctl), vec![Action::HideThinking]);
    assert_eq!(ctl.chat_state(), ChatState::Thinking);
}

#[test]
fn reply_outside_thinking_is_dropped() {
    let mut ctl = open_overlay();
    assert_eq!(show_response_with_typing(&mut ctl, "late".to_string()), vec![]);
    assert_eq!(ctl.chat_state(), ChatState::Idle);
    assert_eq!(ctl.pending_reply(), None);
}

#[test]
fn restarting_a_running_reveal_is_a_no_op() {
    let mut ctl = thinking_overlay("key", "hi");
    show_response_with_typing(&mut ctl, "abc".to_string());
    typing_tick(&mut ctl);
    assert_eq!(start_typing_effect(&mut ctl), vec![]);
    assert_eq!(ctl.reveal_index(), 1);
    assert!(ctl.typing_active());
}

#[test]
fn hiding_the_reply_cuts_a_running_reveal_short() {
    let mut ctl = thinking_overlay("key", "hi");
    show_response_with_typing(&mut ctl, "a long answer".to_string());
    typing_tick(&mut ctl);
    typing_tick(&mut ctl);
    assert_eq!(hide_response(&mut ctl), vec![Action::HideReply, Action::SetPassThrough(true)]);
    assert!(!ctl.typing_active());
    assert_eq!(ctl.chat_state(), ChatState::Idle);
    assert_eq!(typing_tick(&mut ctl), vec![]);
}

#[test]
fn reply_to_a_closed_overlay_is_dropped() {
    let mut ctl = thinking_overlay("key", "hi");
    close_overlay(&mut ctl);
    assert_eq!(ctl.chat_state(), ChatState::Idle);
    assert_eq!(request_completed(&mut ctl, Ok("too late".to_string())), vec![]);
    assert_eq!(ctl.chat_state(), ChatState::Idle);
    assert_eq!(ctl.pending_reply(), None);
    assert_eq!(show_chat_input(&mut ctl), vec![]);
    assert_eq!(submit_chat_input(&mut ctl, "hi"), vec![]);
}

#[test]
fn failures_show_their_fixed_messages() {
    let cases = [
        (QueryError::TransportFailure, "Meow... I couldn't reach the server!"),
        (QueryError::UnreadableResponse, "Meow... something went wrong!"),
        (QueryError::MalformedResponse, "Meow? I couldn't understand that..."),
        (QueryError::UpstreamError("rate limit".to_string()), "Meow? I couldn't understand that..."),
        (QueryError::MissingKey, "Please configure an API key"),
    ];
    for (error, message) in cases {
        let mut ctl = thinking_overlay("key", "hi");
        request_completed(&mut ctl, Err(error));
        assert_eq!(ctl.chat_state(), ChatState::Responding);
        assert_eq!(ctl.pending_reply(), Some(message.to_string()));
    }
}

#[test]
fn session_alone_walks_the_whole_cycle() {
    let mut session = ChatSession::new();
    assert_eq!(session.state(), ChatState::Idle);
    session.toggle();
    assert_eq!(session.state(), ChatState::InputOpen);
    session.toggle();
    assert_eq!(session.state(), ChatState::Idle);
    session.toggle();
    assert!(session.accepts("x"));
    assert!(!session.accepts(""));
    session.submit("x");
    assert_eq!(session.state(), ChatState::Thinking);
    assert_eq!(session.toggle(), vec![]);
    session.respond("ab".to_string());
    assert_eq!(session.state(), ChatState::Responding);
    assert_eq!(session.toggle(), vec![]);
    session.reveal_tick();
    session.reveal_tick();
    assert_eq!(session.revealed_text(), "ab");
    session.reveal_tick();
    assert!(!session.typing_active());
    session.dismiss();
    assert_eq!(session.state(), ChatState::Idle);
    assert_eq!(session.pending_reply(), None);
}

#[test]
fn response_with_a_reply_text_shows_it_unchanged() {
    let mut ctl = thinking_overlay("key", "hi");
    let body = r#"{"choices":[{"message":{"content":"  Purr purr \n"}}]}"#;
    let actions = response_received(&mut ctl, body);
    assert_eq!(
        actions,
        vec![Action::HideThinking, Action::ShowReply, Action::ScheduleRevealTick(30)]
    );
    assert_eq!(ctl.chat_state(), ChatState::Responding);
    assert_eq!(ctl.pending_reply(), Some("  Purr purr \n".to_string()));
}

#[test]
fn response_with_reply_and_error_shows_the_reply() {
    let mut ctl = thinking_overlay("key", "hi");
    let body = r#"{"error":{"message":"deprecated model"},"choices":[{"message":{"content":"Mrrp!"}}]}"#;
    response_received(&mut ctl, body);
    assert_eq!(ctl.chat_state(), ChatState::Responding);
    assert_eq!(ctl.pending_reply(), Some("Mrrp!".to_string()));
}

#[test]
fn response_without_a_reply_text_shows_the_fixed_text() {
    for body in [r#"{"error":{"message":"rate limit reached"}}"#, r#"{"choices":[]}"#, "{}"] {
        let mut ctl = thinking_overlay("key", "hi");
        response_received(&mut ctl, body);
        assert_eq!(ctl.chat_state(), ChatState::Responding);
        let shown = ctl.pending_reply().unwrap();
        assert_eq!(shown, "Meow? I couldn't understand that...");
        assert!(!shown.contains("rate limit"));
    }
}

#[test]
fn response_that_is_not_json_shows_the_apology() {
    let mut ctl = thinking_overlay("key", "hi");
    response_received(&mut ctl, "<html>Bad Gateway</html>");
    assert_eq!(ctl.chat_state(), ChatState::Responding);
    assert_eq!(ctl.pending_reply(), Some("Meow... something went wrong!".to_string()));
}

#[test]
fn response_to_a_session_that_is_not_thinking_is_dropped() {
    let mut ctl = thinking_overlay("key", "hi");
    close_overlay(&mut ctl);
    let body = r#"{"choices":[{"message":{"content":"late"}}]}"#;
    assert_eq!(response_received(&mut ctl, body), vec![]);
    assert_eq!(ctl.pending_reply(), None);
}
