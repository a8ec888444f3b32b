use overlay_controller::action::{Action, Step};
use overlay_controller::animation::{
    frame_delay, AnimationCursor, FrameCounts, Phase, IDLE_DELAY_MS, READY_POLL_MS,
    SPAWN_DELAY_MS, YAWN_DELAY_MS,
};
use overlay_controller::geometry::{Point, ScreenRect};
use overlay_controller::overlay::{
    animation_tick, close_overlay, create_overlay, mark_frames_ready, start_animation,
    stop_animation, OverlayController,
};

fn overlay_with(counts: FrameCounts) -> OverlayController {
    let mut ctl = OverlayController::new();
    let primary = ScreenRect { x: 0, y: 0, width: 1920, height: 1080 };
    create_overlay(&mut ctl, 320, 320, counts, Point { x: 5, y: 5 }, &vec![primary], primary);
    ctl
}

fn rank(phase: Phase) -> u8 {
    match phase {
        Phase::Spawn => 0,
        Phase::Yawn => 1,
        Phase::Idle => 2,
    }
}

#[test]
fn cadence_is_fifty_fifty_eighty() {
    assert_eq!(SPAWN_DELAY_MS, 50);
    assert_eq!(YAWN_DELAY_MS, 50);
    assert_eq!(IDLE_DELAY_MS, 80);
    assert_eq!(READY_POLL_MS, 10);
    assert_eq!(frame_delay(Phase::Spawn), 50);
    assert_eq!(frame_delay(Phase::Yawn), 50);
    assert_eq!(frame_delay(Phase::Idle), 80);
}

#[test]
fn animation_waits_for_its_frames() {
    let mut ctl = overlay_with(FrameCounts { spawn: 2, yawn: 2, idle: 2 });
    assert!(ctl.animation_running());
    assert!(!ctl.cursor().frames_ready);
    let step = animation_tick(&mut ctl);
    assert_eq!(step, Step { actions: vec![], next_ms: Some(10) });
    assert_eq!(ctl.cursor().frame_index, 0);
    assert_eq!(ctl.cursor().phase, Phase::Spawn);
    mark_frames_ready(&mut ctl);
    assert!(ctl.cursor().frames_ready);
}

#[test]
fn stopped_animation_ends_its_loop() {
    let mut ctl = overlay_with(FrameCounts { spawn: 2, yawn: 2, idle: 2 });
    stop_animation(&mut ctl);
    assert_eq!(animation_tick(&mut ctl), Step { actions: vec![], next_ms: None });
    mark_frames_ready(&mut ctl);
    assert_eq!(animation_tick(&mut ctl), Step { actions: vec![], next_ms: None });
}

#[test]
fn phases_play_in_order_and_idle_loops() {
    let mut ctl = overlay_with(FrameCounts { spawn: 2, yawn: 1, idle: 3 });
    mark_frames_ready(&mut ctl);
    let mut seen = Vec::new();
    for _ in 0..9 {
        let step = animation_tick(&mut ctl);
        seen.push((step.actions, step.next_ms));
    }
    let frame = |phase, index| vec![Action::DisplayFrame(phase, index)];
    assert_eq!(
        seen,
        vec![
            (frame(Phase::Spawn, 0), Some(50)),
            (frame(Phase::Spawn, 1), Some(50)),
            (frame(Phase::Yawn, 0), Some(50)),
            (frame(Phase::Idle, 0), Some(80)),
            (frame(Phase::Idle, 1), Some(80)),
            (frame(Phase::Idle, 2), Some(80)),
            (frame(Phase::Idle, 0), Some(80)),
            (frame(Phase::Idle, 1), Some(80)),
            (frame(Phase::Idle, 2), Some(80)),
        ]
    );
}

#[test]
fn frame_index_stays_in_range_and_phase_never_goes_back() {
    for counts in [
        FrameCounts { spawn: 5, yawn: 3, idle: 7 },
        FrameCounts { spawn: 1, yawn: 1, idle: 1 },
        FrameCounts { spawn: 0, yawn: 4, idle: 2 },
        FrameCounts { spawn: 3, yawn: 0, idle: 0 },
        FrameCounts { spawn: 100, yawn: 100, idle: 100 },
    ] {
        let mut ctl = overlay_with(counts);
        mark_frames_ready(&mut ctl);
        let mut last = rank(ctl.cursor().phase);
        for _ in 0..400 {
            animation_tick(&mut ctl);
            let cursor = ctl.cursor();
            let count = counts.count(cursor.phase);
            if count > 0 {
                assert!(cursor.frame_index < count);
            }
            assert!(rank(cursor.phase) >= last);
            assert!(rank(cursor.phase) <= last + 1);
            last = rank(cursor.phase);
        }
        assert_eq!(ctl.cursor().phase, Phase::Idle);
    }
}

#[test]
fn empty_sequences_are_skipped_without_display() {
    let mut ctl = overlay_with(FrameCounts { spawn: 0, yawn: 0, idle: 0 });
    mark_frames_ready(&mut ctl);
    assert_eq!(animation_tick(&mut ctl), Step { actions: vec![], next_ms: Some(50) });
    assert_eq!(ctl.cursor().phase, Phase::Yawn);
    assert_eq!(animation_tick(&mut ctl), Step { actions: vec![], next_ms: Some(50) });
    assert_eq!(ctl.cursor().phase, Phase::Idle);
    for _ in 0..5 {
        assert_eq!(animation_tick(&mut ctl), Step { actions: vec![], next_ms: Some(80) });
        assert_eq!(ctl.cursor().phase, Phase::Idle);
        assert_eq!(ctl.cursor().frame_index, 0);
    }
}

#[test]
fn restart_begins_again_at_the_first_spawn_frame() {
    let mut ctl = overlay_with(FrameCounts { spawn: 2, yawn: 1, idle: 3 });
    mark_frames_ready(&mut ctl);
    for _ in 0..5 {
        animation_tick(&mut ctl);
    }
    assert_eq!(ctl.cursor().phase, Phase::Idle);
    // a running animation is left alone
    assert_eq!(start_animation(&mut ctl), vec![]);
    assert_eq!(ctl.cursor().phase, Phase::Idle);
    stop_animation(&mut ctl);
    assert_eq!(start_animation(&mut ctl), vec![Action::SpawnAnimation]);
    assert!(ctl.animation_running());
    assert_eq!(
        ctl.cursor(),
        AnimationCursor { phase: Phase::Spawn, frame_index: 0, frames_ready: true }
    );
}

#[test]
fn cursor_alone_advances_like_the_overlay() {
    let counts = FrameCounts { spawn: 2, yawn: 2, idle: 2 };
    let mut cursor = AnimationCursor::new();
    assert_eq!(cursor.shown(counts), Some(0));
    cursor.advance(counts);
    assert_eq!((cursor.phase, cursor.frame_index), (Phase::Spawn, 1));
    cursor.advance(counts);
    assert_eq!((cursor.phase, cursor.frame_index), (Phase::Yawn, 0));
    cursor.advance(counts);
    cursor.advance(counts);
    assert_eq!((cursor.phase, cursor.frame_index), (Phase::Idle, 0));
    cursor.advance(counts);
    cursor.advance(counts);
    assert_eq!((cursor.phase, cursor.frame_index), (Phase::Idle, 0));
    assert_eq!(cursor.shown(FrameCounts::empty()), None);
}

#[test]
fn closing_drops_the_frames_and_stops_the_animation() {
    let mut ctl = overlay_with(FrameCounts { spawn: 2, yawn: 1, idle: 3 });
    mark_frames_ready(&mut ctl);
    animation_tick(&mut ctl);
    close_overlay(&mut ctl);
    assert_eq!(ctl.frame_counts(), FrameCounts::empty());
    assert!(!ctl.animation_running());
    assert!(!ctl.cursor().frames_ready);
    assert_eq!(animation_tick(&mut ctl), Step { actions: vec![], next_ms: None });
    mark_frames_ready(&mut ctl);
    assert!(!ctl.cursor().frames_ready);
}
