use overlay_controller::animation::{FrameCounts, Phase};
use overlay_controller::frames::{
    choose_font_root, choose_frame_root, decimal_text, font_path, frame_file_name, frame_path,
    AssetRoot, FrameSequence, FrameSet,
};

#[test]
fn frame_files_are_numbered_in_decimal() {
    assert_eq!(frame_file_name("spawn", 1), "spawn_frame1.png");
    assert_eq!(frame_file_name("yawn", 10), "yawn_frame10.png");
    assert_eq!(frame_file_name("idle", 100), "idle_frame100.png");
    assert_eq!(frame_file_name("", 7), "_frame7.png");
}

#[test]
fn decimal_text_has_no_leading_zeros() {
    assert_eq!(decimal_text(0), "0");
    assert_eq!(decimal_text(9), "9");
    assert_eq!(decimal_text(10), "10");
    assert_eq!(decimal_text(1234567890), "1234567890");
    assert_eq!(decimal_text(usize::MAX), usize::MAX.to_string());
}

#[test]
fn frame_paths_follow_the_asset_root() {
    assert_eq!(
        frame_path(AssetRoot::Packaged, "idle_frame3.png"),
        "../Resources/resources/frames/idle_frame3.png"
    );
    assert_eq!(
        frame_path(AssetRoot::Development, "idle_frame3.png"),
        "resources/frames/idle_frame3.png"
    );
    assert_eq!(
        frame_path(AssetRoot::SourceTree, "idle_frame3.png"),
        "src-tauri/resources/frames/idle_frame3.png"
    );
    assert_eq!(font_path(AssetRoot::Packaged), "../Resources/resources/fonts/Chicle-Regular.ttf");
    assert_eq!(font_path(AssetRoot::Development), "resources/fonts/Chicle-Regular.ttf");
    assert_eq!(font_path(AssetRoot::SourceTree), "src-tauri/resources/fonts/Chicle-Regular.ttf");
}

#[test]
fn asset_roots_are_tried_in_order() {
    assert_eq!(choose_frame_root(true, true), AssetRoot::Packaged);
    assert_eq!(choose_frame_root(true, false), AssetRoot::Packaged);
    assert_eq!(choose_frame_root(false, true), AssetRoot::Development);
    assert_eq!(choose_frame_root(false, false), AssetRoot::SourceTree);
    assert_eq!(choose_font_root(true, true, true), Some(AssetRoot::Packaged));
    assert_eq!(choose_font_root(false, true, true), Some(AssetRoot::Development));
    assert_eq!(choose_font_root(false, false, true), Some(AssetRoot::SourceTree));
    assert_eq!(choose_font_root(false, false, false), None);
}

#[test]
fn discovery_stops_at_the_first_missing_index() {
    let mut sequence: FrameSequence<&str> = FrameSequence::new();
    assert_eq!(sequence.next_index(), Some(1));
    sequence.offer(Some("one"));
    assert_eq!(sequence.next_index(), Some(2));
    sequence.offer(Some("two"));
    assert_eq!(sequence.next_index(), Some(3));
    sequence.offer(None);
    assert_eq!(sequence.next_index(), None);
    // a frame that turns up after a gap is not taken
    sequence.offer(Some("four"));
    assert_eq!(sequence.len(), 2);
    assert_eq!(sequence.into_frames(), vec!["one", "two"]);
}

#[test]
fn discovery_without_any_frame_yields_an_empty_sequence() {
    let mut sequence: FrameSequence<u8> = FrameSequence::new();
    sequence.offer(None);
    assert_eq!(sequence.next_index(), None);
    assert_eq!(sequence.into_frames(), Vec::<u8>::new());
}

#[test]
fn discovery_goes_on_for_as_long_as_frames_are_found() {
    let available = 250;
    let mut sequence: FrameSequence<usize> = FrameSequence::new();
    let mut asked = Vec::new();
    while let Some(index) = sequence.next_index() {
        asked.push(index);
        sequence.offer(if index <= available { Some(index) } else { None });
    }
    assert_eq!(asked, (1..=251).collect::<Vec<usize>>());
    assert_eq!(sequence.len(), 250);
    assert_eq!(sequence.into_frames(), (1..=250).collect::<Vec<usize>>());
}

#[test]
fn frame_set_hands_out_frames_by_phase_and_index() {
    let mut frames: FrameSet<&str> = FrameSet::new();
    assert_eq!(frames.counts(), FrameCounts::empty());
    frames.spawn = vec!["s1", "s2"];
    frames.idle = vec!["i1"];
    assert_eq!(frames.counts(), FrameCounts { spawn: 2, yawn: 0, idle: 1 });
    assert_eq!(frames.frame(Phase::Spawn, 1), Some(&"s2"));
    assert_eq!(frames.frame(Phase::Spawn, 2), None);
    assert_eq!(frames.frame(Phase::Yawn, 0), None);
    assert_eq!(frames.frame(Phase::Idle, 0), Some(&"i1"));
    frames.clear();
    assert_eq!(frames.counts(), FrameCounts::empty());
    assert_eq!(frames.frame(Phase::Spawn, 0), None);
}
