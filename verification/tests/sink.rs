use rmpr::sink::{SinkCommand, SinkHandler};

#[test]
fn fresh_sink_is_empty_at_full_volume() {
    let s = SinkHandler::new();
    assert!(s.is_empty());
    assert_eq!(s.get_len(), 0);
    assert_eq!(s.vol, 100);
    assert!(!s.paused);
    assert_eq!(s.sink_pos(), 0);
    assert_eq!(s.sink_pos_millis(), 0);
}

#[test]
fn load_replaces_everything() {
    let mut s = SinkHandler::new();
    s.play_file(&"a.mp3".to_string(), 80);
    s.append_to_sink(&"b.mp3".to_string());
    assert_eq!(s.get_len(), 2);

    s.play_file(&"c.mp3".to_string(), 80);
    assert_eq!(s.sources, vec!["c.mp3"]);
    assert!(!s.paused);
    assert_eq!(s.vol, 80);
    assert_eq!(
        s.take_commands(),
        vec![
            SinkCommand::Load { path: "a.mp3".to_string(), level: 80 },
            SinkCommand::Append { path: "b.mp3".to_string() },
            SinkCommand::Load { path: "c.mp3".to_string(), level: 80 },
        ]
    );
}

#[test]
fn append_needs_a_loaded_sink() {
    let mut s = SinkHandler::new();
    s.append_to_sink(&"a.mp3".to_string());
    assert!(s.is_empty());
    assert_eq!(s.take_commands(), vec![]);
}

#[test]
fn volume_is_clamped() {
    let mut s = SinkHandler::new();
    s.set_volume(150);
    assert_eq!(s.vol, 100);
    s.set_volume(-20);
    assert_eq!(s.vol, 0);
    s.set_volume(55);
    assert_eq!(s.vol, 55);
    // Nothing loaded: the level is kept for the next load, the device is
    // not told.
    assert_eq!(s.take_commands(), vec![]);

    s.play_file(&"a.mp3".to_string(), 55);
    s.adjust_volume(2);
    assert_eq!(s.vol, 57);
    s.adjust_volume(i16::MAX);
    assert_eq!(s.vol, 100);
    s.adjust_volume(i16::MIN);
    assert_eq!(s.vol, 0);
    assert_eq!(
        s.take_commands(),
        vec![
            SinkCommand::Load { path: "a.mp3".to_string(), level: 55 },
            SinkCommand::SetVolume { level: 57 },
            SinkCommand::SetVolume { level: 100 },
            SinkCommand::SetVolume { level: 0 },
        ]
    );
}

#[test]
fn load_clamps_the_requested_volume() {
    let mut s = SinkHandler::new();
    s.play_file(&"a.mp3".to_string(), 300);
    assert_eq!(s.vol, 100);
    assert_eq!(
        s.take_commands(),
        vec![SinkCommand::Load { path: "a.mp3".to_string(), level: 100 }]
    );
}

#[test]
fn toggle_pauses_and_resumes() {
    let mut s = SinkHandler::new();
    s.toggle_play_pause();
    assert!(!s.paused);
    assert_eq!(s.take_commands(), vec![]);

    s.play_file(&"a.mp3".to_string(), 100);
    s.toggle_play_pause();
    assert!(s.paused);
    s.toggle_play_pause();
    assert!(!s.paused);
    assert_eq!(
        s.take_commands(),
        vec![
            SinkCommand::Load { path: "a.mp3".to_string(), level: 100 },
            SinkCommand::Pause,
            SinkCommand::Resume,
        ]
    );
}

#[test]
fn clear_discards_and_pauses() {
    let mut s = SinkHandler::new();
    s.play_file(&"a.mp3".to_string(), 100);
    s.update_position(9000);
    s.clear();
    assert!(s.is_empty());
    assert!(s.paused);
    assert_eq!(s.sink_pos(), 0);
    s.clear();
    assert!(s.is_empty());
}

#[test]
fn position_reports() {
    let mut s = SinkHandler::new();
    s.update_position(5000);
    assert_eq!(s.sink_pos_millis(), 0);

    s.play_file(&"a.mp3".to_string(), 100);
    s.update_position(63500);
    assert_eq!(s.sink_pos_millis(), 63500);
    assert_eq!(s.sink_pos(), 63);

    s.advance();
    assert_eq!(s.sink_pos(), 0);
    assert!(s.is_empty());
}

#[test]
fn advance_drops_the_head_only() {
    let mut s = SinkHandler::new();
    s.play_file(&"a.mp3".to_string(), 100);
    s.append_to_sink(&"b.mp3".to_string());
    s.take_commands();
    s.advance();
    assert_eq!(s.sources, vec!["b.mp3"]);
    // The device moved on by itself: nothing to replay.
    assert_eq!(s.take_commands(), vec![]);
    s.advance();
    assert!(s.is_empty());
    s.advance();
    assert!(s.is_empty());
}
