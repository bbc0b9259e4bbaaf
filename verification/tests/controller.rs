use rmpr::app::{App, Selection, State, Tab};
use rmpr::config::ConfigData;
use rmpr::metadata::FileMetadata;
use rmpr::sink::{AudioError, SinkCommand};

fn track(path: &str) -> FileMetadata {
    let raw = path.rsplit('/').next().unwrap_or(path).to_string();
    FileMetadata {
        album: None,
        artist: None,
        duration_as_secs: None,
        duration_display: None,
        file_path: path.to_string(),
        raw_file: raw,
        title: None,
        track_number: None,
        year: None,
    }
}

fn tagged(path: &str, title: &str) -> FileMetadata {
    let mut m = track(path);
    m.title = Some(title.to_string());
    m
}

fn queue_paths(app: &App) -> Vec<String> {
    app.path_queue.clone()
}

#[test]
fn fresh_session_is_empty() {
    let app = App::new(ConfigData::default());
    assert!(app.audio.is_empty());
    assert_eq!(app.audio.get_len(), 0);
    assert!(app.path_queue.is_empty());
    assert!(app.meta_manager.queue.is_empty());
    assert_eq!(app.audio.vol, 100);
    assert!(matches!(app.state, State::Running));
    assert!(matches!(app.tab, Tab::Browser));
}

#[test]
fn play_now_on_empty_session() {
    // Play-now on an empty session: sink loaded and playing, queue holds the
    // one track, current metadata falls back to the file name.
    let mut app = App::new(ConfigData::default());
    app.handle_play(&Selection::Track(track("music/track1.flac")));

    assert!(!app.audio.is_empty());
    assert!(!app.audio.paused);
    assert_eq!(queue_paths(&app), vec!["music/track1.flac".to_string()]);
    assert_eq!(app.meta_manager.queue.len(), 1);
    assert_eq!(app.data.display_title(), "track1.flac");
    assert_eq!(app.meta_manager.current.display_title(), "track1.flac");

    let cmds = app.audio.take_commands();
    assert_eq!(
        cmds,
        vec![SinkCommand::Load { path: "music/track1.flac".to_string(), level: 100 }]
    );
}

#[test]
fn play_now_uses_tag_title_when_present() {
    let mut app = App::new(ConfigData::default());
    app.handle_play(&Selection::Track(tagged("music/track1.flac", "Opening")));
    assert_eq!(app.data.display_title(), "Opening");
}

#[test]
fn append_three_tracks_keeps_order() {
    // From empty: the first append behaves as play-now, the next two join
    // the tail; A plays with B and C pending in that order.
    let mut app = App::new(ConfigData::default());
    app.handle_append(&Selection::Track(track("a.mp3")));
    assert_eq!(queue_paths(&app), vec!["a.mp3".to_string()]);
    let first_cmds = app.audio.take_commands();
    assert_eq!(first_cmds, vec![SinkCommand::Load { path: "a.mp3".to_string(), level: 100 }]);

    app.handle_append(&Selection::Track(track("b.mp3")));
    app.handle_append(&Selection::Track(track("c.mp3")));

    assert_eq!(
        queue_paths(&app),
        vec!["a.mp3".to_string(), "b.mp3".to_string(), "c.mp3".to_string()]
    );
    assert_eq!(app.audio.sources, vec!["a.mp3", "b.mp3", "c.mp3"]);
    assert!(!app.audio.paused);
    assert_eq!(app.data.display_title(), "a.mp3");
    assert_eq!(
        app.audio.take_commands(),
        vec![
            SinkCommand::Append { path: "b.mp3".to_string() },
            SinkCommand::Append { path: "c.mp3".to_string() },
        ]
    );
}

#[test]
fn skip_advances_to_next_track() {
    // From [A, B, C] with A playing, skip leaves [B, C] with B playing and
    // B's record on display.
    let mut app = App::new(ConfigData::default());
    app.handle_play(&Selection::Track(tagged("a.mp3", "First")));
    app.handle_append(&Selection::Track(tagged("b.mp3", "Second")));
    app.handle_append(&Selection::Track(tagged("c.mp3", "Third")));
    app.audio.take_commands();

    app.handle_skip();

    assert_eq!(queue_paths(&app), vec!["b.mp3".to_string(), "c.mp3".to_string()]);
    assert_eq!(app.audio.sources, vec!["b.mp3", "c.mp3"]);
    assert!(!app.audio.paused);
    assert_eq!(app.data.display_title(), "Second");
    assert_eq!(app.meta_manager.current.display_title(), "Second");
    assert_eq!(
        app.audio.take_commands(),
        vec![
            SinkCommand::Clear,
            SinkCommand::Load { path: "b.mp3".to_string(), level: 100 },
            SinkCommand::Append { path: "c.mp3".to_string() },
        ]
    );
}

#[test]
fn skip_last_track_empties_the_player() {
    let mut app = App::new(ConfigData::default());
    app.handle_play(&Selection::Track(tagged("a.mp3", "Only")));
    app.handle_skip();

    assert!(app.path_queue.is_empty());
    assert!(app.audio.is_empty());
    assert!(app.meta_manager.queue.is_empty());
    assert_eq!(app.data.display_title(), "");
}

#[test]
fn skip_on_empty_queue_is_a_no_op() {
    let mut app = App::new(ConfigData::default());
    app.handle_skip();

    assert!(app.path_queue.is_empty());
    assert!(app.audio.is_empty());
    assert_eq!(app.data.display_title(), "");
    assert_eq!(app.audio.take_commands(), vec![]);
}

#[test]
fn play_now_reorders_ahead_of_pending() {
    // From [A, B] with A playing, play-now C yields [C, A, B] with C playing
    // and A, B pending in their original relative order.
    let mut app = App::new(ConfigData::default());
    app.handle_play(&Selection::Track(tagged("a.mp3", "First")));
    app.handle_append(&Selection::Track(tagged("b.mp3", "Second")));
    app.audio.take_commands();

    app.handle_play(&Selection::Track(tagged("c.mp3", "Jumped")));

    assert_eq!(
        queue_paths(&app),
        vec!["c.mp3".to_string(), "a.mp3".to_string(), "b.mp3".to_string()]
    );
    assert_eq!(app.audio.sources, vec!["c.mp3", "a.mp3", "b.mp3"]);
    assert!(!app.audio.paused);
    assert_eq!(app.data.display_title(), "Jumped");
    assert_eq!(
        app.audio.take_commands(),
        vec![
            SinkCommand::Load { path: "c.mp3".to_string(), level: 100 },
            SinkCommand::Append { path: "a.mp3".to_string() },
            SinkCommand::Append { path: "b.mp3".to_string() },
        ]
    );
}

#[test]
fn directory_selection_is_a_no_op() {
    let mut app = App::new(ConfigData::default());
    app.handle_play(&Selection::Directory);
    app.handle_append(&Selection::Directory);

    assert!(app.path_queue.is_empty());
    assert!(app.audio.is_empty());
    assert_eq!(app.audio.take_commands(), vec![]);
}

#[test]
fn unplayable_selection_leaves_prior_state_intact() {
    let mut app = App::new(ConfigData::default());
    app.handle_play(&Selection::Track(tagged("a.mp3", "Kept")));
    app.audio.take_commands();

    app.handle_play(&Selection::Unplayable(AudioError::Decoder));
    app.handle_append(&Selection::Unplayable(AudioError::Io));

    assert_eq!(queue_paths(&app), vec!["a.mp3".to_string()]);
    assert_eq!(app.data.display_title(), "Kept");
    assert_eq!(app.audio.take_commands(), vec![]);
}

#[test]
fn clear_empties_everything() {
    let mut app = App::new(ConfigData::default());
    app.handle_play(&Selection::Track(track("a.mp3")));
    app.handle_append(&Selection::Track(track("b.mp3")));

    app.handle_clear();

    assert!(app.path_queue.is_empty());
    assert!(app.audio.is_empty());
    assert!(app.meta_manager.queue.is_empty());
    assert_eq!(app.data.display_title(), "");
    assert!(app.audio.paused);
}

#[test]
fn clear_twice_equals_clear_once() {
    let mut app = App::new(ConfigData::default());
    app.handle_play(&Selection::Track(track("a.mp3")));
    app.handle_clear();
    let paths_once = app.path_queue.clone();
    let metas_once = app.meta_manager.queue.len();
    let sources_once = app.audio.sources.clone();
    let paused_once = app.audio.paused;
    let vol_once = app.audio.vol;
    let title_once = app.data.display_title();

    app.handle_clear();

    assert_eq!(app.path_queue, paths_once);
    assert_eq!(app.meta_manager.queue.len(), metas_once);
    assert_eq!(app.audio.sources, sources_once);
    assert_eq!(app.audio.paused, paused_once);
    assert_eq!(app.audio.vol, vol_once);
    assert_eq!(app.data.display_title(), title_once);
}

#[test]
fn track_end_advances_both_queues() {
    let mut app = App::new(ConfigData::default());
    app.handle_play(&Selection::Track(tagged("a.mp3", "First")));
    app.handle_append(&Selection::Track(tagged("b.mp3", "Second")));
    app.audio.take_commands();

    app.handle_track_end();

    assert_eq!(queue_paths(&app), vec!["b.mp3".to_string()]);
    assert_eq!(app.audio.sources, vec!["b.mp3"]);
    assert_eq!(app.data.display_title(), "Second");
    // The device advanced on its own: nothing to replay.
    assert_eq!(app.audio.take_commands(), vec![]);

    app.handle_track_end();
    assert!(app.path_queue.is_empty());
    assert!(app.audio.is_empty());
    assert_eq!(app.data.display_title(), "");
}
