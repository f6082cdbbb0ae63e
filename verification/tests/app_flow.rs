use vibecast::app_model::{
    audio_poll_decision, AppModel, AudioPollStep, PlayerDirective,
};
use vibecast::config::{ConfigStore, FavoritesStore};
use vibecast::input::Action;
use vibecast::station::{AudioQuality, Channel, Playlist, SortMode};
use vibecast::supervisor::{
    endpoint_file_name, spawn_args, ConnectPoller, PollDecision, CONNECT_POLL_MAX_ATTEMPTS,
};
use vibecast::text::truncate_to_width;

fn channel(id: &str, title: &str, listeners: u32) -> Channel {
    Channel {
        id: id.to_string(),
        title: title.to_string(),
        description: String::new(),
        genre: String::new(),
        dj: String::new(),
        djmail: None,
        listeners,
        image: String::new(),
        largeimage: format!("https://img.example/{id}-large.jpg"),
        xlimage: None,
        last_playing: String::new(),
        playlists: vec![Playlist {
            url: format!("https://ice.somafm.com/{id}-128-aac"),
            format: "aac".to_string(),
            quality: "highest".to_string(),
        }],
    }
}

fn model_with_three_stations() -> AppModel {
    let mut m = AppModel::new(ConfigStore::new(), FavoritesStore::new());
    m.set_channels(vec![
        channel("groovesalad", "Groove Salad", 900),
        channel("dronezone", "Drone Zone", 500),
        channel("beatblender", "Beat Blender", 700),
    ]);
    m.select_first_if_any();
    m
}

#[test]
fn default_order_is_by_listeners() {
    let m = model_with_three_stations();
    assert_eq!(m.sorted_indices, vec![0, 2, 1]);
    assert_eq!(m.selected, Some(0));
}

#[test]
fn favorites_rise_to_the_top() {
    let mut m = model_with_three_stations();
    // favorite the least-listened station: index 1 in the channel list
    m.selected = Some(2);
    let d = m.handle_action(Action::ToggleFavorite, false, 80);
    assert!(matches!(d, PlayerDirective::Idle));
    assert!(m.favorites.is_favorite("dronezone"));
    assert_eq!(m.sorted_indices, vec![1, 0, 2]);
}

#[test]
fn sort_mode_cycles_to_alphabetical() {
    let mut m = model_with_three_stations();
    m.handle_action(Action::ToggleSortMode, false, 80);
    assert_eq!(m.sort_mode, SortMode::Alphabetical);
    assert_eq!(m.sorted_indices, vec![2, 1, 0]);
}

#[test]
fn navigation_wraps_both_ways() {
    let mut m = model_with_three_stations();
    m.handle_action(Action::NextStation, false, 80);
    assert_eq!(m.selected, Some(1));
    m.handle_action(Action::NextStation, false, 80);
    m.handle_action(Action::NextStation, false, 80);
    assert_eq!(m.selected, Some(0), "stepping past the end wraps to the top");
    m.handle_action(Action::PrevStation, false, 80);
    assert_eq!(m.selected, Some(2), "stepping before the top wraps to the end");
    m.handle_action(Action::GoToTop, false, 80);
    assert_eq!(m.selected, Some(0));
    m.handle_action(Action::GoToBottom, false, 80);
    assert_eq!(m.selected, Some(2));
}

#[test]
fn select_station_hands_out_the_stream() {
    let mut m = model_with_three_stations();
    match m.handle_action(Action::SelectStation, false, 80) {
        PlayerDirective::PlaySelected { url, channel_index } => {
            assert_eq!(channel_index, 0);
            assert_eq!(url, "https://ice.somafm.com/groovesalad-128-aac");
        },
        _ => panic!("a selected station must yield a play directive"),
    }
    // only once the runner reports success does the channel become current
    assert_eq!(m.current_channel, None);
    m.on_play_started(0);
    assert_eq!(m.current_channel, Some(0));
}

#[test]
fn toggle_play_pause_depends_on_playback() {
    let mut m = model_with_three_stations();
    assert!(matches!(
        m.handle_action(Action::TogglePlayPause, true, 80),
        PlayerDirective::TogglePause
    ));
    assert!(matches!(
        m.handle_action(Action::TogglePlayPause, false, 80),
        PlayerDirective::PlaySelected { .. }
    ));
}

#[test]
fn quit_stops_the_player() {
    let mut m = model_with_three_stations();
    let d = m.handle_action(Action::Quit, true, 80);
    assert!(matches!(d, PlayerDirective::Stop));
    assert!(m.should_quit);
}

#[test]
fn mute_remembers_and_restores_the_volume() {
    let mut m = model_with_three_stations();
    let d = m.handle_action(Action::ToggleMute, true, 65);
    assert!(matches!(d, PlayerDirective::SetVolume(0)));
    assert!(m.is_muted);
    assert_eq!(m.last_volume, 65);
    let d = m.handle_action(Action::ToggleMute, true, 0);
    assert!(matches!(d, PlayerDirective::SetVolume(65)));
    assert!(!m.is_muted);
}

#[test]
fn volume_up_unmutes_first() {
    let mut m = model_with_three_stations();
    m.handle_action(Action::ToggleMute, true, 42);
    let d = m.handle_action(Action::VolumeUp, true, 0);
    assert!(matches!(d, PlayerDirective::SetVolume(42)));
    assert!(!m.is_muted);
    let d = m.handle_action(Action::VolumeUp, true, 42);
    assert!(matches!(d, PlayerDirective::VolumeUp));
}

#[test]
fn volume_down_to_zero_mutes() {
    let mut m = model_with_three_stations();
    let d = m.handle_action(Action::VolumeDown, true, 5);
    assert!(matches!(d, PlayerDirective::VolumeDown));
    m.on_volume_down_result(0);
    assert!(m.is_muted);
}

#[test]
fn quality_change_restarts_the_current_stream() {
    let mut m = model_with_three_stations();
    m.on_play_started(0);
    let d = m.handle_action(Action::QualityDown, true, 80);
    assert_eq!(m.audio_quality, AudioQuality::High);
    match d {
        PlayerDirective::PlaySelected { channel_index, .. } => assert_eq!(channel_index, 0),
        _ => panic!("a quality change while playing restarts the stream"),
    }
    // already at the top: raising twice from High reaches Highest then stays
    m.handle_action(Action::QualityUp, false, 80);
    let d = m.handle_action(Action::QualityUp, false, 80);
    assert!(matches!(d, PlayerDirective::Idle));
    assert_eq!(m.audio_quality, AudioQuality::Highest);
}

#[test]
fn overlay_toggles_and_closes() {
    let mut m = model_with_three_stations();
    m.handle_action(Action::ToggleHelp, false, 80);
    assert!(m.show_help);
    m.handle_action(Action::CloseOverlay, false, 80);
    assert!(!m.show_help);
    m.handle_action(Action::ToggleVisualizer, false, 80);
    assert!(!m.show_visualizer);
    m.handle_action(Action::ToggleHistory, false, 80);
    assert!(!m.show_history);
    m.handle_action(Action::ToggleArtwork, false, 80);
    assert!(!m.show_artwork);
}

#[test]
fn metadata_request_names_the_current_channel() {
    let mut m = model_with_three_stations();
    let r = m.build_metadata_request();
    assert_eq!(r.channel_id, None);
    assert_eq!(r.image_url, None);
    m.on_play_started(1);
    let r = m.build_metadata_request();
    assert_eq!(r.channel_id.as_deref(), Some("dronezone"));
    assert_eq!(r.image_url.as_deref(), Some("https://img.example/dronezone-large.jpg"));
    assert!(r.show_artwork);
    assert!(m.accepts_update("dronezone"));
    assert!(!m.accepts_update("groovesalad"));
}

#[test]
fn busy_lock_skips_the_audio_poll() {
    // the poller's decision: a busy lock is always a skip
    assert_eq!(audio_poll_decision(false, true, false), AudioPollStep::Skipped);
    assert_eq!(audio_poll_decision(false, false, false), AudioPollStep::Skipped);
    assert_eq!(audio_poll_decision(true, false, false), AudioPollStep::PublishNone);
    assert_eq!(audio_poll_decision(true, true, true), AudioPollStep::PublishNone);
    assert_eq!(audio_poll_decision(true, true, false), AudioPollStep::Query);

    // and with the real lock: a held mutex yields a failed try-lock, which
    // must come out as a skip, not a wait
    let lock = tokio::sync::Mutex::new(());
    let guard = lock.try_lock().expect("free lock");
    let attempt = lock.try_lock();
    assert!(attempt.is_err());
    assert_eq!(
        audio_poll_decision(attempt.is_ok(), true, false),
        AudioPollStep::Skipped
    );
    drop(guard);
    let attempt = lock.try_lock();
    assert!(attempt.is_ok());
    assert_eq!(
        audio_poll_decision(attempt.is_ok(), true, false),
        AudioPollStep::Query
    );
}

#[test]
fn spawn_arguments_are_fixed_but_for_three() {
    let args = spawn_args("https://ice.somafm.com/x", 35, "/tmp/endpoint.sock");
    assert_eq!(
        args,
        vec![
            "--no-video",
            "--no-terminal",
            "--really-quiet",
            "--input-ipc-server=/tmp/endpoint.sock",
            "--volume=35",
            "--af=lavfi=[astats=metadata=1:reset=1:measure_perchannel=none]",
            "https://ice.somafm.com/x",
        ]
    );
}

#[test]
fn endpoint_name_is_scoped_to_the_process() {
    assert_eq!(endpoint_file_name(4217), "vibecast_mpv_4217.sock");
    assert_ne!(endpoint_file_name(1), endpoint_file_name(2));
}

#[test]
fn connect_poller_gives_up_on_the_last_attempt() {
    let mut p = ConnectPoller::new();
    for n in 1..CONNECT_POLL_MAX_ATTEMPTS {
        assert_eq!(p.on_poll(false), PollDecision::RetryAfterDelay, "attempt {n}");
    }
    assert_eq!(p.on_poll(false), PollDecision::GiveUp);

    let mut q = ConnectPoller::new();
    assert_eq!(q.on_poll(false), PollDecision::RetryAfterDelay);
    assert_eq!(q.on_poll(true), PollDecision::Connect);
}

#[test]
fn truncation_fits_the_column_budget() {
    assert_eq!(truncate_to_width("hello", 10), "hello");
    assert_eq!(truncate_to_width("hello world, far too long", 8), "hello...");
    assert_eq!(truncate_to_width("hello", 0), "");
    assert_eq!(truncate_to_width("hello", 2), "..");
    assert_eq!(truncate_to_width("hello", 3), "...");
}
