use vibecast::player::{
    split_artist_title, synthetic_levels, audio_probe_feed, AudioProbe, Controller, PlaybackState,
};

/// A stand-in transport that counts its teardowns, so a test can hold the
/// controller to one teardown per session.
struct FakeTransport {
    open: bool,
    closes: u32,
}

impl FakeTransport {
    fn new() -> Self {
        FakeTransport { open: false, closes: 0 }
    }

    fn open(&mut self) {
        assert!(!self.open, "a session must be torn down before the next");
        self.open = true;
    }

    fn close(&mut self) {
        assert!(self.open, "nothing to tear down");
        self.open = false;
        self.closes += 1;
    }
}

#[test]
fn fresh_controller_defaults() {
    let c = Controller::new();
    assert!(!c.state.playing);
    assert!(!c.state.paused);
    assert_eq!(c.state.volume, 80);
    assert!(c.state.title.is_none());
    assert!(c.state.artist.is_none());
    assert!(!c.connected);
    assert_eq!(c.next_request_id, 1);
}

#[test]
fn default_playback_state() {
    let s = PlaybackState::default();
    assert!(!s.playing && !s.paused);
    assert_eq!(s.volume, 80);
}

#[test]
fn stop_tears_down_exactly_once_per_session() {
    let mut c = Controller::new();
    let mut t = FakeTransport::new();

    // stop with no session is a no-op success
    if c.stop() {
        t.close();
    }
    assert_eq!(t.closes, 0);

    // play, then stop: exactly one teardown
    if c.begin_play() {
        t.close();
    }
    t.open();
    c.on_connect_success();
    assert!(c.state.playing && c.connected);
    if c.stop() {
        t.close();
    }
    assert_eq!(t.closes, 1);
    assert!(!c.connected && !c.state.playing);

    // a second stop tears nothing further down
    if c.stop() {
        t.close();
    }
    assert_eq!(t.closes, 1);

    // play over a live session: the implicit stop closes it first
    if c.begin_play() {
        t.close();
    }
    t.open();
    c.on_connect_success();
    if c.begin_play() {
        t.close();
    }
    assert_eq!(t.closes, 2);
    t.open();
    c.on_connect_success();
    if c.stop() {
        t.close();
    }
    assert_eq!(t.closes, 3);
    assert!(!t.open);
}

#[test]
fn play_preserves_volume_and_clears_metadata() {
    let mut c = Controller::new();
    c.set_volume(55, 0);
    c.begin_play();
    c.on_connect_success();
    assert!(c.state.playing && !c.state.paused);
    assert_eq!(c.state.volume, 55);
    assert!(c.state.title.is_none());
}

#[test]
fn paused_implies_playing_after_every_operation() {
    let invariant = |c: &Controller| {
        assert!(!c.state.paused || c.state.playing);
        assert!(c.state.volume <= 100);
    };
    let mut c = Controller::new();
    invariant(&c);
    c.begin_play();
    invariant(&c);
    c.on_connect_success();
    invariant(&c);
    let plan = c.toggle_pause_plan(0);
    assert!(plan.is_some());
    invariant(&c);
    c.on_toggle_pause_result(true);
    invariant(&c);
    assert!(c.state.paused && c.state.playing);
    c.set_volume(10, 0);
    invariant(&c);
    c.stop();
    invariant(&c);
    assert!(!c.state.paused);
    c.on_toggle_pause_result(true);
    invariant(&c);
    assert!(!c.state.paused, "a pause reply with nothing playing flips nothing");
}

#[test]
fn set_volume_is_idempotent_and_clamped() {
    let mut c = Controller::new();
    c.set_volume(64, 0);
    let once = c.state.volume;
    c.set_volume(64, 0);
    assert_eq!(c.state.volume, once);
    assert_eq!(once, 64);

    c.set_volume(150, 0);
    assert_eq!(c.state.volume, 100);
    c.set_volume(150, 0);
    assert_eq!(c.state.volume, 100);
}

#[test]
fn set_volume_plans_only_while_playing() {
    let mut c = Controller::new();
    assert!(c.set_volume(30, 0).is_none(), "volume is a pending preference while stopped");
    assert_eq!(c.state.volume, 30);
    c.begin_play();
    c.on_connect_success();
    let plan = c.set_volume(40, 5).expect("playing: a command goes out");
    assert_eq!(
        plan.message,
        format!("{{\"command\":[\"set_property\",\"volume\",40],\"request_id\":{}}}\n", plan.call.request_id)
    );
    assert_eq!(c.state.volume, 40);
}

#[test]
fn volume_up_then_down_returns_to_start() {
    let mut c = Controller::new();
    assert_eq!(c.state.volume, 80);
    c.volume_up(0);
    assert_eq!(c.state.volume, 85);
    c.volume_down(0);
    assert_eq!(c.state.volume, 80);
}

#[test]
fn volume_clamps_only_at_the_boundaries() {
    let mut c = Controller::new();
    c.set_volume(98, 0);
    c.volume_up(0);
    assert_eq!(c.state.volume, 100);
    c.volume_down(0);
    assert_eq!(c.state.volume, 95);

    c.set_volume(3, 0);
    c.volume_down(0);
    assert_eq!(c.state.volume, 0);
    c.volume_up(0);
    assert_eq!(c.state.volume, 5);
}

#[test]
fn request_ids_increase_strictly() {
    let mut c = Controller::new();
    c.begin_play();
    c.on_connect_success();
    let a = c.set_volume(10, 0).unwrap().call.request_id;
    let b = c.toggle_pause_plan(0).unwrap().call.request_id;
    let d = c.media_title_plan(0).unwrap().call.request_id;
    assert!(a < b && b < d);
    assert_eq!(a, 1);
}

#[test]
fn toggle_pause_flips_only_on_confirmed_success() {
    let mut c = Controller::new();
    assert!(c.toggle_pause_plan(0).is_none(), "not playing: nothing to do");
    c.begin_play();
    c.on_connect_success();
    assert!(c.toggle_pause_plan(0).is_some());
    c.on_toggle_pause_result(false);
    assert!(!c.state.paused, "a failed toggle leaves the snapshot unchanged");
    c.on_toggle_pause_result(true);
    assert!(c.state.paused);
    c.on_toggle_pause_result(true);
    assert!(!c.state.paused);
}

#[test]
fn title_splits_on_separator() {
    let (artist, title) = split_artist_title("Daft Punk - One More Time");
    assert_eq!(artist, "Daft Punk");
    assert_eq!(title, "One More Time");
}

#[test]
fn title_without_separator_is_all_title() {
    let (artist, title) = split_artist_title("Ambient Drift");
    assert_eq!(artist, "");
    assert_eq!(title, "Ambient Drift");
}

#[test]
fn title_splits_at_first_separator() {
    let (artist, title) = split_artist_title("A - B - C");
    assert_eq!(artist, "A");
    assert_eq!(title, "B - C");
}

#[test]
fn metadata_primary_line_splits_and_records() {
    let mut c = Controller::new();
    let line = "{\"request_id\":3,\"error\":\"success\",\"data\":\"Orbital - Halcyon\"}";
    let got = c.metadata_from_primary_line(line).expect("title data present");
    assert_eq!(got, ("Orbital".to_string(), "Halcyon".to_string()));
    assert_eq!(c.state.artist.as_deref(), Some("Orbital"));
    assert_eq!(c.state.title.as_deref(), Some("Halcyon"));
}

#[test]
fn metadata_primary_line_empty_is_no_data() {
    let mut c = Controller::new();
    let line = "{\"request_id\":3,\"error\":\"success\",\"data\":\"\"}";
    assert!(c.metadata_from_primary_line(line).is_none());
    assert!(c.state.title.is_none());
    let not_a_string = "{\"request_id\":3,\"error\":\"success\",\"data\":5}";
    assert!(c.metadata_from_primary_line(not_a_string).is_none());
}

#[test]
fn metadata_fallback_prefers_icy_title() {
    let mut c = Controller::new();
    let line = "{\"request_id\":4,\"error\":\"success\",\"data\":{\"icy-title\":\"X - Y\",\"title\":\"ignored\",\"artist\":\"Z\"}}";
    let got = c.metadata_from_fallback_line(line).unwrap();
    assert_eq!(got, ("X".to_string(), "Y".to_string()));
}

#[test]
fn metadata_fallback_uses_plain_fields() {
    let mut c = Controller::new();
    let line = "{\"request_id\":4,\"error\":\"success\",\"data\":{\"title\":\"Solo Piece\",\"artist\":\"Someone\"}}";
    let got = c.metadata_from_fallback_line(line).unwrap();
    assert_eq!(got, ("Someone".to_string(), "Solo Piece".to_string()));
    assert_eq!(c.state.title.as_deref(), Some("Solo Piece"));
    assert_eq!(c.state.artist.as_deref(), Some("Someone"));

    let empty = "{\"request_id\":4,\"error\":\"success\",\"data\":{}}";
    assert!(c.metadata_from_fallback_line(empty).is_none());
}

#[test]
fn audio_gate_requires_audible_playback() {
    let mut c = Controller::new();
    assert!(!c.audio_stats_gate());
    assert!(matches!(c.audio_probe_start(), AudioProbe::Done(None)));
    c.begin_play();
    c.on_connect_success();
    assert!(c.audio_stats_gate());
    assert!(matches!(c.audio_probe_start(), AudioProbe::TryRms(0)));
    c.toggle_pause_plan(0);
    c.on_toggle_pause_result(true);
    assert!(!c.audio_stats_gate());
}

#[test]
fn audio_probe_reads_real_levels() {
    let rms_line = "{\"request_id\":5,\"error\":\"success\",\"data\":\"-12.34\"}";
    let peak_line = "{\"request_id\":6,\"error\":\"success\",\"data\":\"-9.5\"}";
    let p = audio_probe_feed(&AudioProbe::TryRms(0), Some(rms_line));
    assert_eq!(p, AudioProbe::TryPeak(0, -1234));
    let p = audio_probe_feed(&p, Some(peak_line));
    assert_eq!(p, AudioProbe::Done(Some((-1234, -950))));
}

#[test]
fn audio_probe_estimates_missing_peak() {
    let p = audio_probe_feed(&AudioProbe::TryPeak(1, -1234), None);
    // 3 dB above the RMS level
    assert_eq!(p, AudioProbe::Done(Some((-1234, -934))));
}

#[test]
fn audio_probe_falls_through_paths_to_time() {
    let p = audio_probe_feed(&AudioProbe::TryRms(0), None);
    assert_eq!(p, AudioProbe::TryRms(1));
    let p = audio_probe_feed(&p, Some("{\"request_id\":7,\"error\":\"property unavailable\"}"));
    assert_eq!(p, AudioProbe::TryTime);
    let p = audio_probe_feed(&p, None);
    assert_eq!(p, AudioProbe::Done(None));
}

#[test]
fn audio_probe_synthesizes_from_playback_time() {
    let time_line = "{\"request_id\":8,\"error\":\"success\",\"data\":128.25}";
    let p = audio_probe_feed(&AudioProbe::TryTime, Some(time_line));
    match p {
        AudioProbe::Done(Some((rms, peak))) => {
            assert_eq!((rms, peak), synthetic_levels(128250));
        },
        _ => panic!("a playback time must yield synthetic levels"),
    }
}

#[test]
fn synthetic_levels_are_deterministic_and_in_band() {
    let (r1, p1) = synthetic_levels(4321);
    let (r2, p2) = synthetic_levels(4321);
    assert_eq!((r1, p1), (r2, p2));
    for t in [0u64, 1, 449, 450, 1999, 2000, 3999, 4000, 86_400_000, 123_456_789] {
        let (rms, peak) = synthetic_levels(t);
        assert!((-1800..=-300).contains(&rms), "RMS {rms} out of band at {t}");
        assert!((-1500..=0).contains(&peak), "peak {peak} out of band at {t}");
    }
}
