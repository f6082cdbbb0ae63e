use vibecast::spectrum::{db_to_linear, SpectrumData, NUM_BINS};

#[test]
fn test_db_to_linear() {
    assert!((db_to_linear(0) as f64 / 1000.0 - 1.0).abs() < 0.01);
    assert!((db_to_linear(-600) as f64 / 1000.0 - 0.5).abs() < 0.1);
    assert!((db_to_linear(-6000) as f64 / 1000.0) < 0.01);
}

#[test]
fn db_to_linear_clamps_the_window() {
    assert_eq!(db_to_linear(500), 1000);
    assert_eq!(db_to_linear(0), 1000);
    assert_eq!(db_to_linear(-9000), db_to_linear(-6000));
}

#[test]
fn db_to_linear_is_monotone_on_samples() {
    let mut last = db_to_linear(-6000);
    for cdb in [-5000i64, -4000, -3000, -2000, -1000, -500, -100, 0] {
        let v = db_to_linear(cdb);
        assert!(v >= last, "louder must not map lower");
        last = v;
    }
}

#[test]
fn fresh_spectrum_is_silent() {
    let s = SpectrumData::new();
    assert!(!s.has_audio);
    assert_eq!(s.bins.len(), NUM_BINS);
    assert_eq!(s.peaks.len(), NUM_BINS);
    assert!(s.bins.iter().all(|&b| b == 0));
    assert_eq!((s.rms, s.peak), (0, 0));
}

#[test]
fn levels_drive_all_bins_uniformly() {
    let mut s = SpectrumData::new();
    s.simulate_from_levels(1000, 1000);
    assert!(s.has_audio);
    assert_eq!((s.rms, s.peak), (1000, 1000));
    // rising toward full energy with the fast attack factor
    assert!(s.bins.iter().all(|&b| b == 700));
    assert!(s.peaks.iter().all(|&p| p == 700));
    s.simulate_from_levels(1000, 1000);
    // a second feed keeps rising: 700 * 0.3 + 1000 * 0.7
    assert!(s.bins.iter().all(|&b| b == 910));
}

#[test]
fn decay_fades_bins_and_levels() {
    let mut s = SpectrumData::new();
    s.simulate_from_levels(1000, 1000);
    s.decay(850);
    assert!(s.bins.iter().all(|&b| b == 595)); // 700 * 0.85
    assert_eq!(s.rms, 850);
}

#[test]
fn animate_fades_fast_when_idle_and_slowly_when_starved() {
    let mut s = SpectrumData::new();
    s.simulate_from_levels(1000, 1000);
    let mut t = s.clone();
    s.animate(false, false);
    assert_eq!(s.rms, 850);
    t.animate(true, false);
    assert_eq!(t.rms, 920);
    let mut u = SpectrumData::new();
    u.simulate_from_levels(1000, 1000);
    u.animate(true, true);
    assert_eq!(u.rms, 850, "paused playback fades like stopped playback");
}

#[test]
fn measured_decibels_feed_the_bins() {
    let mut s = SpectrumData::new();
    s.update_from_db(0, 0);
    assert!(s.has_audio);
    assert_eq!((s.rms, s.peak), (1000, 1000));
    let mut quiet = SpectrumData::new();
    quiet.update_from_db(-6000, -6000);
    assert!(quiet.rms <= 10);
}
