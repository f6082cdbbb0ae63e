use vibecast::config::{ConfigStore, FavoritesStore};
use vibecast::input::{handle_key, Action, Key};
use vibecast::theme::ThemeType;
use vibecast::visualizer::VisualizationMode;

#[test]
fn theme_names_round_trip() {
    let mut store = ConfigStore::new();
    for theme in [
        ThemeType::Synthwave,
        ThemeType::Ocean,
        ThemeType::Forest,
        ThemeType::Sunset,
        ThemeType::Monochrome,
        ThemeType::Cyberpunk,
    ] {
        store.set_theme(theme);
        assert_eq!(store.theme_type(), theme);
    }
}

#[test]
fn unknown_theme_name_falls_back() {
    let mut store = ConfigStore::new();
    assert_eq!(store.theme_type(), ThemeType::Cyberpunk);
    store.config.theme = "NoSuchTheme".to_string();
    assert_eq!(store.theme_type(), ThemeType::Cyberpunk);
}

#[test]
fn visualization_names_round_trip() {
    let mut store = ConfigStore::new();
    for mode in [
        VisualizationMode::Spirograph,
        VisualizationMode::Pulse,
        VisualizationMode::Wave,
        VisualizationMode::Bounce,
        VisualizationMode::Starfield,
        VisualizationMode::Heart,
        VisualizationMode::Spiral,
        VisualizationMode::Rain,
    ] {
        store.set_visualization(mode);
        assert_eq!(store.visualization_mode(), mode);
    }
}

#[test]
fn unknown_visualization_name_falls_back_to_spiral() {
    let store = ConfigStore::new();
    assert_eq!(store.visualization_mode(), VisualizationMode::Spiral);
}

#[test]
fn theme_cycle_visits_all_six() {
    let start = ThemeType::Synthwave;
    let mut t = start;
    let mut seen = vec![];
    for _ in 0..6 {
        seen.push(t.name());
        t = t.next();
    }
    assert_eq!(t, start);
    seen.sort();
    seen.dedup();
    assert_eq!(seen.len(), 6);
}

#[test]
fn visualization_cycle_visits_all_eight() {
    let start = VisualizationMode::Spirograph;
    let mut m = start;
    for _ in 0..8 {
        m = m.next();
    }
    assert_eq!(m, start);
    assert_eq!(VisualizationMode::Starfield.name(), "Stars");
}

#[test]
fn favorites_toggle_on_and_off() {
    let mut favs = FavoritesStore::new();
    assert!(!favs.is_favorite("groovesalad"));
    assert!(favs.toggle("groovesalad"));
    assert!(favs.is_favorite("groovesalad"));
    assert!(favs.toggle("dronezone"));
    assert!(favs.is_favorite("dronezone"));
    assert!(!favs.toggle("groovesalad"));
    assert!(!favs.is_favorite("groovesalad"));
    assert!(favs.is_favorite("dronezone"), "other stations are untouched");
    assert_eq!(favs.favorites().len(), 1);
}

#[test]
fn keys_map_to_their_actions() {
    let ch = |c| Key::Char(c, false);
    assert_eq!(handle_key(ch('q'), false), Some(Action::Quit));
    assert_eq!(handle_key(Key::Esc, false), Some(Action::Quit));
    assert_eq!(handle_key(Key::Char('c', true), false), Some(Action::Quit));
    assert_eq!(handle_key(ch('c'), false), None);
    assert_eq!(handle_key(ch('p'), false), Some(Action::TogglePlayPause));
    assert_eq!(handle_key(ch(' '), false), Some(Action::TogglePlayPause));
    assert_eq!(handle_key(Key::Enter, false), Some(Action::SelectStation));
    assert_eq!(handle_key(ch('+'), false), Some(Action::VolumeUp));
    assert_eq!(handle_key(ch('='), false), Some(Action::VolumeUp));
    assert_eq!(handle_key(ch('-'), false), Some(Action::VolumeDown));
    assert_eq!(handle_key(ch('m'), false), Some(Action::ToggleMute));
    assert_eq!(handle_key(Key::Down, false), Some(Action::NextStation));
    assert_eq!(handle_key(ch('j'), false), Some(Action::NextStation));
    assert_eq!(handle_key(Key::Up, false), Some(Action::PrevStation));
    assert_eq!(handle_key(ch('k'), false), Some(Action::PrevStation));
    assert_eq!(handle_key(ch('g'), false), Some(Action::GoToTop));
    assert_eq!(handle_key(ch('G'), false), Some(Action::GoToBottom));
    assert_eq!(handle_key(ch('f'), false), Some(Action::ToggleFavorite));
    assert_eq!(handle_key(ch('s'), false), Some(Action::ToggleSortMode));
    assert_eq!(handle_key(ch('t'), false), Some(Action::ToggleTheme));
    assert_eq!(handle_key(ch('v'), false), Some(Action::CycleVisualization));
    assert_eq!(handle_key(ch('V'), false), Some(Action::ToggleVisualizer));
    assert_eq!(handle_key(ch('a'), false), Some(Action::ToggleArtwork));
    assert_eq!(handle_key(ch('r'), false), Some(Action::ToggleHistory));
    assert_eq!(handle_key(ch('>'), false), Some(Action::QualityUp));
    assert_eq!(handle_key(ch('<'), false), Some(Action::QualityDown));
    assert_eq!(handle_key(ch('R'), false), Some(Action::Refresh));
    assert_eq!(handle_key(ch('?'), false), Some(Action::ToggleHelp));
    assert_eq!(handle_key(ch('x'), false), None);
    assert_eq!(handle_key(Key::Other, false), None);
}

#[test]
fn any_key_closes_the_help_overlay() {
    assert_eq!(handle_key(Key::Char('q', false), true), Some(Action::CloseOverlay));
    assert_eq!(handle_key(Key::Other, true), Some(Action::CloseOverlay));
}
