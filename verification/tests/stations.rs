use vibecast::station::{
    sort_indices_by_keys, sort_indices_by_titles, AudioQuality, Channel, Playlist, SortMode,
};

fn playlist(url: &str, format: &str, quality: &str) -> Playlist {
    Playlist {
        url: url.to_string(),
        format: format.to_string(),
        quality: quality.to_string(),
    }
}

fn channel(id: &str, title: &str, listeners: u32, playlists: Vec<Playlist>) -> Channel {
    Channel {
        id: id.to_string(),
        title: title.to_string(),
        description: String::new(),
        genre: String::new(),
        dj: String::new(),
        djmail: None,
        listeners,
        image: String::new(),
        largeimage: String::new(),
        xlimage: None,
        last_playing: String::new(),
        playlists,
    }
}

#[test]
fn quality_steps_and_labels() {
    assert_eq!(AudioQuality::Low.higher(), AudioQuality::High);
    assert_eq!(AudioQuality::High.higher(), AudioQuality::Highest);
    assert_eq!(AudioQuality::Highest.higher(), AudioQuality::Highest);
    assert_eq!(AudioQuality::Highest.lower(), AudioQuality::High);
    assert_eq!(AudioQuality::High.lower(), AudioQuality::Low);
    assert_eq!(AudioQuality::Low.lower(), AudioQuality::Low);
    assert_eq!(AudioQuality::Highest.label(), "HQ");
    assert_eq!(AudioQuality::High.label(), "MQ");
    assert_eq!(AudioQuality::Low.label(), "LQ");
    assert_eq!(AudioQuality::default(), AudioQuality::Highest);
}

#[test]
fn sort_mode_cycles() {
    let m = SortMode::FavoritesThenListeners;
    assert_eq!(m.next(), SortMode::Alphabetical);
    assert_eq!(m.next().next(), SortMode::ListenersOnly);
    assert_eq!(m.next().next().next(), m);
}

#[test]
fn best_stream_prefers_aac_then_mp3() {
    let c = channel(
        "groove",
        "Groove",
        100,
        vec![
            playlist("u-mp3", "mp3", "highest"),
            playlist("u-aac", "aac", "highest"),
            playlist("u-low", "aac", "low"),
        ],
    );
    assert_eq!(c.best_stream_url(), "u-aac");

    let no_aac = channel(
        "g2",
        "G2",
        1,
        vec![playlist("m", "mp3", "highest"), playlist("o", "ogg", "highest")],
    );
    assert_eq!(no_aac.best_stream_url(), "m");

    let other_only = channel("g3", "G3", 1, vec![playlist("o", "ogg", "highest")]);
    assert_eq!(other_only.best_stream_url(), "o");

    let first_fallback = channel("g4", "G4", 1, vec![playlist("f", "ogg", "low")]);
    assert_eq!(first_fallback.best_stream_url(), "f");
}

#[test]
fn empty_playlists_fall_back_to_well_known_address() {
    let c = channel("dronezone", "Drone Zone", 0, vec![]);
    assert_eq!(c.best_stream_url(), "https://ice.somafm.com/dronezone");
}

#[test]
fn stream_url_honours_requested_quality() {
    let c = channel(
        "x",
        "X",
        1,
        vec![
            playlist("hq-aac", "aac", "highest"),
            playlist("lo-aac", "aac", "low"),
            playlist("lo-mp3", "mp3", "low"),
        ],
    );
    assert_eq!(c.stream_url(AudioQuality::Low), "lo-aac");
    assert_eq!(c.stream_url(AudioQuality::Highest), "hq-aac");
    // no playlist at the wanted quality: the best available is used
    assert_eq!(c.stream_url(AudioQuality::High), "hq-aac");
}

#[test]
fn listeners_format_plain_and_thousands() {
    assert_eq!(channel("a", "A", 0, vec![]).format_listeners(), "0");
    assert_eq!(channel("a", "A", 523, vec![]).format_listeners(), "523");
    assert_eq!(channel("a", "A", 999, vec![]).format_listeners(), "999");
    assert_eq!(channel("a", "A", 1000, vec![]).format_listeners(), "1.0k");
    assert_eq!(channel("a", "A", 12345, vec![]).format_listeners(), "12.3k");
    assert_eq!(channel("a", "A", 2891, vec![]).format_listeners(), "2.9k");
}

#[test]
fn key_sort_is_stable_and_complete() {
    let keys: Vec<u64> = vec![5, 3, 9, 3, 1];
    let order = sort_indices_by_keys(&keys);
    assert_eq!(order, vec![4, 1, 3, 0, 2]);
}

#[test]
fn title_sort_is_alphabetical_and_stable() {
    let titles: Vec<String> = ["Drone Zone", "Beat Blender", "Groove Salad", "Beat Blender"]
        .iter()
        .map(|s| s.to_string())
        .collect();
    let order = sort_indices_by_titles(&titles);
    assert_eq!(order, vec![1, 3, 0, 2]);
}

#[test]
fn empty_lists_sort_to_nothing() {
    assert_eq!(sort_indices_by_keys(&vec![]), Vec::<usize>::new());
    assert_eq!(sort_indices_by_titles(&vec![]), Vec::<usize>::new());
}
