//! The application's state and the decisions of its command path: what one
//! user action changes and what it asks of the player, station-list
//! ordering and navigation, mute bookkeeping, what the background pollers
//! should do, and what a metadata poll is about. The runner performs the
//! player and network work these decisions call for.

use vstd::prelude::*;
use crate::config::{ConfigStore, FavoritesStore, spec_has_id};
use crate::input::Action;
use crate::station::{
    AudioQuality, Channel, SortMode, sort_indices_by_keys, sort_indices_by_titles,
    spec_is_permutation, spec_sorted_by_keys, spec_sorted_by_titles, spec_stream_url,
};
use crate::theme::ThemeType;
use crate::visualizer::VisualizationMode;

verus! {

/// What the command path asks of the player (or of the station service,
/// for a refresh); the runner performs it under the controller's lock.
pub enum PlayerDirective {
    /// Nothing to do.
    Idle,
    /// Tear the session down.
    Stop,
    /// Play this channel's stream.
    PlaySelected { url: String, channel_index: usize },
    /// Cycle pause.
    TogglePause,
    /// Set the volume.
    SetVolume(u8),
    /// Raise the volume one step.
    VolumeUp,
    /// Lower the volume one step.
    VolumeDown,
    /// Fetch the channel list again.
    Refresh,
}

/// The sort key of one station under the favorites-then-listeners order:
/// favorites first, more listeners first within each group.
pub open spec fn spec_station_key(fav: bool, listeners: u32) -> u64 {
    (((if fav {
        0int
    } else {
        1int
    }) * 0x100000000) + (u32::MAX - listeners)) as u64
}

/// The listeners-only sort key: more listeners first.
pub open spec fn spec_listeners_key(listeners: u32) -> u64 {
    ((u32::MAX - listeners) as int) as u64
}

/// The keys the station list is ordered by under the favorites-then-
/// listeners mode.
pub open spec fn spec_fav_keys(channels: Seq<Channel>, favs: Seq<String>) -> Seq<u64> {
    Seq::new(
        channels.len(),
        |i: int| spec_station_key(spec_has_id(favs, channels[i].id@), channels[i].listeners),
    )
}

/// The keys under the listeners-only mode.
pub open spec fn spec_listener_keys(channels: Seq<Channel>) -> Seq<u64> {
    Seq::new(channels.len(), |i: int| spec_listeners_key(channels[i].listeners))
}

/// The titles the station list is ordered by under the alphabetical mode.
pub open spec fn spec_titles(channels: Seq<Channel>) -> Seq<String> {
    channels.map_values(|c: Channel| c.title)
}

/// Whether `order` is the station order that `mode` calls for.
pub open spec fn spec_order_for_mode(
    order: Seq<usize>,
    channels: Seq<Channel>,
    favs: Seq<String>,
    mode: SortMode,
) -> bool {
    &&& spec_is_permutation(order, channels.len() as int)
    &&& match mode {
        SortMode::FavoritesThenListeners => spec_sorted_by_keys(order, spec_fav_keys(channels, favs)),
        SortMode::Alphabetical => spec_sorted_by_titles(order, spec_titles(channels)),
        SortMode::ListenersOnly => spec_sorted_by_keys(order, spec_listener_keys(channels)),
    }
}

/// What one metadata poll is about: the current channel and its artwork.
#[derive(Debug, Clone, PartialEq, Eq)]
pub struct MetadataRequest {
    pub channel_id: Option<String>,
    pub image_url: Option<String>,
    pub show_artwork: bool,
}

/// What the audio-level poller does this tick.
#[derive(Debug, Clone, Copy, PartialEq, Eq, Structural)]
pub enum AudioPollStep {
    /// The controller's lock is held elsewhere: skip this tick rather than
    /// block past it.
    Skipped,
    /// Nothing is audibly playing: publish that there are no levels.
    PublishNone,
    /// Run the loudness probe.
    Query,
}

/// The audio-level poller's decision: a busy lock is always a skip, never a
/// wait; otherwise idle playback publishes no levels and audible playback
/// is probed.
pub open spec fn spec_audio_poll_decision(
    lock_acquired: bool,
    playing: bool,
    paused: bool,
) -> AudioPollStep {
    if !lock_acquired {
        AudioPollStep::Skipped
    } else if !playing || paused {
        AudioPollStep::PublishNone
    } else {
        AudioPollStep::Query
    }
}

/// Decides one audio-level poll tick. When the try-lock on the controller
/// failed, the tick is skipped, whatever else holds: the poller never
/// blocks the render loop.
pub fn audio_poll_decision(lock_acquired: bool, playing: bool, paused: bool) -> (r: AudioPollStep)
    ensures
        r == spec_audio_poll_decision(lock_acquired, playing, paused),
        !lock_acquired ==> r == AudioPollStep::Skipped,
{
    if !lock_acquired {
        AudioPollStep::Skipped
    } else if !playing || paused {
        AudioPollStep::PublishNone
    } else {
        AudioPollStep::Query
    }
}

/// The application state the command path decides over. The player itself,
/// the spectrum lock, artwork and the terminal live with the runner.
pub struct AppModel {
    pub channels: Vec<Channel>,
    pub sorted_indices: Vec<usize>,
    pub selected: Option<usize>,
    pub current_channel: Option<usize>,
    pub stream_title: Option<String>,
    pub config: ConfigStore,
    pub favorites: FavoritesStore,
    pub sort_mode: SortMode,
    pub show_help: bool,
    pub show_visualizer: bool,
    pub show_artwork: bool,
    pub show_history: bool,
    pub audio_quality: AudioQuality,
    pub should_quit: bool,
    pub last_volume: u8,
    pub is_muted: bool,
    pub visualization_mode: VisualizationMode,
    pub frame: u64,
    pub theme_type: ThemeType,
}

impl AppModel {
    /// Well-formedness: favorites hold no id twice, the sorted order is a
    /// permutation of the channels, and selection and current channel are
    /// in range.
    pub open spec fn wf(self) -> bool {
        &&& self.favorites.wf()
        &&& spec_is_permutation(self.sorted_indices@, self.channels@.len() as int)
        &&& (self.selected matches Some(s) ==> (s as int) < self.sorted_indices@.len())
        &&& (self.current_channel matches Some(c) ==> (c as int) < self.channels@.len())
    }

    /// A fresh model over loaded preferences: no stations yet, nothing
    /// selected or playing, favorites-then-listeners order, volume memory
    /// at the default volume, the stored theme and visualization.
    pub fn new(config: ConfigStore, favorites: FavoritesStore) -> (r: Self)
        requires
            favorites.wf(),
        ensures
            r.wf(),
            r.channels@.len() == 0,
            r.selected is None,
            r.current_channel is None,
            r.stream_title is None,
            r.sort_mode == SortMode::FavoritesThenListeners,
            !r.show_help,
            r.show_visualizer,
            r.show_artwork,
            r.show_history,
            r.audio_quality == AudioQuality::Highest,
            !r.should_quit,
            r.last_volume == 80,
            !r.is_muted,
            r.frame == 0,
            r.theme_type == crate::config::spec_theme_of(config.config.theme@),
            r.visualization_mode == crate::config::spec_visualization_of(
                config.config.visualization@,
            ),
            r.config == config,
            r.favorites == favorites,
    {
        let theme_type = config.theme_type();
        let visualization_mode = config.visualization_mode();
        AppModel {
            channels: Vec::new(),
            sorted_indices: Vec::new(),
            selected: None,
            current_channel: None,
            stream_title: None,
            config,
            favorites,
            sort_mode: SortMode::FavoritesThenListeners,
            show_help: false,
            show_visualizer: true,
            show_artwork: true,
            show_history: true,
            audio_quality: AudioQuality::Highest,
            should_quit: false,
            last_volume: 80,
            is_muted: false,
            visualization_mode,
            frame: 0,
            theme_type,
        }
    }

    /// Recomputes the station order for the current sort mode.
    pub fn update_sorted_indices(&mut self)
        requires
            old(self).favorites.wf(),
        ensures
            spec_order_for_mode(
                final(self).sorted_indices@,
                old(self).channels@,
                old(self).favorites.favorites@,
                old(self).sort_mode,
            ),
            *final(self) == (AppModel { sorted_indices: final(self).sorted_indices, ..*old(self) }),
    {
        match self.sort_mode {
            SortMode::FavoritesThenListeners => {
                let n = self.channels.len();
                let mut keys: Vec<u64> = Vec::new();
                let mut i: usize = 0;
                while i < n
                    invariant
                        n == self.channels@.len(),
                        i <= n,
                        keys@.len() == i,
                        self == old(self),
                        forall|j: int| 0 <= j < i ==> #[trigger] keys@[j] == spec_station_key(
                            spec_has_id(self.favorites.favorites@, self.channels@[j].id@),
                            self.channels@[j].listeners,
                        ),
                    decreases n - i,
                {
                    let fav = self.favorites.is_favorite(self.channels[i].id.as_str());
                    let base: u64 = if fav {
                        0
                    } else {
                        0x100000000
                    };
                    let key = base + (u32::MAX - self.channels[i].listeners) as u64;
                    keys.push(key);
                    i += 1;
                }
                proof {
                    assert(keys@ =~= spec_fav_keys(self.channels@, self.favorites.favorites@));
                }
                self.sorted_indices = sort_indices_by_keys(&keys);
            },
            SortMode::Alphabetical => {
                let n = self.channels.len();
                let mut titles: Vec<String> = Vec::new();
                let mut i: usize = 0;
                while i < n
                    invariant
                        n == self.channels@.len(),
                        i <= n,
                        titles@.len() == i,
                        self == old(self),
                        forall|j: int|
                            0 <= j < i ==> #[trigger] titles@[j] == self.channels@[j].title,
                    decreases n - i,
                {
                    titles.push(self.channels[i].title.clone());
                    i += 1;
                }
                proof {
                    assert(titles@ =~= spec_titles(self.channels@));
                }
                self.sorted_indices = sort_indices_by_titles(&titles);
            },
            SortMode::ListenersOnly => {
                let n = self.channels.len();
                let mut keys: Vec<u64> = Vec::new();
                let mut i: usize = 0;
                while i < n
                    invariant
                        n == self.channels@.len(),
                        i <= n,
                        keys@.len() == i,
                        self == old(self),
                        forall|j: int| 0 <= j < i ==> #[trigger] keys@[j] == spec_listeners_key(
                            self.channels@[j].listeners,
                        ),
                    decreases n - i,
                {
                    let key = (u32::MAX - self.channels[i].listeners) as u64;
                    keys.push(key);
                    i += 1;
                }
                proof {
                    assert(keys@ =~= spec_listener_keys(self.channels@));
                }
                self.sorted_indices = sort_indices_by_keys(&keys);
            },
        }
    }

    /// Takes a freshly fetched channel list, reorders it, and keeps the
    /// selection in range: a selection past the new end moves to the last
    /// station, and an empty list clears it. The current channel is cleared
    /// when it falls out of range.
    pub fn set_channels(&mut self, channels: Vec<Channel>)
        requires
            old(self).wf(),
        ensures
            final(self).wf(),
            final(self).channels == channels,
            spec_order_for_mode(
                final(self).sorted_indices@,
                channels@,
                old(self).favorites.favorites@,
                old(self).sort_mode,
            ),
    {
        self.channels = channels;
        self.update_sorted_indices();
        let len = self.sorted_indices.len();
        match self.selected {
            Some(s) => {
                if len == 0 {
                    self.selected = None;
                } else if s >= len {
                    self.selected = Some(len - 1);
                }
            },
            None => {},
        }
        match self.current_channel {
            Some(c) => {
                if c >= self.channels.len() {
                    self.current_channel = None;
                }
            },
            None => {},
        }
    }

    /// Selects the first station of the list, where there is one and
    /// nothing is selected yet.
    pub fn select_first_if_any(&mut self)
        requires
            old(self).wf(),
        ensures
            final(self).wf(),
            *final(self) == (AppModel { selected: final(self).selected, ..*old(self) }),
            final(self).selected == if old(self).sorted_indices@.len() > 0 && old(
                self,
            ).selected is None {
                Some(0usize)
            } else {
                old(self).selected
            },
    {
        if self.selected.is_none() && self.sorted_indices.len() > 0 {
            self.selected = Some(0);
        }
    }

    /// The channel index the selection stands for.
    pub fn selected_channel_index(&self) -> (r: Option<usize>)
        requires
            self.wf(),
        ensures
            r == match self.selected {
                Some(s) => Some(self.sorted_indices@[s as int]),
                None => None::<usize>,
            },
            r matches Some(c) ==> (c as int) < self.channels@.len(),
    {
        match self.selected {
            Some(s) => Some(self.sorted_indices[s]),
            None => None,
        }
    }

    /// A play succeeded: this channel is current, and stale song data is
    /// dropped.
    pub fn on_play_started(&mut self, channel_index: usize)
        requires
            old(self).wf(),
            (channel_index as int) < old(self).channels@.len(),
        ensures
            final(self).wf(),
            *final(self) == (AppModel {
                current_channel: Some(channel_index),
                stream_title: None,
                ..*old(self)
            }),
    {
        self.current_channel = Some(channel_index);
        self.stream_title = None;
    }

    /// The volume came back from a volume-down command: hitting zero mutes.
    pub fn on_volume_down_result(&mut self, new_volume: u8)
        ensures
            *final(self) == (AppModel {
                is_muted: old(self).is_muted || new_volume == 0,
                ..*old(self)
            }),
    {
        if new_volume == 0 {
            self.is_muted = true;
        }
    }

    /// Whether an update tagged with this channel id belongs to the current
    /// channel; stale updates from an earlier station are dropped.
    pub fn accepts_update(&self, channel_id: &str) -> (r: bool)
        requires
            self.wf(),
        ensures
            r == match self.current_channel {
                Some(c) => self.channels@[c as int].id@ == channel_id@,
                None => false,
            },
    {
        match self.current_channel {
            Some(c) => crate::text::str_eq(self.channels[c].id.as_str(), channel_id),
            None => false,
        }
    }

    /// What the metadata poller should look at: the current channel's id
    /// and its artwork address — the extra-large image where there is one,
    /// else the large one.
    pub fn build_metadata_request(&self) -> (r: MetadataRequest)
        requires
            self.wf(),
        ensures
            r.show_artwork == self.show_artwork,
            match self.current_channel {
                Some(c) => {
                    &&& r.channel_id matches Some(id) && id@ == self.channels@[c as int].id@
                    &&& r.image_url matches Some(u) && u@ == (match self.channels@[c as int].xlimage {
                        Some(x) => x@,
                        None => self.channels@[c as int].largeimage@,
                    })
                },
                None => r.channel_id is None && r.image_url is None,
            },
    {
        match self.current_channel {
            Some(c) => {
                let ch = &self.channels[c];
                let image_url = match &ch.xlimage {
                    Some(x) => x.clone(),
                    None => ch.largeimage.clone(),
                };
                MetadataRequest {
                    channel_id: Some(ch.id.clone()),
                    image_url: Some(image_url),
                    show_artwork: self.show_artwork,
                }
            },
            None => MetadataRequest {
                channel_id: None,
                image_url: None,
                show_artwork: self.show_artwork,
            },
        }
    }

    /// Counts one render tick, wrapping at the machine bound.
    pub fn tick(&mut self)
        ensures
            *final(self) == (AppModel {
                frame: if old(self).frame == u64::MAX {
                    0u64
                } else {
                    (old(self).frame + 1) as u64
                },
                ..*old(self)
            }),
    {
        self.frame = if self.frame == u64::MAX {
            0
        } else {
            self.frame + 1
        };
    }

    /// Cycles to the next theme and stores its name.
    pub fn cycle_theme(&mut self)
        ensures
            final(self).theme_type == old(self).theme_type.spec_next(),
            final(self).config.config.theme@ == old(self).theme_type.spec_next().spec_name(),
            final(self).config.config.visualization == old(self).config.config.visualization,
            *final(self) == (AppModel {
                theme_type: final(self).theme_type,
                config: final(self).config,
                ..*old(self)
            }),
    {
        self.theme_type = self.theme_type.next();
        self.config.set_theme(self.theme_type);
    }
}

/// The selection after stepping down the list, wrapping at the end; an
/// empty list has nothing to select.
pub open spec fn spec_next_selection(sel: Option<usize>, len: int) -> Option<usize> {
    if len == 0 {
        sel
    } else {
        let cur: int = match sel {
            Some(s) => s as int,
            None => 0,
        };
        Some((((cur + 1) % len)) as usize)
    }
}

/// The selection after stepping up the list, wrapping at the top.
pub open spec fn spec_prev_selection(sel: Option<usize>, len: int) -> Option<usize> {
    if len == 0 {
        sel
    } else {
        let cur: int = match sel {
            Some(s) => s as int,
            None => 0,
        };
        Some(
            (if cur == 0 {
                len - 1
            } else {
                cur - 1
            }) as usize,
        )
    }
}

impl AppModel {
    /// Carries out one user action on the model and says what the runner
    /// must do with the player. `playing` and `volume` are the player's
    /// state under the lock at this moment. Station changes and quality
    /// restarts are handed out as a play directive; the model notes the
    /// new current channel only once the runner reports the play started.
    #[verifier::rlimit(100)]
    pub fn handle_action(&mut self, action: Action, playing: bool, volume: u8) -> (d:
        PlayerDirective)
        requires
            old(self).wf(),
        ensures
            final(self).wf(),
            action == Action::Quit ==> *final(self) == (AppModel {
                should_quit: true,
                ..*old(self)
            }) && d is Stop,
            action == Action::TogglePlayPause && playing ==> *final(self) == *old(self) && d
                is TogglePause,
            (action == Action::TogglePlayPause && !playing) || action == Action::SelectStation
                ==> *final(self) == *old(self) && (match old(self).selected {
                Some(s) => d matches PlayerDirective::PlaySelected { url, channel_index }
                    && channel_index == old(self).sorted_indices@[s as int] && url@
                    == spec_stream_url(
                    old(self).channels@[old(self).sorted_indices@[s as int] as int],
                    old(self).audio_quality,
                ),
                None => d is Idle,
            }),
            action == Action::VolumeUp ==> (if old(self).is_muted {
                *final(self) == (AppModel { is_muted: false, ..*old(self) }) && d
                    == PlayerDirective::SetVolume(old(self).last_volume)
            } else {
                *final(self) == *old(self) && d is VolumeUp
            }),
            action == Action::VolumeDown ==> *final(self) == *old(self) && d is VolumeDown,
            action == Action::ToggleMute ==> (if old(self).is_muted {
                *final(self) == (AppModel { is_muted: false, ..*old(self) }) && d
                    == PlayerDirective::SetVolume(old(self).last_volume)
            } else {
                *final(self) == (AppModel { is_muted: true, last_volume: volume, ..*old(self) })
                    && d == PlayerDirective::SetVolume(0)
            }),
            action == Action::ToggleFavorite ==> d is Idle && (match old(self).selected {
                Some(s) => {
                    let id = old(self).channels@[old(self).sorted_indices@[s as int] as int].id@;
                    &&& spec_has_id(final(self).favorites.favorites@, id) == !spec_has_id(
                        old(self).favorites.favorites@,
                        id,
                    )
                    &&& forall|other: Seq<char>|
                        other != id ==> #[trigger] spec_has_id(
                            final(self).favorites.favorites@,
                            other,
                        ) == spec_has_id(old(self).favorites.favorites@, other)
                    &&& spec_order_for_mode(
                        final(self).sorted_indices@,
                        old(self).channels@,
                        final(self).favorites.favorites@,
                        old(self).sort_mode,
                    )
                    &&& *final(self) == (AppModel {
                        favorites: final(self).favorites,
                        sorted_indices: final(self).sorted_indices,
                        ..*old(self)
                    })
                },
                None => *final(self) == *old(self),
            }),
            action == Action::NextStation ==> d is Idle && *final(self) == (AppModel {
                selected: spec_next_selection(
                    old(self).selected,
                    old(self).sorted_indices@.len() as int,
                ),
                ..*old(self)
            }),
            action == Action::PrevStation ==> d is Idle && *final(self) == (AppModel {
                selected: spec_prev_selection(
                    old(self).selected,
                    old(self).sorted_indices@.len() as int,
                ),
                ..*old(self)
            }),
            action == Action::GoToTop ==> d is Idle && *final(self) == (AppModel {
                selected: if old(self).sorted_indices@.len() > 0 {
                    Some(0usize)
                } else {
                    old(self).selected
                },
                ..*old(self)
            }),
            action == Action::GoToBottom ==> d is Idle && *final(self) == (AppModel {
                selected: if old(self).sorted_indices@.len() > 0 {
                    Some((old(self).sorted_indices@.len() - 1) as usize)
                } else {
                    old(self).selected
                },
                ..*old(self)
            }),
            action == Action::ToggleSortMode ==> d is Idle && final(self).sort_mode == old(
                self,
            ).sort_mode.spec_next() && spec_order_for_mode(
                final(self).sorted_indices@,
                old(self).channels@,
                old(self).favorites.favorites@,
                final(self).sort_mode,
            ) && *final(self) == (AppModel {
                sort_mode: final(self).sort_mode,
                sorted_indices: final(self).sorted_indices,
                ..*old(self)
            }),
            action == Action::ToggleVisualizer ==> d is Idle && *final(self) == (AppModel {
                show_visualizer: !old(self).show_visualizer,
                ..*old(self)
            }),
            action == Action::CycleVisualization ==> d is Idle && final(self).visualization_mode
                == old(self).visualization_mode.spec_next() && final(self).config.config.visualization@ == final(self).visualization_mode.spec_name() && final(self).config.config.theme == old(self).config.config.theme && *final(self) == (AppModel {
                visualization_mode: final(self).visualization_mode,
                config: final(self).config,
                ..*old(self)
            }),
            action == Action::ToggleArtwork ==> d is Idle && *final(self) == (AppModel {
                show_artwork: !old(self).show_artwork,
                ..*old(self)
            }),
            action == Action::ToggleHistory ==> d is Idle && *final(self) == (AppModel {
                show_history: !old(self).show_history,
                ..*old(self)
            }),
            action == Action::QualityUp ==> spec_quality_change_post(
                *old(self),
                *final(self),
                old(self).audio_quality.spec_higher(),
                playing,
                d,
            ),
            action == Action::QualityDown ==> spec_quality_change_post(
                *old(self),
                *final(self),
                old(self).audio_quality.spec_lower(),
                playing,
                d,
            ),
            action == Action::ToggleTheme ==> d is Idle && final(self).theme_type == old(
                self,
            ).theme_type.spec_next() && final(self).config.config.theme@ == final(self).theme_type.spec_name() && final(self).config.config.visualization == old(
                self,
            ).config.config.visualization && *final(self) == (AppModel {
                theme_type: final(self).theme_type,
                config: final(self).config,
                ..*old(self)
            }),
            action == Action::ToggleHelp ==> d is Idle && *final(self) == (AppModel {
                show_help: !old(self).show_help,
                ..*old(self)
            }),
            action == Action::CloseOverlay ==> d is Idle && *final(self) == (AppModel {
                show_help: false,
                ..*old(self)
            }),
            action == Action::Refresh ==> *final(self) == *old(self) && d
                is Refresh,
    {
        match action {
            Action::Quit => {
                self.should_quit = true;
                PlayerDirective::Stop
            },
            Action::TogglePlayPause => {
                if playing {
                    PlayerDirective::TogglePause
                } else {
                    self.play_selected_directive()
                }
            },
            Action::SelectStation => self.play_selected_directive(),
            Action::VolumeUp => {
                if self.is_muted {
                    self.is_muted = false;
                    PlayerDirective::SetVolume(self.last_volume)
                } else {
                    PlayerDirective::VolumeUp
                }
            },
            Action::VolumeDown => PlayerDirective::VolumeDown,
            Action::ToggleMute => {
                if self.is_muted {
                    self.is_muted = false;
                    PlayerDirective::SetVolume(self.last_volume)
                } else {
                    self.last_volume = volume;
                    self.is_muted = true;
                    PlayerDirective::SetVolume(0)
                }
            },
            Action::ToggleFavorite => {
                match self.selected {
                    Some(s) => {
                        let ch = self.sorted_indices[s];
                        let id = self.channels[ch].id.clone();
                        self.favorites.toggle(id.as_str());
                        self.update_sorted_indices();
                    },
                    None => {},
                }
                PlayerDirective::Idle
            },
            Action::NextStation => {
                let len = self.sorted_indices.len();
                if len > 0 {
                    let cur = match self.selected {
                        Some(s) => s,
                        None => 0,
                    };
                    self.selected = Some((cur + 1) % len);
                }
                PlayerDirective::Idle
            },
            Action::PrevStation => {
                let len = self.sorted_indices.len();
                if len > 0 {
                    let cur = match self.selected {
                        Some(s) => s,
                        None => 0,
                    };
                    self.selected = Some(
                        if cur == 0 {
                            len - 1
                        } else {
                            cur - 1
                        },
                    );
                }
                PlayerDirective::Idle
            },
            Action::GoToTop => {
                if self.sorted_indices.len() > 0 {
                    self.selected = Some(0);
                }
                PlayerDirective::Idle
            },
            Action::GoToBottom => {
                let len = self.sorted_indices.len();
                if len > 0 {
                    self.selected = Some(len - 1);
                }
                PlayerDirective::Idle
            },
            Action::ToggleSortMode => {
                self.sort_mode = self.sort_mode.next();
                self.update_sorted_indices();
                PlayerDirective::Idle
            },
            Action::ToggleVisualizer => {
                self.show_visualizer = !self.show_visualizer;
                PlayerDirective::Idle
            },
            Action::CycleVisualization => {
                self.visualization_mode = self.visualization_mode.next();
                self.config.set_visualization(self.visualization_mode);
                PlayerDirective::Idle
            },
            Action::ToggleArtwork => {
                self.show_artwork = !self.show_artwork;
                PlayerDirective::Idle
            },
            Action::ToggleHistory => {
                self.show_history = !self.show_history;
                PlayerDirective::Idle
            },
            Action::QualityUp => {
                let nq = self.audio_quality.higher();
                self.quality_change(nq, playing)
            },
            Action::QualityDown => {
                let nq = self.audio_quality.lower();
                self.quality_change(nq, playing)
            },
            Action::ToggleTheme => {
                self.cycle_theme();
                PlayerDirective::Idle
            },
            Action::ToggleHelp => {
                self.show_help = !self.show_help;
                PlayerDirective::Idle
            },
            Action::CloseOverlay => {
                self.show_help = false;
                PlayerDirective::Idle
            },
            Action::Refresh => PlayerDirective::Refresh,
        }
    }

    /// The play directive for the selected station, at the configured
    /// quality; with nothing selected there is nothing to play.
    fn play_selected_directive(&self) -> (d: PlayerDirective)
        requires
            self.wf(),
        ensures
            match self.selected {
                Some(s) => d matches PlayerDirective::PlaySelected { url, channel_index }
                    && channel_index == self.sorted_indices@[s as int] && url@ == spec_stream_url(
                    self.channels@[self.sorted_indices@[s as int] as int],
                    self.audio_quality,
                ),
                None => d is Idle,
            },
    {
        match self.selected {
            Some(s) => {
                let ch = self.sorted_indices[s];
                let url = self.channels[ch].stream_url(self.audio_quality);
                PlayerDirective::PlaySelected { url, channel_index: ch }
            },
            None => PlayerDirective::Idle,
        }
    }

    /// Applies a quality change: a real change while playing restarts the
    /// current channel's stream at the new quality; otherwise there is
    /// nothing for the player to do.
    fn quality_change(&mut self, nq: AudioQuality, playing: bool) -> (d: PlayerDirective)
        requires
            old(self).wf(),
        ensures
            final(self).wf(),
            spec_quality_change_post(*old(self), *final(self), nq, playing, d),
    {
        if nq == self.audio_quality {
            return PlayerDirective::Idle;
        }
        self.audio_quality = nq;
        if playing {
            match self.current_channel {
                Some(c) => {
                    let url = self.channels[c].stream_url(nq);
                    PlayerDirective::PlaySelected { url, channel_index: c }
                },
                None => PlayerDirective::Idle,
            }
        } else {
            PlayerDirective::Idle
        }
    }
}

/// What a quality change does: no change is a no-op; a change is recorded,
/// and restarts the current channel exactly when something is playing and
/// a channel is current.
pub open spec fn spec_quality_change_post(
    pre: AppModel,
    post: AppModel,
    nq: AudioQuality,
    playing: bool,
    d: PlayerDirective,
) -> bool {
    if nq == pre.audio_quality {
        post == pre && d is Idle
    } else {
        &&& post == (AppModel { audio_quality: nq, ..pre })
        &&& if playing && pre.current_channel is Some {
            let c = pre.current_channel->0;
            d matches PlayerDirective::PlaySelected { url, channel_index } && channel_index == c
                && url@ == spec_stream_url(pre.channels@[c as int], nq)
        } else {
            d is Idle
        }
    }
}

} // verus!
