//! Preferences and favorites as plain values: which theme and visualization
//! are stored under which names, and the set of favorite station ids.
//! Loading and saving the small JSON documents is the runner's job; the
//! core never depends on their success.

use vstd::prelude::*;
use crate::theme::ThemeType;
use crate::visualizer::VisualizationMode;

verus! {

/// The stored preferences.
#[derive(Debug, Clone)]
pub struct Config {
    pub theme: String,
    pub visualization: String,
}

impl Default for Config {
    /// Empty names: both preferences fall back to their defaults.
    fn default() -> (r: Self)
        ensures
            r.theme@ == Seq::<char>::empty(),
            r.visualization@ == Seq::<char>::empty(),
    {
        Config { theme: String::new(), visualization: String::new() }
    }
}

/// The preference store.
pub struct ConfigStore {
    pub config: Config,
}

/// The theme a stored name denotes; unknown names fall back to the default
/// theme.
pub open spec fn spec_theme_of(s: Seq<char>) -> ThemeType {
    if s == "Synthwave"@ {
        ThemeType::Synthwave
    } else if s == "Ocean"@ {
        ThemeType::Ocean
    } else if s == "Forest"@ {
        ThemeType::Forest
    } else if s == "Sunset"@ {
        ThemeType::Sunset
    } else if s == "Mono"@ {
        ThemeType::Monochrome
    } else {
        ThemeType::Cyberpunk
    }
}

/// The visualization a stored name denotes; unknown names fall back to the
/// spiral.
pub open spec fn spec_visualization_of(s: Seq<char>) -> VisualizationMode {
    if s == "Spirograph"@ {
        VisualizationMode::Spirograph
    } else if s == "Pulse"@ {
        VisualizationMode::Pulse
    } else if s == "Wave"@ {
        VisualizationMode::Wave
    } else if s == "Bounce"@ {
        VisualizationMode::Bounce
    } else if s == "Stars"@ {
        VisualizationMode::Starfield
    } else if s == "Heart"@ {
        VisualizationMode::Heart
    } else if s == "Rain"@ {
        VisualizationMode::Rain
    } else {
        VisualizationMode::Spiral
    }
}

impl ConfigStore {
    /// A store with default preferences.
    pub fn new() -> (r: Self)
        ensures
            r.config.theme@ == Seq::<char>::empty(),
            r.config.visualization@ == Seq::<char>::empty(),
    {
        ConfigStore { config: Config::default() }
    }

    /// The stored theme; an unknown or empty name is the default theme.
    pub fn theme_type(&self) -> (r: ThemeType)
        ensures
            r == spec_theme_of(self.config.theme@),
    {
        let s = self.config.theme.as_str();
        if crate::text::str_eq(s, "Synthwave") {
            ThemeType::Synthwave
        } else if crate::text::str_eq(s, "Ocean") {
            ThemeType::Ocean
        } else if crate::text::str_eq(s, "Forest") {
            ThemeType::Forest
        } else if crate::text::str_eq(s, "Sunset") {
            ThemeType::Sunset
        } else if crate::text::str_eq(s, "Mono") {
            ThemeType::Monochrome
        } else {
            ThemeType::Cyberpunk
        }
    }

    /// Stores a theme under its name.
    pub fn set_theme(&mut self, theme_type: ThemeType)
        ensures
            final(self).config.theme@ == theme_type.spec_name(),
            final(self).config.visualization == old(self).config.visualization,
    {
        self.config.theme = String::from_str(theme_type.name());
    }

    /// The stored visualization; an unknown or empty name is the spiral.
    pub fn visualization_mode(&self) -> (r: VisualizationMode)
        ensures
            r == spec_visualization_of(self.config.visualization@),
    {
        let s = self.config.visualization.as_str();
        if crate::text::str_eq(s, "Spirograph") {
            VisualizationMode::Spirograph
        } else if crate::text::str_eq(s, "Pulse") {
            VisualizationMode::Pulse
        } else if crate::text::str_eq(s, "Wave") {
            VisualizationMode::Wave
        } else if crate::text::str_eq(s, "Bounce") {
            VisualizationMode::Bounce
        } else if crate::text::str_eq(s, "Stars") {
            VisualizationMode::Starfield
        } else if crate::text::str_eq(s, "Heart") {
            VisualizationMode::Heart
        } else if crate::text::str_eq(s, "Rain") {
            VisualizationMode::Rain
        } else {
            VisualizationMode::Spiral
        }
    }

    /// Stores a visualization under its name.
    pub fn set_visualization(&mut self, mode: VisualizationMode)
        ensures
            final(self).config.visualization@ == mode.spec_name(),
            final(self).config.theme == old(self).config.theme,
    {
        self.config.visualization = String::from_str(mode.name());
    }
}

// ----- favorites -----

/// Whether a station id is among the ids of `s`.
pub open spec fn spec_has_id(s: Seq<String>, id: Seq<char>) -> bool {
    exists|i: int| 0 <= i < s.len() && #[trigger] s[i]@ == id
}

/// The favorite station ids, each held once.
pub struct FavoritesStore {
    pub favorites: Vec<String>,
}

impl FavoritesStore {
    /// Well-formedness: no station id twice.
    pub open spec fn wf(self) -> bool {
        forall|i: int, j: int|
            0 <= i < j < self.favorites@.len() ==> #[trigger] self.favorites@[i]@
                != #[trigger] self.favorites@[j]@
    }

    /// An empty store.
    pub fn new() -> (r: Self)
        ensures
            r.wf(),
            r.favorites@.len() == 0,
    {
        FavoritesStore { favorites: Vec::new() }
    }

    /// The position of a station id, if it is a favorite.
    fn position_of(&self, station_id: &str) -> (r: Option<usize>)
        ensures
            match r {
                Some(i) => i < self.favorites@.len() && self.favorites@[i as int]@ == station_id@,
                None => !spec_has_id(self.favorites@, station_id@),
            },
    {
        let n = self.favorites.len();
        let mut i: usize = 0;
        while i < n
            invariant
                n == self.favorites@.len(),
                i <= n,
                forall|j: int| 0 <= j < i ==> #[trigger] self.favorites@[j]@ != station_id@,
            decreases n - i,
        {
            if crate::text::str_eq(self.favorites[i].as_str(), station_id) {
                return Some(i);
            }
            i += 1;
        }
        None
    }

    /// Whether a station is a favorite.
    pub fn is_favorite(&self, station_id: &str) -> (r: bool)
        ensures
            r == spec_has_id(self.favorites@, station_id@),
    {
        self.position_of(station_id).is_some()
    }

    /// Flips a station's favorite standing. Returns whether it is a
    /// favorite afterwards; every other station's standing is untouched.
    pub fn toggle(&mut self, station_id: &str) -> (added: bool)
        requires
            old(self).wf(),
        ensures
            final(self).wf(),
            added == !spec_has_id(old(self).favorites@, station_id@),
            spec_has_id(final(self).favorites@, station_id@) == added,
            forall|other: Seq<char>|
                other != station_id@ ==> #[trigger] spec_has_id(final(self).favorites@, other)
                    == spec_has_id(old(self).favorites@, other),
    {
        match self.position_of(station_id) {
            Some(i) => {
                self.favorites.remove(i);
                proof {
                    let pre = old(self).favorites@;
                    let post = self.favorites@;
                    assert(post =~= pre.take(i as int) + pre.skip(i as int + 1));
                    assert forall|k: int| 0 <= k < post.len() implies #[trigger] post[k]@
                        != station_id@ by {
                        if k < i {
                            assert(post[k] == pre[k]);
                        } else {
                            assert(post[k] == pre[k + 1]);
                        }
                    }
                    assert(!spec_has_id(post, station_id@));
                    assert forall|other: Seq<char>|
                        other != station_id@ implies #[trigger] spec_has_id(post, other)
                        == spec_has_id(pre, other) by {
                        if spec_has_id(pre, other) {
                            let w = choose|w: int| 0 <= w < pre.len() && pre[w]@ == other;
                            if w < i {
                                assert(post[w] == pre[w]);
                            } else {
                                assert(post[w - 1] == pre[w]);
                            }
                        }
                        if spec_has_id(post, other) {
                            let w = choose|w: int| 0 <= w < post.len() && post[w]@ == other;
                            if w < i {
                                assert(post[w] == pre[w]);
                            } else {
                                assert(post[w] == pre[w + 1]);
                            }
                        }
                    }
                }
                false
            },
            None => {
                self.favorites.push(String::from_str(station_id));
                proof {
                    let pre = old(self).favorites@;
                    let post = self.favorites@;
                    assert(post[pre.len() as int]@ == station_id@);
                    assert(spec_has_id(post, station_id@));
                    assert forall|other: Seq<char>|
                        other != station_id@ implies #[trigger] spec_has_id(post, other)
                        == spec_has_id(pre, other) by {
                        if spec_has_id(pre, other) {
                            let w = choose|w: int| 0 <= w < pre.len() && pre[w]@ == other;
                            assert(post[w]@ == other);
                        }
                        if spec_has_id(post, other) {
                            let w = choose|w: int| 0 <= w < post.len() && post[w]@ == other;
                            assert(w < pre.len());
                            assert(pre[w]@ == other);
                        }
                    }
                    assert forall|i: int, j: int|
                        0 <= i < j < post.len() implies #[trigger] post[i]@ != #[trigger] post[j]@
                        by {
                        if j < pre.len() {
                        } else {
                            assert(post[j]@ == station_id@);
                            assert(post[i]@ == pre[i]@);
                        }
                    }
                }
                true
            },
        }
    }

    /// The stored favorite ids.
    pub fn favorites(&self) -> (r: &Vec<String>)
        ensures
            r == self.favorites,
    {
        &self.favorites
    }
}

} // verus!
