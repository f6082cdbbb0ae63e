//! Station and song records as plain values, audio-quality levels, and the
//! selection of a stream URL from a channel's playlists by quality and
//! format preference.

use vstd::prelude::*;
use crate::text::spec_dec;

verus! {

/// One stream playlist a channel offers.
#[derive(Debug, Clone)]
pub struct Playlist {
    pub url: String,
    pub format: String,
    pub quality: String,
}

/// One radio channel.
#[derive(Debug, Clone)]
pub struct Channel {
    pub id: String,
    pub title: String,
    pub description: String,
    pub genre: String,
    pub dj: String,
    pub djmail: Option<String>,
    pub listeners: u32,
    pub image: String,
    pub largeimage: String,
    pub xlimage: Option<String>,
    pub last_playing: String,
    pub playlists: Vec<Playlist>,
}

/// The channel-list reply of the metadata service.
#[derive(Debug)]
pub struct ChannelsResponse {
    pub channels: Vec<Channel>,
}

/// One song, current or recent.
#[derive(Debug, Clone)]
pub struct Song {
    pub title: String,
    pub artist: String,
    pub album: Option<String>,
    pub album_art: Option<String>,
    pub date: Option<u64>,
}

/// The song-list reply of the metadata service.
#[derive(Debug, Clone)]
pub struct SongsResponse {
    pub songs: Vec<Song>,
}

/// Audio quality levels.
#[derive(Debug, Clone, Copy, PartialEq, Eq, Structural)]
pub enum AudioQuality {
    Highest,
    High,
    Low,
}

impl Default for AudioQuality {
    fn default() -> (r: Self)
        ensures
            r == AudioQuality::Highest,
    {
        AudioQuality::Highest
    }
}

impl AudioQuality {
    /// The next level up; already at the top stays there.
    pub fn higher(self) -> (r: Self)
        ensures
            r == self.spec_higher(),
    {
        match self {
            AudioQuality::Low => AudioQuality::High,
            AudioQuality::High => AudioQuality::Highest,
            AudioQuality::Highest => AudioQuality::Highest,
        }
    }

    pub open spec fn spec_higher(self) -> Self {
        match self {
            AudioQuality::Low => AudioQuality::High,
            AudioQuality::High => AudioQuality::Highest,
            AudioQuality::Highest => AudioQuality::Highest,
        }
    }

    /// The next level down; already at the bottom stays there.
    pub fn lower(self) -> (r: Self)
        ensures
            r == self.spec_lower(),
    {
        match self {
            AudioQuality::Highest => AudioQuality::High,
            AudioQuality::High => AudioQuality::Low,
            AudioQuality::Low => AudioQuality::Low,
        }
    }

    pub open spec fn spec_lower(self) -> Self {
        match self {
            AudioQuality::Highest => AudioQuality::High,
            AudioQuality::High => AudioQuality::Low,
            AudioQuality::Low => AudioQuality::Low,
        }
    }

    /// The short badge shown in the interface.
    pub fn label(self) -> (r: &'static str)
        ensures
            r@ == self.spec_label(),
    {
        match self {
            AudioQuality::Highest => "HQ",
            AudioQuality::High => "MQ",
            AudioQuality::Low => "LQ",
        }
    }

    pub open spec fn spec_label(self) -> Seq<char> {
        match self {
            AudioQuality::Highest => "HQ"@,
            AudioQuality::High => "MQ"@,
            AudioQuality::Low => "LQ"@,
        }
    }

    /// The quality tag used in playlist records.
    pub fn quality_str(self) -> (r: &'static str)
        ensures
            r@ == self.spec_quality_str(),
    {
        match self {
            AudioQuality::Highest => "highest",
            AudioQuality::High => "high",
            AudioQuality::Low => "low",
        }
    }

    pub open spec fn spec_quality_str(self) -> Seq<char> {
        match self {
            AudioQuality::Highest => "highest"@,
            AudioQuality::High => "high"@,
            AudioQuality::Low => "low"@,
        }
    }
}

/// How the station list is ordered.
#[derive(Debug, Clone, Copy, PartialEq, Eq, Structural)]
pub enum SortMode {
    FavoritesThenListeners,
    Alphabetical,
    ListenersOnly,
}

impl SortMode {
    /// The successor in the sort-mode cycle.
    pub fn next(self) -> (r: Self)
        ensures
            r == self.spec_next(),
    {
        match self {
            SortMode::FavoritesThenListeners => SortMode::Alphabetical,
            SortMode::Alphabetical => SortMode::ListenersOnly,
            SortMode::ListenersOnly => SortMode::FavoritesThenListeners,
        }
    }

    pub open spec fn spec_next(self) -> Self {
        match self {
            SortMode::FavoritesThenListeners => SortMode::Alphabetical,
            SortMode::Alphabetical => SortMode::ListenersOnly,
            SortMode::ListenersOnly => SortMode::FavoritesThenListeners,
        }
    }
}

// ----- stream URL selection -----

/// Whether one playlist matches a wanted quality tag, and, where one is
/// named, a wanted format.
pub open spec fn spec_pl_matches(p: Playlist, quality: Seq<char>, format: Option<Seq<char>>) -> bool {
    p.quality@ == quality && match format {
        Some(f) => p.format@ == f,
        None => true,
    }
}

/// The first playlist at or after `from` matching the wanted quality and
/// format.
pub open spec fn spec_find_pl(
    pls: Seq<Playlist>,
    from: int,
    quality: Seq<char>,
    format: Option<Seq<char>>,
) -> Option<int>
    decreases pls.len() - from,
{
    if from < 0 || from >= pls.len() {
        None
    } else if spec_pl_matches(pls[from], quality, format) {
        Some(from)
    } else {
        spec_find_pl(pls, from + 1, quality, format)
    }
}

/// Finds the first playlist matching the wanted quality tag and, where one
/// is named, format.
fn find_playlist(pls: &Vec<Playlist>, quality: &str, format: Option<&str>) -> (r: Option<usize>)
    ensures
        match r {
            Some(i) => i < pls@.len() && Some(i as int) == spec_find_pl(
                pls@,
                0,
                quality@,
                match format {
                    Some(f) => Some(f@),
                    None => None::<Seq<char>>,
                },
            ),
            None => spec_find_pl(
                pls@,
                0,
                quality@,
                match format {
                    Some(f) => Some(f@),
                    None => None::<Seq<char>>,
                },
            ) is None,
        },
{
    let ghost fmt = match format {
        Some(f) => Some(f@),
        None => None::<Seq<char>>,
    };
    let n = pls.len();
    let mut i: usize = 0;
    while i < n
        invariant
            n == pls@.len(),
            i <= n,
            fmt == match format {
                Some(f) => Some(f@),
                None => None::<Seq<char>>,
            },
            spec_find_pl(pls@, 0, quality@, fmt) == spec_find_pl(pls@, i as int, quality@, fmt),
        decreases n - i,
    {
        let q_ok = crate::text::str_eq(pls[i].quality.as_str(), quality);
        let ok = q_ok && match format {
            Some(f) => crate::text::str_eq(pls[i].format.as_str(), f),
            None => true,
        };
        if ok {
            return Some(i);
        }
        i += 1;
    }
    None
}

/// The best stream URL of a channel: the highest-quality AAC playlist,
/// then the highest-quality MP3 one, then any highest-quality one, then
/// the first playlist; a channel with none falls back to the well-known
/// stream address built from its id.
pub open spec fn spec_best_stream_url(c: Channel) -> Seq<char> {
    match spec_find_pl(c.playlists@, 0, "highest"@, Some("aac"@)) {
        Some(i) => c.playlists@[i].url@,
        None => match spec_find_pl(c.playlists@, 0, "highest"@, Some("mp3"@)) {
            Some(i) => c.playlists@[i].url@,
            None => match spec_find_pl(c.playlists@, 0, "highest"@, None) {
                Some(i) => c.playlists@[i].url@,
                None => if c.playlists@.len() > 0 {
                    c.playlists@[0].url@
                } else {
                    "https://ice.somafm.com/"@ + c.id@
                },
            },
        },
    }
}

/// The stream URL for a wanted quality: an AAC playlist at that quality,
/// then an MP3 one, then any at that quality, then the best available.
pub open spec fn spec_stream_url(c: Channel, quality: AudioQuality) -> Seq<char> {
    let q = quality.spec_quality_str();
    match spec_find_pl(c.playlists@, 0, q, Some("aac"@)) {
        Some(i) => c.playlists@[i].url@,
        None => match spec_find_pl(c.playlists@, 0, q, Some("mp3"@)) {
            Some(i) => c.playlists@[i].url@,
            None => match spec_find_pl(c.playlists@, 0, q, None) {
                Some(i) => c.playlists@[i].url@,
                None => spec_best_stream_url(c),
            },
        },
    }
}

impl Channel {
    /// The best quality stream URL this channel offers: AAC before MP3
    /// before anything, at the highest quality tag, then the first playlist,
    /// then the well-known address built from the channel id.
    pub fn best_stream_url(&self) -> (r: String)
        ensures
            r@ == spec_best_stream_url(*self),
    {
        if let Some(i) = find_playlist(&self.playlists, "highest", Some("aac")) {
            return self.playlists[i].url.clone();
        }
        if let Some(i) = find_playlist(&self.playlists, "highest", Some("mp3")) {
            return self.playlists[i].url.clone();
        }
        if let Some(i) = find_playlist(&self.playlists, "highest", None) {
            return self.playlists[i].url.clone();
        }
        if self.playlists.len() > 0 {
            return self.playlists[0].url.clone();
        }
        let mut url = String::from_str("https://ice.somafm.com/");
        url.append(self.id.as_str());
        url
    }

    /// The stream URL for the wanted quality: AAC first, then MP3, then any
    /// playlist at that quality, falling back to the best available.
    pub fn stream_url(&self, quality: AudioQuality) -> (r: String)
        ensures
            r@ == spec_stream_url(*self, quality),
    {
        let q = quality.quality_str();
        if let Some(i) = find_playlist(&self.playlists, q, Some("aac")) {
            return self.playlists[i].url.clone();
        }
        if let Some(i) = find_playlist(&self.playlists, q, Some("mp3")) {
            return self.playlists[i].url.clone();
        }
        if let Some(i) = find_playlist(&self.playlists, q, None) {
            return self.playlists[i].url.clone();
        }
        self.best_stream_url()
    }

    /// The listener count for display: plain under 1000, else thousands
    /// with one decimal place and a `k` suffix, rounding half up.
    pub fn format_listeners(&self) -> (r: String)
        ensures
            r@ == spec_format_listeners(self.listeners as int),
    {
        if self.listeners >= 1000 {
            let rounded = (self.listeners as u64 + 50) / 100;
            let mut v = crate::text::dec_chars(rounded / 10);
            v.push('.');
            let tenth = rounded % 10;
            let mut tail = crate::text::dec_chars(tenth);
            proof {
                assert(spec_dec((rounded % 10) as nat) == seq![
                    crate::text::spec_digit_char((rounded % 10) as int),
                ]);
            }
            let d = tail[0];
            v.push(d);
            v.push('k');
            proof {
                assert(v@ =~= spec_dec((rounded / 10) as nat) + seq![
                    '.',
                    crate::text::spec_digit_char((rounded % 10) as int),
                    'k',
                ]);
            }
            crate::text::chars_to_string(&v)
        } else {
            crate::text::dec_string(self.listeners as u64)
        }
    }
}

/// The displayed listener count: plain under 1000, else thousands with one
/// decimal place (rounding half up) and a `k` suffix.
pub open spec fn spec_format_listeners(l: int) -> Seq<char> {
    if l >= 1000 {
        let rounded = (l + 50) / 100;
        spec_dec((rounded / 10) as nat) + seq![
            '.',
            crate::text::spec_digit_char((rounded % 10) as int),
            'k',
        ]
    } else {
        spec_dec(l as nat)
    }
}

// ----- station ordering -----

/// A permutation of `0..n`: every position holds an index under `n`, no
/// index twice, one position per index.
pub open spec fn spec_is_permutation(order: Seq<usize>, n: int) -> bool {
    &&& order.len() == n
    &&& forall|a: int| 0 <= a < order.len() ==> (#[trigger] order[a]) < n
    &&& forall|a: int, b: int|
        0 <= a < b < order.len() ==> (#[trigger] order[a]) != (#[trigger] order[b])
}

/// Positions ordered by key, ties broken by the index itself: the stable
/// ascending order.
pub open spec fn spec_sorted_by_keys(order: Seq<usize>, keys: Seq<u64>) -> bool {
    forall|a: int, b: int|
        0 <= a < b < order.len() ==> (keys[#[trigger] order[a] as int] < keys[
            #[trigger] order[b] as int
        ] || (keys[order[a] as int] == keys[order[b] as int] && order[a] < order[b]))
}

/// The stable ascending order of `0..keys.len()` by key: position `j` comes
/// before `k` when its key is smaller, or equal with the smaller index.
pub fn sort_indices_by_keys(keys: &Vec<u64>) -> (order: Vec<usize>)
    ensures
        spec_is_permutation(order@, keys@.len() as int),
        spec_sorted_by_keys(order@, keys@),
{
    let n = keys.len();
    let mut order: Vec<usize> = Vec::new();
    let mut i: usize = 0;
    while i < n
        invariant
            n == keys@.len(),
            i <= n,
            order@.len() == i,
            forall|a: int| 0 <= a < i ==> (#[trigger] order@[a]) < i,
            forall|a: int, b: int|
                0 <= a < b < i ==> (#[trigger] order@[a]) != (#[trigger] order@[b]),
            spec_sorted_by_keys(order@, keys@),
        decreases n - i,
    {
        let mut pos: usize = i;
        while pos > 0 && keys[order[pos - 1]] > keys[i]
            invariant
                n == keys@.len(),
                i < n,
                order@.len() == i,
                pos <= i,
                forall|a: int| 0 <= a < i ==> (#[trigger] order@[a]) < i,
                forall|a: int, b: int|
                    0 <= a < b < i ==> (#[trigger] order@[a]) != (#[trigger] order@[b]),
                spec_sorted_by_keys(order@, keys@),
                forall|a: int| pos <= a < i ==> keys@[#[trigger] order@[a] as int] > keys@[i as int],
            decreases pos,
        {
            pos -= 1;
        }
        let ghost pre = order@;
        order.insert(pos, i);
        proof {
            let post = order@;
            assert(post =~= pre.insert(pos as int, i));
            assert(forall|a: int| 0 <= a < pos ==> post[a] == pre[a]);
            assert(post[pos as int] == i);
            assert(forall|a: int| pos < a < post.len() ==> post[a] == pre[a - 1]);
            // keys before the insertion point are at most the new key
            assert(pos > 0 ==> keys@[pre[pos - 1] as int] <= keys@[i as int]);
            assert forall|a: int, b: int|
                0 <= a < b < post.len() implies (keys@[#[trigger] post[a] as int] < keys@[
                #[trigger] post[b] as int
            ] || (keys@[post[a] as int] == keys@[post[b] as int] && post[a] < post[b])) by {
                if a < pos && b < pos {
                } else if a < pos && b == pos {
                    // sorted prefix: the key at a is at most the key just
                    // before the insertion point, itself at most the new key
                    if a < pos - 1 {
                        assert(keys@[pre[a] as int] < keys@[pre[pos - 1] as int] || (keys@[pre[a] as int]
                            == keys@[pre[pos - 1] as int] && pre[a] < pre[pos - 1]));
                    }
                    assert(post[a] < i);
                } else if a < pos && b > pos {
                } else if a == pos {
                    assert(keys@[pre[b - 1] as int] > keys@[i as int]);
                } else {
                }
            }
        }
        i += 1;
    }
    order
}

/// Whether `a` reads lexicographically before `b` from position `i` on.
pub open spec fn spec_lex_lt_from(a: Seq<char>, b: Seq<char>, i: int) -> bool
    decreases b.len() - i,
{
    if i < 0 || i >= b.len() {
        false
    } else if i >= a.len() {
        true
    } else if a[i] != b[i] {
        (a[i] as int) < (b[i] as int)
    } else {
        spec_lex_lt_from(a, b, i + 1)
    }
}

/// Whether `a` reads lexicographically strictly before `b`, comparing
/// characters by code point — the order their encoded bytes give too.
pub open spec fn spec_lex_lt(a: Seq<char>, b: Seq<char>) -> bool {
    spec_lex_lt_from(a, b, 0)
}

/// Compares two strings lexicographically.
fn str_lex_lt(a: &str, b: &str) -> (r: bool)
    ensures
        r == spec_lex_lt(a@, b@),
{
    let la = a.unicode_len();
    let lb = b.unicode_len();
    let mut i: usize = 0;
    while i < la && i < lb
        invariant
            la == a@.len(),
            lb == b@.len(),
            i <= la,
            i <= lb,
            spec_lex_lt(a@, b@) == spec_lex_lt_from(a@, b@, i as int),
        decreases la - i,
    {
        let ca = a.get_char(i);
        let cb = b.get_char(i);
        if ca != cb {
            return (ca as u32) < (cb as u32);
        }
        i += 1;
    }
    la < lb
}

/// Positions ordered by title, ties broken by the index itself.
pub open spec fn spec_sorted_by_titles(order: Seq<usize>, titles: Seq<String>) -> bool {
    forall|a: int, b: int|
        0 <= a < b < order.len() ==> (spec_lex_lt(
            titles[#[trigger] order[a] as int]@,
            titles[#[trigger] order[b] as int]@,
        ) || (!spec_lex_lt(titles[order[b] as int]@, titles[order[a] as int]@) && order[a]
            < order[b]))
}

/// Strict lexicographic order is asymmetric and its negation transitive
/// enough for sorting: of two positions, at most one reads before the
/// other.
proof fn lemma_lex_lt_from_asym(a: Seq<char>, b: Seq<char>, i: int)
    requires
        i >= 0,
    ensures
        !(spec_lex_lt_from(a, b, i) && spec_lex_lt_from(b, a, i)),
    decreases b.len() - i,
{
    if i < b.len() && i < a.len() && a[i] == b[i] {
        lemma_lex_lt_from_asym(a, b, i + 1);
    }
}

/// Where neither of two strings reads before a middle one nor after it,
/// order carries over: not-before is transitive.
proof fn lemma_lex_nlt_trans(a: Seq<char>, b: Seq<char>, c: Seq<char>, i: int)
    requires
        i >= 0,
        !spec_lex_lt_from(b, a, i),
        !spec_lex_lt_from(c, b, i),
    ensures
        !spec_lex_lt_from(c, a, i),
    decreases a.len() + b.len() + c.len() - i,
{
    if i >= a.len() {
    } else if i >= b.len() {
    } else if i >= c.len() {
    } else {
        if a[i] == b[i] && b[i] == c[i] {
            lemma_lex_nlt_trans(a, b, c, i + 1);
        }
    }
}

/// The stable ascending order of `0..titles.len()` by title.
pub fn sort_indices_by_titles(titles: &Vec<String>) -> (order: Vec<usize>)
    ensures
        spec_is_permutation(order@, titles@.len() as int),
        spec_sorted_by_titles(order@, titles@),
{
    let n = titles.len();
    let mut order: Vec<usize> = Vec::new();
    let mut i: usize = 0;
    while i < n
        invariant
            n == titles@.len(),
            i <= n,
            order@.len() == i,
            forall|a: int| 0 <= a < i ==> (#[trigger] order@[a]) < i,
            forall|a: int, b: int|
                0 <= a < b < i ==> (#[trigger] order@[a]) != (#[trigger] order@[b]),
            spec_sorted_by_titles(order@, titles@),
        decreases n - i,
    {
        let mut pos: usize = i;
        while pos > 0 && str_lex_lt(titles[i].as_str(), titles[order[pos - 1]].as_str())
            invariant
                n == titles@.len(),
                i < n,
                order@.len() == i,
                pos <= i,
                forall|a: int| 0 <= a < i ==> (#[trigger] order@[a]) < i,
                forall|a: int, b: int|
                    0 <= a < b < i ==> (#[trigger] order@[a]) != (#[trigger] order@[b]),
                spec_sorted_by_titles(order@, titles@),
                forall|a: int|
                    pos <= a < i ==> spec_lex_lt(
                        titles@[i as int]@,
                        titles@[#[trigger] order@[a] as int]@,
                    ),
            decreases pos,
        {
            pos -= 1;
        }
        let ghost pre = order@;
        order.insert(pos, i);
        proof {
            let post = order@;
            assert(post =~= pre.insert(pos as int, i));
            assert(forall|a: int| 0 <= a < pos ==> post[a] == pre[a]);
            assert(post[pos as int] == i);
            assert(forall|a: int| pos < a < post.len() ==> post[a] == pre[a - 1]);
            assert(pos > 0 ==> !spec_lex_lt(titles@[i as int]@, titles@[pre[pos - 1] as int]@));
            assert forall|a: int, b: int|
                0 <= a < b < post.len() implies (spec_lex_lt(
                titles@[#[trigger] post[a] as int]@,
                titles@[#[trigger] post[b] as int]@,
            ) || (!spec_lex_lt(titles@[post[b] as int]@, titles@[post[a] as int]@) && post[a]
                < post[b])) by {
                if a < pos && b == pos {
                    // the entry at a does not read after the one just
                    // before the insertion point, which in turn does not
                    // read after the new title: not-after carries over
                    if a < pos - 1 {
                        let av = titles@[pre[a] as int]@;
                        let mid = titles@[pre[pos - 1] as int]@;
                        let iv = titles@[i as int]@;
                        if spec_lex_lt(av, mid) {
                            lemma_lex_lt_from_asym(av, mid, 0);
                        }
                        lemma_lex_nlt_trans(av, mid, iv, 0);
                    }
                    assert(post[a] < i);
                } else if a == pos && b > pos {
                    assert(spec_lex_lt(titles@[i as int]@, titles@[pre[b - 1] as int]@));
                } else {
                }
            }
        }
        i += 1;
    }
    order
}

} // verus!
