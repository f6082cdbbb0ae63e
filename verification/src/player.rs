//! The playback controller: the single owner of the transport session and
//! the canonical playback snapshot. Its operations are pure state
//! transitions; opening the transport, writing requests and reading replies
//! is the runner's job, driven by the command plans these operations hand
//! out.

use vstd::prelude::*;
use crate::protocol::{
    CmdToken, CmdTokenModel, CommandPlan, PendingCall, spec_request, encode_request,
    DEFAULT_COMMAND_TIMEOUT_MS, POLL_COMMAND_TIMEOUT_MS,
};

verus! {

/// Playback snapshot owned by the controller and copied to consumers.
#[derive(Debug, Clone)]
pub struct PlaybackState {
    pub playing: bool,
    pub paused: bool,
    pub volume: u8,
    pub title: Option<String>,
    pub artist: Option<String>,
}

/// The mathematical image of a `PlaybackState`.
pub struct PlaybackModel {
    pub playing: bool,
    pub paused: bool,
    pub volume: u8,
    pub title: Option<Seq<char>>,
    pub artist: Option<Seq<char>>,
}

impl View for PlaybackState {
    type V = PlaybackModel;

    open spec fn view(&self) -> PlaybackModel {
        PlaybackModel {
            playing: self.playing,
            paused: self.paused,
            volume: self.volume,
            title: match self.title {
                Some(ref t) => Some(t@),
                None => None,
            },
            artist: match self.artist {
                Some(ref a) => Some(a@),
                None => None,
            },
        }
    }
}

impl PlaybackModel {
    /// Well-formedness: a paused player is necessarily playing, and the
    /// volume never exceeds 100.
    pub open spec fn wf(self) -> bool {
        (self.paused ==> self.playing) && self.volume <= 100
    }
}

impl Default for PlaybackState {
    /// A fresh snapshot: stopped, volume 80, no metadata.
    fn default() -> (r: Self)
        ensures
            r@ == spec_initial_playback(),
    {
        PlaybackState { playing: false, paused: false, volume: 80, title: None, artist: None }
    }
}

/// The snapshot a controller starts with.
pub open spec fn spec_initial_playback() -> PlaybackModel {
    PlaybackModel { playing: false, paused: false, volume: 80, title: None, artist: None }
}

/// The controller: playback snapshot, whether a transport session is live,
/// and the correlation-identifier counter, strictly increasing from 1.
pub struct Controller {
    pub state: PlaybackState,
    pub connected: bool,
    pub next_request_id: u64,
}

/// The mathematical image of a `Controller`.
pub struct ControllerModel {
    pub state: PlaybackModel,
    pub connected: bool,
    pub next_request_id: u64,
}

impl View for Controller {
    type V = ControllerModel;

    open spec fn view(&self) -> ControllerModel {
        ControllerModel {
            state: self.state@,
            connected: self.connected,
            next_request_id: self.next_request_id,
        }
    }
}

impl ControllerModel {
    /// Well-formedness: the snapshot is well formed, a playing controller
    /// holds a live transport, and the identifier counter started at 1.
    pub open spec fn wf(self) -> bool {
        self.state.wf() && (self.state.playing ==> self.connected) && self.next_request_id >= 1
    }
}

// ----- the transition model -----

/// A volume clamped to the accepted range.
pub open spec fn spec_clamp_volume(v: u8) -> u8 {
    if v > 100 {
        100
    } else {
        v
    }
}

/// One state-changing controller operation, as a mathematical value.
pub enum ControllerOp {
    /// Tear the session down: on an explicit stop, a failed connection
    /// attempt, or implicitly at the start of `play`.
    Stop,
    /// A `play` connected: the snapshot restarts, keeping the volume.
    ConnectSuccess,
    /// Set the volume, clamped; when playing this also issues a command
    /// and so allocates a correlation identifier.
    SetVolume(u8),
    /// Raise the volume by 5, clamped at 100.
    VolumeUp,
    /// Lower the volume by 5, clamped at 0.
    VolumeDown,
    /// The reply to a pause-cycle command came back; the flag flips only on
    /// confirmed success.
    PauseToggled(bool),
    /// A command was planned: the identifier counter advances.
    AllocId,
    /// Stream metadata was read: the snapshot's title and artist fields.
    SetMetadata(Option<Seq<char>>, Option<Seq<char>>),
}

/// The identifier counter after allocating one identifier. In the model the
/// counter saturates at its machine bound; the executable operations require
/// the bound not to be reached, so on every reachable state this is id + 1.
pub open spec fn spec_bump_id(id: u64) -> u64 {
    if id == u64::MAX {
        id
    } else {
        (id + 1) as u64
    }
}

/// The controller state after setting the volume: clamped, recorded
/// locally in every case, and costing one correlation identifier exactly
/// when a command goes out, that is when something is playing.
pub open spec fn apply_set_volume(m: ControllerModel, v: u8) -> ControllerModel {
    ControllerModel {
        state: PlaybackModel { volume: spec_clamp_volume(v), ..m.state },
        connected: m.connected,
        next_request_id: if m.state.playing {
            spec_bump_id(m.next_request_id)
        } else {
            m.next_request_id
        },
    }
}

/// The controller state after one operation.
pub open spec fn apply_op(m: ControllerModel, op: ControllerOp) -> ControllerModel {
    match op {
        ControllerOp::Stop => ControllerModel {
            state: PlaybackModel { playing: false, paused: false, ..m.state },
            connected: false,
            next_request_id: m.next_request_id,
        },
        ControllerOp::ConnectSuccess => ControllerModel {
            state: PlaybackModel {
                playing: true,
                paused: false,
                volume: m.state.volume,
                title: None,
                artist: None,
            },
            connected: true,
            next_request_id: m.next_request_id,
        },
        ControllerOp::SetVolume(v) => apply_set_volume(m, v),
        ControllerOp::VolumeUp => apply_set_volume(
            m,
            if m.state.volume <= 95 {
                (m.state.volume + 5) as u8
            } else {
                100
            },
        ),
        ControllerOp::VolumeDown => apply_set_volume(
            m,
            if m.state.volume >= 5 {
                (m.state.volume - 5) as u8
            } else {
                0
            },
        ),
        ControllerOp::PauseToggled(ok) => ControllerModel {
            state: PlaybackModel {
                paused: if ok && m.state.playing {
                    !m.state.paused
                } else {
                    m.state.paused
                },
                ..m.state
            },
            connected: m.connected,
            next_request_id: m.next_request_id,
        },
        ControllerOp::AllocId => ControllerModel {
            state: m.state,
            connected: m.connected,
            next_request_id: spec_bump_id(m.next_request_id),
        },
        ControllerOp::SetMetadata(title, artist) => ControllerModel {
            state: PlaybackModel { title: title, artist: artist, ..m.state },
            connected: m.connected,
            next_request_id: m.next_request_id,
        },
    }
}

/// The controller state after a sequence of operations.
pub open spec fn apply_ops(m: ControllerModel, ops: Seq<ControllerOp>) -> ControllerModel
    decreases ops.len(),
{
    if ops.len() == 0 {
        m
    } else {
        apply_op(apply_ops(m, ops.drop_last()), ops.last())
    }
}

// ----- laws -----

/// Every controller operation preserves well-formedness; in particular
/// `paused ==> playing` holds after every operation.
pub proof fn lemma_op_preserves_wf(m: ControllerModel, op: ControllerOp)
    requires
        m.wf(),
    ensures
        apply_op(m, op).wf(),
{
}

/// Well-formedness holds after every sequence of controller operations; in
/// particular `paused ==> playing` always holds.
pub proof fn lemma_ops_preserve_wf(m: ControllerModel, ops: Seq<ControllerOp>)
    requires
        m.wf(),
    ensures
        apply_ops(m, ops).wf(),
    decreases ops.len(),
{
    if ops.len() > 0 {
        lemma_ops_preserve_wf(m, ops.drop_last());
        lemma_op_preserves_wf(apply_ops(m, ops.drop_last()), ops.last());
    }
}

/// After any sequence of operations ending in a stop, no transport session
/// is live: `stop` never leaves a live transport handle behind.
pub proof fn lemma_stop_leaves_no_session(m: ControllerModel, ops: Seq<ControllerOp>)
    requires
        ops.len() > 0,
        ops.last() == ControllerOp::Stop,
    ensures
        !apply_ops(m, ops).connected,
        !apply_ops(m, ops).state.playing,
        !apply_ops(m, ops).state.paused,
{
}

/// Stopping twice is the same as stopping once; with the exec contract of
/// `stop`, whose result reports whether a session was actually torn down,
/// the second stop therefore tears nothing down: one teardown per session.
pub proof fn lemma_stop_idempotent(m: ControllerModel)
    ensures
        apply_op(apply_op(m, ControllerOp::Stop), ControllerOp::Stop) == apply_op(
            m,
            ControllerOp::Stop,
        ),
        !apply_op(m, ControllerOp::Stop).connected,
{
}

/// Setting the volume twice to the same value leaves the same playback
/// snapshot as setting it once.
pub proof fn lemma_set_volume_idempotent(m: ControllerModel, v: u8)
    ensures
        apply_op(apply_op(m, ControllerOp::SetVolume(v)), ControllerOp::SetVolume(v)).state
            == apply_op(m, ControllerOp::SetVolume(v)).state,
{
}

/// Raising the volume by one step and lowering it again returns to the
/// starting volume, whenever the raise is not clamped at 100. (At 98, say,
/// the raise clamps to 100 and the round trip ends at 95.)
pub proof fn lemma_volume_round_trip(m: ControllerModel, v: u8)
    requires
        m.state.volume <= 95,
    ensures
        apply_op(apply_op(m, ControllerOp::VolumeUp), ControllerOp::VolumeDown).state.volume
            == m.state.volume,
{
}

// ----- the exec controller -----

impl Controller {
    /// A fresh controller: no session, default snapshot, identifiers from 1.
    pub fn new() -> (r: Self)
        ensures
            r@ == (ControllerModel {
                state: spec_initial_playback(),
                connected: false,
                next_request_id: 1,
            }),
            r@.wf(),
    {
        Controller { state: PlaybackState::default(), connected: false, next_request_id: 1 }
    }

    /// Whether sound is coming out: playing and not paused.
    pub fn is_playing(&self) -> (r: bool)
        ensures
            r == (self@.state.playing && !self@.state.paused),
    {
        self.state.playing && !self.state.paused
    }

    /// Tears the session state down. Returns whether a transport session was
    /// live: exactly then the runner must close the transport and kill the
    /// player process, so each session is torn down exactly once. Idempotent:
    /// with no live session this changes nothing and reports nothing to do.
    pub fn stop(&mut self) -> (had_session: bool)
        ensures
            final(self)@ == apply_op(old(self)@, ControllerOp::Stop),
            had_session == old(self)@.connected,
    {
        let had = self.connected;
        self.connected = false;
        self.state.playing = false;
        self.state.paused = false;
        had
    }

    /// Begins `play`: any live session is implicitly stopped first — there
    /// is no in-place source switch. Returns whether a session was live and
    /// must be torn down before spawning the new player process.
    pub fn begin_play(&mut self) -> (had_session: bool)
        ensures
            final(self)@ == apply_op(old(self)@, ControllerOp::Stop),
            had_session == old(self)@.connected,
    {
        self.stop()
    }

    /// The transport of a new session is open: playback starts, paused off,
    /// at the previously configured volume; stale metadata is dropped.
    pub fn on_connect_success(&mut self)
        ensures
            final(self)@ == apply_op(old(self)@, ControllerOp::ConnectSuccess),
    {
        self.connected = true;
        self.state.playing = true;
        self.state.paused = false;
        self.state.title = None;
        self.state.artist = None;
    }

    /// Connecting failed: the session state is torn down; the runner
    /// surfaces the error to the caller of `play`.
    pub fn on_connect_failure(&mut self)
        ensures
            final(self)@ == apply_op(old(self)@, ControllerOp::Stop),
    {
        self.stop();
    }

    /// Allocates the next correlation identifier.
    fn alloc_id(&mut self) -> (id: u64)
        requires
            old(self).next_request_id < u64::MAX,
        ensures
            id == old(self)@.next_request_id,
            final(self)@ == apply_op(old(self)@, ControllerOp::AllocId),
    {
        let id = self.next_request_id;
        self.next_request_id = self.next_request_id + 1;
        id
    }

    /// Plans a pause-cycle command. With nothing playing there is nothing to
    /// do and no plan; the call still counts as a success. The pause flag is
    /// not touched here: it flips only when the reply confirms success.
    pub fn toggle_pause_plan(&mut self, now_ms: u64) -> (p: Option<CommandPlan>)
        requires
            old(self).next_request_id < u64::MAX,
        ensures
            (p is Some) == old(self)@.state.playing,
            p matches Some(plan) ==> {
                &&& final(self)@ == apply_op(old(self)@, ControllerOp::AllocId)
                &&& plan.message@ == spec_request(
                    seq![CmdTokenModel::Text("cycle"@), CmdTokenModel::Text("pause"@)],
                    old(self)@.next_request_id,
                )
                &&& plan.call.request_id == old(self)@.next_request_id
                &&& plan.call.issued_at_ms == now_ms
                &&& plan.call.timeout_ms == DEFAULT_COMMAND_TIMEOUT_MS
            },
            p is None ==> final(self)@ == old(self)@,
    {
        if !self.state.playing {
            return None;
        }
        let id = self.alloc_id();
        let mut tokens: Vec<CmdToken> = Vec::new();
        tokens.push(CmdToken::Text(String::from_str("cycle")));
        tokens.push(CmdToken::Text(String::from_str("pause")));
        let message = encode_request(&tokens, id);
        proof {
            assert(crate::protocol::token_models(tokens@) =~= seq![
                CmdTokenModel::Text("cycle"@),
                CmdTokenModel::Text("pause"@),
            ]);
        }
        Some(
            CommandPlan {
                message,
                call: PendingCall {
                    request_id: id,
                    issued_at_ms: now_ms,
                    timeout_ms: DEFAULT_COMMAND_TIMEOUT_MS,
                },
            },
        )
    }

    /// The reply to a planned pause-cycle command came back. Only a
    /// confirmed success flips the pause flag; a failed toggle leaves the
    /// snapshot unchanged, and the failure is absorbed.
    pub fn on_toggle_pause_result(&mut self, ok: bool)
        ensures
            final(self)@ == apply_op(old(self)@, ControllerOp::PauseToggled(ok)),
    {
        if ok && self.state.playing {
            self.state.paused = !self.state.paused;
        }
    }

    /// Sets the volume, clamped to 0..=100. Not playing: the volume is a
    /// pending preference, recorded locally, no command sent. Playing: a
    /// volume-set command is planned, and the local volume is updated no
    /// matter how that command will fare — best effort, so the snapshot
    /// always reflects the user's intent.
    pub fn set_volume(&mut self, volume: u8, now_ms: u64) -> (p: Option<CommandPlan>)
        requires
            old(self).next_request_id < u64::MAX,
        ensures
            final(self)@ == apply_op(old(self)@, ControllerOp::SetVolume(volume)),
            (p is Some) == old(self)@.state.playing,
            p matches Some(plan) ==> {
                &&& plan.message@ == spec_request(
                    seq![
                        CmdTokenModel::Text("set_property"@),
                        CmdTokenModel::Text("volume"@),
                        CmdTokenModel::Int(spec_clamp_volume(volume) as u64),
                    ],
                    old(self)@.next_request_id,
                )
                &&& plan.call.request_id == old(self)@.next_request_id
                &&& plan.call.issued_at_ms == now_ms
                &&& plan.call.timeout_ms == DEFAULT_COMMAND_TIMEOUT_MS
            },
    {
        let v = if volume > 100 {
            100
        } else {
            volume
        };
        if !self.state.playing {
            self.state.volume = v;
            return None;
        }
        let id = self.alloc_id();
        self.state.volume = v;
        let mut tokens: Vec<CmdToken> = Vec::new();
        tokens.push(CmdToken::Text(String::from_str("set_property")));
        tokens.push(CmdToken::Text(String::from_str("volume")));
        tokens.push(CmdToken::Int(v as u64));
        let message = encode_request(&tokens, id);
        proof {
            assert(crate::protocol::token_models(tokens@) =~= seq![
                CmdTokenModel::Text("set_property"@),
                CmdTokenModel::Text("volume"@),
                CmdTokenModel::Int(spec_clamp_volume(volume) as u64),
            ]);
        }
        Some(
            CommandPlan {
                message,
                call: PendingCall {
                    request_id: id,
                    issued_at_ms: now_ms,
                    timeout_ms: DEFAULT_COMMAND_TIMEOUT_MS,
                },
            },
        )
    }

    /// Raises the volume by 5, clamped at 100, through `set_volume`.
    pub fn volume_up(&mut self, now_ms: u64) -> (p: Option<CommandPlan>)
        requires
            old(self)@.wf(),
            old(self).next_request_id < u64::MAX,
        ensures
            final(self)@ == apply_op(old(self)@, ControllerOp::VolumeUp),
            (p is Some) == old(self)@.state.playing,
    {
        let target = if self.state.volume <= 95 {
            self.state.volume + 5
        } else {
            100
        };
        self.set_volume(target, now_ms)
    }

    /// Lowers the volume by 5, clamped at 0, through `set_volume`.
    pub fn volume_down(&mut self, now_ms: u64) -> (p: Option<CommandPlan>)
        requires
            old(self).next_request_id < u64::MAX,
        ensures
            final(self)@ == apply_op(old(self)@, ControllerOp::VolumeDown),
            (p is Some) == old(self)@.state.playing,
    {
        let target = if self.state.volume >= 5 {
            self.state.volume - 5
        } else {
            0
        };
        self.set_volume(target, now_ms)
    }
}

// ----- stream metadata -----

/// The view of an optional string.
pub open spec fn opt_str_view(o: Option<String>) -> Option<Seq<char>> {
    match o {
        Some(s) => Some(s@),
        None => None,
    }
}

/// The tokens of one property query.
pub open spec fn spec_get_property_tokens(prop: Seq<char>) -> Seq<CmdTokenModel> {
    seq![CmdTokenModel::Text("get_property"@), CmdTokenModel::Text(prop)]
}

/// The views of an optional pair of strings.
pub open spec fn opt_pair_view(r: Option<(String, String)>) -> Option<(Seq<char>, Seq<char>)> {
    match r {
        Some(p) => Some((p.0@, p.1@)),
        None => None,
    }
}

/// What reading the metadata map does: a title entry carrying the `" - "`
/// separator is split and recorded like a primary title; otherwise the
/// entries are recorded as they are and handed back whenever either is
/// present.
pub open spec fn spec_metadata_map_post(
    pre: ControllerModel,
    post: ControllerModel,
    tv: Option<Seq<char>>,
    av: Option<Seq<char>>,
    r: Option<(Seq<char>, Seq<char>)>,
) -> bool {
    if tv is Some && crate::text::spec_find(tv->0, " - "@, 0) is Some {
        let t = tv->0;
        &&& r == Some((spec_split_title(t).0, spec_split_title(t).1))
        &&& post == apply_op(
            pre,
            ControllerOp::SetMetadata(Some(spec_split_title(t).1), Some(spec_split_title(t).0)),
        )
    } else {
        &&& post == apply_op(pre, ControllerOp::SetMetadata(tv, av))
        &&& r == if tv is Some || av is Some {
            Some(
                (
                    match av {
                        Some(a) => a,
                        None => Seq::<char>::empty(),
                    },
                    match tv {
                        Some(t) => t,
                        None => Seq::<char>::empty(),
                    },
                ),
            )
        } else {
            None::<(Seq<char>, Seq<char>)>
        }
    }
}

/// How a stream title splits into artist and title: at the first
/// `" - "` separator; without one, the artist is empty and the whole
/// string is the title.
pub open spec fn spec_split_title(s: Seq<char>) -> (Seq<char>, Seq<char>) {
    match crate::text::spec_find(s, " - "@, 0) {
        Some(i) => (s.take(i), s.skip(i + 3)),
        None => (Seq::empty(), s),
    }
}

/// Splits a stream title on the first `" - "` into artist and title;
/// without a separator the artist is empty and the whole input is the
/// title.
pub fn split_artist_title(s: &str) -> (r: (String, String))
    ensures
        r.0@ == spec_split_title(s@).0,
        r.1@ == spec_split_title(s@).1,
{
    proof {
        reveal_strlit(" - ");
    }
    let n = s.unicode_len();
    match crate::text::find_first(s, " - ") {
        Some(i) => {
            let artist = String::from_str(s.substring_char(0, i));
            let title = String::from_str(s.substring_char(i + 3, n));
            proof {
                assert(s@.subrange(0, i as int) =~= s@.take(i as int));
                assert(s@.subrange(i + 3, n as int) =~= s@.skip(i + 3));
            }
            (artist, title)
        },
        None => (String::new(), String::from_str(s)),
    }
}

impl Controller {
    /// A non-empty primary stream title arrived: split it, record it in the
    /// snapshot, and hand the pair back. An empty title is no data: nothing
    /// changes, and the caller falls back to the metadata map. When the
    /// separator is absent only the title field is updated.
    pub fn on_media_title(&mut self, title: &str) -> (r: Option<(String, String)>)
        ensures
            title@.len() == 0 ==> r is None && final(self)@ == old(self)@,
            title@.len() > 0 ==> {
                &&& r matches Some(p) && p.0@ == spec_split_title(title@).0 && p.1@
                    == spec_split_title(title@).1
                &&& final(self)@ == apply_op(
                    old(self)@,
                    ControllerOp::SetMetadata(
                        Some(spec_split_title(title@).1),
                        if crate::text::spec_find(title@, " - "@, 0) is Some {
                            Some(spec_split_title(title@).0)
                        } else {
                            old(self)@.state.artist
                        },
                    ),
                )
            },
    {
        if title.unicode_len() == 0 {
            return None;
        }
        proof {
            reveal_strlit(" - ");
        }
        let has_sep = crate::text::find_first(title, " - ").is_some();
        let (artist, t) = split_artist_title(title);
        self.state.title = Some(t.clone());
        if has_sep {
            self.state.artist = Some(artist.clone());
        }
        Some((artist, t))
    }

    /// The metadata-map fallback arrived: `title` is the preferred
    /// title-like entry (an ICY-style one first, then a generic one) and
    /// `artist` the artist entry. A title with the `" - "` separator is
    /// split exactly as the primary title would be; otherwise both entries
    /// are recorded as they are, and the pair is handed back whenever either
    /// is present. Neither present is no data: `None`, never an error.
    pub fn on_metadata_map(&mut self, title: Option<String>, artist: Option<String>) -> (r: Option<
        (String, String),
    >)
        ensures
            spec_metadata_map_post(
                old(self)@,
                final(self)@,
                opt_str_view(title),
                opt_str_view(artist),
                opt_pair_view(r),
            ),
    {
        proof {
            reveal_strlit(" - ");
        }
        if let Some(t) = &title {
            if crate::text::find_first(t.as_str(), " - ").is_some() {
                let (a, tt) = split_artist_title(t.as_str());
                self.state.title = Some(tt.clone());
                self.state.artist = Some(a.clone());
                return Some((a, tt));
            }
        }
        let some_data = title.is_some() || artist.is_some();
        self.state.title = match &title {
            Some(t) => Some(t.clone()),
            None => None,
        };
        self.state.artist = match &artist {
            Some(a) => Some(a.clone()),
            None => None,
        };
        if some_data {
            let a = match artist {
                Some(a) => a,
                None => String::new(),
            };
            let t = match title {
                Some(t) => t,
                None => String::new(),
            };
            Some((a, t))
        } else {
            None
        }
    }

    /// Plans one property query: `{"command":["get_property",<prop>]}` with
    /// a fresh correlation identifier and the given deadline.
    fn property_plan(&mut self, prop: &str, timeout_ms: u64, now_ms: u64) -> (plan: CommandPlan)
        requires
            old(self).next_request_id < u64::MAX,
        ensures
            final(self)@ == apply_op(old(self)@, ControllerOp::AllocId),
            plan.message@ == spec_request(
                spec_get_property_tokens(prop@),
                old(self)@.next_request_id,
            ),
            plan.call.request_id == old(self)@.next_request_id,
            plan.call.issued_at_ms == now_ms,
            plan.call.timeout_ms == timeout_ms,
    {
        let id = self.alloc_id();
        let mut tokens: Vec<CmdToken> = Vec::new();
        tokens.push(CmdToken::Text(String::from_str("get_property")));
        tokens.push(CmdToken::Text(String::from_str(prop)));
        let message = encode_request(&tokens, id);
        proof {
            assert(crate::protocol::token_models(tokens@) =~= spec_get_property_tokens(prop@));
        }
        CommandPlan {
            message,
            call: PendingCall { request_id: id, issued_at_ms: now_ms, timeout_ms },
        }
    }

    /// Plans the primary metadata query, for the stream's media title.
    /// There is a plan exactly when a transport session is live; metadata
    /// absence is normal, so with no session there is nothing to ask.
    pub fn media_title_plan(&mut self, now_ms: u64) -> (p: Option<CommandPlan>)
        requires
            old(self).next_request_id < u64::MAX,
        ensures
            (p is Some) == old(self)@.connected,
            p matches Some(plan) ==> {
                &&& final(self)@ == apply_op(old(self)@, ControllerOp::AllocId)
                &&& plan.message@ == spec_request(
                    spec_get_property_tokens("media-title"@),
                    old(self)@.next_request_id,
                )
                &&& plan.call.request_id == old(self)@.next_request_id
                &&& plan.call.issued_at_ms == now_ms
                &&& plan.call.timeout_ms == DEFAULT_COMMAND_TIMEOUT_MS
            },
            p is None ==> final(self)@ == old(self)@,
    {
        if !self.connected {
            return None;
        }
        Some(self.property_plan("media-title", DEFAULT_COMMAND_TIMEOUT_MS, now_ms))
    }

    /// Plans the fallback metadata query, for the stream's metadata map.
    pub fn metadata_map_plan(&mut self, now_ms: u64) -> (p: Option<CommandPlan>)
        requires
            old(self).next_request_id < u64::MAX,
        ensures
            (p is Some) == old(self)@.connected,
            p matches Some(plan) ==> {
                &&& final(self)@ == apply_op(old(self)@, ControllerOp::AllocId)
                &&& plan.message@ == spec_request(
                    spec_get_property_tokens("metadata"@),
                    old(self)@.next_request_id,
                )
                &&& plan.call.request_id == old(self)@.next_request_id
                &&& plan.call.issued_at_ms == now_ms
                &&& plan.call.timeout_ms == DEFAULT_COMMAND_TIMEOUT_MS
            },
            p is None ==> final(self)@ == old(self)@,
    {
        if !self.connected {
            return None;
        }
        Some(self.property_plan("metadata", DEFAULT_COMMAND_TIMEOUT_MS, now_ms))
    }

    /// Reads the primary metadata reply: a non-empty string datum is a
    /// stream title and is split and recorded; anything else is no data.
    pub fn metadata_from_primary_line(&mut self, line: &str) -> (r: Option<(String, String)>)
        ensures
            ({
                match crate::protocol::line_data_text(line@) {
                    Some(t) => if t.len() > 0 {
                        &&& r matches Some(p) && p.0@ == spec_split_title(t).0 && p.1@
                            == spec_split_title(t).1
                        &&& final(self)@ == apply_op(
                            old(self)@,
                            ControllerOp::SetMetadata(
                                Some(spec_split_title(t).1),
                                if crate::text::spec_find(t, " - "@, 0) is Some {
                                    Some(spec_split_title(t).0)
                                } else {
                                    old(self)@.state.artist
                                },
                            ),
                        )
                    } else {
                        r is None && final(self)@ == old(self)@
                    },
                    None => r is None && final(self)@ == old(self)@,
                }
            }),
    {
        match crate::protocol::parse_line_data_text(line) {
            Some(t) => self.on_media_title(t.as_str()),
            None => None,
        }
    }

    /// The title-like entry of a metadata-map reply: an ICY-style title
    /// first, then a generic title.
    pub open spec fn spec_fallback_title(line: Seq<char>) -> Option<Seq<char>> {
        match crate::protocol::line_data_entry(line, "icy-title"@) {
            Some(t) => Some(t),
            None => crate::protocol::line_data_entry(line, "title"@),
        }
    }

    /// Reads the fallback metadata reply: prefers an ICY-style title entry,
    /// then a generic title entry, beside a separate artist entry, and
    /// records them as `on_metadata_map` says.
    pub fn metadata_from_fallback_line(&mut self, line: &str) -> (r: Option<(String, String)>)
        ensures
            spec_metadata_map_post(
                old(self)@,
                final(self)@,
                Self::spec_fallback_title(line@),
                crate::protocol::line_data_entry(line@, "artist"@),
                opt_pair_view(r),
            ),
    {
        let icy = crate::protocol::parse_line_data_entry(line, "icy-title");
        let title = match icy {
            Some(t) => Some(t),
            None => crate::protocol::parse_line_data_entry(line, "title"),
        };
        let artist = crate::protocol::parse_line_data_entry(line, "artist");
        self.on_metadata_map(title, artist)
    }
}

// ----- audio levels -----

/// The loudness probe: which property is being queried while assembling one
/// (RMS, peak) pair in centi-decibels, or the finished result. The real
/// telemetry paths are tried first; failing those, a synthetic pair derived
/// from the playback time keeps the visualizer animated.
#[derive(Debug, Clone, Copy, PartialEq, Eq)]
pub enum AudioProbe {
    /// Querying the RMS loudness property with this index.
    TryRms(u8),
    /// RMS in hand (centi-decibels); querying the matching peak property.
    TryPeak(u8, i64),
    /// No RMS property answered; querying the playback time for the
    /// synthetic fallback.
    TryTime,
    /// The probe is over, with or without a level pair (centi-decibels).
    Done(Option<(i64, i64)>),
}

/// How many RMS property paths are tried.
pub const RMS_PATH_COUNT: u8 = 2;

/// The RMS loudness property paths, in the order tried.
pub open spec fn spec_rms_property(i: int) -> Seq<char> {
    if i == 0 {
        "af-metadata/lavfi.astats.Overall.RMS_level"@
    } else {
        "af-metadata/lavfi.astats.1.RMS_level"@
    }
}

/// The peak loudness property path matching each RMS path.
pub open spec fn spec_peak_property(i: int) -> Seq<char> {
    if i == 0 {
        "af-metadata/lavfi.astats.Overall.Peak_level"@
    } else {
        "af-metadata/lavfi.astats.1.Peak_level"@
    }
}

fn rms_property(i: u8) -> (r: &'static str)
    requires
        i < RMS_PATH_COUNT,
    ensures
        r@ == spec_rms_property(i as int),
{
    if i == 0 {
        "af-metadata/lavfi.astats.Overall.RMS_level"
    } else {
        "af-metadata/lavfi.astats.1.RMS_level"
    }
}

fn peak_property(i: u8) -> (r: &'static str)
    requires
        i < RMS_PATH_COUNT,
    ensures
        r@ == spec_peak_property(i as int),
{
    if i == 0 {
        "af-metadata/lavfi.astats.Overall.Peak_level"
    } else {
        "af-metadata/lavfi.astats.1.Peak_level"
    }
}

/// The centi-decibel level a loudness reply carries: its string datum read
/// as a decimal, keeping two fractional digits.
pub open spec fn spec_reply_level(reply: Option<Seq<char>>) -> Option<int> {
    match reply {
        Some(line) => match crate::protocol::line_data_text(line) {
            Some(t) => crate::text::spec_parse_scaled(t, 2),
            None => None,
        },
        None => None,
    }
}

/// The playback time in milliseconds a reply carries: its numeric datum
/// read as a decimal, keeping three fractional digits; a negative time is
/// no time.
pub open spec fn spec_reply_time_ms(reply: Option<Seq<char>>) -> Option<int> {
    match reply {
        Some(line) => match crate::protocol::line_data_number_text(line) {
            Some(t) => match crate::text::spec_parse_scaled(t, 3) {
                Some(v) => if v >= 0 {
                    Some(v)
                } else {
                    None
                },
                None => None,
            },
            None => None,
        },
        None => None,
    }
}

/// A peak estimated from RMS where no peak property answers: 3 dB above,
/// saturating at the machine bound.
pub open spec fn spec_peak_fallback(rms: i64) -> i64 {
    if rms > i64::MAX - 300 {
        i64::MAX
    } else {
        (rms + 300) as i64
    }
}

/// The synthetic RMS level for a playback time: a deterministic blend of
/// two triangle waves, always within -18.00 to -3.00 dB.
pub open spec fn spec_synthetic_rms(time_ms: int) -> int {
    let t1 = time_ms % 4000;
    let tri1 = if t1 < 2000 {
        t1
    } else {
        4000 - t1
    };
    let t2 = time_ms % 900;
    let tri2 = if t2 < 450 {
        t2
    } else {
        900 - t2
    };
    -1700 + tri1 / 2 + tri2 / 3
}

/// The synthetic peak level for a playback time: a little above the
/// synthetic RMS, always within -15.00 to 0.00 dB.
pub open spec fn spec_synthetic_peak(time_ms: int) -> int {
    let t2 = time_ms % 900;
    let tri2 = if t2 < 450 {
        t2
    } else {
        900 - t2
    };
    spec_synthetic_rms(time_ms) + 200 + tri2 / 3
}

/// The synthetic levels are deterministic in the playback time and always
/// lie within the clamped bands: RMS in -18.00 to -3.00 dB, peak in -15.00
/// to 0.00 dB.
pub proof fn lemma_synthetic_levels_in_bands(time_ms: int)
    requires
        time_ms >= 0,
    ensures
        -1800 <= spec_synthetic_rms(time_ms) <= -300,
        -1500 <= spec_synthetic_peak(time_ms) <= 0,
{
}

/// Derives a synthetic (RMS, peak) centi-decibel pair from the playback
/// time, to keep the visualizer animated when the player exposes no real
/// telemetry. Deterministic, and always within the clamped loudness bands.
pub fn synthetic_levels(time_ms: u64) -> (r: (i64, i64))
    ensures
        r.0 == spec_synthetic_rms(time_ms as int),
        r.1 == spec_synthetic_peak(time_ms as int),
        -1800 <= r.0 <= -300,
        -1500 <= r.1 <= 0,
{
    let t1 = time_ms % 4000;
    let tri1: i64 = if t1 < 2000 {
        t1 as i64
    } else {
        4000 - t1 as i64
    };
    let t2 = time_ms % 900;
    let tri2: i64 = if t2 < 450 {
        t2 as i64
    } else {
        900 - t2 as i64
    };
    let rms: i64 = -1700 + tri1 / 2 + tri2 / 3;
    let peak: i64 = rms + 200 + tri2 / 3;
    (rms, peak)
}

/// What one reply does to the probe: a parsed level advances it, a missing
/// one falls through the remaining paths to the synthetic fallback.
pub open spec fn spec_probe_feed(probe: AudioProbe, reply: Option<Seq<char>>) -> AudioProbe {
    match probe {
        AudioProbe::TryRms(i) => match spec_reply_level(reply) {
            Some(v) => AudioProbe::TryPeak(i, v as i64),
            None => if i + 1 < RMS_PATH_COUNT {
                AudioProbe::TryRms((i + 1) as u8)
            } else {
                AudioProbe::TryTime
            },
        },
        AudioProbe::TryPeak(i, rms) => match spec_reply_level(reply) {
            Some(v) => AudioProbe::Done(Some((rms, v as i64))),
            None => AudioProbe::Done(Some((rms, spec_peak_fallback(rms)))),
        },
        AudioProbe::TryTime => match spec_reply_time_ms(reply) {
            Some(t) => AudioProbe::Done(
                Some((spec_synthetic_rms(t) as i64, spec_synthetic_peak(t) as i64)),
            ),
            None => AudioProbe::Done(None),
        },
        AudioProbe::Done(x) => AudioProbe::Done(x),
    }
}

/// Reads one reply (or its absence) into the probe. `reply` is the
/// completing reply line of the probe's current query, or `None` where that
/// call failed or timed out: steady-state polling failures are absorbed,
/// never surfaced.
pub fn audio_probe_feed(probe: &AudioProbe, reply: Option<&str>) -> (next: AudioProbe)
    ensures
        next == spec_probe_feed(
            *probe,
            match reply {
                Some(l) => Some(l@),
                None => None::<Seq<char>>,
            },
        ),
{
    let level: Option<i64> = match reply {
        Some(line) => match crate::protocol::parse_line_data_text(line) {
            Some(t) => crate::text::parse_scaled(t.as_str(), 2),
            None => None,
        },
        None => None,
    };
    match probe {
        AudioProbe::TryRms(i) => match level {
            Some(v) => AudioProbe::TryPeak(*i, v),
            None => {
                if *i < RMS_PATH_COUNT - 1 {
                    AudioProbe::TryRms(*i + 1)
                } else {
                    AudioProbe::TryTime
                }
            },
        },
        AudioProbe::TryPeak(i, rms) => match level {
            Some(v) => AudioProbe::Done(Some((*rms, v))),
            None => {
                let peak = if *rms > i64::MAX - 300 {
                    i64::MAX
                } else {
                    *rms + 300
                };
                AudioProbe::Done(Some((*rms, peak)))
            },
        },
        AudioProbe::TryTime => {
            let time: Option<i64> = match reply {
                Some(line) => match crate::protocol::parse_line_data_number_text(line) {
                    Some(t) => crate::text::parse_scaled(t.as_str(), 3),
                    None => None,
                },
                None => None,
            };
            match time {
                Some(t) => {
                    if t >= 0 {
                        let (rms, peak) = synthetic_levels(t as u64);
                        AudioProbe::Done(Some((rms, peak)))
                    } else {
                        AudioProbe::Done(None)
                    }
                },
                None => AudioProbe::Done(None),
            }
        },
        AudioProbe::Done(x) => AudioProbe::Done(*x),
    }
}

impl Controller {
    /// Whether an audio-level poll has anything to ask: a live session,
    /// playing, not paused. Otherwise there are no levels, immediately.
    pub fn audio_stats_gate(&self) -> (r: bool)
        ensures
            r == (self@.connected && self@.state.playing && !self@.state.paused),
    {
        self.connected && self.state.playing && !self.state.paused
    }

    /// Starts one audio-level probe: nothing to ask unless sound is coming out.
    pub fn audio_probe_start(&self) -> (p: AudioProbe)
        ensures
            p == if self@.connected && self@.state.playing && !self@.state.paused {
                AudioProbe::TryRms(0)
            } else {
                AudioProbe::Done(None)
            },
    {
        if self.audio_stats_gate() {
            AudioProbe::TryRms(0)
        } else {
            AudioProbe::Done(None)
        }
    }

    /// Plans the query the probe is at, under the short polling deadline so
    /// a stalled poll cannot block the render loop. A finished probe plans
    /// nothing.
    pub fn audio_probe_plan(&mut self, probe: &AudioProbe, now_ms: u64) -> (p: Option<CommandPlan>)
        requires
            old(self).next_request_id < u64::MAX,
            probe matches AudioProbe::TryRms(i) ==> i < RMS_PATH_COUNT,
            probe matches AudioProbe::TryPeak(i, _) ==> i < RMS_PATH_COUNT,
        ensures
            (p is Some) == !(probe is Done),
            p matches Some(plan) ==> {
                &&& final(self)@ == apply_op(old(self)@, ControllerOp::AllocId)
                &&& plan.message@ == spec_request(
                    spec_get_property_tokens(
                        match *probe {
                            AudioProbe::TryRms(i) => spec_rms_property(i as int),
                            AudioProbe::TryPeak(i, _) => spec_peak_property(i as int),
                            _ => "playback-time"@,
                        },
                    ),
                    old(self)@.next_request_id,
                )
                &&& plan.call.request_id == old(self)@.next_request_id
                &&& plan.call.issued_at_ms == now_ms
                &&& plan.call.timeout_ms == POLL_COMMAND_TIMEOUT_MS
            },
            p is None ==> final(self)@ == old(self)@,
    {
        match probe {
            AudioProbe::TryRms(i) => Some(
                self.property_plan(rms_property(*i), POLL_COMMAND_TIMEOUT_MS, now_ms),
            ),
            AudioProbe::TryPeak(i, _) => Some(
                self.property_plan(peak_property(*i), POLL_COMMAND_TIMEOUT_MS, now_ms),
            ),
            AudioProbe::TryTime => Some(
                self.property_plan("playback-time", POLL_COMMAND_TIMEOUT_MS, now_ms),
            ),
            AudioProbe::Done(_) => None,
        }
    }
}

} // verus!
