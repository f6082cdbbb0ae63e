//! The request/response correlation protocol spoken to the controlled media
//! player: commands are encoded as one tagged JSON object per line, each
//! carrying a correlation identifier, and the reply stream is read line by
//! line, skipping unsolicited event messages, until the response with the
//! matching identifier arrives, the transport closes, or the call's deadline
//! passes.

use vstd::prelude::*;
use crate::text::{spec_dec, dec_chars};

verus! {

/// Default deadline for ordinary commands.
pub const DEFAULT_COMMAND_TIMEOUT_MS: u64 = 2000;

/// Short deadline for latency-sensitive polling commands, so a stalled poll
/// cannot block the render loop.
pub const POLL_COMMAND_TIMEOUT_MS: u64 = 200;

/// One element of a command: a string or an integer.
pub enum CmdToken {
    Text(String),
    Int(u64),
}

/// The mathematical image of a `CmdToken`.
pub enum CmdTokenModel {
    Text(Seq<char>),
    Int(u64),
}

impl View for CmdToken {
    type V = CmdTokenModel;

    open spec fn view(&self) -> CmdTokenModel {
        match self {
            CmdToken::Text(s) => CmdTokenModel::Text(s@),
            CmdToken::Int(n) => CmdTokenModel::Int(*n),
        }
    }
}

/// The models of a token sequence.
pub open spec fn token_models(ts: Seq<CmdToken>) -> Seq<CmdTokenModel> {
    ts.map_values(|t: CmdToken| t@)
}

/// The character for a single hexadecimal digit.
pub open spec fn spec_hex_char(d: int) -> char {
    if d < 10 {
        crate::text::spec_digit_char(d)
    } else if d == 10 {
        'a'
    } else if d == 11 {
        'b'
    } else if d == 12 {
        'c'
    } else if d == 13 {
        'd'
    } else if d == 14 {
        'e'
    } else {
        'f'
    }
}

/// The JSON escape of one character inside a string literal.
pub open spec fn spec_escape_char(c: char) -> Seq<char> {
    if c == '"' {
        seq!['\\', '"']
    } else if c == '\\' {
        seq!['\\', '\\']
    } else if c == '\n' {
        seq!['\\', 'n']
    } else if c == '\r' {
        seq!['\\', 'r']
    } else if c == '\t' {
        seq!['\\', 't']
    } else if (c as int) < 0x20 {
        seq!['\\', 'u', '0', '0', spec_hex_char(c as int / 16), spec_hex_char(c as int % 16)]
    } else {
        seq![c]
    }
}

/// The JSON escape of a whole character sequence.
pub open spec fn spec_escape(s: Seq<char>) -> Seq<char>
    decreases s.len(),
{
    if s.len() == 0 {
        Seq::empty()
    } else {
        spec_escape(s.drop_last()) + spec_escape_char(s.last())
    }
}

/// A JSON string literal: the escaped characters between double quotes.
pub open spec fn spec_json_string(s: Seq<char>) -> Seq<char> {
    seq!['"'] + spec_escape(s) + seq!['"']
}

/// The JSON rendering of one command token.
pub open spec fn spec_token_json(t: CmdTokenModel) -> Seq<char> {
    match t {
        CmdTokenModel::Text(s) => spec_json_string(s),
        CmdTokenModel::Int(n) => spec_dec(n as nat),
    }
}

/// The comma-separated JSON rendering of a token sequence.
pub open spec fn spec_tokens_json(ts: Seq<CmdTokenModel>) -> Seq<char>
    decreases ts.len(),
{
    if ts.len() == 0 {
        Seq::empty()
    } else if ts.len() == 1 {
        spec_token_json(ts[0])
    } else {
        spec_tokens_json(ts.drop_last()) + seq![','] + spec_token_json(ts.last())
    }
}

/// The full wire form of one request: a tagged JSON object carrying the
/// command tokens and the correlation identifier, terminated by a newline.
pub open spec fn spec_request(ts: Seq<CmdTokenModel>, request_id: u64) -> Seq<char> {
    "{\"command\":["@ + spec_tokens_json(ts) + "],\"request_id\":"@ + spec_dec(request_id as nat)
        + "}\n"@
}

fn hex_char(d: u32) -> (c: char)
    requires
        d < 16,
    ensures
        c == spec_hex_char(d as int),
{
    match d {
        0 => '0',
        1 => '1',
        2 => '2',
        3 => '3',
        4 => '4',
        5 => '5',
        6 => '6',
        7 => '7',
        8 => '8',
        9 => '9',
        10 => 'a',
        11 => 'b',
        12 => 'c',
        13 => 'd',
        14 => 'e',
        _ => 'f',
    }
}

/// Appends the characters of `s` to `v`.
fn append_str_chars(v: &mut Vec<char>, s: &str)
    ensures
        final(v)@ == old(v)@ + s@,
{
    let n = s.unicode_len();
    let mut i: usize = 0;
    while i < n
        invariant
            n == s@.len(),
            i <= n,
            v@ == old(v)@ + s@.take(i as int),
        decreases n - i,
    {
        let c = s.get_char(i);
        v.push(c);
        proof {
            assert(old(v)@ + s@.take(i + 1) =~= (old(v)@ + s@.take(i as int)).push(s@[i as int]));
        }
        i += 1;
    }
    proof {
        assert(s@.take(n as int) =~= s@);
    }
}

/// Appends the JSON escape of `c` to `v`.
fn append_escaped_char(v: &mut Vec<char>, c: char)
    ensures
        final(v)@ == old(v)@ + spec_escape_char(c),
{
    if c == '"' {
        v.push('\\');
        v.push('"');
    } else if c == '\\' {
        v.push('\\');
        v.push('\\');
    } else if c == '\n' {
        v.push('\\');
        v.push('n');
    } else if c == '\r' {
        v.push('\\');
        v.push('r');
    } else if c == '\t' {
        v.push('\\');
        v.push('t');
    } else if (c as u32) < 0x20 {
        let code = c as u32;
        v.push('\\');
        v.push('u');
        v.push('0');
        v.push('0');
        v.push(hex_char(code / 16));
        v.push(hex_char(code % 16));
    } else {
        v.push(c);
    }
    proof {
        assert(v@ =~= old(v)@ + spec_escape_char(c));
    }
}

/// Appends the JSON string literal for `s` to `v`.
fn append_json_string(v: &mut Vec<char>, s: &str)
    ensures
        final(v)@ == old(v)@ + spec_json_string(s@),
{
    v.push('"');
    let n = s.unicode_len();
    let mut i: usize = 0;
    while i < n
        invariant
            n == s@.len(),
            i <= n,
            v@ == old(v)@ + seq!['"'] + spec_escape(s@.take(i as int)),
        decreases n - i,
    {
        let c = s.get_char(i);
        append_escaped_char(v, c);
        proof {
            assert(s@.take(i + 1).drop_last() =~= s@.take(i as int));
            assert(s@.take(i + 1).last() == s@[i as int]);
        }
        i += 1;
    }
    v.push('"');
    proof {
        assert(s@.take(n as int) =~= s@);
        assert(v@ =~= old(v)@ + spec_json_string(s@));
    }
}

/// Appends the JSON rendering of one token to `v`.
fn append_token(v: &mut Vec<char>, t: &CmdToken)
    ensures
        final(v)@ == old(v)@ + spec_token_json(t@),
{
    match t {
        CmdToken::Text(s) => {
            append_json_string(v, s.as_str());
        },
        CmdToken::Int(n) => {
            let mut d = dec_chars(*n);
            let mut k: usize = 0;
            let dn = d.len();
            while k < dn
                invariant
                    dn == d@.len(),
                    k <= dn,
                    v@ == old(v)@ + d@.take(k as int),
                decreases dn - k,
            {
                let c = d[k];
                v.push(c);
                proof {
                    assert(old(v)@ + d@.take(k + 1) =~= (old(v)@ + d@.take(k as int)).push(
                        d@[k as int],
                    ));
                }
                k += 1;
            }
            proof {
                assert(d@.take(dn as int) =~= d@);
            }
        },
    }
}

/// Encodes one request as its single-line wire form.
///
/// Every call against one controller carries a fresh, strictly increasing
/// `request_id`, so the reply with the same identifier can be correlated.
pub fn encode_request(tokens: &Vec<CmdToken>, request_id: u64) -> (r: String)
    ensures
        r@ == spec_request(token_models(tokens@), request_id),
{
    let mut v: Vec<char> = Vec::new();
    append_str_chars(&mut v, "{\"command\":[");
    let n = tokens.len();
    let mut i: usize = 0;
    while i < n
        invariant
            n == tokens@.len(),
            i <= n,
            v@ == "{\"command\":["@ + spec_tokens_json(token_models(tokens@).take(i as int)),
        decreases n - i,
    {
        if i > 0 {
            v.push(',');
        }
        append_token(&mut v, &tokens[i]);
        proof {
            let ms = token_models(tokens@);
            assert(ms.take(i + 1).drop_last() =~= ms.take(i as int));
            assert(ms.take(i + 1).last() == ms[i as int]);
            assert(ms[i as int] == tokens@[i as int]@);
            if i > 0 {
                assert(v@ =~= "{\"command\":["@ + spec_tokens_json(ms.take(i + 1)));
            } else {
                assert(v@ =~= "{\"command\":["@ + spec_tokens_json(ms.take(1)));
            }
        }
        i += 1;
    }
    append_str_chars(&mut v, "],\"request_id\":");
    let mut d = dec_chars(request_id);
    let dn = d.len();
    let mut k: usize = 0;
    while k < dn
        invariant
            dn == d@.len(),
            k <= dn,
            v@ == "{\"command\":["@ + spec_tokens_json(token_models(tokens@).take(n as int))
                + "],\"request_id\":"@ + d@.take(k as int),
            d@ == spec_dec(request_id as nat),
            n == tokens@.len(),
        decreases dn - k,
    {
        let c = d[k];
        v.push(c);
        proof {
            assert(v@ =~= "{\"command\":["@ + spec_tokens_json(token_models(tokens@).take(
                n as int,
            )) + "],\"request_id\":"@ + d@.take(k + 1));
        }
        k += 1;
    }
    append_str_chars(&mut v, "}\n");
    proof {
        assert(token_models(tokens@).take(n as int) =~= token_models(tokens@));
        assert(d@.take(dn as int) =~= d@);
        assert(v@ =~= spec_request(token_models(tokens@), request_id));
    }
    crate::text::chars_to_string(&v)
}

// ----- reply classification -----

/// Header fields of one reply line: whether it is an unsolicited event
/// notification, which call it answers, and its error status.
pub struct LineHeader {
    pub is_event: bool,
    pub request_id: u64,
    pub error: String,
}

/// The mathematical image of a `LineHeader`.
pub struct LineHeaderModel {
    pub is_event: bool,
    pub request_id: u64,
    pub error: Seq<char>,
}

impl View for LineHeader {
    type V = LineHeaderModel;

    open spec fn view(&self) -> LineHeaderModel {
        LineHeaderModel {
            is_event: self.is_event,
            request_id: self.request_id,
            error: self.error@,
        }
    }
}

/// The header fields that one line of reply text carries, or `None` where the
/// line is not a JSON object. A function of the line's text alone; what it is
/// on given text is known only to the JSON parser.
pub uninterp spec fn line_header(s: Seq<char>) -> Option<LineHeaderModel>;

/// Relies on `serde_json::from_str::<serde_json::Value>` and on
/// `serde_json::Value::{as_object, as_u64, as_str}` and
/// `serde_json::Map::get`: a reply line parses into a JSON object or does
/// not, and the object's `event` presence, `request_id` and `error` fields
/// (absent fields defaulting to 0 and the empty string) depend on the line's
/// text alone.
#[verifier::external_body]
fn parse_line_header(line: &str) -> (r: Option<LineHeader>)
    ensures
        (r is Some) == (line_header(line@) is Some),
        r matches Some(h) ==> line_header(line@) matches Some(m) && h.is_event == m.is_event
            && h.request_id == m.request_id && h.error@ == m.error,
{
    let v: serde_json::Value = match serde_json::from_str(line) {
        Ok(v) => v,
        Err(_) => return None,
    };
    let obj = v.as_object()?;
    Some(LineHeader {
        is_event: obj.get("event").is_some(),
        request_id: obj.get("request_id").and_then(|x| x.as_u64()).unwrap_or(0),
        error: obj.get("error").and_then(|x| x.as_str()).unwrap_or("").to_string(),
    })
}

/// The `data` field of a reply line, where that field is a JSON string.
/// A function of the line's text alone.
pub uninterp spec fn line_data_text(s: Seq<char>) -> Option<Seq<char>>;

/// Relies on `serde_json::from_str::<serde_json::Value>` and on
/// `serde_json::Value::{get, as_str}`: the `data` field of the parsed line,
/// when that field is a JSON string; a function of the line's text alone.
#[verifier::external_body]
pub fn parse_line_data_text(line: &str) -> (r: Option<String>)
    ensures
        (r is Some) == (line_data_text(line@) is Some),
        r matches Some(s) ==> line_data_text(line@) matches Some(m) && s@ == m,
{
    let v: serde_json::Value = match serde_json::from_str(line) {
        Ok(v) => v,
        Err(_) => return None,
    };
    Some(v.get("data")?.as_str()?.to_string())
}

/// The decimal text of the `data` field of a reply line, where that field is
/// a JSON number. A function of the line's text alone.
pub uninterp spec fn line_data_number_text(s: Seq<char>) -> Option<Seq<char>>;

/// Relies on `serde_json::from_str::<serde_json::Value>`,
/// `serde_json::Value::{get, is_number}` and the `Display` form of a JSON
/// value: the text rendering of the `data` field when that field is a JSON
/// number; a function of the line's text alone.
#[verifier::external_body]
pub fn parse_line_data_number_text(line: &str) -> (r: Option<String>)
    ensures
        (r is Some) == (line_data_number_text(line@) is Some),
        r matches Some(s) ==> line_data_number_text(line@) matches Some(m) && s@ == m,
{
    let v: serde_json::Value = match serde_json::from_str(line) {
        Ok(v) => v,
        Err(_) => return None,
    };
    let d = v.get("data")?;
    if d.is_number() {
        Some(d.to_string())
    } else {
        None
    }
}

/// The string value at `key` inside the `data` object of a reply line.
/// A function of the line's text and the key alone.
pub uninterp spec fn line_data_entry(s: Seq<char>, key: Seq<char>) -> Option<Seq<char>>;

/// Relies on `serde_json::from_str::<serde_json::Value>` and on
/// `serde_json::Value::{get, as_str}`: the string value at `key` inside the
/// `data` object of the parsed line; a function of the line and key alone.
#[verifier::external_body]
pub fn parse_line_data_entry(line: &str, key: &str) -> (r: Option<String>)
    ensures
        (r is Some) == (line_data_entry(line@, key@) is Some),
        r matches Some(s) ==> line_data_entry(line@, key@) matches Some(m) && s@ == m,
{
    let v: serde_json::Value = match serde_json::from_str(line) {
        Ok(v) => v,
        Err(_) => return None,
    };
    Some(v.get("data")?.get(key)?.as_str()?.to_string())
}

/// What one reply line means for a pending call.
pub enum LineVerdict {
    /// An event notification, an unparseable line, or a reply to some other
    /// call: discarded, the read loop continues.
    Skip,
    /// The matching reply, carrying an error status other than success.
    Reject(String),
    /// The matching, successful reply.
    Accept,
}

/// The mathematical image of a `LineVerdict`.
pub enum LineVerdictModel {
    Skip,
    Reject(Seq<char>),
    Accept,
}

impl View for LineVerdict {
    type V = LineVerdictModel;

    open spec fn view(&self) -> LineVerdictModel {
        match self {
            LineVerdict::Skip => LineVerdictModel::Skip,
            LineVerdict::Reject(e) => LineVerdictModel::Reject(e@),
            LineVerdict::Accept => LineVerdictModel::Accept,
        }
    }
}

/// How a reply line with header `h` is treated by the call expecting
/// `expected_id`: events, unparseable lines and replies to other calls are
/// skipped; the matching reply completes the call, successfully exactly when
/// its error status is empty or the success sentinel.
pub open spec fn spec_verdict(h: Option<LineHeaderModel>, expected_id: u64) -> LineVerdictModel {
    match h {
        None => LineVerdictModel::Skip,
        Some(m) => if m.is_event {
            LineVerdictModel::Skip
        } else if m.request_id != expected_id {
            LineVerdictModel::Skip
        } else if m.error.len() > 0 && m.error != "success"@ {
            LineVerdictModel::Reject(m.error)
        } else {
            LineVerdictModel::Accept
        },
    }
}

/// Classifies one reply line against the call expecting `expected_id`.
///
/// A reply whose correlation identifier does not match the pending call is
/// discarded (`Skip`) and never completes that call.
pub fn classify_line(line: &str, expected_id: u64) -> (v: LineVerdict)
    ensures
        v@ == spec_verdict(line_header(line@), expected_id),
{
    match parse_line_header(line) {
        None => LineVerdict::Skip,
        Some(h) => {
            if h.is_event {
                LineVerdict::Skip
            } else if h.request_id != expected_id {
                LineVerdict::Skip
            } else {
                let is_empty = h.error.as_str().unicode_len() == 0;
                if !is_empty && !crate::text::str_eq(h.error.as_str(), "success") {
                    LineVerdict::Reject(h.error)
                } else {
                    LineVerdict::Accept
                }
            }
        },
    }
}

// ----- pending calls and their deadlines -----

/// One in-flight call: its correlation identifier and its deadline.
#[derive(Clone, Copy)]
pub struct PendingCall {
    pub request_id: u64,
    pub issued_at_ms: u64,
    pub timeout_ms: u64,
}

impl PendingCall {
    /// The instant at which the call expires.
    pub open spec fn deadline_ms(self) -> int {
        self.issued_at_ms + self.timeout_ms
    }

    /// Whether the call has expired at instant `at_ms`.
    pub open spec fn spec_expired(self, at_ms: u64) -> bool {
        at_ms >= self.deadline_ms()
    }

    /// Whether the call has expired at instant `at_ms`.
    pub fn expired(&self, at_ms: u64) -> (r: bool)
        ensures
            r == self.spec_expired(at_ms),
    {
        at_ms >= self.issued_at_ms && at_ms - self.issued_at_ms >= self.timeout_ms
    }
}

/// One planned command: the encoded wire message and the pending call that
/// awaits its reply.
pub struct CommandPlan {
    pub message: String,
    pub call: PendingCall,
}

/// A failure of one call or one session, after the error taxonomy of the
/// protocol: startup, connection, transport, deadline and command errors are
/// told apart.
pub enum CallError {
    /// No transport is open.
    NotConnected,
    /// The endpoint never appeared while starting the player process.
    ProcessStartupTimeout,
    /// Opening the transport failed.
    TransportConnectFailure(String),
    /// The peer hung up mid-call.
    TransportClosed,
    /// No matching reply arrived within the configured duration.
    CommandTimeout,
    /// The matching reply carried an error status.
    CommandRejected(String),
}

/// The mathematical image of a `CallError`.
pub enum CallErrorModel {
    NotConnected,
    ProcessStartupTimeout,
    TransportConnectFailure(Seq<char>),
    TransportClosed,
    CommandTimeout,
    CommandRejected(Seq<char>),
}

impl View for CallError {
    type V = CallErrorModel;

    open spec fn view(&self) -> CallErrorModel {
        match self {
            CallError::NotConnected => CallErrorModel::NotConnected,
            CallError::ProcessStartupTimeout => CallErrorModel::ProcessStartupTimeout,
            CallError::TransportConnectFailure(e) => CallErrorModel::TransportConnectFailure(e@),
            CallError::TransportClosed => CallErrorModel::TransportClosed,
            CallError::CommandTimeout => CallErrorModel::CommandTimeout,
            CallError::CommandRejected(e) => CallErrorModel::CommandRejected(e@),
        }
    }
}

/// One observation made by the reader while a call is pending: a reply line,
/// the end of the stream, or a clock tick with nothing read yet.
pub enum CallEvent {
    Line { at_ms: u64, text: String },
    Closed { at_ms: u64 },
    Tick { at_ms: u64 },
}

/// The mathematical image of a `CallEvent`.
pub enum CallEventModel {
    Line { at_ms: u64, text: Seq<char> },
    Closed { at_ms: u64 },
    Tick { at_ms: u64 },
}

impl View for CallEvent {
    type V = CallEventModel;

    open spec fn view(&self) -> CallEventModel {
        match self {
            CallEvent::Line { at_ms, text } => CallEventModel::Line {
                at_ms: *at_ms,
                text: text@,
            },
            CallEvent::Closed { at_ms } => CallEventModel::Closed { at_ms: *at_ms },
            CallEvent::Tick { at_ms } => CallEventModel::Tick { at_ms: *at_ms },
        }
    }
}

/// What one observation does to a pending call.
pub enum CallStep {
    /// Keep reading.
    Continue,
    /// The matching, successful reply arrived.
    Complete,
    /// The call is over, unsuccessfully.
    Fail(CallError),
}

/// The mathematical image of a `CallStep`.
pub enum CallStepModel {
    Continue,
    Complete,
    Fail(CallErrorModel),
}

impl View for CallStep {
    type V = CallStepModel;

    open spec fn view(&self) -> CallStepModel {
        match self {
            CallStep::Continue => CallStepModel::Continue,
            CallStep::Complete => CallStepModel::Complete,
            CallStep::Fail(e) => CallStepModel::Fail(e@),
        }
    }
}

/// The effect of one observation on the call `p`: any observation at or past
/// the deadline expires the call; a closed stream fails it; a reply line
/// before the deadline is classified, and only the matching reply completes
/// or rejects the call, every other line is skipped.
pub open spec fn spec_call_step(p: PendingCall, ev: CallEventModel) -> CallStepModel {
    match ev {
        CallEventModel::Tick { at_ms } => if p.spec_expired(at_ms) {
            CallStepModel::Fail(CallErrorModel::CommandTimeout)
        } else {
            CallStepModel::Continue
        },
        CallEventModel::Closed { at_ms: _ } => CallStepModel::Fail(CallErrorModel::TransportClosed),
        CallEventModel::Line { at_ms, text } => if p.spec_expired(at_ms) {
            CallStepModel::Fail(CallErrorModel::CommandTimeout)
        } else {
            match spec_verdict(line_header(text), p.request_id) {
                LineVerdictModel::Skip => CallStepModel::Continue,
                LineVerdictModel::Reject(e) => CallStepModel::Fail(
                    CallErrorModel::CommandRejected(e),
                ),
                LineVerdictModel::Accept => CallStepModel::Complete,
            }
        },
    }
}

/// Applies one observation to the pending call `p`.
pub fn call_step(p: &PendingCall, ev: &CallEvent) -> (r: CallStep)
    ensures
        r@ == spec_call_step(*p, ev@),
{
    match ev {
        CallEvent::Tick { at_ms } => {
            if p.expired(*at_ms) {
                CallStep::Fail(CallError::CommandTimeout)
            } else {
                CallStep::Continue
            }
        },
        CallEvent::Closed { at_ms: _ } => CallStep::Fail(CallError::TransportClosed),
        CallEvent::Line { at_ms, text } => {
            if p.expired(*at_ms) {
                CallStep::Fail(CallError::CommandTimeout)
            } else {
                match classify_line(text.as_str(), p.request_id) {
                    LineVerdict::Skip => CallStep::Continue,
                    LineVerdict::Reject(e) => CallStep::Fail(CallError::CommandRejected(e)),
                    LineVerdict::Accept => CallStep::Complete,
                }
            }
        },
    }
}

// ----- resolving a call against a whole observation sequence -----

/// How a pending call ends against a sequence of observations.
pub enum ResolveOutcome {
    /// The observation at this index completed the call.
    Completed(usize),
    /// The observation at this index ended the call with this error.
    Failed(usize, CallError),
    /// Every observation so far was skipped and the deadline has not passed.
    StillWaiting,
}

/// The mathematical image of a `ResolveOutcome`.
pub enum ResolveModel {
    Completed(int),
    Failed(int, CallErrorModel),
    StillWaiting,
}

impl View for ResolveOutcome {
    type V = ResolveModel;

    open spec fn view(&self) -> ResolveModel {
        match self {
            ResolveOutcome::Completed(i) => ResolveModel::Completed(*i as int),
            ResolveOutcome::Failed(i, e) => ResolveModel::Failed(*i as int, e@),
            ResolveOutcome::StillWaiting => ResolveModel::StillWaiting,
        }
    }
}

/// The models of a sequence of observations.
pub open spec fn event_models(evs: Seq<CallEvent>) -> Seq<CallEventModel> {
    evs.map_values(|e: CallEvent| e@)
}

/// Resolution of the call `p` against the observations from index `i` on:
/// the first observation that is not skipped decides the call.
pub open spec fn spec_resolve_from(p: PendingCall, evs: Seq<CallEventModel>, i: int) -> ResolveModel
    decreases evs.len() - i,
{
    if i < 0 || i >= evs.len() {
        ResolveModel::StillWaiting
    } else {
        match spec_call_step(p, evs[i]) {
            CallStepModel::Continue => spec_resolve_from(p, evs, i + 1),
            CallStepModel::Complete => ResolveModel::Completed(i),
            CallStepModel::Fail(e) => ResolveModel::Failed(i, e),
        }
    }
}

/// Resolution of the call `p` against a whole observation sequence.
pub open spec fn spec_resolve(p: PendingCall, evs: Seq<CallEventModel>) -> ResolveModel {
    spec_resolve_from(p, evs, 0)
}

/// Resolves the call `p` against the observations in order: the first one
/// that is not skipped decides the call.
pub fn resolve_call(p: &PendingCall, events: &Vec<CallEvent>) -> (r: ResolveOutcome)
    ensures
        r@ == spec_resolve(*p, event_models(events@)),
{
    let n = events.len();
    let mut i: usize = 0;
    while i < n
        invariant
            n == events@.len(),
            i <= n,
            spec_resolve(*p, event_models(events@)) == spec_resolve_from(
                *p,
                event_models(events@),
                i as int,
            ),
        decreases n - i,
    {
        match call_step(p, &events[i]) {
            CallStep::Continue => {
                i += 1;
            },
            CallStep::Complete => {
                return ResolveOutcome::Completed(i);
            },
            CallStep::Fail(e) => {
                return ResolveOutcome::Failed(i, e);
            },
        }
    }
    ResolveOutcome::StillWaiting
}

/// Only the matching reply completes a call: whatever the observations, if
/// the call resolves as completed at index `i`, the observation there is a
/// reply line that parses, is not an event notification, and carries exactly
/// the pending correlation identifier. Stale replies and events are
/// discarded and never complete the call.
pub proof fn lemma_only_matching_completes(p: PendingCall, evs: Seq<CallEventModel>)
    ensures
        spec_resolve(p, evs) matches ResolveModel::Completed(i) ==> {
            &&& 0 <= i < evs.len()
            &&& evs[i] matches CallEventModel::Line { at_ms, text }
            &&& line_header(evs[i]->Line_text) matches Some(m) && !m.is_event && m.request_id
                == p.request_id
        },
{
    lemma_only_matching_completes_from(p, evs, 0);
}

proof fn lemma_only_matching_completes_from(p: PendingCall, evs: Seq<CallEventModel>, i: int)
    ensures
        spec_resolve_from(p, evs, i) matches ResolveModel::Completed(k) ==> {
            &&& 0 <= k < evs.len()
            &&& evs[k] matches CallEventModel::Line { at_ms, text }
            &&& line_header(evs[k]->Line_text) matches Some(m) && !m.is_event && m.request_id
                == p.request_id
        },
    decreases evs.len() - i,
{
    if 0 <= i < evs.len() {
        match spec_call_step(p, evs[i]) {
            CallStepModel::Continue => {
                lemma_only_matching_completes_from(p, evs, i + 1);
            },
            _ => {},
        }
    }
}

/// Timeout fires: against a transport that never responds — every
/// observation is a bare clock tick — the call fails with `CommandTimeout`
/// as soon as any tick lies at or past the deadline.
pub proof fn lemma_timeout_fires(p: PendingCall, evs: Seq<CallEventModel>, k: int)
    requires
        forall|j: int| 0 <= j < evs.len() ==> evs[j] is Tick,
        0 <= k < evs.len(),
        p.spec_expired(evs[k]->Tick_at_ms),
    ensures
        spec_resolve(p, evs) matches ResolveModel::Failed(i, e) && e
            == CallErrorModel::CommandTimeout,
{
    lemma_timeout_fires_from(p, evs, 0, k);
}

proof fn lemma_timeout_fires_from(p: PendingCall, evs: Seq<CallEventModel>, i: int, k: int)
    requires
        forall|j: int| 0 <= j < evs.len() ==> evs[j] is Tick,
        0 <= i <= k < evs.len(),
        p.spec_expired(evs[k]->Tick_at_ms),
    ensures
        spec_resolve_from(p, evs, i) matches ResolveModel::Failed(n, e) && e
            == CallErrorModel::CommandTimeout,
    decreases k - i,
{
    let ev = evs[i];
    if p.spec_expired(ev->Tick_at_ms) {
    } else {
        lemma_timeout_fires_from(p, evs, i + 1, k);
    }
}

/// No unbounded wait: once an observation at or past the deadline has been
/// made, the call is decided — completed, rejected, closed or expired — and
/// never still waiting.
pub proof fn lemma_no_unbounded_wait(p: PendingCall, evs: Seq<CallEventModel>, k: int)
    requires
        0 <= k < evs.len(),
        match evs[k] {
            CallEventModel::Line { at_ms, text } => p.spec_expired(at_ms),
            CallEventModel::Closed { at_ms } => true,
            CallEventModel::Tick { at_ms } => p.spec_expired(at_ms),
        },
    ensures
        !(spec_resolve(p, evs) is StillWaiting),
{
    lemma_no_unbounded_wait_from(p, evs, 0, k);
}

proof fn lemma_no_unbounded_wait_from(p: PendingCall, evs: Seq<CallEventModel>, i: int, k: int)
    requires
        0 <= i <= k < evs.len(),
        match evs[k] {
            CallEventModel::Line { at_ms, text } => p.spec_expired(at_ms),
            CallEventModel::Closed { at_ms } => true,
            CallEventModel::Tick { at_ms } => p.spec_expired(at_ms),
        },
    ensures
        !(spec_resolve_from(p, evs, i) is StillWaiting),
    decreases k - i,
{
    if i == k {
    } else {
        match spec_call_step(p, evs[i]) {
            CallStepModel::Continue => {
                lemma_no_unbounded_wait_from(p, evs, i + 1, k);
            },
            _ => {},
        }
    }
}

} // verus!
