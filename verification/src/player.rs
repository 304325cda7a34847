//! Playback state and the mpv IPC protocol: the commands sent to mpv and
//! what its events change.

use vstd::prelude::*;
use crate::rss::types::Chapter;
use crate::text::{decimal, decimal_chars, digit_char, string_from, two_digits, two_digit_chars};

verus! {

/// Whether something is playing.
#[derive(Debug, Clone, Copy, PartialEq, Eq, Structural)]
pub enum PlayStatus {
    Stopped,
    Playing,
    Paused,
}

impl Default for PlayStatus {
    fn default() -> (r: Self)
        ensures
            r == PlayStatus::Stopped,
    {
        PlayStatus::Stopped
    }
}

/// How a seek offset is read.
#[derive(Debug, Clone, Copy, PartialEq, Eq, Structural)]
pub enum SeekMode {
    Relative,
    Absolute,
}

/// What the player is doing. Positions and lengths are in milliseconds, the
/// speed in hundredths (100 is normal speed), the volume in percent.
#[derive(Debug, Clone)]
pub struct PlaybackState {
    pub episode_id: Option<u128>,
    pub episode_title: Option<String>,
    pub status: PlayStatus,
    pub position_ms: u64,
    pub duration_ms: u64,
    pub speed: u32,
    pub volume: u8,
    pub current_chapter_idx: Option<usize>,
    pub chapters: Vec<Chapter>,
}

impl PlaybackState {
    /// Nothing loaded, stopped, normal speed, volume 80.
    pub fn new() -> (r: PlaybackState)
        ensures
            r.episode_id is None,
            r.episode_title is None,
            r.status == PlayStatus::Stopped,
            r.position_ms == 0,
            r.duration_ms == 0,
            r.speed == 100,
            r.volume == 80,
            r.current_chapter_idx is None,
            r.chapters@.len() == 0,
    {
        PlaybackState {
            episode_id: None,
            episode_title: None,
            status: PlayStatus::Stopped,
            position_ms: 0,
            duration_ms: 0,
            speed: 100,
            volume: 80,
            current_chapter_idx: None,
            chapters: Vec::new(),
        }
    }
}

// ---------------------------------------------------------------- events from mpv

/// The `data` of an mpv message as the readings of a JSON value: as a number
/// of seconds (given in whole milliseconds), as a boolean, as an unsigned integer.
#[derive(Debug, Clone, Copy)]
pub struct MpvValue {
    pub as_millis: Option<u64>,
    pub as_bool: Option<bool>,
    pub as_u64: Option<u64>,
}

/// One message read from mpv's IPC socket: its `event`, its property `name`, its `data`.
#[derive(Debug, Clone)]
pub struct MpvMessage {
    pub event: Option<String>,
    pub name: Option<String>,
    pub data: MpvValue,
}

/// Whether `s` holds the text `t`.
pub open spec fn is_text(s: Option<String>, t: Seq<char>) -> bool {
    s matches Some(x) && x@ == t
}

/// The state after mpv reports `m`, and whether the change is to be reported.
pub open spec fn after_mpv_message(s: PlaybackState, m: MpvMessage) -> (PlaybackState, bool) {
    if is_text(m.event, "property-change"@) {
        let next = if is_text(m.name, "time-pos"@) {
            match m.data.as_millis {
                Some(p) => PlaybackState { position_ms: p, ..s },
                None => s,
            }
        } else if is_text(m.name, "duration"@) {
            match m.data.as_millis {
                Some(d) => PlaybackState { duration_ms: d, ..s },
                None => s,
            }
        } else if is_text(m.name, "pause"@) {
            match m.data.as_bool {
                Some(true) => PlaybackState { status: PlayStatus::Paused, ..s },
                Some(false) => PlaybackState { status: PlayStatus::Playing, ..s },
                None => s,
            }
        } else if is_text(m.name, "chapter"@) {
            PlaybackState {
                current_chapter_idx: match m.data.as_u64 {
                    Some(c) => Some(c as usize),
                    None => None,
                },
                ..s
            }
        } else {
            s
        };
        (next, true)
    } else if is_text(m.event, "end-file"@) {
        (PlaybackState { status: PlayStatus::Stopped, position_ms: 0, ..s }, true)
    } else if is_text(m.event, "start-file"@) {
        (PlaybackState { status: PlayStatus::Playing, ..s }, false)
    } else {
        (s, false)
    }
}

fn text_is(s: &Option<String>, t: &str) -> (r: bool)
    ensures
        r == is_text(*s, t@),
{
    match s {
        Some(x) => {
            let y = String::from_str(t);
            *x == y
        },
        None => false,
    }
}

impl PlaybackState {
    /// Applies one mpv message; the result says whether the new state is to
    /// be reported to the application.
    pub fn apply_mpv_message(&mut self, msg: &MpvMessage) -> (report: bool)
        ensures
            (*final(self), report) == after_mpv_message(*old(self), *msg),
    {
        if text_is(&msg.event, "property-change") {
            if text_is(&msg.name, "time-pos") {
                if let Some(p) = msg.data.as_millis {
                    self.position_ms = p;
                }
            } else if text_is(&msg.name, "duration") {
                if let Some(d) = msg.data.as_millis {
                    self.duration_ms = d;
                }
            } else if text_is(&msg.name, "pause") {
                if let Some(paused) = msg.data.as_bool {
                    self.status = if paused {
                        PlayStatus::Paused
                    } else {
                        PlayStatus::Playing
                    };
                }
            } else if text_is(&msg.name, "chapter") {
                self.current_chapter_idx = match msg.data.as_u64 {
                    Some(c) => Some(c as usize),
                    None => None,
                };
            }
            true
        } else if text_is(&msg.event, "end-file") {
            self.status = PlayStatus::Stopped;
            self.position_ms = 0;
            true
        } else if text_is(&msg.event, "start-file") {
            self.status = PlayStatus::Playing;
            false
        } else {
            false
        }
    }
}


// ---------------------------------------------------------------- commands to mpv

/// A command for mpv.
#[derive(Debug, Clone)]
pub enum MpvCommand {
    /// Asks mpv to report changes of a property under the given number.
    ObserveProperty(u64, String),
    /// Plays a file or URL, replacing what plays.
    LoadFile(String),
    /// Pauses or resumes.
    TogglePause,
    /// Seeks by or to a number of seconds.
    Seek(i64, SeekMode),
    /// Sets the speed, in hundredths.
    SetSpeed(u32),
    /// Sets the volume, in percent.
    SetVolume(u8),
    NextChapter,
    PrevChapter,
    Quit,
}

/// A lowercase hexadecimal digit.
pub open spec fn hex_digit(d: nat) -> char {
    if d < 10 {
        digit_char(d)
    } else {
        ((d + 87) as u32) as char
    }
}

/// How `serde_json` writes a character inside a string literal: quote and
/// backslash escaped, the control characters below U+0020 as `\b`, `\t`,
/// `\n`, `\f`, `\r` or `\u00XX`, every other character as itself.
pub open spec fn json_escaped_char(c: char) -> Seq<char> {
    let u = c as u32;
    if c == '"' {
        seq!['\\', '"']
    } else if c == '\\' {
        seq!['\\', '\\']
    } else if u == 8 {
        seq!['\\', 'b']
    } else if u == 9 {
        seq!['\\', 't']
    } else if u == 10 {
        seq!['\\', 'n']
    } else if u == 12 {
        seq!['\\', 'f']
    } else if u == 13 {
        seq!['\\', 'r']
    } else if u < 32 {
        seq!['\\', 'u', '0', '0', hex_digit((u / 16) as nat), hex_digit((u % 16) as nat)]
    } else {
        seq![c]
    }
}

/// The characters of `s`, each escaped as in a JSON string literal.
pub open spec fn json_escaped(s: Seq<char>) -> Seq<char>
    decreases s.len(),
{
    if s.len() == 0 {
        Seq::<char>::empty()
    } else {
        json_escaped(s.drop_last()) + json_escaped_char(s.last())
    }
}

/// The JSON string literal that `serde_json` writes for `s`.
pub open spec fn json_quoted(s: Seq<char>) -> Seq<char> {
    seq!['"'] + json_escaped(s) + seq!['"']
}

/// `serde_json::to_string` of a string: the JSON string literal for `s`, with
/// the escapes that `serde_json`'s compact formatter writes (`json_quoted`).
#[verifier::external_body]
fn json_string(s: &str) -> (r: String)
    ensures
        r@ == json_quoted(s@),
{
    serde_json::to_string(s).unwrap_or_default()
}

/// An integer in JSON notation.
pub open spec fn integer_text(n: int) -> Seq<char> {
    if n < 0 {
        seq!['-'] + decimal((-n) as nat)
    } else {
        decimal(n as nat)
    }
}

/// A whole number of seconds as a JSON floating-point number, such as `-10.0`.
pub open spec fn seconds_text(n: int) -> Seq<char> {
    integer_text(n) + seq!['.', '0']
}

/// A speed given in hundredths as the decimal number it stands for, with the
/// shortest fraction: `1.0`, `1.5`, `1.25`, `0.75`.
pub open spec fn speed_text(h: nat) -> Seq<char> {
    let f = h % 100;
    decimal(h / 100) + seq!['.'] + if f == 0 {
        seq!['0']
    } else if f % 10 == 0 {
        decimal(f / 10)
    } else {
        two_digits(f)
    }
}

/// The arguments of the JSON `command` array for `cmd`.
pub open spec fn command_args(cmd: MpvCommand) -> Seq<char> {
    match cmd {
        MpvCommand::ObserveProperty(id, p) => "\"observe_property\","@ + decimal(id as nat) + ","@
            + json_quoted(p@),
        MpvCommand::LoadFile(path) => "\"loadfile\","@ + json_quoted(path@) + ",\"replace\""@,
        MpvCommand::TogglePause => "\"cycle\",\"pause\""@,
        MpvCommand::Seek(secs, mode) => "\"seek\","@ + seconds_text(secs as int) + match mode {
            SeekMode::Relative => ",\"relative\""@,
            SeekMode::Absolute => ",\"absolute\""@,
        },
        MpvCommand::SetSpeed(h) => "\"set_property\",\"speed\","@ + speed_text(h as nat),
        MpvCommand::SetVolume(v) => "\"set_property\",\"volume\","@ + decimal(v as nat),
        MpvCommand::NextChapter => "\"add\",\"chapter\",1"@,
        MpvCommand::PrevChapter => "\"add\",\"chapter\",-1"@,
        MpvCommand::Quit => "\"quit\""@,
    }
}

/// The line sent to mpv for `cmd`: a JSON object with the `command` array and,
/// when given, the `request_id`, ended by a newline.
pub open spec fn command_line(cmd: MpvCommand, request_id: Option<u64>) -> Seq<char> {
    "{\"command\":["@ + command_args(cmd) + "]"@ + match request_id {
        Some(n) => ",\"request_id\":"@ + decimal(n as nat),
        None => Seq::<char>::empty(),
    } + "}\n"@
}

fn append_decimal(s: &mut String, n: u64)
    ensures
        final(s)@ == old(s)@ + decimal(n as nat),
{
    let d = string_from(&decimal_chars(n));
    s.append(d.as_str());
}

fn append_speed(s: &mut String, h: u32)
    ensures
        final(s)@ == old(s)@ + speed_text(h as nat),
{
    append_decimal(s, (h / 100) as u64);
    s.append(".");
    proof {
        reveal_strlit(".");
    }
    let f = h % 100;
    if f == 0 {
        s.append("0");
        proof {
            reveal_strlit("0");
        }
    } else if f % 10 == 0 {
        append_decimal(s, (f / 10) as u64);
    } else {
        let d = string_from(&two_digit_chars(f as u64));
        s.append(d.as_str());
    }
}

fn append_args(s: &mut String, cmd: &MpvCommand)
    ensures
        final(s)@ == old(s)@ + command_args(*cmd),
{
    match cmd {
        MpvCommand::ObserveProperty(id, p) => {
            s.append("\"observe_property\",");
            append_decimal(s, *id);
            s.append(",");
            let q = json_string(p.as_str());
            s.append(q.as_str());
        },
        MpvCommand::LoadFile(path) => {
            s.append("\"loadfile\",");
            let q = json_string(path.as_str());
            s.append(q.as_str());
            s.append(",\"replace\"");
        },
        MpvCommand::TogglePause => {
            s.append("\"cycle\",\"pause\"");
        },
        MpvCommand::Seek(secs, mode) => {
            s.append("\"seek\",");
            if *secs < 0 {
                s.append("-");
                proof {
                    reveal_strlit("-");
                }
                let m: u64 = if *secs == i64::MIN {
                    9223372036854775808u64
                } else {
                    (-*secs) as u64
                };
                append_decimal(s, m);
            } else {
                append_decimal(s, *secs as u64);
            }
            s.append(".0");
            proof {
                reveal_strlit(".0");
            }
            match mode {
                SeekMode::Relative => s.append(",\"relative\""),
                SeekMode::Absolute => s.append(",\"absolute\""),
            }
        },
        MpvCommand::SetSpeed(h) => {
            s.append("\"set_property\",\"speed\",");
            append_speed(s, *h);
        },
        MpvCommand::SetVolume(v) => {
            s.append("\"set_property\",\"volume\",");
            append_decimal(s, *v as u64);
        },
        MpvCommand::NextChapter => {
            s.append("\"add\",\"chapter\",1");
        },
        MpvCommand::PrevChapter => {
            s.append("\"add\",\"chapter\",-1");
        },
        MpvCommand::Quit => {
            s.append("\"quit\"");
        },
    }
}

/// The line that asks mpv to carry out `cmd`, tagged with `request_id` when given.
pub fn encode_command(cmd: &MpvCommand, request_id: Option<u64>) -> (r: String)
    ensures
        r@ == command_line(*cmd, request_id),
{
    let mut s = String::from_str("{\"command\":[");
    append_args(&mut s, cmd);
    s.append("]");
    if let Some(n) = request_id {
        s.append(",\"request_id\":");
        append_decimal(&mut s, n);
    }
    s.append("}\n");
    s
}


// ---------------------------------------------------------------- starting mpv

/// What to do after one more wait for mpv's socket.
#[derive(Debug, Clone, Copy, PartialEq, Eq, Structural)]
pub enum SocketWait {
    /// The socket is there: connect.
    Ready,
    /// Wait again; this many waits have failed so far.
    Retry(u32),
    /// Give up: the socket did not appear in time.
    GiveUp,
}

/// How many waits of 150 ms may fail before mpv counts as not starting.
pub const SOCKET_WAITS: u32 = 30;

/// The decision after a wait, given how many waits failed before it and
/// whether the socket now exists: give up after the thirty-first failure.
pub open spec fn after_wait(failed: u32, socket_exists: bool) -> SocketWait {
    if socket_exists {
        SocketWait::Ready
    } else if failed + 1 > SOCKET_WAITS {
        SocketWait::GiveUp
    } else {
        SocketWait::Retry((failed + 1) as u32)
    }
}

/// Decides what follows a wait for mpv's socket.
pub fn socket_wait_step(failed: u32, socket_exists: bool) -> (r: SocketWait)
    ensures
        r == after_wait(failed, socket_exists),
{
    if socket_exists {
        SocketWait::Ready
    } else if failed >= SOCKET_WAITS {
        SocketWait::GiveUp
    } else {
        SocketWait::Retry(failed + 1)
    }
}

/// The warning shown when mpv cannot be started.
pub open spec fn mpv_unavailable(reason: Seq<char>) -> Seq<char> {
    "mpv not available: "@ + reason + " — playback disabled"@
}

/// The warning shown when mpv cannot be started, with the reason.
pub fn mpv_unavailable_text(reason: &str) -> (r: String)
    ensures
        r@ == mpv_unavailable(reason@),
{
    let mut t = String::from_str("mpv not available: ");
    t.append(reason);
    t.append(" — playback disabled");
    t
}

} // verus!
