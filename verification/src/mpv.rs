//! The media-player side: the line-delimited JSON control protocol (encoding
//! outbound requests, parsing inbound property-change notifications) and the
//! supervisor's restart policy.
//!
//! Process spawning, the control socket, and the channels live outside this
//! crate; the supervision loop asks these functions what to do and performs
//! the returned directives.

use vstd::prelude::*;
use crate::json::{json_str_field, json_str_field_of, json_bool_field, json_bool_field_of};
use crate::text::{str_eq, string_from_chars};

verus! {

/// A command from the controller to the player supervisor.
#[derive(Debug, Clone, PartialEq, Eq)]
pub enum MpvCommand {
    LoadUrl { url: String },
    TogglePause,
    SetPause(bool),
    Stop,
    Shutdown,
}

/// Mathematical image of an [`MpvCommand`].
pub ghost enum MpvCommandData {
    LoadUrl(Seq<char>),
    TogglePause,
    SetPause(bool),
    Stop,
    Shutdown,
}

impl View for MpvCommand {
    type V = MpvCommandData;

    open spec fn view(&self) -> MpvCommandData {
        match self {
            MpvCommand::LoadUrl { url } => MpvCommandData::LoadUrl(url@),
            MpvCommand::TogglePause => MpvCommandData::TogglePause,
            MpvCommand::SetPause(p) => MpvCommandData::SetPause(*p),
            MpvCommand::Stop => MpvCommandData::Stop,
            MpvCommand::Shutdown => MpvCommandData::Shutdown,
        }
    }
}

/// An event the supervisor reports upward to the controller.
#[derive(Debug, Clone, PartialEq, Eq)]
pub enum MpvEvent {
    /// The control socket is connected and the property observers are set.
    Ready,
    /// The player announced a (possibly absent) media title.
    MediaTitle(Option<String>),
    /// The player announced its pause state.
    Pause(bool),
    /// The player process or its socket failed; the supervisor will retry.
    Crashed(String),
}

/// Mathematical image of an [`MpvEvent`].
pub ghost enum MpvEventData {
    Ready,
    MediaTitle(Option<Seq<char>>),
    Pause(bool),
    Crashed(Seq<char>),
}

impl View for MpvEvent {
    type V = MpvEventData;

    open spec fn view(&self) -> MpvEventData {
        match self {
            MpvEvent::Ready => MpvEventData::Ready,
            MpvEvent::MediaTitle(t) => MpvEventData::MediaTitle(
                match t {
                    Some(s) => Some(s@),
                    None => None,
                },
            ),
            MpvEvent::Pause(p) => MpvEventData::Pause(*p),
            MpvEvent::Crashed(m) => MpvEventData::Crashed(m@),
        }
    }
}

// ---------------------------------------------------------------------------
// JSON string escaping (outbound requests carry an arbitrary URL).
// ---------------------------------------------------------------------------

/// The lower-case hexadecimal digit for `d` in `0..16`.
pub open spec fn spec_hex_digit(d: int) -> char {
    seq!['0', '1', '2', '3', '4', '5', '6', '7', '8', '9', 'a', 'b', 'c', 'd', 'e', 'f'][d]
}

/// How one character appears inside a JSON string literal: quote, backslash
/// and control characters are escaped, everything else stands for itself.
pub open spec fn spec_escape_char(c: char) -> Seq<char> {
    if c == '"' {
        seq!['\\', '"']
    } else if c == '\\' {
        seq!['\\', '\\']
    } else if c == '\n' {
        seq!['\\', 'n']
    } else if c == '\r' {
        seq!['\\', 'r']
    } else if c == '\t' {
        seq!['\\', 't']
    } else if c == '\u{8}' {
        seq!['\\', 'b']
    } else if c == '\u{c}' {
        seq!['\\', 'f']
    } else if (c as u32) < 0x20 {
        seq!['\\', 'u', '0', '0', spec_hex_digit((c as u32) as int / 16), spec_hex_digit(
            (c as u32) as int % 16,
        )]
    } else {
        seq![c]
    }
}

/// The body of a JSON string literal holding `s`.
pub open spec fn spec_escape(s: Seq<char>) -> Seq<char>
    decreases s.len(),
{
    if s.len() == 0 {
        Seq::empty()
    } else {
        spec_escape_char(s[0]) + spec_escape(s.drop_first())
    }
}

/// A JSON string literal holding `s`: the escaped body in quotes.
pub open spec fn spec_json_string(s: Seq<char>) -> Seq<char> {
    seq!['"'] + spec_escape(s) + seq!['"']
}

proof fn lemma_escape_push(s: Seq<char>, c: char)
    ensures
        spec_escape(s.push(c)) == spec_escape(s) + spec_escape_char(c),
    decreases s.len(),
{
    if s.len() == 0 {
        assert(s.push(c)[0] == c);
        assert(s.push(c).drop_first() =~= Seq::<char>::empty());
        assert(spec_escape(s.push(c)) == spec_escape_char(c) + spec_escape(
            Seq::<char>::empty(),
        ));
        assert(spec_escape(Seq::<char>::empty()) == Seq::<char>::empty());
        assert(spec_escape(s) == Seq::<char>::empty());
        assert(spec_escape(s.push(c)) =~= spec_escape(s) + spec_escape_char(c));
    } else {
        assert(s.push(c)[0] == s[0]);
        assert(s.push(c).drop_first() =~= s.drop_first().push(c));
        assert(spec_escape(s.push(c)) == spec_escape_char(s[0]) + spec_escape(
            s.drop_first().push(c),
        ));
        lemma_escape_push(s.drop_first(), c);
        assert(spec_escape(s) == spec_escape_char(s[0]) + spec_escape(s.drop_first()));
        assert(spec_escape(s.push(c)) =~= spec_escape(s) + spec_escape_char(c));
    }
}

fn hex_digit(d: u32) -> (r: char)
    requires
        d < 16,
    ensures
        r == spec_hex_digit(d as int),
{
    if d == 0 {
        '0'
    } else if d == 1 {
        '1'
    } else if d == 2 {
        '2'
    } else if d == 3 {
        '3'
    } else if d == 4 {
        '4'
    } else if d == 5 {
        '5'
    } else if d == 6 {
        '6'
    } else if d == 7 {
        '7'
    } else if d == 8 {
        '8'
    } else if d == 9 {
        '9'
    } else if d == 10 {
        'a'
    } else if d == 11 {
        'b'
    } else if d == 12 {
        'c'
    } else if d == 13 {
        'd'
    } else if d == 14 {
        'e'
    } else {
        'f'
    }
}

fn escape_char_into(out: &mut Vec<char>, c: char)
    ensures
        final(out)@ == old(out)@ + spec_escape_char(c),
{
    if c == '"' {
        out.push('\\');
        out.push('"');
    } else if c == '\\' {
        out.push('\\');
        out.push('\\');
    } else if c == '\n' {
        out.push('\\');
        out.push('n');
    } else if c == '\r' {
        out.push('\\');
        out.push('r');
    } else if c == '\t' {
        out.push('\\');
        out.push('t');
    } else if c == '\u{8}' {
        out.push('\\');
        out.push('b');
    } else if c == '\u{c}' {
        out.push('\\');
        out.push('f');
    } else {
        let u = c as u32;
        if u < 0x20 {
            out.push('\\');
            out.push('u');
            out.push('0');
            out.push('0');
            out.push(hex_digit(u / 16));
            out.push(hex_digit(u % 16));
        } else {
            out.push(c);
        }
    }
    proof {
        assert(out@ =~= old(out)@ + spec_escape_char(c));
    }
}

/// Escape `s` for inclusion in a JSON string literal.
pub fn json_escape(s: &str) -> (r: String)
    ensures
        r@ == spec_escape(s@),
{
    let n = s.unicode_len();
    let mut out: Vec<char> = Vec::new();
    let mut i: usize = 0;
    while i < n
        invariant
            n == s@.len(),
            0 <= i <= n,
            out@ == spec_escape(s@.subrange(0, i as int)),
        decreases n - i,
    {
        escape_char_into(&mut out, s.get_char(i));
        proof {
            assert(s@.subrange(0, i as int + 1) =~= s@.subrange(0, i as int).push(s@[i as int]));
            lemma_escape_push(s@.subrange(0, i as int), s@[i as int]);
        }
        i += 1;
    }
    proof {
        assert(s@.subrange(0, n as int) =~= s@);
    }
    string_from_chars(&out)
}

// ---------------------------------------------------------------------------
// Outbound protocol requests.
// ---------------------------------------------------------------------------

/// The protocol line for a command, or `None` for `Shutdown`, which is not a
/// protocol request (the supervisor kills the player process instead).
pub open spec fn spec_command_line(c: MpvCommandData) -> Option<Seq<char>> {
    match c {
        MpvCommandData::LoadUrl(u) => Some(
            "{\"command\":[\"loadfile\","@ + spec_json_string(u) + ",\"replace\"]}"@,
        ),
        MpvCommandData::TogglePause => Some("{\"command\":[\"cycle\",\"pause\"]}"@),
        MpvCommandData::SetPause(p) => Some(
            "{\"command\":[\"set_property\",\"pause\","@ + (if p {
                "true"@
            } else {
                "false"@
            }) + "]}"@,
        ),
        MpvCommandData::Stop => Some("{\"command\":[\"stop\"]}"@),
        MpvCommandData::Shutdown => None,
    }
}

/// Encode a command as one protocol line (without the trailing newline);
/// `Shutdown` has no line.
pub fn encode_command(cmd: &MpvCommand) -> (r: Option<String>)
    ensures
        match r {
            Some(line) => spec_command_line(cmd@) == Some(line@),
            None => spec_command_line(cmd@) is None,
        },
{
    match cmd {
        MpvCommand::LoadUrl { url } => {
            let mut s = "{\"command\":[\"loadfile\",".to_owned();
            s.append("\"");
            let esc = json_escape(url.as_str());
            s.append(esc.as_str());
            s.append("\"");
            s.append(",\"replace\"]}");
            proof {
                reveal_strlit("\"");
                assert("\""@ =~= seq!['"']);
                assert(s@ =~= "{\"command\":[\"loadfile\","@ + spec_json_string(url@)
                    + ",\"replace\"]}"@);
            }
            Some(s)
        },
        MpvCommand::TogglePause => Some("{\"command\":[\"cycle\",\"pause\"]}".to_owned()),
        MpvCommand::SetPause(p) => {
            let mut s = "{\"command\":[\"set_property\",\"pause\",".to_owned();
            if *p {
                s.append("true");
            } else {
                s.append("false");
            }
            s.append("]}");
            Some(s)
        },
        MpvCommand::Stop => Some("{\"command\":[\"stop\"]}".to_owned()),
        MpvCommand::Shutdown => None,
    }
}

// ---------------------------------------------------------------------------
// Inbound protocol lines.
// ---------------------------------------------------------------------------

/// Whether a protocol line is a property-change notification.
pub open spec fn spec_is_property_change(line: Seq<char>) -> bool {
    json_str_field_of(line, "event"@) == Some("property-change"@)
}

/// Parse one inbound protocol line. Only `property-change` notifications for
/// the two observed properties become events; every other line — including
/// malformed JSON — yields `None` and is ignored.
pub fn parse_event(line: &str) -> (r: Option<MpvEvent>)
    ensures
        ({
            let name = json_str_field_of(line@, "name"@);
            if spec_is_property_change(line@) && name == Some("media-title"@) {
                match r {
                    Some(ev) => ev@ == MpvEventData::MediaTitle(
                        json_str_field_of(line@, "data"@),
                    ),
                    None => false,
                }
            } else if spec_is_property_change(line@) && name == Some("pause"@) {
                match r {
                    Some(ev) => ev@ == MpvEventData::Pause(
                        json_bool_field_of(line@, "data"@) == Some(true),
                    ),
                    None => false,
                }
            } else {
                r is None
            }
        }),
{
    let event = json_str_field(line, "event");
    let is_pc = match &event {
        Some(e) => str_eq(e.as_str(), "property-change"),
        None => false,
    };
    if !is_pc {
        return None;
    }
    let name = match json_str_field(line, "name") {
        Some(nm) => nm,
        None => {
            return None;
        },
    };
    if str_eq(name.as_str(), "media-title") {
        let data = json_str_field(line, "data");
        Some(MpvEvent::MediaTitle(data))
    } else if str_eq(name.as_str(), "pause") {
        let paused = match json_bool_field(line, "data") {
            Some(b) => b,
            None => false,
        };
        Some(MpvEvent::Pause(paused))
    } else {
        None
    }
}

// ---------------------------------------------------------------------------
// The supervisor's restart policy.
// ---------------------------------------------------------------------------

/// One thing the supervision loop must do next.
#[derive(Debug, Clone, PartialEq, Eq)]
pub enum SupervisorDirective {
    /// Report an event to the controller.
    Emit(MpvEvent),
    /// Write one protocol line (newline-terminated by the writer) to the
    /// control socket.
    WriteLine(String),
    /// Sleep this many milliseconds before the next connection attempt.
    SleepMs(u64),
    /// Terminate the player process.
    KillPlayer,
    /// End the supervision loop for good.
    StopLoop,
}

/// Mathematical image of a [`SupervisorDirective`].
pub ghost enum SupervisorDirectiveData {
    Emit(MpvEventData),
    WriteLine(Seq<char>),
    SleepMs(u64),
    KillPlayer,
    StopLoop,
}

impl View for SupervisorDirective {
    type V = SupervisorDirectiveData;

    open spec fn view(&self) -> SupervisorDirectiveData {
        match self {
            SupervisorDirective::Emit(e) => SupervisorDirectiveData::Emit(e@),
            SupervisorDirective::WriteLine(l) => SupervisorDirectiveData::WriteLine(l@),
            SupervisorDirective::SleepMs(ms) => SupervisorDirectiveData::SleepMs(*ms),
            SupervisorDirective::KillPlayer => SupervisorDirectiveData::KillPlayer,
            SupervisorDirective::StopLoop => SupervisorDirectiveData::StopLoop,
        }
    }
}

/// The images of a directive list.
pub open spec fn directives_view(s: Seq<SupervisorDirective>) -> Seq<SupervisorDirectiveData> {
    s.map_values(|d: SupervisorDirective| d@)
}

/// The initial (and post-success) backoff before reconnecting, in ms.
pub const BACKOFF_START_MS: u64 = 200;

/// The ceiling the reconnect backoff doubles up to, in ms.
pub const BACKOFF_CAP_MS: u64 = 5000;

/// The backoff after one more failed connection attempt: doubled, capped.
pub open spec fn spec_backoff_next(b: u64) -> u64 {
    if 2 * b < 5000 {
        (2 * b) as u64
    } else {
        5000u64
    }
}

/// The protocol line subscribing to `media-title` changes.
pub open spec fn spec_observe_title_line() -> Seq<char> {
    "{\"command\":[\"observe_property\",1,\"media-title\"]}"@
}

/// The protocol line subscribing to `pause` changes.
pub open spec fn spec_observe_pause_line() -> Seq<char> {
    "{\"command\":[\"observe_property\",2,\"pause\"]}"@
}

/// What a session crash asks of the loop: report it — and nothing else, so
/// the next connection attempt follows immediately.
pub open spec fn spec_session_crash_directives(reason: Seq<char>) -> Seq<SupervisorDirectiveData> {
    seq![SupervisorDirectiveData::Emit(MpvEventData::Crashed(reason))]
}

/// What a failed connection attempt asks of the loop: report it, then sleep
/// the current backoff.
pub open spec fn spec_connect_failed_directives(reason: Seq<char>, backoff: u64) -> Seq<
    SupervisorDirectiveData,
> {
    seq![
        SupervisorDirectiveData::Emit(MpvEventData::Crashed(reason)),
        SupervisorDirectiveData::SleepMs(backoff),
    ]
}

/// What a fresh connection asks of the loop: subscribe to the two observed
/// properties, then report readiness.
pub open spec fn spec_connected_directives() -> Seq<SupervisorDirectiveData> {
    seq![
        SupervisorDirectiveData::WriteLine(spec_observe_title_line()),
        SupervisorDirectiveData::WriteLine(spec_observe_pause_line()),
        SupervisorDirectiveData::Emit(MpvEventData::Ready),
    ]
}

/// What a controller command asks of the loop: `Shutdown` kills the player
/// and ends the loop; every other command becomes one protocol line.
pub open spec fn spec_command_directives(c: MpvCommandData) -> Seq<SupervisorDirectiveData> {
    match spec_command_line(c) {
        Some(line) => seq![SupervisorDirectiveData::WriteLine(line)],
        None => seq![SupervisorDirectiveData::KillPlayer, SupervisorDirectiveData::StopLoop],
    }
}

/// The restart policy of the player supervision loop: how long to wait before
/// reconnecting after failures. The loop itself (process, socket, channels)
/// lives outside this crate and performs the directives these transitions
/// return.
pub struct Supervisor {
    pub backoff_ms: u64,
}

impl Supervisor {
    /// The backoff always lies between its start value and its ceiling.
    pub open spec fn wf(self) -> bool {
        200 <= self.backoff_ms <= 5000
    }

    pub fn new() -> (s: Self)
        ensures
            s.backoff_ms == 200,
            s.wf(),
    {
        Supervisor { backoff_ms: BACKOFF_START_MS }
    }

    /// Spawning the player or connecting to its socket failed: report the
    /// crash, sleep the current backoff, and double it up to the ceiling.
    pub fn on_connect_failed(&mut self, reason: String) -> (d: Vec<SupervisorDirective>)
        requires
            old(self).wf(),
        ensures
            final(self).wf(),
            final(self).backoff_ms == spec_backoff_next(old(self).backoff_ms),
            directives_view(d@) == spec_connect_failed_directives(reason@, old(self).backoff_ms),
    {
        let mut d: Vec<SupervisorDirective> = Vec::new();
        d.push(SupervisorDirective::Emit(MpvEvent::Crashed(reason)));
        d.push(SupervisorDirective::SleepMs(self.backoff_ms));
        let doubled = 2 * self.backoff_ms;
        self.backoff_ms = if doubled < BACKOFF_CAP_MS {
            doubled
        } else {
            BACKOFF_CAP_MS
        };
        proof {
            assert(directives_view(d@) =~= spec_connect_failed_directives(
                reason@,
                old(self).backoff_ms,
            ));
        }
        d
    }

    /// The control socket connected: reset the backoff, subscribe to the two
    /// observed properties, and report readiness.
    pub fn on_connected(&mut self) -> (d: Vec<SupervisorDirective>)
        ensures
            final(self).backoff_ms == 200,
            final(self).wf(),
            directives_view(d@) == spec_connected_directives(),
    {
        self.backoff_ms = BACKOFF_START_MS;
        let mut d: Vec<SupervisorDirective> = Vec::new();
        d.push(
            SupervisorDirective::WriteLine(
                "{\"command\":[\"observe_property\",1,\"media-title\"]}".to_owned(),
            ),
        );
        d.push(
            SupervisorDirective::WriteLine(
                "{\"command\":[\"observe_property\",2,\"pause\"]}".to_owned(),
            ),
        );
        d.push(SupervisorDirective::Emit(MpvEvent::Ready));
        proof {
            assert(directives_view(d@) =~= spec_connected_directives());
        }
        d
    }

    /// An established session aborted (player exit, socket error or close):
    /// report the crash. The backoff is untouched and no sleep is asked for —
    /// the next connection attempt follows immediately.
    pub fn on_session_crashed(&self, reason: String) -> (d: Vec<SupervisorDirective>)
        ensures
            directives_view(d@) == spec_session_crash_directives(reason@),
    {
        let mut d: Vec<SupervisorDirective> = Vec::new();
        d.push(SupervisorDirective::Emit(MpvEvent::Crashed(reason)));
        proof {
            assert(directives_view(d@) =~= spec_session_crash_directives(reason@));
        }
        d
    }

    /// The command channel closed: the controller is gone; end the loop.
    pub fn on_commands_closed(&self) -> (d: Vec<SupervisorDirective>)
        ensures
            directives_view(d@) == seq![SupervisorDirectiveData::StopLoop],
    {
        let mut d: Vec<SupervisorDirective> = Vec::new();
        d.push(SupervisorDirective::StopLoop);
        proof {
            assert(directives_view(d@) =~= seq![SupervisorDirectiveData::StopLoop]);
        }
        d
    }

    /// Translate one controller command: `Shutdown` kills the player and ends
    /// the loop; every other command becomes one protocol line.
    pub fn on_command(&self, cmd: &MpvCommand) -> (d: Vec<SupervisorDirective>)
        ensures
            directives_view(d@) == spec_command_directives(cmd@),
    {
        let mut d: Vec<SupervisorDirective> = Vec::new();
        match encode_command(cmd) {
            Some(line) => {
                d.push(SupervisorDirective::WriteLine(line));
            },
            None => {
                d.push(SupervisorDirective::KillPlayer);
                d.push(SupervisorDirective::StopLoop);
            },
        }
        proof {
            assert(directives_view(d@) =~= spec_command_directives(cmd@));
        }
        d
    }
}

/// Law (crash recovery, supervisor side): a session crash asks the loop for
/// exactly one thing — reporting `Crashed` — neither a stop nor a sleep, so
/// the next connection attempt follows at once; and a successful connect ends
/// by reporting `Ready`. The controller's law on `Ready` then replays the
/// desired URL, so a crash heals without user involvement.
pub proof fn lemma_crash_recovery_directives(reason: Seq<char>)
    ensures
        spec_session_crash_directives(reason) == seq![
            SupervisorDirectiveData::Emit(MpvEventData::Crashed(reason)),
        ],
        forall|k: int|
            0 <= k < spec_session_crash_directives(reason).len() ==> !(
            #[trigger] spec_session_crash_directives(reason)[k] is StopLoop)
                && !(spec_session_crash_directives(reason)[k] is SleepMs),
        spec_connected_directives().last() == SupervisorDirectiveData::Emit(MpvEventData::Ready),
{
}

/// How long the connect poll has been allowed to run, in ms.
pub const CONNECT_TIMEOUT_MS: u64 = 3000;

/// While connecting to the fresh player's socket, whether to retry after a
/// failed attempt: retry after a 50 ms pause until the attempt has been
/// running for more than three seconds, then give up.
pub fn connect_retry(elapsed_ms: u64) -> (r: Option<u64>)
    ensures
        r == if elapsed_ms <= 3000 {
            Some(50u64)
        } else {
            None::<u64>
        },
{
    if elapsed_ms <= CONNECT_TIMEOUT_MS {
        Some(50)
    } else {
        None
    }
}

/// The player's launch arguments: idle with no terminal, no video and no
/// window, keep-open, and the control socket at the given path.
pub fn player_args(socket_path: &str) -> (r: Vec<String>)
    ensures
        r@.len() == 6,
        r@[0]@ == "--idle=yes"@,
        r@[1]@ == "--no-terminal"@,
        r@[2]@ == "--no-video"@,
        r@[3]@ == "--force-window=no"@,
        r@[4]@ == "--keep-open=yes"@,
        r@[5]@ == "--input-ipc-server="@ + socket_path@,
{
    let mut r: Vec<String> = Vec::new();
    r.push("--idle=yes".to_owned());
    r.push("--no-terminal".to_owned());
    r.push("--no-video".to_owned());
    r.push("--force-window=no".to_owned());
    r.push("--keep-open=yes".to_owned());
    let mut ipc = "--input-ipc-server=".to_owned();
    ipc.append(socket_path);
    r.push(ipc);
    r
}

} // verus!
