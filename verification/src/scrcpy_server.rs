//! The scrcpy-server mirror: the wire framing of its packets, the screen
//! size in its device meta, the commands that start it on the device and
//! forward its socket, the choice of a local port, and the decisions of the
//! loop that reads its frames.
use vstd::prelude::*;
use vstd::slice::slice_subrange;
use vstd::slice::slice_to_vec;
use crate::text::{owned, u64_to_string, chars_of, contains_chars, trim_bounds, sub_chars, decimal, contains_seq, trim, append_chars, string_views, opt_view};
use crate::dependency_manager::{OS, join, join_path, first_existing, first_existing_spec};

verus! {

/// Version of the scrcpy-server jar; the device-side command must name it.
pub const SCRCPY_SERVER_VERSION: &'static str = "4.1";

/// Video bit rate asked of scrcpy-server, in bits per second.
pub const DEFAULT_BITRATE: u32 = 8000000;

/// Frame-rate cap asked of scrcpy-server.
pub const DEFAULT_MAX_FPS: u32 = 60;

/// Size cap asked of scrcpy-server; also the width reported before the
/// device meta arrives.
pub const DEFAULT_MAX_WIDTH: u32 = 1920;

/// Height assumed when the device meta does not give one.
pub const DEFAULT_HEIGHT: u32 = 1080;

/// Where the server jar is pushed on the device.
pub const DEVICE_SERVER_PATH: &'static str = "/data/local/tmp/scrcpy-server.jar";

/// Event name for scrcpy video frames.
pub const SCRCPY_FRAME_EVENT: &'static str = "scrcpy-frame";

/// Local port tried first, and used when no candidate is free.
pub const DEFAULT_LOCAL_PORT: u16 = 8888;

// ─────────────────────────────── framing ───────────────────────────────

/// The big-endian value of four bytes.
pub open spec fn be_u32(b0: u8, b1: u8, b2: u8, b3: u8) -> nat {
    (b0 as nat) * 16777216 + (b1 as nat) * 65536 + (b2 as nat) * 256 + (b3 as nat)
}

/// The payload length announced by a packet header.
pub fn packet_length(header: &[u8; 4]) -> (len: u32)
    ensures
        len == be_u32(header[0], header[1], header[2], header[3]),
{
    (header[0] as u32) * 16777216 + (header[1] as u32) * 65536 + (header[2] as u32) * 256
        + (header[3] as u32)
}

/// The first packet in `buf`, `[4-byte big-endian length][payload]`, when
/// it is there in full: its payload and the number of bytes it takes.
pub open spec fn first_packet(buf: Seq<u8>) -> Option<(Seq<u8>, int)> {
    if buf.len() < 4 {
        None
    } else {
        let n = be_u32(buf[0], buf[1], buf[2], buf[3]) as int;
        if buf.len() < 4 + n {
            None
        } else {
            Some((buf.subrange(4, 4 + n), 4 + n))
        }
    }
}

/// Splits the first complete packet off `buf`: its payload and its size on
/// the wire, or `None` while it is incomplete.
pub fn split_packet(buf: &[u8]) -> (r: Option<(Vec<u8>, usize)>)
    ensures
        match r {
            Some((payload, used)) => first_packet(buf@) == Some((payload@, used as int)),
            None => first_packet(buf@) is None,
        },
{
    if buf.len() < 4 {
        return None;
    }
    let header: [u8; 4] = [buf[0], buf[1], buf[2], buf[3]];
    let n = packet_length(&header) as usize;
    if buf.len() - 4 < n {
        return None;
    }
    let payload = slice_to_vec(slice_subrange(buf, 4, 4 + n));
    Some((payload, 4 + n))
}

// ───────────────────────────── device meta ─────────────────────────────

/// One field of a JSON object, as far as the companion reads them.
#[derive(Debug, Clone)]
pub enum JsonField {
    /// The document is not an object, or has no such key.
    Absent,
    /// The value is an integer that fits in a `u64`.
    Unsigned(u64),
    /// The value is a string.
    Text(String),
    /// The value is anything else.
    Other,
}

/// The value of a [`JsonField`].
pub enum JsonFieldView {
    Absent,
    Unsigned(u64),
    Text(Seq<char>),
    Other,
}

impl View for JsonField {
    type V = JsonFieldView;

    open spec fn view(&self) -> JsonFieldView {
        match self {
            JsonField::Absent => JsonFieldView::Absent,
            JsonField::Unsigned(n) => JsonFieldView::Unsigned(*n),
            JsonField::Text(t) => JsonFieldView::Text(t@),
            JsonField::Other => JsonFieldView::Other,
        }
    }
}

/// Field `key` of the JSON document `text`; `None` when `text` is not JSON.
pub uninterp spec fn json_object_field(text: Seq<u8>, key: Seq<char>) -> Option<JsonFieldView>;

/// `serde_json::from_slice::<serde_json::Value>` on `text`, then
/// `Value::get(key)` and `Value::as_u64` / `Value::as_str` on what it
/// holds. `from_slice` rejects bytes that are not UTF-8, as reading them
/// with `str::from_utf8` first would. What the parser accepts is left to
/// the name; the text of its error is not stated.
#[verifier::external_body]
pub(crate) fn json_field(text: &[u8], key: &str) -> (r: Result<JsonField, String>)
    ensures
        match r {
            Ok(f) => json_object_field(text@, key@) == Some(f@),
            Err(_) => json_object_field(text@, key@) is None,
        },
{
    match serde_json::from_slice::<serde_json::Value>(text) {
        Ok(v) => Ok(
            match v.get(key) {
                None => JsonField::Absent,
                Some(f) => match (f.as_u64(), f.as_str()) {
                    (Some(n), _) => JsonField::Unsigned(n),
                    (None, Some(t)) => JsonField::Text(t.to_string()),
                    (None, None) => JsonField::Other,
                },
            },
        ),
        Err(e) => Err(e.to_string()),
    }
}

/// The dimension that a pair of alternative keys gives: the first key's
/// value if the key is there (the default when that value is not an
/// unsigned integer), else the second key's, else the default; then cut to
/// 32 bits as `as u32` does.
pub open spec fn dimension_of(primary: JsonFieldView, secondary: JsonFieldView, default: u64) -> u32 {
    let v: u64 = match primary {
        JsonFieldView::Unsigned(n) => n,
        JsonFieldView::Absent => match secondary {
            JsonFieldView::Unsigned(n) => n,
            _ => default,
        },
        _ => default,
    };
    v as u32
}

/// The dimension given by `primary`, or by `secondary` when `primary` is absent.
pub fn meta_dimension(primary: JsonField, secondary: JsonField, default: u64) -> (r: u32)
    ensures
        r == dimension_of(primary@, secondary@, default),
{
    let v: u64 = match primary {
        JsonField::Unsigned(n) => n,
        JsonField::Absent => match secondary {
            JsonField::Unsigned(n) => n,
            _ => default,
        },
        _ => default,
    };
    v as u32
}

/// A field read from a document that did parse; a failed read counts as absent.
pub open spec fn present_or_absent(f: Option<JsonFieldView>) -> JsonFieldView {
    match f {
        Some(x) => x,
        None => JsonFieldView::Absent,
    }
}

/// The screen size in the scrcpy device meta: `width` (or `screenWidth`)
/// and `height` (or `screenHeight`) of the JSON document, 1920x1080 when
/// the meta is not JSON.
pub open spec fn device_meta_size(meta: Seq<u8>) -> (u32, u32) {
    match json_object_field(meta, "width"@) {
        None => (DEFAULT_MAX_WIDTH, DEFAULT_HEIGHT),
        Some(w) => (
            dimension_of(w, present_or_absent(json_object_field(meta, "screenWidth"@)), 1920),
            dimension_of(
                present_or_absent(json_object_field(meta, "height"@)),
                present_or_absent(json_object_field(meta, "screenHeight"@)),
                1080,
            ),
        ),
    }
}

/// The screen size from the fields that the JSON reader found in the
/// device meta: `width` (or `screenWidth`) and `height` (or
/// `screenHeight`); 1920x1080 when the meta is not JSON (`width` is an
/// error). A field that could not be read counts as absent.
pub fn meta_size(
    width: Result<JsonField, String>,
    screen_width: Result<JsonField, String>,
    height: Result<JsonField, String>,
    screen_height: Result<JsonField, String>,
) -> (r: (u32, u32))
    ensures
        match width {
            Err(_) => r == (DEFAULT_MAX_WIDTH, DEFAULT_HEIGHT),
            Ok(w) => r == (
                dimension_of(w@, field_or_absent(screen_width), 1920),
                dimension_of(field_or_absent(height), field_or_absent(screen_height), 1080),
            ),
        },
{
    match width {
        Err(_) => (DEFAULT_MAX_WIDTH, DEFAULT_HEIGHT),
        Ok(w) => {
            let sw = match screen_width {
                Ok(f) => f,
                Err(_) => JsonField::Absent,
            };
            let h = match height {
                Ok(f) => f,
                Err(_) => JsonField::Absent,
            };
            let sh = match screen_height {
                Ok(f) => f,
                Err(_) => JsonField::Absent,
            };
            (meta_dimension(w, sw, 1920), meta_dimension(h, sh, 1080))
        },
    }
}

/// A field the JSON reader returned; a failed read counts as absent.
pub open spec fn field_or_absent(f: Result<JsonField, String>) -> JsonFieldView {
    match f {
        Ok(x) => x@,
        Err(_) => JsonFieldView::Absent,
    }
}

/// Reads the screen size from the scrcpy device meta.
pub fn parse_device_meta(meta: &[u8]) -> (r: (u32, u32))
    ensures
        r == device_meta_size(meta@),
{
    let w = json_field(meta, "width");
    match w {
        Err(_) => (DEFAULT_MAX_WIDTH, DEFAULT_HEIGHT),
        Ok(_) => meta_size(w, json_field(meta, "screenWidth"), json_field(meta, "height"), json_field(meta, "screenHeight")),
    }
}

/// The size the frame reader announces: the device meta's, or 1920x1080
/// when no meta arrived.
pub fn stream_dimensions(meta: &[u8]) -> (r: (u32, u32))
    ensures
        meta@.len() == 0 ==> r == (1920u32, 1080u32),
        meta@.len() > 0 ==> r == device_meta_size(meta@),
{
    if meta.len() == 0 {
        (1920, 1080)
    } else {
        parse_device_meta(meta)
    }
}


// ───────────────────────────── frame reader ─────────────────────────────

/// Empty polls (and read timeouts) after which the reader gives up.
pub const MAX_CONSECUTIVE_TIMEOUTS: u32 = 100;

/// What the frame reader saw in one turn of its loop.
#[derive(Debug, Clone, Copy, PartialEq, Eq, Structural)]
pub enum ReaderEvent {
    /// The mirror was asked to stop.
    Stopped,
    /// A peek found no data.
    PeekEmpty,
    /// A peek found data waiting.
    PeekData,
    /// A peek would have blocked.
    PeekWouldBlock,
    /// A peek failed.
    PeekFailed,
    /// A whole packet was read.
    PacketRead,
    /// Reading a packet timed out.
    ReadWouldBlock,
    /// Reading a packet failed.
    ReadFailed,
}

/// What the frame reader does next.
#[derive(Debug, Clone, Copy, PartialEq, Eq, Structural)]
pub enum ReaderAction {
    /// Leave the loop.
    Stop,
    /// Sleep 100 ms and poll again; `log` asks for a "still waiting" note.
    Wait { log: bool },
    /// Read the packet that is waiting.
    Read,
    /// Emit the packet just read; `log` asks for a note about it.
    Emit { log: bool },
    /// Poll again at once.
    Retry,
}

/// The counters of the frame reader.
#[derive(Debug, Clone, Copy, PartialEq, Eq, Structural)]
pub struct FrameReader {
    pub frame_count: u64,
    pub consecutive_timeouts: u32,
}

/// The reader's next state and action for an event.
pub open spec fn reader_next(s: FrameReader, ev: ReaderEvent) -> (FrameReader, ReaderAction) {
    match ev {
        ReaderEvent::Stopped => (s, ReaderAction::Stop),
        ReaderEvent::PeekEmpty => {
            let t = (s.consecutive_timeouts + 1) as u32;
            let n = FrameReader { frame_count: s.frame_count, consecutive_timeouts: t };
            if t > MAX_CONSECUTIVE_TIMEOUTS {
                (n, ReaderAction::Stop)
            } else {
                (n, ReaderAction::Wait { log: t % 10 == 0 })
            }
        },
        ReaderEvent::PeekData => (
            FrameReader { frame_count: s.frame_count, consecutive_timeouts: 0 },
            ReaderAction::Read,
        ),
        ReaderEvent::PeekWouldBlock => (s, ReaderAction::Retry),
        ReaderEvent::PeekFailed => (s, ReaderAction::Stop),
        ReaderEvent::PacketRead => {
            let c = (s.frame_count + 1) as u64;
            (
                FrameReader { frame_count: c, consecutive_timeouts: s.consecutive_timeouts },
                ReaderAction::Emit { log: c <= 5 || c % 50 == 0 },
            )
        },
        ReaderEvent::ReadWouldBlock => {
            let t = (s.consecutive_timeouts + 1) as u32;
            let n = FrameReader { frame_count: s.frame_count, consecutive_timeouts: t };
            if t > MAX_CONSECUTIVE_TIMEOUTS {
                (n, ReaderAction::Stop)
            } else {
                (n, ReaderAction::Retry)
            }
        },
        ReaderEvent::ReadFailed => (s, ReaderAction::Stop),
    }
}

impl FrameReader {
    /// The counters while the reader is still going: no more than the
    /// allowed run of timeouts.
    pub open spec fn wf(self) -> bool {
        self.consecutive_timeouts <= MAX_CONSECUTIVE_TIMEOUTS
    }

    /// A reader that has read nothing yet.
    pub fn new() -> (r: FrameReader)
        ensures
            r.frame_count == 0,
            r.consecutive_timeouts == 0,
            r.wf(),
    {
        FrameReader { frame_count: 0, consecutive_timeouts: 0 }
    }

    /// Takes one event and returns the action; the counters follow `reader_next`.
    pub fn step(&mut self, ev: ReaderEvent) -> (action: ReaderAction)
        requires
            old(self).wf(),
            ev == ReaderEvent::PacketRead ==> old(self).frame_count < u64::MAX,
        ensures
            (*final(self), action) == reader_next(*old(self), ev),
            action != ReaderAction::Stop ==> final(self).wf(),
    {
        match ev {
            ReaderEvent::Stopped => ReaderAction::Stop,
            ReaderEvent::PeekEmpty => {
                self.consecutive_timeouts = self.consecutive_timeouts + 1;
                if self.consecutive_timeouts > MAX_CONSECUTIVE_TIMEOUTS {
                    ReaderAction::Stop
                } else {
                    ReaderAction::Wait { log: self.consecutive_timeouts % 10 == 0 }
                }
            },
            ReaderEvent::PeekData => {
                self.consecutive_timeouts = 0;
                ReaderAction::Read
            },
            ReaderEvent::PeekWouldBlock => ReaderAction::Retry,
            ReaderEvent::PeekFailed => ReaderAction::Stop,
            ReaderEvent::PacketRead => {
                self.frame_count = self.frame_count + 1;
                ReaderAction::Emit { log: self.frame_count <= 5 || self.frame_count % 50 == 0 }
            },
            ReaderEvent::ReadWouldBlock => {
                self.consecutive_timeouts = self.consecutive_timeouts + 1;
                if self.consecutive_timeouts > MAX_CONSECUTIVE_TIMEOUTS {
                    ReaderAction::Stop
                } else {
                    ReaderAction::Retry
                }
            },
            ReaderEvent::ReadFailed => ReaderAction::Stop,
        }
    }
}

/// The reader after `k` empty polls in a row, and whether it has stopped.
pub open spec fn after_empty_polls(s: FrameReader, k: nat) -> (FrameReader, bool)
    decreases k,
{
    if k == 0 {
        (s, false)
    } else {
        let (prev, stopped) = after_empty_polls(s, (k - 1) as nat);
        if stopped {
            (prev, true)
        } else {
            let (next, action) = reader_next(prev, ReaderEvent::PeekEmpty);
            (next, action == ReaderAction::Stop)
        }
    }
}

/// A reader that keeps finding no data gives up: from any state it may be
/// in, it stops within 101 empty polls, and not before the run of empty
/// polls exceeds 100.
pub proof fn lemma_reader_gives_up(s: FrameReader)
    requires
        s.wf(),
    ensures
        after_empty_polls(s, (MAX_CONSECUTIVE_TIMEOUTS + 1 - s.consecutive_timeouts) as nat).1,
        forall|k: nat|
            k <= MAX_CONSECUTIVE_TIMEOUTS - s.consecutive_timeouts ==> !(
            #[trigger] after_empty_polls(s, k)).1 && after_empty_polls(s, k).0.consecutive_timeouts
                == s.consecutive_timeouts + k,
{
    assert forall|k: nat| k <= MAX_CONSECUTIVE_TIMEOUTS - s.consecutive_timeouts implies !(
    #[trigger] after_empty_polls(s, k)).1 && after_empty_polls(s, k).0.consecutive_timeouts
        == s.consecutive_timeouts + k by {
        lemma_polls_counted(s, k);
    }
    let last = (MAX_CONSECUTIVE_TIMEOUTS - s.consecutive_timeouts) as nat;
    lemma_polls_counted(s, last);
}

proof fn lemma_polls_counted(s: FrameReader, k: nat)
    requires
        s.wf(),
        k <= MAX_CONSECUTIVE_TIMEOUTS - s.consecutive_timeouts,
    ensures
        !after_empty_polls(s, k).1,
        after_empty_polls(s, k).0.consecutive_timeouts == s.consecutive_timeouts + k,
        after_empty_polls(s, k).0.frame_count == s.frame_count,
    decreases k,
{
    if k > 0 {
        lemma_polls_counted(s, (k - 1) as nat);
    }
}


// ───────────────────────────── device commands ─────────────────────────────

/// The device-side command that starts scrcpy-server with the default
/// settings, using the forwarded socket.
pub open spec fn server_start_command_spec() -> Seq<char> {
    "CLASSPATH="@ + DEVICE_SERVER_PATH@ + " app_process / com.genymobile.scrcpy.Server "@
        + SCRCPY_SERVER_VERSION@ + " video_bit_rate="@ + decimal(DEFAULT_BITRATE as nat)
        + " max_fps="@ + decimal(DEFAULT_MAX_FPS as nat) + " max_size="@ + decimal(
        DEFAULT_MAX_WIDTH as nat,
    ) + " tunnel_forward=false"@
}

/// The device-side command that starts scrcpy-server.
pub fn server_start_command() -> (r: String)
    ensures
        r@ == server_start_command_spec(),
{
    let mut s = owned("CLASSPATH=");
    s.append(DEVICE_SERVER_PATH);
    s.append(" app_process / com.genymobile.scrcpy.Server ");
    s.append(SCRCPY_SERVER_VERSION);
    s.append(" video_bit_rate=");
    s.append(u64_to_string(DEFAULT_BITRATE as u64).as_str());
    s.append(" max_fps=");
    s.append(u64_to_string(DEFAULT_MAX_FPS as u64).as_str());
    s.append(" max_size=");
    s.append(u64_to_string(DEFAULT_MAX_WIDTH as u64).as_str());
    s.append(" tunnel_forward=false");
    s
}

/// The release URL of the scrcpy-server build that the command names.
pub open spec fn server_download_url_spec() -> Seq<char> {
    "https://github.com/Genymobile/scrcpy/releases/download/v"@ + SCRCPY_SERVER_VERSION@
        + "/scrcpy-server-v"@ + SCRCPY_SERVER_VERSION@
}

/// The release URL of the scrcpy-server build that the command names.
pub fn server_download_url() -> (r: String)
    ensures
        r@ == server_download_url_spec(),
{
    let mut s = owned("https://github.com/Genymobile/scrcpy/releases/download/v");
    s.append(SCRCPY_SERVER_VERSION);
    s.append("/scrcpy-server-v");
    s.append(SCRCPY_SERVER_VERSION);
    s
}

/// `tcp:PORT`.
pub open spec fn tcp_spec(port: u16) -> Seq<char> {
    "tcp:"@ + decimal(port as nat)
}

fn tcp_endpoint(port: u16) -> (r: String)
    ensures
        r@ == tcp_spec(port),
{
    let mut s = owned("tcp:");
    s.append(u64_to_string(port as u64).as_str());
    s
}

/// The adb arguments that forward local `port` to the server's socket.
pub fn forward_args(serial: &str, port: u16) -> (r: Vec<String>)
    ensures
        string_views(r@) == seq!["-s"@, serial@, "forward"@, tcp_spec(port), "localabstract:scrcpy"@],
{
    let mut r: Vec<String> = Vec::new();
    r.push(owned("-s"));
    r.push(owned(serial));
    r.push(owned("forward"));
    r.push(tcp_endpoint(port));
    r.push(owned("localabstract:scrcpy"));
    assert(string_views(r@) =~= seq!["-s"@, serial@, "forward"@, tcp_spec(port), "localabstract:scrcpy"@]);
    r
}

/// The adb arguments that remove the forward of local `port`.
pub fn forward_remove_args(serial: &str, port: u16) -> (r: Vec<String>)
    ensures
        string_views(r@) == seq!["-s"@, serial@, "forward"@, "--remove"@, tcp_spec(port)],
{
    let mut r: Vec<String> = Vec::new();
    r.push(owned("-s"));
    r.push(owned(serial));
    r.push(owned("forward"));
    r.push(owned("--remove"));
    r.push(tcp_endpoint(port));
    assert(string_views(r@) =~= seq!["-s"@, serial@, "forward"@, "--remove"@, tcp_spec(port)]);
    r
}

/// Whether the output of `ps -A` on the device shows scrcpy-server running.
pub fn server_process_alive(ps_output: &str) -> (r: bool)
    ensures
        r == contains_seq(ps_output@, "scrcpy"@),
{
    let out = chars_of(ps_output);
    let name = chars_of("scrcpy");
    contains_chars(out.as_slice(), name.as_slice())
}

/// The note kept about the port forward's output.
pub open spec fn forward_note_spec(stdout: Seq<char>, stderr: Seq<char>) -> Seq<char> {
    "Port forward result: stdout='"@ + trim(stdout) + "', stderr='"@ + trim(stderr) + "'"@
}

/// The note kept about the port forward's output.
pub fn forward_note(stdout: &str, stderr: &str) -> (r: String)
    ensures
        r@ == forward_note_spec(stdout@, stderr@),
{
    let o = chars_of(stdout);
    let (a, b) = trim_bounds(o.as_slice());
    let e = chars_of(stderr);
    let (c, d) = trim_bounds(e.as_slice());
    let mut s = owned("Port forward result: stdout='");
    append_chars(&mut s, sub_chars(o.as_slice(), a, b).as_slice());
    s.append("', stderr='");
    append_chars(&mut s, sub_chars(e.as_slice(), c, d).as_slice());
    s.append("'");
    s
}

// ───────────────────────────── local port ─────────────────────────────

/// The local ports tried for the forward, in order: 8888 to 8892, then
/// 9000 to 9999.
pub open spec fn port_candidates_spec() -> Seq<u16> {
    Seq::new(5, |i: int| (8888 + i) as u16) + Seq::new(1000, |i: int| (9000 + i) as u16)
}

/// The local ports tried for the forward, in order.
pub fn port_candidates() -> (r: Vec<u16>)
    ensures
        r@ == port_candidates_spec(),
{
    let mut r: Vec<u16> = Vec::new();
    let mut p: u16 = 8888;
    while p < 8893
        invariant
            8888 <= p <= 8893,
            r@ == Seq::new((p - 8888) as nat, |i: int| (8888 + i) as u16),
        decreases 8893 - p,
    {
        r.push(p);
        assert(r@ =~= Seq::new((p + 1 - 8888) as nat, |i: int| (8888 + i) as u16));
        p += 1;
    }
    let ghost head = r@;
    let mut q: u16 = 9000;
    while q < 10000
        invariant
            9000 <= q <= 10000,
            head == Seq::new(5, |i: int| (8888 + i) as u16),
            r@ == head + Seq::new((q - 9000) as nat, |i: int| (9000 + i) as u16),
        decreases 10000 - q,
    {
        r.push(q);
        assert(r@ =~= head + Seq::new((q + 1 - 9000) as nat, |i: int| (9000 + i) as u16));
        q += 1;
    }
    r
}

/// The first candidate found free, or 8888 when none is.
pub open spec fn chosen_port(candidates: Seq<u16>, free: Seq<bool>) -> u16
    decreases candidates.len(),
{
    if candidates.len() == 0 || free.len() == 0 {
        DEFAULT_LOCAL_PORT
    } else if free[0] {
        candidates[0]
    } else {
        chosen_port(candidates.drop_first(), free.drop_first())
    }
}

/// Picks the port for the forward: the first candidate whose bind test
/// succeeded (`free[i]` is the result for `candidates[i]`), else 8888.
pub fn pick_port(candidates: &[u16], free: &[bool]) -> (r: u16)
    ensures
        r == chosen_port(candidates@, free@),
{
    let mut i: usize = 0;
    assert(candidates@.skip(0) =~= candidates@);
    assert(free@.skip(0) =~= free@);
    while i < candidates.len() && i < free.len()
        invariant
            i <= candidates@.len(),
            i <= free@.len(),
            chosen_port(candidates@, free@) == chosen_port(
                candidates@.skip(i as int),
                free@.skip(i as int),
            ),
        decreases candidates@.len() - i,
    {
        if free[i] {
            assert(free@.skip(i as int)[0] == free@[i as int]);
            assert(candidates@.skip(i as int)[0] == candidates@[i as int]);
            return candidates[i];
        }
        assert(candidates@.skip(i as int).drop_first() =~= candidates@.skip(i + 1));
        assert(free@.skip(i as int).drop_first() =~= free@.skip(i + 1));
        i += 1;
    }
    DEFAULT_LOCAL_PORT
}

// ───────────────────────────── mirror results ─────────────────────────────

/// `ws://127.0.0.1:PORT`.
pub open spec fn mirror_url_spec(port: u16) -> Seq<char> {
    "ws://127.0.0.1:"@ + decimal(port as nat)
}

/// What starting the mirror reports: the local WebSocket URL when the
/// server process is alive on the device, the start error, or an error
/// saying that the process is not alive.
pub fn start_mirror_ws(started: Result<bool, String>, local_port: u16) -> (r: Result<String, String>)
    ensures
        match started {
            Ok(true) => r matches Ok(url) && url@ == mirror_url_spec(local_port),
            Ok(false) => r matches Err(e) && e@ == "scrcpy-server process not alive on device"@,
            Err(e) => r == Err::<String, String>(e),
        },
{
    match started {
        Ok(true) => {
            let mut s = owned("ws://127.0.0.1:");
            s.append(u64_to_string(local_port as u64).as_str());
            Ok(s)
        },
        Ok(false) => Err(owned("scrcpy-server process not alive on device")),
        Err(e) => Err(e),
    }
}


// ───────────────────────────── server set-up ─────────────────────────────

/// The views of a list of strings built from literals.
fn strings_of(parts: &[&str]) -> (r: Vec<String>)
    ensures
        string_views(r@) == parts@.map_values(|s: &str| s@),
{
    let mut r: Vec<String> = Vec::new();
    let mut k: usize = 0;
    while k < parts.len()
        invariant
            k <= parts@.len(),
            string_views(r@) == parts@.map_values(|s: &str| s@).take(k as int),
        decreases parts@.len() - k,
    {
        let ghost before = string_views(r@);
        let p = parts[k];
        r.push(owned(p));
        assert(string_views(r@) =~= before.push(p@));
        assert(parts@.map_values(|s: &str| s@).take(k + 1) =~= parts@.map_values(|s: &str| s@).take(
            k as int,
        ).push(parts@[k as int]@));
        assert(string_views(r@) =~= parts@.map_values(|s: &str| s@).take(k + 1));
        k += 1;
    }
    assert(parts@.map_values(|s: &str| s@).take(parts@.len() as int) =~= parts@.map_values(|s: &str| s@));
    r
}

/// The shell commands that clear an earlier server on the device: kill
/// any scrcpy process, force-stop its package, and remove the old jar.
pub fn server_cleanup_commands(serial: &str) -> (r: Vec<Vec<String>>)
    ensures
        r@.len() == 3,
        string_views(r@[0]@) == crate::device_controller::shell_args(serial@, seq!["pkill"@, "-9"@, "-f"@, "scrcpy"@]),
        string_views(r@[1]@) == crate::device_controller::shell_args(serial@, seq!["am"@, "force-stop"@, "org.genymobile.scrcpy"@]),
        string_views(r@[2]@) == crate::device_controller::shell_args(serial@, seq!["rm"@, "-f"@, DEVICE_SERVER_PATH@]),
{
    let kill = strings_of(&["pkill", "-9", "-f", "scrcpy"]);
    let stop = strings_of(&["am", "force-stop", "org.genymobile.scrcpy"]);
    let rm = strings_of(&["rm", "-f", DEVICE_SERVER_PATH]);
    let mut r: Vec<Vec<String>> = Vec::new();
    r.push(crate::device_controller::shell_command(serial, kill));
    r.push(crate::device_controller::shell_command(serial, stop));
    r.push(crate::device_controller::shell_command(serial, rm));
    r
}

/// The adb arguments that push the server jar to the device.
pub fn push_args(serial: &str, local_jar: &str) -> (r: Vec<String>)
    ensures
        string_views(r@) == seq!["-s"@, serial@, "push"@, local_jar@, DEVICE_SERVER_PATH@],
{
    let mut r: Vec<String> = Vec::new();
    r.push(owned("-s"));
    r.push(owned(serial));
    r.push(owned("push"));
    r.push(owned(local_jar));
    r.push(owned(DEVICE_SERVER_PATH));
    assert(string_views(r@) =~= seq!["-s"@, serial@, "push"@, local_jar@, DEVICE_SERVER_PATH@]);
    r
}

/// The adb arguments that make the pushed jar executable.
pub fn chmod_args(serial: &str) -> (r: Vec<String>)
    ensures
        string_views(r@) == crate::device_controller::shell_args(serial@, seq!["chmod"@, "755"@, DEVICE_SERVER_PATH@]),
{
    crate::device_controller::shell_command(serial, strings_of(&["chmod", "755", DEVICE_SERVER_PATH]))
}

/// The adb arguments that start the server on the device in the background.
pub fn server_launch_args(serial: &str) -> (r: Vec<String>)
    ensures
        string_views(r@) == crate::device_controller::shell_args(serial@, seq!["nohup"@, server_start_command_spec()]),
{
    let mut words: Vec<String> = Vec::new();
    words.push(owned("nohup"));
    words.push(server_start_command());
    assert(string_views(words@) =~= seq!["nohup"@, server_start_command_spec()]);
    crate::device_controller::shell_command(serial, words)
}

/// The `curl` arguments that download the server jar to `dest`.
pub fn server_download_args(dest: &str) -> (r: Vec<String>)
    ensures
        string_views(r@) == seq!["-sL"@, server_download_url_spec(), "-o"@, dest@],
{
    let mut r: Vec<String> = Vec::new();
    r.push(owned("-sL"));
    r.push(server_download_url());
    r.push(owned("-o"));
    r.push(owned(dest));
    r
}

/// The server jar after a download attempt into `path`: the path when
/// `curl` ran, exited with success and the file is there; otherwise an
/// error naming the version, the URL and what `curl` wrote to standard
/// error (or why it could not be run).
pub fn server_download_result(ran: Result<(bool, String), String>, file_exists: bool, path: String) -> (r: Result<String, String>)
    ensures
        match ran {
            Ok((true, _)) if file_exists => r == Ok::<String, String>(path),
            Ok((_, stderr)) => r matches Err(e) && e@ == "Failed to download scrcpy-server v"@
                + SCRCPY_SERVER_VERSION@ + " from "@ + server_download_url_spec() + ": "@ + stderr@,
            Err(err) => r matches Err(e) && e@ == "Failed to download scrcpy-server v"@
                + SCRCPY_SERVER_VERSION@ + " from "@ + server_download_url_spec() + ": "@ + err@,
        },
{
    let detail = match ran {
        Ok((ok, stderr)) => {
            if ok && file_exists {
                return Ok(path);
            }
            stderr
        },
        Err(err) => err,
    };
    let mut e = owned("Failed to download scrcpy-server v");
    e.append(SCRCPY_SERVER_VERSION);
    e.append(" from ");
    e.append(server_download_url().as_str());
    e.append(": ");
    e.append(detail.as_str());
    Err(e)
}

/// The error when the server could not be started on the device.
pub fn server_spawn_failure(error: &str) -> (r: String)
    ensures
        r@ == "Failed to start scrcpy-server: "@ + error@,
{
    let mut s = owned("Failed to start scrcpy-server: ");
    s.append(error);
    s
}

/// The adb arguments that press Power on the mirrored device.
pub fn power(serial: &str) -> (r: Vec<String>)
    ensures
        string_views(r@) == crate::device_controller::input_args(serial@, seq!["keyevent"@, "KEYCODE_POWER"@]),
{
    crate::device_controller::keyevent(serial, "KEYCODE_POWER")
}

/// The adb arguments that list the device's processes.
pub fn process_list_args(serial: &str) -> (r: Vec<String>)
    ensures
        string_views(r@) == crate::device_controller::shell_args(serial@, seq!["ps"@, "-A"@]),
{
    crate::device_controller::shell_command(serial, strings_of(&["ps", "-A"]))
}

/// The error when the jar could not be pushed.
pub fn push_failure(stderr: &str) -> (r: String)
    ensures
        r@ == "Failed to push scrcpy-server: "@ + stderr@,
{
    let mut s = owned("Failed to push scrcpy-server: ");
    s.append(stderr);
    s
}

/// The error when the port could not be forwarded.
pub fn forward_failure(stderr: &str) -> (r: String)
    ensures
        r@ == "Failed to forward port: "@ + stderr@,
{
    let mut s = owned("Failed to forward port: ");
    s.append(stderr);
    s
}

/// The notes kept while starting the server, for the frontend.
#[derive(Debug, Clone)]
pub struct StartNotes {
    pub text: String,
}

impl StartNotes {
    /// The notes after the port forward: its output, or that it could not run.
    pub fn after_forward(forward_output: Option<(String, String)>) -> (r: Self)
        ensures
            match forward_output {
                Some((o, e)) => r.text@ == forward_note_spec(o@, e@),
                None => r.text@ == "Port forward command failed to execute"@,
            },
    {
        match forward_output {
            Some((o, e)) => StartNotes { text: forward_note(o.as_str(), e.as_str()) },
            None => StartNotes { text: owned("Port forward command failed to execute") },
        }
    }

    /// Adds the command that starts the server.
    pub fn add_command(&mut self)
        ensures
            final(self).text@ == old(self).text@ + "\nscrcpy-server command: "@ + server_start_command_spec(),
    {
        self.text.append("\nscrcpy-server command: ");
        let c = server_start_command();
        self.text.append(c.as_str());
    }

    /// Adds whether the server process was found on the device.
    pub fn add_liveness(&mut self, alive: bool)
        ensures
            final(self).text@ == old(self).text@ + if alive {
                "\nscrcpy-server process found on device"@
            } else {
                "\nscrcpy-server process NOT found on device!"@
            },
    {
        if alive {
            self.text.append("\nscrcpy-server process found on device");
        } else {
            self.text.append("\nscrcpy-server process NOT found on device!");
        }
    }
}


// ───────────────────────────── start-up steps ─────────────────────────────

/// Where the start-up of the server stands.
#[derive(Debug, Clone, Copy, PartialEq, Eq, Structural)]
pub enum StartStage {
    Cleaning,
    FindingJar,
    Pushing,
    Probing,
    Forwarding,
    Launching,
    Checking,
    Done,
}

/// What the caller learnt from carrying out the last action.
#[derive(Debug)]
pub enum StartEvent {
    /// Any server already running on the device was stopped.
    CleanedUp,
    /// The local server jar, or why there is none.
    JarFound(Result<String, String>),
    /// Whether the push succeeded and what it wrote to stderr; `None` when
    /// the push command could not be run.
    PushRan(Option<(bool, String)>),
    /// For each local port candidate tried, in order, whether it was free.
    PortsProbed(Vec<bool>),
    /// Whether the forward succeeded, its stdout and its stderr; `None` when
    /// the forward command could not be run.
    ForwardRan(Option<(bool, String, String)>),
    /// Whether the server process could be spawned, and the error if not.
    Launched(Result<(), String>),
    /// The device's process list; `None` when it could not be read.
    ProcessesListed(Option<String>),
}

/// What the start-up asks of the caller next.
#[derive(Debug)]
pub enum StartAction {
    /// Stop any server on the device (the first two cleanup commands), then
    /// wait 200 ms.
    Cleanup,
    /// Find the local server jar, downloading it if needed.
    FindJar,
    /// Remove the old jar on the device (the third cleanup command), then
    /// push `jar`.
    Push { jar: String },
    /// Make the pushed jar executable, then test the port candidates in
    /// order, stopping at the first free one.
    ChmodAndProbe,
    /// Remove any forward of `port`, then forward it to the server's socket.
    Forward { port: u16 },
    /// Spawn the server on the device.
    Launch,
    /// Wait 2 s, then list the device's processes.
    ListProcesses,
    /// The start-up is over: whether the server process runs, or the error.
    Finish(Result<bool, String>),
}

/// The event that answers the action asked for at `stage`.
pub open spec fn answers(stage: StartStage, ev: StartEvent) -> bool {
    match stage {
        StartStage::Cleaning => ev is CleanedUp,
        StartStage::FindingJar => ev is JarFound,
        StartStage::Pushing => ev is PushRan,
        StartStage::Probing => ev is PortsProbed,
        StartStage::Forwarding => ev is ForwardRan,
        StartStage::Launching => ev is Launched,
        StartStage::Checking => ev is ProcessesListed,
        StartStage::Done => false,
    }
}

/// The stage after `ev`: the next one, or `Done` when `ev` ends the start-up
/// (no jar, a failed push, forward or spawn, or the process check).
pub open spec fn next_stage(ev: StartEvent) -> StartStage {
    match ev {
        StartEvent::CleanedUp => StartStage::FindingJar,
        StartEvent::JarFound(r) => if r is Ok {
            StartStage::Pushing
        } else {
            StartStage::Done
        },
        StartEvent::PushRan(p) => if p matches Some((false, _)) {
            StartStage::Done
        } else {
            StartStage::Probing
        },
        StartEvent::PortsProbed(_) => StartStage::Forwarding,
        StartEvent::ForwardRan(f) => if f matches Some((false, _, _)) {
            StartStage::Done
        } else {
            StartStage::Launching
        },
        StartEvent::Launched(r) => if r is Ok {
            StartStage::Checking
        } else {
            StartStage::Done
        },
        StartEvent::ProcessesListed(_) => StartStage::Done,
    }
}

/// The position of a stage in the start-up.
pub open spec fn stage_rank(stage: StartStage) -> int {
    match stage {
        StartStage::Cleaning => 0,
        StartStage::FindingJar => 1,
        StartStage::Pushing => 2,
        StartStage::Probing => 3,
        StartStage::Forwarding => 4,
        StartStage::Launching => 5,
        StartStage::Checking => 6,
        StartStage::Done => 7,
    }
}

/// The decisions of the server start-up: which command comes next, which
/// failure ends it, the local port chosen and the notes kept for the frontend.
pub struct ServerStart {
    pub stage: StartStage,
    pub port: u16,
    pub notes: StartNotes,
}

impl ServerStart {
    /// A start-up that begins by stopping any running server.
    pub fn new() -> (r: (ServerStart, StartAction))
        ensures
            r.0.stage == StartStage::Cleaning,
            r.0.port == DEFAULT_LOCAL_PORT,
            r.0.notes.text@ == Seq::<char>::empty(),
            r.1 is Cleanup,
    {
        (ServerStart { stage: StartStage::Cleaning, port: DEFAULT_LOCAL_PORT, notes: StartNotes { text: String::new() } }, StartAction::Cleanup)
    }

    /// Takes the outcome of the last action and says what to do next.
    pub fn step(&mut self, ev: StartEvent) -> (action: StartAction)
        requires
            answers(old(self).stage, ev),
        ensures
            final(self).stage == next_stage(ev),
            (action is Finish) <==> final(self).stage == StartStage::Done,
            match ev {
                StartEvent::CleanedUp => action is FindJar && final(self).port == old(self).port
                    && final(self).notes == old(self).notes,
                StartEvent::JarFound(Ok(jar)) => action == (StartAction::Push { jar })
                    && final(self).port == old(self).port && final(self).notes == old(self).notes,
                StartEvent::JarFound(Err(e)) => action == StartAction::Finish(Err(e)),
                StartEvent::PushRan(Some((false, stderr))) => action matches StartAction::Finish(
                    Err(m),
                ) && m@ == "Failed to push scrcpy-server: "@ + stderr@,
                StartEvent::PushRan(_) => action is ChmodAndProbe && final(self).port == old(self).port
                    && final(self).notes == old(self).notes,
                StartEvent::PortsProbed(free) => final(self).port == chosen_port(
                    port_candidates_spec(),
                    free@,
                ) && action == (StartAction::Forward { port: final(self).port })
                    && final(self).notes == old(self).notes,
                StartEvent::ForwardRan(Some((ok, out, err))) => final(self).port == old(self).port
                    && if ok {
                    &&& action is Launch
                    &&& final(self).notes.text@ == forward_note_spec(out@, err@)
                        + "\nscrcpy-server command: "@ + server_start_command_spec()
                } else {
                    &&& action matches StartAction::Finish(Err(m)) && m@ == "Failed to forward port: "@ + err@
                    &&& final(self).notes.text@ == forward_note_spec(out@, err@)
                },
                StartEvent::ForwardRan(None) => final(self).port == old(self).port && action is Launch
                    && final(self).notes.text@ == "Port forward command failed to execute"@
                    + "\nscrcpy-server command: "@ + server_start_command_spec(),
                StartEvent::Launched(Ok(())) => action is ListProcesses && final(self).port == old(self).port
                    && final(self).notes == old(self).notes,
                StartEvent::Launched(Err(e)) => action matches StartAction::Finish(Err(m)) && m@
                    == "Failed to start scrcpy-server: "@ + e@ && final(self).notes == old(self).notes,
                StartEvent::ProcessesListed(Some(ps)) => {
                    let alive = contains_seq(ps@, "scrcpy"@);
                    &&& action == StartAction::Finish(Ok(alive))
                    &&& final(self).notes.text@ == old(self).notes.text@ + if alive {
                        "\nscrcpy-server process found on device"@
                    } else {
                        "\nscrcpy-server process NOT found on device!"@
                    }
                },
                StartEvent::ProcessesListed(None) => action == StartAction::Finish(Ok(false))
                    && final(self).notes == old(self).notes,
            },
    {
        let ghost ev0 = ev;
        match ev {
            StartEvent::CleanedUp => {
                self.stage = StartStage::FindingJar;
                StartAction::FindJar
            },
            StartEvent::JarFound(Ok(jar)) => {
                self.stage = StartStage::Pushing;
                StartAction::Push { jar }
            },
            StartEvent::JarFound(Err(e)) => {
                self.stage = StartStage::Done;
                StartAction::Finish(Err(e))
            },
            StartEvent::PushRan(p) => {
                match p {
                    Some((false, stderr)) => {
                        self.stage = StartStage::Done;
                        StartAction::Finish(Err(push_failure(stderr.as_str())))
                    },
                    _ => {
                        self.stage = StartStage::Probing;
                        StartAction::ChmodAndProbe
                    },
                }
            },
            StartEvent::PortsProbed(free) => {
                let candidates = port_candidates();
                let port = pick_port(candidates.as_slice(), free.as_slice());
                self.port = port;
                self.stage = StartStage::Forwarding;
                StartAction::Forward { port }
            },
            StartEvent::ForwardRan(Some((ok, out, err))) => {
                let failure = forward_failure(err.as_str());
                self.notes = StartNotes::after_forward(Some((out, err)));
                if ok {
                    self.notes.add_command();
                    self.stage = StartStage::Launching;
                    StartAction::Launch
                } else {
                    self.stage = StartStage::Done;
                    StartAction::Finish(Err(failure))
                }
            },
            StartEvent::ForwardRan(None) => {
                self.notes = StartNotes::after_forward(None);
                self.notes.add_command();
                self.stage = StartStage::Launching;
                StartAction::Launch
            },
            StartEvent::Launched(Ok(())) => {
                self.stage = StartStage::Checking;
                StartAction::ListProcesses
            },
            StartEvent::Launched(Err(e)) => {
                self.stage = StartStage::Done;
                StartAction::Finish(Err(server_spawn_failure(e.as_str())))
            },
            StartEvent::ProcessesListed(Some(ps)) => {
                let alive = server_process_alive(ps.as_str());
                self.notes.add_liveness(alive);
                self.stage = StartStage::Done;
                StartAction::Finish(Ok(alive))
            },
            StartEvent::ProcessesListed(None) => {
                self.stage = StartStage::Done;
                StartAction::Finish(Ok(false))
            },
        }
    }
}

/// The start-up always moves forward: every answered action leads to a later
/// stage, so it ends, at `Done`, after at most seven actions.
pub proof fn lemma_start_moves_forward(stage: StartStage, ev: StartEvent)
    requires
        answers(stage, ev),
    ensures
        stage_rank(next_stage(ev)) > stage_rank(stage),
        stage_rank(next_stage(ev)) <= 7,
{
}

/// The places the server jar is looked for, in order: next to the
/// executable and in its `resources`, in a macOS bundle's `Resources`
/// (when the executable's directory has a parent), under the working
/// directory, in two system locations, and in the temporary directory.
pub open spec fn server_jar_candidates_spec(
    os: OS,
    exe_dir: Option<Seq<char>>,
    bundle_dir: Option<Seq<char>>,
    cwd: Seq<char>,
    temp_dir: Seq<char>,
) -> Seq<Seq<char>> {
    let beside = match exe_dir {
        Some(d) => seq![join_path(os, d, "scrcpy-server.jar"@), join_path(os, d, "resources/scrcpy-server.jar"@)]
            + match bundle_dir {
            Some(c) => seq![join_path(os, join_path(os, c, "Resources"@), "scrcpy-server.jar"@)],
            None => seq![],
        },
        None => seq![],
    };
    beside + seq![
        join_path(os, join_path(os, join_path(os, cwd, "src-tauri"@), "scrcpy-server"@), "scrcpy-server.jar"@),
        join_path(os, join_path(os, cwd, "scrcpy-server"@), "scrcpy-server.jar"@),
        "/usr/local/share/scrcpy-server.jar"@,
        "/opt/scrcpy-server/scrcpy-server.jar"@,
        join_path(os, temp_dir, "scrcpy-server.jar"@),
    ]
}

/// The places the server jar is looked for, in order.
pub fn server_jar_candidates(
    os: OS,
    exe_dir: Option<String>,
    bundle_dir: Option<String>,
    cwd: &str,
    temp_dir: &str,
) -> (r: Vec<String>)
    ensures
        string_views(r@) == server_jar_candidates_spec(os, opt_view(exe_dir), opt_view(bundle_dir), cwd@, temp_dir@),
{
    let mut r: Vec<String> = Vec::new();
    let ghost e = opt_view(exe_dir);
    let ghost b = opt_view(bundle_dir);
    match exe_dir {
        Some(d) => {
            r.push(join(os, d.as_str(), "scrcpy-server.jar"));
            r.push(join(os, d.as_str(), "resources/scrcpy-server.jar"));
            match bundle_dir {
                Some(c) => {
                    let res = join(os, c.as_str(), "Resources");
                    r.push(join(os, res.as_str(), "scrcpy-server.jar"));
                },
                None => {},
            }
        },
        None => {},
    }
    let ghost beside = string_views(r@);
    assert(beside =~= match e {
        Some(d) => seq![join_path(os, d, "scrcpy-server.jar"@), join_path(os, d, "resources/scrcpy-server.jar"@)]
            + match b {
            Some(c) => seq![join_path(os, join_path(os, c, "Resources"@), "scrcpy-server.jar"@)],
            None => seq![],
        },
        None => seq![],
    });
    let t = join(os, cwd, "src-tauri");
    let t2 = join(os, t.as_str(), "scrcpy-server");
    r.push(join(os, t2.as_str(), "scrcpy-server.jar"));
    let s = join(os, cwd, "scrcpy-server");
    r.push(join(os, s.as_str(), "scrcpy-server.jar"));
    r.push(owned("/usr/local/share/scrcpy-server.jar"));
    r.push(owned("/opt/scrcpy-server/scrcpy-server.jar"));
    r.push(join(os, temp_dir, "scrcpy-server.jar"));
    assert(string_views(r@) =~= server_jar_candidates_spec(os, e, b, cwd@, temp_dir@));
    r
}

/// The server jar to use: the first candidate that exists (`exists[i]`
/// tells for candidate `i`), else the temporary-directory path, where it
/// is then downloaded.
pub fn get_scrcpy_server_path(candidates: &Vec<String>, exists: &[bool], os: OS, temp_dir: &str) -> (r: String)
    ensures
        r@ == first_existing_spec(string_views(candidates@), exists@, join_path(os, temp_dir@, "scrcpy-server.jar"@)),
{
    first_existing(candidates, exists, join(os, temp_dir, "scrcpy-server.jar"))
}


/// A packet as the server writes it: the payload's length in four
/// big-endian bytes, then the payload.
pub open spec fn framed(payload: Seq<u8>) -> Seq<u8> {
    let n = payload.len();
    seq![(n / 16777216) as u8, ((n / 65536) % 256) as u8, ((n / 256) % 256) as u8, (n % 256) as u8]
        + payload
}

/// Reading a packet gives back exactly the payload that was framed, and
/// says how many bytes it took, whatever follows it on the wire.
pub proof fn lemma_packet_roundtrip(payload: Seq<u8>, rest: Seq<u8>)
    requires
        payload.len() < 0x1_0000_0000,
    ensures
        first_packet(framed(payload) + rest) == Some((payload, 4 + payload.len() as int)),
{
    let n = payload.len();
    let buf = framed(payload) + rest;
    let b0 = (n / 16777216) as u8;
    let b1 = ((n / 65536) % 256) as u8;
    let b2 = ((n / 256) % 256) as u8;
    let b3 = (n % 256) as u8;
    assert(buf[0] == b0 && buf[1] == b1 && buf[2] == b2 && buf[3] == b3);
    assert(be_u32(b0, b1, b2, b3) == n) by (nonlinear_arith)
        requires
            n < 0x1_0000_0000,
            b0 == (n / 16777216) as u8,
            b1 == ((n / 65536) % 256) as u8,
            b2 == ((n / 256) % 256) as u8,
            b3 == (n % 256) as u8,
    {
        assert(n / 16777216 < 256);
        assert((n / 16777216) as u8 == n / 16777216);
        assert(((n / 65536) % 256) as u8 == (n / 65536) % 256);
        assert(((n / 256) % 256) as u8 == (n / 256) % 256);
        assert((n % 256) as u8 == n % 256);
    }
    assert(buf.subrange(4, 4 + n as int) =~= payload);
}

/// A read timeout while a frame is awaited never ends the reading on its
/// own: the reader counts it and retries as long as the run of timeouts stays
/// within `MAX_CONSECUTIVE_TIMEOUTS`, and stops only once the run exceeds it;
/// the frame count is untouched.
pub proof fn lemma_read_timeout_retries(s: FrameReader)
    requires
        s.wf(),
    ensures
        reader_next(s, ReaderEvent::ReadWouldBlock).0.consecutive_timeouts == s.consecutive_timeouts + 1,
        reader_next(s, ReaderEvent::ReadWouldBlock).0.frame_count == s.frame_count,
        s.consecutive_timeouts + 1 <= MAX_CONSECUTIVE_TIMEOUTS ==> reader_next(
            s,
            ReaderEvent::ReadWouldBlock,
        ).1 == ReaderAction::Retry,
        s.consecutive_timeouts + 1 > MAX_CONSECUTIVE_TIMEOUTS ==> reader_next(
            s,
            ReaderEvent::ReadWouldBlock,
        ).1 == ReaderAction::Stop,
{
}

} // verus!
