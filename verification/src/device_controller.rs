//! Android device control over adb: the argument lists of the input
//! commands, the parsing of `adb devices -l`, of `wm size`, of the battery
//! level and of the model name, and the encoding of a screenshot.
use vstd::prelude::*;
use base64::Engine;
use crate::dependency_manager::CommandOutcome;
use crate::text::{
    chars_of, split_lines, split_words, has_prefix, trim_start_matches, string_of, trim_bounds,
    find_chars, sub_chars, parse_i32_chars, replace_chars, owned, i64_to_string, lines, words,
    starts_with, strip_prefix_all, trim, find_seq, parse_i32, replace_all, int_decimal,
    string_views, views, lemma_find_from, occurs_at, opt_view,
};

verus! {

/// A connected Android device as the companion reports it.
#[derive(Debug, Clone)]
pub struct DeviceInfo {
    pub serial: String,
    pub model: String,
    pub status: String,
    pub resolution: Option<String>,
    pub battery: Option<i32>,
}

/// The mathematical value of a [`DeviceInfo`].
pub struct DeviceInfoView {
    pub serial: Seq<char>,
    pub model: Seq<char>,
    pub status: Seq<char>,
    pub resolution: Option<Seq<char>>,
    pub battery: Option<i32>,
}

impl View for DeviceInfo {
    type V = DeviceInfoView;

    open spec fn view(&self) -> DeviceInfoView {
        DeviceInfoView {
            serial: self.serial@,
            model: self.model@,
            status: self.status@,
            resolution: opt_view(self.resolution),
            battery: self.battery,
        }
    }
}

/// The devices that `adb devices -l` lists.
#[derive(Debug, Clone)]
pub struct DeviceList {
    pub devices: Vec<DeviceInfo>,
}

/// The views of a sequence of devices.
pub open spec fn device_views(v: Seq<DeviceInfo>) -> Seq<DeviceInfoView> {
    v.map_values(|d: DeviceInfo| d@)
}

// ───────────────────────────── adb devices -l ─────────────────────────────

/// The first word of `ws` that starts with `"model:"`, without that prefix.
pub open spec fn model_word(ws: Seq<Seq<char>>) -> Option<Seq<char>>
    decreases ws.len(),
{
    if ws.len() == 0 {
        None
    } else if starts_with(ws[0], "model:"@) {
        Some(strip_prefix_all(ws[0], "model:"@))
    } else {
        model_word(ws.drop_first())
    }
}

/// The device that one line of `adb devices -l` describes: serial and state
/// are the first two words, the model comes from a later `model:` word
/// (`Unknown` when there is none). Lines of fewer than two words describe none.
pub open spec fn device_of_line(line: Seq<char>) -> Option<DeviceInfoView> {
    let ws = words(line);
    if ws.len() < 2 {
        None
    } else {
        Some(
            DeviceInfoView {
                serial: ws[0],
                model: match model_word(ws.skip(2)) {
                    Some(m) => m,
                    None => "Unknown"@,
                },
                status: ws[1],
                resolution: None,
                battery: None,
            },
        )
    }
}

/// The devices described by the lines `ls`, in order.
pub open spec fn devices_of_lines(ls: Seq<Seq<char>>) -> Seq<DeviceInfoView>
    decreases ls.len(),
{
    if ls.len() == 0 {
        seq![]
    } else {
        match device_of_line(ls[0]) {
            Some(d) => seq![d] + devices_of_lines(ls.drop_first()),
            None => devices_of_lines(ls.drop_first()),
        }
    }
}

/// The devices that the output of `adb devices -l` lists: every line after
/// the first (`List of devices attached`) that describes one.
pub open spec fn adb_devices(out: Seq<char>) -> Seq<DeviceInfoView> {
    let ls = lines(out);
    if ls.len() == 0 {
        seq![]
    } else {
        devices_of_lines(ls.drop_first())
    }
}

/// The model named by a `model:` word after the serial and state, if any.
pub(crate) fn find_model_word(ws: &Vec<Vec<char>>) -> (r: Option<Vec<char>>)
    requires
        ws@.len() >= 2,
    ensures
        match r {
            Some(m) => model_word(views(ws@).skip(2)) == Some(m@),
            None => model_word(views(ws@).skip(2)) is None,
        },
{
    let prefix = chars_of("model:");
    let mut k: usize = 2;
    assert(views(ws@).skip(2) =~= views(ws@).skip(k as int));
    while k < ws.len()
        invariant
            2 <= k <= ws@.len(),
            prefix@ == "model:"@,
            model_word(views(ws@).skip(2)) == model_word(views(ws@).skip(k as int)),
        decreases ws@.len() - k,
    {
        assert(views(ws@).skip(k as int)[0] == ws@[k as int]@);
        if has_prefix(ws[k].as_slice(), prefix.as_slice()) {
            return Some(trim_start_matches(ws[k].as_slice(), prefix.as_slice()));
        }
        assert(views(ws@).skip(k as int).drop_first() =~= views(ws@).skip(k + 1));
        k += 1;
    }
    assert(views(ws@).skip(k as int).len() == 0);
    None
}

/// The model in the words after the serial and state, `Unknown` if none.
fn model_of_words(ws: &Vec<Vec<char>>) -> (r: String)
    requires
        ws@.len() >= 2,
    ensures
        r@ == match model_word(views(ws@).skip(2)) {
            Some(m) => m,
            None => "Unknown"@,
        },
{
    match find_model_word(ws) {
        Some(m) => string_of(m.as_slice()),
        None => owned("Unknown"),
    }
}

/// The device described by one line of `adb devices -l`, if any.
fn device_from_line(line: &[char]) -> (r: Option<DeviceInfo>)
    ensures
        match r {
            Some(d) => device_of_line(line@) == Some(d@),
            None => device_of_line(line@) is None,
        },
{
    let ws = split_words(line);
    if ws.len() < 2 {
        return None;
    }
    let serial = string_of(ws[0].as_slice());
    let status = string_of(ws[1].as_slice());
    let model = model_of_words(&ws);
    Some(DeviceInfo { serial, model, status, resolution: None, battery: None })
}

/// Parses the output of `adb devices -l` into the devices it lists.
pub fn parse_adb_devices(output: &str) -> (r: Vec<DeviceInfo>)
    ensures
        device_views(r@) == adb_devices(output@),
{
    let chars = chars_of(output);
    let ls = split_lines(chars.as_slice());
    let mut out: Vec<DeviceInfo> = Vec::new();
    if ls.len() == 0 {
        return out;
    }
    let ghost all = views(ls@).drop_first();
    let mut k: usize = 1;
    assert(all.skip(0) =~= all);
    while k < ls.len()
        invariant
            1 <= k <= ls@.len(),
            all == views(ls@).drop_first(),
            adb_devices(output@) == device_views(out@) + devices_of_lines(all.skip(k - 1)),
        decreases ls@.len() - k,
    {
        assert(all.skip(k - 1)[0] == ls@[k as int]@);
        assert(all.skip(k - 1).drop_first() =~= all.skip(k as int));
        let ghost old_out = device_views(out@);
        match device_from_line(ls[k].as_slice()) {
            Some(d) => {
                out.push(d);
                assert(device_views(out@) =~= old_out.push(d@));
                assert(old_out.push(d@) + devices_of_lines(all.skip(k as int)) =~= old_out + (
                seq![d@] + devices_of_lines(all.skip(k as int))));
            },
            None => {},
        }
        k += 1;
    }
    assert(all.skip(k - 1) =~= Seq::<Seq<char>>::empty());
    assert(device_views(out@) + Seq::<DeviceInfoView>::empty() =~= device_views(out@));
    out
}

/// The device list built from the output of `adb devices -l`, or the error
/// that running adb gave.
pub fn list_devices(adb_output: Result<String, String>) -> (r: Result<DeviceList, String>)
    ensures
        match adb_output {
            Ok(out) => r matches Ok(list) && device_views(list.devices@) == adb_devices(out@),
            Err(e) => r == Err::<DeviceList, String>(e),
        },
{
    match adb_output {
        Ok(out) => {
            let devices = parse_adb_devices(out.as_str());
            Ok(DeviceList { devices })
        },
        Err(e) => Err(e),
    }
}


// ───────────────────────────── device details ─────────────────────────────

/// The text between the first and the second `:` of `line` (to the end of
/// the line when there is no second one), if `line` holds a `:`.
pub open spec fn colon_field(line: Seq<char>) -> Option<Seq<char>> {
    match find_seq(line, ":"@) {
        Some(k) => {
            let rest = line.skip(k + 1);
            match find_seq(rest, ":"@) {
                Some(j) => Some(rest.take(j)),
                None => Some(rest),
            }
        },
        None => None,
    }
}

/// The trimmed field after the first `:` of the first line of `out`.
pub open spec fn first_line_field(out: Seq<char>) -> Option<Seq<char>> {
    let ls = lines(out);
    if ls.len() == 0 {
        None
    } else {
        match colon_field(ls[0]) {
            Some(f) => Some(trim(f)),
            None => None,
        }
    }
}

/// The battery level in the output of `dumpsys battery | grep level`.
pub open spec fn battery_level(out: Seq<char>) -> Option<i32> {
    match first_line_field(out) {
        Some(f) => parse_i32(f),
        None => None,
    }
}

/// The text between the first and second `:` of `line`.
fn colon_field_of(line: &[char]) -> (r: Option<Vec<char>>)
    ensures
        match r {
            Some(v) => colon_field(line@) == Some(v@),
            None => colon_field(line@) is None,
        },
{
    let colon = chars_of(":");
    proof {
        reveal_strlit(":");
    }
    match find_chars(line, colon.as_slice()) {
        Some(k) => {
            proof {
                lemma_find_from(line@, ":"@, 0);
            }
            assert(occurs_at(line@, ":"@, k as int));
            let n = line.len();
            let rest = sub_chars(line, k + 1, n);
            assert(rest@ =~= line@.skip(k + 1));
            match find_chars(rest.as_slice(), colon.as_slice()) {
                Some(j) => {
                    proof {
                        lemma_find_from(rest@, ":"@, 0);
                    }
                    assert(occurs_at(rest@, ":"@, j as int));
                    let f = sub_chars(rest.as_slice(), 0, j);
                    assert(f@ =~= rest@.take(j as int));
                    Some(f)
                },
                None => Some(rest),
            }
        },
        None => None,
    }
}

/// The trimmed field after the first `:` of the first line of `out`.
fn first_line_field_of(out: &str) -> (r: Option<Vec<char>>)
    ensures
        match r {
            Some(v) => first_line_field(out@) == Some(v@),
            None => first_line_field(out@) is None,
        },
{
    let chars = chars_of(out);
    let ls = split_lines(chars.as_slice());
    if ls.len() == 0 {
        return None;
    }
    assert(views(ls@)[0] == ls@[0]@);
    match colon_field_of(ls[0].as_slice()) {
        Some(f) => {
            let (a, b) = trim_bounds(f.as_slice());
            Some(sub_chars(f.as_slice(), a, b))
        },
        None => None,
    }
}

/// The device's details from the outputs of `wm size`, of
/// `dumpsys battery | grep level` and of `getprop ro.product.model`.
pub fn get_device_info(serial: &str, size_output: &str, battery_output: &str, model_output: &str) -> (r: DeviceInfo)
    ensures
        r@ == (DeviceInfoView {
            serial: serial@,
            model: trim(model_output@),
            status: "device"@,
            resolution: first_line_field(size_output@),
            battery: battery_level(battery_output@),
        }),
{
    let resolution = match first_line_field_of(size_output) {
        Some(f) => Some(string_of(f.as_slice())),
        None => None,
    };
    let battery = match first_line_field_of(battery_output) {
        Some(f) => parse_i32_chars(f.as_slice()),
        None => None,
    };
    let model_chars = chars_of(model_output);
    let (a, b) = trim_bounds(model_chars.as_slice());
    let model = string_of(sub_chars(model_chars.as_slice(), a, b).as_slice());
    DeviceInfo { serial: owned(serial), model, status: owned("device"), resolution, battery }
}

// ───────────────────────────── input commands ─────────────────────────────

/// The adb arguments that run `input` on the device with the arguments `tail`.
pub open spec fn input_args(serial: Seq<char>, tail: Seq<Seq<char>>) -> Seq<Seq<char>> {
    seq!["-s"@, serial, "shell"@, "input"@] + tail
}

/// The adb arguments that run the shell command `words` on the device.
pub open spec fn shell_args(serial: Seq<char>, words: Seq<Seq<char>>) -> Seq<Seq<char>> {
    seq!["-s"@, serial, "shell"@] + words
}

/// The adb arguments that run the shell command `words` on the device.
pub fn shell_command(serial: &str, words: Vec<String>) -> (r: Vec<String>)
    ensures
        string_views(r@) == shell_args(serial@, string_views(words@)),
{
    let mut r: Vec<String> = Vec::new();
    r.push(owned("-s"));
    r.push(owned(serial));
    r.push(owned("shell"));
    let ghost head = string_views(r@);
    let ghost t = string_views(words@);
    let n = words.len();
    let mut k: usize = 0;
    while k < n
        invariant
            n == words@.len(),
            t == string_views(words@),
            k <= n,
            string_views(r@) == head + t.take(k as int),
        decreases n - k,
    {
        let ghost before = string_views(r@);
        r.push(words[k].clone());
        assert(t[k as int] == words@[k as int]@);
        assert(string_views(r@) =~= before.push(t[k as int]));
        assert(t.take(k + 1) =~= t.take(k as int).push(t[k as int]));
        k += 1;
    }
    assert(t.take(n as int) =~= t);
    assert(head =~= seq!["-s"@, serial@, "shell"@]);
    r
}

/// The adb arguments that run `input` on the device with the arguments `tail`.
fn input_command(serial: &str, tail: Vec<String>) -> (r: Vec<String>)
    ensures
        string_views(r@) == input_args(serial@, string_views(tail@)),
{
    let mut r: Vec<String> = Vec::new();
    r.push(owned("-s"));
    r.push(owned(serial));
    r.push(owned("shell"));
    r.push(owned("input"));
    let ghost head = string_views(r@);
    let ghost t = string_views(tail@);
    let mut k: usize = 0;
    let n = tail.len();
    while k < n
        invariant
            n == tail@.len(),
            t == string_views(tail@),
            k <= n,
            string_views(r@) == head + t.take(k as int),
        decreases n - k,
    {
        let s = tail[k].clone();
        let ghost before = string_views(r@);
        r.push(s);
        assert(t[k as int] == tail@[k as int]@);
        assert(string_views(r@) =~= before.push(t[k as int]));
        assert(t.take(k + 1) =~= t.take(k as int).push(t[k as int]));
        assert(string_views(r@) =~= head + t.take(k + 1));
        k += 1;
    }
    assert(t.take(n as int) =~= t);
    assert(head =~= seq!["-s"@, serial@, "shell"@, "input"@]);
    r
}

/// The adb arguments that tap the screen at (`x`, `y`).
pub fn tap(serial: &str, x: i32, y: i32) -> (args: Vec<String>)
    ensures
        string_views(args@) == input_args(
            serial@,
            seq!["tap"@, int_decimal(x as int), int_decimal(y as int)],
        ),
{
    let mut tail: Vec<String> = Vec::new();
    tail.push(owned("tap"));
    tail.push(i64_to_string(x as i64));
    tail.push(i64_to_string(y as i64));
    assert(string_views(tail@) =~= seq!["tap"@, int_decimal(x as int), int_decimal(y as int)]);
    input_command(serial, tail)
}

/// The adb arguments that swipe from (`x1`, `y1`) to (`x2`, `y2`) in
/// `duration_ms` milliseconds.
pub fn swipe(serial: &str, x1: i32, y1: i32, x2: i32, y2: i32, duration_ms: i32) -> (args: Vec<String>)
    ensures
        string_views(args@) == input_args(
            serial@,
            seq![
                "swipe"@,
                int_decimal(x1 as int),
                int_decimal(y1 as int),
                int_decimal(x2 as int),
                int_decimal(y2 as int),
                int_decimal(duration_ms as int),
            ],
        ),
{
    let mut tail: Vec<String> = Vec::new();
    tail.push(owned("swipe"));
    tail.push(i64_to_string(x1 as i64));
    tail.push(i64_to_string(y1 as i64));
    tail.push(i64_to_string(x2 as i64));
    tail.push(i64_to_string(y2 as i64));
    tail.push(i64_to_string(duration_ms as i64));
    assert(string_views(tail@) =~= seq![
        "swipe"@,
        int_decimal(x1 as int),
        int_decimal(y1 as int),
        int_decimal(x2 as int),
        int_decimal(y2 as int),
        int_decimal(duration_ms as int),
    ]);
    input_command(serial, tail)
}

/// `text` as `input text` needs it: each space written `%s`, the result then
/// put in single quotes for the device shell, each `'` inside written `'\''`.
pub open spec fn escape_input_text(text: Seq<char>) -> Seq<char> {
    seq!['\''] + replace_all(replace_all(text, " "@, "%s"@), "'"@, "'\\''"@) + seq!['\'']
}

/// What a POSIX shell makes of `s` as a single word when `s` is built only of
/// single-quoted runs and backslash-escaped characters (`quoted` tells whether
/// a quote is open at its start): the characters it stands for, with nothing
/// expanded or split. `None` where `s` holds anything the shell would read
/// otherwise: an unquoted character other than `'` and `\`, a `\` at the end
/// or before a newline, or a quote left open.
pub open spec fn shell_word(s: Seq<char>, quoted: bool) -> Option<Seq<char>>
    decreases s.len(),
{
    if s.len() == 0 {
        if quoted {
            None
        } else {
            Some(Seq::empty())
        }
    } else if quoted {
        if s[0] == '\'' {
            shell_word(s.drop_first(), false)
        } else {
            match shell_word(s.drop_first(), true) {
                Some(w) => Some(seq![s[0]] + w),
                None => None,
            }
        }
    } else if s[0] == '\'' {
        shell_word(s.drop_first(), true)
    } else if s[0] == '\\' && s.len() >= 2 && s[1] != '\n' {
        match shell_word(s.skip(2), false) {
            Some(w) => Some(seq![s[1]] + w),
            None => None,
        }
    } else {
        None
    }
}

/// `text` with spaces written `%s`, in single quotes, each `'` written `'\''`.
pub fn escape_text(text: &str) -> (r: String)
    ensures
        r@ == escape_input_text(text@),
{
    let chars = chars_of(text);
    let space = chars_of(" ");
    let percent_s = chars_of("%s");
    let quote = chars_of("'");
    let escaped_quote = chars_of("'\\''");
    proof {
        reveal_strlit(" ");
        reveal_strlit("'");
    }
    let step = replace_chars(chars.as_slice(), space.as_slice(), percent_s.as_slice());
    let body = replace_chars(step.as_slice(), quote.as_slice(), escaped_quote.as_slice());
    let mut r = String::new();
    crate::text::push_char(&mut r, '\'');
    crate::text::append_chars(&mut r, body.as_slice());
    crate::text::push_char(&mut r, '\'');
    assert(r@ =~= escape_input_text(text@));
    r
}

/// The adb arguments that type `text` on the device.
pub fn text(serial: &str, input: &str) -> (args: Vec<String>)
    ensures
        string_views(args@) == input_args(serial@, seq!["text"@, escape_input_text(input@)]),
{
    let mut tail: Vec<String> = Vec::new();
    tail.push(owned("text"));
    tail.push(escape_text(input));
    assert(string_views(tail@) =~= seq!["text"@, escape_input_text(input@)]);
    input_command(serial, tail)
}

/// The adb arguments that send the key event `keycode`.
pub fn keyevent(serial: &str, keycode: &str) -> (args: Vec<String>)
    ensures
        string_views(args@) == input_args(serial@, seq!["keyevent"@, keycode@]),
{
    let mut tail: Vec<String> = Vec::new();
    tail.push(owned("keyevent"));
    tail.push(owned(keycode));
    assert(string_views(tail@) =~= seq!["keyevent"@, keycode@]);
    input_command(serial, tail)
}

/// The adb arguments that press Back.
pub fn back(serial: &str) -> (args: Vec<String>)
    ensures
        string_views(args@) == input_args(serial@, seq!["keyevent"@, "KEYCODE_BACK"@]),
{
    keyevent(serial, "KEYCODE_BACK")
}

/// The adb arguments that press Home.
pub fn home(serial: &str) -> (args: Vec<String>)
    ensures
        string_views(args@) == input_args(serial@, seq!["keyevent"@, "KEYCODE_HOME"@]),
{
    keyevent(serial, "KEYCODE_HOME")
}

/// The adb arguments that press Enter.
pub fn enter(serial: &str) -> (args: Vec<String>)
    ensures
        string_views(args@) == input_args(serial@, seq!["keyevent"@, "KEYCODE_ENTER"@]),
{
    keyevent(serial, "KEYCODE_ENTER")
}


// ───────────────────────────── screenshots ─────────────────────────────

/// The character of the standard base64 alphabet for a six-bit value:
/// `A`-`Z`, `a`-`z`, `0`-`9`, `+`, `/`.
pub open spec fn base64_char(v: int) -> char {
    if v < 26 {
        (65 + v) as char
    } else if v < 52 {
        (97 + v - 26) as char
    } else if v < 62 {
        (48 + v - 52) as char
    } else if v == 62 {
        '+'
    } else {
        '/'
    }
}

/// The standard base64 encoding of `bytes` (RFC 4648): each group of three
/// bytes, read as a 24-bit big-endian number, gives four characters of six
/// bits each; a last group of one or two bytes is padded with zero bits and
/// completed with `=` to four characters.
pub open spec fn base64_standard(bytes: Seq<u8>) -> Seq<char>
    decreases bytes.len(),
{
    if bytes.len() == 0 {
        seq![]
    } else if bytes.len() == 1 {
        let n = bytes[0] as int;
        seq![base64_char(n / 4), base64_char((n % 4) * 16), '=', '=']
    } else if bytes.len() == 2 {
        let n = (bytes[0] as int) * 256 + (bytes[1] as int);
        seq![base64_char(n / 1024), base64_char((n / 16) % 64), base64_char((n % 16) * 4), '=']
    } else {
        let n = (bytes[0] as int) * 65536 + (bytes[1] as int) * 256 + (bytes[2] as int);
        seq![base64_char(n / 262144), base64_char((n / 4096) % 64), base64_char((n / 64) % 64), base64_char(n % 64)]
            + base64_standard(bytes.skip(3))
    }
}

/// Base64 text has four characters per started group of three bytes.
pub proof fn lemma_base64_len(bytes: Seq<u8>)
    ensures
        base64_standard(bytes).len() == 4 * ((bytes.len() + 2) / 3),
    decreases bytes.len(),
{
    if bytes.len() >= 3 {
        lemma_base64_len(bytes.skip(3));
    }
}

/// `base64::engine::general_purpose::STANDARD.encode`: the standard
/// alphabet with `=` padding, as [`base64_standard`] states it. The encoder
/// panics when the encoded length overflows `usize`, which the
/// precondition rules out.
#[verifier::external_body]
fn base64_encode(bytes: &[u8]) -> (r: String)
    requires
        bytes@.len() / 3 * 4 + 4 <= usize::MAX,
    ensures
        r@ == base64_standard(bytes@),
{
    base64::engine::general_purpose::STANDARD.encode(bytes)
}

/// The eight bytes that every PNG file begins with.
pub open spec fn png_signature() -> Seq<u8> {
    seq![0x89u8, 0x50u8, 0x4Eu8, 0x47u8, 0x0Du8, 0x0Au8, 0x1Au8, 0x0Au8]
}

/// Whether `data` begins with the PNG signature.
pub open spec fn is_png(data: Seq<u8>) -> bool {
    data.len() >= 8 && data.take(8) == png_signature()
}

/// The message for screenshot bytes that are not a PNG image.
pub open spec fn invalid_png_message(len: nat) -> Seq<char> {
    "Invalid PNG data: "@ + crate::text::decimal(len) + " bytes"@
}

/// The screenshot as base64 text, or an error when the bytes are not a PNG image.
pub fn encode_screenshot(png_data: &[u8]) -> (r: Result<String, String>)
    requires
        png_data@.len() / 3 * 4 + 4 <= usize::MAX,
    ensures
        is_png(png_data@) ==> (r matches Ok(s) && s@ == base64_standard(png_data@)),
        !is_png(png_data@) ==> (r matches Err(e) && e@ == invalid_png_message(png_data@.len())),
{
    let ok = png_data.len() >= 8 && png_data[0] == 0x89u8 && png_data[1] == 0x50u8 && png_data[2]
        == 0x4Eu8 && png_data[3] == 0x47u8 && png_data[4] == 0x0Du8 && png_data[5] == 0x0Au8
        && png_data[6] == 0x1Au8 && png_data[7] == 0x0Au8;
    if ok {
        assert(png_data@.take(8) =~= png_signature());
        Ok(base64_encode(png_data))
    } else {
        assert(!is_png(png_data@)) by {
            if png_data@.len() >= 8 && png_data@.take(8) == png_signature() {
                assert(png_data@[0] == png_data@.take(8)[0]);
                assert(png_data@[1] == png_data@.take(8)[1]);
                assert(png_data@[2] == png_data@.take(8)[2]);
                assert(png_data@[3] == png_data@.take(8)[3]);
                assert(png_data@[4] == png_data@.take(8)[4]);
                assert(png_data@[5] == png_data@.take(8)[5]);
                assert(png_data@[6] == png_data@.take(8)[6]);
                assert(png_data@[7] == png_data@.take(8)[7]);
            }
        }
        let mut msg = owned("Invalid PNG data: ");
        msg.append(crate::text::u64_to_string(png_data.len() as u64).as_str());
        msg.append(" bytes");
        Err(msg)
    }
}


// ───────────────────────────── screenshot flow ─────────────────────────────

/// Where the fallback screenshot is written on the device.
pub const DEVICE_SCREENSHOT_PATH: &'static str = "/sdcard/amos_screen.png";

/// The adb arguments that stream a PNG screenshot to standard output.
pub fn screenshot_exec_out_args(serial: &str) -> (r: Vec<String>)
    ensures
        string_views(r@) == seq!["-s"@, serial@, "exec-out"@, "screencap"@, "-p"@],
{
    let mut r: Vec<String> = Vec::new();
    r.push(owned("-s"));
    r.push(owned(serial));
    r.push(owned("exec-out"));
    r.push(owned("screencap"));
    r.push(owned("-p"));
    assert(string_views(r@) =~= seq!["-s"@, serial@, "exec-out"@, "screencap"@, "-p"@]);
    r
}

/// The adb arguments that write a screenshot to the device's storage.
pub fn screenshot_capture_args(serial: &str) -> (r: Vec<String>)
    ensures
        string_views(r@) == seq!["-s"@, serial@, "shell"@, "screencap"@, "-p"@, DEVICE_SCREENSHOT_PATH@],
{
    let mut r: Vec<String> = Vec::new();
    r.push(owned("-s"));
    r.push(owned(serial));
    r.push(owned("shell"));
    r.push(owned("screencap"));
    r.push(owned("-p"));
    r.push(owned(DEVICE_SCREENSHOT_PATH));
    assert(string_views(r@) =~= seq!["-s"@, serial@, "shell"@, "screencap"@, "-p"@, DEVICE_SCREENSHOT_PATH@]);
    r
}

/// The adb arguments that copy the device's screenshot to `local_path`.
pub fn screenshot_pull_args(serial: &str, local_path: &str) -> (r: Vec<String>)
    ensures
        string_views(r@) == seq!["-s"@, serial@, "pull"@, DEVICE_SCREENSHOT_PATH@, local_path@],
{
    let mut r: Vec<String> = Vec::new();
    r.push(owned("-s"));
    r.push(owned(serial));
    r.push(owned("pull"));
    r.push(owned(DEVICE_SCREENSHOT_PATH));
    r.push(owned(local_path));
    assert(string_views(r@) =~= seq!["-s"@, serial@, "pull"@, DEVICE_SCREENSHOT_PATH@, local_path@]);
    r
}

/// The adb arguments that delete the device's screenshot.
pub fn screenshot_cleanup_args(serial: &str) -> (r: Vec<String>)
    ensures
        string_views(r@) == seq!["-s"@, serial@, "shell"@, "rm"@, DEVICE_SCREENSHOT_PATH@],
{
    let mut r: Vec<String> = Vec::new();
    r.push(owned("-s"));
    r.push(owned(serial));
    r.push(owned("shell"));
    r.push(owned("rm"));
    r.push(owned(DEVICE_SCREENSHOT_PATH));
    assert(string_views(r@) =~= seq!["-s"@, serial@, "shell"@, "rm"@, DEVICE_SCREENSHOT_PATH@]);
    r
}

/// The PNG that `exec-out screencap` produced, when it succeeded with
/// output; otherwise the file-based fallback is needed.
pub fn exec_out_png(outcome: &CommandOutcome, stdout: Vec<u8>) -> (r: Option<Vec<u8>>)
    ensures
        (*outcome matches CommandOutcome::Succeeded) && stdout@.len() > 0 ==> r == Some(stdout),
        !((*outcome matches CommandOutcome::Succeeded) && stdout@.len() > 0) ==> r is None,
{
    match outcome {
        CommandOutcome::Succeeded => {
            if stdout.len() > 0 {
                Some(stdout)
            } else {
                None
            }
        },
        _ => None,
    }
}

/// The error text of one fallback step, if it failed. When the first
/// attempt could not run adb at all, the fallback goes through the
/// generic adb runner and its error wording (`ADB command failed: …`,
/// `Failed to run adb (PATH): …`); otherwise the raw error is used.
pub open spec fn step_error(via_runner: bool, adb_path: Seq<char>, outcome: CommandOutcome) -> Option<Seq<char>> {
    match outcome {
        CommandOutcome::Succeeded => None,
        CommandOutcome::Failed(stderr) => Some(
            if via_runner {
                "ADB command failed: "@ + stderr@
            } else {
                stderr@
            },
        ),
        CommandOutcome::NotRun(e) => Some(
            if via_runner {
                "Failed to run adb ("@ + adb_path + "): "@ + e@
            } else {
                e@
            },
        ),
    }
}

/// The error of a failed fallback step, prefixed with what failed
/// (`Failed to capture screenshot` or `Failed to pull screenshot`).
pub fn fallback_step_error(context: &str, via_runner: bool, adb_path: &str, outcome: &CommandOutcome) -> (r: Option<String>)
    ensures
        match step_error(via_runner, adb_path@, *outcome) {
            Some(e) => r matches Some(m) && m@ == context@ + ": "@ + e,
            None => r is None,
        },
{
    let detail = match outcome {
        CommandOutcome::Succeeded => {
            return None;
        },
        CommandOutcome::Failed(stderr) => {
            if via_runner {
                let mut e = owned("ADB command failed: ");
                e.append(stderr.as_str());
                e
            } else {
                stderr.clone()
            }
        },
        CommandOutcome::NotRun(err) => {
            if via_runner {
                crate::adb::adb_spawn_error(adb_path, err.as_str())
            } else {
                err.clone()
            }
        },
    };
    let mut m = owned(context);
    m.append(": ");
    m.append(detail.as_str());
    Some(m)
}

/// The screenshot read back from the local file, or an error when it is empty.
pub fn pulled_png(data: Vec<u8>) -> (r: Result<Vec<u8>, String>)
    ensures
        data@.len() > 0 ==> r == Ok::<Vec<u8>, String>(data),
        data@.len() == 0 ==> (r matches Err(e) && e@ == "Screenshot data is empty"@),
{
    if data.len() == 0 {
        Err(owned("Screenshot data is empty"))
    } else {
        Ok(data)
    }
}


/// The device shell reads text escaped for `input text` as one word and
/// hands `input` exactly the text with its spaces written `%s`: no character
/// of the text is expanded, split or run as a command.
pub proof fn lemma_escaped_text_is_shell_literal(text: Seq<char>)
    ensures
        shell_word(escape_input_text(text), false) == Some(replace_all(text, " "@, "%s"@)),
{
    let u = replace_all(text, " "@, "%s"@);
    let body = replace_all(u, "'"@, "'\\''"@);
    lemma_quoted_body(u);
    let s = escape_input_text(text);
    assert(s.drop_first() =~= body + seq!['\'']);
}

/// Inside an open quote, the quoted body of `u` followed by the closing quote
/// reads back as `u`.
proof fn lemma_quoted_body(u: Seq<char>)
    ensures
        shell_word(replace_all(u, "'"@, "'\\''"@) + seq!['\''], true) == Some(u),
    decreases u.len(),
{
    reveal_strlit("'");
    reveal_strlit("'\\''");
    let q: Seq<char> = "'"@;
    let e: Seq<char> = "'\\''"@;
    assert(q =~= seq!['\'']);
    assert(e =~= seq!['\'', '\\', '\'', '\'']);
    let b = replace_all(u, q, e);
    if u.len() == 0 {
        assert(b =~= Seq::<char>::empty());
        let s = b + seq!['\''];
        assert(s[0] == '\'');
        assert(s.drop_first() =~= Seq::<char>::empty());
        assert(shell_word(s.drop_first(), false) == Some(Seq::<char>::empty()));
        assert(u =~= Seq::<char>::empty());
    } else {
        assert(u.take(1) =~= seq![u[0]]);
        let rest = u.drop_first();
        assert(u.skip(1) =~= rest);
        lemma_quoted_body(rest);
        let tail = replace_all(rest, q, e) + seq!['\''];
        let s = b + seq!['\''];
        assert(seq![u[0]] + rest =~= u);
        if u[0] == '\'' {
            assert(b =~= e + replace_all(rest, q, e));
            let s1 = s.drop_first();
            assert(s1 =~= seq!['\\', '\'', '\''] + tail);
            let s2 = s1.skip(2);
            assert(s2 =~= seq!['\''] + tail);
            assert(s2.drop_first() =~= tail);
            assert(shell_word(s2, false) == Some(rest));
            assert(shell_word(s1, false) == Some(seq!['\''] + rest));
            assert(shell_word(s, true) == shell_word(s1, false));
        } else {
            assert(u.take(1)[0] != q[0]);
            assert(b =~= seq![u[0]] + replace_all(rest, q, e));
            assert(s[0] == u[0]);
            assert(s.drop_first() =~= tail);
            assert(shell_word(s, true) == Some(seq![u[0]] + rest));
        }
    }
}

/// Whether a line of `adb devices -l` names a device: it has at least a
/// serial and a state word.
pub open spec fn names_device() -> spec_fn(Seq<char>) -> bool {
    |l: Seq<char>| words(l).len() >= 2
}

/// Every line with at least two words gives one device, in order, whose
/// serial is its first word and whose state is its second, whatever that
/// state says; no other line gives one.
pub proof fn lemma_device_per_line(ls: Seq<Seq<char>>)
    ensures
        devices_of_lines(ls).len() == ls.filter(names_device()).len(),
        forall|i: int|
            0 <= i < devices_of_lines(ls).len() ==> (#[trigger] devices_of_lines(ls)[i]).serial
                == words(ls.filter(names_device())[i])[0] && devices_of_lines(ls)[i].status == words(
                ls.filter(names_device())[i],
            )[1],
    decreases ls.len(),
{
    if ls.len() > 0 {
        let p = names_device();
        let rest = ls.drop_first();
        lemma_device_per_line(rest);
        assert(ls =~= seq![ls[0]] + rest);
        Seq::filter_distributes_over_add(seq![ls[0]], rest, p);
        reveal_with_fuel(Seq::filter, 2);
        assert(seq![ls[0]].drop_last() =~= Seq::<Seq<char>>::empty());
        let f = ls.filter(p);
        let fr = rest.filter(p);
        if p(ls[0]) {
            assert(seq![ls[0]].filter(p) =~= seq![ls[0]]);
            assert(f =~= seq![ls[0]] + fr);
            assert forall|i: int| 0 <= i < devices_of_lines(ls).len() implies (
            #[trigger] devices_of_lines(ls)[i]).serial == words(f[i])[0] && devices_of_lines(ls)[i].status
                == words(f[i])[1] by {
                if i > 0 {
                    assert(devices_of_lines(ls)[i] == devices_of_lines(rest)[i - 1]);
                    assert(f[i] == fr[i - 1]);
                }
            }
        } else {
            assert(seq![ls[0]].filter(p) =~= Seq::<Seq<char>>::empty());
            assert(f =~= fr);
        }
    }
}

/// Every line after the heading of `adb devices -l` that has at least two
/// words lists a device, with its first word as serial and its second as
/// state, in order; the devices listed are exactly those lines.
pub proof fn lemma_adb_devices_lists_every_line(out: Seq<char>)
    requires
        lines(out).len() > 0,
    ensures
        adb_devices(out).len() == lines(out).drop_first().filter(names_device()).len(),
        forall|i: int|
            0 <= i < adb_devices(out).len() ==> (#[trigger] adb_devices(out)[i]).serial == words(
                lines(out).drop_first().filter(names_device())[i],
            )[0] && adb_devices(out)[i].status == words(
                lines(out).drop_first().filter(names_device())[i],
            )[1],
{
    lemma_device_per_line(lines(out).drop_first());
}

} // verus!
