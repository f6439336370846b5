//! The logic behind the frontend's commands: reading the OAuth callback,
//! deriving the web app's URL from the API's, the tail of the agent log,
//! the checks before calling the device registry, the mirror's control
//! actions, and the records sent back to the frontend.
use vstd::prelude::*;
use crate::text::{
    owned, chars_of, string_of, find_chars, sub_chars, split_on_char, split_words, has_prefix,
    replace_chars, split_lines, join_strings, u64_to_string, lemma_find_from, occurs_at, views,
    string_views, find_seq, split_on, words, starts_with, replace_all, lines, join_with, decimal,
    contains_seq, opt_view,
};
use crate::config_store::ConfigStore;
use crate::dependency_manager::OS;

verus! {

// ───────────────────────────── OAuth callback ─────────────────────────────

/// `s` percent-decoded, the bytes then read as UTF-8 with invalid
/// sequences replaced.
pub uninterp spec fn percent_decoded(s: Seq<char>) -> Seq<char>;

/// `percent_encoding::percent_decode_str(s).decode_utf8_lossy()`: each `%`
/// followed by two hex digits becomes that byte, and the bytes are read
/// as UTF-8 lossily. A string without `%` comes back unchanged.
#[verifier::external_body]
fn percent_decode(s: &str) -> (r: String)
    ensures
        r@ == percent_decoded(s@),
        !contains_seq(s@, "%"@) ==> r@ == s@,
{
    percent_encoding::percent_decode_str(s).decode_utf8_lossy().to_string()
}

/// A query value: the first word after the `key=` prefix of `key_len`
/// characters (empty when there is none), percent-decoded.
pub open spec fn query_value(param: Seq<char>, key_len: int) -> Seq<char> {
    let ws = words(param.skip(key_len));
    percent_decoded(
        if ws.len() > 0 {
            ws[0]
        } else {
            Seq::empty()
        },
    )
}

/// The user ID and email in the query parameters, the last one of each
/// key winning, starting from `user_id` and `email`.
pub open spec fn callback_fields(params: Seq<Seq<char>>, user_id: Seq<char>, email: Seq<char>) -> (Seq<char>, Seq<char>)
    decreases params.len(),
{
    if params.len() == 0 {
        (user_id, email)
    } else if starts_with(params[0], "user_id="@) {
        callback_fields(params.drop_first(), query_value(params[0], 8), email)
    } else if starts_with(params[0], "email="@) {
        callback_fields(params.drop_first(), user_id, query_value(params[0], 6))
    } else {
        callback_fields(params.drop_first(), user_id, email)
    }
}

/// What an HTTP request to the OAuth callback server yields: nothing when
/// it is not a `/callback?` request; otherwise the user ID and email from
/// the query (split at `&`), or an error when there is no user ID.
pub open spec fn oauth_callback_spec(request: Seq<char>) -> Option<Result<(Seq<char>, Seq<char>), Seq<char>>> {
    match find_seq(request, "/callback?"@) {
        None => None,
        Some(i) => {
            let (u, e) = callback_fields(split_on(request.skip(i + 10), '&'), Seq::empty(), Seq::empty());
            Some(
                if u.len() > 0 {
                    Ok((u, e))
                } else {
                    Err("No user_id in callback"@)
                },
            )
        },
    }
}

/// The view of a callback result.
pub open spec fn callback_view(r: Option<Result<(String, String), String>>) -> Option<Result<(Seq<char>, Seq<char>), Seq<char>>> {
    match r {
        None => None,
        Some(Ok((u, e))) => Some(Ok((u@, e@))),
        Some(Err(m)) => Some(Err(m@)),
    }
}

/// The decoded value of a `key=value` parameter.
fn param_value(param: &[char], key_len: usize) -> (r: String)
    requires
        key_len <= param@.len(),
    ensures
        r@ == query_value(param@, key_len as int),
{
    let rest = sub_chars(param, key_len, param.len());
    assert(rest@ =~= param@.skip(key_len as int));
    let ws = split_words(rest.as_slice());
    let word = if ws.len() > 0 {
        assert(views(ws@)[0] == ws@[0]@);
        string_of(ws[0].as_slice())
    } else {
        String::new()
    };
    percent_decode(word.as_str())
}

/// Reads the user ID and email from the request the browser sent to the
/// OAuth callback server.
pub fn parse_oauth_callback(request: &str) -> (r: Option<Result<(String, String), String>>)
    ensures
        callback_view(r) == oauth_callback_spec(request@),
{
    let req = chars_of(request);
    let marker = chars_of("/callback?");
    proof {
        reveal_strlit("/callback?");
    }
    let start = match find_chars(req.as_slice(), marker.as_slice()) {
        Some(i) => i,
        None => {
            return None;
        },
    };
    proof {
        lemma_find_from(req@, "/callback?"@, 0);
    }
    assert(occurs_at(req@, "/callback?"@, start as int));
    let n = req.len();
    let query = sub_chars(req.as_slice(), start + 10, n);
    assert(query@ =~= request@.skip(start + 10));
    let params = split_on_char(query.as_slice(), '&');
    let uid_key = chars_of("user_id=");
    let email_key = chars_of("email=");
    proof {
        reveal_strlit("user_id=");
        reveal_strlit("email=");
    }
    let mut user_id = String::new();
    let mut email = String::new();
    let ghost ps = views(params@);
    let mut k: usize = 0;
    assert(ps.skip(0) =~= ps);
    while k < params.len()
        invariant
            ps == views(params@),
            k <= params@.len(),
            uid_key@ == "user_id="@,
            email_key@ == "email="@,
            uid_key@.len() == 8,
            email_key@.len() == 6,
            callback_fields(ps, Seq::empty(), Seq::empty()) == callback_fields(
                ps.skip(k as int),
                user_id@,
                email@,
            ),
        decreases params@.len() - k,
    {
        let p = params[k].as_slice();
        assert(ps.skip(k as int)[0] == params@[k as int]@);
        assert(ps.skip(k as int).drop_first() =~= ps.skip(k + 1));
        if has_prefix(p, uid_key.as_slice()) {
            user_id = param_value(p, 8);
        } else if has_prefix(p, email_key.as_slice()) {
            email = param_value(p, 6);
        }
        k += 1;
    }
    assert(ps.skip(k as int).len() == 0);
    if user_id.as_str().is_empty() {
        Some(Err(owned("No user_id in callback")))
    } else {
        Some(Ok((user_id, email)))
    }
}

// ───────────────────────────── web app URL ─────────────────────────────

/// The web app's URL for an API URL, as the sign-in flow derives it:
/// `://api.` becomes `://app.`, `://api/` becomes `://app/`, `/api` is
/// dropped and `amos-api.` becomes `app.amos.`, in that order.
pub open spec fn frontend_url_spec(api_url: Seq<char>) -> Seq<char> {
    replace_all(
        replace_all(
            replace_all(replace_all(api_url, "://api."@, "://app."@), "://api/"@, "://app/"@),
            "/api"@,
            Seq::empty(),
        ),
        "amos-api."@,
        "app.amos."@,
    )
}

/// The web app's URL for an API URL.
pub fn frontend_url(api_url: &str) -> (r: String)
    ensures
        r@ == frontend_url_spec(api_url@),
{
    proof {
        reveal_strlit("://api.");
        reveal_strlit("://api/");
        reveal_strlit("/api");
        reveal_strlit("amos-api.");
    }
    let u = chars_of(api_url);
    let a = replace_chars(u.as_slice(), chars_of("://api.").as_slice(), chars_of("://app.").as_slice());
    let b = replace_chars(a.as_slice(), chars_of("://api/").as_slice(), chars_of("://app/").as_slice());
    let empty: Vec<char> = Vec::new();
    let c = replace_chars(b.as_slice(), chars_of("/api").as_slice(), empty.as_slice());
    assert(empty@ =~= Seq::<char>::empty());
    let d = replace_chars(c.as_slice(), chars_of("amos-api.").as_slice(), chars_of("app.amos.").as_slice());
    string_of(d.as_slice())
}

/// The backend endpoint that hands out the Google sign-in URL, with the
/// local callback server on `port` as the place to come back to.
pub open spec fn google_url_endpoint_spec(frontend: Seq<char>, port: u16) -> Seq<char> {
    frontend + "/api/auth/companion/google-url?callbackUrl="@ + "http://127.0.0.1:"@ + decimal(
        port as nat,
    )
}

/// The backend endpoint that hands out the Google sign-in URL.
pub fn google_url_endpoint(frontend: &str, port: u16) -> (r: String)
    ensures
        r@ == google_url_endpoint_spec(frontend@, port),
{
    let mut s = owned(frontend);
    s.append("/api/auth/companion/google-url?callbackUrl=");
    s.append("http://127.0.0.1:");
    s.append(u64_to_string(port as u64).as_str());
    s
}

// ───────────────────────────── agent log ─────────────────────────────

/// Lines of the agent log shown to the user.
pub const LOG_TAIL_LINES: usize = 50;

/// The last `n` lines of `content`, joined by newlines.
pub open spec fn tail_spec(content: Seq<char>, n: nat) -> Seq<char> {
    let ls = lines(content);
    join_with(
        if ls.len() > n {
            ls.skip(ls.len() - n)
        } else {
            ls
        },
        "\n"@,
    )
}

/// The last `n` lines of `content`, joined by newlines.
pub fn tail_lines(content: &str, n: usize) -> (r: String)
    ensures
        r@ == tail_spec(content@, n as nat),
{
    let c = chars_of(content);
    let ls = split_lines(c.as_slice());
    let start: usize = if ls.len() > n {
        ls.len() - n
    } else {
        0
    };
    let mut kept: Vec<String> = Vec::new();
    let mut k: usize = start;
    while k < ls.len()
        invariant
            start <= k <= ls@.len(),
            string_views(kept@) == views(ls@).subrange(start as int, k as int),
        decreases ls@.len() - k,
    {
        let ghost before = string_views(kept@);
        kept.push(string_of(ls[k].as_slice()));
        assert(views(ls@)[k as int] == ls@[k as int]@);
        assert(string_views(kept@) =~= before.push(ls@[k as int]@));
        assert(string_views(kept@) =~= views(ls@).subrange(start as int, k + 1));
        k += 1;
    }
    assert(views(ls@).subrange(start as int, ls@.len() as int) =~= (if views(ls@).len() > n {
        views(ls@).skip(views(ls@).len() - n)
    } else {
        views(ls@)
    }));
    join_strings(&kept, "\n")
}

// ───────────────────────────── registry requests ─────────────────────────────

/// The API URL, user ID and workspace ID that a registry call needs, or why
/// it cannot be made: not logged in, no workspace, or no API URL (checked
/// in that order).
pub fn registry_request(store: &ConfigStore) -> (r: Result<(String, String, String), String>)
    ensures
        store@.config.user_id is None ==> (r matches Err(e) && e@ == "Not logged in"@),
        store@.config.user_id is Some && store@.config.workspace_id is None ==> (r matches Err(e)
            && e@ == "No workspace"@),
        store@.config.user_id is Some && store@.config.workspace_id is Some
            && store@.config.api_url.len() == 0 ==> (r matches Err(e) && e@
            == "API URL not configured"@),
        store@.config.user_id is Some && store@.config.workspace_id is Some
            && store@.config.api_url.len() > 0 ==> (r matches Ok((url, user, ws)) && url@
            == store@.config.api_url && Some(user@) == store@.config.user_id && Some(ws@)
            == store@.config.workspace_id),
{
    let user_id = match store.get_user_id() {
        Some(u) => u,
        None => {
            return Err(owned("Not logged in"));
        },
    };
    let workspace_id = match store.get_workspace_id() {
        Some(w) => w,
        None => {
            return Err(owned("No workspace"));
        },
    };
    let api_url = store.get_api_url();
    if api_url.as_str().is_empty() {
        return Err(owned("API URL not configured"));
    }
    Ok((api_url, user_id, workspace_id))
}

// ───────────────────────────── mirror control ─────────────────────────────

/// The adb arguments for a mirror control action (`back`, `home`,
/// `enter`), or an error naming an unknown action.
pub fn mirror_action(serial: &str, action: &str) -> (r: Result<Vec<String>, String>)
    ensures
        action@ == "back"@ ==> (r matches Ok(a) && string_views(a@)
            == crate::device_controller::input_args(serial@, seq!["keyevent"@, "KEYCODE_BACK"@])),
        action@ == "home"@ ==> (r matches Ok(a) && string_views(a@)
            == crate::device_controller::input_args(serial@, seq!["keyevent"@, "KEYCODE_HOME"@])),
        action@ == "enter"@ ==> (r matches Ok(a) && string_views(a@)
            == crate::device_controller::input_args(serial@, seq!["keyevent"@, "KEYCODE_ENTER"@])),
        action@ != "back"@ && action@ != "home"@ && action@ != "enter"@ ==> (r matches Err(e)
            && e@ == "Unknown action: "@ + action@),
{
    proof {
        reveal_strlit("back");
        reveal_strlit("home");
        reveal_strlit("enter");
        assert("home"@[0] != "back"@[0]);
        assert("home"@ != "back"@);
        assert("enter"@.len() != "back"@.len());
        assert("enter"@.len() != "home"@.len());
    }
    let a = owned(action);
    if a == owned("back") {
        Ok(crate::device_controller::back(serial))
    } else if a == owned("home") {
        Ok(crate::device_controller::home(serial))
    } else if a == owned("enter") {
        Ok(crate::device_controller::enter(serial))
    } else {
        let mut e = owned("Unknown action: ");
        e.append(action);
        Err(e)
    }
}

/// What a mirror start reports to the frontend.
#[derive(Debug, Clone)]
pub struct ScrcpyStreamInfo {
    pub width: u32,
    pub height: u32,
    pub running: bool,
    pub event_name: String,
}

impl ScrcpyStreamInfo {
    /// The report after starting scrcpy-server: its size when the server
    /// process is alive on the device, zero size and not running otherwise.
    pub fn from_start(width: u32, height: u32, process_alive: bool) -> (r: Self)
        ensures
            r.running == process_alive,
            r.width == if process_alive { width } else { 0 },
            r.height == if process_alive { height } else { 0 },
            r.event_name@ == crate::scrcpy_server::SCRCPY_FRAME_EVENT@,
    {
        if process_alive {
            ScrcpyStreamInfo { width, height, running: true, event_name: owned(crate::scrcpy_server::SCRCPY_FRAME_EVENT) }
        } else {
            ScrcpyStreamInfo { width: 0, height: 0, running: false, event_name: owned(crate::scrcpy_server::SCRCPY_FRAME_EVENT) }
        }
    }
}

/// What the screen-record stream reports to the frontend.
#[derive(Debug, Clone)]
pub struct StreamInfo {
    pub width: u32,
    pub height: u32,
    pub running: bool,
    pub event_name: String,
}

impl StreamInfo {
    /// The report for a stream of the given size and state.
    pub fn new(width: u32, height: u32, running: bool) -> (r: Self)
        ensures
            r.width == width && r.height == height && r.running == running,
            r.event_name@ == crate::video_stream::VIDEO_FRAME_EVENT@,
    {
        StreamInfo { width, height, running, event_name: owned(crate::video_stream::VIDEO_FRAME_EVENT) }
    }
}

/// What a failed read of the reply as JSON is reported as: reqwest's
/// wording for a body it could not decode.
pub open spec fn oauth_parse_failure() -> Seq<char> {
    "Failed to parse OAuth response: error decoding response body"@
}

/// The Google sign-in URL from the reply's `url` field as the JSON reader
/// found it: the string, an error when the field is missing or not a
/// string, or the decoding error when the reply is not JSON.
pub fn oauth_url_from_field(field: Result<crate::scrcpy_server::JsonField, String>) -> (r: Result<String, String>)
    ensures
        match field {
            Ok(crate::scrcpy_server::JsonField::Text(u)) => r == Ok::<String, String>(u),
            Ok(_) => r matches Err(e) && e@ == "No URL in OAuth response"@,
            Err(_) => r matches Err(e) && e@ == oauth_parse_failure(),
        },
{
    match field {
        Ok(crate::scrcpy_server::JsonField::Text(u)) => Ok(u),
        Ok(_) => Err(owned("No URL in OAuth response")),
        Err(_) => Err(owned("Failed to parse OAuth response: error decoding response body")),
    }
}

/// The Google sign-in URL in the backend's reply: its `url` string, the
/// decoding error when the reply is not JSON, or an error when it has no
/// such string.
pub fn oauth_url_from_reply(body: &[u8]) -> (r: Result<String, String>)
    ensures
        match crate::scrcpy_server::json_object_field(body@, "url"@) {
            Some(crate::scrcpy_server::JsonFieldView::Text(u)) => r matches Ok(s) && s@ == u,
            Some(_) => r matches Err(e) && e@ == "No URL in OAuth response"@,
            None => r matches Err(e) && e@ == oauth_parse_failure(),
        },
{
    oauth_url_from_field(crate::scrcpy_server::json_field(body, "url"))
}

/// The page the browser shows after the OAuth callback was received.
pub const OAUTH_CALLBACK_RESPONSE: &'static str = "HTTP/1.1 200 OK\r\nContent-Type: text/html\r\n\r\n<!DOCTYPE html><html><head><title>AMOS Companion</title></head><body><h1>Login Successful!</h1><p>You can close this window and return to AMOS Companion.</p><script>window.close();</script></body></html>";

/// How many times the OAuth callback server checks for the browser's
/// connection, one check every [`OAUTH_POLL_INTERVAL_MS`] milliseconds
/// (two minutes in all); it stops after the first connection.
pub const OAUTH_CALLBACK_POLLS: u32 = 1200;

/// Milliseconds between two checks of the OAuth callback server.
pub const OAUTH_POLL_INTERVAL_MS: u64 = 100;

/// Seconds the sign-in waits for the OAuth callback.
pub const OAUTH_WAIT_SECS: u64 = 120;

/// The AMOS web UI's device page.
pub const WEB_UI_DEVICES_URL: &'static str = "https://app.amos.moo-vpn.online/devices";

/// The program and arguments that open `url` in the user's browser:
/// `open` on macOS, `xdg-open` on Linux, `cmd /C start "" URL` on Windows.
pub fn open_url_command(os: OS, url: &str) -> (r: (String, Vec<String>))
    ensures
        os == OS::Macos ==> r.0@ == "open"@ && string_views(r.1@) == seq![url@],
        os == OS::Linux ==> r.0@ == "xdg-open"@ && string_views(r.1@) == seq![url@],
        os == OS::Windows ==> r.0@ == "cmd"@ && string_views(r.1@) == seq!["/C"@, "start"@, ""@, url@],
{
    let mut args: Vec<String> = Vec::new();
    match os {
        OS::Macos => {
            args.push(owned(url));
            (owned("open"), args)
        },
        OS::Linux => {
            args.push(owned(url));
            (owned("xdg-open"), args)
        },
        OS::Windows => {
            args.push(owned("/C"));
            args.push(owned("start"));
            args.push(owned(""));
            args.push(owned(url));
            assert(string_views(args@) =~= seq!["/C"@, "start"@, ""@, url@]);
            (owned("cmd"), args)
        },
    }
}

/// What the OAuth flow reports once the wait for the callback is over:
/// the user and email it carried, its error, or a timeout.
pub fn oauth_wait_result(received: Option<Result<(String, String), String>>) -> (r: Result<(String, String), String>)
    ensures
        match received {
            Some(x) => r == x,
            None => r matches Err(e) && e@ == "OAuth login timed out. Please try again."@,
        },
{
    match received {
        Some(x) => x,
        None => Err(owned("OAuth login timed out. Please try again.")),
    }
}

/// Where the device-agent is and whether it is installed.
#[derive(Debug, Clone)]
pub struct DeviceAgentStatus {
    pub installed: bool,
    pub path: String,
    pub os: String,
}

/// `OS ARCH`, for logging.
pub fn get_os_info(os: &str, arch: &str) -> (r: String)
    ensures
        r@ == os@ + " "@ + arch@,
{
    let mut s = owned(os);
    s.append(" ");
    s.append(arch);
    s
}

} // verus!
