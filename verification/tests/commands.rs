use amos_companion::scrcpy_server::JsonField;
use amos_companion::commands::{
    OAUTH_CALLBACK_POLLS, OAUTH_POLL_INTERVAL_MS, OAUTH_WAIT_SECS,
    oauth_url_from_field, oauth_wait_result, open_url_command, OAUTH_CALLBACK_RESPONSE, WEB_UI_DEVICES_URL,
    frontend_url, get_os_info, google_url_endpoint, mirror_action, oauth_url_from_reply,
    parse_oauth_callback, registry_request, tail_lines, ScrcpyStreamInfo, StreamInfo,
    LOG_TAIL_LINES,
};
use amos_companion::config_store::ConfigStore;
use amos_companion::dependency_manager::OS;

fn strs(v: &[&str]) -> Vec<String> {
    v.iter().map(|s| s.to_string()).collect()
}

#[test]
fn callback_gives_user_and_email() {
    let req = "GET /callback?user_id=42&email=jane%40example.com HTTP/1.1\r\nHost: 127.0.0.1\r\n\r\n";
    assert_eq!(
        parse_oauth_callback(req),
        Some(Ok(("42".to_string(), "jane@example.com".to_string())))
    );
}

#[test]
fn callback_without_user_id_is_an_error() {
    assert_eq!(
        parse_oauth_callback("GET /callback?email=a%40b HTTP/1.1"),
        Some(Err("No user_id in callback".to_string()))
    );
    assert_eq!(
        parse_oauth_callback("GET /callback?user_id=&email=x HTTP/1.1"),
        Some(Err("No user_id in callback".to_string()))
    );
}

#[test]
fn other_requests_are_ignored() {
    assert_eq!(parse_oauth_callback("GET /favicon.ico HTTP/1.1"), None);
    assert_eq!(parse_oauth_callback(""), None);
}

#[test]
fn callback_last_value_wins_and_email_is_optional() {
    assert_eq!(
        parse_oauth_callback("GET /callback?user_id=1&user_id=2 HTTP/1.1"),
        Some(Ok(("2".to_string(), "".to_string())))
    );
    assert_eq!(
        parse_oauth_callback("GET /callback?x=1&user_id=ab%20c HTTP/1.1"),
        Some(Ok(("ab c".to_string(), "".to_string())))
    );
}

#[test]
fn frontend_urls() {
    assert_eq!(frontend_url("https://api.amos.example"), "https://app.amos.example");
    assert_eq!(frontend_url("http://localhost:8100/api"), "http://localhost:8100");
    assert_eq!(frontend_url("https://amos-api.example.com"), "https://app.amos.example.com");
    assert_eq!(frontend_url("http://127.0.0.1:8100"), "http://127.0.0.1:8100");
    assert_eq!(
        google_url_endpoint("https://app.x", 53123),
        "https://app.x/api/auth/companion/google-url?callbackUrl=http://127.0.0.1:53123"
    );
}

#[test]
fn log_tail() {
    let content: String = (1..=60).map(|i| format!("line {}\n", i)).collect();
    let tail = tail_lines(&content, LOG_TAIL_LINES);
    let expected: Vec<String> = (11..=60).map(|i| format!("line {}", i)).collect();
    assert_eq!(tail, expected.join("\n"));
    assert_eq!(tail_lines("a\nb", 5), "a\nb");
    assert_eq!(tail_lines("", 5), "");
    assert_eq!(tail_lines("a\nb\nc", 0), "");
}

#[test]
fn registry_checks() {
    let mut s = ConfigStore::with_defaults("p".to_string());
    assert_eq!(registry_request(&s), Err("Not logged in".to_string()));
    s.set_user_id(Some("u".to_string()));
    assert_eq!(registry_request(&s), Err("No workspace".to_string()));
    s.set_workspace_id(Some("w".to_string()));
    s.set_api_url(String::new());
    assert_eq!(registry_request(&s), Err("API URL not configured".to_string()));
    s.set_api_url("https://api".to_string());
    assert_eq!(
        registry_request(&s),
        Ok(("https://api".to_string(), "u".to_string(), "w".to_string()))
    );
}

#[test]
fn mirror_actions() {
    assert_eq!(
        mirror_action("S", "back"),
        Ok(strs(&["-s", "S", "shell", "input", "keyevent", "KEYCODE_BACK"]))
    );
    assert_eq!(
        mirror_action("S", "home"),
        Ok(strs(&["-s", "S", "shell", "input", "keyevent", "KEYCODE_HOME"]))
    );
    assert_eq!(
        mirror_action("S", "enter"),
        Ok(strs(&["-s", "S", "shell", "input", "keyevent", "KEYCODE_ENTER"]))
    );
    assert_eq!(mirror_action("S", "menu"), Err("Unknown action: menu".to_string()));
}

#[test]
fn stream_reports() {
    let a = ScrcpyStreamInfo::from_start(1080, 2400, true);
    assert!(a.running);
    assert_eq!((a.width, a.height), (1080, 2400));
    assert_eq!(a.event_name, "scrcpy-frame");
    let b = ScrcpyStreamInfo::from_start(1080, 2400, false);
    assert!(!b.running);
    assert_eq!((b.width, b.height), (0, 0));
    let s = StreamInfo::new(720, 1280, true);
    assert_eq!((s.width, s.height, s.running), (720, 1280, true));
    assert_eq!(s.event_name, "video-frame");
}

#[test]
fn oauth_reply() {
    assert_eq!(
        oauth_url_from_reply(br#"{"url":"https://accounts.google.com/o?x=1"}"#),
        Ok("https://accounts.google.com/o?x=1".to_string())
    );
    assert_eq!(oauth_url_from_reply(br#"{"link":"x"}"#), Err("No URL in OAuth response".to_string()));
    assert_eq!(oauth_url_from_reply(br#"{"url":5}"#), Err("No URL in OAuth response".to_string()));
    assert_eq!(
        oauth_url_from_reply(b"<html>"),
        Err("Failed to parse OAuth response: error decoding response body".to_string())
    );
}

#[test]
fn os_info() {
    assert_eq!(get_os_info("linux", "x86_64"), "linux x86_64");
}

#[test]
fn browser_commands() {
    assert_eq!(open_url_command(OS::Macos, "https://x"), ("open".to_string(), strs(&["https://x"])));
    assert_eq!(open_url_command(OS::Linux, "https://x"), ("xdg-open".to_string(), strs(&["https://x"])));
    assert_eq!(
        open_url_command(OS::Windows, "https://x"),
        ("cmd".to_string(), strs(&["/C", "start", "", "https://x"]))
    );
    assert_eq!(WEB_UI_DEVICES_URL, "https://app.amos.moo-vpn.online/devices");
    assert!(OAUTH_CALLBACK_RESPONSE.starts_with("HTTP/1.1 200 OK\r\n"));
    assert!(OAUTH_CALLBACK_RESPONSE.contains("<h1>Login Successful!</h1>"));
}

#[test]
fn oauth_wait_outcomes() {
    assert_eq!(
        oauth_wait_result(Some(Ok(("u".to_string(), "e".to_string())))),
        Ok(("u".to_string(), "e".to_string()))
    );
    assert_eq!(oauth_wait_result(Some(Err("No user_id in callback".to_string()))), Err("No user_id in callback".to_string()));
    assert_eq!(oauth_wait_result(None), Err("OAuth login timed out. Please try again.".to_string()));
}

#[test]
fn oauth_url_from_fields() {
    assert_eq!(oauth_url_from_field(Ok(JsonField::Text("https://g".to_string()))), Ok("https://g".to_string()));
    assert_eq!(oauth_url_from_field(Ok(JsonField::Absent)), Err("No URL in OAuth response".to_string()));
    assert_eq!(oauth_url_from_field(Ok(JsonField::Unsigned(1))), Err("No URL in OAuth response".to_string()));
    assert_eq!(
        oauth_url_from_field(Err("expected value at line 1 column 1".to_string())),
        Err("Failed to parse OAuth response: error decoding response body".to_string())
    );
}

#[test]
fn oauth_callback_waits_two_minutes() {
    assert_eq!(OAUTH_CALLBACK_POLLS as u64 * OAUTH_POLL_INTERVAL_MS, OAUTH_WAIT_SECS * 1000);
}
