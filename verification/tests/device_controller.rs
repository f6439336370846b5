use amos_companion::dependency_manager::CommandOutcome;
use amos_companion::device_controller::{
    back, encode_screenshot, enter, escape_text, exec_out_png, fallback_step_error,
    get_device_info, home, keyevent, list_devices, parse_adb_devices, pulled_png,
    screenshot_capture_args, screenshot_cleanup_args, screenshot_exec_out_args,
    screenshot_pull_args, shell_command, swipe, tap, text,
};

fn strs(v: &[&str]) -> Vec<String> {
    v.iter().map(|s| s.to_string()).collect()
}

const PNG_SIG: [u8; 8] = [0x89, 0x50, 0x4E, 0x47, 0x0D, 0x0A, 0x1A, 0x0A];

#[test]
fn adb_devices_output_is_parsed() {
    let out = "List of devices attached\nR58M123 device usb:1-1 product:a50 model:SM_A505F device:a50 transport_id:1\nemulator-5554\toffline\n\n";
    let devices = parse_adb_devices(out);
    assert_eq!(devices.len(), 2);
    assert_eq!(devices[0].serial, "R58M123");
    assert_eq!(devices[0].status, "device");
    assert_eq!(devices[0].model, "SM_A505F");
    assert_eq!(devices[0].resolution, None);
    assert_eq!(devices[0].battery, None);
    assert_eq!(devices[1].serial, "emulator-5554");
    assert_eq!(devices[1].status, "offline");
    assert_eq!(devices[1].model, "Unknown");
}

#[test]
fn adb_devices_header_only() {
    assert!(parse_adb_devices("List of devices attached\n").is_empty());
    assert!(parse_adb_devices("").is_empty());
    // The first line is always the header, whatever it says.
    assert!(parse_adb_devices("abc device\n").is_empty());
}

#[test]
fn list_devices_passes_errors_through() {
    let ok = list_devices(Ok("List of devices attached\nX device\n".to_string())).unwrap();
    assert_eq!(ok.devices.len(), 1);
    assert_eq!(ok.devices[0].serial, "X");
    assert_eq!(
        list_devices(Err("ADB command failed: boom".to_string())).unwrap_err(),
        "ADB command failed: boom"
    );
}

#[test]
fn device_details() {
    let d = get_device_info(
        "X1",
        "Physical size: 1080x2400\nOverride size: 720x1600\n",
        "  level: 87\n",
        "  Pixel 7 \n",
    );
    assert_eq!(d.serial, "X1");
    assert_eq!(d.model, "Pixel 7");
    assert_eq!(d.status, "device");
    assert_eq!(d.resolution, Some("1080x2400".to_string()));
    assert_eq!(d.battery, Some(87));
}

#[test]
fn device_details_when_outputs_are_unusable() {
    let d = get_device_info("X1", "", "level: n/a", "");
    assert_eq!(d.model, "");
    assert_eq!(d.resolution, None);
    assert_eq!(d.battery, None);
    let e = get_device_info("X1", "no colon here", "nothing", "m");
    assert_eq!(e.resolution, None);
    assert_eq!(e.battery, None);
}

#[test]
fn input_commands() {
    assert_eq!(tap("S", 100, -5), strs(&["-s", "S", "shell", "input", "tap", "100", "-5"]));
    assert_eq!(
        swipe("S", 1, 2, 3, 4, 300),
        strs(&["-s", "S", "shell", "input", "swipe", "1", "2", "3", "4", "300"])
    );
    assert_eq!(
        keyevent("S", "KEYCODE_MENU"),
        strs(&["-s", "S", "shell", "input", "keyevent", "KEYCODE_MENU"])
    );
    assert_eq!(back("S"), strs(&["-s", "S", "shell", "input", "keyevent", "KEYCODE_BACK"]));
    assert_eq!(home("S"), strs(&["-s", "S", "shell", "input", "keyevent", "KEYCODE_HOME"]));
    assert_eq!(enter("S"), strs(&["-s", "S", "shell", "input", "keyevent", "KEYCODE_ENTER"]));
    assert_eq!(
        shell_command("S", strs(&["ls", "/"])),
        strs(&["-s", "S", "shell", "ls", "/"])
    );
}

#[test]
fn typed_text_is_escaped() {
    assert_eq!(escape_text("hello world"), "'hello%sworld'");
    assert_eq!(escape_text("it's"), "'it'\\''s'");
    assert_eq!(escape_text("a b'c"), "'a%sb'\\''c'");
    assert_eq!(escape_text(""), "''");
    assert_eq!(
        text("S", "don't stop"),
        strs(&["-s", "S", "shell", "input", "text", "'don'\\''t%sstop'"])
    );
}

#[test]
fn shell_metacharacters_stay_quoted() {
    assert_eq!(escape_text("a;reboot"), "'a;reboot'");
    assert_eq!(escape_text("$(id)"), "'$(id)'");
    assert_eq!(escape_text("x && y | z > f"), "'x%s&&%sy%s|%sz%s>%sf'");
    assert_eq!(escape_text("`ls` \\ \"q\""), "'`ls`%s\\%s\"q\"'");
}

/// How a POSIX shell reads a word made of single-quoted runs and
/// backslash escapes; `None` for anything else.
fn read_shell_word(s: &str) -> Option<String> {
    let cs: Vec<char> = s.chars().collect();
    let mut out = String::new();
    let mut i = 0;
    let mut quoted = false;
    while i < cs.len() {
        let c = cs[i];
        if quoted {
            if c == '\'' {
                quoted = false;
            } else {
                out.push(c);
            }
            i += 1;
        } else if c == '\'' {
            quoted = true;
            i += 1;
        } else if c == '\\' && i + 1 < cs.len() && cs[i + 1] != '\n' {
            out.push(cs[i + 1]);
            i += 2;
        } else {
            return None;
        }
    }
    if quoted {
        None
    } else {
        Some(out)
    }
}

#[test]
fn escaped_text_reads_back_literally() {
    for s in ["", " ", "a  b", "' '", "it's", "''", "a;reboot", "$(id)", "\\'", "x\ny"] {
        assert_eq!(read_shell_word(&escape_text(s)), Some(s.replace(' ', "%s")));
    }
}

#[test]
fn escaped_text_has_no_space_on_samples() {
    for s in ["", " ", "a  b", "' '", "x y z"] {
        assert!(!escape_text(s).contains(' '));
    }
}

#[test]
fn screenshot_is_base64_encoded() {
    let mut data = PNG_SIG.to_vec();
    data.extend_from_slice(&[1, 2, 3]);
    assert_eq!(encode_screenshot(&data), Ok("iVBORw0KGgoBAgM=".to_string()));
    assert_eq!(encode_screenshot(&PNG_SIG), Ok("iVBORw0KGgo=".to_string()));
}

#[test]
fn non_png_screenshot_is_rejected() {
    assert_eq!(encode_screenshot(&[1, 2, 3]), Err("Invalid PNG data: 3 bytes".to_string()));
    assert_eq!(encode_screenshot(&[]), Err("Invalid PNG data: 0 bytes".to_string()));
    let mut bad = PNG_SIG.to_vec();
    bad[7] = 0;
    assert_eq!(encode_screenshot(&bad), Err("Invalid PNG data: 8 bytes".to_string()));
}

#[test]
fn screenshot_commands() {
    assert_eq!(screenshot_exec_out_args("S"), strs(&["-s", "S", "exec-out", "screencap", "-p"]));
    assert_eq!(
        screenshot_capture_args("S"),
        strs(&["-s", "S", "shell", "screencap", "-p", "/sdcard/amos_screen.png"])
    );
    assert_eq!(
        screenshot_pull_args("S", "/tmp/s.png"),
        strs(&["-s", "S", "pull", "/sdcard/amos_screen.png", "/tmp/s.png"])
    );
    assert_eq!(
        screenshot_cleanup_args("S"),
        strs(&["-s", "S", "shell", "rm", "/sdcard/amos_screen.png"])
    );
}

#[test]
fn screenshot_flow_decisions() {
    assert_eq!(exec_out_png(&CommandOutcome::Succeeded, vec![1]), Some(vec![1]));
    assert_eq!(exec_out_png(&CommandOutcome::Succeeded, vec![]), None);
    assert_eq!(exec_out_png(&CommandOutcome::Failed("x".to_string()), vec![1]), None);
    assert_eq!(
        fallback_step_error("Failed to capture screenshot", true, "/a/adb", &CommandOutcome::Failed("denied".to_string())),
        Some("Failed to capture screenshot: ADB command failed: denied".to_string())
    );
    assert_eq!(
        fallback_step_error("Failed to pull screenshot", true, "/a/adb", &CommandOutcome::NotRun("missing".to_string())),
        Some("Failed to pull screenshot: Failed to run adb (/a/adb): missing".to_string())
    );
    assert_eq!(
        fallback_step_error("Failed to pull screenshot", false, "/a/adb", &CommandOutcome::NotRun("missing".to_string())),
        Some("Failed to pull screenshot: missing".to_string())
    );
    assert_eq!(
        fallback_step_error("Failed to pull screenshot", false, "/a/adb", &CommandOutcome::Succeeded),
        None
    );
    assert_eq!(pulled_png(vec![5]), Ok(vec![5]));
    assert_eq!(pulled_png(vec![]), Err("Screenshot data is empty".to_string()));
}
