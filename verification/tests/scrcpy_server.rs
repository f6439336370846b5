use amos_companion::scrcpy_server::{ServerStart, StartAction, StartEvent, StartStage};
use amos_companion::scrcpy_server::meta_size;
use amos_companion::scrcpy_server::{server_download_args, server_download_result, server_spawn_failure};
use amos_companion::dependency_manager::OS;
use amos_companion::scrcpy_server::{
    chmod_args, forward_args, forward_failure, forward_note, forward_remove_args,
    get_scrcpy_server_path, meta_dimension, packet_length, parse_device_meta, pick_port,
    port_candidates, process_list_args, push_args, push_failure, server_cleanup_commands,
    server_download_url, server_jar_candidates, server_launch_args, server_process_alive,
    server_start_command, split_packet, start_mirror_ws, stream_dimensions, FrameReader,
    JsonField, ReaderAction, ReaderEvent, StartNotes, DEFAULT_LOCAL_PORT,
    MAX_CONSECUTIVE_TIMEOUTS,
};

fn strs(v: &[&str]) -> Vec<String> {
    v.iter().map(|s| s.to_string()).collect()
}

#[test]
fn packet_length_is_big_endian() {
    assert_eq!(packet_length(&[0, 0, 1, 2]), 258);
    assert_eq!(packet_length(&[1, 0, 0, 0]), 16777216);
    assert_eq!(packet_length(&[0xFF, 0xFF, 0xFF, 0xFF]), u32::MAX);
}

#[test]
fn split_packet_waits_for_the_whole_packet() {
    assert_eq!(split_packet(&[0, 0]), None);
    assert_eq!(split_packet(&[0, 0, 0, 3, 9, 9]), None);
    assert_eq!(split_packet(&[0, 0, 0, 3, 7, 8, 9, 1, 2]), Some((vec![7, 8, 9], 7)));
    assert_eq!(split_packet(&[0, 0, 0, 0]), Some((vec![], 4)));
}

#[test]
fn framing_round_trip_on_concrete_payload() {
    let payload: Vec<u8> = (0..300u32).map(|i| (i % 256) as u8).collect();
    let mut wire = vec![0u8, 0, 1, 44];
    wire.extend_from_slice(&payload);
    wire.extend_from_slice(&[5, 6, 7]);
    assert_eq!(split_packet(&wire), Some((payload, 304)));
}

#[test]
fn device_meta_gives_width_and_height() {
    assert_eq!(parse_device_meta(br#"{"width":1440,"height":3040}"#), (1440, 3040));
    assert_eq!(parse_device_meta(br#"{"screenWidth":800,"screenHeight":600}"#), (800, 600));
    assert_eq!(parse_device_meta(br#"{"width":720}"#), (720, 1080));
}

#[test]
fn device_meta_defaults() {
    assert_eq!(parse_device_meta(b"not json"), (1920, 1080));
    assert_eq!(parse_device_meta(br#"{"width":"wide","height":-5}"#), (1920, 1080));
    assert_eq!(parse_device_meta(br#"[1,2]"#), (1920, 1080));
}

#[test]
fn device_meta_width_is_cut_to_32_bits() {
    assert_eq!(parse_device_meta(br#"{"width":4294967297}"#), (1, 1080));
}

#[test]
fn stream_dimensions_without_meta() {
    assert_eq!(stream_dimensions(&[]), (1920, 1080));
    assert_eq!(stream_dimensions(br#"{"width":640,"height":480}"#), (640, 480));
}

#[test]
fn meta_dimension_prefers_the_first_key() {
    assert_eq!(meta_dimension(JsonField::Unsigned(5), JsonField::Unsigned(6), 9), 5);
    assert_eq!(meta_dimension(JsonField::Absent, JsonField::Unsigned(6), 9), 6);
    assert_eq!(meta_dimension(JsonField::Absent, JsonField::Text("x".to_string()), 9), 9);
    assert_eq!(meta_dimension(JsonField::Other, JsonField::Unsigned(6), 9), 9);
}

#[test]
fn reader_emits_and_logs_first_frames() {
    let mut r = FrameReader::new();
    assert_eq!(r.step(ReaderEvent::PeekData), ReaderAction::Read);
    assert_eq!(r.step(ReaderEvent::PacketRead), ReaderAction::Emit { log: true });
    assert_eq!(r.frame_count, 1);
    for _ in 0..4 {
        r.step(ReaderEvent::PacketRead);
    }
    assert_eq!(r.step(ReaderEvent::PacketRead), ReaderAction::Emit { log: false });
    assert_eq!(r.frame_count, 6);
}

#[test]
fn reader_stops_on_stop_and_failures() {
    let mut r = FrameReader::new();
    assert_eq!(r.step(ReaderEvent::Stopped), ReaderAction::Stop);
    assert_eq!(r.step(ReaderEvent::PeekFailed), ReaderAction::Stop);
    assert_eq!(r.step(ReaderEvent::ReadFailed), ReaderAction::Stop);
    assert_eq!(r.step(ReaderEvent::PeekWouldBlock), ReaderAction::Retry);
}

#[test]
fn reader_gives_up_after_too_many_empty_polls() {
    let mut r = FrameReader::new();
    for k in 1..=MAX_CONSECUTIVE_TIMEOUTS {
        let a = r.step(ReaderEvent::PeekEmpty);
        assert_eq!(a, ReaderAction::Wait { log: k % 10 == 0 });
    }
    assert_eq!(r.step(ReaderEvent::PeekEmpty), ReaderAction::Stop);
}

#[test]
fn reader_counter_resets_when_data_arrives() {
    let mut r = FrameReader::new();
    for _ in 0..50 {
        r.step(ReaderEvent::ReadWouldBlock);
    }
    assert_eq!(r.consecutive_timeouts, 50);
    r.step(ReaderEvent::PeekData);
    assert_eq!(r.consecutive_timeouts, 0);
}

#[test]
fn server_commands() {
    assert_eq!(
        server_start_command(),
        "CLASSPATH=/data/local/tmp/scrcpy-server.jar app_process / com.genymobile.scrcpy.Server 4.1 video_bit_rate=8000000 max_fps=60 max_size=1920 tunnel_forward=false"
    );
    assert_eq!(
        server_download_url(),
        "https://github.com/Genymobile/scrcpy/releases/download/v4.1/scrcpy-server-v4.1"
    );
    assert_eq!(
        forward_args("abc", 8888),
        strs(&["-s", "abc", "forward", "tcp:8888", "localabstract:scrcpy"])
    );
    assert_eq!(
        forward_remove_args("abc", 9001),
        strs(&["-s", "abc", "forward", "--remove", "tcp:9001"])
    );
    assert_eq!(
        push_args("abc", "/tmp/s.jar"),
        strs(&["-s", "abc", "push", "/tmp/s.jar", "/data/local/tmp/scrcpy-server.jar"])
    );
    assert_eq!(
        chmod_args("abc"),
        strs(&["-s", "abc", "shell", "chmod", "755", "/data/local/tmp/scrcpy-server.jar"])
    );
    assert_eq!(process_list_args("abc"), strs(&["-s", "abc", "shell", "ps", "-A"]));
    let launch = server_launch_args("abc");
    assert_eq!(launch[..4].to_vec(), strs(&["-s", "abc", "shell", "nohup"]));
    assert_eq!(launch[4], server_start_command());
    let cleanup = server_cleanup_commands("abc");
    assert_eq!(cleanup.len(), 3);
    assert_eq!(cleanup[0], strs(&["-s", "abc", "shell", "pkill", "-9", "-f", "scrcpy"]));
    assert_eq!(
        cleanup[1],
        strs(&["-s", "abc", "shell", "am", "force-stop", "org.genymobile.scrcpy"])
    );
    assert_eq!(
        cleanup[2],
        strs(&["-s", "abc", "shell", "rm", "-f", "/data/local/tmp/scrcpy-server.jar"])
    );
}

#[test]
fn process_liveness_and_notes() {
    assert!(server_process_alive("u0_a1 123 app_process scrcpy\n"));
    assert!(!server_process_alive("system_server\n"));
    assert_eq!(
        forward_note("  8888\n", " "),
        "Port forward result: stdout='8888', stderr=''"
    );
    assert_eq!(push_failure("no space"), "Failed to push scrcpy-server: no space");
    assert_eq!(forward_failure("denied"), "Failed to forward port: denied");
}

#[test]
fn start_notes_accumulate() {
    let mut notes = StartNotes::after_forward(None);
    assert_eq!(notes.text, "Port forward command failed to execute");
    notes.add_liveness(false);
    assert_eq!(
        notes.text,
        "Port forward command failed to execute\nscrcpy-server process NOT found on device!"
    );
    let mut ok = StartNotes::after_forward(Some(("x".to_string(), "".to_string())));
    ok.add_command();
    ok.add_liveness(true);
    assert_eq!(
        ok.text,
        format!(
            "Port forward result: stdout='x', stderr=''\nscrcpy-server command: {}\nscrcpy-server process found on device",
            server_start_command()
        )
    );
}

#[test]
fn port_candidates_in_order() {
    let c = port_candidates();
    assert_eq!(c.len(), 1005);
    assert_eq!(&c[..6], &[8888, 8889, 8890, 8891, 8892, 9000]);
    assert_eq!(*c.last().unwrap(), 9999);
}

#[test]
fn pick_port_takes_first_free() {
    assert_eq!(pick_port(&[8888, 8889, 8890], &[false, true, true]), 8889);
    assert_eq!(pick_port(&[8888, 8889], &[false, false]), DEFAULT_LOCAL_PORT);
    assert_eq!(pick_port(&[9000], &[]), 8888);
}

#[test]
fn mirror_result() {
    assert_eq!(start_mirror_ws(Ok(true), 8890), Ok("ws://127.0.0.1:8890".to_string()));
    assert_eq!(
        start_mirror_ws(Ok(false), 8890),
        Err("scrcpy-server process not alive on device".to_string())
    );
    assert_eq!(start_mirror_ws(Err("boom".to_string()), 8890), Err("boom".to_string()));
}

#[test]
fn server_jar_lookup() {
    let c = server_jar_candidates(
        OS::Linux,
        Some("/opt/amos".to_string()),
        Some("/Applications/A.app/Contents".to_string()),
        "/home/u/src",
        "/tmp",
    );
    assert_eq!(
        c,
        strs(&[
            "/opt/amos/scrcpy-server.jar",
            "/opt/amos/resources/scrcpy-server.jar",
            "/Applications/A.app/Contents/Resources/scrcpy-server.jar",
            "/home/u/src/src-tauri/scrcpy-server/scrcpy-server.jar",
            "/home/u/src/scrcpy-server/scrcpy-server.jar",
            "/usr/local/share/scrcpy-server.jar",
            "/opt/scrcpy-server/scrcpy-server.jar",
            "/tmp/scrcpy-server.jar",
        ])
    );
    let none = server_jar_candidates(OS::Linux, None, None, "/w", "/tmp/");
    assert_eq!(none.len(), 5);
    assert_eq!(none[4], "/tmp/scrcpy-server.jar");
    let mut exists = vec![false; c.len()];
    exists[4] = true;
    assert_eq!(
        get_scrcpy_server_path(&c, &exists, OS::Linux, "/tmp"),
        "/home/u/src/scrcpy-server/scrcpy-server.jar"
    );
    assert_eq!(
        get_scrcpy_server_path(&c, &vec![false; c.len()], OS::Linux, "/tmp"),
        "/tmp/scrcpy-server.jar"
    );
}

#[test]
fn server_jar_download() {
    assert_eq!(
        server_download_args("/tmp/scrcpy-server.jar"),
        strs(&[
            "-sL",
            "https://github.com/Genymobile/scrcpy/releases/download/v4.1/scrcpy-server-v4.1",
            "-o",
            "/tmp/scrcpy-server.jar",
        ])
    );
    let p = "/tmp/scrcpy-server.jar".to_string();
    assert_eq!(server_download_result(Ok((true, String::new())), true, p.clone()), Ok(p.clone()));
    let prefix = "Failed to download scrcpy-server v4.1 from https://github.com/Genymobile/scrcpy/releases/download/v4.1/scrcpy-server-v4.1: ";
    assert_eq!(
        server_download_result(Ok((true, String::new())), false, p.clone()),
        Err(prefix.to_string())
    );
    assert_eq!(
        server_download_result(Ok((false, "404".to_string())), true, p.clone()),
        Err(format!("{}404", prefix))
    );
    assert_eq!(
        server_download_result(Err("no curl".to_string()), false, p),
        Err(format!("{}no curl", prefix))
    );
    assert_eq!(server_spawn_failure("denied"), "Failed to start scrcpy-server: denied");
}

#[test]
fn meta_size_from_fields() {
    assert_eq!(
        meta_size(Err("not json".to_string()), Ok(JsonField::Unsigned(1)), Ok(JsonField::Unsigned(2)), Ok(JsonField::Absent)),
        (1920, 1080)
    );
    assert_eq!(
        meta_size(Ok(JsonField::Absent), Ok(JsonField::Unsigned(800)), Err("x".to_string()), Ok(JsonField::Unsigned(600))),
        (800, 600)
    );
    assert_eq!(
        meta_size(Ok(JsonField::Unsigned(4294967296 + 5)), Ok(JsonField::Absent), Ok(JsonField::Other), Ok(JsonField::Unsigned(9))),
        (5, 1080)
    );
}

#[test]
fn server_start_runs_every_step_in_order() {
    let (mut st, first) = ServerStart::new();
    assert!(matches!(first, StartAction::Cleanup));
    assert!(matches!(st.step(StartEvent::CleanedUp), StartAction::FindJar));
    match st.step(StartEvent::JarFound(Ok("/tmp/s.jar".to_string()))) {
        StartAction::Push { jar } => assert_eq!(jar, "/tmp/s.jar"),
        other => panic!("unexpected {:?}", other),
    }
    assert!(matches!(st.step(StartEvent::PushRan(Some((true, String::new())))), StartAction::ChmodAndProbe));
    match st.step(StartEvent::PortsProbed(vec![false, false, true])) {
        StartAction::Forward { port } => assert_eq!(port, 8890),
        other => panic!("unexpected {:?}", other),
    }
    assert_eq!(st.port, 8890);
    let a = st.step(StartEvent::ForwardRan(Some((true, " 8890\n".to_string(), String::new()))));
    assert!(matches!(a, StartAction::Launch));
    assert_eq!(
        st.notes.text,
        format!("Port forward result: stdout='8890', stderr=''\nscrcpy-server command: {}", server_start_command())
    );
    assert!(matches!(st.step(StartEvent::Launched(Ok(()))), StartAction::ListProcesses));
    match st.step(StartEvent::ProcessesListed(Some("u0 123 app_process scrcpy".to_string()))) {
        StartAction::Finish(Ok(alive)) => assert!(alive),
        other => panic!("unexpected {:?}", other),
    }
    assert!(st.notes.text.ends_with("\nscrcpy-server process found on device"));
    assert_eq!(st.stage, StartStage::Done);
}

#[test]
fn server_start_stops_at_the_first_failure() {
    let (mut st, _) = ServerStart::new();
    st.step(StartEvent::CleanedUp);
    match st.step(StartEvent::JarFound(Err("no jar".to_string()))) {
        StartAction::Finish(Err(e)) => assert_eq!(e, "no jar"),
        other => panic!("unexpected {:?}", other),
    }
    assert_eq!(st.stage, StartStage::Done);

    let (mut st, _) = ServerStart::new();
    st.step(StartEvent::CleanedUp);
    st.step(StartEvent::JarFound(Ok("j".to_string())));
    match st.step(StartEvent::PushRan(Some((false, "denied".to_string())))) {
        StartAction::Finish(Err(e)) => assert_eq!(e, "Failed to push scrcpy-server: denied"),
        other => panic!("unexpected {:?}", other),
    }

    let (mut st, _) = ServerStart::new();
    st.step(StartEvent::CleanedUp);
    st.step(StartEvent::JarFound(Ok("j".to_string())));
    // A push that could not run does not stop the start-up.
    assert!(matches!(st.step(StartEvent::PushRan(None)), StartAction::ChmodAndProbe));
    match st.step(StartEvent::PortsProbed(vec![])) {
        StartAction::Forward { port } => assert_eq!(port, DEFAULT_LOCAL_PORT),
        other => panic!("unexpected {:?}", other),
    }
    match st.step(StartEvent::ForwardRan(Some((false, String::new(), "no device".to_string())))) {
        StartAction::Finish(Err(e)) => assert_eq!(e, "Failed to forward port: no device"),
        other => panic!("unexpected {:?}", other),
    }
    assert_eq!(st.notes.text, "Port forward result: stdout='', stderr='no device'");
}

#[test]
fn server_start_goes_on_without_forward_output() {
    let (mut st, _) = ServerStart::new();
    st.step(StartEvent::CleanedUp);
    st.step(StartEvent::JarFound(Ok("j".to_string())));
    st.step(StartEvent::PushRan(Some((true, String::new()))));
    st.step(StartEvent::PortsProbed(vec![true]));
    assert!(matches!(st.step(StartEvent::ForwardRan(None)), StartAction::Launch));
    assert!(st.notes.text.starts_with("Port forward command failed to execute\nscrcpy-server command: "));
    match st.step(StartEvent::Launched(Err("spawn failed".to_string()))) {
        StartAction::Finish(Err(e)) => assert_eq!(e, "Failed to start scrcpy-server: spawn failed"),
        other => panic!("unexpected {:?}", other),
    }
    let (mut st, _) = ServerStart::new();
    st.step(StartEvent::CleanedUp);
    st.step(StartEvent::JarFound(Ok("j".to_string())));
    st.step(StartEvent::PushRan(Some((true, String::new()))));
    st.step(StartEvent::PortsProbed(vec![true]));
    st.step(StartEvent::ForwardRan(Some((true, String::new(), String::new()))));
    st.step(StartEvent::Launched(Ok(())));
    match st.step(StartEvent::ProcessesListed(None)) {
        StartAction::Finish(Ok(alive)) => assert!(!alive),
        other => panic!("unexpected {:?}", other),
    }
    let (mut st, _) = ServerStart::new();
    st.step(StartEvent::CleanedUp);
    st.step(StartEvent::JarFound(Ok("j".to_string())));
    st.step(StartEvent::PushRan(Some((true, String::new()))));
    st.step(StartEvent::PortsProbed(vec![true]));
    st.step(StartEvent::ForwardRan(Some((true, String::new(), String::new()))));
    st.step(StartEvent::Launched(Ok(())));
    match st.step(StartEvent::ProcessesListed(Some("init\nsh".to_string()))) {
        StartAction::Finish(Ok(alive)) => assert!(!alive),
        other => panic!("unexpected {:?}", other),
    }
    assert!(st.notes.text.ends_with("\nscrcpy-server process NOT found on device!"));
}
