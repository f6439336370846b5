use amos_companion::dependency_manager::{
    bundle_plan, download_failure, extract_result, npm_install_args, npm_install_result, wget_args,
    ws_scrcpy_git_args, ws_scrcpy_repo_result, Dependency, WS_SCRCPY_REPO,
};
use amos_companion::dependency_manager::nodejs_probe_paths;
use amos_companion::dependency_manager::{adb_probe_paths, ffmpeg_probe_paths, scrcpy_probe_paths};
use amos_companion::dependency_manager::{
    is_adb_installed, is_ffmpeg_installed, is_nodejs_installed, is_scrcpy_installed,
};
use amos_companion::dependency_manager::{
    are_all_deps_installed, companion_dir_in, download_is_html, extract_command,
    ffmpeg_archive_name, first_existing, get_adb_bin, get_adb_dir, get_adb_url, get_ffmpeg_bin,
    get_ffmpeg_dir, get_ffmpeg_url, get_nodejs_bin, get_nodejs_dir, get_nodejs_url, get_npm_bin,
    get_path_env, get_scrcpy_bin, get_scrcpy_dir, get_scrcpy_url, get_ws_scrcpy_dir,
    html_download_error, install_all, is_ws_scrcpy_installed, is_zip_url, join, path_env_dirs,
    scrcpy_bin_candidates, system_install_commands, try_system_install, CommandOutcome,
    DependencyStatus, OS,
};

fn strs(v: &[&str]) -> Vec<String> {
    v.iter().map(|s| s.to_string()).collect()
}

#[test]
fn os_names() {
    assert_eq!(OS::Linux.name(), "linux");
    assert_eq!(OS::Macos.name(), "macos");
    assert_eq!(OS::Windows.name(), "windows");
}

#[test]
fn join_inserts_one_separator() {
    assert_eq!(join(OS::Linux, "/a", "b"), "/a/b");
    assert_eq!(join(OS::Linux, "/a/", "b"), "/a/b");
    assert_eq!(join(OS::Linux, "", "b"), "b");
    assert_eq!(join(OS::Windows, "C:\\data", "x"), "C:\\data\\x");
    assert_eq!(join(OS::Windows, "C:\\data\\", "x"), "C:\\data\\x");
    assert_eq!(join(OS::Windows, "C:/data/", "x"), "C:/data/x");
}

#[test]
fn companion_directories() {
    let base = companion_dir_in(OS::Linux, Some("/home/u/.local/share".to_string()));
    assert_eq!(base, "/home/u/.local/share/amos-companion");
    assert_eq!(companion_dir_in(OS::Linux, None), "./amos-companion");
    assert_eq!(get_nodejs_dir(OS::Linux, &base), format!("{}/nodejs", base));
    assert_eq!(get_ws_scrcpy_dir(OS::Linux, &base), format!("{}/ws-scrcpy", base));
    assert_eq!(get_scrcpy_dir(OS::Linux, &base), format!("{}/scrcpy", base));
    assert_eq!(get_ffmpeg_dir(OS::Linux, &base), format!("{}/ffmpeg", base));
    assert_eq!(get_adb_dir(OS::Linux, &base), format!("{}/platform-tools", base));
}

#[test]
fn binaries_follow_the_system() {
    assert_eq!(get_nodejs_bin(OS::Linux, "/c"), "/c/nodejs/bin/node");
    assert_eq!(get_nodejs_bin(OS::Windows, "C:\\c"), "C:\\c\\nodejs\\bin\\node.exe");
    assert_eq!(get_npm_bin(OS::Macos, "/c"), "/c/nodejs/bin/npm");
    assert_eq!(get_npm_bin(OS::Windows, "C:\\c"), "C:\\c\\nodejs\\bin\\npm.cmd");
    assert_eq!(get_ffmpeg_bin(OS::Linux, "/c"), "/c/ffmpeg/bin/ffmpeg");
    assert_eq!(get_adb_bin(OS::Linux, "/c"), "/c/platform-tools/adb");
    assert_eq!(get_adb_bin(OS::Windows, "C:\\c"), "C:\\c\\platform-tools\\adb.exe");
}

#[test]
fn scrcpy_binary_lookup() {
    assert_eq!(
        scrcpy_bin_candidates(OS::Linux, "/c"),
        strs(&["/c/scrcpy/bin/scrcpy", "/c/scrcpy/scrcpy/scrcpy"])
    );
    assert_eq!(get_scrcpy_bin(OS::Linux, "/c", &[false, true]), "/c/scrcpy/scrcpy/scrcpy");
    assert_eq!(get_scrcpy_bin(OS::Linux, "/c", &[true, true]), "/c/scrcpy/bin/scrcpy");
    assert_eq!(get_scrcpy_bin(OS::Linux, "/c", &[false, false]), "/c/scrcpy/scrcpy");
    assert_eq!(get_scrcpy_bin(OS::Windows, "C:\\c", &[]), "C:\\c\\scrcpy\\scrcpy.exe");
}

#[test]
fn first_existing_falls_back() {
    let c = strs(&["a", "b", "c"]);
    assert_eq!(first_existing(&c, &[false, false, true], "z".to_string()), "c");
    assert_eq!(first_existing(&c, &[false, false, false], "z".to_string()), "z");
}

#[test]
fn download_urls() {
    assert_eq!(
        get_nodejs_url(OS::Linux, false),
        "https://nodejs.org/dist/v20.10.0/node-v20.10.0-linux-x64.tar.xz"
    );
    assert_eq!(
        get_nodejs_url(OS::Macos, true),
        "https://nodejs.org/dist/v20.10.0/node-v20.10.0-darwin-arm64.tar.gz"
    );
    assert_eq!(
        get_nodejs_url(OS::Macos, false),
        "https://nodejs.org/dist/v20.10.0/node-v20.10.0-darwin-x64.tar.gz"
    );
    assert_eq!(
        get_nodejs_url(OS::Windows, false),
        "https://nodejs.org/dist/v20.10.0/node-v20.10.0-win-x64.zip"
    );
    assert_eq!(
        get_scrcpy_url(OS::Linux),
        "https://github.com/Genymobile/scrcpy/releases/download/v2.0/scrcpy-linux-x86_64.zip"
    );
    assert_eq!(get_ffmpeg_url(OS::Macos), "https://evermeet.cx/ffmpeg/getrelease/ffmpeg/zip");
    assert_eq!(
        get_adb_url(OS::Windows),
        "https://dl.google.com/android/repository/platform-tools-latest-windows.zip"
    );
}

#[test]
fn archives() {
    assert!(is_zip_url("https://x/y.zip"));
    assert!(!is_zip_url(&get_ffmpeg_url(OS::Linux)));
    assert!(!is_zip_url(get_ffmpeg_url(OS::Macos)));
    assert_eq!(ffmpeg_archive_name(true), "ffmpeg_archive.zip");
    assert_eq!(ffmpeg_archive_name(false), "ffmpeg_archive.tar.xz");
    let (p, a) = extract_command("/t/a.zip", "/d", true);
    assert_eq!(p, "unzip");
    assert_eq!(a, strs(&["-o", "/t/a.zip", "-d", "/d"]));
    let (p, a) = extract_command("/t/a.tar.xz", "/d", false);
    assert_eq!(p, "tar");
    assert_eq!(a, strs(&["-xf", "/t/a.tar.xz", "-C", "/d"]));
}

#[test]
fn html_downloads_are_rejected() {
    assert!(download_is_html(120, "<!DOCTYPE html><p>rate limited</p>"));
    assert!(download_is_html(999, "x <html> y"));
    assert!(!download_is_html(1000, "<html>"));
    assert!(!download_is_html(10, "PK\u{3}\u{4}"));
    assert_eq!(
        html_download_error(512),
        "Download returned HTML instead of binary (512 bytes). URL may be invalid or rate-limited."
    );
}

#[test]
fn installation_state() {
    assert!(is_ws_scrcpy_installed(true, true));
    assert!(!is_ws_scrcpy_installed(true, false));
    assert!(are_all_deps_installed(true, true, true, true, true));
    assert!(!are_all_deps_installed(true, true, true, true, false));
    let s = DependencyStatus::check(true, false, true, true, true, "/c".to_string());
    assert!(!s.all_installed);
    assert!(s.nodejs && !s.scrcpy && s.ffmpeg && s.ws_scrcpy && s.adb);
    assert_eq!(s.companion_dir, "/c");
    let all = DependencyStatus::check(true, true, true, true, true, "/c".to_string());
    assert!(all.all_installed);
}

#[test]
fn path_environment() {
    let dirs = path_env_dirs(OS::Linux, "/c");
    assert_eq!(
        dirs,
        strs(&["/c/nodejs/bin", "/c/scrcpy/bin", "/c/ffmpeg/bin", "/c/platform-tools"])
    );
    assert_eq!(
        get_path_env(OS::Linux, &dirs, &[true, false, false, true], Some("/usr/bin".to_string())),
        "/c/nodejs/bin:/c/platform-tools:/usr/bin"
    );
    assert_eq!(get_path_env(OS::Linux, &dirs, &[false, false, false, false], None), "");
    let wd = path_env_dirs(OS::Windows, "C:\\c");
    assert_eq!(
        get_path_env(OS::Windows, &wd, &[true, true, false, false], Some("C:\\W".to_string())),
        "C:\\c\\nodejs\\bin;C:\\c\\scrcpy\\bin;C:\\W"
    );
}

#[test]
fn package_manager_commands() {
    let l = system_install_commands(OS::Linux, "adb");
    assert_eq!(
        l,
        vec![
            strs(&["pkexec", "apt", "install", "-y", "adb"]),
            strs(&["sudo", "apt", "install", "-y", "adb"])
        ]
    );
    assert_eq!(system_install_commands(OS::Macos, "ffmpeg"), vec![strs(&["brew", "install", "ffmpeg"])]);
    assert_eq!(
        system_install_commands(OS::Windows, "ffmpeg"),
        vec![strs(&["choco", "install", "ffmpeg", "-y"])]
    );
}

#[test]
fn system_install_results() {
    let failed = vec![
        CommandOutcome::Failed("denied".to_string()),
        CommandOutcome::Succeeded,
    ];
    assert_eq!(try_system_install(OS::Linux, "adb", &failed), Ok(()));
    let none = vec![CommandOutcome::NotRun("x".to_string()), CommandOutcome::Failed("y".to_string())];
    assert_eq!(
        try_system_install(OS::Linux, "adb", &none),
        Err("Could not install adb via apt (tried pkexec, sudo)".to_string())
    );
    assert_eq!(
        try_system_install(OS::Macos, "ffmpeg", &vec![CommandOutcome::Failed("no formula".to_string())]),
        Err("brew failed: no formula".to_string())
    );
    assert_eq!(
        try_system_install(OS::Windows, "ffmpeg", &vec![CommandOutcome::NotRun("not found".to_string())]),
        Err("Failed to run choco: not found".to_string())
    );
    assert_eq!(try_system_install(OS::Windows, "ffmpeg", &vec![CommandOutcome::Succeeded]), Ok(()));
}

#[test]
fn install_summary() {
    let s = install_all(vec![Ok(()), Err("offline".to_string()), Ok(()), Ok(()), Ok(())]);
    assert_eq!(
        s,
        "Installing mirror dependencies...\n\u{2705} Node.js installed\n\u{274C} scrcpy failed: offline\n\u{2705} ffmpeg installed\n\u{2705} ws-scrcpy installed\n\u{2705} ADB installed"
    );
}

#[test]
fn nodejs_probe_locations() {
    assert_eq!(
        nodejs_probe_paths(None),
        strs(&["/usr/local/bin/node", "/usr/bin/node", "/opt/homebrew/bin/node"])
    );
    let p = nodejs_probe_paths(Some("/home/u".to_string()));
    assert_eq!(p.len(), 9);
    assert_eq!(p[3], "/home/u/.nvm/versions/node/v24.18.0/bin/node");
    assert_eq!(p[7], "/home/u/.nvm/versions/node/v18.0.0/bin/node");
    assert_eq!(p[8], "/home/u/.local/bin/node");
}

#[test]
fn tool_probe_locations() {
    assert_eq!(
        scrcpy_probe_paths(OS::Macos),
        strs(&["/usr/local/bin/scrcpy", "/opt/homebrew/bin/scrcpy"])
    );
    assert_eq!(
        ffmpeg_probe_paths(OS::Macos),
        strs(&["/usr/local/bin/ffmpeg", "/opt/homebrew/bin/ffmpeg", "/usr/bin/ffmpeg"])
    );
    assert_eq!(adb_probe_paths(OS::Macos)[2], "/usr/bin/adb");
    assert!(adb_probe_paths(OS::Linux).is_empty());
    assert!(scrcpy_probe_paths(OS::Windows).is_empty());
}

#[test]
fn installed_checks() {
    assert!(is_nodejs_installed(&[false, true, false], false, false));
    assert!(!is_nodejs_installed(&[false, false], false, false));
    assert!(is_scrcpy_installed(&[], true, false));
    assert!(is_ffmpeg_installed(&[], false, true));
    assert!(!is_adb_installed(&[], false, false));
}

#[test]
fn download_and_unpack_steps() {
    assert_eq!(wget_args("https://x/a.zip", "/t/a.zip"), strs(&["-q", "-O", "/t/a.zip", "https://x/a.zip"]));
    assert_eq!(download_failure(Some(8), "404", ""), "wget failed (exit 8): 404 ");
    assert_eq!(download_failure(None, "killed", "out"), "wget failed (exit -1): killed out");
    assert_eq!(extract_result(&CommandOutcome::Succeeded), Ok(()));
    assert_eq!(
        extract_result(&CommandOutcome::Failed("bad zip".to_string())),
        Err("Extraction failed: bad zip".to_string())
    );
    assert_eq!(
        extract_result(&CommandOutcome::NotRun("no unzip".to_string())),
        Err("Failed to run extraction command: no unzip".to_string())
    );
}

#[test]
fn bundle_plans() {
    let n = bundle_plan(OS::Linux, Dependency::NodeJs, false, "/c");
    assert_eq!(n.url, "https://nodejs.org/dist/v20.10.0/node-v20.10.0-linux-x64.tar.xz");
    assert!(!n.is_zip);
    assert_eq!(n.archive, "/c/temp/nodejs_archive");
    assert_eq!(n.dest_dir, "/c/nodejs");
    assert_eq!(n.executable_dir, "/c/nodejs/bin");

    let w = bundle_plan(OS::Windows, Dependency::NodeJs, false, "C:\\c");
    assert!(w.is_zip);

    let s = bundle_plan(OS::Macos, Dependency::Scrcpy, true, "/c");
    assert!(s.is_zip);
    assert_eq!(s.archive, "/c/temp/scrcpy_archive.zip");
    assert_eq!(s.executable_dir, "/c/scrcpy");

    // The macOS ffmpeg URL does not end in `.zip`, so it is unpacked with tar.
    let f = bundle_plan(OS::Macos, Dependency::Ffmpeg, true, "/c");
    assert!(!f.is_zip);
    assert_eq!(f.archive, "/c/temp/ffmpeg_archive.tar.xz");
    assert_eq!(f.executable_dir, "/c/ffmpeg/bin");
    let fw = bundle_plan(OS::Linux, Dependency::Ffmpeg, false, "/c");
    assert!(!fw.is_zip);

    let a = bundle_plan(OS::Linux, Dependency::Adb, false, "/c");
    assert_eq!(a.url, "https://dl.google.com/android/repository/platform-tools-latest-linux.zip");
    assert_eq!(a.archive, "/c/temp/platform-tools.zip");
    assert_eq!(a.dest_dir, "/c/platform-tools");
    assert_eq!(a.executable_dir, "/c/platform-tools");
    // Everything goes under the companion directory.
    for p in [&n, &s, &f, &a] {
        assert!(p.archive.starts_with("/c/") && p.dest_dir.starts_with("/c/") && p.executable_dir.starts_with("/c/"));
    }
}

#[test]
fn ws_scrcpy_install_steps() {
    assert_eq!(WS_SCRCPY_REPO, "https://github.com/NetrisTV/ws-scrcpy.git");
    assert_eq!(ws_scrcpy_git_args(true, "/w"), strs(&["pull", "origin", "main"]));
    assert_eq!(ws_scrcpy_git_args(false, "/w"), strs(&["clone", WS_SCRCPY_REPO, "/w"]));
    assert_eq!(ws_scrcpy_repo_result(true, &CommandOutcome::Failed("x".to_string())), Ok(()));
    assert_eq!(
        ws_scrcpy_repo_result(false, &CommandOutcome::Failed("x".to_string())),
        Err("Git clone failed: x".to_string())
    );
    assert_eq!(
        ws_scrcpy_repo_result(true, &CommandOutcome::NotRun("e".to_string())),
        Err("Failed to run git pull: e".to_string())
    );
    assert_eq!(npm_install_args(), strs(&["install", "--production=false"]));
    assert_eq!(npm_install_result(&CommandOutcome::Succeeded), Ok(()));
    assert_eq!(
        npm_install_result(&CommandOutcome::Failed("ERESOLVE".to_string())),
        Err("npm install failed: ERESOLVE".to_string())
    );
    assert_eq!(
        npm_install_result(&CommandOutcome::NotRun("enoent".to_string())),
        Err("Failed to run npm install: enoent".to_string())
    );
}
