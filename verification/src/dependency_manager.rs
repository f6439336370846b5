//! The mirror's dependencies (Node.js, scrcpy, ffmpeg, ws-scrcpy, adb): where
//! they live under the companion's data directory, where they are downloaded
//! from, and the decisions around installing them.
use vstd::prelude::*;
use crate::text::{owned, chars_of, string_of, has_suffix, ends_with, join_strings, join_with, string_views, contains_chars, contains_seq, u64_to_string, decimal, opt_view, starts_with};

verus! {

/// The operating systems the companion runs on.
#[derive(Debug, Clone, Copy, PartialEq, Eq, Structural)]
pub enum OS {
    Linux,
    Macos,
    Windows,
}

impl OS {
    /// The name of the system as `std::env::consts::OS` spells it.
    pub open spec fn name_spec(self) -> Seq<char> {
        match self {
            OS::Linux => "linux"@,
            OS::Macos => "macos"@,
            OS::Windows => "windows"@,
        }
    }

    /// The name of the system as `std::env::consts::OS` spells it.
    pub fn name(&self) -> (r: String)
        ensures
            r@ == self.name_spec(),
    {
        match self {
            OS::Linux => owned("linux"),
            OS::Macos => owned("macos"),
            OS::Windows => owned("windows"),
        }
    }
}

// ─────────────────────────────── paths ───────────────────────────────

/// Whether `c` separates path components on `os`.
pub open spec fn is_sep(os: OS, c: char) -> bool {
    c == '/' || (os == OS::Windows && c == '\\')
}

/// `base` joined with the relative component `comp`, as `Path::join` does:
/// the system's separator goes between them unless `base` is empty or
/// already ends with a separator.
pub open spec fn join_path(os: OS, base: Seq<char>, comp: Seq<char>) -> Seq<char> {
    if base.len() == 0 || is_sep(os, base.last()) {
        base + comp
    } else {
        base + seq![if os == OS::Windows { '\\' } else { '/' }] + comp
    }
}

/// `base` joined with the relative component `comp`.
pub fn join(os: OS, base: &str, comp: &str) -> (r: String)
    ensures
        r@ == join_path(os, base@, comp@),
{
    let b = chars_of(base);
    let mut r = owned(base);
    if b.len() > 0 {
        let last = b[b.len() - 1];
        let sep = last == '/' || (os == OS::Windows && last == '\\');
        if !sep {
            if os == OS::Windows {
                r.append("\\");
                proof {
                    reveal_strlit("\\");
                }
            } else {
                r.append("/");
                proof {
                    reveal_strlit("/");
                }
            }
        }
    }
    r.append(comp);
    r
}

/// The first candidate that exists (`exists[i]` tells for `candidates[i]`),
/// else `fallback`.
pub open spec fn first_existing_spec(candidates: Seq<Seq<char>>, exists: Seq<bool>, fallback: Seq<char>) -> Seq<char>
    decreases candidates.len(),
{
    if candidates.len() == 0 || exists.len() == 0 {
        fallback
    } else if exists[0] {
        candidates[0]
    } else {
        first_existing_spec(candidates.drop_first(), exists.drop_first(), fallback)
    }
}

/// The first candidate that exists, else `fallback`.
pub fn first_existing(candidates: &Vec<String>, exists: &[bool], fallback: String) -> (r: String)
    ensures
        r@ == first_existing_spec(string_views(candidates@), exists@, fallback@),
{
    let mut i: usize = 0;
    let ghost c = string_views(candidates@);
    assert(c.skip(0) =~= c);
    assert(exists@.skip(0) =~= exists@);
    while i < candidates.len() && i < exists.len()
        invariant
            c == string_views(candidates@),
            i <= candidates@.len(),
            i <= exists@.len(),
            first_existing_spec(c, exists@, fallback@) == first_existing_spec(
                c.skip(i as int),
                exists@.skip(i as int),
                fallback@,
            ),
        decreases candidates@.len() - i,
    {
        if exists[i] {
            assert(exists@.skip(i as int)[0] == exists@[i as int]);
            assert(c.skip(i as int)[0] == candidates@[i as int]@);
            return candidates[i].clone();
        }
        assert(c.skip(i as int).drop_first() =~= c.skip(i + 1));
        assert(exists@.skip(i as int).drop_first() =~= exists@.skip(i + 1));
        i += 1;
    }
    fallback
}

/// The first entry of `dirs` whose flag in `ok` is set.
pub open spec fn first_flagged(dirs: Seq<Seq<char>>, ok: Seq<bool>) -> Option<Seq<char>>
    decreases dirs.len(),
{
    if dirs.len() == 0 || ok.len() == 0 {
        None
    } else if ok[0] {
        Some(dirs[0])
    } else {
        first_flagged(dirs.drop_first(), ok.drop_first())
    }
}

pub(crate) fn first_flagged_of(dirs: &Vec<String>, ok: &[bool]) -> (r: Option<String>)
    ensures
        opt_view(r) == first_flagged(string_views(dirs@), ok@),
{
    let ghost d = string_views(dirs@);
    let mut i: usize = 0;
    assert(d.skip(0) =~= d);
    assert(ok@.skip(0) =~= ok@);
    while i < dirs.len() && i < ok.len()
        invariant
            d == string_views(dirs@),
            i <= dirs@.len(),
            i <= ok@.len(),
            first_flagged(d, ok@) == first_flagged(d.skip(i as int), ok@.skip(i as int)),
        decreases dirs@.len() - i,
    {
        assert(d.skip(i as int).drop_first() =~= d.skip(i + 1));
        assert(ok@.skip(i as int).drop_first() =~= ok@.skip(i + 1));
        if ok[i] {
            return Some(dirs[i].clone());
        }
        i += 1;
    }
    None
}


// ─────────────────────────── directories ───────────────────────────

/// `dirs::data_dir`: the user's data directory, which the environment
/// decides (`$XDG_DATA_HOME`, `$HOME/.local/share`, Application Support,
/// Roaming AppData); nothing is stated of it.
#[verifier::external_body]
pub(crate) fn data_dir() -> (r: Option<String>) {
    dirs::data_dir().map(|p| p.to_string_lossy().to_string())
}

/// `dirs::home_dir`: the user's home directory, which the environment
/// decides; nothing is stated of it.
#[verifier::external_body]
pub(crate) fn home_dir() -> (r: Option<String>) {
    dirs::home_dir().map(|p| p.to_string_lossy().to_string())
}

/// The companion's directory under the data directory `data` (`.` when there is none).
pub open spec fn companion_dir_spec(os: OS, data: Option<Seq<char>>) -> Seq<char> {
    join_path(
        os,
        match data {
            Some(d) => d,
            None => "."@,
        },
        "amos-companion"@,
    )
}

/// The companion's directory under the given data directory.
pub fn companion_dir_in(os: OS, data: Option<String>) -> (r: String)
    ensures
        r@ == companion_dir_spec(os, opt_view(data)),
{
    match data {
        Some(d) => join(os, d.as_str(), "amos-companion"),
        None => join(os, ".", "amos-companion"),
    }
}

/// Base directory for all companion dependencies, under the user's data directory.
pub fn get_companion_dir(os: OS) -> (r: String)
    ensures
        exists|d: Option<Seq<char>>| r@ == companion_dir_spec(os, d),
{
    let d = data_dir();
    let ghost dv = opt_view(d);
    let r = companion_dir_in(os, d);
    assert(r@ == companion_dir_spec(os, dv));
    r
}

/// Directory for the Node.js installation.
pub fn get_nodejs_dir(os: OS, companion_dir: &str) -> (r: String)
    ensures
        r@ == join_path(os, companion_dir@, "nodejs"@),
{
    join(os, companion_dir, "nodejs")
}

/// Directory for ws-scrcpy.
pub fn get_ws_scrcpy_dir(os: OS, companion_dir: &str) -> (r: String)
    ensures
        r@ == join_path(os, companion_dir@, "ws-scrcpy"@),
{
    join(os, companion_dir, "ws-scrcpy")
}

/// Directory for the scrcpy binary.
pub fn get_scrcpy_dir(os: OS, companion_dir: &str) -> (r: String)
    ensures
        r@ == join_path(os, companion_dir@, "scrcpy"@),
{
    join(os, companion_dir, "scrcpy")
}

/// Directory for ffmpeg.
pub fn get_ffmpeg_dir(os: OS, companion_dir: &str) -> (r: String)
    ensures
        r@ == join_path(os, companion_dir@, "ffmpeg"@),
{
    join(os, companion_dir, "ffmpeg")
}

/// Directory for adb (the Android SDK platform tools).
pub fn get_adb_dir(os: OS, companion_dir: &str) -> (r: String)
    ensures
        r@ == join_path(os, companion_dir@, "platform-tools"@),
{
    join(os, companion_dir, "platform-tools")
}

/// The file name of an executable: `.exe` (or `exe_windows`) on Windows.
pub open spec fn exe_name(os: OS, unix: Seq<char>, windows: Seq<char>) -> Seq<char> {
    if os == OS::Windows {
        windows
    } else {
        unix
    }
}

/// The Node.js binary.
pub fn get_nodejs_bin(os: OS, companion_dir: &str) -> (r: String)
    ensures
        r@ == join_path(
            os,
            join_path(os, join_path(os, companion_dir@, "nodejs"@), "bin"@),
            exe_name(os, "node"@, "node.exe"@),
        ),
{
    let dir = get_nodejs_dir(os, companion_dir);
    let bin = join(os, dir.as_str(), "bin");
    let exe = if os == OS::Windows {
        "node.exe"
    } else {
        "node"
    };
    join(os, bin.as_str(), exe)
}

/// The npm binary.
pub fn get_npm_bin(os: OS, companion_dir: &str) -> (r: String)
    ensures
        r@ == join_path(
            os,
            join_path(os, join_path(os, companion_dir@, "nodejs"@), "bin"@),
            exe_name(os, "npm"@, "npm.cmd"@),
        ),
{
    let dir = get_nodejs_dir(os, companion_dir);
    let bin = join(os, dir.as_str(), "bin");
    let exe = if os == OS::Windows {
        "npm.cmd"
    } else {
        "npm"
    };
    join(os, bin.as_str(), exe)
}

/// The places the scrcpy binary may be in, in the order they are tried:
/// `scrcpy/bin/EXE` and `scrcpy/scrcpy/EXE`.
pub fn scrcpy_bin_candidates(os: OS, companion_dir: &str) -> (r: Vec<String>)
    ensures
        string_views(r@) == seq![
            join_path(os, join_path(os, join_path(os, companion_dir@, "scrcpy"@), "bin"@), exe_name(os, "scrcpy"@, "scrcpy.exe"@)),
            join_path(os, join_path(os, join_path(os, companion_dir@, "scrcpy"@), "scrcpy"@), exe_name(os, "scrcpy"@, "scrcpy.exe"@)),
        ],
{
    let dir = get_scrcpy_dir(os, companion_dir);
    let exe = if os == OS::Windows {
        "scrcpy.exe"
    } else {
        "scrcpy"
    };
    let bin = join(os, dir.as_str(), "bin");
    let alt = join(os, dir.as_str(), "scrcpy");
    let mut r: Vec<String> = Vec::new();
    r.push(join(os, bin.as_str(), exe));
    r.push(join(os, alt.as_str(), exe));
    assert(string_views(r@) =~= seq![
        join_path(os, join_path(os, join_path(os, companion_dir@, "scrcpy"@), "bin"@), exe_name(os, "scrcpy"@, "scrcpy.exe"@)),
        join_path(os, join_path(os, join_path(os, companion_dir@, "scrcpy"@), "scrcpy"@), exe_name(os, "scrcpy"@, "scrcpy.exe"@)),
    ]);
    r
}

/// The scrcpy binary: the first of the candidates that exists
/// (`exists[i]` tells for candidate `i`), else `scrcpy/EXE`.
pub fn get_scrcpy_bin(os: OS, companion_dir: &str, exists: &[bool]) -> (r: String)
    ensures
        r@ == first_existing_spec(
            seq![
                join_path(os, join_path(os, join_path(os, companion_dir@, "scrcpy"@), "bin"@), exe_name(os, "scrcpy"@, "scrcpy.exe"@)),
                join_path(os, join_path(os, join_path(os, companion_dir@, "scrcpy"@), "scrcpy"@), exe_name(os, "scrcpy"@, "scrcpy.exe"@)),
            ],
            exists@,
            join_path(os, join_path(os, companion_dir@, "scrcpy"@), exe_name(os, "scrcpy"@, "scrcpy.exe"@)),
        ),
{
    let candidates = scrcpy_bin_candidates(os, companion_dir);
    let dir = get_scrcpy_dir(os, companion_dir);
    let exe = if os == OS::Windows {
        "scrcpy.exe"
    } else {
        "scrcpy"
    };
    let fallback = join(os, dir.as_str(), exe);
    first_existing(&candidates, exists, fallback)
}

/// The ffmpeg binary.
pub fn get_ffmpeg_bin(os: OS, companion_dir: &str) -> (r: String)
    ensures
        r@ == join_path(
            os,
            join_path(os, join_path(os, companion_dir@, "ffmpeg"@), "bin"@),
            exe_name(os, "ffmpeg"@, "ffmpeg.exe"@),
        ),
{
    let dir = get_ffmpeg_dir(os, companion_dir);
    let bin = join(os, dir.as_str(), "bin");
    let exe = if os == OS::Windows {
        "ffmpeg.exe"
    } else {
        "ffmpeg"
    };
    join(os, bin.as_str(), exe)
}

/// The adb binary.
pub fn get_adb_bin(os: OS, companion_dir: &str) -> (r: String)
    ensures
        r@ == join_path(
            os,
            join_path(os, companion_dir@, "platform-tools"@),
            exe_name(os, "adb"@, "adb.exe"@),
        ),
{
    let dir = get_adb_dir(os, companion_dir);
    let exe = if os == OS::Windows {
        "adb.exe"
    } else {
        "adb"
    };
    join(os, dir.as_str(), exe)
}


// ─────────────────────────── download URLs ───────────────────────────

/// Where the portable Node.js build for `os` is downloaded from (the
/// macOS build follows the processor).
pub open spec fn nodejs_url_spec(os: OS, arch_is_aarch64: bool) -> Seq<char> {
    match os {
        OS::Linux => "https://nodejs.org/dist/v20.10.0/node-v20.10.0-linux-x64.tar.xz"@,
        OS::Macos => if arch_is_aarch64 {
            "https://nodejs.org/dist/v20.10.0/node-v20.10.0-darwin-arm64.tar.gz"@
        } else {
            "https://nodejs.org/dist/v20.10.0/node-v20.10.0-darwin-x64.tar.gz"@
        },
        OS::Windows => "https://nodejs.org/dist/v20.10.0/node-v20.10.0-win-x64.zip"@,
    }
}

/// Where the scrcpy release for `os` is downloaded from.
pub open spec fn scrcpy_url_spec(os: OS) -> Seq<char> {
    match os {
        OS::Linux => "https://github.com/Genymobile/scrcpy/releases/download/v2.0/scrcpy-linux-x86_64.zip"@,
        OS::Macos => "https://github.com/Genymobile/scrcpy/releases/download/v2.0/scrcpy-macos.zip"@,
        OS::Windows => "https://github.com/Genymobile/scrcpy/releases/download/v2.0/scrcpy-win64.zip"@,
    }
}

/// Where the ffmpeg build for `os` is downloaded from.
pub open spec fn ffmpeg_url_spec(os: OS) -> Seq<char> {
    match os {
        OS::Linux => "https://github.com/BtbN/FFmpeg-Builds/releases/download/latest/ffmpeg-master-latest-linux64-gpl.tar.xz"@,
        OS::Macos => "https://evermeet.cx/ffmpeg/getrelease/ffmpeg/zip"@,
        OS::Windows => "https://github.com/BtbN/FFmpeg-Builds/releases/download/latest/ffmpeg-master-latest-win64-gpl.zip"@,
    }
}

/// Where the Android SDK platform tools for `os` are downloaded from.
pub open spec fn adb_url_spec(os: OS) -> Seq<char> {
    match os {
        OS::Linux => "https://dl.google.com/android/repository/platform-tools-latest-linux.zip"@,
        OS::Macos => "https://dl.google.com/android/repository/platform-tools-latest-darwin.zip"@,
        OS::Windows => "https://dl.google.com/android/repository/platform-tools-latest-windows.zip"@,
    }
}

/// Where the portable Node.js build for `os` is downloaded from.
pub fn get_nodejs_url(os: OS, arch_is_aarch64: bool) -> (r: &'static str)
    ensures
        r@ == nodejs_url_spec(os, arch_is_aarch64),
{
    match os {
        OS::Linux => "https://nodejs.org/dist/v20.10.0/node-v20.10.0-linux-x64.tar.xz",
        OS::Macos => {
            if arch_is_aarch64 {
                "https://nodejs.org/dist/v20.10.0/node-v20.10.0-darwin-arm64.tar.gz"
            } else {
                "https://nodejs.org/dist/v20.10.0/node-v20.10.0-darwin-x64.tar.gz"
            }
        },
        OS::Windows => "https://nodejs.org/dist/v20.10.0/node-v20.10.0-win-x64.zip",
    }
}

/// Where the scrcpy release for `os` is downloaded from.
pub fn get_scrcpy_url(os: OS) -> (r: &'static str)
    ensures
        r@ == scrcpy_url_spec(os),
{
    match os {
        OS::Linux => "https://github.com/Genymobile/scrcpy/releases/download/v2.0/scrcpy-linux-x86_64.zip",
        OS::Macos => "https://github.com/Genymobile/scrcpy/releases/download/v2.0/scrcpy-macos.zip",
        OS::Windows => "https://github.com/Genymobile/scrcpy/releases/download/v2.0/scrcpy-win64.zip",
    }
}

/// Where the ffmpeg build for `os` is downloaded from.
pub fn get_ffmpeg_url(os: OS) -> (r: &'static str)
    ensures
        r@ == ffmpeg_url_spec(os),
{
    match os {
        OS::Linux => "https://github.com/BtbN/FFmpeg-Builds/releases/download/latest/ffmpeg-master-latest-linux64-gpl.tar.xz",
        OS::Macos => "https://evermeet.cx/ffmpeg/getrelease/ffmpeg/zip",
        OS::Windows => "https://github.com/BtbN/FFmpeg-Builds/releases/download/latest/ffmpeg-master-latest-win64-gpl.zip",
    }
}

/// Where the Android SDK platform tools for `os` are downloaded from.
pub fn get_adb_url(os: OS) -> (r: &'static str)
    ensures
        r@ == adb_url_spec(os),
{
    match os {
        OS::Linux => "https://dl.google.com/android/repository/platform-tools-latest-linux.zip",
        OS::Macos => "https://dl.google.com/android/repository/platform-tools-latest-darwin.zip",
        OS::Windows => "https://dl.google.com/android/repository/platform-tools-latest-windows.zip",
    }
}

/// Whether a download URL names a zip archive (else a tarball).
pub fn is_zip_url(url: &str) -> (r: bool)
    ensures
        r == ends_with(url@, ".zip"@),
{
    let u = chars_of(url);
    let z = chars_of(".zip");
    has_suffix(u.as_slice(), z.as_slice())
}

/// The temporary file name for the downloaded ffmpeg archive.
pub fn ffmpeg_archive_name(is_zip: bool) -> (r: &'static str)
    ensures
        r@ == if is_zip {
            "ffmpeg_archive.zip"@
        } else {
            "ffmpeg_archive.tar.xz"@
        },
{
    if is_zip {
        "ffmpeg_archive.zip"
    } else {
        "ffmpeg_archive.tar.xz"
    }
}

/// The program and arguments that unpack `archive` into `dest`: `unzip -o`
/// for zip archives, `tar -xf` otherwise.
pub fn extract_command(archive: &str, dest: &str, is_zip: bool) -> (r: (String, Vec<String>))
    ensures
        is_zip ==> r.0@ == "unzip"@ && string_views(r.1@) == seq!["-o"@, archive@, "-d"@, dest@],
        !is_zip ==> r.0@ == "tar"@ && string_views(r.1@) == seq!["-xf"@, archive@, "-C"@, dest@],
{
    let mut args: Vec<String> = Vec::new();
    if is_zip {
        args.push(owned("-o"));
        args.push(owned(archive));
        args.push(owned("-d"));
        args.push(owned(dest));
        assert(string_views(args@) =~= seq!["-o"@, archive@, "-d"@, dest@]);
        (owned("unzip"), args)
    } else {
        args.push(owned("-xf"));
        args.push(owned(archive));
        args.push(owned("-C"));
        args.push(owned(dest));
        assert(string_views(args@) =~= seq!["-xf"@, archive@, "-C"@, dest@]);
        (owned("tar"), args)
    }
}

/// Whether a downloaded file is an HTML error page rather than the archive:
/// smaller than 1000 bytes and holding `<html` or `<!DOCTYPE`.
pub fn download_is_html(size: u64, content: &str) -> (r: bool)
    ensures
        r == (size < 1000 && (contains_seq(content@, "<html"@) || contains_seq(
            content@,
            "<!DOCTYPE"@,
        ))),
{
    if size >= 1000 {
        return false;
    }
    let c = chars_of(content);
    let a = chars_of("<html");
    let b = chars_of("<!DOCTYPE");
    contains_chars(c.as_slice(), a.as_slice()) || contains_chars(c.as_slice(), b.as_slice())
}

/// The error for a download that came back as an HTML page.
pub fn html_download_error(size: u64) -> (r: String)
    ensures
        r@ == "Download returned HTML instead of binary ("@ + decimal(size as nat)
            + " bytes). URL may be invalid or rate-limited."@,
{
    let mut s = owned("Download returned HTML instead of binary (");
    s.append(u64_to_string(size).as_str());
    s.append(" bytes). URL may be invalid or rate-limited.");
    s
}

/// The `wget` arguments that download `url` quietly to `dest`.
pub fn wget_args(url: &str, dest: &str) -> (r: Vec<String>)
    ensures
        string_views(r@) == seq!["-q"@, "-O"@, dest@, url@],
{
    let mut r: Vec<String> = Vec::new();
    r.push(owned("-q"));
    r.push(owned("-O"));
    r.push(owned(dest));
    r.push(owned(url));
    r
}

/// The error when `wget` exited with a failure: its exit code (`-1` when
/// it has none), then its standard error and standard output.
pub fn download_failure(exit_code: Option<i32>, stderr: &str, stdout: &str) -> (r: String)
    ensures
        r@ == "wget failed (exit "@ + crate::text::int_decimal(match exit_code {
            Some(c) => c as int,
            None => -1,
        }) + "): "@ + stderr@ + " "@ + stdout@,
{
    let code: i64 = match exit_code {
        Some(c) => c as i64,
        None => -1,
    };
    let mut s = owned("wget failed (exit ");
    s.append(crate::text::i64_to_string(code).as_str());
    s.append("): ");
    s.append(stderr);
    s.append(" ");
    s.append(stdout);
    s
}

/// How unpacking an archive ended, as a result.
pub fn extract_result(outcome: &CommandOutcome) -> (r: Result<(), String>)
    ensures
        unit_result_view(r) == match *outcome {
            CommandOutcome::Succeeded => Ok(()),
            CommandOutcome::Failed(stderr) => Err("Extraction failed: "@ + stderr@),
            CommandOutcome::NotRun(e) => Err("Failed to run extraction command: "@ + e@),
        },
{
    match outcome {
        CommandOutcome::Succeeded => Ok(()),
        CommandOutcome::Failed(stderr) => {
            let mut s = owned("Extraction failed: ");
            s.append(stderr.as_str());
            Err(s)
        },
        CommandOutcome::NotRun(e) => {
            let mut s = owned("Failed to run extraction command: ");
            s.append(e.as_str());
            Err(s)
        },
    }
}

/// The dependencies that come as prebuilt archives.
#[derive(Debug, Clone, Copy, PartialEq, Eq, Structural)]
pub enum Dependency {
    NodeJs,
    Scrcpy,
    Ffmpeg,
    Adb,
}

/// How a prebuilt dependency is installed under the companion's data
/// directory: downloaded from `url` to `archive`, unpacked into `dest_dir`
/// (as a zip when `is_zip`, else with `tar`), and the files in
/// `executable_dir` made executable. No system package manager is used.
#[derive(Debug, Clone)]
pub struct BundlePlan {
    pub url: String,
    pub archive: String,
    pub dest_dir: String,
    pub is_zip: bool,
    pub executable_dir: String,
}

/// The download URL of a dependency.
pub open spec fn bundle_url(os: OS, dep: Dependency, arch_is_aarch64: bool) -> Seq<char> {
    match dep {
        Dependency::NodeJs => nodejs_url_spec(os, arch_is_aarch64),
        Dependency::Scrcpy => scrcpy_url_spec(os),
        Dependency::Ffmpeg => ffmpeg_url_spec(os),
        Dependency::Adb => adb_url_spec(os),
    }
}

/// Whether a dependency's archive is a zip: scrcpy's and adb's always
/// are, the others when their URL ends in `.zip`.
pub open spec fn bundle_is_zip(os: OS, dep: Dependency, arch_is_aarch64: bool) -> bool {
    match dep {
        Dependency::Scrcpy | Dependency::Adb => true,
        _ => ends_with(bundle_url(os, dep, arch_is_aarch64), ".zip"@),
    }
}

/// The file name the archive is downloaded to.
pub open spec fn bundle_archive_name(dep: Dependency, is_zip: bool) -> Seq<char> {
    match dep {
        Dependency::NodeJs => "nodejs_archive"@,
        Dependency::Scrcpy => "scrcpy_archive.zip"@,
        Dependency::Ffmpeg => if is_zip {
            "ffmpeg_archive.zip"@
        } else {
            "ffmpeg_archive.tar.xz"@
        },
        Dependency::Adb => "platform-tools.zip"@,
    }
}

/// The directory a dependency is unpacked into.
pub open spec fn bundle_dir(os: OS, dep: Dependency, companion_dir: Seq<char>) -> Seq<char> {
    join_path(
        os,
        companion_dir,
        match dep {
            Dependency::NodeJs => "nodejs"@,
            Dependency::Scrcpy => "scrcpy"@,
            Dependency::Ffmpeg => "ffmpeg"@,
            Dependency::Adb => "platform-tools"@,
        },
    )
}

/// The plan for installing a prebuilt dependency.
pub open spec fn bundle_plan_holds(p: BundlePlan, os: OS, dep: Dependency, arch_is_aarch64: bool, companion_dir: Seq<char>) -> bool {
    let is_zip = bundle_is_zip(os, dep, arch_is_aarch64);
    let dest = bundle_dir(os, dep, companion_dir);
    &&& p.url@ == bundle_url(os, dep, arch_is_aarch64)
    &&& p.is_zip == is_zip
    &&& p.archive@ == join_path(os, join_path(os, companion_dir, "temp"@), bundle_archive_name(dep, is_zip))
    &&& p.dest_dir@ == dest
    &&& p.executable_dir@ == match dep {
        Dependency::NodeJs | Dependency::Ffmpeg => join_path(os, dest, "bin"@),
        _ => dest,
    }
}

/// A path joined onto `base` lies under `base`.
proof fn lemma_join_under(os: OS, base: Seq<char>, comp: Seq<char>, root: Seq<char>)
    requires
        starts_with(base, root),
    ensures
        starts_with(join_path(os, base, comp), root),
{
    let j = join_path(os, base, comp);
    assert(j.take(root.len() as int) =~= base.take(root.len() as int));
}

/// Everything a plan downloads, unpacks or makes executable lies under the
/// companion's directory.
pub proof fn lemma_plan_under_companion_dir(os: OS, dep: Dependency, arch_is_aarch64: bool, companion_dir: Seq<char>)
    ensures
        ({
            let is_zip = bundle_is_zip(os, dep, arch_is_aarch64);
            let dest = bundle_dir(os, dep, companion_dir);
            &&& starts_with(dest, companion_dir)
            &&& starts_with(join_path(os, join_path(os, companion_dir, "temp"@), bundle_archive_name(dep, is_zip)), companion_dir)
            &&& starts_with(join_path(os, dest, "bin"@), companion_dir)
        }),
{
    assert(companion_dir.take(companion_dir.len() as int) =~= companion_dir);
    let is_zip = bundle_is_zip(os, dep, arch_is_aarch64);
    let dest = bundle_dir(os, dep, companion_dir);
    let sub = match dep {
        Dependency::NodeJs => "nodejs"@,
        Dependency::Scrcpy => "scrcpy"@,
        Dependency::Ffmpeg => "ffmpeg"@,
        Dependency::Adb => "platform-tools"@,
    };
    lemma_join_under(os, companion_dir, sub, companion_dir);
    lemma_join_under(os, companion_dir, "temp"@, companion_dir);
    lemma_join_under(os, join_path(os, companion_dir, "temp"@), bundle_archive_name(dep, is_zip), companion_dir);
    lemma_join_under(os, dest, "bin"@, companion_dir);
}

/// How to install a prebuilt dependency under the companion's directory.
pub fn bundle_plan(os: OS, dep: Dependency, arch_is_aarch64: bool, companion_dir: &str) -> (r: BundlePlan)
    ensures
        bundle_plan_holds(r, os, dep, arch_is_aarch64, companion_dir@),
{
    let url: &str = match dep {
        Dependency::NodeJs => get_nodejs_url(os, arch_is_aarch64),
        Dependency::Scrcpy => get_scrcpy_url(os),
        Dependency::Ffmpeg => get_ffmpeg_url(os),
        Dependency::Adb => get_adb_url(os),
    };
    let is_zip = match dep {
        Dependency::Scrcpy | Dependency::Adb => true,
        _ => is_zip_url(url),
    };
    let name: &str = match dep {
        Dependency::NodeJs => "nodejs_archive",
        Dependency::Scrcpy => "scrcpy_archive.zip",
        Dependency::Ffmpeg => ffmpeg_archive_name(is_zip),
        Dependency::Adb => "platform-tools.zip",
    };
    let sub: &str = match dep {
        Dependency::NodeJs => "nodejs",
        Dependency::Scrcpy => "scrcpy",
        Dependency::Ffmpeg => "ffmpeg",
        Dependency::Adb => "platform-tools",
    };
    let temp = join(os, companion_dir, "temp");
    let dest = join(os, companion_dir, sub);
    let executable_dir = match dep {
        Dependency::NodeJs | Dependency::Ffmpeg => join(os, dest.as_str(), "bin"),
        _ => dest.clone(),
    };
    BundlePlan {
        url: owned(url),
        archive: join(os, temp.as_str(), name),
        dest_dir: dest,
        is_zip,
        executable_dir,
    }
}

/// The ws-scrcpy repository.
pub const WS_SCRCPY_REPO: &'static str = "https://github.com/NetrisTV/ws-scrcpy.git";

/// The git arguments that bring ws-scrcpy up to date: `pull origin main`
/// inside an existing checkout, else a clone into `dir`.
pub fn ws_scrcpy_git_args(updating: bool, dir: &str) -> (r: Vec<String>)
    ensures
        updating ==> string_views(r@) == seq!["pull"@, "origin"@, "main"@],
        !updating ==> string_views(r@) == seq!["clone"@, WS_SCRCPY_REPO@, dir@],
{
    let mut r: Vec<String> = Vec::new();
    if updating {
        r.push(owned("pull"));
        r.push(owned("origin"));
        r.push(owned("main"));
    } else {
        r.push(owned("clone"));
        r.push(owned(WS_SCRCPY_REPO));
        r.push(owned(dir));
    }
    r
}

/// Whether the ws-scrcpy checkout step lets the install go on: a failed
/// pull does (the checkout is still there), a failed clone does not, and
/// neither does a git that could not be run.
pub fn ws_scrcpy_repo_result(updating: bool, outcome: &CommandOutcome) -> (r: Result<(), String>)
    ensures
        unit_result_view(r) == match *outcome {
            CommandOutcome::Succeeded => Ok(()),
            CommandOutcome::Failed(stderr) => if updating {
                Ok(())
            } else {
                Err("Git clone failed: "@ + stderr@)
            },
            CommandOutcome::NotRun(e) => Err((if updating {
                "Failed to run git pull: "@
            } else {
                "Failed to run git clone: "@
            }) + e@),
        },
{
    match outcome {
        CommandOutcome::Succeeded => Ok(()),
        CommandOutcome::Failed(stderr) => {
            if updating {
                Ok(())
            } else {
                let mut s = owned("Git clone failed: ");
                s.append(stderr.as_str());
                Err(s)
            }
        },
        CommandOutcome::NotRun(e) => {
            let mut s = if updating {
                owned("Failed to run git pull: ")
            } else {
                owned("Failed to run git clone: ")
            };
            s.append(e.as_str());
            Err(s)
        },
    }
}

/// The npm arguments that install ws-scrcpy's dependencies.
pub fn npm_install_args() -> (r: Vec<String>)
    ensures
        string_views(r@) == seq!["install"@, "--production=false"@],
{
    let mut r: Vec<String> = Vec::new();
    r.push(owned("install"));
    r.push(owned("--production=false"));
    r
}

/// How `npm install` ended, as a result.
pub fn npm_install_result(outcome: &CommandOutcome) -> (r: Result<(), String>)
    ensures
        unit_result_view(r) == match *outcome {
            CommandOutcome::Succeeded => Ok(()),
            CommandOutcome::Failed(stderr) => Err("npm install failed: "@ + stderr@),
            CommandOutcome::NotRun(e) => Err("Failed to run npm install: "@ + e@),
        },
{
    match outcome {
        CommandOutcome::Succeeded => Ok(()),
        CommandOutcome::Failed(stderr) => {
            let mut s = owned("npm install failed: ");
            s.append(stderr.as_str());
            Err(s)
        },
        CommandOutcome::NotRun(e) => {
            let mut s = owned("Failed to run npm install: ");
            s.append(e.as_str());
            Err(s)
        },
    }
}

// ─────────────────────────── installation state ───────────────────────────

/// Whether some entry of `found` is true.
pub open spec fn any_found(found: Seq<bool>) -> bool {
    exists|i: int| 0 <= i < found.len() && found[i]
}

/// Whether some entry of `found` is true.
fn some_found(found: &[bool]) -> (r: bool)
    ensures
        r == any_found(found@),
{
    let mut i: usize = 0;
    while i < found.len()
        invariant
            i <= found@.len(),
            forall|j: int| 0 <= j < i ==> !found@[j],
        decreases found@.len() - i,
    {
        if found[i] {
            return true;
        }
        i += 1;
    }
    false
}

/// The Node.js versions whose nvm installs are looked for.
pub open spec fn nvm_versions() -> Seq<Seq<char>> {
    seq!["v24.18.0"@, "v24.18.1"@, "v22.0.0"@, "v20.0.0"@, "v18.0.0"@]
}

/// The places a Node.js binary is looked for before `which node`: three
/// system paths, then (when `HOME` is set) the nvm installs of a few
/// versions and `~/.local/bin/node`.
pub open spec fn nodejs_probe_paths_spec(home: Option<Seq<char>>) -> Seq<Seq<char>> {
    seq!["/usr/local/bin/node"@, "/usr/bin/node"@, "/opt/homebrew/bin/node"@] + match home {
        Some(h) => nvm_versions().map_values(|v: Seq<char>| h + "/.nvm/versions/node/"@ + v + "/bin/node"@)
            + seq![h + "/.local/bin/node"@],
        None => seq![],
    }
}

/// The places a Node.js binary is looked for before `which node`.
pub fn nodejs_probe_paths(home: Option<String>) -> (r: Vec<String>)
    ensures
        string_views(r@) == nodejs_probe_paths_spec(opt_view(home)),
{
    let mut r: Vec<String> = Vec::new();
    r.push(owned("/usr/local/bin/node"));
    r.push(owned("/usr/bin/node"));
    r.push(owned("/opt/homebrew/bin/node"));
    let ghost head = string_views(r@);
    match home {
        Some(h) => {
            let versions: [&str; 5] = ["v24.18.0", "v24.18.1", "v22.0.0", "v20.0.0", "v18.0.0"];
            assert(versions@.map_values(|s: &str| s@) =~= nvm_versions()) by {
                reveal_strlit("v24.18.0");
                reveal_strlit("v24.18.1");
                reveal_strlit("v22.0.0");
                reveal_strlit("v20.0.0");
                reveal_strlit("v18.0.0");
            }
            let ghost nvm = nvm_versions().map_values(
                |v: Seq<char>| h@ + "/.nvm/versions/node/"@ + v + "/bin/node"@,
            );
            let mut k: usize = 0;
            while k < 5
                invariant
                    k <= 5,
                    versions@.map_values(|s: &str| s@) == nvm_versions(),
                    nvm == nvm_versions().map_values(
                        |v: Seq<char>| h@ + "/.nvm/versions/node/"@ + v + "/bin/node"@,
                    ),
                    string_views(r@) == head + nvm.take(k as int),
                decreases 5 - k,
            {
                let mut p = h.clone();
                p.append("/.nvm/versions/node/");
                p.append(versions[k]);
                p.append("/bin/node");
                let ghost before = string_views(r@);
                r.push(p);
                assert(versions@.map_values(|s: &str| s@)[k as int] == versions@[k as int]@);
                assert(string_views(r@) =~= before.push(nvm[k as int]));
                assert(nvm.take(k + 1) =~= nvm.take(k as int).push(nvm[k as int]));
                k += 1;
            }
            assert(nvm.take(5) =~= nvm);
            let mut local = h.clone();
            local.append("/.local/bin/node");
            let ghost before = string_views(r@);
            r.push(local);
            assert(string_views(r@) =~= before.push(h@ + "/.local/bin/node"@));
            assert(string_views(r@) =~= head + (nvm + seq![h@ + "/.local/bin/node"@]));
        },
        None => {
            assert(string_views(r@) =~= head + Seq::<Seq<char>>::empty());
        },
    }
    r
}

/// The fixed places a tool is looked for before `which TOOL`: on macOS
/// the Homebrew locations (`/usr/local/bin`, `/opt/homebrew/bin`, and
/// `/usr/bin` for every tool but scrcpy); nowhere on other systems.
pub open spec fn tool_probe_paths_spec(os: OS, tool: Seq<char>, with_usr_bin: bool) -> Seq<Seq<char>> {
    if os == OS::Macos {
        seq!["/usr/local/bin/"@ + tool, "/opt/homebrew/bin/"@ + tool] + if with_usr_bin {
            seq!["/usr/bin/"@ + tool]
        } else {
            seq![]
        }
    } else {
        seq![]
    }
}

fn tool_probe_paths(os: OS, tool: &str, with_usr_bin: bool) -> (r: Vec<String>)
    ensures
        string_views(r@) == tool_probe_paths_spec(os, tool@, with_usr_bin),
{
    let mut r: Vec<String> = Vec::new();
    if os == OS::Macos {
        let mut a = owned("/usr/local/bin/");
        a.append(tool);
        let mut b = owned("/opt/homebrew/bin/");
        b.append(tool);
        r.push(a);
        r.push(b);
        if with_usr_bin {
            let mut c = owned("/usr/bin/");
            c.append(tool);
            r.push(c);
        }
    }
    r
}

/// The fixed places scrcpy is looked for.
pub fn scrcpy_probe_paths(os: OS) -> (r: Vec<String>)
    ensures
        string_views(r@) == tool_probe_paths_spec(os, "scrcpy"@, false),
{
    tool_probe_paths(os, "scrcpy", false)
}

/// The fixed places ffmpeg is looked for.
pub fn ffmpeg_probe_paths(os: OS) -> (r: Vec<String>)
    ensures
        string_views(r@) == tool_probe_paths_spec(os, "ffmpeg"@, true),
{
    tool_probe_paths(os, "ffmpeg", true)
}

/// The fixed places adb is looked for.
pub fn adb_probe_paths(os: OS) -> (r: Vec<String>)
    ensures
        string_views(r@) == tool_probe_paths_spec(os, "adb"@, true),
{
    tool_probe_paths(os, "adb", true)
}

/// Node.js counts as installed when one of its probe paths exists
/// (`found[i]` tells for path `i`), when `which node` names an existing
/// file, or when the bundled binary exists.
pub fn is_nodejs_installed(found: &[bool], on_path: bool, bundled: bool) -> (r: bool)
    ensures
        r == (any_found(found@) || on_path || bundled),
{
    some_found(found) || on_path || bundled
}

/// scrcpy counts as installed when one of its probe paths exists, when
/// `which scrcpy` names an existing file, or when the bundled binary exists.
pub fn is_scrcpy_installed(found: &[bool], on_path: bool, bundled: bool) -> (r: bool)
    ensures
        r == (any_found(found@) || on_path || bundled),
{
    some_found(found) || on_path || bundled
}

/// ffmpeg counts as installed when one of its probe paths exists, when
/// `which ffmpeg` names an existing file, or when the bundled binary exists.
pub fn is_ffmpeg_installed(found: &[bool], on_path: bool, bundled: bool) -> (r: bool)
    ensures
        r == (any_found(found@) || on_path || bundled),
{
    some_found(found) || on_path || bundled
}

/// adb counts as installed when one of its probe paths exists, when
/// `which adb` names an existing file, or when the bundled binary exists.
pub fn is_adb_installed(found: &[bool], on_path: bool, bundled: bool) -> (r: bool)
    ensures
        r == (any_found(found@) || on_path || bundled),
{
    some_found(found) || on_path || bundled
}

/// ws-scrcpy counts as installed when its directory and its
/// `package.json` exist.
pub fn is_ws_scrcpy_installed(dir_exists: bool, package_json_exists: bool) -> (r: bool)
    ensures
        r == (dir_exists && package_json_exists),
{
    dir_exists && package_json_exists
}

/// All dependencies are installed when each one is.
pub fn are_all_deps_installed(nodejs: bool, scrcpy: bool, ffmpeg: bool, ws_scrcpy: bool, adb: bool) -> (r: bool)
    ensures
        r == (nodejs && scrcpy && ffmpeg && ws_scrcpy && adb),
{
    nodejs && scrcpy && ffmpeg && ws_scrcpy && adb
}

/// Status of all dependencies.
#[derive(Debug, Clone)]
pub struct DependencyStatus {
    pub nodejs: bool,
    pub scrcpy: bool,
    pub ffmpeg: bool,
    pub ws_scrcpy: bool,
    pub adb: bool,
    pub all_installed: bool,
    pub companion_dir: String,
}

impl DependencyStatus {
    /// The status built from the checks of each dependency.
    pub fn check(nodejs: bool, scrcpy: bool, ffmpeg: bool, ws_scrcpy: bool, adb: bool, companion_dir: String) -> (r: Self)
        ensures
            r.nodejs == nodejs && r.scrcpy == scrcpy && r.ffmpeg == ffmpeg,
            r.ws_scrcpy == ws_scrcpy && r.adb == adb,
            r.all_installed == (nodejs && scrcpy && ffmpeg && ws_scrcpy && adb),
            r.companion_dir == companion_dir,
    {
        DependencyStatus {
            nodejs,
            scrcpy,
            ffmpeg,
            ws_scrcpy,
            adb,
            all_installed: are_all_deps_installed(nodejs, scrcpy, ffmpeg, ws_scrcpy, adb),
            companion_dir,
        }
    }
}

/// The separator between the entries of `PATH` on `os`.
pub open spec fn path_list_sep(os: OS) -> Seq<char> {
    if os == OS::Windows {
        ";"@
    } else {
        ":"@
    }
}

/// The directories that hold companion binaries, in `PATH` order:
/// `nodejs/bin`, `scrcpy/bin`, `ffmpeg/bin`, `platform-tools`.
pub fn path_env_dirs(os: OS, companion_dir: &str) -> (r: Vec<String>)
    ensures
        string_views(r@) == seq![
            join_path(os, join_path(os, companion_dir@, "nodejs"@), "bin"@),
            join_path(os, join_path(os, companion_dir@, "scrcpy"@), "bin"@),
            join_path(os, join_path(os, companion_dir@, "ffmpeg"@), "bin"@),
            join_path(os, companion_dir@, "platform-tools"@),
        ],
{
    let mut r: Vec<String> = Vec::new();
    let n = get_nodejs_dir(os, companion_dir);
    r.push(join(os, n.as_str(), "bin"));
    let s = get_scrcpy_dir(os, companion_dir);
    r.push(join(os, s.as_str(), "bin"));
    let f = get_ffmpeg_dir(os, companion_dir);
    r.push(join(os, f.as_str(), "bin"));
    r.push(get_adb_dir(os, companion_dir));
    assert(string_views(r@) =~= seq![
        join_path(os, join_path(os, companion_dir@, "nodejs"@), "bin"@),
        join_path(os, join_path(os, companion_dir@, "scrcpy"@), "bin"@),
        join_path(os, join_path(os, companion_dir@, "ffmpeg"@), "bin"@),
        join_path(os, companion_dir@, "platform-tools"@),
    ]);
    r
}

/// The entries of `dirs` that exist, in order.
pub open spec fn existing_dirs(dirs: Seq<Seq<char>>, exists: Seq<bool>) -> Seq<Seq<char>>
    decreases dirs.len(),
{
    if dirs.len() == 0 || exists.len() == 0 {
        seq![]
    } else if exists[0] {
        seq![dirs[0]] + existing_dirs(dirs.drop_first(), exists.drop_first())
    } else {
        existing_dirs(dirs.drop_first(), exists.drop_first())
    }
}

/// The `PATH` for running companion binaries: the directories of `dirs`
/// that exist, then the system `PATH` if there is one.
pub open spec fn path_env_spec(os: OS, dirs: Seq<Seq<char>>, exists: Seq<bool>, system: Option<Seq<char>>) -> Seq<char> {
    let entries = existing_dirs(dirs, exists);
    join_with(
        match system {
            Some(p) => entries.push(p),
            None => entries,
        },
        path_list_sep(os),
    )
}

/// The `PATH` for running companion binaries (`exists[i]` tells whether
/// `dirs[i]` exists).
pub fn get_path_env(os: OS, dirs: &Vec<String>, exists: &[bool], system_path: Option<String>) -> (r: String)
    ensures
        r@ == path_env_spec(os, string_views(dirs@), exists@, opt_view(system_path)),
{
    let ghost d = string_views(dirs@);
    let mut parts: Vec<String> = Vec::new();
    let mut i: usize = 0;
    assert(d.skip(0) =~= d);
    assert(exists@.skip(0) =~= exists@);
    while i < dirs.len() && i < exists.len()
        invariant
            d == string_views(dirs@),
            i <= dirs@.len(),
            i <= exists@.len(),
            existing_dirs(d, exists@) == string_views(parts@) + existing_dirs(
                d.skip(i as int),
                exists@.skip(i as int),
            ),
        decreases dirs@.len() - i,
    {
        assert(d.skip(i as int).drop_first() =~= d.skip(i + 1));
        assert(exists@.skip(i as int).drop_first() =~= exists@.skip(i + 1));
        assert(exists@.skip(i as int)[0] == exists@[i as int]);
        assert(d.skip(i as int)[0] == dirs@[i as int]@);
        if exists[i] {
            let ghost before = string_views(parts@);
            parts.push(dirs[i].clone());
            assert(string_views(parts@) =~= before.push(dirs@[i as int]@));
            assert(before.push(dirs@[i as int]@) + existing_dirs(d.skip(i + 1), exists@.skip(i + 1))
                =~= before + (seq![dirs@[i as int]@] + existing_dirs(d.skip(i + 1), exists@.skip(i + 1))));
        }
        i += 1;
    }
    assert(existing_dirs(d.skip(i as int), exists@.skip(i as int)) =~= Seq::<Seq<char>>::empty());
    assert(string_views(parts@) + Seq::<Seq<char>>::empty() =~= string_views(parts@));
    let ghost entries = string_views(parts@);
    match system_path {
        Some(p) => {
            parts.push(p);
            assert(string_views(parts@) =~= entries.push(p@));
        },
        None => {},
    }
    let sep = if os == OS::Windows {
        ";"
    } else {
        ":"
    };
    join_strings(&parts, sep)
}


// ─────────────────────────── installing ───────────────────────────

/// How a package-manager command ended.
#[derive(Debug, Clone)]
pub enum CommandOutcome {
    /// It ran and exited with success.
    Succeeded,
    /// It ran and failed; its standard error.
    Failed(String),
    /// It could not be started; the error.
    NotRun(String),
}

/// The package-manager commands to try, in order, for installing
/// `package`: `pkexec apt install -y P` then `sudo apt install -y P` on
/// Linux, `brew install P` on macOS, `choco install P -y` on Windows.
pub open spec fn system_install_commands_spec(os: OS, package: Seq<char>) -> Seq<Seq<Seq<char>>> {
    match os {
        OS::Linux => seq![
            seq!["pkexec"@, "apt"@, "install"@, "-y"@, package],
            seq!["sudo"@, "apt"@, "install"@, "-y"@, package],
        ],
        OS::Macos => seq![seq!["brew"@, "install"@, package]],
        OS::Windows => seq![seq!["choco"@, "install"@, package, "-y"@]],
    }
}

/// The views of a list of command lines.
pub open spec fn command_views(v: Seq<Vec<String>>) -> Seq<Seq<Seq<char>>> {
    v.map_values(|c: Vec<String>| string_views(c@))
}

/// The package-manager commands to try, in order (program first). The
/// caller stops at the first that succeeds.
pub fn system_install_commands(os: OS, package: &str) -> (r: Vec<Vec<String>>)
    ensures
        command_views(r@) == system_install_commands_spec(os, package@),
{
    let mut r: Vec<Vec<String>> = Vec::new();
    match os {
        OS::Linux => {
            let mut a: Vec<String> = Vec::new();
            a.push(owned("pkexec"));
            a.push(owned("apt"));
            a.push(owned("install"));
            a.push(owned("-y"));
            a.push(owned(package));
            let mut b: Vec<String> = Vec::new();
            b.push(owned("sudo"));
            b.push(owned("apt"));
            b.push(owned("install"));
            b.push(owned("-y"));
            b.push(owned(package));
            assert(string_views(a@) =~= seq!["pkexec"@, "apt"@, "install"@, "-y"@, package@]);
            assert(string_views(b@) =~= seq!["sudo"@, "apt"@, "install"@, "-y"@, package@]);
            r.push(a);
            r.push(b);
        },
        OS::Macos => {
            let mut a: Vec<String> = Vec::new();
            a.push(owned("brew"));
            a.push(owned("install"));
            a.push(owned(package));
            assert(string_views(a@) =~= seq!["brew"@, "install"@, package@]);
            r.push(a);
        },
        OS::Windows => {
            let mut a: Vec<String> = Vec::new();
            a.push(owned("choco"));
            a.push(owned("install"));
            a.push(owned(package));
            a.push(owned("-y"));
            assert(string_views(a@) =~= seq!["choco"@, "install"@, package@, "-y"@]);
            r.push(a);
        },
    }
    assert(command_views(r@) =~= system_install_commands_spec(os, package@));
    r
}

/// Whether some outcome is a success.
pub open spec fn any_succeeded(outcomes: Seq<CommandOutcome>) -> bool {
    exists|i: int| 0 <= i < outcomes.len() && outcomes[i] is Succeeded
}

/// The result of a system install from the outcomes of the commands run:
/// on Linux, success if some `apt` attempt succeeded; elsewhere, from the
/// one package-manager command.
pub open spec fn system_install_result_spec(os: OS, package: Seq<char>, outcomes: Seq<CommandOutcome>) -> Result<(), Seq<char>> {
    match os {
        OS::Linux => if any_succeeded(outcomes) {
            Ok(())
        } else {
            Err("Could not install "@ + package + " via apt (tried pkexec, sudo)"@)
        },
        _ => {
            let tool = if os == OS::Macos {
                "brew"@
            } else {
                "choco"@
            };
            match outcomes[0] {
                CommandOutcome::Succeeded => Ok(()),
                CommandOutcome::Failed(stderr) => Err(tool + " failed: "@ + stderr@),
                CommandOutcome::NotRun(e) => Err("Failed to run "@ + tool + ": "@ + e@),
            }
        },
    }
}

/// The view of a unit result with a string error.
pub open spec fn unit_result_view(r: Result<(), String>) -> Result<(), Seq<char>> {
    match r {
        Ok(()) => Ok(()),
        Err(e) => Err(e@),
    }
}

/// The result of trying to install `package` with the system's package
/// manager, from the outcomes of the commands that were run (on Linux the
/// `apt` attempts made, on other systems the one command).
pub fn try_system_install(os: OS, package: &str, outcomes: &Vec<CommandOutcome>) -> (r: Result<(), String>)
    requires
        os == OS::Linux || outcomes@.len() > 0,
    ensures
        unit_result_view(r) == system_install_result_spec(os, package@, outcomes@),
{
    match os {
        OS::Linux => {
            let mut i: usize = 0;
            while i < outcomes.len()
                invariant
                    os == OS::Linux,
                    i <= outcomes@.len(),
                    forall|j: int| 0 <= j < i ==> !(outcomes@[j] is Succeeded),
                decreases outcomes@.len() - i,
            {
                match &outcomes[i] {
                    CommandOutcome::Succeeded => {
                        assert(outcomes@[i as int] is Succeeded);
                        assert(any_succeeded(outcomes@));
                        return Ok(());
                    },
                    _ => {},
                }
                i += 1;
            }
            let mut s = owned("Could not install ");
            s.append(package);
            s.append(" via apt (tried pkexec, sudo)");
            Err(s)
        },
        _ => {
            let tool = if matches!(os, OS::Macos) {
                "brew"
            } else {
                "choco"
            };
            match &outcomes[0] {
                CommandOutcome::Succeeded => Ok(()),
                CommandOutcome::Failed(stderr) => {
                    let mut s = owned(tool);
                    s.append(" failed: ");
                    s.append(stderr.as_str());
                    Err(s)
                },
                CommandOutcome::NotRun(e) => {
                    let mut s = owned("Failed to run ");
                    s.append(tool);
                    s.append(": ");
                    s.append(e.as_str());
                    Err(s)
                },
            }
        },
    }
}

/// The display names of the dependencies, in install order.
pub open spec fn dependency_names() -> Seq<Seq<char>> {
    seq!["Node.js"@, "scrcpy"@, "ffmpeg"@, "ws-scrcpy"@, "ADB"@]
}

/// The summary line for one dependency's install.
pub open spec fn install_line(name: Seq<char>, result: Result<(), Seq<char>>) -> Seq<char> {
    match result {
        Ok(()) => "\u{2705} "@ + name + " installed"@,
        Err(e) => "\u{274C} "@ + name + " failed: "@ + e,
    }
}

/// The multi-line install summary: a heading, then one line per
/// dependency, joined by newlines.
pub open spec fn install_summary_spec(results: Seq<Result<(), Seq<char>>>) -> Seq<char> {
    join_with(
        seq!["Installing mirror dependencies..."@] + Seq::new(
            results.len(),
            |i: int| install_line(dependency_names()[i], results[i]),
        ),
        "\n"@,
    )
}

/// The multi-line summary of installing all dependencies, from the results
/// for Node.js, scrcpy, ffmpeg, ws-scrcpy and adb, in that order.
pub fn install_all(results: Vec<Result<(), String>>) -> (r: String)
    requires
        results@.len() == 5,
    ensures
        r@ == install_summary_spec(results@.map_values(|x: Result<(), String>| unit_result_view(x))),
{
    let names: [&str; 5] = ["Node.js", "scrcpy", "ffmpeg", "ws-scrcpy", "ADB"];
    assert(names@.map_values(|s: &str| s@) =~= dependency_names());
    let ghost rv = results@.map_values(|x: Result<(), String>| unit_result_view(x));
    let mut lines: Vec<String> = Vec::new();
    lines.push(owned("Installing mirror dependencies..."));
    let mut i: usize = 0;
    while i < 5
        invariant
            i <= 5,
            results@.len() == 5,
            rv == results@.map_values(|x: Result<(), String>| unit_result_view(x)),
            names@.map_values(|s: &str| s@) == dependency_names(),
            string_views(lines@) == seq!["Installing mirror dependencies..."@] + Seq::new(
                i as nat,
                |k: int| install_line(dependency_names()[k], rv[k]),
            ),
        decreases 5 - i,
    {
        let name = names[i];
        assert(name@ == dependency_names()[i as int]);
        let line = match &results[i] {
            Ok(()) => {
                let mut s = owned("\u{2705} ");
                s.append(name);
                s.append(" installed");
                s
            },
            Err(e) => {
                let mut s = owned("\u{274C} ");
                s.append(name);
                s.append(" failed: ");
                s.append(e.as_str());
                s
            },
        };
        assert(line@ == install_line(dependency_names()[i as int], rv[i as int]));
        let ghost before = string_views(lines@);
        lines.push(line);
        assert(string_views(lines@) =~= before.push(line@));
        assert(Seq::new((i + 1) as nat, |k: int| install_line(dependency_names()[k], rv[k])) =~= Seq::new(
            i as nat,
            |k: int| install_line(dependency_names()[k], rv[k]),
        ).push(install_line(dependency_names()[i as int], rv[i as int])));
        assert(string_views(lines@) =~= seq!["Installing mirror dependencies..."@] + Seq::new(
            (i + 1) as nat,
            |k: int| install_line(dependency_names()[k], rv[k]),
        ));
        i += 1;
    }
    join_strings(&lines, "\n")
}

} // verus!
