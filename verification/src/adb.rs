//! Locating adb and turning the outcome of running it into a result.
use vstd::prelude::*;
use crate::text::{owned, chars_of, string_of, has_prefix, replace_chars, starts_with, replace_all, string_views, opt_view};
use crate::dependency_manager::{OS, join, join_path, data_dir, home_dir, companion_dir_in, companion_dir_spec, first_existing, first_existing_spec, first_flagged, first_flagged_of};

verus! {

/// `path` with `~` standing for the home directory `home`: when `path`
/// starts with `~` and the home directory is known, every `~` is replaced.
pub open spec fn expand_tilde_spec(path: Seq<char>, home: Option<Seq<char>>) -> Seq<char> {
    match home {
        Some(h) => if starts_with(path, "~"@) {
            replace_all(path, "~"@, h)
        } else {
            path
        },
        None => path,
    }
}

/// Expands `~` to the home directory `home`.
pub fn expand_tilde(path: &str, home: Option<String>) -> (r: String)
    ensures
        r@ == expand_tilde_spec(path@, opt_view(home)),
{
    let p = chars_of(path);
    let tilde = chars_of("~");
    proof {
        reveal_strlit("~");
    }
    match home {
        Some(h) => {
            if has_prefix(p.as_slice(), tilde.as_slice()) {
                let hv = chars_of(h.as_str());
                let r = replace_chars(p.as_slice(), tilde.as_slice(), hv.as_slice());
                string_of(r.as_slice())
            } else {
                owned(path)
            }
        },
        None => owned(path),
    }
}

/// The adb that the companion installs: `platform-tools/adb` (`adb.exe`
/// on Windows) under the companion's directory.
pub open spec fn bundled_adb_spec(os: OS, data: Option<Seq<char>>) -> Seq<char> {
    join_path(
        os,
        join_path(os, companion_dir_spec(os, data), "platform-tools"@),
        if os == OS::Windows {
            "adb.exe"@
        } else {
            "adb"@
        },
    )
}

/// The common places adb is installed, in the order they are tried.
pub open spec fn adb_locations() -> Seq<Seq<char>> {
    seq![
        "/usr/local/bin/adb"@,
        "/opt/homebrew/bin/adb"@,
        "~/Library/Android/sdk/platform-tools/adb"@,
        "/usr/bin/adb"@,
    ]
}

/// Where adb is looked for, in order: the bundled copy, then the common
/// system locations with `~` expanded.
pub open spec fn adb_candidates_spec(os: OS, data: Option<Seq<char>>, home: Option<Seq<char>>) -> Seq<Seq<char>> {
    seq![bundled_adb_spec(os, data)] + adb_locations().map_values(
        |p: Seq<char>| expand_tilde_spec(p, home),
    )
}

/// Where adb is looked for, from the given data and home directories.
pub fn adb_candidates_in(os: OS, data: Option<String>, home: Option<String>) -> (r: Vec<String>)
    ensures
        string_views(r@) == adb_candidates_spec(os, opt_view(data), opt_view(home)),
{
    let ghost hv = opt_view(home);
    let companion = companion_dir_in(os, data);
    let tools = join(os, companion.as_str(), "platform-tools");
    let exe = if os == OS::Windows {
        "adb.exe"
    } else {
        "adb"
    };
    let mut r: Vec<String> = Vec::new();
    r.push(join(os, tools.as_str(), exe));
    let h1 = home.clone();
    let h2 = home.clone();
    let h3 = home.clone();
    r.push(expand_tilde("/usr/local/bin/adb", h1));
    r.push(expand_tilde("/opt/homebrew/bin/adb", h2));
    r.push(expand_tilde("~/Library/Android/sdk/platform-tools/adb", h3));
    r.push(expand_tilde("/usr/bin/adb", home));
    assert(string_views(r@) =~= adb_candidates_spec(os, opt_view(data), hv));
    r
}

/// Where adb is looked for, from the user's data and home directories.
pub fn adb_candidates(os: OS) -> (r: Vec<String>)
    ensures
        exists|d: Option<Seq<char>>, h: Option<Seq<char>>| string_views(r@) == adb_candidates_spec(os, d, h),
{
    let d = data_dir();
    let h = home_dir();
    let ghost dv = opt_view(d);
    let ghost hv = opt_view(h);
    let r = adb_candidates_in(os, d, h);
    assert(string_views(r@) == adb_candidates_spec(os, dv, hv));
    r
}

/// What looking for adb found.
#[derive(Debug, Clone)]
pub enum AdbLookup {
    /// adb is at this path.
    Found(String),
    /// adb is in none of the places looked at, so it is to be installed
    /// and then looked for again.
    InstallNeeded,
}

/// Finds adb: the first candidate that exists (`exists[i]` tells for
/// `candidates[i]`); when none does, the decision to install adb.
pub fn find_adb(candidates: &Vec<String>, exists: &[bool]) -> (r: AdbLookup)
    ensures
        match first_flagged(string_views(candidates@), exists@) {
            Some(p) => r matches AdbLookup::Found(s) && s@ == p,
            None => r is InstallNeeded,
        },
{
    match first_flagged_of(candidates, exists) {
        Some(p) => AdbLookup::Found(p),
        None => AdbLookup::InstallNeeded,
    }
}

/// The adb to run once an install was attempted: the first candidate that
/// exists now, else plain `adb` from `PATH`.
pub fn adb_after_install(candidates: &Vec<String>, exists: &[bool]) -> (r: String)
    ensures
        r@ == first_existing_spec(string_views(candidates@), exists@, "adb"@),
{
    first_existing(candidates, exists, owned("adb"))
}

/// Looking for adb a second time over the same places gives what the
/// first look found, and plain `adb` exactly when it found nothing.
pub proof fn lemma_lookup_agrees(candidates: Seq<Seq<char>>, exists: Seq<bool>, fallback: Seq<char>)
    ensures
        match first_flagged(candidates, exists) {
            Some(p) => first_existing_spec(candidates, exists, fallback) == p,
            None => first_existing_spec(candidates, exists, fallback) == fallback,
        },
    decreases candidates.len(),
{
    if candidates.len() > 0 && exists.len() > 0 && !exists[0] {
        lemma_lookup_agrees(candidates.drop_first(), exists.drop_first(), fallback);
    }
}

/// How running adb went: standard output on success, else an error with
/// its standard error.
pub fn adb_output_result(success: bool, stdout: String, stderr: &str) -> (r: Result<String, String>)
    ensures
        success ==> r == Ok::<String, String>(stdout),
        !success ==> (r matches Err(e) && e@ == "ADB command failed: "@ + stderr@),
{
    if success {
        Ok(stdout)
    } else {
        let mut e = owned("ADB command failed: ");
        e.append(stderr);
        Err(e)
    }
}

/// The error when adb could not be run at all.
pub fn adb_spawn_error(adb_path: &str, error: &str) -> (r: String)
    ensures
        r@ == "Failed to run adb ("@ + adb_path@ + "): "@ + error@,
{
    let mut e = owned("Failed to run adb (");
    e.append(adb_path);
    e.append("): ");
    e.append(error);
    e
}

} // verus!
