//! How the companion was installed on Linux: from a `.deb` package, as an
//! AppImage, or from a tarball or script.
use vstd::prelude::*;
use crate::text::{owned, chars_of, contains_chars, contains_seq, opt_view};

verus! {

/// How the companion is installed.
#[derive(Debug, Clone)]
pub struct InstallMode {
    /// `deb`, `appimage` or `tarball`.
    pub mode: String,
    /// Path to the current executable.
    pub path: String,
}

/// Whether the executable sits where system packages put it.
pub open spec fn in_system_path(path: Seq<char>) -> bool {
    contains_seq(path, "/usr/bin/"@) || contains_seq(path, "/usr/lib/"@) || contains_seq(
        path,
        "/opt/"@,
    )
}

/// The install mode: `appimage` when the AppImage runtime set `APPIMAGE`,
/// else `deb` when the executable lies in a system path, else `tarball`;
/// the path is the executable's (empty when unknown).
pub open spec fn install_mode_spec(appimage: bool, exe: Option<Seq<char>>) -> (Seq<char>, Seq<char>) {
    let path = match exe {
        Some(p) => p,
        None => Seq::empty(),
    };
    if appimage {
        ("appimage"@, path)
    } else if exe is Some && in_system_path(path) {
        ("deb"@, path)
    } else {
        ("tarball"@, path)
    }
}

/// Detects how the companion was installed, from whether `APPIMAGE` is set
/// and the path of the current executable.
pub fn detect_install_mode(appimage: bool, current_exe: Option<String>) -> (r: InstallMode)
    ensures
        (r.mode@, r.path@) == install_mode_spec(appimage, opt_view(current_exe)),
{
    let known = current_exe.is_some();
    let path = match current_exe {
        Some(p) => p,
        None => String::new(),
    };
    if appimage {
        return InstallMode { mode: owned("appimage"), path };
    }
    if known {
        let c = chars_of(path.as_str());
        let a = chars_of("/usr/bin/");
        let b = chars_of("/usr/lib/");
        let o = chars_of("/opt/");
        if contains_chars(c.as_slice(), a.as_slice()) || contains_chars(c.as_slice(), b.as_slice())
            || contains_chars(c.as_slice(), o.as_slice()) {
            return InstallMode { mode: owned("deb"), path };
        }
    }
    InstallMode { mode: owned("tarball"), path }
}

/// The mode is always one of `deb`, `appimage` and `tarball`, and the path
/// is not empty whenever the executable's path is known and not empty.
pub proof fn lemma_install_mode_valid(appimage: bool, exe: Option<Seq<char>>)
    ensures
        ({
            let (mode, path) = install_mode_spec(appimage, exe);
            &&& mode == "deb"@ || mode == "appimage"@ || mode == "tarball"@
            &&& (exe matches Some(p) && p.len() > 0) ==> path.len() > 0
        }),
{
}

} // verus!
