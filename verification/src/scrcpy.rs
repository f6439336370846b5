//! The native scrcpy window: where the binary is looked for, the command
//! that opens the window, and what a launch reports.
use vstd::prelude::*;
use crate::text::{owned, u64_to_string, string_views, decimal, chars_of, trim_bounds, slice_string, trim};

verus! {

/// How a check on a child process came out (`Child::try_wait`).
#[derive(Debug, Clone)]
pub enum ProcessProbe {
    /// The process has exited; its status as text.
    Exited(String),
    /// The process is still running.
    Running,
    /// The check failed; the error.
    Failed(String),
}

/// The system locations searched for scrcpy, in order.
pub open spec fn scrcpy_locations() -> Seq<Seq<char>> {
    seq!["/usr/local/bin/scrcpy"@, "/opt/homebrew/bin/scrcpy"@, "/usr/bin/scrcpy"@]
}

/// The system locations searched for scrcpy, in order.
pub fn scrcpy_candidates() -> (r: Vec<String>)
    ensures
        string_views(r@) == scrcpy_locations(),
{
    let mut r: Vec<String> = Vec::new();
    r.push(owned("/usr/local/bin/scrcpy"));
    r.push(owned("/opt/homebrew/bin/scrcpy"));
    r.push(owned("/usr/bin/scrcpy"));
    assert(string_views(r@) =~= scrcpy_locations());
    r
}

/// Where scrcpy is: the first of the system locations that exists
/// (`exists[i]` tells for location `i`), else the path that `which scrcpy`
/// printed (its output trimmed) when that is not empty and exists
/// (`which_exists`), else none.
pub open spec fn found_scrcpy(exists: Seq<bool>, which_stdout: Seq<char>, which_exists: bool) -> Option<Seq<char>> {
    if exists.len() > 0 && exists[0] {
        Some(scrcpy_locations()[0])
    } else if exists.len() > 1 && exists[1] {
        Some(scrcpy_locations()[1])
    } else if exists.len() > 2 && exists[2] {
        Some(scrcpy_locations()[2])
    } else if trim(which_stdout).len() > 0 && which_exists {
        Some(trim(which_stdout))
    } else {
        None
    }
}

/// Finds the scrcpy binary from the existence checks of its locations, the
/// output of `which scrcpy` (empty when it could not be run) and whether
/// the path it printed exists.
pub fn find_scrcpy(exists: &[bool], which_stdout: &str, which_exists: bool) -> (r: Option<String>)
    ensures
        crate::text::opt_view(r) == found_scrcpy(exists@, which_stdout@, which_exists),
{
    if exists.len() > 0 && exists[0] {
        Some(owned("/usr/local/bin/scrcpy"))
    } else if exists.len() > 1 && exists[1] {
        Some(owned("/opt/homebrew/bin/scrcpy"))
    } else if exists.len() > 2 && exists[2] {
        Some(owned("/usr/bin/scrcpy"))
    } else {
        match crate::text::which_path(which_stdout) {
            Some(p) => if which_exists {
                Some(p)
            } else {
                None
            },
            None => None,
        }
    }
}

/// Whether scrcpy is installed: whether it was found.
pub fn is_scrcpy_available(exists: &[bool], which_stdout: &str, which_exists: bool) -> (r: bool)
    ensures
        r == found_scrcpy(exists@, which_stdout@, which_exists) is Some,
{
    find_scrcpy(exists, which_stdout, which_exists).is_some()
}

/// scrcpy is available exactly when one of the three system locations
/// exists, or `which scrcpy` printed a path that, trimmed, is not empty and
/// exists.
pub proof fn lemma_scrcpy_available(exists: Seq<bool>, which_stdout: Seq<char>, which_exists: bool)
    requires
        exists.len() == 3,
    ensures
        found_scrcpy(exists, which_stdout, which_exists) is Some <==> (exists[0] || exists[1]
            || exists[2] || (trim(which_stdout).len() > 0 && which_exists)),
{
}

/// The version that `scrcpy --version` printed: its output trimmed, when
/// it exited with success.
pub fn scrcpy_version(success: bool, stdout: &str) -> (r: Option<String>)
    ensures
        success ==> (r matches Some(v) && v@ == trim(stdout@)),
        !success ==> r is None,
{
    if !success {
        return None;
    }
    let c = chars_of(stdout);
    let (a, b) = trim_bounds(c.as_slice());
    Some(slice_string(c.as_slice(), a, b))
}

/// What starting scrcpy reports to the frontend.
#[derive(Debug, Clone)]
pub struct ScrcpyLaunchResult {
    pub success: bool,
    pub pid: Option<u32>,
    pub window_title: String,
    pub message: String,
    pub focus_attempted: bool,
    pub focus_succeeded: Option<bool>,
}

/// The companion's record of one scrcpy window.
#[derive(Debug, Clone)]
pub struct ScrcpyStream {
    pub serial: String,
    pub pid: Option<u32>,
    pub active: bool,
}

/// `AMOS - SERIAL`.
pub open spec fn window_title_spec(serial: Seq<char>) -> Seq<char> {
    "AMOS - "@ + serial
}

/// A failed launch.
pub open spec fn failed_launch(r: ScrcpyLaunchResult, pid: Option<u32>, serial: Seq<char>, message: Seq<char>) -> bool {
    &&& !r.success
    &&& r.pid == pid
    &&& r.window_title@ == window_title_spec(serial)
    &&& r.message@ == message
    &&& !r.focus_attempted
    &&& r.focus_succeeded is None
}

impl ScrcpyStream {
    /// A window for `serial` that is not open.
    pub fn new(serial: String) -> (r: Self)
        ensures
            r.serial == serial,
            r.pid is None,
            !r.active,
    {
        ScrcpyStream { serial, pid: None, active: false }
    }

    /// `AMOS - SERIAL`.
    pub fn window_title(&self) -> (r: String)
        ensures
            r@ == window_title_spec(self.serial@),
    {
        let mut s = owned("AMOS - ");
        s.append(self.serial.as_str());
        s
    }

    /// The scrcpy arguments that open the window for the device.
    pub fn launch_args(&self) -> (r: Vec<String>)
        ensures
            string_views(r@) == seq![
                "-s"@,
                self.serial@,
                "--window-title"@,
                window_title_spec(self.serial@),
                "--always-on-top"@,
                "--stay-awake"@,
                "--turn-screen-off"@,
                "--show-touches"@,
                "--prefer-text"@,
            ],
    {
        let mut r: Vec<String> = Vec::new();
        r.push(owned("-s"));
        r.push(self.serial.clone());
        r.push(owned("--window-title"));
        r.push(self.window_title());
        r.push(owned("--always-on-top"));
        r.push(owned("--stay-awake"));
        r.push(owned("--turn-screen-off"));
        r.push(owned("--show-touches"));
        r.push(owned("--prefer-text"));
        assert(string_views(r@) =~= seq![
            "-s"@,
            self.serial@,
            "--window-title"@,
            window_title_spec(self.serial@),
            "--always-on-top"@,
            "--stay-awake"@,
            "--turn-screen-off"@,
            "--show-touches"@,
            "--prefer-text"@,
        ]);
        r
    }

    fn failure(&self, pid: Option<u32>, message: String) -> (r: ScrcpyLaunchResult)
        ensures
            failed_launch(r, pid, self.serial@, message@),
    {
        ScrcpyLaunchResult {
            success: false,
            pid,
            window_title: self.window_title(),
            message,
            focus_attempted: false,
            focus_succeeded: None,
        }
    }

    /// The report when a window is already open, if one is.
    pub fn start_refused(&self) -> (r: Option<ScrcpyLaunchResult>)
        ensures
            self.active ==> (r matches Some(x) && failed_launch(x, None, self.serial@, "scrcpy is already running"@)),
            !self.active ==> r is None,
    {
        if self.active {
            Some(self.failure(None, owned("scrcpy is already running")))
        } else {
            None
        }
    }

    /// The report when no scrcpy binary was found.
    pub fn not_found(&self) -> (r: ScrcpyLaunchResult)
        ensures
            failed_launch(r, None, self.serial@, "scrcpy not found. Install with: brew install scrcpy"@),
    {
        self.failure(None, owned("scrcpy not found. Install with: brew install scrcpy"))
    }

    /// The report when scrcpy could not be spawned.
    pub fn spawn_failed(&self, error: &str) -> (r: ScrcpyLaunchResult)
        ensures
            failed_launch(r, None, self.serial@, "Failed to spawn scrcpy: "@ + error@),
    {
        let mut m = owned("Failed to spawn scrcpy: ");
        m.append(error);
        self.failure(None, m)
    }

    /// Records the ID of the spawned process.
    pub fn spawned(&mut self, pid: u32)
        ensures
            final(self).pid == Some(pid),
            final(self).serial == old(self).serial,
            final(self).active == old(self).active,
    {
        self.pid = Some(pid);
    }

    /// The report after checking on the process: it exited at once (with
    /// what it wrote to stderr, `(empty)` if nothing), the check failed, or
    /// it runs, in which case the window counts as open.
    pub fn after_probe(&mut self, pid: u32, probe: ProcessProbe, stderr: &str, focus: Option<bool>) -> (r: ScrcpyLaunchResult)
        ensures
            final(self).serial == old(self).serial,
            final(self).pid == old(self).pid,
            match probe {
                ProcessProbe::Exited(_) => failed_launch(
                    r,
                    Some(pid),
                    old(self).serial@,
                    "scrcpy exited immediately. stderr: "@ + if stderr@.len() == 0 {
                        "(empty)"@
                    } else {
                        stderr@
                    },
                ) && final(self).active == old(self).active,
                ProcessProbe::Failed(e) => failed_launch(
                    r,
                    Some(pid),
                    old(self).serial@,
                    "Failed to verify scrcpy is running: "@ + e@,
                ) && final(self).active == old(self).active,
                ProcessProbe::Running => final(self).active && r.success && r.pid == Some(pid)
                    && r.window_title@ == window_title_spec(old(self).serial@) && r.message@
                    == "scrcpy started successfully (PID: "@ + decimal(pid as nat)
                    + "). Window title: '"@ + window_title_spec(old(self).serial@) + "'"@
                    && r.focus_attempted == focus is Some && r.focus_succeeded == focus,
            },
    {
        match probe {
            ProcessProbe::Exited(_) => {
                let mut m = owned("scrcpy exited immediately. stderr: ");
                if stderr.is_empty() {
                    m.append("(empty)");
                } else {
                    m.append(stderr);
                }
                self.failure(Some(pid), m)
            },
            ProcessProbe::Failed(e) => {
                let mut m = owned("Failed to verify scrcpy is running: ");
                m.append(e.as_str());
                self.failure(Some(pid), m)
            },
            ProcessProbe::Running => {
                self.active = true;
                let title = self.window_title();
                let mut m = owned("scrcpy started successfully (PID: ");
                m.append(u64_to_string(pid as u64).as_str());
                m.append("). Window title: '");
                m.append(title.as_str());
                m.append("'");
                ScrcpyLaunchResult {
                    success: true,
                    pid: Some(pid),
                    window_title: title,
                    message: m,
                    focus_attempted: focus.is_some(),
                    focus_succeeded: focus,
                }
            },
        }
    }

    /// The window was closed.
    pub fn stop(&mut self)
        ensures
            final(self).serial == old(self).serial,
            final(self).pid is None,
            !final(self).active,
    {
        self.pid = None;
        self.active = false;
    }

    /// Whether the window is open, from a check on its process (`None` when
    /// no process is held); a process found exited marks it closed.
    pub fn is_active(&mut self, probe: Option<ProcessProbe>) -> (r: bool)
        ensures
            r == (probe matches Some(ProcessProbe::Running)),
            final(self).serial == old(self).serial,
            final(self).pid == old(self).pid,
            final(self).active == if probe matches Some(ProcessProbe::Exited(_)) {
                false
            } else {
                old(self).active
            },
    {
        match probe {
            Some(ProcessProbe::Exited(_)) => {
                self.active = false;
                false
            },
            Some(ProcessProbe::Running) => true,
            Some(ProcessProbe::Failed(_)) => false,
            None => false,
        }
    }
}

} // verus!
