//! Installing the device-agent from its repository: where it goes, the git
//! commands, and the decisions after each step.
use vstd::prelude::*;
use crate::text::{owned, opt_view, string_views};
use crate::dependency_manager::{OS, join, join_path, data_dir, home_dir, CommandOutcome};

verus! {

/// The device-agent's repository.
pub const DEVICE_AGENT_REPO: &'static str = "https://github.com/ManotLuijiu/amos-device-agent.git";

/// `amos-companion/device-agent` under the data directory, or under the
/// home directory when there is no data directory, or under `.`.
pub open spec fn device_agent_dir_spec(os: OS, data: Option<Seq<char>>, home: Option<Seq<char>>) -> Seq<char> {
    let base = match data {
        Some(d) => d,
        None => match home {
            Some(h) => h,
            None => "."@,
        },
    };
    join_path(os, join_path(os, base, "amos-companion"@), "device-agent"@)
}

/// The device-agent's directory from the given data and home directories.
pub fn device_agent_dir_in(os: OS, data: Option<String>, home: Option<String>) -> (r: String)
    ensures
        r@ == device_agent_dir_spec(os, opt_view(data), opt_view(home)),
{
    let base = match data {
        Some(d) => d,
        None => match home {
            Some(h) => h,
            None => owned("."),
        },
    };
    let c = join(os, base.as_str(), "amos-companion");
    join(os, c.as_str(), "device-agent")
}

/// The install directory for the device-agent.
pub fn get_device_agent_dir(os: OS) -> (r: String)
    ensures
        exists|d: Option<Seq<char>>, h: Option<Seq<char>>| r@ == device_agent_dir_spec(os, d, h),
{
    let d = data_dir();
    let h = home_dir();
    let ghost dv = opt_view(d);
    let ghost hv = opt_view(h);
    let r = device_agent_dir_in(os, d, h);
    assert(r@ == device_agent_dir_spec(os, dv, hv));
    r
}

/// The working directory for running device-agent commands: its install directory.
pub fn get_working_dir(os: OS) -> (r: String)
    ensures
        exists|d: Option<Seq<char>>, h: Option<Seq<char>>| r@ == device_agent_dir_spec(os, d, h),
{
    get_device_agent_dir(os)
}

/// The file whose presence shows that the device-agent is installed.
pub fn installed_marker(os: OS, agent_dir: &str) -> (r: String)
    ensures
        r@ == join_path(os, agent_dir@, "amos_device_agent"@),
{
    join(os, agent_dir, "amos_device_agent")
}

/// The git arguments that clone the device-agent into `dir`.
pub fn clone_args(dir: &str) -> (r: Vec<String>)
    ensures
        string_views(r@) == seq!["clone"@, DEVICE_AGENT_REPO@, dir@],
{
    let mut r: Vec<String> = Vec::new();
    r.push(owned("clone"));
    r.push(owned(DEVICE_AGENT_REPO));
    r.push(owned(dir));
    assert(string_views(r@) =~= seq!["clone"@, DEVICE_AGENT_REPO@, dir@]);
    r
}

/// Whether the repository step lets the install go on to the dependencies:
/// a failed `git pull` is not fatal (the existing checkout still works),
/// a failed clone is, and so is a git that could not be run.
pub fn repository_step_result(updating: bool, outcome: &CommandOutcome) -> (r: Result<(), String>)
    ensures
        crate::dependency_manager::unit_result_view(r) == repository_step_spec(updating, *outcome),
{
    match outcome {
        CommandOutcome::Succeeded => Ok(()),
        CommandOutcome::Failed(stderr) => {
            if updating {
                Ok(())
            } else {
                let mut e = owned("Failed to clone device-agent: ");
                e.append(stderr.as_str());
                Err(e)
            }
        },
        CommandOutcome::NotRun(err) => {
            let mut e = if updating {
                owned("Failed to run git pull: ")
            } else {
                owned("Failed to run git clone: ")
            };
            e.append(err.as_str());
            Err(e)
        },
    }
}

/// The git arguments of the repository step: `pull origin main` inside an
/// existing checkout, else a clone into `dir`.
pub fn git_args(updating: bool, dir: &str) -> (r: Vec<String>)
    ensures
        updating ==> string_views(r@) == seq!["pull"@, "origin"@, "main"@],
        !updating ==> string_views(r@) == seq!["clone"@, DEVICE_AGENT_REPO@, dir@],
{
    if updating {
        let mut r: Vec<String> = Vec::new();
        r.push(owned("pull"));
        r.push(owned("origin"));
        r.push(owned("main"));
        r
    } else {
        clone_args(dir)
    }
}

/// Where an install or update of the device-agent stands.
#[derive(Debug, Clone, Copy, PartialEq, Eq, Structural)]
pub enum InstallStage {
    /// Creating the directory the checkout goes in.
    CreatingParent,
    /// Running git; `updating` when pulling into an existing checkout.
    Git { updating: bool },
    /// Installing the dependencies with uv.
    Uv,
    /// Installing the dependencies with pip, after uv failed.
    Pip,
    /// Finished.
    Done,
}

/// What the caller does next.
#[derive(Debug)]
pub enum InstallAction {
    /// Create the parent directory of the checkout.
    CreateParent,
    /// Run git with [`git_args`] (inside the checkout when updating).
    RunGit { updating: bool },
    /// Run `uv pip install -e .` in the checkout, if uv is found.
    RunUv,
    /// Run `PIP install -e .` in the checkout, with [`pip_program`].
    RunPip,
    /// Report this result.
    Finish(Result<(), String>),
}

/// How the last action came out.
#[derive(Debug)]
pub enum InstallEvent {
    /// The parent directory was created, or the error.
    ParentCreated(Result<(), String>),
    /// How git ended.
    GitRan(CommandOutcome),
    /// Whether uv was found and installed the dependencies.
    UvRan(bool),
    /// Whether pip installed the dependencies.
    PipRan(bool),
}

/// The view of an action: the stage-independent data it carries.
pub open spec fn action_view(a: InstallAction) -> (int, bool, Result<(), Seq<char>>) {
    match a {
        InstallAction::CreateParent => (0, false, Ok(())),
        InstallAction::RunGit { updating } => (1, updating, Ok(())),
        InstallAction::RunUv => (2, false, Ok(())),
        InstallAction::RunPip => (3, false, Ok(())),
        InstallAction::Finish(r) => (4, false, crate::dependency_manager::unit_result_view(r)),
    }
}

/// The first stage and action: update an existing checkout, else create
/// its parent directory for a fresh clone.
pub open spec fn install_start_spec(dir_exists: bool) -> (InstallStage, (int, bool, Result<(), Seq<char>>)) {
    if dir_exists {
        (InstallStage::Git { updating: true }, (1, true, Ok(())))
    } else {
        (InstallStage::CreatingParent, (0, false, Ok(())))
    }
}

/// Whether `ev` answers the action of `stage`.
pub open spec fn event_fits(stage: InstallStage, ev: InstallEvent) -> bool {
    match stage {
        InstallStage::CreatingParent => ev is ParentCreated,
        InstallStage::Git { .. } => ev is GitRan,
        InstallStage::Uv => ev is UvRan,
        InstallStage::Pip => ev is PipRan,
        InstallStage::Done => false,
    }
}

/// The next stage and action after `ev`: a failed directory creation or a
/// fatal git step ends the install with its error; after git, uv is tried,
/// then pip; the install succeeds when either of them does.
pub open spec fn install_next_spec(stage: InstallStage, ev: InstallEvent) -> (InstallStage, (int, bool, Result<(), Seq<char>>)) {
    match ev {
        InstallEvent::ParentCreated(Err(e)) => (InstallStage::Done, (4, false, Err("Failed to create directory: "@ + e@))),
        InstallEvent::ParentCreated(Ok(())) => (InstallStage::Git { updating: false }, (1, false, Ok(()))),
        InstallEvent::GitRan(o) => {
            let updating = match stage {
                InstallStage::Git { updating } => updating,
                _ => false,
            };
            match repository_step_spec(updating, o) {
                Err(e) => (InstallStage::Done, (4, false, Err(e))),
                Ok(()) => (InstallStage::Uv, (2, false, Ok(()))),
            }
        },
        InstallEvent::UvRan(true) => (InstallStage::Done, (4, false, Ok(()))),
        InstallEvent::UvRan(false) => (InstallStage::Pip, (3, false, Ok(()))),
        InstallEvent::PipRan(ok) => (InstallStage::Done, (4, false, if ok {
            Ok(())
        } else {
            Err("Failed to install dependencies. Please install uv or pip."@)
        })),
    }
}

/// The result of the repository step for a git outcome.
pub open spec fn repository_step_spec(updating: bool, outcome: CommandOutcome) -> Result<(), Seq<char>> {
    match outcome {
        CommandOutcome::Succeeded => Ok(()),
        CommandOutcome::Failed(stderr) => if updating {
            Ok(())
        } else {
            Err("Failed to clone device-agent: "@ + stderr@)
        },
        CommandOutcome::NotRun(err) => Err((if updating {
            "Failed to run git pull: "@
        } else {
            "Failed to run git clone: "@
        }) + err@),
    }
}

/// Starts installing or updating the device-agent: pulls into the
/// checkout when its directory exists, else clones it afresh.
pub fn install_or_update(dir_exists: bool) -> (r: (InstallStage, InstallAction))
    ensures
        (r.0, action_view(r.1)) == install_start_spec(dir_exists),
{
    if dir_exists {
        (InstallStage::Git { updating: true }, InstallAction::RunGit { updating: true })
    } else {
        (InstallStage::CreatingParent, InstallAction::CreateParent)
    }
}

/// The next stage and action of an install, from how the last action came out.
pub fn install_step(stage: InstallStage, ev: InstallEvent) -> (r: (InstallStage, InstallAction))
    requires
        event_fits(stage, ev),
    ensures
        (r.0, action_view(r.1)) == install_next_spec(stage, ev),
{
    match ev {
        InstallEvent::ParentCreated(Err(e)) => {
            let mut m = owned("Failed to create directory: ");
            m.append(e.as_str());
            (InstallStage::Done, InstallAction::Finish(Err(m)))
        },
        InstallEvent::ParentCreated(Ok(())) => (
            InstallStage::Git { updating: false },
            InstallAction::RunGit { updating: false },
        ),
        InstallEvent::GitRan(o) => {
            let updating = match stage {
                InstallStage::Git { updating } => updating,
                _ => false,
            };
            match repository_step_result(updating, &o) {
                Err(e) => (InstallStage::Done, InstallAction::Finish(Err(e))),
                Ok(()) => (InstallStage::Uv, InstallAction::RunUv),
            }
        },
        InstallEvent::UvRan(ok) => {
            if ok {
                (InstallStage::Done, InstallAction::Finish(Ok(())))
            } else {
                (InstallStage::Pip, InstallAction::RunPip)
            }
        },
        InstallEvent::PipRan(ok) => (InstallStage::Done, InstallAction::Finish(install_dependencies(false, Some(ok)))),
    }
}

/// How far an install stage is along the way.
pub open spec fn stage_rank(s: InstallStage) -> int {
    match s {
        InstallStage::CreatingParent => 0,
        InstallStage::Git { .. } => 1,
        InstallStage::Uv => 2,
        InstallStage::Pip => 3,
        InstallStage::Done => 4,
    }
}

/// An install always moves forward, so it ends after at most four steps,
/// and it ends exactly when it reports a result; a failed pull of an
/// existing checkout still goes on to the dependencies.
pub proof fn lemma_install_progresses(stage: InstallStage, ev: InstallEvent, stderr: String)
    requires
        event_fits(stage, ev),
    ensures
        stage_rank(install_next_spec(stage, ev).0) > stage_rank(stage),
        (install_next_spec(stage, ev).0 == InstallStage::Done) <==> install_next_spec(stage, ev).1.0 == 4,
        install_next_spec(InstallStage::Git { updating: true }, InstallEvent::GitRan(CommandOutcome::Failed(stderr))).0
            == InstallStage::Uv,
{
}

/// The pip to use: `pip3` when it is found, else `pip`.
pub fn pip_program(pip3_found: bool) -> (r: &'static str)
    ensures
        r@ == if pip3_found {
            "pip3"@
        } else {
            "pip"@
        },
{
    if pip3_found {
        "pip3"
    } else {
        "pip"
    }
}

/// The outcome of installing the dependencies: uv first, pip only when uv
/// failed (`pip_ok` is `None` when pip was not tried).
pub fn install_dependencies(uv_ok: bool, pip_ok: Option<bool>) -> (r: Result<(), String>)
    ensures
        uv_ok ==> r is Ok,
        !uv_ok && pip_ok == Some(true) ==> r is Ok,
        !uv_ok && pip_ok != Some(true) ==> (r matches Err(e) && e@
            == "Failed to install dependencies. Please install uv or pip."@),
{
    if uv_ok {
        return Ok(());
    }
    match pip_ok {
        Some(true) => Ok(()),
        _ => Err(owned("Failed to install dependencies. Please install uv or pip.")),
    }
}

} // verus!
