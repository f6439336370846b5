//! The device-agent's lifecycle: whether it counts as running, what a start
//! or stop does to that, how the start is prepared from the settings, the
//! devices it reports, and the status shown to the user.
use vstd::prelude::*;
use crate::text::{
    owned, opt_view, chars_of, split_lines, split_words, has_prefix, trim_start_matches,
    contains_chars, is_blank, string_of, lines, words, trim, contains_seq, views, string_views,
    append_chars, starts_with, strip_prefix_all,
};
use crate::config_store::ConfigStore;
use crate::dependency_manager::{OS, join, join_path, first_flagged, first_flagged_of};

verus! {

/// Why the device-agent could not be started.
#[derive(Debug, Clone)]
pub enum AgentError {
    AlreadyRunning,
    SpawnFailed(String),
    NotRunning,
    StartupFailed(String),
}

impl AgentError {
    /// The message for the error.
    pub open spec fn message_spec(&self) -> Seq<char> {
        match self {
            AgentError::AlreadyRunning => "Agent is already running"@,
            AgentError::SpawnFailed(e) => "Failed to spawn agent: "@ + e@,
            AgentError::NotRunning => "Agent is not running"@,
            AgentError::StartupFailed(e) => "Agent exited immediately after startup: "@ + e@,
        }
    }

    /// The message for the error.
    pub fn message(&self) -> (r: String)
        ensures
            r@ == self.message_spec(),
    {
        match self {
            AgentError::AlreadyRunning => owned("Agent is already running"),
            AgentError::SpawnFailed(e) => {
                let mut s = owned("Failed to spawn agent: ");
                s.append(e.as_str());
                s
            },
            AgentError::NotRunning => owned("Agent is not running"),
            AgentError::StartupFailed(e) => {
                let mut s = owned("Agent exited immediately after startup: ");
                s.append(e.as_str());
                s
            },
        }
    }
}

/// What the companion knows of the device-agent process.
#[derive(Debug, Clone)]
pub struct AgentState {
    /// OS process ID of the running agent.
    pub pid: Option<u32>,
    /// Last error message from the agent.
    pub error_message: Option<String>,
    /// Whether the agent was started successfully.
    pub agent_started: bool,
    /// Whether a process handle is held.
    pub has_process: bool,
}

impl AgentState {
    /// Whether the agent counts as running: it was started and no error came since.
    pub open spec fn running(&self) -> bool {
        self.agent_started && self.error_message is None
    }

    /// An agent that was never started.
    pub fn new() -> (r: Self)
        ensures
            r.pid is None,
            r.error_message is None,
            !r.agent_started,
            !r.has_process,
    {
        AgentState { pid: None, error_message: None, agent_started: false, has_process: false }
    }

    /// Whether the agent is running.
    pub fn is_running(&self) -> (r: bool)
        ensures
            r == self.running(),
    {
        self.agent_started && self.error_message.is_none()
    }

    /// The first step of a start: refused while the agent runs, otherwise
    /// the error and started flag are cleared for the new attempt.
    pub fn begin_start(&mut self) -> (r: Result<(), AgentError>)
        ensures
            old(self).running() ==> (r matches Err(AgentError::AlreadyRunning) && *final(self)
                == *old(self)),
            !old(self).running() ==> (r is Ok && *final(self) == (AgentState {
                error_message: None,
                agent_started: false,
                ..*old(self)
            })),
    {
        if self.is_running() {
            return Err(AgentError::AlreadyRunning);
        }
        self.error_message = None;
        self.agent_started = false;
        Ok(())
    }

    /// The process could not be spawned: the error is kept and returned.
    pub fn spawn_failed(&mut self, error: String) -> (r: AgentError)
        ensures
            r matches AgentError::SpawnFailed(e) && e@ == error@,
            final(self).error_message matches Some(m) && m@ == "Failed to spawn agent: "@ + error@,
            final(self).pid == old(self).pid,
            final(self).agent_started == old(self).agent_started,
            final(self).has_process == old(self).has_process,
            !final(self).running(),
    {
        let mut m = owned("Failed to spawn agent: ");
        m.append(error.as_str());
        self.error_message = Some(m);
        AgentError::SpawnFailed(error)
    }

    /// The process was spawned: its ID is kept and the agent counts as started.
    pub fn spawned(&mut self, pid: Option<u32>)
        ensures
            *final(self) == (AgentState {
                pid: pid,
                agent_started: true,
                has_process: true,
                ..*old(self)
            }),
    {
        self.pid = pid;
        self.has_process = true;
        self.agent_started = true;
    }

    /// The agent was stopped: it no longer counts as started, and the
    /// process handle and ID are dropped if one was held.
    pub fn stopped(&mut self)
        ensures
            !final(self).agent_started,
            !final(self).has_process,
            final(self).error_message == old(self).error_message,
            final(self).pid == if old(self).has_process {
                None
            } else {
                old(self).pid
            },
    {
        self.agent_started = false;
        if self.has_process {
            self.pid = None;
            self.has_process = false;
        }
    }
}

/// The error when a log file for the agent could not be created
/// (`stream` is `stdout` or `stderr`); the agent's state is left alone.
pub fn log_file_error(stream: &str, error: &str) -> (r: AgentError)
    ensures
        r matches AgentError::SpawnFailed(m) && m@ == "Failed to create "@ + stream@ + " log: "@ + error@,
{
    let mut m = owned("Failed to create ");
    m.append(stream);
    m.append(" log: ");
    m.append(error);
    AgentError::SpawnFailed(m)
}

/// A start succeeds exactly when the agent was not running, and after a
/// successful spawn it runs; after a failed spawn or a stop it does not.
pub proof fn lemma_agent_lifecycle(s: AgentState, pid: Option<u32>)
    ensures
        !(AgentState { error_message: None, agent_started: false, ..s }).running(),
        (AgentState {
            pid: pid,
            agent_started: true,
            has_process: true,
            ..AgentState { error_message: None, agent_started: false, ..s }
        }).running(),
        !(AgentState { agent_started: false, ..s }).running(),
{
}

/// The status reported to the frontend.
#[derive(Debug, Clone)]
pub struct AgentStatus {
    pub agent_online: bool,
    pub agent_running: bool,
    pub connected_devices: Vec<String>,
    pub platform: String,
    pub companion_version: String,
    pub adb_version: String,
    pub api_url: String,
    pub agent_pid: Option<u32>,
    pub error_message: Option<String>,
}

impl AgentStatus {
    /// The status before anything is known: online, not running, no devices.
    pub fn default(platform: String, companion_version: String) -> (r: Self)
        ensures
            r.agent_online && !r.agent_running,
            r.connected_devices@.len() == 0,
            r.platform == platform && r.companion_version == companion_version,
            r.adb_version@.len() == 0 && r.api_url@.len() == 0,
            r.agent_pid is None && r.error_message is None,
    {
        AgentStatus {
            agent_online: true,
            agent_running: false,
            connected_devices: Vec::new(),
            platform,
            companion_version,
            adb_version: String::new(),
            api_url: String::new(),
            agent_pid: None,
            error_message: None,
        }
    }
}

impl AgentState {
    /// The status of the agent, with the devices that adb lists.
    pub fn get_status(&self, connected_devices: Vec<String>, platform: String, companion_version: String) -> (r: AgentStatus)
        ensures
            r.agent_online,
            r.agent_running == self.running(),
            r.connected_devices == connected_devices,
            r.platform == platform && r.companion_version == companion_version,
            r.adb_version@.len() == 0 && r.api_url@.len() == 0,
            r.agent_pid == self.pid,
            r.error_message == self.error_message,
    {
        AgentStatus {
            agent_online: true,
            agent_running: self.is_running(),
            connected_devices,
            platform,
            companion_version,
            adb_version: String::new(),
            api_url: String::new(),
            agent_pid: self.pid,
            error_message: self.error_message.clone(),
        }
    }
}

// ───────────────────────────── connected devices ─────────────────────────────

/// How one line of `adb devices -l` is shown: `MODEL (SERIAL)` when it has
/// at least two words (the serial standing in for a missing model), the
/// line itself otherwise.
pub open spec fn device_label(line: Seq<char>) -> Seq<char> {
    let ws = words(line);
    if ws.len() >= 2 {
        let model = match crate::device_controller::model_word(ws.skip(2)) {
            Some(m) => m,
            None => ws[0],
        };
        model + " ("@ + ws[0] + ")"@
    } else {
        line
    }
}

/// The labels of the lines that are neither blank nor offline.
pub open spec fn device_labels(ls: Seq<Seq<char>>) -> Seq<Seq<char>>
    decreases ls.len(),
{
    if ls.len() == 0 {
        seq![]
    } else if trim(ls[0]).len() == 0 || contains_seq(ls[0], "offline"@) {
        device_labels(ls.drop_first())
    } else {
        seq![device_label(ls[0])] + device_labels(ls.drop_first())
    }
}

/// The devices in the output of `adb devices -l`, as labels, skipping the
/// heading line, blank lines and offline devices.
pub open spec fn connected_devices_spec(out: Seq<char>) -> Seq<Seq<char>> {
    let ls = lines(out);
    if ls.len() == 0 {
        seq![]
    } else {
        device_labels(ls.drop_first())
    }
}

fn label_of_line(line: &[char]) -> (r: String)
    ensures
        r@ == device_label(line@),
{
    let ws = split_words(line);
    if ws.len() < 2 {
        return string_of(line);
    }
    let mut r = match crate::device_controller::find_model_word(&ws) {
        Some(m) => string_of(m.as_slice()),
        None => string_of(ws[0].as_slice()),
    };
    r.append(" (");
    append_chars(&mut r, ws[0].as_slice());
    r.append(")");
    r
}

/// The labels of the devices that `adb devices -l` lists as not offline.
pub fn get_connected_devices(output: &str) -> (r: Vec<String>)
    ensures
        string_views(r@) == connected_devices_spec(output@),
{
    let chars = chars_of(output);
    let ls = split_lines(chars.as_slice());
    let mut out: Vec<String> = Vec::new();
    if ls.len() == 0 {
        return out;
    }
    let offline = chars_of("offline");
    let ghost all = views(ls@).drop_first();
    let mut k: usize = 1;
    assert(all.skip(0) =~= all);
    while k < ls.len()
        invariant
            1 <= k <= ls@.len(),
            offline@ == "offline"@,
            all == views(ls@).drop_first(),
            connected_devices_spec(output@) == string_views(out@) + device_labels(all.skip(k - 1)),
        decreases ls@.len() - k,
    {
        assert(all.skip(k - 1)[0] == ls@[k as int]@);
        assert(all.skip(k - 1).drop_first() =~= all.skip(k as int));
        let line = ls[k].as_slice();
        if !is_blank(line) && !contains_chars(line, offline.as_slice()) {
            let ghost before = string_views(out@);
            let label = label_of_line(line);
            out.push(label);
            assert(string_views(out@) =~= before.push(device_label(ls@[k as int]@)));
            assert(before.push(device_label(ls@[k as int]@)) + device_labels(all.skip(k as int))
                =~= before + (seq![device_label(ls@[k as int]@)] + device_labels(all.skip(k as int))));
        }
        k += 1;
    }
    assert(all.skip(k - 1) =~= Seq::<Seq<char>>::empty());
    assert(string_views(out@) + Seq::<Seq<char>>::empty() =~= string_views(out@));
    out
}


// ───────────────────────────── starting the agent ─────────────────────────────

/// What the device-agent process is started with.
#[derive(Debug, Clone)]
pub struct AgentLaunch {
    pub api_url: String,
    pub agent_id: String,
    pub device_key: Option<String>,
    pub device_secret: Option<String>,
    pub workspace_id: Option<String>,
    pub user_id: Option<String>,
}

/// The API URL and user ID that a start needs, or why the user must
/// configure or sign in first: an API URL that is blank after trimming,
/// then a missing user ID.
pub fn start_agent_precheck(store: &ConfigStore) -> (r: Result<(String, String), String>)
    ensures
        trim(store@.config.api_url).len() == 0 ==> (r matches Err(e) && e@
            == "API URL not configured \u{2014} sign in first"@),
        trim(store@.config.api_url).len() > 0 && store@.config.user_id is None ==> (r matches Err(e)
            && e@ == "Please sign in first using sign_in()"@),
        trim(store@.config.api_url).len() > 0 && store@.config.user_id is Some ==> (r matches Ok(
            (url, user),
        ) && url@ == store@.config.api_url && Some(user@) == store@.config.user_id),
{
    let api_url = store.get_api_url();
    let chars = chars_of(api_url.as_str());
    if is_blank(chars.as_slice()) {
        return Err(owned("API URL not configured \u{2014} sign in first"));
    }
    match store.get_user_id() {
        Some(user) => Ok((api_url, user)),
        None => Err(owned("Please sign in first using sign_in()")),
    }
}

/// Records the workspace that was fetched or created for the user, or
/// reports why there is none (the settings then stay as they were).
pub fn record_workspace(store: &mut ConfigStore, workspace: Result<String, String>) -> (r: Result<(), String>)
    ensures
        match workspace {
            Ok(ws) => r is Ok && final(store)@ == (crate::config_store::ConfigStoreView {
                config: crate::config_store::ConfigView {
                    workspace_id: Some(ws@),
                    ..old(store)@.config
                },
                ..old(store)@
            }),
            Err(e) => final(store)@ == old(store)@ && (r matches Err(m) && m@
                == "Failed to create workspace: "@ + e@),
        },
{
    match workspace {
        Ok(ws) => {
            store.set_workspace_id(Some(ws));
            Ok(())
        },
        Err(e) => {
            let mut m = owned("Failed to create workspace: ");
            m.append(e.as_str());
            Err(m)
        },
    }
}

/// The next step of a start once a workspace is known.
#[derive(Debug, Clone)]
pub enum LaunchStep {
    /// No device-agent credentials yet: register with this workspace first.
    Register { workspace_id: String },
    /// Start the agent with these settings.
    Start(AgentLaunch),
}

/// The workspace ID that a start uses: the stored one, empty if none.
pub open spec fn workspace_or_empty(c: crate::config_store::ConfigView) -> Seq<char> {
    match c.workspace_id {
        Some(ws) => ws,
        None => Seq::empty(),
    }
}

/// Decides between registering the device-agent (when the key or the
/// secret is missing) and starting it with the stored credentials and agent ID.
pub fn next_launch_step(store: &ConfigStore, api_url: String, user_id: String) -> (r: LaunchStep)
    ensures
        store@.config.device_agent_key is None || store@.config.device_agent_secret is None ==> (
        r matches LaunchStep::Register { workspace_id } && workspace_id@ == workspace_or_empty(
            store@.config,
        )),
        store@.config.device_agent_key is Some && store@.config.device_agent_secret is Some ==> (
        r matches LaunchStep::Start(l) && l.api_url == api_url && l.agent_id@
            == store@.config.agent_id && opt_view(l.device_key) == store@.config.device_agent_key
            && opt_view(l.device_secret) == store@.config.device_agent_secret && opt_view(
            l.workspace_id,
        ) == Some(workspace_or_empty(store@.config)) && l.user_id == Some(user_id)),
{
    let key = store.get_device_agent_key();
    let secret = store.get_device_agent_secret();
    let ws = match store.get_workspace_id() {
        Some(w) => w,
        None => String::new(),
    };
    if key.is_none() || secret.is_none() {
        LaunchStep::Register { workspace_id: ws }
    } else {
        LaunchStep::Start(
            AgentLaunch {
                api_url,
                agent_id: store.get_agent_id(),
                device_key: key,
                device_secret: secret,
                workspace_id: Some(ws),
                user_id: Some(user_id),
            },
        )
    }
}

/// After registering: keeps the new key and secret and starts the agent
/// with them and the agent ID the server assigned, or reports the failure.
pub fn after_registration(
    store: &mut ConfigStore,
    api_url: String,
    user_id: String,
    workspace_id: String,
    registration: Result<(String, String, String), String>,
) -> (r: Result<AgentLaunch, String>)
    ensures
        match registration {
            Ok((key, secret, agent_id)) => final(store)@ == (crate::config_store::ConfigStoreView {
                config: crate::config_store::ConfigView {
                    device_agent_key: Some(key@),
                    device_agent_secret: Some(secret@),
                    ..old(store)@.config
                },
                ..old(store)@
            }) && (r matches Ok(l) && l.api_url == api_url && l.agent_id == agent_id && l.device_key
                == Some(key) && l.device_secret == Some(secret) && l.workspace_id == Some(
                workspace_id,
            ) && l.user_id == Some(user_id)),
            Err(e) => final(store)@ == old(store)@ && (r matches Err(m) && m@
                == "Failed to register device-agent: "@ + e@),
        },
{
    match registration {
        Ok((key, secret, agent_id)) => {
            store.set_device_agent_key(Some(key.clone()));
            store.set_device_agent_secret(Some(secret.clone()));
            Ok(
                AgentLaunch {
                    api_url,
                    agent_id,
                    device_key: Some(key),
                    device_secret: Some(secret),
                    workspace_id: Some(workspace_id),
                    user_id: Some(user_id),
                },
            )
        },
        Err(e) => {
            let mut m = owned("Failed to register device-agent: ");
            m.append(e.as_str());
            Err(m)
        },
    }
}


/// The views of a list of environment variables.
pub open spec fn env_views(v: Seq<(String, String)>) -> Seq<(Seq<char>, Seq<char>)> {
    v.map_values(|p: (String, String)| (p.0@, p.1@))
}

/// An optional environment variable: present when the value is.
pub open spec fn opt_var(name: Seq<char>, value: Option<String>) -> Seq<(Seq<char>, Seq<char>)> {
    match value {
        Some(v) => seq![(name, v@)],
        None => seq![],
    }
}

/// The environment the device-agent is run with: the API URL and agent ID,
/// then the key, secret, workspace and user when they are given.
pub open spec fn agent_environment_spec(l: AgentLaunch) -> Seq<(Seq<char>, Seq<char>)> {
    seq![("AMOS_API_URL"@, l.api_url@), ("AMOS_AGENT_ID"@, l.agent_id@)] + opt_var(
        "AMOS_API_KEY"@,
        l.device_key,
    ) + opt_var("AMOS_API_SECRET"@, l.device_secret) + opt_var("AMOS_WORKSPACE_ID"@, l.workspace_id)
        + opt_var("AMOS_USER_ID"@, l.user_id)
}

fn push_opt_var(env: &mut Vec<(String, String)>, name: &str, value: &Option<String>)
    ensures
        env_views(final(env)@) == env_views(old(env)@) + opt_var(name@, *value),
{
    let ghost before = env_views(env@);
    match value {
        Some(v) => {
            env.push((owned(name), v.clone()));
            assert(env_views(env@) =~= before + seq![(name@, v@)]);
        },
        None => {
            assert(env_views(env@) =~= before + Seq::<(Seq<char>, Seq<char>)>::empty());
        },
    }
}

/// The environment the device-agent is run with.
pub fn agent_environment(launch: &AgentLaunch) -> (r: Vec<(String, String)>)
    ensures
        env_views(r@) == agent_environment_spec(*launch),
{
    let mut env: Vec<(String, String)> = Vec::new();
    env.push((owned("AMOS_API_URL"), launch.api_url.clone()));
    env.push((owned("AMOS_AGENT_ID"), launch.agent_id.clone()));
    assert(env_views(env@) =~= seq![("AMOS_API_URL"@, launch.api_url@), ("AMOS_AGENT_ID"@, launch.agent_id@)]);
    push_opt_var(&mut env, "AMOS_API_KEY", &launch.device_key);
    push_opt_var(&mut env, "AMOS_API_SECRET", &launch.device_secret);
    push_opt_var(&mut env, "AMOS_WORKSPACE_ID", &launch.workspace_id);
    push_opt_var(&mut env, "AMOS_USER_ID", &launch.user_id);
    env
}

/// The places a development checkout of the device-agent is looked for
/// near the executable's directory, in order: three, two and one levels
/// up, then beside it.
pub open spec fn exe_agent_dirs_spec(os: OS, exe_dir: Seq<char>) -> Seq<Seq<char>> {
    seq![
        join_path(os, exe_dir, "../../../backend/services/device-agent"@),
        join_path(os, exe_dir, "../../backend/services/device-agent"@),
        join_path(os, exe_dir, "../backend/services/device-agent"@),
        join_path(os, exe_dir, "backend/services/device-agent"@),
    ]
}

/// The places a development checkout of the device-agent is looked for
/// under the working directory, in order.
pub open spec fn cwd_agent_dirs_spec(os: OS, cwd: Seq<char>) -> Seq<Seq<char>> {
    seq![
        join_path(os, cwd, "backend/services/device-agent"@),
        join_path(os, cwd, "../backend/services/device-agent"@),
    ]
}

/// The places near the executable's directory, in order.
pub fn exe_agent_dirs(os: OS, exe_dir: &str) -> (r: Vec<String>)
    ensures
        string_views(r@) == exe_agent_dirs_spec(os, exe_dir@),
{
    let mut r: Vec<String> = Vec::new();
    r.push(join(os, exe_dir, "../../../backend/services/device-agent"));
    r.push(join(os, exe_dir, "../../backend/services/device-agent"));
    r.push(join(os, exe_dir, "../backend/services/device-agent"));
    r.push(join(os, exe_dir, "backend/services/device-agent"));
    r
}

/// The places under the working directory, in order.
pub fn cwd_agent_dirs(os: OS, cwd: &str) -> (r: Vec<String>)
    ensures
        string_views(r@) == cwd_agent_dirs_spec(os, cwd@),
{
    let mut r: Vec<String> = Vec::new();
    r.push(join(os, cwd, "backend/services/device-agent"));
    r.push(join(os, cwd, "../backend/services/device-agent"));
    r
}

/// The device-agent's development checkout, if there is one: the first of
/// the places near the executable that resolved to a directory holding the
/// `amos_device_agent` package (`resolved` lists the places that resolved,
/// in order, and `has_package[i]` tells for `resolved[i]`), else the first
/// place under the working directory that exists.
pub fn find_device_agent_dir(resolved: &Vec<String>, has_package: &[bool], cwd_dirs: &Vec<String>, cwd_exists: &[bool]) -> (r: Option<String>)
    ensures
        opt_view(r) == match first_flagged(string_views(resolved@), has_package@) {
            Some(d) => Some(d),
            None => first_flagged(string_views(cwd_dirs@), cwd_exists@),
        },
{
    match first_flagged_of(resolved, has_package) {
        Some(d) => Some(d),
        None => first_flagged_of(cwd_dirs, cwd_exists),
    }
}

/// The command that runs the device-agent: Python itself, started on the
/// `amos_device_agent` module (from the agent's working directory), so
/// that the process that is spawned and tracked is the agent's own.
pub fn agent_command() -> (r: (String, Vec<String>))
    ensures
        r.0@ == "python3"@,
        string_views(r.1@) == seq!["-m"@, "amos_device_agent"@],
{
    let mut args: Vec<String> = Vec::new();
    args.push(owned("-m"));
    args.push(owned("amos_device_agent"));
    assert(string_views(args@) =~= seq!["-m"@, "amos_device_agent"@]);
    (owned("python3"), args)
}

/// Whether a line of `adb devices -l` is shown as a connected device: it is
/// not blank and does not say `offline`.
pub open spec fn shown_line() -> spec_fn(Seq<char>) -> bool {
    |l: Seq<char>| trim(l).len() != 0 && !contains_seq(l, "offline"@)
}

/// The labels are exactly those of the shown lines, in order, one per line.
pub proof fn lemma_labels_of_shown_lines(ls: Seq<Seq<char>>)
    ensures
        device_labels(ls) == ls.filter(shown_line()).map_values(|l: Seq<char>| device_label(l)),
    decreases ls.len(),
{
    if ls.len() > 0 {
        let p = shown_line();
        let rest = ls.drop_first();
        lemma_labels_of_shown_lines(rest);
        assert(ls =~= seq![ls[0]] + rest);
        Seq::filter_distributes_over_add(seq![ls[0]], rest, p);
        reveal_with_fuel(Seq::filter, 2);
        assert(seq![ls[0]].drop_last() =~= Seq::<Seq<char>>::empty());
        let fr = rest.filter(p);
        if p(ls[0]) {
            assert(seq![ls[0]].filter(p) =~= seq![ls[0]]);
            assert(ls.filter(p) =~= seq![ls[0]] + fr);
            assert((seq![ls[0]] + fr).map_values(|l: Seq<char>| device_label(l)) =~= seq![
                device_label(ls[0]),
            ] + fr.map_values(|l: Seq<char>| device_label(l)));
        } else {
            assert(seq![ls[0]].filter(p) =~= Seq::<Seq<char>>::empty());
            assert(ls.filter(p) =~= fr);
        }
    }
}

/// Every line after the heading of `adb devices -l` that is neither blank
/// nor offline is reported as a connected device, whatever else it says,
/// and no other line is: the labels are those of exactly these lines, in
/// order.
pub proof fn lemma_connected_devices_are_shown_lines(out: Seq<char>)
    requires
        lines(out).len() > 0,
    ensures
        connected_devices_spec(out) == lines(out).drop_first().filter(shown_line()).map_values(
            |l: Seq<char>| device_label(l),
        ),
{
    lemma_labels_of_shown_lines(lines(out).drop_first());
}

} // verus!
