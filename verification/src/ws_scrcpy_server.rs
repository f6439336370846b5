//! The ws-scrcpy Node.js server that serves browser mirroring: its address,
//! its running state, and the decisions when starting and checking it.
use vstd::prelude::*;
use crate::text::{owned, u64_to_string, decimal};
use crate::scrcpy::ProcessProbe;

verus! {

/// Default port for the ws-scrcpy server.
pub const DEFAULT_PORT: u16 = 8000;

/// Host the server binds to.
pub const DEFAULT_HOST: &'static str = "0.0.0.0";

/// The companion's record of the ws-scrcpy server.
#[derive(Debug, Clone)]
pub struct WsScrcpyServer {
    pub port: u16,
    pub running: bool,
}

/// `http://0.0.0.0:PORT`.
pub open spec fn server_url(port: u16) -> Seq<char> {
    "http://"@ + DEFAULT_HOST@ + ":"@ + decimal(port as nat)
}

/// Status information for the frontend.
#[derive(Debug, Clone)]
pub struct WsScrcpyStatus {
    pub running: bool,
    pub url: String,
    pub port: u16,
    pub installed: bool,
}

/// What to do when asked to start the server.
#[derive(Debug, Clone)]
pub enum WsStartStep {
    /// It already runs at this URL.
    AlreadyRunning(String),
    /// It is not installed; the error.
    NotInstalled(String),
    /// npm is missing.
    NpmMissing,
    /// Launch `npm start` in the ws-scrcpy directory.
    Launch,
}

impl WsScrcpyServer {
    /// A server on the default port that is not running.
    pub fn new() -> (r: Self)
        ensures
            r.port == DEFAULT_PORT,
            !r.running,
    {
        WsScrcpyServer { port: DEFAULT_PORT, running: false }
    }

    /// Whether the server is running.
    pub fn is_running(&self) -> (r: bool)
        ensures
            r == self.running,
    {
        self.running
    }

    /// The server's URL.
    pub fn get_url(&self) -> (r: String)
        ensures
            r@ == server_url(self.port),
    {
        let mut s = owned("http://");
        s.append(DEFAULT_HOST);
        s.append(":");
        s.append(u64_to_string(self.port as u64).as_str());
        s
    }

    /// Sets a custom port.
    pub fn set_port(&mut self, port: u16)
        ensures
            final(self).port == port,
            final(self).running == old(self).running,
    {
        self.port = port;
    }

    /// What a start request does: report the URL when running, refuse
    /// when ws-scrcpy or npm is missing, else launch.
    pub fn start_step(&self, installed: bool, npm_exists: bool) -> (r: WsStartStep)
        ensures
            self.running ==> (r matches WsStartStep::AlreadyRunning(u) && u@ == server_url(self.port)),
            !self.running && !installed ==> (r matches WsStartStep::NotInstalled(e) && e@
                == "ws-scrcpy not installed. Run install_deps() first."@),
            !self.running && installed && !npm_exists ==> r matches WsStartStep::NpmMissing,
            !self.running && installed && npm_exists ==> r matches WsStartStep::Launch,
    {
        if self.running {
            WsStartStep::AlreadyRunning(self.get_url())
        } else if !installed {
            WsStartStep::NotInstalled(owned("ws-scrcpy not installed. Run install_deps() first."))
        } else if !npm_exists {
            WsStartStep::NpmMissing
        } else {
            WsStartStep::Launch
        }
    }

    /// The launched server survived its start-up wait: it counts as
    /// running, and its URL is returned.
    pub fn started(&mut self) -> (r: String)
        ensures
            final(self).running,
            final(self).port == old(self).port,
            r@ == server_url(old(self).port),
    {
        self.running = true;
        self.get_url()
    }

    /// The server was stopped.
    pub fn stop(&mut self)
        ensures
            !final(self).running,
            final(self).port == old(self).port,
    {
        self.running = false;
    }

    /// Whether the server is still running, from a check on its process
    /// (`None` when no process is held). An exited process or a failed
    /// check marks it stopped.
    pub fn check_alive(&mut self, probe: Option<ProcessProbe>) -> (r: bool)
        ensures
            r == (probe matches Some(ProcessProbe::Running)),
            final(self).port == old(self).port,
            final(self).running == match probe {
                Some(ProcessProbe::Running) => old(self).running,
                Some(_) => false,
                None => old(self).running,
            },
    {
        match probe {
            Some(ProcessProbe::Running) => true,
            Some(_) => {
                self.running = false;
                false
            },
            None => false,
        }
    }

    /// The environment `npm start` runs with: the companion's `PATH`, the
    /// host and the port.
    pub fn launch_environment(&self, path_env: String) -> (r: Vec<(String, String)>)
        ensures
            crate::agent_manager::env_views(r@) == seq![
                ("PATH"@, path_env@),
                ("HOST"@, DEFAULT_HOST@),
                ("PORT"@, decimal(self.port as nat)),
            ],
    {
        let mut env: Vec<(String, String)> = Vec::new();
        env.push((owned("PATH"), path_env));
        env.push((owned("HOST"), owned(DEFAULT_HOST)));
        env.push((owned("PORT"), u64_to_string(self.port as u64)));
        assert(crate::agent_manager::env_views(env@) =~= seq![
            ("PATH"@, path_env@),
            ("HOST"@, DEFAULT_HOST@),
            ("PORT"@, decimal(self.port as nat)),
        ]);
        env
    }

    /// The status shown to the frontend.
    pub fn get_status(&self, installed: bool) -> (r: WsScrcpyStatus)
        ensures
            r.running == self.running,
            r.url@ == server_url(self.port),
            r.port == self.port,
            r.installed == installed,
    {
        WsScrcpyStatus { running: self.running, url: self.get_url(), port: self.port, installed }
    }
}

} // verus!
