//! The companion's settings: what they hold, their defaults, where they are
//! kept, and reading and changing each of them.
use vstd::prelude::*;
use crate::text::{owned, opt_view, append_chars};
use crate::dependency_manager::{OS, join, join_path};

verus! {

/// API URL used until the user configures another.
pub const DEFAULT_API_URL: &'static str = "http://127.0.0.1:8100";

/// Whether `c` is a lowercase hexadecimal digit.
pub open spec fn is_lower_hex(c: char) -> bool {
    ('0' <= c && c <= '9') || ('a' <= c && c <= 'f')
}

/// Whether `s` is a random (version 4, RFC 4122 variant) UUID in the
/// hyphenated lowercase form, such as `67e55044-10b1-426f-9247-bb680e5fe0c8`.
pub open spec fn is_uuid_v4_text(s: Seq<char>) -> bool {
    &&& s.len() == 36
    &&& forall|i: int|
        0 <= i < 36 ==> if i == 8 || i == 13 || i == 18 || i == 23 {
            s[i] == '-'
        } else {
            is_lower_hex(#[trigger] s[i])
        }
    &&& s[14] == '4'
    &&& (s[19] == '8' || s[19] == '9' || s[19] == 'a' || s[19] == 'b')
}

/// `uuid::Uuid::new_v4().to_string()`: a random UUID with the version
/// nibble set to 4 and the variant bits to `10`, written in the hyphenated
/// lowercase form. Which UUID comes out is chance and is not stated.
#[verifier::external_body]
fn new_agent_id() -> (r: String)
    ensures
        is_uuid_v4_text(r@),
{
    uuid::Uuid::new_v4().to_string()
}

/// The companion's settings.
#[derive(Debug, Clone)]
pub struct Config {
    /// URL of the AMOS API server.
    pub api_url: String,
    /// AMOS user ID (from login).
    pub user_id: Option<String>,
    /// User email (from login).
    pub user_email: Option<String>,
    /// Unique agent ID for this installation.
    pub agent_id: String,
    /// WebSocket URL for real-time commands from the AMOS API.
    pub ws_url: Option<String>,
    /// Device-agent API key.
    pub device_agent_key: Option<String>,
    /// Device-agent API secret.
    pub device_agent_secret: Option<String>,
    /// Workspace UUID for this user.
    pub workspace_id: Option<String>,
}

/// The value of a [`Config`].
pub struct ConfigView {
    pub api_url: Seq<char>,
    pub user_id: Option<Seq<char>>,
    pub user_email: Option<Seq<char>>,
    pub agent_id: Seq<char>,
    pub ws_url: Option<Seq<char>>,
    pub device_agent_key: Option<Seq<char>>,
    pub device_agent_secret: Option<Seq<char>>,
    pub workspace_id: Option<Seq<char>>,
}

impl View for Config {
    type V = ConfigView;

    open spec fn view(&self) -> ConfigView {
        ConfigView {
            api_url: self.api_url@,
            user_id: opt_view(self.user_id),
            user_email: opt_view(self.user_email),
            agent_id: self.agent_id@,
            ws_url: opt_view(self.ws_url),
            device_agent_key: opt_view(self.device_agent_key),
            device_agent_secret: opt_view(self.device_agent_secret),
            workspace_id: opt_view(self.workspace_id),
        }
    }
}

impl Default for Config {
    /// The local API URL, a fresh random agent ID, and nothing else set.
    fn default() -> (r: Self)
        ensures
            r@.api_url == DEFAULT_API_URL@,
            is_uuid_v4_text(r@.agent_id),
            r@.user_id is None,
            r@.user_email is None,
            r@.ws_url is None,
            r@.device_agent_key is None,
            r@.device_agent_secret is None,
            r@.workspace_id is None,
    {
        Config {
            api_url: owned(DEFAULT_API_URL),
            user_id: None,
            user_email: None,
            agent_id: new_agent_id(),
            ws_url: None,
            device_agent_key: None,
            device_agent_secret: None,
            workspace_id: None,
        }
    }
}

/// Why the settings could not be read or written.
#[derive(Debug, Clone)]
pub enum ConfigError {
    IoError(String),
    ParseError(String),
    SerializeError(String),
    NoConfigDir,
}

impl ConfigError {
    /// The message for the error.
    pub open spec fn message_spec(&self) -> Seq<char> {
        match self {
            ConfigError::IoError(e) => "Failed to read config file: "@ + e@,
            ConfigError::ParseError(e) => "Failed to parse config: "@ + e@,
            ConfigError::SerializeError(e) => "Failed to serialize config: "@ + e@,
            ConfigError::NoConfigDir => "Could not determine config directory"@,
        }
    }

    /// The message for the error.
    pub fn message(&self) -> (r: String)
        ensures
            r@ == self.message_spec(),
    {
        match self {
            ConfigError::IoError(e) => {
                let mut s = owned("Failed to read config file: ");
                s.append(e.as_str());
                s
            },
            ConfigError::ParseError(e) => {
                let mut s = owned("Failed to parse config: ");
                s.append(e.as_str());
                s
            },
            ConfigError::SerializeError(e) => {
                let mut s = owned("Failed to serialize config: ");
                s.append(e.as_str());
                s
            },
            ConfigError::NoConfigDir => owned("Could not determine config directory"),
        }
    }
}

// ───────────────────────────── where it is kept ─────────────────────────────

/// `dirs::config_dir`: the user's configuration directory, which the
/// environment decides (`$XDG_CONFIG_HOME`, `$HOME/.config`, Application
/// Support, Roaming AppData); nothing is stated of it.
#[verifier::external_body]
fn config_dir() -> (r: Option<String>) {
    dirs::config_dir().map(|p| p.to_string_lossy().to_string())
}

/// `amos-companion/config.toml` under the configuration directory `base`.
pub open spec fn config_file_in(os: OS, base: Seq<char>) -> Seq<char> {
    join_path(os, join_path(os, base, "amos-companion"@), "config.toml"@)
}

/// Where the settings file goes under the configuration directory, if
/// there is one.
pub fn config_path_in(os: OS, config_dir: Option<String>) -> (r: Result<String, ConfigError>)
    ensures
        match config_dir {
            Some(d) => r matches Ok(p) && p@ == config_file_in(os, d@),
            None => r matches Err(ConfigError::NoConfigDir),
        },
{
    match config_dir {
        Some(d) => {
            let a = join(os, d.as_str(), "amos-companion");
            Ok(join(os, a.as_str(), "config.toml"))
        },
        None => Err(ConfigError::NoConfigDir),
    }
}

/// Where the settings file goes: under the user's configuration directory.
pub fn config_path(os: OS) -> (r: Result<String, ConfigError>)
    ensures
        match r {
            Ok(p) => exists|d: Seq<char>| p@ == config_file_in(os, d),
            Err(e) => e matches ConfigError::NoConfigDir,
        },
{
    let d = config_dir();
    match d {
        Some(s) => {
            let ghost sv = s@;
            let r = config_path_in(os, Some(s));
            assert(r matches Ok(p) && p@ == config_file_in(os, sv));
            r
        },
        None => config_path_in(os, None),
    }
}

// ───────────────────────────── the store ─────────────────────────────

/// The settings together with the file they are kept in.
pub struct ConfigStore {
    config: Config,
    path: String,
}

/// The value of a [`ConfigStore`].
pub struct ConfigStoreView {
    pub config: ConfigView,
    pub path: Seq<char>,
}

impl View for ConfigStore {
    type V = ConfigStoreView;

    closed spec fn view(&self) -> ConfigStoreView {
        ConfigStoreView { config: self.config@, path: self.path@ }
    }
}

impl ConfigStore {
    /// A store holding `config`, kept in the file `path`.
    pub fn from_parts(config: Config, path: String) -> (r: Self)
        ensures
            r@.config == config@,
            r@.path == path@,
    {
        ConfigStore { config, path }
    }

    /// The default settings, kept at `path`.
    pub fn with_defaults(path: String) -> (r: Self)
        ensures
            r@.config.api_url == DEFAULT_API_URL@,
            is_uuid_v4_text(r@.config.agent_id),
            r@.config.user_id is None,
            r@.config.user_email is None,
            r@.config.ws_url is None,
            r@.config.device_agent_key is None,
            r@.config.device_agent_secret is None,
            r@.config.workspace_id is None,
            r@.path == path@,
    {
        ConfigStore { config: Config::default(), path }
    }

    /// The default settings at the usual place (`config.toml` in the
    /// current directory when there is no configuration directory).
    pub fn default(os: OS) -> (r: Self)
        ensures
            r@.config.api_url == DEFAULT_API_URL@,
            is_uuid_v4_text(r@.config.agent_id),
            r@.config.user_id is None,
            r@.config.user_email is None,
            r@.config.ws_url is None,
            r@.config.device_agent_key is None,
            r@.config.device_agent_secret is None,
            r@.config.workspace_id is None,
            r@.path == "config.toml"@ || exists|d: Seq<char>| r@.path == config_file_in(os, d),
    {
        let path = match config_path(os) {
            Ok(p) => p,
            Err(_) => owned("config.toml"),
        };
        Self::with_defaults(path)
    }

    /// The settings, for writing them out.
    pub fn config(&self) -> (r: &Config)
        ensures
            r@ == self@.config,
    {
        &self.config
    }

    /// The file the settings are kept in.
    pub fn path(&self) -> (r: &str)
        ensures
            r@ == self@.path,
    {
        self.path.as_str()
    }

    /// Get the API URL.
    pub fn get_api_url(&self) -> (r: String)
        ensures
            r@ == self@.config.api_url,
    {
        self.config.api_url.clone()
    }

    /// Set the API URL.
    pub fn set_api_url(&mut self, url: String)
        ensures
            final(self)@ == (ConfigStoreView {
                config: ConfigView { api_url: url@, ..old(self)@.config },
                ..old(self)@
            }),
    {
        self.config.api_url = url;
    }

    /// Get the user ID.
    pub fn get_user_id(&self) -> (r: Option<String>)
        ensures
            opt_view(r) == self@.config.user_id,
    {
        self.config.user_id.clone()
    }

    /// Set the user ID.
    pub fn set_user_id(&mut self, user_id: Option<String>)
        ensures
            final(self)@ == (ConfigStoreView {
                config: ConfigView { user_id: opt_view(user_id), ..old(self)@.config },
                ..old(self)@
            }),
    {
        self.config.user_id = user_id;
    }

    /// Get the user email.
    pub fn get_user_email(&self) -> (r: Option<String>)
        ensures
            opt_view(r) == self@.config.user_email,
    {
        self.config.user_email.clone()
    }

    /// Set the user email.
    pub fn set_user_email(&mut self, email: Option<String>)
        ensures
            final(self)@ == (ConfigStoreView {
                config: ConfigView { user_email: opt_view(email), ..old(self)@.config },
                ..old(self)@
            }),
    {
        self.config.user_email = email;
    }

    /// Get the agent ID.
    pub fn get_agent_id(&self) -> (r: String)
        ensures
            r@ == self@.config.agent_id,
    {
        self.config.agent_id.clone()
    }

    /// Get the WebSocket URL.
    pub fn get_ws_url(&self) -> (r: Option<String>)
        ensures
            opt_view(r) == self@.config.ws_url,
    {
        self.config.ws_url.clone()
    }

    /// Set the WebSocket URL.
    pub fn set_ws_url(&mut self, url: Option<String>)
        ensures
            final(self)@ == (ConfigStoreView {
                config: ConfigView { ws_url: opt_view(url), ..old(self)@.config },
                ..old(self)@
            }),
    {
        self.config.ws_url = url;
    }

    /// Get the device-agent API key.
    pub fn get_device_agent_key(&self) -> (r: Option<String>)
        ensures
            opt_view(r) == self@.config.device_agent_key,
    {
        self.config.device_agent_key.clone()
    }

    /// Set the device-agent API key.
    pub fn set_device_agent_key(&mut self, key: Option<String>)
        ensures
            final(self)@ == (ConfigStoreView {
                config: ConfigView { device_agent_key: opt_view(key), ..old(self)@.config },
                ..old(self)@
            }),
    {
        self.config.device_agent_key = key;
    }

    /// Get the device-agent API secret.
    pub fn get_device_agent_secret(&self) -> (r: Option<String>)
        ensures
            opt_view(r) == self@.config.device_agent_secret,
    {
        self.config.device_agent_secret.clone()
    }

    /// Set the device-agent API secret.
    pub fn set_device_agent_secret(&mut self, secret: Option<String>)
        ensures
            final(self)@ == (ConfigStoreView {
                config: ConfigView { device_agent_secret: opt_view(secret), ..old(self)@.config },
                ..old(self)@
            }),
    {
        self.config.device_agent_secret = secret;
    }

    /// Get the workspace ID.
    pub fn get_workspace_id(&self) -> (r: Option<String>)
        ensures
            opt_view(r) == self@.config.workspace_id,
    {
        self.config.workspace_id.clone()
    }

    /// Set the workspace ID.
    pub fn set_workspace_id(&mut self, workspace_id: Option<String>)
        ensures
            final(self)@ == (ConfigStoreView {
                config: ConfigView { workspace_id: opt_view(workspace_id), ..old(self)@.config },
                ..old(self)@
            }),
    {
        self.config.workspace_id = workspace_id;
    }
}


// ───────────────────────────── laws ─────────────────────────────

/// The user's identity as the settings hold it: ID and email, when both are set.
pub open spec fn user_info_spec(c: ConfigView) -> Option<(Seq<char>, Seq<char>)> {
    match (c.user_id, c.user_email) {
        (Some(id), Some(email)) => Some((id, email)),
        _ => None,
    }
}

/// The user's identity and workspace, when all three are set.
pub open spec fn user_info_full_spec(c: ConfigView) -> Option<(Seq<char>, Seq<char>, Seq<char>)> {
    match (c.user_id, c.user_email, c.workspace_id) {
        (Some(id), Some(email), Some(ws)) => Some((id, email, ws)),
        _ => None,
    }
}

/// Reading a setting gives back what was last written to it, and writing
/// one setting leaves the others, and the file, as they were.
pub proof fn lemma_read_after_write(s: ConfigStoreView, url: Seq<char>, v: Option<Seq<char>>)
    ensures
        (ConfigStoreView { config: ConfigView { api_url: url, ..s.config }, ..s }).config.api_url == url,
        (ConfigStoreView { config: ConfigView { user_id: v, ..s.config }, ..s }).config.user_id == v,
        (ConfigStoreView { config: ConfigView { user_email: v, ..s.config }, ..s }).config.user_email == v,
        (ConfigStoreView { config: ConfigView { ws_url: v, ..s.config }, ..s }).config.ws_url == v,
        (ConfigStoreView { config: ConfigView { device_agent_key: v, ..s.config }, ..s }).config.device_agent_key == v,
        (ConfigStoreView { config: ConfigView { device_agent_secret: v, ..s.config }, ..s }).config.device_agent_secret == v,
        (ConfigStoreView { config: ConfigView { workspace_id: v, ..s.config }, ..s }).config.workspace_id == v,
        (ConfigStoreView { config: ConfigView { user_id: v, ..s.config }, ..s }).config.api_url == s.config.api_url,
        (ConfigStoreView { config: ConfigView { user_id: v, ..s.config }, ..s }).config.agent_id == s.config.agent_id,
        (ConfigStoreView { config: ConfigView { user_id: v, ..s.config }, ..s }).config.workspace_id == s.config.workspace_id,
        (ConfigStoreView { config: ConfigView { workspace_id: v, ..s.config }, ..s }).config.user_id == s.config.user_id,
        (ConfigStoreView { config: ConfigView { api_url: url, ..s.config }, ..s }).path == s.path,
{
}

impl ConfigStore {
    /// The user's ID and email, when both are set.
    pub fn get_user_info(&self) -> (r: Option<(String, String)>)
        ensures
            match r {
                Some((id, email)) => user_info_spec(self@.config) == Some((id@, email@)),
                None => user_info_spec(self@.config) is None,
            },
    {
        match (self.get_user_id(), self.get_user_email()) {
            (Some(id), Some(email)) => Some((id, email)),
            _ => None,
        }
    }

    /// The user's ID, email and workspace, when all three are set.
    pub fn get_user_info_full(&self) -> (r: Option<(String, String, String)>)
        ensures
            match r {
                Some((id, email, ws)) => user_info_full_spec(self@.config) == Some((id@, email@, ws@)),
                None => user_info_full_spec(self@.config) is None,
            },
    {
        match (self.get_user_id(), self.get_user_email(), self.get_workspace_id()) {
            (Some(id), Some(email), Some(ws)) => Some((id, email, ws)),
            _ => None,
        }
    }

    /// Forgets the user: ID, email, workspace and device-agent credentials.
    pub fn sign_out(&mut self)
        ensures
            final(self)@ == (ConfigStoreView {
                config: ConfigView {
                    user_id: None,
                    user_email: None,
                    workspace_id: None,
                    device_agent_key: None,
                    device_agent_secret: None,
                    ..old(self)@.config
                },
                ..old(self)@
            }),
    {
        self.set_user_id(None);
        self.set_user_email(None);
        self.set_workspace_id(None);
        self.set_device_agent_key(None);
        self.set_device_agent_secret(None);
    }

    /// Records a sign-in without email verification: the API URL, the user
    /// ID, and `OAuth User` as the email.
    pub fn sign_in_manual(&mut self, api_url: String, user_id: String)
        ensures
            final(self)@ == (ConfigStoreView {
                config: ConfigView {
                    api_url: api_url@,
                    user_id: Some(user_id@),
                    user_email: Some("OAuth User"@),
                    ..old(self)@.config
                },
                ..old(self)@
            }),
    {
        self.set_api_url(api_url);
        self.set_user_id(Some(user_id));
        self.set_user_email(Some(owned("OAuth User")));
    }

    /// Records a signed-in user: the API URL, ID and email, and the
    /// workspace when it could be had (the workspace stays as it was otherwise).
    pub fn record_sign_in(&mut self, api_url: String, user_id: String, email: String, workspace: Result<String, String>)
        ensures
            final(self)@ == (ConfigStoreView {
                config: ConfigView {
                    api_url: api_url@,
                    user_id: Some(user_id@),
                    user_email: Some(email@),
                    workspace_id: match workspace {
                        Ok(ws) => Some(ws@),
                        Err(_) => old(self)@.config.workspace_id,
                    },
                    ..old(self)@.config
                },
                ..old(self)@
            }),
    {
        self.set_api_url(api_url);
        self.set_user_id(Some(user_id));
        self.set_user_email(Some(email));
        match workspace {
            Ok(ws) => self.set_workspace_id(Some(ws)),
            Err(_) => {},
        }
    }
}

/// Signing out forgets who the user was: no identity, no workspace and no
/// device-agent credentials remain, while the API URL, the agent ID and
/// the file stay.
pub proof fn lemma_sign_out_forgets(s: ConfigStoreView)
    ensures
        ({
            let t = ConfigStoreView {
                config: ConfigView {
                    user_id: None,
                    user_email: None,
                    workspace_id: None,
                    device_agent_key: None,
                    device_agent_secret: None,
                    ..s.config
                },
                ..s
            };
            &&& user_info_spec(t.config) is None
            &&& user_info_full_spec(t.config) is None
            &&& t.config.device_agent_key is None
            &&& t.config.device_agent_secret is None
            &&& t.config.api_url == s.config.api_url
            &&& t.config.agent_id == s.config.agent_id
            &&& t.path == s.path
        }),
{
}

/// After a sign-in the settings report that user: the manual sign-in with
/// `OAuth User` as the email, the password sign-in with the email given.
pub proof fn lemma_sign_in_identifies(s: ConfigStoreView, api_url: Seq<char>, user_id: Seq<char>, email: Seq<char>)
    ensures
        user_info_spec(
            ConfigView {
                api_url: api_url,
                user_id: Some(user_id),
                user_email: Some("OAuth User"@),
                ..s.config
            },
        ) == Some((user_id, "OAuth User"@)),
        user_info_spec(
            ConfigView {
                api_url: api_url,
                user_id: Some(user_id),
                user_email: Some(email),
                ..s.config
            },
        ) == Some((user_id, email)),
{
}

} // verus!
