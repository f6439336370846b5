//! The AMOS API endpoints the companion talks to, the device registry's
//! records, and the host name used to label this machine.
use vstd::prelude::*;
use crate::text::{owned, chars_of, trim_end_char, string_of, strip_suffix_char_all};

verus! {

/// A registered device, as the backend reports it.
#[derive(Debug, Clone)]
pub struct RegisteredDevice {
    pub id: String,
    pub name: String,
    pub adb_serial: String,
}

/// The URL of `path` on the API at `api_url`: trailing slashes of the base
/// are dropped before the path is appended.
pub open spec fn endpoint_spec(api_url: Seq<char>, path: Seq<char>) -> Seq<char> {
    strip_suffix_char_all(api_url, '/') + path
}

/// The URL of `path` on the API at `api_url`.
pub fn endpoint(api_url: &str, path: &str) -> (r: String)
    ensures
        r@ == endpoint_spec(api_url@, path@),
{
    let base = chars_of(api_url);
    let trimmed = trim_end_char(base.as_slice(), '/');
    let mut s = string_of(trimmed.as_slice());
    s.append(path);
    s
}

/// The email-and-password sign-in endpoint.
pub fn sign_in_url(api_url: &str) -> (r: String)
    ensures
        r@ == endpoint_spec(api_url@, "/api/auth/sign-in/email-password"@),
{
    endpoint(api_url, "/api/auth/sign-in/email-password")
}

/// The endpoint that gets, or creates, the user's default workspace.
pub fn workspace_url(api_url: &str) -> (r: String)
    ensures
        r@ == endpoint_spec(api_url@, "/auth/workspace/default"@),
{
    endpoint(api_url, "/auth/workspace/default")
}

/// The endpoint that registers a device-agent.
pub fn register_url(api_url: &str) -> (r: String)
    ensures
        r@ == endpoint_spec(api_url@, "/auth/device-agent/register"@),
{
    endpoint(api_url, "/auth/device-agent/register")
}

/// The endpoint that issues a device-agent's bearer token.
pub fn device_token_url(api_url: &str) -> (r: String)
    ensures
        r@ == endpoint_spec(api_url@, "/auth/device-token"@),
{
    endpoint(api_url, "/auth/device-token")
}

/// The endpoint that lists the workspace's devices.
pub fn devices_url(api_url: &str) -> (r: String)
    ensures
        r@ == endpoint_spec(api_url@, "/devices"@),
{
    endpoint(api_url, "/devices")
}

/// The endpoint of one device.
pub fn device_url(api_url: &str, device_id: &str) -> (r: String)
    ensures
        r@ == endpoint_spec(api_url@, "/devices/"@ + device_id@),
{
    let mut path = owned("/devices/");
    path.append(device_id);
    endpoint(api_url, path.as_str())
}

/// The error for an API call that returned a failure status, with the body.
pub fn failure_with_body(context: &str, status: &str, body: &str) -> (r: String)
    ensures
        r@ == context@ + ": "@ + status@ + " - "@ + body@,
{
    let mut s = owned(context);
    s.append(": ");
    s.append(status);
    s.append(" - ");
    s.append(body);
    s
}

/// The error for an API call that returned a failure status.
pub fn failure_with_status(context: &str, status: &str) -> (r: String)
    ensures
        r@ == context@ + ": "@ + status@,
{
    let mut s = owned(context);
    s.append(": ");
    s.append(status);
    s
}

/// `hostname::get`, read as text: the machine's host name, which the
/// system decides; `None` when the call fails. Nothing is stated of the name.
#[verifier::external_body]
fn system_hostname() -> (r: Option<String>) {
    match hostname::get() {
        Ok(h) => Some(h.to_string_lossy().to_string()),
        Err(_) => None,
    }
}

/// The host name, or `unknown-host` when it cannot be had.
pub fn hostname_or_unknown(name: Option<String>) -> (r: String)
    ensures
        match name {
            Some(n) => r == n,
            None => r@ == "unknown-host"@,
        },
{
    match name {
        Some(n) => n,
        None => owned("unknown-host"),
    }
}

/// The OS host name for labelling this machine's device-agent; what
/// [`hostname_or_unknown`] makes of the system's answer.
pub fn get_hostname() -> (r: String) {
    hostname_or_unknown(system_hostname())
}


/// A trailing slash on the API URL makes no difference to any endpoint.
pub proof fn lemma_endpoint_ignores_trailing_slash(api_url: Seq<char>, path: Seq<char>)
    ensures
        endpoint_spec(api_url.push('/'), path) == endpoint_spec(api_url, path),
{
    crate::text::lemma_strip_suffix_extra(api_url, '/');
}

} // verus!
