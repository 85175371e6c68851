//! The wire-level constants shared by the daemon and its control client:
//! the server address and the action routes, and the URL they combine to.

use vstd::prelude::*;

verus! {

/// Address the daemon's control server listens on.
pub fn default_server_url() -> (r: &'static str)
    ensures
        r@ == "127.0.0.1:17712"@,
{
    "127.0.0.1:17712"
}

/// Route of the play action.
pub fn route_action_play() -> (r: &'static str)
    ensures
        r@ == "/action/play"@,
{
    "/action/play"
}

/// Route of the pause action.
pub fn route_action_pause() -> (r: &'static str)
    ensures
        r@ == "/action/pause"@,
{
    "/action/pause"
}

/// The URL of a route on the default server: scheme, address and route
/// concatenated.
pub fn build_url(route: &str) -> (r: String)
    ensures
        r@ == "http://"@ + "127.0.0.1:17712"@ + route@,
{
    let mut s = String::from_str("http://");
    s.append(default_server_url());
    s.append(route);
    s
}

} // verus!
