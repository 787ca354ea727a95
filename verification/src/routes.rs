//! The paths of the HTTP surface.

use vstd::prelude::*;

verus! {

/// The root: open to all; leads to the application or to the setup form.
pub const ROOT_PATH: &'static str = "/";

/// The bootstrap handshake; the secret comes in the query as `token`.
pub const BOOTSTRAP_PATH: &'static str = "/bootstrap";

/// The name of the query parameter that carries the secret.
pub const TOKEN_PARAMETER: &'static str = "token";

/// The first-time setup; takes a form with the field `git_url`.
pub const SETUP_PATH: &'static str = "/setup";

/// The health check, behind both gates.
pub const PING_PATH: &'static str = "/api/ping";

/// The shutdown, behind both gates.
pub const SHUTDOWN_PATH: &'static str = "/api/shutdown";

/// The helper script.
pub const SCRIPT_PATH: &'static str = "/tbl.js";

/// Where the served application is mounted.
pub const WEB_MOUNT: &'static str = "/web";

/// Where the root redirects to once the application is there.
pub const WEB_INDEX: &'static str = "/web/";

} // verus!
