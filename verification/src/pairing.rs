//! The one-time interactive pairing flow. A temporary local web page asks
//! the user to sign in and posts back a refresh credential and a device
//! name; handling that submission, and the route table the little server
//! mounts, are modeled here. Serving HTTP itself stays outside the library:
//! the pairing provider blocks until credentials arrive and hands them over
//! as plain values.

use vstd::prelude::*;
use vstd::string::StringExecFns;

verus! {

/// The credentials the login page posts back.
pub struct WebLoginCredentials {
    pub refresh_token: String,
    pub device_name: String,
}

/// Handles one submission of the login form: the posted credentials become
/// the pairing result handed to the session, and the page is answered with
/// a greeting naming the refresh credential.
pub fn login(refresh_token: String, device_name: String) -> (r: (WebLoginCredentials, String))
    ensures
        r.0.refresh_token@ == refresh_token@,
        r.0.device_name@ == device_name@,
        r.1@ == "Welcome, "@ + refresh_token@ + "!"@,
{
    let mut greeting = String::from_str("Welcome, ");
    greeting.append(refresh_token.as_str());
    greeting.append("!");
    proof {
        assert(greeting@ =~= "Welcome, "@ + refresh_token@ + "!"@);
    }
    (WebLoginCredentials { refresh_token, device_name }, greeting)
}

/// The route table of the pairing server: the sign-in page at the root, the
/// login submission endpoint, and the embedded static assets, all mounted
/// at the root.
pub fn rocket() -> (r: (String, Vec<String>))
    ensures
        r.0@ == "/"@,
        r.1@.len() == 3,
        r.1@[0]@ == "/"@,
        r.1@[1]@ == "/login"@,
        r.1@[2]@ == "/static/<file..>"@,
{
    let mount_point = String::from_str("/");
    let mut routes: Vec<String> = Vec::new();
    routes.push(String::from_str("/"));
    routes.push(String::from_str("/login"));
    routes.push(String::from_str("/static/<file..>"));
    (mount_point, routes)
}

} // verus!
