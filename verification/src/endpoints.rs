//! The URLs of the remote endpoints this client consumes.

use vstd::prelude::*;
use vstd::string::StringExecFns;

use crate::urlenc::{url_encode, url_encoded};

verus! {

/// `POST` target of the authorization-code exchange.
pub fn token_url(base: &str) -> (u: String)
    ensures
        u@ == base@ + "/oauth/token"@,
{
    let mut u = base.to_owned();
    u.append("/oauth/token");
    u
}

/// `GET` target of the user-profile ("whoami") endpoint.
pub fn me_url(base: &str) -> (u: String)
    ensures
        u@ == base@ + "/api/v1/authenticated/me"@,
{
    let mut u = base.to_owned();
    u.append("/api/v1/authenticated/me");
    u
}

/// `GET` target of the latest-heartbeat endpoint.
pub fn heartbeat_url(base: &str) -> (u: String)
    ensures
        u@ == base@ + "/api/v1/authenticated/heartbeats/latest"@,
{
    let mut u = base.to_owned();
    u.append("/api/v1/authenticated/heartbeats/latest");
    u
}

/// `GET` target of an hours query over `[start_date, end_date]`.
pub fn hours_url(base: &str, start_date: &str, end_date: &str) -> (u: String)
    ensures
        u@ == base@ + "/api/v1/authenticated/hours?start_date="@ + start_date@ + "&end_date="@
            + end_date@,
{
    let mut u = base.to_owned();
    u.append("/api/v1/authenticated/hours?start_date=");
    u.append(start_date);
    u.append("&end_date=");
    u.append(end_date);
    u
}

/// `GET` target of the streak endpoint.
pub fn streak_url(base: &str) -> (u: String)
    ensures
        u@ == base@ + "/api/v1/authenticated/streak"@,
{
    let mut u = base.to_owned();
    u.append("/api/v1/authenticated/streak");
    u
}

/// `GET` target of the API-key endpoint.
pub fn api_keys_url(base: &str) -> (u: String)
    ensures
        u@ == base@ + "/api/v1/authenticated/api_keys"@,
{
    let mut u = base.to_owned();
    u.append("/api/v1/authenticated/api_keys");
    u
}

/// `GET` target of the project list.
pub fn projects_url(base: &str) -> (u: String)
    ensures
        u@ == base@ + "/api/v1/authenticated/projects"@,
{
    let mut u = base.to_owned();
    u.append("/api/v1/authenticated/projects");
    u
}

/// `GET` target of one project's details; the name is percent-encoded
/// into the path.
pub fn project_details_url(base: &str, project_name: &str) -> (u: String)
    ensures
        u@ == base@ + "/api/v1/authenticated/projects/"@ + url_encoded(project_name@),
{
    let mut u = base.to_owned();
    u.append("/api/v1/authenticated/projects/");
    let enc = url_encode(project_name);
    u.append(enc.as_str());
    u
}

} // verus!
