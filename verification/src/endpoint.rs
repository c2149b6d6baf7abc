use vstd::prelude::*;
use crate::store::{CreateError, ReadError, ReadOutcome};

verus! {

/// One planned HTTP answer: a status, a body, whether the body carries the
/// spool's fixed content type, and an optional version header.
pub struct Response {
    pub status: u16,
    pub body: String,
    pub json: bool,
    pub server_version: Option<String>,
}

/// The service's self-description: its name and its version, separated by
/// one space.
pub fn describe(name: &str, version: &str) -> (d: String)
    ensures
        d@ == name@ + " "@ + version@,
{
    let mut d = name.to_owned();
    d.append(" ");
    d.append(version);
    d
}

/// The ungated liveness answer: success, the description as the body
/// followed by a line break, and the description in the version header.
pub fn probe_response(description: &str) -> (r: Response)
    ensures
        r.status == 200,
        r.body@ == description@ + "\n"@,
        r.json == false,
        r.server_version matches Some(v) && v@ == description@,
{
    let mut body = description.to_owned();
    body.append("\n");
    Response { status: 200, body, json: false, server_version: Some(description.to_owned()) }
}

/// The acknowledgement after an item is durably stored.
pub fn stored_response() -> (r: Response)
    ensures
        r.status == 200,
        r.body@ == "Thanks!\n"@,
        r.json == false,
{
    Response { status: 200, body: "Thanks!\n".to_owned(), json: false, server_version: None }
}

/// The answer to a body above the configured ceiling: the request is turned
/// away without any storage work.
pub fn too_large_response() -> (r: Response)
    ensures
        r.status == 413,
        r.body@ == "Sorry"@,
{
    Response { status: 413, body: "Sorry".to_owned(), json: false, server_version: None }
}

/// The answer to a failed create: a server-side failure with a generic
/// body that leaks nothing of the filesystem.
pub fn create_failure_response(e: CreateError) -> (r: Response)
    ensures
        r.status == 500,
        r.body@ == "Sorry"@,
{
    let _ = e;
    Response { status: 500, body: "Sorry".to_owned(), json: false, server_version: None }
}

/// The answer to a read. Stored bytes come back verbatim under the spool's
/// content type; a missing item and a rejected path both answer not-found,
/// so a probe cannot tell a rejected path from an absent one; any other
/// failure is a generic server-side error.
pub fn read_response(outcome: ReadOutcome) -> (r: Response)
    ensures
        outcome matches ReadOutcome::Content(c) ==> r.status == 200 && r.body == c && r.json,
        outcome matches ReadOutcome::Missing ==> r.status == 404 && r.body@ == "Sorry"@,
        outcome matches ReadOutcome::Failed ==> r.status == 500 && r.body@ == "Sorry"@,
{
    match outcome {
        ReadOutcome::Content(c) => Response {
            status: 200,
            body: c,
            json: true,
            server_version: None,
        },
        ReadOutcome::Missing => Response {
            status: 404,
            body: "Sorry".to_owned(),
            json: false,
            server_version: None,
        },
        ReadOutcome::Failed => Response {
            status: 500,
            body: "Sorry".to_owned(),
            json: false,
            server_version: None,
        },
    }
}

/// The answer to a read that failed before or at the filesystem: not-found
/// for a missing item and for a rejected path alike, a server-side error
/// otherwise.
pub fn read_error_response(e: ReadError) -> (r: Response)
    ensures
        e == ReadError::ReadFailure ==> r.status == 500,
        e != ReadError::ReadFailure ==> r.status == 404,
        r.body@ == "Sorry"@,
{
    match e {
        ReadError::ReadFailure => Response {
            status: 500,
            body: "Sorry".to_owned(),
            json: false,
            server_version: None,
        },
        _ => Response {
            status: 404,
            body: "Sorry".to_owned(),
            json: false,
            server_version: None,
        },
    }
}

/// The listing view on success.
pub fn listing_response(html: String) -> (r: Response)
    ensures
        r.status == 200,
        r.body == html,
{
    Response { status: 200, body: html, json: false, server_version: None }
}

/// The answer when the spool directory cannot be enumerated.
pub fn listing_failure_response() -> (r: Response)
    ensures
        r.status == 500,
        r.body@ == "Sorry"@,
{
    Response { status: 500, body: "Sorry".to_owned(), json: false, server_version: None }
}

/// The deliberate deauthentication answer: always a denial, so a client can
/// invalidate a cached credential in its own user agent.
pub fn logout_response() -> (r: Response)
    ensures
        r.status == 401,
        r.body@ == "kthxbye"@,
{
    Response { status: 401, body: "kthxbye".to_owned(), json: false, server_version: None }
}

/// Puts a planned answer behind the access gate: a request that was not
/// allowed is always answered with a denial, whatever the inner answer
/// would have been; an allowed request gets the inner answer unchanged.
pub fn gated(allowed: bool, inner: Response) -> (r: Response)
    ensures
        allowed ==> r == inner,
        !allowed ==> r.status == 401 && r.body@ == "unauthorized\n"@,
{
    if allowed {
        inner
    } else {
        Response { status: 401, body: "unauthorized\n".to_owned(), json: false, server_version: None }
    }
}

} // verus!
