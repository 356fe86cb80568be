use vstd::prelude::*;

verus! {

/// Body of the liveness endpoint's reply.
#[derive(Debug, Clone)]
pub struct StatusResponse {
    pub status: String,
    pub version: String,
}

/// Builds the liveness reply: the status is always the literal `"ok"`, the
/// version is whatever the running binary reports.
pub fn status_response(version: String) -> (r: StatusResponse)
    ensures
        r.status@ == "ok"@,
        r.version == version,
{
    StatusResponse { status: "ok".to_owned(), version }
}

} // verus!
