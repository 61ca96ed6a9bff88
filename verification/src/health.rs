//! Whether the server is up, and which project it has loaded.
use crate::text::clone_opt;
use vstd::prelude::*;

verus! {

/// The reply on the health of the server.
#[derive(Debug)]
pub struct HealthResponse {
    pub ok: bool,
    pub version: &'static str,
    pub project_loaded: bool,
    pub generation: Option<String>,
}

/// The health of the server, and the value of the `X-Docs-Generation` header, which is
/// left out where there is none.
#[derive(Debug)]
pub struct HealthReply {
    pub body: HealthResponse,
    pub generation_header: Option<String>,
}

/// The health of the server. The header repeats the generation in the body.
pub fn get_health(version: &'static str, project_loaded: bool, generation: Option<String>) -> (r:
    HealthReply)
    ensures
        r.body.ok,
        r.body.version@ == version@,
        r.body.project_loaded == project_loaded,
        r.body.generation == generation,
        r.generation_header == r.body.generation,
{
    let generation_header = clone_opt(&generation);
    HealthReply {
        body: HealthResponse { ok: true, version, project_loaded, generation },
        generation_header,
    }
}

} // verus!
