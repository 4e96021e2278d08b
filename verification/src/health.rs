//! The health probes. Liveness answers unconditionally; readiness is the
//! one route whose failure shows in the status code.

use vstd::prelude::*;

use crate::user_routes::{Body, Reply};

verus! {

/// Liveness probe: always 200 with status "alive", whatever the state of
/// the store.
pub fn liveness() -> (r: Reply)
    ensures
        r.status == 200,
        r.body matches Body::Health(status, db) && status@ == "alive"@ && db is None,
{
    Reply { status: 200, body: Body::Health("alive".to_owned(), None) }
}

/// Readiness probe, from the outcome of a ping against the store: 200 with
/// "ready"/"connected" exactly when the ping succeeded, else 503 with
/// "not_ready"/"down".
pub fn readiness(db_ok: bool) -> (r: Reply)
    ensures
        db_ok ==> r.status == 200 && (r.body matches Body::Health(status, db) && status@
            == "ready"@ && (db matches Some(d) && d@ == "connected"@)),
        !db_ok ==> r.status == 503 && (r.body matches Body::Health(status, db) && status@
            == "not_ready"@ && (db matches Some(d) && d@ == "down"@)),
{
    if db_ok {
        Reply { status: 200, body: Body::Health("ready".to_owned(), Some("connected".to_owned())) }
    } else {
        Reply {
            status: 503,
            body: Body::Health("not_ready".to_owned(), Some("down".to_owned())),
        }
    }
}

} // verus!
