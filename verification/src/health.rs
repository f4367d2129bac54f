//! Liveness summary: folds the reachability of the two backing services
//! into an overall status and the response code to report it with.

use vstd::prelude::*;

verus! {

/// Body of a health report: an overall status and the per-service detail.
#[derive(Debug)]
pub struct HealthResponse {
    pub status: String,
    pub services: ServicesStatus,
}

/// Reachability of each backing service, as a short status word.
#[derive(Debug)]
pub struct ServicesStatus {
    pub postgres: String,
    pub redis: String,
}

/// Status word for one probed service.
pub open spec fn spec_service_word(ok: bool) -> Seq<char> {
    if ok {
        "ok"@
    } else {
        "error"@
    }
}

/// Summarises the two service probes: overall status is `ok` exactly when
/// both services answered, and the response code is 200 in that case and
/// 503 otherwise.
pub fn health_check(postgres_ok: bool, redis_ok: bool) -> (r: (u16, HealthResponse))
    ensures
        r.0 == if postgres_ok && redis_ok {
            200u16
        } else {
            503u16
        },
        r.1.status@ == if postgres_ok && redis_ok {
            "ok"@
        } else {
            "degraded"@
        },
        r.1.services.postgres@ == spec_service_word(postgres_ok),
        r.1.services.redis@ == spec_service_word(redis_ok),
{
    let overall_ok = postgres_ok && redis_ok;
    let status_code: u16 = if overall_ok {
        200
    } else {
        503
    };
    let response = HealthResponse {
        status: if overall_ok {
            String::from_str("ok")
        } else {
            String::from_str("degraded")
        },
        services: ServicesStatus {
            postgres: if postgres_ok {
                String::from_str("ok")
            } else {
                String::from_str("error")
            },
            redis: if redis_ok {
                String::from_str("ok")
            } else {
                String::from_str("error")
            },
        },
    };
    (status_code, response)
}

} // verus!
