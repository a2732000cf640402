//! The liveness probe.

use crate::error::{status_of, AppError, STATUS_OK};
use vstd::prelude::*;

verus! {

/// The body of the probe's answer.
#[derive(Clone, Debug, PartialEq, Eq)]
pub struct HealthResponse {
    pub status: &'static str,
}

/// Answers the probe. It takes nothing and consults nothing, so neither the
/// store nor the upstream can change the answer: status "ok", sent with 200.
pub fn healthz() -> (response: HealthResponse)
    ensures
        response.status@ == "ok"@,
        status_of(Ok::<HealthResponse, AppError>(response)) == STATUS_OK,
{
    HealthResponse { status: "ok" }
}

} // verus!
