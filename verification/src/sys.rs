use std::sync::Arc;
use vstd::prelude::*;
use crate::apm::ServiceContext;
use crate::text::is_uuid_v4;

verus! {

/// Draws a fresh random identifier with `uuid::Uuid::new_v4` and returns its
/// 128-bit value.
///
/// Trusted: the value is random; what is claimed is what `new_v4` sets in
/// every draw: the version digit `4` and the RFC 4122 variant bits.
#[verifier::external_body]
pub(crate) fn new_uuid() -> (r: u128)
    ensures
        is_uuid_v4(r),
{
    uuid::Uuid::new_v4().as_u128()
}

/// Reads the wall clock with `chrono::Utc::now` and returns microseconds
/// since the Unix epoch.
///
/// Trusted: nothing is claimed of the value, which depends on the clock.
#[verifier::external_body]
pub(crate) fn now_micros() -> (r: i64) {
    chrono::Utc::now().timestamp_micros()
}

/// Shares the service context with `Arc::clone`.
///
/// Trusted: the clone points to the same context.
#[verifier::external_body]
pub(crate) fn share_service(s: &Arc<ServiceContext>) -> (r: Arc<ServiceContext>)
    ensures
        r == *s,
{
    Arc::clone(s)
}

} // verus!
