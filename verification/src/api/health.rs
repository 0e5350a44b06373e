//! Health report of the service.

use vstd::prelude::*;
use crate::ids::{id_text, is_random_uuid, new_uuid_v4, uuid_text};

verus! {

/// Health report: liveness, version, time of the report and an identifier
/// drawn for this report.
#[derive(Debug)]
pub struct HealthResponse {
    pub status: String,
    pub version: &'static str,
    pub timestamp: String,
    pub instance_id: String,
}

/// Whether `s` ends with `suffix`.
pub open spec fn ends_with(s: Seq<char>, suffix: Seq<char>) -> bool {
    s.len() >= suffix.len() && s.subrange(s.len() - suffix.len(), s.len() as int) == suffix
}

/// The RFC 3339 text `DateTime::to_rfc3339` writes for the UTC time `secs`
/// seconds and `nanos` nanoseconds after the Unix epoch, or `None` where
/// `DateTime::from_timestamp` refuses that time.
pub uninterp spec fn rfc3339_text(secs: i64, nanos: u32) -> Option<Seq<char>>;

pub open spec fn opt_text(s: Option<String>) -> Option<Seq<char>> {
    match s {
        Some(t) => Some(t@),
        None => None,
    }
}

/// The current time, `chrono::Utc::now()`, as seconds and nanoseconds since the
/// Unix epoch. It depends on the clock; what holds of every reading is that it
/// is a valid time, which `from_timestamp` turns back into the same instant.
#[verifier::external_body]
fn clock_reading() -> (r: (i64, u32))
    ensures
        rfc3339_text(r.0, r.1) is Some,
{
    let now = chrono::Utc::now();
    (now.timestamp(), now.timestamp_subsec_nanos())
}

/// `DateTime::from_timestamp(secs, nanos)` written with `to_rfc3339`: named by
/// `rfc3339_text`; the UTC offset is written as `+00:00` at the end.
#[verifier::external_body]
fn rfc3339_at(secs: i64, nanos: u32) -> (s: Option<String>)
    ensures
        opt_text(s) == rfc3339_text(secs, nanos),
        s matches Some(t) ==> ends_with(t@, "+00:00"@),
{
    match chrono::DateTime::from_timestamp(secs, nanos) {
        Some(t) => Some(t.to_rfc3339()),
        None => None,
    }
}

/// The health report of a service of the given version, made at the time
/// `secs` seconds and `nanos` nanoseconds after the Unix epoch with the
/// instance identifier `instance_id`; `None` when that is not a valid time.
pub fn health_report(version: &'static str, secs: i64, nanos: u32, instance_id: u128) -> (r:
    Option<HealthResponse>)
    ensures
        r is Some <==> rfc3339_text(secs, nanos) is Some,
        r matches Some(h) ==> {
            &&& h.status@ == "healthy"@
            &&& h.version == version
            &&& rfc3339_text(secs, nanos) == Some(h.timestamp@)
            &&& ends_with(h.timestamp@, "+00:00"@)
            &&& h.instance_id@ == uuid_text(instance_id)
        },
{
    match rfc3339_at(secs, nanos) {
        Some(timestamp) => {
            let instance_id = id_text(instance_id);
            Some(HealthResponse { status: String::from_str("healthy"), version, timestamp, instance_id })
        },
        None => None,
    }
}

/// The health report of a service of the given version, made now with a fresh
/// random instance identifier.
pub fn health(version: &'static str) -> (r: HealthResponse)
    ensures
        r.status@ == "healthy"@,
        r.version == version,
        exists|secs: i64, nanos: u32| rfc3339_text(secs, nanos) == Some(r.timestamp@),
        ends_with(r.timestamp@, "+00:00"@),
        exists|id: u128| is_random_uuid(id) && r.instance_id@ == uuid_text(id),
        r.instance_id@.len() == 36,
{
    let (secs, nanos) = clock_reading();
    let id = new_uuid_v4();
    match health_report(version, secs, nanos, id) {
        Some(r) => r,
        None => {
            proof {
                assert(false);
            }
            HealthResponse {
                status: String::new(),
                version,
                timestamp: String::new(),
                instance_id: String::new(),
            }
        },
    }
}

} // verus!
