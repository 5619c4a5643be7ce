use vstd::prelude::*;

verus! {

/// Nanoseconds in one second.
pub const NANOS_PER_SEC: u64 = 1_000_000_000;

/// RFC 3339 text, in UTC with millisecond precision and a numeric offset, of the
/// instant `secs` seconds and `nanos` nanoseconds after the Unix epoch.
pub uninterp spec fn rfc3339_millis_utc(secs: int, nanos: int) -> Seq<char>;

/// Relies on chrono's `DateTime::<Utc>::from_timestamp` and `to_rfc3339_opts`
/// (`SecondsFormat::Millis`, no `Z`): the RFC 3339 text of that instant. The
/// instant is in chrono's range for every `u64` nanosecond count, so the unwrap
/// does not fail.
#[verifier::external_body]
fn utc_rfc3339_millis(secs: i64, nanos: u32) -> (r: String)
    requires
        0 <= secs <= u64::MAX as int / NANOS_PER_SEC as int,
        nanos < NANOS_PER_SEC,
    ensures
        r@ == rfc3339_millis_utc(secs as int, nanos as int),
{
    chrono::DateTime::<chrono::Utc>::from_timestamp(secs, nanos).unwrap().to_rfc3339_opts(
        chrono::SecondsFormat::Millis,
        false,
    )
}

/// Text of a nanosecond timestamp.
pub open spec fn timestamp_text(ns: u64) -> Seq<char> {
    rfc3339_millis_utc((ns / NANOS_PER_SEC) as int, (ns % NANOS_PER_SEC) as int)
}

/// RFC 3339 text in UTC, with milliseconds, of a nanosecond timestamp.
pub fn timestamp_to_utc_rtc3339(timestamp: &u64) -> (r: String)
    ensures
        r@ == timestamp_text(*timestamp),
{
    let secs: u64 = *timestamp / NANOS_PER_SEC;
    let nanos: u64 = *timestamp % NANOS_PER_SEC;
    utc_rfc3339_millis(secs as i64, nanos as u32)
}

/// Rendering a timestamp depends on its value alone: equal nanosecond counts
/// give identical text, however often they are rendered.
pub proof fn lemma_timestamp_text_deterministic(a: u64, b: u64)
    requires
        a == b,
    ensures
        timestamp_text(a) == timestamp_text(b),
{
}

} // verus!
