//! The canonical log record and the payload normalizer.

use vstd::prelude::*;
use vstd::string::*;
use crate::clock::now_millis;
use crate::json::{is_json_text, json_parses, append_quoted, spec_quote};
use crate::level::LogLevel;

verus! {

/// One structured log event: the moment it was formatted (milliseconds
/// since the epoch, UTC), its severity level, and its payload. The payload
/// is held as JSON text: either a document the caller passed, kept
/// verbatim, or the caller's raw text encoded as a JSON string literal.
pub struct NomadLog {
    pub timestamp: i64,
    pub log_level: LogLevel,
    pub data: String,
}

/// The normalization policy: a payload that is already a valid JSON
/// document is kept verbatim; any other text is encoded as a JSON string
/// literal.
pub open spec fn spec_normal_data(payload: Seq<char>) -> Seq<char> {
    if is_json_text(payload) {
        payload
    } else {
        spec_quote(payload)
    }
}

/// Builds the record for `payload` at `level`, with the given timestamp.
/// This is the normalizer proper: a pure function of its inputs.
pub fn normalize_at(level: LogLevel, payload: &str, timestamp: i64) -> (r: NomadLog)
    ensures
        r.timestamp == timestamp,
        r.log_level == level,
        r.data@ == spec_normal_data(payload@),
{
    let data: String = if json_parses(payload) {
        payload.to_owned()
    } else {
        let mut quoted = String::new();
        append_quoted(&mut quoted, payload);
        quoted
    };
    NomadLog { timestamp, log_level: level, data }
}

/// Builds the record for `payload` at `level`, sampling the wall clock for
/// the timestamp at normalization time.
pub fn normalize(level: LogLevel, payload: &str) -> (r: NomadLog)
    ensures
        r.log_level == level,
        r.data@ == spec_normal_data(payload@),
{
    let timestamp: i64 = now_millis();
    normalize_at(level, payload, timestamp)
}

} // verus!
