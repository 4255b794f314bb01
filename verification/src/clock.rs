//! The wall-clock timestamp source and record formatting against it.

use vstd::prelude::*;

use crate::format::{format_record, formatted, line_or_zero, Record};

verus! {

/// Relies on `chrono::Local::now` rendered with the format string
/// `%Y-%m-%d %H:%M:%S`: the year is zero-padded to at least four digits,
/// so every outcome has at least 19 characters. Nothing more is assumed of
/// the current time.
#[verifier::external_body]
fn local_timestamp() -> (r: String)
    ensures
        r@.len() >= 19,
{
    chrono::Local::now().format("%Y-%m-%d %H:%M:%S").to_string()
}

/// Format one record against the current local wall-clock time, at second
/// granularity.
pub fn format_record_now(record: &Record) -> (r: String)
    ensures
        exists|ts: Seq<char>|
            ts.len() >= 19 && r@ == formatted(
                ts,
                record.level,
                record.target@,
                line_or_zero(record.line),
                record.message@,
            ),
{
    let stamp = local_timestamp();
    let r = format_record(stamp.as_str(), record);
    proof {
        assert(stamp@.len() >= 19 && r@ == formatted(
            stamp@,
            record.level,
            record.target@,
            line_or_zero(record.line),
            record.message@,
        ));
    }
    r
}

} // verus!
