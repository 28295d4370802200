use vstd::prelude::*;

verus! {

/// The format in which the time of a row is shown to a reader: year, month
/// and day, then hour, minute and second.
pub const READABLE_TIME_FORMAT: &'static str = "%Y-%m-%d %H:%M:%S";

/// The text that `chrono` makes of a time with a `strftime` format, the time
/// given in microseconds since the Unix epoch and read as UTC; `None` where
/// `chrono` cannot hold the time.
pub uninterp spec fn formatted_time(micros: int, format: Seq<char>) -> Option<Seq<char>>;

/// Reads the clock with `chrono::Utc::now` and gives the time in
/// microseconds since the Unix epoch. Nothing is claimed of the value. On a
/// machine whose clock stands before the epoch the call does not return.
#[verifier::external_body]
pub(crate) fn clock_micros() -> (micros: i64) {
    chrono::Utc::now().timestamp_micros()
}

/// Turns microseconds since the Unix epoch into a date and time with
/// `chrono::DateTime::from_timestamp_micros` and renders it with `format`.
/// Trusted: the text depends on the number and the format alone. Only the
/// readable format is let in, whose every item `chrono` can render.
#[verifier::external_body]
pub(crate) fn render_time(micros: i64, format: &str) -> (text: Option<String>)
    requires
        format@ == READABLE_TIME_FORMAT@,
    ensures
        text.deep_view() == formatted_time(micros as int, format@),
{
    chrono::DateTime::from_timestamp_micros(micros).map(
        |t| t.naive_utc().format(format).to_string(),
    )
}

} // verus!
