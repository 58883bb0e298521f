//! Points in time, as the tracker stores and shows them.

use vstd::prelude::*;

verus! {

/// A point in time together with the offset from UTC at which it is shown.
///
/// `unix_nanos` counts nanoseconds since 1970-01-01 00:00:00 UTC and alone
/// decides the order of two timestamps; `offset_seconds` only moves the
/// calendar fields that a rendering shows.
#[derive(Clone, Copy, Debug, PartialEq, Eq, Structural)]
pub struct Timestamp {
    pub unix_nanos: i128,
    pub offset_seconds: i32,
}

/// The pattern with which timestamps are shown on screen and in the export.
pub open spec fn display_pattern() -> Seq<char> {
    "[year]-[month]-[day] [hour]:[minute]:[second]"@
}

/// What the `time` crate's formatter writes for the date-time that lies
/// `unix_nanos` nanoseconds after the Unix epoch, seen at `offset_seconds`
/// east of UTC, under the format description `pattern`; `None` where the
/// pattern is no format description, the offset or the date-time is outside
/// the range the crate supports, or the formatter reports an error.
pub uninterp spec fn formatted(pattern: Seq<char>, unix_nanos: int, offset_seconds: int) -> Option<
    Seq<char>,
>;

#[verifier::external_type_specification]
#[verifier::external_body]
pub struct ExIndeterminateOffset(time::error::IndeterminateOffset);

/// The clock could not be read as a local time.
#[derive(Clone, Copy, Debug, PartialEq, Eq, Structural)]
pub struct ClockError;

/// Calls `time::OffsetDateTime::now_local` and hands the reading back as
/// plain numbers (`unix_timestamp_nanos`, and `whole_seconds` of its
/// offset). Nothing is claimed of the reading: it differs from call to call.
#[verifier::external_body]
fn read_local_clock() -> (reading: Result<Timestamp, time::error::IndeterminateOffset>) {
    match time::OffsetDateTime::now_local() {
        Ok(t) => Ok(
            Timestamp {
                unix_nanos: t.unix_timestamp_nanos(),
                offset_seconds: t.offset().whole_seconds(),
            },
        ),
        Err(e) => Err(e),
    }
}

/// Calls `time::OffsetDateTime::format` with the description that
/// `time::format_description::parse_borrowed::<1>` makes of `pattern`, on the
/// date-time built by `OffsetDateTime::from_unix_timestamp_nanos` and moved
/// to the offset `UtcOffset::from_whole_seconds(offset_seconds)` with
/// `checked_to_offset`. The contract only gives the outcome its name,
/// `formatted`: the text on success, `None` where any of these calls fails.
#[verifier::external_body]
fn format_with_pattern(pattern: &str, unix_nanos: i128, offset_seconds: i32) -> (text: Option<
    String,
>)
    ensures
        text matches Some(s) ==> formatted(pattern@, unix_nanos as int, offset_seconds as int)
            == Some(s@),
        text is None ==> formatted(pattern@, unix_nanos as int, offset_seconds as int) is None,
{
    let offset = time::UtcOffset::from_whole_seconds(offset_seconds).ok()?;
    let utc = time::OffsetDateTime::from_unix_timestamp_nanos(unix_nanos).ok()?;
    let local = utc.checked_to_offset(offset)?;
    let items = time::format_description::parse_borrowed::<1>(pattern).ok()?;
    local.format(&items).ok()
}

impl Timestamp {
    /// The text of this timestamp under `pattern`, where there is one.
    pub open spec fn text_with(self, pattern: Seq<char>) -> Option<Seq<char>> {
        formatted(pattern, self.unix_nanos as int, self.offset_seconds as int)
    }

    /// The text of this timestamp as the tracker shows it:
    /// year-month-day hour:minute:second.
    pub open spec fn display_text(self) -> Option<Seq<char>> {
        self.text_with(display_pattern())
    }

    /// Whether this timestamp is not earlier than `other`.
    pub open spec fn not_before(self, other: Timestamp) -> bool {
        self.unix_nanos >= other.unix_nanos
    }

    /// What a reading of the local clock comes to: the time that was
    /// read, or the error that says that none was.
    pub fn from_reading(reading: Result<Timestamp, time::error::IndeterminateOffset>) -> (time:
        Result<Timestamp, ClockError>)
        ensures
            reading matches Ok(read) ==> time == Ok::<Timestamp, ClockError>(read),
            reading is Err ==> time == Err::<Timestamp, ClockError>(ClockError),
    {
        match reading {
            Ok(read) => Ok(read),
            Err(_) => Err(ClockError),
        }
    }

    /// The current local time.
    pub fn now() -> (reading: Result<Timestamp, ClockError>) {
        Timestamp::from_reading(read_local_clock())
    }

    /// Renders the timestamp under a format description of the `time` crate.
    pub fn format(&self, pattern: &str) -> (text: Option<String>)
        ensures
            text matches Some(s) ==> self.text_with(pattern@) == Some(s@),
            text is None ==> self.text_with(pattern@) is None,
    {
        format_with_pattern(pattern, self.unix_nanos, self.offset_seconds)
    }

    /// Renders the timestamp as the tracker shows it.
    pub fn display(&self) -> (text: Option<String>)
        ensures
            text matches Some(s) ==> self.display_text() == Some(s@),
            text is None ==> self.display_text() is None,
    {
        self.format("[year]-[month]-[day] [hour]:[minute]:[second]")
    }

    /// Compares two timestamps by the instant they denote.
    pub fn is_not_before(&self, other: &Timestamp) -> (r: bool)
        ensures
            r == self.not_before(*other),
    {
        self.unix_nanos >= other.unix_nanos
    }
}

} // verus!
