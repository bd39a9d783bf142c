//! Signal readings: what a stored row holds, what is sent to a client, and
//! the conversion between the two.

use chrono::{Datelike, Timelike};
use vstd::prelude::*;

verus! {

/// A calendar date and wall-clock time.
#[derive(Debug, Clone, Copy, PartialEq, Eq)]
pub struct CalendarTime {
    pub year: i32,
    pub month: u32,
    pub day: u32,
    pub hour: u32,
    pub minute: u32,
    pub second: u32,
}

/// A date-time in UTC with no offset attached: the instant, counted from
/// 1970-01-01T00:00:00, and the calendar reading of that instant.
#[derive(Debug, Clone, Copy, PartialEq, Eq)]
pub struct UtcDateTime {
    pub unix_secs: i64,
    pub subsec_nanos: u32,
    pub calendar: CalendarTime,
}

/// One row of the readings table, as the database driver hands it over.
/// `value_bits` is the IEEE 754 bit pattern of the double-precision reading;
/// the source-clock instant is counted from 1970-01-01T00:00:00 UTC.
#[derive(Debug, Clone, PartialEq, Eq)]
pub struct StoredRow {
    pub id: i32,
    pub signal_type: String,
    pub value_bits: u64,
    pub unix_secs: i64,
    pub subsec_nanos: u32,
}

/// Mathematical content of a [`StoredRow`].
pub struct StoredRowView {
    pub id: i32,
    pub signal_type: Seq<char>,
    pub value_bits: u64,
    pub unix_secs: i64,
    pub subsec_nanos: u32,
}

impl View for StoredRow {
    type V = StoredRowView;

    open spec fn view(&self) -> StoredRowView {
        StoredRowView {
            id: self.id,
            signal_type: self.signal_type@,
            value_bits: self.value_bits,
            unix_secs: self.unix_secs,
            subsec_nanos: self.subsec_nanos,
        }
    }
}

/// One sensor reading as it is sent to a client.
#[derive(Debug, Clone, PartialEq, Eq)]
pub struct Signal {
    pub id: i32,
    pub signal_type: String,
    pub value_bits: u64,
    pub timestamp: UtcDateTime,
}

/// Mathematical content of a [`Signal`].
pub struct SignalView {
    pub id: i32,
    pub signal_type: Seq<char>,
    pub value_bits: u64,
    pub timestamp: UtcDateTime,
}

impl View for Signal {
    type V = SignalView;

    open spec fn view(&self) -> SignalView {
        SignalView {
            id: self.id,
            signal_type: self.signal_type@,
            value_bits: self.value_bits,
            timestamp: self.timestamp,
        }
    }
}

/// The calendar reading in UTC that chrono gives for the instant `secs`
/// seconds and `nanos` nanoseconds after 1970-01-01T00:00:00 UTC, or `None`
/// where chrono cannot represent that instant.
pub uninterp spec fn utc_calendar(secs: int, nanos: int) -> Option<CalendarTime>;

/// Calls `chrono::DateTime::from_timestamp`, takes the UTC date-time without
/// offset by `DateTime::naive_utc`, and reads its calendar fields through
/// `Datelike` and `Timelike`. The contract only gives that result its name:
/// chrono computes it from the two arguments alone.
#[verifier::external_body]
fn calendar_from_unix(secs: i64, nanos: u32) -> (r: Option<CalendarTime>)
    ensures
        r == utc_calendar(secs as int, nanos as int),
{
    match chrono::DateTime::from_timestamp(secs, nanos) {
        Some(instant) => {
            let naive = instant.naive_utc();
            Some(CalendarTime {
                year: naive.year(),
                month: naive.month(),
                day: naive.day(),
                hour: naive.hour(),
                minute: naive.minute(),
                second: naive.second(),
            })
        },
        None => None,
    }
}

/// The UTC date-time of an instant, where it has one.
pub open spec fn utc_date_time(secs: i64, nanos: u32) -> Option<UtcDateTime> {
    match utc_calendar(secs as int, nanos as int) {
        Some(calendar) => Some(UtcDateTime { unix_secs: secs, subsec_nanos: nanos, calendar }),
        None => None,
    }
}

/// The reading that a stored row stands for, where its instant has a UTC
/// date-time: every column is kept as it is, and the instant is joined by its
/// calendar reading.
pub open spec fn reading_of(row: StoredRowView) -> Option<SignalView> {
    match utc_date_time(row.unix_secs, row.subsec_nanos) {
        Some(timestamp) => Some(
            SignalView {
                id: row.id,
                signal_type: row.signal_type,
                value_bits: row.value_bits,
                timestamp,
            },
        ),
        None => None,
    }
}

impl UtcDateTime {
    /// The calendar reading is that of the instant.
    pub open spec fn well_formed(self) -> bool {
        utc_date_time(self.unix_secs, self.subsec_nanos) == Some(self)
    }

    /// Converts a source-clock instant to a UTC date-time. `None` exactly
    /// when the instant is outside the range of representable dates.
    pub fn from_unix(secs: i64, nanos: u32) -> (r: Option<UtcDateTime>)
        ensures
            r == utc_date_time(secs, nanos),
            r matches Some(t) ==> t.well_formed(),
    {
        match calendar_from_unix(secs, nanos) {
            Some(calendar) => Some(UtcDateTime { unix_secs: secs, subsec_nanos: nanos, calendar }),
            None => None,
        }
    }
}

impl Signal {
    /// Maps a stored row to the reading sent to clients.
    pub fn from_row(row: StoredRow) -> (r: Option<Signal>)
        ensures
            r is Some <==> reading_of(row@) is Some,
            r matches Some(signal) ==> Some(signal@) == reading_of(row@)
                && signal.timestamp.well_formed(),
    {
        match UtcDateTime::from_unix(row.unix_secs, row.subsec_nanos) {
            Some(timestamp) => Some(
                Signal {
                    id: row.id,
                    signal_type: row.signal_type,
                    value_bits: row.value_bits,
                    timestamp,
                },
            ),
            None => None,
        }
    }
}

/// The mathematical content of a sequence of stored rows.
pub open spec fn rows_view(rows: Seq<StoredRow>) -> Seq<StoredRowView> {
    rows.map_values(|row: StoredRow| row@)
}

/// The mathematical content of a sequence of readings.
pub open spec fn signals_view(signals: Seq<Signal>) -> Seq<SignalView> {
    signals.map_values(|signal: Signal| signal@)
}

/// Every row of the sequence stands for a reading.
pub open spec fn all_readable(rows: Seq<StoredRowView>) -> bool {
    forall|i: int| 0 <= i < rows.len() ==> (#[trigger] reading_of(rows[i])) is Some
}

/// The readings of a sequence of rows, one for one and in the same order.
pub open spec fn readings_of(rows: Seq<StoredRowView>) -> Seq<SignalView> {
    rows.map_values(|row: StoredRowView| reading_of(row).unwrap())
}

/// Maps the rows of a query result to readings, keeping their number and
/// their order. `None` exactly when some row's instant has no UTC date-time.
pub fn read_signals(rows: Vec<StoredRow>) -> (r: Option<Vec<Signal>>)
    ensures
        r is Some <==> all_readable(rows_view(rows@)),
        r matches Some(signals) ==> signals_view(signals@) == readings_of(rows_view(rows@))
            && signals@.len() == rows@.len(),
{
    let ghost all = rows_view(rows@);
    let mut signals: Vec<Signal> = Vec::new();
    for row in it: rows
        invariant
            it.seq() == rows@,
            all == rows_view(rows@),
            signals@.len() == it.index(),
            forall|j: int|
                0 <= j < it.index() ==> Some((#[trigger] signals@[j])@) == reading_of(all[j]),
    {
        assert(all[it.index()] == row@);
        match Signal::from_row(row) {
            Some(signal) => {
                signals.push(signal);
            },
            None => {
                assert(reading_of(all[it.index()]) is None);
                return None;
            },
        }
    }
    assert forall|i: int| 0 <= i < all.len() implies (#[trigger] reading_of(all[i])) is Some by {
        assert(Some(signals@[i]@) == reading_of(all[i]));
    }
    assert(signals_view(signals@) =~= readings_of(all));
    Some(signals)
}

} // verus!
