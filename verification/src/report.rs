//! The end of a run: the summary, and the records to write down for another
//! try.

use vstd::prelude::*;
use crate::collector::{added_count, skipped_songs, Collector};
use crate::message::{Level, Message, MessageView};
use crate::record::{Song, SongView};
use crate::text::{decimal, push_decimal, push_signed_decimal, signed_decimal};
use crate::worker::OutcomeView;

verus! {

/// What a run leaves behind.
#[derive(Debug, PartialEq, Eq)]
pub struct Report {
    /// The line that sums the run up.
    pub summary: Message,
    /// The name of the file to write the skipped records to, where there are
    /// any.
    pub file_name: Option<String>,
    /// The skipped records, in the order of their arrival.
    pub failures: Vec<Song>,
}

/// What a [`Report`] holds, its strings as characters.
pub struct ReportView {
    pub summary: MessageView,
    pub file_name: Option<Seq<char>>,
    pub failures: Seq<SongView>,
}

impl View for Report {
    type V = ReportView;

    open spec fn view(&self) -> ReportView {
        ReportView {
            summary: self.summary@,
            file_name: self.file_name.deep_view(),
            failures: self.failures.deep_view(),
        }
    }
}

/// The name of the file of skipped records for a run that ended at `now`,
/// in seconds since 1970.
pub open spec fn failure_file_name(now: i64) -> Seq<char> {
    "failures_"@ + signed_decimal(now as int) + ".json"@
}

/// The summary of a run: the number of records that the input declared and
/// the number added, and the file of skipped records where one is written.
pub open spec fn summary_text(total: u32, added: nat, file_name: Option<Seq<char>>) -> Seq<char> {
    let counts = "total songs: "@ + decimal(total as nat) + ", added: "@ + decimal(added);
    match file_name {
        Some(name) => counts + ", skipped songs written to: "@ + name,
        None => counts,
    }
}

/// The report on a run that received `outcomes` and ended at `now`, for an
/// input that declared `total` records. A file is named if and only if a
/// record was skipped.
pub open spec fn report_of(outcomes: Seq<OutcomeView>, total: u32, now: i64) -> ReportView {
    let failures = skipped_songs(outcomes);
    let file_name = if failures.len() > 0 {
        Some(failure_file_name(now))
    } else {
        None
    };
    ReportView {
        summary: MessageView {
            level: Level::Info,
            text: summary_text(total, added_count(outcomes), file_name),
        },
        file_name,
        failures,
    }
}

/// Names the file of skipped records for a run that ended at `now`.
pub fn failure_filename(now: i64) -> (r: String)
    ensures
        r@ == failure_file_name(now),
{
    let mut buf = String::from_str("failures_");
    push_signed_decimal(&mut buf, now);
    buf.append(".json");
    buf
}

/// Writes the summary of a run.
pub fn summary(total: u32, added: usize, file_name: &Option<String>) -> (r: String)
    ensures
        r@ == summary_text(total, added as nat, file_name.deep_view()),
{
    let mut buf = String::from_str("total songs: ");
    push_decimal(&mut buf, total as u64);
    buf.append(", added: ");
    push_decimal(&mut buf, added as u64);
    match file_name {
        Some(name) => {
            buf.append(", skipped songs written to: ");
            buf.append(name.as_str());
        },
        None => {},
    }
    buf
}

/// Closes a run that ended at `now`: sums it up and hands out the skipped
/// records.
pub fn conclude(collector: Collector, total: u32, now: i64) -> (r: Report)
    requires
        collector.wf(),
    ensures
        r@ == report_of(collector@, total, now),
{
    let (added, failures) = collector.into_parts();
    let file_name = if failures.len() > 0 {
        Some(failure_filename(now))
    } else {
        None
    };
    let text = summary(total, added, &file_name);
    Report { summary: Message { level: Level::Info, text }, file_name, failures }
}

/// The seconds since 1970 on the system clock, from chrono's
/// `Local::now().timestamp()`. Nothing is claimed of the number. chrono
/// panics in two cases, neither of which an argument could rule out: where
/// the clock stands before 1970, and where the local time zone's data gives
/// it no offset for the moment.
#[verifier::external_body]
fn unix_time_now() -> (r: i64) {
    chrono::offset::Local::now().timestamp()
}

/// Closes a run now: as [`conclude`], with the time taken from the system
/// clock. The clock is read only where a file has to be named, that is where
/// a record was skipped.
///
/// # Panics
///
/// Reading the clock goes through chrono's local time, which panics where
/// the system clock stands before 1970 and where the local time zone's data
/// gives no offset for the moment. A run without skipped records does not
/// read the clock and cannot panic. A caller who must not panic reads the
/// time by its own means and calls [`conclude`], which never does.
pub fn conclude_now(collector: Collector, total: u32) -> (r: Report)
    requires
        collector.wf(),
    ensures
        exists|now: i64| r@ == report_of(collector@, total, now),
{
    let now: i64 = if collector.skipped().len() > 0 {
        unix_time_now()
    } else {
        0
    };
    conclude(collector, total, now)
}

} // verus!
