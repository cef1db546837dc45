//! Measurements of how long downloads take and how fast they are.

use std::time::Instant;
use vstd::prelude::*;
use vstd::string::StringExecFns;

use crate::duration::Duration;

verus! {

/// A point in time of the standard library's monotonic clock.
#[verifier::external_type_specification]
#[verifier::external_body]
pub struct ExInstant(std::time::Instant);

/// [`Instant::now`] reads the clock. Nothing is claimed of what it shows.
pub assume_specification[ std::time::Instant::now ]() -> (now: std::time::Instant);

/// Calls [`Instant::elapsed`]: the time that has passed since the given moment. Nothing is claimed
/// of how much that is.
#[verifier::external_body]
fn elapsed(since: &Instant) -> (passed: Duration) {
    Duration { nanos: since.elapsed().as_nanos() }
}

/// The moment is one that the clock can show.
pub open spec fn clock_shows(now: Instant) -> bool {
    call_ensures(Instant::now, (), now)
}

/// The length of time is one that the clock can give as having passed since the moment.
pub closed spec fn passed_since(moment: Instant, passed: Duration) -> bool {
    call_ensures(elapsed, (&moment,), passed)
}

/// State of the [`MeasureSourceDownloadGuard`].
#[derive(Clone, Copy, Debug)]
pub enum MeasureState {
    /// The download is not finished.
    Pending,
    /// The download has terminated with a status.
    Done(&'static str),
}

/// A guard to measure the amount of time it takes to download a source.
///
/// The guard is also capable of calculating the throughput of the connection. It reports two
/// metrics if bytes have been counted:
///
/// 1. Amount of time taken to complete the measurement
/// 2. Connection throughput (bytes transferred / time taken to complete)
///
/// If no bytes have been counted, then only the first metric is reported. Reporting uses the guard
/// up, so that there is one report of each measurement.
#[derive(Debug)]
pub struct MeasureSourceDownloadGuard<'a> {
    state: MeasureState,
    task_name: &'a str,
    source_name: &'a str,
    creation_time: Instant,
    bytes_transferred: Option<u64>,
}

/// What a [`MeasureSourceDownloadGuard`] has recorded.
pub struct Measurement {
    /// The status that the download terminated with, once it has.
    pub status: Option<Seq<char>>,
    /// What is measured.
    pub task_name: Seq<char>,
    /// Where the file is downloaded from.
    pub source_name: Seq<char>,
    /// The number of bytes, if any have been counted.
    pub bytes_transferred: Option<u64>,
    /// The moment from which on time is measured.
    pub created: Instant,
}

impl<'a> View for MeasureSourceDownloadGuard<'a> {
    type V = Measurement;

    closed spec fn view(&self) -> Measurement {
        Measurement {
            status: match self.state {
                MeasureState::Pending => None,
                MeasureState::Done(status) => Some(status@),
            },
            task_name: self.task_name@,
            source_name: self.source_name@,
            bytes_transferred: self.bytes_transferred,
            created: self.creation_time,
        }
    }
}

/// The sum of two numbers of bytes, or the largest number there is if the sum is larger.
pub open spec fn bytes_sum(first: int, second: int) -> int {
    if first + second > u64::MAX {
        u64::MAX as int
    } else {
        first + second
    }
}

impl Measurement {
    /// The measurement of a download that starts at the given moment.
    pub open spec fn started(
        task_name: Seq<char>,
        source_name: Seq<char>,
        created: Instant,
    ) -> Measurement {
        Measurement { status: None, task_name, source_name, bytes_transferred: None, created }
    }

    /// The number of bytes that have been counted.
    pub open spec fn bytes(&self) -> u64 {
        match self.bytes_transferred {
            Some(bytes) => bytes,
            None => 0,
        }
    }

    /// This measurement with more bytes counted.
    pub open spec fn with_bytes(self, additional_bytes: u64) -> Measurement {
        Measurement {
            bytes_transferred: Some(
                bytes_sum(self.bytes() as int, additional_bytes as int) as u64,
            ),
            ..self
        }
    }

    /// This measurement after the download has terminated with the given status.
    pub open spec fn with_status(self, status: Seq<char>) -> Measurement {
        Measurement { status: Some(status), ..self }
    }
}

/// The speed of a download.
#[derive(Clone, Debug)]
pub struct Throughput {
    /// The name of the metric.
    pub metric_name: String,
    /// Bytes per millisecond.
    pub bytes_per_millisecond: u64,
}

/// The metrics of one download, which are all tagged with its status and its source.
#[derive(Clone, Debug)]
pub struct DownloadReport {
    /// The name of the metric for the time taken.
    pub duration_name: String,
    /// The time taken.
    pub duration: Duration,
    /// The metric for the speed, if it is known.
    pub throughput: Option<Throughput>,
    /// How the download ended.
    pub status: String,
    /// Where the file was downloaded from.
    pub source: String,
}

/// What a [`DownloadReport`] says, with its texts as sequences of characters.
pub struct DownloadReportView {
    pub duration_name: Seq<char>,
    pub duration: Duration,
    pub throughput: Option<(Seq<char>, u64)>,
    pub status: Seq<char>,
    pub source: Seq<char>,
}

impl View for DownloadReport {
    type V = DownloadReportView;

    open spec fn view(&self) -> DownloadReportView {
        DownloadReportView {
            duration_name: self.duration_name@,
            duration: self.duration,
            throughput: match self.throughput {
                Some(throughput) => Some(
                    (throughput.metric_name@, throughput.bytes_per_millisecond),
                ),
                None => None,
            },
            status: self.status@,
            source: self.source@,
        }
    }
}

/// The number of bytes per millisecond, or the number of bytes if not even a millisecond passed.
pub open spec fn bytes_per_millisecond(bytes: u64, duration: Duration) -> u64 {
    let millis = duration.nanos as int / 1_000_000;
    if millis == 0 {
        bytes
    } else {
        (bytes as int / millis) as u64
    }
}

impl Measurement {
    /// What is reported of this measurement if it has taken the given time.
    pub open spec fn report(self, duration: Duration) -> DownloadReportView {
        DownloadReportView {
            duration_name: self.task_name + ".duration"@,
            duration,
            throughput: match self.bytes_transferred {
                Some(bytes) => Some(
                    (self.task_name + ".throughput"@, bytes_per_millisecond(bytes, duration)),
                ),
                None => None,
            },
            status: match self.status {
                Some(status) => status,
                None => "canceled"@,
            },
            source: self.source_name,
        }
    }
}

impl<'a> MeasureSourceDownloadGuard<'a> {
    /// Creates a new measure guard for downloading a source. Time is measured from now on.
    pub fn new(task_name: &'a str, source_name: &'a str) -> (guard: Self)
        ensures
            clock_shows(guard@.created),
            guard@ == Measurement::started(task_name@, source_name@, guard@.created),
    {
        Self::started_by(task_name, source_name, Instant::now)
    }

    /// Creates a new measure guard that measures from the moment that `clock` shows.
    fn started_by<K>(task_name: &'a str, source_name: &'a str, clock: K) -> (guard: Self) where
        K: Fn() -> Instant,

        requires
            call_requires(clock, ()),
        ensures
            call_ensures(clock, (), guard@.created),
            guard@ == Measurement::started(task_name@, source_name@, guard@.created),
    {
        MeasureSourceDownloadGuard {
            state: MeasureState::Pending,
            task_name,
            source_name,
            bytes_transferred: None,
            creation_time: clock(),
        }
    }

    /// A checked add to the amount of bytes transferred during the download.
    ///
    /// This value will be reported when the download is completed or cancelled.
    pub fn add_bytes_transferred(&mut self, additional_bytes: u64)
        ensures
            final(self)@ == old(self)@.with_bytes(additional_bytes),
    {
        let bytes: u64 = match self.bytes_transferred {
            Some(bytes) => bytes,
            None => 0,
        };
        self.bytes_transferred = Some(bytes.saturating_add(additional_bytes));
    }

    /// Marks the download as terminated.
    ///
    /// `status_of` gives the status that goes with the outcome of a download.
    pub fn done<T, E, S>(self, reason: &Result<T, E>, status_of: S) -> (guard: Self) where
        S: Fn(&Result<T, E>) -> &'static str,

        requires
            call_requires(status_of, (reason,)),
        ensures
            exists|status: &'static str|
                {
                    &&& #[trigger] call_ensures(status_of, (reason,), status)
                    &&& guard@ == self@.with_status(status@)
                },
    {
        let status: &'static str = status_of(reason);
        MeasureSourceDownloadGuard { state: MeasureState::Done(status), ..self }
    }

    /// What is to be reported if the download has taken the given time.
    pub fn report_after(&self, duration: Duration) -> (report: DownloadReport)
        ensures
            report@ == self@.report(duration),
    {
        let status = match self.state {
            MeasureState::Pending => "canceled",
            MeasureState::Done(status) => status,
        };
        let throughput = match self.bytes_transferred {
            Some(bytes) => {
                // Times are recorded in milliseconds, so match that unit when calculating
                // throughput, recording a byte / ms value.
                let wide: u128 = bytes as u128;
                let speed: u64 = match wide.checked_div(duration.as_millis()) {
                    Some(quotient) => {
                        proof {
                            lemma_quotient_is_not_larger(bytes, duration);
                        }
                        quotient as u64
                    },
                    None => bytes,
                };
                Some(
                    Throughput {
                        metric_name: self.task_name.to_owned().concat(".throughput"),
                        bytes_per_millisecond: speed,
                    },
                )
            },
            None => None,
        };
        DownloadReport {
            duration_name: self.task_name.to_owned().concat(".duration"),
            duration,
            throughput,
            status: status.to_owned(),
            source: self.source_name.to_owned(),
        }
    }

    /// What is to be reported now that the download is over: it has taken the time that has passed
    /// since the guard was created.
    pub fn report(self) -> (report: DownloadReport)
        ensures
            passed_since(self@.created, report.duration),
            report@ == self@.report(report.duration),
    {
        self.reported_by(elapsed)
    }

    /// What is to be reported if `clock` gives the time that has passed since a moment.
    fn reported_by<K>(self, clock: K) -> (report: DownloadReport) where
        K: Fn(&Instant) -> Duration,

        requires
            call_requires(clock, (&self@.created,)),
        ensures
            call_ensures(clock, (&self@.created,), report.duration),
            report@ == self@.report(report.duration),
    {
        self.report_after(clock(&self.creation_time))
    }
}

/// What is measured from sending a request until the server answers.
pub const CONNECT_TASK: &'static str = "source.download.connect";

/// What is measured while the body of an answer is read.
pub const STREAM_TASK: &'static str = "source.download.stream";

/// Starts to measure the time until the given source answers.
pub fn measure_download_time<'a>(source_name: &'a str) -> (guard: MeasureSourceDownloadGuard<'a>)
    ensures
        clock_shows(guard@.created),
        guard@ == Measurement::started(CONNECT_TASK@, source_name@, guard@.created),
{
    MeasureSourceDownloadGuard::new(CONNECT_TASK, source_name)
}

/// Ends a measurement with the given output, which is handed on as it is.
///
/// `status_of` gives the status that goes with an output.
pub fn measured<'a, T, E, S>(
    guard: MeasureSourceDownloadGuard<'a>,
    output: Result<T, E>,
    status_of: S,
) -> (ended: (Result<T, E>, MeasureSourceDownloadGuard<'a>)) where
    S: Fn(&Result<T, E>) -> &'static str,

    requires
        call_requires(status_of, (&output,)),
    ensures
        ended.0 == output,
        exists|status: &'static str|
            {
                &&& #[trigger] call_ensures(status_of, (&output,), status)
                &&& ended.1@ == guard@.with_status(status@)
            },
{
    let guard = guard.done(&output, status_of);
    (output, guard)
}

proof fn lemma_quotient_is_not_larger(bytes: u64, duration: Duration)
    requires
        duration.nanos / 1_000_000 != 0,
    ensures
        0 <= bytes as int / (duration.nanos as int / 1_000_000) <= bytes,
{
    let millis = duration.nanos as int / 1_000_000;
    assert(0 <= bytes as int / millis <= bytes) by (nonlinear_arith)
        requires
            millis >= 1,
    ;
}

/// It does not matter in how many portions bytes are counted.
pub proof fn law_bytes_add_up(measurement: Measurement, first: u64, second: u64)
    ensures
        measurement.with_bytes(first).with_bytes(second) == measurement.with_bytes(
            bytes_sum(first as int, second as int) as u64,
        ),
{
}

/// A measurement after the given portions have been counted one after the other.
pub open spec fn counted(measurement: Measurement, portions: Seq<u64>) -> Measurement
    decreases portions.len(),
{
    if portions.len() == 0 {
        measurement
    } else {
        counted(measurement, portions.drop_last()).with_bytes(portions.last())
    }
}

/// The sum of some portions.
pub open spec fn sum(portions: Seq<u64>) -> nat
    decreases portions.len(),
{
    if portions.len() == 0 {
        0
    } else {
        sum(portions.drop_last()) + portions.last() as nat
    }
}

/// What has been counted after some portions is their sum on top of what was counted before, or the
/// largest number there is. As soon as there was a portion there is a count, even if it is zero.
/// Nothing else of the measurement changes.
pub proof fn law_portions_add_up(measurement: Measurement, portions: Seq<u64>)
    ensures
        counted(measurement, portions) == (Measurement {
            bytes_transferred: if portions.len() == 0 {
                measurement.bytes_transferred
            } else {
                Some(bytes_sum(measurement.bytes() as int, sum(portions) as int) as u64)
            },
            ..measurement
        }),
    decreases portions.len(),
{
    if portions.len() > 0 {
        law_portions_add_up(measurement, portions.drop_last());
        if portions.len() == 1 {
            assert(sum(portions.drop_last()) == 0);
        }
    }
}

/// Counting never goes back and never wraps around: the count is at least what it was before and
/// at least what was added, and once it is at its limit it stays there.
pub proof fn law_bytes_never_wrap(measurement: Measurement, additional_bytes: u64)
    ensures
        measurement.with_bytes(additional_bytes).bytes() >= measurement.bytes(),
        measurement.with_bytes(additional_bytes).bytes() >= additional_bytes,
        measurement.bytes() == u64::MAX ==> measurement.with_bytes(additional_bytes).bytes()
            == u64::MAX,
{
}

/// The speed is reported exactly if bytes have been counted, and it is never larger than the
/// number of bytes.
pub proof fn law_throughput_needs_bytes(measurement: Measurement, duration: Duration)
    ensures
        measurement.report(duration).throughput is Some
            <==> measurement.bytes_transferred is Some,
        measurement.report(duration).throughput matches Some((_, speed)) ==> speed
            <= measurement.bytes(),
        duration.nanos < 1_000_000 ==> (measurement.report(duration).throughput matches Some(
            (_, speed),
        ) ==> speed == measurement.bytes()),
{
    if duration.nanos / 1_000_000 != 0 {
        lemma_quotient_is_not_larger(measurement.bytes(), duration);
    }
}

/// A download that is given up before it has terminated is reported as canceled, with all bytes
/// that were counted until then.
pub proof fn law_unfinished_downloads_are_canceled(measurement: Measurement, duration: Duration)
    requires
        measurement.status is None,
    ensures
        measurement.report(duration).status == "canceled"@,
        measurement.report(duration).throughput == match measurement.bytes_transferred {
            Some(bytes) => Some(
                (measurement.task_name + ".throughput"@, bytes_per_millisecond(bytes, duration)),
            ),
            None => None,
        },
{
}

/// Whatever is counted and however the download ends, time is measured from one and the same
/// moment, and the time that is reported is not changed by it either.
pub proof fn law_time_is_measured_from_the_start(
    measurement: Measurement,
    additional_bytes: u64,
    status: Seq<char>,
    duration: Duration,
)
    ensures
        measurement.with_bytes(additional_bytes).created == measurement.created,
        measurement.with_status(status).created == measurement.created,
        measurement.with_bytes(additional_bytes).with_status(status).report(duration).duration
            == measurement.report(duration).duration,
        measurement.report(duration).duration == duration,
{
}

/// The time until a server answers is reported as a single metric, whatever the answer is.
pub proof fn law_connection_time_is_one_metric(
    source_name: Seq<char>,
    created: Instant,
    status: Seq<char>,
    duration: Duration,
)
    ensures
        ({
            let measurement = Measurement::started(CONNECT_TASK@, source_name, created).with_status(
                status,
            );
            &&& measurement.report(duration).throughput is None
            &&& measurement.report(duration).duration_name == CONNECT_TASK@ + ".duration"@
            &&& measurement.report(duration).status == status
        }),
{
}

/// A report shows what was recorded: the task, the source, the status or that the download was
/// canceled, and the time taken. A download that took no full millisecond is reported with the
/// number of its bytes as its speed, and one without bytes has no speed.
pub proof fn law_reports_show_what_was_recorded<'a>(
    guard: &MeasureSourceDownloadGuard<'a>,
    duration: Duration,
    report: DownloadReport,
)
    requires
        call_ensures(
            MeasureSourceDownloadGuard::<'a>::report_after,
            (guard, duration),
            report,
        ),
    ensures
        report.duration == duration,
        report.duration_name@ == guard@.task_name + ".duration"@,
        report.source@ == guard@.source_name,
        guard@.status matches Some(status) ==> report.status@ == status,
        guard@.status is None ==> report.status@ == "canceled"@,
        report.throughput is Some <==> guard@.bytes_transferred is Some,
        report.throughput matches Some(throughput) ==> throughput.metric_name@
            == guard@.task_name + ".throughput"@,
        report.throughput matches Some(throughput) ==> (duration.nanos < 1_000_000
            ==> guard@.bytes_transferred == Some(throughput.bytes_per_millisecond)),
{
}

/// The speed is the number of bytes in each millisecond, rounded down: that many bytes in each of
/// the milliseconds that passed in full make no more bytes than there were, and one more in each
/// would make more.
pub proof fn law_speed_is_bytes_per_millisecond<'a>(
    guard: &MeasureSourceDownloadGuard<'a>,
    instant: Duration,
    duration: Duration,
    millis: u128,
    at_once: DownloadReport,
    report: DownloadReport,
)
    requires
        instant.nanos == 0,
        call_ensures(Duration::as_millis, (&duration,), millis),
        call_ensures(
            MeasureSourceDownloadGuard::<'a>::report_after,
            (guard, instant),
            at_once,
        ),
        call_ensures(
            MeasureSourceDownloadGuard::<'a>::report_after,
            (guard, duration),
            report,
        ),
    ensures
        report.throughput is Some <==> at_once.throughput is Some,
        report.throughput matches Some(throughput) ==> {
            let bytes = at_once.throughput->0.bytes_per_millisecond;
            let speed = throughput.bytes_per_millisecond;
            &&& millis == 0 ==> speed == bytes
            &&& millis > 0 ==> speed * millis <= bytes < (speed + 1) * millis
        },
        report.status@ == at_once.status@,
        report.source@ == at_once.source@,
        report.duration_name@ == at_once.duration_name@,
{
    if let Some(bytes) = guard@.bytes_transferred {
        let whole = duration.nanos as int / 1_000_000;
        if whole != 0 {
            lemma_quotient_is_not_larger(bytes, duration);
            let speed = bytes as int / whole;
            assert(speed * whole <= bytes < (speed + 1) * whole) by (nonlinear_arith)
                requires
                    whole >= 1,
                    bytes >= 0,
                    speed == bytes as int / whole,
            ;
        }
    }
}

/// A measurement starts without bytes and without a status, for the task and the source that were
/// given, and from the moment that the clock shows.
pub proof fn law_measurements_start_with_nothing<'a>(
    task_name: &'a str,
    source_name: &'a str,
    guard: MeasureSourceDownloadGuard<'a>,
    duration: Duration,
    report: DownloadReport,
)
    requires
        call_ensures(MeasureSourceDownloadGuard::<'a>::new, (task_name, source_name), guard),
        call_ensures(
            MeasureSourceDownloadGuard::<'a>::report_after,
            (&guard, duration),
            report,
        ),
    ensures
        call_ensures(Instant::now, (), guard@.created),
        report.duration_name@ == task_name@ + ".duration"@,
        report.duration == duration,
        report.source@ == source_name@,
        report.status@ == "canceled"@,
        report.throughput is None,
{
}

/// The time until a server answers is measured like any other task, under a name of its own.
pub proof fn law_connections_are_measured<'a>(
    source_name: &'a str,
    guard: MeasureSourceDownloadGuard<'a>,
    duration: Duration,
    report: DownloadReport,
)
    requires
        call_ensures(measure_download_time, (source_name,), guard),
        call_ensures(
            MeasureSourceDownloadGuard::<'a>::report_after,
            (&guard, duration),
            report,
        ),
    ensures
        call_ensures(Instant::now, (), guard@.created),
        report.duration_name@ == "source.download.connect"@ + ".duration"@,
        report.source@ == source_name@,
        report.status@ == "canceled"@,
        report.throughput is None,
{
}

/// Counting bytes makes the count larger by that many bytes, or the largest number there is, and
/// changes nothing else that is reported. There is a count even if it is zero.
pub proof fn law_bytes_are_counted<'a>(
    guard: &mut MeasureSourceDownloadGuard<'a>,
    additional_bytes: u64,
    instant: Duration,
    before: DownloadReport,
    after: DownloadReport,
)
    requires
        call_ensures(
            MeasureSourceDownloadGuard::<'a>::add_bytes_transferred,
            (guard, additional_bytes),
            (),
        ),
        instant.nanos == 0,
        call_ensures(
            MeasureSourceDownloadGuard::<'a>::report_after,
            (&*old(guard), instant),
            before,
        ),
        call_ensures(
            MeasureSourceDownloadGuard::<'a>::report_after,
            (&*final(guard), instant),
            after,
        ),
    ensures
        after.throughput is Some,
        ({
            let counted = if before.throughput is Some {
                before.throughput->0.bytes_per_millisecond
            } else {
                0
            };
            let bytes = after.throughput->0.bytes_per_millisecond;
            &&& counted + additional_bytes <= u64::MAX ==> bytes == counted + additional_bytes
            &&& counted + additional_bytes > u64::MAX ==> bytes == u64::MAX
        }),
        after.status@ == before.status@,
        after.source@ == before.source@,
        after.duration_name@ == before.duration_name@,
        final(guard)@.created == old(guard)@.created,
{
}

/// A download that terminates is reported with the status of its outcome, and nothing else that is
/// reported changes by that.
pub proof fn law_outcomes_give_the_status<'a, T, E, S>(
    guard: MeasureSourceDownloadGuard<'a>,
    reason: &Result<T, E>,
    status_of: S,
    ended: MeasureSourceDownloadGuard<'a>,
    duration: Duration,
    before: DownloadReport,
    after: DownloadReport,
) where S: Fn(&Result<T, E>) -> &'static str
    requires
        call_ensures(
            MeasureSourceDownloadGuard::<'a>::done::<T, E, S>,
            (guard, reason, status_of),
            ended,
        ),
        call_ensures(
            MeasureSourceDownloadGuard::<'a>::report_after,
            (&guard, duration),
            before,
        ),
        call_ensures(
            MeasureSourceDownloadGuard::<'a>::report_after,
            (&ended, duration),
            after,
        ),
    ensures
        exists|status: &'static str|
            {
                &&& #[trigger] call_ensures(status_of, (reason,), status)
                &&& after.status@ == status@
            },
        after.source@ == before.source@,
        after.duration_name@ == before.duration_name@,
        after.throughput is Some <==> before.throughput is Some,
        after.throughput matches Some(throughput) ==> throughput.bytes_per_millisecond
            == before.throughput->0.bytes_per_millisecond,
        ended@.created == guard@.created,
{
}

/// What is measured is handed on as it is, and it is reported with the status of its outcome.
pub proof fn law_outputs_are_handed_on<'a, T, E, S>(
    guard: MeasureSourceDownloadGuard<'a>,
    output: Result<T, E>,
    status_of: S,
    ended: (Result<T, E>, MeasureSourceDownloadGuard<'a>),
    duration: Duration,
    before: DownloadReport,
    after: DownloadReport,
) where S: Fn(&Result<T, E>) -> &'static str
    requires
        call_ensures(measured::<T, E, S>, (guard, output, status_of), ended),
        call_ensures(
            MeasureSourceDownloadGuard::<'a>::report_after,
            (&guard, duration),
            before,
        ),
        call_ensures(
            MeasureSourceDownloadGuard::<'a>::report_after,
            (&ended.1, duration),
            after,
        ),
    ensures
        ended.0 == output,
        exists|status: &'static str|
            {
                &&& #[trigger] call_ensures(status_of, (&output,), status)
                &&& after.status@ == status@
            },
        after.source@ == before.source@,
        after.duration_name@ == before.duration_name@,
        after.throughput is Some <==> before.throughput is Some,
        after.throughput matches Some(throughput) ==> throughput.bytes_per_millisecond
            == before.throughput->0.bytes_per_millisecond,
        ended.1@.created == guard@.created,
{
}

/// What is reported at the end is what is reported for the time that the clock gives as having
/// passed since the guard was created.
proof fn law_reports_take_the_time_of_the_clock<'a>(
    guard: MeasureSourceDownloadGuard<'a>,
    report: DownloadReport,
    expected: DownloadReport,
)
    requires
        call_ensures(MeasureSourceDownloadGuard::<'a>::report, (guard,), report),
        call_ensures(
            MeasureSourceDownloadGuard::<'a>::report_after,
            (&guard, report.duration),
            expected,
        ),
    ensures
        call_ensures(elapsed, (&guard@.created,), report.duration),
        report.duration_name@ == expected.duration_name@,
        report.status@ == expected.status@,
        report.source@ == expected.source@,
        report.throughput is Some <==> expected.throughput is Some,
        report.throughput matches Some(throughput) ==> {
            &&& throughput.metric_name@ == expected.throughput->0.metric_name@
            &&& throughput.bytes_per_millisecond == expected.throughput->0.bytes_per_millisecond
        },
{
}

/// Every download can terminate, provided that its outcome has a status.
pub proof fn law_every_outcome_is_measured<'a, T, E, S>(
    guard: MeasureSourceDownloadGuard<'a>,
    outcome: Result<T, E>,
    status_of: S,
) where S: Fn(&Result<T, E>) -> &'static str
    requires
        call_requires(status_of, (&outcome,)),
    ensures
        call_requires(
            MeasureSourceDownloadGuard::<'a>::done::<T, E, S>,
            (guard, &outcome, status_of),
        ),
        call_requires(measured::<T, E, S>, (guard, outcome, status_of)),
{
}

} // verus!
