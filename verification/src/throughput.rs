//! Throughput over a measurement window that is moved by periodic
//! checkpoints and by explicit start and stop signals.
//!
//! Time is a reading of a monotonic clock in nanoseconds. A report holds the
//! exact counter differences and the elapsed time of its window; the rate per
//! second is `delta * 1_000_000_000 / elapsed_ns`.

use vstd::arithmetic::div_mod::{lemma_fundamental_div_mod, lemma_hoist_over_denominator};
use vstd::prelude::*;

verus! {

/// Nanoseconds in one second.
pub const NANOS_PER_SECOND: u128 = 1_000_000_000;

/// The emission cadence of a tracker made by `new`: every thousandth block.
pub const DEFAULT_PERIOD: u64 = 1000;

/// One observation of the cumulative engine counters.
#[derive(Clone, Copy, Debug, PartialEq, Eq, Structural)]
pub struct Sample {
    pub block_number: u64,
    pub cumulative_txs: u128,
    pub cumulative_gas: u128,
}

/// An input event of the tracker.
#[derive(Clone, Copy, Debug, PartialEq, Eq, Structural)]
pub enum TpsAndGasMessage {
    /// A sample taken at a block boundary.
    Record(Sample),
    /// Opens (`true`) or closes (`false`) an explicit measurement window.
    Switch(bool),
}

/// Whether an explicit measurement window is open.
#[derive(Clone, Copy, Debug, PartialEq, Eq, Structural)]
pub enum Mode {
    Idle,
    Recording,
}

/// The point from which the next rate is measured.
#[derive(Clone, Copy, Debug, PartialEq, Eq, Structural)]
pub struct RateWindow {
    pub start_txs: u128,
    pub start_gas: u128,
    pub start_time: u64,
}

/// What one emission reports: the counters gained over the window and the
/// window's length, which is never zero.
#[derive(Clone, Copy, Debug, PartialEq, Eq, Structural)]
pub struct RateReport {
    pub block_number: u64,
    pub delta_txs: u128,
    pub delta_gas: u128,
    pub elapsed_ns: u64,
}

/// The state of the tracker: the open window, the counters of the latest
/// sample, the mode and the emission cadence.
#[derive(Clone, Copy, Debug, PartialEq, Eq, Structural)]
pub struct WindowedRateTracker {
    pub window: RateWindow,
    pub last_txs: u128,
    pub last_gas: u128,
    pub mode: Mode,
    pub period: u64,
}

/// Nanoseconds from `start` to `now`, with a floor of one: a clock that has
/// not advanced counts as one nanosecond.
pub open spec fn elapsed_between(start: u64, now: u64) -> u64 {
    if now > start {
        (now - start) as u64
    } else {
        1
    }
}

/// The whole units per second in a gain of `delta` units over `elapsed_ns`
/// nanoseconds: `delta * 1_000_000_000 / elapsed_ns`, rounded down.
pub open spec fn per_second(delta: u128, elapsed_ns: u64) -> int {
    (delta * NANOS_PER_SECOND) / (elapsed_ns as int)
}

/// Splitting `delta` into a multiple of `elapsed_ns` and a remainder does not
/// change the rate: the multiple gives whole seconds' worth, the remainder the rest.
pub proof fn lemma_per_second_split(delta: u128, elapsed_ns: u64)
    requires
        elapsed_ns >= 1,
    ensures
        per_second(delta, elapsed_ns) == (delta / (elapsed_ns as u128)) * NANOS_PER_SECOND + ((delta
            % (elapsed_ns as u128)) * NANOS_PER_SECOND) / (elapsed_ns as int),
{
    let e = elapsed_ns as int;
    let d = delta as int;
    let k = NANOS_PER_SECOND as int;
    let q = d / e;
    let r = d % e;
    lemma_fundamental_div_mod(d, e);
    assert(r * k + (q * k) * e == d * k) by (nonlinear_arith)
        requires
            d == e * q + r,
    ;
    lemma_hoist_over_denominator(r * k, q * k, e as nat);
}

/// Computes the whole units per second, unless that exceeds `u128`.
pub fn rate_per_second(delta: u128, elapsed_ns: u64) -> (rate: Option<u128>)
    requires
        elapsed_ns >= 1,
    ensures
        rate.is_some() <==> per_second(delta, elapsed_ns) <= u128::MAX,
        rate matches Some(v) ==> v == per_second(delta, elapsed_ns),
{
    let e: u128 = elapsed_ns as u128;
    let whole: u128 = delta / e;
    let rest: u128 = delta % e;
    assert(rest * NANOS_PER_SECOND <= u64::MAX * NANOS_PER_SECOND) by (nonlinear_arith)
        requires
            rest <= u64::MAX,
    ;
    let fraction: u128 = rest * NANOS_PER_SECOND / e;
    proof {
        lemma_per_second_split(delta, elapsed_ns);
    }
    match whole.checked_mul(NANOS_PER_SECOND) {
        Some(seconds) => seconds.checked_add(fraction),
        None => None,
    }
}

impl RateReport {
    /// The window of the report has a length.
    pub open spec fn wf(self) -> bool {
        self.elapsed_ns >= 1
    }

    /// Whole transactions per second over the window, unless that exceeds `u128`.
    pub fn txs_per_second(&self) -> (rate: Option<u128>)
        requires
            self.wf(),
        ensures
            rate.is_some() <==> per_second(self.delta_txs, self.elapsed_ns) <= u128::MAX,
            rate matches Some(v) ==> v == per_second(self.delta_txs, self.elapsed_ns),
            self.delta_txs == 0 ==> rate == Some(0u128),
    {
        rate_per_second(self.delta_txs, self.elapsed_ns)
    }

    /// Whole units of gas per second over the window, unless that exceeds `u128`.
    pub fn gas_per_second(&self) -> (rate: Option<u128>)
        requires
            self.wf(),
        ensures
            rate.is_some() <==> per_second(self.delta_gas, self.elapsed_ns) <= u128::MAX,
            rate matches Some(v) ==> v == per_second(self.delta_gas, self.elapsed_ns),
            self.delta_gas == 0 ==> rate == Some(0u128),
    {
        rate_per_second(self.delta_gas, self.elapsed_ns)
    }
}

impl RateWindow {
    /// The counters `txs` and `gas` have not fallen below the window's start.
    pub open spec fn admits(self, txs: u128, gas: u128) -> bool {
        self.start_txs <= txs && self.start_gas <= gas
    }

    /// The report of the window when closed at `now` on the given counters.
    pub open spec fn report_at(self, block_number: u64, txs: u128, gas: u128, now: u64) -> RateReport {
        RateReport {
            block_number,
            delta_txs: (txs - self.start_txs) as u128,
            delta_gas: (gas - self.start_gas) as u128,
            elapsed_ns: elapsed_between(self.start_time, now),
        }
    }

    /// Measures the window up to `now` and the given cumulative counters.
    pub fn measure(&self, block_number: u64, txs: u128, gas: u128, now: u64) -> (report: RateReport)
        requires
            self.admits(txs, gas),
        ensures
            report == self.report_at(block_number, txs, gas, now),
            report.wf(),
            report.delta_txs + self.start_txs == txs,
            report.delta_gas + self.start_gas == gas,
    {
        let elapsed_ns: u64 = if now > self.start_time {
            now - self.start_time
        } else {
            1
        };
        RateReport {
            block_number,
            delta_txs: txs - self.start_txs,
            delta_gas: gas - self.start_gas,
            elapsed_ns,
        }
    }
}

impl WindowedRateTracker {
    /// The cadence is positive and the latest sample is not below the window's start.
    pub open spec fn wf(self) -> bool {
        self.period > 0 && self.window.admits(self.last_txs, self.last_gas)
    }

    /// The state before any event: idle, every counter and the clock at zero.
    pub open spec fn initial(period: u64) -> WindowedRateTracker {
        WindowedRateTracker {
            window: RateWindow { start_txs: 0, start_gas: 0, start_time: 0 },
            last_txs: 0,
            last_gas: 0,
            mode: Mode::Idle,
            period,
        }
    }

    /// A sample at `block_number` is a periodic checkpoint.
    pub open spec fn emits_at(self, block_number: u64) -> bool {
        block_number % self.period == 0
    }

    /// The state after a sample: the sample is remembered, and at a
    /// checkpoint the window restarts from it.
    pub open spec fn after_sample(self, sample: Sample, now: u64) -> WindowedRateTracker {
        WindowedRateTracker {
            window: if self.emits_at(sample.block_number) {
                RateWindow {
                    start_txs: sample.cumulative_txs,
                    start_gas: sample.cumulative_gas,
                    start_time: now,
                }
            } else {
                self.window
            },
            last_txs: sample.cumulative_txs,
            last_gas: sample.cumulative_gas,
            ..self
        }
    }

    /// What a sample reports: the window's rate at a checkpoint, nothing otherwise.
    pub open spec fn sample_report(self, sample: Sample, now: u64) -> Option<RateReport> {
        if self.emits_at(sample.block_number) {
            Some(
                self.window.report_at(
                    sample.block_number,
                    sample.cumulative_txs,
                    sample.cumulative_gas,
                    now,
                ),
            )
        } else {
            None
        }
    }

    /// The state after a start signal: recording, with the window restarted
    /// at the latest known counters.
    pub open spec fn after_start(self, now: u64) -> WindowedRateTracker {
        WindowedRateTracker {
            window: RateWindow {
                start_txs: self.last_txs,
                start_gas: self.last_gas,
                start_time: now,
            },
            mode: Mode::Recording,
            ..self
        }
    }

    /// The state after a stop signal: idle, the window left where it was.
    pub open spec fn after_stop(self) -> WindowedRateTracker {
        WindowedRateTracker { mode: Mode::Idle, ..self }
    }

    /// What a stop signal reports: the window measured up to the latest known counters.
    pub open spec fn stop_report(self, block_number: u64, now: u64) -> RateReport {
        self.window.report_at(block_number, self.last_txs, self.last_gas, now)
    }

    /// The state after any message.
    pub open spec fn after_message(self, message: TpsAndGasMessage, now: u64) -> WindowedRateTracker {
        match message {
            TpsAndGasMessage::Record(sample) => self.after_sample(sample, now),
            TpsAndGasMessage::Switch(true) => self.after_start(now),
            TpsAndGasMessage::Switch(false) => self.after_stop(),
        }
    }

    /// What any message reports.
    pub open spec fn message_report(self, block_number: u64, message: TpsAndGasMessage, now: u64) -> Option<RateReport> {
        match message {
            TpsAndGasMessage::Record(sample) => self.sample_report(sample, now),
            TpsAndGasMessage::Switch(true) => None,
            TpsAndGasMessage::Switch(false) => Some(self.stop_report(block_number, now)),
        }
    }

    /// A message that the tracker can take: a sample must not lie below the window's start.
    pub open spec fn accepts(self, message: TpsAndGasMessage) -> bool {
        message matches TpsAndGasMessage::Record(sample) ==> self.window.admits(
            sample.cumulative_txs,
            sample.cumulative_gas,
        )
    }

    /// An idle tracker that emits every `DEFAULT_PERIOD` blocks.
    pub fn new() -> (tracker: WindowedRateTracker)
        ensures
            tracker == WindowedRateTracker::initial(DEFAULT_PERIOD),
            tracker.wf(),
    {
        WindowedRateTracker::with_period(DEFAULT_PERIOD)
    }

    /// An idle tracker that emits every `period` blocks.
    pub fn with_period(period: u64) -> (tracker: WindowedRateTracker)
        requires
            period > 0,
        ensures
            tracker == WindowedRateTracker::initial(period),
            tracker.wf(),
    {
        WindowedRateTracker {
            window: RateWindow { start_txs: 0, start_gas: 0, start_time: 0 },
            last_txs: 0,
            last_gas: 0,
            mode: Mode::Idle,
            period,
        }
    }

    /// Takes a sample. At a block number divisible by the period it reports
    /// the rate of the open window and restarts the window at the sample;
    /// at any other block number it reports nothing and keeps the window.
    /// The sample's counters are remembered either way.
    pub fn update_tps_and_gas(&mut self, block_number: u64, txs: u128, gas: u128, now: u64) -> (report: Option<RateReport>)
        requires
            old(self).wf(),
            old(self).window.admits(txs, gas),
        ensures
            final(self).wf(),
            *final(self) == old(self).after_sample(
                Sample { block_number, cumulative_txs: txs, cumulative_gas: gas },
                now,
            ),
            report == old(self).sample_report(
                Sample { block_number, cumulative_txs: txs, cumulative_gas: gas },
                now,
            ),
            report.is_some() <==> block_number % old(self).period == 0,
            report matches Some(r) ==> r.wf(),
            final(self).last_txs == txs && final(self).last_gas == gas,
            final(self).mode == old(self).mode,
    {
        let report = if block_number % self.period == 0 {
            let measured = self.window.measure(block_number, txs, gas, now);
            self.window = RateWindow { start_txs: txs, start_gas: gas, start_time: now };
            Some(measured)
        } else {
            None
        };
        self.last_txs = txs;
        self.last_gas = gas;
        report
    }

    /// Opens an explicit window: it starts at the latest known counters and
    /// at `now`, whatever time had passed before.
    pub fn start_record(&mut self, now: u64)
        ensures
            *final(self) == old(self).after_start(now),
            final(self).mode == Mode::Recording,
            old(self).period > 0 ==> final(self).wf(),
    {
        self.window = RateWindow {
            start_txs: self.last_txs,
            start_gas: self.last_gas,
            start_time: now,
        };
        self.mode = Mode::Recording;
    }

    /// Closes the explicit window: reports the rate from the window's start
    /// to the latest known counters, and leaves the window where it was.
    pub fn stop_record(&mut self, block_number: u64, now: u64) -> (report: RateReport)
        requires
            old(self).wf(),
        ensures
            final(self).wf(),
            *final(self) == old(self).after_stop(),
            report == old(self).stop_report(block_number, now),
            report.wf(),
            final(self).mode == Mode::Idle,
    {
        let report = self.window.measure(block_number, self.last_txs, self.last_gas, now);
        self.mode = Mode::Idle;
        report
    }

    /// Takes one message: a sample, a start signal or a stop signal.
    /// `block_number` labels the report of a stop signal; a sample carries its own.
    pub fn handle(&mut self, block_number: u64, message: TpsAndGasMessage, now: u64) -> (report: Option<RateReport>)
        requires
            old(self).wf(),
            old(self).accepts(message),
        ensures
            final(self).wf(),
            *final(self) == old(self).after_message(message, now),
            report == old(self).message_report(block_number, message, now),
            report matches Some(r) ==> r.wf(),
    {
        match message {
            TpsAndGasMessage::Record(sample) => self.update_tps_and_gas(
                sample.block_number,
                sample.cumulative_txs,
                sample.cumulative_gas,
                now,
            ),
            TpsAndGasMessage::Switch(switch) => {
                if switch {
                    self.start_record(now);
                    None
                } else {
                    Some(self.stop_record(block_number, now))
                }
            },
        }
    }
}

impl Default for WindowedRateTracker {
    fn default() -> (tracker: WindowedRateTracker)
        ensures
            tracker == WindowedRateTracker::initial(DEFAULT_PERIOD),
    {
        WindowedRateTracker::new()
    }
}

/// A start signal followed at once by a stop signal, with no sample between
/// them, reports zero transactions and zero gas over a window that is at
/// least one nanosecond long, whatever the two clock readings are.
pub proof fn lemma_start_then_stop_reports_nothing(
    tracker: WindowedRateTracker,
    block_number: u64,
    started: u64,
    stopped: u64,
)
    ensures
        tracker.after_start(started).stop_report(block_number, stopped).delta_txs == 0,
        tracker.after_start(started).stop_report(block_number, stopped).delta_gas == 0,
        tracker.after_start(started).stop_report(block_number, stopped).elapsed_ns >= 1,
        tracker.after_start(started).window.admits(tracker.last_txs, tracker.last_gas),
{
}

/// A sample reports exactly at a block number that the period divides, and
/// only there does the window move; the period itself never changes.
pub proof fn lemma_reports_exactly_at_checkpoints(
    tracker: WindowedRateTracker,
    sample: Sample,
    now: u64,
)
    ensures
        tracker.sample_report(sample, now).is_some() <==> sample.block_number % tracker.period == 0,
        tracker.after_sample(sample, now).period == tracker.period,
        sample.block_number % tracker.period != 0 ==> tracker.after_sample(sample, now).window
            == tracker.window,
        tracker.after_sample(sample, now).last_txs == sample.cumulative_txs,
        tracker.after_sample(sample, now).last_gas == sample.cumulative_gas,
{
}

/// The state after taking `samples` in order, each with the clock reading it came at.
pub open spec fn after_samples(tracker: WindowedRateTracker, samples: Seq<(Sample, u64)>) -> WindowedRateTracker
    decreases samples.len(),
{
    if samples.len() == 0 {
        tracker
    } else {
        after_samples(tracker, samples.drop_last()).after_sample(samples.last().0, samples.last().1)
    }
}

/// However many samples were taken before, the period is the one the tracker was made with.
pub proof fn lemma_samples_keep_period(tracker: WindowedRateTracker, samples: Seq<(Sample, u64)>)
    ensures
        after_samples(tracker, samples).period == tracker.period,
        after_samples(tracker, samples).mode == tracker.mode,
    decreases samples.len(),
{
    if samples.len() > 0 {
        lemma_samples_keep_period(tracker, samples.drop_last());
    }
}

/// In any run of samples, the sample at place `i` is reported if and only if
/// the period divides its block number: at every such block, and at none between.
pub proof fn lemma_run_reports_exactly_at_checkpoints(
    tracker: WindowedRateTracker,
    samples: Seq<(Sample, u64)>,
    i: int,
)
    requires
        0 <= i < samples.len(),
    ensures
        after_samples(tracker, samples.take(i)).sample_report(samples[i].0, samples[i].1).is_some()
            <==> samples[i].0.block_number % tracker.period == 0,
{
    lemma_samples_keep_period(tracker, samples.take(i));
}

} // verus!
