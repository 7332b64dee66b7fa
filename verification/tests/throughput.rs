use perf_metrics::throughput::{
    rate_per_second, Mode, RateReport, RateWindow, Sample, TpsAndGasMessage, WindowedRateTracker,
    DEFAULT_PERIOD, NANOS_PER_SECOND,
};

const SECOND: u64 = 1_000_000_000;

fn as_rate(delta: u128, elapsed_ns: u64) -> f64 {
    (delta as f64) * 1_000_000_000.0 / (elapsed_ns as f64)
}

#[test]
fn new_tracker_is_idle_at_zero() {
    let tracker = WindowedRateTracker::new();
    assert_eq!(DEFAULT_PERIOD, 1000);
    assert_eq!(NANOS_PER_SECOND, 1_000_000_000);
    assert_eq!(
        tracker,
        WindowedRateTracker {
            window: RateWindow { start_txs: 0, start_gas: 0, start_time: 0 },
            last_txs: 0,
            last_gas: 0,
            mode: Mode::Idle,
            period: 1000,
        }
    );
    assert_eq!(WindowedRateTracker::default(), tracker);
    assert_eq!(WindowedRateTracker::with_period(7).period, 7);
    assert_eq!(WindowedRateTracker::with_period(7).mode, Mode::Idle);
}

#[test]
fn one_second_window_reports_exact_rates() {
    let mut tracker = WindowedRateTracker::new();
    tracker.start_record(5 * SECOND);
    assert_eq!(tracker.mode, Mode::Recording);
    assert_eq!(tracker.window, RateWindow { start_txs: 0, start_gas: 0, start_time: 5 * SECOND });
    assert_eq!(tracker.update_tps_and_gas(17, 1000, 2_000_000, 5 * SECOND + 400), None);
    let report = tracker.stop_record(17, 6 * SECOND);
    assert_eq!(
        report,
        RateReport { block_number: 17, delta_txs: 1000, delta_gas: 2_000_000, elapsed_ns: SECOND }
    );
    assert_eq!(report.txs_per_second(), Some(1000));
    assert_eq!(report.gas_per_second(), Some(2_000_000));
    assert_eq!(as_rate(report.delta_txs, report.elapsed_ns), 1000.0);
    assert_eq!(as_rate(report.delta_gas, report.elapsed_ns), 2_000_000.0);
    assert_eq!(tracker.mode, Mode::Idle);
}

#[test]
fn periodic_emission_fires_exactly_at_multiples_of_the_period() {
    let mut tracker = WindowedRateTracker::new();
    let mut emitted: Vec<u64> = Vec::new();
    for block in 1..=3500u64 {
        let txs = (block as u128) * 10;
        let gas = (block as u128) * 21_000;
        let report = tracker.update_tps_and_gas(block, txs, gas, block * 1000);
        assert_eq!(report.is_some(), block % 1000 == 0);
        if let Some(r) = report {
            assert_eq!(r.block_number, block);
            emitted.push(block);
        }
        assert_eq!(tracker.last_txs, txs);
        assert_eq!(tracker.last_gas, gas);
    }
    assert_eq!(emitted, vec![1000, 2000, 3000]);
}

#[test]
fn block_zero_is_a_checkpoint() {
    let mut tracker = WindowedRateTracker::with_period(4);
    let report = tracker.update_tps_and_gas(0, 8, 80, 2 * SECOND);
    assert_eq!(
        report,
        Some(RateReport { block_number: 0, delta_txs: 8, delta_gas: 80, elapsed_ns: 2 * SECOND })
    );
    assert_eq!(report.unwrap().txs_per_second(), Some(4));
    assert_eq!(report.unwrap().gas_per_second(), Some(40));
}

#[test]
fn checkpoint_measures_since_previous_checkpoint() {
    let mut tracker = WindowedRateTracker::with_period(3);
    assert_eq!(tracker.update_tps_and_gas(1, 5, 50, 100), None);
    assert_eq!(tracker.window, RateWindow { start_txs: 0, start_gas: 0, start_time: 0 });
    assert_eq!(tracker.update_tps_and_gas(2, 9, 90, 200), None);
    assert_eq!(
        tracker.update_tps_and_gas(3, 12, 120, 300),
        Some(RateReport { block_number: 3, delta_txs: 12, delta_gas: 120, elapsed_ns: 300 })
    );
    assert_eq!(tracker.window, RateWindow { start_txs: 12, start_gas: 120, start_time: 300 });
    assert_eq!(tracker.update_tps_and_gas(4, 20, 200, 400), None);
    assert_eq!(tracker.update_tps_and_gas(5, 21, 210, 500), None);
    assert_eq!(tracker.window, RateWindow { start_txs: 12, start_gas: 120, start_time: 300 });
    assert_eq!(
        tracker.update_tps_and_gas(6, 30, 333, 1300),
        Some(RateReport { block_number: 6, delta_txs: 18, delta_gas: 213, elapsed_ns: 1000 })
    );
    assert_eq!((tracker.last_txs, tracker.last_gas), (30, 333));
}

#[test]
fn start_then_stop_reports_zero_throughput() {
    let mut tracker = WindowedRateTracker::with_period(10);
    assert_eq!(tracker.update_tps_and_gas(3, 700, 9000, 50), None);
    tracker.start_record(1000);
    let report = tracker.stop_record(3, 1000);
    assert_eq!(report, RateReport { block_number: 3, delta_txs: 0, delta_gas: 0, elapsed_ns: 1 });
    assert_eq!(report.txs_per_second(), Some(0));
    assert_eq!(report.gas_per_second(), Some(0));
    assert_eq!(as_rate(report.delta_txs, report.elapsed_ns), 0.0);

    tracker.start_record(2000);
    let later = tracker.stop_record(4, 2750);
    assert_eq!(later, RateReport { block_number: 4, delta_txs: 0, delta_gas: 0, elapsed_ns: 750 });
    assert_eq!(later.txs_per_second(), Some(0));
}

#[test]
fn start_discards_time_and_counters_before_the_signal() {
    let mut tracker = WindowedRateTracker::new();
    assert_eq!(tracker.update_tps_and_gas(1, 100, 1000, 10), None);
    assert_eq!(tracker.update_tps_and_gas(2, 250, 2500, 20), None);
    tracker.start_record(10 * SECOND);
    assert_eq!(
        tracker.window,
        RateWindow { start_txs: 250, start_gas: 2500, start_time: 10 * SECOND }
    );
    assert_eq!(tracker.update_tps_and_gas(3, 400, 4000, 11 * SECOND), None);
    let report = tracker.stop_record(3, 12 * SECOND);
    assert_eq!(
        report,
        RateReport { block_number: 3, delta_txs: 150, delta_gas: 1500, elapsed_ns: 2 * SECOND }
    );
    assert_eq!(report.txs_per_second(), Some(75));
    assert_eq!(report.gas_per_second(), Some(750));
}

#[test]
fn stop_leaves_the_window_where_it_was() {
    let mut tracker = WindowedRateTracker::new();
    tracker.start_record(40);
    assert_eq!(tracker.update_tps_and_gas(1, 6, 60, 50), None);
    let before = tracker.window;
    let report = tracker.stop_record(1, 100);
    assert_eq!(report.delta_txs, 6);
    assert_eq!(tracker.window, before);
    assert_eq!(tracker.mode, Mode::Idle);
    assert_eq!((tracker.last_txs, tracker.last_gas), (6, 60));
}

#[test]
fn clock_that_did_not_advance_counts_as_one_nanosecond() {
    let window = RateWindow { start_txs: 10, start_gas: 100, start_time: 500 };
    assert_eq!(window.measure(9, 13, 104, 500).elapsed_ns, 1);
    assert_eq!(window.measure(9, 13, 104, 499).elapsed_ns, 1);
    assert_eq!(window.measure(9, 13, 104, 0).elapsed_ns, 1);
    assert_eq!(window.measure(9, 13, 104, 501).elapsed_ns, 1);
    assert_eq!(window.measure(9, 13, 104, 502).elapsed_ns, 2);
    let report = window.measure(9, 13, 104, 500);
    assert_eq!(report, RateReport { block_number: 9, delta_txs: 3, delta_gas: 4, elapsed_ns: 1 });
    assert_eq!(report.txs_per_second(), Some(3_000_000_000));
    assert_eq!(report.gas_per_second(), Some(4_000_000_000));
}

#[test]
fn rate_per_second_rounds_down() {
    assert_eq!(rate_per_second(0, 1), Some(0));
    assert_eq!(rate_per_second(1, 3), Some(333_333_333));
    assert_eq!(rate_per_second(2, 3), Some(666_666_666));
    assert_eq!(rate_per_second(1, SECOND), Some(1));
    assert_eq!(rate_per_second(1, SECOND + 1), Some(0));
    assert_eq!(rate_per_second(7, 2 * SECOND), Some(3));
    assert_eq!(rate_per_second(1, u64::MAX), Some(0));
    assert_eq!(rate_per_second(u64::MAX as u128, u64::MAX), Some(1_000_000_000));
}

#[test]
fn rate_per_second_is_exact_beyond_the_product_range() {
    // The product delta * 10^9 leaves u128 here, the rate does not.
    let delta: u128 = u128::MAX / 2;
    assert_eq!(rate_per_second(delta, SECOND), Some(delta));
    assert_eq!(rate_per_second(u128::MAX, SECOND), Some(u128::MAX));
    assert_eq!(rate_per_second(u128::MAX, 2 * SECOND), Some(u128::MAX / 2));
}

#[test]
fn rate_per_second_reports_a_rate_beyond_u128() {
    assert_eq!(rate_per_second(u128::MAX, 1), None);
    assert_eq!(rate_per_second(u128::MAX, SECOND - 1), None);
    assert_eq!(rate_per_second(u128::MAX / 1_000_000_000 + 1, 1), None);
    assert_eq!(
        rate_per_second(u128::MAX / 1_000_000_000, 1),
        Some((u128::MAX / 1_000_000_000) * 1_000_000_000)
    );
}

#[test]
fn handle_dispatches_samples_and_signals() {
    let mut tracker = WindowedRateTracker::with_period(2);
    let sample = Sample { block_number: 1, cumulative_txs: 4, cumulative_gas: 40 };
    assert_eq!(tracker.handle(99, TpsAndGasMessage::Record(sample), 10), None);
    assert_eq!((tracker.last_txs, tracker.last_gas), (4, 40));

    assert_eq!(tracker.handle(99, TpsAndGasMessage::Switch(true), 20), None);
    assert_eq!(tracker.mode, Mode::Recording);
    assert_eq!(tracker.window, RateWindow { start_txs: 4, start_gas: 40, start_time: 20 });

    let checkpoint = Sample { block_number: 2, cumulative_txs: 10, cumulative_gas: 100 };
    assert_eq!(
        tracker.handle(99, TpsAndGasMessage::Record(checkpoint), 50),
        Some(RateReport { block_number: 2, delta_txs: 6, delta_gas: 60, elapsed_ns: 30 })
    );
    assert_eq!(tracker.mode, Mode::Recording);
    assert_eq!(tracker.window, RateWindow { start_txs: 10, start_gas: 100, start_time: 50 });

    let next = Sample { block_number: 3, cumulative_txs: 15, cumulative_gas: 130 };
    assert_eq!(tracker.handle(99, TpsAndGasMessage::Record(next), 60), None);
    assert_eq!(
        tracker.handle(99, TpsAndGasMessage::Switch(false), 90),
        Some(RateReport { block_number: 99, delta_txs: 5, delta_gas: 30, elapsed_ns: 40 })
    );
    assert_eq!(tracker.mode, Mode::Idle);
}

#[test]
fn handle_agrees_with_the_single_operations() {
    let mut by_message = WindowedRateTracker::with_period(5);
    let mut by_call = WindowedRateTracker::with_period(5);
    let sample = Sample { block_number: 5, cumulative_txs: 50, cumulative_gas: 5000 };
    assert_eq!(
        by_message.handle(0, TpsAndGasMessage::Record(sample), 77),
        by_call.update_tps_and_gas(5, 50, 5000, 77)
    );
    assert_eq!(by_message, by_call);
    by_message.handle(0, TpsAndGasMessage::Switch(true), 80);
    by_call.start_record(80);
    assert_eq!(by_message, by_call);
    assert_eq!(
        by_message.handle(6, TpsAndGasMessage::Switch(false), 95),
        Some(by_call.stop_record(6, 95))
    );
    assert_eq!(by_message, by_call);
}
