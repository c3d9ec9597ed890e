use waitla::LoadAvg;
use waitla::SampleEvent;
use waitla::WaitAction;
use waitla::WaitConfig;
use waitla::WaitEvent;
use waitla::WaitState;
use waitla::absorb_sample_failure;
use waitla::default_threshold;
use waitla::must_wait;
use waitla::parse_u64;
use waitla::run_script;
use waitla::threshold_for_cpus;
use waitla::wait_step;

fn load(v: f64) -> LoadAvg {
    LoadAvg::from_milli((v * 1000.0) as i64)
}

#[test]
fn test_must_wait() {
    assert_eq!(must_wait(load(4.0), false, 5, load(6.0), 4), true);
    assert_eq!(must_wait(load(7.0), false, 5, load(6.0), 4), false);
    assert_eq!(must_wait(load(4.0), true, 5, load(6.0), 4), false);
    assert_eq!(must_wait(load(7.0), true, 5, load(6.0), 4), true);
    assert_eq!(must_wait(load(4.0), false, 3, load(6.0), 4), false);
    assert_eq!(must_wait(load(7.0), false, 3, load(6.0), 4), false);
    assert_eq!(must_wait(load(4.0), true, 3, load(6.0), 4), false);
    assert_eq!(must_wait(load(7.0), true, 3, load(6.0), 4), false);
}

#[test]
fn equal_sample_stops_both_directions() {
    assert_eq!(must_wait(load(2.5), false, 100, load(2.5), 0), false);
    assert_eq!(must_wait(load(2.5), true, 100, load(2.5), 0), false);
}

#[test]
fn elapsed_at_budget_stops() {
    assert_eq!(must_wait(load(1.0), false, 10, load(9.0), 10), false);
    assert_eq!(must_wait(load(9.0), true, 10, load(1.0), 10), false);
    assert_eq!(must_wait(load(1.0), false, 0, load(9.0), 0), false);
}

#[test]
fn unbounded_budget_keeps_waiting() {
    assert_eq!(must_wait(load(1.0), false, u64::MAX, load(9.0), u64::MAX - 1), true);
}

#[test]
fn parse_plain_numbers() {
    assert_eq!(parse_u64(b"0"), Some(0));
    assert_eq!(parse_u64(b"1000"), Some(1000));
    assert_eq!(parse_u64(b"007"), Some(7));
    assert_eq!(parse_u64(b"18446744073709551615"), Some(u64::MAX));
}

#[test]
fn parse_with_plus_sign() {
    assert_eq!(parse_u64(b"+5"), Some(5));
    assert_eq!(parse_u64(b"+0"), Some(0));
}

#[test]
fn parse_rejects_malformed_text() {
    assert_eq!(parse_u64(b""), None);
    assert_eq!(parse_u64(b"+"), None);
    assert_eq!(parse_u64(b"-3"), None);
    assert_eq!(parse_u64(b"12a"), None);
    assert_eq!(parse_u64(b" 12"), None);
    assert_eq!(parse_u64(b"1.5"), None);
}

#[test]
fn parse_rejects_overflow() {
    assert_eq!(parse_u64(b"18446744073709551616"), None);
    assert_eq!(parse_u64(b"99999999999999999999999"), None);
}

#[test]
fn step_leaves_delay_for_polling() {
    let cfg = WaitConfig::new(load(4.0), false, 250, 60, 7);
    let (state, action) = wait_step(&cfg, WaitState::Delaying, WaitEvent::Started);
    assert_eq!(state, WaitState::Polling);
    assert_eq!(action, WaitAction::DelaySecs(7));
}

#[test]
fn step_keeps_polling_while_load_high() {
    let cfg = WaitConfig::new(load(4.0), false, 250, 60, 0);
    let event = WaitEvent::Sampled { load: load(6.0), elapsed_secs: 10 };
    let (state, action) = wait_step(&cfg, WaitState::Polling, event);
    assert_eq!(state, WaitState::Polling);
    assert_eq!(action, WaitAction::SleepMillis(250));
}

#[test]
fn step_finishes_once_load_drops() {
    let cfg = WaitConfig::new(load(4.0), false, 250, 60, 0);
    let event = WaitEvent::Sampled { load: load(3.0), elapsed_secs: 10 };
    let (state, action) = wait_step(&cfg, WaitState::Polling, event);
    assert_eq!(state, WaitState::Done);
    assert_eq!(action, WaitAction::Exit);
}

#[test]
fn step_finishes_once_budget_spent() {
    let cfg = WaitConfig::new(load(4.0), false, 250, 60, 0);
    let event = WaitEvent::Sampled { load: load(6.0), elapsed_secs: 60 };
    let (state, action) = wait_step(&cfg, WaitState::Polling, event);
    assert_eq!(state, WaitState::Done);
    assert_eq!(action, WaitAction::Exit);
}

#[test]
fn script_one_sleep_between_consecutive_samples() {
    let cfg = WaitConfig::new(load(4.0), false, 100, 1000, 0);
    let script = vec![
        SampleEvent { load: load(6.0), elapsed_secs: 0 },
        SampleEvent { load: load(5.5), elapsed_secs: 1 },
        SampleEvent { load: load(4.5), elapsed_secs: 2 },
        SampleEvent { load: load(3.0), elapsed_secs: 3 },
        SampleEvent { load: load(9.0), elapsed_secs: 4 },
    ];
    let r = run_script(&cfg, &script);
    assert_eq!(r.samples_consumed, 4);
    assert_eq!(r.sleeps, 3);
    assert!(r.finished);
}

#[test]
fn script_single_satisfied_sample() {
    let cfg = WaitConfig::new(load(4.0), false, 100, 1000, 0);
    let script = vec![SampleEvent { load: load(2.0), elapsed_secs: 0 }];
    let r = run_script(&cfg, &script);
    assert_eq!(r.samples_consumed, 1);
    assert_eq!(r.sleeps, 0);
    assert!(r.finished);
}

#[test]
fn script_exhausted_while_still_waiting() {
    let cfg = WaitConfig::new(load(4.0), false, 100, 1000, 0);
    let script = vec![
        SampleEvent { load: load(6.0), elapsed_secs: 0 },
        SampleEvent { load: load(7.0), elapsed_secs: 1 },
    ];
    let r = run_script(&cfg, &script);
    assert_eq!(r.samples_consumed, 2);
    assert_eq!(r.sleeps, 1);
    assert!(!r.finished);
}

#[test]
fn script_reverse_waits_for_rise() {
    let cfg = WaitConfig::new(load(4.0), true, 100, 1000, 0);
    let script = vec![
        SampleEvent { load: load(1.0), elapsed_secs: 0 },
        SampleEvent { load: load(2.0), elapsed_secs: 1 },
        SampleEvent { load: load(5.0), elapsed_secs: 2 },
    ];
    let r = run_script(&cfg, &script);
    assert_eq!(r.samples_consumed, 3);
    assert_eq!(r.sleeps, 2);
    assert!(r.finished);
}

#[test]
fn script_budget_ends_wait_despite_high_load() {
    let cfg = WaitConfig::new(load(4.0), false, 100, 2, 0);
    let script = vec![
        SampleEvent { load: load(6.0), elapsed_secs: 0 },
        SampleEvent { load: load(6.0), elapsed_secs: 1 },
        SampleEvent { load: load(6.0), elapsed_secs: 2 },
        SampleEvent { load: load(6.0), elapsed_secs: 3 },
    ];
    let r = run_script(&cfg, &script);
    assert_eq!(r.samples_consumed, 3);
    assert_eq!(r.sleeps, 2);
    assert!(r.finished);
}

#[test]
fn failed_reading_degrades_to_zero() {
    assert_eq!(absorb_sample_failure(None), LoadAvg::from_milli(0));
    assert_eq!(absorb_sample_failure(Some(load(2.5))), load(2.5));
}

#[test]
fn default_threshold_is_at_least_one_cpu() {
    let t = default_threshold();
    assert!(t.milli >= 1000);
    assert_eq!(t.milli % 1000, 0);
    assert_eq!(t, threshold_for_cpus(num_cpus::get()));
}

#[test]
fn threshold_for_cpu_counts() {
    assert_eq!(threshold_for_cpus(1).milli, 1000);
    assert_eq!(threshold_for_cpus(4).milli, 4000);
    assert_eq!(threshold_for_cpus(usize::MAX).milli, i64::MAX);
}

#[test]
fn config_keeps_the_given_values() {
    let cfg = WaitConfig::new(load(2.0), true, 500, 30, 5);
    assert_eq!(cfg.threshold, load(2.0));
    assert!(cfg.reverse);
    assert_eq!(cfg.sleep_millis, 500);
    assert_eq!(cfg.max_time, 30);
    assert_eq!(cfg.min_time, 5);
}
