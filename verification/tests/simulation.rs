use keypace::config::{SimError, SimulationConfig};
use keypace::dispatch::{run_scripted, Run};
use keypace::timing::{delay_micros_for_rate, DELAY_NUMER_MICROS, RATE_CEIL_MILLI, RATE_FLOOR_MILLI};

fn config(mean_rate_milli: i64, variability_milli: i64, ignore_errors: bool) -> SimulationConfig {
    SimulationConfig::new(mean_rate_milli, variability_milli, ignore_errors).unwrap()
}

#[test]
fn config_accepts_valid_parameters() {
    let cfg = config(5000, 250, true);
    assert_eq!(cfg.mean_rate_milli, 5000);
    assert_eq!(cfg.variability_milli, 250);
    assert!(cfg.ignore_errors);
}

#[test]
fn config_rejects_negative_variability() {
    let r = SimulationConfig::new(5000, -1, false);
    assert_eq!(r, Err(SimError::InvalidConfig));
}

#[test]
fn config_rejects_non_positive_mean_rate() {
    assert_eq!(SimulationConfig::new(0, 0, false), Err(SimError::InvalidConfig));
    assert_eq!(SimulationConfig::new(-5000, 0, true), Err(SimError::InvalidConfig));
}

#[test]
fn error_variants_are_distinct() {
    assert_ne!(SimError::BackendInit, SimError::InvalidConfig);
    assert_ne!(SimError::BackendInit, SimError::Send { index: 0 });
    assert_ne!(SimError::Send { index: 0 }, SimError::Send { index: 1 });
}

#[test]
fn delay_is_exact_reciprocal_of_rate() {
    // five characters per second wait a fifth of a second
    assert_eq!(delay_micros_for_rate(5000), 200_000);
    // one character per second waits one second
    assert_eq!(delay_micros_for_rate(1000), 1_000_000);
    // two hundred characters per second wait five milliseconds
    assert_eq!(delay_micros_for_rate(200_000), 5_000);
}

#[test]
fn delay_clamps_a_zero_rate_to_the_floor() {
    assert_eq!(delay_micros_for_rate(0), DELAY_NUMER_MICROS);
    assert_eq!(delay_micros_for_rate(RATE_FLOOR_MILLI), DELAY_NUMER_MICROS);
}

#[test]
fn delay_clamps_a_huge_rate_to_the_ceiling() {
    assert_eq!(delay_micros_for_rate(RATE_CEIL_MILLI), 1);
    assert_eq!(delay_micros_for_rate(u64::MAX), 1);
}

#[test]
fn delay_is_finite_and_strictly_positive_for_every_rate() {
    let rates = [0, 1, 2, 999, 1000, 5000, 123_456, RATE_CEIL_MILLI, RATE_CEIL_MILLI + 1, u64::MAX];
    for &rate in rates.iter() {
        let d = delay_micros_for_rate(rate);
        assert!(d >= 1);
        assert!(d <= DELAY_NUMER_MICROS);
    }
}

#[test]
fn tolerant_run_attempts_every_character() {
    let cfg = config(5000, 0, true);
    let outcomes = vec![true, false, false, true];
    let (sends, result) = run_scripted(cfg, "abcd", &outcomes);
    assert_eq!(sends, 4);
    assert_eq!(result, Ok(()));
}

#[test]
fn strict_run_stops_at_first_failure() {
    let cfg = config(5000, 0, false);
    let outcomes = vec![true, true, false, true, true];
    let (sends, result) = run_scripted(cfg, "abcde", &outcomes);
    assert_eq!(sends, 3);
    assert_eq!(result, Err(SimError::Send { index: 2 }));
}

#[test]
fn empty_input_sends_nothing_and_succeeds() {
    let cfg = config(5000, 0, false);
    let outcomes: Vec<bool> = vec![];
    let (sends, result) = run_scripted(cfg, "", &outcomes);
    assert_eq!(sends, 0);
    assert_eq!(result, Ok(()));
}

#[test]
fn run_yields_characters_in_order() {
    let cfg = config(5000, 0, false);
    let mut run = Run::new(cfg, "xyz");
    assert_eq!(run.current_char(), Some('x'));
    assert_eq!(run.record_send(true), None);
    assert_eq!(run.current_char(), Some('y'));
    assert_eq!(run.record_send(true), None);
    assert_eq!(run.current_char(), Some('z'));
    assert_eq!(run.record_send(true), None);
    assert_eq!(run.current_char(), None);
    assert_eq!(run.sends_attempted(), 3);
    assert!(!run.is_aborted());
}

#[test]
fn scenario_two_characters_both_sends_succeed() {
    // meanRate 5.0 chars/s, no variability, strict policy, input "ab":
    // each character is preceded by a 0.2 second wait and the run succeeds.
    let cfg = config(5000, 0, false);
    let mut run = Run::new(cfg, "ab");

    assert_eq!(run.current_char(), Some('a'));
    assert_eq!(delay_micros_for_rate(cfg.mean_rate_milli), 200_000);
    assert_eq!(run.record_send(true), None);

    assert_eq!(run.current_char(), Some('b'));
    assert_eq!(delay_micros_for_rate(cfg.mean_rate_milli), 200_000);
    assert_eq!(run.record_send(true), None);

    assert_eq!(run.current_char(), None);
    assert_eq!(run.sends_attempted(), 2);
    assert!(!run.is_aborted());

    let (sends, result) = run_scripted(cfg, "ab", &vec![true, true]);
    assert_eq!(sends, 2);
    assert_eq!(result, Ok(()));
}

#[test]
fn scenario_two_characters_second_send_fails() {
    // Both sends are attempted; the second one's failure is the run's
    // terminal outcome, and there is no third attempt.
    let cfg = config(5000, 0, false);
    let mut run = Run::new(cfg, "ab");

    assert_eq!(run.current_char(), Some('a'));
    assert_eq!(run.record_send(true), None);
    assert_eq!(run.current_char(), Some('b'));
    assert_eq!(run.record_send(false), Some(SimError::Send { index: 1 }));
    assert_eq!(run.current_char(), None);
    assert_eq!(run.sends_attempted(), 2);
    assert!(run.is_aborted());

    let (sends, result) = run_scripted(cfg, "ab", &vec![true, false]);
    assert_eq!(sends, 2);
    assert_eq!(result, Err(SimError::Send { index: 1 }));
}
