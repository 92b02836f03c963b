use smart_shift::app::{AppError, ApplyOutcome, CliArgs, RunPlan, maybe_apply_mode, plan_run};
use smart_shift::classifier::DecisionReason;
use smart_shift::ime::InputMode;
use smart_shift::numbers::{parse_u64, parse_usize, push_decimal};

fn no_switch(_mode: InputMode) -> Result<(), String> {
    panic!("the IME must not be written")
}

fn args(list: &[&str]) -> Vec<String> {
    list.iter().map(|s| s.to_string()).collect()
}

#[test]
fn skips_apply_when_mode_already_matches() {
    let outcome = maybe_apply_mode(no_switch, Some(InputMode::Chinese), InputMode::Chinese);

    assert_eq!(outcome, Ok(ApplyOutcome::SkippedAlreadyMatched));
}

#[test]
fn skips_apply_when_current_mode_is_unknown() {
    let outcome = maybe_apply_mode(no_switch, None, InputMode::English);

    assert_eq!(outcome, Ok(ApplyOutcome::SkippedUnknownCurrentMode));
}

#[test]
fn applies_when_mode_differs() {
    assert_eq!(
        maybe_apply_mode(|_| Ok(()), Some(InputMode::English), InputMode::Chinese),
        Ok(ApplyOutcome::Applied)
    );
    assert_eq!(
        maybe_apply_mode(|_| Err("no".to_string()), Some(InputMode::English), InputMode::Chinese),
        Err("no".to_string())
    );
    assert_eq!(ApplyOutcome::Applied.report(), (true, "mode_changed"));
    assert_eq!(ApplyOutcome::SkippedAlreadyMatched.report(), (false, "already_matched"));
    assert_eq!(
        ApplyOutcome::SkippedUnknownCurrentMode.report(),
        (false, "current_mode_unknown")
    );
}

#[test]
fn parses_command_line() {
    let parsed = CliArgs::from_args(&args(&["--line", "hello 中文", "--cursor", "6", "--apply"]));
    assert_eq!(parsed.line, "hello 中文");
    assert_eq!(parsed.cursor, 6);
    assert!(parsed.apply);
    assert!(!parsed.listen);
    assert!(!parsed.watch);
    assert!(!parsed.debug);
    assert_eq!(parsed.interval_ms, 250);

    let parsed = CliArgs::from_args(&args(&["--listen", "--interval-ms", "150", "--bogus"]));
    assert!(parsed.listen);
    assert_eq!(parsed.interval_ms, 150);
    assert_eq!(parsed.line, "");
}

#[test]
fn parses_watch_and_debug() {
    let parsed = CliArgs::from_args(&args(&["--watch", "--debug", "--interval-ms", "150"]));
    assert!(parsed.watch);
    assert!(parsed.debug);
    assert!(!parsed.listen);
    assert_eq!(parsed.interval_ms, 150);
    assert_eq!(parsed.line, "");

    let parsed = CliArgs::from_args(&args(&["--watch"]));
    assert!(parsed.watch);
    assert!(!parsed.debug);
}

#[test]
fn bad_numbers_fall_back() {
    let parsed = CliArgs::from_args(&args(&["--cursor", "-1", "--interval-ms", "fast"]));
    assert_eq!(parsed.cursor, 0);
    assert_eq!(parsed.interval_ms, 250);
    let parsed = CliArgs::from_args(&args(&["--interval-ms"]));
    assert_eq!(parsed.interval_ms, 250);
    let parsed = CliArgs::from_args(&args(&["--line", "--apply"]));
    assert_eq!(parsed.line, "--apply");
    assert!(!parsed.apply);
}

#[test]
fn number_parsing_matches_std() {
    for s in ["0", "42", "+7", "", "+", "-1", "1a", " 1", "18446744073709551615", "18446744073709551616", "007"] {
        assert_eq!(parse_u64(s), s.parse::<u64>().ok(), "{s:?}");
        assert_eq!(parse_usize(s), s.parse::<usize>().ok(), "{s:?}");
    }
}

#[test]
fn decimal_formatting_matches_std() {
    for n in [0u64, 9, 10, 1234, u64::MAX] {
        let mut s = String::from("x");
        push_decimal(&mut s, n);
        assert_eq!(s, format!("x{n}"));
    }
}

#[test]
fn run_plans() {
    let listen = plan_run(CliArgs::from_args(&args(&["--interval-ms", "100"]))).unwrap();
    assert!(matches!(listen, RunPlan::Listen { interval_ms: 100, debug: false }));

    let watch = plan_run(CliArgs::from_args(&args(&[
        "--line", "abc", "--watch", "--debug", "--interval-ms", "150",
    ])))
    .unwrap();
    assert!(matches!(watch, RunPlan::Listen { interval_ms: 150, debug: true }));

    match plan_run(CliArgs::from_args(&args(&["--line", "hello 中文", "--cursor", "6"]))).unwrap() {
        RunPlan::OneShot { context, decision, apply } => {
            assert_eq!(context.cursor(), 6);
            assert_eq!(decision.mode, InputMode::Chinese);
            assert_eq!(decision.reason, DecisionReason::CurrentCharChinese);
            assert!(!apply);
        }
        RunPlan::Listen { .. } => panic!("expected a one-shot run"),
    }

    let err = plan_run(CliArgs::from_args(&args(&["--line", "abc", "--cursor", "9"])));
    assert_eq!(err.err(), Some(AppError::InvalidCursor { cursor: 9, text_len: 3 }));
}

#[test]
fn error_messages() {
    assert_eq!(AppError::MissingLine.to_string(), "missing required argument: --line");
    assert_eq!(
        AppError::InvalidCursor { cursor: 9, text_len: 3 }.to_string(),
        "cursor 9 is out of bounds for text length 3"
    );
    assert_eq!(AppError::Platform("boom".to_string()).to_string(), "boom");
}

#[test]
fn decimal_text_reads_back() {
    for n in [0u64, 5, 10, 99, 1_000_000, u64::MAX] {
        let mut s = String::new();
        push_decimal(&mut s, n);
        assert_eq!(parse_u64(&s), Some(n));
    }
}
