use smart_shift::ime::{
    IME_CMODE_NATIVE, InputMode, ime_conversion_status_for_mode, ime_mode_from_readings,
    ime_open_status_for_mode, input_mode_from_conversion_status, input_mode_from_open_status,
    merge_conversion_mode, resolve_ime_target_hwnd,
};
use smart_shift::ime_switch::{
    ImeWriteFailure, ImeWriteSequence, ImeWriteStep, ImeWriteStrategy, write_failure_message,
};

#[test]
fn chinese_mode_opens_ime() {
    assert!(ime_open_status_for_mode(InputMode::Chinese));
}

#[test]
fn english_mode_closes_ime() {
    assert!(!ime_open_status_for_mode(InputMode::English));
}

#[test]
fn chinese_mode_sets_native_conversion() {
    assert_eq!(ime_conversion_status_for_mode(InputMode::Chinese), IME_CMODE_NATIVE);
}

#[test]
fn english_mode_clears_native_conversion() {
    assert_eq!(ime_conversion_status_for_mode(InputMode::English), 0);
}

#[test]
fn open_status_true_maps_to_chinese_mode() {
    assert_eq!(input_mode_from_open_status(true), InputMode::Chinese);
}

#[test]
fn open_status_false_maps_to_english_mode() {
    assert_eq!(input_mode_from_open_status(false), InputMode::English);
}

#[test]
fn native_conversion_maps_to_chinese_mode() {
    assert_eq!(input_mode_from_conversion_status(IME_CMODE_NATIVE), InputMode::Chinese);
}

#[test]
fn non_native_conversion_maps_to_english_mode() {
    assert_eq!(input_mode_from_conversion_status(0), InputMode::English);
}

#[test]
fn ime_target_prefers_focus_hwnd() {
    assert_eq!(resolve_ime_target_hwnd(1, 2), 2);
}

#[test]
fn ime_target_falls_back_to_foreground_hwnd() {
    assert_eq!(resolve_ime_target_hwnd(1, 0), 1);
}

#[test]
fn written_mode_reads_back() {
    for mode in [InputMode::Chinese, InputMode::English] {
        assert_eq!(input_mode_from_open_status(ime_open_status_for_mode(mode)), mode);
        assert_eq!(
            input_mode_from_conversion_status(ime_conversion_status_for_mode(mode)),
            mode
        );
        let merged = merge_conversion_mode(0x0018, ime_conversion_status_for_mode(mode));
        assert_eq!(input_mode_from_conversion_status(merged), mode);
    }
}

#[test]
fn merge_keeps_other_conversion_bits() {
    assert_eq!(merge_conversion_mode(0x0018, IME_CMODE_NATIVE), 0x0019);
    assert_eq!(merge_conversion_mode(0x0019, 0), 0x0018);
    assert_eq!(merge_conversion_mode(0xFFFF_FFFF, 0xFFFF_FFFE), 0xFFFF_FFFE);
}

#[test]
fn reading_the_mode() {
    assert_eq!(ime_mode_from_readings(false, Some(IME_CMODE_NATIVE)), InputMode::English);
    assert_eq!(ime_mode_from_readings(true, Some(IME_CMODE_NATIVE)), InputMode::Chinese);
    assert_eq!(ime_mode_from_readings(true, Some(0x0008)), InputMode::English);
    assert_eq!(ime_mode_from_readings(true, None), InputMode::Chinese);
}

#[test]
fn switch_stops_at_first_confirmed_write() {
    let mut sequence = ImeWriteSequence::new();
    assert_eq!(sequence.current(), ImeWriteStrategy::ContextOpenStatus);
    assert_eq!(
        sequence.advance(Err("ImmGetContext returned null".to_string()), false),
        ImeWriteStep::Try(ImeWriteStrategy::DefaultWindowConversion)
    );
    let write = Ok(());
    assert!(sequence.needs_verification(&write));
    assert_eq!(sequence.advance(write, true), ImeWriteStep::Done(Ok(())));
}

#[test]
fn switch_tries_every_strategy_in_order() {
    let mut sequence = ImeWriteSequence::new();
    assert_eq!(
        sequence.advance(Ok(()), false),
        ImeWriteStep::Try(ImeWriteStrategy::DefaultWindowConversion)
    );
    assert_eq!(
        sequence.advance(Err("first".to_string()), false),
        ImeWriteStep::Try(ImeWriteStrategy::ContextConversion)
    );
    assert_eq!(
        sequence.advance(Err("second".to_string()), false),
        ImeWriteStep::Try(ImeWriteStrategy::DefaultWindowOpenStatus)
    );
    let last = Err("third".to_string());
    assert!(sequence.needs_verification(&last));
    assert_eq!(
        sequence.advance(last, false),
        ImeWriteStep::Done(Err(ImeWriteFailure::WriteFailed {
            error: "third".to_string(),
            previous_error: Some("second".to_string()),
        }))
    );
}

#[test]
fn last_strategy_confirmed_despite_write_error() {
    let mut sequence = ImeWriteSequence::new();
    for _ in 0..3 {
        let _ = sequence.advance(Ok(()), false);
    }
    assert_eq!(sequence.current(), ImeWriteStrategy::DefaultWindowOpenStatus);
    assert_eq!(sequence.advance(Err("x".to_string()), true), ImeWriteStep::Done(Ok(())));
}

#[test]
fn last_write_unverified() {
    let mut sequence = ImeWriteSequence::new();
    for _ in 0..3 {
        let _ = sequence.advance(Ok(()), false);
    }
    assert!(sequence.needs_verification(&Err("x".to_string())));
    assert_eq!(
        sequence.advance(Ok(()), false),
        ImeWriteStep::Done(Err(ImeWriteFailure::VerificationFailed))
    );
}

#[test]
fn failure_messages() {
    assert_eq!(write_failure_message("boom", None), "boom");
    assert_eq!(
        write_failure_message("boom", Some(&"earlier".to_string())),
        "boom; previous_error=earlier"
    );
}
