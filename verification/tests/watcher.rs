use smart_shift::classifier::DecisionReason;
use smart_shift::ime::InputMode;
use smart_shift::watcher::{
    ForegroundSnapshot, ForegroundWatcher, SnapshotPlan, SnapshotTransition, TextReadAttempt,
    TextReadResult, TextSnapshot, TextSource, WatcherAction, WatcherState, WatcherSwitchOutcome,
    classify_snapshot, classify_snapshot_transition_with_state, format_mode,
    looks_like_newline_followup, looks_like_text_edit, maybe_switch_watcher_mode, plan_snapshot,
    should_preserve_current_mode, switch_color, COLOR_CYAN, COLOR_GREEN, COLOR_YELLOW,
    STYLE_RESET,
};

fn snapshot(line_text: &str) -> ForegroundSnapshot {
    ForegroundSnapshot {
        foreground_hwnd: 1,
        foreground_title: "title".to_string(),
        process_name: "smart-shift-tests.exe".to_string(),
        thread_id: 1,
        focus_hwnd: 2,
        focus_class: "Edit".to_string(),
        ime_mode: Some(InputMode::English),
        ime_error: None,
        caret_hwnd: 3,
        caret_left: 10,
        caret_top: 20,
        caret_right: 11,
        caret_bottom: 30,
        text_snapshot: TextSnapshot {
            source: TextSource::Win32Edit,
            document_len_utf16: line_text.encode_utf16().count(),
            selection_start_utf16: 0,
            selection_end_utf16: 0,
            line_index: 0,
            line_cursor_utf16: 0,
            line_cursor_chars: 0,
            line_text: line_text.to_string(),
            attempts: Vec::<TextReadAttempt>::new(),
        },
    }
}

fn uia_snapshot(line_text: &str) -> ForegroundSnapshot {
    let mut snapshot = snapshot(line_text);
    snapshot.text_snapshot.source = TextSource::UiaTextPattern;
    snapshot
}

fn no_switch(_mode: InputMode) -> Result<(), String> {
    panic!("the IME must not be written")
}

#[test]
fn ignores_plain_text_changes() {
    let previous = snapshot("abc");
    let mut current = snapshot("abcd");
    current.text_snapshot.selection_start_utf16 = 1;
    current.text_snapshot.selection_end_utf16 = 1;
    current.text_snapshot.line_cursor_utf16 = 1;
    current.text_snapshot.line_cursor_chars = 1;
    current.caret_left = 20;
    current.caret_right = 21;

    assert_eq!(
        classify_snapshot_transition_with_state(Some(&previous), &current, false),
        SnapshotTransition::SuppressedTextEdit
    );
}

#[test]
fn emits_for_cursor_move_without_text_change() {
    let previous = snapshot("abc");
    let mut current = snapshot("abc");
    current.text_snapshot.selection_start_utf16 = 1;
    current.text_snapshot.selection_end_utf16 = 1;
    current.text_snapshot.line_cursor_utf16 = 1;
    current.text_snapshot.line_cursor_chars = 1;
    current.caret_left = 20;
    current.caret_right = 21;

    assert_eq!(
        classify_snapshot_transition_with_state(Some(&previous), &current, false),
        SnapshotTransition::Emit
    );
}

#[test]
fn emits_for_focus_change() {
    let previous = snapshot("abc");
    let mut current = snapshot("xyz");
    current.focus_hwnd = 99;

    assert_eq!(
        classify_snapshot_transition_with_state(Some(&previous), &current, false),
        SnapshotTransition::Emit
    );
}

#[test]
fn ignores_ime_mode_change_without_relocation() {
    let previous = snapshot("abc");
    let mut current = snapshot("abc");
    current.ime_mode = Some(InputMode::Chinese);

    assert_eq!(
        classify_snapshot_transition_with_state(Some(&previous), &current, false),
        SnapshotTransition::Ignore
    );
}

#[test]
fn ignores_ime_error_change_without_relocation() {
    let previous = snapshot("abc");
    let mut current = snapshot("abc");
    current.ime_mode = None;
    current.ime_error = Some("ImmGetContext returned null".to_string());

    assert_eq!(
        classify_snapshot_transition_with_state(Some(&previous), &current, false),
        SnapshotTransition::Ignore
    );
}

#[test]
fn emits_cursor_move_after_suppressed_text_change_when_baseline_updates() {
    let previous = snapshot("abc");
    let mut typed = snapshot("abcd");
    typed.text_snapshot.selection_start_utf16 = 1;
    typed.text_snapshot.selection_end_utf16 = 1;
    typed.text_snapshot.line_cursor_utf16 = 1;
    typed.text_snapshot.line_cursor_chars = 1;
    assert_eq!(
        classify_snapshot_transition_with_state(Some(&previous), &typed, false),
        SnapshotTransition::SuppressedTextEdit
    );

    let mut moved = typed.clone();
    moved.text_snapshot.selection_start_utf16 = 2;
    moved.text_snapshot.selection_end_utf16 = 2;
    moved.text_snapshot.line_cursor_utf16 = 2;
    moved.text_snapshot.line_cursor_chars = 2;
    moved.caret_left = 30;
    moved.caret_right = 31;

    assert_eq!(
        classify_snapshot_transition_with_state(Some(&typed), &moved, false),
        SnapshotTransition::Emit
    );
}

#[test]
fn emits_when_cursor_moves_to_another_line_with_different_text() {
    let previous = snapshot("first line");
    let mut current = snapshot("second line");
    current.text_snapshot.document_len_utf16 = previous.text_snapshot.document_len_utf16;
    current.text_snapshot.line_index = 1;
    current.text_snapshot.selection_start_utf16 = 3;
    current.text_snapshot.selection_end_utf16 = 3;
    current.text_snapshot.line_cursor_utf16 = 3;
    current.text_snapshot.line_cursor_chars = 3;
    current.caret_top = 40;
    current.caret_bottom = 50;

    assert_eq!(
        classify_snapshot_transition_with_state(Some(&previous), &current, false),
        SnapshotTransition::Emit
    );
}

#[test]
fn emits_for_wrapped_line_move_when_document_length_is_unchanged() {
    let previous = snapshot("wrapped line segment a");
    let mut current = snapshot("wrapped line segment b");
    current.text_snapshot.selection_start_utf16 = 124;
    current.text_snapshot.selection_end_utf16 = 124;
    current.text_snapshot.line_cursor_utf16 = 54;
    current.text_snapshot.line_cursor_chars = 54;
    current.text_snapshot.document_len_utf16 = previous.text_snapshot.document_len_utf16;

    let mut previous = previous;
    previous.text_snapshot.selection_start_utf16 = 122;
    previous.text_snapshot.selection_end_utf16 = 122;
    previous.text_snapshot.line_cursor_utf16 = 52;
    previous.text_snapshot.line_cursor_chars = 52;

    assert_eq!(
        classify_snapshot_transition_with_state(Some(&previous), &current, false),
        SnapshotTransition::Emit
    );
}

#[test]
fn still_ignores_same_line_text_edits() {
    let previous = snapshot("abc");
    let mut current = snapshot("abcd");
    current.text_snapshot.selection_start_utf16 = 4;
    current.text_snapshot.selection_end_utf16 = 4;
    current.text_snapshot.line_cursor_utf16 = 4;
    current.text_snapshot.line_cursor_chars = 4;
    current.caret_left = 40;
    current.caret_right = 41;

    assert_eq!(
        classify_snapshot_transition_with_state(Some(&previous), &current, false),
        SnapshotTransition::Ignore
    );
}

#[test]
fn emits_for_line_change_even_when_document_length_changes() {
    let previous = snapshot("first line");
    let mut current = snapshot("second line");
    current.text_snapshot.document_len_utf16 = previous.text_snapshot.document_len_utf16 + 1;
    current.text_snapshot.line_index = 1;
    current.text_snapshot.selection_start_utf16 = 11;
    current.text_snapshot.selection_end_utf16 = 11;
    current.text_snapshot.line_cursor_utf16 = 0;
    current.text_snapshot.line_cursor_chars = 0;
    current.caret_top = 40;
    current.caret_bottom = 50;

    assert_eq!(
        classify_snapshot_transition_with_state(Some(&previous), &current, false),
        SnapshotTransition::Emit
    );
}

#[test]
fn ignores_newline_text_edit_even_when_line_changes() {
    let mut previous = snapshot("first line");
    previous.text_snapshot.selection_start_utf16 = previous.text_snapshot.document_len_utf16;
    previous.text_snapshot.selection_end_utf16 = previous.text_snapshot.document_len_utf16;
    previous.text_snapshot.line_cursor_utf16 = previous.text_snapshot.document_len_utf16;
    previous.text_snapshot.line_cursor_chars = previous.text_snapshot.line_text.chars().count();

    let mut current = snapshot("");
    current.text_snapshot.document_len_utf16 = previous.text_snapshot.document_len_utf16 + 2;
    current.text_snapshot.line_index = 1;
    current.text_snapshot.selection_start_utf16 = previous.text_snapshot.document_len_utf16 + 2;
    current.text_snapshot.selection_end_utf16 = previous.text_snapshot.document_len_utf16 + 2;
    current.text_snapshot.line_cursor_utf16 = 0;
    current.text_snapshot.line_cursor_chars = 0;
    current.caret_top = 40;
    current.caret_bottom = 50;

    assert_eq!(
        classify_snapshot_transition_with_state(Some(&previous), &current, false),
        SnapshotTransition::SuppressedTextEdit
    );
}

#[test]
fn emits_uia_line_move_when_document_length_changes() {
    let previous = uia_snapshot("  ## PasteDrop");
    let mut current = uia_snapshot("publish to juejin, linux do, hello github, ruan");
    current.text_snapshot.document_len_utf16 = previous.text_snapshot.document_len_utf16 - 3;
    current.text_snapshot.line_index = 10;
    current.text_snapshot.selection_start_utf16 = 93;
    current.text_snapshot.selection_end_utf16 = 93;
    current.text_snapshot.line_cursor_utf16 = 6;
    current.text_snapshot.line_cursor_chars = 6;

    let mut previous = previous;
    previous.text_snapshot.line_index = 9;
    previous.text_snapshot.selection_start_utf16 = 84;
    previous.text_snapshot.selection_end_utf16 = 84;
    previous.text_snapshot.line_cursor_utf16 = 9;
    previous.text_snapshot.line_cursor_chars = 9;

    assert_eq!(
        classify_snapshot_transition_with_state(Some(&previous), &current, false),
        SnapshotTransition::Emit
    );
}

#[test]
fn still_ignores_uia_same_line_text_edits() {
    let previous = uia_snapshot("abc");
    let mut current = uia_snapshot("abcd");
    current.text_snapshot.selection_start_utf16 = 4;
    current.text_snapshot.selection_end_utf16 = 4;
    current.text_snapshot.line_cursor_utf16 = 4;
    current.text_snapshot.line_cursor_chars = 4;

    assert_eq!(
        classify_snapshot_transition_with_state(Some(&previous), &current, false),
        SnapshotTransition::Ignore
    );
}

#[test]
fn ignores_followup_cursor_move_after_newline_text_edit() {
    let mut previous = snapshot("让我测试看看");
    previous.text_snapshot.selection_start_utf16 = previous.text_snapshot.document_len_utf16;
    previous.text_snapshot.selection_end_utf16 = previous.text_snapshot.document_len_utf16;
    previous.text_snapshot.line_cursor_utf16 = previous.text_snapshot.document_len_utf16;
    previous.text_snapshot.line_cursor_chars = previous.text_snapshot.line_text.chars().count();

    let mut intermediate = previous.clone();
    intermediate.text_snapshot.document_len_utf16 += 2;

    assert_eq!(
        classify_snapshot_transition_with_state(Some(&previous), &intermediate, false),
        SnapshotTransition::Ignore
    );

    let mut current = snapshot("");
    current.text_snapshot.document_len_utf16 = intermediate.text_snapshot.document_len_utf16;
    current.text_snapshot.line_index = 1;
    current.text_snapshot.selection_start_utf16 = previous.text_snapshot.selection_start_utf16 + 2;
    current.text_snapshot.selection_end_utf16 = previous.text_snapshot.selection_end_utf16 + 2;
    current.text_snapshot.line_cursor_utf16 = 0;
    current.text_snapshot.line_cursor_chars = 0;
    current.caret_top = 40;
    current.caret_bottom = 50;

    assert_eq!(
        classify_snapshot_transition_with_state(Some(&intermediate), &current, true),
        SnapshotTransition::Ignore
    );
}

#[test]
fn classifies_supported_snapshot_line() {
    let mut snapshot = snapshot("hello world");
    snapshot.text_snapshot.line_cursor_chars = 1;

    let decision = classify_snapshot(&snapshot.text_snapshot).unwrap();

    assert_eq!(decision.mode, InputMode::English);
}

#[test]
fn reports_unavailable_classification_for_invalid_cursor() {
    let mut snapshot = snapshot("abc");
    snapshot.text_snapshot.line_cursor_chars = 4;

    assert_eq!(classify_snapshot(&snapshot.text_snapshot), Err((4, 3)));
}

#[test]
fn preserves_mode_for_blank_default_english_line() {
    let snapshot = snapshot("");
    let decision = classify_snapshot(&snapshot.text_snapshot).unwrap();

    assert_eq!(decision.reason, DecisionReason::DefaultEnglish);
    assert!(should_preserve_current_mode(&snapshot.text_snapshot, &decision));
}

#[test]
fn preserves_mode_for_uia_placeholder_only_default_english_line() {
    let snapshot = uia_snapshot("## --- []");
    let decision = classify_snapshot(&snapshot.text_snapshot).unwrap();

    assert_eq!(decision.reason, DecisionReason::DefaultEnglish);
    assert!(should_preserve_current_mode(&snapshot.text_snapshot, &decision));
}

#[test]
fn does_not_preserve_mode_for_win32_placeholder_only_default_english_line() {
    let snapshot = snapshot("## --- []");
    let decision = classify_snapshot(&snapshot.text_snapshot).unwrap();

    assert_eq!(decision.reason, DecisionReason::DefaultEnglish);
    assert!(!should_preserve_current_mode(&snapshot.text_snapshot, &decision));
}

#[test]
fn does_not_preserve_mode_for_non_blank_line() {
    let mut snapshot = snapshot("hello world");
    snapshot.text_snapshot.line_cursor_chars = 1;
    let decision = classify_snapshot(&snapshot.text_snapshot).unwrap();

    assert!(!should_preserve_current_mode(&snapshot.text_snapshot, &decision));
}

#[test]
fn watcher_skips_switch_when_mode_already_matches() {
    let outcome = maybe_switch_watcher_mode(no_switch, Some(InputMode::Chinese), InputMode::Chinese);

    assert_eq!(outcome, Ok(WatcherSwitchOutcome::SkippedAlreadyMatched));
}

#[test]
fn watcher_skips_switch_when_current_mode_is_unknown() {
    let outcome = maybe_switch_watcher_mode(no_switch, None, InputMode::English);

    assert_eq!(outcome, Ok(WatcherSwitchOutcome::SkippedUnknownCurrentMode));
}

#[test]
fn watcher_switches_when_mode_differs() {
    let mut asked = None;
    let outcome = maybe_switch_watcher_mode(
        |mode| {
            asked = Some(mode);
            Ok(())
        },
        Some(InputMode::English),
        InputMode::Chinese,
    );
    assert_eq!(outcome, Ok(WatcherSwitchOutcome::Applied));
    assert_eq!(asked, Some(InputMode::Chinese));

    let failed = maybe_switch_watcher_mode(
        |_| Err("ImmSetOpenStatus failed".to_string()),
        Some(InputMode::Chinese),
        InputMode::English,
    );
    assert_eq!(failed, Err("ImmSetOpenStatus failed".to_string()));
}

#[test]
fn first_snapshot_always_emits() {
    assert_eq!(
        classify_snapshot_transition_with_state(None, &snapshot("abc"), true),
        SnapshotTransition::Emit
    );
}

#[test]
fn source_change_emits() {
    let previous = snapshot("abc");
    let current = uia_snapshot("abc");
    assert_eq!(
        classify_snapshot_transition_with_state(Some(&previous), &current, false),
        SnapshotTransition::Emit
    );
}

#[test]
fn text_edit_shape_and_newline_followup() {
    let mut a = snapshot("abc").text_snapshot;
    a.selection_start_utf16 = 3;
    a.selection_end_utf16 = 3;
    a.line_cursor_utf16 = 3;
    a.line_cursor_chars = 3;
    let mut b = a.clone();
    b.document_len_utf16 = 1;
    b.selection_start_utf16 = 1;
    b.selection_end_utf16 = 1;
    assert!(looks_like_text_edit(&a, &b));
    b.selection_end_utf16 = 2;
    assert!(!looks_like_text_edit(&a, &b));

    let mut next = snapshot("  ").text_snapshot;
    next.line_index = 1;
    next.selection_start_utf16 = 4;
    next.selection_end_utf16 = 4;
    assert!(looks_like_newline_followup(&a, &next));
    next.line_text = "x".to_string();
    assert!(!looks_like_newline_followup(&a, &next));
}

#[test]
fn surrogate_line_end_counts_utf16_units() {
    // "a🙂" is 3 UTF-16 units but 2 characters
    let mut previous = snapshot("a🙂").text_snapshot;
    previous.line_cursor_utf16 = 3;
    previous.line_cursor_chars = 2;
    let mut next = snapshot("").text_snapshot;
    next.line_index = 1;
    assert!(looks_like_newline_followup(&previous, &next));
    previous.line_cursor_utf16 = 2;
    assert!(!looks_like_newline_followup(&previous, &next));
}

#[test]
fn plans_for_emitted_snapshots() {
    let mut unsupported = snapshot("abc");
    unsupported.text_snapshot.source = TextSource::Unsupported;
    assert_eq!(plan_snapshot(&unsupported), SnapshotPlan::TextUnsupported);

    let mut beyond = snapshot("abc");
    beyond.text_snapshot.line_cursor_chars = 9;
    assert_eq!(
        plan_snapshot(&beyond),
        SnapshotPlan::ClassificationUnavailable { cursor: 9, text_len: 3 }
    );

    let blank = snapshot("   ");
    assert!(matches!(plan_snapshot(&blank), SnapshotPlan::PreserveCurrentMode { .. }));

    let chinese = snapshot("中文");
    match plan_snapshot(&chinese) {
        SnapshotPlan::FollowDecision { decision } => assert_eq!(decision.mode, InputMode::Chinese),
        other => panic!("unexpected plan {other:?}"),
    }
}

#[test]
fn watcher_state_reports_and_warns_once() {
    let mut state = WatcherState::new();
    assert_eq!(state.observe(Ok(snapshot("abc"))), WatcherAction::Report);
    assert_eq!(state.observe(Ok(snapshot("abc"))), WatcherAction::Quiet);
    assert_eq!(
        state.observe(Err("GetForegroundWindow returned null".to_string())),
        WatcherAction::Warn("GetForegroundWindow returned null".to_string())
    );
    assert_eq!(
        state.observe(Err("GetForegroundWindow returned null".to_string())),
        WatcherAction::Quiet
    );
    assert_eq!(
        state.observe(Err("GetGUIThreadInfo failed".to_string())),
        WatcherAction::Warn("GetGUIThreadInfo failed".to_string())
    );
    assert!(state.last_snapshot.is_some());

    let mut typed = snapshot("abcd");
    typed.text_snapshot.selection_start_utf16 = 1;
    typed.text_snapshot.selection_end_utf16 = 1;
    typed.text_snapshot.line_cursor_utf16 = 1;
    typed.text_snapshot.line_cursor_chars = 1;
    assert_eq!(state.observe(Ok(typed)), WatcherAction::Quiet);
    assert!(state.suppressed_text_edit);
    assert!(state.last_error.is_none());
}

#[test]
fn watcher_interval_has_a_floor() {
    let watcher = ForegroundWatcher::new(10, true);
    assert_eq!(watcher.poll_interval_ms(), 50);
    assert!(watcher.is_debug());
    assert_eq!(ForegroundWatcher::new(150, false).poll_interval_ms(), 150);
}

#[test]
fn mode_formatting() {
    assert_eq!(
        format_mode(Some(InputMode::Chinese)),
        format!("{COLOR_GREEN}chinese{STYLE_RESET}")
    );
    assert_eq!(
        format_mode(Some(InputMode::English)),
        format!("{COLOR_CYAN}english{STYLE_RESET}")
    );
    assert_eq!(format_mode(None), format!("{COLOR_YELLOW}unknown{STYLE_RESET}"));
    assert_eq!(switch_color(WatcherSwitchOutcome::Applied), COLOR_GREEN);
    assert_eq!(switch_color(WatcherSwitchOutcome::SkippedUnknownCurrentMode), COLOR_YELLOW);
}

#[test]
fn text_sources_and_read_results() {
    assert_eq!(TextSource::UiaTextPattern.as_str(), "uia_text_pattern");
    assert_eq!(TextSource::Unsupported.as_str(), "unsupported");
    assert_eq!(TextReadResult::Failed("line_read_failed").as_str(), "line_read_failed");
    assert_eq!(TextReadResult::Unsupported("no_app_adapter").as_str(), "no_app_adapter");
}
