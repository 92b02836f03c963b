//! What the foreground watcher sees on each poll, and when a change in it is a
//! caret relocation worth reacting to rather than ordinary typing.
use vstd::prelude::*;
use crate::classifier::{
    CharKind, Decision, DecisionReason, char_kind_spec, classify, classify_spec,
    law_no_signal_defaults_to_english,
};
use crate::context::LineContext;
use crate::ime::InputMode;
use crate::text::{char_is_alphanumeric, char_is_whitespace, is_alphanumeric, is_whitespace, string_chars};
use crate::text::{is_blank, is_blank_spec, str_equals, utf16_count, utf16_len};

verus! {

/// Where the text of the focused control was read from.
#[derive(Debug, Clone, Copy, PartialEq, Eq, Structural)]
pub enum TextSource {
    /// A Win32 `Edit`/`RichEdit` control.
    Win32Edit,
    /// An application adapter (UI Automation with per-application cleanup).
    AppAdapter,
    /// UI Automation `TextPattern`.
    UiaTextPattern,
    /// No reader could read the control.
    Unsupported,
}

/// The label of a text source, as it is printed and logged.
pub open spec fn text_source_label(source: TextSource) -> Seq<char> {
    match source {
        TextSource::Win32Edit => "win32_edit"@,
        TextSource::AppAdapter => "app_adapter"@,
        TextSource::UiaTextPattern => "uia_text_pattern"@,
        TextSource::Unsupported => "unsupported"@,
    }
}

impl TextSource {
    /// The label of the source, such as `uia_text_pattern`.
    pub fn as_str(&self) -> (label: &'static str)
        ensures
            label@ == text_source_label(*self),
    {
        match self {
            TextSource::Win32Edit => "win32_edit",
            TextSource::AppAdapter => "app_adapter",
            TextSource::UiaTextPattern => "uia_text_pattern",
            TextSource::Unsupported => "unsupported",
        }
    }
}

/// Why one text reader did not produce a snapshot.
#[derive(Debug, Clone, PartialEq, Eq)]
pub enum TextReadResult {
    Unsupported(&'static str),
    Failed(&'static str),
}

impl TextReadResult {
    /// The reason carried by the result.
    pub fn as_str(&self) -> (reason: &'static str)
        ensures
            reason == (match self {
                TextReadResult::Unsupported(r) => *r,
                TextReadResult::Failed(r) => *r,
            }),
    {
        match self {
            TextReadResult::Unsupported(reason) => reason,
            TextReadResult::Failed(reason) => reason,
        }
    }
}

/// One failed attempt to read the focused control's text.
#[derive(Debug, Clone, PartialEq, Eq)]
pub struct TextReadAttempt {
    pub source: TextSource,
    pub result: TextReadResult,
}

/// The caret's line in the focused control, with positions in UTF-16 code
/// units and in characters.
#[derive(Debug, Clone, PartialEq, Eq)]
pub struct TextSnapshot {
    pub source: TextSource,
    pub document_len_utf16: usize,
    pub selection_start_utf16: usize,
    pub selection_end_utf16: usize,
    pub line_index: usize,
    pub line_cursor_utf16: usize,
    pub line_cursor_chars: usize,
    pub line_text: String,
    pub attempts: Vec<TextReadAttempt>,
}

/// Everything one poll of the foreground state captures.
#[derive(Debug, Clone, PartialEq, Eq)]
pub struct ForegroundSnapshot {
    pub foreground_hwnd: isize,
    pub foreground_title: String,
    pub process_name: String,
    pub thread_id: u32,
    pub focus_hwnd: isize,
    pub focus_class: String,
    pub ime_mode: Option<InputMode>,
    pub ime_error: Option<String>,
    pub caret_hwnd: isize,
    pub caret_left: i32,
    pub caret_top: i32,
    pub caret_right: i32,
    pub caret_bottom: i32,
    pub text_snapshot: TextSnapshot,
}

/// What the watcher does with a new snapshot.
#[derive(Debug, Clone, Copy, PartialEq, Eq, Structural)]
pub enum SnapshotTransition {
    /// The caret was relocated: classify the line and maybe switch.
    Emit,
    /// Nothing worth reacting to happened.
    Ignore,
    /// The text was edited (typing, deleting, committing): stay quiet, and
    /// treat the next poll as a possible follow-up of that edit.
    SuppressedTextEdit,
}

/// The foreground window, its title, the focused control or its class differ.
pub open spec fn window_changed(previous: ForegroundSnapshot, current: ForegroundSnapshot) -> bool {
    ||| previous.foreground_hwnd != current.foreground_hwnd
    ||| previous.foreground_title@ != current.foreground_title@
    ||| previous.focus_hwnd != current.focus_hwnd
    ||| previous.focus_class@ != current.focus_class@
}

/// The selection, the line or the caret's place in the line differ.
pub open spec fn cursor_changed(previous: TextSnapshot, current: TextSnapshot) -> bool {
    ||| previous.selection_start_utf16 != current.selection_start_utf16
    ||| previous.selection_end_utf16 != current.selection_end_utf16
    ||| previous.line_index != current.line_index
    ||| previous.line_cursor_utf16 != current.line_cursor_utf16
    ||| previous.line_cursor_chars != current.line_cursor_chars
}

/// The caret's window or rectangle differ.
pub open spec fn caret_changed(previous: ForegroundSnapshot, current: ForegroundSnapshot) -> bool {
    ||| previous.caret_hwnd != current.caret_hwnd
    ||| previous.caret_left != current.caret_left
    ||| previous.caret_top != current.caret_top
    ||| previous.caret_right != current.caret_right
    ||| previous.caret_bottom != current.caret_bottom
}

/// Both ends of the selection moved by exactly as much as the document grew
/// or shrank: the shape of an insertion or deletion at the caret.
pub open spec fn looks_like_text_edit_spec(previous: TextSnapshot, current: TextSnapshot) -> bool {
    let delta = current.document_len_utf16 - previous.document_len_utf16;
    &&& current.selection_start_utf16 - previous.selection_start_utf16 == delta
    &&& current.selection_end_utf16 - previous.selection_end_utf16 == delta
}

/// The caret settled at the start of a fresh blank line just below a line
/// whose end it was at: what follows pressing `Enter`.
pub open spec fn looks_like_newline_followup_spec(
    previous: TextSnapshot,
    current: TextSnapshot,
) -> bool {
    &&& current.line_index == previous.line_index + 1
    &&& current.line_cursor_utf16 == 0
    &&& current.line_cursor_chars == 0
    &&& is_blank_spec(current.line_text@)
    &&& previous.line_cursor_utf16 == utf16_len(previous.line_text@)
    &&& previous.line_cursor_chars == previous.line_text@.len()
    &&& current.selection_start_utf16 >= previous.selection_start_utf16
    &&& current.selection_end_utf16 >= previous.selection_end_utf16
}

/// The watcher's rule for a new snapshot, given the previous one and whether
/// the previous poll was a suppressed text edit.
pub open spec fn transition_spec(
    previous: Option<ForegroundSnapshot>,
    current: ForegroundSnapshot,
    suppressed_text_edit: bool,
) -> SnapshotTransition {
    match previous {
        None => SnapshotTransition::Emit,
        Some(p) => {
            let pt = p.text_snapshot;
            let ct = current.text_snapshot;
            let moved = cursor_changed(pt, ct) || caret_changed(p, current);
            if window_changed(p, current) || pt.source != ct.source {
                SnapshotTransition::Emit
            } else if pt.document_len_utf16 != ct.document_len_utf16 {
                if looks_like_text_edit_spec(pt, ct) {
                    SnapshotTransition::SuppressedTextEdit
                } else if pt.line_index != ct.line_index && moved {
                    SnapshotTransition::Emit
                } else {
                    SnapshotTransition::Ignore
                }
            } else if suppressed_text_edit && looks_like_newline_followup_spec(pt, ct) {
                SnapshotTransition::Ignore
            } else if moved {
                SnapshotTransition::Emit
            } else {
                SnapshotTransition::Ignore
            }
        },
    }
}

fn string_equals(a: &String, b: &String) -> (r: bool)
    ensures
        r == (a@ == b@),
{
    str_equals(a.as_str(), b.as_str())
}

/// Whether both ends of the selection moved by exactly the document's change in length.
pub fn looks_like_text_edit(previous: &TextSnapshot, current: &TextSnapshot) -> (r: bool)
    ensures
        r == looks_like_text_edit_spec(*previous, *current),
{
    // a - b == c - d  <==>  a + d == c + b, computed without leaving u128
    let doc_prev = previous.document_len_utf16 as u128;
    let doc_cur = current.document_len_utf16 as u128;
    let start_ok = current.selection_start_utf16 as u128 + doc_prev == doc_cur
        + previous.selection_start_utf16 as u128;
    let end_ok = current.selection_end_utf16 as u128 + doc_prev == doc_cur
        + previous.selection_end_utf16 as u128;
    start_ok && end_ok
}

/// Whether the caret settled at the start of a fresh blank line right below
/// the end of the previous line.
pub fn looks_like_newline_followup(previous: &TextSnapshot, current: &TextSnapshot) -> (r: bool)
    ensures
        r == looks_like_newline_followup_spec(*previous, *current),
{
    if current.line_index == 0 || current.line_index - 1 != previous.line_index {
        return false;
    }
    if current.line_cursor_utf16 != 0 || current.line_cursor_chars != 0 {
        return false;
    }
    if !is_blank(current.line_text.as_str()) {
        return false;
    }
    let previous_line_len_utf16 = utf16_count(previous.line_text.as_str());
    let previous_line_len_chars = crate::text::string_chars(previous.line_text.as_str()).len();
    previous.line_cursor_utf16 == previous_line_len_utf16 && previous.line_cursor_chars
        == previous_line_len_chars && current.selection_start_utf16
        >= previous.selection_start_utf16 && current.selection_end_utf16
        >= previous.selection_end_utf16
}

/// Decides whether a new snapshot is a caret relocation (`Emit`), an edit to
/// keep quiet about (`SuppressedTextEdit`), or nothing (`Ignore`).
pub fn classify_snapshot_transition_with_state(
    previous: Option<&ForegroundSnapshot>,
    current: &ForegroundSnapshot,
    suppressed_text_edit: bool,
) -> (t: SnapshotTransition)
    ensures
        t == transition_spec(
            match previous {
                Some(p) => Some(*p),
                None => None,
            },
            *current,
            suppressed_text_edit,
        ),
{
    let previous = match previous {
        Some(p) => p,
        None => {
            return SnapshotTransition::Emit;
        },
    };

    if previous.foreground_hwnd != current.foreground_hwnd || !string_equals(
        &previous.foreground_title,
        &current.foreground_title,
    ) || previous.focus_hwnd != current.focus_hwnd || !string_equals(
        &previous.focus_class,
        &current.focus_class,
    ) {
        return SnapshotTransition::Emit;
    }

    let previous_text = &previous.text_snapshot;
    let current_text = &current.text_snapshot;
    let cursor_changed = previous_text.selection_start_utf16 != current_text.selection_start_utf16
        || previous_text.selection_end_utf16 != current_text.selection_end_utf16
        || previous_text.line_index != current_text.line_index || previous_text.line_cursor_utf16
        != current_text.line_cursor_utf16 || previous_text.line_cursor_chars
        != current_text.line_cursor_chars;
    let caret_changed = previous.caret_hwnd != current.caret_hwnd || previous.caret_left
        != current.caret_left || previous.caret_top != current.caret_top || previous.caret_right
        != current.caret_right || previous.caret_bottom != current.caret_bottom;

    if previous_text.source != current_text.source {
        return SnapshotTransition::Emit;
    }

    if previous_text.document_len_utf16 != current_text.document_len_utf16 {
        if looks_like_text_edit(previous_text, current_text) {
            return SnapshotTransition::SuppressedTextEdit;
        }
        return if previous_text.line_index != current_text.line_index && (cursor_changed
            || caret_changed) {
            SnapshotTransition::Emit
        } else {
            SnapshotTransition::Ignore
        };
    }

    if suppressed_text_edit && looks_like_newline_followup(previous_text, current_text) {
        return SnapshotTransition::Ignore;
    }

    if !string_equals(&previous_text.line_text, &current_text.line_text) {
        return if cursor_changed || caret_changed {
            SnapshotTransition::Emit
        } else {
            SnapshotTransition::Ignore
        };
    }

    if cursor_changed || caret_changed {
        SnapshotTransition::Emit
    } else {
        SnapshotTransition::Ignore
    }
}


// ---------------------------------------------------------------------------
// Laws of the transition rule
// ---------------------------------------------------------------------------

/// The first snapshot after start (or resume) is always acted on.
pub proof fn law_first_snapshot_emits(current: ForegroundSnapshot, suppressed_text_edit: bool)
    ensures
        transition_spec(None, current, suppressed_text_edit) == SnapshotTransition::Emit,
{
}

/// Switching to another window, another focused control, or another text
/// source is always acted on.
pub proof fn law_focus_change_emits(
    previous: ForegroundSnapshot,
    current: ForegroundSnapshot,
    suppressed_text_edit: bool,
)
    requires
        window_changed(previous, current) || previous.text_snapshot.source
            != current.text_snapshot.source,
    ensures
        transition_spec(Some(previous), current, suppressed_text_edit) == SnapshotTransition::Emit,
{
}

/// A change of window is always acted on, whatever happened to the text:
/// another foreground window, another window title (such as another open
/// document in the same application), another focused control, another
/// control class, or another text reader.
pub proof fn law_window_or_title_change_emits(
    previous: ForegroundSnapshot,
    current: ForegroundSnapshot,
    suppressed_text_edit: bool,
)
    requires
        previous.foreground_hwnd != current.foreground_hwnd || previous.foreground_title@
            != current.foreground_title@ || previous.focus_hwnd != current.focus_hwnd
            || previous.focus_class@ != current.focus_class@ || previous.text_snapshot.source
            != current.text_snapshot.source,
    ensures
        transition_spec(Some(previous), current, suppressed_text_edit) == SnapshotTransition::Emit,
{
}

/// Two snapshots that differ at most in what the watcher only reports as
/// diagnostics: the IME mode, an IME read error, the process name, the GUI
/// thread and the list of failed text readers.
pub open spec fn same_up_to_diagnostics(a: ForegroundSnapshot, b: ForegroundSnapshot) -> bool {
    &&& a.foreground_hwnd == b.foreground_hwnd
    &&& a.foreground_title@ == b.foreground_title@
    &&& a.focus_hwnd == b.focus_hwnd
    &&& a.focus_class@ == b.focus_class@
    &&& a.caret_hwnd == b.caret_hwnd
    &&& a.caret_left == b.caret_left
    &&& a.caret_top == b.caret_top
    &&& a.caret_right == b.caret_right
    &&& a.caret_bottom == b.caret_bottom
    &&& a.text_snapshot.source == b.text_snapshot.source
    &&& a.text_snapshot.document_len_utf16 == b.text_snapshot.document_len_utf16
    &&& a.text_snapshot.selection_start_utf16 == b.text_snapshot.selection_start_utf16
    &&& a.text_snapshot.selection_end_utf16 == b.text_snapshot.selection_end_utf16
    &&& a.text_snapshot.line_index == b.text_snapshot.line_index
    &&& a.text_snapshot.line_cursor_utf16 == b.text_snapshot.line_cursor_utf16
    &&& a.text_snapshot.line_cursor_chars == b.text_snapshot.line_cursor_chars
    &&& a.text_snapshot.line_text@ == b.text_snapshot.line_text@
}

/// A poll that sees nothing new except diagnostics (such as a manual IME
/// toggle with `Shift`) is ignored.
pub proof fn law_diagnostics_alone_are_ignored(
    previous: ForegroundSnapshot,
    current: ForegroundSnapshot,
    suppressed_text_edit: bool,
)
    requires
        same_up_to_diagnostics(previous, current),
    ensures
        transition_spec(Some(previous), current, suppressed_text_edit)
            == SnapshotTransition::Ignore,
{
}

/// The rule never looks at diagnostics: replacing either snapshot by one that
/// differs from it only in diagnostics gives the same outcome.
pub proof fn law_diagnostics_do_not_matter(
    previous: ForegroundSnapshot,
    previous2: ForegroundSnapshot,
    current: ForegroundSnapshot,
    current2: ForegroundSnapshot,
    suppressed_text_edit: bool,
)
    requires
        same_up_to_diagnostics(previous, previous2),
        same_up_to_diagnostics(current, current2),
    ensures
        transition_spec(Some(previous), current, suppressed_text_edit) == transition_spec(
            Some(previous2),
            current2,
            suppressed_text_edit,
        ),
{
}

/// Typing or deleting at the caret (the document length changes and the
/// selection moves with it) is suppressed, never acted on.
pub proof fn law_typing_is_suppressed(
    previous: ForegroundSnapshot,
    current: ForegroundSnapshot,
    suppressed_text_edit: bool,
)
    requires
        !window_changed(previous, current),
        previous.text_snapshot.source == current.text_snapshot.source,
        previous.text_snapshot.document_len_utf16 != current.text_snapshot.document_len_utf16,
        looks_like_text_edit_spec(previous.text_snapshot, current.text_snapshot),
    ensures
        transition_spec(Some(previous), current, suppressed_text_edit)
            == SnapshotTransition::SuppressedTextEdit,
{
}

/// An edit that changes the document length without moving the caret to
/// another line (a paste, an IME commit) is not acted on.
pub proof fn law_edit_on_same_line_is_quiet(
    previous: ForegroundSnapshot,
    current: ForegroundSnapshot,
    suppressed_text_edit: bool,
)
    requires
        !window_changed(previous, current),
        previous.text_snapshot.source == current.text_snapshot.source,
        previous.text_snapshot.document_len_utf16 != current.text_snapshot.document_len_utf16,
        previous.text_snapshot.line_index == current.text_snapshot.line_index,
    ensures
        transition_spec(Some(previous), current, suppressed_text_edit)
            != SnapshotTransition::Emit,
{
}

/// Moving the caret to another line is acted on even when the reported
/// document length changes, unless the change has the shape of an edit.
pub proof fn law_line_move_emits_despite_length_change(
    previous: ForegroundSnapshot,
    current: ForegroundSnapshot,
    suppressed_text_edit: bool,
)
    requires
        previous.text_snapshot.document_len_utf16 != current.text_snapshot.document_len_utf16,
        !looks_like_text_edit_spec(previous.text_snapshot, current.text_snapshot),
        previous.text_snapshot.line_index != current.text_snapshot.line_index,
    ensures
        transition_spec(Some(previous), current, suppressed_text_edit) == SnapshotTransition::Emit,
{
}

/// With the document length unchanged, any movement of the selection, the
/// line, the caret's place in the line or the caret rectangle is acted on,
/// except the caret settling on a fresh line right after a suppressed edit.
pub proof fn law_relocation_emits(
    previous: ForegroundSnapshot,
    current: ForegroundSnapshot,
    suppressed_text_edit: bool,
)
    requires
        previous.text_snapshot.document_len_utf16 == current.text_snapshot.document_len_utf16,
        cursor_changed(previous.text_snapshot, current.text_snapshot) || caret_changed(
            previous,
            current,
        ),
        !(suppressed_text_edit && looks_like_newline_followup_spec(
            previous.text_snapshot,
            current.text_snapshot,
        )),
    ensures
        transition_spec(Some(previous), current, suppressed_text_edit) == SnapshotTransition::Emit,
{
}

/// Right after a suppressed edit, the caret settling at the start of a new
/// blank line (what `Enter` does) in the same control is not acted on.
pub proof fn law_enter_followup_is_quiet(previous: ForegroundSnapshot, current: ForegroundSnapshot)
    requires
        !window_changed(previous, current),
        previous.text_snapshot.source == current.text_snapshot.source,
        previous.text_snapshot.document_len_utf16 == current.text_snapshot.document_len_utf16,
        looks_like_newline_followup_spec(previous.text_snapshot, current.text_snapshot),
    ensures
        transition_spec(Some(previous), current, true) == SnapshotTransition::Ignore,
{
}

// ---------------------------------------------------------------------------
// The polling loop's decisions
// ---------------------------------------------------------------------------

/// The polling loop's settings.
pub struct ForegroundWatcher {
    interval_ms: u64,
    debug: bool,
}

impl ForegroundWatcher {
    /// A watcher polling every `interval_ms` milliseconds, but never faster than every 50 ms.
    pub fn new(interval_ms: u64, debug: bool) -> (w: Self)
        ensures
            w.interval_ms() == (if interval_ms > 50 {
                interval_ms
            } else {
                50u64
            }),
            w.debug() == debug,
    {
        ForegroundWatcher { interval_ms: if interval_ms > 50 { interval_ms } else { 50 }, debug }
    }

    pub closed spec fn interval_ms(&self) -> u64 {
        self.interval_ms
    }

    pub closed spec fn debug(&self) -> bool {
        self.debug
    }

    /// The polling interval in milliseconds.
    pub fn poll_interval_ms(&self) -> (r: u64)
        ensures
            r == self.interval_ms(),
    {
        self.interval_ms
    }

    /// Whether detailed diagnostics are printed.
    pub fn is_debug(&self) -> (r: bool)
        ensures
            r == self.debug(),
    {
        self.debug
    }
}

/// What the polling loop does after one poll.
#[derive(Debug, Clone, PartialEq, Eq)]
pub enum WatcherAction {
    /// Report the new snapshot (it is now the state's last snapshot).
    Report,
    /// Say nothing.
    Quiet,
    /// Print this capture error (it was not the last error printed).
    Warn(String),
}

/// What the polling loop remembers between polls.
pub struct WatcherState {
    pub last_snapshot: Option<ForegroundSnapshot>,
    pub last_error: Option<String>,
    pub suppressed_text_edit: bool,
}

/// How one poll's outcome (a snapshot, or the error that stopped its capture)
/// changes the loop's state, and what the loop does.
pub open spec fn observe_relation(
    old_state: WatcherState,
    capture: Result<ForegroundSnapshot, String>,
    new_state: WatcherState,
    action: WatcherAction,
) -> bool {
    match capture {
        Ok(snapshot) => {
            let t = transition_spec(old_state.last_snapshot, snapshot, old_state.suppressed_text_edit);
            &&& new_state.last_snapshot == Some(snapshot)
            &&& new_state.last_error.is_none()
            &&& new_state.suppressed_text_edit == (t == SnapshotTransition::SuppressedTextEdit)
            &&& action == (if t == SnapshotTransition::Emit {
                WatcherAction::Report
            } else {
                WatcherAction::Quiet
            })
        },
        Err(error) => {
            &&& new_state.last_snapshot == old_state.last_snapshot
            &&& new_state.suppressed_text_edit == old_state.suppressed_text_edit
            &&& if old_state.last_error matches Some(e) && e@ == error@ {
                &&& new_state.last_error == old_state.last_error
                &&& action == WatcherAction::Quiet
            } else {
                &&& new_state.last_error == Some(error)
                &&& action matches WatcherAction::Warn(w) && w@ == error@
            }
        },
    }
}

impl WatcherState {
    /// The state before the first poll.
    pub fn new() -> (s: Self)
        ensures
            s.last_snapshot.is_none(),
            s.last_error.is_none(),
            !s.suppressed_text_edit,
    {
        WatcherState { last_snapshot: None, last_error: None, suppressed_text_edit: false }
    }

    /// Takes one poll's outcome into account and says what to do about it.
    pub fn observe(&mut self, capture: Result<ForegroundSnapshot, String>) -> (action:
        WatcherAction)
        ensures
            observe_relation(*old(self), capture, *final(self), action),
    {
        match capture {
            Ok(snapshot) => {
                self.last_error = None;
                let transition = classify_snapshot_transition_with_state(
                    self.last_snapshot.as_ref(),
                    &snapshot,
                    self.suppressed_text_edit,
                );
                self.suppressed_text_edit = transition == SnapshotTransition::SuppressedTextEdit;
                self.last_snapshot = Some(snapshot);
                if transition == SnapshotTransition::Emit {
                    WatcherAction::Report
                } else {
                    WatcherAction::Quiet
                }
            },
            Err(error) => {
                let repeated = match &self.last_error {
                    Some(e) => string_equals(e, &error),
                    None => false,
                };
                if repeated {
                    WatcherAction::Quiet
                } else {
                    let warning = error.clone();
                    self.last_error = Some(error);
                    WatcherAction::Warn(warning)
                }
            },
        }
    }
}

/// A capture error is printed once, not on every poll it repeats on.
pub proof fn law_repeated_error_is_printed_once(
    s0: WatcherState,
    e1: String,
    s1: WatcherState,
    a1: WatcherAction,
    e2: String,
    s2: WatcherState,
    a2: WatcherAction,
)
    requires
        observe_relation(s0, Err(e1), s1, a1),
        observe_relation(s1, Err(e2), s2, a2),
        e1@ == e2@,
    ensures
        a2 == WatcherAction::Quiet,
{
}

/// A capture error never changes the snapshot that the next poll is compared with.
pub proof fn law_error_keeps_baseline(
    s0: WatcherState,
    e: String,
    s1: WatcherState,
    a: WatcherAction,
)
    requires
        observe_relation(s0, Err(e), s1, a),
    ensures
        s1.last_snapshot == s0.last_snapshot,
        s1.suppressed_text_edit == s0.suppressed_text_edit,
{
}

// ---------------------------------------------------------------------------
// From an emitted snapshot to a switch decision
// ---------------------------------------------------------------------------

/// The classifier's decision for a snapshot's line, or `(cursor, line length)`
/// when the caret lies beyond the end of the line.
pub open spec fn classify_snapshot_spec(snapshot: TextSnapshot) -> Result<Decision, (usize, usize)> {
    if snapshot.line_cursor_chars <= snapshot.line_text@.len() {
        Ok(classify_spec(snapshot.line_text@, snapshot.line_cursor_chars as nat))
    } else {
        Err((snapshot.line_cursor_chars, snapshot.line_text@.len() as usize))
    }
}

/// Classifies the snapshot's line at the snapshot's caret.
pub fn classify_snapshot(snapshot: &TextSnapshot) -> (r: Result<Decision, (usize, usize)>)
    ensures
        r == classify_snapshot_spec(*snapshot),
{
    let context = LineContext::new(snapshot.line_text.clone(), snapshot.line_cursor_chars)?;
    Ok(classify(&context))
}

/// A UI Automation line that is not blank but holds only whitespace and
/// placeholder symbols (no letters or digits).
pub open spec fn is_placeholder_only_uia_line_spec(snapshot: TextSnapshot) -> bool {
    &&& snapshot.source == TextSource::UiaTextPattern
    &&& !is_blank_spec(snapshot.line_text@)
    &&& forall|i: int|
        0 <= i < snapshot.line_text@.len() ==> char_is_whitespace(#[trigger] snapshot.line_text@[i])
            || !char_is_alphanumeric(snapshot.line_text@[i])
}

/// Whether the line is a UI Automation line of placeholder symbols only.
pub fn is_placeholder_only_uia_line(snapshot: &TextSnapshot) -> (r: bool)
    ensures
        r == is_placeholder_only_uia_line_spec(*snapshot),
{
    if snapshot.source != TextSource::UiaTextPattern {
        return false;
    }
    if is_blank(snapshot.line_text.as_str()) {
        return false;
    }
    let chars = string_chars(snapshot.line_text.as_str());
    let mut i: usize = 0;
    while i < chars.len()
        invariant
            chars@ == snapshot.line_text@,
            i <= chars.len(),
            forall|j: int|
                0 <= j < i ==> char_is_whitespace(#[trigger] chars@[j]) || !char_is_alphanumeric(
                    chars@[j],
                ),
        decreases chars.len() - i,
    {
        if !(is_whitespace(chars[i]) || !is_alphanumeric(chars[i])) {
            return false;
        }
        i = i + 1;
    }
    true
}

/// A weak signal: the classifier only fell back to its English default, on a
/// blank line or a placeholder-only UI Automation line.
pub open spec fn should_preserve_current_mode_spec(snapshot: TextSnapshot, decision: Decision) -> bool {
    &&& decision.reason == DecisionReason::DefaultEnglish
    &&& (is_blank_spec(snapshot.line_text@) || is_placeholder_only_uia_line_spec(snapshot))
}

/// Whether the watcher keeps the current IME mode instead of following the decision.
pub fn should_preserve_current_mode(snapshot: &TextSnapshot, decision: &Decision) -> (r: bool)
    ensures
        r == should_preserve_current_mode_spec(*snapshot, *decision),
{
    decision.reason == DecisionReason::DefaultEnglish && (is_blank(snapshot.line_text.as_str())
        || is_placeholder_only_uia_line(snapshot))
}

/// A weak-signal line is transparent: a blank line, or a UI Automation line of
/// placeholder symbols only, that holds no CJK ideograph or ASCII letter keeps
/// the current IME mode.
pub proof fn law_weak_signal_line_keeps_mode(snapshot: ForegroundSnapshot)
    requires
        snapshot.text_snapshot.source != TextSource::Unsupported,
        snapshot.text_snapshot.line_cursor_chars <= snapshot.text_snapshot.line_text@.len(),
        forall|i: int|
            0 <= i < snapshot.text_snapshot.line_text@.len() ==> char_kind_spec(
                Some(#[trigger] snapshot.text_snapshot.line_text@[i]),
            ) == CharKind::Other,
        is_blank_spec(snapshot.text_snapshot.line_text@) || is_placeholder_only_uia_line_spec(
            snapshot.text_snapshot,
        ),
    ensures
        plan_snapshot_spec(snapshot) == (SnapshotPlan::PreserveCurrentMode {
            decision: Decision { mode: InputMode::English, reason: DecisionReason::DefaultEnglish },
        }),
{
    law_no_signal_defaults_to_english(
        snapshot.text_snapshot.line_text@,
        snapshot.text_snapshot.line_cursor_chars as nat,
    );
}

/// A non-blank UI Automation line made only of whitespace and symbols (no
/// letter or digit anywhere) is placeholder-only.
pub proof fn law_symbols_only_uia_line_is_placeholder(snapshot: TextSnapshot, i: int)
    requires
        snapshot.source == TextSource::UiaTextPattern,
        0 <= i < snapshot.line_text@.len(),
        !char_is_whitespace(snapshot.line_text@[i]),
        forall|j: int|
            0 <= j < snapshot.line_text@.len() ==> char_is_whitespace(#[trigger] snapshot.line_text@[j])
                || !char_is_alphanumeric(snapshot.line_text@[j]),
    ensures
        is_placeholder_only_uia_line_spec(snapshot),
{
    assert(!is_blank_spec(snapshot.line_text@));
}

/// A line that holds a letter or a digit is never placeholder-only, so a
/// non-blank line with one is followed: the classifier's decision for it is
/// acted on, even when that decision is only the English default.
pub proof fn law_line_with_letter_follows_decision(snapshot: ForegroundSnapshot, i: int)
    requires
        snapshot.text_snapshot.source != TextSource::Unsupported,
        snapshot.text_snapshot.line_cursor_chars <= snapshot.text_snapshot.line_text@.len(),
        0 <= i < snapshot.text_snapshot.line_text@.len(),
        char_is_alphanumeric(snapshot.text_snapshot.line_text@[i]),
        !char_is_whitespace(snapshot.text_snapshot.line_text@[i]),
    ensures
        !is_placeholder_only_uia_line_spec(snapshot.text_snapshot),
        plan_snapshot_spec(snapshot) == (SnapshotPlan::FollowDecision {
            decision: classify_spec(
                snapshot.text_snapshot.line_text@,
                snapshot.text_snapshot.line_cursor_chars as nat,
            ),
        }),
{
    let line = snapshot.text_snapshot.line_text@;
    assert(!is_blank_spec(line)) by {
        assert(!char_is_whitespace(line[i]));
    }
    assert(!(char_is_whitespace(line[i]) || !char_is_alphanumeric(line[i])));
}

/// What the watcher does with an emitted snapshot.
#[derive(Debug, Clone, Copy, PartialEq, Eq, Structural)]
pub enum SnapshotPlan {
    /// No reader could read the control: nothing to classify.
    TextUnsupported,
    /// The caret lies beyond the line: nothing to classify.
    ClassificationUnavailable { cursor: usize, text_len: usize },
    /// The line only carries a weak signal: keep the current IME mode.
    PreserveCurrentMode { decision: Decision },
    /// Switch (if needed) to the decision's mode.
    FollowDecision { decision: Decision },
}

pub open spec fn plan_snapshot_spec(snapshot: ForegroundSnapshot) -> SnapshotPlan {
    let text = snapshot.text_snapshot;
    if text.source == TextSource::Unsupported {
        SnapshotPlan::TextUnsupported
    } else {
        match classify_snapshot_spec(text) {
            Ok(d) => if should_preserve_current_mode_spec(text, d) {
                SnapshotPlan::PreserveCurrentMode { decision: d }
            } else {
                SnapshotPlan::FollowDecision { decision: d }
            },
            Err((cursor, text_len)) => SnapshotPlan::ClassificationUnavailable { cursor, text_len },
        }
    }
}

/// Decides what to do with an emitted snapshot.
pub fn plan_snapshot(snapshot: &ForegroundSnapshot) -> (plan: SnapshotPlan)
    ensures
        plan == plan_snapshot_spec(*snapshot),
{
    let text = &snapshot.text_snapshot;
    if text.source == TextSource::Unsupported {
        return SnapshotPlan::TextUnsupported;
    }
    match classify_snapshot(text) {
        Ok(decision) => {
            if should_preserve_current_mode(text, &decision) {
                SnapshotPlan::PreserveCurrentMode { decision }
            } else {
                SnapshotPlan::FollowDecision { decision }
            }
        },
        Err((cursor, text_len)) => SnapshotPlan::ClassificationUnavailable { cursor, text_len },
    }
}


// ---------------------------------------------------------------------------
// Switching
// ---------------------------------------------------------------------------

/// What became of a watcher's switch request.
#[derive(Debug, Clone, Copy, PartialEq, Eq, Structural)]
pub enum WatcherSwitchOutcome {
    Applied,
    SkippedAlreadyMatched,
    SkippedUnknownCurrentMode,
}

/// Switches to `target_mode` through `switch_to` only when the current mode is
/// known and differs from it; a failed switch is returned as its error.
pub fn maybe_switch_watcher_mode<F>(
    switch_to: F,
    current_mode: Option<InputMode>,
    target_mode: InputMode,
) -> (r: Result<WatcherSwitchOutcome, String>) where F: FnOnce(InputMode) -> Result<(), String>
    requires
        current_mode matches Some(m) && m != target_mode ==> call_requires(
            switch_to,
            (target_mode,),
        ),
    ensures
        current_mode == Some(target_mode) ==> r == Ok::<WatcherSwitchOutcome, String>(
            WatcherSwitchOutcome::SkippedAlreadyMatched,
        ),
        current_mode.is_none() ==> r == Ok::<WatcherSwitchOutcome, String>(
            WatcherSwitchOutcome::SkippedUnknownCurrentMode,
        ),
        current_mode matches Some(m) && m != target_mode ==> exists|done: Result<(), String>|
            call_ensures(switch_to, (target_mode,), done) && r == match done {
                Ok(_) => Ok::<WatcherSwitchOutcome, String>(WatcherSwitchOutcome::Applied),
                Err(e) => Err::<WatcherSwitchOutcome, String>(e),
            },
{
    match current_mode {
        Some(mode) => {
            if mode == target_mode {
                Ok(WatcherSwitchOutcome::SkippedAlreadyMatched)
            } else {
                let done = switch_to(target_mode);
                match done {
                    Ok(()) => Ok(WatcherSwitchOutcome::Applied),
                    Err(e) => Err(e),
                }
            }
        },
        None => Ok(WatcherSwitchOutcome::SkippedUnknownCurrentMode),
    }
}

pub const STYLE_RESET: &'static str = "\x1b[0m";
pub const STYLE_BOLD: &'static str = "\x1b[1m";
pub const COLOR_DIM: &'static str = "\x1b[2m";
pub const COLOR_RED: &'static str = "\x1b[31m";
pub const COLOR_GREEN: &'static str = "\x1b[32m";
pub const COLOR_YELLOW: &'static str = "\x1b[33m";
pub const COLOR_CYAN: &'static str = "\x1b[36m";

/// A mode as the watcher prints it: green `chinese`, cyan `english`, yellow `unknown`.
pub open spec fn format_mode_spec(mode: Option<InputMode>) -> Seq<char> {
    match mode {
        Some(InputMode::Chinese) => COLOR_GREEN@ + "chinese"@ + STYLE_RESET@,
        Some(InputMode::English) => COLOR_CYAN@ + "english"@ + STYLE_RESET@,
        None => COLOR_YELLOW@ + "unknown"@ + STYLE_RESET@,
    }
}

/// Formats a (possibly unknown) mode with its terminal color.
pub fn format_mode(mode: Option<InputMode>) -> (r: String)
    ensures
        r@ == format_mode_spec(mode),
{
    let (color, label) = match mode {
        Some(InputMode::Chinese) => (COLOR_GREEN, "chinese"),
        Some(InputMode::English) => (COLOR_CYAN, "english"),
        None => (COLOR_YELLOW, "unknown"),
    };
    let mut r = String::from_str(color);
    r.append(label);
    r.append(STYLE_RESET);
    r
}

/// The color of a switch report: green when applied, yellow when skipped.
pub fn switch_color(outcome: WatcherSwitchOutcome) -> (color: &'static str)
    ensures
        color@ == (if outcome == WatcherSwitchOutcome::Applied {
            COLOR_GREEN@
        } else {
            COLOR_YELLOW@
        }),
{
    match outcome {
        WatcherSwitchOutcome::Applied => COLOR_GREEN,
        WatcherSwitchOutcome::SkippedAlreadyMatched
        | WatcherSwitchOutcome::SkippedUnknownCurrentMode => COLOR_YELLOW,
    }
}

} // verus!
