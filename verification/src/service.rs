//! The background application's own rules: the classification test command
//! and the watcher thread's restart policy.
use vstd::prelude::*;
use crate::classifier::{classify, classify_spec, reason_label};
use crate::context::LineContext;
use crate::ime::input_mode_label;
use crate::numbers::{decimal_spec, push_decimal};

verus! {

/// The result of a classification test, as the control panel shows it.
pub struct ClassifyReport {
    pub line: String,
    pub cursor: usize,
    pub target_mode: String,
    pub reason: String,
}

/// The message for a caret beyond the end of the line.
pub open spec fn cursor_out_of_bounds_message(cursor: nat, text_len: nat) -> Seq<char> {
    "cursor "@ + decimal_spec(cursor) + " is out of bounds for text length "@ + decimal_spec(
        text_len,
    )
}

/// Classifies `line` at `cursor` for the control panel; fails with a message
/// when the caret lies beyond the end of the line.
pub fn test_classify(line: String, cursor: usize) -> (r: Result<ClassifyReport, String>)
    ensures
        cursor <= line@.len() ==> (r matches Ok(report) && report.line@ == line@ && report.cursor
            == cursor && report.target_mode@ == input_mode_label(
            classify_spec(line@, cursor as nat).mode,
        ) && report.reason@ == reason_label(classify_spec(line@, cursor as nat).reason)),
        cursor > line@.len() ==> (r matches Err(message) && message@
            == cursor_out_of_bounds_message(cursor as nat, line@.len())),
{
    match LineContext::new(line, cursor) {
        Ok(context) => {
            let decision = classify(&context);
            let mut text = String::new();
            text.append(context.line());
            Ok(
                ClassifyReport {
                    line: text,
                    cursor: context.cursor(),
                    target_mode: decision.mode.to_string(),
                    reason: decision.reason.to_string(),
                },
            )
        },
        Err((c, len)) => {
            let mut message = String::from_str("cursor ");
            push_decimal(&mut message, c as u64);
            message.append(" is out of bounds for text length ");
            push_decimal(&mut message, len as u64);
            Err(message)
        },
    }
}

/// How a run of the watcher ended.
#[derive(Debug, Clone, Copy, PartialEq, Eq, Structural)]
pub enum WatcherExit {
    /// It stopped because it was asked to.
    Stopped,
    /// It returned an error.
    Failed,
    /// It panicked.
    Panicked,
}

/// What the watcher thread does next.
#[derive(Debug, Clone, Copy, PartialEq, Eq, Structural)]
pub enum SupervisorAction {
    /// Leave the loop.
    Stop,
    /// Start the watcher again after this many milliseconds.
    RestartAfterMs(u64),
    /// Pause watching, tell the user, and leave the loop.
    PauseAndNotify,
}

/// The number of consecutive panics after which the watcher is paused.
pub const PANIC_THRESHOLD: u32 = 5;

/// Counts the watcher's consecutive panics.
pub struct WatcherSupervisor {
    consecutive_panics: u32,
}

impl WatcherSupervisor {
    pub closed spec fn panics(&self) -> nat {
        self.consecutive_panics as nat
    }

    /// A supervisor that has seen no panic.
    pub fn new() -> (s: Self)
        ensures
            s.panics() == 0,
    {
        WatcherSupervisor { consecutive_panics: 0 }
    }

    /// Decides what follows the end of a watcher run: a requested stop ends
    /// the loop; an error resets the panic count and restarts after a second;
    /// a panic is counted and restarts after two seconds, until the fifth in a
    /// row, which pauses the watcher.
    pub fn on_exit(&mut self, exit: WatcherExit) -> (action: SupervisorAction)
        requires
            old(self).panics() < PANIC_THRESHOLD,
        ensures
            exit == WatcherExit::Stopped ==> action == SupervisorAction::Stop && final(self).panics()
                == old(self).panics(),
            exit == WatcherExit::Failed ==> action == SupervisorAction::RestartAfterMs(1000)
                && final(self).panics() == 0,
            exit == WatcherExit::Panicked ==> final(self).panics() == old(self).panics() + 1 && action
                == (if old(self).panics() + 1 >= PANIC_THRESHOLD {
                SupervisorAction::PauseAndNotify
            } else {
                SupervisorAction::RestartAfterMs(2000)
            }),
            action is RestartAfterMs ==> final(self).panics() < PANIC_THRESHOLD,
    {
        match exit {
            WatcherExit::Stopped => SupervisorAction::Stop,
            WatcherExit::Failed => {
                self.consecutive_panics = 0;
                SupervisorAction::RestartAfterMs(1000)
            },
            WatcherExit::Panicked => {
                self.consecutive_panics = self.consecutive_panics + 1;
                if self.consecutive_panics >= PANIC_THRESHOLD {
                    SupervisorAction::PauseAndNotify
                } else {
                    SupervisorAction::RestartAfterMs(2000)
                }
            },
        }
    }
}

} // verus!
