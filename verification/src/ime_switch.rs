//! The order in which a mode switch tries the IME's write paths, and when it stops.
use vstd::prelude::*;

verus! {

/// One way of writing the IME mode.
#[derive(Debug, Clone, Copy, PartialEq, Eq, Structural)]
pub enum ImeWriteStrategy {
    /// `ImmSetOpenStatus` on the input context.
    ContextOpenStatus,
    /// `IMC_SETCONVERSIONMODE` through the default IME window.
    DefaultWindowConversion,
    /// `ImmSetConversionStatus` on the input context, only the native bit changed.
    ContextConversion,
    /// `IMC_SETOPENSTATUS` through the default IME window.
    DefaultWindowOpenStatus,
}

/// The strategies in the order they are tried.
pub open spec fn strategy_at(stage: nat) -> ImeWriteStrategy {
    if stage == 0 {
        ImeWriteStrategy::ContextOpenStatus
    } else if stage == 1 {
        ImeWriteStrategy::DefaultWindowConversion
    } else if stage == 2 {
        ImeWriteStrategy::ContextConversion
    } else {
        ImeWriteStrategy::DefaultWindowOpenStatus
    }
}

/// The number of strategies.
pub open spec fn strategy_count() -> nat {
    4
}

/// Why a switch failed in the end.
#[derive(Debug, Clone, PartialEq, Eq)]
pub enum ImeWriteFailure {
    /// The last write went through but reading the mode back did not show the target.
    VerificationFailed,
    /// The last write failed, and so did reading the target back; the error of
    /// the latest earlier write that failed is kept as context.
    WriteFailed { error: String, previous_error: Option<String> },
}

/// What to do next in a switch.
#[derive(Debug, PartialEq, Eq)]
pub enum ImeWriteStep {
    /// Write with this strategy, then report how it went.
    Try(ImeWriteStrategy),
    /// The switch is over.
    Done(Result<(), ImeWriteFailure>),
}

/// A switch in progress: which strategy is being tried and the latest write error.
pub struct ImeWriteSequence {
    stage: usize,
    last_error: Option<String>,
    finished: bool,
}

impl ImeWriteSequence {
    pub closed spec fn stage(&self) -> nat {
        self.stage as nat
    }

    pub closed spec fn last_error(&self) -> Option<String> {
        self.last_error
    }

    pub closed spec fn finished(&self) -> bool {
        self.finished
    }

    /// A switch about to try the first strategy.
    pub fn new() -> (s: Self)
        ensures
            s.stage() == 0,
            s.last_error().is_none(),
            !s.finished(),
    {
        ImeWriteSequence { stage: 0, last_error: None, finished: false }
    }

    /// The strategy to try now.
    pub fn current(&self) -> (strategy: ImeWriteStrategy)
        requires
            self.stage() < strategy_count(),
        ensures
            strategy == strategy_at(self.stage()),
    {
        if self.stage == 0 {
            ImeWriteStrategy::ContextOpenStatus
        } else if self.stage == 1 {
            ImeWriteStrategy::DefaultWindowConversion
        } else if self.stage == 2 {
            ImeWriteStrategy::ContextConversion
        } else {
            ImeWriteStrategy::DefaultWindowOpenStatus
        }
    }

    /// Whether the mode has to be read back after this write: after every
    /// write that went through, and after the last strategy whatever happened.
    pub fn needs_verification(&self, write: &Result<(), String>) -> (r: bool)
        ensures
            r == (write is Ok || self.stage() + 1 >= strategy_count()),
    {
        write.is_ok() || self.stage >= 3
    }

    /// Takes the outcome of the current strategy's write (and, when it was read
    /// back, whether the target mode was seen) and says what comes next.
    pub fn advance(&mut self, write: Result<(), String>, verified: bool) -> (step: ImeWriteStep)
        requires
            !old(self).finished(),
            old(self).stage() < strategy_count(),
        ensures
            old(self).stage() + 1 < strategy_count() ==> {
                if write is Ok && verified {
                    &&& step == ImeWriteStep::Done(Ok(()))
                    &&& final(self).finished()
                } else {
                    &&& step == ImeWriteStep::Try(strategy_at(old(self).stage() + 1))
                    &&& final(self).stage() == old(self).stage() + 1
                    &&& !final(self).finished()
                    &&& final(self).last_error() == match write {
                        Ok(_) => old(self).last_error(),
                        Err(e) => Some(e),
                    }
                }
            },
            old(self).stage() + 1 == strategy_count() ==> {
                &&& final(self).finished()
                &&& step == ImeWriteStep::Done(
                    if verified {
                        Ok(())
                    } else {
                        match write {
                            Ok(_) => Err(ImeWriteFailure::VerificationFailed),
                            Err(e) => Err(
                                ImeWriteFailure::WriteFailed {
                                    error: e,
                                    previous_error: old(self).last_error(),
                                },
                            ),
                        }
                    },
                )
            },
    {
        if self.stage < 3 {
            if write.is_ok() && verified {
                self.finished = true;
                return ImeWriteStep::Done(Ok(()));
            }
            match write {
                Ok(()) => {},
                Err(e) => {
                    self.last_error = Some(e);
                },
            }
            self.stage = self.stage + 1;
            ImeWriteStep::Try(self.current())
        } else {
            self.finished = true;
            if verified {
                return ImeWriteStep::Done(Ok(()));
            }
            match write {
                Ok(()) => ImeWriteStep::Done(Err(ImeWriteFailure::VerificationFailed)),
                Err(error) => {
                    let previous_error = self.last_error.take();
                    ImeWriteStep::Done(
                        Err(ImeWriteFailure::WriteFailed { error, previous_error }),
                    )
                },
            }
        }
    }
}

/// The message of a failed last write: its error, followed by
/// `; previous_error=` and the earlier error when there is one.
pub fn write_failure_message(error: &str, previous_error: Option<&String>) -> (message: String)
    ensures
        message@ == match previous_error {
            Some(p) => error@ + "; previous_error="@ + p@,
            None => error@,
        },
{
    let mut message = String::from_str(error);
    match previous_error {
        Some(p) => {
            message.append("; previous_error=");
            message.append(p.as_str());
        },
        None => {},
    }
    message
}

} // verus!
