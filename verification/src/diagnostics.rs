//! The result of the checks made at start-up.
use vstd::prelude::*;
use crate::ime::InputMode;

verus! {

/// Whether the IME and UI Automation could be reached at start-up, and why not.
pub struct StartupCheckResult {
    pub ime_readable: bool,
    pub uia_available: bool,
    pub errors: Vec<String>,
}

/// The messages of the failed checks, in the order the checks run.
pub open spec fn startup_errors_spec(
    ime_read: Result<InputMode, String>,
    uia: Result<(), String>,
) -> Seq<Seq<char>> {
    let ime_part: Seq<Seq<char>> = match ime_read {
        Ok(_) => Seq::empty(),
        Err(e) => seq!["IME read failed: "@ + e@],
    };
    let uia_part: Seq<Seq<char>> = match uia {
        Ok(_) => Seq::empty(),
        Err(e) => seq!["UIA unavailable: "@ + e@],
    };
    ime_part + uia_part
}

/// Gathers the outcomes of reading the IME mode and of creating the UI
/// Automation client into a start-up report.
pub fn startup_check_result(ime_read: Result<InputMode, String>, uia: Result<(), String>) -> (r:
    StartupCheckResult)
    ensures
        r.ime_readable == ime_read is Ok,
        r.uia_available == uia is Ok,
        r.errors@.map_values(|e: String| e@) == startup_errors_spec(ime_read, uia),
{
    let mut errors: Vec<String> = Vec::new();
    let ime_readable = match &ime_read {
        Ok(_) => true,
        Err(e) => {
            let mut message = String::from_str("IME read failed: ");
            message.append(e.as_str());
            errors.push(message);
            false
        },
    };
    let uia_available = match &uia {
        Ok(()) => true,
        Err(e) => {
            let mut message = String::from_str("UIA unavailable: ");
            message.append(e.as_str());
            errors.push(message);
            false
        },
    };
    assert(errors@.map_values(|e: String| e@) =~= startup_errors_spec(ime_read, uia));
    StartupCheckResult { ime_readable, uia_available, errors }
}

} // verus!
