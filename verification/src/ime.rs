use vstd::prelude::*;

verus! {

/// The two input modes the tool switches between.
#[derive(Debug, Clone, Copy, PartialEq, Eq, Structural)]
pub enum InputMode {
    Chinese,
    English,
}

/// The lower-case label of a mode, as it is printed and logged.
pub open spec fn input_mode_label(mode: InputMode) -> Seq<char> {
    match mode {
        InputMode::Chinese => "chinese"@,
        InputMode::English => "english"@,
    }
}

impl InputMode {
    /// The lower-case label of the mode: `chinese` or `english`.
    pub fn to_string(&self) -> (label: String)
        ensures
            label@ == input_mode_label(*self),
    {
        match self {
            InputMode::Chinese => String::from_str("chinese"),
            InputMode::English => String::from_str("english"),
        }
    }
}


/// The conversion-mode bit that marks native (Chinese) input.
pub const IME_CMODE_NATIVE: u32 = 0x0001;

/// Whether a conversion mode has the native bit set.
pub open spec fn has_native_bit(conversion: u32) -> bool {
    conversion & IME_CMODE_NATIVE != 0
}

/// The IME open status that stands for a mode: open for Chinese, closed for English.
pub fn ime_open_status_for_mode(mode: InputMode) -> (open: bool)
    ensures
        open == (mode == InputMode::Chinese),
{
    match mode {
        InputMode::Chinese => true,
        InputMode::English => false,
    }
}

/// The conversion mode written for a mode: the native bit for Chinese, nothing for English.
pub fn ime_conversion_status_for_mode(mode: InputMode) -> (conversion: u32)
    ensures
        conversion == (if mode == InputMode::Chinese {
            IME_CMODE_NATIVE
        } else {
            0u32
        }),
{
    match mode {
        InputMode::Chinese => IME_CMODE_NATIVE,
        InputMode::English => 0,
    }
}

/// The mode an open status stands for: open is Chinese, closed is English.
pub fn input_mode_from_open_status(is_open: bool) -> (mode: InputMode)
    ensures
        mode == (if is_open {
            InputMode::Chinese
        } else {
            InputMode::English
        }),
{
    if is_open {
        InputMode::Chinese
    } else {
        InputMode::English
    }
}

/// The mode a conversion mode stands for: Chinese exactly when the native bit is set.
pub fn input_mode_from_conversion_status(conversion_mode: u32) -> (mode: InputMode)
    ensures
        mode == (if has_native_bit(conversion_mode) {
            InputMode::Chinese
        } else {
            InputMode::English
        }),
{
    if conversion_mode & IME_CMODE_NATIVE != 0 {
        InputMode::Chinese
    } else {
        InputMode::English
    }
}

/// The conversion mode to write: the current mode with only its native bit
/// replaced by the desired one.
pub fn merge_conversion_mode(current: u32, desired: u32) -> (next: u32)
    ensures
        next == (current & !IME_CMODE_NATIVE) | (desired & IME_CMODE_NATIVE),
        has_native_bit(next) == has_native_bit(desired),
        forall|bit: u32| bit < 32 && bit != 0 ==> (next >> bit) & 1 == (current >> bit) & 1,
{
    let next = (current & !IME_CMODE_NATIVE) | (desired & IME_CMODE_NATIVE);
    assert(((current & !1u32) | (desired & 1u32)) & 1u32 != 0 <==> desired & 1u32 != 0)
        by (bit_vector);
    assert(forall|bit: u32|
        bit < 32 && bit != 0 ==> (((current & !1u32) | (desired & 1u32)) >> bit) & 1u32 == (
        current >> bit) & 1u32) by (bit_vector);
    next
}

/// The mode read back from an IME: English when it is closed; otherwise the
/// conversion mode decides when it could be read, and Chinese when it could not.
pub fn ime_mode_from_readings(is_open: bool, conversion_mode: Option<u32>) -> (mode: InputMode)
    ensures
        mode == (if !is_open {
            InputMode::English
        } else {
            match conversion_mode {
                Some(c) => if has_native_bit(c) {
                    InputMode::Chinese
                } else {
                    InputMode::English
                },
                None => InputMode::Chinese,
            }
        }),
{
    if !is_open {
        return InputMode::English;
    }
    match conversion_mode {
        Some(c) => input_mode_from_conversion_status(c),
        None => InputMode::Chinese,
    }
}

/// The window whose IME is read and written: the focused control, or the
/// foreground window when no control has focus (a zero handle).
pub fn resolve_ime_target_hwnd(foreground_hwnd: isize, focus_hwnd: isize) -> (target: isize)
    ensures
        target == (if focus_hwnd == 0 {
            foreground_hwnd
        } else {
            focus_hwnd
        }),
{
    if focus_hwnd == 0 {
        foreground_hwnd
    } else {
        focus_hwnd
    }
}

/// What a switch writes, a read gives back: reading the open status and the
/// conversion mode written for a mode yields that mode, whatever other
/// conversion bits were kept.
pub proof fn law_written_mode_reads_back(mode: InputMode, kept_conversion: u32)
    ensures
        ({
            let open = mode == InputMode::Chinese;
            let written = if mode == InputMode::Chinese {
                IME_CMODE_NATIVE
            } else {
                0u32
            };
            let merged = (kept_conversion & !IME_CMODE_NATIVE) | (written & IME_CMODE_NATIVE);
            &&& (if open {
                InputMode::Chinese
            } else {
                InputMode::English
            }) == mode
            &&& (if has_native_bit(written) {
                InputMode::Chinese
            } else {
                InputMode::English
            }) == mode
            &&& (if has_native_bit(merged) {
                InputMode::Chinese
            } else {
                InputMode::English
            }) == mode
        }),
{
    assert(1u32 & 1u32 != 0) by (bit_vector);
    assert(0u32 & 1u32 == 0) by (bit_vector);
    assert(((kept_conversion & !1u32) | (1u32 & 1u32)) & 1u32 != 0) by (bit_vector);
    assert(((kept_conversion & !1u32) | (0u32 & 1u32)) & 1u32 == 0) by (bit_vector);
}

} // verus!
