//! Which controls can be read, and the per-application cleanup of their text.
use vstd::prelude::*;
use crate::text::{eq_ignore_ascii_case, eq_ignore_ascii_case_spec, str_equals, string_chars};

verus! {

/// An application-specific way of reading a control's text.
#[derive(Debug, Clone, Copy, PartialEq, Eq, Structural)]
pub enum AppAdapter {
    /// Chromium/Electron editors read through UI Automation, with invisible
    /// placeholder characters removed.
    ChromiumUia,
}

/// The Chromium-hosted editors the adapter is meant for (by process name, any ASCII case).
pub open spec fn is_known_chromium_editor_spec(process_name: Seq<char>) -> bool {
    ||| eq_ignore_ascii_case_spec(process_name, "Code.exe"@)
    ||| eq_ignore_ascii_case_spec(process_name, "Cursor.exe"@)
    ||| eq_ignore_ascii_case_spec(process_name, "Obsidian.exe"@)
}

/// Whether the process is one of the known Chromium-hosted editors.
pub fn matches_known_chromium_editor_process(process_name: &str) -> (r: bool)
    ensures
        r == is_known_chromium_editor_spec(process_name@),
{
    eq_ignore_ascii_case(process_name, "Code.exe") || eq_ignore_ascii_case(
        process_name,
        "Cursor.exe",
    ) || eq_ignore_ascii_case(process_name, "Obsidian.exe")
}

/// The adapter for a control: the Chromium one for a `Chrome_WidgetWin_1`
/// control in a known editor, none otherwise. The window title plays no part.
pub fn app_adapter_for_context(
    class_name: &str,
    process_name: &str,
    _foreground_title: &str,
) -> (r: Option<AppAdapter>)
    ensures
        r == (if class_name@ == "Chrome_WidgetWin_1"@ && is_known_chromium_editor_spec(
            process_name@,
        ) {
            Some(AppAdapter::ChromiumUia)
        } else {
            None::<AppAdapter>
        }),
{
    if str_equals(class_name, "Chrome_WidgetWin_1") && matches_known_chromium_editor_process(
        process_name,
    ) {
        Some(AppAdapter::ChromiumUia)
    } else {
        None
    }
}

/// The invisible characters Chromium's UI Automation puts into text: zero-width
/// space, non-joiner and joiner, word joiner, byte-order mark and object replacement.
pub open spec fn is_chromium_uia_ghost_char_spec(ch: char) -> bool {
    ||| ch == '\u{200B}'
    ||| ch == '\u{200C}'
    ||| ch == '\u{200D}'
    ||| ch == '\u{2060}'
    ||| ch == '\u{FEFF}'
    ||| ch == '\u{FFFC}'
}

/// Whether `ch` is one of Chromium's invisible placeholder characters.
pub fn is_chromium_uia_ghost_char(ch: char) -> (r: bool)
    ensures
        r == is_chromium_uia_ghost_char_spec(ch),
{
    ch == '\u{200B}' || ch == '\u{200C}' || ch == '\u{200D}' || ch == '\u{2060}' || ch
        == '\u{FEFF}' || ch == '\u{FFFC}'
}

/// `text` without Chromium's invisible placeholder characters, order kept.
pub open spec fn strip_ghost_chars(text: Seq<char>) -> Seq<char>
    decreases text.len(),
{
    if text.len() == 0 {
        text
    } else if is_chromium_uia_ghost_char_spec(text.last()) {
        strip_ghost_chars(text.drop_last())
    } else {
        strip_ghost_chars(text.drop_last()).push(text.last())
    }
}

/// The text as the adapter hands it on.
pub open spec fn normalize_spec(text: Seq<char>, adapter: Option<AppAdapter>) -> Seq<char> {
    match adapter {
        Some(AppAdapter::ChromiumUia) => strip_ghost_chars(text),
        None => text,
    }
}

/// Cleans text read through an adapter; text read without one is unchanged.
pub fn normalize_uia_text_for_adapter(text: String, adapter: Option<AppAdapter>) -> (r: String)
    ensures
        r@ == normalize_spec(text@, adapter),
{
    match adapter {
        Some(AppAdapter::ChromiumUia) => {
            let chars = string_chars(text.as_str());
            let mut r = String::new();
            let mut i: usize = 0;
            while i < chars.len()
                invariant
                    chars@ == text@,
                    i <= chars.len(),
                    r@ == strip_ghost_chars(chars@.take(i as int)),
                decreases chars.len() - i,
            {
                assert(chars@.take(i + 1).drop_last() =~= chars@.take(i as int));
                if !is_chromium_uia_ghost_char(chars[i]) {
                    r.push(chars[i]);
                }
                i = i + 1;
            }
            assert(chars@.take(chars.len() as int) =~= chars@);
            r
        },
        None => text,
    }
}

/// Cleaning removes exactly the placeholder characters: what is left has none
/// of them, and text without them is left as it is.
pub proof fn law_strip_removes_only_ghosts(text: Seq<char>)
    ensures
        forall|i: int|
            0 <= i < strip_ghost_chars(text).len() ==> !is_chromium_uia_ghost_char_spec(
                #[trigger] strip_ghost_chars(text)[i],
            ),
        (forall|i: int| 0 <= i < text.len() ==> !is_chromium_uia_ghost_char_spec(#[trigger] text[i]))
            ==> strip_ghost_chars(text) == text,
    decreases text.len(),
{
    if text.len() > 0 {
        law_strip_removes_only_ghosts(text.drop_last());
        let rest = strip_ghost_chars(text.drop_last());
        if !is_chromium_uia_ghost_char_spec(text.last()) {
            assert forall|i: int| 0 <= i < rest.push(text.last()).len() implies
                !is_chromium_uia_ghost_char_spec(#[trigger] rest.push(text.last())[i]) by {
                if i < rest.len() {
                    assert(rest.push(text.last())[i] == rest[i]);
                }
            }
        }
        if forall|i: int| 0 <= i < text.len() ==> !is_chromium_uia_ghost_char_spec(#[trigger] text[i]) {
            assert forall|i: int| 0 <= i < text.drop_last().len() implies
                !is_chromium_uia_ghost_char_spec(#[trigger] text.drop_last()[i]) by {
                assert(text.drop_last()[i] == text[i]);
            }
            assert(!is_chromium_uia_ghost_char_spec(text[text.len() - 1]));
            assert(text.drop_last().push(text.last()) =~= text);
        }
    }
}

/// The Win32 edit control classes whose text can be read directly.
pub open spec fn is_supported_edit_class_spec(class_name: Seq<char>) -> bool {
    ||| class_name == "Edit"@
    ||| class_name == "RichEdit20W"@
    ||| class_name == "RichEdit50W"@
    ||| class_name == "RICHEDIT50W"@
    ||| class_name == "RichEditD2DPT"@
}

/// Whether a control class is a Win32 edit control that can be read directly.
pub fn is_supported_edit_class(class_name: &str) -> (r: bool)
    ensures
        r == is_supported_edit_class_spec(class_name@),
{
    str_equals(class_name, "Edit") || str_equals(class_name, "RichEdit20W") || str_equals(
        class_name,
        "RichEdit50W",
    ) || str_equals(class_name, "RICHEDIT50W") || str_equals(class_name, "RichEditD2DPT")
}

} // verus!
