//! Turning what the text readers return into a `TextSnapshot`.
use vstd::prelude::*;
use crate::adapter::{AppAdapter, normalize_spec, normalize_uia_text_for_adapter};
use crate::text::{
    is_high_surrogate, is_low_surrogate, string_chars, surrogate_pair_char, utf16_count,
    utf16_decode_lossy, utf16_len, utf16_units_to_char_index,
};
use crate::watcher::{TextReadAttempt, TextReadResult, TextSnapshot, TextSource};

verus! {

broadcast use vstd::seq_lib::group_seq_properties;

/// `char::from_u32` gives the character with that code point when it is one
/// (not a surrogate, at most U+10FFFF), and `None` otherwise.
pub assume_specification[ char::from_u32 ](i: u32) -> (r: Option<char>)
    ensures
        (i <= 0xD7FF || (0xE000 <= i && i <= 0x10FFFF)) ==> r == Some(i as char),
        !(i <= 0xD7FF || (0xE000 <= i && i <= 0x10FFFF)) ==> r is None,
;

proof fn lemma_decode_unfold(units: Seq<u16>, i: int)
    requires
        0 <= i < units.len(),
    ensures
        units.len() - i >= 2 && is_high_surrogate(units[i]) && is_low_surrogate(units[i + 1])
            ==> utf16_decode_lossy(units.skip(i)) == seq![surrogate_pair_char(units[i], units[i + 1])]
            + utf16_decode_lossy(units.skip(i + 2)),
        !(units.len() - i >= 2 && is_high_surrogate(units[i]) && is_low_surrogate(units[i + 1]))
            && (is_high_surrogate(units[i]) || is_low_surrogate(units[i])) ==> utf16_decode_lossy(
            units.skip(i),
        ) == seq!['\u{FFFD}'] + utf16_decode_lossy(units.skip(i + 1)),
        !is_high_surrogate(units[i]) && !is_low_surrogate(units[i]) ==> utf16_decode_lossy(
            units.skip(i),
        ) == seq![units[i] as char] + utf16_decode_lossy(units.skip(i + 1)),
{
    let t = units.skip(i);
    if units.len() - i >= 2 {
        assert(t.skip(2) =~= units.skip(i + 2));
    }
    assert(t.skip(1) =~= units.skip(i + 1));
}

/// Decodes UTF-16 code units into a string, replacing every unpaired
/// surrogate by U+FFFD (what `String::from_utf16_lossy` does).
pub fn decode_utf16_lossy(units: &[u16]) -> (s: String)
    ensures
        s@ == utf16_decode_lossy(units@),
{
    let mut s = String::new();
    let mut i: usize = 0;
    while i < units.len()
        invariant
            i <= units@.len(),
            s@ + utf16_decode_lossy(units@.skip(i as int)) == utf16_decode_lossy(units@),
        decreases units.len() - i,
    {
        proof {
            lemma_decode_unfold(units@, i as int);
        }
        let u = units[i];
        let ghost before = s@;
        if i + 1 < units.len() && 0xD800 <= u && u <= 0xDBFF && 0xDC00 <= units[i + 1]
            && units[i + 1] <= 0xDFFF {
            let lo = units[i + 1];
            let v: u32 = 0x10000 + ((u as u32) - 0xD800) * 0x400 + ((lo as u32) - 0xDC00);
            assert(0x10000 <= v <= 0x10FFFF);
            match char::from_u32(v) {
                Some(c) => {
                    s.push(c);
                },
                None => {},
            }
            proof {
                assert(s@ == before.push(surrogate_pair_char(u, lo)));
                assert(s@ + utf16_decode_lossy(units@.skip(i + 2)) =~= before
                    + utf16_decode_lossy(units@.skip(i as int)));
            }
            i = i + 2;
        } else if 0xD800 <= u && u <= 0xDFFF {
            s.push('\u{FFFD}');
            proof {
                assert(s@ + utf16_decode_lossy(units@.skip(i + 1)) =~= before
                    + utf16_decode_lossy(units@.skip(i as int)));
            }
            i = i + 1;
        } else {
            let c = match char::from_u32(u as u32) {
                Some(c) => c,
                None => '\u{FFFD}',
            };
            proof {
                assert(c == u as char);
            }
            s.push(c);
            proof {
                assert(s@ + utf16_decode_lossy(units@.skip(i + 1)) =~= before
                    + utf16_decode_lossy(units@.skip(i as int)));
            }
            i = i + 1;
        }
    }
    proof {
        assert(units@.skip(i as int) =~= Seq::<u16>::empty());
        assert(s@ =~= s@ + utf16_decode_lossy(units@.skip(i as int)));
    }
    s
}

// ---------------------------------------------------------------------------
// Win32 edit controls
// ---------------------------------------------------------------------------

/// The selection an `EM_GETSEL` reply packs: start in the low 16 bits, end in
/// the next 16; a negative reply is a failure.
pub fn unpack_edit_selection(packed: isize) -> (r: Option<(usize, usize)>)
    ensures
        packed < 0 ==> r is None,
        packed >= 0 ==> r == Some(
            (((packed as u32) & 0xFFFF) as usize, (((packed as u32) >> 16) & 0xFFFF) as usize),
        ),
{
    if packed < 0 {
        return None;
    }
    let packed = packed as u32;
    let start = (packed & 0xFFFF) as usize;
    let end = ((packed >> 16) & 0xFFFF) as usize;
    Some((start, end))
}

/// An edit-control message reply that is an index or a length: a negative reply is a failure.
pub fn edit_message_index(result: isize) -> (r: Option<usize>)
    ensures
        r == (if result < 0 {
            None::<usize>
        } else {
            Some(result as usize)
        }),
{
    if result < 0 {
        return None;
    }
    Some(result as usize)
}

/// The caret's offset in its line, in UTF-16 code units; the caret must not
/// lie before the start of its line.
pub fn edit_line_cursor_utf16(selection_start_utf16: usize, line_start_utf16: usize) -> (r: Result<
    usize,
    TextReadResult,
>)
    ensures
        selection_start_utf16 < line_start_utf16 ==> r == Err::<usize, TextReadResult>(
            TextReadResult::Failed("line_range_out_of_bounds"),
        ),
        selection_start_utf16 >= line_start_utf16 ==> r == Ok::<usize, TextReadResult>(
            (selection_start_utf16 - line_start_utf16) as usize,
        ),
{
    if selection_start_utf16 < line_start_utf16 {
        return Err(TextReadResult::Failed("line_range_out_of_bounds"));
    }
    Ok(selection_start_utf16 - line_start_utf16)
}

/// The caret's offset in its line in characters, from the line's code units
/// and the offset in code units.
pub fn edit_line_cursor_chars(line_utf16: &[u16], line_cursor_utf16: usize) -> (r: Result<
    usize,
    TextReadResult,
>)
    ensures
        line_cursor_utf16 > line_utf16@.len() ==> r == Err::<usize, TextReadResult>(
            TextReadResult::Failed("cursor_utf16_to_char_failed"),
        ),
        line_cursor_utf16 <= line_utf16@.len() ==> r == Ok::<usize, TextReadResult>(
            utf16_decode_lossy(line_utf16@.take(line_cursor_utf16 as int)).len() as usize,
        ),
{
    match utf16_units_to_char_index(line_utf16, line_cursor_utf16) {
        Some(v) => Ok(v),
        None => Err(TextReadResult::Failed("cursor_utf16_to_char_failed")),
    }
}

/// The snapshot of a Win32 edit control's caret line, from what the control reported.
pub fn win32_edit_snapshot(
    document_len_utf16: usize,
    selection_start_utf16: usize,
    selection_end_utf16: usize,
    line_index: usize,
    line_utf16: &[u16],
    line_cursor_utf16: usize,
    line_cursor_chars: usize,
) -> (s: TextSnapshot)
    ensures
        s.source == TextSource::Win32Edit,
        s.document_len_utf16 == document_len_utf16,
        s.selection_start_utf16 == selection_start_utf16,
        s.selection_end_utf16 == selection_end_utf16,
        s.line_index == line_index,
        s.line_cursor_utf16 == line_cursor_utf16,
        s.line_cursor_chars == line_cursor_chars,
        s.line_text@ == utf16_decode_lossy(line_utf16@),
        s.attempts@.len() == 0,
{
    TextSnapshot {
        source: TextSource::Win32Edit,
        document_len_utf16,
        selection_start_utf16,
        selection_end_utf16,
        line_index,
        line_cursor_utf16,
        line_cursor_chars,
        line_text: decode_utf16_lossy(line_utf16),
        attempts: Vec::new(),
    }
}

// ---------------------------------------------------------------------------
// UI Automation
// ---------------------------------------------------------------------------

/// The snapshot of a UI Automation caret line, from the texts of the caret's
/// line, the whole document, the document up to the caret and the line up to
/// the caret (each cleaned by the adapter when there is one). The selection is
/// collapsed at the caret.
pub fn uia_line_snapshot(
    line_text: String,
    document_text: String,
    document_prefix_text: String,
    line_prefix_text: String,
    line_index: usize,
    adapter: Option<AppAdapter>,
) -> (s: TextSnapshot)
    ensures
        s.source == TextSource::UiaTextPattern,
        s.line_text@ == normalize_spec(line_text@, adapter),
        s.document_len_utf16 == utf16_len(normalize_spec(document_text@, adapter)),
        s.selection_start_utf16 == utf16_len(normalize_spec(document_prefix_text@, adapter)),
        s.selection_end_utf16 == s.selection_start_utf16,
        s.line_index == line_index,
        s.line_cursor_utf16 == utf16_len(normalize_spec(line_prefix_text@, adapter)),
        s.line_cursor_chars == normalize_spec(line_prefix_text@, adapter).len(),
        s.attempts@.len() == 0,
{
    let line_text = normalize_uia_text_for_adapter(line_text, adapter);
    let document_text = normalize_uia_text_for_adapter(document_text, adapter);
    let document_prefix_text = normalize_uia_text_for_adapter(document_prefix_text, adapter);
    let line_prefix_text = normalize_uia_text_for_adapter(line_prefix_text, adapter);
    let document_len_utf16 = utf16_count(document_text.as_str());
    let selection_start_utf16 = utf16_count(document_prefix_text.as_str());
    let line_prefix_utf16 = utf16_count(line_prefix_text.as_str());
    let line_prefix_chars = string_chars(line_prefix_text.as_str()).len();
    TextSnapshot {
        source: TextSource::UiaTextPattern,
        document_len_utf16,
        selection_start_utf16,
        selection_end_utf16: selection_start_utf16,
        line_index,
        line_cursor_utf16: line_prefix_utf16,
        line_cursor_chars: line_prefix_chars,
        line_text,
        attempts: Vec::new(),
    }
}

/// One step of counting the UI Automation lines before the caret's line.
#[derive(Debug, Clone, Copy, PartialEq, Eq, Structural)]
pub enum LineWalk {
    /// The walker reached the caret's line (or could move no further): its index.
    Done(usize),
    /// Keep walking; this many lines have been passed.
    Continue(usize),
}

/// After comparing the walker with the caret's line, and (when it is still
/// before it) moving it on by `moved` lines: stop when it has reached the
/// line or did not move, otherwise count the lines passed.
pub fn uia_line_walk_step(line_index: usize, comparison: i32, moved: i32) -> (r: LineWalk)
    requires
        comparison < 0 ==> moved >= 0 && line_index + moved <= usize::MAX,
    ensures
        comparison >= 0 ==> r == LineWalk::Done(line_index),
        comparison < 0 && moved == 0 ==> r == LineWalk::Done(line_index),
        comparison < 0 && moved != 0 ==> r == LineWalk::Continue((line_index + moved) as usize),
{
    if comparison >= 0 {
        return LineWalk::Done(line_index);
    }
    if moved == 0 {
        return LineWalk::Done(line_index);
    }
    LineWalk::Continue(line_index + moved as usize)
}

// ---------------------------------------------------------------------------
// Trying the readers in turn
// ---------------------------------------------------------------------------

/// The readers in the order they are tried.
pub open spec fn reader_at(stage: nat) -> TextSource {
    if stage == 0 {
        TextSource::Win32Edit
    } else if stage == 1 {
        TextSource::UiaTextPattern
    } else {
        TextSource::AppAdapter
    }
}

/// The snapshot of a control no reader could read: every position 0, no
/// text, and the failed attempts.
pub open spec fn is_unsupported_snapshot(s: TextSnapshot, attempts: Seq<TextReadAttempt>) -> bool {
    &&& s.source == TextSource::Unsupported
    &&& s.document_len_utf16 == 0
    &&& s.selection_start_utf16 == 0
    &&& s.selection_end_utf16 == 0
    &&& s.line_index == 0
    &&& s.line_cursor_utf16 == 0
    &&& s.line_cursor_chars == 0
    &&& s.line_text@.len() == 0
    &&& s.attempts@ == attempts
}

/// A text capture in progress: the Win32 reader first, then UI Automation's
/// text pattern, then the application adapter; the first snapshot wins.
pub struct TextCapture {
    attempts: Vec<TextReadAttempt>,
    stage: usize,
}

impl TextCapture {
    pub closed spec fn stage(&self) -> nat {
        self.stage as nat
    }

    pub closed spec fn attempts(&self) -> Seq<TextReadAttempt> {
        self.attempts@
    }

    /// A capture about to try the first reader.
    pub fn new() -> (c: Self)
        ensures
            c.stage() == 0,
            c.attempts().len() == 0,
    {
        TextCapture { attempts: Vec::new(), stage: 0 }
    }

    /// The reader to try now.
    pub fn reader(&self) -> (source: TextSource)
        ensures
            source == reader_at(self.stage()),
    {
        if self.stage == 0 {
            TextSource::Win32Edit
        } else if self.stage == 1 {
            TextSource::UiaTextPattern
        } else {
            TextSource::AppAdapter
        }
    }

    /// Takes the current reader's outcome. A snapshot ends the capture and
    /// carries the failed attempts before it; a failure is recorded, and after
    /// the last reader the capture ends with the unsupported snapshot.
    pub fn record(&mut self, outcome: Result<TextSnapshot, TextReadResult>) -> (r: Option<
        TextSnapshot,
    >)
        requires
            old(self).stage() < 3,
        ensures
            outcome is Ok ==> (r matches Some(s) && s.attempts@ == old(self).attempts() && {
                let o = outcome->Ok_0;
                &&& s.source == o.source
                &&& s.document_len_utf16 == o.document_len_utf16
                &&& s.selection_start_utf16 == o.selection_start_utf16
                &&& s.selection_end_utf16 == o.selection_end_utf16
                &&& s.line_index == o.line_index
                &&& s.line_cursor_utf16 == o.line_cursor_utf16
                &&& s.line_cursor_chars == o.line_cursor_chars
                &&& s.line_text == o.line_text
            }),
            outcome is Err ==> {
                let attempts = old(self).attempts().push(
                    TextReadAttempt { source: reader_at(old(self).stage()), result: outcome->Err_0 },
                );
                &&& old(self).stage() + 1 < 3 ==> (r is None && final(self).stage() == old(
                    self,
                ).stage() + 1 && final(self).attempts() == attempts)
                &&& old(self).stage() + 1 == 3 ==> (r matches Some(s) && is_unsupported_snapshot(
                    s,
                    attempts,
                ))
            },
    {
        match outcome {
            Ok(snapshot) => {
                let mut attempts = Vec::new();
                std::mem::swap(&mut attempts, &mut self.attempts);
                Some(TextSnapshot { attempts, ..snapshot })
            },
            Err(result) => {
                let source = self.reader();
                self.attempts.push(TextReadAttempt { source, result });
                self.stage = self.stage + 1;
                if self.stage < 3 {
                    None
                } else {
                    let mut attempts = Vec::new();
                    std::mem::swap(&mut attempts, &mut self.attempts);
                    Some(
                        TextSnapshot {
                            source: TextSource::Unsupported,
                            document_len_utf16: 0,
                            selection_start_utf16: 0,
                            selection_end_utf16: 0,
                            line_index: 0,
                            line_cursor_utf16: 0,
                            line_cursor_chars: 0,
                            line_text: String::new(),
                            attempts,
                        },
                    )
                }
            },
        }
    }
}

/// The file name at the end of a path: what follows its last `\` or `/`
/// (the whole path when it has neither).
pub open spec fn file_name_spec(path: Seq<char>) -> Seq<char>
    decreases path.len(),
{
    if path.len() == 0 {
        path
    } else if path.last() == '\\' || path.last() == '/' {
        Seq::empty()
    } else {
        file_name_spec(path.drop_last()).push(path.last())
    }
}

/// The executable's file name from its full image path.
pub fn file_name_of_path(path: &str) -> (name: String)
    ensures
        name@ == file_name_spec(path@),
{
    let chars = string_chars(path);
    let mut start: usize = chars.len();
    while start > 0 && chars[start - 1] != '\\' && chars[start - 1] != '/'
        invariant
            chars@ == path@,
            start <= chars.len(),
            file_name_spec(path@) == file_name_spec(path@.take(start as int)) + path@.skip(
                start as int,
            ),
        decreases start,
    {
        let ghost p = path@.take(start as int);
        assert(p.drop_last() =~= path@.take(start - 1));
        assert(p.last() == chars@[start - 1]);
        assert(path@.skip(start - 1) =~= seq![chars@[start - 1]] + path@.skip(start as int));
        start = start - 1;
    }
    proof {
        let p = path@.take(start as int);
        if start > 0 {
            assert(p.last() == chars@[start - 1]);
        }
        assert(file_name_spec(p) =~= Seq::<char>::empty());
    }
    let mut name = String::new();
    let mut i: usize = start;
    while i < chars.len()
        invariant
            chars@ == path@,
            start <= i <= chars.len(),
            name@ == path@.subrange(start as int, i as int),
        decreases chars.len() - i,
    {
        name.push(chars[i]);
        i = i + 1;
    }
    assert(name@ =~= file_name_spec(path@));
    name
}

} // verus!
