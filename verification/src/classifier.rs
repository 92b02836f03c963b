//! Choosing the input mode from the characters around the caret.
use vstd::prelude::*;
use crate::context::{LineContext, chars_after_spec, chars_before_spec};
use crate::ime::InputMode;
use crate::text::{is_ascii_alphabetic, is_ascii_alphabetic_spec, is_cjk, is_cjk_spec};

verus! {

broadcast use vstd::seq_lib::group_seq_properties;

/// The language signal that one character carries.
#[derive(Debug, Clone, Copy, PartialEq, Eq, Structural)]
pub enum CharKind {
    Chinese,
    English,
    Other,
}

/// Why the classifier chose its mode.
#[derive(Debug, Clone, Copy, PartialEq, Eq, Structural)]
pub enum DecisionReason {
    CurrentCharChinese,
    CurrentCharEnglish,
    NeighborChineseBias,
    NeighborEnglishBias,
    DefaultEnglish,
}

/// The mode the caret's context calls for, and why.
#[derive(Debug, Clone, Copy, PartialEq, Eq, Structural)]
pub struct Decision {
    pub mode: InputMode,
    pub reason: DecisionReason,
}

/// The snake-case label of a reason, as it is printed and logged.
pub open spec fn reason_label(reason: DecisionReason) -> Seq<char> {
    match reason {
        DecisionReason::CurrentCharChinese => "current_char_chinese"@,
        DecisionReason::CurrentCharEnglish => "current_char_english"@,
        DecisionReason::NeighborChineseBias => "neighbor_chinese_bias"@,
        DecisionReason::NeighborEnglishBias => "neighbor_english_bias"@,
        DecisionReason::DefaultEnglish => "default_english"@,
    }
}

impl DecisionReason {
    /// The snake-case label of the reason, such as `default_english`.
    pub fn to_string(&self) -> (label: String)
        ensures
            label@ == reason_label(*self),
    {
        match self {
            DecisionReason::CurrentCharChinese => String::from_str("current_char_chinese"),
            DecisionReason::CurrentCharEnglish => String::from_str("current_char_english"),
            DecisionReason::NeighborChineseBias => String::from_str("neighbor_chinese_bias"),
            DecisionReason::NeighborEnglishBias => String::from_str("neighbor_english_bias"),
            DecisionReason::DefaultEnglish => String::from_str("default_english"),
        }
    }
}

/// A CJK ideograph is a Chinese signal, an ASCII letter an English one, and
/// anything else (or no character) carries no signal.
pub open spec fn char_kind_spec(ch: Option<char>) -> CharKind {
    match ch {
        Some(c) => if is_cjk_spec(c) {
            CharKind::Chinese
        } else if is_ascii_alphabetic_spec(c) {
            CharKind::English
        } else {
            CharKind::Other
        },
        None => CharKind::Other,
    }
}

/// The signal of the first character in `chars` that carries one, or `Other`.
pub open spec fn nearest_signal_spec(chars: Seq<char>) -> CharKind
    decreases chars.len(),
{
    if chars.len() == 0 {
        CharKind::Other
    } else if char_kind_spec(Some(chars[0])) != CharKind::Other {
        char_kind_spec(Some(chars[0]))
    } else {
        nearest_signal_spec(chars.drop_first())
    }
}

/// The decision taken from the nearest signals on both sides of the caret:
/// Chinese when no side says English and some side says Chinese, English when
/// no side says Chinese and some side says English, English by default otherwise.
pub open spec fn neighbor_decision(previous: CharKind, next: CharKind) -> Decision {
    if (previous == CharKind::Chinese || next == CharKind::Chinese) && previous
        != CharKind::English && next != CharKind::English {
        Decision { mode: InputMode::Chinese, reason: DecisionReason::NeighborChineseBias }
    } else if (previous == CharKind::English || next == CharKind::English) && previous
        != CharKind::Chinese && next != CharKind::Chinese {
        Decision { mode: InputMode::English, reason: DecisionReason::NeighborEnglishBias }
    } else {
        Decision { mode: InputMode::English, reason: DecisionReason::DefaultEnglish }
    }
}

/// The character the caret stands on, if any.
pub open spec fn char_at_cursor(line: Seq<char>, cursor: nat) -> Option<char> {
    if cursor < line.len() {
        Some(line[cursor as int])
    } else {
        None
    }
}

/// The classifier's decision for a line and a caret position.
pub open spec fn classify_spec(line: Seq<char>, cursor: nat) -> Decision {
    match char_kind_spec(char_at_cursor(line, cursor)) {
        CharKind::Chinese => Decision {
            mode: InputMode::Chinese,
            reason: DecisionReason::CurrentCharChinese,
        },
        CharKind::English => Decision {
            mode: InputMode::English,
            reason: DecisionReason::CurrentCharEnglish,
        },
        CharKind::Other => neighbor_decision(
            nearest_signal_spec(chars_before_spec(line, cursor)),
            nearest_signal_spec(chars_after_spec(line, cursor)),
        ),
    }
}

/// Chooses the input mode for the caret's context: the character under the
/// caret decides when it carries a signal, otherwise the nearest signals on
/// either side do.
pub fn classify(context: &LineContext) -> (d: Decision)
    ensures
        d == classify_spec(context@.line, context@.cursor),
{
    match classify_char(context.current_char()) {
        CharKind::Chinese => {
            return Decision { mode: InputMode::Chinese, reason: DecisionReason::CurrentCharChinese };
        },
        CharKind::English => {
            return Decision { mode: InputMode::English, reason: DecisionReason::CurrentCharEnglish };
        },
        CharKind::Other => {},
    }
    let before = context.chars_before_cursor();
    let after = context.chars_after_cursor();
    let previous = nearest_signal(&before);
    let next = nearest_signal(&after);
    match (previous, next) {
        (CharKind::Chinese, CharKind::Chinese)
        | (CharKind::Chinese, CharKind::Other)
        | (CharKind::Other, CharKind::Chinese) => Decision {
            mode: InputMode::Chinese,
            reason: DecisionReason::NeighborChineseBias,
        },
        (CharKind::English, CharKind::English)
        | (CharKind::English, CharKind::Other)
        | (CharKind::Other, CharKind::English) => Decision {
            mode: InputMode::English,
            reason: DecisionReason::NeighborEnglishBias,
        },
        _ => Decision { mode: InputMode::English, reason: DecisionReason::DefaultEnglish },
    }
}

/// The signal one character (or its absence) carries.
pub fn classify_char(ch: Option<char>) -> (k: CharKind)
    ensures
        k == char_kind_spec(ch),
{
    match ch {
        Some(value) => {
            if is_cjk(value) {
                CharKind::Chinese
            } else if is_ascii_alphabetic(value) {
                CharKind::English
            } else {
                CharKind::Other
            }
        },
        None => CharKind::Other,
    }
}

/// The signal of the first character in `chars` that carries one, or `Other`.
pub fn nearest_signal(chars: &Vec<char>) -> (k: CharKind)
    ensures
        k == nearest_signal_spec(chars@),
{
    let mut i: usize = 0;
    while i < chars.len()
        invariant
            i <= chars@.len(),
            nearest_signal_spec(chars@) == nearest_signal_spec(chars@.skip(i as int)),
        decreases chars.len() - i,
    {
        let kind = classify_char(Some(chars[i]));
        assert(chars@.skip(i as int).drop_first() =~= chars@.skip(i + 1));
        if kind != CharKind::Other {
            return kind;
        }
        i = i + 1;
    }
    CharKind::Other
}


// ---------------------------------------------------------------------------
// Laws of the classifier
// ---------------------------------------------------------------------------

/// The character under the caret decides when it carries a signal: a CJK
/// ideograph gives Chinese, an ASCII letter English.
pub proof fn law_signal_under_caret_decides(line: Seq<char>, cursor: nat)
    requires
        cursor < line.len(),
    ensures
        is_cjk_spec(line[cursor as int]) ==> classify_spec(line, cursor) == (Decision {
            mode: InputMode::Chinese,
            reason: DecisionReason::CurrentCharChinese,
        }),
        is_ascii_alphabetic_spec(line[cursor as int]) ==> classify_spec(line, cursor) == (Decision {
            mode: InputMode::English,
            reason: DecisionReason::CurrentCharEnglish,
        }),
{
    let c = line[cursor as int];
    if is_ascii_alphabetic_spec(c) {
        assert(!is_cjk_spec(c));
    }
}

proof fn lemma_no_signal_in(s: Seq<char>)
    requires
        forall|i: int| 0 <= i < s.len() ==> char_kind_spec(Some(#[trigger] s[i])) == CharKind::Other,
    ensures
        nearest_signal_spec(s) == CharKind::Other,
    decreases s.len(),
{
    if s.len() > 0 {
        assert(char_kind_spec(Some(s[0])) == CharKind::Other);
        assert forall|i: int| 0 <= i < s.drop_first().len() implies char_kind_spec(
            Some(#[trigger] s.drop_first()[i]),
        ) == CharKind::Other by {
            assert(s.drop_first()[i] == s[i + 1]);
        }
        lemma_no_signal_in(s.drop_first());
    }
}

/// A line without any CJK ideograph or ASCII letter gives English by default,
/// wherever the caret is.
pub proof fn law_no_signal_defaults_to_english(line: Seq<char>, cursor: nat)
    requires
        cursor <= line.len(),
        forall|i: int| 0 <= i < line.len() ==> char_kind_spec(Some(#[trigger] line[i]))
            == CharKind::Other,
    ensures
        classify_spec(line, cursor) == (Decision {
            mode: InputMode::English,
            reason: DecisionReason::DefaultEnglish,
        }),
{
    let before = chars_before_spec(line, cursor);
    let after = chars_after_spec(line, cursor);
    assert forall|i: int| 0 <= i < before.len() implies char_kind_spec(Some(#[trigger] before[i]))
        == CharKind::Other by {
        assert(before[i] == line[cursor - 1 - i]);
    }
    assert forall|i: int| 0 <= i < after.len() implies char_kind_spec(Some(#[trigger] after[i]))
        == CharKind::Other by {
        assert(after[i] == line[cursor + 1 + i]);
    }
    lemma_no_signal_in(before);
    lemma_no_signal_in(after);
    if cursor < line.len() {
        assert(char_kind_spec(Some(line[cursor as int])) == CharKind::Other);
    }
}

/// The classifier favours neither side of the caret: reading the line
/// backwards, with the caret on the same character, gives the same decision.
pub proof fn law_mirror_symmetry(line: Seq<char>, cursor: nat)
    requires
        cursor < line.len(),
    ensures
        classify_spec(line.reverse(), (line.len() - 1 - cursor) as nat) == classify_spec(
            line,
            cursor,
        ),
{
    let n = line.len();
    let r = line.reverse();
    let c2 = (n - 1 - cursor) as nat;
    assert(r[c2 as int] == line[cursor as int]);
    assert(chars_before_spec(r, c2) =~= chars_after_spec(line, cursor)) by {
        assert forall|i: int| 0 <= i < chars_before_spec(r, c2).len() implies chars_before_spec(
            r,
            c2,
        )[i] == chars_after_spec(line, cursor)[i] by {
            assert(chars_before_spec(r, c2)[i] == r[c2 - 1 - i]);
            assert(r[c2 - 1 - i] == line[n - 1 - (c2 - 1 - i)]);
        }
    }
    assert(chars_after_spec(r, c2) =~= chars_before_spec(line, cursor)) by {
        assert forall|i: int| 0 <= i < chars_after_spec(r, c2).len() implies chars_after_spec(
            r,
            c2,
        )[i] == chars_before_spec(line, cursor)[i] by {
            assert(chars_after_spec(r, c2)[i] == r[c2 + 1 + i]);
            assert(r[c2 + 1 + i] == line[n - 1 - (c2 + 1 + i)]);
        }
    }
}

/// A character that carries no signal is skipped: putting one in front of a
/// sequence does not change its nearest signal.
pub proof fn law_no_signal_char_is_skipped(c: char, s: Seq<char>)
    requires
        !is_cjk_spec(c),
        !is_ascii_alphabetic_spec(c),
    ensures
        nearest_signal_spec(seq![c] + s) == nearest_signal_spec(s),
{
    assert((seq![c] + s)[0] == c);
    assert((seq![c] + s).drop_first() =~= s);
}

/// The nearest signal is that of the first character carrying one: when the
/// characters before index `i` are neither CJK ideographs nor ASCII letters
/// and the one at `i` is, the nearest signal is Chinese for an ideograph and
/// English for a letter.
pub proof fn law_nearest_signal_is_first_signal(s: Seq<char>, i: int)
    requires
        0 <= i < s.len(),
        is_cjk_spec(s[i]) || is_ascii_alphabetic_spec(s[i]),
        forall|j: int| 0 <= j < i ==> !is_cjk_spec(#[trigger] s[j]) && !is_ascii_alphabetic_spec(
            s[j],
        ),
    ensures
        is_cjk_spec(s[i]) ==> nearest_signal_spec(s) == CharKind::Chinese,
        !is_cjk_spec(s[i]) ==> nearest_signal_spec(s) == CharKind::English,
    decreases i,
{
    if i > 0 {
        assert(!is_cjk_spec(s[0]) && !is_ascii_alphabetic_spec(s[0]));
        let t = s.drop_first();
        assert forall|j: int| 0 <= j < i - 1 implies !is_cjk_spec(#[trigger] t[j])
            && !is_ascii_alphabetic_spec(t[j]) by {
            assert(t[j] == s[j + 1]);
        }
        assert(t[i - 1] == s[i]);
        law_nearest_signal_is_first_signal(t, i - 1);
    }
}

/// A sequence in which no character is a CJK ideograph or an ASCII letter
/// carries no signal.
pub proof fn law_no_signal_anywhere(s: Seq<char>)
    requires
        forall|j: int| 0 <= j < s.len() ==> !is_cjk_spec(#[trigger] s[j])
            && !is_ascii_alphabetic_spec(s[j]),
    ensures
        nearest_signal_spec(s) == CharKind::Other,
{
    assert forall|j: int| 0 <= j < s.len() implies char_kind_spec(Some(#[trigger] s[j]))
        == CharKind::Other by {
        assert(!is_cjk_spec(s[j]) && !is_ascii_alphabetic_spec(s[j]));
    }
    lemma_no_signal_in(s);
}

/// The language a character signals: Chinese for a CJK ideograph, English
/// for an ASCII letter, none otherwise.
pub open spec fn signal_of(c: char) -> Option<InputMode> {
    if is_cjk_spec(c) {
        Some(InputMode::Chinese)
    } else if is_ascii_alphabetic_spec(c) {
        Some(InputMode::English)
    } else {
        None
    }
}

/// With no signal under the caret, the nearest signal-carrying characters on
/// each side decide, skipping everything in between (spaces, digits,
/// punctuation). `p` is the index of the nearest one before the caret (or -1
/// when there is none) and `q` that of the nearest one after it (or the
/// line's length when there is none). Chinese wins when some side says
/// Chinese and no side says English, English when some side says English and
/// none says Chinese, and English by default otherwise.
pub proof fn law_nearest_signals_decide(line: Seq<char>, cursor: nat, p: int, q: int)
    requires
        cursor < line.len(),
        signal_of(line[cursor as int]) is None,
        -1 <= p < cursor,
        p >= 0 ==> signal_of(line[p]) is Some,
        forall|k: int| p < k < cursor ==> signal_of(#[trigger] line[k]) is None,
        cursor < q <= line.len(),
        q < line.len() ==> signal_of(line[q]) is Some,
        forall|k: int| cursor < k < q ==> signal_of(#[trigger] line[k]) is None,
    ensures
        ({
            let before = if p >= 0 {
                signal_of(line[p])
            } else {
                None
            };
            let after = if q < line.len() {
                signal_of(line[q])
            } else {
                None
            };
            let chinese = before == Some(InputMode::Chinese) || after == Some(InputMode::Chinese);
            let english = before == Some(InputMode::English) || after == Some(InputMode::English);
            &&& chinese && !english ==> classify_spec(line, cursor) == (Decision {
                mode: InputMode::Chinese,
                reason: DecisionReason::NeighborChineseBias,
            })
            &&& english && !chinese ==> classify_spec(line, cursor) == (Decision {
                mode: InputMode::English,
                reason: DecisionReason::NeighborEnglishBias,
            })
            &&& chinese == english ==> classify_spec(line, cursor) == (Decision {
                mode: InputMode::English,
                reason: DecisionReason::DefaultEnglish,
            })
        }),
{
    let before = chars_before_spec(line, cursor);
    let after = chars_after_spec(line, cursor);
    assert forall|j: int| 0 <= j < before.len() implies before[j] == line[cursor - 1 - j] by {}
    assert forall|j: int| 0 <= j < after.len() implies after[j] == line[cursor + 1 + j] by {}
    if p >= 0 {
        let i = cursor - 1 - p;
        assert(before[i] == line[p]);
        assert forall|j: int| 0 <= j < i implies !is_cjk_spec(#[trigger] before[j])
            && !is_ascii_alphabetic_spec(before[j]) by {
            assert(before[j] == line[cursor - 1 - j]);
            assert(signal_of(line[cursor - 1 - j]) is None);
        }
        law_nearest_signal_is_first_signal(before, i);
    } else {
        assert forall|j: int| 0 <= j < before.len() implies !is_cjk_spec(#[trigger] before[j])
            && !is_ascii_alphabetic_spec(before[j]) by {
            assert(before[j] == line[cursor - 1 - j]);
            assert(signal_of(line[cursor - 1 - j]) is None);
        }
        law_no_signal_anywhere(before);
    }
    if q < line.len() {
        let i = q - cursor - 1;
        assert(after[i] == line[q]);
        assert forall|j: int| 0 <= j < i implies !is_cjk_spec(#[trigger] after[j])
            && !is_ascii_alphabetic_spec(after[j]) by {
            assert(after[j] == line[cursor + 1 + j]);
            assert(signal_of(line[cursor + 1 + j]) is None);
        }
        law_nearest_signal_is_first_signal(after, i);
    } else {
        assert forall|j: int| 0 <= j < after.len() implies !is_cjk_spec(#[trigger] after[j])
            && !is_ascii_alphabetic_spec(after[j]) by {
            assert(after[j] == line[cursor + 1 + j]);
            assert(signal_of(line[cursor + 1 + j]) is None);
        }
        law_no_signal_anywhere(after);
    }
}

} // verus!
