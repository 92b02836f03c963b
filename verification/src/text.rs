//! Characters, UTF-16 code units and the character classes the rules use.
use vstd::prelude::*;

verus! {

broadcast use vstd::seq_lib::group_seq_properties;

/// `String::push` appends one character to the end of the string.
pub assume_specification[ String::push ](s: &mut String, ch: char)
    ensures
        final(s)@ == old(s)@.push(ch),
;

/// Collects the characters of a string slice into a vector.
pub fn string_chars(s: &str) -> (chars: Vec<char>)
    ensures
        chars@ == s@,
{
    let mut chars: Vec<char> = Vec::new();
    for c in it: s.chars()
        invariant
            chars@ == it.seq().take(it.index() as int),
            it.seq() == s@,
    {
        chars.push(c);
    }
    chars
}

// ---------------------------------------------------------------------------
// Character classes
// ---------------------------------------------------------------------------

/// The CJK ideograph blocks that count as a Chinese signal.
pub open spec fn is_cjk_spec(c: char) -> bool {
    let v = c as u32;
    ||| 0x4E00 <= v <= 0x9FFF
    ||| 0x3400 <= v <= 0x4DBF
    ||| 0x20000 <= v <= 0x2A6DF
    ||| 0x2A700 <= v <= 0x2B73F
    ||| 0x2B740 <= v <= 0x2B81F
    ||| 0x2B820 <= v <= 0x2CEAF
    ||| 0xF900 <= v <= 0xFAFF
    ||| 0x2F800 <= v <= 0x2FA1F
}

/// Whether `c` lies in one of the CJK ideograph blocks.
pub fn is_cjk(c: char) -> (r: bool)
    ensures
        r == is_cjk_spec(c),
{
    let v = c as u32;
    (0x4E00 <= v && v <= 0x9FFF) || (0x3400 <= v && v <= 0x4DBF) || (0x20000 <= v && v
        <= 0x2A6DF) || (0x2A700 <= v && v <= 0x2B73F) || (0x2B740 <= v && v <= 0x2B81F) || (
    0x2B820 <= v && v <= 0x2CEAF) || (0xF900 <= v && v <= 0xFAFF) || (0x2F800 <= v && v
        <= 0x2FA1F)
}

/// Whether two strings hold the same characters.
pub fn str_equals(a: &str, b: &str) -> (r: bool)
    ensures
        r == (a@ == b@),
{
    let xs = string_chars(a);
    let ys = string_chars(b);
    if xs.len() != ys.len() {
        return false;
    }
    let mut i: usize = 0;
    while i < xs.len()
        invariant
            xs@ == a@,
            ys@ == b@,
            xs.len() == ys.len(),
            i <= xs.len(),
            forall|j: int| 0 <= j < i ==> a@[j] == b@[j],
        decreases xs.len() - i,
    {
        if xs[i] != ys[i] {
            return false;
        }
        i = i + 1;
    }
    assert(a@ =~= b@);
    true
}

/// `A`..=`Z` or `a`..=`z`.
pub open spec fn is_ascii_alphabetic_spec(c: char) -> bool {
    ('A' <= c && c <= 'Z') || ('a' <= c && c <= 'z')
}

/// Whether `c` is an ASCII letter.
pub fn is_ascii_alphabetic(c: char) -> (r: bool)
    ensures
        r == is_ascii_alphabetic_spec(c),
{
    ('A' <= c && c <= 'Z') || ('a' <= c && c <= 'z')
}

/// The ASCII lower-case form of `c` (other characters are unchanged).
pub open spec fn ascii_lower_spec(c: char) -> char {
    if 'A' <= c && c <= 'Z' {
        ((c as u32) + 32) as char
    } else {
        c
    }
}

/// Equality of two strings up to ASCII case.
pub open spec fn eq_ignore_ascii_case_spec(a: Seq<char>, b: Seq<char>) -> bool {
    &&& a.len() == b.len()
    &&& forall|i: int| 0 <= i < a.len() ==> ascii_lower_spec(a[i]) == ascii_lower_spec(b[i])
}

fn ascii_lower(c: char) -> (r: char)
    ensures
        r == ascii_lower_spec(c),
{
    if 'A' <= c && c <= 'Z' {
        let v = (c as u32) + 32;
        if v == 0x61 { 'a' }
        else if v == 0x62 { 'b' }
        else if v == 0x63 { 'c' }
        else if v == 0x64 { 'd' }
        else if v == 0x65 { 'e' }
        else if v == 0x66 { 'f' }
        else if v == 0x67 { 'g' }
        else if v == 0x68 { 'h' }
        else if v == 0x69 { 'i' }
        else if v == 0x6A { 'j' }
        else if v == 0x6B { 'k' }
        else if v == 0x6C { 'l' }
        else if v == 0x6D { 'm' }
        else if v == 0x6E { 'n' }
        else if v == 0x6F { 'o' }
        else if v == 0x70 { 'p' }
        else if v == 0x71 { 'q' }
        else if v == 0x72 { 'r' }
        else if v == 0x73 { 's' }
        else if v == 0x74 { 't' }
        else if v == 0x75 { 'u' }
        else if v == 0x76 { 'v' }
        else if v == 0x77 { 'w' }
        else if v == 0x78 { 'x' }
        else if v == 0x79 { 'y' }
        else { 'z' }
    } else {
        c
    }
}

/// Equality of two strings up to ASCII case.
pub fn eq_ignore_ascii_case(a: &str, b: &str) -> (r: bool)
    ensures
        r == eq_ignore_ascii_case_spec(a@, b@),
{
    let xs = string_chars(a);
    let ys = string_chars(b);
    if xs.len() != ys.len() {
        return false;
    }
    let mut i: usize = 0;
    while i < xs.len()
        invariant
            xs@ == a@,
            ys@ == b@,
            xs.len() == ys.len(),
            i <= xs.len(),
            forall|j: int| 0 <= j < i ==> ascii_lower_spec(a@[j]) == ascii_lower_spec(b@[j]),
        decreases xs.len() - i,
    {
        if ascii_lower(xs[i]) != ascii_lower(ys[i]) {
            return false;
        }
        i = i + 1;
    }
    true
}

/// Whether `c` has the Unicode `White_Space` property, as `char::is_whitespace`
/// reports it: the controls U+0009 to U+000D, the space, U+0085, the no-break
/// space, the Ogham space mark, the spaces U+2000 to U+200A, the line and
/// paragraph separators, the narrow no-break space, the medium mathematical
/// space and the ideographic space.
pub open spec fn char_is_whitespace(c: char) -> bool {
    let u = c as u32;
    ||| 0x09 <= u <= 0x0D
    ||| u == 0x20
    ||| u == 0x85
    ||| u == 0xA0
    ||| u == 0x1680
    ||| 0x2000 <= u <= 0x200A
    ||| u == 0x2028
    ||| u == 0x2029
    ||| u == 0x202F
    ||| u == 0x205F
    ||| u == 0x3000
}

/// Whether `c` is alphabetic or numeric in Unicode, as `char::is_alphanumeric` reports it.
pub uninterp spec fn char_is_alphanumeric(c: char) -> bool;

/// Whether `c` is whitespace, as `char::is_whitespace` decides it.
pub(crate) fn is_whitespace(c: char) -> (r: bool)
    ensures
        r == char_is_whitespace(c),
{
    let u = c as u32;
    (0x09 <= u && u <= 0x0D) || u == 0x20 || u == 0x85 || u == 0xA0 || u == 0x1680 || (0x2000
        <= u && u <= 0x200A) || u == 0x2028 || u == 0x2029 || u == 0x202F || u == 0x205F || u
        == 0x3000
}

/// `char::is_alphanumeric`: true exactly for the characters that are Unicode
/// `Alphabetic` or have a numeric general category. The tables are not restated
/// here: the result is named by `char_is_alphanumeric`.
#[verifier::external_body]
pub(crate) fn is_alphanumeric(c: char) -> (r: bool)
    ensures
        r == char_is_alphanumeric(c),
{
    c.is_alphanumeric()
}

/// A line is blank when every character in it is whitespace
/// (what `str::trim` leaves empty).
pub open spec fn is_blank_spec(s: Seq<char>) -> bool {
    forall|i: int| 0 <= i < s.len() ==> char_is_whitespace(#[trigger] s[i])
}

/// Whether every character of `s` is whitespace.
pub fn is_blank(s: &str) -> (r: bool)
    ensures
        r == is_blank_spec(s@),
{
    let chars = string_chars(s);
    let mut i: usize = 0;
    while i < chars.len()
        invariant
            chars@ == s@,
            i <= chars.len(),
            forall|j: int| 0 <= j < i ==> char_is_whitespace(#[trigger] s@[j]),
        decreases chars.len() - i,
    {
        if !is_whitespace(chars[i]) {
            return false;
        }
        i = i + 1;
    }
    true
}

// ---------------------------------------------------------------------------
// UTF-16
// ---------------------------------------------------------------------------

pub open spec fn is_high_surrogate(u: u16) -> bool {
    0xD800 <= u <= 0xDBFF
}

pub open spec fn is_low_surrogate(u: u16) -> bool {
    0xDC00 <= u <= 0xDFFF
}

/// The character that a high and a low surrogate encode together.
pub open spec fn surrogate_pair_char(hi: u16, lo: u16) -> char {
    (0x10000 + (hi - 0xD800) * 0x400 + (lo - 0xDC00)) as char
}

/// The UTF-16 code units of one character.
pub open spec fn char_utf16(c: char) -> Seq<u16> {
    if (c as u32) < 0x10000 {
        seq![c as u16]
    } else {
        let v = (c as u32) - 0x10000;
        seq![(0xD800 + v / 0x400) as u16, (0xDC00 + v % 0x400) as u16]
    }
}

/// The UTF-16 encoding of a character sequence.
pub open spec fn utf16_encode(s: Seq<char>) -> Seq<u16>
    decreases s.len(),
{
    if s.len() == 0 {
        seq![]
    } else {
        char_utf16(s[0]) + utf16_encode(s.drop_first())
    }
}

/// Lossy UTF-16 decoding: a surrogate pair gives one character, and every
/// unpaired surrogate gives one U+FFFD replacement character.
pub open spec fn utf16_decode_lossy(units: Seq<u16>) -> Seq<char>
    decreases units.len(),
{
    if units.len() == 0 {
        seq![]
    } else if units.len() >= 2 && is_high_surrogate(units[0]) && is_low_surrogate(units[1]) {
        seq![surrogate_pair_char(units[0], units[1])] + utf16_decode_lossy(units.skip(2))
    } else if is_high_surrogate(units[0]) || is_low_surrogate(units[0]) {
        seq!['\u{FFFD}'] + utf16_decode_lossy(units.skip(1))
    } else {
        seq![units[0] as char] + utf16_decode_lossy(units.skip(1))
    }
}

/// The number of UTF-16 code units of a character sequence.
pub open spec fn utf16_len(s: Seq<char>) -> nat {
    utf16_encode(s).len()
}

pub proof fn lemma_utf16_encode_push(s: Seq<char>, c: char)
    ensures
        utf16_encode(s.push(c)) == utf16_encode(s) + char_utf16(c),
    decreases s.len(),
{
    if s.len() == 0 {
        assert(s.push(c).drop_first() =~= s);
        assert(utf16_encode(s.push(c)) =~= utf16_encode(s) + char_utf16(c));
    } else {
        lemma_utf16_encode_push(s.drop_first(), c);
        assert(s.push(c).drop_first() =~= s.drop_first().push(c));
        assert(utf16_encode(s.push(c)) =~= utf16_encode(s) + char_utf16(c));
    }
}

pub proof fn lemma_char_utf16_shape(c: char)
    ensures
        (c as u32) < 0x10000 ==> char_utf16(c).len() == 1 && !is_high_surrogate(
            char_utf16(c)[0],
        ) && !is_low_surrogate(char_utf16(c)[0]) && char_utf16(c)[0] as char == c,
        (c as u32) >= 0x10000 ==> char_utf16(c).len() == 2 && is_high_surrogate(char_utf16(c)[0])
            && is_low_surrogate(char_utf16(c)[1]) && surrogate_pair_char(
            char_utf16(c)[0],
            char_utf16(c)[1],
        ) == c,
{
    let v = c as u32;
    if v < 0x10000 {
        assert(v < 0xD800 || v > 0xDFFF);
        assert((v as u16) as u32 == v);
        assert((c as u16) == (v as u16));
        assert(((c as u16) as char) as u32 == v);
    } else {
        let w = v - 0x10000;
        assert(w < 0x100000);
        assert(w / 0x400 < 0x400);
        assert(w % 0x400 < 0x400);
        assert((w / 0x400) * 0x400 + w % 0x400 == w);
    }
}

/// Decoding undoes encoding: every character sequence survives a round trip
/// through UTF-16.
pub proof fn lemma_utf16_roundtrip(s: Seq<char>)
    ensures
        utf16_decode_lossy(utf16_encode(s)) == s,
    decreases s.len(),
{
    if s.len() == 0 {
    } else {
        let c = s[0];
        let rest = s.drop_first();
        lemma_utf16_roundtrip(rest);
        lemma_char_utf16_shape(c);
        let e = utf16_encode(s);
        let cu = char_utf16(c);
        assert(e == cu + utf16_encode(rest));
        if (c as u32) < 0x10000 {
            assert(e.skip(1) =~= utf16_encode(rest));
            assert(e[0] == cu[0]);
        } else {
            assert(e.skip(2) =~= utf16_encode(rest));
            assert(e[0] == cu[0]);
            assert(e[1] == cu[1]);
        }
        assert(utf16_decode_lossy(e) =~= seq![c] + rest);
        assert(s =~= seq![c] + rest);
    }
}

pub proof fn lemma_utf16_encode_concat(a: Seq<char>, b: Seq<char>)
    ensures
        utf16_encode(a + b) == utf16_encode(a) + utf16_encode(b),
    decreases a.len(),
{
    if a.len() == 0 {
        assert(a + b =~= b);
        assert(utf16_encode(a) + utf16_encode(b) =~= utf16_encode(b));
    } else {
        lemma_utf16_encode_concat(a.drop_first(), b);
        assert((a + b).drop_first() =~= a.drop_first() + b);
        assert((a + b)[0] == a[0]);
        assert(utf16_encode(a + b) =~= utf16_encode(a) + utf16_encode(b));
    }
}

/// Counting the characters in the code units that encode the first `k`
/// characters of a line gives `k`: a caret offset in UTF-16 code units maps
/// back to the caret's character index.
pub proof fn law_utf16_offset_maps_to_char_index(s: Seq<char>, k: int)
    requires
        0 <= k <= s.len(),
    ensures
        utf16_len(s.take(k)) <= utf16_encode(s).len(),
        utf16_decode_lossy(utf16_encode(s).take(utf16_len(s.take(k)) as int)).len() == k,
{
    assert(s =~= s.take(k) + s.skip(k));
    lemma_utf16_encode_concat(s.take(k), s.skip(k));
    let e = utf16_encode(s);
    let p = utf16_encode(s.take(k));
    assert(e.take(p.len() as int) =~= p);
    lemma_utf16_roundtrip(s.take(k));
}

/// Encodes a string as UTF-16 code units.
pub fn encode_utf16(value: &str) -> (units: Vec<u16>)
    ensures
        units@ == utf16_encode(value@),
{
    let mut units: Vec<u16> = Vec::new();
    let ghost mut done: Seq<char> = Seq::empty();
    for c in it: value.chars()
        invariant
            it.seq() == value@,
            done == it.seq().take(it.index() as int),
            units@ == utf16_encode(done),
    {
        proof {
            lemma_utf16_encode_push(done, c);
            lemma_char_utf16_shape(c);
        }
        let v = c as u32;
        if v < 0x10000 {
            units.push(v as u16);
            proof {
                assert((c as u16) == (v as u16));
            }
        } else {
            let w = v - 0x10000;
            units.push((0xD800 + w / 0x400) as u16);
            units.push((0xDC00 + w % 0x400) as u16);
        }
        proof {
            done = done.push(c);
        }
        assert(units@ =~= utf16_encode(done));
    }
    proof {
        assert(done =~= value@);
    }
    units
}

/// The number of UTF-16 code units of a string.
pub fn utf16_count(value: &str) -> (n: usize)
    ensures
        n == utf16_len(value@),
{
    encode_utf16(value).len()
}

/// The UTF-16 code units of `value` followed by a terminating zero.
pub fn wide_null(value: &str) -> (units: Vec<u16>)
    ensures
        units@ == utf16_encode(value@).push(0u16),
{
    let mut units = encode_utf16(value);
    units.push(0);
    units
}

pub proof fn lemma_decode_step(units: Seq<u16>, i: int)
    requires
        0 <= i < units.len(),
    ensures
        units.len() - i >= 2 && is_high_surrogate(units[i]) && is_low_surrogate(units[i + 1])
            ==> utf16_decode_lossy(units.skip(i)).len() == 1 + utf16_decode_lossy(
            units.skip(i + 2),
        ).len(),
        !(units.len() - i >= 2 && is_high_surrogate(units[i]) && is_low_surrogate(units[i + 1]))
            ==> utf16_decode_lossy(units.skip(i)).len() == 1 + utf16_decode_lossy(
            units.skip(i + 1),
        ).len(),
{
    let t = units.skip(i);
    if units.len() - i >= 2 {
        assert(t.skip(2) =~= units.skip(i + 2));
    }
    assert(t.skip(1) =~= units.skip(i + 1));
}

/// The number of characters that the first `utf16_units` code units decode to,
/// or `None` when the slice has fewer code units than that.
pub fn utf16_units_to_char_index(utf16_slice: &[u16], utf16_units: usize) -> (r: Option<usize>)
    ensures
        r == (if utf16_units > utf16_slice@.len() {
            None::<usize>
        } else {
            Some(utf16_decode_lossy(utf16_slice@.take(utf16_units as int)).len() as usize)
        }),
{
    if utf16_units > utf16_slice.len() {
        return None;
    }
    let ghost t = utf16_slice@.take(utf16_units as int);
    let mut i: usize = 0;
    let mut count: usize = 0;
    while i < utf16_units
        invariant
            utf16_units <= utf16_slice@.len(),
            t == utf16_slice@.take(utf16_units as int),
            i <= utf16_units,
            count <= i,
            count + utf16_decode_lossy(t.skip(i as int)).len() == utf16_decode_lossy(t).len(),
        decreases utf16_units - i,
    {
        proof {
            lemma_decode_step(t, i as int);
        }
        if i + 1 < utf16_units && 0xD800 <= utf16_slice[i] && utf16_slice[i] <= 0xDBFF && 0xDC00
            <= utf16_slice[i + 1] && utf16_slice[i + 1] <= 0xDFFF {
            i = i + 2;
        } else {
            i = i + 1;
        }
        count = count + 1;
    }
    proof {
        assert(t.skip(i as int).len() == 0);
        assert(utf16_decode_lossy(t) =~= utf16_decode_lossy(t).take(count as int));
    }
    Some(count)
}

/// Copies `value` as zero-terminated UTF-16 into `buffer`, cutting it off when it
/// does not fit; a cut-off copy still ends in a zero.
pub fn copy_wide_string_into_buffer<const N: usize>(value: &str, buffer: &mut [u16; N])
    requires
        N > 0,
    ensures
        ({
            let encoded = utf16_encode(value@).push(0u16);
            let len = if encoded.len() < N { encoded.len() } else { N as nat };
            &&& forall|i: int|
                0 <= i < len && !(len == N && i == N - 1) ==> final(buffer)@[i] == encoded[i]
            &&& len == N ==> final(buffer)@[N - 1] == 0u16
            &&& forall|i: int| len <= i < N ==> final(buffer)@[i] == old(buffer)@[i]
        }),
{
    let encoded = wide_null(value);
    let len = if encoded.len() < N {
        encoded.len()
    } else {
        N
    };
    let mut i: usize = 0;
    while i < len
        invariant
            len <= N,
            len <= encoded.len(),
            i <= len,
            buffer@.len() == N,
            forall|j: int| 0 <= j < i ==> buffer@[j] == encoded@[j],
            forall|j: int| i <= j < N ==> buffer@[j] == old(buffer)@[j],
        decreases len - i,
    {
        buffer[i] = encoded[i];
        i = i + 1;
    }
    if len == N {
        buffer[N - 1] = 0;
    }
}

} // verus!
