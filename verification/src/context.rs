//! A line of text with a caret position measured in characters.
use vstd::prelude::*;
use crate::text::string_chars;

verus! {

broadcast use vstd::seq_lib::group_seq_properties;

/// What a `LineContext` holds: the line's characters and the caret's character index.
pub ghost struct LineView {
    pub line: Seq<char>,
    pub cursor: nat,
}

/// A line of text and a caret position inside it (`0..=line length`, counted in characters).
pub struct LineContext {
    line: String,
    chars: Vec<char>,
    cursor: usize,
}

/// The characters after the caret, skipping the one the caret stands on.
pub open spec fn chars_after_spec(line: Seq<char>, cursor: nat) -> Seq<char> {
    if cursor < line.len() {
        line.skip(cursor + 1int)
    } else {
        Seq::empty()
    }
}

/// The characters before the caret, nearest first.
pub open spec fn chars_before_spec(line: Seq<char>, cursor: nat) -> Seq<char> {
    line.take(cursor as int).reverse()
}

impl View for LineContext {
    type V = LineView;

    closed spec fn view(&self) -> LineView {
        LineView { line: self.line@, cursor: self.cursor as nat }
    }
}

impl LineContext {
    #[verifier::type_invariant]
    spec fn well_formed(self) -> bool {
        &&& self.chars@ == self.line@
        &&& self.cursor <= self.chars@.len()
    }

    /// Builds a context; fails with `(cursor, character count)` when the caret
    /// lies beyond the end of the line.
    pub fn new(line: String, cursor: usize) -> (r: Result<Self, (usize, usize)>)
        ensures
            cursor <= line@.len() <==> r is Ok,
            r matches Ok(c) ==> c@.line == line@ && c@.cursor == cursor,
            r matches Err(e) ==> e == (cursor, line@.len() as usize),
    {
        let chars = string_chars(line.as_str());
        let char_count = chars.len();
        if cursor > char_count {
            return Err((cursor, char_count));
        }
        Ok(LineContext { line, chars, cursor })
    }

    /// The whole line.
    pub fn line(&self) -> (r: &str)
        ensures
            r@ == self@.line,
    {
        self.line.as_str()
    }

    /// The caret's character index.
    pub fn cursor(&self) -> (r: usize)
        ensures
            r == self@.cursor,
    {
        self.cursor
    }

    /// The character the caret stands on, if the caret is not at the end of the line.
    pub fn current_char(&self) -> (r: Option<char>)
        ensures
            r == (if self@.cursor < self@.line.len() {
                Some(self@.line[self@.cursor as int])
            } else {
                None::<char>
            }),
    {
        proof {
            use_type_invariant(self);
        }
        if self.cursor < self.chars.len() {
            Some(self.chars[self.cursor])
        } else {
            None
        }
    }

    /// The character just before the caret, if there is one.
    pub fn previous_char(&self) -> (r: Option<char>)
        ensures
            r == (if self@.cursor >= 1 {
                Some(self@.line[self@.cursor - 1])
            } else {
                None::<char>
            }),
    {
        proof {
            use_type_invariant(self);
        }
        if self.cursor >= 1 {
            Some(self.chars[self.cursor - 1])
        } else {
            None
        }
    }

    /// The character just after the one the caret stands on, if there is one.
    pub fn next_char(&self) -> (r: Option<char>)
        ensures
            r == (if self@.cursor + 1 < self@.line.len() {
                Some(self@.line[self@.cursor + 1int])
            } else {
                None::<char>
            }),
    {
        proof {
            use_type_invariant(self);
        }
        if self.cursor < self.chars.len() && self.cursor + 1 < self.chars.len() {
            Some(self.chars[self.cursor + 1])
        } else {
            None
        }
    }

    /// The characters before the caret, nearest first.
    pub fn chars_before_cursor(&self) -> (r: Vec<char>)
        ensures
            r@ == chars_before_spec(self@.line, self@.cursor),
    {
        proof {
            use_type_invariant(self);
        }
        let mut r: Vec<char> = Vec::new();
        let mut i: usize = self.cursor;
        while i > 0
            invariant
                self.chars@ == self@.line,
                i <= self.cursor <= self.chars@.len(),
                r@ == self.chars@.subrange(i as int, self.cursor as int).reverse(),
            decreases i,
        {
            i = i - 1;
            r.push(self.chars[i]);
            assert(r@ =~= self.chars@.subrange(i as int, self.cursor as int).reverse());
        }
        assert(self.chars@.subrange(0, self.cursor as int) =~= self.chars@.take(
            self.cursor as int,
        ));
        r
    }

    /// The characters after the one the caret stands on, in order.
    pub fn chars_after_cursor(&self) -> (r: Vec<char>)
        ensures
            r@ == chars_after_spec(self@.line, self@.cursor),
    {
        proof {
            use_type_invariant(self);
        }
        let mut r: Vec<char> = Vec::new();
        if self.cursor >= self.chars.len() {
            return r;
        }
        let mut i: usize = self.cursor + 1;
        while i < self.chars.len()
            invariant
                self.chars@ == self@.line,
                self.cursor < self.chars@.len(),
                self.cursor + 1 <= i <= self.chars@.len(),
                r@ == self.chars@.subrange(self.cursor + 1, i as int),
            decreases self.chars.len() - i,
        {
            r.push(self.chars[i]);
            i = i + 1;
            assert(r@ =~= self.chars@.subrange(self.cursor + 1, i as int));
        }
        r
    }
}

} // verus!
