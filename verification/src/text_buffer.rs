use vstd::prelude::*;

verus! {

// ---------------------------------------------------------------------------
// Characters and strings
// ---------------------------------------------------------------------------

/// Whether `c` has the Unicode `White_Space` property, as `char::is_whitespace` decides it.
pub uninterp spec fn is_whitespace_char(c: char) -> bool;

/// Calls `char::is_whitespace` (std). Its documentation says that it tests the Unicode
/// `White_Space` property; the set of such characters is not written out here, the result is
/// named `is_whitespace_char` and depends on `c` alone.
#[verifier::external_body]
fn char_is_whitespace(c: char) -> (r: bool)
    ensures
        r == is_whitespace_char(c),
{
    c.is_whitespace()
}

/// Calls `String::push` (std), which appends one character at the end of the string.
#[verifier::external_body]
fn string_push(s: &mut String, c: char)
    ensures
        final(s)@ == old(s)@.push(c),
{
    s.push(c)
}

/// Collects the characters of `s` into a vector.
pub fn chars_of(s: &str) -> (v: Vec<char>)
    ensures
        v@ == s@,
{
    let mut v: Vec<char> = Vec::new();
    for c in it: s.chars()
        invariant
            v@ == it.seq().take(it.index() as int),
            it.seq() == s@,
    {
        v.push(c);
    }
    v
}

/// Builds a string from a sequence of characters.
pub fn string_from_chars(v: &Vec<char>) -> (s: String)
    ensures
        s@ == v@,
{
    let mut s = String::new();
    for i in 0..v.len()
        invariant
            s@ == v@.take(i as int),
    {
        assert(v@.take(i + 1) == v@.take(i as int).push(v@[i as int]));
        string_push(&mut s, v[i]);
    }
    assert(v@.take(v.len() as int) == v@);
    s
}

/// `v[0..start] ++ mid ++ v[end..]`.
fn splice(v: &Vec<char>, start: usize, end: usize, mid: &[char]) -> (r: Vec<char>)
    requires
        start <= end <= v.len(),
        v.len() + mid.len() <= usize::MAX,
    ensures
        r@ == v@.subrange(0, start as int) + mid@ + v@.subrange(end as int, v.len() as int),
{
    let mut r: Vec<char> = Vec::new();
    for i in 0..start
        invariant
            start <= end <= v.len(),
            r@ == v@.subrange(0, i as int),
    {
        r.push(v[i]);
    }
    for i in 0..mid.len()
        invariant
            start <= end <= v.len(),
            r@ == v@.subrange(0, start as int) + mid@.subrange(0, i as int),
    {
        r.push(mid[i]);
    }
    assert(mid@.subrange(0, mid@.len() as int) == mid@);
    let ghost head = r@;
    for i in end..v.len()
        invariant
            start <= end <= v.len(),
            head == v@.subrange(0, start as int) + mid@,
            r@ == head + v@.subrange(end as int, i as int),
    {
        r.push(v[i]);
    }
    r
}

// ---------------------------------------------------------------------------
// The model of a text buffer
// ---------------------------------------------------------------------------

/// What a text buffer holds: the text, the cursor and the start of the selection, both
/// measured in characters. There is a selection exactly when the two positions differ.
pub struct TextState {
    pub content: Seq<char>,
    pub cursor: int,
    pub selection_start: int,
}

/// Both positions lie inside the text (at most at its end).
pub open spec fn text_wf(st: TextState) -> bool {
    &&& 0 <= st.cursor <= st.content.len()
    &&& 0 <= st.selection_start <= st.content.len()
}

/// The selected range `[start, end)`, if any.
pub open spec fn text_selection(st: TextState) -> Option<(int, int)> {
    if st.selection_start == st.cursor {
        None
    } else if st.selection_start < st.cursor {
        Some((st.selection_start, st.cursor))
    } else {
        Some((st.cursor, st.selection_start))
    }
}

/// The selected characters, if any.
pub open spec fn text_selected(st: TextState) -> Option<Seq<char>> {
    match text_selection(st) {
        Some((s, e)) => Some(st.content.subrange(s, e)),
        None => None,
    }
}

/// Moves the cursor to `pos`, clamped to the end of the text; without `extend` the selection
/// collapses onto the new cursor.
pub open spec fn text_set_cursor(st: TextState, pos: int, extend: bool) -> TextState {
    let c = if pos <= st.content.len() { pos } else { st.content.len() as int };
    TextState {
        content: st.content,
        cursor: c,
        selection_start: if extend { st.selection_start } else { c },
    }
}

/// Selects the whole text, the cursor at its end.
pub open spec fn text_select_all(st: TextState) -> TextState {
    TextState { content: st.content, cursor: st.content.len() as int, selection_start: 0 }
}

/// Removes the selected characters and puts the cursor where they began.
pub open spec fn text_delete_selected(st: TextState) -> TextState {
    match text_selection(st) {
        Some((s, e)) => TextState {
            content: st.content.subrange(0, s) + st.content.subrange(e, st.content.len() as int),
            cursor: s,
            selection_start: s,
        },
        None => st,
    }
}

/// Replaces the selection (if any) by `t` and puts the cursor after the inserted text.
pub open spec fn text_insert(st: TextState, t: Seq<char>) -> TextState {
    let d = text_delete_selected(st);
    TextState {
        content: d.content.subrange(0, d.cursor) + t + d.content.subrange(
            d.cursor,
            d.content.len() as int,
        ),
        cursor: d.cursor + t.len(),
        selection_start: d.cursor + t.len(),
    }
}

/// Removes the selection, or else the character before the cursor.
pub open spec fn text_backspace(st: TextState) -> TextState {
    if text_selection(st) is Some {
        text_delete_selected(st)
    } else if st.cursor > 0 {
        let p = st.cursor - 1;
        TextState {
            content: st.content.subrange(0, p) + st.content.subrange(
                st.cursor,
                st.content.len() as int,
            ),
            cursor: p,
            selection_start: p,
        }
    } else {
        st
    }
}

/// Removes the selection, or else the character after the cursor.
pub open spec fn text_delete(st: TextState) -> TextState {
    if text_selection(st) is Some {
        text_delete_selected(st)
    } else if st.cursor < st.content.len() {
        TextState {
            content: st.content.subrange(0, st.cursor) + st.content.subrange(
                st.cursor + 1,
                st.content.len() as int,
            ),
            cursor: st.cursor,
            selection_start: st.selection_start,
        }
    } else {
        st
    }
}

/// From `pos`, moves left over characters whose whitespace-ness is `ws`.
pub open spec fn skip_left(s: Seq<char>, pos: int, ws: bool) -> int
    decreases pos,
{
    if pos <= 0 {
        0
    } else if is_whitespace_char(s[pos - 1]) == ws {
        skip_left(s, pos - 1, ws)
    } else {
        pos
    }
}

/// From `pos`, moves right over characters whose whitespace-ness is `ws`.
pub open spec fn skip_right(s: Seq<char>, pos: int, ws: bool) -> int
    decreases s.len() - pos,
{
    if pos >= s.len() {
        pos
    } else if is_whitespace_char(s[pos]) == ws {
        skip_right(s, pos + 1, ws)
    } else {
        pos
    }
}

/// The start of the word before `pos`: whitespace and then a word are skipped leftwards.
pub open spec fn word_left_target(s: Seq<char>, pos: int) -> int {
    skip_left(s, skip_left(s, pos, true), false)
}

/// The end of the word after `pos`: whitespace and then a word are skipped rightwards.
pub open spec fn word_right_target(s: Seq<char>, pos: int) -> int {
    skip_right(s, skip_right(s, pos, true), false)
}

/// Moves the cursor to the start of the previous word; nothing changes at the start of the text.
pub open spec fn text_move_word_left(st: TextState, extend: bool) -> TextState {
    if st.cursor == 0 {
        st
    } else {
        text_set_cursor(st, word_left_target(st.content, st.cursor), extend)
    }
}

/// Moves the cursor to the end of the next word.
pub open spec fn text_move_word_right(st: TextState, extend: bool) -> TextState {
    text_set_cursor(st, word_right_target(st.content, st.cursor), extend)
}

proof fn lemma_skip_left_bounds(s: Seq<char>, pos: int, ws: bool)
    requires
        0 <= pos <= s.len(),
    ensures
        0 <= skip_left(s, pos, ws) <= pos,
    decreases pos,
{
    if pos > 0 && is_whitespace_char(s[pos - 1]) == ws {
        lemma_skip_left_bounds(s, pos - 1, ws);
    }
}

proof fn lemma_skip_right_bounds(s: Seq<char>, pos: int, ws: bool)
    requires
        0 <= pos <= s.len(),
    ensures
        pos <= skip_right(s, pos, ws) <= s.len(),
    decreases s.len() - pos,
{
    if pos < s.len() && is_whitespace_char(s[pos]) == ws {
        lemma_skip_right_bounds(s, pos + 1, ws);
    }
}

/// Typing one character and pressing backspace gives back the text and the cursor one had,
/// when nothing was selected.
pub proof fn lemma_backspace_undoes_insert_char(st: TextState, c: char)
    requires
        text_wf(st),
        st.selection_start == st.cursor,
    ensures
        text_backspace(text_insert(st, seq![c])) == st,
{
    let i = text_insert(st, seq![c]);
    assert(i.content.subrange(0, st.cursor) == st.content.subrange(0, st.cursor));
    assert(i.content.subrange(st.cursor + 1, i.content.len() as int) == st.content.subrange(
        st.cursor,
        st.content.len() as int,
    ));
    assert(st.content.subrange(0, st.cursor) + st.content.subrange(
        st.cursor,
        st.content.len() as int,
    ) == st.content);
}

/// The state after `k` backspaces.
pub open spec fn text_backspaces(st: TextState, k: nat) -> TextState
    decreases k,
{
    if k == 0 {
        st
    } else {
        text_backspaces(text_backspace(st), (k - 1) as nat)
    }
}

proof fn lemma_backspaces_remove_typed(a: Seq<char>, t: Seq<char>, b: Seq<char>)
    ensures
        text_backspaces(
            TextState {
                content: a + t + b,
                cursor: (a.len() + t.len()) as int,
                selection_start: (a.len() + t.len()) as int,
            },
            t.len(),
        ) == (TextState { content: a + b, cursor: a.len() as int, selection_start: a.len() as int }),
    decreases t.len(),
{
    let st = TextState {
        content: a + t + b,
        cursor: (a.len() + t.len()) as int,
        selection_start: (a.len() + t.len()) as int,
    };
    if t.len() == 0 {
        assert(a + t + b == a + b);
    } else {
        let u = t.drop_last();
        let c = st.content;
        let p = st.cursor - 1;
        assert(c.subrange(0, p) + c.subrange(st.cursor, c.len() as int) == a + u + b);
        lemma_backspaces_remove_typed(a, u, b);
    }
}

/// Typing a text and pressing backspace once per typed character gives back the text and the
/// cursor one had, when nothing was selected.
pub proof fn lemma_backspaces_undo_insert(st: TextState, t: Seq<char>)
    requires
        text_wf(st),
        st.selection_start == st.cursor,
    ensures
        text_backspaces(text_insert(st, t), t.len()) == st,
{
    let a = st.content.subrange(0, st.cursor);
    let b = st.content.subrange(st.cursor, st.content.len() as int);
    assert(text_insert(st, t) == TextState {
        content: a + t + b,
        cursor: (a.len() + t.len()) as int,
        selection_start: (a.len() + t.len()) as int,
    });
    lemma_backspaces_remove_typed(a, t, b);
    assert(a + b == st.content);
}

/// Delete and backspace with a selection remove exactly the selected characters, from the
/// smaller of the two positions to the larger, and leave the cursor, with nothing selected,
/// where the selection began.
pub proof fn lemma_delete_removes_selection(st: TextState)
    requires
        text_wf(st),
        st.cursor != st.selection_start,
    ensures
        ({
            let s = if st.cursor < st.selection_start { st.cursor } else { st.selection_start };
            let e = if st.cursor < st.selection_start { st.selection_start } else { st.cursor };
            let expected = TextState {
                content: st.content.subrange(0, s) + st.content.subrange(e, st.content.len() as int),
                cursor: s,
                selection_start: s,
            };
            &&& text_delete(st) == expected
            &&& text_backspace(st) == expected
            &&& text_delete(st).content.len() == st.content.len() - (e - s)
        }),
{
}

/// Without a selection, delete removes the one character after the cursor (nothing at the end
/// of the text) and keeps the cursor; backspace removes the one before it (nothing at the
/// start) and moves the cursor back over it.
pub proof fn lemma_delete_without_selection(st: TextState)
    requires
        text_wf(st),
        st.cursor == st.selection_start,
    ensures
        st.cursor < st.content.len() ==> text_delete(st) == (TextState {
            content: st.content.subrange(0, st.cursor) + st.content.subrange(
                st.cursor + 1,
                st.content.len() as int,
            ),
            cursor: st.cursor,
            selection_start: st.cursor,
        }),
        st.cursor == st.content.len() ==> text_delete(st) == st,
        st.cursor > 0 ==> text_backspace(st) == (TextState {
            content: st.content.subrange(0, st.cursor - 1) + st.content.subrange(
                st.cursor,
                st.content.len() as int,
            ),
            cursor: st.cursor - 1,
            selection_start: st.cursor - 1,
        }),
        st.cursor == 0 ==> text_backspace(st) == st,
{
}

/// Deleting the selection and inserting the deleted text again gives back the text.
pub proof fn lemma_reinsert_deleted_selection(st: TextState)
    requires
        text_wf(st),
        text_selection(st) is Some,
    ensures
        text_insert(text_delete_selected(st), text_selected(st)->0).content == st.content,
{
    let (s, e) = text_selection(st)->0;
    let d = text_delete_selected(st);
    assert(d.content.subrange(0, s) == st.content.subrange(0, s));
    assert(d.content.subrange(s, d.content.len() as int) == st.content.subrange(
        e,
        st.content.len() as int,
    ));
    assert(st.content.subrange(0, s) + st.content.subrange(s, e) + st.content.subrange(
        e,
        st.content.len() as int,
    ) == st.content);
}

/// Selecting everything in a non-empty text selects the whole text.
pub proof fn lemma_select_all_selects_text(st: TextState)
    requires
        st.content.len() > 0,
    ensures
        text_selected(text_select_all(st)) == Some(st.content),
{
    assert(st.content.subrange(0, st.content.len() as int) == st.content);
}

/// A move by a word leftwards never goes right of the cursor, one rightwards never left of
/// it, and both stay inside the text.
pub proof fn lemma_word_moves_bounded(s: Seq<char>, pos: int)
    requires
        0 <= pos <= s.len(),
    ensures
        0 <= word_left_target(s, pos) <= pos,
        pos <= word_right_target(s, pos) <= s.len(),
{
    lemma_skip_left_bounds(s, pos, true);
    lemma_skip_left_bounds(s, skip_left(s, pos, true), false);
    lemma_skip_right_bounds(s, pos, true);
    lemma_skip_right_bounds(s, skip_right(s, pos, true), false);
}

// ---------------------------------------------------------------------------
// The buffer
// ---------------------------------------------------------------------------

/// An editable text with a cursor and a selection, as a text box edits it.
pub struct TextBuffer {
    content: String,
    cursor_pos: usize,
    selection_start: usize,
}

impl View for TextBuffer {
    type V = TextState;

    closed spec fn view(&self) -> TextState {
        TextState {
            content: self.content@,
            cursor: self.cursor_pos as int,
            selection_start: self.selection_start as int,
        }
    }
}

impl TextBuffer {
    #[verifier::type_invariant]
    closed spec fn inv(self) -> bool {
        &&& self.cursor_pos <= self.content@.len()
        &&& self.selection_start <= self.content@.len()
    }

    /// A buffer over `content`, the cursor at its end and nothing selected.
    pub fn new(content: String) -> (b: Self)
        ensures
            b@ == (TextState {
                content: content@,
                cursor: content@.len() as int,
                selection_start: content@.len() as int,
            }),
    {
        let len = chars_of(content.as_str()).len();
        TextBuffer { content, cursor_pos: len, selection_start: len }
    }

    /// The text.
    pub fn get_text_property(&self) -> (r: &String)
        ensures
            r@ == self@.content,
            text_wf(self@),
    {
        proof {
            use_type_invariant(self);
        }
        &self.content
    }

    /// The cursor position, in characters.
    pub fn get_cursor(&self) -> (r: usize)
        ensures
            r == self@.cursor,
            text_wf(self@),
    {
        proof {
            use_type_invariant(self);
        }
        self.cursor_pos
    }

    /// The position where the selection starts, in characters.
    pub fn get_selection_start(&self) -> (r: usize)
        ensures
            r == self@.selection_start,
            text_wf(self@),
    {
        proof {
            use_type_invariant(self);
        }
        self.selection_start
    }

    fn chars(&self) -> (v: Vec<char>)
        ensures
            v@ == self@.content,
            self.cursor_pos <= v.len(),
            self.selection_start <= v.len(),
    {
        proof {
            use_type_invariant(self);
        }
        chars_of(self.content.as_str())
    }

    /// Moves the cursor (clamped to the end of the text); without `extend_selection` the
    /// selection collapses onto it.
    pub fn set_cursor(&mut self, pos: usize, extend_selection: bool)
        ensures
            final(self)@ == text_set_cursor(old(self)@, pos as int, extend_selection),
            text_wf(final(self)@),
    {
        let len = self.chars().len();
        let c = if pos <= len {
            pos
        } else {
            len
        };
        let sel = if extend_selection {
            self.selection_start
        } else {
            c
        };
        proof {
            use_type_invariant(&*self);
        }
        self.cursor_pos = c;
        self.selection_start = sel;
    }

    /// The selected range `(start, end)` with `start < end`, or `None` without a selection.
    pub fn get_selection(&self) -> (r: Option<(usize, usize)>)
        ensures
            match text_selection(self@) {
                Some((s, e)) => r == Some((s as usize, e as usize)),
                None => r is None,
            },
    {
        if self.selection_start == self.cursor_pos {
            None
        } else if self.selection_start < self.cursor_pos {
            Some((self.selection_start, self.cursor_pos))
        } else {
            Some((self.cursor_pos, self.selection_start))
        }
    }

    /// Selects the whole text.
    pub fn select_all(&mut self)
        ensures
            final(self)@ == text_select_all(old(self)@),
            text_wf(final(self)@),
    {
        let len = self.chars().len();
        self.selection_start = 0;
        self.cursor_pos = len;
    }

    /// The selected text, or `None` without a selection.
    pub fn get_selected_string(&self) -> (r: Option<String>)
        ensures
            match text_selected(self@) {
                Some(t) => r is Some && r->0@ == t,
                None => r is None,
            },
    {
        match self.get_selection() {
            Some((start, end)) => {
                let v = self.chars();
                let sel = splice(&v, 0, start, &[]);
                let sel = splice(&sel, end - start, sel.len(), &[]);
                assert(sel@ == v@.subrange(start as int, end as int));
                Some(string_from_chars(&sel))
            },
            None => None,
        }
    }

    /// Removes the selected text and returns it; `None` (and no change) without a selection.
    pub fn delete_selected_text(&mut self) -> (r: Option<String>)
        ensures
            final(self)@ == text_delete_selected(old(self)@),
            text_wf(final(self)@),
            match text_selected(old(self)@) {
                Some(t) => r is Some && r->0@ == t,
                None => r is None,
            },
    {
        proof {
            use_type_invariant(&*self);
        }
        match self.get_selection() {
            Some((start, end)) => {
                let selected = self.get_selected_string();
                let v = self.chars();
                let nv = splice(&v, start, end, &[]);
                let content = string_from_chars(&nv);
                *self = TextBuffer { content, cursor_pos: start, selection_start: start };
                selected
            },
            None => None,
        }
    }

    /// Replaces the selection (if any) by `s`; the cursor goes after the inserted text.
    pub fn insert_str(&mut self, s: &str)
        requires
            old(self)@.content.len() + s@.len() <= usize::MAX,
        ensures
            final(self)@ == text_insert(old(self)@, s@),
            text_wf(final(self)@),
    {
        proof {
            use_type_invariant(&*self);
        }
        self.delete_selected_text();
        let start_pos = self.cursor_pos;
        let v = self.chars();
        let t = chars_of(s);
        let nv = splice(&v, start_pos, start_pos, t.as_slice());
        let content = string_from_chars(&nv);
        let c = start_pos + t.len();
        *self = TextBuffer { content, cursor_pos: c, selection_start: c };
    }

    /// Removes the selection, or else the character before the cursor.
    pub fn backspace(&mut self)
        ensures
            final(self)@ == text_backspace(old(self)@),
            text_wf(final(self)@),
    {
        if self.delete_selected_text().is_none() && self.cursor_pos > 0 {
            let pos = self.cursor_pos - 1;
            let v = self.chars();
            let nv = splice(&v, pos, pos + 1, &[]);
            let content = string_from_chars(&nv);
            *self = TextBuffer { content, cursor_pos: pos, selection_start: pos };
        }
    }

    /// Removes the selection, or else the character after the cursor.
    pub fn delete(&mut self)
        ensures
            final(self)@ == text_delete(old(self)@),
            text_wf(final(self)@),
    {
        if self.delete_selected_text().is_none() {
            let pos = self.cursor_pos;
            let v = self.chars();
            if pos < v.len() {
                let nv = splice(&v, pos, pos + 1, &[]);
                let content = string_from_chars(&nv);
                *self = TextBuffer { content, cursor_pos: pos, selection_start: pos };
            }
        }
    }

    /// Moves the cursor to the start of the previous word (whitespace, then the word itself).
    pub fn move_word_left(&mut self, extend_selection: bool)
        ensures
            final(self)@ == text_move_word_left(old(self)@, extend_selection),
            text_wf(final(self)@),
    {
        let chars = self.chars();
        if self.cursor_pos == 0 {
            proof {
                use_type_invariant(&*self);
            }
            return;
        }
        let mut pos = self.cursor_pos;
        while pos > 0 && char_is_whitespace(chars[pos - 1])
            invariant
                pos <= self.cursor_pos <= chars.len(),
                skip_left(chars@, pos as int, true) == skip_left(
                    chars@,
                    self.cursor_pos as int,
                    true,
                ),
            decreases pos,
        {
            pos -= 1;
        }
        let ghost p1 = pos as int;
        while pos > 0 && !char_is_whitespace(chars[pos - 1])
            invariant
                pos <= p1 <= chars.len(),
                p1 == skip_left(chars@, self.cursor_pos as int, true),
                skip_left(chars@, pos as int, false) == skip_left(chars@, p1, false),
            decreases pos,
        {
            pos -= 1;
        }
        self.set_cursor(pos, extend_selection);
    }

    /// Moves the cursor to the end of the next word (whitespace, then the word itself).
    pub fn move_word_right(&mut self, extend_selection: bool)
        ensures
            final(self)@ == text_move_word_right(old(self)@, extend_selection),
            text_wf(final(self)@),
    {
        let chars = self.chars();
        let mut pos = self.cursor_pos;
        while pos < chars.len() && char_is_whitespace(chars[pos])
            invariant
                self.cursor_pos <= pos <= chars.len(),
                skip_right(chars@, pos as int, true) == skip_right(
                    chars@,
                    self.cursor_pos as int,
                    true,
                ),
            decreases chars.len() - pos,
        {
            pos += 1;
        }
        let ghost p1 = pos as int;
        while pos < chars.len() && !char_is_whitespace(chars[pos])
            invariant
                p1 <= pos <= chars.len(),
                p1 == skip_right(chars@, self.cursor_pos as int, true),
                skip_right(chars@, pos as int, false) == skip_right(chars@, p1, false),
            decreases chars.len() - pos,
        {
            pos += 1;
        }
        self.set_cursor(pos, extend_selection);
    }
}

} // verus!
