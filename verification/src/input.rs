//! The input bar: a line of text, a cursor and the lines entered before.
//!
//! The cursor counts bytes and moves by one of them at a time.

use crate::text::{push_text, texts, trim, trimmed, Edge};
use vstd::prelude::*;
use vstd::utf8::{decode_utf8, encode_utf8, is_char_boundary};

verus! {

// ---------------------------------------------------------------------------
// Places in a text, counted in bytes
// ---------------------------------------------------------------------------

/// The length of a text in bytes.
pub open spec fn byte_len(s: Seq<char>) -> nat {
    encode_utf8(s).len()
}

/// Whether a character begins at a place, or the text ends there.
pub open spec fn boundary(s: Seq<char>, at: int) -> bool {
    is_char_boundary(encode_utf8(s), at)
}

/// The characters before a place.
pub open spec fn chars_before(s: Seq<char>, at: int) -> Seq<char> {
    decode_utf8(encode_utf8(s).subrange(0, at))
}

/// The characters from a place on.
pub open spec fn chars_from(s: Seq<char>, at: int) -> Seq<char> {
    decode_utf8(encode_utf8(s).subrange(at, byte_len(s) as int))
}

proof fn lemma_encode_concat(x: Seq<char>, y: Seq<char>)
    ensures
        encode_utf8(x + y) == encode_utf8(x) + encode_utf8(y),
    decreases x.len(),
{
    if x.len() == 0 {
        assert(x + y =~= y);
        assert(encode_utf8(x) + encode_utf8(y) =~= encode_utf8(y));
    } else {
        lemma_encode_concat(x.drop_first(), y);
        assert((x + y).drop_first() =~= x.drop_first() + y);
        assert(encode_utf8(x + y) =~= encode_utf8(x) + encode_utf8(y));
    }
}

proof fn lemma_char_has_bytes(s: Seq<char>)
    requires
        s.len() > 0,
    ensures
        byte_len(s) >= 1,
{
}

/// Two halves of a text meet at a boundary and are found again there.
proof fn lemma_halves(x: Seq<char>, y: Seq<char>)
    ensures
        boundary(x + y, byte_len(x) as int),
        chars_before(x + y, byte_len(x) as int) == x,
        chars_from(x + y, byte_len(x) as int) == y,
    decreases x.len(),
{
    lemma_encode_concat(x, y);
    let b = encode_utf8(x + y);
    vstd::utf8::encode_utf8_valid_utf8(x + y);
    vstd::utf8::encode_utf8_decode_utf8(x);
    vstd::utf8::encode_utf8_decode_utf8(y);
    assert(b.subrange(0, byte_len(x) as int) =~= encode_utf8(x));
    assert(b.subrange(byte_len(x) as int, b.len() as int) =~= encode_utf8(y));
    if x.len() > 0 {
        let z = x.drop_first();
        lemma_halves(z, y);
        assert((x + y).drop_first() =~= z + y);
        vstd::utf8::encode_utf8_first_scalar(x + y);
        assert((x + y)[0] == x[0]);
        assert(vstd::utf8::pop_first_scalar(b) =~= encode_utf8(z + y));
        assert(byte_len(x) - vstd::utf8::length_of_first_scalar(b) == byte_len(z));
    }
}

/// A boundary cuts a text in two.
proof fn lemma_cut(s: Seq<char>, at: int)
    requires
        boundary(s, at),
        0 <= at <= byte_len(s),
    ensures
        chars_before(s, at) + chars_from(s, at) == s,
        byte_len(chars_before(s, at)) == at,
{
    let b = encode_utf8(s);
    vstd::utf8::encode_utf8_valid_utf8(s);
    vstd::utf8::encode_utf8_decode_utf8(s);
    vstd::utf8::valid_utf8_split(b, at);
    vstd::utf8::decode_utf8_split(b, at);
    vstd::utf8::decode_utf8_encode_utf8(b.subrange(0, at));
}

/// In a text of ASCII characters every place is a boundary, and bytes are
/// characters.
pub proof fn law_ascii_places(s: Seq<char>, at: int)
    requires
        vstd::utf8::is_ascii_chars(s),
        0 <= at <= s.len(),
    ensures
        byte_len(s) == s.len(),
        boundary(s, at),
        chars_before(s, at) == s.subrange(0, at),
        chars_from(s, at) == s.subrange(at, s.len() as int),
{
    let x = s.subrange(0, at);
    let y = s.subrange(at, s.len() as int);
    assert(x + y =~= s);
    vstd::utf8::is_ascii_chars_encode_utf8(s);
    vstd::utf8::is_ascii_chars_encode_utf8(x);
    lemma_halves(x, y);
}

// ---------------------------------------------------------------------------
// The bar
// ---------------------------------------------------------------------------

/// The input bar.
pub struct InputBar {
    pub text: String,
    /// The place of the cursor, in bytes.
    pub cursor: usize,
    pub history: Vec<String>,
    /// The entry of the history that is shown, while one is.
    pub history_idx: Option<usize>,
}

/// The model of an [`InputBar`].
pub struct InputView {
    pub text: Seq<char>,
    pub cursor: int,
    pub history: Seq<Seq<char>>,
    pub history_idx: Option<usize>,
}

impl View for InputBar {
    type V = InputView;

    open spec fn view(&self) -> InputView {
        InputView {
            text: self.text@,
            cursor: self.cursor as int,
            history: texts(self.history@),
            history_idx: self.history_idx,
        }
    }
}

/// The bar with a character typed at the cursor, which moves by a byte.
pub open spec fn typed(v: InputView, c: char) -> InputView {
    InputView {
        text: chars_before(v.text, v.cursor).push(c) + chars_from(v.text, v.cursor),
        cursor: v.cursor + 1,
        ..v
    }
}

/// A text without the character at a place.
pub open spec fn without_char(s: Seq<char>, at: int) -> Seq<char> {
    chars_before(s, at) + chars_from(s, at).subrange(1, chars_from(s, at).len() as int)
}

/// The bar after the backspace key.
pub open spec fn backspaced(v: InputView) -> InputView {
    if v.cursor > 0 {
        InputView { text: without_char(v.text, v.cursor - 1), cursor: v.cursor - 1, ..v }
    } else {
        v
    }
}

/// The bar after the delete key.
pub open spec fn deleted(v: InputView) -> InputView {
    if v.cursor < byte_len(v.text) {
        InputView { text: without_char(v.text, v.cursor), ..v }
    } else {
        v
    }
}

/// The bar with the cursor a byte further to the left, where there is one.
pub open spec fn moved_left(v: InputView) -> InputView {
    InputView {
        cursor: if v.cursor > 0 {
            v.cursor - 1
        } else {
            v.cursor
        },
        ..v
    }
}

/// The bar with the cursor a byte further to the right, where there is one.
pub open spec fn moved_right(v: InputView) -> InputView {
    InputView {
        cursor: if v.cursor < byte_len(v.text) {
            v.cursor + 1
        } else {
            v.cursor
        },
        ..v
    }
}

/// The bar with a text and the cursor behind it.
pub open spec fn showing(v: InputView, text: Seq<char>) -> InputView {
    InputView { text, cursor: byte_len(text) as int, ..v }
}

/// The bar without a text.
pub open spec fn cleared(v: InputView) -> InputView {
    InputView { text: seq![], cursor: 0, ..v }
}

/// The entry of the history that the up key leads to.
pub open spec fn older_index(v: InputView) -> int {
    match v.history_idx {
        Some(i) => if i > 0 {
            i - 1
        } else {
            i as int
        },
        None => v.history.len() - 1,
    }
}

/// The bar after the up key: the next older entry, the last one at first.
pub open spec fn older(v: InputView) -> InputView {
    if v.history.len() == 0 {
        v
    } else {
        InputView {
            history_idx: Some(older_index(v) as usize),
            ..showing(v, v.history[older_index(v)])
        }
    }
}

/// The bar after the down key: the next newer entry, and nothing behind the
/// newest.
pub open spec fn newer(v: InputView) -> InputView {
    match v.history_idx {
        Some(i) => if i + 1 < v.history.len() {
            InputView { history_idx: Some((i + 1) as usize), ..showing(v, v.history[i + 1]) }
        } else {
            InputView { history_idx: None, ..cleared(v) }
        },
        None => v,
    }
}

/// The bar with a line entered into the history.
pub open spec fn recorded(v: InputView, line: Seq<char>) -> InputView {
    InputView { history: v.history.push(line), history_idx: None, ..v }
}

fn text_bytes(s: &str) -> (r: usize)
    ensures
        r == byte_len(s@),
{
    s.as_bytes().len()
}

impl InputBar {
    /// The cursor is in the text, and the entry that is shown exists.
    pub open spec fn wf(&self) -> bool {
        &&& self.cursor <= byte_len(self.text@)
        &&& self.history_idx matches Some(i) ==> i < self.history@.len()
    }

    /// The model of an empty bar.
    pub open spec fn new_view() -> InputView {
        InputView { text: seq![], cursor: 0, history: seq![], history_idx: None }
    }

    /// An empty bar.
    pub fn new() -> (r: InputBar)
        ensures
            r.wf(),
            r@ == InputBar::new_view(),
    {
        let r = InputBar {
            text: String::new(),
            cursor: 0,
            history: Vec::new(),
            history_idx: None,
        };
        assert(r@.text =~= seq![]);
        assert(r@.history =~= seq![]);
        r
    }

    /// Types a character.
    pub fn type_char(&mut self, c: char)
        requires
            old(self).wf(),
            boundary(old(self)@.text, old(self)@.cursor),
        ensures
            final(self).wf(),
            final(self)@ == typed(old(self)@, c),
    {
        let ghost s = self.text@;
        let at: usize = self.cursor;
        let (a, b) = self.text.as_str().split_at(at);
        let mut t = a.to_owned();
        t.push(c);
        t.append(b);
        proof {
            let x = chars_before(s, at as int);
            let y = chars_from(s, at as int);
            lemma_cut(s, at as int);
            vstd::utf8::encode_utf8_decode_utf8(a@);
            vstd::utf8::encode_utf8_decode_utf8(b@);
            assert(a@ == x);
            assert(b@ == y);
            lemma_encode_concat(x.push(c), y);
            lemma_encode_concat(x, seq![c]);
            assert(x.push(c) =~= x + seq![c]);
            lemma_char_has_bytes(seq![c]);
        }
        let n: usize = text_bytes(t.as_str());
        assert(at < n);
        self.text = t;
        self.cursor = at + 1;
    }

    fn remove_at(&mut self, at: usize)
        requires
            at < byte_len(old(self)@.text),
            boundary(old(self)@.text, at as int),
        ensures
            final(self)@ == (InputView {
                text: without_char(old(self)@.text, at as int),
                ..old(self)@
            }),
            at <= byte_len(final(self)@.text),
            final(self).history == old(self).history,
            final(self).history_idx == old(self).history_idx,
    {
        let ghost s = self.text@;
        let (a, b) = self.text.as_str().split_at(at);
        proof {
            lemma_cut(s, at as int);
            vstd::utf8::encode_utf8_decode_utf8(a@);
            vstd::utf8::encode_utf8_decode_utf8(b@);
            assert(a@ == chars_before(s, at as int));
            assert(b@ == chars_from(s, at as int));
            if b@.len() == 0 {
                assert(encode_utf8(b@).len() == 0);
            }
        }
        let n: usize = b.unicode_len();
        let rest = b.substring_char(1, n);
        let mut t = a.to_owned();
        t.append(rest);
        proof {
            lemma_encode_concat(a@, rest@);
        }
        self.text = t;
    }

    /// Removes the character before the cursor.
    pub fn backspace(&mut self)
        requires
            old(self).wf(),
            old(self)@.cursor > 0 ==> boundary(old(self)@.text, old(self)@.cursor - 1),
        ensures
            final(self).wf(),
            final(self)@ == backspaced(old(self)@),
    {
        if self.cursor > 0 {
            self.cursor = self.cursor - 1;
            let at: usize = self.cursor;
            self.remove_at(at);
        }
    }

    /// Removes the character at the cursor.
    pub fn delete(&mut self)
        requires
            old(self).wf(),
            old(self)@.cursor < byte_len(old(self)@.text) ==> boundary(
                old(self)@.text,
                old(self)@.cursor,
            ),
        ensures
            final(self).wf(),
            final(self)@ == deleted(old(self)@),
    {
        let n: usize = text_bytes(self.text.as_str());
        if self.cursor < n {
            let at: usize = self.cursor;
            self.remove_at(at);
        }
    }

    /// Moves the cursor to the left.
    pub fn left(&mut self)
        requires
            old(self).wf(),
        ensures
            final(self).wf(),
            final(self)@ == moved_left(old(self)@),
    {
        if self.cursor > 0 {
            self.cursor = self.cursor - 1;
        }
    }

    /// Moves the cursor to the right.
    pub fn right(&mut self)
        requires
            old(self).wf(),
        ensures
            final(self).wf(),
            final(self)@ == moved_right(old(self)@),
    {
        let n: usize = text_bytes(self.text.as_str());
        if self.cursor < n {
            self.cursor = self.cursor + 1;
        }
    }

    /// Moves the cursor to the start.
    pub fn home(&mut self)
        requires
            old(self).wf(),
        ensures
            final(self).wf(),
            final(self)@ == (InputView { cursor: 0, ..old(self)@ }),
    {
        self.cursor = 0;
    }

    /// Moves the cursor to the end.
    pub fn end(&mut self)
        requires
            old(self).wf(),
        ensures
            final(self).wf(),
            final(self)@ == showing(old(self)@, old(self)@.text),
    {
        self.cursor = text_bytes(self.text.as_str());
    }

    /// Empties the bar.
    pub fn clear(&mut self)
        requires
            old(self).wf(),
        ensures
            final(self).wf(),
            final(self)@ == cleared(old(self)@),
    {
        self.text = String::new();
        self.cursor = 0;
        assert(self@.text =~= seq![]);
    }

    /// Shows the next older entry of the history.
    pub fn up(&mut self)
        requires
            old(self).wf(),
        ensures
            final(self).wf(),
            final(self)@ == older(old(self)@),
    {
        if self.history.len() > 0 {
            let idx: usize = match self.history_idx {
                Some(i) => if i > 0 {
                    i - 1
                } else {
                    i
                },
                None => self.history.len() - 1,
            };
            self.history_idx = Some(idx);
            self.text = self.history[idx].clone();
            self.cursor = text_bytes(self.text.as_str());
        }
    }

    /// Shows the next newer entry of the history.
    pub fn down(&mut self)
        requires
            old(self).wf(),
        ensures
            final(self).wf(),
            final(self)@ == newer(old(self)@),
    {
        let n: usize = self.history.len();
        match self.history_idx {
            Some(idx) => {
                if idx + 1 < n {
                    self.history_idx = Some(idx + 1);
                    self.text = self.history[idx + 1].clone();
                    self.cursor = text_bytes(self.text.as_str());
                } else {
                    self.history_idx = None;
                    self.clear();
                }
            },
            None => {},
        }
    }

    /// Enters a line into the history.
    pub fn record(&mut self, line: &str)
        requires
            old(self).wf(),
        ensures
            final(self).wf(),
            final(self)@ == recorded(old(self)@, line@),
    {
        push_text(&mut self.history, line);
        self.history_idx = None;
    }

    /// The text without white space around it.
    pub fn line(&self) -> (r: String)
        ensures
            r@ == trimmed(Edge::White, self@.text),
    {
        trim(Edge::White, self.text.as_str())
    }
}

// ---------------------------------------------------------------------------
// Laws
// ---------------------------------------------------------------------------

/// Typing a character and taking it back leaves the bar as it was.
pub proof fn law_type_then_backspace(v: InputView, c: char)
    requires
        0 <= v.cursor <= byte_len(v.text),
        boundary(v.text, v.cursor),
    ensures
        boundary(typed(v, c).text, typed(v, c).cursor - 1),
        backspaced(typed(v, c)) == v,
{
    let x = chars_before(v.text, v.cursor);
    let y = chars_from(v.text, v.cursor);
    lemma_cut(v.text, v.cursor);
    let z = seq![c] + y;
    assert(typed(v, c).text =~= x + z);
    lemma_halves(x, z);
    assert(z.subrange(1, z.len() as int) =~= y);
    assert(backspaced(typed(v, c)).text =~= v.text);
}

/// A character deleted at the cursor is the one that stands there: what is
/// before it and what is behind it stay.
pub proof fn law_delete_takes_one(x: Seq<char>, c: char, y: Seq<char>, v: InputView)
    requires
        v.text == x + seq![c] + y,
        v.cursor == byte_len(x),
    ensures
        boundary(v.text, v.cursor),
        deleted(v) == (InputView { text: x + y, ..v }),
{
    let z = seq![c] + y;
    assert(v.text =~= x + z);
    lemma_halves(x, z);
    lemma_encode_concat(x, z);
    lemma_char_has_bytes(z);
    assert(z.subrange(1, z.len() as int) =~= y);
}

/// While all characters are ASCII, the cursor can edit wherever it stands,
/// and typing one more keeps it so.
pub proof fn law_ascii_stays_editable(v: InputView, c: char)
    requires
        vstd::utf8::is_ascii_chars(v.text),
        vstd::utf8::is_ascii_chars(seq![c]),
        0 <= v.cursor <= byte_len(v.text),
    ensures
        boundary(v.text, v.cursor),
        v.cursor > 0 ==> boundary(v.text, v.cursor - 1),
        vstd::utf8::is_ascii_chars(typed(v, c).text),
        typed(v, c).cursor <= byte_len(typed(v, c).text),
        typed(v, c).text == v.text.subrange(0, v.cursor).push(c) + v.text.subrange(
            v.cursor,
            v.text.len() as int,
        ),
{
    vstd::utf8::is_ascii_chars_encode_utf8(v.text);
    law_ascii_places(v.text, v.cursor);
    if v.cursor > 0 {
        law_ascii_places(v.text, v.cursor - 1);
    }
    let t = typed(v, c).text;
    assert(seq![c][0] == c);
    assert forall|i: int| 0 <= i < t.len() implies '\0' <= #[trigger] t[i] <= '\u{7f}' by {
        if i < v.cursor {
            assert(t[i] == v.text[i]);
        } else if i > v.cursor {
            assert(t[i] == v.text[i - 1]);
        }
    }
    vstd::utf8::is_ascii_chars_encode_utf8(t);
}

/// A line that has been entered is what the up key brings back first.
pub proof fn law_up_recalls_last_line(v: InputView, line: Seq<char>)
    requires
        v.history.len() < usize::MAX,
    ensures
        older(cleared(recorded(v, line))).text == line,
        older(cleared(recorded(v, line))).cursor == byte_len(line),
{
}

/// From an empty bar, up and down leave it empty.
pub proof fn law_up_then_down(v: InputView)
    requires
        v.text.len() == 0,
        v.cursor == 0,
        v.history_idx is None,
        v.history.len() <= usize::MAX,
    ensures
        newer(older(v)) == v,
{
    assert(v.text =~= seq![]);
}

/// A character typed between two halves of a text stands between them, as it
/// is; the cursor moves on by a byte, and the history stays.
pub proof fn law_typed_character_stands_at_the_cursor(
    x: Seq<char>,
    y: Seq<char>,
    v: InputView,
    c: char,
)
    requires
        v.text == x + y,
        v.cursor == byte_len(x),
    ensures
        typed(v, c) == (InputView { text: x + seq![c] + y, cursor: v.cursor + 1, ..v }),
{
    lemma_halves(x, y);
    assert(x.push(c) + y =~= x + seq![c] + y);
}

/// The backspace key takes the ASCII character before the cursor, and nothing
/// else; at the start of the text it does nothing.
pub proof fn law_backspace_takes_the_one_before(
    x: Seq<char>,
    c: char,
    y: Seq<char>,
    v: InputView,
)
    requires
        v.text == x + seq![c] + y,
        c as int <= 0x7f,
        v.cursor == byte_len(x) + 1,
    ensures
        backspaced(v) == (InputView { text: x + y, cursor: v.cursor - 1, ..v }),
        backspaced(InputView { cursor: 0, ..v }) == (InputView { cursor: 0, ..v }),
{
    let z = seq![c] + y;
    assert(v.text =~= x + z);
    lemma_halves(x, z);
    assert(z.subrange(1, z.len() as int) =~= y);
}

/// The delete key does nothing at the end of the text.
pub proof fn law_delete_at_the_end(v: InputView)
    requires
        v.cursor >= byte_len(v.text),
    ensures
        deleted(v) == v,
{
}

/// The arrow keys move the cursor by a byte and keep it in the text; nothing
/// else moves. Away from the ends each undoes the other.
pub proof fn law_arrows_move_by_one(v: InputView)
    requires
        0 <= v.cursor <= byte_len(v.text),
    ensures
        v.cursor > 0 ==> moved_left(v) == (InputView { cursor: v.cursor - 1, ..v }) && moved_right(
            moved_left(v),
        ) == v,
        v.cursor == 0 ==> moved_left(v) == v,
        v.cursor < byte_len(v.text) ==> moved_right(v) == (InputView { cursor: v.cursor + 1, ..v })
            && moved_left(moved_right(v)) == v,
        v.cursor == byte_len(v.text) ==> moved_right(v) == v,
{
}

/// The up key walks through the history from the newest entry to the oldest
/// and stays there, each entry shown as it was entered with the cursor behind
/// it; without a history it does nothing.
pub proof fn law_up_walks_to_the_oldest(v: InputView)
    requires
        v.history.len() <= usize::MAX,
        v.history_idx matches Some(i) ==> i < v.history.len(),
    ensures
        v.history.len() == 0 ==> older(v) == v,
        v.history.len() > 0 ==> {
            let w = older(v);
            let shown = match v.history_idx {
                None => v.history.len() - 1,
                Some(i) if i > 0 => i - 1,
                Some(i) => 0,
            };
            &&& w.history == v.history
            &&& w.history_idx == Some(shown as usize)
            &&& w.text == v.history[shown]
            &&& w.cursor == byte_len(w.text)
        },
{
}

/// The down key walks through the history towards the newest entry, and from
/// there to an empty bar; where no entry is shown it does nothing.
pub proof fn law_down_walks_to_the_newest(v: InputView)
    requires
        v.history.len() <= usize::MAX,
        v.history_idx matches Some(i) ==> i < v.history.len(),
    ensures
        v.history_idx is None ==> newer(v) == v,
        newer(v).history == v.history,
        v.history_idx matches Some(i) ==> {
            let w = newer(v);
            &&& i + 1 < v.history.len() ==> w.text == v.history[i + 1] && w.history_idx == Some(
                (i + 1) as usize,
            ) && w.cursor == byte_len(w.text)
            &&& i + 1 == v.history.len() ==> w.text.len() == 0 && w.history_idx is None && w.cursor
                == 0
        },
{
}

/// Up and down undo each other within the history.
pub proof fn law_down_undoes_up(v: InputView)
    requires
        v.history.len() <= usize::MAX,
        v.history_idx matches Some(i) && 0 < i < v.history.len(),
    ensures
        newer(older(v)).text == v.history[v.history_idx->0 as int],
        newer(older(v)).history_idx == v.history_idx,
{
}

} // verus!
