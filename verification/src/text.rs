//! Text as a sequence of characters: trimming, splitting, padding, counting.

use vstd::prelude::*;

verus! {

/// Appends one character to a string, as `String::push` documents.
pub assume_specification[ String::push ](s: &mut String, ch: char)
    ensures
        final(s)@ == old(s)@.push(ch),
;

// ---------------------------------------------------------------------------
// Copies, comparison, concatenation
// ---------------------------------------------------------------------------

/// The characters of a text, in order.
pub fn chars_of(s: &str) -> (r: Vec<char>)
    ensures
        r@ == s@,
{
    let mut r: Vec<char> = Vec::new();
    let n: usize = s.unicode_len();
    let mut it = s.chars();
    let mut i: usize = 0;
    while i < n
        invariant
            i <= n,
            n == s@.len(),
            r@ == s@.subrange(0, i as int),
            vstd::std_specs::iter::IteratorSpec::remaining(&it) == s@.subrange(i as int, n as int),
        decreases n - i,
    {
        match it.next() {
            Some(c) => {
                r.push(c);
            },
            None => {},
        }
        i = i + 1;
    }
    r
}

/// The text made of the given characters from `from` up to `to`.
pub fn text_of(chars: &Vec<char>, from: usize, to: usize) -> (r: String)
    requires
        from <= to <= chars@.len(),
    ensures
        r@ == chars@.subrange(from as int, to as int),
{
    let mut r = String::new();
    let mut i: usize = from;
    while i < to
        invariant
            from <= i <= to <= chars@.len(),
            r@ == chars@.subrange(from as int, i as int),
        decreases to - i,
    {
        r.push(chars[i]);
        i = i + 1;
    }
    r
}

/// Whether two texts hold the same characters.
pub fn same_text(a: &str, b: &str) -> (r: bool)
    ensures
        r == (a@ == b@),
{
    let x = a.as_bytes();
    let y = b.as_bytes();
    proof {
        vstd::utf8::encode_utf8_decode_utf8(a@);
        vstd::utf8::encode_utf8_decode_utf8(b@);
    }
    if x.len() != y.len() {
        return false;
    }
    let n: usize = x.len();
    let mut i: usize = 0;
    while i < n
        invariant
            i <= n,
            n == x@.len(),
            n == y@.len(),
            x@ == vstd::utf8::encode_utf8(a@),
            y@ == vstd::utf8::encode_utf8(b@),
            forall|k: int| 0 <= k < i ==> x@[k] == y@[k],
        decreases n - i,
    {
        if x[i] != y[i] {
            return false;
        }
        i = i + 1;
    }
    assert(x@ =~= y@);
    true
}

/// Two texts, one after the other.
pub fn concat2(a: &str, b: &str) -> (r: String)
    ensures
        r@ == a@ + b@,
{
    let mut r = a.to_owned();
    r.append(b);
    r
}

/// Three texts, one after the other.
pub fn concat3(a: &str, b: &str, c: &str) -> (r: String)
    ensures
        r@ == a@ + b@ + c@,
{
    let mut r = a.to_owned();
    r.append(b);
    r.append(c);
    r
}

/// The views of a list of texts.
pub open spec fn texts(v: Seq<String>) -> Seq<Seq<char>> {
    v.map_values(|t: String| t@)
}

/// Adds a copy of a text at the end of a list.
pub fn push_text(v: &mut Vec<String>, t: &str)
    ensures
        texts(final(v)@) == texts(old(v)@).push(t@),
{
    let ghost before = v@;
    v.push(t.to_owned());
    assert(texts(v@) =~= texts(before).push(t@));
}

/// A list of one text.
pub fn one_text(a: &str) -> (r: Vec<String>)
    ensures
        texts(r@) == seq![a@],
{
    let mut r: Vec<String> = Vec::new();
    push_text(&mut r, a);
    assert(texts(r@) =~= seq![a@]);
    r
}

/// A list of two texts.
pub fn two_texts(a: &str, b: &str) -> (r: Vec<String>)
    ensures
        texts(r@) == seq![a@, b@],
{
    let mut r: Vec<String> = Vec::new();
    push_text(&mut r, a);
    push_text(&mut r, b);
    assert(texts(r@) =~= seq![a@, b@]);
    r
}

// ---------------------------------------------------------------------------
// White space and trimming
// ---------------------------------------------------------------------------

/// The characters with the Unicode property White_Space.
pub open spec fn is_white(c: char) -> bool {
    let u = c as int;
    ||| 0x09 <= u <= 0x0d
    ||| u == 0x20
    ||| u == 0x85
    ||| u == 0xa0
    ||| u == 0x1680
    ||| 0x2000 <= u <= 0x200a
    ||| u == 0x2028
    ||| u == 0x2029
    ||| u == 0x202f
    ||| u == 0x205f
    ||| u == 0x3000
}

/// Whether a character is white space.
pub fn is_white_space(c: char) -> (r: bool)
    ensures
        r == is_white(c),
{
    ('\u{9}' <= c && c <= '\u{d}') || c == '\u{20}' || c == '\u{85}' || c == '\u{a0}' || c
        == '\u{1680}' || ('\u{2000}' <= c && c <= '\u{200a}') || c == '\u{2028}' || c == '\u{2029}'
        || c == '\u{202f}' || c == '\u{205f}' || c == '\u{3000}'
}

/// What is cut off at the two ends of a text.
#[derive(Clone, Copy, Debug, PartialEq, Eq, Structural)]
pub enum Edge {
    /// White space.
    White,
    /// Double quotation marks.
    Quote,
}

impl Edge {
    /// Whether a character at the end of a text is cut off.
    pub open spec fn strips(self, c: char) -> bool {
        match self {
            Edge::White => is_white(c),
            Edge::Quote => c == '"',
        }
    }

    fn cuts(self, c: char) -> (r: bool)
        ensures
            r == self.strips(c),
    {
        match self {
            Edge::White => is_white_space(c),
            Edge::Quote => c == '"',
        }
    }
}

/// A text without the characters that are cut off at its start.
pub open spec fn trim_start(edge: Edge, s: Seq<char>) -> Seq<char>
    decreases s.len(),
{
    if s.len() > 0 && edge.strips(s[0]) {
        trim_start(edge, s.subrange(1, s.len() as int))
    } else {
        s
    }
}

/// A text without the characters that are cut off at its end.
pub open spec fn trim_end(edge: Edge, s: Seq<char>) -> Seq<char>
    decreases s.len(),
{
    if s.len() > 0 && edge.strips(s.last()) {
        trim_end(edge, s.drop_last())
    } else {
        s
    }
}

/// A text without the characters that are cut off at its two ends.
pub open spec fn trimmed(edge: Edge, s: Seq<char>) -> Seq<char> {
    trim_end(edge, trim_start(edge, s))
}

proof fn lemma_trim_start(edge: Edge, s: Seq<char>, i: int)
    requires
        0 <= i <= s.len(),
        forall|k: int| 0 <= k < i ==> edge.strips(s[k]),
        i == s.len() || !edge.strips(s[i]),
    ensures
        trim_start(edge, s) == s.subrange(i, s.len() as int),
    decreases i,
{
    if i == 0 {
        assert(s.subrange(0, s.len() as int) =~= s);
    } else {
        let t = s.subrange(1, s.len() as int);
        assert(forall|k: int| 0 <= k < i - 1 ==> t[k] == s[k + 1]);
        lemma_trim_start(edge, t, i - 1);
        assert(t.subrange(i - 1, t.len() as int) =~= s.subrange(i, s.len() as int));
    }
}

proof fn lemma_trim_end(edge: Edge, s: Seq<char>, j: int)
    requires
        0 <= j <= s.len(),
        forall|k: int| j <= k < s.len() ==> edge.strips(s[k]),
        j == 0 || !edge.strips(s[j - 1]),
    ensures
        trim_end(edge, s) == s.subrange(0, j),
    decreases s.len() - j,
{
    if j == s.len() {
        assert(s.subrange(0, j) =~= s);
    } else {
        lemma_trim_end(edge, s.drop_last(), j);
        assert(s.drop_last().subrange(0, j) =~= s.subrange(0, j));
    }
}

/// Cuts white space or quotation marks off the two ends of a text.
pub fn trim(edge: Edge, s: &str) -> (r: String)
    ensures
        r@ == trimmed(edge, s@),
{
    let cs = chars_of(s);
    let n: usize = cs.len();
    let mut i: usize = 0;
    while i < n && edge.cuts(cs[i])
        invariant
            i <= n,
            n == cs@.len(),
            forall|k: int| 0 <= k < i ==> edge.strips(cs@[k]),
        decreases n - i,
    {
        i = i + 1;
    }
    let mut j: usize = n;
    while i < j && edge.cuts(cs[j - 1])
        invariant
            i <= j <= n,
            n == cs@.len(),
            forall|k: int| j <= k < n ==> edge.strips(cs@[k]),
        decreases j,
    {
        j = j - 1;
    }
    proof {
        lemma_trim_start(edge, cs@, i as int);
        let t = cs@.subrange(i as int, n as int);
        assert(forall|k: int| j - i <= k < t.len() ==> t[k] == cs@[k + i]);
        lemma_trim_end(edge, t, j - i);
        assert(t.subrange(0, j - i) =~= cs@.subrange(i as int, j as int));
    }
    text_of(&cs, i, j)
}

// ---------------------------------------------------------------------------
// Prefixes, search, words
// ---------------------------------------------------------------------------

/// Whether a text begins with another.
pub open spec fn has_prefix(s: Seq<char>, p: Seq<char>) -> bool {
    p.len() <= s.len() && s.subrange(0, p.len() as int) == p
}

/// What follows a prefix.
pub open spec fn after(s: Seq<char>, p: Seq<char>) -> Seq<char> {
    s.subrange(p.len() as int, s.len() as int)
}

/// The rest of a text behind a prefix, or nothing when it begins otherwise.
pub fn strip_prefix(s: &str, p: &str) -> (r: Option<String>)
    ensures
        r is Some <==> has_prefix(s@, p@),
        r matches Some(t) ==> t@ == after(s@, p@),
{
    let n: usize = s.unicode_len();
    let m: usize = p.unicode_len();
    if n < m {
        return None;
    }
    let head = s.substring_char(0, m);
    if same_text(head, p) {
        Some(s.substring_char(m, n).to_owned())
    } else {
        None
    }
}

/// Whether a text begins with another.
pub fn starts_with(s: &str, p: &str) -> (r: bool)
    ensures
        r == has_prefix(s@, p@),
{
    strip_prefix(s, p).is_some()
}

/// Whether a text holds another at some place.
pub open spec fn has_part(s: Seq<char>, p: Seq<char>) -> bool {
    exists|i: int|
        0 <= i && i + p.len() <= s.len() && #[trigger] s.subrange(i, i + p.len()) == p
}

/// Whether a text holds another at some place.
pub fn contains(s: &str, p: &str) -> (r: bool)
    ensures
        r == has_part(s@, p@),
{
    let n: usize = s.unicode_len();
    let m: usize = p.unicode_len();
    if n < m {
        return false;
    }
    let mut i: usize = 0;
    while i <= n - m
        invariant
            m <= n,
            i <= n - m + 1,
            n == s@.len(),
            m == p@.len(),
            forall|k: int| 0 <= k < i ==> #[trigger] s@.subrange(k, k + m) != p@,
        decreases n - m + 1 - i,
    {
        if same_text(s.substring_char(i, i + m), p) {
            return true;
        }
        if i == n - m {
            return false;
        }
        i = i + 1;
    }
    false
}

/// The words completed and the word begun when a text has been read up to
/// its end.
pub open spec fn split_words(s: Seq<char>) -> (Seq<Seq<char>>, Seq<char>)
    decreases s.len(),
{
    if s.len() == 0 {
        (seq![], seq![])
    } else {
        let (done, cur) = split_words(s.drop_last());
        if !is_white(s.last()) {
            (done, cur.push(s.last()))
        } else if cur.len() > 0 {
            (done.push(cur), seq![])
        } else {
            (done, seq![])
        }
    }
}

/// The words of a text: its longest runs without white space.
pub open spec fn words(s: Seq<char>) -> Seq<Seq<char>> {
    let (done, cur) = split_words(s);
    if cur.len() > 0 {
        done.push(cur)
    } else {
        done
    }
}

/// Splits a text into its words.
pub fn split_whitespace(s: &str) -> (r: Vec<String>)
    ensures
        texts(r@) == words(s@),
{
    let cs = chars_of(s);
    let n: usize = cs.len();
    let mut r: Vec<String> = Vec::new();
    let mut cur = String::new();
    let mut started: bool = false;
    let mut i: usize = 0;
    assert(cs@.subrange(0, 0) =~= seq![]);
    while i < n
        invariant
            i <= n,
            n == cs@.len(),
            split_words(cs@.subrange(0, i as int)) == (texts(r@), cur@),
            started == (cur@.len() > 0),
        decreases n - i,
    {
        let c = cs[i];
        assert(cs@.subrange(0, i + 1).drop_last() =~= cs@.subrange(0, i as int));
        let ghost before = r@;
        if !is_white_space(c) {
            cur.push(c);
            started = true;
        } else if started {
            let ghost word = cur;
            r.push(cur);
            assert(texts(r@) =~= texts(before).push(word@));
            cur = String::new();
            started = false;
        }
        i = i + 1;
    }
    assert(cs@.subrange(0, n as int) =~= cs@);
    if started {
        let ghost before = r@;
        let ghost word = cur;
        r.push(cur);
        assert(texts(r@) =~= texts(before).push(word@));
    }
    r
}

// ---------------------------------------------------------------------------
// Numbers, padding, shortening
// ---------------------------------------------------------------------------

/// The decimal digit of a number below ten.
pub open spec fn digit(d: nat) -> char {
    (48 + d) as char
}

/// A number in decimal digits, without leading zeros.
pub open spec fn digits(n: nat) -> Seq<char>
    decreases n,
{
    if n < 10 {
        seq![digit(n)]
    } else {
        digits(n / 10).push(digit(n % 10))
    }
}

/// A number in decimal digits, with a sign when it is negative.
pub open spec fn signed_digits(n: int) -> Seq<char> {
    if n < 0 {
        seq!['-'] + digits((-n) as nat)
    } else {
        digits(n as nat)
    }
}

/// Writes a number in decimal digits.
pub fn decimal(n: u64) -> (r: String)
    ensures
        r@ == digits(n as nat),
    decreases n,
{
    let low: u8 = (n % 10) as u8;
    let c: char = (48 + low) as char;
    if n < 10 {
        let mut r = String::new();
        r.push(c);
        assert(r@ =~= digits(n as nat));
        r
    } else {
        let mut r = decimal(n / 10);
        r.push(c);
        r
    }
}

/// Writes a signed number in decimal digits.
pub fn signed_decimal(n: i32) -> (r: String)
    ensures
        r@ == signed_digits(n as int),
{
    if n < 0 {
        let m: u64 = (-(n as i64)) as u64;
        let d = decimal(m);
        let mut r = String::new();
        r.push('-');
        r.append(d.as_str());
        assert(r@ =~= seq!['-'] + digits(m as nat));
        r
    } else {
        decimal(n as u64)
    }
}

/// The same character, a number of times.
pub open spec fn repeated(c: char, n: nat) -> Seq<char> {
    Seq::new(n, |i: int| c)
}

/// Writes the same character a number of times.
pub fn repeat(c: char, n: usize) -> (r: String)
    ensures
        r@ == repeated(c, n as nat),
{
    let mut r = String::new();
    let mut i: usize = 0;
    while i < n
        invariant
            i <= n,
            r@ == repeated(c, i as nat),
        decreases n - i,
    {
        r.push(c);
        i = i + 1;
        assert(r@ =~= repeated(c, i as nat));
    }
    r
}

/// The blanks that a text lacks to a width.
pub open spec fn fill(s: Seq<char>, width: nat) -> Seq<char> {
    repeated(' ', if s.len() < width { (width - s.len()) as nat } else { 0 })
}

/// A text filled up with blanks on the right.
pub open spec fn left_aligned(s: Seq<char>, width: nat) -> Seq<char> {
    s + fill(s, width)
}

/// A text filled up with blanks on the left.
pub open spec fn right_aligned(s: Seq<char>, width: nat) -> Seq<char> {
    fill(s, width) + s
}

fn blanks(s: &str, width: usize) -> (r: String)
    ensures
        r@ == fill(s@, width as nat),
{
    let n: usize = s.unicode_len();
    if n < width {
        repeat(' ', width - n)
    } else {
        repeat(' ', 0)
    }
}

/// Fills a text up with blanks on the right.
pub fn pad_right(s: &str, width: usize) -> (r: String)
    ensures
        r@ == left_aligned(s@, width as nat),
{
    concat2(s, blanks(s, width).as_str())
}

/// Fills a text up with blanks on the left.
pub fn pad_left(s: &str, width: usize) -> (r: String)
    ensures
        r@ == right_aligned(s@, width as nat),
{
    concat2(blanks(s, width).as_str(), s)
}

/// The first characters of a text, at most `n` of them.
pub open spec fn first_chars(s: Seq<char>, n: nat) -> Seq<char> {
    if s.len() <= n {
        s
    } else {
        s.subrange(0, n as int)
    }
}

/// Keeps the first characters of a text, at most `n` of them.
pub fn take_chars(s: &str, n: usize) -> (r: String)
    ensures
        r@ == first_chars(s@, n as nat),
{
    if s.unicode_len() <= n {
        s.to_owned()
    } else {
        s.substring_char(0, n).to_owned()
    }
}

/// A text shortened to a number of characters, the last of which is then an
/// ellipsis.
pub open spec fn shortened(s: Seq<char>, max: nat) -> Seq<char> {
    if s.len() <= max {
        s
    } else {
        s.subrange(0, if max == 0 { 0 } else { max - 1 }).push('\u{2026}')
    }
}

/// Shortens a text to at most `max` characters (to one, the ellipsis, when
/// `max` is zero); a text that fits is kept as it is.
pub fn truncate(s: &str, max: usize) -> (r: String)
    ensures
        r@ == shortened(s@, max as nat),
{
    if s.unicode_len() <= max {
        return s.to_owned();
    }
    let keep: usize = if max == 0 { 0 } else { max - 1 };
    let mut r = s.substring_char(0, keep).to_owned();
    r.push('\u{2026}');
    r
}

/// A text with a middle dot between blanks in place of each line break.
pub open spec fn on_one_line(s: Seq<char>) -> Seq<char>
    decreases s.len(),
{
    if s.len() == 0 {
        seq![]
    } else if s.last() == '\n' {
        on_one_line(s.drop_last()) + " \u{b7} "@
    } else {
        on_one_line(s.drop_last()).push(s.last())
    }
}

/// Replaces each line break by a middle dot between blanks.
pub fn flatten_lines(s: &str) -> (r: String)
    ensures
        r@ == on_one_line(s@),
{
    let cs = chars_of(s);
    let n: usize = cs.len();
    let mut r = String::new();
    let mut i: usize = 0;
    while i < n
        invariant
            i <= n,
            n == cs@.len(),
            r@ == on_one_line(cs@.subrange(0, i as int)),
        decreases n - i,
    {
        assert(cs@.subrange(0, i + 1).drop_last() =~= cs@.subrange(0, i as int));
        if cs[i] == '\n' {
            r.append(" \u{b7} ");
        } else {
            r.push(cs[i]);
        }
        i = i + 1;
    }
    assert(cs@.subrange(0, n as int) =~= cs@);
    r
}

/// Texts in a row with a middle dot between blanks in between.
pub open spec fn joined(parts: Seq<Seq<char>>) -> Seq<char>
    decreases parts.len(),
{
    if parts.len() == 0 {
        seq![]
    } else if parts.len() == 1 {
        parts[0]
    } else {
        joined(parts.drop_last()) + " \u{b7} "@ + parts.last()
    }
}

/// Joins texts with a middle dot between blanks.
pub fn join(parts: &Vec<String>) -> (r: String)
    ensures
        r@ == joined(texts(parts@)),
{
    let n: usize = parts.len();
    let mut r = String::new();
    let mut i: usize = 0;
    while i < n
        invariant
            i <= n,
            n == parts@.len(),
            r@ == joined(texts(parts@).subrange(0, i as int)),
        decreases n - i,
    {
        let ghost all = texts(parts@);
        assert(all.subrange(0, i + 1).drop_last() =~= all.subrange(0, i as int));
        if i > 0 {
            r.append(" \u{b7} ");
        }
        r.append(parts[i].as_str());
        i = i + 1;
        if i == 1 {
            assert(r@ =~= all.subrange(0, 1)[0]);
        }
    }
    assert(texts(parts@).subrange(0, n as int) =~= texts(parts@));
    r
}

// ---------------------------------------------------------------------------
// Laws
// ---------------------------------------------------------------------------

proof fn lemma_trim_start_part(edge: Edge, s: Seq<char>) -> (i: int)
    ensures
        0 <= i <= s.len(),
        trim_start(edge, s) == s.subrange(i, s.len() as int),
        i < s.len() ==> !edge.strips(s[i]),
        forall|k: int| 0 <= k < i ==> edge.strips(#[trigger] s[k]),
    decreases s.len(),
{
    if s.len() > 0 && edge.strips(s[0]) {
        let t = s.subrange(1, s.len() as int);
        let j = lemma_trim_start_part(edge, t);
        assert(t.subrange(j, t.len() as int) =~= s.subrange(j + 1, s.len() as int));
        assert forall|k: int| 0 <= k < j + 1 implies edge.strips(#[trigger] s[k]) by {
            if k > 0 {
                assert(t[k - 1] == s[k]);
            }
        }
        j + 1
    } else {
        assert(s.subrange(0, s.len() as int) =~= s);
        0
    }
}

proof fn lemma_trim_end_part(edge: Edge, s: Seq<char>) -> (j: int)
    ensures
        0 <= j <= s.len(),
        trim_end(edge, s) == s.subrange(0, j),
        j > 0 ==> !edge.strips(s[j - 1]),
        forall|k: int| j <= k < s.len() ==> edge.strips(#[trigger] s[k]),
    decreases s.len(),
{
    if s.len() > 0 && edge.strips(s.last()) {
        let t = s.drop_last();
        let j = lemma_trim_end_part(edge, t);
        assert(t.subrange(0, j) =~= s.subrange(0, j));
        assert forall|k: int| j <= k < s.len() implies edge.strips(#[trigger] s[k]) by {
            if k < t.len() {
                assert(t[k] == s[k]);
            }
        }
        j
    } else {
        assert(s.subrange(0, s.len() as int) =~= s);
        s.len() as int
    }
}

/// A trimmed text is the part of the text from the first to the last character
/// that is not cut off; trimming it again changes nothing.
pub proof fn law_trimmed_part(edge: Edge, s: Seq<char>)
    ensures
        exists|i: int, j: int|
            #![trigger s.subrange(i, j)]
            0 <= i <= j <= s.len() && trimmed(edge, s) == s.subrange(i, j) && (forall|k: int|
                0 <= k < i || j <= k < s.len() ==> edge.strips(#[trigger] s[k])),
        trimmed(edge, s).len() > 0 ==> !edge.strips(trimmed(edge, s)[0]) && !edge.strips(
            trimmed(edge, s).last(),
        ),
        trimmed(edge, trimmed(edge, s)) == trimmed(edge, s),
{
    let i = lemma_trim_start_part(edge, s);
    let t = s.subrange(i, s.len() as int);
    let j = lemma_trim_end_part(edge, t);
    let r = trimmed(edge, s);
    assert(r =~= s.subrange(i, i + j));
    assert forall|k: int| 0 <= k < i || i + j <= k < s.len() implies edge.strips(
        #[trigger] s[k],
    ) by {
        if k >= i + j {
            assert(t[k - i] == s[k]);
        }
    }
    if r.len() > 0 {
        assert(r[0] == s[i]);
        assert(r.last() == t[j - 1]);
    }
}

/// The words of a text are not empty and hold no white space.
pub proof fn law_words_hold_no_white_space(s: Seq<char>, i: int)
    requires
        0 <= i < words(s).len(),
    ensures
        words(s)[i].len() > 0,
        forall|k: int| 0 <= k < words(s)[i].len() ==> !is_white(#[trigger] words(s)[i][k]),
{
    lemma_split_words(s);
}

proof fn lemma_split_words(s: Seq<char>)
    ensures
        forall|i: int|
            0 <= i < split_words(s).0.len() ==> (#[trigger] split_words(s).0[i]).len() > 0,
        forall|i: int, k: int|
            0 <= i < split_words(s).0.len() && 0 <= k < split_words(s).0[i].len() ==> !is_white(
                #[trigger] split_words(s).0[i][k],
            ),
        forall|k: int|
            0 <= k < split_words(s).1.len() ==> !is_white(#[trigger] split_words(s).1[k]),
    decreases s.len(),
{
    if s.len() > 0 {
        lemma_split_words(s.drop_last());
        let (done, cur) = split_words(s.drop_last());
        let (more, next) = split_words(s);
        assert forall|i: int| 0 <= i < more.len() implies (#[trigger] more[i]).len() > 0 && (forall|
            k: int,
        |
            0 <= k < more[i].len() ==> !is_white(#[trigger] more[i][k])) by {
            if i < done.len() {
                assert(more[i] == done[i]);
            } else {
                assert(more[i] == cur);
            }
        }
        assert forall|k: int| 0 <= k < next.len() implies !is_white(#[trigger] next[k]) by {
            if k < cur.len() {
                assert(next[k] == cur[k]);
            }
        }
    }
}

/// A shortened text has no more characters than asked for, one at least where
/// it was longer; a text that fits is kept, and any other keeps its beginning
/// and ends in an ellipsis.
pub proof fn law_shortened_fits(s: Seq<char>, max: nat)
    ensures
        max > 0 ==> shortened(s, max).len() <= max,
        s.len() <= max ==> shortened(s, max) == s,
        s.len() > max ==> shortened(s, max).last() == '\u{2026}' && has_prefix(
            s,
            shortened(s, max).drop_last(),
        ),
{
    if s.len() > max {
        let kept = shortened(s, max).drop_last();
        assert(s.subrange(0, kept.len() as int) =~= kept);
    }
}

/// A flattened text holds no line break, and a text without one is kept.
pub proof fn law_flattened_is_one_line(s: Seq<char>)
    ensures
        !on_one_line(s).contains('\n'),
        !s.contains('\n') ==> on_one_line(s) == s,
    decreases s.len(),
{
    reveal_strlit(" \u{b7} ");
    if s.len() > 0 {
        let front = s.drop_last();
        law_flattened_is_one_line(front);
        let r = on_one_line(s);
        assert forall|k: int| 0 <= k < r.len() implies #[trigger] r[k] != '\n' by {
            if k < on_one_line(front).len() {
                assert(r[k] == on_one_line(front)[k]);
            }
        }
        if !s.contains('\n') {
            assert(s[s.len() - 1] != '\n');
            assert forall|k: int| 0 <= k < front.len() implies #[trigger] front[k] != '\n' by {
                assert(s[k] != '\n');
            }
            assert(front.push(s.last()) =~= s);
        }
    } else {
        assert(on_one_line(s) =~= s);
    }
}

/// Shortening a text brings no line break into it.
pub proof fn law_shortened_stays_one_line(s: Seq<char>, max: nat)
    requires
        !s.contains('\n'),
    ensures
        !shortened(s, max).contains('\n'),
{
    let r = shortened(s, max);
    assert forall|k: int| 0 <= k < r.len() implies #[trigger] r[k] != '\n' by {
        if s.len() <= max || k < r.len() - 1 {
            assert(r[k] == s[k]);
        }
    }
}

/// Texts of one line each are joined to one line.
pub proof fn law_joined_is_one_line(parts: Seq<Seq<char>>)
    requires
        forall|i: int| 0 <= i < parts.len() ==> !(#[trigger] parts[i]).contains('\n'),
    ensures
        !joined(parts).contains('\n'),
    decreases parts.len(),
{
    reveal_strlit(" \u{b7} ");
    if parts.len() > 1 {
        let front = parts.drop_last();
        assert forall|i: int| 0 <= i < front.len() implies !(#[trigger] front[i]).contains(
            '\n',
        ) by {
            assert(front[i] == parts[i]);
        }
        law_joined_is_one_line(front);
        let last = parts[parts.len() - 1];
        let before = joined(front) + " \u{b7} "@;
        let r = joined(parts);
        assert(r =~= before + last);
        assert forall|k: int| 0 <= k < r.len() implies #[trigger] r[k] != '\n' by {
            if k < joined(front).len() {
                assert(r[k] == joined(front)[k]);
            } else if k < before.len() {
                assert(r[k] == " \u{b7} "@[k - joined(front).len()]);
            } else {
                assert(r[k] == last[k - before.len()]);
            }
        }
    }
}

/// Of the ASCII characters the blank, the tabs and the breaks are white space;
/// each of the two edges cuts off its own characters.
pub proof fn law_what_is_cut_off(c: char)
    ensures
        (c as int) < 0x80 ==> (is_white(c) <==> c == ' ' || c == '\t' || c == '\n' || c == '\r' || c
            == '\u{b}' || c == '\u{c}'),
        c == '\u{a0}' || c == '\u{2003}' || c == '\u{2028}' || c == '\u{3000}' ==> is_white(c),
        Edge::White.strips(c) <==> is_white(c),
        Edge::Quote.strips(c) <==> c == '"',
{
}

/// Trimming takes what is to be cut off at the two ends, however much there
/// is of it, and leaves what stands between, whatever that holds inside.
pub proof fn law_trimming_leaves_the_core(
    edge: Edge,
    before: Seq<char>,
    core: Seq<char>,
    behind: Seq<char>,
)
    requires
        forall|i: int| 0 <= i < before.len() ==> edge.strips(#[trigger] before[i]),
        forall|i: int| 0 <= i < behind.len() ==> edge.strips(#[trigger] behind[i]),
        core.len() > 0 ==> !edge.strips(core[0]) && !edge.strips(core.last()),
    ensures
        trimmed(edge, before + core + behind) == core,
{
    let s = before + core + behind;
    if core.len() > 0 {
        lemma_trim_start(edge, s, before.len() as int);
        let t = s.subrange(before.len() as int, s.len() as int);
        assert(t =~= core + behind);
        lemma_trim_end(edge, t, core.len() as int);
        assert(t.subrange(0, core.len() as int) =~= core);
    } else {
        assert forall|k: int| 0 <= k < s.len() implies edge.strips(#[trigger] s[k]) by {
            if k < before.len() {
                assert(s[k] == before[k]);
            } else {
                assert(s[k] == behind[k - before.len()]);
            }
        }
        lemma_trim_start(edge, s, s.len() as int);
        let t = s.subrange(s.len() as int, s.len() as int);
        assert(t =~= core);
    }
}

/// A text begins with another if and only if it is that text with something
/// behind it, which is then what follows the prefix.
pub proof fn law_prefix_and_rest(s: Seq<char>, p: Seq<char>, rest: Seq<char>)
    ensures
        has_prefix(p + rest, p),
        after(p + rest, p) == rest,
        has_prefix(s, p) ==> s == p + after(s, p),
{
    assert((p + rest).subrange(0, p.len() as int) =~= p);
    assert(after(p + rest, p) =~= rest);
    if has_prefix(s, p) {
        assert(s =~= s.subrange(0, p.len() as int) + after(s, p));
    }
}

/// A text holds whatever it was put together from.
pub proof fn law_part_of_a_sum(a: Seq<char>, p: Seq<char>, b: Seq<char>)
    ensures
        has_part(a + p + b, p),
{
    let s = a + p + b;
    let i = a.len() as int;
    assert(s.subrange(i, i + p.len()) =~= p);
}

/// A text without white space is one word, and an empty text is none.
pub proof fn law_word_alone(w: Seq<char>)
    requires
        forall|k: int| 0 <= k < w.len() ==> !is_white(#[trigger] w[k]),
    ensures
        w.len() > 0 ==> words(w) == seq![w],
        w.len() == 0 ==> words(w).len() == 0,
{
    lemma_word_begun(w);
    assert(words(w) =~= if w.len() > 0 { seq![w] } else { seq![] });
}

proof fn lemma_word_begun(w: Seq<char>)
    requires
        forall|k: int| 0 <= k < w.len() ==> !is_white(#[trigger] w[k]),
    ensures
        split_words(w) == (Seq::<Seq<char>>::empty(), w),
    decreases w.len(),
{
    if w.len() > 0 {
        assert forall|k: int| 0 <= k < w.drop_last().len() implies !is_white(
            #[trigger] w.drop_last()[k],
        ) by {
            assert(w.drop_last()[k] == w[k]);
        }
        lemma_word_begun(w.drop_last());
        assert(w.drop_last().push(w.last()) =~= w);
    } else {
        assert(w =~= seq![]);
    }
}

/// White space parts the words before it from those behind it, and takes none
/// away.
pub proof fn law_words_part_at_white_space(a: Seq<char>, c: char, b: Seq<char>)
    requires
        is_white(c),
    ensures
        words(a.push(c) + b) == words(a) + words(b),
{
    lemma_split_behind_white(a, c, b);
    let (done, cur) = split_words(b);
    if cur.len() > 0 {
        assert((words(a) + done).push(cur) =~= words(a) + done.push(cur));
    }
}

proof fn lemma_split_behind_white(a: Seq<char>, c: char, b: Seq<char>)
    requires
        is_white(c),
    ensures
        split_words(a.push(c) + b) == (words(a) + split_words(b).0, split_words(b).1),
    decreases b.len(),
{
    let s = a.push(c) + b;
    if b.len() == 0 {
        assert(s =~= a.push(c));
        assert(s.drop_last() =~= a);
        assert(words(a) + Seq::<Seq<char>>::empty() =~= words(a));
    } else {
        lemma_split_behind_white(a, c, b.drop_last());
        assert(s.drop_last() =~= a.push(c) + b.drop_last());
        assert(s.last() == b.last());
        let (done, cur) = split_words(b.drop_last());
        assert((words(a) + done).push(cur) =~= words(a) + done.push(cur));
    }
}

/// The number that a row of decimal digits stands for.
pub open spec fn number_read(s: Seq<char>) -> int
    decreases s.len(),
{
    if s.len() == 0 {
        0
    } else {
        number_read(s.drop_last()) * 10 + (s.last() as int - 48)
    }
}

/// A number is written in decimal digits that read back as the number, the
/// first of them no zero unless the number is zero.
pub proof fn law_number_reads_back(n: nat)
    ensures
        digits(n).len() > 0,
        forall|i: int| 0 <= i < digits(n).len() ==> 48 <= (#[trigger] digits(n)[i]) as int <= 57,
        number_read(digits(n)) == n,
        n > 0 ==> digits(n)[0] != '0',
        n == 0 ==> digits(n) == seq!['0'],
    decreases n,
{
    reveal_with_fuel(number_read, 2);
    if n >= 10 {
        law_number_reads_back(n / 10);
        assert(digits(n).drop_last() =~= digits(n / 10));
        assert(digits(n)[0] == digits(n / 10)[0]);
    } else {
        assert(digits(n).drop_last() =~= seq![]);
    }
}

/// A negative number is written as a minus sign before the number without its
/// sign, any other number without a sign.
pub proof fn law_sign_is_written(n: int)
    ensures
        n < 0 ==> signed_digits(n).len() > 1 && signed_digits(n)[0] == '-' && number_read(
            signed_digits(n).subrange(1, signed_digits(n).len() as int),
        ) == -n,
        n >= 0 ==> number_read(signed_digits(n)) == n,
{
    if n < 0 {
        law_number_reads_back((-n) as nat);
        assert(signed_digits(n).subrange(1, signed_digits(n).len() as int) =~= digits(
            (-n) as nat,
        ));
    } else {
        law_number_reads_back(n as nat);
    }
}

/// A padded text is as wide as asked for, or as the text where that is wider;
/// it holds the text at one end and blanks at the other.
pub proof fn law_padding_adds_blanks(s: Seq<char>, width: nat)
    ensures
        left_aligned(s, width).len() == if s.len() < width {
            width
        } else {
            s.len()
        },
        left_aligned(s, width).subrange(0, s.len() as int) == s,
        forall|k: int|
            s.len() <= k < left_aligned(s, width).len() ==> #[trigger] left_aligned(s, width)[k]
                == ' ',
        right_aligned(s, width).len() == left_aligned(s, width).len(),
        right_aligned(s, width).subrange(
            right_aligned(s, width).len() - s.len(),
            right_aligned(s, width).len() as int,
        ) == s,
        forall|k: int|
            0 <= k < right_aligned(s, width).len() - s.len() ==> #[trigger] right_aligned(s, width)[
                k
            ] == ' ',
{
    let l = left_aligned(s, width);
    let r = right_aligned(s, width);
    assert(l.subrange(0, s.len() as int) =~= s);
    assert(r.subrange(r.len() - s.len(), r.len() as int) =~= s);
}

/// The same character a number of times is that many characters, all alike.
pub proof fn law_repeated(c: char, n: nat)
    ensures
        repeated(c, n).len() == n,
        forall|k: int| 0 <= k < n ==> #[trigger] repeated(c, n)[k] == c,
{
}

/// The first characters of a text are its beginning: all of it where it is
/// that short, else as many as asked for.
pub proof fn law_first_chars(s: Seq<char>, n: nat)
    ensures
        has_prefix(s, first_chars(s, n)),
        first_chars(s, n).len() == if s.len() < n {
            s.len()
        } else {
            n
        },
{
    assert(s.subrange(0, first_chars(s, n).len() as int) =~= first_chars(s, n));
}

/// A text that is too long keeps as much of its beginning as there is room
/// for before the ellipsis.
pub proof fn law_shortened_keeps_what_it_can(s: Seq<char>, max: nat)
    requires
        max > 0,
        s.len() > max,
    ensures
        shortened(s, max).len() == max,
        shortened(s, max).drop_last() == s.subrange(0, max - 1),
        shortened(s, max).last() == '\u{2026}',
{
    assert(shortened(s, max).drop_last() =~= s.subrange(0, max - 1));
}

/// Flattening goes character by character: a line break becomes a middle dot
/// between blanks, any other character stays.
pub proof fn law_flattened_in_parts(a: Seq<char>, b: Seq<char>, c: char)
    ensures
        on_one_line(a + b) == on_one_line(a) + on_one_line(b),
        on_one_line(seq![c]) == if c == '\n' {
            seq![' ', '\u{b7}', ' ']
        } else {
            seq![c]
        },
    decreases b.len(),
{
    reveal_strlit(" \u{b7} ");
    reveal_with_fuel(on_one_line, 2);
    assert(seq![c].drop_last() =~= seq![]);
    assert(on_one_line(seq![c]) =~= if c == '\n' {
        seq![' ', '\u{b7}', ' ']
    } else {
        seq![c]
    });
    if b.len() == 0 {
        assert(a + b =~= a);
        assert(on_one_line(a) + on_one_line(b) =~= on_one_line(a));
    } else {
        law_flattened_in_parts(a, b.drop_last(), c);
        assert((a + b).drop_last() =~= a + b.drop_last());
        assert(on_one_line(a + b) =~= on_one_line(a) + on_one_line(b));
    }
}

/// Joined texts stand one behind the other with a middle dot between blanks
/// between any two, and none at the ends.
pub proof fn law_joined_in_parts(a: Seq<Seq<char>>, b: Seq<Seq<char>>, t: Seq<char>)
    ensures
        joined(seq![t]) == t,
        a.len() > 0 && b.len() > 0 ==> joined(a + b) == joined(a) + seq![' ', '\u{b7}', ' ']
            + joined(b),
        a.len() == 0 ==> joined(a).len() == 0,
    decreases b.len(),
{
    reveal_strlit(" \u{b7} ");
    assert(" \u{b7} "@ =~= seq![' ', '\u{b7}', ' ']);
    if a.len() > 0 && b.len() > 0 {
        assert((a + b).drop_last() =~= a + b.drop_last());
        if b.len() > 1 {
            law_joined_in_parts(a, b.drop_last(), t);
        } else {
            assert(a + b.drop_last() =~= a);
        }
        assert(joined(a + b) =~= joined(a) + seq![' ', '\u{b7}', ' '] + joined(b));
    }
}

} // verus!
