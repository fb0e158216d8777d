//! Character-level text helpers shared by the views: splitting text into
//! lines as `str::lines` does, building strings, and display widths.
use vstd::prelude::*;

verus! {

/// The characters of `s`, in order.
pub fn chars_of(s: &str) -> (v: Vec<char>)
    ensures
        v@ == s@,
{
    let mut v: Vec<char> = Vec::new();
    for c in it: s.chars()
        invariant
            v@ == it.seq().take(it.index()),
    {
        v.push(c);
    }
    v
}

/// `String::push`: appends one character.
#[verifier::external_body]
pub(crate) fn push_char(s: &mut String, c: char)
    ensures
        final(s)@ == old(s)@.push(c),
{
    s.push(c);
}

/// A string holding exactly the characters of `chars`.
pub fn string_of(chars: &[char]) -> (s: String)
    ensures
        s@ == chars@,
{
    let mut s = String::new();
    for i in 0..chars.len()
        invariant
            s@ == chars@.take(i as int),
    {
        push_char(&mut s, chars[i]);
        assert(chars@.take(i + 1) == chars@.take(i as int).push(chars@[i as int]));
    }
    assert(chars@.take(chars@.len() as int) == chars@);
    s
}

/// Appends the characters of `chars` to `s`.
pub fn push_chars(s: &mut String, chars: &[char])
    ensures
        final(s)@ == old(s)@ + chars@,
{
    let ghost start = s@;
    for i in 0..chars.len()
        invariant
            s@ == start + chars@.take(i as int),
    {
        push_char(s, chars[i]);
        assert(chars@.take(i + 1) == chars@.take(i as int).push(chars@[i as int]));
    }
    assert(chars@.take(chars@.len() as int) == chars@);
}

/// Appends the characters of `t` to `s`.
pub fn push_str(s: &mut String, t: &str)
    ensures
        final(s)@ == old(s)@ + t@,
{
    let chars = chars_of(t);
    push_chars(s, chars.as_slice());
}

/// `a - b`, or 0 where `b` is larger.
pub open spec fn sat_sub(a: int, b: int) -> nat {
    if a > b {
        (a - b) as nat
    } else {
        0
    }
}

/// `n` spaces.
pub open spec fn spaces(n: nat) -> Seq<char> {
    Seq::new(n, |_i: int| ' ')
}

/// `n` spaces.
pub fn spaces_string(n: usize) -> (s: String)
    ensures
        s@ == spaces(n as nat),
{
    let mut s = String::new();
    for i in 0..n
        invariant
            s@ == spaces(i as nat),
    {
        push_char(&mut s, ' ');
        assert(s@ =~= spaces((i + 1) as nat));
    }
    s
}

/// A string of the characters of `chars` from `lo` up to `hi`.
pub fn string_of_range(chars: &[char], lo: usize, hi: usize) -> (s: String)
    requires
        lo <= hi <= chars@.len(),
    ensures
        s@ == chars@.subrange(lo as int, hi as int),
{
    let mut s = String::new();
    for i in lo..hi
        invariant
            lo <= hi <= chars@.len(),
            s@ == chars@.subrange(lo as int, i as int),
    {
        push_char(&mut s, chars[i]);
        assert(chars@.subrange(lo as int, i + 1) == chars@.subrange(lo as int, i as int).push(
            chars@[i as int],
        ));
    }
    s
}

/// The number of characters of `s`.
pub fn char_count(s: &str) -> (n: usize)
    ensures
        n == s@.len(),
{
    chars_of(s).len()
}

/// `s` with `c` inserted before its `k`th character.
pub fn insert_char_at(s: &str, k: usize, c: char) -> (r: String)
    requires
        k <= s@.len(),
    ensures
        r@ == s@.take(k as int) + seq![c] + s@.skip(k as int),
        r@.len() <= usize::MAX,
{
    let mut chars = chars_of(s);
    chars.insert(k, c);
    let _ = chars.len();
    assert(chars@ == s@.take(k as int) + seq![c] + s@.skip(k as int));
    string_of(chars.as_slice())
}

/// `s` without its `k`th character.
pub fn remove_char_at(s: &str, k: usize) -> (r: String)
    requires
        k < s@.len(),
    ensures
        r@ == s@.take(k as int) + s@.skip(k + 1),
{
    let mut chars = chars_of(s);
    let _ = chars.remove(k);
    assert(chars@ == s@.take(k as int) + s@.skip(k + 1));
    string_of(chars.as_slice())
}

/// Whether two texts are equal.
pub fn chars_equal(a: &[char], b: &[char]) -> (eq: bool)
    ensures
        eq == (a@ == b@),
{
    if a.len() != b.len() {
        return false;
    }
    for i in 0..a.len()
        invariant
            a@.len() == b@.len(),
            forall|k: int| 0 <= k < i ==> a@[k] == b@[k],
    {
        if a[i] != b[i] {
            return false;
        }
    }
    assert(a@ == b@);
    true
}

/// A line as `str::lines` yields it: a carriage return that stood right
/// before the line feed is not part of the line.
pub open spec fn strip_cr(line: Seq<char>) -> Seq<char> {
    if line.len() > 0 && line.last() == '\r' {
        line.drop_last()
    } else {
        line
    }
}

/// The lines of `rest`, where `cur` holds what has been read of the current
/// line so far. A line ends at each `'\n'`; a final line ending is optional,
/// and an empty remainder after the last line ending is no line.
pub open spec fn lines_from(cur: Seq<char>, rest: Seq<char>) -> Seq<Seq<char>>
    decreases rest.len(),
{
    if rest.len() == 0 {
        if cur.len() == 0 {
            seq![]
        } else {
            seq![cur]
        }
    } else if rest[0] == '\n' {
        seq![strip_cr(cur)] + lines_from(seq![], rest.drop_first())
    } else {
        lines_from(cur.push(rest[0]), rest.drop_first())
    }
}

/// The lines of a text, as `str::lines` splits it.
pub open spec fn text_lines(text: Seq<char>) -> Seq<Seq<char>> {
    lines_from(seq![], text)
}

/// Splits `text` into its lines (see `text_lines`).
pub fn split_lines(text: &[char]) -> (lines: Vec<Vec<char>>)
    ensures
        lines@.len() == text_lines(text@).len(),
        forall|i: int| 0 <= i < lines@.len() ==> #[trigger] lines@[i]@ == text_lines(text@)[i],
{
    let mut lines: Vec<Vec<char>> = Vec::new();
    let mut cur: Vec<char> = Vec::new();
    let ghost mut done: Seq<Seq<char>> = seq![];
    let mut i: usize = 0;
    assert(text@.skip(0) == text@);
    while i < text.len()
        invariant
            i <= text@.len(),
            lines@.len() == done.len(),
            forall|k: int| 0 <= k < lines@.len() ==> #[trigger] lines@[k]@ == done[k],
            done + lines_from(cur@, text@.skip(i as int)) == text_lines(text@),
        decreases text@.len() - i,
    {
        let c = text[i];
        let ghost rest = text@.skip(i as int);
        assert(rest.drop_first() == text@.skip(i + 1));
        assert(rest[0] == c);
        if c == '\n' {
            let ghost old_cur = cur@;
            let ghost line = strip_cr(cur@);
            if cur.len() > 0 && cur[cur.len() - 1] == '\r' {
                cur.pop();
            }
            assert(cur@ == line);
            proof {
                assert(done + lines_from(old_cur, rest) == done + (seq![line] + lines_from(
                    seq![],
                    text@.skip(i + 1),
                )));
                assert(done + (seq![line] + lines_from(seq![], text@.skip(i + 1))) == done.push(
                    line,
                ) + lines_from(seq![], text@.skip(i + 1)));
                done = done.push(line);
            }
            lines.push(cur);
            cur = Vec::new();
        } else {
            cur.push(c);
        }
        i = i + 1;
    }
    assert(text@.skip(i as int).len() == 0);
    if cur.len() > 0 {
        proof {
            done = done.push(cur@);
        }
        lines.push(cur);
    } else {
        assert(done + seq![] == done);
    }
    assert(done == text_lines(text@));
    lines
}

/// The displayed width, in terminal columns, of a text, as
/// `unicode_width::UnicodeWidthStr::width` computes it.
pub uninterp spec fn display_width(text: Seq<char>) -> usize;

/// Calls `unicode_width::UnicodeWidthStr::width` on the string made of
/// `text`. Its result is a function of the text alone (the crate's tables
/// are fixed); the contract names it and says nothing of its value.
#[verifier::external_body]
pub(crate) fn text_display_width(text: &[char]) -> (w: usize)
    ensures
        w == display_width(text@),
{
    let s: String = text.iter().collect();
    unicode_width::UnicodeWidthStr::width(s.as_str())
}

} // verus!
