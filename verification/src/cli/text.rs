//! Character-level helpers for building the text that the shell prints.

use vstd::prelude::*;

verus! {

/// Number of characters of `s` before its first line feed; `s.len()` when
/// `s` holds no line feed.
pub open spec fn line_end(s: Seq<char>) -> nat
    decreases s.len(),
{
    if s.len() == 0 || s[0] == '\n' {
        0
    } else {
        1 + line_end(s.drop_first())
    }
}

/// The first line of `s` without its terminator. A line ends at a line feed,
/// and a carriage return directly before that line feed belongs to the
/// terminator. A carriage return elsewhere is an ordinary character.
pub open spec fn first_line(s: Seq<char>) -> Seq<char> {
    let n = line_end(s) as int;
    if 0 < n < s.len() && s[n - 1] == '\r' {
        s.take(n - 1)
    } else {
        s.take(n)
    }
}

/// What is left of `s` behind its first line and that line's terminator.
pub open spec fn after_first_line(s: Seq<char>) -> Seq<char> {
    let n = line_end(s) as int;
    if n < s.len() {
        s.skip(n + 1)
    } else {
        Seq::empty()
    }
}

/// The lines of `s`. The empty text has no line, and a terminator at the very
/// end of the text does not open one more line.
pub open spec fn lines(s: Seq<char>) -> Seq<Seq<char>>
    decreases s.len(),
{
    if s.len() == 0 {
        Seq::empty()
    } else {
        seq![first_line(s)] + lines(after_first_line(s))
    }
}

/// One line as it stands in an indented block: two spaces in front of a line
/// that holds something, nothing in front of an empty one, and a line feed
/// behind either.
pub open spec fn indent_line(line: Seq<char>) -> Seq<char> {
    if line.len() == 0 {
        seq!['\n']
    } else {
        seq![' ', ' '] + line + seq!['\n']
    }
}

/// The given lines, each indented, one after the other.
pub open spec fn indent_all(ls: Seq<Seq<char>>) -> Seq<char>
    decreases ls.len(),
{
    if ls.len() == 0 {
        Seq::empty()
    } else {
        indent_line(ls[0]) + indent_all(ls.drop_first())
    }
}

/// The text `s` with every line indented by two spaces.
pub open spec fn indented(s: Seq<char>) -> Seq<char> {
    indent_all(lines(s))
}

/// Where the first line of `s.skip(start)` ends, seen from `s`.
pub proof fn lemma_line_end_at(s: Seq<char>, start: int, end: int)
    requires
        0 <= start <= end <= s.len(),
        forall|k: int| start <= k < end ==> s[k] != '\n',
        end == s.len() || s[end] == '\n',
    ensures
        line_end(s.skip(start)) == end - start,
    decreases end - start,
{
    let t = s.skip(start);
    if start < end {
        assert(t[0] == s[start]);
        assert(t.drop_first() =~= s.skip(start + 1));
        lemma_line_end_at(s, start + 1, end);
    } else if end < s.len() {
        assert(t[0] == s[end]);
    }
}

/// Unfolds `indented` by one line.
pub proof fn lemma_indented_step(s: Seq<char>)
    requires
        s.len() > 0,
    ensures
        indented(s) == indent_line(first_line(s)) + indented(after_first_line(s)),
{
    let ls = lines(s);
    assert(ls.drop_first() =~= lines(after_first_line(s)));
}

/// Appends one character to `s`.
///
/// Trusted: `String::push` of the standard library, which is documented to
/// append the given `char` to the end of the string.
#[verifier::external_body]
pub(crate) fn push_char(s: &mut String, c: char)
    ensures
        final(s)@ == old(s)@.push(c),
{
    s.push(c);
}

/// The characters of `text`, in order.
pub fn chars_of(text: &str) -> (v: Vec<char>)
    ensures
        v@ == text@,
{
    let mut v: Vec<char> = Vec::new();
    for c in it: text.chars()
        invariant
            it.seq() == text@,
            v@ == it.seq().take(it.index() as int),
    {
        v.push(c);
    }
    v
}

/// Appends `chars[from..to]` to `s`.
pub fn push_chars(s: &mut String, chars: &Vec<char>, from: usize, to: usize)
    requires
        from <= to <= chars.len(),
    ensures
        final(s)@ == old(s)@ + chars@.subrange(from as int, to as int),
{
    let mut i: usize = from;
    while i < to
        invariant
            from <= i <= to <= chars.len(),
            s@ == old(s)@ + chars@.subrange(from as int, i as int),
        decreases to - i,
    {
        push_char(s, chars[i]);
        i = i + 1;
    }
}

/// Index of the first line feed of `chars` at or behind `start`, or
/// `chars.len()` when there is none.
pub fn find_line_feed(chars: &Vec<char>, start: usize) -> (end: usize)
    requires
        start <= chars.len(),
    ensures
        start <= end <= chars.len(),
        forall|k: int| start <= k < end ==> chars@[k] != '\n',
        end == chars.len() || chars@[end as int] == '\n',
        end - start == line_end(chars@.skip(start as int)),
{
    let mut end: usize = start;
    while end < chars.len() && chars[end] != '\n'
        invariant
            start <= end <= chars.len(),
            forall|k: int| start <= k < end ==> chars@[k] != '\n',
        decreases chars.len() - end,
    {
        end = end + 1;
    }
    proof {
        lemma_line_end_at(chars@, start as int, end as int);
    }
    end
}

/// Whether `a` and `b` hold the same characters.
pub fn same_text(a: &str, b: &str) -> (same: bool)
    ensures
        same == (a@ == b@),
{
    let left = chars_of(a);
    let right = chars_of(b);
    if left.len() != right.len() {
        return false;
    }
    let mut i: usize = 0;
    while i < left.len()
        invariant
            left@ == a@,
            right@ == b@,
            left.len() == right.len(),
            i <= left.len(),
            forall|k: int| 0 <= k < i ==> left@[k] == right@[k],
        decreases left.len() - i,
    {
        if left[i] != right[i] {
            return false;
        }
        i = i + 1;
    }
    assert(left@ =~= right@);
    true
}

} // verus!
