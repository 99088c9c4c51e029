//! Plain text helpers: the characters of a string, its lines, and the small
//! scans that reading a keyboard configuration needs.

use vstd::prelude::*;
use vstd::string::group_string_axioms;

verus! {

broadcast use group_string_axioms;

/// Index of the first `mark` in `s`, or `s.len()` where `s` holds none.
pub open spec fn first_position(s: Seq<char>, mark: char) -> nat
    decreases s.len(),
{
    if s.len() == 0 || s[0] == mark {
        0
    } else {
        1 + first_position(s.drop_first(), mark)
    }
}

/// `line` without one carriage return at its end.
pub open spec fn without_trailing_cr(line: Seq<char>) -> Seq<char> {
    if line.len() > 0 && line.last() == '\r' {
        line.drop_last()
    } else {
        line
    }
}

/// The lines of `text`. A line ends at a line feed, or at a carriage return
/// directly followed by one; neither belongs to the line. What follows the
/// last line feed is a line of its own unless it is empty.
pub open spec fn text_lines(text: Seq<char>) -> Seq<Seq<char>>
    decreases text.len(),
{
    let end = first_position(text, '\n') as int;
    if text.len() == 0 {
        Seq::empty()
    } else if end >= text.len() {
        seq![text]
    } else {
        seq![without_trailing_cr(text.take(end))] + text_lines(text.skip(end + 1))
    }
}

/// The part of `s` before its first comma; all of `s` where it has none.
pub open spec fn first_field(s: Seq<char>) -> Seq<char> {
    s.take(first_position(s, ',') as int)
}

/// The uppercase mapping of `c` that `char::to_uppercase` yields: one
/// character for most, several for a few.
pub uninterp spec fn char_uppercase(c: char) -> Seq<char>;

/// `text` with each character replaced by its uppercase mapping.
pub open spec fn uppercased(text: Seq<char>) -> Seq<char>
    decreases text.len(),
{
    if text.len() == 0 {
        Seq::empty()
    } else {
        uppercased(text.drop_last()) + char_uppercase(text.last())
    }
}

/// `first_position` is the one index that has `mark` (or the end) right at
/// it and no `mark` before it.
pub proof fn lemma_first_position(s: Seq<char>, mark: char, n: int)
    requires
        0 <= n <= s.len(),
        forall|j: int| 0 <= j < n ==> s[j] != mark,
        n < s.len() ==> s[n] == mark,
    ensures
        first_position(s, mark) == n,
    decreases n,
{
    if n > 0 {
        let rest = s.drop_first();
        assert forall|j: int| 0 <= j < n - 1 implies rest[j] != mark by {
            assert(rest[j] == s[j + 1]);
        }
        lemma_first_position(rest, mark, n - 1);
    }
}

/// The characters of `text`, in order.
pub fn chars_of(text: &str) -> (chars: Vec<char>)
    ensures
        chars@ == text@,
{
    let mut chars: Vec<char> = Vec::new();
    for c in it: text.chars()
        invariant
            it.seq() == text@,
            chars@ == text@.take(it.index()),
    {
        chars.push(c);
    }
    chars
}

/// Index of the first `mark` at or after `from`, or the length.
fn find_from(chars: &Vec<char>, from: usize, mark: char) -> (at: usize)
    requires
        from <= chars.len(),
    ensures
        from <= at <= chars.len(),
        at - from == first_position(chars@.skip(from as int), mark),
        forall|j: int| from <= j < at ==> chars@[j] != mark,
        at < chars.len() ==> chars@[at as int] == mark,
{
    let mut at: usize = from;
    while at < chars.len() && chars[at] != mark
        invariant
            from <= at <= chars.len(),
            forall|j: int| from <= j < at ==> chars@[j] != mark,
        decreases chars.len() - at,
    {
        at += 1;
    }
    proof {
        lemma_first_position(chars@.skip(from as int), mark, at - from);
    }
    at
}

/// Whether `text` holds a NUL character.
pub fn contains_nul(text: &str) -> (found: bool)
    ensures
        found == text@.contains('\0'),
{
    let chars = chars_of(text);
    let at: usize = find_from(&chars, 0, '\0');
    at < chars.len()
}

/// The part of `text` before its first comma.
pub fn leading_field(text: &str) -> (field: String)
    ensures
        field@ == first_field(text@),
{
    let chars = chars_of(text);
    let at: usize = find_from(&chars, 0, ',');
    proof {
        assert(chars@.skip(0) =~= chars@);
    }
    let field = text.substring_char(0, at);
    assert(field@ =~= first_field(text@));
    String::from_str(field)
}

/// The lines of `text`, each as a string of its own.
pub fn split_lines(text: &str) -> (lines: Vec<String>)
    ensures
        lines.deep_view() == text_lines(text@),
{
    let chars = chars_of(text);
    let n: usize = chars.len();
    let mut lines: Vec<String> = Vec::new();
    let mut start: usize = 0;
    proof {
        assert(text@.skip(0) =~= text@);
        assert(lines.deep_view() =~= Seq::<Seq<char>>::empty());
    }
    while start < n
        invariant
            start <= n,
            n == chars@.len(),
            chars@ == text@,
            text_lines(text@) == lines.deep_view() + text_lines(text@.skip(start as int)),
        decreases n - start,
    {
        let end: usize = find_from(&chars, start, '\n');
        let ghost rest = text@.skip(start as int);
        let ghost before = lines.deep_view();
        if end < n {
            let stop: usize = if end > start && chars[end - 1] == '\r' {
                end - 1
            } else {
                end
            };
            let line = String::from_str(text.substring_char(start, stop));
            proof {
                let whole = rest.take(end - start);
                assert(whole.len() > 0 ==> whole.last() == chars@[end - 1]);
                assert(line@ =~= without_trailing_cr(whole));
                assert(rest.skip(end - start + 1) =~= text@.skip(end + 1));
            }
            lines.push(line);
            proof {
                assert(lines.deep_view() =~= before + seq![line@]);
            }
            start = end + 1;
        } else {
            let line = String::from_str(text.substring_char(start, n));
            proof {
                assert(line@ =~= rest);
                assert(text_lines(text@.skip(n as int)) =~= Seq::<Seq<char>>::empty());
            }
            lines.push(line);
            proof {
                assert(lines.deep_view() =~= before + seq![line@]);
            }
            start = n;
        }
    }
    proof {
        assert(text_lines(text@.skip(n as int)) =~= Seq::<Seq<char>>::empty());
    }
    lines
}

/// Calls `char::to_uppercase` and collects the characters it yields.
///
/// Trusted, not proved: the mapping depends on the character alone, so
/// what comes back can go by the name `char_uppercase`.
#[verifier::external_body]
fn uppercase_of(c: char) -> (upper: Vec<char>)
    ensures
        upper@ == char_uppercase(c),
{
    c.to_uppercase().collect()
}

/// `chars` in upper case.
pub fn to_uppercase(chars: &Vec<char>) -> (upper: Vec<char>)
    ensures
        upper@ == uppercased(chars@),
{
    let mut upper: Vec<char> = Vec::new();
    let mut i: usize = 0;
    while i < chars.len()
        invariant
            i <= chars.len(),
            upper@ == uppercased(chars@.take(i as int)),
        decreases chars.len() - i,
    {
        let mut mapped = uppercase_of(chars[i]);
        proof {
            let done = chars@.take(i + 1);
            assert(done.drop_last() =~= chars@.take(i as int));
            assert(done.last() == chars@[i as int]);
        }
        upper.append(&mut mapped);
        i += 1;
    }
    proof {
        assert(chars@.take(i as int) =~= chars@);
    }
    upper
}

} // verus!
