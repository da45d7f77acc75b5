//! Measuring and wrapping text for a terminal, where a character outside ASCII takes two
//! columns and every other character one.

use crate::rows::texts;
use crate::text::{to_chars, to_string, views};
use vstd::prelude::*;

verus! {

/// The columns that one character takes.
pub open spec fn char_width(c: char) -> nat {
    if c <= '\u{7f}' {
        1
    } else {
        2
    }
}

/// The columns that a text takes.
pub open spec fn half_width(s: Seq<char>) -> nat
    decreases s.len(),
{
    if s.len() == 0 {
        0
    } else {
        half_width(s.drop_last()) + char_width(s.last())
    }
}

/// A text takes at most two columns for each character.
pub proof fn lemma_half_width_bound(s: Seq<char>)
    ensures
        s.len() <= half_width(s) <= 2 * s.len(),
    decreases s.len(),
{
    if s.len() > 0 {
        lemma_half_width_bound(s.drop_last());
    }
}

/// The columns that one character takes.
pub fn width_of(c: char) -> (w: usize)
    ensures
        w == char_width(c),
{
    if c <= '\u{7f}' {
        1
    } else {
        2
    }
}

/// Counts the columns that a text takes.
pub fn get_total_half_count(origin: String) -> (count: usize)
    requires
        2 * origin@.len() <= usize::MAX,
    ensures
        count == half_width(origin@),
{
    let v = to_chars(origin.as_str());
    let mut count: usize = 0;
    let mut i: usize = 0;
    assert(v@.subrange(0, 0) =~= Seq::<char>::empty());
    while i < v.len()
        invariant
            i <= v.len(),
            2 * v.len() <= usize::MAX,
            count == half_width(v@.subrange(0, i as int)),
        decreases v.len() - i,
    {
        proof {
            lemma_half_width_bound(v@.subrange(0, i as int));
            assert(v@.subrange(0, i as int + 1).drop_last() =~= v@.subrange(0, i as int));
        }
        count = count + width_of(v[i]);
        i = i + 1;
    }
    assert(v@.subrange(0, v.len() as int) =~= v@);
    count
}

/// How many characters at the start of `s` make up a line of `limit` columns: characters
/// are taken until the line has reached the limit or the text ends.
pub open spec fn line_len(s: Seq<char>, limit: int) -> nat
    decreases s.len(),
{
    if limit <= 0 || s.len() == 0 {
        0
    } else {
        1 + line_len(s.drop_first(), limit - char_width(s[0]))
    }
}

/// The lines into which a text is cut at `limit` columns. A line that ends below the limit
/// is the last one; a text that ends exactly at the limit is followed by one empty line.
pub open spec fn wrapped(s: Seq<char>, limit: nat) -> Seq<Seq<char>>
    decreases s.len(),
{
    let k = line_len(s, limit as int);
    if k == 0 || k > s.len() || half_width(s.subrange(0, k as int)) < limit {
        seq![s]
    } else {
        seq![s.subrange(0, k as int)] + wrapped(s.subrange(k as int, s.len() as int), limit)
    }
}

/// The lines shown for a text in a field of `limit` columns: the text itself where it
/// fits, else the lines into which it is cut.
pub open spec fn wrap_spec(s: Seq<char>, limit: nat) -> Seq<Seq<char>> {
    if s.len() == 0 || half_width(s) <= limit {
        seq![s]
    } else {
        wrapped(s, limit)
    }
}

/// Tests whether a text fits a field of the given number of columns.
pub fn fits(v: &Vec<char>, limit: usize) -> (b: bool)
    ensures
        b == (half_width(v@) <= limit),
{
    let mut left: usize = limit;
    let mut i: usize = 0;
    assert(v@.subrange(0, 0) =~= Seq::<char>::empty());
    while i < v.len()
        invariant
            i <= v.len(),
            left <= limit,
            half_width(v@.subrange(0, i as int)) + left == limit,
        decreases v.len() - i,
    {
        let w = width_of(v[i]);
        proof {
            assert(v@.subrange(0, i as int + 1).drop_last() =~= v@.subrange(0, i as int));
        }
        if w > left {
            proof {
                lemma_half_width_grows(v@, i as int + 1);
            }
            return false;
        }
        left = left - w;
        i = i + 1;
    }
    assert(v@.subrange(0, v.len() as int) =~= v@);
    true
}

/// A text is at least as wide as each of its beginnings.
pub proof fn lemma_half_width_grows(s: Seq<char>, k: int)
    requires
        0 <= k <= s.len(),
    ensures
        half_width(s.subrange(0, k)) <= half_width(s),
    decreases s.len() - k,
{
    if k == s.len() {
        assert(s.subrange(0, k) =~= s);
    } else {
        lemma_half_width_grows(s, k + 1);
        assert(s.subrange(0, k + 1).drop_last() =~= s.subrange(0, k));
    }
}

/// A line never holds more characters than the text has.
pub proof fn lemma_line_len_bound(s: Seq<char>, limit: int)
    ensures
        line_len(s, limit) <= s.len(),
    decreases s.len(),
{
    if limit > 0 && s.len() > 0 {
        lemma_line_len_bound(s.drop_first(), limit - char_width(s[0]));
    }
}

/// Cuts a text into lines for a field of `line_limit` columns.
pub fn wrap_lines(origin: String, line_limit: usize) -> (lines: Vec<String>)
    requires
        line_limit > 0,
    ensures
        texts(lines@) == wrap_spec(origin@, line_limit as nat),
{
    let v = to_chars(origin.as_str());
    let mut out: Vec<String> = Vec::new();
    if v.len() == 0 || fits(&v, line_limit) {
        out.push(origin);
        assert(texts(out@) =~= seq![origin@]);
        return out;
    }
    let n: usize = v.len();
    let mut i: usize = 0;
    assert(v@.subrange(0, n as int) =~= v@);
    assert(texts(out@) + wrapped(v@, line_limit as nat) =~= wrapped(v@, line_limit as nat));
    loop
        invariant_except_break
            texts(out@) + wrapped(v@.subrange(i as int, n as int), line_limit as nat) == wrapped(
                v@,
                line_limit as nat,
            ),
        invariant
            i <= n == v.len(),
            line_limit > 0,
        ensures
            texts(out@) == wrapped(v@, line_limit as nat),
        decreases n - i,
    {
        let ghost rest = v@.subrange(i as int, n as int);
        let start: usize = i;
        let mut line: Vec<char> = Vec::new();
        let mut left: usize = line_limit;
        assert(v@.subrange(start as int, i as int) =~= Seq::<char>::empty());
        while left > 0 && i < n
            invariant
                start <= i <= n == v.len(),
                left <= line_limit,
                line@ == v@.subrange(start as int, i as int),
                rest == v@.subrange(start as int, n as int),
                left as int == if half_width(line@) >= line_limit {
                    0
                } else {
                    line_limit - half_width(line@)
                },
                line_len(rest, line_limit as int) == (i - start) + line_len(
                    v@.subrange(i as int, n as int),
                    left as int,
                ),
                left == 0 ==> i > start,
            decreases n - i,
        {
            let c = v[i];
            let w = width_of(c);
            proof {
                assert(v@.subrange(start as int, i as int + 1).drop_last() =~= v@.subrange(
                    start as int,
                    i as int,
                ));
                assert(v@.subrange(i as int, n as int).drop_first() =~= v@.subrange(
                    i as int + 1,
                    n as int,
                ));
            }
            proof {
                let tail = v@.subrange(i as int + 1, n as int);
                assert(line@.push(c).drop_last() =~= line@);
                assert(line_len(tail, 0) == 0);
                assert(line_len(tail, left - w) == if w >= left {
                    0
                } else {
                    line_len(tail, left - w)
                });
            }
            line.push(c);
            left = if w >= left {
                0
            } else {
                left - w
            };
            i = i + 1;
        }
        proof {
            assert(rest.subrange(0, i - start) =~= line@);
            assert(rest.subrange(i - start, rest.len() as int) =~= v@.subrange(i as int, n as int));
            lemma_line_len_bound(rest, line_limit as int);
            if left > 0 {
                assert(line@ =~= rest);
            }
        }
        let ghost before = out@;
        let done = left > 0;
        out.push(to_string(&line));
        proof {
            assert(texts(out@) =~= texts(before).push(line@));
            if done {
                assert(texts(before) + seq![rest] =~= texts(out@));
            } else {
                assert(texts(before) + (seq![line@] + wrapped(
                    v@.subrange(i as int, n as int),
                    line_limit as nat,
                )) =~= texts(out@) + wrapped(v@.subrange(i as int, n as int), line_limit as nat));
            }
        }
        if done {
            break;
        }
    }
    out
}

} // verus!
