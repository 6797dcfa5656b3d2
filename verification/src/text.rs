//! Verified helpers over character sequences: extraction of a string's
//! characters, equality and substring tests, and splitting into lines the way
//! the standard library does (line feeds end a line, a carriage return before
//! the line feed is dropped, a final unterminated line is kept as it is).

use vstd::prelude::*;
use vstd::string::StrSliceExecFns;

verus! {

/// The characters of `s` as a vector, one per index, in order.
pub fn str_chars(s: &str) -> (r: Vec<char>)
    ensures
        r@ == s@,
{
    let n = s.unicode_len();
    let mut r: Vec<char> = Vec::new();
    for i in 0..n
        invariant
            n == s@.len(),
            r@ =~= s@.take(i as int),
    {
        r.push(s.get_char(i));
        proof {
            assert(s@.take(i + 1) =~= s@.take(i as int).push(s@[i as int]));
        }
    }
    proof {
        assert(s@.take(n as int) =~= s@);
    }
    r
}

/// Whether the two vectors hold the same characters.
pub fn chars_eq(a: &Vec<char>, b: &Vec<char>) -> (r: bool)
    ensures
        r == (a@ == b@),
{
    if a.len() != b.len() {
        return false;
    }
    for i in 0..a.len()
        invariant
            a@.len() == b@.len(),
            forall|j: int| 0 <= j < i ==> a@[j] == b@[j],
    {
        if a[i] != b[i] {
            return false;
        }
    }
    proof {
        assert(a@ =~= b@);
    }
    true
}

/// `pat` occurs in `s` starting at position `i`.
pub open spec fn matches_at(s: Seq<char>, pat: Seq<char>, i: int) -> bool {
    &&& 0 <= i
    &&& i + pat.len() <= s.len()
    &&& forall|j: int| 0 <= j < pat.len() ==> s[i + j] == pat[j]
}

/// `pat` occurs somewhere in `s`.
pub open spec fn contains_seq(s: Seq<char>, pat: Seq<char>) -> bool {
    exists|i: int| matches_at(s, pat, i)
}

/// Whether `pat` occurs in `s` starting at position `i`.
pub fn chars_match_at(s: &Vec<char>, pat: &Vec<char>, i: usize) -> (r: bool)
    requires
        i + pat@.len() <= s@.len(),
    ensures
        r == matches_at(s@, pat@, i as int),
{
    let n = pat.len();
    let m = s.len();
    for j in 0..n
        invariant
            n == pat@.len(),
            m == s@.len(),
            i + n <= m,
            forall|k: int| 0 <= k < j ==> s@[i + k] == pat@[k],
    {
        if s[i + j] != pat[j] {
            return false;
        }
    }
    true
}

/// Whether `pat` occurs anywhere in `s`.
pub fn chars_contains(s: &Vec<char>, pat: &Vec<char>) -> (r: bool)
    ensures
        r == contains_seq(s@, pat@),
{
    if pat.len() == 0 {
        proof {
            assert(matches_at(s@, pat@, 0));
        }
        return true;
    }
    if pat.len() > s.len() {
        proof {
            assert(forall|i: int| !matches_at(s@, pat@, i));
        }
        return false;
    }
    let end = s.len() - pat.len();
    for i in 0..end + 1
        invariant
            1 <= pat@.len() <= s@.len(),
            end == s@.len() - pat@.len(),
            forall|k: int| 0 <= k < i ==> !matches_at(s@, pat@, k),
    {
        if chars_match_at(s, pat, i) {
            return true;
        }
    }
    proof {
        assert(forall|k: int| !matches_at(s@, pat@, k)) by {
            assert(forall|k: int| k > end ==> !matches_at(s@, pat@, k));
        }
    }
    false
}

/// Drops a single carriage return at the end of a line, if one is there.
pub open spec fn strip_trailing_cr(l: Seq<char>) -> Seq<char> {
    if l.len() > 0 && l.last() == '\r' {
        l.drop_last()
    } else {
        l
    }
}

/// Scans `s` from the left: the lines already ended by a line feed (with a
/// carriage return before it dropped), and the unfinished rest.
pub open spec fn lines_acc(s: Seq<char>) -> (Seq<Seq<char>>, Seq<char>)
    decreases s.len(),
{
    if s.len() == 0 {
        (Seq::<Seq<char>>::empty(), Seq::<char>::empty())
    } else {
        let prev = lines_acc(s.drop_last());
        if s.last() == '\n' {
            (prev.0.push(strip_trailing_cr(prev.1)), Seq::<char>::empty())
        } else {
            (prev.0, prev.1.push(s.last()))
        }
    }
}

/// The lines of `s`, as the standard library's line iterator yields them.
pub open spec fn lines_of(s: Seq<char>) -> Seq<Seq<char>> {
    if lines_acc(s).1.len() > 0 {
        lines_acc(s).0.push(lines_acc(s).1)
    } else {
        lines_acc(s).0
    }
}

/// Splits the characters into lines.
pub fn split_lines(chars: &Vec<char>) -> (r: Vec<Vec<char>>)
    ensures
        r.deep_view() == lines_of(chars@),
{
    let mut done: Vec<Vec<char>> = Vec::new();
    let mut cur: Vec<char> = Vec::new();
    for i in 0..chars.len()
        invariant
            done.deep_view() =~~= lines_acc(chars@.take(i as int)).0,
            cur@ =~= lines_acc(chars@.take(i as int)).1,
    {
        proof {
            assert(chars@.take(i + 1).drop_last() =~= chars@.take(i as int));
            assert(chars@.take(i + 1).last() == chars@[i as int]);
        }
        let c = chars[i];
        if c == '\n' {
            let ghost pre = cur@;
            if cur.len() > 0 && cur[cur.len() - 1] == '\r' {
                cur.pop();
            }
            proof {
                assert(cur@ == strip_trailing_cr(pre));
            }
            done.push(cur);
            cur = Vec::new();
            proof {
                assert(done.deep_view() =~~= lines_acc(chars@.take(i + 1)).0);
            }
        } else {
            cur.push(c);
        }
    }
    proof {
        assert(chars@.take(chars@.len() as int) =~= chars@);
    }
    if cur.len() > 0 {
        done.push(cur);
        proof {
            assert(done.deep_view() =~~= lines_of(chars@));
        }
    }
    proof {
        assert(done.deep_view() =~~= lines_of(chars@));
    }
    done
}

} // verus!
