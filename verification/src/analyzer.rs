//! The image analyzer's text pipeline. A captured frame is cut into
//! fixed-height horizontal slices; the OCR engine reads each slice; the text
//! that comes back is lowercased, a fixed set of punctuation characters is
//! turned into spaces, the result is split on whitespace, and every token
//! that is a blacklist keyword raises that keyword's count by one.

use crate::blacklist::{all_counts, bump_spec, positive_entries, Blacklist};
use crate::text::str_chars;
use crate::SLICE_HEIGHT;
use vstd::prelude::*;

verus! {

/// The characters the tokenizer treats as word separators: the whitespace
/// characters of Unicode.
pub open spec fn is_word_space(c: char) -> bool {
    ||| c == '\u{9}'
    ||| c == '\u{a}'
    ||| c == '\u{b}'
    ||| c == '\u{c}'
    ||| c == '\u{d}'
    ||| c == ' '
    ||| c == '\u{85}'
    ||| c == '\u{a0}'
    ||| c == '\u{1680}'
    ||| ('\u{2000}' <= c && c <= '\u{200a}')
    ||| c == '\u{2028}'
    ||| c == '\u{2029}'
    ||| c == '\u{202f}'
    ||| c == '\u{205f}'
    ||| c == '\u{3000}'
}

/// The punctuation characters that are stripped before tokenizing.
pub open spec fn is_stripped_punct(c: char) -> bool {
    ||| c == '('
    ||| c == ')'
    ||| c == ','
    ||| c == '"'
    ||| c == '.'
    ||| c == ';'
    ||| c == ':'
    ||| c == '\''
}

/// A stripped punctuation character becomes a space; everything else stays.
pub open spec fn normalize_char(c: char) -> char {
    if is_stripped_punct(c) {
        ' '
    } else {
        c
    }
}

/// The text with its punctuation turned into spaces.
pub open spec fn normalize_text(s: Seq<char>) -> Seq<char> {
    s.map_values(|c: char| normalize_char(c))
}

/// Scans `s` from the left: the tokens already ended by a separator, and the
/// unfinished token at the scan front. Runs of separators yield no empty
/// tokens.
pub open spec fn tokens_acc(s: Seq<char>) -> (Seq<Seq<char>>, Seq<char>)
    decreases s.len(),
{
    if s.len() == 0 {
        (Seq::<Seq<char>>::empty(), Seq::<char>::empty())
    } else {
        let prev = tokens_acc(s.drop_last());
        if is_word_space(s.last()) {
            if prev.1.len() > 0 {
                (prev.0.push(prev.1), Seq::<char>::empty())
            } else {
                prev
            }
        } else {
            (prev.0, prev.1.push(s.last()))
        }
    }
}

/// The whitespace-separated tokens of `s`.
pub open spec fn tokens_of(s: Seq<char>) -> Seq<Seq<char>> {
    if tokens_acc(s).1.len() > 0 {
        tokens_acc(s).0.push(tokens_acc(s).1)
    } else {
        tokens_acc(s).0
    }
}

/// The blacklist after every token of `toks` has landed on it, in order.
pub open spec fn bump_all(s: Seq<(Seq<char>, int)>, toks: Seq<Seq<char>>) -> Seq<
    (Seq<char>, int),
>
    decreases toks.len(),
{
    if toks.len() == 0 {
        s
    } else {
        bump_spec(bump_all(s, toks.drop_last()), toks.last())
    }
}

/// How many tokens of `toks` read exactly `k`.
pub open spec fn occurrences(toks: Seq<Seq<char>>, k: Seq<char>) -> int {
    toks.filter(|t: Seq<char>| t == k).len() as int
}

/// Every element of a filtered sequence is an element of the original.
proof fn lemma_filter_membership<A>(s: Seq<A>, pred: spec_fn(A) -> bool)
    ensures
        forall|j: int|
            0 <= j < s.filter(pred).len() ==> s.contains(#[trigger] s.filter(pred)[j]),
    decreases s.len(),
{
    reveal(Seq::filter);
    if s.len() > 0 {
        lemma_filter_membership(s.drop_last(), pred);
        let f = s.filter(pred);
        let d = s.drop_last();
        let fd = d.filter(pred);
        assert forall|j: int| 0 <= j < f.len() implies s.contains(#[trigger] f[j]) by {
            if j < fd.len() {
                assert(fd[j] == f[j]);
                assert(d.contains(fd[j]));
                let w = choose|i: int| #![auto] 0 <= i < d.len() && d[i] == fd[j];
                assert(s[w] == fd[j]);
            } else {
                assert(f[j] == s.last());
                assert(s[s.len() - 1] == s.last());
            }
        }
    }
}

/// A sequence none of whose elements satisfies the predicate filters to the
/// empty sequence.
proof fn lemma_filter_none<A>(s: Seq<A>, pred: spec_fn(A) -> bool)
    requires
        forall|i: int| 0 <= i < s.len() ==> !pred(#[trigger] s[i]),
    ensures
        s.filter(pred) == Seq::<A>::empty(),
    decreases s.len(),
{
    reveal(Seq::filter);
    if s.len() > 0 {
        assert(forall|i: int| 0 <= i < s.drop_last().len() ==> s.drop_last()[i] == s[i]);
        lemma_filter_none(s.drop_last(), pred);
        assert(!pred(s.last()));
    }
}

/// Landing a sequence of tokens preserves the length and the keys, and each
/// count, starting from zero, ends at the number of tokens equal to its key:
/// exactly that number where it stays in range, positive exactly when some
/// token matched.
pub proof fn lemma_bump_all_exact(s: Seq<(Seq<char>, int)>, toks: Seq<Seq<char>>)
    requires
        all_counts(s, 0),
    ensures
        bump_all(s, toks).len() == s.len(),
        forall|i: int| 0 <= i < s.len() ==> #[trigger] bump_all(s, toks)[i].0 == s[i].0,
        forall|i: int|
            0 <= i < s.len() && occurrences(toks, s[i].0) <= i32::MAX ==> #[trigger] bump_all(
                s,
                toks,
            )[i].1 == occurrences(toks, s[i].0),
        forall|i: int|
            0 <= i < s.len() ==> 0 <= #[trigger] bump_all(s, toks)[i].1 <= occurrences(
                toks,
                s[i].0,
            ),
        forall|i: int|
            0 <= i < s.len() && occurrences(toks, s[i].0) > 0 ==> #[trigger] bump_all(
                s,
                toks,
            )[i].1 > 0,
    decreases toks.len(),
{
    reveal(Seq::filter);
    if toks.len() > 0 {
        let dl = toks.drop_last();
        let t = toks.last();
        lemma_bump_all_exact(s, dl);
        let prev = bump_all(s, dl);
        assert(bump_all(s, toks) == bump_spec(prev, t));
        assert forall|k: Seq<char>| #[trigger] occurrences(toks, k) == occurrences(dl, k) + (
        if t == k {
            1int
        } else {
            0int
        }) by {
            let pred = |t2: Seq<char>| t2 == k;
            assert(toks.filter(pred) == if pred(t) {
                dl.filter(pred).push(t)
            } else {
                dl.filter(pred)
            });
        }
    }
}

/// Slices analyzed one after another land their tokens just as one combined
/// stream would: counts accumulate across slices, with no rollback.
pub proof fn lemma_bump_all_append(
    s: Seq<(Seq<char>, int)>,
    a: Seq<Seq<char>>,
    b: Seq<Seq<char>>,
)
    ensures
        bump_all(bump_all(s, a), b) == bump_all(s, a + b),
    decreases b.len(),
{
    if b.len() == 0 {
        assert(a + b =~= a);
    } else {
        lemma_bump_all_append(s, a, b.drop_last());
        assert((a + b).drop_last() =~= a + b.drop_last());
        assert((a + b).last() == b.last());
        assert((a + b).len() > 0);
    }
}

/// The event report after a cycle that starts from zero counts: it is empty
/// when no token matched any keyword, and otherwise each reported keyword
/// carries a strictly positive count equal to the number of tokens, over all
/// analyzed slices, that read exactly that keyword.
pub proof fn lemma_report_exact(s: Seq<(Seq<char>, int)>, toks: Seq<Seq<char>>)
    requires
        all_counts(s, 0),
        forall|i: int| 0 <= i < s.len() ==> occurrences(toks, #[trigger] s[i].0) <= i32::MAX,
    ensures
        (forall|i: int| 0 <= i < s.len() ==> occurrences(toks, #[trigger] s[i].0) == 0)
            ==> positive_entries(bump_all(s, toks)) == Seq::<(Seq<char>, int)>::empty(),
        forall|j: int|
            0 <= j < positive_entries(bump_all(s, toks)).len() ==> (#[trigger] positive_entries(
                bump_all(s, toks),
            )[j].1 > 0 && positive_entries(bump_all(s, toks))[j].1 == occurrences(
                toks,
                positive_entries(bump_all(s, toks))[j].0,
            )),
{
    lemma_bump_all_exact(s, toks);
    let b = bump_all(s, toks);
    let pred = |p: (Seq<char>, int)| p.1 > 0;
    if forall|i: int| 0 <= i < s.len() ==> occurrences(toks, #[trigger] s[i].0) == 0 {
        assert forall|i: int| 0 <= i < b.len() implies !pred(#[trigger] b[i]) by {
            assert(b[i].1 == occurrences(toks, s[i].0));
        }
        lemma_filter_none(b, pred);
    }
    lemma_filter_membership(b, pred);
    let rep = positive_entries(b);
    assert forall|j: int| 0 <= j < rep.len() implies (#[trigger] rep[j].1 > 0 && rep[j].1
        == occurrences(toks, rep[j].0)) by {
        assert(b.contains(rep[j]));
        let w = choose|i: int| #![auto] 0 <= i < b.len() && b[i] == rep[j];
        assert(b[w].1 == occurrences(toks, s[w].0));
        assert(rep[j].0 == s[w].0);
        assert(rep[j].1 > 0) by {
            reveal(Seq::filter);
            lemma_filter_pred_holds(b, pred, j);
        }
    }
}

/// Every element of a filtered sequence satisfies the predicate.
proof fn lemma_filter_pred_holds<A>(s: Seq<A>, pred: spec_fn(A) -> bool, j: int)
    requires
        0 <= j < s.filter(pred).len(),
    ensures
        pred(s.filter(pred)[j]),
    decreases s.len(),
{
    reveal(Seq::filter);
    if s.len() > 0 {
        let fd = s.drop_last().filter(pred);
        if j < fd.len() {
            lemma_filter_pred_holds(s.drop_last(), pred, j);
        }
    }
}

/// Resetting the counts and then running a cycle in which nothing could be
/// captured — no token is analyzed at all — leaves every count at zero and
/// posts an empty report.
pub proof fn lemma_empty_cycle_empty_report(s: Seq<(Seq<char>, int)>)
    requires
        all_counts(s, 0),
    ensures
        bump_all(s, Seq::<Seq<char>>::empty()) == s,
        positive_entries(s) == Seq::<(Seq<char>, int)>::empty(),
{
    let pred = |p: (Seq<char>, int)| p.1 > 0;
    assert forall|i: int| 0 <= i < s.len() implies !pred(#[trigger] s[i]) by {
        assert(s[i].1 == 0);
    }
    lemma_filter_none(s, pred);
}

/// What the OCR engine's text becomes under lowercasing: a function of the
/// characters alone.
pub uninterp spec fn lower_of(s: Seq<char>) -> Seq<char>;

/// Relies on str::to_lowercase: the lowercase form of the text, depending on
/// the characters alone; an empty text stays empty.
#[verifier::external_body]
fn lowercase(s: &str) -> (r: String)
    ensures
        r@ == lower_of(s@),
        s@.len() == 0 ==> r@.len() == 0,
{
    s.to_lowercase()
}

/// Whether `c` is a word separator.
fn space_char(c: char) -> (r: bool)
    ensures
        r == is_word_space(c),
{
    c == '\u{9}' || c == '\u{a}' || c == '\u{b}' || c == '\u{c}' || c == '\u{d}' || c == ' '
        || c == '\u{85}' || c == '\u{a0}' || c == '\u{1680}' || ('\u{2000}' <= c && c
        <= '\u{200a}') || c == '\u{2028}' || c == '\u{2029}' || c == '\u{202f}' || c == '\u{205f}'
        || c == '\u{3000}'
}

/// The character with stripped punctuation turned into a space.
fn normalize_char_exec(c: char) -> (r: char)
    ensures
        r == normalize_char(c),
{
    if c == '(' || c == ')' || c == ',' || c == '"' || c == '.' || c == ';' || c == ':' || c
        == '\'' {
        ' '
    } else {
        c
    }
}

/// Tokenizes already-lowercased text and lands every token on the blacklist:
/// punctuation becomes spaces, the text is split on whitespace, and each
/// token that is a keyword raises that keyword's count by one, in order.
pub fn tally_tokens(bl: &mut Blacklist, lowered: &str)
    ensures
        final(bl)@ == bump_all(old(bl)@, tokens_of(normalize_text(lowered@))),
{
    let cs = str_chars(lowered);
    let ghost ns = normalize_text(lowered@);
    proof {
        assert(ns.len() == cs@.len());
    }
    let mut cur: Vec<char> = Vec::new();
    for i in 0..cs.len()
        invariant
            cs@ == lowered@,
            ns == normalize_text(lowered@),
            ns.len() == cs@.len(),
            cur@ == tokens_acc(ns.take(i as int)).1,
            bl@ == bump_all(old(bl)@, tokens_acc(ns.take(i as int)).0),
    {
        proof {
            assert(ns.take(i + 1).drop_last() =~= ns.take(i as int));
            assert(ns.take(i + 1).last() == ns[i as int]);
            assert(ns[i as int] == normalize_char(cs@[i as int]));
        }
        let c = normalize_char_exec(cs[i]);
        if space_char(c) {
            if cur.len() > 0 {
                let ghost done = tokens_acc(ns.take(i as int)).0;
                bl.bump(&cur);
                proof {
                    assert(done.push(cur@).drop_last() =~= done);
                    assert(bl@ == bump_all(old(bl)@, tokens_acc(ns.take(i + 1)).0));
                }
                cur = Vec::new();
            }
        } else {
            cur.push(c);
        }
    }
    proof {
        assert(ns.take(ns.len() as int) =~= ns);
    }
    if cur.len() > 0 {
        let ghost done = tokens_acc(ns).0;
        bl.bump(&cur);
        proof {
            assert(done.push(cur@).drop_last() =~= done);
        }
    }
}

/// Analyzes the text the OCR engine returned for one slice: the text is
/// lowercased, punctuation becomes spaces, the result is split on
/// whitespace, and every token that is a keyword raises that keyword's
/// count by one. Counts already on the blacklist are kept: slices analyzed
/// earlier keep their contribution.
pub fn analyze_text(bl: &mut Blacklist, text: &str)
    ensures
        final(bl)@ == bump_all(old(bl)@, tokens_of(normalize_text(lower_of(text@)))),
{
    let lowered = lowercase(text);
    tally_tokens(bl, lowered.as_str());
}

} // verus!
