//! The tamper guard: the installed service descriptor must still demand an
//! always-restart policy and a thirty-second restart delay.
//!
//! The descriptor is scanned line by line. A line naming a restart directive
//! overrides every earlier one of the same kind — last write wins — so the
//! check passes only when the directives in force at the end of the scan are
//! exactly the required ones.

use crate::text::{
    chars_contains, chars_eq, contains_seq, lines_of, matches_at, split_lines, str_chars,
};
use vstd::prelude::*;

verus! {

/// The required restart-policy line.
pub open spec fn restart_always_line() -> Seq<char> {
    "Restart=always"@
}

/// The required restart-delay line.
pub open spec fn restart_sec_30_line() -> Seq<char> {
    "RestartSec=30s"@
}

/// The key that marks a line as setting the restart policy.
pub open spec fn restart_key() -> Seq<char> {
    "Restart="@
}

/// The key that marks a line as setting the restart delay.
pub open spec fn restart_sec_key() -> Seq<char> {
    "RestartSec="@
}

/// How one line of the descriptor changes the pair of flags (restart policy
/// in force, restart delay in force). A line is tried against the required
/// restart line first, then against the restart key, then the same for the
/// delay, so a line holding both keys counts as a restart-policy line.
pub open spec fn scan_line(flags: (bool, bool), l: Seq<char>) -> (bool, bool) {
    if l == restart_always_line() {
        (true, flags.1)
    } else if contains_seq(l, restart_key()) {
        (false, flags.1)
    } else if l == restart_sec_30_line() {
        (flags.0, true)
    } else if contains_seq(l, restart_sec_key()) {
        (flags.0, false)
    } else {
        flags
    }
}

/// The flags after scanning every line, starting from none in force.
pub open spec fn scan_acc(lines: Seq<Seq<char>>) -> (bool, bool)
    decreases lines.len(),
{
    if lines.len() == 0 {
        (false, false)
    } else {
        scan_line(scan_acc(lines.drop_last()), lines.last())
    }
}

/// The descriptor with these characters passes the tamper check.
pub open spec fn descriptor_ok(s: Seq<char>) -> bool {
    scan_acc(lines_of(s)).0 && scan_acc(lines_of(s)).1
}

/// The lines of the descriptor that set the restart policy.
pub open spec fn restart_lines(ls: Seq<Seq<char>>) -> Seq<Seq<char>> {
    ls.filter(|l: Seq<char>| contains_seq(l, restart_key()))
}

/// The lines of the descriptor that set the restart delay.
pub open spec fn restart_sec_lines(ls: Seq<Seq<char>>) -> Seq<Seq<char>> {
    ls.filter(
        |l: Seq<char>| !contains_seq(l, restart_key()) && contains_seq(l, restart_sec_key()),
    )
}

/// Scans the service descriptor and reports whether it still holds the two
/// required directives, each not overridden by a later line of its kind.
pub fn check_service_descriptor(contents: &str) -> (r: bool)
    ensures
        r == descriptor_ok(contents@),
{
    let cs = str_chars(contents);
    let lines = split_lines(&cs);
    let pat_always = str_chars("Restart=always");
    let pat_restart_key = str_chars("Restart=");
    let pat_sec_30 = str_chars("RestartSec=30s");
    let pat_sec_key = str_chars("RestartSec=");
    let ghost lv = lines.deep_view();
    let mut restart = false;
    let mut restart_sec = false;
    for i in 0..lines.len()
        invariant
            lv == lines.deep_view(),
            lv == lines_of(contents@),
            lines@.len() == lv.len(),
            pat_always@ == restart_always_line(),
            pat_restart_key@ == restart_key(),
            pat_sec_30@ == restart_sec_30_line(),
            pat_sec_key@ == restart_sec_key(),
            restart == scan_acc(lv.take(i as int)).0,
            restart_sec == scan_acc(lv.take(i as int)).1,
    {
        proof {
            assert(lv.take(i + 1).drop_last() =~= lv.take(i as int));
            assert(lv.take(i + 1).last() == lv[i as int]);
            assert(lines@[i as int].deep_view() =~= lines@[i as int]@);
        }
        let l = &lines[i];
        if chars_eq(l, &pat_always) {
            restart = true;
        } else if chars_contains(l, &pat_restart_key) {
            restart = false;
        } else if chars_eq(l, &pat_sec_30) {
            restart_sec = true;
        } else if chars_contains(l, &pat_sec_key) {
            restart_sec = false;
        }
    }
    proof {
        assert(lv.take(lv.len() as int) =~= lv);
    }
    restart && restart_sec
}

/// Facts about the directive texts themselves: the required restart line
/// carries the restart key, the required delay line carries the delay key but
/// not the restart key.
proof fn lemma_directive_literals()
    ensures
        contains_seq(restart_always_line(), restart_key()),
        contains_seq(restart_sec_30_line(), restart_sec_key()),
        !contains_seq(restart_sec_30_line(), restart_key()),
        restart_always_line() != restart_sec_30_line(),
{
    reveal_strlit("Restart=always");
    reveal_strlit("Restart=");
    reveal_strlit("RestartSec=30s");
    reveal_strlit("RestartSec=");
    assert(matches_at(restart_always_line(), restart_key(), 0));
    assert(matches_at(restart_sec_30_line(), restart_sec_key(), 0));
    assert forall|i: int| !matches_at(restart_sec_30_line(), restart_key(), i) by {
        if 0 <= i && i + restart_key().len() <= restart_sec_30_line().len() {
            if i == 0 {
                assert(restart_sec_30_line()[7] != restart_key()[7]);
            } else if i == 1 {
                assert(restart_sec_30_line()[1] != restart_key()[0]);
            } else if i == 2 {
                assert(restart_sec_30_line()[2] != restart_key()[0]);
            } else if i == 3 {
                assert(restart_sec_30_line()[3] != restart_key()[0]);
            } else if i == 4 {
                assert(restart_sec_30_line()[4] != restart_key()[0]);
            } else if i == 5 {
                assert(restart_sec_30_line()[5] != restart_key()[0]);
            } else {
                assert(i == 6);
                assert(restart_sec_30_line()[6] != restart_key()[0]);
            }
        }
    }
    assert(restart_sec_30_line()[7] != restart_always_line()[7]);
}

/// Relates the scan to the last directive of each kind: the policy flag ends
/// in force exactly when some line sets the restart policy and the last such
/// line is the required one, and likewise for the delay flag.
proof fn lemma_scan_last(ls: Seq<Seq<char>>)
    ensures
        scan_acc(ls).0 <==> (restart_lines(ls).len() > 0 && restart_lines(ls).last()
            == restart_always_line()),
        scan_acc(ls).1 <==> (restart_sec_lines(ls).len() > 0 && restart_sec_lines(ls).last()
            == restart_sec_30_line()),
    decreases ls.len(),
{
    reveal(Seq::filter);
    lemma_directive_literals();
    if ls.len() > 0 {
        let prev = ls.drop_last();
        let l = ls.last();
        lemma_scan_last(prev);
        assert(restart_lines(ls) == if contains_seq(l, restart_key()) {
            restart_lines(prev).push(l)
        } else {
            restart_lines(prev)
        });
        assert(restart_sec_lines(ls) == if !contains_seq(l, restart_key()) && contains_seq(
            l,
            restart_sec_key(),
        ) {
            restart_sec_lines(prev).push(l)
        } else {
            restart_sec_lines(prev)
        });
        assert(scan_acc(ls) == scan_line(scan_acc(prev), l));
        if l == restart_always_line() {
            assert(contains_seq(l, restart_key()));
            assert(restart_lines(ls).last() == l);
        } else if contains_seq(l, restart_key()) {
            assert(restart_lines(ls).last() == l);
        } else if l == restart_sec_30_line() {
            assert(contains_seq(l, restart_sec_key()));
            assert(restart_sec_lines(ls).last() == l);
        } else if contains_seq(l, restart_sec_key()) {
            assert(restart_sec_lines(ls).last() == l);
        }
    }
}

/// The check passes if and only if the last line setting the restart policy
/// is exactly the always-restart directive and the last line setting the
/// restart delay is exactly the thirty-second directive.
pub proof fn lemma_last_directive_wins(s: Seq<char>)
    ensures
        descriptor_ok(s) <==> {
            let rl = restart_lines(lines_of(s));
            let sl = restart_sec_lines(lines_of(s));
            &&& rl.len() > 0
            &&& rl.last() == restart_always_line()
            &&& sl.len() > 0
            &&& sl.last() == restart_sec_30_line()
        },
{
    lemma_scan_last(lines_of(s));
}

} // verus!
