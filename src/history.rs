use vstd::prelude::*;

use crate::tokenize::{all_tokens, is_token, is_white, strings_view};

verus! {

/// The tokens of a command written back as one line, separated by single spaces.
pub open spec fn join_spaced(ts: Seq<Seq<char>>) -> Seq<char>
    decreases ts.len(),
{
    if ts.len() == 0 {
        seq![]
    } else if ts.len() == 1 {
        ts[0]
    } else {
        join_spaced(ts.drop_last()) + seq![' '] + ts.last()
    }
}

/// The text of a history file after appending each command in turn, one line each.
pub open spec fn history_text(cmds: Seq<Seq<Seq<char>>>) -> Seq<char>
    decreases cmds.len(),
{
    if cmds.len() == 0 {
        seq![]
    } else {
        history_text(cmds.drop_last()) + join_spaced(cmds.last()) + seq!['\n']
    }
}

/// The finished lines of a text and the unfinished rest, read left to right.
pub open spec fn scan_lines(t: Seq<char>) -> (Seq<Seq<char>>, Seq<char>)
    decreases t.len(),
{
    if t.len() == 0 {
        (seq![], seq![])
    } else {
        let (done, cur) = scan_lines(t.drop_last());
        if t.last() == '\n' {
            (done.push(cur), seq![])
        } else {
            (done, cur.push(t.last()))
        }
    }
}

/// The lines of a text, as reading it back line by line gives them.
pub open spec fn lines_of(t: Seq<char>) -> Seq<Seq<char>> {
    let (done, cur) = scan_lines(t);
    if cur.len() == 0 {
        done
    } else {
        done.push(cur)
    }
}

pub open spec fn no_newline(s: Seq<char>) -> bool {
    forall|j: int| 0 <= j < s.len() ==> s[j] != '\n'
}

proof fn lemma_join_no_newline(ts: Seq<Seq<char>>)
    requires
        all_tokens(ts),
    ensures
        no_newline(join_spaced(ts)),
    decreases ts.len(),
{
    if ts.len() > 0 {
        assert(is_token(ts[0]));
        assert(is_token(ts.last()));
        assert(is_white('\n'));
        if ts.len() > 1 {
            let init = ts.drop_last();
            assert(all_tokens(init)) by {
                assert forall|k: int| 0 <= k < init.len() implies is_token(#[trigger] init[k]) by {
                    assert(init[k] == ts[k]);
                }
            }
            lemma_join_no_newline(init);
        }
    }
}

proof fn lemma_scan_no_newline(t: Seq<char>, u: Seq<char>)
    requires
        no_newline(u),
    ensures
        scan_lines(t + u) == (scan_lines(t).0, scan_lines(t).1 + u),
    decreases u.len(),
{
    if u.len() == 0 {
        assert(t + u =~= t);
        assert(scan_lines(t).1 + u =~= scan_lines(t).1);
    } else {
        let v = u.drop_last();
        assert((t + u).drop_last() =~= t + v);
        lemma_scan_no_newline(t, v);
        assert(scan_lines(t).1 + v.push(u.last()) =~= scan_lines(t).1 + u);
        assert(v.push(u.last()) =~= u);
        assert(scan_lines(t).1 + v + seq![u.last()] =~= scan_lines(t).1 + u);
        assert((scan_lines(t).1 + v).push(u.last()) =~= scan_lines(t).1 + u);
    }
}

/// Appending the history lines of commands to an empty file and reading the
/// file back gives one line per command, equal to its tokens joined by
/// spaces, in the order in which they were appended.
pub proof fn lemma_history_round_trip(cmds: Seq<Seq<Seq<char>>>)
    requires
        forall|i: int| 0 <= i < cmds.len() ==> all_tokens(#[trigger] cmds[i]),
    ensures
        lines_of(history_text(cmds)) == cmds.map_values(|c: Seq<Seq<char>>| join_spaced(c)),
{
    lemma_history_scan(cmds);
}

proof fn lemma_history_scan(cmds: Seq<Seq<Seq<char>>>)
    requires
        forall|i: int| 0 <= i < cmds.len() ==> all_tokens(#[trigger] cmds[i]),
    ensures
        scan_lines(history_text(cmds)) == (
            cmds.map_values(|c: Seq<Seq<char>>| join_spaced(c)),
            Seq::<char>::empty(),
        ),
    decreases cmds.len(),
{
    if cmds.len() == 0 {
        assert(cmds.map_values(|c: Seq<Seq<char>>| join_spaced(c)) =~= seq![]);
    } else {
        let init = cmds.drop_last();
        assert forall|i: int| 0 <= i < init.len() implies all_tokens(#[trigger] init[i]) by {
            assert(init[i] == cmds[i]);
        }
        lemma_history_scan(init);
        let line = join_spaced(cmds.last());
        assert(all_tokens(cmds[cmds.len() - 1]));
        lemma_join_no_newline(cmds.last());
        let t = history_text(init);
        lemma_scan_no_newline(t, line);
        let whole = history_text(cmds);
        assert(whole == t + line + seq!['\n']);
        assert(whole.drop_last() =~= t + line);
        assert(cmds.map_values(|c: Seq<Seq<char>>| join_spaced(c)) =~= init.map_values(
            |c: Seq<Seq<char>>| join_spaced(c),
        ).push(line));
        assert(Seq::<char>::empty() + line =~= line);
    }
}

/// The line that records a command in the history file.
pub fn history_line(args: &Vec<String>) -> (r: String)
    ensures
        r@ == join_spaced(strings_view(args@)),
{
    let mut line = String::new();
    let mut i: usize = 0;
    while i < args.len()
        invariant
            i <= args@.len(),
            line@ == join_spaced(strings_view(args@).take(i as int)),
        decreases args@.len() - i,
    {
        proof {
            reveal_strlit(" ");
            assert(strings_view(args@).take(i + 1).drop_last() =~= strings_view(args@).take(
                i as int,
            ));
        }
        if i > 0 {
            line.append(" ");
        }
        line.append(args[i].as_str());
        proof {
            if i == 0 {
                assert(strings_view(args@).take(1)[0] == args@[0]@);
                assert(Seq::<char>::empty() + args@[0]@ =~= args@[0]@);
            }
        }
        i = i + 1;
    }
    proof {
        assert(strings_view(args@).take(args@.len() as int) =~= strings_view(args@));
    }
    line
}

} // verus!
