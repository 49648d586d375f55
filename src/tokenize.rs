use vstd::prelude::*;

verus! {

/// The characters with the Unicode `White_Space` property, the set that
/// `char::is_whitespace` tests for.
pub open spec fn is_white(c: char) -> bool {
    ('\u{9}' <= c && c <= '\u{d}') || c == ' ' || c == '\u{85}' || c == '\u{a0}'
        || c == '\u{1680}' || ('\u{2000}' <= c && c <= '\u{200a}') || c == '\u{2028}'
        || c == '\u{2029}' || c == '\u{202f}' || c == '\u{205f}' || c == '\u{3000}'
}

/// Closes the token being built, if it holds anything.
pub open spec fn flush(toks: Seq<Seq<char>>, cur: Seq<char>) -> Seq<Seq<char>> {
    if cur.len() == 0 {
        toks
    } else {
        toks.push(cur)
    }
}

/// The tokens completed so far and the token being built, after reading `s`
/// from left to right.
pub open spec fn scan(s: Seq<char>) -> (Seq<Seq<char>>, Seq<char>)
    decreases s.len(),
{
    if s.len() == 0 {
        (seq![], seq![])
    } else {
        let (toks, cur) = scan(s.drop_last());
        if is_white(s.last()) {
            (flush(toks, cur), seq![])
        } else {
            (toks, cur.push(s.last()))
        }
    }
}

/// The maximal runs of non-whitespace characters of `s`, in order.
pub open spec fn tokens(s: Seq<char>) -> Seq<Seq<char>> {
    flush(scan(s).0, scan(s).1)
}

/// A token is non-empty and holds no whitespace.
pub open spec fn is_token(t: Seq<char>) -> bool {
    t.len() > 0 && forall|j: int| 0 <= j < t.len() ==> !is_white(#[trigger] t[j])
}

pub open spec fn all_tokens(ts: Seq<Seq<char>>) -> bool {
    forall|k: int| 0 <= k < ts.len() ==> is_token(#[trigger] ts[k])
}

/// The character sequences that a list of strings holds.
pub open spec fn strings_view(v: Seq<String>) -> Seq<Seq<char>> {
    v.map_values(|t: String| t@)
}

proof fn lemma_scan_tokens(s: Seq<char>)
    ensures
        all_tokens(scan(s).0),
        forall|j: int| 0 <= j < scan(s).1.len() ==> !is_white(#[trigger] scan(s).1[j]),
    decreases s.len(),
{
    if s.len() > 0 {
        lemma_scan_tokens(s.drop_last());
        let (toks, cur) = scan(s.drop_last());
        if !is_white(s.last()) {
            assert forall|j: int| 0 <= j < cur.push(s.last()).len() implies !is_white(
                #[trigger] cur.push(s.last())[j],
            ) by {
                if j < cur.len() {
                    assert(cur.push(s.last())[j] == cur[j]);
                }
            }
        }
    }
}

/// Every token of a line is non-empty and free of whitespace.
pub proof fn lemma_tokens_are_tokens(s: Seq<char>)
    ensures
        all_tokens(tokens(s)),
{
    lemma_scan_tokens(s);
}

/// `char::is_whitespace`, decided over the `White_Space` set.
pub fn is_white_char(c: char) -> (r: bool)
    ensures
        r == is_white(c),
{
    ('\u{9}' <= c && c <= '\u{d}') || c == ' ' || c == '\u{85}' || c == '\u{a0}'
        || c == '\u{1680}' || ('\u{2000}' <= c && c <= '\u{200a}') || c == '\u{2028}'
        || c == '\u{2029}' || c == '\u{202f}' || c == '\u{205f}' || c == '\u{3000}'
}

/// Splits a line into its whitespace-separated tokens.
pub fn split_by_whitespace(to_split: String) -> (r: Vec<String>)
    ensures
        strings_view(r@) == tokens(to_split@),
        all_tokens(strings_view(r@)),
{
    let s = to_split.as_str();
    let n = s.unicode_len();
    let mut toks: Vec<String> = Vec::new();
    let mut start: usize = 0;
    let mut i: usize = 0;
    proof {
        assert(s@.take(0) =~= Seq::<char>::empty());
        assert(strings_view(toks@) =~= Seq::<Seq<char>>::empty());
        assert(s@.subrange(0, 0) =~= Seq::<char>::empty());
    }
    while i < n
        invariant
            n == s@.len(),
            s@ == to_split@,
            start <= i <= n,
            strings_view(toks@) == scan(s@.take(i as int)).0,
            s@.subrange(start as int, i as int) == scan(s@.take(i as int)).1,
        decreases n - i,
    {
        let c = s.get_char(i);
        proof {
            assert(s@.take(i + 1).drop_last() =~= s@.take(i as int));
            assert(s@.take(i + 1).last() == c);
        }
        if is_white_char(c) {
            if start < i {
                let t = String::from_str(s.substring_char(start, i));
                let ghost before = toks@;
                toks.push(t);
                proof {
                    assert(strings_view(toks@) =~= strings_view(before).push(t@));
                }
            }
            start = i + 1;
            proof {
                assert(s@.subrange(start as int, i + 1) =~= Seq::<char>::empty());
            }
        } else {
            proof {
                assert(s@.subrange(start as int, i + 1) =~= s@.subrange(
                    start as int,
                    i as int,
                ).push(c));
            }
        }
        i = i + 1;
    }
    proof {
        assert(s@.take(n as int) =~= s@);
    }
    if start < n {
        let t = String::from_str(s.substring_char(start, n));
        let ghost before = toks@;
        toks.push(t);
        proof {
            assert(strings_view(toks@) =~= strings_view(before).push(t@));
        }
    }
    proof {
        lemma_tokens_are_tokens(to_split@);
    }
    toks
}

} // verus!
