use vstd::prelude::*;

verus! {

/// `cwd` with the home directory written as `~` where `cwd` starts with it.
pub open spec fn shortened(cwd: Seq<char>, home: Option<Seq<char>>) -> Seq<char> {
    match home {
        Some(h) => if h.len() <= cwd.len() && cwd.take(h.len() as int) == h {
            "~"@ + cwd.skip(h.len() as int)
        } else {
            cwd
        },
        None => cwd,
    }
}

fn starts_with(s: &str, prefix: &str) -> (r: bool)
    ensures
        r == (prefix@.len() <= s@.len() && s@.take(prefix@.len() as int) == prefix@),
{
    let n = s.unicode_len();
    let k = prefix.unicode_len();
    if k > n {
        return false;
    }
    let mut i: usize = 0;
    while i < k
        invariant
            k <= n,
            n == s@.len(),
            k == prefix@.len(),
            i <= k,
            s@.take(i as int) == prefix@.take(i as int),
        decreases k - i,
    {
        if s.get_char(i) != prefix.get_char(i) {
            assert(s@.take(k as int)[i as int] != prefix@[i as int]);
            return false;
        }
        proof {
            assert(s@.take(i + 1) =~= s@.take(i as int).push(s@[i as int]));
            assert(prefix@.take(i + 1) =~= prefix@.take(i as int).push(prefix@[i as int]));
        }
        i = i + 1;
    }
    proof {
        assert(prefix@.take(k as int) =~= prefix@);
    }
    true
}

/// The working directory as the prompt shows it, given the home directory if
/// it is known.
pub fn get_shortened_path(cwd: String, home: Option<String>) -> (r: String)
    ensures
        r@ == shortened(
            cwd@,
            match home {
                Some(h) => Some(h@),
                None => None,
            },
        ),
{
    match home {
        Some(h) => {
            if starts_with(cwd.as_str(), h.as_str()) {
                let n = cwd.as_str().unicode_len();
                let mut r = String::from_str("~");
                r.append(cwd.as_str().substring_char(h.as_str().unicode_len(), n));
                proof {
                    assert(cwd@.subrange(h@.len() as int, n as int) =~= cwd@.skip(h@.len() as int));
                }
                r
            } else {
                cwd
            }
        },
        None => cwd,
    }
}

} // verus!
