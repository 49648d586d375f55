use vstd::prelude::*;

verus! {

/// A parsed greeting: the greeting word and the name greeted.
#[derive(Debug, PartialEq)]
pub struct Greeting {
    pub greeting: String,
    pub name: String,
}

/// Which part of a greeting was missing.
#[derive(Debug, Clone, Copy, PartialEq, Eq, Structural)]
pub enum ErrorKind {
    /// The input does not start with `hello`.
    Tag,
    /// No space or tab follows `hello`.
    Space,
    /// No ASCII letter follows the spaces.
    Alpha,
}

/// A failed parse: the input where the missing part was expected, and what it was.
#[derive(Debug, PartialEq)]
pub struct ParseError<'a> {
    pub input: &'a str,
    pub code: ErrorKind,
}

pub open spec fn is_blank(c: char) -> bool {
    c == ' ' || c == '\t'
}

pub open spec fn is_alpha(c: char) -> bool {
    ('a' <= c && c <= 'z') || ('A' <= c && c <= 'Z')
}

/// Where the run of blanks that starts at `i` ends.
pub open spec fn blank_end(s: Seq<char>, i: int) -> int
    decreases s.len() - i,
{
    if 0 <= i < s.len() && is_blank(s[i]) {
        blank_end(s, i + 1)
    } else {
        i
    }
}

/// Where the run of ASCII letters that starts at `i` ends.
pub open spec fn alpha_end(s: Seq<char>, i: int) -> int
    decreases s.len() - i,
{
    if 0 <= i < s.len() && is_alpha(s[i]) {
        alpha_end(s, i + 1)
    } else {
        i
    }
}

/// The input starts with the greeting word.
pub open spec fn has_tag(s: Seq<char>) -> bool {
    s.len() >= 5 && s.take(5) == "hello"@
}

fn skip_blanks(s: &str, from: usize) -> (r: usize)
    requires
        from <= s@.len(),
    ensures
        r == blank_end(s@, from as int),
        from <= r <= s@.len(),
{
    let n = s.unicode_len();
    let mut i = from;
    while i < n && is_blank_char(s.get_char(i))
        invariant
            n == s@.len(),
            from <= i <= n,
            blank_end(s@, i as int) == blank_end(s@, from as int),
        decreases n - i,
    {
        i = i + 1;
    }
    i
}

fn skip_alphas(s: &str, from: usize) -> (r: usize)
    requires
        from <= s@.len(),
    ensures
        r == alpha_end(s@, from as int),
        from <= r <= s@.len(),
{
    let n = s.unicode_len();
    let mut i = from;
    while i < n && is_alpha_char(s.get_char(i))
        invariant
            n == s@.len(),
            from <= i <= n,
            alpha_end(s@, i as int) == alpha_end(s@, from as int),
        decreases n - i,
    {
        i = i + 1;
    }
    i
}

fn is_blank_char(c: char) -> (r: bool)
    ensures
        r == is_blank(c),
{
    c == ' ' || c == '\t'
}

fn is_alpha_char(c: char) -> (r: bool)
    ensures
        r == is_alpha(c),
{
    ('a' <= c && c <= 'z') || ('A' <= c && c <= 'Z')
}

/// Parses `hello`, then one or more spaces or tabs, then one or more ASCII
/// letters (the name); gives the input that follows and the greeting.
pub fn parse_greeting<'a>(input: &'a str) -> (r: Result<(&'a str, Greeting), ParseError<'a>>)
    ensures
        !has_tag(input@) ==> (r matches Err(e) && e.code == ErrorKind::Tag && e.input@
            == input@),
        has_tag(input@) && blank_end(input@, 5) == 5 ==> (r matches Err(e) && e.code
            == ErrorKind::Space && e.input@ == input@.skip(5)),
        has_tag(input@) && blank_end(input@, 5) > 5 && alpha_end(
            input@,
            blank_end(input@, 5),
        ) == blank_end(input@, 5) ==> (r matches Err(e) && e.code == ErrorKind::Alpha
            && e.input@ == input@.skip(blank_end(input@, 5))),
        has_tag(input@) && blank_end(input@, 5) > 5 && alpha_end(
            input@,
            blank_end(input@, 5),
        ) > blank_end(input@, 5) ==> (r matches Ok((rest, g)) && g.greeting@ == "hello"@
            && g.name@ == input@.subrange(
            blank_end(input@, 5),
            alpha_end(input@, blank_end(input@, 5)),
        ) && rest@ == input@.skip(alpha_end(input@, blank_end(input@, 5)))),
{
    let n = input.unicode_len();
    let word = String::from_str("hello");
    if n < 5 || String::from_str(input.substring_char(0, 5)) != word {
        return Err(ParseError { input, code: ErrorKind::Tag });
    }
    let after_word = input.substring_char(5, n);
    proof {
        assert(input@.subrange(5, n as int) =~= input@.skip(5));
    }
    let name_start = skip_blanks(input, 5);
    if name_start == 5 {
        return Err(ParseError { input: after_word, code: ErrorKind::Space });
    }
    let name_end = skip_alphas(input, name_start);
    if name_end == name_start {
        proof {
            assert(input@.subrange(name_start as int, n as int) =~= input@.skip(name_start as int));
        }
        return Err(ParseError { input: input.substring_char(name_start, n), code: ErrorKind::Alpha });
    }
    let name = String::from_str(input.substring_char(name_start, name_end));
    let rest = input.substring_char(name_end, n);
    proof {
        assert(input@.subrange(name_end as int, n as int) =~= input@.skip(name_end as int));
    }
    Ok((rest, Greeting { greeting: word, name }))
}

} // verus!
