//! Lexical layer shared by both file kinds: lines, whitespace-separated
//! tokens, fields split on a separator character, and tokens joined back
//! with single spaces.
use vstd::prelude::*;
use vstd::std_specs::iter::IteratorSpec;
use vstd::string::StrSliceExecFns;

verus! {

/// Characters with the Unicode `White_Space` property, which separate the
/// tokens of a line.
pub open spec fn is_white_space(c: char) -> bool {
    let n = c as u32;
    (9 <= n && n <= 13) || n == 32 || n == 0x85 || n == 0xa0 || n == 0x1680 || (0x2000 <= n
        && n <= 0x200a) || n == 0x2028 || n == 0x2029 || n == 0x202f || n == 0x205f || n == 0x3000
}

/// The views of a sequence of character vectors.
pub open spec fn views(v: Seq<Vec<char>>) -> Seq<Seq<char>> {
    v.map_values(|x: Vec<char>| x@)
}

/// The tokens of `s`: its maximal runs of non-whitespace characters, in order.
pub open spec fn tokens(s: Seq<char>) -> Seq<Seq<char>>
    decreases s.len(),
{
    if s.len() == 0 {
        seq![]
    } else {
        let prev = tokens(s.drop_last());
        let c = s.last();
        if is_white_space(c) {
            prev
        } else if s.len() > 1 && !is_white_space(s[s.len() - 2]) {
            prev.drop_last().push(prev.last().push(c))
        } else {
            prev.push(seq![c])
        }
    }
}

/// The fields of `s` between occurrences of `sep`; there is always at least one.
pub open spec fn split(s: Seq<char>, sep: char) -> Seq<Seq<char>>
    decreases s.len(),
{
    if s.len() == 0 {
        seq![seq![]]
    } else {
        let prev = split(s.drop_last(), sep);
        if s.last() == sep {
            prev.push(seq![])
        } else {
            prev.drop_last().push(prev.last().push(s.last()))
        }
    }
}

/// The words joined with a single space between neighbours.
pub open spec fn join_words(ws: Seq<Seq<char>>) -> Seq<char>
    decreases ws.len(),
{
    if ws.len() == 0 {
        seq![]
    } else if ws.len() == 1 {
        ws[0]
    } else {
        join_words(ws.drop_last()) + seq![' '] + ws.last()
    }
}

/// The text of a directive's arguments: the tokens after the first, joined by
/// single spaces.
pub open spec fn rest_text(toks: Seq<Seq<char>>) -> Seq<char> {
    if toks.len() <= 1 {
        seq![]
    } else {
        join_words(toks.drop_first())
    }
}

/// The characters of a text, in order.
pub fn chars_of(s: &str) -> (r: Vec<char>)
    ensures
        r@ == s@,
{
    broadcast use vstd::string::group_string_axioms;

    let mut it = s.chars();
    let mut out: Vec<char> = Vec::new();
    loop
        invariant
            out@ + it.remaining() == s@,
            it.decrease() is Some,
        ensures
            out@ == s@,
        decreases it.decrease()->0,
    {
        match it.next() {
            Some(c) => {
                out.push(c);
            },
            None => {
                break ;
            },
        }
    }
    out
}

/// Relies on `String: FromIterator<char>`: the string made of the given characters.
#[verifier::external_body]
pub(crate) fn string_of(cs: &Vec<char>) -> (r: String)
    ensures
        r@ == cs@,
{
    cs.iter().collect()
}

pub open spec fn string_views(v: Seq<String>) -> Seq<Seq<char>> {
    v.map_values(|s: String| s@)
}

/// The lines of a text: the pieces between line feeds, in order. A carriage
/// return before a line feed stays at the end of its line, where it is
/// whitespace like any other.
pub fn split_lines(text: &str) -> (r: Vec<String>)
    ensures
        string_views(r@) == split(text@, '\n'),
{
    let parts = split_on(&chars_of(text), '\n');
    let mut out: Vec<String> = Vec::new();
    let mut i: usize = 0;
    while i < parts.len()
        invariant
            i <= parts.len(),
            string_views(out@) == views(parts@).take(i as int),
        decreases parts.len() - i,
    {
        let ghost before = out@;
        out.push(string_of(&parts[i]));
        proof {
            assert(string_views(out@) == string_views(before).push(parts@[i as int]@));
            assert(views(parts@).take(i + 1) == views(parts@).take(i as int).push(parts@[i as int]@));
        }
        i += 1;
    }
    proof {
        assert(views(parts@).take(parts@.len() as int) == views(parts@));
    }
    out
}

/// Whether the token `tok` is the keyword `kw`.
pub fn is_word(tok: &Vec<char>, kw: &str) -> (r: bool)
    ensures
        r == (tok@ == kw@),
{
    let n = kw.unicode_len();
    if tok.len() != n {
        return false;
    }
    let mut i: usize = 0;
    while i < n
        invariant
            n == kw@.len(),
            tok@.len() == n,
            i <= n,
            forall|k: int| 0 <= k < i ==> tok@[k] == kw@[k],
        decreases n - i,
    {
        if tok[i] != kw.get_char(i) {
            return false;
        }
        i += 1;
    }
    proof {
        assert(tok@ == kw@);
    }
    true
}

pub fn is_white_space_char(c: char) -> (r: bool)
    ensures
        r == is_white_space(c),
{
    let n = c as u32;
    (9 <= n && n <= 13) || n == 32 || n == 0x85 || n == 0xa0 || n == 0x1680 || (0x2000 <= n
        && n <= 0x200a) || n == 0x2028 || n == 0x2029 || n == 0x202f || n == 0x205f || n == 0x3000
}

/// Splits `s` into its whitespace-separated tokens.
pub fn split_tokens(s: &Vec<char>) -> (r: Vec<Vec<char>>)
    ensures
        views(r@) == tokens(s@),
{
    let mut out: Vec<Vec<char>> = Vec::new();
    let mut cur: Vec<char> = Vec::new();
    let mut i: usize = 0;
    while i < s.len()
        invariant
            i <= s.len(),
            cur@.len() > 0 <==> (i > 0 && !is_white_space(s@[i - 1])),
            tokens(s@.take(i as int)) == if cur@.len() > 0 {
                views(out@).push(cur@)
            } else {
                views(out@)
            },
        decreases s.len() - i,
    {
        let c = s[i];
        proof {
            assert(s@.take(i + 1).drop_last() == s@.take(i as int));
        }
        if is_white_space_char(c) {
            if cur.len() > 0 {
                proof {
                    assert(views(out@.push(cur)) == views(out@).push(cur@));
                }
                out.push(cur);
                cur = Vec::new();
            }
        } else {
            proof {
                let prev = tokens(s@.take(i as int));
                if cur@.len() > 0 {
                    assert(prev.drop_last() == views(out@));
                    assert(prev.last() == cur@);
                } else {
                    assert(cur@.push(c) == seq![c]);
                }
            }
            cur.push(c);
        }
        i += 1;
    }
    proof {
        assert(s@.take(s@.len() as int) == s@);
    }
    if cur.len() > 0 {
        proof {
            assert(views(out@.push(cur)) == views(out@).push(cur@));
        }
        out.push(cur);
    }
    out
}

/// Splits `s` into the fields between occurrences of `sep`.
pub fn split_on(s: &Vec<char>, sep: char) -> (r: Vec<Vec<char>>)
    ensures
        views(r@) == split(s@, sep),
{
    let mut out: Vec<Vec<char>> = Vec::new();
    let mut cur: Vec<char> = Vec::new();
    let mut i: usize = 0;
    while i < s.len()
        invariant
            i <= s.len(),
            split(s@.take(i as int), sep) == views(out@).push(cur@),
        decreases s.len() - i,
    {
        let c = s[i];
        proof {
            assert(s@.take(i + 1).drop_last() == s@.take(i as int));
        }
        if c == sep {
            proof {
                assert(views(out@.push(cur)) == views(out@).push(cur@));
            }
            out.push(cur);
            cur = Vec::new();
        } else {
            cur.push(c);
        }
        i += 1;
    }
    proof {
        assert(s@.take(s@.len() as int) == s@);
        assert(views(out@.push(cur)) == views(out@).push(cur@));
    }
    out.push(cur);
    out
}

/// The tokens of `toks` after the first, joined by single spaces.
pub fn join_rest(toks: &Vec<Vec<char>>) -> (r: Vec<char>)
    ensures
        r@ == rest_text(views(toks@)),
{
    let ghost ws = views(toks@);
    let mut out: Vec<char> = Vec::new();
    if toks.len() <= 1 {
        return out;
    }
    let mut i: usize = 1;
    while i < toks.len()
        invariant
            1 <= i <= toks.len(),
            ws == views(toks@),
            out@ == join_words(ws.subrange(1, i as int)),
        decreases toks.len() - i,
    {
        proof {
            assert(ws.subrange(1, i + 1).drop_last() == ws.subrange(1, i as int));
        }
        if i > 1 {
            out.push(' ');
        }
        let t = &toks[i];
        let mut j: usize = 0;
        let ghost base = out@;
        while j < t.len()
            invariant
                j <= t.len(),
                out@ == base + t@.take(j as int),
            decreases t.len() - j,
        {
            out.push(t[j]);
            proof {
                assert(t@.take(j + 1) == t@.take(j as int).push(t@[j as int]));
            }
            j += 1;
        }
        proof {
            assert(t@.take(t@.len() as int) == t@);
            assert(ws[i as int] == t@);
            if i > 1 {
                assert(join_words(ws.subrange(1, i + 1)) == join_words(ws.subrange(1, i as int))
                    + seq![' '] + ws[i as int]);
            } else {
                assert(ws.subrange(1, 2) == seq![ws[1]]);
            }
        }
        i += 1;
    }
    proof {
        assert(ws.subrange(1, ws.len() as int) == ws.drop_first());
    }
    out
}

} // verus!
