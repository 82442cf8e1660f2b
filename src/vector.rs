//! Two-, three- and four-component records of floating-point literals, and how they
//! are read from the arguments of a vertex directive.
use vstd::prelude::*;
use crate::error::{ErrorView, ParseError};
use crate::number::{check_float_literal, is_float_literal, Scalar};
use crate::text::{chars_of, split_tokens, tokens, views};

verus! {

/// The text `1.0`, the fill of omitted position and normal components.
pub open spec fn one_text() -> Seq<char> {
    seq!['1', '.', '0']
}

/// The text `0.0`, the fill of omitted texture components.
pub open spec fn zero_text() -> Seq<char> {
    seq!['0', '.', '0']
}

/// A record of `arity` components read from `args`: between `min` and `arity`
/// floating-point literals, followed by `fill` for each omitted trailing
/// component. `None` when the count is wrong or a token is not a literal.
pub open spec fn components(args: Seq<Seq<char>>, min: nat, arity: nat, fill: Seq<char>) -> Option<
    Seq<Seq<char>>,
> {
    if min <= args.len() <= arity && forall|i: int|
        0 <= i < args.len() ==> is_float_literal(#[trigger] args[i]) {
        Some(Seq::new(arity, |i: int| if i < args.len() { args[i] } else { fill }))
    } else {
        None
    }
}

/// A position record (`v x y z [w]`): three or four literals, `w` is `1.0`
/// when omitted.
pub open spec fn position_record(args: Seq<Seq<char>>) -> Option<Seq<Seq<char>>> {
    components(args, 3, 4, one_text())
}

/// A normal record (`vn i j k`): at most three literals, omitted ones are `1.0`.
pub open spec fn normal_record(args: Seq<Seq<char>>) -> Option<Seq<Seq<char>>> {
    components(args, 0, 3, one_text())
}

/// A texture record (`vt u v [w]`): at most three literals, omitted ones are `0.0`.
pub open spec fn texture_record(args: Seq<Seq<char>>) -> Option<Seq<Seq<char>>> {
    components(args, 0, 3, zero_text())
}

/// Two components.
#[derive(Debug)]
pub struct Vec2 {
    pub x: Scalar,
    pub y: Scalar,
}

/// Three components: a normal or a texture coordinate.
#[derive(Debug)]
pub struct Vec3 {
    pub x: Scalar,
    pub y: Scalar,
    pub z: Scalar,
}

/// Four components: a position.
#[derive(Debug)]
pub struct Vec4 {
    pub x: Scalar,
    pub y: Scalar,
    pub z: Scalar,
    pub w: Scalar,
}

impl View for Vec2 {
    type V = Seq<Seq<char>>;

    open spec fn view(&self) -> Seq<Seq<char>> {
        seq![self.x@, self.y@]
    }
}

impl View for Vec3 {
    type V = Seq<Seq<char>>;

    open spec fn view(&self) -> Seq<Seq<char>> {
        seq![self.x@, self.y@, self.z@]
    }
}

impl View for Vec4 {
    type V = Seq<Seq<char>>;

    open spec fn view(&self) -> Seq<Seq<char>> {
        seq![self.x@, self.y@, self.z@, self.w@]
    }
}

impl Vec3 {
    /// A copy of the record.
    pub fn copy(&self) -> (r: Vec3)
        ensures
            r@ == self@,
    {
        Vec3 { x: self.x.copy(), y: self.y.copy(), z: self.z.copy() }
    }
}

impl Vec4 {
    /// A copy of the record.
    pub fn copy(&self) -> (r: Vec4)
        ensures
            r@ == self@,
    {
        Vec4 { x: self.x.copy(), y: self.y.copy(), z: self.z.copy(), w: self.w.copy() }
    }
}

impl Scalar {
    /// The component `1.0`.
    pub fn one() -> (r: Scalar)
        ensures
            r@ == one_text(),
    {
        let cs = vec!['1', '.', '0'];
        proof {
            assert(cs@ == one_text());
        }
        let r = Scalar::from_chars(&cs);
        proof {
            let s = cs@;
            assert(crate::number::digit_run(s, 3) == 3);
            assert(crate::number::digit_run(s, 2) == 3);
            assert(crate::number::digit_run(s, 1) == 1);
            assert(crate::number::digit_run(s, 0) == 1);
        }
        r.unwrap()
    }

    /// The component `0.0`.
    pub fn zero() -> (r: Scalar)
        ensures
            r@ == zero_text(),
    {
        let cs = vec!['0', '.', '0'];
        proof {
            assert(cs@ == zero_text());
        }
        let r = Scalar::from_chars(&cs);
        proof {
            let s = cs@;
            assert(crate::number::digit_run(s, 3) == 3);
            assert(crate::number::digit_run(s, 2) == 3);
            assert(crate::number::digit_run(s, 1) == 1);
            assert(crate::number::digit_run(s, 0) == 1);
        }
        r.unwrap()
    }
}

/// Reads the record that `toks[start..]` gives: see `components`.
pub fn parse_components(toks: &Vec<Vec<char>>, start: usize, min: usize, arity: usize, fill_one: bool)
    -> (r: Option<Vec<Scalar>>)
    requires
        start <= toks.len(),
    ensures
        r is Some <==> components(
            views(toks@).skip(start as int),
            min as nat,
            arity as nat,
            if fill_one { one_text() } else { zero_text() },
        ) is Some,
        r is Some ==> r->0@.map_values(|s: Scalar| s@) == components(
            views(toks@).skip(start as int),
            min as nat,
            arity as nat,
            if fill_one { one_text() } else { zero_text() },
        )->0,
{
    let ghost args = views(toks@).skip(start as int);
    let ghost fill = if fill_one { one_text() } else { zero_text() };
    let n = toks.len() - start;
    if n < min || n > arity {
        return None;
    }
    let mut out: Vec<Scalar> = Vec::new();
    let mut i: usize = 0;
    while i < arity
        invariant
            args == views(toks@).skip(start as int),
            n == args.len(),
            start + n == toks@.len(),
            toks@.len() <= usize::MAX,
            min <= n <= arity,
            i <= arity,
            fill == if fill_one { one_text() } else { zero_text() },
            forall|k: int| 0 <= k < i && k < n ==> is_float_literal(#[trigger] args[k]),
            out@.len() == i,
            forall|k: int|
                0 <= k < i ==> (#[trigger] out@[k])@ == if k < n {
                    args[k]
                } else {
                    fill
                },
        decreases arity - i,
    {
        if i < n {
            match Scalar::from_chars(&toks[start + i]) {
                Some(s) => {
                    out.push(s);
                },
                None => {
                    proof {
                        assert(!is_float_literal(args[i as int]));
                    }
                    return None;
                },
            }
        } else if fill_one {
            out.push(Scalar::one());
        } else {
            out.push(Scalar::zero());
        }
        i += 1;
    }
    proof {
        let want = Seq::new(arity as nat, |k: int| if k < args.len() { args[k] } else { fill });
        assert(out@.map_values(|s: Scalar| s@) == want);
    }
    Some(out)
}

/// Reads four components from `toks[start..]` as a position record.
pub fn parse_position(toks: &Vec<Vec<char>>, start: usize) -> (r: Option<Vec4>)
    requires
        start <= toks.len(),
    ensures
        r is Some <==> position_record(views(toks@).skip(start as int)) is Some,
        r is Some ==> r->0@ == position_record(views(toks@).skip(start as int))->0,
{
    match parse_components(toks, start, 3, 4, true) {
        Some(mut v) => {
            let ghost vs = v@.map_values(|s: Scalar| s@);
            assert(vs.len() == 4);
            let w = v.pop().unwrap();
            let z = v.pop().unwrap();
            let y = v.pop().unwrap();
            let x = v.pop().unwrap();
            let r = Vec4 { x, y, z, w };
            proof {
                assert(r@ =~= vs);
            }
            Some(r)
        },
        None => None,
    }
}

/// Reads three components from `toks[start..]`: between `min` and three
/// literals, filled with `1.0` or `0.0`.
pub fn parse_triple(toks: &Vec<Vec<char>>, start: usize, min: usize, fill_one: bool) -> (r: Option<Vec3>)
    requires
        start <= toks.len(),
    ensures
        r is Some <==> components(
            views(toks@).skip(start as int),
            min as nat,
            3,
            if fill_one { one_text() } else { zero_text() },
        ) is Some,
        r is Some ==> r->0@ == components(
            views(toks@).skip(start as int),
            min as nat,
            3,
            if fill_one { one_text() } else { zero_text() },
        )->0,
{
    match parse_components(toks, start, min, 3, fill_one) {
        Some(mut v) => {
            let ghost vs = v@.map_values(|s: Scalar| s@);
            assert(vs.len() == 3);
            let z = v.pop().unwrap();
            let y = v.pop().unwrap();
            let x = v.pop().unwrap();
            let r = Vec3 { x, y, z };
            proof {
                assert(r@ =~= vs);
            }
            Some(r)
        },
        None => None,
    }
}

/// Vectors that can be read from a whitespace-separated list of literals.
pub trait ParseVector: Sized + View {
    /// The record that `text` gives, or `None` when it is not a well-formed
    /// vector of this kind.
    spec fn parsed(text: Seq<char>) -> Option<<Self as View>::V>;

    /// Reads a vector from `val`; a malformed text is a general error.
    fn from_str(val: &str) -> (r: Result<Self, ParseError>)
        ensures
            match r {
                Ok(v) => Self::parsed(val@) == Some(v@),
                Err(e) => Self::parsed(val@) is None && e@ == ErrorView::General,
            },
    ;
}

impl ParseVector for Vec4 {
    /// Three or four literals; `w` is `1.0` when omitted.
    open spec fn parsed(text: Seq<char>) -> Option<Seq<Seq<char>>> {
        position_record(tokens(text))
    }

    fn from_str(val: &str) -> (r: Result<Vec4, ParseError>) {
        let toks = split_tokens(&chars_of(val));
        proof {
            assert(views(toks@).skip(0) == views(toks@));
        }
        match parse_position(&toks, 0) {
            Some(v) => Ok(v),
            None => Err(malformed_vector()),
        }
    }
}

impl ParseVector for Vec2 {
    /// Exactly two literals.
    open spec fn parsed(text: Seq<char>) -> Option<Seq<Seq<char>>> {
        components(tokens(text), 2, 2, one_text())
    }

    fn from_str(val: &str) -> (r: Result<Vec2, ParseError>) {
        let toks = split_tokens(&chars_of(val));
        proof {
            assert(views(toks@).skip(0) == views(toks@));
        }
        match parse_components(&toks, 0, 2, 2, true) {
            Some(mut v) => {
                let ghost vs = v@.map_values(|s: Scalar| s@);
                assert(vs.len() == 2);
                let y = v.pop().unwrap();
                let x = v.pop().unwrap();
                let r = Vec2 { x, y };
                proof {
                    assert(r@ =~= vs);
                }
                Ok(r)
            },
            None => Err(malformed_vector()),
        }
    }
}

impl ParseVector for Vec3 {
    /// Exactly three literals.
    open spec fn parsed(text: Seq<char>) -> Option<Seq<Seq<char>>> {
        components(tokens(text), 3, 3, one_text())
    }

    fn from_str(val: &str) -> (r: Result<Vec3, ParseError>) {
        let toks = split_tokens(&chars_of(val));
        proof {
            assert(views(toks@).skip(0) == views(toks@));
        }
        match parse_triple(&toks, 0, 3, true) {
            Some(v) => Ok(v),
            None => Err(malformed_vector()),
        }
    }
}

fn malformed_vector() -> (e: ParseError)
    ensures
        e@ == ErrorView::General,
{
    ParseError::GeneralError("malformed vector".to_owned())
}

} // verus!
