//! Numeric tokens: decimal natural numbers (indices, illumination models) and
//! floating-point literals, which are kept as the literal text they were
//! written as.
use vstd::prelude::*;
use crate::text::string_of;

verus! {

pub open spec fn is_digit(c: char) -> bool {
    '0' as u32 <= c as u32 && c as u32 <= '9' as u32
}

pub open spec fn is_sign(c: char) -> bool {
    c == '+' || c == '-'
}

pub open spec fn all_digits(s: Seq<char>) -> bool {
    forall|i: int| 0 <= i < s.len() ==> is_digit(#[trigger] s[i])
}

/// The value of a string of decimal digits.
pub open spec fn digits_value(s: Seq<char>) -> nat
    decreases s.len(),
{
    if s.len() == 0 {
        0
    } else {
        digits_value(s.drop_last()) * 10 + (s.last() as u32 - '0' as u32) as nat
    }
}

/// The natural number written by `s`: an optional `+` followed by one or more
/// decimal digits; `None` for any other text.
pub open spec fn nat_literal(s: Seq<char>) -> Option<nat> {
    let d = if s.len() > 0 && s[0] == '+' {
        s.drop_first()
    } else {
        s
    };
    if d.len() > 0 && all_digits(d) {
        Some(digits_value(d))
    } else {
        None
    }
}

/// The end of the run of digits in `s` that starts at `i`.
pub open spec fn digit_run(s: Seq<char>, i: int) -> int
    decreases s.len() - i,
{
    if 0 <= i < s.len() && is_digit(s[i]) {
        digit_run(s, i + 1)
    } else {
        i
    }
}

/// `c` is the lower-case ASCII letter `lc`, in either case.
pub open spec fn same_letter(c: char, lc: char) -> bool {
    c == lc || c as int + 32 == lc as int
}

/// `s` spells the lower-case word `w`, ignoring the case of letters.
pub open spec fn spells(s: Seq<char>, w: Seq<char>) -> bool {
    s.len() == w.len() && forall|i: int| 0 <= i < s.len() ==> same_letter(#[trigger] s[i], w[i])
}

/// An exponent that starts at `j` and runs to the end: an optional sign and
/// one or more digits.
pub open spec fn exponent_at(s: Seq<char>, j: int) -> bool {
    let k = if j < s.len() && is_sign(s[j]) {
        j + 1
    } else {
        j
    };
    digit_run(s, k) > k && digit_run(s, k) == s.len()
}

/// A decimal number that starts at `i` and runs to the end: digits, an
/// optional point with more digits, at least one digit in all, then an
/// optional exponent introduced by `e` or `E`.
pub open spec fn decimal_at(s: Seq<char>, i: int) -> bool {
    let a = digit_run(s, i);
    let point = a < s.len() && s[a] == '.';
    let b = if point {
        digit_run(s, a + 1)
    } else {
        a
    };
    let n = if point {
        (a - i) + (b - a - 1)
    } else {
        a - i
    };
    n > 0 && (b == s.len() || (same_letter(s[b], 'e') && exponent_at(s, b + 1)))
}

/// The floating-point literals that Rust's `f32` parser accepts: an optional
/// sign, then `inf`, `infinity`, `nan` (in any case) or a decimal number.
pub open spec fn is_float_literal(s: Seq<char>) -> bool {
    let i: int = if s.len() > 0 && is_sign(s[0]) {
        1
    } else {
        0
    };
    let body = s.skip(i);
    spells(body, seq!['i', 'n', 'f']) || spells(body, seq!['i', 'n', 'f', 'i', 'n', 'i', 't', 'y'])
        || spells(body, seq!['n', 'a', 'n']) || decimal_at(s, i)
}

pub fn is_digit_char(c: char) -> (r: bool)
    ensures
        r == is_digit(c),
{
    '0' as u32 <= c as u32 && c as u32 <= '9' as u32
}

fn is_sign_char(c: char) -> (r: bool)
    ensures
        r == is_sign(c),
{
    c == '+' || c == '-'
}

fn same_letter_char(c: char, lc: char) -> (r: bool)
    ensures
        r == same_letter(c, lc),
{
    c == lc || c as u32 as u64 + 32 == lc as u32 as u64
}

/// Whether `s[from..]` spells the lower-case word `w`, ignoring case.
fn spells_at(s: &Vec<char>, from: usize, w: &Vec<char>) -> (r: bool)
    requires
        from <= s.len(),
    ensures
        r == spells(s@.skip(from as int), w@),
{
    let ghost body = s@.skip(from as int);
    if s.len() - from != w.len() {
        return false;
    }
    let mut i: usize = 0;
    while i < w.len()
        invariant
            body == s@.skip(from as int),
            body.len() == w@.len(),
            s@.len() == from + w@.len(),
            from + w@.len() <= usize::MAX,
            i <= w.len(),
            forall|k: int| 0 <= k < i ==> same_letter(#[trigger] body[k], w@[k]),
        decreases w.len() - i,
    {
        assert(from + i < s@.len());
        if !same_letter_char(s[from + i], w[i]) {
            assert(!same_letter(body[i as int], w@[i as int]));
            return false;
        }
        i += 1;
    }
    true
}

/// The end of the run of digits in `s` that starts at `i`.
fn digit_run_end(s: &Vec<char>, i: usize) -> (r: usize)
    requires
        i <= s.len(),
    ensures
        r as int == digit_run(s@, i as int),
        i <= r <= s.len(),
{
    let mut j = i;
    while j < s.len() && is_digit_char(s[j])
        invariant
            i <= j <= s.len(),
            digit_run(s@, j as int) == digit_run(s@, i as int),
        decreases s.len() - j,
    {
        j += 1;
    }
    j
}

/// Whether `s` is a floating-point literal.
pub fn check_float_literal(s: &Vec<char>) -> (r: bool)
    ensures
        r == is_float_literal(s@),
{
    let i: usize = if s.len() > 0 && is_sign_char(s[0]) {
        1
    } else {
        0
    };
    let inf = vec!['i', 'n', 'f'];
    let infinity = vec!['i', 'n', 'f', 'i', 'n', 'i', 't', 'y'];
    let nan = vec!['n', 'a', 'n'];
    if spells_at(s, i, &inf) || spells_at(s, i, &infinity) || spells_at(s, i, &nan) {
        return true;
    }
    let a = digit_run_end(s, i);
    let point = a < s.len() && s[a] == '.';
    let b = if point {
        digit_run_end(s, a + 1)
    } else {
        a
    };
    let n = if point {
        (a - i) + (b - a - 1)
    } else {
        a - i
    };
    if n == 0 {
        return false;
    }
    if b == s.len() {
        return true;
    }
    if !same_letter_char(s[b], 'e') {
        return false;
    }
    let j = b + 1;
    let k = if j < s.len() && is_sign_char(s[j]) {
        j + 1
    } else {
        j
    };
    let e = digit_run_end(s, k);
    e > k && e == s.len()
}

/// The natural number written by `s`, when it is at most `limit`.
pub fn nat_literal_at_most(s: &Vec<char>, limit: usize) -> (r: Option<usize>)
    ensures
        r is Some <==> (nat_literal(s@) is Some && nat_literal(s@)->0 <= limit),
        r is Some ==> r->0 == nat_literal(s@)->0,
{
    let start: usize = if s.len() > 0 && s[0] == '+' {
        1
    } else {
        0
    };
    let ghost d = s@.skip(start as int);
    proof {
        if s@.len() > 0 && s@[0] == '+' {
            assert(d == s@.drop_first());
        } else {
            assert(d == s@);
        }
    }
    if start == s.len() {
        return None;
    }
    let mut value: u128 = 0;
    let mut over = false;
    let mut i = start;
    while i < s.len()
        invariant
            start <= i <= s.len(),
            d == s@.skip(start as int),
            nat_literal(s@) == if all_digits(d) {
                Some(digits_value(d))
            } else {
                None::<nat>
            },
            all_digits(d.take(i - start)),
            !over ==> value == digits_value(d.take(i - start)) && value <= limit,
            over ==> digits_value(d.take(i - start)) > limit,
        decreases s.len() - i,
    {
        let c = s[i];
        if !is_digit_char(c) {
            proof {
                assert(d[i - start] == c);
                assert(!is_digit(d[i - start]));
            }
            return None;
        }
        proof {
            let t = d.take(i - start);
            let t1 = d.take(i + 1 - start);
            assert(t1.drop_last() == t);
            assert(t1.last() == c);
            assert(digits_value(t1) == digits_value(t) * 10 + (c as u32 - '0' as u32) as nat);
            assert(all_digits(t1)) by {
                assert forall|k: int| 0 <= k < t1.len() implies is_digit(#[trigger] t1[k]) by {
                    if k < t.len() {
                        assert(t1[k] == t[k]);
                    }
                }
            }
        }
        if !over {
            let next = value * 10 + (c as u32 - '0' as u32) as u128;
            if next > limit as u128 {
                over = true;
            } else {
                value = next;
            }
        }
        i += 1;
    }
    proof {
        assert(d.take(i - start) == d);
    }
    if over {
        None
    } else {
        Some(value as usize)
    }
}

/// A floating-point component written in a scene file, kept as the literal
/// text it was written as. The text is always a literal that Rust's `f32`
/// parser accepts.
#[derive(Debug)]
pub struct Scalar {
    text: String,
}

impl View for Scalar {
    type V = Seq<char>;

    closed spec fn view(&self) -> Seq<char> {
        self.text@
    }
}

impl Scalar {
    #[verifier::type_invariant]
    closed spec fn inv(&self) -> bool {
        is_float_literal(self.text@)
    }

    /// The literal text of the component.
    pub fn text(&self) -> (r: &str)
        ensures
            r@ == self@,
            is_float_literal(r@),
    {
        proof {
            use_type_invariant(self);
        }
        self.text.as_str()
    }

    /// A copy of the component.
    pub fn copy(&self) -> (r: Scalar)
        ensures
            r@ == self@,
    {
        proof {
            use_type_invariant(self);
        }
        Scalar { text: self.text.clone() }
    }

    /// The component written by a token, or `None` when the token is not a
    /// floating-point literal.
    pub fn from_chars(tok: &Vec<char>) -> (r: Option<Scalar>)
        ensures
            r is Some <==> is_float_literal(tok@),
            r is Some ==> r->0@ == tok@,
    {
        if check_float_literal(tok) {
            Some(Scalar { text: string_of(tok) })
        } else {
            None
        }
    }

    /// The component written by a string, or `None` when it is not a
    /// floating-point literal.
    pub fn parse(s: &str) -> (r: Option<Scalar>)
        ensures
            r is Some <==> is_float_literal(s@),
            r is Some ==> r->0@ == s@,
    {
        let cs = crate::text::chars_of(s);
        Scalar::from_chars(&cs)
    }
}

} // verus!
