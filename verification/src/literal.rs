//! Literal serializers: the exact textual form of each primitive value that
//! appears in a generated case program.
//!
//! Every number, name and path that the renderers emit goes through one of
//! these functions, so the shape of each literal is fixed in one place.  A
//! floating-point parameter is carried through the configuration as the
//! decimal numeral the editor produced for it; the serializer only attaches
//! the double-precision suffix and never inspects the digits.  Free text
//! (names, file paths) passes through unescaped: malformed input yields
//! malformed but still-delimited output.

use vstd::prelude::*;
use vstd::string::StringExecFns;

verus! {

/// The decimal digit `d`, as a single character of text.
pub open spec fn spec_digit(d: nat) -> Seq<char> {
    if d == 0 {
        "0"@
    } else if d == 1 {
        "1"@
    } else if d == 2 {
        "2"@
    } else if d == 3 {
        "3"@
    } else if d == 4 {
        "4"@
    } else if d == 5 {
        "5"@
    } else if d == 6 {
        "6"@
    } else if d == 7 {
        "7"@
    } else if d == 8 {
        "8"@
    } else {
        "9"@
    }
}

/// The decimal numeral of `n`, most significant digit first, no sign and no
/// leading zeros (a single `0` for zero).
pub open spec fn spec_dec(n: nat) -> Seq<char>
    decreases n,
{
    if n < 10 {
        spec_digit(n)
    } else {
        spec_dec(n / 10) + spec_digit(n % 10)
    }
}

fn digit_str(d: usize) -> (r: &'static str)
    requires
        d < 10,
    ensures
        r@ == spec_digit(d as nat),
{
    match d {
        0 => "0",
        1 => "1",
        2 => "2",
        3 => "3",
        4 => "4",
        5 => "5",
        6 => "6",
        7 => "7",
        8 => "8",
        _ => "9",
    }
}

/// The decimal numeral of `n`.
pub fn usize_dec(n: usize) -> (r: String)
    ensures
        r@ == spec_dec(n as nat),
    decreases n,
{
    if n < 10 {
        String::from_str(digit_str(n))
    } else {
        let mut r = usize_dec(n / 10);
        r.append(digit_str(n % 10));
        r
    }
}

/// An unsigned count or index as a suffixed literal, e.g. `10_usize`.
pub open spec fn spec_usize_literal(n: nat) -> Seq<char> {
    spec_dec(n) + "_usize"@
}

/// Renders `n` as an unsigned-size literal.
pub fn usize_literal(n: usize) -> (r: String)
    ensures
        r@ == spec_usize_literal(n as nat),
{
    let mut r = usize_dec(n);
    r.append("_usize");
    r
}

/// A floating-point parameter as a suffixed literal: the decimal numeral the
/// configuration carries, e.g. `0.001`, followed by `_f64`.
pub open spec fn spec_float_literal(numeral: Seq<char>) -> Seq<char> {
    numeral + "_f64"@
}

/// Renders the numeral of a floating-point parameter as a double-precision
/// literal.
pub fn float_literal(numeral: &str) -> (r: String)
    ensures
        r@ == spec_float_literal(numeral@),
{
    let mut r = String::from_str(numeral);
    r.append("_f64");
    r
}

/// A double-quoted string literal; the interior text passes through
/// unescaped.
pub open spec fn spec_quoted(s: Seq<char>) -> Seq<char> {
    "\""@ + s + "\""@
}

/// Renders free text as a double-quoted string literal.
pub fn quoted(s: &str) -> (r: String)
    ensures
        r@ == spec_quoted(s@),
{
    let mut r = String::from_str("\"");
    r.append(s);
    r.append("\"");
    r
}

/// The text of each string in a rendered sequence.
pub open spec fn views_of(parts: Seq<String>) -> Seq<Seq<char>> {
    parts.map_values(|p: String| p@)
}

/// The parts joined with the separator between consecutive parts.
pub open spec fn spec_join(parts: Seq<Seq<char>>, sep: Seq<char>) -> Seq<char>
    decreases parts.len(),
{
    if parts.len() == 0 {
        Seq::<char>::empty()
    } else if parts.len() == 1 {
        parts[0]
    } else {
        parts[0] + sep + spec_join(parts.drop_first(), sep)
    }
}

fn join_from(parts: &Vec<String>, sep: &str, i: usize) -> (r: String)
    requires
        i <= parts@.len(),
    ensures
        r@ == spec_join(views_of(parts@.skip(i as int)), sep@),
    decreases parts@.len() - i,
{
    let ghost tail = views_of(parts@.skip(i as int));
    if i == parts.len() {
        String::new()
    } else if i + 1 == parts.len() {
        let r = parts[i].clone();
        assert(tail.len() == 1 && tail[0] == parts@[i as int]@);
        r
    } else {
        let mut r = parts[i].clone();
        r.append(sep);
        let rest = join_from(parts, sep, i + 1);
        r.append(rest.as_str());
        proof {
            assert(tail[0] == parts@[i as int]@);
            assert(tail.drop_first() =~= views_of(parts@.skip(i + 1)));
        }
        r
    }
}

/// Joins the parts with the separator between consecutive parts.
pub fn join_all(parts: &Vec<String>, sep: &str) -> (r: String)
    ensures
        r@ == spec_join(views_of(parts@), sep@),
{
    let r = join_from(parts, sep, 0);
    proof {
        assert(parts@.skip(0) =~= parts@);
    }
    r
}

/// Each component turned into a floating-point literal.
pub open spec fn spec_float_literals(comps: Seq<Seq<char>>) -> Seq<Seq<char>> {
    comps.map_values(|c: Seq<char>| spec_float_literal(c))
}

/// A bracketed vector of floating-point literals, in component order:
/// `vec![x_f64, y_f64]` and `vec![x_f64, y_f64, z_f64]` are its two- and
/// three-component forms.
pub open spec fn spec_float_vec_literal(comps: Seq<Seq<char>>) -> Seq<char> {
    "vec!["@ + spec_join(spec_float_literals(comps), ", "@) + "]"@
}

/// Renders a vector of floating-point numerals as a bracketed literal.
pub fn float_vec_literal(comps: &Vec<String>) -> (r: String)
    ensures
        r@ == spec_float_vec_literal(views_of(comps@)),
{
    let mut lits: Vec<String> = Vec::new();
    let mut i: usize = 0;
    while i < comps.len()
        invariant
            i <= comps@.len(),
            views_of(lits@) =~= spec_float_literals(views_of(comps@).take(i as int)),
        decreases comps@.len() - i,
    {
        let ghost prev = lits@;
        let lit = float_literal(comps[i].as_str());
        let ghost litv = lit@;
        lits.push(lit);
        proof {
            let done = spec_float_literals(views_of(comps@).take(i + 1));
            assert(views_of(prev).len() == prev.len());
            assert(prev.len() == i);
            assert(litv == spec_float_literal(comps@[i as int]@));
            assert forall|j: int| 0 <= j < views_of(lits@).len() implies views_of(lits@)[j]
                == done[j] by {
                assert(views_of(lits@)[j] == lits@[j]@);
                assert(done[j] == spec_float_literal(views_of(comps@).take(i + 1)[j]));
                if j < i {
                    assert(lits@[j] == prev[j]);
                    assert(views_of(prev)[j] == spec_float_literals(
                        views_of(comps@).take(i as int),
                    )[j]);
                } else {
                    assert(lits@[j]@ == litv);
                }
            }
            assert(views_of(lits@) =~= done);
        }
        i += 1;
    }
    let mut r = String::from_str("vec![");
    let joined = join_all(&lits, ", ");
    r.append(joined.as_str());
    r.append("]");
    proof {
        assert(views_of(comps@).take(comps@.len() as int) =~= views_of(comps@));
    }
    r
}

/// Each component turned into an unsigned-size literal.
pub open spec fn spec_usize_literals(comps: Seq<nat>) -> Seq<Seq<char>> {
    comps.map_values(|n: nat| spec_usize_literal(n))
}

/// The values of a vector of counts.
pub open spec fn nats_of(comps: Seq<usize>) -> Seq<nat> {
    comps.map_values(|n: usize| n as nat)
}

/// A bracketed vector of unsigned-size literals, in component order, e.g.
/// `vec![10_usize, 10_usize]`.
pub open spec fn spec_usize_vec_literal(comps: Seq<nat>) -> Seq<char> {
    "vec!["@ + spec_join(spec_usize_literals(comps), ", "@) + "]"@
}

/// Renders a vector of counts as a bracketed literal.
pub fn usize_vec_literal(comps: &Vec<usize>) -> (r: String)
    ensures
        r@ == spec_usize_vec_literal(nats_of(comps@)),
{
    let mut lits: Vec<String> = Vec::new();
    let mut i: usize = 0;
    while i < comps.len()
        invariant
            i <= comps@.len(),
            views_of(lits@) =~= spec_usize_literals(nats_of(comps@).take(i as int)),
        decreases comps@.len() - i,
    {
        let ghost prev = lits@;
        let lit = usize_literal(comps[i]);
        let ghost litv = lit@;
        lits.push(lit);
        proof {
            let done = spec_usize_literals(nats_of(comps@).take(i + 1));
            assert(views_of(prev).len() == prev.len());
            assert(prev.len() == i);
            assert(litv == spec_usize_literal(comps@[i as int] as nat));
            assert forall|j: int| 0 <= j < views_of(lits@).len() implies views_of(lits@)[j]
                == done[j] by {
                assert(views_of(lits@)[j] == lits@[j]@);
                assert(done[j] == spec_usize_literal(nats_of(comps@).take(i + 1)[j]));
                if j < i {
                    assert(lits@[j] == prev[j]);
                    assert(views_of(prev)[j] == spec_usize_literals(
                        nats_of(comps@).take(i as int),
                    )[j]);
                } else {
                    assert(lits@[j]@ == litv);
                }
            }
            assert(views_of(lits@) =~= done);
        }
        i += 1;
    }
    let mut r = String::from_str("vec![");
    let joined = join_all(&lits, ", ");
    r.append(joined.as_str());
    r.append("]");
    proof {
        assert(nats_of(comps@).take(comps@.len() as int) =~= nats_of(comps@));
    }
    r
}

} // verus!
