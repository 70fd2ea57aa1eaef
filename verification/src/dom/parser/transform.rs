//! The grammar of the `transform` attribute: a list of `matrix(..)`, `translate(..)`,
//! `scale(..)`, `rotate(..)`, `skewX(..)` and `skewY(..)`, parted by white space or commas.
//! The transforms are composed from left to right, so that the last one is the first to be
//! applied to a point.

use crate::chars::{chars_eq, to_chars};
use crate::dom::parser::color::letters_end;
use crate::dom::parser::length::{item_end, list_number_at, parse_list_number, skip_wsp, wsp_end};
use crate::geometry::{skew_x, skew_x_spec, skew_y, skew_y_spec, Transform2, Vector2};
use crate::number::Number;
use vstd::prelude::*;

verus! {

/// The most arguments that a transform takes.
pub const MAX_ARGUMENTS: usize = 6;

/// The numbers that stand at `at`, as far as they go and at most `limit`, and the place
/// after them.
pub open spec fn arguments_from(s: Seq<char>, at: int, limit: nat) -> (Seq<Number>, int)
    decreases limit,
{
    if limit == 0 {
        (Seq::empty(), at)
    } else {
        match list_number_at(s, at) {
            Some((n, p)) => {
                let (rest, end) = arguments_from(s, p, (limit - 1) as nat);
                (seq![n] + rest, end)
            },
            None => (Seq::empty(), at),
        }
    }
}

fn read_arguments(s: &[char], at: usize) -> (r: (Vec<Number>, usize))
    requires
        at <= s@.len(),
    ensures
        (r.0@, r.1 as int) == arguments_from(s@, at as int, (MAX_ARGUMENTS + 1) as nat),
        at <= r.1 <= s@.len(),
        r.0@.len() <= MAX_ARGUMENTS + 1,
{
    let mut out: Vec<Number> = Vec::new();
    let mut p: usize = at;
    let mut left: usize = MAX_ARGUMENTS + 1;
    while left > 0
        invariant
            at <= p <= s@.len(),
            out@.len() + left == MAX_ARGUMENTS + 1,
            arguments_from(s@, at as int, (MAX_ARGUMENTS + 1) as nat) == (
                out@ + arguments_from(s@, p as int, left as nat).0,
                arguments_from(s@, p as int, left as nat).1,
            ),
        decreases left,
    {
        match parse_list_number(s, p) {
            Some((n, q)) => {
                proof {
                    let rest = arguments_from(s@, q as int, (left - 1) as nat).0;
                    assert(out@.push(n) + rest =~= out@ + (seq![n] + rest));
                }
                out.push(n);
                p = q;
            },
            None => {
                proof {
                    assert(out@ + Seq::<Number>::empty() =~= out@);
                }
                return (out, p);
            },
        }
        left = left - 1;
    }
    proof {
        assert(out@ + Seq::<Number>::empty() =~= out@);
    }
    (out, p)
}

/// The transform with the name `name` and the arguments `args`; `None` where there is no
/// transform of that name with that many arguments.
pub open spec fn transform_of(name: Seq<char>, args: Seq<Number>) -> Option<Transform2> {
    if name == "matrix"@ {
        if args.len() == 6 {
            Some(
                Transform2 {
                    m11: args[0],
                    m12: args[2],
                    m21: args[1],
                    m22: args[3],
                    vector: Vector2 { x: args[4], y: args[5] },
                },
            )
        } else {
            None
        }
    } else if name == "translate"@ {
        if args.len() == 1 {
            Some(
                Transform2::from_translation_spec(Vector2 { x: args[0], y: Number::zero_spec() }),
            )
        } else if args.len() == 2 {
            Some(Transform2::from_translation_spec(Vector2 { x: args[0], y: args[1] }))
        } else {
            None
        }
    } else if name == "scale"@ {
        if args.len() == 1 {
            Some(Transform2::from_scale_spec(Vector2 { x: args[0], y: args[0] }))
        } else if args.len() == 2 {
            Some(Transform2::from_scale_spec(Vector2 { x: args[0], y: args[1] }))
        } else {
            None
        }
    } else if name == "rotate"@ {
        if args.len() == 1 {
            Some(Transform2::from_rotation_spec(args[0]))
        } else if args.len() == 3 {
            let center = Vector2 { x: args[1], y: args[2] };
            Some(
                Transform2::from_translation_spec(center).compose_spec(
                    Transform2::from_rotation_spec(args[0]),
                ).compose_spec(Transform2::from_translation_spec(center.neg_spec())),
            )
        } else {
            None
        }
    } else if name == "skewX"@ {
        if args.len() == 1 {
            Some(skew_x_spec(args[0]))
        } else {
            None
        }
    } else if name == "skewY"@ {
        if args.len() == 1 {
            Some(skew_y_spec(args[0]))
        } else {
            None
        }
    } else {
        None
    }
}

fn is_word(name: &[char], literal: &str) -> (r: bool)
    ensures
        r == (name@ == literal@),
{
    let l = to_chars(literal);
    chars_eq(name, l.as_slice())
}

fn make_transform(name: &[char], args: &Vec<Number>) -> (r: Option<Transform2>)
    ensures
        r == transform_of(name@, args@),
{
    let n = args.len();
    if is_word(name, "matrix") {
        if n == 6 {
            Some(Transform2::from_matrix(args[0], args[1], args[2], args[3], args[4], args[5]))
        } else {
            None
        }
    } else if is_word(name, "translate") {
        if n == 1 {
            Some(Transform2::from_translation(Vector2 { x: args[0], y: Number::zero() }))
        } else if n == 2 {
            Some(Transform2::from_translation(Vector2 { x: args[0], y: args[1] }))
        } else {
            None
        }
    } else if is_word(name, "scale") {
        if n == 1 {
            Some(Transform2::from_scale(Vector2 { x: args[0], y: args[0] }))
        } else if n == 2 {
            Some(Transform2::from_scale(Vector2 { x: args[0], y: args[1] }))
        } else {
            None
        }
    } else if is_word(name, "rotate") {
        if n == 1 {
            Some(Transform2::from_rotation(args[0]))
        } else if n == 3 {
            let center = Vector2 { x: args[1], y: args[2] };
            Some(
                Transform2::from_translation(center).compose(
                    Transform2::from_rotation(args[0]),
                ).compose(Transform2::from_translation(center.neg())),
            )
        } else {
            None
        }
    } else if is_word(name, "skewX") {
        if n == 1 {
            Some(skew_x(args[0]))
        } else {
            None
        }
    } else if is_word(name, "skewY") {
        if n == 1 {
            Some(skew_y(args[0]))
        } else {
            None
        }
    } else {
        None
    }
}

/// The transform that starts at `at`, and the place after its closing bracket.
pub open spec fn transform_at(s: Seq<char>, at: int) -> Option<(Transform2, int)> {
    let name_end = letters_end(s, at);
    let open = wsp_end(s, name_end);
    if name_end > at && 0 <= open < s.len() && s[open] == '(' {
        let (args, p) = arguments_from(s, open + 1, (MAX_ARGUMENTS + 1) as nat);
        let close = wsp_end(s, p);
        if 0 <= close < s.len() && s[close] == ')' {
            match transform_of(s.subrange(at, name_end), args) {
                Some(t) => Some((t, close + 1)),
                None => None,
            }
        } else {
            None
        }
    } else {
        None
    }
}

fn scan_name(s: &[char], at: usize) -> (end: usize)
    requires
        at <= s@.len(),
    ensures
        end == letters_end(s@, at as int),
        at <= end <= s@.len(),
{
    let mut i: usize = at;
    while i < s.len() && ((s[i] >= 'a' && s[i] <= 'z') || (s[i] >= 'A' && s[i] <= 'Z'))
        invariant
            at <= i <= s@.len(),
            letters_end(s@, at as int) == letters_end(s@, i as int),
        decreases s@.len() - i,
    {
        i = i + 1;
    }
    i
}

fn parse_transform_at(s: &[char], at: usize) -> (r: Option<(Transform2, usize)>)
    requires
        at <= s@.len(),
    ensures
        match r {
            Some((t, end)) => transform_at(s@, at as int) == Some((t, end as int)) && at < end
                <= s@.len(),
            None => transform_at(s@, at as int) is None,
        },
{
    let name_end = scan_name(s, at);
    let open = skip_wsp(s, name_end);
    if name_end > at && open < s.len() && s[open] == '(' {
        let (args, p) = read_arguments(s, open + 1);
        let close = skip_wsp(s, p);
        if close < s.len() && s[close] == ')' {
            let name = vstd::slice::slice_subrange(s, at, name_end);
            match make_transform(name, &args) {
                Some(t) => Some((t, close + 1)),
                None => None,
            }
        } else {
            None
        }
    } else {
        None
    }
}

/// The transforms that `s` holds from `at` to its end, composed onto `acc` from left to
/// right; `None` where something else stands there. `limit` bounds how many are looked
/// for.
pub open spec fn transforms_from(s: Seq<char>, at: int, acc: Transform2, limit: nat) -> Option<
    Transform2,
>
    decreases limit,
{
    let p = wsp_end(s, at);
    if p >= s.len() || limit == 0 {
        Some(acc)
    } else {
        match transform_at(s, p) {
            Some((t, q)) => transforms_from(
                s,
                item_end(s, q),
                acc.compose_spec(t),
                (limit - 1) as nat,
            ),
            None => None,
        }
    }
}

/// The map that the `transform` attribute `s` stands for.
pub open spec fn transform_list_spec(s: Seq<char>) -> Option<Transform2> {
    transforms_from(s, 0, Transform2::identity_spec(), s.len())
}

/// Reads a `transform` attribute.
pub fn parse_transform_list(s: &[char]) -> (r: Option<Transform2>)
    ensures
        r == transform_list_spec(s@),
{
    let mut acc = Transform2::identity();
    let mut at: usize = 0;
    let mut budget: usize = s.len();
    loop
        invariant
            at <= s@.len(),
            transform_list_spec(s@) == transforms_from(s@, at as int, acc, budget as nat),
        decreases budget,
    {
        let p = skip_wsp(s, at);
        if p >= s.len() || budget == 0 {
            return Some(acc);
        }
        match parse_transform_at(s, p) {
            Some((t, q)) => {
                let p = skip_wsp(s, q);
                at = if p < s.len() && s[p] == ',' {
                    p + 1
                } else {
                    p
                };
                acc = acc.compose(t);
            },
            None => {
                return None;
            },
        }
        budget = budget - 1;
    }
}

} // verus!
