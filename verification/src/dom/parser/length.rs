//! The grammars of lengths and of lists of lengths, numbers and points.
//!
//! A length is a number and, right after it, perhaps a unit: `%`, `em`, `ex`, `px`, `in`,
//! `cm`, `mm`, `pt` or `pc`. In a list the items are parted by white space, by a comma, or by
//! both.

use crate::chars::{has_prefix_at, starts_with};
use crate::dom::parser::number::{number_at, parse_number_at};
use crate::dom::util::{Length, LengthUnit};
use crate::geometry::Vector2;
use crate::number::Number;
use vstd::prelude::*;

verus! {

/// Whether `c` is white space: a space, a tab, a line feed or a carriage return.
pub open spec fn is_wsp(c: char) -> bool {
    c == ' ' || c == '\t' || c == '\n' || c == '\r'
}

/// The place after the white space that starts at `at`.
pub open spec fn wsp_end(s: Seq<char>, at: int) -> int
    decreases s.len() - at,
{
    if 0 <= at < s.len() && is_wsp(s[at]) {
        wsp_end(s, at + 1)
    } else {
        at
    }
}

pub proof fn lemma_wsp_end_bounds(s: Seq<char>, at: int)
    requires
        0 <= at <= s.len(),
    ensures
        at <= wsp_end(s, at) <= s.len(),
    decreases s.len() - at,
{
    if at < s.len() && is_wsp(s[at]) {
        lemma_wsp_end_bounds(s, at + 1);
    }
}

/// The place after the white space that starts at `at`.
pub fn skip_wsp(s: &[char], at: usize) -> (end: usize)
    requires
        at <= s@.len(),
    ensures
        end == wsp_end(s@, at as int),
        at <= end <= s@.len(),
{
    let mut i: usize = at;
    while i < s.len() && (s[i] == ' ' || s[i] == '\t' || s[i] == '\n' || s[i] == '\r')
        invariant
            at <= i <= s@.len(),
            wsp_end(s@, at as int) == wsp_end(s@, i as int),
        decreases s@.len() - i,
    {
        i = i + 1;
    }
    i
}

/// Whether the characters of `s` from `at` on start with `word`.
pub open spec fn word_at(s: Seq<char>, at: int, word: Seq<char>) -> bool {
    0 <= at <= s.len() && starts_with(s.subrange(at, s.len() as int), word)
}

/// The unit that stands at `at`, and the place after it; no unit where none stands there.
pub open spec fn unit_at(s: Seq<char>, at: int) -> (LengthUnit, int) {
    if word_at(s, at, "%"@) {
        (LengthUnit::Percent, at + 1)
    } else if word_at(s, at, "em"@) {
        (LengthUnit::Em, at + 2)
    } else if word_at(s, at, "ex"@) {
        (LengthUnit::Ex, at + 2)
    } else if word_at(s, at, "px"@) {
        (LengthUnit::Px, at + 2)
    } else if word_at(s, at, "in"@) {
        (LengthUnit::In, at + 2)
    } else if word_at(s, at, "cm"@) {
        (LengthUnit::Cm, at + 2)
    } else if word_at(s, at, "mm"@) {
        (LengthUnit::Mm, at + 2)
    } else if word_at(s, at, "pt"@) {
        (LengthUnit::Pt, at + 2)
    } else if word_at(s, at, "pc"@) {
        (LengthUnit::Pc, at + 2)
    } else {
        (LengthUnit::Unitless, at)
    }
}

fn read_unit(s: &[char], at: usize) -> (r: (LengthUnit, usize))
    requires
        at <= s@.len(),
    ensures
        (r.0, r.1 as int) == unit_at(s@, at as int),
        at <= r.1 <= s@.len(),
{
    proof {
        reveal_strlit("%");
        reveal_strlit("em");
        reveal_strlit("ex");
        reveal_strlit("px");
        reveal_strlit("in");
        reveal_strlit("cm");
        reveal_strlit("mm");
        reveal_strlit("pt");
        reveal_strlit("pc");
    }
    let n: usize = s.len();
    if has_prefix_at(s, at, "%") {
        (LengthUnit::Percent, at + 1)
    } else if has_prefix_at(s, at, "em") {
        (LengthUnit::Em, at + 2)
    } else if has_prefix_at(s, at, "ex") {
        (LengthUnit::Ex, at + 2)
    } else if has_prefix_at(s, at, "px") {
        (LengthUnit::Px, at + 2)
    } else if has_prefix_at(s, at, "in") {
        (LengthUnit::In, at + 2)
    } else if has_prefix_at(s, at, "cm") {
        (LengthUnit::Cm, at + 2)
    } else if has_prefix_at(s, at, "mm") {
        (LengthUnit::Mm, at + 2)
    } else if has_prefix_at(s, at, "pt") {
        (LengthUnit::Pt, at + 2)
    } else if has_prefix_at(s, at, "pc") {
        (LengthUnit::Pc, at + 2)
    } else {
        (LengthUnit::Unitless, at)
    }
}

/// The length that starts at `at`, after white space, and the place after it.
pub open spec fn length_at(s: Seq<char>, at: int) -> Option<(Length, int)> {
    match number_at(s, wsp_end(s, at)) {
        Some((num, p)) => {
            let (unit, end) = unit_at(s, p);
            Some((Length { num, unit }, end))
        },
        None => None,
    }
}

/// Reads the length that starts at `at`, after white space.
pub fn parse_length_at(s: &[char], at: usize) -> (r: Option<(Length, usize)>)
    requires
        at <= s@.len(),
    ensures
        match r {
            Some((l, end)) => length_at(s@, at as int) == Some((l, end as int)) && at < end
                <= s@.len(),
            None => length_at(s@, at as int) is None,
        },
{
    match parse_number_at(s, skip_wsp(s, at)) {
        Some((num, p)) => {
            let (unit, end) = read_unit(s, p);
            Some((Length { num, unit }, end))
        },
        None => None,
    }
}

/// The length that is all of `s`, white space before it apart.
pub open spec fn length_spec(s: Seq<char>) -> Option<Length> {
    match length_at(s, 0) {
        Some((l, end)) => if end == s.len() {
            Some(l)
        } else {
            None
        },
        None => None,
    }
}

/// Reads the length that is all of `s`.
pub fn parse_length(s: &[char]) -> (r: Option<Length>)
    ensures
        r == length_spec(s@),
{
    match parse_length_at(s, 0) {
        Some((l, end)) => {
            if end == s.len() {
                Some(l)
            } else {
                None
            }
        },
        None => None,
    }
}

/// The number that is all of `s`.
pub open spec fn number_spec(s: Seq<char>) -> Option<Number> {
    match number_at(s, 0) {
        Some((n, end)) => if end == s.len() {
            Some(n)
        } else {
            None
        },
        None => None,
    }
}

/// Reads the number that is all of `s`.
pub fn parse_number(s: &[char]) -> (r: Option<Number>)
    ensures
        r == number_spec(s@),
{
    match parse_number_at(s, 0) {
        Some((n, end)) => {
            if end == s.len() {
                Some(n)
            } else {
                None
            }
        },
        None => None,
    }
}

/// The place after what parts an item of a list from the next: white space and, after it,
/// perhaps a comma.
pub open spec fn item_end(s: Seq<char>, at: int) -> int {
    let p = wsp_end(s, at);
    if 0 <= p < s.len() && s[p] == ',' {
        p + 1
    } else {
        p
    }
}

fn skip_item_end(s: &[char], at: usize) -> (end: usize)
    requires
        at <= s@.len(),
    ensures
        end == item_end(s@, at as int),
        at <= end <= s@.len(),
{
    let p = skip_wsp(s, at);
    if p < s.len() && s[p] == ',' {
        p + 1
    } else {
        p
    }
}

/// The lengths that `s` holds from `at` to its end; `None` where something else stands
/// there. `limit` bounds how many are looked for.
pub open spec fn lengths_from(s: Seq<char>, at: int, limit: nat) -> Option<Seq<Length>>
    decreases limit,
{
    if at >= s.len() || limit == 0 {
        Some(Seq::empty())
    } else {
        match length_at(s, at) {
            None => None,
            Some((l, p)) => match lengths_from(s, item_end(s, p), (limit - 1) as nat) {
                Some(rest) => Some(seq![l] + rest),
                None => None,
            },
        }
    }
}

/// The list of lengths that is all of `s`.
pub open spec fn length_list_spec(s: Seq<char>) -> Option<Seq<Length>> {
    lengths_from(s, 0, s.len())
}

/// Reads the list of lengths that is all of `s`.
pub fn parse_length_list(s: &[char]) -> (r: Option<Vec<Length>>)
    ensures
        match r {
            Some(v) => length_list_spec(s@) == Some(v@),
            None => length_list_spec(s@) is None,
        },
{
    let mut out: Vec<Length> = Vec::new();
    let mut at: usize = 0;
    let mut budget: usize = s.len();
    while at < s.len() && budget > 0
        invariant
            at <= s@.len(),
            length_list_spec(s@) == match lengths_from(s@, at as int, budget as nat) {
                Some(rest) => Some(out@ + rest),
                None => None,
            },
        decreases budget,
    {
        match parse_length_at(s, at) {
            None => {
                return None;
            },
            Some((l, p)) => {
                let q = skip_item_end(s, p);
                proof {
                    match lengths_from(s@, q as int, (budget - 1) as nat) {
                        Some(rest) => {
                            assert(out@.push(l) + rest =~= out@ + (seq![l] + rest));
                        },
                        None => {},
                    }
                }
                out.push(l);
                at = q;
            },
        }
        budget = budget - 1;
    }
    proof {
        assert(out@ + Seq::<Length>::empty() =~= out@);
    }
    Some(out)
}

/// The number that starts at `at`, after white space, and the place after what parts it
/// from the next item.
pub open spec fn list_number_at(s: Seq<char>, at: int) -> Option<(Number, int)> {
    match number_at(s, wsp_end(s, at)) {
        Some((n, p)) => Some((n, item_end(s, p))),
        None => None,
    }
}

/// Reads a number of a list and what parts it from the next item.
pub fn parse_list_number(s: &[char], at: usize) -> (r: Option<(Number, usize)>)
    requires
        at <= s@.len(),
    ensures
        match r {
            Some((n, end)) => list_number_at(s@, at as int) == Some((n, end as int)) && at < end
                <= s@.len(),
            None => list_number_at(s@, at as int) is None,
        },
{
    match parse_number_at(s, skip_wsp(s, at)) {
        Some((n, p)) => Some((n, skip_item_end(s, p))),
        None => None,
    }
}

/// The numbers that `s` holds from `at` to its end; `None` where something else stands
/// there. `limit` bounds how many are looked for.
pub open spec fn numbers_from(s: Seq<char>, at: int, limit: nat) -> Option<Seq<Number>>
    decreases limit,
{
    if at >= s.len() || limit == 0 {
        Some(Seq::empty())
    } else {
        match list_number_at(s, at) {
            None => None,
            Some((n, p)) => match numbers_from(s, p, (limit - 1) as nat) {
                Some(rest) => Some(seq![n] + rest),
                None => None,
            },
        }
    }
}

/// The list of numbers that is all of `s`.
pub open spec fn number_list_spec(s: Seq<char>) -> Option<Seq<Number>> {
    numbers_from(s, 0, s.len())
}

/// Reads the list of numbers that is all of `s`.
pub fn parse_number_list(s: &[char]) -> (r: Option<Vec<Number>>)
    ensures
        match r {
            Some(v) => number_list_spec(s@) == Some(v@),
            None => number_list_spec(s@) is None,
        },
{
    let mut out: Vec<Number> = Vec::new();
    let mut at: usize = 0;
    let mut budget: usize = s.len();
    while at < s.len() && budget > 0
        invariant
            at <= s@.len(),
            number_list_spec(s@) == match numbers_from(s@, at as int, budget as nat) {
                Some(rest) => Some(out@ + rest),
                None => None,
            },
        decreases budget,
    {
        match parse_list_number(s, at) {
            None => {
                return None;
            },
            Some((n, q)) => {
                proof {
                    match numbers_from(s@, q as int, (budget - 1) as nat) {
                        Some(rest) => {
                            assert(out@.push(n) + rest =~= out@ + (seq![n] + rest));
                        },
                        None => {},
                    }
                }
                out.push(n);
                at = q;
            },
        }
        budget = budget - 1;
    }
    proof {
        assert(out@ + Seq::<Number>::empty() =~= out@);
    }
    Some(out)
}

/// The points that `s` holds from `at` on, as far as pairs of numbers go: what follows the
/// last whole pair is left out. `limit` bounds how many are looked for.
pub open spec fn points_from(s: Seq<char>, at: int, limit: nat) -> Seq<Vector2>
    decreases limit,
{
    if at >= s.len() || limit == 0 {
        Seq::empty()
    } else {
        match list_number_at(s, at) {
            None => Seq::empty(),
            Some((x, p)) => match list_number_at(s, p) {
                None => Seq::empty(),
                Some((y, q)) => seq![Vector2 { x, y }] + points_from(s, q, (limit - 1) as nat),
            },
        }
    }
}

/// The points of a `points` attribute.
pub open spec fn points_spec(s: Seq<char>) -> Seq<Vector2> {
    points_from(s, 0, s.len())
}

/// Reads the points of a `points` attribute.
pub fn parse_points(s: &[char]) -> (r: Vec<Vector2>)
    ensures
        r@ == points_spec(s@),
{
    let mut out: Vec<Vector2> = Vec::new();
    let mut at: usize = 0;
    let mut budget: usize = s.len();
    while at < s.len() && budget > 0
        invariant
            at <= s@.len(),
            points_spec(s@) == out@ + points_from(s@, at as int, budget as nat),
        decreases budget,
    {
        let (x, p) = match parse_list_number(s, at) {
            Some(v) => v,
            None => {
                proof {
                    assert(out@ + Seq::<Vector2>::empty() =~= out@);
                }
                return out;
            },
        };
        let (y, q) = match parse_list_number(s, p) {
            Some(v) => v,
            None => {
                proof {
                    assert(out@ + Seq::<Vector2>::empty() =~= out@);
                }
                return out;
            },
        };
        proof {
            let rest = points_from(s@, q as int, (budget - 1) as nat);
            assert(out@.push(Vector2 { x, y }) + rest =~= out@ + (seq![Vector2 { x, y }] + rest));
        }
        out.push(Vector2 { x, y });
        at = q;
        budget = budget - 1;
    }
    proof {
        assert(out@ + Seq::<Vector2>::empty() =~= out@);
    }
    out
}

} // verus!
