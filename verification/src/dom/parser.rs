//! The grammars of attribute values.

pub mod color;
pub mod length;
pub mod number;
pub mod path;
pub mod transform;

use crate::chars::{has_prefix_at, starts_with, to_chars};
use crate::dom::error::{Error, ErrorModel};
use crate::dom::parser::number::{number_at, parse_number_at};
use crate::dom::util::OneOrMany;
use crate::number::Number;
use vstd::prelude::*;

verus! {

/// Whether `c` may stand in an id: anything but a space, a quote and a closing bracket.
pub open spec fn is_id_char(c: char) -> bool {
    c != ' ' && c != '"' && c != ')'
}

/// The place after the characters of an id that start at `at`.
pub open spec fn id_end(s: Seq<char>, at: int) -> int
    decreases s.len() - at,
{
    if 0 <= at < s.len() && is_id_char(s[at]) {
        id_end(s, at + 1)
    } else {
        at
    }
}

/// The place after the characters of an id that start at `at`.
pub fn scan_id(s: &[char], at: usize) -> (end: usize)
    requires
        at <= s@.len(),
    ensures
        end == id_end(s@, at as int),
        at <= end <= s@.len(),
{
    let mut i: usize = at;
    while i < s.len() && s[i] != ' ' && s[i] != '"' && s[i] != ')'
        invariant
            at <= i <= s@.len(),
            id_end(s@, at as int) == id_end(s@, i as int),
        decreases s@.len() - i,
    {
        i = i + 1;
    }
    i
}

/// The id at the start of `s`, as the place where it ends; `None` where `s` does not start
/// with an id.
pub open spec fn id_spec(s: Seq<char>) -> Option<int> {
    if id_end(s, 0) > 0 {
        Some(id_end(s, 0))
    } else {
        None
    }
}

/// The reference `#id` at the start of `s`, as the place where it ends.
pub open spec fn iri_spec(s: Seq<char>) -> Option<int> {
    if s.len() > 0 && s[0] == '#' && id_end(s, 1) > 1 {
        Some(id_end(s, 1))
    } else {
        None
    }
}

/// The reference `url(#id)` at the start of `s`, as the place where its id ends; the
/// closing bracket follows there.
pub open spec fn func_iri_spec(s: Seq<char>) -> Option<int> {
    if starts_with(s, "url(#"@) && id_end(s, 5) > 5 && id_end(s, 5) < s.len() && s[id_end(s, 5)]
        == ')' {
        Some(id_end(s, 5))
    } else {
        None
    }
}

/// Reads an id: one or more characters that are no space, quote or closing bracket. Gives
/// what follows the id, and the id.
pub fn id(i: &str) -> (r: Result<(&str, &str), ()>)
    ensures
        match r {
            Ok((rest, found)) => id_spec(i@) is Some && found@ == i@.subrange(0, id_spec(i@)->0)
                && rest@ == i@.subrange(id_spec(i@)->0, i@.len() as int),
            Err(_) => id_spec(i@) is None,
        },
{
    let s = to_chars(i);
    let end = scan_id(s.as_slice(), 0);
    if end > 0 {
        Ok((i.substring_char(end, s.len()), i.substring_char(0, end)))
    } else {
        Err(())
    }
}

/// Reads a reference of the form `#id`. Gives what follows it, and the id.
pub fn iri(i: &str) -> (r: Result<(&str, &str), ()>)
    ensures
        match r {
            Ok((rest, found)) => iri_spec(i@) is Some && found@ == i@.subrange(1, iri_spec(i@)->0)
                && rest@ == i@.subrange(iri_spec(i@)->0, i@.len() as int),
            Err(_) => iri_spec(i@) is None,
        },
{
    let s = to_chars(i);
    if s.len() > 0 && s[0] == '#' {
        let end = scan_id(s.as_slice(), 1);
        if end > 1 {
            return Ok((i.substring_char(end, s.len()), i.substring_char(1, end)));
        }
    }
    Err(())
}

/// Reads a reference of the form `url(#id)`. Gives what follows it, and the id.
pub fn func_iri(i: &str) -> (r: Result<(&str, &str), ()>)
    ensures
        match r {
            Ok((rest, found)) => func_iri_spec(i@) is Some && found@ == i@.subrange(
                5,
                func_iri_spec(i@)->0,
            ) && rest@ == i@.subrange(func_iri_spec(i@)->0 + 1, i@.len() as int),
            Err(_) => func_iri_spec(i@) is None,
        },
{
    let s = to_chars(i);
    proof {
        reveal_strlit("url(#");
        assert(i@.subrange(0, i@.len() as int) =~= i@);
    }
    if has_prefix_at(s.as_slice(), 0, "url(#") {
        let end = scan_id(s.as_slice(), 5);
        if end > 5 && end < s.len() && s[end] == ')' {
            return Ok((i.substring_char(end + 1, s.len()), i.substring_char(5, end)));
        }
    }
    Err(())
}

/// Whether `c` is a space or a tab.
pub open spec fn is_space(c: char) -> bool {
    c == ' ' || c == '\t'
}

/// The place after the spaces and tabs that start at `at`.
pub open spec fn spaces_end(s: Seq<char>, at: int) -> int
    decreases s.len() - at,
{
    if 0 <= at < s.len() && is_space(s[at]) {
        spaces_end(s, at + 1)
    } else {
        at
    }
}

/// The place after the spaces and tabs that start at `at`.
pub fn skip_spaces(s: &[char], at: usize) -> (end: usize)
    requires
        at <= s@.len(),
    ensures
        end == spaces_end(s@, at as int),
        at <= end <= s@.len(),
{
    let mut i: usize = at;
    while i < s.len() && (s[i] == ' ' || s[i] == '\t')
        invariant
            at <= i <= s@.len(),
            spaces_end(s@, at as int) == spaces_end(s@, i as int),
        decreases s@.len() - i,
    {
        i = i + 1;
    }
    i
}

/// The place after the separator that starts at `at`: a comma and the spaces that follow
/// it, or one or more spaces. `None` where no separator starts there.
pub open spec fn list_sep_end(s: Seq<char>, at: int) -> Option<int> {
    if 0 <= at < s.len() && s[at] == ',' {
        Some(spaces_end(s, at + 1))
    } else if spaces_end(s, at) > at {
        Some(spaces_end(s, at))
    } else {
        None
    }
}

/// The place after the separator that starts at `at`.
pub fn list_sep(s: &[char], at: usize) -> (r: Option<usize>)
    requires
        at <= s@.len(),
    ensures
        match r {
            Some(end) => list_sep_end(s@, at as int) == Some(end as int) && at < end <= s@.len(),
            None => list_sep_end(s@, at as int) is None,
        },
{
    if at < s.len() && s[at] == ',' {
        Some(skip_spaces(s, at + 1))
    } else {
        let end = skip_spaces(s, at);
        if end > at {
            Some(end)
        } else {
            None
        }
    }
}

/// The number that follows a separator at `at`, and the place after it.
pub open spec fn separated_number_at(s: Seq<char>, at: int) -> Option<(Number, int)> {
    match list_sep_end(s, at) {
        Some(p) => number_at(s, p),
        None => None,
    }
}

/// Reads a separator and then a number.
pub fn separated_number(s: &[char], at: usize) -> (r: Option<(Number, usize)>)
    requires
        at <= s@.len(),
    ensures
        match r {
            Some((n, end)) => separated_number_at(s@, at as int) == Some((n, end as int)) && at
                < end <= s@.len(),
            None => separated_number_at(s@, at as int) is None,
        },
{
    match list_sep(s, at) {
        Some(p) => parse_number_at(s, p),
        None => None,
    }
}

/// The four numbers at the start of `s`, with separators between them.
pub open spec fn number_list_4_spec(s: Seq<char>) -> Option<(Number, Number, Number, Number)> {
    match number_at(s, 0) {
        Some((a, p1)) => match separated_number_at(s, p1) {
            Some((b, p2)) => match separated_number_at(s, p2) {
                Some((c, p3)) => match separated_number_at(s, p3) {
                    Some((d, _)) => Some((a, b, c, d)),
                    None => None,
                },
                None => None,
            },
            None => None,
        },
        None => None,
    }
}

/// A number at the start of `s` and, where a separator and a number follow, that one too.
pub open spec fn one_or_two_numbers_spec(s: Seq<char>) -> Option<(Number, Option<Number>)> {
    match number_at(s, 0) {
        Some((a, p1)) => match separated_number_at(s, p1) {
            Some((b, _)) => Some((a, Some(b))),
            None => Some((a, None)),
        },
        None => None,
    }
}

/// A number at the start of `s` and, where two more follow with separators, those too.
pub open spec fn one_or_three_numbers_spec(s: Seq<char>) -> Option<
    (Number, Option<(Number, Number)>),
> {
    match number_at(s, 0) {
        Some((a, p1)) => match separated_number_at(s, p1) {
            Some((b, p2)) => match separated_number_at(s, p2) {
                Some((c, _)) => Some((a, Some((b, c)))),
                None => Some((a, None)),
            },
            None => Some((a, None)),
        },
        None => None,
    }
}

/// Whether `e` says that the text `s` is no value of the kind that was asked for.
pub open spec fn is_invalid_value(e: Error, s: Seq<char>) -> bool {
    e.deep_view() == ErrorModel::InvalidAttributeValue(s)
}

/// The error for the text `s` that is no value of the kind that was asked for.
pub fn invalid_value(s: &str) -> (e: Error)
    ensures
        is_invalid_value(e, s@),
{
    Error::InvalidAttributeValue(s.to_owned())
}

/// Reads four numbers with separators between them. What follows them is not looked at.
pub fn number_list_4(s: &str) -> (r: Result<[Number; 4], Error>)
    ensures
        match r {
            Ok(list) => number_list_4_spec(s@) == Some((list[0], list[1], list[2], list[3])),
            Err(e) => number_list_4_spec(s@) is None && is_invalid_value(e, s@),
        },
{
    let v = to_chars(s);
    let c = v.as_slice();
    let (a, p1) = match parse_number_at(c, 0) {
        Some(x) => x,
        None => {
            return Err(invalid_value(s));
        },
    };
    let (b, p2) = match separated_number(c, p1) {
        Some(x) => x,
        None => {
            return Err(invalid_value(s));
        },
    };
    let (cc, p3) = match separated_number(c, p2) {
        Some(x) => x,
        None => {
            return Err(invalid_value(s));
        },
    };
    let (d, _) = match separated_number(c, p3) {
        Some(x) => x,
        None => {
            return Err(invalid_value(s));
        },
    };
    Ok([a, b, cc, d])
}

/// Reads one number, or two with a separator between them.
pub fn one_or_two_numbers(s: &str) -> (r: Result<(Number, Option<Number>), Error>)
    ensures
        match r {
            Ok(v) => one_or_two_numbers_spec(s@) == Some(v),
            Err(e) => one_or_two_numbers_spec(s@) is None && is_invalid_value(e, s@),
        },
{
    let v = to_chars(s);
    let c = v.as_slice();
    match parse_number_at(c, 0) {
        Some((a, p1)) => match separated_number(c, p1) {
            Some((b, _)) => Ok((a, Some(b))),
            None => Ok((a, None)),
        },
        None => Err(invalid_value(s)),
    }
}

/// Reads one number, or three with separators between them.
pub fn one_or_three_numbers(s: &str) -> (r: Result<(Number, Option<(Number, Number)>), Error>)
    ensures
        match r {
            Ok(v) => one_or_three_numbers_spec(s@) == Some(v),
            Err(e) => one_or_three_numbers_spec(s@) is None && is_invalid_value(e, s@),
        },
{
    let v = to_chars(s);
    let c = v.as_slice();
    match parse_number_at(c, 0) {
        Some((a, p1)) => match separated_number(c, p1) {
            Some((b, p2)) => match separated_number(c, p2) {
                Some((cc, _)) => Ok((a, Some((b, cc)))),
                None => Ok((a, None)),
            },
            None => Ok((a, None)),
        },
        None => Err(invalid_value(s)),
    }
}

/// The numbers that follow at `at`, each after a separator, as far as they go; `limit`
/// bounds how many are looked for.
pub open spec fn more_numbers(s: Seq<char>, at: int, limit: nat) -> Seq<Number>
    decreases limit,
{
    if limit == 0 {
        Seq::empty()
    } else {
        match separated_number_at(s, at) {
            Some((n, p)) => seq![n] + more_numbers(s, p, (limit - 1) as nat),
            None => Seq::empty(),
        }
    }
}

/// A single number that is all of `s`, or else a list of one or more numbers at the start
/// of `s` with separators between them.
pub open spec fn one_or_many_spec(s: Seq<char>) -> Option<Seq<Number>> {
    match number_at(s, 0) {
        Some((a, p)) => Some(seq![a] + more_numbers(s, p, s.len())),
        None => None,
    }
}

/// Whether the number at the start of `s` is all of `s`.
pub open spec fn is_single_number(s: Seq<char>) -> bool {
    match number_at(s, 0) {
        Some((_, p)) => p == s.len(),
        None => false,
    }
}

/// Reads one number, or a list of numbers with separators between them.
pub fn one_or_many_f32(s: &str) -> (r: Result<OneOrMany<Number>, Error>)
    ensures
        match r {
            Ok(v) => one_or_many_spec(s@) == Some(v.values()) && (v is One <==> is_single_number(
                s@,
            )),
            Err(e) => one_or_many_spec(s@) is None && is_invalid_value(e, s@),
        },
{
    let v = to_chars(s);
    let c = v.as_slice();
    let (first, p) = match parse_number_at(c, 0) {
        Some(x) => x,
        None => {
            return Err(invalid_value(s));
        },
    };
    if p == c.len() {
        proof {
            reveal_with_fuel(more_numbers, 2);
            assert(seq![first] + Seq::<Number>::empty() =~= seq![first]);
            if s@.len() > 0 {
                assert(separated_number_at(s@, p as int) is None);
            }
        }
        return Ok(OneOrMany::One(first));
    }
    let mut out: Vec<Number> = Vec::new();
    out.push(first);
    let mut at: usize = p;
    let mut budget: usize = c.len();
    proof {
        assert(out@ =~= seq![first]);
    }
    while budget > 0
        invariant
            at <= c@.len(),
            c@ == s@,
            number_at(s@, 0) == Some((first, p as int)),
            p != s@.len(),
            seq![first] + more_numbers(s@, p as int, s@.len()) == out@ + more_numbers(
                s@,
                at as int,
                budget as nat,
            ),
        decreases budget,
    {
        match separated_number(c, at) {
            Some((n, q)) => {
                proof {
                    assert(out@.push(n) + more_numbers(s@, q as int, (budget - 1) as nat) =~= out@
                        + (seq![n] + more_numbers(s@, q as int, (budget - 1) as nat)));
                }
                out.push(n);
                at = q;
            },
            None => {
                proof {
                    assert(out@ + Seq::<Number>::empty() =~= out@);
                }
                return Ok(OneOrMany::Many(out));
            },
        }
        budget = budget - 1;
    }
    proof {
        assert(out@ + Seq::<Number>::empty() =~= out@);
    }
    Ok(OneOrMany::Many(out))
}

} // verus!
