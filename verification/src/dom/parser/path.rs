//! The grammar of path data, the `d` attribute of a `<path>`.
//!
//! Path data is a list of commands, each a letter and its numbers: move (`M`), line (`L`),
//! horizontal and vertical line (`H`, `V`), cubic curve (`C`), smooth cubic curve (`S`),
//! quadratic curve (`Q`), smooth quadratic curve (`T`), elliptical arc (`A`) and close
//! (`Z`). A capital letter takes its coordinates as they are, a small letter takes them
//! from the current point. Numbers that follow a command without a letter repeat it; after
//! a move they are lines. The data must start with a move.

use crate::dom::parser::length::{item_end, list_number_at, parse_list_number, skip_wsp, wsp_end};
use crate::number::Number;
use vstd::prelude::*;

verus! {

/// One command of path data with its numbers.
#[derive(Clone, Copy, PartialEq, Eq, Structural, Debug)]
pub enum PathSegment {
    MoveTo { abs: bool, x: Number, y: Number },
    LineTo { abs: bool, x: Number, y: Number },
    HorizontalLineTo { abs: bool, x: Number },
    VerticalLineTo { abs: bool, y: Number },
    CurveTo { abs: bool, x1: Number, y1: Number, x2: Number, y2: Number, x: Number, y: Number },
    SmoothCurveTo { abs: bool, x2: Number, y2: Number, x: Number, y: Number },
    Quadratic { abs: bool, x1: Number, y1: Number, x: Number, y: Number },
    SmoothQuadratic { abs: bool, x: Number, y: Number },
    EllipticalArc {
        abs: bool,
        rx: Number,
        ry: Number,
        x_axis_rotation: Number,
        large_arc: bool,
        sweep: bool,
        x: Number,
        y: Number,
    },
    ClosePath { abs: bool },
}

/// Whether `c` is the letter of a command.
pub open spec fn is_command(c: char) -> bool {
    c == 'M' || c == 'm' || c == 'L' || c == 'l' || c == 'H' || c == 'h' || c == 'V' || c == 'v'
        || c == 'C' || c == 'c' || c == 'S' || c == 's' || c == 'Q' || c == 'q' || c == 'T' || c
        == 't' || c == 'A' || c == 'a' || c == 'Z' || c == 'z'
}

fn is_command_char(c: char) -> (r: bool)
    ensures
        r == is_command(c),
{
    c == 'M' || c == 'm' || c == 'L' || c == 'l' || c == 'H' || c == 'h' || c == 'V' || c == 'v'
        || c == 'C' || c == 'c' || c == 'S' || c == 's' || c == 'Q' || c == 'q' || c == 'T' || c
        == 't' || c == 'A' || c == 'a' || c == 'Z' || c == 'z'
}

/// Whether the command `c` takes its coordinates as they are.
pub open spec fn is_absolute(c: char) -> bool {
    c == 'M' || c == 'L' || c == 'H' || c == 'V' || c == 'C' || c == 'S' || c == 'Q' || c == 'T'
        || c == 'A' || c == 'Z'
}

fn is_absolute_char(c: char) -> (r: bool)
    ensures
        r == is_absolute(c),
{
    c == 'M' || c == 'L' || c == 'H' || c == 'V' || c == 'C' || c == 'S' || c == 'Q' || c == 'T'
        || c == 'A' || c == 'Z'
}

/// The command that numbers without a letter stand for after the command `c`: after a
/// move they are lines, after a close there may be none.
pub open spec fn repeated(c: char) -> Option<char> {
    if c == 'M' {
        Some('L')
    } else if c == 'm' {
        Some('l')
    } else if c == 'Z' || c == 'z' {
        None
    } else {
        Some(c)
    }
}

fn repeated_char(c: char) -> (r: Option<char>)
    ensures
        r == repeated(c),
{
    if c == 'M' {
        Some('L')
    } else if c == 'm' {
        Some('l')
    } else if c == 'Z' || c == 'z' {
        None
    } else {
        Some(c)
    }
}

/// The flag that starts at `at`, after white space: `0` or `1`, and the place after what
/// parts it from the next item.
pub open spec fn flag_at(s: Seq<char>, at: int) -> Option<(bool, int)> {
    let p = wsp_end(s, at);
    if 0 <= p < s.len() && (s[p] == '0' || s[p] == '1') {
        Some((s[p] == '1', item_end(s, p + 1)))
    } else {
        None
    }
}

fn parse_flag(s: &[char], at: usize) -> (r: Option<(bool, usize)>)
    requires
        at <= s@.len(),
    ensures
        match r {
            Some((f, end)) => flag_at(s@, at as int) == Some((f, end as int)) && at < end
                <= s@.len(),
            None => flag_at(s@, at as int) is None,
        },
{
    let p = skip_wsp(s, at);
    if p < s.len() && (s[p] == '0' || s[p] == '1') {
        let q = skip_wsp(s, p + 1);
        let end = if q < s.len() && s[q] == ',' {
            q + 1
        } else {
            q
        };
        Some((s[p] == '1', end))
    } else {
        None
    }
}

/// Two numbers at `at`, and the place after them.
pub open spec fn pair_at(s: Seq<char>, at: int) -> Option<(Number, Number, int)> {
    match list_number_at(s, at) {
        Some((x, p)) => match list_number_at(s, p) {
            Some((y, q)) => Some((x, y, q)),
            None => None,
        },
        None => None,
    }
}

fn parse_pair(s: &[char], at: usize) -> (r: Option<(Number, Number, usize)>)
    requires
        at <= s@.len(),
    ensures
        match r {
            Some((x, y, end)) => pair_at(s@, at as int) == Some((x, y, end as int)) && at < end
                <= s@.len(),
            None => pair_at(s@, at as int) is None,
        },
{
    match parse_list_number(s, at) {
        Some((x, p)) => match parse_list_number(s, p) {
            Some((y, q)) => Some((x, y, q)),
            None => None,
        },
        None => None,
    }
}

/// The numbers of an arc at `at`, and the place after them.
pub open spec fn arc_at(s: Seq<char>, at: int, abs: bool) -> Option<(PathSegment, int)> {
    match pair_at(s, at) {
        None => None,
        Some((rx, ry, p1)) => match list_number_at(s, p1) {
            None => None,
            Some((x_axis_rotation, p2)) => match flag_at(s, p2) {
                None => None,
                Some((large_arc, p3)) => match flag_at(s, p3) {
                    None => None,
                    Some((sweep, p4)) => match pair_at(s, p4) {
                        None => None,
                        Some((x, y, p5)) => Some(
                            (
                                PathSegment::EllipticalArc {
                                    abs,
                                    rx,
                                    ry,
                                    x_axis_rotation,
                                    large_arc,
                                    sweep,
                                    x,
                                    y,
                                },
                                p5,
                            ),
                        ),
                    },
                },
            },
        },
    }
}

fn parse_arc(s: &[char], at: usize, abs: bool) -> (r: Option<(PathSegment, usize)>)
    requires
        at <= s@.len(),
    ensures
        match r {
            Some((seg, end)) => arc_at(s@, at as int, abs) == Some((seg, end as int)) && at < end
                <= s@.len(),
            None => arc_at(s@, at as int, abs) is None,
        },
{
    let (rx, ry, p1) = match parse_pair(s, at) {
        Some(v) => v,
        None => {
            return None;
        },
    };
    let (x_axis_rotation, p2) = match parse_list_number(s, p1) {
        Some(v) => v,
        None => {
            return None;
        },
    };
    let (large_arc, p3) = match parse_flag(s, p2) {
        Some(v) => v,
        None => {
            return None;
        },
    };
    let (sweep, p4) = match parse_flag(s, p3) {
        Some(v) => v,
        None => {
            return None;
        },
    };
    let (x, y, p5) = match parse_pair(s, p4) {
        Some(v) => v,
        None => {
            return None;
        },
    };
    Some((PathSegment::EllipticalArc { abs, rx, ry, x_axis_rotation, large_arc, sweep, x, y }, p5))
}

/// The numbers of a cubic curve at `at`, and the place after them.
pub open spec fn curve_at(s: Seq<char>, at: int, abs: bool) -> Option<(PathSegment, int)> {
    match pair_at(s, at) {
        None => None,
        Some((x1, y1, p1)) => match pair_at(s, p1) {
            None => None,
            Some((x2, y2, p2)) => match pair_at(s, p2) {
                None => None,
                Some((x, y, p3)) => Some((PathSegment::CurveTo { abs, x1, y1, x2, y2, x, y }, p3)),
            },
        },
    }
}

fn parse_curve(s: &[char], at: usize, abs: bool) -> (r: Option<(PathSegment, usize)>)
    requires
        at <= s@.len(),
    ensures
        match r {
            Some((seg, end)) => curve_at(s@, at as int, abs) == Some((seg, end as int)) && at
                < end <= s@.len(),
            None => curve_at(s@, at as int, abs) is None,
        },
{
    let (x1, y1, p1) = match parse_pair(s, at) {
        Some(v) => v,
        None => {
            return None;
        },
    };
    let (x2, y2, p2) = match parse_pair(s, p1) {
        Some(v) => v,
        None => {
            return None;
        },
    };
    let (x, y, p3) = match parse_pair(s, p2) {
        Some(v) => v,
        None => {
            return None;
        },
    };
    Some((PathSegment::CurveTo { abs, x1, y1, x2, y2, x, y }, p3))
}

/// Two pairs of numbers at `at`, and the place after them.
pub open spec fn two_pairs_at(s: Seq<char>, at: int) -> Option<(Number, Number, Number, Number, int)> {
    match pair_at(s, at) {
        None => None,
        Some((a, b, p1)) => match pair_at(s, p1) {
            None => None,
            Some((c, d, p2)) => Some((a, b, c, d, p2)),
        },
    }
}

fn parse_two_pairs(s: &[char], at: usize) -> (r: Option<(Number, Number, Number, Number, usize)>)
    requires
        at <= s@.len(),
    ensures
        match r {
            Some((a, b, c, d, end)) => two_pairs_at(s@, at as int) == Some(
                (a, b, c, d, end as int),
            ) && at < end <= s@.len(),
            None => two_pairs_at(s@, at as int) is None,
        },
{
    let (a, b, p1) = match parse_pair(s, at) {
        Some(v) => v,
        None => {
            return None;
        },
    };
    let (c, d, p2) = match parse_pair(s, p1) {
        Some(v) => v,
        None => {
            return None;
        },
    };
    Some((a, b, c, d, p2))
}

/// The command `c` with the numbers that stand at `at`, and the place after them.
pub open spec fn segment_at(s: Seq<char>, at: int, c: char) -> Option<(PathSegment, int)> {
    let abs = is_absolute(c);
    if c == 'M' || c == 'm' {
        match pair_at(s, at) {
            Some((x, y, p)) => Some((PathSegment::MoveTo { abs, x, y }, p)),
            None => None,
        }
    } else if c == 'L' || c == 'l' {
        match pair_at(s, at) {
            Some((x, y, p)) => Some((PathSegment::LineTo { abs, x, y }, p)),
            None => None,
        }
    } else if c == 'H' || c == 'h' {
        match list_number_at(s, at) {
            Some((x, p)) => Some((PathSegment::HorizontalLineTo { abs, x }, p)),
            None => None,
        }
    } else if c == 'V' || c == 'v' {
        match list_number_at(s, at) {
            Some((y, p)) => Some((PathSegment::VerticalLineTo { abs, y }, p)),
            None => None,
        }
    } else if c == 'C' || c == 'c' {
        curve_at(s, at, abs)
    } else if c == 'S' || c == 's' {
        match two_pairs_at(s, at) {
            Some((x2, y2, x, y, p)) => Some((PathSegment::SmoothCurveTo { abs, x2, y2, x, y }, p)),
            None => None,
        }
    } else if c == 'Q' || c == 'q' {
        match two_pairs_at(s, at) {
            Some((x1, y1, x, y, p)) => Some((PathSegment::Quadratic { abs, x1, y1, x, y }, p)),
            None => None,
        }
    } else if c == 'T' || c == 't' {
        match pair_at(s, at) {
            Some((x, y, p)) => Some((PathSegment::SmoothQuadratic { abs, x, y }, p)),
            None => None,
        }
    } else if c == 'A' || c == 'a' {
        arc_at(s, at, abs)
    } else if c == 'Z' || c == 'z' {
        Some((PathSegment::ClosePath { abs }, at))
    } else {
        None
    }
}

fn parse_segment(s: &[char], at: usize, c: char) -> (r: Option<(PathSegment, usize)>)
    requires
        at <= s@.len(),
    ensures
        match r {
            Some((seg, end)) => segment_at(s@, at as int, c) == Some((seg, end as int)) && at
                <= end <= s@.len(),
            None => segment_at(s@, at as int, c) is None,
        },
{
    let abs = is_absolute_char(c);
    if c == 'M' || c == 'm' {
        match parse_pair(s, at) {
            Some((x, y, p)) => Some((PathSegment::MoveTo { abs, x, y }, p)),
            None => None,
        }
    } else if c == 'L' || c == 'l' {
        match parse_pair(s, at) {
            Some((x, y, p)) => Some((PathSegment::LineTo { abs, x, y }, p)),
            None => None,
        }
    } else if c == 'H' || c == 'h' {
        match parse_list_number(s, at) {
            Some((x, p)) => Some((PathSegment::HorizontalLineTo { abs, x }, p)),
            None => None,
        }
    } else if c == 'V' || c == 'v' {
        match parse_list_number(s, at) {
            Some((y, p)) => Some((PathSegment::VerticalLineTo { abs, y }, p)),
            None => None,
        }
    } else if c == 'C' || c == 'c' {
        parse_curve(s, at, abs)
    } else if c == 'S' || c == 's' {
        match parse_two_pairs(s, at) {
            Some((x2, y2, x, y, p)) => Some((PathSegment::SmoothCurveTo { abs, x2, y2, x, y }, p)),
            None => None,
        }
    } else if c == 'Q' || c == 'q' {
        match parse_two_pairs(s, at) {
            Some((x1, y1, x, y, p)) => Some((PathSegment::Quadratic { abs, x1, y1, x, y }, p)),
            None => None,
        }
    } else if c == 'T' || c == 't' {
        match parse_pair(s, at) {
            Some((x, y, p)) => Some((PathSegment::SmoothQuadratic { abs, x, y }, p)),
            None => None,
        }
    } else if c == 'A' || c == 'a' {
        parse_arc(s, at, abs)
    } else if c == 'Z' || c == 'z' {
        Some((PathSegment::ClosePath { abs }, at))
    } else {
        None
    }
}

/// The command that is read at `at`, where white space has been passed, after the
/// command `previous`: the letter that stands there, or else what `previous` repeats as.
/// With it the place where its numbers start. `None` where no command can stand there: a
/// letter that is no command, numbers after a close, and anything but a move at the start.
pub open spec fn command_at(s: Seq<char>, at: int, previous: Option<char>) -> Option<(char, int)> {
    if 0 <= at < s.len() && is_command(s[at]) {
        if previous is None && s[at] != 'M' && s[at] != 'm' {
            None
        } else {
            Some((s[at], at + 1))
        }
    } else {
        match previous {
            Some(c) => match repeated(c) {
                Some(r) => Some((r, at)),
                None => None,
            },
            None => None,
        }
    }
}

fn read_command(s: &[char], at: usize, previous: Option<char>) -> (r: Option<(char, usize)>)
    requires
        at < s@.len(),
    ensures
        match r {
            Some((c, end)) => command_at(s@, at as int, previous) == Some((c, end as int)) && at
                <= end <= s@.len(),
            None => command_at(s@, at as int, previous) is None,
        },
{
    if is_command_char(s[at]) {
        if previous.is_none() && s[at] != 'M' && s[at] != 'm' {
            None
        } else {
            Some((s[at], at + 1))
        }
    } else {
        match previous {
            Some(c) => match repeated_char(c) {
                Some(r) => Some((r, at)),
                None => None,
            },
            None => None,
        }
    }
}

/// The commands that `s` holds from `at` to its end, after the command `previous`; `None`
/// where something else stands there. `limit` bounds how many are looked for.
pub open spec fn segments_from(s: Seq<char>, at: int, previous: Option<char>, limit: nat) -> Option<
    Seq<PathSegment>,
>
    decreases limit,
{
    let p = wsp_end(s, at);
    if p >= s.len() || limit == 0 {
        Some(Seq::empty())
    } else {
        match command_at(s, p, previous) {
            None => None,
            Some((c, q)) => match segment_at(s, q, c) {
                None => None,
                Some((seg, end)) => match segments_from(s, end, Some(c), (limit - 1) as nat) {
                    Some(rest) => Some(seq![seg] + rest),
                    None => None,
                },
            },
        }
    }
}

/// The commands of the path data `s`.
pub open spec fn path_data_spec(s: Seq<char>) -> Option<Seq<PathSegment>> {
    segments_from(s, 0, None, s.len() + 1)
}

/// Reads path data.
pub fn parse_path_data(s: &[char]) -> (r: Option<Vec<PathSegment>>)
    ensures
        match r {
            Some(v) => path_data_spec(s@) == Some(v@),
            None => path_data_spec(s@) is None,
        },
{
    let mut out: Vec<PathSegment> = Vec::new();
    let mut at: usize = 0;
    let mut previous: Option<char> = None;
    let mut budget: usize = s.len();
    let mut extra: bool = true;
    loop
        invariant
            at <= s@.len(),
            path_data_spec(s@) == match segments_from(
                s@,
                at as int,
                previous,
                (budget + if extra { 1int } else { 0int }) as nat,
            ) {
                Some(rest) => Some(out@ + rest),
                None => None,
            },
        decreases budget + if extra { 1int } else { 0int },
    {
        let p = skip_wsp(s, at);
        if p >= s.len() || (budget == 0 && !extra) {
            proof {
                assert(out@ + Seq::<PathSegment>::empty() =~= out@);
            }
            return Some(out);
        }
        let (c, q) = match read_command(s, p, previous) {
            Some(v) => v,
            None => {
                return None;
            },
        };
        let (seg, end) = match parse_segment(s, q, c) {
            Some(v) => v,
            None => {
                return None;
            },
        };
        proof {
            let left = (budget + if extra { 1int } else { 0int } - 1) as nat;
            match segments_from(s@, end as int, Some(c), left) {
                Some(rest) => {
                    assert(out@.push(seg) + rest =~= out@ + (seq![seg] + rest));
                },
                None => {},
            }
        }
        out.push(seg);
        at = end;
        previous = Some(c);
        if extra {
            extra = false;
        } else {
            budget = budget - 1;
        }
    }
}

} // verus!
