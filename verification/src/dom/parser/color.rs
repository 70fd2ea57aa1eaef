//! The grammar of colours: `#rrggbb`, `#rgb`, `rgb(r,g,b)`, `rgb(r%,g%,b%)` and names.

use crate::chars::{chars_eq, has_prefix_at, starts_with, to_chars};
use crate::dom::paint::Color;
use crate::dom::parser::{skip_spaces, spaces_end};
use crate::dom::parser::number::{digits_end, digits_value, read_digits, scan_digits};
use vstd::prelude::*;

verus! {

pub open spec fn is_hex_digit_spec(c: char) -> bool {
    ('0' <= c && c <= '9') || ('a' <= c && c <= 'f') || ('A' <= c && c <= 'F')
}

/// The value of the hexadecimal digit `c`.
pub open spec fn hex_value(c: char) -> int {
    if '0' <= c && c <= '9' {
        c as int - '0' as int
    } else if 'a' <= c && c <= 'f' {
        c as int - 'a' as int + 10
    } else {
        c as int - 'A' as int + 10
    }
}

pub fn is_hex_digit(c: char) -> (r: bool)
    ensures
        r == is_hex_digit_spec(c),
{
    (c >= '0' && c <= '9') || (c >= 'a' && c <= 'f') || (c >= 'A' && c <= 'F')
}

fn hex_digit(c: char) -> (r: u8)
    requires
        is_hex_digit_spec(c),
    ensures
        r == hex_value(c),
        r <= 15,
{
    if c >= '0' && c <= '9' {
        (c as u32 - '0' as u32) as u8
    } else if c >= 'a' && c <= 'f' {
        (c as u32 - 'a' as u32 + 10) as u8
    } else {
        (c as u32 - 'A' as u32 + 10) as u8
    }
}

/// The byte that the two hexadecimal digits at `at` spell.
pub open spec fn hex_byte_at(s: Seq<char>, at: int) -> Option<u8> {
    if 0 <= at && at + 2 <= s.len() && is_hex_digit_spec(s[at]) && is_hex_digit_spec(s[at + 1]) {
        Some((hex_value(s[at]) * 16 + hex_value(s[at + 1])) as u8)
    } else {
        None
    }
}

/// Sixteen times the value of the hexadecimal digit at `at`.
pub open spec fn hex_nibble_at(s: Seq<char>, at: int) -> Option<u8> {
    if 0 <= at < s.len() && is_hex_digit_spec(s[at]) {
        Some((hex_value(s[at]) * 16) as u8)
    } else {
        None
    }
}

fn hex_byte(s: &[char], at: usize) -> (r: Option<u8>)
    requires
        at <= s@.len(),
    ensures
        r == hex_byte_at(s@, at as int),
{
    if s.len() - at >= 2 && is_hex_digit(s[at]) && is_hex_digit(s[at + 1]) {
        Some(hex_digit(s[at]) * 16 + hex_digit(s[at + 1]))
    } else {
        None
    }
}

fn hex_nibble(s: &[char], at: usize) -> (r: Option<u8>)
    requires
        at <= s@.len(),
    ensures
        r == hex_nibble_at(s@, at as int),
{
    if at < s.len() && is_hex_digit(s[at]) {
        Some(hex_digit(s[at]) * 16)
    } else {
        None
    }
}

/// The colour `#rrggbb` at the start of `s`, and the place after it.
pub open spec fn hex_color_spec(s: Seq<char>) -> Option<(Color, int)> {
    if s.len() > 0 && s[0] == '#' {
        match (hex_byte_at(s, 1), hex_byte_at(s, 3), hex_byte_at(s, 5)) {
            (Some(r), Some(g), Some(b)) => Some((Color::from_srgb_u8_spec(r, g, b), 7)),
            _ => None,
        }
    } else {
        None
    }
}

/// The colour `#rgb` at the start of `s`, and the place after it. Each digit gives the
/// upper half of its channel.
pub open spec fn short_hex_color_spec(s: Seq<char>) -> Option<(Color, int)> {
    if s.len() > 0 && s[0] == '#' {
        match (hex_nibble_at(s, 1), hex_nibble_at(s, 2), hex_nibble_at(s, 3)) {
            (Some(r), Some(g), Some(b)) => Some((Color::from_srgb_u8_spec(r, g, b), 4)),
            _ => None,
        }
    } else {
        None
    }
}

fn hex_color(s: &[char]) -> (r: Option<(Color, usize)>)
    ensures
        match r {
            Some((c, end)) => hex_color_spec(s@) == Some((c, end as int)) && end <= s@.len(),
            None => hex_color_spec(s@) is None,
        },
{
    if s.len() >= 7 && s[0] == '#' {
        match (hex_byte(s, 1), hex_byte(s, 3), hex_byte(s, 5)) {
            (Some(r), Some(g), Some(b)) => Some((Color::from_srgb_u8(r, g, b), 7)),
            _ => None,
        }
    } else {
        None
    }
}

fn short_hex_color(s: &[char]) -> (r: Option<(Color, usize)>)
    ensures
        match r {
            Some((c, end)) => short_hex_color_spec(s@) == Some((c, end as int)) && end <= s@.len(),
            None => short_hex_color_spec(s@) is None,
        },
{
    if s.len() >= 4 && s[0] == '#' {
        match (hex_nibble(s, 1), hex_nibble(s, 2), hex_nibble(s, 3)) {
            (Some(r), Some(g), Some(b)) => Some((Color::from_srgb_u8(r, g, b), 4)),
            _ => None,
        }
    } else {
        None
    }
}

/// The whole number of at most 255 whose digits start at `at`, and the place after it.
pub open spec fn integer_at(s: Seq<char>, at: int) -> Option<(u8, int)> {
    let end = digits_end(s, at);
    if end > at && digits_value(s, at, end, 256) <= 255 {
        Some((digits_value(s, at, end, 256) as u8, end))
    } else {
        None
    }
}

fn integer(s: &[char], at: usize) -> (r: Option<(u8, usize)>)
    requires
        at <= s@.len(),
    ensures
        match r {
            Some((v, end)) => integer_at(s@, at as int) == Some((v, end as int)) && at < end
                <= s@.len(),
            None => integer_at(s@, at as int) is None,
        },
{
    let end = scan_digits(s, at);
    if end > at {
        let v = read_digits(s, at, end, 256);
        if v <= 255 {
            return Some((v as u8, end));
        }
    }
    None
}

/// The percentage of at most 100 at `at`, as the part of 255 that it stands for, and the
/// place after the percent sign.
pub open spec fn percent_at(s: Seq<char>, at: int) -> Option<(u8, int)> {
    match integer_at(s, at) {
        Some((pc, end)) => if end < s.len() && s[end] == '%' && pc <= 100 {
            Some(((pc as int * 255 / 100) as u8, end + 1))
        } else {
            None
        },
        None => None,
    }
}

fn percent(s: &[char], at: usize) -> (r: Option<(u8, usize)>)
    requires
        at <= s@.len(),
    ensures
        match r {
            Some((v, end)) => percent_at(s@, at as int) == Some((v, end as int)) && at < end
                <= s@.len(),
            None => percent_at(s@, at as int) is None,
        },
{
    match integer(s, at) {
        Some((pc, end)) => {
            if end < s.len() && s[end] == '%' && pc <= 100 {
                let val: u16 = (pc as u16) * 255 / 100;
                Some((val as u8, end + 1))
            } else {
                None
            }
        },
        None => None,
    }
}

/// The place after a comma at `at`.
pub open spec fn comma_at(s: Seq<char>, at: int) -> Option<int> {
    if 0 <= at < s.len() && s[at] == ',' {
        Some(at + 1)
    } else {
        None
    }
}

fn comma(s: &[char], at: usize) -> (r: Option<usize>)
    requires
        at <= s@.len(),
    ensures
        match r {
            Some(end) => comma_at(s@, at as int) == Some(end as int) && end <= s@.len(),
            None => comma_at(s@, at as int) is None,
        },
{
    if at < s.len() && s[at] == ',' {
        Some(at + 1)
    } else {
        None
    }
}

/// Three channels between `rgb(` and `)`, with commas and nothing else between them; spaces
/// may stand after the opening and before the closing bracket. `channel` reads one channel.
pub open spec fn rgb_spec(
    s: Seq<char>,
    channel: spec_fn(Seq<char>, int) -> Option<(u8, int)>,
) -> Option<(Color, int)> {
    if !starts_with(s, "rgb("@) {
        None
    } else {
        match channel(s, spaces_end(s, 4)) {
            None => None,
            Some((r, p1)) => match comma_at(s, p1) {
                None => None,
                Some(p2) => match channel(s, p2) {
                    None => None,
                    Some((g, p3)) => match comma_at(s, p3) {
                        None => None,
                        Some(p4) => match channel(s, p4) {
                            None => None,
                            Some((b, p5)) => {
                                let p6 = spaces_end(s, p5);
                                if p6 < s.len() && s[p6] == ')' {
                                    Some((Color::from_srgb_u8_spec(r, g, b), p6 + 1))
                                } else {
                                    None
                                }
                            },
                        },
                    },
                },
            },
        }
    }
}

/// The colour `rgb(r,g,b)` at the start of `s`, with whole numbers of at most 255.
pub open spec fn rgb_color_spec(s: Seq<char>) -> Option<(Color, int)> {
    rgb_spec(s, |s: Seq<char>, at: int| integer_at(s, at))
}

/// The colour `rgb(r%,g%,b%)` at the start of `s`, with percentages of at most 100.
pub open spec fn rgb_percent_color_spec(s: Seq<char>) -> Option<(Color, int)> {
    rgb_spec(s, |s: Seq<char>, at: int| percent_at(s, at))
}

fn rgb_color(s: &[char]) -> (r: Option<(Color, usize)>)
    ensures
        match r {
            Some((c, end)) => rgb_color_spec(s@) == Some((c, end as int)) && end <= s@.len(),
            None => rgb_color_spec(s@) is None,
        },
{
    proof {
        reveal_strlit("rgb(");
        assert(s@.subrange(0, s@.len() as int) =~= s@);
    }
    if !has_prefix_at(s, 0, "rgb(") {
        return None;
    }
    let p0 = skip_spaces(s, 4);
    let (r, p1) = match integer(s, p0) {
        Some(x) => x,
        None => {
            return None;
        },
    };
    let p2 = match comma(s, p1) {
        Some(x) => x,
        None => {
            return None;
        },
    };
    let (g, p3) = match integer(s, p2) {
        Some(x) => x,
        None => {
            return None;
        },
    };
    let p4 = match comma(s, p3) {
        Some(x) => x,
        None => {
            return None;
        },
    };
    let (b, p5) = match integer(s, p4) {
        Some(x) => x,
        None => {
            return None;
        },
    };
    let p6 = skip_spaces(s, p5);
    if p6 < s.len() && s[p6] == ')' {
        Some((Color::from_srgb_u8(r, g, b), p6 + 1))
    } else {
        None
    }
}

fn rgb_percent_color(s: &[char]) -> (r: Option<(Color, usize)>)
    ensures
        match r {
            Some((c, end)) => rgb_percent_color_spec(s@) == Some((c, end as int)) && end
                <= s@.len(),
            None => rgb_percent_color_spec(s@) is None,
        },
{
    proof {
        reveal_strlit("rgb(");
        assert(s@.subrange(0, s@.len() as int) =~= s@);
    }
    if !has_prefix_at(s, 0, "rgb(") {
        return None;
    }
    let p0 = skip_spaces(s, 4);
    let (r, p1) = match percent(s, p0) {
        Some(x) => x,
        None => {
            return None;
        },
    };
    let p2 = match comma(s, p1) {
        Some(x) => x,
        None => {
            return None;
        },
    };
    let (g, p3) = match percent(s, p2) {
        Some(x) => x,
        None => {
            return None;
        },
    };
    let p4 = match comma(s, p3) {
        Some(x) => x,
        None => {
            return None;
        },
    };
    let (b, p5) = match percent(s, p4) {
        Some(x) => x,
        None => {
            return None;
        },
    };
    let p6 = skip_spaces(s, p5);
    if p6 < s.len() && s[p6] == ')' {
        Some((Color::from_srgb_u8(r, g, b), p6 + 1))
    } else {
        None
    }
}

pub open spec fn is_letter(c: char) -> bool {
    ('a' <= c && c <= 'z') || ('A' <= c && c <= 'Z')
}

/// The place after the letters that start at `at`.
pub open spec fn letters_end(s: Seq<char>, at: int) -> int
    decreases s.len() - at,
{
    if 0 <= at < s.len() && is_letter(s[at]) {
        letters_end(s, at + 1)
    } else {
        at
    }
}

fn scan_letters(s: &[char], at: usize) -> (end: usize)
    requires
        at <= s@.len(),
    ensures
        end == letters_end(s@, at as int),
        at <= end <= s@.len(),
{
    let mut i: usize = at;
    while i < s.len() && ((s[i] >= 'a' && s[i] <= 'z') || (s[i] >= 'A' && s[i] <= 'Z'))
        invariant
            at <= i <= s@.len(),
            letters_end(s@, at as int) == letters_end(s@, i as int),
        decreases s@.len() - i,
    {
        i = i + 1;
    }
    i
}

fn is_name(name: &[char], literal: &str) -> (r: bool)
    ensures
        r == (name@ == literal@),
{
    let l = to_chars(literal);
    chars_eq(name, l.as_slice())
}

/// The three channels of a colour.
pub type Rgb = (u8, u8, u8);


/// The colours whose names start with `a`.
pub open spec fn names_a(name: Seq<char>) -> Option<Rgb> {
    if name == "aliceblue"@ {
        Some((240u8, 248u8, 255u8))
    } else if name == "antiquewhite"@ {
        Some((250u8, 235u8, 215u8))
    } else if name == "aqua"@ {
        Some((0u8, 255u8, 255u8))
    } else if name == "aquamarine"@ {
        Some((127u8, 255u8, 212u8))
    } else if name == "azure"@ {
        Some((240u8, 255u8, 255u8))
    } else {
        None
    }
}

fn find_a(name: &[char]) -> (r: Option<Rgb>)
    ensures
        r == names_a(name@),
{
    if is_name(name, "aliceblue") {
        Some((240, 248, 255))
    } else if is_name(name, "antiquewhite") {
        Some((250, 235, 215))
    } else if is_name(name, "aqua") {
        Some((0, 255, 255))
    } else if is_name(name, "aquamarine") {
        Some((127, 255, 212))
    } else if is_name(name, "azure") {
        Some((240, 255, 255))
    } else {
        None
    }
}

/// The colours whose names start with `b`.
pub open spec fn names_b(name: Seq<char>) -> Option<Rgb> {
    if name == "beige"@ {
        Some((245u8, 245u8, 220u8))
    } else if name == "bisque"@ {
        Some((255u8, 228u8, 196u8))
    } else if name == "black"@ {
        Some((0u8, 0u8, 0u8))
    } else if name == "blanchedalmond"@ {
        Some((255u8, 235u8, 205u8))
    } else if name == "blue"@ {
        Some((0u8, 0u8, 255u8))
    } else if name == "blueviolet"@ {
        Some((138u8, 43u8, 226u8))
    } else if name == "brown"@ {
        Some((165u8, 42u8, 42u8))
    } else if name == "burlywood"@ {
        Some((222u8, 184u8, 135u8))
    } else {
        None
    }
}

fn find_b(name: &[char]) -> (r: Option<Rgb>)
    ensures
        r == names_b(name@),
{
    if is_name(name, "beige") {
        Some((245, 245, 220))
    } else if is_name(name, "bisque") {
        Some((255, 228, 196))
    } else if is_name(name, "black") {
        Some((0, 0, 0))
    } else if is_name(name, "blanchedalmond") {
        Some((255, 235, 205))
    } else if is_name(name, "blue") {
        Some((0, 0, 255))
    } else if is_name(name, "blueviolet") {
        Some((138, 43, 226))
    } else if is_name(name, "brown") {
        Some((165, 42, 42))
    } else if is_name(name, "burlywood") {
        Some((222, 184, 135))
    } else {
        None
    }
}

/// The colours whose names start with `c`.
pub open spec fn names_c(name: Seq<char>) -> Option<Rgb> {
    if name == "cadetblue"@ {
        Some((95u8, 158u8, 160u8))
    } else if name == "chartreuse"@ {
        Some((127u8, 255u8, 0u8))
    } else if name == "chocolate"@ {
        Some((210u8, 105u8, 30u8))
    } else if name == "coral"@ {
        Some((255u8, 127u8, 80u8))
    } else if name == "cornflowerblue"@ {
        Some((100u8, 149u8, 237u8))
    } else if name == "cornsilk"@ {
        Some((255u8, 248u8, 220u8))
    } else if name == "crimson"@ {
        Some((220u8, 20u8, 60u8))
    } else if name == "cyan"@ {
        Some((0u8, 255u8, 255u8))
    } else {
        None
    }
}

fn find_c(name: &[char]) -> (r: Option<Rgb>)
    ensures
        r == names_c(name@),
{
    if is_name(name, "cadetblue") {
        Some((95, 158, 160))
    } else if is_name(name, "chartreuse") {
        Some((127, 255, 0))
    } else if is_name(name, "chocolate") {
        Some((210, 105, 30))
    } else if is_name(name, "coral") {
        Some((255, 127, 80))
    } else if is_name(name, "cornflowerblue") {
        Some((100, 149, 237))
    } else if is_name(name, "cornsilk") {
        Some((255, 248, 220))
    } else if is_name(name, "crimson") {
        Some((220, 20, 60))
    } else if is_name(name, "cyan") {
        Some((0, 255, 255))
    } else {
        None
    }
}

/// The colours whose names start with `d`.
pub open spec fn names_d(name: Seq<char>) -> Option<Rgb> {
    if name == "darkblue"@ {
        Some((0u8, 0u8, 139u8))
    } else if name == "darkcyan"@ {
        Some((0u8, 139u8, 139u8))
    } else if name == "darkgoldenrod"@ {
        Some((184u8, 134u8, 11u8))
    } else if name == "darkgray"@ {
        Some((169u8, 169u8, 169u8))
    } else if name == "darkgreen"@ {
        Some((0u8, 100u8, 0u8))
    } else if name == "darkgrey"@ {
        Some((169u8, 169u8, 169u8))
    } else if name == "darkkhaki"@ {
        Some((189u8, 183u8, 107u8))
    } else if name == "darkmagenta"@ {
        Some((139u8, 0u8, 139u8))
    } else if name == "darkolivegreen"@ {
        Some((85u8, 107u8, 47u8))
    } else if name == "darkorange"@ {
        Some((255u8, 140u8, 0u8))
    } else if name == "darkorchid"@ {
        Some((153u8, 50u8, 204u8))
    } else if name == "darkred"@ {
        Some((139u8, 0u8, 0u8))
    } else if name == "darksalmon"@ {
        Some((233u8, 150u8, 122u8))
    } else if name == "darkseagreen"@ {
        Some((143u8, 188u8, 143u8))
    } else if name == "darkslateblue"@ {
        Some((72u8, 61u8, 139u8))
    } else if name == "darkslategray"@ {
        Some((47u8, 79u8, 79u8))
    } else if name == "darkslategrey"@ {
        Some((47u8, 79u8, 79u8))
    } else if name == "darkturquoise"@ {
        Some((0u8, 206u8, 209u8))
    } else if name == "darkviolet"@ {
        Some((148u8, 0u8, 211u8))
    } else if name == "deeppink"@ {
        Some((255u8, 20u8, 147u8))
    } else if name == "deepskyblue"@ {
        Some((0u8, 191u8, 255u8))
    } else if name == "dimgray"@ {
        Some((105u8, 105u8, 105u8))
    } else if name == "dimgrey"@ {
        Some((105u8, 105u8, 105u8))
    } else if name == "dodgerblue"@ {
        Some((30u8, 144u8, 255u8))
    } else {
        None
    }
}

fn find_d(name: &[char]) -> (r: Option<Rgb>)
    ensures
        r == names_d(name@),
{
    if is_name(name, "darkblue") {
        Some((0, 0, 139))
    } else if is_name(name, "darkcyan") {
        Some((0, 139, 139))
    } else if is_name(name, "darkgoldenrod") {
        Some((184, 134, 11))
    } else if is_name(name, "darkgray") {
        Some((169, 169, 169))
    } else if is_name(name, "darkgreen") {
        Some((0, 100, 0))
    } else if is_name(name, "darkgrey") {
        Some((169, 169, 169))
    } else if is_name(name, "darkkhaki") {
        Some((189, 183, 107))
    } else if is_name(name, "darkmagenta") {
        Some((139, 0, 139))
    } else if is_name(name, "darkolivegreen") {
        Some((85, 107, 47))
    } else if is_name(name, "darkorange") {
        Some((255, 140, 0))
    } else if is_name(name, "darkorchid") {
        Some((153, 50, 204))
    } else if is_name(name, "darkred") {
        Some((139, 0, 0))
    } else if is_name(name, "darksalmon") {
        Some((233, 150, 122))
    } else if is_name(name, "darkseagreen") {
        Some((143, 188, 143))
    } else if is_name(name, "darkslateblue") {
        Some((72, 61, 139))
    } else if is_name(name, "darkslategray") {
        Some((47, 79, 79))
    } else if is_name(name, "darkslategrey") {
        Some((47, 79, 79))
    } else if is_name(name, "darkturquoise") {
        Some((0, 206, 209))
    } else if is_name(name, "darkviolet") {
        Some((148, 0, 211))
    } else if is_name(name, "deeppink") {
        Some((255, 20, 147))
    } else if is_name(name, "deepskyblue") {
        Some((0, 191, 255))
    } else if is_name(name, "dimgray") {
        Some((105, 105, 105))
    } else if is_name(name, "dimgrey") {
        Some((105, 105, 105))
    } else if is_name(name, "dodgerblue") {
        Some((30, 144, 255))
    } else {
        None
    }
}

/// The colours whose names start with `f`.
pub open spec fn names_f(name: Seq<char>) -> Option<Rgb> {
    if name == "firebrick"@ {
        Some((178u8, 34u8, 34u8))
    } else if name == "floralwhite"@ {
        Some((255u8, 250u8, 240u8))
    } else if name == "forestgreen"@ {
        Some((34u8, 139u8, 34u8))
    } else if name == "fuchsia"@ {
        Some((255u8, 0u8, 255u8))
    } else {
        None
    }
}

fn find_f(name: &[char]) -> (r: Option<Rgb>)
    ensures
        r == names_f(name@),
{
    if is_name(name, "firebrick") {
        Some((178, 34, 34))
    } else if is_name(name, "floralwhite") {
        Some((255, 250, 240))
    } else if is_name(name, "forestgreen") {
        Some((34, 139, 34))
    } else if is_name(name, "fuchsia") {
        Some((255, 0, 255))
    } else {
        None
    }
}

/// The colours whose names start with `g`.
pub open spec fn names_g(name: Seq<char>) -> Option<Rgb> {
    if name == "gainsboro"@ {
        Some((220u8, 220u8, 220u8))
    } else if name == "ghostwhite"@ {
        Some((248u8, 248u8, 255u8))
    } else if name == "gold"@ {
        Some((255u8, 215u8, 0u8))
    } else if name == "goldenrod"@ {
        Some((218u8, 165u8, 32u8))
    } else if name == "gray"@ {
        Some((128u8, 128u8, 128u8))
    } else if name == "green"@ {
        Some((0u8, 128u8, 0u8))
    } else if name == "greenyellow"@ {
        Some((173u8, 255u8, 47u8))
    } else if name == "grey"@ {
        Some((128u8, 128u8, 128u8))
    } else {
        None
    }
}

fn find_g(name: &[char]) -> (r: Option<Rgb>)
    ensures
        r == names_g(name@),
{
    if is_name(name, "gainsboro") {
        Some((220, 220, 220))
    } else if is_name(name, "ghostwhite") {
        Some((248, 248, 255))
    } else if is_name(name, "gold") {
        Some((255, 215, 0))
    } else if is_name(name, "goldenrod") {
        Some((218, 165, 32))
    } else if is_name(name, "gray") {
        Some((128, 128, 128))
    } else if is_name(name, "green") {
        Some((0, 128, 0))
    } else if is_name(name, "greenyellow") {
        Some((173, 255, 47))
    } else if is_name(name, "grey") {
        Some((128, 128, 128))
    } else {
        None
    }
}

/// The colours whose names start with `h`.
pub open spec fn names_h(name: Seq<char>) -> Option<Rgb> {
    if name == "honeydew"@ {
        Some((240u8, 255u8, 240u8))
    } else if name == "hotpink"@ {
        Some((255u8, 105u8, 180u8))
    } else {
        None
    }
}

fn find_h(name: &[char]) -> (r: Option<Rgb>)
    ensures
        r == names_h(name@),
{
    if is_name(name, "honeydew") {
        Some((240, 255, 240))
    } else if is_name(name, "hotpink") {
        Some((255, 105, 180))
    } else {
        None
    }
}

/// The colours whose names start with `i`.
pub open spec fn names_i(name: Seq<char>) -> Option<Rgb> {
    if name == "indianred"@ {
        Some((205u8, 92u8, 92u8))
    } else if name == "indigo"@ {
        Some((75u8, 0u8, 130u8))
    } else if name == "ivory"@ {
        Some((255u8, 255u8, 240u8))
    } else {
        None
    }
}

fn find_i(name: &[char]) -> (r: Option<Rgb>)
    ensures
        r == names_i(name@),
{
    if is_name(name, "indianred") {
        Some((205, 92, 92))
    } else if is_name(name, "indigo") {
        Some((75, 0, 130))
    } else if is_name(name, "ivory") {
        Some((255, 255, 240))
    } else {
        None
    }
}

/// The colours whose names start with `k`.
pub open spec fn names_k(name: Seq<char>) -> Option<Rgb> {
    if name == "khaki"@ {
        Some((240u8, 230u8, 140u8))
    } else {
        None
    }
}

fn find_k(name: &[char]) -> (r: Option<Rgb>)
    ensures
        r == names_k(name@),
{
    if is_name(name, "khaki") {
        Some((240, 230, 140))
    } else {
        None
    }
}

/// The colours whose names start with `l`.
pub open spec fn names_l(name: Seq<char>) -> Option<Rgb> {
    if name == "lavender"@ {
        Some((230u8, 230u8, 250u8))
    } else if name == "lavenderblush"@ {
        Some((255u8, 240u8, 245u8))
    } else if name == "lawngreen"@ {
        Some((124u8, 252u8, 0u8))
    } else if name == "lemonchiffon"@ {
        Some((255u8, 250u8, 205u8))
    } else if name == "lightblue"@ {
        Some((173u8, 216u8, 230u8))
    } else if name == "lightcoral"@ {
        Some((240u8, 128u8, 128u8))
    } else if name == "lightcyan"@ {
        Some((224u8, 255u8, 255u8))
    } else if name == "lightgoldenrodyellow"@ {
        Some((250u8, 250u8, 210u8))
    } else if name == "lightgray"@ {
        Some((211u8, 211u8, 211u8))
    } else if name == "lightgreen"@ {
        Some((144u8, 238u8, 144u8))
    } else if name == "lightgrey"@ {
        Some((211u8, 211u8, 211u8))
    } else if name == "lightpink"@ {
        Some((255u8, 182u8, 193u8))
    } else if name == "lightsalmon"@ {
        Some((255u8, 160u8, 122u8))
    } else if name == "lightseagreen"@ {
        Some((32u8, 178u8, 170u8))
    } else if name == "lightskyblue"@ {
        Some((135u8, 206u8, 250u8))
    } else if name == "lightslategray"@ {
        Some((119u8, 136u8, 153u8))
    } else if name == "lightslategrey"@ {
        Some((119u8, 136u8, 153u8))
    } else if name == "lightsteelblue"@ {
        Some((176u8, 196u8, 222u8))
    } else if name == "lightyellow"@ {
        Some((255u8, 255u8, 224u8))
    } else if name == "lime"@ {
        Some((0u8, 255u8, 0u8))
    } else if name == "limegreen"@ {
        Some((50u8, 205u8, 50u8))
    } else if name == "linen"@ {
        Some((250u8, 240u8, 230u8))
    } else {
        None
    }
}

fn find_l(name: &[char]) -> (r: Option<Rgb>)
    ensures
        r == names_l(name@),
{
    if is_name(name, "lavender") {
        Some((230, 230, 250))
    } else if is_name(name, "lavenderblush") {
        Some((255, 240, 245))
    } else if is_name(name, "lawngreen") {
        Some((124, 252, 0))
    } else if is_name(name, "lemonchiffon") {
        Some((255, 250, 205))
    } else if is_name(name, "lightblue") {
        Some((173, 216, 230))
    } else if is_name(name, "lightcoral") {
        Some((240, 128, 128))
    } else if is_name(name, "lightcyan") {
        Some((224, 255, 255))
    } else if is_name(name, "lightgoldenrodyellow") {
        Some((250, 250, 210))
    } else if is_name(name, "lightgray") {
        Some((211, 211, 211))
    } else if is_name(name, "lightgreen") {
        Some((144, 238, 144))
    } else if is_name(name, "lightgrey") {
        Some((211, 211, 211))
    } else if is_name(name, "lightpink") {
        Some((255, 182, 193))
    } else if is_name(name, "lightsalmon") {
        Some((255, 160, 122))
    } else if is_name(name, "lightseagreen") {
        Some((32, 178, 170))
    } else if is_name(name, "lightskyblue") {
        Some((135, 206, 250))
    } else if is_name(name, "lightslategray") {
        Some((119, 136, 153))
    } else if is_name(name, "lightslategrey") {
        Some((119, 136, 153))
    } else if is_name(name, "lightsteelblue") {
        Some((176, 196, 222))
    } else if is_name(name, "lightyellow") {
        Some((255, 255, 224))
    } else if is_name(name, "lime") {
        Some((0, 255, 0))
    } else if is_name(name, "limegreen") {
        Some((50, 205, 50))
    } else if is_name(name, "linen") {
        Some((250, 240, 230))
    } else {
        None
    }
}

/// The colours whose names start with `m`.
pub open spec fn names_m(name: Seq<char>) -> Option<Rgb> {
    if name == "magenta"@ {
        Some((255u8, 0u8, 255u8))
    } else if name == "maroon"@ {
        Some((128u8, 0u8, 0u8))
    } else if name == "mediumaquamarine"@ {
        Some((102u8, 205u8, 170u8))
    } else if name == "mediumblue"@ {
        Some((0u8, 0u8, 205u8))
    } else if name == "mediumorchid"@ {
        Some((186u8, 85u8, 211u8))
    } else if name == "mediumpurple"@ {
        Some((147u8, 112u8, 219u8))
    } else if name == "mediumseagreen"@ {
        Some((60u8, 179u8, 113u8))
    } else if name == "mediumslateblue"@ {
        Some((123u8, 104u8, 238u8))
    } else if name == "mediumspringgreen"@ {
        Some((0u8, 250u8, 154u8))
    } else if name == "mediumturquoise"@ {
        Some((72u8, 209u8, 204u8))
    } else if name == "mediumvioletred"@ {
        Some((199u8, 21u8, 133u8))
    } else if name == "midnightblue"@ {
        Some((25u8, 25u8, 112u8))
    } else if name == "mintcream"@ {
        Some((245u8, 255u8, 250u8))
    } else if name == "mistyrose"@ {
        Some((255u8, 228u8, 225u8))
    } else if name == "moccasin"@ {
        Some((255u8, 228u8, 181u8))
    } else {
        None
    }
}

fn find_m(name: &[char]) -> (r: Option<Rgb>)
    ensures
        r == names_m(name@),
{
    if is_name(name, "magenta") {
        Some((255, 0, 255))
    } else if is_name(name, "maroon") {
        Some((128, 0, 0))
    } else if is_name(name, "mediumaquamarine") {
        Some((102, 205, 170))
    } else if is_name(name, "mediumblue") {
        Some((0, 0, 205))
    } else if is_name(name, "mediumorchid") {
        Some((186, 85, 211))
    } else if is_name(name, "mediumpurple") {
        Some((147, 112, 219))
    } else if is_name(name, "mediumseagreen") {
        Some((60, 179, 113))
    } else if is_name(name, "mediumslateblue") {
        Some((123, 104, 238))
    } else if is_name(name, "mediumspringgreen") {
        Some((0, 250, 154))
    } else if is_name(name, "mediumturquoise") {
        Some((72, 209, 204))
    } else if is_name(name, "mediumvioletred") {
        Some((199, 21, 133))
    } else if is_name(name, "midnightblue") {
        Some((25, 25, 112))
    } else if is_name(name, "mintcream") {
        Some((245, 255, 250))
    } else if is_name(name, "mistyrose") {
        Some((255, 228, 225))
    } else if is_name(name, "moccasin") {
        Some((255, 228, 181))
    } else {
        None
    }
}

/// The colours whose names start with `n`.
pub open spec fn names_n(name: Seq<char>) -> Option<Rgb> {
    if name == "navajowhite"@ {
        Some((255u8, 222u8, 173u8))
    } else if name == "navy"@ {
        Some((0u8, 0u8, 128u8))
    } else {
        None
    }
}

fn find_n(name: &[char]) -> (r: Option<Rgb>)
    ensures
        r == names_n(name@),
{
    if is_name(name, "navajowhite") {
        Some((255, 222, 173))
    } else if is_name(name, "navy") {
        Some((0, 0, 128))
    } else {
        None
    }
}

/// The colours whose names start with `o`.
pub open spec fn names_o(name: Seq<char>) -> Option<Rgb> {
    if name == "oldlace"@ {
        Some((253u8, 245u8, 230u8))
    } else if name == "olive"@ {
        Some((128u8, 128u8, 0u8))
    } else if name == "olivedrab"@ {
        Some((107u8, 142u8, 35u8))
    } else if name == "orange"@ {
        Some((255u8, 165u8, 0u8))
    } else if name == "orangered"@ {
        Some((255u8, 69u8, 0u8))
    } else if name == "orchid"@ {
        Some((218u8, 112u8, 214u8))
    } else {
        None
    }
}

fn find_o(name: &[char]) -> (r: Option<Rgb>)
    ensures
        r == names_o(name@),
{
    if is_name(name, "oldlace") {
        Some((253, 245, 230))
    } else if is_name(name, "olive") {
        Some((128, 128, 0))
    } else if is_name(name, "olivedrab") {
        Some((107, 142, 35))
    } else if is_name(name, "orange") {
        Some((255, 165, 0))
    } else if is_name(name, "orangered") {
        Some((255, 69, 0))
    } else if is_name(name, "orchid") {
        Some((218, 112, 214))
    } else {
        None
    }
}

/// The colours whose names start with `p`.
pub open spec fn names_p(name: Seq<char>) -> Option<Rgb> {
    if name == "palegoldenrod"@ {
        Some((238u8, 232u8, 170u8))
    } else if name == "palegreen"@ {
        Some((152u8, 251u8, 152u8))
    } else if name == "paleturquoise"@ {
        Some((175u8, 238u8, 238u8))
    } else if name == "palevioletred"@ {
        Some((219u8, 112u8, 147u8))
    } else if name == "papayawhip"@ {
        Some((255u8, 239u8, 213u8))
    } else if name == "peachpuff"@ {
        Some((255u8, 218u8, 185u8))
    } else if name == "peru"@ {
        Some((205u8, 133u8, 63u8))
    } else if name == "pink"@ {
        Some((255u8, 192u8, 203u8))
    } else if name == "plum"@ {
        Some((221u8, 160u8, 221u8))
    } else if name == "powderblue"@ {
        Some((176u8, 224u8, 230u8))
    } else if name == "purple"@ {
        Some((128u8, 0u8, 128u8))
    } else {
        None
    }
}

fn find_p(name: &[char]) -> (r: Option<Rgb>)
    ensures
        r == names_p(name@),
{
    if is_name(name, "palegoldenrod") {
        Some((238, 232, 170))
    } else if is_name(name, "palegreen") {
        Some((152, 251, 152))
    } else if is_name(name, "paleturquoise") {
        Some((175, 238, 238))
    } else if is_name(name, "palevioletred") {
        Some((219, 112, 147))
    } else if is_name(name, "papayawhip") {
        Some((255, 239, 213))
    } else if is_name(name, "peachpuff") {
        Some((255, 218, 185))
    } else if is_name(name, "peru") {
        Some((205, 133, 63))
    } else if is_name(name, "pink") {
        Some((255, 192, 203))
    } else if is_name(name, "plum") {
        Some((221, 160, 221))
    } else if is_name(name, "powderblue") {
        Some((176, 224, 230))
    } else if is_name(name, "purple") {
        Some((128, 0, 128))
    } else {
        None
    }
}

/// The colours whose names start with `r`.
pub open spec fn names_r(name: Seq<char>) -> Option<Rgb> {
    if name == "red"@ {
        Some((255u8, 0u8, 0u8))
    } else if name == "rosybrown"@ {
        Some((188u8, 143u8, 143u8))
    } else if name == "royalblue"@ {
        Some((65u8, 105u8, 225u8))
    } else {
        None
    }
}

fn find_r(name: &[char]) -> (r: Option<Rgb>)
    ensures
        r == names_r(name@),
{
    if is_name(name, "red") {
        Some((255, 0, 0))
    } else if is_name(name, "rosybrown") {
        Some((188, 143, 143))
    } else if is_name(name, "royalblue") {
        Some((65, 105, 225))
    } else {
        None
    }
}

/// The colours whose names start with `s`.
pub open spec fn names_s(name: Seq<char>) -> Option<Rgb> {
    if name == "saddlebrown"@ {
        Some((139u8, 69u8, 19u8))
    } else if name == "salmon"@ {
        Some((250u8, 128u8, 114u8))
    } else if name == "sandybrown"@ {
        Some((244u8, 164u8, 96u8))
    } else if name == "seagreen"@ {
        Some((46u8, 139u8, 87u8))
    } else if name == "seashell"@ {
        Some((255u8, 245u8, 238u8))
    } else if name == "sienna"@ {
        Some((160u8, 82u8, 45u8))
    } else if name == "silver"@ {
        Some((192u8, 192u8, 192u8))
    } else if name == "skyblue"@ {
        Some((135u8, 206u8, 235u8))
    } else if name == "slateblue"@ {
        Some((106u8, 90u8, 205u8))
    } else if name == "slategray"@ {
        Some((112u8, 128u8, 144u8))
    } else if name == "slategrey"@ {
        Some((112u8, 128u8, 144u8))
    } else if name == "snow"@ {
        Some((255u8, 250u8, 250u8))
    } else if name == "springgreen"@ {
        Some((0u8, 255u8, 127u8))
    } else if name == "steelblue"@ {
        Some((70u8, 130u8, 180u8))
    } else {
        None
    }
}

fn find_s(name: &[char]) -> (r: Option<Rgb>)
    ensures
        r == names_s(name@),
{
    if is_name(name, "saddlebrown") {
        Some((139, 69, 19))
    } else if is_name(name, "salmon") {
        Some((250, 128, 114))
    } else if is_name(name, "sandybrown") {
        Some((244, 164, 96))
    } else if is_name(name, "seagreen") {
        Some((46, 139, 87))
    } else if is_name(name, "seashell") {
        Some((255, 245, 238))
    } else if is_name(name, "sienna") {
        Some((160, 82, 45))
    } else if is_name(name, "silver") {
        Some((192, 192, 192))
    } else if is_name(name, "skyblue") {
        Some((135, 206, 235))
    } else if is_name(name, "slateblue") {
        Some((106, 90, 205))
    } else if is_name(name, "slategray") {
        Some((112, 128, 144))
    } else if is_name(name, "slategrey") {
        Some((112, 128, 144))
    } else if is_name(name, "snow") {
        Some((255, 250, 250))
    } else if is_name(name, "springgreen") {
        Some((0, 255, 127))
    } else if is_name(name, "steelblue") {
        Some((70, 130, 180))
    } else {
        None
    }
}

/// The colours whose names start with `t`.
pub open spec fn names_t(name: Seq<char>) -> Option<Rgb> {
    if name == "tan"@ {
        Some((210u8, 180u8, 140u8))
    } else if name == "teal"@ {
        Some((0u8, 128u8, 128u8))
    } else if name == "thistle"@ {
        Some((216u8, 191u8, 216u8))
    } else if name == "tomato"@ {
        Some((255u8, 99u8, 71u8))
    } else if name == "turquoise"@ {
        Some((64u8, 224u8, 208u8))
    } else {
        None
    }
}

fn find_t(name: &[char]) -> (r: Option<Rgb>)
    ensures
        r == names_t(name@),
{
    if is_name(name, "tan") {
        Some((210, 180, 140))
    } else if is_name(name, "teal") {
        Some((0, 128, 128))
    } else if is_name(name, "thistle") {
        Some((216, 191, 216))
    } else if is_name(name, "tomato") {
        Some((255, 99, 71))
    } else if is_name(name, "turquoise") {
        Some((64, 224, 208))
    } else {
        None
    }
}

/// The colours whose names start with `v`.
pub open spec fn names_v(name: Seq<char>) -> Option<Rgb> {
    if name == "violet"@ {
        Some((238u8, 130u8, 238u8))
    } else {
        None
    }
}

fn find_v(name: &[char]) -> (r: Option<Rgb>)
    ensures
        r == names_v(name@),
{
    if is_name(name, "violet") {
        Some((238, 130, 238))
    } else {
        None
    }
}

/// The colours whose names start with `w`.
pub open spec fn names_w(name: Seq<char>) -> Option<Rgb> {
    if name == "wheat"@ {
        Some((245u8, 222u8, 179u8))
    } else if name == "white"@ {
        Some((255u8, 255u8, 255u8))
    } else if name == "whitesmoke"@ {
        Some((245u8, 245u8, 245u8))
    } else {
        None
    }
}

fn find_w(name: &[char]) -> (r: Option<Rgb>)
    ensures
        r == names_w(name@),
{
    if is_name(name, "wheat") {
        Some((245, 222, 179))
    } else if is_name(name, "white") {
        Some((255, 255, 255))
    } else if is_name(name, "whitesmoke") {
        Some((245, 245, 245))
    } else {
        None
    }
}

/// The colours whose names start with `y`.
pub open spec fn names_y(name: Seq<char>) -> Option<Rgb> {
    if name == "yellow"@ {
        Some((255u8, 255u8, 0u8))
    } else if name == "yellowgreen"@ {
        Some((154u8, 205u8, 50u8))
    } else {
        None
    }
}

fn find_y(name: &[char]) -> (r: Option<Rgb>)
    ensures
        r == names_y(name@),
{
    if is_name(name, "yellow") {
        Some((255, 255, 0))
    } else if is_name(name, "yellowgreen") {
        Some((154, 205, 50))
    } else {
        None
    }
}

/// The colour with the name `name`, among the names that the grammar knows.
pub open spec fn named_color(name: Seq<char>) -> Option<Rgb> {
    if names_a(name) is Some {
        names_a(name)
    } else if names_b(name) is Some {
        names_b(name)
    } else if names_c(name) is Some {
        names_c(name)
    } else if names_d(name) is Some {
        names_d(name)
    } else if names_f(name) is Some {
        names_f(name)
    } else if names_g(name) is Some {
        names_g(name)
    } else if names_h(name) is Some {
        names_h(name)
    } else if names_i(name) is Some {
        names_i(name)
    } else if names_k(name) is Some {
        names_k(name)
    } else if names_l(name) is Some {
        names_l(name)
    } else if names_m(name) is Some {
        names_m(name)
    } else if names_n(name) is Some {
        names_n(name)
    } else if names_o(name) is Some {
        names_o(name)
    } else if names_p(name) is Some {
        names_p(name)
    } else if names_r(name) is Some {
        names_r(name)
    } else if names_s(name) is Some {
        names_s(name)
    } else if names_t(name) is Some {
        names_t(name)
    } else if names_v(name) is Some {
        names_v(name)
    } else if names_w(name) is Some {
        names_w(name)
    } else if names_y(name) is Some {
        names_y(name)
    } else {
        None
    }
}

fn find_name(name: &[char]) -> (r: Option<Rgb>)
    ensures
        r == named_color(name@),
{
    let found = find_a(name);
    if found.is_some() {
        return found;
    }
    let found = find_b(name);
    if found.is_some() {
        return found;
    }
    let found = find_c(name);
    if found.is_some() {
        return found;
    }
    let found = find_d(name);
    if found.is_some() {
        return found;
    }
    let found = find_f(name);
    if found.is_some() {
        return found;
    }
    let found = find_g(name);
    if found.is_some() {
        return found;
    }
    let found = find_h(name);
    if found.is_some() {
        return found;
    }
    let found = find_i(name);
    if found.is_some() {
        return found;
    }
    let found = find_k(name);
    if found.is_some() {
        return found;
    }
    let found = find_l(name);
    if found.is_some() {
        return found;
    }
    let found = find_m(name);
    if found.is_some() {
        return found;
    }
    let found = find_n(name);
    if found.is_some() {
        return found;
    }
    let found = find_o(name);
    if found.is_some() {
        return found;
    }
    let found = find_p(name);
    if found.is_some() {
        return found;
    }
    let found = find_r(name);
    if found.is_some() {
        return found;
    }
    let found = find_s(name);
    if found.is_some() {
        return found;
    }
    let found = find_t(name);
    if found.is_some() {
        return found;
    }
    let found = find_v(name);
    if found.is_some() {
        return found;
    }
    let found = find_w(name);
    if found.is_some() {
        return found;
    }
    let found = find_y(name);
    if found.is_some() {
        return found;
    }
    None
}

/// The colour whose name the letters at the start of `s` spell, and the place after them.
pub open spec fn color_name_spec(s: Seq<char>) -> Option<(Color, int)> {
    let end = letters_end(s, 0);
    if end > 0 {
        match named_color(s.subrange(0, end)) {
            Some((r, g, b)) => Some((Color::from_srgb_u8_spec(r, g, b), end)),
            None => None,
        }
    } else {
        None
    }
}

fn color_name(s: &[char]) -> (r: Option<(Color, usize)>)
    ensures
        match r {
            Some((c, end)) => color_name_spec(s@) == Some((c, end as int)) && end <= s@.len(),
            None => color_name_spec(s@) is None,
        },
{
    let end = scan_letters(s, 0);
    if end > 0 {
        let name = vstd::slice::slice_subrange(s, 0, end);
        match find_name(name) {
            Some((r, g, b)) => Some((Color::from_srgb_u8(r, g, b), end)),
            None => None,
        }
    } else {
        None
    }
}

/// The colour at the start of `s`, and the place after it: the first of `#rrggbb`, `#rgb`,
/// `rgb(r,g,b)`, `rgb(r%,g%,b%)` and a name that is found there.
pub open spec fn color_spec(s: Seq<char>) -> Option<(Color, int)> {
    if hex_color_spec(s) is Some {
        hex_color_spec(s)
    } else if short_hex_color_spec(s) is Some {
        short_hex_color_spec(s)
    } else if rgb_color_spec(s) is Some {
        rgb_color_spec(s)
    } else if rgb_percent_color_spec(s) is Some {
        rgb_percent_color_spec(s)
    } else {
        color_name_spec(s)
    }
}

/// Reads the colour at the start of `s`.
pub fn color_at(s: &[char]) -> (r: Option<(Color, usize)>)
    ensures
        match r {
            Some((c, end)) => color_spec(s@) == Some((c, end as int)) && end <= s@.len(),
            None => color_spec(s@) is None,
        },
{
    let found = hex_color(s);
    if found.is_some() {
        return found;
    }
    let found = short_hex_color(s);
    if found.is_some() {
        return found;
    }
    let found = rgb_color(s);
    if found.is_some() {
        return found;
    }
    let found = rgb_percent_color(s);
    if found.is_some() {
        return found;
    }
    color_name(s)
}

/// Reads the colour at the start of `i`. Gives what follows it, and the colour.
pub fn color(i: &str) -> (r: Result<(&str, Color), ()>)
    ensures
        match r {
            Ok((rest, c)) => color_spec(i@) matches Some(found) && found.0 == c && rest@
                == i@.subrange(found.1, i@.len() as int),
            Err(_) => color_spec(i@) is None,
        },
{
    let s = to_chars(i);
    match color_at(s.as_slice()) {
        Some((c, end)) => Ok((i.substring_char(end, s.len()), c)),
        None => Err(()),
    }
}

} // verus!
