//! Character encodings of fonts: single-byte encodings as tables from bytes to characters,
//! the tables the other way round, and transcoders that take code points from one encoding
//! to another.
//!
//! The tables themselves are data that the caller provides: a [`ForwardMap`] is made from
//! the 256 characters of an encoding, and an [`EncodingTables`] holds one for each encoding
//! that has one.

use std::collections::HashMap;
use vstd::prelude::*;

verus! {

broadcast use vstd::std_specs::hash::group_hash_axioms;

/// The encodings between which text can be translated.
#[derive(Eq, PartialEq, Structural, Hash, Copy, Clone, Debug)]
pub enum Encoding {
    Unicode,
    AdobeStandard,
    AdobeExpert,
    AdobeSymbol,
    AdobeZdingbat,
    WinAnsiEncoding,
    MacRomanEncoding,
}

/// A character that a byte of an encoding stands for. It is never the character zero.
#[derive(Copy, Clone, Debug)]
pub struct Entry {
    c: char,
}

impl Entry {
    #[verifier::type_invariant]
    spec fn is_no_zero(self) -> bool {
        self.c != '\0'
    }

    /// The character.
    pub closed spec fn char_spec(&self) -> char {
        self.c
    }

    /// The entry for the character `c`; none for the character zero.
    pub fn new(c: char) -> (r: Option<Entry>)
        ensures
            match r {
                Some(e) => c != '\0' && e.char_spec() == c,
                None => c == '\0',
            },
    {
        if c == '\0' {
            None
        } else {
            Some(Entry { c })
        }
    }

    pub fn as_char(&self) -> (r: char)
        ensures
            r == self.char_spec(),
            r != '\0',
    {
        proof {
            use_type_invariant(self);
        }
        self.c
    }

    pub fn as_u32(&self) -> (r: u32)
        ensures
            r == self.char_spec() as u32,
            r != 0,
    {
        proof {
            use_type_invariant(self);
        }
        self.c as u32
    }
}

/// The entry for the character `c`; none for the character zero.
pub fn c(ch: char) -> (r: Option<Entry>)
    ensures
        match r {
            Some(e) => ch != '\0' && e.char_spec() == ch,
            None => ch == '\0',
        },
{
    Entry::new(ch)
}

/// The character of an optional entry.
pub open spec fn entry_char(e: Option<Entry>) -> Option<char> {
    match e {
        Some(e) => Some(e.char_spec()),
        None => None,
    }
}

/// An encoding as a table: for each byte the character it stands for, if any.
#[derive(Clone, Debug)]
pub struct ForwardMap {
    pub entries: Vec<Option<Entry>>,
}

impl ForwardMap {
    /// The character that the byte `codepoint` stands for.
    pub open spec fn char_at(&self, codepoint: u8) -> Option<char> {
        if (codepoint as int) < self.entries@.len() {
            entry_char(self.entries@[codepoint as int])
        } else {
            None
        }
    }

    /// The table in which each byte stands for the character at its place in `chars`; the
    /// character zero, and a place beyond the end of `chars`, stand for no character.
    pub fn new(chars: &[char]) -> (r: ForwardMap)
        ensures
            forall|b: u8|
                #[trigger] r.char_at(b) == (if (b as int) < chars@.len() && chars@[b as int] != '\0' {
                    Some(chars@[b as int])
                } else {
                    None
                }),
    {
        let mut entries: Vec<Option<Entry>> = Vec::new();
        let mut i: usize = 0;
        while i < chars.len() && i < 256
            invariant
                i <= chars@.len(),
                i <= 256,
                entries@.len() == i,
                forall|j: int|
                    0 <= j < i ==> entry_char(#[trigger] entries@[j]) == (if chars@[j] != '\0' {
                        Some(chars@[j])
                    } else {
                        None
                    }),
            decreases chars@.len() - i,
        {
            entries.push(Entry::new(chars[i]));
            i = i + 1;
        }
        ForwardMap { entries }
    }

    /// The character that the byte `codepoint` stands for.
    pub fn get(&self, codepoint: u8) -> (r: Option<char>)
        ensures
            r == self.char_at(codepoint),
    {
        if (codepoint as usize) < self.entries.len() {
            match &self.entries[codepoint as usize] {
                Some(e) => Some(e.as_char()),
                None => None,
            }
        } else {
            None
        }
    }
}

/// Whether the pairs are in the order of their characters.
pub open spec fn sorted(pairs: Seq<(u32, u8)>) -> bool {
    forall|i: int, j: int| 0 <= i < j < pairs.len() ==> pairs[i].0 <= pairs[j].0
}

/// An encoding the other way round: pairs of a character and the byte that stands for it,
/// in the order of the characters.
#[derive(Debug)]
pub struct ReverseMap {
    chars: Vec<(u32, u8)>,
}

impl ReverseMap {
    #[verifier::type_invariant]
    spec fn is_sorted(self) -> bool {
        sorted(self.chars@)
    }

    /// The pairs of the table.
    pub closed spec fn pairs(&self) -> Seq<(u32, u8)> {
        self.chars@
    }

    /// Whether the table holds exactly the pairs of a character and a byte that stands for
    /// it in `forward`.
    pub open spec fn inverts(&self, forward: &ForwardMap) -> bool {
        forall|c: u32, b: u8|
            #![trigger self.pairs().contains((c, b))]
            self.pairs().contains((c, b)) <==> (forward.char_at(b) matches Some(ch) && ch as u32
                == c)
    }

    /// The table `forward` the other way round.
    pub fn new(forward: &ForwardMap) -> (r: ReverseMap)
        ensures
            r.inverts(forward),
    {
        let mut chars: Vec<(u32, u8)> = Vec::new();
        let mut b: usize = 0;
        while b < 256
            invariant
                b <= 256,
                sorted(chars@),
                forall|i: int|
                    0 <= i < chars@.len() ==> (#[trigger] chars@[i]).1 < b && (forward.char_at(
                        chars@[i].1,
                    ) matches Some(ch) && ch as u32 == chars@[i].0),
                forall|x: u8|
                    #![trigger forward.char_at(x)]
                    (x as int) < b && forward.char_at(x) is Some ==> chars@.contains(
                        (forward.char_at(x)->0 as u32, x),
                    ),
            decreases 256 - b,
        {
            let byte: u8 = b as u8;
            match forward.get(byte) {
                Some(ch) => {
                    let code: u32 = ch as u32;
                    let mut p: usize = 0;
                    while p < chars.len() && chars[p].0 <= code
                        invariant
                            p <= chars@.len(),
                            forall|i: int| 0 <= i < p ==> (#[trigger] chars@[i]).0 <= code,
                        decreases chars@.len() - p,
                    {
                        p = p + 1;
                    }
                    let ghost before = chars@;
                    chars.insert(p, (code, byte));
                    proof {
                        assert forall|i: int, j: int| 0 <= i < j < chars@.len() implies chars@[i].0
                            <= chars@[j].0 by {
                            if i < p && j > p {
                                assert(chars@[i] == before[i]);
                                assert(chars@[j] == before[j - 1]);
                            }
                        }
                        assert forall|x: u8|
                            #![trigger forward.char_at(x)]
                            (x as int) < b + 1 && forward.char_at(x) is Some implies chars@.contains(
                            (forward.char_at(x)->0 as u32, x),
                        ) by {
                            let o = forward.char_at(x)->0;
                            if x == byte {
                                assert(chars@[p as int] == (code, byte));
                            } else {
                                assert(before.contains((o as u32, x)));
                                let i = choose|i: int| 0 <= i < before.len() && before[i] == (o as u32, x);
                                if i < p {
                                    assert(chars@[i] == before[i]);
                                } else {
                                    assert(chars@[i + 1] == before[i]);
                                }
                            }
                        }
                        assert forall|i: int| 0 <= i < chars@.len() implies (#[trigger] chars@[i]).1 < b
                            + 1 && (forward.char_at(chars@[i].1) matches Some(o) && o as u32
                            == chars@[i].0) by {
                            if i < p {
                                assert(chars@[i] == before[i]);
                            } else if i > p {
                                assert(chars@[i] == before[i - 1]);
                            }
                        }
                    }
                },
                None => {},
            }
            b = b + 1;
        }
        let r = ReverseMap { chars };
        proof {
            assert forall|c: u32, x: u8| #![trigger r.pairs().contains((c, x))]
                r.pairs().contains((c, x)) <==> (forward.char_at(x) matches Some(ch) && ch as u32
                    == c) by {
                if r.pairs().contains((c, x)) {
                    let i = choose|i: int| 0 <= i < r.chars@.len() && r.chars@[i] == (c, x);
                    assert(r.chars@[i].1 == x);
                }
                if forward.char_at(x) matches Some(ch) && ch as u32 == c {
                    assert(r.chars@.contains((forward.char_at(x)->0 as u32, x)));
                }
            }
        }
        r
    }

    /// A byte that stands for the character `c`, if there is one.
    pub fn get(&self, c: u32) -> (r: Option<u8>)
        ensures
            match r {
                Some(b) => self.pairs().contains((c, b)),
                None => forall|b: u8| !self.pairs().contains((c, b)),
            },
    {
        proof {
            use_type_invariant(self);
        }
        let mut lo: usize = 0;
        let mut hi: usize = self.chars.len();
        while lo < hi
            invariant
                lo <= hi <= self.chars@.len(),
                sorted(self.chars@),
                forall|i: int| 0 <= i < lo ==> (#[trigger] self.chars@[i]).0 < c,
                forall|i: int| hi <= i < self.chars@.len() ==> (#[trigger] self.chars@[i]).0 > c,
            decreases hi - lo,
        {
            let mid: usize = lo + (hi - lo) / 2;
            let key: u32 = self.chars[mid].0;
            if key < c {
                lo = mid + 1;
            } else if key == c {
                let b: u8 = self.chars[mid].1;
                proof {
                    assert(self.chars@[mid as int] == (c, b));
                }
                return Some(b);
            } else {
                hi = mid;
            }
        }
        proof {
            assert forall|b: u8| !self.pairs().contains((c, b)) by {
                if self.pairs().contains((c, b)) {
                    let i = choose|i: int| 0 <= i < self.chars@.len() && self.chars@[i] == (c, b);
                    assert(self.chars@[i].0 == c);
                }
            }
        }
        None
    }
}

/// Takes code points from one encoding to another.
#[derive(Clone, Copy, Debug)]
pub enum Transcoder<'a> {
    /// Both encodings are the same.
    Id,
    /// From an encoding to Unicode.
    Forward(&'a ForwardMap),
    /// From Unicode to an encoding.
    Reverse(&'a ReverseMap),
    /// From one encoding to Unicode and on to another.
    Both(&'a ForwardMap, &'a ReverseMap),
}

impl<'a> Transcoder<'a> {
    /// Whether the transcoder may take the code point `from` to `to`: the same code point; the
    /// character that the byte `from` stands for; a byte that stands for the character
    /// `from`; or a byte that stands for the character that the byte `from` stands for.
    pub open spec fn translates(&self, from: u32, to: u32) -> bool {
        match *self {
            Transcoder::Id => to == from,
            Transcoder::Forward(forward) => from < 256 && (forward.char_at(from as u8) matches Some(
                ch,
            ) && ch as u32 == to),
            Transcoder::Reverse(reverse) => to < 256 && reverse.pairs().contains((from, to as u8)),
            Transcoder::Both(forward, reverse) => from < 256 && to < 256 && (forward.char_at(
                from as u8,
            ) matches Some(ch) && reverse.pairs().contains((ch as u32, to as u8))),
        }
    }

    /// Whether the transcoder can take the code point `from` anywhere.
    pub open spec fn can_translate(&self, from: u32) -> bool {
        exists|to: u32| self.translates(from, to)
    }

    /// Where the transcoder takes the code point `codepoint`, if anywhere.
    pub fn translate(&self, codepoint: u32) -> (r: Option<u32>)
        ensures
            match r {
                Some(to) => self.translates(codepoint, to),
                None => !self.can_translate(codepoint),
            },
    {
        match self {
            Transcoder::Id => Some(codepoint),
            Transcoder::Forward(forward) => {
                if codepoint >= 256 {
                    return None;
                }
                match forward.get(codepoint as u8) {
                    Some(ch) => Some(ch as u32),
                    None => None,
                }
            },
            Transcoder::Reverse(reverse) => {
                match reverse.get(codepoint) {
                    Some(b) => Some(b as u32),
                    None => {
                        proof {
                            assert forall|to: u32| !self.translates(codepoint, to) by {
                                if to < 256 {
                                    assert(!reverse.pairs().contains((codepoint, to as u8)));
                                }
                            }
                        }
                        None
                    },
                }
            },
            Transcoder::Both(forward, reverse) => {
                if codepoint >= 256 {
                    return None;
                }
                match forward.get(codepoint as u8) {
                    Some(ch) => match reverse.get(ch as u32) {
                        Some(b) => Some(b as u32),
                        None => {
                            proof {
                                assert forall|to: u32| !self.translates(codepoint, to) by {
                                    if to < 256 {
                                        assert(!reverse.pairs().contains((ch as u32, to as u8)));
                                    }
                                }
                            }
                            None
                        },
                    },
                    None => None,
                }
            },
        }
    }
}

/// The tables of the encodings that have one, both ways.
#[derive(Debug)]
pub struct EncodingTables {
    pub standard: ForwardMap,
    pub expert: ForwardMap,
    pub symbol: ForwardMap,
    pub zdingbat: ForwardMap,
    pub winansi: ForwardMap,
    pub macroman: ForwardMap,
    pub unicode_to_standard: ReverseMap,
    pub unicode_to_expert: ReverseMap,
    pub unicode_to_symbol: ReverseMap,
    pub unicode_to_zdingbat: ReverseMap,
    pub unicode_to_winansi: ReverseMap,
    pub unicode_to_macroman: ReverseMap,
}

impl EncodingTables {
    /// Whether each table from Unicode is the table of its encoding the other way round.
    pub open spec fn well_formed(&self) -> bool {
        &&& self.unicode_to_standard.inverts(&self.standard)
        &&& self.unicode_to_expert.inverts(&self.expert)
        &&& self.unicode_to_symbol.inverts(&self.symbol)
        &&& self.unicode_to_zdingbat.inverts(&self.zdingbat)
        &&& self.unicode_to_winansi.inverts(&self.winansi)
        &&& self.unicode_to_macroman.inverts(&self.macroman)
    }

    /// The tables for the given encodings, with the tables the other way round made from
    /// them.
    pub fn new(
        standard: ForwardMap,
        expert: ForwardMap,
        symbol: ForwardMap,
        zdingbat: ForwardMap,
        winansi: ForwardMap,
        macroman: ForwardMap,
    ) -> (r: EncodingTables)
        ensures
            r.well_formed(),
            r.standard == standard,
            r.expert == expert,
            r.symbol == symbol,
            r.zdingbat == zdingbat,
            r.winansi == winansi,
            r.macroman == macroman,
    {
        let unicode_to_standard = ReverseMap::new(&standard);
        let unicode_to_expert = ReverseMap::new(&expert);
        let unicode_to_symbol = ReverseMap::new(&symbol);
        let unicode_to_zdingbat = ReverseMap::new(&zdingbat);
        let unicode_to_winansi = ReverseMap::new(&winansi);
        let unicode_to_macroman = ReverseMap::new(&macroman);
        EncodingTables {
            standard,
            expert,
            symbol,
            zdingbat,
            winansi,
            macroman,
            unicode_to_standard,
            unicode_to_expert,
            unicode_to_symbol,
            unicode_to_zdingbat,
            unicode_to_winansi,
            unicode_to_macroman,
        }
    }
}

impl Encoding {
    /// The table of the encoding among `tables`; Unicode has none.
    pub open spec fn forward_map_spec(self, tables: &EncodingTables) -> Option<ForwardMap> {
        match self {
            Encoding::AdobeStandard => Some(tables.standard),
            Encoding::AdobeExpert => Some(tables.expert),
            Encoding::AdobeSymbol => Some(tables.symbol),
            Encoding::AdobeZdingbat => Some(tables.zdingbat),
            Encoding::WinAnsiEncoding => Some(tables.winansi),
            Encoding::MacRomanEncoding => Some(tables.macroman),
            Encoding::Unicode => None,
        }
    }

    /// The table from Unicode to the encoding among `tables`; Unicode has none.
    pub open spec fn reverse_map_spec(self, tables: &EncodingTables) -> Option<ReverseMap> {
        match self {
            Encoding::AdobeStandard => Some(tables.unicode_to_standard),
            Encoding::AdobeExpert => Some(tables.unicode_to_expert),
            Encoding::AdobeSymbol => Some(tables.unicode_to_symbol),
            Encoding::AdobeZdingbat => Some(tables.unicode_to_zdingbat),
            Encoding::WinAnsiEncoding => Some(tables.unicode_to_winansi),
            Encoding::MacRomanEncoding => Some(tables.unicode_to_macroman),
            Encoding::Unicode => None,
        }
    }

    /// The transcoder from this encoding to `dest`: none between two different encodings of
    /// which one has no table.
    pub open spec fn to_spec<'a>(self, dest: Encoding, tables: &'a EncodingTables) -> Option<
        Transcoder<'a>,
    > {
        if self == dest {
            Some(Transcoder::Id)
        } else if dest == Encoding::Unicode {
            match self.forward_map_spec(tables) {
                Some(f) => Some(Transcoder::Forward(&f)),
                None => None,
            }
        } else if self == Encoding::Unicode {
            match dest.reverse_map_spec(tables) {
                Some(r) => Some(Transcoder::Reverse(&r)),
                None => None,
            }
        } else {
            match (self.forward_map_spec(tables), dest.reverse_map_spec(tables)) {
                (Some(f), Some(r)) => Some(Transcoder::Both(&f, &r)),
                _ => None,
            }
        }
    }

    /// The table of the encoding.
    pub fn forward_map<'a>(self, tables: &'a EncodingTables) -> (r: Option<&'a ForwardMap>)
        ensures
            match r {
                Some(f) => self.forward_map_spec(tables) == Some(*f),
                None => self.forward_map_spec(tables) is None,
            },
    {
        match self {
            Encoding::AdobeStandard => Some(&tables.standard),
            Encoding::AdobeExpert => Some(&tables.expert),
            Encoding::AdobeSymbol => Some(&tables.symbol),
            Encoding::AdobeZdingbat => Some(&tables.zdingbat),
            Encoding::WinAnsiEncoding => Some(&tables.winansi),
            Encoding::MacRomanEncoding => Some(&tables.macroman),
            Encoding::Unicode => None,
        }
    }

    /// The table from Unicode to the encoding.
    pub fn reverse_map<'a>(self, tables: &'a EncodingTables) -> (r: Option<&'a ReverseMap>)
        ensures
            match r {
                Some(m) => self.reverse_map_spec(tables) == Some(*m),
                None => self.reverse_map_spec(tables) is None,
            },
    {
        match self {
            Encoding::AdobeStandard => Some(&tables.unicode_to_standard),
            Encoding::AdobeExpert => Some(&tables.unicode_to_expert),
            Encoding::AdobeSymbol => Some(&tables.unicode_to_symbol),
            Encoding::AdobeZdingbat => Some(&tables.unicode_to_zdingbat),
            Encoding::WinAnsiEncoding => Some(&tables.unicode_to_winansi),
            Encoding::MacRomanEncoding => Some(&tables.unicode_to_macroman),
            Encoding::Unicode => None,
        }
    }

    /// The transcoder from this encoding to `dest`.
    pub fn to<'a>(self, dest: Encoding, tables: &'a EncodingTables) -> (r: Option<Transcoder<'a>>)
        ensures
            r == self.to_spec(dest, tables),
    {
        if self == dest {
            Some(Transcoder::Id)
        } else if dest == Encoding::Unicode {
            match self.forward_map(tables) {
                Some(f) => Some(Transcoder::Forward(f)),
                None => None,
            }
        } else if self == Encoding::Unicode {
            match dest.reverse_map(tables) {
                Some(r) => Some(Transcoder::Reverse(r)),
                None => None,
            }
        } else {
            match (self.forward_map(tables), dest.reverse_map(tables)) {
                (Some(f), Some(r)) => Some(Transcoder::Both(f, r)),
                _ => None,
            }
        }
    }
}

/// The name of a glyph and the text it stands for.
#[derive(Clone, Debug)]
pub struct GlyphName {
    pub name: String,
    pub unicode: String,
}

/// A list of glyph names. Of several entries with one name the first counts.
#[derive(Clone, Debug)]
pub struct GlyphList {
    pub entries: Vec<GlyphName>,
}

/// The text of the first entry from `from` on with the name `name`.
pub open spec fn glyph_lookup(entries: Seq<GlyphName>, name: Seq<char>, from: int) -> Option<Seq<char>>
    decreases entries.len() - from,
{
    if 0 <= from < entries.len() {
        if entries[from].name@ == name {
            Some(entries[from].unicode@)
        } else {
            glyph_lookup(entries, name, from + 1)
        }
    } else {
        None
    }
}

/// The view of an optional text.
pub open spec fn opt_str_view(s: Option<&str>) -> Option<Seq<char>> {
    match s {
        Some(s) => Some(s@),
        None => None,
    }
}

/// The text that the glyph with the name `name` stands for in `list`.
pub fn glyphname_to_unicode<'a>(list: &'a GlyphList, name: &str) -> (r: Option<&'a str>)
    ensures
        opt_str_view(r) == glyph_lookup(list.entries@, name@, 0),
{
    let key = name.to_owned();
    let mut i: usize = 0;
    while i < list.entries.len()
        invariant
            i <= list.entries@.len(),
            key@ == name@,
            glyph_lookup(list.entries@, name@, 0) == glyph_lookup(list.entries@, name@, i as int),
        decreases list.entries@.len() - i,
    {
        if list.entries[i].name == key {
            return Some(list.entries[i].unicode.as_str());
        }
        i = i + 1;
    }
    None
}

/// An encoding that differs from a base encoding: for each byte the text it stands for.
#[derive(Clone, Debug)]
pub struct DifferenceForwardMap(pub HashMap<u8, String>);

/// The text that the byte `b` stands for where the glyph names `names` differ from the
/// base encoding `base`: the text of the glyph that `names` gives for the byte, if it
/// gives one that `glyphs` knows; else the character of the base encoding, if there is one.
pub open spec fn difference_spec(
    base: Option<&ForwardMap>,
    names: Map<u32, String>,
    glyphs: Seq<GlyphName>,
    b: u8,
) -> Option<Seq<char>> {
    let named = if names.contains_key(b as u32) {
        glyph_lookup(glyphs, names[b as u32]@, 0)
    } else {
        None
    };
    match named {
        Some(text) => Some(text),
        None => match base {
            Some(forward) => match forward.char_at(b) {
                Some(ch) => Some(seq![ch]),
                None => None,
            },
            None => None,
        },
    }
}

impl DifferenceForwardMap {
    /// The text that the byte `codepoint` stands for.
    pub open spec fn text_at(&self, codepoint: u8) -> Option<Seq<char>> {
        if self.0@.contains_key(codepoint) {
            Some(self.0@[codepoint]@)
        } else {
            None
        }
    }

    /// The encoding that differs from `base_map` by the glyph names `glyp_mapping`: see
    /// [`difference_spec`].
    pub fn new(
        base_map: Option<&ForwardMap>,
        glyp_mapping: &HashMap<u32, String>,
        glyphs: &GlyphList,
    ) -> (r: DifferenceForwardMap)
        ensures
            forall|b: u8| #[trigger]
                r.text_at(b) == difference_spec(base_map, glyp_mapping@, glyphs.entries@, b),
    {
        let mut map: HashMap<u8, String> = HashMap::new();
        let mut i: usize = 0;
        while i < 256
            invariant
                i <= 256,
                forall|b: u8|
                    (b as int) < i ==> (if map@.contains_key(b) {
                        Some(map@[b]@)
                    } else {
                        None
                    }) == #[trigger] difference_spec(base_map, glyp_mapping@, glyphs.entries@, b),
                forall|b: u8| (b as int) >= i ==> !map@.contains_key(b),
            decreases 256 - i,
        {
            let b: u8 = i as u8;
            let key: u32 = b as u32;
            let named: Option<&str> = match glyp_mapping.get(&key) {
                Some(glyph_name) => glyphname_to_unicode(glyphs, glyph_name.as_str()),
                None => None,
            };
            let text: Option<String> = match named {
                Some(t) => Some(t.to_owned()),
                None => match base_map {
                    Some(forward) => match forward.get(b) {
                        Some(ch) => {
                            let mut s = String::new();
                            s.push(ch);
                            proof {
                                assert(s@ =~= seq![ch]);
                            }
                            Some(s)
                        },
                        None => None,
                    },
                    None => None,
                },
            };
            match text {
                Some(t) => {
                    map.insert(b, t);
                },
                None => {},
            }
            i = i + 1;
        }
        DifferenceForwardMap(map)
    }

    /// The text that the byte `codepoint` stands for.
    pub fn get(&self, codepoint: u8) -> (r: Option<&String>)
        ensures
            match r {
                Some(s) => self.text_at(codepoint) == Some(s@),
                None => self.text_at(codepoint) is None,
            },
    {
        self.0.get(&codepoint)
    }
}

} // verus!
