//! Camelot wheel notation for harmonic mixing.
//!
//! Maps musical keys to Camelot notation (1A-12B) and decides which keys
//! mix harmonically. The wheel is the circle of fifths: one step round it
//! is a perfect fifth (seven semitones), `A` marks minor keys, `B` major
//! keys, and a key shares its number with its relative major/minor.
use vstd::prelude::*;
use crate::text::{
    chars_of, decimal_string, parse_u8_range, parse_u8_spec, push_decimal, trim, trim_bounds,
};

verus! {

/// Musical key (24 possible: 12 major + 12 minor)
#[derive(Debug, Clone, Copy, PartialEq, Eq, Hash, Structural)]
pub enum MusicalKey {
    CMajor,
    DbMajor,
    DMajor,
    EbMajor,
    EMajor,
    FMajor,
    GbMajor,
    GMajor,
    AbMajor,
    AMajor,
    BbMajor,
    BMajor,
    CMinor,
    DbMinor,
    DMinor,
    EbMinor,
    EMinor,
    FMinor,
    GbMinor,
    GMinor,
    AbMinor,
    AMinor,
    BbMinor,
    BMinor,
}

/// The pitch class (0 = C, ..., 11 = B) of the key's root.
pub open spec fn pitch_class(k: MusicalKey) -> int {
    match k {
        MusicalKey::CMajor | MusicalKey::CMinor => 0,
        MusicalKey::DbMajor | MusicalKey::DbMinor => 1,
        MusicalKey::DMajor | MusicalKey::DMinor => 2,
        MusicalKey::EbMajor | MusicalKey::EbMinor => 3,
        MusicalKey::EMajor | MusicalKey::EMinor => 4,
        MusicalKey::FMajor | MusicalKey::FMinor => 5,
        MusicalKey::GbMajor | MusicalKey::GbMinor => 6,
        MusicalKey::GMajor | MusicalKey::GMinor => 7,
        MusicalKey::AbMajor | MusicalKey::AbMinor => 8,
        MusicalKey::AMajor | MusicalKey::AMinor => 9,
        MusicalKey::BbMajor | MusicalKey::BbMinor => 10,
        MusicalKey::BMajor | MusicalKey::BMinor => 11,
    }
}

/// Whether the key is a major key.
pub open spec fn is_major_key(k: MusicalKey) -> bool {
    match k {
        MusicalKey::CMajor | MusicalKey::DbMajor | MusicalKey::DMajor | MusicalKey::EbMajor
        | MusicalKey::EMajor | MusicalKey::FMajor | MusicalKey::GbMajor | MusicalKey::GMajor
        | MusicalKey::AbMajor | MusicalKey::AMajor | MusicalKey::BbMajor
        | MusicalKey::BMajor => true,
        _ => false,
    }
}

/// The English note name of a pitch class, flats for the black keys.
pub open spec fn note_name(pc: int) -> Seq<char> {
    if pc == 0 {
        seq!['C']
    } else if pc == 1 {
        seq!['D', 'b']
    } else if pc == 2 {
        seq!['D']
    } else if pc == 3 {
        seq!['E', 'b']
    } else if pc == 4 {
        seq!['E']
    } else if pc == 5 {
        seq!['F']
    } else if pc == 6 {
        seq!['G', 'b']
    } else if pc == 7 {
        seq!['G']
    } else if pc == 8 {
        seq!['A', 'b']
    } else if pc == 9 {
        seq!['A']
    } else if pc == 10 {
        seq!['B', 'b']
    } else {
        seq!['B']
    }
}

/// How a key is written: its root's note name, then `m` for minor keys.
pub open spec fn key_name(k: MusicalKey) -> Seq<char> {
    if is_major_key(k) {
        note_name(pitch_class(k))
    } else {
        note_name(pitch_class(k)).push('m')
    }
}

/// Position on the Camelot wheel (1-12) of the key with root `pc` and the
/// given mode: each step round the wheel adds a fifth (7 semitones); C major
/// stands at 8 and A minor, its relative minor, at 8 too.
pub open spec fn wheel_number(pc: int, major: bool) -> int {
    (7 * pc + if major { 7int } else { 4int }) % 12 + 1
}

/// The Camelot key of a musical key.
pub open spec fn camelot_of(k: MusicalKey) -> CamelotKey {
    CamelotKey { number: wheel_number(pitch_class(k), is_major_key(k)) as u8, is_major: is_major_key(k) }
}

impl MusicalKey {
    /// Get the pitch class (0-11, where 0=C) for this key's root
    pub fn root_pitch_class(&self) -> (r: u8)
        ensures
            r == pitch_class(*self),
    {
        match self {
            MusicalKey::CMajor | MusicalKey::CMinor => 0,
            MusicalKey::DbMajor | MusicalKey::DbMinor => 1,
            MusicalKey::DMajor | MusicalKey::DMinor => 2,
            MusicalKey::EbMajor | MusicalKey::EbMinor => 3,
            MusicalKey::EMajor | MusicalKey::EMinor => 4,
            MusicalKey::FMajor | MusicalKey::FMinor => 5,
            MusicalKey::GbMajor | MusicalKey::GbMinor => 6,
            MusicalKey::GMajor | MusicalKey::GMinor => 7,
            MusicalKey::AbMajor | MusicalKey::AbMinor => 8,
            MusicalKey::AMajor | MusicalKey::AMinor => 9,
            MusicalKey::BbMajor | MusicalKey::BbMinor => 10,
            MusicalKey::BMajor | MusicalKey::BMinor => 11,
        }
    }

    /// Check if this key is major
    pub fn is_major(&self) -> (r: bool)
        ensures
            r == is_major_key(*self),
    {
        match self {
            MusicalKey::CMajor | MusicalKey::DbMajor | MusicalKey::DMajor | MusicalKey::EbMajor
            | MusicalKey::EMajor | MusicalKey::FMajor | MusicalKey::GbMajor | MusicalKey::GMajor
            | MusicalKey::AbMajor | MusicalKey::AMajor | MusicalKey::BbMajor
            | MusicalKey::BMajor => true,
            _ => false,
        }
    }

    /// Get major key from pitch class (0-11); the pitch class is taken modulo 12
    pub fn major_from_pitch_class(pc: u8) -> (r: Self)
        ensures
            is_major_key(r),
            pitch_class(r) == pc % 12,
    {
        match pc % 12 {
            0 => MusicalKey::CMajor,
            1 => MusicalKey::DbMajor,
            2 => MusicalKey::DMajor,
            3 => MusicalKey::EbMajor,
            4 => MusicalKey::EMajor,
            5 => MusicalKey::FMajor,
            6 => MusicalKey::GbMajor,
            7 => MusicalKey::GMajor,
            8 => MusicalKey::AbMajor,
            9 => MusicalKey::AMajor,
            10 => MusicalKey::BbMajor,
            _ => MusicalKey::BMajor,
        }
    }

    /// Get minor key from pitch class (0-11); the pitch class is taken modulo 12
    pub fn minor_from_pitch_class(pc: u8) -> (r: Self)
        ensures
            !is_major_key(r),
            pitch_class(r) == pc % 12,
    {
        match pc % 12 {
            0 => MusicalKey::CMinor,
            1 => MusicalKey::DbMinor,
            2 => MusicalKey::DMinor,
            3 => MusicalKey::EbMinor,
            4 => MusicalKey::EMinor,
            5 => MusicalKey::FMinor,
            6 => MusicalKey::GbMinor,
            7 => MusicalKey::GMinor,
            8 => MusicalKey::AbMinor,
            9 => MusicalKey::AMinor,
            10 => MusicalKey::BbMinor,
            _ => MusicalKey::BMinor,
        }
    }

    /// The key as it is written, e.g. "C", "Dbm".
    pub fn display(&self) -> (r: String)
        ensures
            r@ == key_name(*self),
    {
        let pc = self.root_pitch_class();
        let mut s = String::from_str(note_str(pc));
        if !self.is_major() {
            s.append("m");
            proof {
                reveal_strlit("m");
            }
        }
        s
    }
}

/// The note name of a pitch class as a string literal.
fn note_str(pc: u8) -> (r: &'static str)
    requires
        pc < 12,
    ensures
        r@ == note_name(pc as int),
{
    proof {
        reveal_strlit("C");
        reveal_strlit("Db");
        reveal_strlit("D");
        reveal_strlit("Eb");
        reveal_strlit("E");
        reveal_strlit("F");
        reveal_strlit("Gb");
        reveal_strlit("G");
        reveal_strlit("Ab");
        reveal_strlit("A");
        reveal_strlit("Bb");
        reveal_strlit("B");
    }
    match pc {
        0 => "C",
        1 => "Db",
        2 => "D",
        3 => "Eb",
        4 => "E",
        5 => "F",
        6 => "Gb",
        7 => "G",
        8 => "Ab",
        9 => "A",
        10 => "Bb",
        _ => "B",
    }
}

/// The pitch class of a natural note letter (C = 0, ..., B = 11).
pub open spec fn natural_pitch(letter: char) -> int {
    if letter == 'C' { 0 } else if letter == 'D' { 2 } else if letter == 'E' { 4 }
    else if letter == 'F' { 5 } else if letter == 'G' { 7 } else if letter == 'A' { 9 }
    else if letter == 'B' { 11 } else { -1 }
}

/// A note name spells its pitch class: a natural note is its letter alone,
/// and a black key is the letter a semitone above with a flat (`b`).
pub proof fn lemma_note_name_spells_pitch(pc: int)
    requires
        0 <= pc < 12,
    ensures
        note_name(pc).len() == 1 ==> natural_pitch(note_name(pc)[0]) == pc,
        note_name(pc).len() == 2 ==> note_name(pc)[1] == 'b' && natural_pitch(note_name(pc)[0]) == pc + 1,
        note_name(pc).len() == 1 || note_name(pc).len() == 2,
{
}

/// Different pitch classes have different note names.
pub proof fn lemma_note_name_injective(p: int, q: int)
    requires
        0 <= p < 12,
        0 <= q < 12,
        note_name(p) == note_name(q),
    ensures
        p == q,
{
    lemma_note_name_spells_pitch(p);
    lemma_note_name_spells_pitch(q);
    assert(note_name(p)[0] == note_name(q)[0]);
}

/// A key's name tells the key apart from every other: minor names end in
/// `m`, major names never do, and the rest spells the root.
pub proof fn lemma_key_name_injective(a: MusicalKey, b: MusicalKey)
    ensures
        key_name(a) == key_name(b) ==> a == b,
        is_major_key(a) <==> key_name(a).last() != 'm',
        key_name(a).len() >= 1,
{
    lemma_note_name_spells_pitch(pitch_class(a));
    lemma_note_name_spells_pitch(pitch_class(b));
    let na = note_name(pitch_class(a));
    let nb = note_name(pitch_class(b));
    assert(na.last() != 'm');
    assert(nb.last() != 'm');
    if key_name(a) == key_name(b) {
        assert(is_major_key(a) == is_major_key(b));
        if is_major_key(a) {
            lemma_note_name_injective(pitch_class(a), pitch_class(b));
        } else {
            assert(na =~= key_name(a).drop_last());
            assert(nb =~= key_name(b).drop_last());
            lemma_note_name_injective(pitch_class(a), pitch_class(b));
        }
        lemma_key_determined(a, b);
    }
}

/// Keys are told apart by their root and their mode.
pub proof fn lemma_key_determined(a: MusicalKey, b: MusicalKey)
    requires
        pitch_class(a) == pitch_class(b),
        is_major_key(a) == is_major_key(b),
    ensures
        a == b,
{
}


/// Camelot wheel notation (1A-12B)
///
/// The Camelot wheel is a tool for harmonic mixing that arranges keys
/// in a circle where adjacent keys are harmonically compatible.
/// - Numbers 1-12 represent positions on the wheel
/// - 'A' suffix = minor keys
/// - 'B' suffix = major keys
#[derive(Debug, Clone, Copy, PartialEq, Eq, PartialOrd, Ord, Hash, Structural)]
pub struct CamelotKey {
    /// Position on the wheel (1-12)
    pub number: u8,
    /// true = B (major), false = A (minor)
    pub is_major: bool,
}

/// A key stands on the wheel: its number is 1 to 12.
pub open spec fn on_wheel(c: CamelotKey) -> bool {
    1 <= c.number <= 12
}

/// The letter that marks the mode: `B` for major, `A` for minor.
pub open spec fn mode_letter(is_major: bool) -> char {
    if is_major { 'B' } else { 'A' }
}

/// How a Camelot key is written, e.g. "8A", "12B".
pub open spec fn camelot_text(c: CamelotKey) -> Seq<char> {
    decimal_string(c.number as nat).push(mode_letter(c.is_major))
}

/// What `CamelotKey::new` gives.
pub open spec fn new_key(number: u8, is_major: bool) -> Option<CamelotKey> {
    if 1 <= number <= 12 {
        Some(CamelotKey { number, is_major })
    } else {
        None
    }
}

/// The mode a letter stands for, if it stands for one (either case).
pub open spec fn letter_mode(c: char) -> Option<bool> {
    if c == 'B' || c == 'b' {
        Some(true)
    } else if c == 'A' || c == 'a' {
        Some(false)
    } else {
        None
    }
}

/// What `CamelotKey::parse` gives: after trimming whitespace, a `u8`
/// number followed by the mode letter, the number on the wheel.
pub open spec fn parse_camelot(s: Seq<char>) -> Option<CamelotKey> {
    let t = trim(s);
    if t.len() < 2 {
        None
    } else {
        match letter_mode(t.last()) {
            None => None,
            Some(is_major) => match parse_u8_spec(t.drop_last()) {
                None => None,
                Some(number) => new_key(number, is_major),
            },
        }
    }
}

/// A wheel number as the signed byte that `as i8` makes of it.
pub open spec fn signed_byte(n: u8) -> int {
    if n < 128 { n as int } else { n as int - 256 }
}

/// The distance between two wheel numbers as the byte arithmetic computes it.
pub open spec fn byte_gap(a: CamelotKey, b: CamelotKey) -> int {
    let d = signed_byte(a.number) - signed_byte(b.number);
    if d < 0 { -d } else { d }
}

/// `is_compatible` stays within signed byte arithmetic on these keys.
pub open spec fn compatible_in_range(a: CamelotKey, b: CamelotKey) -> bool {
    a.is_major == b.is_major ==> -127 <= signed_byte(a.number) - signed_byte(b.number) <= 127
}

/// `wheel_distance` stays within byte arithmetic on these keys.
pub open spec fn distance_in_range(a: CamelotKey, b: CamelotKey) -> bool {
    a != b ==> {
        &&& -127 <= signed_byte(a.number) - signed_byte(b.number) <= 127
        &&& byte_gap(a, b) == 13 ==> a.is_major == b.is_major
    }
}

/// Harmonic compatibility as `is_compatible` decides it: the same key, the
/// same number (relative major/minor), or the same mode one step apart,
/// the wheel wrapping from 12 to 1.
pub open spec fn compatible(a: CamelotKey, b: CamelotKey) -> bool {
    ||| a == b
    ||| a.number == b.number
    ||| a.is_major == b.is_major && (byte_gap(a, b) == 1 || byte_gap(a, b) == 11)
}

/// The wheel distance as `wheel_distance` computes it: the shorter way
/// round the wheel, plus one when the modes differ.
pub open spec fn distance(a: CamelotKey, b: CamelotKey) -> int {
    if a == b {
        0
    } else {
        let d = byte_gap(a, b);
        let shorter = if d <= 12 - d { d } else { 12 - d };
        let num_diff = shorter % 256;
        let mode_diff: int = if a.is_major != b.is_major { 1 } else { 0 };
        if num_diff == 0 {
            mode_diff
        } else if mode_diff == 0 {
            num_diff
        } else {
            num_diff + mode_diff
        }
    }
}

/// The number one step back round the wheel.
pub open spec fn prev_number(n: u8) -> u8 {
    if n == 1 { 12 } else { (n - 1) as u8 }
}

/// The number one step forward round the wheel.
pub open spec fn next_number(n: u8) -> u8 {
    if n == 12 { 1 } else { (n + 1) as u8 }
}

/// The keys `compatible_keys` lists: the key, its relative, and its two
/// neighbours in the same mode.
pub open spec fn compatible_list(c: CamelotKey) -> Seq<CamelotKey> {
    seq![
        c,
        CamelotKey { number: c.number, is_major: !c.is_major },
        CamelotKey { number: prev_number(c.number), is_major: c.is_major },
        CamelotKey { number: next_number(c.number), is_major: c.is_major },
    ]
}

impl CamelotKey {
    /// Create a new Camelot key
    pub fn new(number: u8, is_major: bool) -> (r: Option<Self>)
        ensures
            r == new_key(number, is_major),
    {
        if 1 <= number && number <= 12 {
            Some(CamelotKey { number, is_major })
        } else {
            None
        }
    }

    /// Convert from musical key to Camelot notation
    ///
    /// Mapping follows the standard Camelot wheel:
    /// - Circle of fifths arrangement
    /// - Minor keys get 'A', major keys get 'B'
    /// - Relative major/minor share the same number
    pub fn from_musical_key(key: MusicalKey) -> (r: Self)
        ensures
            r == camelot_of(key),
    {
        match key {
            // Minor keys (A) - arranged by circle of fifths
            MusicalKey::AbMinor => CamelotKey { number: 1, is_major: false },
            MusicalKey::EbMinor => CamelotKey { number: 2, is_major: false },
            MusicalKey::BbMinor => CamelotKey { number: 3, is_major: false },
            MusicalKey::FMinor => CamelotKey { number: 4, is_major: false },
            MusicalKey::CMinor => CamelotKey { number: 5, is_major: false },
            MusicalKey::GMinor => CamelotKey { number: 6, is_major: false },
            MusicalKey::DMinor => CamelotKey { number: 7, is_major: false },
            MusicalKey::AMinor => CamelotKey { number: 8, is_major: false },
            MusicalKey::EMinor => CamelotKey { number: 9, is_major: false },
            MusicalKey::BMinor => CamelotKey { number: 10, is_major: false },
            MusicalKey::GbMinor => CamelotKey { number: 11, is_major: false },
            MusicalKey::DbMinor => CamelotKey { number: 12, is_major: false },
            // Major keys (B) - relative majors share the same number
            MusicalKey::BMajor => CamelotKey { number: 1, is_major: true },
            MusicalKey::GbMajor => CamelotKey { number: 2, is_major: true },
            MusicalKey::DbMajor => CamelotKey { number: 3, is_major: true },
            MusicalKey::AbMajor => CamelotKey { number: 4, is_major: true },
            MusicalKey::EbMajor => CamelotKey { number: 5, is_major: true },
            MusicalKey::BbMajor => CamelotKey { number: 6, is_major: true },
            MusicalKey::FMajor => CamelotKey { number: 7, is_major: true },
            MusicalKey::CMajor => CamelotKey { number: 8, is_major: true },
            MusicalKey::GMajor => CamelotKey { number: 9, is_major: true },
            MusicalKey::DMajor => CamelotKey { number: 10, is_major: true },
            MusicalKey::AMajor => CamelotKey { number: 11, is_major: true },
            MusicalKey::EMajor => CamelotKey { number: 12, is_major: true },
        }
    }

    /// Convert to musical key: the key that stands at this place on the
    /// wheel; C major for a major number off the wheel, A minor for a minor one.
    pub fn to_musical_key(&self) -> (r: MusicalKey)
        ensures
            on_wheel(*self) ==> camelot_of(r) == *self,
            !on_wheel(*self) ==> r == (if self.is_major { MusicalKey::CMajor } else { MusicalKey::AMinor }),
    {
        if self.is_major {
            match self.number {
                1 => MusicalKey::BMajor,
                2 => MusicalKey::GbMajor,
                3 => MusicalKey::DbMajor,
                4 => MusicalKey::AbMajor,
                5 => MusicalKey::EbMajor,
                6 => MusicalKey::BbMajor,
                7 => MusicalKey::FMajor,
                8 => MusicalKey::CMajor,
                9 => MusicalKey::GMajor,
                10 => MusicalKey::DMajor,
                11 => MusicalKey::AMajor,
                12 => MusicalKey::EMajor,
                _ => MusicalKey::CMajor,
            }
        } else {
            match self.number {
                1 => MusicalKey::AbMinor,
                2 => MusicalKey::EbMinor,
                3 => MusicalKey::BbMinor,
                4 => MusicalKey::FMinor,
                5 => MusicalKey::CMinor,
                6 => MusicalKey::GMinor,
                7 => MusicalKey::DMinor,
                8 => MusicalKey::AMinor,
                9 => MusicalKey::EMinor,
                10 => MusicalKey::BMinor,
                11 => MusicalKey::GbMinor,
                12 => MusicalKey::DbMinor,
                _ => MusicalKey::AMinor,
            }
        }
    }

    /// Get display string (e.g., "8A", "12B")
    pub fn display(&self) -> (r: String)
        ensures
            r@ == camelot_text(*self),
    {
        let mut s = String::new();
        push_decimal(&mut s, self.number);
        proof {
            reveal_strlit("A");
            reveal_strlit("B");
        }
        if self.is_major {
            s.append("B");
        } else {
            s.append("A");
        }
        s
    }

    /// Parse from string (e.g., "8A", "12B")
    pub fn parse(s: &str) -> (r: Option<Self>)
        ensures
            r == parse_camelot(s@),
    {
        let chars = chars_of(s);
        let (start, end) = trim_bounds(&chars);
        let ghost t = chars@.subrange(start as int, end as int);
        // A trimmed text of one character is shorter than two bytes, or is a
        // single wide character, which is no mode letter: either way `None`.
        if end - start < 2 {
            return None;
        }
        let last = chars[end - 1];
        assert(t.last() == last);
        let is_major = if last == 'B' || last == 'b' {
            true
        } else if last == 'A' || last == 'a' {
            false
        } else {
            return None;
        };
        assert(chars@.subrange(start as int, end - 1) =~= t.drop_last());
        match parse_u8_range(&chars, start, end - 1) {
            None => None,
            Some(number) => Self::new(number, is_major),
        }
    }

    /// Check if two keys are harmonically compatible for mixing
    ///
    /// Compatible combinations:
    /// 1. Same key (e.g., 8A ↔ 8A)
    /// 2. Adjacent on wheel, same letter (e.g., 8A ↔ 7A, 8A ↔ 9A)
    /// 3. Same number, different letter (relative major/minor, e.g., 8A ↔ 8B)
    pub fn is_compatible(&self, other: &CamelotKey) -> (r: bool)
        requires
            compatible_in_range(*self, *other),
        ensures
            r == compatible(*self, *other),
    {
        // Same key
        if *self == *other {
            return true;
        }
        // Same number, different letter (relative major/minor)
        if self.number == other.number {
            return true;
        }
        // Adjacent on wheel (±1), same letter
        // Wheel wraps: 12 + 1 = 1, 1 - 1 = 12
        if self.is_major == other.is_major {
            let diff = abs_i8(signed(self.number) - signed(other.number));
            if diff == 1 || diff == 11 {
                return true;
            }
        }
        false
    }

    /// Get the wheel distance between two keys
    ///
    /// Returns a value indicating how "far" two keys are on the Camelot wheel.
    /// Lower values = more compatible.
    /// - 0: Same key
    /// - 1: Adjacent (±1) or relative major/minor
    /// - 2+: Less compatible
    pub fn wheel_distance(&self, other: &CamelotKey) -> (r: u8)
        requires
            distance_in_range(*self, *other),
        ensures
            r == distance(*self, *other),
    {
        if *self == *other {
            return 0;
        }
        // Calculate number distance on the wheel (shortest path)
        let num_diff = {
            let d = abs_i8(signed(self.number) - signed(other.number));
            let shorter = if d <= 12 - d { d } else { 12 - d };
            wrap_to_u8(shorter)
        };
        // Mode difference (major vs minor)
        let mode_diff: u8 = if self.is_major != other.is_major { 1 } else { 0 };
        // Same number, different mode = 1; adjacent number, same mode = 1;
        // otherwise add them
        if num_diff == 0 {
            mode_diff
        } else if mode_diff == 0 {
            num_diff
        } else {
            num_diff + mode_diff
        }
    }

    /// Get all compatible keys
    pub fn compatible_keys(&self) -> (r: Vec<CamelotKey>)
        requires
            1 <= self.number < 255,
        ensures
            r@ == compatible_list(*self),
    {
        let mut keys = vec![*self];
        // Relative major/minor (same number, different letter)
        keys.push(CamelotKey { number: self.number, is_major: !self.is_major });
        // Adjacent on wheel (same letter)
        let prev = if self.number == 1 { 12 } else { self.number - 1 };
        let next = if self.number == 12 { 1 } else { self.number + 1 };
        keys.push(CamelotKey { number: prev, is_major: self.is_major });
        keys.push(CamelotKey { number: next, is_major: self.is_major });
        assert(keys@ =~= compatible_list(*self));
        keys
    }
}

/// `n as i8`, widened so that the subtraction cannot wrap.
fn signed(n: u8) -> (r: i16)
    ensures
        r == signed_byte(n),
{
    if n < 128 {
        n as i16
    } else {
        n as i16 - 256
    }
}

/// `i8::abs` of a difference that fits in `i8` and is not `i8::MIN`.
fn abs_i8(d: i16) -> (r: i16)
    requires
        -127 <= d <= 127,
    ensures
        r == (if d < 0 { -d } else { d as int }),
{
    if d < 0 {
        -d
    } else {
        d
    }
}

/// `x as u8` for a value of `i8`.
fn wrap_to_u8(x: i16) -> (r: u8)
    requires
        -128 <= x <= 127,
    ensures
        r == x % 256,
{
    if x < 0 {
        (x + 256) as u8
    } else {
        x as u8
    }
}

// ---------------------------------------------------------------------------
// Laws of the wheel
// ---------------------------------------------------------------------------

/// Every musical key has its place on the wheel.
pub proof fn lemma_camelot_on_wheel(k: MusicalKey)
    ensures
        on_wheel(camelot_of(k)),
{
}

/// Converting a key to Camelot notation and back gives the same key: two
/// keys with the same Camelot key are the same key (and `to_musical_key`
/// returns a key with the Camelot key it was given).
pub proof fn lemma_camelot_round_trip(k: MusicalKey, r: MusicalKey)
    requires
        camelot_of(r) == camelot_of(k),
    ensures
        r == k,
{
    let pr = pitch_class(r);
    let pk = pitch_class(k);
    assert(0 <= pr < 12 && 0 <= pk < 12);
    assert(is_major_key(r) == is_major_key(k));
    assert(pr == pk) by {
        let c: int = if is_major_key(k) { 7 } else { 4 };
        assert((7 * pr + c) % 12 == (7 * pk + c) % 12);
        assert(0 <= pr < 12 && 0 <= pk < 12 && (7 * pr + c) % 12 == (7 * pk + c) % 12 ==> pr == pk)
            by (nonlinear_arith)
            requires c == 7 || c == 4;
    }
    lemma_key_determined(r, k);
}

/// Every place on the wheel holds a musical key.
pub proof fn lemma_wheel_covered(c: CamelotKey)
    requires
        on_wheel(c),
    ensures
        exists|k: MusicalKey| camelot_of(k) == c,
{
    let n = c.number as int;
    let off: int = if c.is_major { 7 } else { 4 };
    // 7 is its own inverse modulo 12.
    let p = (7 * (n - 1 - off)) % 12;
    let k = if c.is_major {
        key_of(p, true)
    } else {
        key_of(p, false)
    };
    lemma_key_of(p, c.is_major);
    assert((7 * p + off) % 12 + 1 == n) by (nonlinear_arith)
        requires
            p == (7 * (n - 1 - off)) % 12,
            1 <= n <= 12,
    ;
    assert(camelot_of(k) == c);
}

/// A relative major and minor (the minor's root three semitones below the
/// major's, i.e. nine above) share their number on the wheel.
pub proof fn lemma_relative_keys_share_number(major: MusicalKey, minor: MusicalKey)
    requires
        is_major_key(major),
        !is_major_key(minor),
        pitch_class(minor) == (pitch_class(major) + 9) % 12,
    ensures
        camelot_of(major).number == camelot_of(minor).number,
{
}

/// One step forward round the wheel, in the same mode, is a perfect fifth
/// (seven semitones) up.
pub proof fn lemma_fifth_is_next_step(a: MusicalKey, b: MusicalKey)
    requires
        is_major_key(a) == is_major_key(b),
        pitch_class(b) == (pitch_class(a) + 7) % 12,
    ensures
        camelot_of(b).number == next_number(camelot_of(a).number),
{
}

/// Keys on the wheel never take `is_compatible` or `wheel_distance` out of
/// byte arithmetic.
pub proof fn lemma_on_wheel_in_range(a: CamelotKey, b: CamelotKey)
    requires
        on_wheel(a),
        on_wheel(b),
    ensures
        compatible_in_range(a, b),
        distance_in_range(a, b),
{
}

/// Compatibility and wheel distance do not depend on the order of the keys.
pub proof fn lemma_symmetric(a: CamelotKey, b: CamelotKey)
    ensures
        compatible_in_range(a, b) == compatible_in_range(b, a),
        compatible(a, b) == compatible(b, a),
        distance_in_range(a, b) == distance_in_range(b, a),
        distance_in_range(a, b) ==> distance(a, b) == distance(b, a),
{
}

/// On the wheel, the distance is the shorter way round plus one for a
/// change of mode; it is zero exactly for the same key, at most seven, and
/// two keys are compatible exactly when they are at most one step apart.
pub proof fn lemma_distance_on_wheel(a: CamelotKey, b: CamelotKey)
    requires
        on_wheel(a),
        on_wheel(b),
    ensures
        distance(a, b) == ({
            let d = if a.number >= b.number { a.number - b.number } else { b.number - a.number };
            let round = if d <= 12 - d { d } else { 12 - d };
            round + if a.is_major != b.is_major { 1int } else { 0int }
        }),
        (distance(a, b) == 0) == (a == b),
        distance(a, b) <= 7,
        compatible(a, b) == (distance(a, b) <= 1),
{
}

/// The keys `compatible_keys` lists are exactly the keys on the wheel that
/// are compatible with the given key, and they all stand on the wheel.
pub proof fn lemma_compatible_list_exact(c: CamelotKey, x: CamelotKey)
    requires
        on_wheel(c),
        on_wheel(x),
    ensures
        compatible_list(c).contains(x) == compatible(c, x),
        forall|i: int| 0 <= i < 4 ==> on_wheel(#[trigger] compatible_list(c)[i]),
{
    let l = compatible_list(c);
    if compatible(c, x) {
        if x == c {
            assert(l[0] == x);
        } else if x.number == c.number {
            assert(l[1] == x);
        } else if x.number == prev_number(c.number) {
            assert(l[2] == x);
        } else {
            assert(l[3] == x);
        }
    }
}

/// Parsing ignores whitespace around the text, as `str::trim` does: a line
/// read with its line end, or padded with spaces or tabs, parses as the bare
/// text does.
pub proof fn lemma_parse_ignores_white_space(s: Seq<char>, c: char)
    requires
        crate::text::is_white_space(c),
    ensures
        parse_camelot(s.push(c)) == parse_camelot(s),
        parse_camelot(seq![c] + s) == parse_camelot(s),
{
    crate::text::lemma_trim_ignores_added_white_space(s, c);
}

/// A line end, a carriage return, a space or a tab at either end of the
/// text never changes what it parses to.
pub proof fn lemma_parse_ignores_line_ends(s: Seq<char>)
    ensures
        parse_camelot(s.push('\n')) == parse_camelot(s),
        parse_camelot(s.push('\r')) == parse_camelot(s),
        parse_camelot(s.push(' ')) == parse_camelot(s),
        parse_camelot(seq!['\t'] + s) == parse_camelot(s),
        parse_camelot(seq![' '] + s) == parse_camelot(s),
{
    crate::text::lemma_white_space_table('\n');
    crate::text::lemma_white_space_table('\r');
    crate::text::lemma_white_space_table(' ');
    crate::text::lemma_white_space_table('\t');
    lemma_parse_ignores_white_space(s, '\n');
    lemma_parse_ignores_white_space(s, '\r');
    lemma_parse_ignores_white_space(s, ' ');
    lemma_parse_ignores_white_space(s, '\t');
}

/// Writing a Camelot key and parsing the text gives the key back when it is
/// on the wheel, and `None` when it is not.
pub proof fn lemma_parse_display(c: CamelotKey)
    ensures
        parse_camelot(camelot_text(c)) == new_key(c.number, c.is_major),
{
    let t = camelot_text(c);
    crate::text::lemma_decimal_string_digits(c.number as nat);
    assert(t.drop_last() =~= decimal_string(c.number as nat));
    crate::text::lemma_digits_untrimmed(t);
    crate::text::lemma_parse_u8_decimal(c.number);
}

/// The key with the given root (0-11) and mode.
pub open spec fn key_of(pc: int, major: bool) -> MusicalKey {
    if major {
        if pc == 0 { MusicalKey::CMajor } else if pc == 1 { MusicalKey::DbMajor }
        else if pc == 2 { MusicalKey::DMajor } else if pc == 3 { MusicalKey::EbMajor }
        else if pc == 4 { MusicalKey::EMajor } else if pc == 5 { MusicalKey::FMajor }
        else if pc == 6 { MusicalKey::GbMajor } else if pc == 7 { MusicalKey::GMajor }
        else if pc == 8 { MusicalKey::AbMajor } else if pc == 9 { MusicalKey::AMajor }
        else if pc == 10 { MusicalKey::BbMajor } else { MusicalKey::BMajor }
    } else {
        if pc == 0 { MusicalKey::CMinor } else if pc == 1 { MusicalKey::DbMinor }
        else if pc == 2 { MusicalKey::DMinor } else if pc == 3 { MusicalKey::EbMinor }
        else if pc == 4 { MusicalKey::EMinor } else if pc == 5 { MusicalKey::FMinor }
        else if pc == 6 { MusicalKey::GbMinor } else if pc == 7 { MusicalKey::GMinor }
        else if pc == 8 { MusicalKey::AbMinor } else if pc == 9 { MusicalKey::AMinor }
        else if pc == 10 { MusicalKey::BbMinor } else { MusicalKey::BMinor }
    }
}

proof fn lemma_key_of(pc: int, major: bool)
    requires
        0 <= pc < 12,
    ensures
        pitch_class(key_of(pc, major)) == pc,
        is_major_key(key_of(pc, major)) == major,
{
}

} // verus!
