//! The game's version, read from the revision name in the ROM information
//! block (for example `WM3100-1-NA-APR0-A01`).
use crate::text::{
    bytes_until_nul, chars_eq_str, decode_utf8_chars, free_of, lemma_split_after_separator,
    lemma_split_single, parse_decimal_u32, parse_u32, pieces_view, split_at_char, split_chars,
    until_nul,
};
use vstd::prelude::*;
use vstd::utf8::*;

verus! {

/// The game of the family.
#[derive(Clone, Copy, Debug, PartialEq, Eq, Structural)]
pub enum GameMajor {
    WM3,
    W3X,
    W3P,
    Unknown,
}

/// The minor release letter.
#[derive(Clone, Copy, Debug, PartialEq, Eq, Structural)]
pub enum GameMinor {
    A,
    B,
    Unknown,
}

/// The market the ROM was built for.
#[derive(Clone, Copy, Debug, PartialEq, Eq, Structural)]
pub enum GameRegion {
    JP,
    EN2,
    EN3,
    EN4,
    Unknown,
}

/// A game version, as plugins receive it.
#[derive(Clone, Copy, Debug, PartialEq, Eq, Structural)]
pub struct GameVersion {
    pub major: GameMajor,
    pub minor: GameMinor,
    pub region: GameRegion,
    pub revision: u32,
}

/// The version of an unrecognised ROM.
pub open spec fn unknown_version() -> GameVersion {
    GameVersion {
        major: GameMajor::Unknown,
        minor: GameMinor::Unknown,
        region: GameRegion::Unknown,
        revision: 0,
    }
}

/// The version of an unrecognised ROM: everything unknown, revision 0.
pub fn default_gameversion() -> (v: GameVersion)
    ensures
        v == unknown_version(),
{
    GameVersion {
        major: GameMajor::Unknown,
        minor: GameMinor::Unknown,
        region: GameRegion::Unknown,
        revision: 0,
    }
}

impl GameVersion {
    /// Whether this is the first game of the family.
    pub fn is_wm3(&self) -> (r: bool)
        ensures
            r == (self.major == GameMajor::WM3),
    {
        match self.major {
            GameMajor::WM3 => true,
            _ => false,
        }
    }
}

/// The game named by the first field of a revision name.
pub open spec fn major_code(part: Seq<char>) -> Option<GameMajor> {
    if part == "WM3100"@ {
        Some(GameMajor::WM3)
    } else if part == "W3X100"@ {
        Some(GameMajor::W3X)
    } else if part == "W3P100"@ {
        Some(GameMajor::W3P)
    } else {
        None
    }
}

/// The region named by the second field of a revision name.
pub open spec fn region_code(part: Seq<char>) -> Option<GameRegion> {
    if part == "1"@ {
        Some(GameRegion::JP)
    } else if part == "2"@ {
        Some(GameRegion::EN2)
    } else if part == "3"@ {
        Some(GameRegion::EN3)
    } else if part == "4"@ {
        Some(GameRegion::EN4)
    } else {
        None
    }
}

/// The minor release named by the first character of the fifth field.
pub open spec fn minor_code(c: char) -> Option<GameMinor> {
    if c == 'A' {
        Some(GameMinor::A)
    } else if c == 'B' {
        Some(GameMinor::B)
    } else {
        None
    }
}

/// The (at most two) characters after the minor letter, which carry the
/// revision number.
pub open spec fn revision_digits(part: Seq<char>) -> Seq<char> {
    part.subrange(1, if part.len() < 3 { part.len() as int } else { 3 })
}

/// The version that a revision name spells: fields separated by `-`, the
/// first naming the game, the second the region, the fifth starting with
/// the minor letter followed by the revision number; anything that does
/// not fit is an unknown version.
pub open spec fn revision_version(name: Seq<char>) -> GameVersion {
    let parts = split_chars(name, '-');
    if parts.len() >= 5 && major_code(parts[0]) is Some && region_code(parts[1]) is Some
        && parts[4].len() > 0 && minor_code(parts[4][0]) is Some && parse_u32(
        revision_digits(parts[4]),
    ) is Some {
        GameVersion {
            major: major_code(parts[0])->0,
            minor: minor_code(parts[4][0])->0,
            region: region_code(parts[1])->0,
            revision: parse_u32(revision_digits(parts[4]))->0,
        }
    } else {
        unknown_version()
    }
}

/// The version that a NUL-terminated revision name field holds: unknown
/// when the field has no NUL or is not UTF-8.
pub open spec fn revision_field_version(field: Seq<u8>) -> GameVersion {
    match until_nul(field) {
        Some(name) => if valid_utf8(name) {
            revision_version(decode_utf8(name))
        } else {
            unknown_version()
        },
        None => unknown_version(),
    }
}

/// A revision name made of five fields separated by dashes.
pub open spec fn join_fields(
    f0: Seq<char>,
    f1: Seq<char>,
    f2: Seq<char>,
    f3: Seq<char>,
    f4: Seq<char>,
) -> Seq<char> {
    f0 + seq!['-'] + f1 + seq!['-'] + f2 + seq!['-'] + f3 + seq!['-'] + f4
}

/// Law of revision names: a name of five dash-free fields is read field by
/// field: the game from the first, the region from the second, the minor
/// letter and the revision from the fifth; the third and fourth do not
/// matter, and when a field does not fit the version is unknown.
pub proof fn lemma_revision_fields(
    f0: Seq<char>,
    f1: Seq<char>,
    f2: Seq<char>,
    f3: Seq<char>,
    f4: Seq<char>,
)
    requires
        free_of(f0, '-'),
        free_of(f1, '-'),
        free_of(f2, '-'),
        free_of(f3, '-'),
        free_of(f4, '-'),
    ensures
        split_chars(join_fields(f0, f1, f2, f3, f4), '-') == seq![f0, f1, f2, f3, f4],
        revision_version(join_fields(f0, f1, f2, f3, f4)) == if major_code(f0) is Some
            && region_code(f1) is Some && f4.len() > 0 && minor_code(f4[0]) is Some && parse_u32(
            revision_digits(f4),
        ) is Some {
            GameVersion {
                major: major_code(f0)->0,
                minor: minor_code(f4[0])->0,
                region: region_code(f1)->0,
                revision: parse_u32(revision_digits(f4))->0,
            }
        } else {
            unknown_version()
        },
{
    lemma_split_single(f0, '-');
    let s1 = f0 + seq!['-'] + f1;
    lemma_split_after_separator(f0, f1, '-');
    let s2 = s1 + seq!['-'] + f2;
    lemma_split_after_separator(s1, f2, '-');
    let s3 = s2 + seq!['-'] + f3;
    lemma_split_after_separator(s2, f3, '-');
    lemma_split_after_separator(s3, f4, '-');
    assert(seq![f0].push(f1).push(f2).push(f3).push(f4) =~= seq![f0, f1, f2, f3, f4]);
}

/// Reads the version from the characters of a revision name.
pub fn parse_revision(name: &[char]) -> (v: GameVersion)
    ensures
        v == revision_version(name@),
{
    let parts = split_at_char(name, '-');
    let ghost pv = pieces_view(parts@);
    if parts.len() < 5 {
        return default_gameversion();
    }
    assert(pv[0] == parts@[0]@ && pv[1] == parts@[1]@ && pv[4] == parts@[4]@);
    let first = parts[0].as_slice();
    let major = if chars_eq_str(first, "WM3100") {
        GameMajor::WM3
    } else if chars_eq_str(first, "W3X100") {
        GameMajor::W3X
    } else if chars_eq_str(first, "W3P100") {
        GameMajor::W3P
    } else {
        return default_gameversion();
    };
    let second = parts[1].as_slice();
    let region = if chars_eq_str(second, "1") {
        GameRegion::JP
    } else if chars_eq_str(second, "2") {
        GameRegion::EN2
    } else if chars_eq_str(second, "3") {
        GameRegion::EN3
    } else if chars_eq_str(second, "4") {
        GameRegion::EN4
    } else {
        return default_gameversion();
    };
    let fifth = parts[4].as_slice();
    if fifth.len() == 0 {
        return default_gameversion();
    }
    let minor = if fifth[0] == 'A' {
        GameMinor::A
    } else if fifth[0] == 'B' {
        GameMinor::B
    } else {
        return default_gameversion();
    };
    let end: usize = if fifth.len() < 3 { fifth.len() } else { 3 };
    let mut digits: Vec<char> = Vec::new();
    let mut i: usize = 1;
    while i < end
        invariant
            1 <= i <= end <= fifth@.len(),
            end == (if fifth@.len() < 3 { fifth@.len() as int } else { 3 }),
            digits@ == fifth@.subrange(1, i as int),
        decreases end - i,
    {
        digits.push(fifth[i]);
        i = i + 1;
        assert(digits@ =~= fifth@.subrange(1, i as int));
    }
    match parse_decimal_u32(digits.as_slice()) {
        Some(revision) => GameVersion { major, minor, region, revision },
        None => default_gameversion(),
    }
}

/// Reads the version from a NUL-terminated revision name field.
pub fn parse_revision_name(field: &[u8]) -> (v: GameVersion)
    ensures
        v == revision_field_version(field@),
{
    match bytes_until_nul(field) {
        Some(name) => match decode_utf8_chars(name.as_slice()) {
            Some(chars) => parse_revision(chars.as_slice()),
            None => default_gameversion(),
        },
        None => default_gameversion(),
    }
}

/// The ROM information block that the game keeps at `gRomInfo`.
pub struct RomInfo {
    pub name: [u8; 32],
    pub region: [u8; 32],
    pub release_type: [u8; 32],
    pub date: [u8; 32],
    pub time: [u8; 32],
    pub revision: i32,
    pub revision_name: [u8; 32],
}

impl RomInfo {
    /// The game version that the ROM's revision name spells.
    pub fn game_version(&self) -> (v: GameVersion)
        ensures
            v == revision_field_version(self.revision_name@),
    {
        parse_revision_name(self.revision_name.as_slice())
    }
}

} // verus!
