//! The Hangul Syllables block and the trailing consonant (jongseong) of a
//! syllable, as the `hangul` crate decomposes it.

use hangul::HangulExt;
use hangul::ParseSyllableError;
use vstd::prelude::*;

verus! {

/// Code point of '가', the first of the composed Hangul syllables.
pub const SYLLABLE_START: u32 = 0xAC00;

/// Code point of '힣', the last of the composed Hangul syllables.
pub const SYLLABLE_END: u32 = 0xD7A3;

/// Number of trailing-consonant slots of a syllable: 27 consonants and the
/// empty one.
pub const JONGSEONG_COUNT: u32 = 28;

/// Number of runs of `JONGSEONG_COUNT` syllables in the block: one for each
/// pair of the 19 leading consonants and the 21 vowels.
pub const RUN_COUNT: u32 = 399;

/// Code point just before 'ㄱ', the first compatibility jamo.
pub const JAMO_START: u32 = 0x3130;

/// Whether `c` is a composed Hangul syllable.
pub open spec fn is_syllable(c: char) -> bool {
    SYLLABLE_START <= c as u32 <= SYLLABLE_END
}

/// The trailing-consonant slot of a syllable: 0 where it has none, else the
/// position of its trailing consonant, from 1 to 27.
pub open spec fn jongseong_index(c: char) -> int
    recommends
        is_syllable(c),
{
    (c as u32 - SYLLABLE_START) % (JONGSEONG_COUNT as int)
}

/// For each of the 27 trailing consonants, in the order of the slots, how far
/// its compatibility jamo lies behind `JAMO_START`.
pub open spec fn jongseong_to_jamo() -> Seq<u32> {
    seq![
        1, 2, 3, 4, 5, 6, 7, 9, 10, 11, 12, 13, 14, 15, 16, 17, 18, 20, 21, 22, 23, 24, 26, 27,
        28, 29, 30,
    ]
}

/// The trailing consonant of a syllable as a compatibility jamo, or `None`
/// where the syllable is open.
pub open spec fn jongseong_of(c: char) -> Option<char>
    recommends
        is_syllable(c),
{
    let i = jongseong_index(c);
    if i == 0 {
        None
    } else {
        Some((JAMO_START + jongseong_to_jamo()[i - 1]) as char)
    }
}

/// The error of the `hangul` crate. It is declared with its one public
/// field, the character that is no Hangul syllable, which verified code reads
/// as `.0`.
#[verifier::external_type_specification]
pub struct ExParseSyllableError(ParseSyllableError);

/// Calls `HangulExt::jongseong` of the `hangul` crate on `c`.
///
/// Not proved: that the call fails exactly on the characters outside the
/// Hangul Syllables block and then hands `c` back in its error, and that for a
/// syllable it returns `jongseong_of(c)`.
#[verifier::external_body]
pub(crate) fn jongseong(c: char) -> (r: Result<Option<char>, ParseSyllableError>)
    ensures
        match r {
            Ok(j) => is_syllable(c) && j == jongseong_of(c),
            Err(e) => !is_syllable(c) && e.0 == c,
        },
{
    c.jongseong()
}

} // verus!
