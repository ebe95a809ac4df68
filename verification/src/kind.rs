//! The three shapes of a syllable's end that decide between the forms of a
//! josa.

use crate::error::Error;
use crate::syllable::{
    is_syllable, jongseong, jongseong_index, jongseong_of, jongseong_to_jamo, JAMO_START,
    JONGSEONG_COUNT, RUN_COUNT, SYLLABLE_START,
};
use vstd::prelude::*;
use vstd::std_specs::convert::TryFromSpecImpl;

verus! {

/// How a syllable ends.
#[derive(Debug, Clone, Copy, PartialEq, Eq)]
pub enum JongseongKind {
    /// With a vowel: the syllable has no trailing consonant.
    Open,
    /// With the liquid consonant 'ㄹ'.
    Rieul,
    /// With any other trailing consonant.
    Closed,
}

/// The kind of a syllable, read off its trailing consonant.
pub open spec fn kind_of(c: char) -> JongseongKind
    recommends
        is_syllable(c),
{
    match jongseong_of(c) {
        None => JongseongKind::Open,
        Some(j) => if j == 'ㄹ' {
            JongseongKind::Rieul
        } else {
            JongseongKind::Closed
        },
    }
}

/// What classifying `c` gives: its kind, or the error that names `c` where it
/// is no Hangul syllable.
pub open spec fn classify(c: char) -> Result<JongseongKind, Error> {
    if is_syllable(c) {
        Ok(kind_of(c))
    } else {
        Err(Error::ParseSyllable(c))
    }
}

impl TryFrom<char> for JongseongKind {
    type Error = Error;

    /// Classifies a character by its trailing consonant. The result is
    /// `classify(value)`: it fails with `Error::ParseSyllable(value)` exactly
    /// where `value` is no Hangul syllable.
    fn try_from(value: char) -> (r: Result<JongseongKind, Error>) {
        match jongseong(value) {
            Ok(Some(j)) => if j == 'ㄹ' {
                Ok(JongseongKind::Rieul)
            } else {
                Ok(JongseongKind::Closed)
            },
            Ok(None) => Ok(JongseongKind::Open),
            Err(e) => Err(Error::from(e)),
        }
    }
}

impl TryFromSpecImpl<char> for JongseongKind {
    open spec fn obeys_try_from_spec() -> bool {
        true
    }

    open spec fn try_from_spec(value: char) -> Result<JongseongKind, Error> {
        classify(value)
    }
}

/// The kind that belongs to a trailing-consonant slot: none at 0, 'ㄹ' at 8,
/// another consonant at the rest.
pub open spec fn kind_at(slot: int) -> JongseongKind {
    if slot == 0 {
        JongseongKind::Open
    } else if slot == 8 {
        JongseongKind::Rieul
    } else {
        JongseongKind::Closed
    }
}

/// The syllable that stands at `slot` in the `run`-th run of syllables which
/// share their leading consonant and vowel.
pub open spec fn syllable_at(run: int, slot: int) -> char
    recommends
        0 <= run < RUN_COUNT,
        0 <= slot < JONGSEONG_COUNT,
{
    (SYLLABLE_START + JONGSEONG_COUNT * run + slot) as char
}

/// The kind of a syllable is decided by its trailing-consonant slot alone:
/// of the 27 trailing consonants only the eighth is 'ㄹ'.
pub proof fn lemma_kind_by_slot(c: char)
    requires
        is_syllable(c),
    ensures
        0 <= jongseong_index(c) < JONGSEONG_COUNT,
        kind_of(c) == kind_at(jongseong_index(c)),
{
    let i = jongseong_index(c);
    if i != 0 {
        let t = jongseong_to_jamo();
        assert(t.len() == 27);
        assert(forall|k: int| 0 <= k < 27 ==> 1 <= #[trigger] t[k] <= 30 && (t[k] == 9 <==> k == 7));
        let j = (JAMO_START + t[i - 1]) as char;
        assert(j == 'ㄹ' <==> t[i - 1] == 9);
    }
}

/// Every slot of every run holds a Hangul syllable, and classifying it gives
/// the kind of its slot.
pub proof fn lemma_syllable_at(run: int, slot: int)
    requires
        0 <= run < RUN_COUNT,
        0 <= slot < JONGSEONG_COUNT,
    ensures
        is_syllable(syllable_at(run, slot)),
        jongseong_index(syllable_at(run, slot)) == slot,
        classify(syllable_at(run, slot)) == Ok::<JongseongKind, Error>(kind_at(slot)),
{
    let c = syllable_at(run, slot);
    assert(c as int == SYLLABLE_START + 28 * run + slot);
    assert((28 * run + slot) % 28 == slot) by (nonlinear_arith)
        requires
            0 <= slot < 28,
    ;
    lemma_kind_by_slot(c);
}

} // verus!
