//! Selecting the josa that follows a noun, and appending it.

use crate::error::Error;
use crate::kind::{kind_at, kind_of, lemma_kind_by_slot, lemma_syllable_at, syllable_at};
use crate::particle::Josa;
use crate::syllable::{is_syllable, JONGSEONG_COUNT, RUN_COUNT};
use std::ops::{Add, AddAssign};
use vstd::prelude::*;
use vstd::std_specs::ops::AddSpecImpl;
use vstd::string::{StrSliceExecFns, StringExecFns};

verus! {

/// What selecting `josa` for `noun` gives: the form that follows the last
/// character of `noun`, `Error::EmptyStr` where `noun` has no character, or
/// `Error::ParseSyllable` with the last character where that is no Hangul
/// syllable.
pub open spec fn selection(noun: Seq<char>, josa: Josa) -> Result<Seq<char>, Error> {
    if noun.len() == 0 {
        Err(Error::EmptyStr)
    } else {
        josa.selected(noun.last())
    }
}

/// What appending `josa` adds to `noun`: the selected form; nothing where
/// `noun` is empty; both forms side by side where `noun` ends with a
/// character that is no Hangul syllable.
pub open spec fn suffix(noun: Seq<char>, josa: Josa) -> Seq<char> {
    match selection(noun, josa) {
        Ok(form) => form,
        Err(Error::EmptyStr) => Seq::empty(),
        Err(Error::ParseSyllable(_)) => josa.both_forms(),
    }
}

/// `noun` with `josa` appended.
pub open spec fn with_josa(noun: Seq<char>, josa: Josa) -> Seq<char> {
    noun + suffix(noun, josa)
}

/// The last character of `s`, if it has any.
fn last_char(s: &str) -> (r: Option<char>)
    ensures
        r == (if s@.len() == 0 {
            None
        } else {
            Some(s@.last())
        }),
{
    let n: usize = s.unicode_len();
    if n == 0 {
        None
    } else {
        Some(s.get_char(n - 1))
    }
}

/// Selects the form of `josa` that follows `noun`.
///
/// Nothing is appended: this is for a noun that stands inside other text,
/// such as markup, where the josa goes behind the closing tag.
pub fn select(noun: &str, josa: Josa) -> (r: Result<&'static str, Error>)
    ensures
        match selection(noun@, josa) {
            Ok(form) => r is Ok && r->Ok_0@ == form,
            Err(e) => r == Err::<&'static str, Error>(e),
        },
        noun@.len() == 0 ==> r == Err::<&'static str, Error>(Error::EmptyStr),
        noun@.len() > 0 && !is_syllable(noun@.last()) ==> r == Err::<&'static str, Error>(
            Error::ParseSyllable(noun@.last()),
        ),
        noun@.len() > 0 && is_syllable(noun@.last()) ==> r is Ok && r->Ok_0@ == josa.form(
            kind_of(noun@.last()),
        ),
{
    match last_char(noun) {
        Some(c) => josa.select(c),
        None => Err(Error::EmptyStr),
    }
}

/// Appending a josa to a string in place.
pub trait JosaExt {
    /// Appends `josa` in the form that follows the string.
    fn push_josa(&mut self, josa: Josa);
}

impl JosaExt for String {
    /// Appends `josa` in the form that follows this string. An empty string
    /// stays empty; after a character that is no Hangul syllable both forms
    /// are appended side by side.
    fn push_josa(&mut self, josa: Josa)
        ensures
            final(self)@ == with_josa(old(self)@, josa),
            old(self)@.len() == 0 ==> final(self)@ == old(self)@,
            old(self)@.len() > 0 && !is_syllable(old(self)@.last()) ==> final(self)@ == old(self)@
                + josa.both_forms(),
            old(self)@.len() > 0 && is_syllable(old(self)@.last()) ==> final(self)@ == old(self)@
                + josa.form(kind_of(old(self)@.last())),
    {
        let form = match select(self.as_str(), josa) {
            Ok(form) => form,
            Err(Error::EmptyStr) => "",
            Err(Error::ParseSyllable(_)) => josa.both(),
        };
        proof {
            reveal_strlit("");
        }
        self.append(form);
        assert(self@ =~= with_josa(old(self)@, josa));
    }
}

impl Add<Josa> for String {
    type Output = String;

    /// This string with `josa` appended as `push_josa` appends it.
    fn add(self, josa: Josa) -> (r: String)
        ensures
            r@ == with_josa(self@, josa),
    {
        let mut s = self;
        s.push_josa(josa);
        s
    }
}

impl AddSpecImpl<Josa> for String {
    /// `+` is stated by the `ensures` of `add`, over the views: no string
    /// can be named in a specification by its characters alone.
    open spec fn obeys_add_spec() -> bool {
        false
    }

    open spec fn add_req(self, josa: Josa) -> bool {
        true
    }

    open spec fn add_spec(self, josa: Josa) -> String {
        self
    }
}

impl AddAssign<Josa> for String {
    /// Appends `josa` as `push_josa` appends it.
    fn add_assign(&mut self, josa: Josa)
        ensures
            final(self)@ == with_josa(old(self)@, josa),
    {
        self.push_josa(josa);
    }
}

/// After any text, a syllable selects the form that belongs to its
/// trailing-consonant slot, for every josa and every place of the Hangul
/// Syllables block.
pub proof fn lemma_select_by_slot(before: Seq<char>, run: int, slot: int, josa: Josa)
    requires
        0 <= run < RUN_COUNT,
        0 <= slot < JONGSEONG_COUNT,
    ensures
        selection(before.push(syllable_at(run, slot)), josa) == Ok::<Seq<char>, Error>(
            josa.form(kind_at(slot)),
        ),
{
    lemma_syllable_at(run, slot);
    assert(before.push(syllable_at(run, slot)).last() == syllable_at(run, slot));
}

/// A josa that is appended second follows what the first appended, not the
/// noun: where the first added anything, the second is selected by the first
/// one's form alone; where the first added nothing, the noun is unchanged.
pub proof fn lemma_second_follows_first(noun: Seq<char>, first: Josa, second: Josa)
    ensures
        suffix(noun, first).len() > 0 ==> suffix(with_josa(noun, first), second) == suffix(
            suffix(noun, first),
            second,
        ),
        suffix(noun, first).len() == 0 ==> with_josa(noun, first) == noun,
        with_josa(with_josa(noun, first), second) == noun + suffix(noun, first) + suffix(
            with_josa(noun, first),
            second,
        ),
{
    let added = suffix(noun, first);
    if added.len() > 0 {
        assert(with_josa(noun, first).last() == added.last());
    } else {
        assert(with_josa(noun, first) =~= noun);
    }
}

/// Appending is not idempotent. Appending the same josa twice adds two
/// particles exactly where the noun is not empty and either the josa is one
/// that is always written or the noun ends with a character that is no
/// Hangul syllable. Elsewhere a call adds nothing: to an empty noun, after an
/// open syllable, or after the vowel-final form that the call before it
/// added.
pub proof fn lemma_twice_adds_two(noun: Seq<char>, josa: Josa)
    ensures
        (suffix(noun, josa).len() > 0 && suffix(with_josa(noun, josa), josa).len() > 0) <==> (
        noun.len() > 0 && (josa.always_written() || !is_syllable(noun.last()))),
{
    lemma_second_follows_first(noun, josa, josa);
    lemma_kind_by_slot('이');
    lemma_kind_by_slot('으');
    if noun.len() > 0 {
        if is_syllable(noun.last()) {
            let added = josa.form(kind_of(noun.last()));
            if added.len() > 0 {
                assert(with_josa(noun, josa).last() == added[0]);
            }
        } else {
            assert(josa.both_forms().last() == ')');
        }
    }
}

} // verus!
