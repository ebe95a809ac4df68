//! The two ways in which selecting a josa can fail.

use hangul::ParseSyllableError;
use vstd::prelude::*;
use vstd::std_specs::convert::FromSpecImpl;
use vstd::string::StringExecFns;

verus! {

/// Why no josa could be selected for a string.
#[derive(Debug, Clone, Copy, PartialEq, Eq)]
pub enum Error {
    /// The string is empty.
    EmptyStr,
    /// The string ends with this character, which is no Hangul syllable.
    ParseSyllable(char),
}

/// The result of an operation that selects a josa.
pub type Result<T> = std::result::Result<T, Error>;

impl From<ParseSyllableError> for Error {
    /// Keeps the character that the decomposition rejected.
    fn from(e: ParseSyllableError) -> (r: Error) {
        Error::ParseSyllable(e.0)
    }
}

impl FromSpecImpl<ParseSyllableError> for Error {
    open spec fn obeys_from_spec() -> bool {
        true
    }

    open spec fn from_spec(e: ParseSyllableError) -> Error {
        Error::ParseSyllable(e.0)
    }
}

/// `String::push` of std appends one character to the string.
pub assume_specification[ String::push ](s: &mut String, ch: char)
    ensures
        final(s)@ == old(s)@.push(ch),
;

impl Error {
    /// The text that describes this error.
    pub open spec fn message(self) -> Seq<char> {
        match self {
            Error::EmptyStr => "Empty string given to josa selector"@,
            Error::ParseSyllable(c) => seq![c] + " is not a Hangul Syllable"@,
        }
    }

    /// Describes this error in words; the character that is no Hangul
    /// syllable comes first.
    pub fn to_string(&self) -> (r: String)
        ensures
            r@ == self.message(),
    {
        match self {
            Error::EmptyStr => String::from_str("Empty string given to josa selector"),
            Error::ParseSyllable(c) => {
                let mut r = String::new();
                r.push(*c);
                r.append(" is not a Hangul Syllable");
                assert(r@ =~= self.message());
                r
            },
        }
    }
}

} // verus!
