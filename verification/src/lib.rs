//! Appending josa, the Korean postpositions, to a string in the form that
//! the string calls for.
//!
//! Many josa come in two forms, and which one is written depends on how the
//! syllable in front of it ends: with a vowel, with the liquid consonant 'ㄹ',
//! or with another consonant. This library reads the last character of a
//! noun, asks the `hangul` crate for its trailing consonant, and picks the
//! form from a fixed table.
//!
//! There are three ways to use it:
//!
//! - [`JosaExt::push_josa`] appends a [`Josa`] to a `String` in place;
//! - `+` and `+=` do the same as operators;
//! - [`select`] only returns the form, and reports an [`Error`] where none
//!   can be chosen.
//!
//! The appending operations never fail. To an empty string they add nothing;
//! after a character that is no Hangul syllable they add both forms side by
//! side, as in `curry이(가)`.
//!
//! Every function carries a contract over the characters of its arguments,
//! and the contracts are proved against the table in [`Josa::form`]. What is
//! believed without proof is the decomposition done by the `hangul` crate,
//! stated in [`syllable`].

pub mod error;
pub mod kind;
pub mod particle;
pub mod select;
pub mod syllable;

pub use error::{Error, Result};
pub use kind::JongseongKind;
pub use particle::Josa;
pub use particle::Josa::{EulReul, Eu, EunNeun, GwaWa, IGa, I};
pub use select::{select, JosaExt};
