//! The josa that this library knows, and the form that each takes after each
//! kind of syllable.

use crate::error::Error;
use crate::kind::{classify, JongseongKind};
use vstd::prelude::*;

verus! {

/// A josa whose form depends on the syllable in front of it.
#[derive(Debug, Clone, Copy, PartialEq, Eq)]
pub enum Josa {
    /// 은/는
    EunNeun,
    /// 이/가
    IGa,
    /// 을/를
    EulReul,
    /// 과/와
    GwaWa,
    /// 이다/다, 이나/나, 이란/란, 이든가/든가, 이나마/나마, 이야말로/야말로,
    /// 이랑/랑, 이여/여, 이며/며
    I,
    /// 으로/로, 으로서/로서, 으로써/로써, 으로부터/로부터
    Eu,
}

impl Josa {
    /// The form of this josa after a syllable of the given kind.
    pub open spec fn form(self, kind: JongseongKind) -> Seq<char> {
        match (kind, self) {
            (JongseongKind::Open, Josa::EunNeun) => seq!['는'],
            (JongseongKind::Open, Josa::IGa) => seq!['가'],
            (JongseongKind::Open, Josa::EulReul) => seq!['를'],
            (JongseongKind::Open, Josa::GwaWa) => seq!['와'],
            (JongseongKind::Open, Josa::I) => seq![],
            (JongseongKind::Open, Josa::Eu) => seq![],
            (JongseongKind::Rieul, Josa::EunNeun) => seq!['은'],
            (JongseongKind::Rieul, Josa::IGa) => seq!['이'],
            (JongseongKind::Rieul, Josa::EulReul) => seq!['을'],
            (JongseongKind::Rieul, Josa::GwaWa) => seq!['과'],
            (JongseongKind::Rieul, Josa::I) => seq!['이'],
            (JongseongKind::Rieul, Josa::Eu) => seq![],
            (JongseongKind::Closed, Josa::EunNeun) => seq!['은'],
            (JongseongKind::Closed, Josa::IGa) => seq!['이'],
            (JongseongKind::Closed, Josa::EulReul) => seq!['을'],
            (JongseongKind::Closed, Josa::GwaWa) => seq!['과'],
            (JongseongKind::Closed, Josa::I) => seq!['이'],
            (JongseongKind::Closed, Josa::Eu) => seq!['으'],
        }
    }

    /// Both forms of this josa side by side, for where the syllable in front
    /// cannot be told.
    pub open spec fn both_forms(self) -> Seq<char> {
        match self {
            Josa::EunNeun => seq!['은', '(', '는', ')'],
            Josa::IGa => seq!['이', '(', '가', ')'],
            Josa::EulReul => seq!['을', '(', '를', ')'],
            Josa::GwaWa => seq!['와', '(', '과', ')'],
            Josa::I => seq!['(', '이', ')'],
            Josa::Eu => seq!['(', '으', ')'],
        }
    }

    /// Whether this josa has a form of at least one character after every
    /// kind of syllable. The other josa, `I` and `Eu`, vanish after an open
    /// syllable.
    pub open spec fn always_written(self) -> bool {
        self is EunNeun || self is IGa || self is EulReul || self is GwaWa
    }

    /// What selecting this josa after `c` gives: its form after the kind of
    /// `c`, or the error of classifying `c`.
    pub open spec fn selected(self, c: char) -> Result<Seq<char>, Error> {
        match classify(c) {
            Ok(kind) => Ok(self.form(kind)),
            Err(e) => Err(e),
        }
    }

    /// The form of this josa after an open syllable.
    pub fn open(self) -> (r: &'static str)
        ensures
            r@ == self.form(JongseongKind::Open),
    {
        proof {
            reveal_strlit("는");
            reveal_strlit("가");
            reveal_strlit("를");
            reveal_strlit("와");
            reveal_strlit("");
        }
        let r = match self {
            Josa::EunNeun => "는",
            Josa::IGa => "가",
            Josa::EulReul => "를",
            Josa::GwaWa => "와",
            Josa::I => "",
            Josa::Eu => "",
        };
        assert(r@ =~= self.form(JongseongKind::Open));
        r
    }

    /// The form of this josa after a syllable that ends with 'ㄹ'.
    pub fn rieul(self) -> (r: &'static str)
        ensures
            r@ == self.form(JongseongKind::Rieul),
    {
        proof {
            reveal_strlit("은");
            reveal_strlit("이");
            reveal_strlit("을");
            reveal_strlit("과");
            reveal_strlit("");
        }
        let r = match self {
            Josa::EunNeun => "은",
            Josa::IGa => "이",
            Josa::EulReul => "을",
            Josa::GwaWa => "과",
            Josa::I => "이",
            Josa::Eu => "",
        };
        assert(r@ =~= self.form(JongseongKind::Rieul));
        r
    }

    /// The form of this josa after a syllable that ends with a consonant
    /// other than 'ㄹ'.
    pub fn closed(self) -> (r: &'static str)
        ensures
            r@ == self.form(JongseongKind::Closed),
    {
        proof {
            reveal_strlit("은");
            reveal_strlit("이");
            reveal_strlit("을");
            reveal_strlit("과");
            reveal_strlit("으");
        }
        let r = match self {
            Josa::EunNeun => "은",
            Josa::IGa => "이",
            Josa::EulReul => "을",
            Josa::GwaWa => "과",
            Josa::I => "이",
            Josa::Eu => "으",
        };
        assert(r@ =~= self.form(JongseongKind::Closed));
        r
    }

    /// Both forms of this josa side by side.
    pub fn both(self) -> (r: &'static str)
        ensures
            r@ == self.both_forms(),
    {
        proof {
            reveal_strlit("은(는)");
            reveal_strlit("이(가)");
            reveal_strlit("을(를)");
            reveal_strlit("와(과)");
            reveal_strlit("(이)");
            reveal_strlit("(으)");
        }
        let r = match self {
            Josa::EunNeun => "은(는)",
            Josa::IGa => "이(가)",
            Josa::EulReul => "을(를)",
            Josa::GwaWa => "와(과)",
            Josa::I => "(이)",
            Josa::Eu => "(으)",
        };
        assert(r@ =~= self.both_forms());
        r
    }

    /// Selects the form of this josa that follows the character `c`.
    ///
    /// Fails with `Error::ParseSyllable(c)` exactly where `c` is no Hangul
    /// syllable.
    pub fn select(self, c: char) -> (r: Result<&'static str, Error>)
        ensures
            match self.selected(c) {
                Ok(form) => r is Ok && r->Ok_0@ == form,
                Err(e) => r == Err::<&'static str, Error>(e),
            },
    {
        match JongseongKind::try_from(c) {
            Ok(JongseongKind::Open) => Ok(self.open()),
            Ok(JongseongKind::Rieul) => Ok(self.rieul()),
            Ok(JongseongKind::Closed) => Ok(self.closed()),
            Err(e) => Err(e),
        }
    }
}

} // verus!
