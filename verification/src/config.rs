use vstd::prelude::*;

verus! {

/// How tolerant the parser is of common misspellings.
#[derive(Copy, Clone, PartialEq, Eq, Debug, Hash, Structural)]
pub enum Strictness {
    /// Refuses a breve in place of a háček, look-alike letters, and an
    /// apostrophe that is not followed by `a`, `e` or `o`.
    Strict,
    /// As `Strict`, and the curly quote `’` is no apostrophe but an
    /// unrelated character.
    StrictAndSeparateApostropheFromCurlyQuote,
    /// Repairs all of these silently.
    Loose,
}

impl Strictness {
    /// The two strict modes, as opposed to `Loose`.
    pub open spec fn spec_is_strict(self) -> bool {
        self == Strictness::Strict || self
            == Strictness::StrictAndSeparateApostropheFromCurlyQuote
    }

    /// Whether this is one of the two strict modes.
    #[must_use]
    #[verifier::when_used_as_spec(spec_is_strict)]
    pub fn is_strict(self) -> (b: bool)
        ensures
            b == self.spec_is_strict(),
    {
        self == Self::Strict || self == Self::StrictAndSeparateApostropheFromCurlyQuote
    }
}

/// The settings of a parser, as plain values: the mathematical model of
/// [`PinyinParser`].
pub struct Configuration {
    pub strictness: Strictness,
    pub preserve_punctuation: bool,
    pub preserve_spaces: bool,
    pub preserve_miscellaneous: bool,
}

/// A parser configuration, built step by step; each step returns a new value.
#[derive(Copy, Clone, PartialEq, Eq, Debug, Hash, Structural)]
#[allow(clippy::struct_excessive_bools)]
pub struct PinyinParser {
    p_strict: Strictness,
    p_preserve_punctuations: bool,
    p_preserve_spaces: bool,
    p_preserve_miscellaneous: bool,
}

impl View for PinyinParser {
    type V = Configuration;

    closed spec fn view(&self) -> Configuration {
        Configuration {
            strictness: self.p_strict,
            preserve_punctuation: self.p_preserve_punctuations,
            preserve_spaces: self.p_preserve_spaces,
            preserve_miscellaneous: self.p_preserve_miscellaneous,
        }
    }
}

impl Default for PinyinParser {
    fn default() -> (p: Self)
        ensures
            p@ == Configuration::initial(),
    {
        Self::new()
    }
}

impl Configuration {
    /// The configuration that a new parser starts from: loose, and nothing
    /// but syllables is kept.
    pub open spec fn initial() -> Configuration {
        Configuration {
            strictness: Strictness::Loose,
            preserve_punctuation: false,
            preserve_spaces: false,
            preserve_miscellaneous: false,
        }
    }
}

impl PinyinParser {
    /// A loose parser that keeps nothing but syllables.
    #[must_use]
    pub fn new() -> (p: Self)
        ensures
            p@ == Configuration::initial(),
    {
        Self {
            p_strict: Strictness::Loose,
            p_preserve_spaces: false,
            p_preserve_punctuations: false,
            p_preserve_miscellaneous: false,
        }
    }

    /// Chooses between `Strict` (for `true`) and `Loose`. Prefer
    /// [`PinyinParser::with_strictness`], which can name all three modes.
    #[must_use]
    pub fn is_strict(self, b: bool) -> (p: Self)
        ensures
            p@ == (Configuration {
                strictness: if b {
                    Strictness::Strict
                } else {
                    Strictness::Loose
                },
                ..self@
            }),
    {
        Self { p_strict: if b {
            Strictness::Strict
        } else {
            Strictness::Loose
        }, ..self }
    }

    /// The same configuration with another strictness.
    #[must_use]
    pub fn with_strictness(self, strictness: Strictness) -> (p: Self)
        ensures
            p@ == (Configuration { strictness, ..self@ }),
    {
        Self { p_strict: strictness, ..self }
    }

    /// The same configuration, but that whitespace graphemes are yielded if
    /// `b` is set and dropped if not.
    #[must_use]
    pub fn preserve_spaces(self, b: bool) -> (p: Self)
        ensures
            p@ == (Configuration { preserve_spaces: b, ..self@ }),
    {
        Self { p_preserve_spaces: b, ..self }
    }

    /// The same configuration, but that punctuation graphemes are yielded if
    /// `b` is set and dropped if not.
    #[must_use]
    pub fn preserve_punctuations(self, b: bool) -> (p: Self)
        ensures
            p@ == (Configuration { preserve_punctuation: b, ..self@ }),
    {
        Self { p_preserve_punctuations: b, ..self }
    }

    /// The same configuration, but that graphemes which are neither pinyin,
    /// punctuation nor whitespace are yielded if `b` is set and dropped if not.
    #[must_use]
    pub fn preserve_miscellaneous(self, b: bool) -> (p: Self)
        ensures
            p@ == (Configuration { preserve_miscellaneous: b, ..self@ }),
    {
        Self { p_preserve_miscellaneous: b, ..self }
    }

    /// The strictness that was chosen.
    pub fn strictness(&self) -> (s: Strictness)
        ensures
            s == self@.strictness,
    {
        self.p_strict
    }

    /// Whether punctuation graphemes are yielded.
    pub fn keeps_punctuations(&self) -> (b: bool)
        ensures
            b == self@.preserve_punctuation,
    {
        self.p_preserve_punctuations
    }

    /// Whether whitespace graphemes are yielded.
    pub fn keeps_spaces(&self) -> (b: bool)
        ensures
            b == self@.preserve_spaces,
    {
        self.p_preserve_spaces
    }

    /// Whether graphemes that are neither pinyin, punctuation nor whitespace
    /// are yielded.
    pub fn keeps_miscellaneous(&self) -> (b: bool)
        ensures
            b == self@.preserve_miscellaneous,
    {
        self.p_preserve_miscellaneous
    }
}

} // verus!
