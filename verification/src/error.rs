use vstd::prelude::*;

verus! {

/// Why a text was refused. Every one of these is fatal: once an iterator has
/// met one, it yields nothing more.
#[derive(Copy, Clone, PartialEq, Eq, Debug, Hash, Structural)]
pub enum ParseError {
    /// A grapheme without any character was handed to the tokenizer.
    EmptyGrapheme,
    /// A look-alike of a pinyin letter (IPA or Greek) was met in a strict mode.
    ConfusableLetter,
    /// A syllable begins with `i`, `u` or `ŋ`.
    IllegalSyllableStart,
    /// Something other than a letter follows an initial, or an apostrophe
    /// stands where no syllable precedes it.
    MalformedSyllable,
    /// In a strict mode, an apostrophe is not followed by `a`, `e` or `o`.
    StrictApostropheMisplaced,
    /// No final fits after an initial, or the text ends inside an initial.
    UnmatchedFinal,
}

} // verus!
