use crate::config::Strictness;
use crate::error::ParseError;
use crate::unicode::{char_is_whitespace, is_whitespace_char, nfc, nfc_form};
use vstd::prelude::*;
use vstd::string::{StrSliceExecFns, StringExecFns};

verus! {

/// A combining mark that a pinyin letter may carry.
#[derive(Debug, Copy, Clone, PartialEq, Eq, Hash, Structural)]
pub enum Diacritic {
    /// Two dots, as on `ü`.
    Umlaut,
    /// First tone.
    Macron,
    /// Second tone.
    Acute,
    /// Third tone.
    Hacek,
    /// A frequent misspelling of the third tone.
    Breve,
    /// Fourth tone.
    Grave,
    /// As on `ê`, and on `ẑ`, `ĉ`, `ŝ` for `zh`, `ch`, `sh`.
    Circumflex,
}

impl Diacritic {
    /// The combining character that writes this mark.
    pub open spec fn mark(self) -> char {
        match self {
            Diacritic::Macron => '\u{304}',
            Diacritic::Acute => '\u{301}',
            Diacritic::Hacek => '\u{30c}',
            Diacritic::Grave => '\u{300}',
            Diacritic::Breve => '\u{306}',
            Diacritic::Umlaut => '\u{308}',
            Diacritic::Circumflex => '\u{302}',
        }
    }

    /// This mark, with a breve turned into the háček it was meant to be.
    pub open spec fn fixing_breve(self) -> Diacritic {
        if self == Diacritic::Breve {
            Diacritic::Hacek
        } else {
            self
        }
    }

    /// The mark as it is written out under a strictness: as it stands in a
    /// strict mode, with a breve repaired otherwise.
    pub open spec fn written(self, strictness: Strictness) -> char {
        if strictness.is_strict() {
            self.mark()
        } else {
            self.fixing_breve().mark()
        }
    }

    /// The combining character of the mark, that of a háček for a breve.
    #[must_use]
    pub fn to_str_fixing_breve(&self) -> (s: &'static str)
        ensures
            s@ == seq![self.fixing_breve().mark()],
    {
        match self {
            Diacritic::Breve => Diacritic::Hacek.to_str(),
            a => a.to_str(),
        }
    }

    /// The combining character of the mark, as a text.
    #[must_use]
    pub fn to_str(&self) -> (s: &'static str)
        ensures
            s@ == seq![self.mark()],
    {
        proof {
            reveal_strlit("\u{304}");
            reveal_strlit("\u{301}");
            reveal_strlit("\u{30c}");
            reveal_strlit("\u{300}");
            reveal_strlit("\u{306}");
            reveal_strlit("\u{308}");
            reveal_strlit("\u{302}");
        }
        match self {
            Diacritic::Macron => "\u{304}",
            Diacritic::Acute => "\u{301}",
            Diacritic::Hacek => "\u{30c}",
            Diacritic::Grave => "\u{300}",
            Diacritic::Breve => "\u{306}",
            Diacritic::Umlaut => "\u{308}",
            Diacritic::Circumflex => "\u{302}",
        }
    }
}

/// A letter of the pinyin alphabet: the Latin letters but `V`, which stands
/// for `ü` and is read as `U` with an umlaut, and the letter eng (`ŋ`), here
/// `Ng`, which abbreviates `ng`.
#[derive(Debug, Copy, Clone, PartialEq, Eq, Hash, Structural)]
pub enum Alphabet {
    A,
    B,
    C,
    D,
    E,
    F,
    G,
    H,
    I,
    J,
    K,
    L,
    M,
    N,
    O,
    P,
    Q,
    R,
    S,
    T,
    U,
    W,
    X,
    Y,
    Z,
    Ng,
}

impl Alphabet {
    /// The capital form of the letter.
    pub open spec fn upper(self) -> char {
        match self {
            Self::A => 'A',
            Self::B => 'B',
            Self::C => 'C',
            Self::D => 'D',
            Self::E => 'E',
            Self::F => 'F',
            Self::G => 'G',
            Self::H => 'H',
            Self::I => 'I',
            Self::J => 'J',
            Self::K => 'K',
            Self::L => 'L',
            Self::M => 'M',
            Self::N => 'N',
            Self::O => 'O',
            Self::P => 'P',
            Self::Q => 'Q',
            Self::R => 'R',
            Self::S => 'S',
            Self::T => 'T',
            Self::U => 'U',
            Self::W => 'W',
            Self::X => 'X',
            Self::Y => 'Y',
            Self::Z => 'Z',
            Self::Ng => '\u{14a}',
        }
    }

    /// The small form of the letter.
    pub open spec fn lower(self) -> char {
        match self {
            Self::A => 'a',
            Self::B => 'b',
            Self::C => 'c',
            Self::D => 'd',
            Self::E => 'e',
            Self::F => 'f',
            Self::G => 'g',
            Self::H => 'h',
            Self::I => 'i',
            Self::J => 'j',
            Self::K => 'k',
            Self::L => 'l',
            Self::M => 'm',
            Self::N => 'n',
            Self::O => 'o',
            Self::P => 'p',
            Self::Q => 'q',
            Self::R => 'r',
            Self::S => 's',
            Self::T => 't',
            Self::U => 'u',
            Self::W => 'w',
            Self::X => 'x',
            Self::Y => 'y',
            Self::Z => 'z',
            Self::Ng => '\u{14b}',
        }
    }

    /// Whether the letter is one of `a`, `e`, `i`, `o`, `u`.
    pub open spec fn spec_is_vowel(self) -> bool {
        self == Alphabet::A || self == Alphabet::E || self == Alphabet::I || self == Alphabet::O
            || self == Alphabet::U
    }

    /// Whether the letter is one of `a`, `e`, `i`, `o`, `u`.
    #[verifier::when_used_as_spec(spec_is_vowel)]
    pub fn is_vowel(self) -> (b: bool)
        ensures
            b == self.spec_is_vowel(),
    {
        matches!(self, Alphabet::A | Alphabet::E | Alphabet::I | Alphabet::O | Alphabet::U)
    }

    /// The capital form of the letter, as a text.
    #[must_use]
    pub fn to_cap(self) -> (s: &'static str)
        ensures
            s@ == seq![self.upper()],
    {
        proof {
            reveal_strlit("A");
            reveal_strlit("B");
            reveal_strlit("C");
            reveal_strlit("D");
            reveal_strlit("E");
            reveal_strlit("F");
            reveal_strlit("G");
            reveal_strlit("H");
            reveal_strlit("I");
            reveal_strlit("J");
            reveal_strlit("K");
            reveal_strlit("L");
            reveal_strlit("M");
            reveal_strlit("N");
            reveal_strlit("O");
            reveal_strlit("P");
            reveal_strlit("Q");
            reveal_strlit("R");
            reveal_strlit("S");
            reveal_strlit("T");
            reveal_strlit("U");
            reveal_strlit("W");
            reveal_strlit("X");
            reveal_strlit("Y");
            reveal_strlit("Z");
            reveal_strlit("\u{14a}");
        }
        match self {
            Self::A => "A",
            Self::B => "B",
            Self::C => "C",
            Self::D => "D",
            Self::E => "E",
            Self::F => "F",
            Self::G => "G",
            Self::H => "H",
            Self::I => "I",
            Self::J => "J",
            Self::K => "K",
            Self::L => "L",
            Self::M => "M",
            Self::N => "N",
            Self::O => "O",
            Self::P => "P",
            Self::Q => "Q",
            Self::R => "R",
            Self::S => "S",
            Self::T => "T",
            Self::U => "U",
            Self::W => "W",
            Self::X => "X",
            Self::Y => "Y",
            Self::Z => "Z",
            Self::Ng => "\u{14a}",
        }
    }

    /// The small form of the letter, as a text.
    #[must_use]
    pub fn to_low(self) -> (s: &'static str)
        ensures
            s@ == seq![self.lower()],
    {
        proof {
            reveal_strlit("a");
            reveal_strlit("b");
            reveal_strlit("c");
            reveal_strlit("d");
            reveal_strlit("e");
            reveal_strlit("f");
            reveal_strlit("g");
            reveal_strlit("h");
            reveal_strlit("i");
            reveal_strlit("j");
            reveal_strlit("k");
            reveal_strlit("l");
            reveal_strlit("m");
            reveal_strlit("n");
            reveal_strlit("o");
            reveal_strlit("p");
            reveal_strlit("q");
            reveal_strlit("r");
            reveal_strlit("s");
            reveal_strlit("t");
            reveal_strlit("u");
            reveal_strlit("w");
            reveal_strlit("x");
            reveal_strlit("y");
            reveal_strlit("z");
            reveal_strlit("\u{14b}");
        }
        match self {
            Self::A => "a",
            Self::B => "b",
            Self::C => "c",
            Self::D => "d",
            Self::E => "e",
            Self::F => "f",
            Self::G => "g",
            Self::H => "h",
            Self::I => "i",
            Self::J => "j",
            Self::K => "k",
            Self::L => "l",
            Self::M => "m",
            Self::N => "n",
            Self::O => "o",
            Self::P => "p",
            Self::Q => "q",
            Self::R => "r",
            Self::S => "s",
            Self::T => "t",
            Self::U => "u",
            Self::W => "w",
            Self::X => "x",
            Self::Y => "y",
            Self::Z => "z",
            Self::Ng => "\u{14b}",
        }
    }
}

/// A letter as the parser sees it: the mathematical model of
/// [`AlphabetWithDiacritics`].
pub struct Letter {
    pub capitalized: bool,
    pub base: Alphabet,
    /// The marks in the order in which they were met.
    pub diacritics: Seq<Diacritic>,
}

impl Letter {
    /// The letter written out before normalization: the base, small unless
    /// `keep_case` asks for the capital of a capitalized letter, and then
    /// each mark as `strictness` has it written.
    pub open spec fn spelling(self, keep_case: bool, strictness: Strictness) -> Seq<char> {
        seq![
            if keep_case && self.capitalized {
                self.base.upper()
            } else {
                self.base.lower()
            },
        ] + Seq::new(self.diacritics.len(), |i: int| self.diacritics[i].written(strictness))
    }

    /// The letter as a text in Normalization Form C.
    pub open spec fn text(self, keep_case: bool, strictness: Strictness) -> Seq<char> {
        nfc_form(self.spelling(keep_case, strictness))
    }
}

/// A letter with its case and the marks it carries.
#[derive(Debug, Clone, PartialEq, Eq, Hash)]
pub struct AlphabetWithDiacritics {
    pub capitalized: bool,
    pub alphabet: Alphabet,
    pub diacritics: Vec<Diacritic>,
}

impl View for AlphabetWithDiacritics {
    type V = Letter;

    open spec fn view(&self) -> Letter {
        Letter {
            capitalized: self.capitalized,
            base: self.alphabet,
            diacritics: self.diacritics@,
        }
    }
}

impl AlphabetWithDiacritics {
    /// The letter in small form, normalized.
    pub fn to_str(&self, strictness: Strictness) -> (s: String)
        ensures
            s@ == self@.text(false, strictness),
            nfc_form(s@) == s@,
    {
        self.to_str_preserving_capitalization(false, strictness)
    }

    /// The letter, normalized; a capitalized letter keeps its capital where
    /// `preserve_capitalization` is set.
    pub fn to_str_preserving_capitalization(
        &self,
        preserve_capitalization: bool,
        strictness: Strictness,
    ) -> (s: String)
        ensures
            s@ == self@.text(preserve_capitalization, strictness),
            nfc_form(s@) == s@,
    {
        let base = if preserve_capitalization && self.capitalized {
            self.alphabet.to_cap()
        } else {
            self.alphabet.to_low()
        };
        let mut spelled = String::from_str(base);
        let strict = strictness.is_strict();
        let mut i: usize = 0;
        while i < self.diacritics.len()
            invariant
                i <= self.diacritics.len(),
                strict == strictness.is_strict(),
                spelled@ == base@ + Seq::new(
                    i as nat,
                    |j: int| self.diacritics@[j].written(strictness),
                ),
            decreases self.diacritics.len() - i,
        {
            let d = self.diacritics[i];
            let mark = if strict {
                d.to_str()
            } else {
                d.to_str_fixing_breve()
            };
            spelled.append(mark);
            i += 1;
        }
        nfc(spelled.as_str())
    }
}

/// What one grapheme is to the parser: the mathematical model of
/// [`PinyinToken`].
pub enum PinyinAtom {
    Letter(Letter),
    /// The middle dot that announces a neutral tone.
    LightToneMarker,
    /// One of `! - ? — …`, with the grapheme as it was written.
    Punctuation(Seq<char>),
    Apostrophe,
    /// A grapheme that begins with whitespace, as it was written.
    Space(Seq<char>),
    /// Any other grapheme, as it was written.
    Others(Seq<char>),
}

impl PinyinAtom {
    /// The base of a letter; nothing for any other atom.
    pub open spec fn base(self) -> Option<Alphabet> {
        match self {
            PinyinAtom::Letter(l) => Some(l.base),
            _ => None,
        }
    }
}

/// A grapheme, classified.
#[derive(Debug, Clone, PartialEq, Eq, Hash)]
pub enum PinyinToken {
    Alph(AlphabetWithDiacritics),
    LightToneMarker,
    Punctuation(String),
    Apostrophe,
    Space(String),
    Others(String),
}

impl View for PinyinToken {
    type V = PinyinAtom;

    open spec fn view(&self) -> PinyinAtom {
        match self {
            PinyinToken::Alph(a) => PinyinAtom::Letter(a@),
            PinyinToken::LightToneMarker => PinyinAtom::LightToneMarker,
            PinyinToken::Punctuation(s) => PinyinAtom::Punctuation(s@),
            PinyinToken::Apostrophe => PinyinAtom::Apostrophe,
            PinyinToken::Space(s) => PinyinAtom::Space(s@),
            PinyinToken::Others(s) => PinyinAtom::Others(s@),
        }
    }
}

impl DeepView for PinyinToken {
    type V = PinyinAtom;

    open spec fn deep_view(&self) -> PinyinAtom {
        self@
    }
}

/// The marks that the first character of a grapheme brings with it, in the
/// order of its canonical decomposition.
#[derive(Debug, Copy, Clone, PartialEq, Eq, Hash, Structural)]
pub enum Marks {
    Zero,
    One(Diacritic),
    Two(Diacritic, Diacritic),
}

impl Marks {
    /// The marks as a list.
    pub open spec fn to_seq(self) -> Seq<Diacritic> {
        match self {
            Marks::Zero => seq![],
            Marks::One(a) => seq![a],
            Marks::Two(a, b) => seq![a, b],
        }
    }

    /// The marks as the start of a letter's list of diacritics.
    pub fn to_vec(self) -> (v: Vec<Diacritic>)
        ensures
            v@ == self.to_seq(),
    {
        let mut v = Vec::new();
        match self {
            Marks::Zero => {},
            Marks::One(a) => {
                v.push(a);
            },
            Marks::Two(a, b) => {
                v.push(a);
                v.push(b);
            },
        }
        v
    }
}

/// What the first character of a grapheme says of the grapheme.
#[derive(Debug, Copy, Clone, PartialEq, Eq, Hash, Structural)]
pub enum Head {
    /// A pinyin letter: whether it is a capital, its base, and the marks
    /// that a precomposed character holds.
    Letter(bool, Alphabet, Marks),
    /// A look-alike from IPA or Greek, with the case and the letter that it
    /// passes for.
    Confusable(bool, Alphabet),
    LightToneMarker,
    /// The straight apostrophe.
    Apostrophe,
    /// The right single quotation mark.
    CurlyQuote,
    Punctuation,
    /// Anything else: whitespace or an unrelated character.
    Other,
}

/// The table of first characters. A precomposed letter stands for its base
/// and marks; `v` stands for `ü`.
pub open spec fn spec_head(c: char) -> Head {
    match c {
        'a' => Head::Letter(false, Alphabet::A, Marks::Zero),
        'A' => Head::Letter(true, Alphabet::A, Marks::Zero),
        'b' => Head::Letter(false, Alphabet::B, Marks::Zero),
        'B' => Head::Letter(true, Alphabet::B, Marks::Zero),
        'c' => Head::Letter(false, Alphabet::C, Marks::Zero),
        'C' => Head::Letter(true, Alphabet::C, Marks::Zero),
        'd' => Head::Letter(false, Alphabet::D, Marks::Zero),
        'D' => Head::Letter(true, Alphabet::D, Marks::Zero),
        'e' => Head::Letter(false, Alphabet::E, Marks::Zero),
        'E' => Head::Letter(true, Alphabet::E, Marks::Zero),
        'f' => Head::Letter(false, Alphabet::F, Marks::Zero),
        'F' => Head::Letter(true, Alphabet::F, Marks::Zero),
        'g' => Head::Letter(false, Alphabet::G, Marks::Zero),
        'G' => Head::Letter(true, Alphabet::G, Marks::Zero),
        'h' => Head::Letter(false, Alphabet::H, Marks::Zero),
        'H' => Head::Letter(true, Alphabet::H, Marks::Zero),
        'i' => Head::Letter(false, Alphabet::I, Marks::Zero),
        'I' => Head::Letter(true, Alphabet::I, Marks::Zero),
        'j' => Head::Letter(false, Alphabet::J, Marks::Zero),
        'J' => Head::Letter(true, Alphabet::J, Marks::Zero),
        'k' => Head::Letter(false, Alphabet::K, Marks::Zero),
        'K' => Head::Letter(true, Alphabet::K, Marks::Zero),
        'l' => Head::Letter(false, Alphabet::L, Marks::Zero),
        'L' => Head::Letter(true, Alphabet::L, Marks::Zero),
        'm' => Head::Letter(false, Alphabet::M, Marks::Zero),
        'M' => Head::Letter(true, Alphabet::M, Marks::Zero),
        'n' => Head::Letter(false, Alphabet::N, Marks::Zero),
        'N' => Head::Letter(true, Alphabet::N, Marks::Zero),
        'o' => Head::Letter(false, Alphabet::O, Marks::Zero),
        'O' => Head::Letter(true, Alphabet::O, Marks::Zero),
        'p' => Head::Letter(false, Alphabet::P, Marks::Zero),
        'P' => Head::Letter(true, Alphabet::P, Marks::Zero),
        'q' => Head::Letter(false, Alphabet::Q, Marks::Zero),
        'Q' => Head::Letter(true, Alphabet::Q, Marks::Zero),
        'r' => Head::Letter(false, Alphabet::R, Marks::Zero),
        'R' => Head::Letter(true, Alphabet::R, Marks::Zero),
        's' => Head::Letter(false, Alphabet::S, Marks::Zero),
        'S' => Head::Letter(true, Alphabet::S, Marks::Zero),
        't' => Head::Letter(false, Alphabet::T, Marks::Zero),
        'T' => Head::Letter(true, Alphabet::T, Marks::Zero),
        'u' => Head::Letter(false, Alphabet::U, Marks::Zero),
        'U' => Head::Letter(true, Alphabet::U, Marks::Zero),
        'w' => Head::Letter(false, Alphabet::W, Marks::Zero),
        'W' => Head::Letter(true, Alphabet::W, Marks::Zero),
        'x' => Head::Letter(false, Alphabet::X, Marks::Zero),
        'X' => Head::Letter(true, Alphabet::X, Marks::Zero),
        'y' => Head::Letter(false, Alphabet::Y, Marks::Zero),
        'Y' => Head::Letter(true, Alphabet::Y, Marks::Zero),
        'z' => Head::Letter(false, Alphabet::Z, Marks::Zero),
        'Z' => Head::Letter(true, Alphabet::Z, Marks::Zero),
        '\u{109}' => Head::Letter(false, Alphabet::C, Marks::One(Diacritic::Circumflex)),  // ĉ
        '\u{108}' => Head::Letter(true, Alphabet::C, Marks::One(Diacritic::Circumflex)),  // Ĉ
        '\u{15d}' => Head::Letter(false, Alphabet::S, Marks::One(Diacritic::Circumflex)),  // ŝ
        '\u{15c}' => Head::Letter(true, Alphabet::S, Marks::One(Diacritic::Circumflex)),  // Ŝ
        '\u{1e91}' => Head::Letter(false, Alphabet::Z, Marks::One(Diacritic::Circumflex)),  // ẑ
        '\u{1e90}' => Head::Letter(true, Alphabet::Z, Marks::One(Diacritic::Circumflex)),  // Ẑ
        '\u{14b}' => Head::Letter(false, Alphabet::Ng, Marks::Zero),  // ŋ
        '\u{14a}' => Head::Letter(true, Alphabet::Ng, Marks::Zero),  // Ŋ
        'v' | '\u{fc}' => Head::Letter(false, Alphabet::U, Marks::One(Diacritic::Umlaut)),  // ü
        'V' | '\u{dc}' => Head::Letter(true, Alphabet::U, Marks::One(Diacritic::Umlaut)),  // Ü
        '\u{ea}' => Head::Letter(false, Alphabet::E, Marks::One(Diacritic::Circumflex)),  // ê
        '\u{ca}' => Head::Letter(true, Alphabet::E, Marks::One(Diacritic::Circumflex)),  // Ê
        '\u{101}' => Head::Letter(false, Alphabet::A, Marks::One(Diacritic::Macron)),  // ā
        '\u{100}' => Head::Letter(true, Alphabet::A, Marks::One(Diacritic::Macron)),  // Ā
        '\u{113}' => Head::Letter(false, Alphabet::E, Marks::One(Diacritic::Macron)),  // ē
        '\u{112}' => Head::Letter(true, Alphabet::E, Marks::One(Diacritic::Macron)),  // Ē
        '\u{12b}' => Head::Letter(false, Alphabet::I, Marks::One(Diacritic::Macron)),  // ī
        '\u{12a}' => Head::Letter(true, Alphabet::I, Marks::One(Diacritic::Macron)),  // Ī
        '\u{14d}' => Head::Letter(false, Alphabet::O, Marks::One(Diacritic::Macron)),  // ō
        '\u{14c}' => Head::Letter(true, Alphabet::O, Marks::One(Diacritic::Macron)),  // Ō
        '\u{16b}' => Head::Letter(false, Alphabet::U, Marks::One(Diacritic::Macron)),  // ū
        '\u{16a}' => Head::Letter(true, Alphabet::U, Marks::One(Diacritic::Macron)),  // Ū
        '\u{1d6}' => Head::Letter(false, Alphabet::U, Marks::Two(Diacritic::Umlaut, Diacritic::Macron)),  // ǖ
        '\u{1d5}' => Head::Letter(true, Alphabet::U, Marks::Two(Diacritic::Umlaut, Diacritic::Macron)),  // Ǖ
        '\u{e1}' => Head::Letter(false, Alphabet::A, Marks::One(Diacritic::Acute)),  // á
        '\u{c1}' => Head::Letter(true, Alphabet::A, Marks::One(Diacritic::Acute)),  // Á
        '\u{e9}' => Head::Letter(false, Alphabet::E, Marks::One(Diacritic::Acute)),  // é
        '\u{c9}' => Head::Letter(true, Alphabet::E, Marks::One(Diacritic::Acute)),  // É
        '\u{ed}' => Head::Letter(false, Alphabet::I, Marks::One(Diacritic::Acute)),  // í
        '\u{cd}' => Head::Letter(true, Alphabet::I, Marks::One(Diacritic::Acute)),  // Í
        '\u{f3}' => Head::Letter(false, Alphabet::O, Marks::One(Diacritic::Acute)),  // ó
        '\u{d3}' => Head::Letter(true, Alphabet::O, Marks::One(Diacritic::Acute)),  // Ó
        '\u{fa}' => Head::Letter(false, Alphabet::U, Marks::One(Diacritic::Acute)),  // ú
        '\u{da}' => Head::Letter(true, Alphabet::U, Marks::One(Diacritic::Acute)),  // Ú
        '\u{1d8}' => Head::Letter(false, Alphabet::U, Marks::Two(Diacritic::Umlaut, Diacritic::Acute)),  // ǘ
        '\u{1d7}' => Head::Letter(true, Alphabet::U, Marks::Two(Diacritic::Umlaut, Diacritic::Acute)),  // Ǘ
        '\u{1ebf}' => Head::Letter(false, Alphabet::E, Marks::Two(Diacritic::Circumflex, Diacritic::Acute)),  // ế
        '\u{1ebe}' => Head::Letter(true, Alphabet::E, Marks::Two(Diacritic::Circumflex, Diacritic::Acute)),  // Ế
        '\u{1e3f}' => Head::Letter(false, Alphabet::M, Marks::One(Diacritic::Acute)),  // ḿ
        '\u{1e3e}' => Head::Letter(true, Alphabet::M, Marks::One(Diacritic::Acute)),  // Ḿ
        '\u{144}' => Head::Letter(false, Alphabet::N, Marks::One(Diacritic::Acute)),  // ń
        '\u{143}' => Head::Letter(true, Alphabet::N, Marks::One(Diacritic::Acute)),  // Ń
        '\u{1ce}' => Head::Letter(false, Alphabet::A, Marks::One(Diacritic::Hacek)),  // ǎ
        '\u{1cd}' => Head::Letter(true, Alphabet::A, Marks::One(Diacritic::Hacek)),  // Ǎ
        '\u{11b}' => Head::Letter(false, Alphabet::E, Marks::One(Diacritic::Hacek)),  // ě
        '\u{11a}' => Head::Letter(true, Alphabet::E, Marks::One(Diacritic::Hacek)),  // Ě
        '\u{1d0}' => Head::Letter(false, Alphabet::I, Marks::One(Diacritic::Hacek)),  // ǐ
        '\u{1cf}' => Head::Letter(true, Alphabet::I, Marks::One(Diacritic::Hacek)),  // Ǐ
        '\u{1d2}' => Head::Letter(false, Alphabet::O, Marks::One(Diacritic::Hacek)),  // ǒ
        '\u{1d1}' => Head::Letter(true, Alphabet::O, Marks::One(Diacritic::Hacek)),  // Ǒ
        '\u{1d4}' => Head::Letter(false, Alphabet::U, Marks::One(Diacritic::Hacek)),  // ǔ
        '\u{1d3}' => Head::Letter(true, Alphabet::U, Marks::One(Diacritic::Hacek)),  // Ǔ
        '\u{1da}' => Head::Letter(false, Alphabet::U, Marks::Two(Diacritic::Umlaut, Diacritic::Hacek)),  // ǚ
        '\u{1d9}' => Head::Letter(true, Alphabet::U, Marks::Two(Diacritic::Umlaut, Diacritic::Hacek)),  // Ǚ
        '\u{148}' => Head::Letter(false, Alphabet::N, Marks::One(Diacritic::Hacek)),  // ň
        '\u{147}' => Head::Letter(true, Alphabet::N, Marks::One(Diacritic::Hacek)),  // Ň
        '\u{103}' => Head::Letter(false, Alphabet::A, Marks::One(Diacritic::Breve)),  // ă
        '\u{102}' => Head::Letter(true, Alphabet::A, Marks::One(Diacritic::Breve)),  // Ă
        '\u{115}' => Head::Letter(false, Alphabet::E, Marks::One(Diacritic::Breve)),  // ĕ
        '\u{114}' => Head::Letter(true, Alphabet::E, Marks::One(Diacritic::Breve)),  // Ĕ
        '\u{12d}' => Head::Letter(false, Alphabet::I, Marks::One(Diacritic::Breve)),  // ĭ
        '\u{12c}' => Head::Letter(true, Alphabet::I, Marks::One(Diacritic::Breve)),  // Ĭ
        '\u{14f}' => Head::Letter(false, Alphabet::O, Marks::One(Diacritic::Breve)),  // ŏ
        '\u{14e}' => Head::Letter(true, Alphabet::O, Marks::One(Diacritic::Breve)),  // Ŏ
        '\u{16d}' => Head::Letter(false, Alphabet::U, Marks::One(Diacritic::Breve)),  // ŭ
        '\u{16c}' => Head::Letter(true, Alphabet::U, Marks::One(Diacritic::Breve)),  // Ŭ
        '\u{e0}' => Head::Letter(false, Alphabet::A, Marks::One(Diacritic::Grave)),  // à
        '\u{c0}' => Head::Letter(true, Alphabet::A, Marks::One(Diacritic::Grave)),  // À
        '\u{e8}' => Head::Letter(false, Alphabet::E, Marks::One(Diacritic::Grave)),  // è
        '\u{c8}' => Head::Letter(true, Alphabet::E, Marks::One(Diacritic::Grave)),  // È
        '\u{ec}' => Head::Letter(false, Alphabet::I, Marks::One(Diacritic::Grave)),  // ì
        '\u{cc}' => Head::Letter(true, Alphabet::I, Marks::One(Diacritic::Grave)),  // Ì
        '\u{f2}' => Head::Letter(false, Alphabet::O, Marks::One(Diacritic::Grave)),  // ò
        '\u{d2}' => Head::Letter(true, Alphabet::O, Marks::One(Diacritic::Grave)),  // Ò
        '\u{f9}' => Head::Letter(false, Alphabet::U, Marks::One(Diacritic::Grave)),  // ù
        '\u{d9}' => Head::Letter(true, Alphabet::U, Marks::One(Diacritic::Grave)),  // Ù
        '\u{1dc}' => Head::Letter(false, Alphabet::U, Marks::Two(Diacritic::Umlaut, Diacritic::Grave)),  // ǜ
        '\u{1db}' => Head::Letter(true, Alphabet::U, Marks::Two(Diacritic::Umlaut, Diacritic::Grave)),  // Ǜ
        '\u{1ec1}' => Head::Letter(false, Alphabet::E, Marks::Two(Diacritic::Circumflex, Diacritic::Grave)),  // ề
        '\u{1ec0}' => Head::Letter(true, Alphabet::E, Marks::Two(Diacritic::Circumflex, Diacritic::Grave)),  // Ề
        '\u{1f9}' => Head::Letter(false, Alphabet::N, Marks::One(Diacritic::Grave)),  // ǹ
        '\u{1f8}' => Head::Letter(true, Alphabet::N, Marks::One(Diacritic::Grave)),  // Ǹ
        '\u{261}' => Head::Confusable(false, Alphabet::G),  // ɡ
        '\u{251}' | '\u{3b1}' => Head::Confusable(false, Alphabet::A),  // ɑ α
        '\u{3bf}' => Head::Confusable(false, Alphabet::O),  // ο
        '\u{391}' => Head::Confusable(true, Alphabet::A),  // Α
        '\u{392}' => Head::Confusable(true, Alphabet::B),  // Β
        '\u{395}' => Head::Confusable(true, Alphabet::E),  // Ε
        '\u{396}' => Head::Confusable(true, Alphabet::Z),  // Ζ
        '\u{397}' => Head::Confusable(true, Alphabet::H),  // Η
        '\u{399}' => Head::Confusable(true, Alphabet::I),  // Ι
        '\u{39a}' => Head::Confusable(true, Alphabet::K),  // Κ
        '\u{39c}' => Head::Confusable(true, Alphabet::M),  // Μ
        '\u{39d}' => Head::Confusable(true, Alphabet::N),  // Ν
        '\u{39f}' => Head::Confusable(true, Alphabet::O),  // Ο
        '\u{3a1}' => Head::Confusable(true, Alphabet::P),  // Ρ
        '\u{3a4}' => Head::Confusable(true, Alphabet::T),  // Τ
        '\u{3a5}' => Head::Confusable(true, Alphabet::Y),  // Υ
        '\u{3a7}' => Head::Confusable(true, Alphabet::X),  // Χ
        '\u{b7}' => Head::LightToneMarker,  // ·
        '\'' => Head::Apostrophe,
        '\u{2019}' => Head::CurlyQuote,  // ’
        '!' | '-' | '?' | '\u{2014}' | '\u{2026}' => Head::Punctuation,  // — …
        _ => Head::Other,
    }
}

/// Looks the first character of a grapheme up in the table.
pub fn head(c: char) -> (h: Head)
    ensures
        h == spec_head(c),
{
    match c {
        'a' => Head::Letter(false, Alphabet::A, Marks::Zero),
        'A' => Head::Letter(true, Alphabet::A, Marks::Zero),
        'b' => Head::Letter(false, Alphabet::B, Marks::Zero),
        'B' => Head::Letter(true, Alphabet::B, Marks::Zero),
        'c' => Head::Letter(false, Alphabet::C, Marks::Zero),
        'C' => Head::Letter(true, Alphabet::C, Marks::Zero),
        'd' => Head::Letter(false, Alphabet::D, Marks::Zero),
        'D' => Head::Letter(true, Alphabet::D, Marks::Zero),
        'e' => Head::Letter(false, Alphabet::E, Marks::Zero),
        'E' => Head::Letter(true, Alphabet::E, Marks::Zero),
        'f' => Head::Letter(false, Alphabet::F, Marks::Zero),
        'F' => Head::Letter(true, Alphabet::F, Marks::Zero),
        'g' => Head::Letter(false, Alphabet::G, Marks::Zero),
        'G' => Head::Letter(true, Alphabet::G, Marks::Zero),
        'h' => Head::Letter(false, Alphabet::H, Marks::Zero),
        'H' => Head::Letter(true, Alphabet::H, Marks::Zero),
        'i' => Head::Letter(false, Alphabet::I, Marks::Zero),
        'I' => Head::Letter(true, Alphabet::I, Marks::Zero),
        'j' => Head::Letter(false, Alphabet::J, Marks::Zero),
        'J' => Head::Letter(true, Alphabet::J, Marks::Zero),
        'k' => Head::Letter(false, Alphabet::K, Marks::Zero),
        'K' => Head::Letter(true, Alphabet::K, Marks::Zero),
        'l' => Head::Letter(false, Alphabet::L, Marks::Zero),
        'L' => Head::Letter(true, Alphabet::L, Marks::Zero),
        'm' => Head::Letter(false, Alphabet::M, Marks::Zero),
        'M' => Head::Letter(true, Alphabet::M, Marks::Zero),
        'n' => Head::Letter(false, Alphabet::N, Marks::Zero),
        'N' => Head::Letter(true, Alphabet::N, Marks::Zero),
        'o' => Head::Letter(false, Alphabet::O, Marks::Zero),
        'O' => Head::Letter(true, Alphabet::O, Marks::Zero),
        'p' => Head::Letter(false, Alphabet::P, Marks::Zero),
        'P' => Head::Letter(true, Alphabet::P, Marks::Zero),
        'q' => Head::Letter(false, Alphabet::Q, Marks::Zero),
        'Q' => Head::Letter(true, Alphabet::Q, Marks::Zero),
        'r' => Head::Letter(false, Alphabet::R, Marks::Zero),
        'R' => Head::Letter(true, Alphabet::R, Marks::Zero),
        's' => Head::Letter(false, Alphabet::S, Marks::Zero),
        'S' => Head::Letter(true, Alphabet::S, Marks::Zero),
        't' => Head::Letter(false, Alphabet::T, Marks::Zero),
        'T' => Head::Letter(true, Alphabet::T, Marks::Zero),
        'u' => Head::Letter(false, Alphabet::U, Marks::Zero),
        'U' => Head::Letter(true, Alphabet::U, Marks::Zero),
        'w' => Head::Letter(false, Alphabet::W, Marks::Zero),
        'W' => Head::Letter(true, Alphabet::W, Marks::Zero),
        'x' => Head::Letter(false, Alphabet::X, Marks::Zero),
        'X' => Head::Letter(true, Alphabet::X, Marks::Zero),
        'y' => Head::Letter(false, Alphabet::Y, Marks::Zero),
        'Y' => Head::Letter(true, Alphabet::Y, Marks::Zero),
        'z' => Head::Letter(false, Alphabet::Z, Marks::Zero),
        'Z' => Head::Letter(true, Alphabet::Z, Marks::Zero),
        '\u{109}' => Head::Letter(false, Alphabet::C, Marks::One(Diacritic::Circumflex)),  // ĉ
        '\u{108}' => Head::Letter(true, Alphabet::C, Marks::One(Diacritic::Circumflex)),  // Ĉ
        '\u{15d}' => Head::Letter(false, Alphabet::S, Marks::One(Diacritic::Circumflex)),  // ŝ
        '\u{15c}' => Head::Letter(true, Alphabet::S, Marks::One(Diacritic::Circumflex)),  // Ŝ
        '\u{1e91}' => Head::Letter(false, Alphabet::Z, Marks::One(Diacritic::Circumflex)),  // ẑ
        '\u{1e90}' => Head::Letter(true, Alphabet::Z, Marks::One(Diacritic::Circumflex)),  // Ẑ
        '\u{14b}' => Head::Letter(false, Alphabet::Ng, Marks::Zero),  // ŋ
        '\u{14a}' => Head::Letter(true, Alphabet::Ng, Marks::Zero),  // Ŋ
        'v' | '\u{fc}' => Head::Letter(false, Alphabet::U, Marks::One(Diacritic::Umlaut)),  // ü
        'V' | '\u{dc}' => Head::Letter(true, Alphabet::U, Marks::One(Diacritic::Umlaut)),  // Ü
        '\u{ea}' => Head::Letter(false, Alphabet::E, Marks::One(Diacritic::Circumflex)),  // ê
        '\u{ca}' => Head::Letter(true, Alphabet::E, Marks::One(Diacritic::Circumflex)),  // Ê
        '\u{101}' => Head::Letter(false, Alphabet::A, Marks::One(Diacritic::Macron)),  // ā
        '\u{100}' => Head::Letter(true, Alphabet::A, Marks::One(Diacritic::Macron)),  // Ā
        '\u{113}' => Head::Letter(false, Alphabet::E, Marks::One(Diacritic::Macron)),  // ē
        '\u{112}' => Head::Letter(true, Alphabet::E, Marks::One(Diacritic::Macron)),  // Ē
        '\u{12b}' => Head::Letter(false, Alphabet::I, Marks::One(Diacritic::Macron)),  // ī
        '\u{12a}' => Head::Letter(true, Alphabet::I, Marks::One(Diacritic::Macron)),  // Ī
        '\u{14d}' => Head::Letter(false, Alphabet::O, Marks::One(Diacritic::Macron)),  // ō
        '\u{14c}' => Head::Letter(true, Alphabet::O, Marks::One(Diacritic::Macron)),  // Ō
        '\u{16b}' => Head::Letter(false, Alphabet::U, Marks::One(Diacritic::Macron)),  // ū
        '\u{16a}' => Head::Letter(true, Alphabet::U, Marks::One(Diacritic::Macron)),  // Ū
        '\u{1d6}' => Head::Letter(false, Alphabet::U, Marks::Two(Diacritic::Umlaut, Diacritic::Macron)),  // ǖ
        '\u{1d5}' => Head::Letter(true, Alphabet::U, Marks::Two(Diacritic::Umlaut, Diacritic::Macron)),  // Ǖ
        '\u{e1}' => Head::Letter(false, Alphabet::A, Marks::One(Diacritic::Acute)),  // á
        '\u{c1}' => Head::Letter(true, Alphabet::A, Marks::One(Diacritic::Acute)),  // Á
        '\u{e9}' => Head::Letter(false, Alphabet::E, Marks::One(Diacritic::Acute)),  // é
        '\u{c9}' => Head::Letter(true, Alphabet::E, Marks::One(Diacritic::Acute)),  // É
        '\u{ed}' => Head::Letter(false, Alphabet::I, Marks::One(Diacritic::Acute)),  // í
        '\u{cd}' => Head::Letter(true, Alphabet::I, Marks::One(Diacritic::Acute)),  // Í
        '\u{f3}' => Head::Letter(false, Alphabet::O, Marks::One(Diacritic::Acute)),  // ó
        '\u{d3}' => Head::Letter(true, Alphabet::O, Marks::One(Diacritic::Acute)),  // Ó
        '\u{fa}' => Head::Letter(false, Alphabet::U, Marks::One(Diacritic::Acute)),  // ú
        '\u{da}' => Head::Letter(true, Alphabet::U, Marks::One(Diacritic::Acute)),  // Ú
        '\u{1d8}' => Head::Letter(false, Alphabet::U, Marks::Two(Diacritic::Umlaut, Diacritic::Acute)),  // ǘ
        '\u{1d7}' => Head::Letter(true, Alphabet::U, Marks::Two(Diacritic::Umlaut, Diacritic::Acute)),  // Ǘ
        '\u{1ebf}' => Head::Letter(false, Alphabet::E, Marks::Two(Diacritic::Circumflex, Diacritic::Acute)),  // ế
        '\u{1ebe}' => Head::Letter(true, Alphabet::E, Marks::Two(Diacritic::Circumflex, Diacritic::Acute)),  // Ế
        '\u{1e3f}' => Head::Letter(false, Alphabet::M, Marks::One(Diacritic::Acute)),  // ḿ
        '\u{1e3e}' => Head::Letter(true, Alphabet::M, Marks::One(Diacritic::Acute)),  // Ḿ
        '\u{144}' => Head::Letter(false, Alphabet::N, Marks::One(Diacritic::Acute)),  // ń
        '\u{143}' => Head::Letter(true, Alphabet::N, Marks::One(Diacritic::Acute)),  // Ń
        '\u{1ce}' => Head::Letter(false, Alphabet::A, Marks::One(Diacritic::Hacek)),  // ǎ
        '\u{1cd}' => Head::Letter(true, Alphabet::A, Marks::One(Diacritic::Hacek)),  // Ǎ
        '\u{11b}' => Head::Letter(false, Alphabet::E, Marks::One(Diacritic::Hacek)),  // ě
        '\u{11a}' => Head::Letter(true, Alphabet::E, Marks::One(Diacritic::Hacek)),  // Ě
        '\u{1d0}' => Head::Letter(false, Alphabet::I, Marks::One(Diacritic::Hacek)),  // ǐ
        '\u{1cf}' => Head::Letter(true, Alphabet::I, Marks::One(Diacritic::Hacek)),  // Ǐ
        '\u{1d2}' => Head::Letter(false, Alphabet::O, Marks::One(Diacritic::Hacek)),  // ǒ
        '\u{1d1}' => Head::Letter(true, Alphabet::O, Marks::One(Diacritic::Hacek)),  // Ǒ
        '\u{1d4}' => Head::Letter(false, Alphabet::U, Marks::One(Diacritic::Hacek)),  // ǔ
        '\u{1d3}' => Head::Letter(true, Alphabet::U, Marks::One(Diacritic::Hacek)),  // Ǔ
        '\u{1da}' => Head::Letter(false, Alphabet::U, Marks::Two(Diacritic::Umlaut, Diacritic::Hacek)),  // ǚ
        '\u{1d9}' => Head::Letter(true, Alphabet::U, Marks::Two(Diacritic::Umlaut, Diacritic::Hacek)),  // Ǚ
        '\u{148}' => Head::Letter(false, Alphabet::N, Marks::One(Diacritic::Hacek)),  // ň
        '\u{147}' => Head::Letter(true, Alphabet::N, Marks::One(Diacritic::Hacek)),  // Ň
        '\u{103}' => Head::Letter(false, Alphabet::A, Marks::One(Diacritic::Breve)),  // ă
        '\u{102}' => Head::Letter(true, Alphabet::A, Marks::One(Diacritic::Breve)),  // Ă
        '\u{115}' => Head::Letter(false, Alphabet::E, Marks::One(Diacritic::Breve)),  // ĕ
        '\u{114}' => Head::Letter(true, Alphabet::E, Marks::One(Diacritic::Breve)),  // Ĕ
        '\u{12d}' => Head::Letter(false, Alphabet::I, Marks::One(Diacritic::Breve)),  // ĭ
        '\u{12c}' => Head::Letter(true, Alphabet::I, Marks::One(Diacritic::Breve)),  // Ĭ
        '\u{14f}' => Head::Letter(false, Alphabet::O, Marks::One(Diacritic::Breve)),  // ŏ
        '\u{14e}' => Head::Letter(true, Alphabet::O, Marks::One(Diacritic::Breve)),  // Ŏ
        '\u{16d}' => Head::Letter(false, Alphabet::U, Marks::One(Diacritic::Breve)),  // ŭ
        '\u{16c}' => Head::Letter(true, Alphabet::U, Marks::One(Diacritic::Breve)),  // Ŭ
        '\u{e0}' => Head::Letter(false, Alphabet::A, Marks::One(Diacritic::Grave)),  // à
        '\u{c0}' => Head::Letter(true, Alphabet::A, Marks::One(Diacritic::Grave)),  // À
        '\u{e8}' => Head::Letter(false, Alphabet::E, Marks::One(Diacritic::Grave)),  // è
        '\u{c8}' => Head::Letter(true, Alphabet::E, Marks::One(Diacritic::Grave)),  // È
        '\u{ec}' => Head::Letter(false, Alphabet::I, Marks::One(Diacritic::Grave)),  // ì
        '\u{cc}' => Head::Letter(true, Alphabet::I, Marks::One(Diacritic::Grave)),  // Ì
        '\u{f2}' => Head::Letter(false, Alphabet::O, Marks::One(Diacritic::Grave)),  // ò
        '\u{d2}' => Head::Letter(true, Alphabet::O, Marks::One(Diacritic::Grave)),  // Ò
        '\u{f9}' => Head::Letter(false, Alphabet::U, Marks::One(Diacritic::Grave)),  // ù
        '\u{d9}' => Head::Letter(true, Alphabet::U, Marks::One(Diacritic::Grave)),  // Ù
        '\u{1dc}' => Head::Letter(false, Alphabet::U, Marks::Two(Diacritic::Umlaut, Diacritic::Grave)),  // ǜ
        '\u{1db}' => Head::Letter(true, Alphabet::U, Marks::Two(Diacritic::Umlaut, Diacritic::Grave)),  // Ǜ
        '\u{1ec1}' => Head::Letter(false, Alphabet::E, Marks::Two(Diacritic::Circumflex, Diacritic::Grave)),  // ề
        '\u{1ec0}' => Head::Letter(true, Alphabet::E, Marks::Two(Diacritic::Circumflex, Diacritic::Grave)),  // Ề
        '\u{1f9}' => Head::Letter(false, Alphabet::N, Marks::One(Diacritic::Grave)),  // ǹ
        '\u{1f8}' => Head::Letter(true, Alphabet::N, Marks::One(Diacritic::Grave)),  // Ǹ
        '\u{261}' => Head::Confusable(false, Alphabet::G),  // ɡ
        '\u{251}' | '\u{3b1}' => Head::Confusable(false, Alphabet::A),  // ɑ α
        '\u{3bf}' => Head::Confusable(false, Alphabet::O),  // ο
        '\u{391}' => Head::Confusable(true, Alphabet::A),  // Α
        '\u{392}' => Head::Confusable(true, Alphabet::B),  // Β
        '\u{395}' => Head::Confusable(true, Alphabet::E),  // Ε
        '\u{396}' => Head::Confusable(true, Alphabet::Z),  // Ζ
        '\u{397}' => Head::Confusable(true, Alphabet::H),  // Η
        '\u{399}' => Head::Confusable(true, Alphabet::I),  // Ι
        '\u{39a}' => Head::Confusable(true, Alphabet::K),  // Κ
        '\u{39c}' => Head::Confusable(true, Alphabet::M),  // Μ
        '\u{39d}' => Head::Confusable(true, Alphabet::N),  // Ν
        '\u{39f}' => Head::Confusable(true, Alphabet::O),  // Ο
        '\u{3a1}' => Head::Confusable(true, Alphabet::P),  // Ρ
        '\u{3a4}' => Head::Confusable(true, Alphabet::T),  // Τ
        '\u{3a5}' => Head::Confusable(true, Alphabet::Y),  // Υ
        '\u{3a7}' => Head::Confusable(true, Alphabet::X),  // Χ
        '\u{b7}' => Head::LightToneMarker,  // ·
        '\'' => Head::Apostrophe,
        '\u{2019}' => Head::CurlyQuote,  // ’
        '!' | '-' | '?' | '\u{2014}' | '\u{2026}' => Head::Punctuation,  // — …
        _ => Head::Other,
    }
}

/// The mark that a combining character writes, for the seven that pinyin
/// knows.
pub open spec fn spec_diacritic(c: char) -> Option<Diacritic> {
    match c {
        '\u{304}' => Some(Diacritic::Macron),
        '\u{301}' => Some(Diacritic::Acute),
        '\u{30c}' => Some(Diacritic::Hacek),
        '\u{300}' => Some(Diacritic::Grave),
        '\u{306}' => Some(Diacritic::Breve),
        '\u{308}' => Some(Diacritic::Umlaut),
        '\u{302}' => Some(Diacritic::Circumflex),
        _ => None,
    }
}

/// Reads a combining character as a mark.
#[verifier::when_used_as_spec(spec_diacritic)]
pub fn diacritic(c: char) -> (d: Option<Diacritic>)
    ensures
        d == spec_diacritic(c),
{
    match c {
        '\u{304}' => Some(Diacritic::Macron),
        '\u{301}' => Some(Diacritic::Acute),
        '\u{30c}' => Some(Diacritic::Hacek),
        '\u{300}' => Some(Diacritic::Grave),
        '\u{306}' => Some(Diacritic::Breve),
        '\u{308}' => Some(Diacritic::Umlaut),
        '\u{302}' => Some(Diacritic::Circumflex),
        _ => None,
    }
}

/// A grapheme whose first character is a letter: the letter with the marks
/// of the first character and then one mark for each character that follows,
/// or, where one of those is no mark that pinyin knows, an unrelated
/// grapheme.
pub open spec fn spec_letter_or_others(
    g: Seq<char>,
    capitalized: bool,
    base: Alphabet,
    marks: Marks,
) -> PinyinAtom {
    if forall|i: int| 1 <= i < g.len() ==> spec_diacritic(#[trigger] g[i]) is Some {
        PinyinAtom::Letter(
            Letter {
                capitalized,
                base,
                diacritics: marks.to_seq() + Seq::new(
                    (g.len() - 1) as nat,
                    |i: int| spec_diacritic(g[i + 1])->0,
                ),
            },
        )
    } else {
        PinyinAtom::Others(g)
    }
}

/// The atom that a grapheme stands for under a strictness, or the reason
/// why the grapheme is refused.
pub open spec fn spec_to_token(g: Seq<char>, strictness: Strictness) -> Result<
    PinyinAtom,
    ParseError,
> {
    if g.len() == 0 {
        Err(ParseError::EmptyGrapheme)
    } else {
        match spec_head(g[0]) {
            Head::Letter(capitalized, base, marks) => Ok(
                spec_letter_or_others(g, capitalized, base, marks),
            ),
            Head::Confusable(capitalized, base) => if strictness.is_strict() {
                Err(ParseError::ConfusableLetter)
            } else {
                Ok(spec_letter_or_others(g, capitalized, base, Marks::Zero))
            },
            Head::LightToneMarker => Ok(PinyinAtom::LightToneMarker),
            Head::Apostrophe => Ok(PinyinAtom::Apostrophe),
            Head::CurlyQuote => if strictness
                == Strictness::StrictAndSeparateApostropheFromCurlyQuote {
                Ok(PinyinAtom::Others(g))
            } else {
                Ok(PinyinAtom::Apostrophe)
            },
            Head::Punctuation => Ok(PinyinAtom::Punctuation(g)),
            Head::Other => if is_whitespace_char(g[0]) {
                Ok(PinyinAtom::Space(g))
            } else {
                Ok(PinyinAtom::Others(g))
            },
        }
    }
}

/// Whether a token stands for what the tokenizer owes: the atom, or the
/// error.
pub open spec fn token_result_is(
    r: Result<PinyinToken, ParseError>,
    owed: Result<PinyinAtom, ParseError>,
) -> bool {
    match owed {
        Ok(atom) => r matches Ok(t) && t@ == atom,
        Err(e) => r matches Err(e2) && e2 == e,
    }
}

/// Reads the marks that follow the first character of a letter grapheme.
fn letter_token(s: &str, n: usize, capitalized: bool, alphabet: Alphabet, marks: Marks) -> (t:
    PinyinToken)
    requires
        n == s@.len(),
        n > 0,
    ensures
        t@ == spec_letter_or_others(s@, capitalized, alphabet, marks),
{
    let mut diacritics = marks.to_vec();
    let mut i: usize = 1;
    while i < n
        invariant
            1 <= i <= n,
            n == s@.len(),
            forall|j: int| 1 <= j < i ==> spec_diacritic(#[trigger] s@[j]) is Some,
            diacritics@ == marks.to_seq() + Seq::new(
                (i - 1) as nat,
                |j: int| spec_diacritic(s@[j + 1])->0,
            ),
        decreases n - i,
    {
        match diacritic(s.get_char(i)) {
            Some(d) => {
                diacritics.push(d);
            },
            None => {
                return PinyinToken::Others(s.to_owned());
            },
        }
        i += 1;
    }
    PinyinToken::Alph(AlphabetWithDiacritics { capitalized, alphabet, diacritics })
}

/// Classifies one grapheme.
pub fn to_token(s: &str, strictness: Strictness) -> (r: Result<PinyinToken, ParseError>)
    ensures
        token_result_is(r, spec_to_token(s@, strictness)),
{
    let n = s.unicode_len();
    if n == 0 {
        return Err(ParseError::EmptyGrapheme);
    }
    let first = s.get_char(0);
    match head(first) {
        Head::Letter(capitalized, alphabet, marks) => Ok(
            letter_token(s, n, capitalized, alphabet, marks),
        ),
        Head::Confusable(capitalized, alphabet) => {
            if strictness.is_strict() {
                Err(ParseError::ConfusableLetter)
            } else {
                Ok(letter_token(s, n, capitalized, alphabet, Marks::Zero))
            }
        },
        Head::LightToneMarker => Ok(PinyinToken::LightToneMarker),
        Head::Apostrophe => Ok(PinyinToken::Apostrophe),
        Head::CurlyQuote => {
            if strictness == Strictness::StrictAndSeparateApostropheFromCurlyQuote {
                Ok(PinyinToken::Others(s.to_owned()))
            } else {
                Ok(PinyinToken::Apostrophe)
            }
        },
        Head::Punctuation => Ok(PinyinToken::Punctuation(s.to_owned())),
        Head::Other => {
            if char_is_whitespace(first) {
                Ok(PinyinToken::Space(s.to_owned()))
            } else {
                Ok(PinyinToken::Others(s.to_owned()))
            }
        },
    }
}

} // verus!
