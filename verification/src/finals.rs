use crate::pinyin_token::{Alphabet, Diacritic};
use crate::unicode::{nfc, nfc_form};
use vstd::prelude::*;
use vstd::string::StringExecFns;

verus! {

/// The body of a syllable after its initial, without the rhotic suffix.
#[derive(Debug, Copy, Clone, PartialEq, Eq, Hash, Structural)]
pub enum NonRhoticFinal {
    A,
    Ai,
    An,
    Ang,
    Ao,
    E,
    /// `ê`.
    ECircumflex,
    Ei,
    En,
    Eng,
    I,
    Ia,
    Ian,
    Iang,
    Iao,
    Ie,
    In,
    Ing,
    Iong,
    Iu,
    /// `io`, met only on the way to `iong`.
    Io,
    O,
    Ong,
    Ou,
    U,
    Ua,
    Uai,
    Uan,
    Uang,
    Ue,
    Ui,
    Un,
    Uo,
    /// `ü`.
    Yu,
    /// `üan`.
    Yuan,
    /// `üe`.
    Yue,
    /// `ün`.
    Yun,
}

impl NonRhoticFinal {
    /// The two halves of the final's spelling: the tone mark is written
    /// between them, that is on the last letter of the first half.
    pub open spec fn halves(self) -> (Seq<char>, Seq<char>) {
        match self {
            NonRhoticFinal::A => (seq!['a'], seq![]),
            NonRhoticFinal::Ai => (seq!['a'], seq!['i']),
            NonRhoticFinal::An => (seq!['a'], seq!['n']),
            NonRhoticFinal::Ang => (seq!['a'], seq!['n', 'g']),
            NonRhoticFinal::Ao => (seq!['a'], seq!['o']),
            NonRhoticFinal::E => (seq!['e'], seq![]),
            NonRhoticFinal::ECircumflex => (seq!['\u{ea}'], seq![]),
            NonRhoticFinal::Ei => (seq!['e'], seq!['i']),
            NonRhoticFinal::En => (seq!['e'], seq!['n']),
            NonRhoticFinal::Eng => (seq!['e'], seq!['n', 'g']),
            NonRhoticFinal::I => (seq!['i'], seq![]),
            NonRhoticFinal::Ia => (seq!['i', 'a'], seq![]),
            NonRhoticFinal::Ian => (seq!['i', 'a'], seq!['n']),
            NonRhoticFinal::Iang => (seq!['i', 'a'], seq!['n', 'g']),
            NonRhoticFinal::Iao => (seq!['i', 'a'], seq!['o']),
            NonRhoticFinal::Ie => (seq!['i', 'e'], seq![]),
            NonRhoticFinal::In => (seq!['i'], seq!['n']),
            NonRhoticFinal::Ing => (seq!['i'], seq!['n', 'g']),
            NonRhoticFinal::Iong => (seq!['i', 'o'], seq!['n', 'g']),
            NonRhoticFinal::Iu => (seq!['i', 'u'], seq![]),
            NonRhoticFinal::Io => (seq!['i', 'o'], seq![]),
            NonRhoticFinal::O => (seq!['o'], seq![]),
            NonRhoticFinal::Ong => (seq!['o'], seq!['n', 'g']),
            NonRhoticFinal::Ou => (seq!['o'], seq!['u']),
            NonRhoticFinal::U => (seq!['u'], seq![]),
            NonRhoticFinal::Ua => (seq!['u', 'a'], seq![]),
            NonRhoticFinal::Uai => (seq!['u', 'a'], seq!['i']),
            NonRhoticFinal::Uan => (seq!['u', 'a'], seq!['n']),
            NonRhoticFinal::Uang => (seq!['u', 'a'], seq!['n', 'g']),
            NonRhoticFinal::Ue => (seq!['u', 'e'], seq![]),
            NonRhoticFinal::Ui => (seq!['u', 'i'], seq![]),
            NonRhoticFinal::Un => (seq!['u'], seq!['n']),
            NonRhoticFinal::Uo => (seq!['u', 'o'], seq![]),
            NonRhoticFinal::Yu => (seq!['\u{fc}'], seq![]),
            NonRhoticFinal::Yuan => (seq!['\u{fc}', 'a'], seq!['n']),
            NonRhoticFinal::Yue => (seq!['\u{fc}', 'e'], seq![]),
            NonRhoticFinal::Yun => (seq!['\u{fc}'], seq!['n']),
        }
    }

    /// The letters that spell the final, first to last. Each comes with the
    /// mark that belongs to the letter itself, as the umlaut belongs to `ü`:
    /// its companion.
    pub open spec fn letters(self) -> Seq<(Alphabet, Option<Diacritic>)> {
        match self {
            NonRhoticFinal::A => seq![(Alphabet::A, None)],
            NonRhoticFinal::Ai => seq![(Alphabet::A, None), (Alphabet::I, None)],
            NonRhoticFinal::An => seq![(Alphabet::A, None), (Alphabet::N, None)],
            NonRhoticFinal::Ang => seq![(Alphabet::A, None), (Alphabet::N, None), (Alphabet::G, None)],
            NonRhoticFinal::Ao => seq![(Alphabet::A, None), (Alphabet::O, None)],
            NonRhoticFinal::E => seq![(Alphabet::E, None)],
            NonRhoticFinal::ECircumflex => seq![(Alphabet::E, Some(Diacritic::Circumflex))],
            NonRhoticFinal::Ei => seq![(Alphabet::E, None), (Alphabet::I, None)],
            NonRhoticFinal::En => seq![(Alphabet::E, None), (Alphabet::N, None)],
            NonRhoticFinal::Eng => seq![(Alphabet::E, None), (Alphabet::N, None), (Alphabet::G, None)],
            NonRhoticFinal::I => seq![(Alphabet::I, None)],
            NonRhoticFinal::Ia => seq![(Alphabet::I, None), (Alphabet::A, None)],
            NonRhoticFinal::Ian => seq![(Alphabet::I, None), (Alphabet::A, None), (Alphabet::N, None)],
            NonRhoticFinal::Iang => seq![(Alphabet::I, None), (Alphabet::A, None), (Alphabet::N, None), (Alphabet::G, None)],
            NonRhoticFinal::Iao => seq![(Alphabet::I, None), (Alphabet::A, None), (Alphabet::O, None)],
            NonRhoticFinal::Ie => seq![(Alphabet::I, None), (Alphabet::E, None)],
            NonRhoticFinal::In => seq![(Alphabet::I, None), (Alphabet::N, None)],
            NonRhoticFinal::Ing => seq![(Alphabet::I, None), (Alphabet::N, None), (Alphabet::G, None)],
            NonRhoticFinal::Iong => seq![(Alphabet::I, None), (Alphabet::O, None), (Alphabet::N, None), (Alphabet::G, None)],
            NonRhoticFinal::Iu => seq![(Alphabet::I, None), (Alphabet::U, None)],
            NonRhoticFinal::Io => seq![(Alphabet::I, None), (Alphabet::O, None)],
            NonRhoticFinal::O => seq![(Alphabet::O, None)],
            NonRhoticFinal::Ong => seq![(Alphabet::O, None), (Alphabet::N, None), (Alphabet::G, None)],
            NonRhoticFinal::Ou => seq![(Alphabet::O, None), (Alphabet::U, None)],
            NonRhoticFinal::U => seq![(Alphabet::U, None)],
            NonRhoticFinal::Ua => seq![(Alphabet::U, None), (Alphabet::A, None)],
            NonRhoticFinal::Uai => seq![(Alphabet::U, None), (Alphabet::A, None), (Alphabet::I, None)],
            NonRhoticFinal::Uan => seq![(Alphabet::U, None), (Alphabet::A, None), (Alphabet::N, None)],
            NonRhoticFinal::Uang => seq![(Alphabet::U, None), (Alphabet::A, None), (Alphabet::N, None), (Alphabet::G, None)],
            NonRhoticFinal::Ue => seq![(Alphabet::U, None), (Alphabet::E, None)],
            NonRhoticFinal::Ui => seq![(Alphabet::U, None), (Alphabet::I, None)],
            NonRhoticFinal::Un => seq![(Alphabet::U, None), (Alphabet::N, None)],
            NonRhoticFinal::Uo => seq![(Alphabet::U, None), (Alphabet::O, None)],
            NonRhoticFinal::Yu => seq![(Alphabet::U, Some(Diacritic::Umlaut))],
            NonRhoticFinal::Yuan => seq![(Alphabet::U, Some(Diacritic::Umlaut)), (Alphabet::A, None), (Alphabet::N, None)],
            NonRhoticFinal::Yue => seq![(Alphabet::U, Some(Diacritic::Umlaut)), (Alphabet::E, None)],
            NonRhoticFinal::Yun => seq![(Alphabet::U, Some(Diacritic::Umlaut)), (Alphabet::N, None)],
        }
    }

    /// The index, among the letters of the final, of the letter that bears
    /// the tone: the last letter of the first half.
    pub open spec fn tone_index(self) -> int {
        self.halves().0.len() - 1
    }

    /// How many letters spell the final, a nasal counted as `n` and `g`.
    pub open spec fn spec_len(self) -> usize {
        self.letters().len() as usize
    }

    /// States that the two halves together are as long as the final, which
    /// has between one and four letters, and that one of these bears the
    /// tone.
    pub proof fn lemma_len_is_spelled(self)
        ensures
            self.spec_len() == self.halves().0.len() + self.halves().1.len(),
            0 <= self.tone_index() < self.spec_len(),
            1 <= self.spec_len() <= 4,
    {
    }

    /// How many letters spell the final: between one and four.
    #[must_use]
    #[verifier::when_used_as_spec(spec_len)]
    pub fn len(self) -> (n: usize)
        ensures
            n == self.spec_len(),
            1 <= n <= 4,
    {
        match self {
            NonRhoticFinal::A | NonRhoticFinal::E | NonRhoticFinal::ECircumflex
                | NonRhoticFinal::I | NonRhoticFinal::O | NonRhoticFinal::U
                | NonRhoticFinal::Yu => 1,
            NonRhoticFinal::Ai | NonRhoticFinal::An | NonRhoticFinal::Ao | NonRhoticFinal::Ei
                | NonRhoticFinal::En | NonRhoticFinal::Ia | NonRhoticFinal::Ie
                | NonRhoticFinal::In | NonRhoticFinal::Iu | NonRhoticFinal::Io
                | NonRhoticFinal::Ou | NonRhoticFinal::Ua | NonRhoticFinal::Ue
                | NonRhoticFinal::Ui | NonRhoticFinal::Un | NonRhoticFinal::Uo
                | NonRhoticFinal::Yue | NonRhoticFinal::Yun => 2,
            NonRhoticFinal::Ang | NonRhoticFinal::Eng | NonRhoticFinal::Ian | NonRhoticFinal::Iao
                | NonRhoticFinal::Ing | NonRhoticFinal::Ong | NonRhoticFinal::Uai
                | NonRhoticFinal::Uan | NonRhoticFinal::Yuan => 3,
            NonRhoticFinal::Iang | NonRhoticFinal::Iong | NonRhoticFinal::Uang => 4,
        }
    }

    /// The halves as texts.
    pub fn halves_str(self) -> (h: (&'static str, &'static str))
        ensures
            h.0@ == self.halves().0,
            h.1@ == self.halves().1,
    {
        proof {
            reveal_strlit("");
            reveal_strlit("a");
            reveal_strlit("e");
            reveal_strlit("i");
            reveal_strlit("ia");
            reveal_strlit("ie");
            reveal_strlit("io");
            reveal_strlit("iu");
            reveal_strlit("n");
            reveal_strlit("ng");
            reveal_strlit("o");
            reveal_strlit("u");
            reveal_strlit("ua");
            reveal_strlit("ue");
            reveal_strlit("ui");
            reveal_strlit("uo");
            reveal_strlit("\u{ea}");
            reveal_strlit("\u{fc}");
            reveal_strlit("\u{fc}a");
            reveal_strlit("\u{fc}e");
        }
        match self {
            NonRhoticFinal::A => ("a", ""),
            NonRhoticFinal::Ai => ("a", "i"),
            NonRhoticFinal::An => ("a", "n"),
            NonRhoticFinal::Ang => ("a", "ng"),
            NonRhoticFinal::Ao => ("a", "o"),
            NonRhoticFinal::E => ("e", ""),
            NonRhoticFinal::ECircumflex => ("\u{ea}", ""),
            NonRhoticFinal::Ei => ("e", "i"),
            NonRhoticFinal::En => ("e", "n"),
            NonRhoticFinal::Eng => ("e", "ng"),
            NonRhoticFinal::I => ("i", ""),
            NonRhoticFinal::Ia => ("ia", ""),
            NonRhoticFinal::Ian => ("ia", "n"),
            NonRhoticFinal::Iang => ("ia", "ng"),
            NonRhoticFinal::Iao => ("ia", "o"),
            NonRhoticFinal::Ie => ("ie", ""),
            NonRhoticFinal::In => ("i", "n"),
            NonRhoticFinal::Ing => ("i", "ng"),
            NonRhoticFinal::Iong => ("io", "ng"),
            NonRhoticFinal::Iu => ("iu", ""),
            NonRhoticFinal::Io => ("io", ""),
            NonRhoticFinal::O => ("o", ""),
            NonRhoticFinal::Ong => ("o", "ng"),
            NonRhoticFinal::Ou => ("o", "u"),
            NonRhoticFinal::U => ("u", ""),
            NonRhoticFinal::Ua => ("ua", ""),
            NonRhoticFinal::Uai => ("ua", "i"),
            NonRhoticFinal::Uan => ("ua", "n"),
            NonRhoticFinal::Uang => ("ua", "ng"),
            NonRhoticFinal::Ue => ("ue", ""),
            NonRhoticFinal::Ui => ("ui", ""),
            NonRhoticFinal::Un => ("u", "n"),
            NonRhoticFinal::Uo => ("uo", ""),
            NonRhoticFinal::Yu => ("\u{fc}", ""),
            NonRhoticFinal::Yuan => ("\u{fc}a", "n"),
            NonRhoticFinal::Yue => ("\u{fc}e", ""),
            NonRhoticFinal::Yun => ("\u{fc}", "n"),
        }
    }
}

/// The tone of a syllable. The fifth is the neutral tone, which is written
/// without a mark.
#[derive(Debug, Copy, Clone, PartialEq, Eq, Hash, Structural)]
pub enum Tone {
    First,
    Second,
    Third,
    Fourth,
    Fifth,
}

impl Tone {
    /// The combining character that writes the tone; nothing for the fifth.
    pub open spec fn mark(self) -> Seq<char> {
        match self {
            Tone::First => seq!['\u{304}'],
            Tone::Second => seq!['\u{301}'],
            Tone::Third => seq!['\u{30c}'],
            Tone::Fourth => seq!['\u{300}'],
            Tone::Fifth => seq![],
        }
    }

    /// The mark as a text.
    pub fn to_str(self) -> (s: &'static str)
        ensures
            s@ == self.mark(),
    {
        proof {
            reveal_strlit("\u{304}");
            reveal_strlit("\u{301}");
            reveal_strlit("\u{30c}");
            reveal_strlit("\u{300}");
            reveal_strlit("");
        }
        match self {
            Tone::First => "\u{304}",
            Tone::Second => "\u{301}",
            Tone::Third => "\u{30c}",
            Tone::Fourth => "\u{300}",
            Tone::Fifth => "",
        }
    }
}

/// One way to read a final at the cursor.
#[derive(Debug, Copy, Clone, PartialEq, Eq, Hash, Structural)]
pub struct Candidate {
    /// Whether the nasal of the final is written with the single letter `ŋ`
    /// in place of `ng`.
    pub ng: bool,
    pub fin: NonRhoticFinal,
    pub tone: Tone,
}

impl Candidate {
    /// How many letters the candidate covers: the length of the final, one
    /// less where `ŋ` stands for `ng`.
    pub open spec fn spec_span(self) -> usize {
        if self.ng {
            (self.fin.spec_len() - 1) as usize
        } else {
            self.fin.spec_len()
        }
    }

    /// How many letters the candidate covers.
    #[verifier::when_used_as_spec(spec_span)]
    pub fn span(self) -> (n: usize)
        ensures
            n == self.spec_span(),
            n <= 4,
    {
        if self.ng {
            self.fin.len() - 1
        } else {
            self.fin.len()
        }
    }
}

/// A final together with its tone.
#[derive(Debug, Copy, Clone, PartialEq, Eq, Hash, Structural)]
pub struct FinalWithTone {
    pub fin: NonRhoticFinal,
    pub tone: Tone,
}

impl FinalWithTone {
    /// The final written out before normalization: the first half, the tone
    /// mark, the second half.
    pub open spec fn spelling(self) -> Seq<char> {
        self.fin.halves().0 + self.tone.mark() + self.fin.halves().1
    }

    /// Writes the spelling behind what `out` holds.
    pub fn write_to(&self, out: &mut String)
        ensures
            final(out)@ == old(out)@ + self.spelling(),
    {
        let (before, after) = self.fin.halves_str();
        out.append(before);
        out.append(self.tone.to_str());
        out.append(after);
    }

    /// The final with its tone mark composed onto the vowel that bears it.
    pub fn to_string(&self) -> (s: String)
        ensures
            s@ == nfc_form(self.spelling()),
            nfc_form(s@) == s@,
    {
        let mut spelled = String::new();
        self.write_to(&mut spelled);
        assert(spelled@ == self.spelling());
        nfc(spelled.as_str())
    }
}

} // verus!
