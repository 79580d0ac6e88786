//! The finals that may begin at the cursor, read off the shapes of the next
//! one to four letters.

use crate::cursor::VecAndIndex;
use crate::finals::{Candidate, NonRhoticFinal, Tone};
use crate::pinyin_token::{Alphabet, Diacritic, Letter, PinyinAtom, PinyinToken};
use crate::shapes::{
    all_placed, fits, lemma_candidates_are_few, lemma_candidates_are_placed,
    lemma_candidates_are_those_that_fit,
};
use vstd::prelude::*;

verus! {

/// The letter at index `i`, where there is an atom and it is a letter.
pub open spec fn letter_at(t: Seq<PinyinAtom>, i: int) -> Option<Letter> {
    if 0 <= i < t.len() {
        match t[i] {
            PinyinAtom::Letter(l) => Some(l),
            _ => None,
        }
    } else {
        None
    }
}

/// Whether the atom at `i` is a letter with exactly this base and exactly
/// these marks.
pub open spec fn toneless(
    t: Seq<PinyinAtom>,
    i: int,
    base: Alphabet,
    marks: Seq<Diacritic>,
) -> bool {
    letter_at(t, i) matches Some(l) && l.base == base && l.diacritics =~= marks
}

/// The tone that a mark writes. A breve writes the third tone unless the
/// mode is strict; an umlaut or a circumflex writes none.
pub open spec fn tone_of_mark(d: Diacritic, strict: bool) -> Option<Tone> {
    match d {
        Diacritic::Macron => Some(Tone::First),
        Diacritic::Acute => Some(Tone::Second),
        Diacritic::Hacek => Some(Tone::Third),
        Diacritic::Breve => if strict {
            None
        } else {
            Some(Tone::Third)
        },
        Diacritic::Grave => Some(Tone::Fourth),
        Diacritic::Umlaut => None,
        Diacritic::Circumflex => None,
    }
}

/// The tone that a list of marks writes on a vowel. Without a companion the
/// list is empty, for the fifth tone, or holds one tone mark. With a
/// companion (the umlaut of `ü`, the circumflex of `ê`) it holds the
/// companion and one tone mark, in either order; the companion alone is not
/// read as a tone.
pub open spec fn tone_reading(
    marks: Seq<Diacritic>,
    companion: Option<Diacritic>,
    strict: bool,
) -> Option<Tone> {
    match companion {
        None => if marks.len() == 0 {
            Some(Tone::Fifth)
        } else if marks.len() == 1 {
            tone_of_mark(marks[0], strict)
        } else {
            None
        },
        Some(c) => if marks.len() == 2 {
            if marks[0] == c {
                tone_of_mark(marks[1], strict)
            } else if marks[1] == c {
                tone_of_mark(marks[0], strict)
            } else {
                None
            }
        } else {
            None
        },
    }
}

/// The tone of the atom at `i`, where it is a letter with this base whose
/// marks read as a tone.
pub open spec fn toned(
    t: Seq<PinyinAtom>,
    i: int,
    base: Alphabet,
    companion: Option<Diacritic>,
    strict: bool,
) -> Option<Tone> {
    match letter_at(t, i) {
        Some(l) => if l.base == base {
            tone_reading(l.diacritics, companion, strict)
        } else {
            None
        },
        None => None,
    }
}

/// The candidate for a final spelled letter by letter.
pub open spec fn plain(fin: NonRhoticFinal, tone: Tone) -> Candidate {
    Candidate { ng: false, fin, tone }
}

/// The candidate for a final whose nasal is written `ŋ`.
pub open spec fn with_eng(fin: NonRhoticFinal, tone: Tone) -> Candidate {
    Candidate { ng: true, fin, tone }
}

/// The candidate, if the condition holds.
pub open spec fn listed_if(b: bool, c: Candidate) -> Seq<Candidate> {
    if b {
        seq![c]
    } else {
        seq![]
    }
}

/// Whether the atom at `i` is a letter with this base and no mark.
pub open spec fn bare(t: Seq<PinyinAtom>, i: int, base: Alphabet) -> bool {
    toneless(t, i, base, seq![])
}

/// The candidate for a final in `-ng`, where a bare `n` and a bare `g`
/// stand at `i` and after it, or a bare `ŋ` stands at `i`.
pub open spec fn velar(
    t: Seq<PinyinAtom>,
    i: int,
    fin: NonRhoticFinal,
    tone: Tone,
) -> Seq<Candidate> {
    listed_if(bare(t, i, Alphabet::N) && bare(t, i + 1, Alphabet::G), plain(fin, tone))
        + listed_if(bare(t, i, Alphabet::Ng), with_eng(fin, tone))
}

/// `a`, then `ai`, `an`, `ang`, `ao`.
pub open spec fn rows_a(t: Seq<PinyinAtom>, p: int, strict: bool) -> Seq<Candidate> {
    match toned(t, p, Alphabet::A, None, strict) {
        Some(tone) => {
            seq![plain(NonRhoticFinal::A, tone)]
                + listed_if(bare(t, p + 1, Alphabet::I), plain(NonRhoticFinal::Ai, tone))
                + listed_if(bare(t, p + 1, Alphabet::N), plain(NonRhoticFinal::An, tone))
                + velar(t, p + 1, NonRhoticFinal::Ang, tone)
                + listed_if(bare(t, p + 1, Alphabet::O), plain(NonRhoticFinal::Ao, tone))
        },
        None => seq![],
    }
}

/// `ê`.
pub open spec fn rows_e_circumflex(t: Seq<PinyinAtom>, p: int, strict: bool) -> Seq<Candidate> {
    match toned(t, p, Alphabet::E, Some(Diacritic::Circumflex), strict) {
        Some(tone) => seq![plain(NonRhoticFinal::ECircumflex, tone)],
        None => seq![],
    }
}

/// `e`, then `ei`, `en`, `eng`.
pub open spec fn rows_e(t: Seq<PinyinAtom>, p: int, strict: bool) -> Seq<Candidate> {
    match toned(t, p, Alphabet::E, None, strict) {
        Some(tone) => {
            seq![plain(NonRhoticFinal::E, tone)]
                + listed_if(bare(t, p + 1, Alphabet::I), plain(NonRhoticFinal::Ei, tone))
                + listed_if(bare(t, p + 1, Alphabet::N), plain(NonRhoticFinal::En, tone))
                + velar(t, p + 1, NonRhoticFinal::Eng, tone)
        },
        None => seq![],
    }
}

/// `o`, then `ong`, `ou`.
pub open spec fn rows_o(t: Seq<PinyinAtom>, p: int, strict: bool) -> Seq<Candidate> {
    match toned(t, p, Alphabet::O, None, strict) {
        Some(tone) => {
            seq![plain(NonRhoticFinal::O, tone)]
                + velar(t, p + 1, NonRhoticFinal::Ong, tone)
                + listed_if(bare(t, p + 1, Alphabet::U), plain(NonRhoticFinal::Ou, tone))
        },
        None => seq![],
    }
}

/// `i`, then `in`, `ing`.
pub open spec fn rows_i(t: Seq<PinyinAtom>, p: int, strict: bool) -> Seq<Candidate> {
    match toned(t, p, Alphabet::I, None, strict) {
        Some(tone) => {
            seq![plain(NonRhoticFinal::I, tone)]
                + listed_if(bare(t, p + 1, Alphabet::N), plain(NonRhoticFinal::In, tone))
                + velar(t, p + 1, NonRhoticFinal::Ing, tone)
        },
        None => seq![],
    }
}

/// After a bare `i`: `ia`, then `ian`, `iang`, `iao`.
pub open spec fn rows_ia(t: Seq<PinyinAtom>, p: int, strict: bool) -> Seq<Candidate> {
    match toned(t, p + 1, Alphabet::A, None, strict) {
        Some(tone) => {
            seq![plain(NonRhoticFinal::Ia, tone)]
                + listed_if(bare(t, p + 2, Alphabet::N), plain(NonRhoticFinal::Ian, tone))
                + velar(t, p + 2, NonRhoticFinal::Iang, tone)
                + listed_if(bare(t, p + 2, Alphabet::O), plain(NonRhoticFinal::Iao, tone))
        },
        None => seq![],
    }
}

/// After a bare `i`: `io`, then `iong`.
pub open spec fn rows_io(t: Seq<PinyinAtom>, p: int, strict: bool) -> Seq<Candidate> {
    match toned(t, p + 1, Alphabet::O, None, strict) {
        Some(tone) => {
            seq![plain(NonRhoticFinal::Io, tone)] + velar(t, p + 2, NonRhoticFinal::Iong, tone)
        },
        None => seq![],
    }
}

/// The final of two letters whose second letter, at `p + 1`, has this base
/// and bears the tone.
pub open spec fn row_pair(
    t: Seq<PinyinAtom>,
    p: int,
    second: Alphabet,
    fin: NonRhoticFinal,
    strict: bool,
) -> Seq<Candidate> {
    match toned(t, p + 1, second, None, strict) {
        Some(tone) => seq![plain(fin, tone)],
        None => seq![],
    }
}

/// The finals that begin with a bare `i` before the vowel that bears the
/// tone: the rows of `ia`, then `ie`, `iu`, the rows of `io`.
pub open spec fn rows_i_glide(t: Seq<PinyinAtom>, p: int, strict: bool) -> Seq<Candidate> {
    if bare(t, p, Alphabet::I) {
        rows_ia(t, p, strict)
            + row_pair(t, p, Alphabet::E, NonRhoticFinal::Ie, strict)
            + row_pair(t, p, Alphabet::U, NonRhoticFinal::Iu, strict)
            + rows_io(t, p, strict)
    } else {
        seq![]
    }
}

/// `u`, then `un`.
pub open spec fn rows_u(t: Seq<PinyinAtom>, p: int, strict: bool) -> Seq<Candidate> {
    match toned(t, p, Alphabet::U, None, strict) {
        Some(tone) => {
            seq![plain(NonRhoticFinal::U, tone)]
                + listed_if(bare(t, p + 1, Alphabet::N), plain(NonRhoticFinal::Un, tone))
        },
        None => seq![],
    }
}

/// After a bare `u`: `ua`, then `uai`, `uan`, `uang`.
pub open spec fn rows_ua(t: Seq<PinyinAtom>, p: int, strict: bool) -> Seq<Candidate> {
    match toned(t, p + 1, Alphabet::A, None, strict) {
        Some(tone) => {
            seq![plain(NonRhoticFinal::Ua, tone)]
                + listed_if(bare(t, p + 2, Alphabet::I), plain(NonRhoticFinal::Uai, tone))
                + listed_if(bare(t, p + 2, Alphabet::N), plain(NonRhoticFinal::Uan, tone))
                + velar(t, p + 2, NonRhoticFinal::Uang, tone)
        },
        None => seq![],
    }
}

/// The finals that begin with a bare `u` before the vowel that bears the
/// tone: the rows of `ua`, then `ue`, `ui`, `uo`.
pub open spec fn rows_u_glide(t: Seq<PinyinAtom>, p: int, strict: bool) -> Seq<Candidate> {
    if bare(t, p, Alphabet::U) {
        rows_ua(t, p, strict)
            + row_pair(t, p, Alphabet::E, NonRhoticFinal::Ue, strict)
            + row_pair(t, p, Alphabet::I, NonRhoticFinal::Ui, strict)
            + row_pair(t, p, Alphabet::O, NonRhoticFinal::Uo, strict)
    } else {
        seq![]
    }
}

/// `ü`, then `ün`.
pub open spec fn rows_yu(t: Seq<PinyinAtom>, p: int, strict: bool) -> Seq<Candidate> {
    match toned(t, p, Alphabet::U, Some(Diacritic::Umlaut), strict) {
        Some(tone) => {
            seq![plain(NonRhoticFinal::Yu, tone)]
                + listed_if(bare(t, p + 1, Alphabet::N), plain(NonRhoticFinal::Yun, tone))
        },
        None => seq![],
    }
}

/// The row of `üan`, which has no shorter form: after a `ü` without a tone
/// mark, an `a` that bears the tone and a bare `n`.
pub open spec fn row_yuan(t: Seq<PinyinAtom>, p: int, strict: bool) -> Seq<Candidate> {
    match toned(t, p + 1, Alphabet::A, None, strict) {
        Some(tone) => listed_if(bare(t, p + 2, Alphabet::N), plain(NonRhoticFinal::Yuan, tone)),
        None => seq![],
    }
}

/// The finals that begin with a `ü` without a tone mark: `üan` and `üe`.
pub open spec fn rows_yu_glide(t: Seq<PinyinAtom>, p: int, strict: bool) -> Seq<Candidate> {
    if toneless(t, p, Alphabet::U, seq![Diacritic::Umlaut]) {
        row_yuan(t, p, strict) + row_pair(t, p, Alphabet::E, NonRhoticFinal::Yue, strict)
    } else {
        seq![]
    }
}

/// Every candidate whose letters match the atoms from `p` on, in the order
/// in which the parser tries them. Within one family a shorter final comes
/// before the longer ones that extend it.
pub open spec fn spec_candidates(t: Seq<PinyinAtom>, p: int, strict: bool) -> Seq<Candidate> {
    rows_a(t, p, strict)
        + rows_e_circumflex(t, p, strict)
        + rows_e(t, p, strict)
        + rows_o(t, p, strict)
        + rows_i(t, p, strict)
        + rows_i_glide(t, p, strict)
        + rows_u(t, p, strict)
        + rows_u_glide(t, p, strict)
        + rows_yu(t, p, strict)
        + rows_yu_glide(t, p, strict)
}

impl VecAndIndex<PinyinToken> {
    /// The tokens as atoms.
    pub open spec fn atoms(&self) -> Seq<PinyinAtom> {
        Seq::new(self.items().len(), |i: int| self.items()[i]@)
    }

    /// Whether a letter with this base and no mark stands `n` places after
    /// the cursor.
    fn toneless(&self, n: usize, base: Alphabet) -> (b: bool)
        ensures
            b == toneless(self.atoms(), self.position() + n, base, seq![]),
    {
        match self.peek(n) {
            Some(PinyinToken::Alph(a)) => a.alphabet == base && a.diacritics.len() == 0,
            _ => false,
        }
    }

    /// Whether a letter with this base and this one mark stands `n` places
    /// after the cursor.
    fn toneless_with(&self, n: usize, base: Alphabet, companion: Diacritic) -> (b: bool)
        ensures
            b == toneless(self.atoms(), self.position() + n, base, seq![companion]),
    {
        match self.peek(n) {
            Some(PinyinToken::Alph(a)) => a.alphabet == base && a.diacritics.len() == 1
                && a.diacritics[0] == companion,
            _ => false,
        }
    }

    /// The tone of the letter `n` places after the cursor, where it has
    /// this base and at most a tone mark.
    fn toned(&self, strict: bool, n: usize, base: Alphabet) -> (tone: Option<Tone>)
        ensures
            tone == toned(self.atoms(), self.position() + n, base, None, strict),
    {
        match self.peek(n) {
            Some(PinyinToken::Alph(a)) => {
                if a.alphabet == base {
                    if a.diacritics.len() == 0 {
                        Some(Tone::Fifth)
                    } else if a.diacritics.len() == 1 {
                        tone_written_by(a.diacritics[0], strict)
                    } else {
                        None
                    }
                } else {
                    None
                }
            },
            _ => None,
        }
    }

    /// The tone of the letter `n` places after the cursor, where it has
    /// this base, the companion mark and a tone mark.
    fn toned_with(&self, strict: bool, n: usize, base: Alphabet, companion: Diacritic) -> (tone:
        Option<Tone>)
        ensures
            tone == toned(self.atoms(), self.position() + n, base, Some(companion), strict),
    {
        match self.peek(n) {
            Some(PinyinToken::Alph(a)) => {
                if a.alphabet == base && a.diacritics.len() == 2 {
                    if a.diacritics[0] == companion {
                        tone_written_by(a.diacritics[1], strict)
                    } else if a.diacritics[1] == companion {
                        tone_written_by(a.diacritics[0], strict)
                    } else {
                        None
                    }
                } else {
                    None
                }
            },
            _ => None,
        }
    }

    /// Adds the candidates for a final in `-ng` whose nasal begins `n`
    /// places after the cursor.
    fn push_velar(&self, n: usize, fin: NonRhoticFinal, tone: Tone, ans: &mut Vec<Candidate>)
        requires
            n <= 2,
        ensures
            final(ans)@ == old(ans)@ + velar(self.atoms(), self.position() + n, fin, tone),
    {
        if self.toneless(n, Alphabet::N) && self.toneless(n + 1, Alphabet::G) {
            ans.push(Candidate { ng: false, fin, tone });
        }
        if self.toneless(n, Alphabet::Ng) {
            ans.push(Candidate { ng: true, fin, tone });
        }
    }

    /// Adds the candidate for a final of two letters whose second letter
    /// bears the tone.
    fn push_pair(
        &self,
        strict: bool,
        second: Alphabet,
        fin: NonRhoticFinal,
        ans: &mut Vec<Candidate>,
    )
        ensures
            final(ans)@ == old(ans)@ + row_pair(self.atoms(), self.position(), second, fin, strict),
    {
        if let Some(tone) = self.toned(strict, 1, second) {
            ans.push(Candidate { ng: false, fin, tone });
        }
    }

    /// Adds the rows of `a`.
    fn push_rows_a(&self, strict: bool, ans: &mut Vec<Candidate>)
        ensures
            final(ans)@ == old(ans)@ + rows_a(self.atoms(), self.position(), strict),
    {
        if let Some(tone) = self.toned(strict, 0, Alphabet::A) {
            ans.push(Candidate { ng: false, fin: NonRhoticFinal::A, tone });
            if self.toneless(1, Alphabet::I) {
                ans.push(Candidate { ng: false, fin: NonRhoticFinal::Ai, tone });
            }
            if self.toneless(1, Alphabet::N) {
                ans.push(Candidate { ng: false, fin: NonRhoticFinal::An, tone });
            }
            self.push_velar(1, NonRhoticFinal::Ang, tone, ans);
            if self.toneless(1, Alphabet::O) {
                ans.push(Candidate { ng: false, fin: NonRhoticFinal::Ao, tone });
            }
        }
    }

    /// Adds the row of `ê` and the rows of `e`.
    fn push_rows_e(&self, strict: bool, ans: &mut Vec<Candidate>)
        ensures
            final(ans)@ == old(ans)@ + rows_e_circumflex(self.atoms(), self.position(), strict)
                + rows_e(self.atoms(), self.position(), strict),
    {
        if let Some(tone) = self.toned_with(strict, 0, Alphabet::E, Diacritic::Circumflex) {
            ans.push(Candidate { ng: false, fin: NonRhoticFinal::ECircumflex, tone });
        }
        if let Some(tone) = self.toned(strict, 0, Alphabet::E) {
            ans.push(Candidate { ng: false, fin: NonRhoticFinal::E, tone });
            if self.toneless(1, Alphabet::I) {
                ans.push(Candidate { ng: false, fin: NonRhoticFinal::Ei, tone });
            }
            if self.toneless(1, Alphabet::N) {
                ans.push(Candidate { ng: false, fin: NonRhoticFinal::En, tone });
            }
            self.push_velar(1, NonRhoticFinal::Eng, tone, ans);
        }
    }

    /// Adds the rows of `o`.
    fn push_rows_o(&self, strict: bool, ans: &mut Vec<Candidate>)
        ensures
            final(ans)@ == old(ans)@ + rows_o(self.atoms(), self.position(), strict),
    {
        if let Some(tone) = self.toned(strict, 0, Alphabet::O) {
            ans.push(Candidate { ng: false, fin: NonRhoticFinal::O, tone });
            self.push_velar(1, NonRhoticFinal::Ong, tone, ans);
            if self.toneless(1, Alphabet::U) {
                ans.push(Candidate { ng: false, fin: NonRhoticFinal::Ou, tone });
            }
        }
    }

    /// Adds the rows of `i`.
    fn push_rows_i(&self, strict: bool, ans: &mut Vec<Candidate>)
        ensures
            final(ans)@ == old(ans)@ + rows_i(self.atoms(), self.position(), strict),
    {
        if let Some(tone) = self.toned(strict, 0, Alphabet::I) {
            ans.push(Candidate { ng: false, fin: NonRhoticFinal::I, tone });
            if self.toneless(1, Alphabet::N) {
                ans.push(Candidate { ng: false, fin: NonRhoticFinal::In, tone });
            }
            self.push_velar(1, NonRhoticFinal::Ing, tone, ans);
        }
    }

    /// Adds the rows of `ia`, for a cursor that stands on a bare `i`.
    fn push_rows_ia(&self, strict: bool, ans: &mut Vec<Candidate>)
        ensures
            final(ans)@ == old(ans)@ + rows_ia(self.atoms(), self.position(), strict),
    {
        if let Some(tone) = self.toned(strict, 1, Alphabet::A) {
            ans.push(Candidate { ng: false, fin: NonRhoticFinal::Ia, tone });
            if self.toneless(2, Alphabet::N) {
                ans.push(Candidate { ng: false, fin: NonRhoticFinal::Ian, tone });
            }
            self.push_velar(2, NonRhoticFinal::Iang, tone, ans);
            if self.toneless(2, Alphabet::O) {
                ans.push(Candidate { ng: false, fin: NonRhoticFinal::Iao, tone });
            }
        }
    }

    /// Adds the rows of `io`, for a cursor that stands on a bare `i`.
    fn push_rows_io(&self, strict: bool, ans: &mut Vec<Candidate>)
        ensures
            final(ans)@ == old(ans)@ + rows_io(self.atoms(), self.position(), strict),
    {
        if let Some(tone) = self.toned(strict, 1, Alphabet::O) {
            ans.push(Candidate { ng: false, fin: NonRhoticFinal::Io, tone });
            self.push_velar(2, NonRhoticFinal::Iong, tone, ans);
        }
    }

    /// Adds the finals that begin with a bare `i`.
    fn push_rows_i_glide(&self, strict: bool, ans: &mut Vec<Candidate>)
        ensures
            final(ans)@ == old(ans)@ + rows_i_glide(self.atoms(), self.position(), strict),
    {
        if self.toneless(0, Alphabet::I) {
            self.push_rows_ia(strict, ans);
            self.push_pair(strict, Alphabet::E, NonRhoticFinal::Ie, ans);
            self.push_pair(strict, Alphabet::U, NonRhoticFinal::Iu, ans);
            self.push_rows_io(strict, ans);
        }
    }

    /// Adds the rows of `u`.
    fn push_rows_u(&self, strict: bool, ans: &mut Vec<Candidate>)
        ensures
            final(ans)@ == old(ans)@ + rows_u(self.atoms(), self.position(), strict),
    {
        if let Some(tone) = self.toned(strict, 0, Alphabet::U) {
            ans.push(Candidate { ng: false, fin: NonRhoticFinal::U, tone });
            if self.toneless(1, Alphabet::N) {
                ans.push(Candidate { ng: false, fin: NonRhoticFinal::Un, tone });
            }
        }
    }

    /// Adds the rows of `ua`, for a cursor that stands on a bare `u`.
    fn push_rows_ua(&self, strict: bool, ans: &mut Vec<Candidate>)
        ensures
            final(ans)@ == old(ans)@ + rows_ua(self.atoms(), self.position(), strict),
    {
        if let Some(tone) = self.toned(strict, 1, Alphabet::A) {
            ans.push(Candidate { ng: false, fin: NonRhoticFinal::Ua, tone });
            if self.toneless(2, Alphabet::I) {
                ans.push(Candidate { ng: false, fin: NonRhoticFinal::Uai, tone });
            }
            if self.toneless(2, Alphabet::N) {
                ans.push(Candidate { ng: false, fin: NonRhoticFinal::Uan, tone });
            }
            self.push_velar(2, NonRhoticFinal::Uang, tone, ans);
        }
    }

    /// Adds the finals that begin with a bare `u`.
    fn push_rows_u_glide(&self, strict: bool, ans: &mut Vec<Candidate>)
        ensures
            final(ans)@ == old(ans)@ + rows_u_glide(self.atoms(), self.position(), strict),
    {
        if self.toneless(0, Alphabet::U) {
            self.push_rows_ua(strict, ans);
            self.push_pair(strict, Alphabet::E, NonRhoticFinal::Ue, ans);
            self.push_pair(strict, Alphabet::I, NonRhoticFinal::Ui, ans);
            self.push_pair(strict, Alphabet::O, NonRhoticFinal::Uo, ans);
        }
    }

    /// Adds the rows of `ü` and the finals that begin with a `ü` without a
    /// tone mark.
    fn push_rows_yu(&self, strict: bool, ans: &mut Vec<Candidate>)
        ensures
            final(ans)@ == old(ans)@ + rows_yu(self.atoms(), self.position(), strict)
                + rows_yu_glide(self.atoms(), self.position(), strict),
    {
        if let Some(tone) = self.toned_with(strict, 0, Alphabet::U, Diacritic::Umlaut) {
            ans.push(Candidate { ng: false, fin: NonRhoticFinal::Yu, tone });
            if self.toneless(1, Alphabet::N) {
                ans.push(Candidate { ng: false, fin: NonRhoticFinal::Yun, tone });
            }
        }
        if self.toneless_with(0, Alphabet::U, Diacritic::Umlaut) {
            if let Some(tone) = self.toned(strict, 1, Alphabet::A) {
                if self.toneless(2, Alphabet::N) {
                    ans.push(Candidate { ng: false, fin: NonRhoticFinal::Yuan, tone });
                }
            }
            self.push_pair(strict, Alphabet::E, NonRhoticFinal::Yue, ans);
        }
    }

    /// Lists every final that the letters at the cursor may spell, in the
    /// order in which the parser tries them, without moving the cursor. The
    /// rhotic suffix is no part of a candidate.
    #[must_use]
    pub fn get_candidates_without_rhotic(&self, strict: bool) -> (ans: Vec<Candidate>)
        ensures
            ans@ == spec_candidates(self.atoms(), self.position(), strict),
            forall|c: Candidate| #[trigger]
                ans@.contains(c) <==> fits(self.atoms(), self.position(), c, strict),
            all_placed(self.atoms(), self.position(), ans@, strict),
            ans.len() <= 4,
    {
        proof {
            lemma_candidates_are_few(self.atoms(), self.position(), strict);
            assert forall|c: Candidate| #[trigger]
                spec_candidates(self.atoms(), self.position(), strict).contains(c) <==> fits(
                    self.atoms(),
                    self.position(),
                    c,
                    strict,
                ) by {
                lemma_candidates_are_those_that_fit(self.atoms(), self.position(), c, strict);
            }
            lemma_candidates_are_placed(self.atoms(), self.position(), strict);
        }
        let mut ans = Vec::new();
        self.push_rows_a(strict, &mut ans);
        self.push_rows_e(strict, &mut ans);
        self.push_rows_o(strict, &mut ans);
        self.push_rows_i(strict, &mut ans);
        self.push_rows_i_glide(strict, &mut ans);
        self.push_rows_u(strict, &mut ans);
        self.push_rows_u_glide(strict, &mut ans);
        self.push_rows_yu(strict, &mut ans);
        ans
    }
}

/// Reads a tone off one mark.
fn tone_written_by(d: Diacritic, strict: bool) -> (tone: Option<Tone>)
    ensures
        tone == tone_of_mark(d, strict),
{
    match d {
        Diacritic::Macron => Some(Tone::First),
        Diacritic::Acute => Some(Tone::Second),
        Diacritic::Hacek => Some(Tone::Third),
        Diacritic::Breve => {
            if strict {
                None
            } else {
                Some(Tone::Third)
            }
        },
        Diacritic::Grave => Some(Tone::Fourth),
        Diacritic::Umlaut | Diacritic::Circumflex => None,
    }
}

} // verus!
