//! The syllable state machine: it walks the tokens, commits an initial,
//! tries the candidate finals in order and yields one text per pull.

use crate::candidates::{letter_at, spec_candidates};
use crate::config::{Configuration, PinyinParser, Strictness};
use crate::cursor::VecAndIndex;
use crate::error::ParseError;
use crate::finals::{Candidate, FinalWithTone};
use crate::initials::{SpellingInitial, ZCS};
use crate::shapes::{all_placed, lemma_candidates_are_placed, placed};
use crate::pinyin_token::{
    spec_to_token, to_token, Alphabet, AlphabetWithDiacritics, Diacritic, Letter, PinyinAtom,
    PinyinToken,
};
use crate::unicode::{graphemes, grapheme_clusters, nfc, nfc_form};
use vstd::prelude::*;
use vstd::string::StringExecFns;

verus! {

/// Where the state machine stands between two tokens.
#[derive(Debug, Clone, Copy, PartialEq, Eq, Hash, Structural)]
pub enum ParserState {
    /// Nothing of a syllable has been read.
    BeforeWordInitial,
    /// The initial is known; a final must follow.
    InitialParsed(SpellingInitial),
    /// A bare `z`, `c` or `s` has been read; an `h` may follow.
    ZCSParsed(ZCS),
    /// A syllable has just been yielded, and the apostrophe behind it, if
    /// there was one, has been stepped over.
    AfterSyllablePossiblyConsumingApostrophe,
}

impl ParserState {
    /// How far the state is from the final: the measure that decreases when
    /// the machine changes state without reading on.
    pub open spec fn rank(self) -> int {
        match self {
            ParserState::InitialParsed(_) => 0,
            ParserState::ZCSParsed(_) => 1,
            _ => 2,
        }
    }
}

/// What a letter begins when it is met between two syllables.
#[derive(Debug, Clone, Copy, PartialEq, Eq, Hash, Structural)]
pub enum Onset {
    /// An initial that is complete with this letter.
    Initial(SpellingInitial),
    /// A bare `z`, `c` or `s`, which may go on with `h`.
    Digraph(ZCS),
    /// `a`, `e` or `o`: the empty initial, and the letter belongs to the
    /// final.
    Zero,
    /// A consonant that is a syllable by itself, as `ń` is.
    Standalone,
    /// `i`, `u` or `ŋ`, with which no syllable begins.
    Illegal,
}

/// The initial that a bare `z`, `c` or `s` may become, or, where the letter
/// carries exactly a circumflex, the digraph that the circumflex
/// abbreviates; with any other mark the letter stands alone.
pub open spec fn spec_sibilant(z: ZCS, marks: Seq<Diacritic>) -> Onset {
    if marks.len() == 0 {
        Onset::Digraph(z)
    } else if marks =~= seq![Diacritic::Circumflex] {
        Onset::Initial(z.with_h())
    } else {
        Onset::Standalone
    }
}

/// What a letter begins between two syllables.
pub open spec fn spec_onset(l: Letter) -> Onset {
    match l.base {
        Alphabet::B => Onset::Initial(SpellingInitial::B),
        Alphabet::P => Onset::Initial(SpellingInitial::P),
        Alphabet::F => Onset::Initial(SpellingInitial::F),
        Alphabet::D => Onset::Initial(SpellingInitial::D),
        Alphabet::T => Onset::Initial(SpellingInitial::T),
        Alphabet::L => Onset::Initial(SpellingInitial::L),
        Alphabet::G => Onset::Initial(SpellingInitial::G),
        Alphabet::K => Onset::Initial(SpellingInitial::K),
        Alphabet::H => Onset::Initial(SpellingInitial::H),
        Alphabet::J => Onset::Initial(SpellingInitial::J),
        Alphabet::Q => Onset::Initial(SpellingInitial::Q),
        Alphabet::X => Onset::Initial(SpellingInitial::X),
        Alphabet::R => Onset::Initial(SpellingInitial::R),
        Alphabet::Y => Onset::Initial(SpellingInitial::Y),
        Alphabet::W => Onset::Initial(SpellingInitial::W),
        Alphabet::M => if l.diacritics.len() == 0 {
            Onset::Initial(SpellingInitial::M)
        } else {
            Onset::Standalone
        },
        Alphabet::N => if l.diacritics.len() == 0 {
            Onset::Initial(SpellingInitial::N)
        } else {
            Onset::Standalone
        },
        Alphabet::Z => spec_sibilant(ZCS::Z, l.diacritics),
        Alphabet::C => spec_sibilant(ZCS::C, l.diacritics),
        Alphabet::S => spec_sibilant(ZCS::S, l.diacritics),
        Alphabet::A | Alphabet::E | Alphabet::O => Onset::Zero,
        Alphabet::I | Alphabet::U | Alphabet::Ng => Onset::Illegal,
    }
}

/// Classifies a `z`, `c` or `s` by its marks.
fn sibilant(z: ZCS, marks: &Vec<Diacritic>) -> (o: Onset)
    ensures
        o == spec_sibilant(z, marks@),
{
    if marks.len() == 0 {
        Onset::Digraph(z)
    } else if marks.len() == 1 && marks[0] == Diacritic::Circumflex {
        Onset::Initial(z.with_h())
    } else {
        Onset::Standalone
    }
}

/// Classifies a letter that is met between two syllables.
pub fn onset(letter: &AlphabetWithDiacritics) -> (o: Onset)
    ensures
        o == spec_onset(letter@),
{
    match letter.alphabet {
        Alphabet::B => Onset::Initial(SpellingInitial::B),
        Alphabet::P => Onset::Initial(SpellingInitial::P),
        Alphabet::F => Onset::Initial(SpellingInitial::F),
        Alphabet::D => Onset::Initial(SpellingInitial::D),
        Alphabet::T => Onset::Initial(SpellingInitial::T),
        Alphabet::L => Onset::Initial(SpellingInitial::L),
        Alphabet::G => Onset::Initial(SpellingInitial::G),
        Alphabet::K => Onset::Initial(SpellingInitial::K),
        Alphabet::H => Onset::Initial(SpellingInitial::H),
        Alphabet::J => Onset::Initial(SpellingInitial::J),
        Alphabet::Q => Onset::Initial(SpellingInitial::Q),
        Alphabet::X => Onset::Initial(SpellingInitial::X),
        Alphabet::R => Onset::Initial(SpellingInitial::R),
        Alphabet::Y => Onset::Initial(SpellingInitial::Y),
        Alphabet::W => Onset::Initial(SpellingInitial::W),
        Alphabet::M => {
            if letter.diacritics.len() == 0 {
                Onset::Initial(SpellingInitial::M)
            } else {
                Onset::Standalone
            }
        },
        Alphabet::N => {
            if letter.diacritics.len() == 0 {
                Onset::Initial(SpellingInitial::N)
            } else {
                Onset::Standalone
            }
        },
        Alphabet::Z => sibilant(ZCS::Z, &letter.diacritics),
        Alphabet::C => sibilant(ZCS::C, &letter.diacritics),
        Alphabet::S => sibilant(ZCS::S, &letter.diacritics),
        Alphabet::A | Alphabet::E | Alphabet::O => Onset::Zero,
        Alphabet::I | Alphabet::U | Alphabet::Ng => Onset::Illegal,
    }
}

/// What the atom behind a candidate says of the candidate.
#[derive(Debug, Clone, Copy, PartialEq, Eq, Hash, Structural)]
pub enum Verdict {
    /// The candidate read too little or too much: try the next one.
    Reject,
    /// The syllable ends here and the atom behind it stays.
    Commit,
    /// The syllable ends here and the apostrophe behind it is stepped over.
    CommitPastApostrophe,
    /// The `r` behind the candidate is the rhotic suffix of this syllable.
    CommitRhotic,
    /// A strict mode found an apostrophe that is not followed by `a`, `e`
    /// or `o`.
    Misplaced,
}

impl Verdict {
    /// How many atoms behind the candidate belong to the syllable.
    pub open spec fn spec_extra(self) -> usize {
        match self {
            Verdict::CommitPastApostrophe | Verdict::CommitRhotic => 1,
            _ => 0,
        }
    }

    /// How many atoms behind the candidate belong to the syllable.
    #[verifier::when_used_as_spec(spec_extra)]
    pub fn extra(self) -> (n: usize)
        ensures
            n == self.spec_extra(),
    {
        match self {
            Verdict::CommitPastApostrophe | Verdict::CommitRhotic => 1,
            _ => 0,
        }
    }
}

/// Whether a letter with one of the bases `a`, `e`, `i`, `o`, `u` stands at
/// `i`.
pub open spec fn vowel_follows(t: Seq<PinyinAtom>, i: int) -> bool {
    letter_at(t, i) matches Some(l) && l.base.is_vowel()
}

/// Whether a letter with one of the bases `a`, `e`, `o` stands at `i`.
pub open spec fn zero_initial_follows(t: Seq<PinyinAtom>, i: int) -> bool {
    letter_at(t, i) matches Some(l) && (l.base == Alphabet::A || l.base == Alphabet::E || l.base
        == Alphabet::O)
}

/// Judges a candidate by the atom at `end`, the first one that the
/// candidate does not cover, and by the atom behind that.
pub open spec fn right_context(t: Seq<PinyinAtom>, end: int, strict: bool) -> Verdict {
    if 0 <= end < t.len() {
        match t[end] {
            PinyinAtom::Apostrophe => if strict && !zero_initial_follows(t, end + 1) {
                Verdict::Misplaced
            } else {
                Verdict::CommitPastApostrophe
            },
            PinyinAtom::Letter(l) => match l.base {
                Alphabet::A | Alphabet::E | Alphabet::I | Alphabet::O | Alphabet::U
                | Alphabet::Ng => Verdict::Reject,
                Alphabet::R => if vowel_follows(t, end + 1) {
                    Verdict::Commit
                } else {
                    Verdict::CommitRhotic
                },
                Alphabet::G | Alphabet::N => if vowel_follows(t, end + 1) {
                    Verdict::Commit
                } else {
                    Verdict::Reject
                },
                _ => Verdict::Commit,
            },
            _ => Verdict::Commit,
        }
    } else {
        Verdict::Commit
    }
}

/// The index of the first candidate, from the `k`-th on, that its right
/// context does not reject.
pub open spec fn first_commit(
    t: Seq<PinyinAtom>,
    p: int,
    cands: Seq<Candidate>,
    k: int,
    strict: bool,
) -> Option<int>
    decreases cands.len() - k,
{
    if k < 0 || k >= cands.len() {
        None
    } else if right_context(t, p + cands[k].span(), strict) is Reject {
        first_commit(t, p, cands, k + 1, strict)
    } else {
        Some(k)
    }
}

/// A syllable written out before normalization: the initial, the final
/// with its tone mark, and `r` where the syllable is rhotic.
pub open spec fn syllable_spelling(
    initial: SpellingInitial,
    fin: FinalWithTone,
    rhotic: bool,
) -> Seq<
    char,
> {
    initial.text() + fin.spelling() + if rhotic {
        seq!['r']
    } else {
        seq![]
    }
}

/// A syllable as it is yielded: its spelling in Normalization Form C.
pub open spec fn syllable_text(initial: SpellingInitial, fin: FinalWithTone, rhotic: bool) -> Seq<
    char,
> {
    nfc_form(syllable_spelling(initial, fin, rhotic))
}

/// What one pull of the iterator comes to.
pub enum Pull {
    /// A syllable, with the position and the state after it.
    Syllable { text: Seq<char>, next: int, state: ParserState },
    /// A grapheme that is kept as it was written, with the position after
    /// it; the state after it is `BeforeWordInitial`.
    Kept { text: Seq<char>, next: int },
    /// The tokens are used up.
    End,
    /// The text is refused.
    Failed(ParseError),
}

/// The final after a committed initial: the first candidate at `p` that its
/// right context does not reject decides.
pub open spec fn spec_final_match(
    t: Seq<PinyinAtom>,
    p: int,
    initial: SpellingInitial,
    strict: bool,
) -> Pull {
    let cands = spec_candidates(t, p, strict);
    match first_commit(t, p, cands, 0, strict) {
        None => Pull::Failed(ParseError::UnmatchedFinal),
        Some(k) => {
            let verdict = right_context(t, p + cands[k].span(), strict);
            if verdict is Misplaced {
                Pull::Failed(ParseError::StrictApostropheMisplaced)
            } else {
                Pull::Syllable {
                    text: syllable_text(
                        initial,
                        FinalWithTone { fin: cands[k].fin, tone: cands[k].tone },
                        verdict is CommitRhotic,
                    ),
                    next: p + cands[k].span() + verdict.extra(),
                    state: ParserState::AfterSyllablePossiblyConsumingApostrophe,
                }
            }
        },
    }
}

/// What the next pull comes to, from position `p` in state `state`.
pub open spec fn spec_pull(
    t: Seq<PinyinAtom>,
    p: int,
    state: ParserState,
    cfg: Configuration,
) -> Pull
    decreases t.len() - p, state.rank(),
{
    if 0 <= p < t.len() {
        match state {
            ParserState::InitialParsed(initial) => match t[p] {
                PinyinAtom::Letter(_) => spec_final_match(t, p, initial, cfg.strictness.is_strict()),
                _ => Pull::Failed(ParseError::MalformedSyllable),
            },
            ParserState::ZCSParsed(zcs) => match t[p] {
                PinyinAtom::Letter(l) => if l.base == Alphabet::H && l.diacritics.len() == 0 {
                    spec_pull(t, p + 1, ParserState::InitialParsed(zcs.with_h()), cfg)
                } else {
                    spec_pull(t, p, ParserState::InitialParsed(zcs.plain()), cfg)
                },
                _ => Pull::Failed(ParseError::MalformedSyllable),
            },
            _ => match t[p] {
                PinyinAtom::LightToneMarker => spec_pull(t, p + 1, state, cfg),
                PinyinAtom::Apostrophe => Pull::Failed(ParseError::MalformedSyllable),
                PinyinAtom::Punctuation(g) => if cfg.preserve_punctuation {
                    Pull::Kept { text: g, next: p + 1 }
                } else {
                    spec_pull(t, p + 1, state, cfg)
                },
                PinyinAtom::Space(g) => if cfg.preserve_spaces {
                    Pull::Kept { text: g, next: p + 1 }
                } else {
                    spec_pull(t, p + 1, state, cfg)
                },
                PinyinAtom::Others(g) => if cfg.preserve_miscellaneous {
                    Pull::Kept { text: g, next: p + 1 }
                } else {
                    spec_pull(t, p + 1, state, cfg)
                },
                PinyinAtom::Letter(l) => match spec_onset(l) {
                    Onset::Initial(initial) => spec_pull(
                        t,
                        p + 1,
                        ParserState::InitialParsed(initial),
                        cfg,
                    ),
                    Onset::Digraph(zcs) => spec_pull(t, p + 1, ParserState::ZCSParsed(zcs), cfg),
                    Onset::Zero => spec_pull(
                        t,
                        p,
                        ParserState::InitialParsed(SpellingInitial::ZeroAEO),
                        cfg,
                    ),
                    Onset::Standalone => Pull::Syllable {
                        text: l.text(false, cfg.strictness),
                        next: p + 1,
                        state,
                    },
                    Onset::Illegal => Pull::Failed(ParseError::IllegalSyllableStart),
                },
            },
        }
    } else {
        match state {
            ParserState::InitialParsed(_) | ParserState::ZCSParsed(_) => Pull::Failed(
                ParseError::UnmatchedFinal,
            ),
            _ => Pull::End,
        }
    }
}

/// A pull that yields a text moves the position forward, and not past the
/// end.
pub proof fn lemma_pull_advances(t: Seq<PinyinAtom>, p: int, state: ParserState, cfg: Configuration)
    ensures
        match spec_pull(t, p, state, cfg) {
            Pull::Syllable { next, .. } => 0 <= p < next <= t.len(),
            Pull::Kept { next, .. } => 0 <= p < next <= t.len(),
            _ => true,
        },
    decreases t.len() - p, state.rank(),
{
    if 0 <= p < t.len() {
        match state {
            ParserState::InitialParsed(initial) => {
                lemma_final_match_advances(t, p, initial, cfg.strictness.is_strict());
            },
            ParserState::ZCSParsed(zcs) => {
                if let PinyinAtom::Letter(l) = t[p] {
                    if l.base == Alphabet::H && l.diacritics.len() == 0 {
                        lemma_pull_advances(t, p + 1, ParserState::InitialParsed(zcs.with_h()), cfg);
                    } else {
                        lemma_pull_advances(t, p, ParserState::InitialParsed(zcs.plain()), cfg);
                    }
                }
            },
            _ => {
                match t[p] {
                    PinyinAtom::Letter(l) => {
                        match spec_onset(l) {
                            Onset::Initial(initial) => {
                                lemma_pull_advances(
                                    t,
                                    p + 1,
                                    ParserState::InitialParsed(initial),
                                    cfg,
                                );
                            },
                            Onset::Digraph(zcs) => {
                                lemma_pull_advances(t, p + 1, ParserState::ZCSParsed(zcs), cfg);
                            },
                            Onset::Zero => {
                                lemma_pull_advances(
                                    t,
                                    p,
                                    ParserState::InitialParsed(SpellingInitial::ZeroAEO),
                                    cfg,
                                );
                            },
                            _ => {},
                        }
                    },
                    PinyinAtom::Apostrophe => {},
                    _ => {
                        lemma_pull_advances(t, p + 1, state, cfg);
                    },
                }
            },
        }
    }
}

/// The candidate that `first_commit` finds is one of the list, from `k` on,
/// and its right context does not reject it.
pub proof fn lemma_first_commit_is_found(
    t: Seq<PinyinAtom>,
    p: int,
    cands: Seq<Candidate>,
    k: int,
    strict: bool,
)
    requires
        0 <= k,
    ensures
        match first_commit(t, p, cands, k, strict) {
            Some(j) => k <= j < cands.len() && !(right_context(t, p + cands[j].span(), strict)
                is Reject),
            None => true,
        },
    decreases cands.len() - k,
{
    if k < cands.len() && right_context(t, p + cands[k].span(), strict) is Reject {
        lemma_first_commit_is_found(t, p, cands, k + 1, strict);
    }
}

/// A final that is matched at `p` covers at least one atom and at most
/// five: up to four letters, and then the rhotic `r` or an apostrophe.
pub proof fn lemma_final_match_advances(
    t: Seq<PinyinAtom>,
    p: int,
    initial: SpellingInitial,
    strict: bool,
)
    ensures
        match spec_final_match(t, p, initial, strict) {
            Pull::Syllable { next, .. } => 0 <= p < next <= t.len() && next <= p + 5,
            Pull::Kept { .. } => false,
            _ => true,
        },
{
    let cands = spec_candidates(t, p, strict);
    lemma_candidates_are_placed(t, p, strict);
    lemma_first_commit_is_found(t, p, cands, 0, strict);
    if let Some(k) = first_commit(t, p, cands, 0, strict) {
        assert(placed(t, p, cands[k], strict));
    }
}

/// The mathematical model of [`PinyinParserIter`].
pub struct IterModel {
    pub config: Configuration,
    /// All the tokens of the text.
    pub atoms: Seq<PinyinAtom>,
    /// The index of the token that is read next.
    pub position: int,
    pub state: ParserState,
    /// The error that ended the iteration, if one did.
    pub failure: Option<ParseError>,
}

/// The atoms of a list of graphemes, or the error of the first grapheme
/// that is refused.
pub open spec fn spec_tokenize(clusters: Seq<Seq<char>>, strictness: Strictness) -> Result<
    Seq<PinyinAtom>,
    ParseError,
>
    decreases clusters.len(),
{
    if clusters.len() == 0 {
        Ok(seq![])
    } else {
        match spec_tokenize(clusters.drop_last(), strictness) {
            Err(e) => Err(e),
            Ok(atoms) => match spec_to_token(clusters.last(), strictness) {
                Err(e) => Err(e),
                Ok(atom) => Ok(atoms.push(atom)),
            },
        }
    }
}

/// The texts that a run of pulls yields from position `p` on, or the error
/// that ends the run.
pub open spec fn spec_collect(
    t: Seq<PinyinAtom>,
    p: int,
    state: ParserState,
    cfg: Configuration,
) -> Result<Seq<Seq<char>>, ParseError>
    decreases t.len() - p,
    via spec_collect_decreases
{
    match spec_pull(t, p, state, cfg) {
        Pull::Syllable { text, next, state } => match spec_collect(t, next, state, cfg) {
            Ok(rest) => Ok(seq![text] + rest),
            Err(e) => Err(e),
        },
        Pull::Kept { text, next } => match spec_collect(
            t,
            next,
            ParserState::BeforeWordInitial,
            cfg,
        ) {
            Ok(rest) => Ok(seq![text] + rest),
            Err(e) => Err(e),
        },
        Pull::End => Ok(seq![]),
        Pull::Failed(e) => Err(e),
    }
}

/// A pull that yields moves forward, so a run comes to an end.
#[via_fn]
proof fn spec_collect_decreases(
    t: Seq<PinyinAtom>,
    p: int,
    state: ParserState,
    cfg: Configuration,
) {
    lemma_pull_advances(t, p, state, cfg);
}

impl IterModel {
    /// The model of an iterator that has just been made from the graphemes
    /// of a text: at the start of the tokens, or failed where a grapheme is
    /// refused.
    pub open spec fn start(config: Configuration, clusters: Seq<Seq<char>>) -> IterModel {
        match spec_tokenize(clusters, config.strictness) {
            Ok(atoms) => IterModel {
                config,
                atoms,
                position: 0,
                state: ParserState::BeforeWordInitial,
                failure: None,
            },
            Err(e) => IterModel {
                config,
                atoms: seq![],
                position: 0,
                state: ParserState::BeforeWordInitial,
                failure: Some(e),
            },
        }
    }

    /// What the next pull comes to. An iterator that has failed fails
    /// again, with the same error.
    pub open spec fn pull(self) -> Pull {
        match self.failure {
            Some(e) => Pull::Failed(e),
            None => spec_pull(self.atoms, self.position, self.state, self.config),
        }
    }

    /// Everything that is still to come: the texts of all the pulls up to
    /// the end, or the error.
    pub open spec fn rest(self) -> Result<Seq<Seq<char>>, ParseError> {
        match self.failure {
            Some(e) => Err(e),
            None => spec_collect(self.atoms, self.position, self.state, self.config),
        }
    }

    /// Whether `text` and `after` are what a pull from `self` owes: the
    /// text that is yielded, if any, and the model behind it. A syllable
    /// that is yielded is in Normalization Form C.
    pub open spec fn pulls(self, text: Option<Seq<char>>, after: IterModel) -> bool {
        &&& after.config == self.config
        &&& after.atoms == self.atoms
        &&& match self.pull() {
            Pull::Syllable { text: syllable, next, state } => {
                &&& text == Some(syllable)
                &&& nfc_form(syllable) == syllable
                &&& after.position == next
                &&& after.state == state
                &&& after.failure is None
            },
            Pull::Kept { text: grapheme, next } => {
                &&& text == Some(grapheme)
                &&& after.position == next
                &&& after.state == ParserState::BeforeWordInitial
                &&& after.failure is None
            },
            Pull::End => {
                &&& text is None
                &&& after.position == self.atoms.len()
                &&& after.state == self.state
                &&& after.failure is None
            },
            Pull::Failed(e) => {
                &&& text is None
                &&& after.failure == Some(e)
            },
        }
    }
}

/// The view of a text that may be missing.
pub open spec fn text_of(s: Option<String>) -> Option<Seq<char>> {
    match s {
        Some(s) => Some(s@),
        None => None,
    }
}

/// The syllables of a text, one by one.
pub struct PinyinParserIter {
    configs: PinyinParser,
    it: VecAndIndex<PinyinToken>,
    state: ParserState,
    failure: Option<ParseError>,
}

impl View for PinyinParserIter {
    type V = IterModel;

    closed spec fn view(&self) -> IterModel {
        IterModel {
            config: self.configs@,
            atoms: self.it.atoms(),
            position: self.it.position(),
            state: self.state,
            failure: self.failure,
        }
    }
}

/// Writes a syllable out and normalizes it.
pub fn syllable(initial: SpellingInitial, fin: FinalWithTone, rhotic: bool) -> (s: String)
    ensures
        s@ == syllable_text(initial, fin, rhotic),
        nfc_form(s@) == s@,
{
    let mut spelled = initial.to_string();
    fin.write_to(&mut spelled);
    if rhotic {
        proof {
            reveal_strlit("r");
        }
        spelled.append("r");
    }
    assert(spelled@ == syllable_spelling(initial, fin, rhotic));
    nfc(spelled.as_str())
}

impl VecAndIndex<PinyinToken> {
    /// Whether a vowel letter stands `n` places after the cursor.
    fn vowel_at(&self, n: usize) -> (b: bool)
        ensures
            b == vowel_follows(self.atoms(), self.position() + n),
    {
        match self.peek(n) {
            Some(PinyinToken::Alph(a)) => a.alphabet.is_vowel(),
            _ => false,
        }
    }

    /// Whether `a`, `e` or `o` stands `n` places after the cursor.
    fn zero_initial_at(&self, n: usize) -> (b: bool)
        ensures
            b == zero_initial_follows(self.atoms(), self.position() + n),
    {
        match self.peek(n) {
            Some(PinyinToken::Alph(a)) => matches!(
                a.alphabet,
                Alphabet::A | Alphabet::E | Alphabet::O
            ),
            _ => false,
        }
    }

    /// Judges the candidate that ends just before the cursor.
    fn look_right(&self, strict: bool) -> (v: Verdict)
        ensures
            v == right_context(self.atoms(), self.position(), strict),
    {
        match self.peek(0) {
            None => Verdict::Commit,
            Some(PinyinToken::Apostrophe) => {
                if strict && !self.zero_initial_at(1) {
                    Verdict::Misplaced
                } else {
                    Verdict::CommitPastApostrophe
                }
            },
            Some(PinyinToken::Alph(a)) => match a.alphabet {
                Alphabet::A | Alphabet::E | Alphabet::I | Alphabet::O | Alphabet::U
                | Alphabet::Ng => Verdict::Reject,
                Alphabet::R => {
                    if self.vowel_at(1) {
                        Verdict::Commit
                    } else {
                        Verdict::CommitRhotic
                    }
                },
                Alphabet::G | Alphabet::N => {
                    if self.vowel_at(1) {
                        Verdict::Commit
                    } else {
                        Verdict::Reject
                    }
                },
                _ => Verdict::Commit,
            },
            Some(_) => Verdict::Commit,
        }
    }
}

impl PinyinParserIter {
    /// An iterator at the start of `tokens`.
    pub fn from_tokens(configs: PinyinParser, tokens: Vec<PinyinToken>) -> (it: Self)
        ensures
            it@ == (IterModel {
                config: configs@,
                atoms: tokens.deep_view(),
                position: 0,
                state: ParserState::BeforeWordInitial,
                failure: None,
            }),
    {
        let it = PinyinParserIter {
            configs,
            it: VecAndIndex::new(tokens),
            state: ParserState::BeforeWordInitial,
            failure: None,
        };
        assert(it@.atoms =~= tokens.deep_view());
        it
    }

    /// An iterator over the graphemes of a text: it tokenizes them and
    /// starts at the first token, or has failed already where a grapheme
    /// is refused.
    pub fn from_graphemes(configs: PinyinParser, clusters: &Vec<String>) -> (it: Self)
        ensures
            it@ == IterModel::start(configs@, clusters.deep_view()),
    {
        match tokenize(clusters, configs.strictness()) {
            Ok(tokens) => Self::from_tokens(configs, tokens),
            Err(e) => {
                let it = PinyinParserIter {
                    configs,
                    it: VecAndIndex::new(Vec::new()),
                    state: ParserState::BeforeWordInitial,
                    failure: Some(e),
                };
                assert(it@.atoms =~= seq![]);
                it
            },
        }
    }

    /// The error that ended the iteration, if one did.
    pub fn error(&self) -> (e: Option<ParseError>)
        ensures
            e == self@.failure,
    {
        self.failure
    }

    /// Records the error and yields nothing.
    fn fail(&mut self, e: ParseError) -> (r: Option<String>)
        ensures
            r is None,
            final(self)@.failure == Some(e),
            final(self)@.config == old(self)@.config,
            final(self)@.atoms == old(self)@.atoms,
    {
        self.failure = Some(e);
        None
    }

    /// Tries the candidate finals at the cursor in turn and yields the
    /// syllable of the first one that its right context does not reject.
    fn final_match(&mut self, initial: SpellingInitial) -> (r: Option<String>)
        requires
            old(self)@.failure is None,
        ensures
            final(self)@.config == old(self)@.config,
            final(self)@.atoms == old(self)@.atoms,
            match spec_final_match(
                old(self)@.atoms,
                old(self)@.position,
                initial,
                old(self)@.config.strictness.is_strict(),
            ) {
                Pull::Syllable { text, next, state } => {
                    &&& text_of(r) == Some(text)
                    &&& nfc_form(text) == text
                    &&& final(self)@.position == next
                    &&& final(self)@.state == state
                    &&& final(self)@.failure is None
                },
                Pull::Failed(e) => r is None && final(self)@.failure == Some(e),
                _ => false,
            },
    {
        let strict = self.configs.strictness().is_strict();
        let candidates = self.it.get_candidates_without_rhotic(strict);
        let ghost t = self@.atoms;
        let ghost p = self@.position;
        let mut k: usize = 0;
        while k < candidates.len()
            invariant
                0 <= k <= candidates.len(),
                candidates@ == spec_candidates(t, p, strict),
                all_placed(t, p, candidates@, strict),
                self@.atoms == t,
                self@.position == p,
                self@.failure is None,
                self@.config == old(self)@.config,
                t == old(self)@.atoms,
                p == old(self)@.position,
                strict == old(self)@.config.strictness.is_strict(),
                first_commit(t, p, candidates@, k as int, strict) == first_commit(
                    t,
                    p,
                    candidates@,
                    0,
                    strict,
                ),
            decreases candidates.len() - k,
        {
            let candidate = candidates[k];
            let fin_len = candidate.span();
            assert(placed(t, p, candidates@[k as int], strict));
            self.it.advance(fin_len);
            let verdict = self.it.look_right(strict);
            match verdict {
                Verdict::Reject => {
                    self.it.rewind(fin_len);
                },
                Verdict::Misplaced => {
                    return self.fail(ParseError::StrictApostropheMisplaced);
                },
                _ => {
                    self.it.advance(verdict.extra());
                    self.state = ParserState::AfterSyllablePossiblyConsumingApostrophe;
                    return Some(
                        syllable(
                            initial,
                            FinalWithTone { fin: candidate.fin, tone: candidate.tone },
                            matches!(verdict, Verdict::CommitRhotic),
                        ),
                    );
                },
            }
            k += 1;
        }
        proof {
            lemma_first_commit_is_found(t, p, candidates@, 0, strict);
        }
        self.fail(ParseError::UnmatchedFinal)
    }

    /// Yields the next syllable, or the next grapheme that the
    /// configuration keeps. `None` is the end of the text, or a failure:
    /// [`PinyinParserIter::error`] tells which.
    pub fn next(&mut self) -> (r: Option<String>)
        ensures
            old(self)@.pulls(text_of(r), final(self)@),
            r is Some ==> old(self)@.position < final(self)@.position <= final(self)@.atoms.len(),
    {
        if self.failure.is_some() {
            return None;
        }
        let strictness = self.configs.strictness();
        let ghost t = self@.atoms;
        let ghost cfg = self@.config;
        let ghost owed = self@.pull();
        loop
            invariant
                self@.atoms == t,
                self@.config == cfg,
                self@.failure is None,
                strictness == cfg.strictness,
                cfg == old(self)@.config,
                t == old(self)@.atoms,
                owed == old(self)@.pull(),
                spec_pull(t, self@.position, self@.state, cfg) == owed,
                old(self)@.failure is None,
                old(self)@.position <= self@.position,
                self@.state.rank() == 2 ==> self@.state == old(self)@.state,
            decreases t.len() - self@.position, self@.state.rank(),
        {
            let state = self.state;
            let ghost p = self@.position;
            proof {
                lemma_pull_advances(t, p, state, cfg);
            }
            match self.it.next() {
                None => {
                    match state {
                        ParserState::InitialParsed(_) | ParserState::ZCSParsed(_) => {
                            return self.fail(ParseError::UnmatchedFinal);
                        },
                        _ => {
                            return None;
                        },
                    }
                },
                Some(token) => {
                    match state {
                        ParserState::InitialParsed(initial) => {
                            match token {
                                PinyinToken::Alph(_) => {
                                    self.it.rewind(1);
                                    proof {
                                        lemma_final_match_advances(
                                            t,
                                            p,
                                            initial,
                                            cfg.strictness.is_strict(),
                                        );
                                    }
                                    return self.final_match(initial);
                                },
                                _ => {
                                    return self.fail(ParseError::MalformedSyllable);
                                },
                            }
                        },
                        ParserState::ZCSParsed(zcs) => {
                            match token {
                                PinyinToken::Alph(a) => {
                                    if a.alphabet == Alphabet::H && a.diacritics.len() == 0 {
                                        self.state = ParserState::InitialParsed(zcs.with_h());
                                    } else {
                                        self.it.rewind(1);
                                        self.state = ParserState::InitialParsed(zcs.plain());
                                    }
                                },
                                _ => {
                                    return self.fail(ParseError::MalformedSyllable);
                                },
                            }
                        },
                        _ => {
                            match token {
                                PinyinToken::LightToneMarker => {},
                                PinyinToken::Apostrophe => {
                                    return self.fail(ParseError::MalformedSyllable);
                                },
                                PinyinToken::Punctuation(s) => {
                                    if self.configs.keeps_punctuations() {
                                        let kept = s.clone();
                                        self.state = ParserState::BeforeWordInitial;
                                        return Some(kept);
                                    }
                                },
                                PinyinToken::Space(s) => {
                                    if self.configs.keeps_spaces() {
                                        let kept = s.clone();
                                        self.state = ParserState::BeforeWordInitial;
                                        return Some(kept);
                                    }
                                },
                                PinyinToken::Others(s) => {
                                    if self.configs.keeps_miscellaneous() {
                                        let kept = s.clone();
                                        self.state = ParserState::BeforeWordInitial;
                                        return Some(kept);
                                    }
                                },
                                PinyinToken::Alph(a) => {
                                    match onset(a) {
                                        Onset::Initial(initial) => {
                                            self.state = ParserState::InitialParsed(initial);
                                        },
                                        Onset::Digraph(zcs) => {
                                            self.state = ParserState::ZCSParsed(zcs);
                                        },
                                        Onset::Zero => {
                                            self.it.rewind(1);
                                            self.state = ParserState::InitialParsed(
                                                SpellingInitial::ZeroAEO,
                                            );
                                        },
                                        Onset::Standalone => {
                                            return Some(a.to_str(strictness));
                                        },
                                        Onset::Illegal => {
                                            return self.fail(ParseError::IllegalSyllableStart);
                                        },
                                    }
                                },
                            }
                        },
                    }
                },
            }
        }
    }

    /// Pulls until the text is used up and returns all that was yielded,
    /// or the error that ended the iteration.
    pub fn collect(self) -> (r: Result<Vec<String>, ParseError>)
        ensures
            match self@.rest() {
                Ok(texts) => r matches Ok(v) && v.deep_view() == texts,
                Err(e) => r matches Err(e2) && e2 == e,
            },
    {
        let mut it = self;
        let mut texts: Vec<String> = Vec::new();
        loop
            invariant_except_break
                self@.rest() == (match it@.rest() {
                    Ok(more) => Ok(texts.deep_view() + more),
                    Err(e) => Err(e),
                }),
            ensures
                self@.rest() == (match it@.failure {
                    Some(e) => Err(e),
                    None => Ok(texts.deep_view()),
                }),
            decreases it@.atoms.len() - it@.position,
        {
            let ghost before = it@;
            let ghost had = texts.deep_view();
            match it.next() {
                Some(text) => {
                    texts.push(text);
                    assert(texts.deep_view() =~= had.push(text@));
                    assert(match it@.rest() {
                        Ok(more) => before.rest() == Ok::<Seq<Seq<char>>, ParseError>(
                            seq![text@] + more,
                        ),
                        Err(e) => before.rest() == Err::<Seq<Seq<char>>, ParseError>(e),
                    });
                    assert(forall|more: Seq<Seq<char>>|
                        had + (seq![text@] + more) =~= #[trigger] (had.push(text@) + more));
                },
                None => {
                    assert(had + Seq::<Seq<char>>::empty() =~= had);
                    break ;
                },
            }
        }
        match it.error() {
            Some(e) => Err(e),
            None => Ok(texts),
        }
    }
}

/// Classifies each grapheme of a list; the first one that is refused ends
/// the work.
pub fn tokenize(clusters: &Vec<String>, strictness: Strictness) -> (r: Result<
    Vec<PinyinToken>,
    ParseError,
>)
    ensures
        match spec_tokenize(clusters.deep_view(), strictness) {
            Ok(atoms) => r matches Ok(tokens) && tokens.deep_view() == atoms,
            Err(e) => r matches Err(e2) && e2 == e,
        },
{
    let mut tokens: Vec<PinyinToken> = Vec::new();
    let ghost all = clusters.deep_view();
    let mut i: usize = 0;
    assert(all.take(0) =~= seq![]);
    assert(tokens.deep_view() =~= seq![]);
    while i < clusters.len()
        invariant
            0 <= i <= clusters.len(),
            all == clusters.deep_view(),
            spec_tokenize(all.take(i as int), strictness) == Ok::<Seq<PinyinAtom>, ParseError>(
                tokens.deep_view(),
            ),
        decreases clusters.len() - i,
    {
        let ghost had = tokens.deep_view();
        proof {
            assert(all.take(i + 1).drop_last() =~= all.take(i as int));
            assert(all.take(i + 1).last() == clusters[i as int]@);
        }
        match to_token(clusters[i].as_str(), strictness) {
            Ok(token) => {
                tokens.push(token);
                assert(tokens.deep_view() =~= had.push(token@));
            },
            Err(e) => {
                proof {
                    lemma_tokenize_fails_early(all, i + 1, strictness);
                }
                return Err(e);
            },
        }
        i += 1;
    }
    assert(all.take(i as int) =~= all);
    Ok(tokens)
}

/// Where the first `n` graphemes are refused, so is the whole list, and
/// with the same error.
pub proof fn lemma_tokenize_fails_early(clusters: Seq<Seq<char>>, n: int, strictness: Strictness)
    requires
        0 <= n <= clusters.len(),
        spec_tokenize(clusters.take(n), strictness) is Err,
    ensures
        spec_tokenize(clusters, strictness) == spec_tokenize(clusters.take(n), strictness),
    decreases clusters.len() - n,
{
    if n == clusters.len() {
        assert(clusters.take(n) =~= clusters);
    } else {
        assert(clusters.take(n + 1).drop_last() =~= clusters.take(n));
        lemma_tokenize_fails_early(clusters, n + 1, strictness);
    }
}

impl PinyinParser {
    /// Cuts a text into graphemes and starts an iterator over its
    /// syllables.
    #[must_use]
    pub fn parse(self, s: &str) -> (it: PinyinParserIter)
        ensures
            it@ == IterModel::start(self@, grapheme_clusters(s@)),
    {
        let clusters = graphemes(s);
        PinyinParserIter::from_graphemes(self, &clusters)
    }

    /// Parses in the strict mode, which refuses a breve in place of a
    /// háček, look-alike letters, and an apostrophe that is not followed by
    /// `a`, `e` or `o`.
    #[must_use]
    pub fn strict(s: &str) -> (it: PinyinParserIter)
        ensures
            it@ == IterModel::start(
                Configuration { strictness: Strictness::Strict, ..Configuration::initial() },
                grapheme_clusters(s@),
            ),
    {
        Self::new().with_strictness(Strictness::Strict).parse(s)
    }

    /// Parses in the loose mode, which repairs what the strict mode
    /// refuses.
    #[must_use]
    pub fn loose(s: &str) -> (it: PinyinParserIter)
        ensures
            it@ == IterModel::start(Configuration::initial(), grapheme_clusters(s@)),
    {
        Self::new().parse(s)
    }
}

} // verus!
