//! What holds of the parser as a whole: which differences between two texts
//! it does not see, and how much of the tokens one syllable can cover.

use crate::candidates::{
    letter_at, rows_a, rows_e, rows_e_circumflex, rows_i, rows_i_glide, rows_ia, rows_io, rows_o,
    rows_u, rows_u_glide, rows_ua, rows_yu, rows_yu_glide, spec_candidates, tone_reading, toned,
    toneless,
};
use crate::config::{Configuration, Strictness};
use crate::error::ParseError;
use crate::finals::Candidate;
use crate::initials::SpellingInitial;
use crate::parser::{
    first_commit, lemma_final_match_advances, lemma_first_commit_is_found, lemma_pull_advances,
    right_context, spec_collect, spec_final_match, spec_onset, spec_pull, spec_tokenize,
    IterModel, Onset, ParserState, Pull,
};
use crate::pinyin_token::{Alphabet, Diacritic, Letter, PinyinAtom};
use vstd::prelude::*;

verus! {

/// Whether the parser reads two letters alike, the first under `st1` and
/// the second under `st2`: they have the same base, both or neither are
/// bare, both or neither carry just a circumflex or just an umlaut, a
/// vowel bears the same tone, and a consonant that is a syllable by itself
/// is written out the same.
pub open spec fn letters_read_alike(
    l1: Letter,
    st1: Strictness,
    l2: Letter,
    st2: Strictness,
) -> bool {
    &&& l1.base == l2.base
    &&& l1.diacritics.len() == 0 <==> l2.diacritics.len() == 0
    &&& l1.diacritics =~= seq![Diacritic::Circumflex] <==> l2.diacritics
        =~= seq![Diacritic::Circumflex]
    &&& l1.diacritics =~= seq![Diacritic::Umlaut] <==> l2.diacritics =~= seq![Diacritic::Umlaut]
    &&& l1.base.is_vowel() ==> {
        &&& tone_reading(l1.diacritics, None, st1.is_strict()) == tone_reading(
            l2.diacritics,
            None,
            st2.is_strict(),
        )
        &&& tone_reading(l1.diacritics, Some(Diacritic::Umlaut), st1.is_strict())
            == tone_reading(l2.diacritics, Some(Diacritic::Umlaut), st2.is_strict())
        &&& tone_reading(l1.diacritics, Some(Diacritic::Circumflex), st1.is_strict())
            == tone_reading(l2.diacritics, Some(Diacritic::Circumflex), st2.is_strict())
    }
    &&& spec_onset(l1) is Standalone ==> l1.text(false, st1) == l2.text(false, st2)
}

/// Whether the parser reads two atoms alike: two letters that read alike,
/// or the same atom twice.
pub open spec fn atoms_read_alike(
    a1: PinyinAtom,
    st1: Strictness,
    a2: PinyinAtom,
    st2: Strictness,
) -> bool {
    match (a1, a2) {
        (PinyinAtom::Letter(l1), PinyinAtom::Letter(l2)) => letters_read_alike(l1, st1, l2, st2),
        (PinyinAtom::Letter(_), _) => false,
        (_, PinyinAtom::Letter(_)) => false,
        _ => a1 == a2,
    }
}

/// Whether the parser reads two lists of atoms alike, atom by atom, where
/// the second strictness is no stricter than the first.
pub open spec fn read_alike(
    t1: Seq<PinyinAtom>,
    st1: Strictness,
    t2: Seq<PinyinAtom>,
    st2: Strictness,
) -> bool {
    &&& t1.len() == t2.len()
    &&& st2.is_strict() ==> st1.is_strict()
    &&& forall|i: int| 0 <= i < t1.len() ==> atoms_read_alike(#[trigger] t1[i], st1, t2[i], st2)
}

/// Whether the second pull is the first one again, or the first one is a
/// failure that only a strict mode knows.
pub open spec fn pull_agrees(o1: Pull, st1: Strictness, o2: Pull, st2: Strictness) -> bool {
    o1 == o2 || (o1 is Failed && st1.is_strict() && !st2.is_strict())
}

/// Whether the second run is the first one again, or the first one is a
/// failure that only a strict mode knows.
pub open spec fn run_agrees(
    r1: Result<Seq<Seq<char>>, ParseError>,
    st1: Strictness,
    r2: Result<Seq<Seq<char>>, ParseError>,
    st2: Strictness,
) -> bool {
    r1 == r2 || (r1 is Err && st1.is_strict() && !st2.is_strict())
}

/// Two lists of atoms that read alike answer every question that the
/// candidate generator and the right context ask of them alike.
#[verifier::rlimit(30)]
proof fn lemma_shapes_agree(
    t1: Seq<PinyinAtom>,
    st1: Strictness,
    t2: Seq<PinyinAtom>,
    st2: Strictness,
)
    requires
        read_alike(t1, st1, t2, st2),
    ensures
        forall|i: int, base: Alphabet| #[trigger]
            toneless(t1, i, base, seq![]) == toneless(t2, i, base, seq![]),
        forall|i: int, base: Alphabet| #[trigger]
            toneless(t1, i, base, seq![Diacritic::Umlaut]) == toneless(
                t2,
                i,
                base,
                seq![Diacritic::Umlaut],
            ),
        forall|i: int, base: Alphabet|
            base.is_vowel() ==> #[trigger] toned(t1, i, base, None, st1.is_strict()) == toned(
                t2,
                i,
                base,
                None,
                st2.is_strict(),
            ),
        forall|i: int, base: Alphabet|
            base.is_vowel() ==> #[trigger] toned(
                t1,
                i,
                base,
                Some(Diacritic::Umlaut),
                st1.is_strict(),
            ) == toned(t2, i, base, Some(Diacritic::Umlaut), st2.is_strict()),
        forall|i: int, base: Alphabet|
            base.is_vowel() ==> #[trigger] toned(
                t1,
                i,
                base,
                Some(Diacritic::Circumflex),
                st1.is_strict(),
            ) == toned(t2, i, base, Some(Diacritic::Circumflex), st2.is_strict()),
        forall|i: int| #[trigger] letter_at(t1, i) is Some == letter_at(t2, i) is Some,
        forall|i: int|
            letter_at(t1, i) is Some ==> (#[trigger] letter_at(t1, i))->0.base == letter_at(
                t2,
                i,
            )->0.base,
{
    assert forall|i: int| 0 <= i < t1.len() implies atoms_read_alike(t1[i], st1, t2[i], st2) by {
        assert(atoms_read_alike(t1[i], st1, t2[i], st2));
    }
    assert forall|i: int, base: Alphabet| #[trigger]
        toneless(t1, i, base, seq![]) == toneless(t2, i, base, seq![]) by {
        if 0 <= i < t1.len() {
            assert(atoms_read_alike(t1[i], st1, t2[i], st2));
        }
    }
    assert forall|i: int, base: Alphabet| #[trigger]
        toneless(t1, i, base, seq![Diacritic::Umlaut]) == toneless(
            t2,
            i,
            base,
            seq![Diacritic::Umlaut],
        ) by {
        if 0 <= i < t1.len() {
            assert(atoms_read_alike(t1[i], st1, t2[i], st2));
        }
    }
    assert forall|i: int, base: Alphabet| base.is_vowel() implies #[trigger] toned(
        t1,
        i,
        base,
        None,
        st1.is_strict(),
    ) == toned(t2, i, base, None, st2.is_strict()) by {
        if 0 <= i < t1.len() {
            assert(atoms_read_alike(t1[i], st1, t2[i], st2));
        }
    }
    assert forall|i: int, base: Alphabet| base.is_vowel() implies #[trigger] toned(
        t1,
        i,
        base,
        Some(Diacritic::Umlaut),
        st1.is_strict(),
    ) == toned(t2, i, base, Some(Diacritic::Umlaut), st2.is_strict()) by {
        if 0 <= i < t1.len() {
            assert(atoms_read_alike(t1[i], st1, t2[i], st2));
        }
    }
    assert forall|i: int, base: Alphabet| base.is_vowel() implies #[trigger] toned(
        t1,
        i,
        base,
        Some(Diacritic::Circumflex),
        st1.is_strict(),
    ) == toned(t2, i, base, Some(Diacritic::Circumflex), st2.is_strict()) by {
        if 0 <= i < t1.len() {
            assert(atoms_read_alike(t1[i], st1, t2[i], st2));
        }
    }
    assert forall|i: int| #[trigger] letter_at(t1, i) is Some == letter_at(t2, i) is Some by {
        if 0 <= i < t1.len() {
            assert(atoms_read_alike(t1[i], st1, t2[i], st2));
        }
    }
    assert forall|i: int| letter_at(t1, i) is Some implies (#[trigger] letter_at(
        t1,
        i,
    ))->0.base == letter_at(t2, i)->0.base by {
        if 0 <= i < t1.len() {
            assert(atoms_read_alike(t1[i], st1, t2[i], st2));
        }
    }
}

/// Two lists of atoms that read alike give the same candidates.
#[verifier::rlimit(30)]
pub proof fn lemma_candidates_agree(
    t1: Seq<PinyinAtom>,
    st1: Strictness,
    t2: Seq<PinyinAtom>,
    st2: Strictness,
    p: int,
)
    requires
        read_alike(t1, st1, t2, st2),
    ensures
        spec_candidates(t1, p, st1.is_strict()) == spec_candidates(t2, p, st2.is_strict()),
{
    lemma_shapes_agree(t1, st1, t2, st2);
    let s1 = st1.is_strict();
    let s2 = st2.is_strict();
    assert(rows_a(t1, p, s1) == rows_a(t2, p, s2));
    assert(rows_e_circumflex(t1, p, s1) == rows_e_circumflex(t2, p, s2));
    assert(rows_e(t1, p, s1) == rows_e(t2, p, s2));
    assert(rows_o(t1, p, s1) == rows_o(t2, p, s2));
    assert(rows_i(t1, p, s1) == rows_i(t2, p, s2));
    assert(rows_ia(t1, p, s1) == rows_ia(t2, p, s2));
    assert(rows_io(t1, p, s1) == rows_io(t2, p, s2));
    assert(rows_i_glide(t1, p, s1) == rows_i_glide(t2, p, s2));
    assert(rows_u(t1, p, s1) == rows_u(t2, p, s2));
    assert(rows_ua(t1, p, s1) == rows_ua(t2, p, s2));
    assert(rows_u_glide(t1, p, s1) == rows_u_glide(t2, p, s2));
    assert(rows_yu(t1, p, s1) == rows_yu(t2, p, s2));
    assert(rows_yu_glide(t1, p, s1) == rows_yu_glide(t2, p, s2));
}

/// Two lists of atoms that read alike give a candidate the same verdict,
/// but that a strict mode may find an apostrophe misplaced which the other
/// mode steps over.
pub proof fn lemma_right_context_agrees(
    t1: Seq<PinyinAtom>,
    st1: Strictness,
    t2: Seq<PinyinAtom>,
    st2: Strictness,
    end: int,
)
    requires
        read_alike(t1, st1, t2, st2),
    ensures
        ({
            let v1 = right_context(t1, end, st1.is_strict());
            let v2 = right_context(t2, end, st2.is_strict());
            v1 == v2 || (v1 is Misplaced && v2 is CommitPastApostrophe && st1.is_strict()
                && !st2.is_strict())
        }),
{
    lemma_shapes_agree(t1, st1, t2, st2);
    if 0 <= end < t1.len() {
        assert(atoms_read_alike(t1[end], st1, t2[end], st2));
        assert(letter_at(t1, end + 1) is Some == letter_at(t2, end + 1) is Some);
        if letter_at(t1, end + 1) is Some {
            assert(letter_at(t1, end + 1)->0.base == letter_at(t2, end + 1)->0.base);
        }
    }
}

/// Two lists of atoms that read alike commit the same candidate.
pub proof fn lemma_first_commit_agrees(
    t1: Seq<PinyinAtom>,
    st1: Strictness,
    t2: Seq<PinyinAtom>,
    st2: Strictness,
    p: int,
    cands: Seq<Candidate>,
    k: int,
)
    requires
        read_alike(t1, st1, t2, st2),
    ensures
        first_commit(t1, p, cands, k, st1.is_strict()) == first_commit(
            t2,
            p,
            cands,
            k,
            st2.is_strict(),
        ),
    decreases cands.len() - k,
{
    if 0 <= k < cands.len() {
        lemma_right_context_agrees(t1, st1, t2, st2, p + cands[k].span());
        lemma_first_commit_agrees(t1, st1, t2, st2, p, cands, k + 1);
    }
}

/// Two lists of atoms that read alike match the same final.
pub proof fn lemma_final_match_agrees(
    t1: Seq<PinyinAtom>,
    st1: Strictness,
    t2: Seq<PinyinAtom>,
    st2: Strictness,
    p: int,
    initial: SpellingInitial,
)
    requires
        read_alike(t1, st1, t2, st2),
    ensures
        pull_agrees(
            spec_final_match(t1, p, initial, st1.is_strict()),
            st1,
            spec_final_match(t2, p, initial, st2.is_strict()),
            st2,
        ),
{
    lemma_candidates_agree(t1, st1, t2, st2, p);
    let cands = spec_candidates(t1, p, st1.is_strict());
    lemma_first_commit_agrees(t1, st1, t2, st2, p, cands, 0);
    lemma_first_commit_is_found(t1, p, cands, 0, st1.is_strict());
    if let Some(k) = first_commit(t1, p, cands, 0, st1.is_strict()) {
        lemma_right_context_agrees(t1, st1, t2, st2, p + cands[k].span());
    }
}

/// Two lists of atoms that read alike come to the same with every pull,
/// under configurations that differ at most in their strictness.
pub proof fn lemma_pull_agrees(
    t1: Seq<PinyinAtom>,
    t2: Seq<PinyinAtom>,
    p: int,
    state: ParserState,
    cfg1: Configuration,
    cfg2: Configuration,
)
    requires
        read_alike(t1, cfg1.strictness, t2, cfg2.strictness),
        cfg2 == (Configuration { strictness: cfg2.strictness, ..cfg1 }),
    ensures
        pull_agrees(
            spec_pull(t1, p, state, cfg1),
            cfg1.strictness,
            spec_pull(t2, p, state, cfg2),
            cfg2.strictness,
        ),
    decreases t1.len() - p, state.rank(),
{
    let st1 = cfg1.strictness;
    let st2 = cfg2.strictness;
    if 0 <= p < t1.len() {
        assert(atoms_read_alike(t1[p], st1, t2[p], st2));
        match state {
            ParserState::InitialParsed(initial) => {
                lemma_final_match_agrees(t1, st1, t2, st2, p, initial);
            },
            ParserState::ZCSParsed(zcs) => {
                if let PinyinAtom::Letter(l) = t1[p] {
                    if l.base == Alphabet::H && l.diacritics.len() == 0 {
                        lemma_pull_agrees(
                            t1,
                            t2,
                            p + 1,
                            ParserState::InitialParsed(zcs.with_h()),
                            cfg1,
                            cfg2,
                        );
                    } else {
                        lemma_pull_agrees(
                            t1,
                            t2,
                            p,
                            ParserState::InitialParsed(zcs.plain()),
                            cfg1,
                            cfg2,
                        );
                    }
                }
            },
            _ => {
                match t1[p] {
                    PinyinAtom::Letter(l) => {
                        match spec_onset(l) {
                            Onset::Initial(initial) => {
                                lemma_pull_agrees(
                                    t1,
                                    t2,
                                    p + 1,
                                    ParserState::InitialParsed(initial),
                                    cfg1,
                                    cfg2,
                                );
                            },
                            Onset::Digraph(zcs) => {
                                lemma_pull_agrees(
                                    t1,
                                    t2,
                                    p + 1,
                                    ParserState::ZCSParsed(zcs),
                                    cfg1,
                                    cfg2,
                                );
                            },
                            Onset::Zero => {
                                lemma_pull_agrees(
                                    t1,
                                    t2,
                                    p,
                                    ParserState::InitialParsed(SpellingInitial::ZeroAEO),
                                    cfg1,
                                    cfg2,
                                );
                            },
                            _ => {},
                        }
                    },
                    PinyinAtom::Apostrophe => {},
                    _ => {
                        lemma_pull_agrees(t1, t2, p + 1, state, cfg1, cfg2);
                    },
                }
            },
        }
    }
}

/// Two lists of atoms that read alike yield the same texts, under
/// configurations that differ at most in their strictness.
pub proof fn lemma_run_agrees(
    t1: Seq<PinyinAtom>,
    t2: Seq<PinyinAtom>,
    p: int,
    state: ParserState,
    cfg1: Configuration,
    cfg2: Configuration,
)
    requires
        read_alike(t1, cfg1.strictness, t2, cfg2.strictness),
        cfg2 == (Configuration { strictness: cfg2.strictness, ..cfg1 }),
    ensures
        run_agrees(
            spec_collect(t1, p, state, cfg1),
            cfg1.strictness,
            spec_collect(t2, p, state, cfg2),
            cfg2.strictness,
        ),
    decreases t1.len() - p,
{
    lemma_pull_agrees(t1, t2, p, state, cfg1, cfg2);
    lemma_pull_advances(t1, p, state, cfg1);
    match spec_pull(t1, p, state, cfg1) {
        Pull::Syllable { next, state: after, .. } => {
            lemma_run_agrees(t1, t2, next, after, cfg1, cfg2);
        },
        Pull::Kept { next, .. } => {
            lemma_run_agrees(t1, t2, next, ParserState::BeforeWordInitial, cfg1, cfg2);
        },
        _ => {},
    }
}

/// Whether two lists of atoms differ at most in the case of their
/// letters.
pub open spec fn same_but_for_case(t1: Seq<PinyinAtom>, t2: Seq<PinyinAtom>) -> bool {
    &&& t1.len() == t2.len()
    &&& forall|i: int|
        0 <= i < t1.len() ==> match (#[trigger] t1[i], t2[i]) {
            (PinyinAtom::Letter(l1), PinyinAtom::Letter(l2)) => l1.base == l2.base
                && l1.diacritics == l2.diacritics,
            (a1, a2) => a1 == a2,
        }
}

/// Capitalization is lost: two lists of atoms that differ only in the case
/// of their letters yield the same texts.
pub proof fn lemma_capitals_are_lost(
    t1: Seq<PinyinAtom>,
    t2: Seq<PinyinAtom>,
    p: int,
    state: ParserState,
    cfg: Configuration,
)
    requires
        same_but_for_case(t1, t2),
    ensures
        spec_collect(t1, p, state, cfg) == spec_collect(t2, p, state, cfg),
{
    let st = cfg.strictness;
    assert forall|i: int| 0 <= i < t1.len() implies atoms_read_alike(
        #[trigger] t1[i],
        st,
        t2[i],
        st,
    ) by {
        if let PinyinAtom::Letter(l1) = t1[i] {
            let l2 = t2[i]->Letter_0;
            assert(l1.spelling(false, st) =~= l2.spelling(false, st));
        }
    }
    lemma_run_agrees(t1, t2, p, state, cfg, cfg);
}

/// A letter with each breve turned into a háček.
pub open spec fn letter_fixing_breve(l: Letter) -> Letter {
    Letter {
        diacritics: Seq::new(l.diacritics.len(), |k: int| l.diacritics[k].fixing_breve()),
        ..l
    }
}

/// A list of atoms with each breve turned into a háček.
pub open spec fn fixing_breve(t: Seq<PinyinAtom>) -> Seq<PinyinAtom> {
    Seq::new(
        t.len(),
        |i: int|
            match t[i] {
                PinyinAtom::Letter(l) => PinyinAtom::Letter(letter_fixing_breve(l)),
                other => other,
            },
    )
}

/// In the loose mode a breve is a háček: the texts that a list of atoms
/// yields are those that it yields with every breve turned into a háček.
#[verifier::rlimit(30)]
pub proof fn lemma_breve_is_hacek_when_loose(
    t: Seq<PinyinAtom>,
    p: int,
    state: ParserState,
    cfg: Configuration,
)
    requires
        !cfg.strictness.is_strict(),
    ensures
        spec_collect(t, p, state, cfg) == spec_collect(fixing_breve(t), p, state, cfg),
{
    let st = cfg.strictness;
    let fixed = fixing_breve(t);
    assert forall|i: int| 0 <= i < t.len() implies atoms_read_alike(
        #[trigger] t[i],
        st,
        fixed[i],
        st,
    ) by {
        if let PinyinAtom::Letter(l) = t[i] {
            let l2 = letter_fixing_breve(l);
            assert(fixed[i] == PinyinAtom::Letter(l2));
            assert(l.spelling(false, st) =~= l2.spelling(false, st));
            assert(l.diacritics =~= seq![Diacritic::Circumflex] <==> l2.diacritics
                =~= seq![Diacritic::Circumflex]) by {
                if l.diacritics.len() == 1 {
                    assert(l2.diacritics[0] == l.diacritics[0].fixing_breve());
                }
            }
            assert(l.diacritics =~= seq![Diacritic::Umlaut] <==> l2.diacritics
                =~= seq![Diacritic::Umlaut]) by {
                if l.diacritics.len() == 1 {
                    assert(l2.diacritics[0] == l.diacritics[0].fixing_breve());
                }
            }
            if l.diacritics.len() == 1 {
                assert(l2.diacritics[0] == l.diacritics[0].fixing_breve());
            }
            if l.diacritics.len() == 2 {
                assert(l2.diacritics[0] == l.diacritics[0].fixing_breve());
                assert(l2.diacritics[1] == l.diacritics[1].fixing_breve());
            }
        }
    }
    lemma_run_agrees(t, fixed, p, state, cfg, cfg);
}

/// Whether an atom is a letter that may bear a tone or be a syllable by
/// itself (a vowel, or one of `m`, `n`, `z`, `c`, `s`) and carries a breve.
pub open spec fn carries_breve(a: PinyinAtom) -> bool {
    a matches PinyinAtom::Letter(l) && (l.base.is_vowel() || l.base == Alphabet::M || l.base
        == Alphabet::N || l.base == Alphabet::Z || l.base == Alphabet::C || l.base == Alphabet::S)
        && l.diacritics.contains(Diacritic::Breve)
}

/// Whether no atom of a list carries a breve.
pub open spec fn breve_free(t: Seq<PinyinAtom>) -> bool {
    forall|i: int| 0 <= i < t.len() ==> !carries_breve(#[trigger] t[i])
}

/// What a strict mode accepts, the loose mode reads the same: where a run
/// over atoms without a breve succeeds in a strict mode, it yields the same
/// texts in the loose mode.
pub proof fn lemma_strict_run_is_the_loose_run(
    t: Seq<PinyinAtom>,
    p: int,
    state: ParserState,
    cfg: Configuration,
)
    requires
        cfg.strictness.is_strict(),
        breve_free(t),
        spec_collect(t, p, state, cfg) is Ok,
    ensures
        spec_collect(t, p, state, Configuration { strictness: Strictness::Loose, ..cfg })
            == spec_collect(t, p, state, cfg),
{
    let st = cfg.strictness;
    let loose = Configuration { strictness: Strictness::Loose, ..cfg };
    assert forall|i: int| 0 <= i < t.len() implies atoms_read_alike(
        #[trigger] t[i],
        st,
        t[i],
        Strictness::Loose,
    ) by {
        if let PinyinAtom::Letter(l) = t[i] {
            if l.base.is_vowel() || l.base == Alphabet::M || l.base == Alphabet::N || l.base
                == Alphabet::Z || l.base == Alphabet::C || l.base == Alphabet::S {
                assert(!carries_breve(t[i]));
                assert forall|k: int| 0 <= k < l.diacritics.len() implies #[trigger] l.diacritics[k]
                    != Diacritic::Breve by {
                    if l.diacritics[k] == Diacritic::Breve {
                        assert(l.diacritics.contains(Diacritic::Breve));
                    }
                }
                assert(l.spelling(false, st) =~= l.spelling(false, Strictness::Loose));
                if l.diacritics.len() >= 1 {
                    assert(l.diacritics[0] != Diacritic::Breve);
                }
                if l.diacritics.len() >= 2 {
                    assert(l.diacritics[1] != Diacritic::Breve);
                }
            }
        }
    }
    lemma_run_agrees(t, t, p, state, cfg, loose);
}

/// The graphemes that the strict mode accepts are the same atoms in the
/// loose mode.
pub proof fn lemma_strict_atoms_are_the_loose_atoms(clusters: Seq<Seq<char>>)
    requires
        spec_tokenize(clusters, Strictness::Strict) is Ok,
    ensures
        spec_tokenize(clusters, Strictness::Loose) == spec_tokenize(clusters, Strictness::Strict),
    decreases clusters.len(),
{
    if clusters.len() > 0 {
        lemma_strict_atoms_are_the_loose_atoms(clusters.drop_last());
    }
}

/// Strict pinyin is read the same by both modes: where the graphemes of a
/// text hold no breve and the strict mode reads them to the end, the loose
/// mode yields the same texts.
pub proof fn lemma_strict_text_is_the_loose_text(clusters: Seq<Seq<char>>, cfg: Configuration)
    requires
        cfg.strictness == Strictness::Strict,
        IterModel::start(cfg, clusters).rest() is Ok,
        breve_free(IterModel::start(cfg, clusters).atoms),
    ensures
        IterModel::start(Configuration { strictness: Strictness::Loose, ..cfg }, clusters).rest()
            == IterModel::start(cfg, clusters).rest(),
{
    lemma_strict_atoms_are_the_loose_atoms(clusters);
    let strict = IterModel::start(cfg, clusters);
    lemma_strict_run_is_the_loose_run(strict.atoms, 0, ParserState::BeforeWordInitial, cfg);
}

/// A syllable is short: from the letter that begins it, a pull covers at
/// most seven atoms, which are up to two letters of the initial, up to
/// four of the final, and the rhotic `r` or an apostrophe.
pub proof fn lemma_syllable_is_short(
    t: Seq<PinyinAtom>,
    p: int,
    state: ParserState,
    cfg: Configuration,
)
    requires
        state.rank() == 2,
        letter_at(t, p) is Some,
    ensures
        match spec_pull(t, p, state, cfg) {
            Pull::Syllable { next, .. } => p < next <= p + 7 && next <= t.len(),
            Pull::Failed(_) => true,
            _ => false,
        },
{
    reveal_with_fuel(spec_pull, 4);
    let strict = cfg.strictness.is_strict();
    let l = letter_at(t, p)->0;
    match spec_onset(l) {
        Onset::Initial(initial) => {
            lemma_final_match_advances(t, p + 1, initial, strict);
        },
        Onset::Digraph(zcs) => {
            lemma_final_match_advances(t, p + 1, zcs.plain(), strict);
            lemma_final_match_advances(t, p + 2, zcs.with_h(), strict);
        },
        Onset::Zero => {
            lemma_final_match_advances(t, p, SpellingInitial::ZeroAEO, strict);
        },
        _ => {},
    }
}

} // verus!
