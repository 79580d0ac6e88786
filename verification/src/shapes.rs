//! The candidates, said another way: a candidate is listed exactly if the
//! letters at the cursor spell its final.

use crate::candidates::{
    letter_at, row_pair, row_yuan, rows_a, rows_e, rows_e_circumflex, rows_i,
    rows_i_glide, rows_ia, rows_io, rows_o, rows_u, rows_u_glide, rows_ua, rows_yu,
    rows_yu_glide, spec_candidates, tone_of_mark, toned, toneless,
};
use crate::finals::{Candidate, NonRhoticFinal, Tone};
use crate::pinyin_token::{Alphabet, Diacritic, PinyinAtom};
use vstd::prelude::*;
use vstd::seq_lib::lemma_seq_concat_contains_all_elements;

verus! {

/// The marks of a letter that bears no tone: its companion, if it has one.
pub open spec fn bare_marks(companion: Option<Diacritic>) -> Seq<Diacritic> {
    match companion {
        Some(d) => seq![d],
        None => seq![],
    }
}

/// Whether the spelling of a final ends in `n` and `g`.
pub open spec fn ends_in_ng(fin: NonRhoticFinal) -> bool {
    let letters = fin.letters();
    letters.len() >= 2 && letters[letters.len() - 2] == (Alphabet::N, None::<Diacritic>)
        && letters[letters.len() - 1] == (Alphabet::G, None::<Diacritic>)
}

/// The letters that a candidate covers: those of its final, with one `ŋ`
/// for the `n` and the `g` where the candidate says so.
pub open spec fn covered(c: Candidate) -> Seq<(Alphabet, Option<Diacritic>)> {
    if c.ng {
        c.fin.letters().drop_last().drop_last().push((Alphabet::Ng, None))
    } else {
        c.fin.letters()
    }
}

/// Whether the atom at `i` is the `k`-th letter of a candidate: a letter
/// with the base and the companion that are wanted, which bears the tone
/// of the candidate where the final bears its tone there and is bare
/// anywhere else.
pub open spec fn letter_fits(
    t: Seq<PinyinAtom>,
    p: int,
    c: Candidate,
    k: int,
    strict: bool,
) -> bool {
    let (base, companion) = covered(c)[k];
    if k == c.fin.tone_index() {
        toned(t, p + k, base, companion, strict) == Some(c.tone)
    } else {
        toneless(t, p + k, base, bare_marks(companion))
    }
}

/// Whether the letters from `p` on spell a candidate.
pub open spec fn fits(t: Seq<PinyinAtom>, p: int, c: Candidate, strict: bool) -> bool {
    &&& c.ng ==> ends_in_ng(c.fin)
    &&& forall|k: int| 0 <= k < covered(c).len() ==> #[trigger] letter_fits(t, p, c, k, strict)
}

/// Where a candidate fits, each of the letters that it covers fits, the
/// first to the fourth.
proof fn lemma_fitting_letters(t: Seq<PinyinAtom>, p: int, c: Candidate, strict: bool)
    requires
        fits(t, p, c, strict),
    ensures
        covered(c).len() > 0 ==> letter_fits(t, p, c, 0, strict),
        covered(c).len() > 1 ==> letter_fits(t, p, c, 1, strict),
        covered(c).len() > 2 ==> letter_fits(t, p, c, 2, strict),
        covered(c).len() > 3 ==> letter_fits(t, p, c, 3, strict),
{
}

/// The rows of `a` hold the candidates of that family that fit.
#[verifier::rlimit(30)]
proof fn lemma_rows_a_fit(t: Seq<PinyinAtom>, p: int, c: Candidate, strict: bool)
    ensures
        rows_a(t, p, strict).contains(c) <==>
            fits(t, p, c, strict) && (c.fin is A || c.fin is Ai || c.fin is An || c.fin is Ang
            || c.fin is Ao),
{
    let rows = rows_a(t, p, strict);
    if rows.contains(c) {
        let j = choose|j: int| 0 <= j < rows.len() && rows[j] == c;
        assert(rows[j] == c);
        assert forall|k: int| 0 <= k < covered(c).len() implies #[trigger] letter_fits(
            t,
            p,
            c,
            k,
            strict,
        ) by {}
    }
    if fits(t, p, c, strict) && (c.fin is A || c.fin is Ai || c.fin is An || c.fin is Ang
        || c.fin is Ao) {
        lemma_fitting_letters(t, p, c, strict);
        broadcast use lemma_seq_concat_contains_all_elements;

        assert(seq![c][0] == c);
    }
}

/// The rows of `ê` hold the candidates of that family that fit.
proof fn lemma_rows_e_circumflex_fit(t: Seq<PinyinAtom>, p: int, c: Candidate, strict: bool)
    ensures
        rows_e_circumflex(t, p, strict).contains(c) <==>
            fits(t, p, c, strict) && (c.fin is ECircumflex),
{
    let rows = rows_e_circumflex(t, p, strict);
    if rows.contains(c) {
        let j = choose|j: int| 0 <= j < rows.len() && rows[j] == c;
        assert(rows[j] == c);
        assert forall|k: int| 0 <= k < covered(c).len() implies #[trigger] letter_fits(
            t,
            p,
            c,
            k,
            strict,
        ) by {}
    }
    if fits(t, p, c, strict) && (c.fin is ECircumflex) {
        lemma_fitting_letters(t, p, c, strict);
        broadcast use lemma_seq_concat_contains_all_elements;

        assert(seq![c][0] == c);
    }
}

/// The rows of `e` hold the candidates of that family that fit.
#[verifier::rlimit(30)]
proof fn lemma_rows_e_fit(t: Seq<PinyinAtom>, p: int, c: Candidate, strict: bool)
    ensures
        rows_e(t, p, strict).contains(c) <==>
            fits(t, p, c, strict) && (c.fin is E || c.fin is Ei || c.fin is En || c.fin is Eng),
{
    let rows = rows_e(t, p, strict);
    if rows.contains(c) {
        let j = choose|j: int| 0 <= j < rows.len() && rows[j] == c;
        assert(rows[j] == c);
        assert forall|k: int| 0 <= k < covered(c).len() implies #[trigger] letter_fits(
            t,
            p,
            c,
            k,
            strict,
        ) by {}
    }
    if fits(t, p, c, strict) && (c.fin is E || c.fin is Ei || c.fin is En || c.fin is Eng) {
        lemma_fitting_letters(t, p, c, strict);
        broadcast use lemma_seq_concat_contains_all_elements;

        assert(seq![c][0] == c);
    }
}

/// The rows of `o` hold the candidates of that family that fit.
proof fn lemma_rows_o_fit(t: Seq<PinyinAtom>, p: int, c: Candidate, strict: bool)
    ensures
        rows_o(t, p, strict).contains(c) <==>
            fits(t, p, c, strict) && (c.fin is O || c.fin is Ong || c.fin is Ou),
{
    let rows = rows_o(t, p, strict);
    if rows.contains(c) {
        let j = choose|j: int| 0 <= j < rows.len() && rows[j] == c;
        assert(rows[j] == c);
        assert forall|k: int| 0 <= k < covered(c).len() implies #[trigger] letter_fits(
            t,
            p,
            c,
            k,
            strict,
        ) by {}
    }
    if fits(t, p, c, strict) && (c.fin is O || c.fin is Ong || c.fin is Ou) {
        lemma_fitting_letters(t, p, c, strict);
        broadcast use lemma_seq_concat_contains_all_elements;

        assert(seq![c][0] == c);
    }
}

/// The rows of `i` hold the candidates of that family that fit.
proof fn lemma_rows_i_fit(t: Seq<PinyinAtom>, p: int, c: Candidate, strict: bool)
    ensures
        rows_i(t, p, strict).contains(c) <==>
            fits(t, p, c, strict) && (c.fin is I || c.fin is In || c.fin is Ing),
{
    let rows = rows_i(t, p, strict);
    if rows.contains(c) {
        let j = choose|j: int| 0 <= j < rows.len() && rows[j] == c;
        assert(rows[j] == c);
        assert forall|k: int| 0 <= k < covered(c).len() implies #[trigger] letter_fits(
            t,
            p,
            c,
            k,
            strict,
        ) by {}
    }
    if fits(t, p, c, strict) && (c.fin is I || c.fin is In || c.fin is Ing) {
        lemma_fitting_letters(t, p, c, strict);
        broadcast use lemma_seq_concat_contains_all_elements;

        assert(seq![c][0] == c);
    }
}

/// The rows of `u` hold the candidates of that family that fit.
proof fn lemma_rows_u_fit(t: Seq<PinyinAtom>, p: int, c: Candidate, strict: bool)
    ensures
        rows_u(t, p, strict).contains(c) <==> fits(t, p, c, strict) && (c.fin is U || c.fin is Un),
{
    let rows = rows_u(t, p, strict);
    if rows.contains(c) {
        let j = choose|j: int| 0 <= j < rows.len() && rows[j] == c;
        assert(rows[j] == c);
        assert forall|k: int| 0 <= k < covered(c).len() implies #[trigger] letter_fits(
            t,
            p,
            c,
            k,
            strict,
        ) by {}
    }
    if fits(t, p, c, strict) && (c.fin is U || c.fin is Un) {
        lemma_fitting_letters(t, p, c, strict);
        broadcast use lemma_seq_concat_contains_all_elements;

        assert(seq![c][0] == c);
    }
}

/// The rows of `ü` hold the candidates of that family that fit.
proof fn lemma_rows_yu_fit(t: Seq<PinyinAtom>, p: int, c: Candidate, strict: bool)
    ensures
        rows_yu(t, p, strict).contains(c) <==>
            fits(t, p, c, strict) && (c.fin is Yu || c.fin is Yun),
{
    let rows = rows_yu(t, p, strict);
    if rows.contains(c) {
        let j = choose|j: int| 0 <= j < rows.len() && rows[j] == c;
        assert(rows[j] == c);
        assert forall|k: int| 0 <= k < covered(c).len() implies #[trigger] letter_fits(
            t,
            p,
            c,
            k,
            strict,
        ) by {}
    }
    if fits(t, p, c, strict) && (c.fin is Yu || c.fin is Yun) {
        lemma_fitting_letters(t, p, c, strict);
        broadcast use lemma_seq_concat_contains_all_elements;

        assert(seq![c][0] == c);
    }
}

/// The rows of `ia`, behind a bare `i`, hold the candidates of that family that fit.
#[verifier::rlimit(30)]
proof fn lemma_rows_ia_fit(t: Seq<PinyinAtom>, p: int, c: Candidate, strict: bool)
    requires
        toneless(t, p, Alphabet::I, seq![]),
    ensures
        rows_ia(t, p, strict).contains(c) <==>
            fits(t, p, c, strict) && (c.fin is Ia || c.fin is Ian || c.fin is Iang || c.fin is Iao),
{
    let rows = rows_ia(t, p, strict);
    if rows.contains(c) {
        let j = choose|j: int| 0 <= j < rows.len() && rows[j] == c;
        assert(rows[j] == c);
        assert forall|k: int| 0 <= k < covered(c).len() implies #[trigger] letter_fits(
            t,
            p,
            c,
            k,
            strict,
        ) by {}
    }
    if fits(t, p, c, strict) && (c.fin is Ia || c.fin is Ian || c.fin is Iang || c.fin is Iao) {
        lemma_fitting_letters(t, p, c, strict);
        broadcast use lemma_seq_concat_contains_all_elements;

        assert(seq![c][0] == c);
    }
}

/// The rows of `io`, behind a bare `i`, hold the candidates of that family that fit.
proof fn lemma_rows_io_fit(t: Seq<PinyinAtom>, p: int, c: Candidate, strict: bool)
    requires
        toneless(t, p, Alphabet::I, seq![]),
    ensures
        rows_io(t, p, strict).contains(c) <==>
            fits(t, p, c, strict) && (c.fin is Io || c.fin is Iong),
{
    let rows = rows_io(t, p, strict);
    if rows.contains(c) {
        let j = choose|j: int| 0 <= j < rows.len() && rows[j] == c;
        assert(rows[j] == c);
        assert forall|k: int| 0 <= k < covered(c).len() implies #[trigger] letter_fits(
            t,
            p,
            c,
            k,
            strict,
        ) by {}
    }
    if fits(t, p, c, strict) && (c.fin is Io || c.fin is Iong) {
        lemma_fitting_letters(t, p, c, strict);
        broadcast use lemma_seq_concat_contains_all_elements;

        assert(seq![c][0] == c);
    }
}

/// The rows of `ua`, behind a bare `u`, hold the candidates of that family that fit.
#[verifier::rlimit(30)]
proof fn lemma_rows_ua_fit(t: Seq<PinyinAtom>, p: int, c: Candidate, strict: bool)
    requires
        toneless(t, p, Alphabet::U, seq![]),
    ensures
        rows_ua(t, p, strict).contains(c) <==>
            fits(t, p, c, strict) && (c.fin is Ua || c.fin is Uai || c.fin is Uan || c.fin is Uang),
{
    let rows = rows_ua(t, p, strict);
    if rows.contains(c) {
        let j = choose|j: int| 0 <= j < rows.len() && rows[j] == c;
        assert(rows[j] == c);
        assert forall|k: int| 0 <= k < covered(c).len() implies #[trigger] letter_fits(
            t,
            p,
            c,
            k,
            strict,
        ) by {}
    }
    if fits(t, p, c, strict) && (c.fin is Ua || c.fin is Uai || c.fin is Uan || c.fin is Uang) {
        lemma_fitting_letters(t, p, c, strict);
        broadcast use lemma_seq_concat_contains_all_elements;

        assert(seq![c][0] == c);
    }
}

/// The row of a final of two letters holds its candidate if it fits, where
/// the first letter is known to stand bare at the cursor.
proof fn lemma_row_pair_fit(
    t: Seq<PinyinAtom>,
    p: int,
    c: Candidate,
    strict: bool,
    second: Alphabet,
    fin: NonRhoticFinal,
)
    requires
        fin.letters().len() == 2,
        fin.letters()[1] == (second, None::<Diacritic>),
        fin.tone_index() == 1,
        !ends_in_ng(fin),
        toneless(t, p, fin.letters()[0].0, bare_marks(fin.letters()[0].1)),
    ensures
        row_pair(t, p, second, fin, strict).contains(c) <==> fits(t, p, c, strict) && c.fin == fin,
{
    let rows = row_pair(t, p, second, fin, strict);
    if rows.contains(c) {
        let j = choose|j: int| 0 <= j < rows.len() && rows[j] == c;
        assert(rows[j] == c);
        assert forall|k: int| 0 <= k < covered(c).len() implies #[trigger] letter_fits(
            t,
            p,
            c,
            k,
            strict,
        ) by {}
    }
    if fits(t, p, c, strict) && c.fin == fin {
        lemma_fitting_letters(t, p, c, strict);
        assert(rows[0] == c);
    }
}

/// The rows behind a bare `i` hold the candidates of that family that fit.
proof fn lemma_rows_i_glide_fit(t: Seq<PinyinAtom>, p: int, c: Candidate, strict: bool)
    ensures
        rows_i_glide(t, p, strict).contains(c) <==>
            fits(t, p, c, strict) && (c.fin is Ia || c.fin is Ian || c.fin is Iang || c.fin is Iao
            || c.fin is Ie || c.fin is Iu || c.fin is Io || c.fin is Iong),
{
    if toneless(t, p, Alphabet::I, seq![]) {
        broadcast use lemma_seq_concat_contains_all_elements;

        lemma_rows_ia_fit(t, p, c, strict);
        lemma_row_pair_fit(t, p, c, strict, Alphabet::E, NonRhoticFinal::Ie);
        lemma_row_pair_fit(t, p, c, strict, Alphabet::U, NonRhoticFinal::Iu);
        lemma_rows_io_fit(t, p, c, strict);
    } else if fits(t, p, c, strict) {
        lemma_fitting_letters(t, p, c, strict);
    }
}

/// The rows behind a bare `u` hold the candidates of that family that fit.
proof fn lemma_rows_u_glide_fit(t: Seq<PinyinAtom>, p: int, c: Candidate, strict: bool)
    ensures
        rows_u_glide(t, p, strict).contains(c) <==>
            fits(t, p, c, strict) && (c.fin is Ua || c.fin is Uai || c.fin is Uan || c.fin is Uang
            || c.fin is Ue || c.fin is Ui || c.fin is Uo),
{
    if toneless(t, p, Alphabet::U, seq![]) {
        broadcast use lemma_seq_concat_contains_all_elements;

        lemma_rows_ua_fit(t, p, c, strict);
        lemma_row_pair_fit(t, p, c, strict, Alphabet::E, NonRhoticFinal::Ue);
        lemma_row_pair_fit(t, p, c, strict, Alphabet::I, NonRhoticFinal::Ui);
        lemma_row_pair_fit(t, p, c, strict, Alphabet::O, NonRhoticFinal::Uo);
    } else if fits(t, p, c, strict) {
        lemma_fitting_letters(t, p, c, strict);
    }
}

/// The rows behind a `ü` without a tone mark hold the candidates of that family that fit.
proof fn lemma_rows_yu_glide_fit(t: Seq<PinyinAtom>, p: int, c: Candidate, strict: bool)
    ensures
        rows_yu_glide(t, p, strict).contains(c) <==>
            fits(t, p, c, strict) && (c.fin is Yuan || c.fin is Yue),
{
    if toneless(t, p, Alphabet::U, seq![Diacritic::Umlaut]) {
        broadcast use lemma_seq_concat_contains_all_elements;

        lemma_row_pair_fit(t, p, c, strict, Alphabet::E, NonRhoticFinal::Yue);
        let first = row_yuan(t, p, strict);
        if first.contains(c) {
            let j = choose|j: int| 0 <= j < first.len() && first[j] == c;
            assert(first[j] == c);
            assert forall|k: int| 0 <= k < covered(c).len() implies #[trigger] letter_fits(
                t,
                p,
                c,
                k,
                strict,
            ) by {}
        }
        if fits(t, p, c, strict) && c.fin is Yuan {
            lemma_fitting_letters(t, p, c, strict);
            assert(first[0] == c);
        }
    } else if fits(t, p, c, strict) {
        lemma_fitting_letters(t, p, c, strict);
    }
}

/// The generator lists a candidate exactly if the letters at the cursor
/// spell it: none is listed that does not fit, and none that fits is left
/// out.
pub proof fn lemma_candidates_are_those_that_fit(
    t: Seq<PinyinAtom>,
    p: int,
    c: Candidate,
    strict: bool,
)
    ensures
        spec_candidates(t, p, strict).contains(c) <==> fits(t, p, c, strict),
{
    broadcast use lemma_seq_concat_contains_all_elements;

    lemma_rows_a_fit(t, p, c, strict);
    lemma_rows_e_circumflex_fit(t, p, c, strict);
    lemma_rows_e_fit(t, p, c, strict);
    lemma_rows_o_fit(t, p, c, strict);
    lemma_rows_i_fit(t, p, c, strict);
    lemma_rows_i_glide_fit(t, p, c, strict);
    lemma_rows_u_fit(t, p, c, strict);
    lemma_rows_u_glide_fit(t, p, c, strict);
    lemma_rows_yu_fit(t, p, c, strict);
    lemma_rows_yu_glide_fit(t, p, c, strict);
}

/// The tone that a list of marks writes, whatever else the list holds: the
/// fifth for no mark, and else the tone of the one tone mark among one or
/// two marks.
pub open spec fn tone_written(marks: Seq<Diacritic>, strict: bool) -> Option<Tone> {
    if marks.len() == 0 {
        Some(Tone::Fifth)
    } else if marks.len() == 1 {
        tone_of_mark(marks[0], strict)
    } else if marks.len() == 2 {
        if tone_of_mark(marks[0], strict) is Some {
            tone_of_mark(marks[0], strict)
        } else {
            tone_of_mark(marks[1], strict)
        }
    } else {
        None
    }
}

/// Whether a candidate sits on the atoms from `p` on: the letters that it
/// covers are all there, and the letter on which its final bears the tone
/// is written with the candidate's tone.
pub open spec fn placed(t: Seq<PinyinAtom>, p: int, c: Candidate, strict: bool) -> bool {
    &&& 0 <= p
    &&& 1 <= c.span() <= 4
    &&& p + c.span() <= t.len()
    &&& letter_at(t, p + c.fin.tone_index()) matches Some(l) && tone_written(l.diacritics, strict)
        == Some(c.tone)
}

/// Whether every candidate of a list is placed.
pub open spec fn all_placed(t: Seq<PinyinAtom>, p: int, cs: Seq<Candidate>, strict: bool) -> bool {
    forall|k: int| 0 <= k < cs.len() ==> placed(t, p, #[trigger] cs[k], strict)
}

/// A candidate that fits is placed.
pub proof fn lemma_fitting_is_placed(t: Seq<PinyinAtom>, p: int, c: Candidate, strict: bool)
    requires
        fits(t, p, c, strict),
    ensures
        placed(t, p, c, strict),
{
    lemma_fitting_letters(t, p, c, strict);
    c.fin.lemma_len_is_spelled();
}

/// Every candidate that the generator lists covers letters that are there,
/// and has the tone that is written on the letter that bears it.
pub proof fn lemma_candidates_are_placed(t: Seq<PinyinAtom>, p: int, strict: bool)
    ensures
        all_placed(t, p, spec_candidates(t, p, strict), strict),
{
    let cands = spec_candidates(t, p, strict);
    assert forall|k: int| 0 <= k < cands.len() implies placed(t, p, #[trigger] cands[k], strict) by {
        assert(cands.contains(cands[k]));
        lemma_candidates_are_those_that_fit(t, p, cands[k], strict);
        lemma_fitting_is_placed(t, p, cands[k], strict);
    }
}

/// The candidates at one position are few: the families exclude one
/// another by the letter at the cursor, and within a family the letters
/// behind it leave room for at most four.
#[verifier::rlimit(30)]
pub proof fn lemma_candidates_are_few(t: Seq<PinyinAtom>, p: int, strict: bool)
    ensures
        spec_candidates(t, p, strict).len() <= 4,
{
}

} // verus!
