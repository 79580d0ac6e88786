use pinyin_parser::finals::{Candidate, FinalWithTone, NonRhoticFinal, Tone};
use pinyin_parser::initials::{SpellingInitial, ZCS};
use pinyin_parser::parser::{onset, syllable, tokenize, Onset, Verdict};
use pinyin_parser::pinyin_token::{to_token, Alphabet, AlphabetWithDiacritics, Diacritic, PinyinToken};
use pinyin_parser::{ParseError, Strictness, VecAndIndex};

fn tokens(s: &str) -> Vec<PinyinToken> {
    s.chars()
        .map(|c| to_token(&c.to_string(), Strictness::Loose).unwrap())
        .collect()
}

fn cursor(s: &str) -> VecAndIndex<PinyinToken> {
    VecAndIndex::new(tokens(s))
}

fn plain(fin: NonRhoticFinal, tone: Tone) -> Candidate {
    Candidate { ng: false, fin, tone }
}

fn eng(fin: NonRhoticFinal, tone: Tone) -> Candidate {
    Candidate { ng: true, fin, tone }
}

const ALL_FINALS: [NonRhoticFinal; 37] = [
    NonRhoticFinal::A, NonRhoticFinal::Ai, NonRhoticFinal::An, NonRhoticFinal::Ang,
    NonRhoticFinal::Ao, NonRhoticFinal::E, NonRhoticFinal::ECircumflex, NonRhoticFinal::Ei,
    NonRhoticFinal::En, NonRhoticFinal::Eng, NonRhoticFinal::I, NonRhoticFinal::Ia,
    NonRhoticFinal::Ian, NonRhoticFinal::Iang, NonRhoticFinal::Iao, NonRhoticFinal::Ie,
    NonRhoticFinal::In, NonRhoticFinal::Ing, NonRhoticFinal::Iong, NonRhoticFinal::Iu,
    NonRhoticFinal::Io, NonRhoticFinal::O, NonRhoticFinal::Ong, NonRhoticFinal::Ou,
    NonRhoticFinal::U, NonRhoticFinal::Ua, NonRhoticFinal::Uai, NonRhoticFinal::Uan,
    NonRhoticFinal::Uang, NonRhoticFinal::Ue, NonRhoticFinal::Ui, NonRhoticFinal::Un,
    NonRhoticFinal::Uo, NonRhoticFinal::Yu, NonRhoticFinal::Yuan, NonRhoticFinal::Yue,
    NonRhoticFinal::Yun,
];

#[test]
fn lengths_of_the_finals() {
    assert_eq!(NonRhoticFinal::A.len(), 1);
    assert_eq!(NonRhoticFinal::ECircumflex.len(), 1);
    assert_eq!(NonRhoticFinal::Yu.len(), 1);
    assert_eq!(NonRhoticFinal::Ai.len(), 2);
    assert_eq!(NonRhoticFinal::Io.len(), 2);
    assert_eq!(NonRhoticFinal::Yun.len(), 2);
    assert_eq!(NonRhoticFinal::Ang.len(), 3);
    assert_eq!(NonRhoticFinal::Yuan.len(), 3);
    assert_eq!(NonRhoticFinal::Uai.len(), 3);
    assert_eq!(NonRhoticFinal::Iang.len(), 4);
    assert_eq!(NonRhoticFinal::Iong.len(), 4);
    assert_eq!(NonRhoticFinal::Uang.len(), 4);
    for fin in ALL_FINALS {
        let (before, after) = fin.halves_str();
        assert_eq!(fin.len(), before.chars().count() + after.chars().count());
        assert!((1..=4).contains(&fin.len()));
    }
}

#[test]
fn spans() {
    assert_eq!(plain(NonRhoticFinal::Ang, Tone::First).span(), 3);
    assert_eq!(eng(NonRhoticFinal::Ang, Tone::First).span(), 2);
    assert_eq!(plain(NonRhoticFinal::Iong, Tone::Fifth).span(), 4);
    assert_eq!(eng(NonRhoticFinal::Iong, Tone::Fifth).span(), 3);
    assert_eq!(plain(NonRhoticFinal::A, Tone::Fifth).span(), 1);
}

#[test]
fn finals_as_text() {
    let f = |fin, tone| FinalWithTone { fin, tone }.to_string();
    assert_eq!(f(NonRhoticFinal::A, Tone::First), "ā");
    assert_eq!(f(NonRhoticFinal::A, Tone::Fifth), "a");
    assert_eq!(f(NonRhoticFinal::Ai, Tone::Fourth), "ài");
    assert_eq!(f(NonRhoticFinal::Ang, Tone::Second), "áng");
    assert_eq!(f(NonRhoticFinal::Iong, Tone::Third), "iǒng");
    assert_eq!(f(NonRhoticFinal::Iu, Tone::Third), "iǔ");
    assert_eq!(f(NonRhoticFinal::Ui, Tone::Fourth), "uì");
    assert_eq!(f(NonRhoticFinal::Un, Tone::First), "ūn");
    assert_eq!(f(NonRhoticFinal::Uai, Tone::Fourth), "uài");
    assert_eq!(f(NonRhoticFinal::Yu, Tone::Fourth), "ǜ");
    assert_eq!(f(NonRhoticFinal::Yuan, Tone::Second), "üán");
    assert_eq!(f(NonRhoticFinal::Yue, Tone::Fourth), "üè");
    assert_eq!(f(NonRhoticFinal::Yun, Tone::First), "ǖn");
    assert_eq!(f(NonRhoticFinal::ECircumflex, Tone::Second), "ế");
    assert_eq!(f(NonRhoticFinal::ECircumflex, Tone::Fifth), "ê");
    assert_eq!(f(NonRhoticFinal::Io, Tone::Fifth), "io");
    let mut out = String::from("x");
    FinalWithTone { fin: NonRhoticFinal::Ian, tone: Tone::First }.write_to(&mut out);
    assert_eq!(out, "xia\u{304}n");
    assert_eq!(Tone::First.to_str(), "\u{304}");
    assert_eq!(Tone::Second.to_str(), "\u{301}");
    assert_eq!(Tone::Third.to_str(), "\u{30c}");
    assert_eq!(Tone::Fourth.to_str(), "\u{300}");
    assert_eq!(Tone::Fifth.to_str(), "");
}

#[test]
fn initials_as_text() {
    assert_eq!(SpellingInitial::ZH.to_string(), "zh");
    assert_eq!(SpellingInitial::CH.as_str(), "ch");
    assert_eq!(SpellingInitial::SH.as_str(), "sh");
    assert_eq!(SpellingInitial::B.as_str(), "b");
    assert_eq!(SpellingInitial::W.as_str(), "w");
    assert_eq!(SpellingInitial::ZeroAEO.to_string(), "");
    assert_eq!(ZCS::Z.plain(), SpellingInitial::Z);
    assert_eq!(ZCS::C.plain(), SpellingInitial::C);
    assert_eq!(ZCS::S.plain(), SpellingInitial::S);
    assert_eq!(ZCS::Z.with_h(), SpellingInitial::ZH);
    assert_eq!(ZCS::C.with_h(), SpellingInitial::CH);
    assert_eq!(ZCS::S.with_h(), SpellingInitial::SH);
}

#[test]
fn syllables_as_text() {
    let fin = FinalWithTone { fin: NonRhoticFinal::Ian, tone: Tone::Third };
    assert_eq!(syllable(SpellingInitial::D, fin, true), "diǎnr");
    assert_eq!(syllable(SpellingInitial::D, fin, false), "diǎn");
    let fin = FinalWithTone { fin: NonRhoticFinal::E, tone: Tone::Second };
    assert_eq!(syllable(SpellingInitial::ZeroAEO, fin, true), "ér");
    let fin = FinalWithTone { fin: NonRhoticFinal::Yu, tone: Tone::Fourth };
    assert_eq!(syllable(SpellingInitial::L, fin, false), "lǜ");
}

#[test]
fn candidates_after_a() {
    assert_eq!(
        cursor("a").get_candidates_without_rhotic(true),
        vec![plain(NonRhoticFinal::A, Tone::Fifth)]
    );
    assert_eq!(
        cursor("āi").get_candidates_without_rhotic(true),
        vec![plain(NonRhoticFinal::A, Tone::First), plain(NonRhoticFinal::Ai, Tone::First)]
    );
    assert_eq!(
        cursor("áng").get_candidates_without_rhotic(true),
        vec![
            plain(NonRhoticFinal::A, Tone::Second),
            plain(NonRhoticFinal::An, Tone::Second),
            plain(NonRhoticFinal::Ang, Tone::Second),
        ]
    );
    assert_eq!(
        cursor("àŋ").get_candidates_without_rhotic(true),
        vec![plain(NonRhoticFinal::A, Tone::Fourth), eng(NonRhoticFinal::Ang, Tone::Fourth)]
    );
    assert_eq!(
        cursor("ǎo").get_candidates_without_rhotic(true),
        vec![plain(NonRhoticFinal::A, Tone::Third), plain(NonRhoticFinal::Ao, Tone::Third)]
    );
    assert_eq!(
        cursor("aí").get_candidates_without_rhotic(true),
        vec![plain(NonRhoticFinal::A, Tone::Fifth)]
    );
}

#[test]
fn candidates_after_e_and_o() {
    assert_eq!(
        cursor("ếi").get_candidates_without_rhotic(true),
        vec![plain(NonRhoticFinal::ECircumflex, Tone::Second)]
    );
    assert_eq!(cursor("ê").get_candidates_without_rhotic(true), vec![]);
    assert_eq!(
        cursor("ēng").get_candidates_without_rhotic(true),
        vec![
            plain(NonRhoticFinal::E, Tone::First),
            plain(NonRhoticFinal::En, Tone::First),
            plain(NonRhoticFinal::Eng, Tone::First),
        ]
    );
    assert_eq!(
        cursor("eŋ").get_candidates_without_rhotic(true),
        vec![plain(NonRhoticFinal::E, Tone::Fifth), eng(NonRhoticFinal::Eng, Tone::Fifth)]
    );
    assert_eq!(
        cursor("èi").get_candidates_without_rhotic(true),
        vec![plain(NonRhoticFinal::E, Tone::Fourth), plain(NonRhoticFinal::Ei, Tone::Fourth)]
    );
    assert_eq!(
        cursor("ōng").get_candidates_without_rhotic(true),
        vec![plain(NonRhoticFinal::O, Tone::First), plain(NonRhoticFinal::Ong, Tone::First)]
    );
    assert_eq!(
        cursor("óŋ").get_candidates_without_rhotic(true),
        vec![plain(NonRhoticFinal::O, Tone::Second), eng(NonRhoticFinal::Ong, Tone::Second)]
    );
    assert_eq!(
        cursor("ǒu").get_candidates_without_rhotic(true),
        vec![plain(NonRhoticFinal::O, Tone::Third), plain(NonRhoticFinal::Ou, Tone::Third)]
    );
    assert_eq!(
        cursor("on").get_candidates_without_rhotic(true),
        vec![plain(NonRhoticFinal::O, Tone::Fifth)]
    );
}

#[test]
fn candidates_after_i() {
    assert_eq!(
        cursor("īng").get_candidates_without_rhotic(true),
        vec![
            plain(NonRhoticFinal::I, Tone::First),
            plain(NonRhoticFinal::In, Tone::First),
            plain(NonRhoticFinal::Ing, Tone::First),
        ]
    );
    assert_eq!(
        cursor("iŋ").get_candidates_without_rhotic(true),
        vec![plain(NonRhoticFinal::I, Tone::Fifth), eng(NonRhoticFinal::Ing, Tone::Fifth)]
    );
    assert_eq!(
        cursor("iáng").get_candidates_without_rhotic(true),
        vec![
            plain(NonRhoticFinal::I, Tone::Fifth),
            plain(NonRhoticFinal::Ia, Tone::Second),
            plain(NonRhoticFinal::Ian, Tone::Second),
            plain(NonRhoticFinal::Iang, Tone::Second),
        ]
    );
    assert_eq!(
        cursor("iaŋ").get_candidates_without_rhotic(true),
        vec![
            plain(NonRhoticFinal::I, Tone::Fifth),
            plain(NonRhoticFinal::Ia, Tone::Fifth),
            eng(NonRhoticFinal::Iang, Tone::Fifth),
        ]
    );
    assert_eq!(
        cursor("iǎo").get_candidates_without_rhotic(true),
        vec![
            plain(NonRhoticFinal::I, Tone::Fifth),
            plain(NonRhoticFinal::Ia, Tone::Third),
            plain(NonRhoticFinal::Iao, Tone::Third),
        ]
    );
    assert_eq!(
        cursor("iè").get_candidates_without_rhotic(true),
        vec![plain(NonRhoticFinal::I, Tone::Fifth), plain(NonRhoticFinal::Ie, Tone::Fourth)]
    );
    assert_eq!(
        cursor("iǔ").get_candidates_without_rhotic(true),
        vec![plain(NonRhoticFinal::I, Tone::Fifth), plain(NonRhoticFinal::Iu, Tone::Third)]
    );
    assert_eq!(
        cursor("iōng").get_candidates_without_rhotic(true),
        vec![
            plain(NonRhoticFinal::I, Tone::Fifth),
            plain(NonRhoticFinal::Io, Tone::First),
            plain(NonRhoticFinal::Iong, Tone::First),
        ]
    );
    assert_eq!(
        cursor("ioŋ").get_candidates_without_rhotic(true),
        vec![
            plain(NonRhoticFinal::I, Tone::Fifth),
            plain(NonRhoticFinal::Io, Tone::Fifth),
            eng(NonRhoticFinal::Iong, Tone::Fifth),
        ]
    );
    assert_eq!(
        cursor("íe").get_candidates_without_rhotic(true),
        vec![plain(NonRhoticFinal::I, Tone::Second)]
    );
}

#[test]
fn candidates_after_u() {
    assert_eq!(
        cursor("ūn").get_candidates_without_rhotic(true),
        vec![plain(NonRhoticFinal::U, Tone::First), plain(NonRhoticFinal::Un, Tone::First)]
    );
    assert_eq!(
        cursor("uáng").get_candidates_without_rhotic(true),
        vec![
            plain(NonRhoticFinal::U, Tone::Fifth),
            plain(NonRhoticFinal::Ua, Tone::Second),
            plain(NonRhoticFinal::Uan, Tone::Second),
            plain(NonRhoticFinal::Uang, Tone::Second),
        ]
    );
    assert_eq!(
        cursor("uaŋ").get_candidates_without_rhotic(true),
        vec![
            plain(NonRhoticFinal::U, Tone::Fifth),
            plain(NonRhoticFinal::Ua, Tone::Fifth),
            eng(NonRhoticFinal::Uang, Tone::Fifth),
        ]
    );
    assert_eq!(
        cursor("uài").get_candidates_without_rhotic(true),
        vec![
            plain(NonRhoticFinal::U, Tone::Fifth),
            plain(NonRhoticFinal::Ua, Tone::Fourth),
            plain(NonRhoticFinal::Uai, Tone::Fourth),
        ]
    );
    assert_eq!(
        cursor("ué").get_candidates_without_rhotic(true),
        vec![plain(NonRhoticFinal::U, Tone::Fifth), plain(NonRhoticFinal::Ue, Tone::Second)]
    );
    assert_eq!(
        cursor("uì").get_candidates_without_rhotic(true),
        vec![plain(NonRhoticFinal::U, Tone::Fifth), plain(NonRhoticFinal::Ui, Tone::Fourth)]
    );
    assert_eq!(
        cursor("uǒ").get_candidates_without_rhotic(true),
        vec![plain(NonRhoticFinal::U, Tone::Fifth), plain(NonRhoticFinal::Uo, Tone::Third)]
    );
}

#[test]
fn candidates_after_u_with_umlaut() {
    assert_eq!(
        cursor("ǜn").get_candidates_without_rhotic(true),
        vec![plain(NonRhoticFinal::Yu, Tone::Fourth), plain(NonRhoticFinal::Yun, Tone::Fourth)]
    );
    assert_eq!(cursor("ü").get_candidates_without_rhotic(true), vec![]);
    assert_eq!(cursor("ün").get_candidates_without_rhotic(true), vec![]);
    assert_eq!(
        cursor("üán").get_candidates_without_rhotic(true),
        vec![plain(NonRhoticFinal::Yuan, Tone::Second)]
    );
    assert_eq!(cursor("üá").get_candidates_without_rhotic(true), vec![]);
    assert_eq!(
        cursor("vè").get_candidates_without_rhotic(true),
        vec![plain(NonRhoticFinal::Yue, Tone::Fourth)]
    );
    let reversed = VecAndIndex::new(vec![PinyinToken::Alph(AlphabetWithDiacritics {
        capitalized: false,
        alphabet: Alphabet::U,
        diacritics: vec![Diacritic::Grave, Diacritic::Umlaut],
    })]);
    assert_eq!(
        reversed.get_candidates_without_rhotic(true),
        vec![plain(NonRhoticFinal::Yu, Tone::Fourth)]
    );
}

#[test]
fn breve_is_a_tone_only_in_loose() {
    assert_eq!(cursor("ă").get_candidates_without_rhotic(true), vec![]);
    assert_eq!(
        cursor("ă").get_candidates_without_rhotic(false),
        vec![plain(NonRhoticFinal::A, Tone::Third)]
    );
    assert_eq!(
        cursor("iŏng").get_candidates_without_rhotic(false),
        vec![
            plain(NonRhoticFinal::I, Tone::Fifth),
            plain(NonRhoticFinal::Io, Tone::Third),
            plain(NonRhoticFinal::Iong, Tone::Third),
        ]
    );
    assert_eq!(
        cursor("iŏng").get_candidates_without_rhotic(true),
        vec![plain(NonRhoticFinal::I, Tone::Fifth)]
    );
    let u = VecAndIndex::new(vec![PinyinToken::Alph(AlphabetWithDiacritics {
        capitalized: false,
        alphabet: Alphabet::U,
        diacritics: vec![Diacritic::Umlaut, Diacritic::Breve],
    })]);
    assert_eq!(u.get_candidates_without_rhotic(true), vec![]);
    assert_eq!(
        u.get_candidates_without_rhotic(false),
        vec![plain(NonRhoticFinal::Yu, Tone::Third)]
    );
}

#[test]
fn candidates_depend_on_the_position() {
    let mut c = cursor("xiáng");
    assert_eq!(c.get_candidates_without_rhotic(true), vec![]);
    c.advance(1);
    assert_eq!(c.get_candidates_without_rhotic(true).len(), 4);
    c.advance(1);
    assert_eq!(c.get_candidates_without_rhotic(true).len(), 3);
    c.advance(3);
    assert_eq!(c.get_candidates_without_rhotic(true), vec![]);
    assert_eq!(cursor("").get_candidates_without_rhotic(false), vec![]);
    assert_eq!(cursor("b").get_candidates_without_rhotic(false), vec![]);
    assert_eq!(cursor("!a").get_candidates_without_rhotic(false), vec![]);
}

#[test]
fn candidates_fit_the_letters_under_them() {
    for s in ["iáng", "uaŋ", "ǜn", "üán", "ōng", "àŋ", "ioŋ"] {
        let c = cursor(s);
        for cand in c.get_candidates_without_rhotic(true) {
            assert!(cand.span() >= 1 && cand.span() <= 4);
            assert!(cand.span() <= c.len());
            assert_eq!(cand.span(), cand.fin.len() - usize::from(cand.ng));
        }
    }
}

#[test]
fn onsets() {
    let l = |alphabet, diacritics| AlphabetWithDiacritics { capitalized: false, alphabet, diacritics };
    assert_eq!(onset(&l(Alphabet::B, vec![])), Onset::Initial(SpellingInitial::B));
    assert_eq!(onset(&l(Alphabet::B, vec![Diacritic::Acute])), Onset::Initial(SpellingInitial::B));
    assert_eq!(onset(&l(Alphabet::W, vec![])), Onset::Initial(SpellingInitial::W));
    assert_eq!(onset(&l(Alphabet::R, vec![])), Onset::Initial(SpellingInitial::R));
    assert_eq!(onset(&l(Alphabet::M, vec![])), Onset::Initial(SpellingInitial::M));
    assert_eq!(onset(&l(Alphabet::M, vec![Diacritic::Acute])), Onset::Standalone);
    assert_eq!(onset(&l(Alphabet::N, vec![])), Onset::Initial(SpellingInitial::N));
    assert_eq!(onset(&l(Alphabet::N, vec![Diacritic::Grave])), Onset::Standalone);
    assert_eq!(onset(&l(Alphabet::Z, vec![])), Onset::Digraph(ZCS::Z));
    assert_eq!(onset(&l(Alphabet::C, vec![])), Onset::Digraph(ZCS::C));
    assert_eq!(onset(&l(Alphabet::S, vec![])), Onset::Digraph(ZCS::S));
    assert_eq!(onset(&l(Alphabet::Z, vec![Diacritic::Circumflex])), Onset::Initial(SpellingInitial::ZH));
    assert_eq!(onset(&l(Alphabet::C, vec![Diacritic::Circumflex])), Onset::Initial(SpellingInitial::CH));
    assert_eq!(onset(&l(Alphabet::S, vec![Diacritic::Circumflex])), Onset::Initial(SpellingInitial::SH));
    assert_eq!(onset(&l(Alphabet::S, vec![Diacritic::Acute])), Onset::Standalone);
    assert_eq!(
        onset(&l(Alphabet::S, vec![Diacritic::Circumflex, Diacritic::Acute])),
        Onset::Standalone
    );
    assert_eq!(onset(&l(Alphabet::A, vec![Diacritic::Acute])), Onset::Zero);
    assert_eq!(onset(&l(Alphabet::E, vec![])), Onset::Zero);
    assert_eq!(onset(&l(Alphabet::O, vec![])), Onset::Zero);
    assert_eq!(onset(&l(Alphabet::I, vec![])), Onset::Illegal);
    assert_eq!(onset(&l(Alphabet::U, vec![Diacritic::Umlaut])), Onset::Illegal);
    assert_eq!(onset(&l(Alphabet::Ng, vec![])), Onset::Illegal);
}

#[test]
fn verdicts_count_what_they_step_over() {
    assert_eq!(Verdict::Commit.extra(), 0);
    assert_eq!(Verdict::Reject.extra(), 0);
    assert_eq!(Verdict::Misplaced.extra(), 0);
    assert_eq!(Verdict::CommitRhotic.extra(), 1);
    assert_eq!(Verdict::CommitPastApostrophe.extra(), 1);
}

#[test]
fn tokenizing_a_list_of_graphemes() {
    let g = |v: &[&str]| v.iter().map(|s| s.to_string()).collect::<Vec<_>>();
    assert_eq!(tokenize(&g(&[]), Strictness::Strict), Ok(vec![]));
    assert_eq!(tokenize(&g(&["m", "ǎ"]), Strictness::Strict), Ok(tokens("mǎ")));
    assert_eq!(
        tokenize(&g(&["m", "\u{261}", ""]), Strictness::Strict),
        Err(ParseError::ConfusableLetter)
    );
    assert_eq!(
        tokenize(&g(&["m", "", "\u{261}"]), Strictness::Strict),
        Err(ParseError::EmptyGrapheme)
    );
    assert_eq!(
        tokenize(&g(&["m", "\u{261}", ""]), Strictness::Loose),
        Err(ParseError::EmptyGrapheme)
    );
}
