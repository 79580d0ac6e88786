use pinyin_parser::pinyin_token::{
    diacritic, head, to_token, Alphabet, AlphabetWithDiacritics, Diacritic, Head, Marks,
    PinyinToken,
};
use pinyin_parser::{ParseError, Strictness};
use unicode_normalization::UnicodeNormalization;

fn letter(capitalized: bool, alphabet: Alphabet, diacritics: Vec<Diacritic>) -> PinyinToken {
    PinyinToken::Alph(AlphabetWithDiacritics { capitalized, alphabet, diacritics })
}

#[test]
fn ascii_letters() {
    assert_eq!(to_token("a", Strictness::Strict), Ok(letter(false, Alphabet::A, vec![])));
    assert_eq!(to_token("Z", Strictness::Strict), Ok(letter(true, Alphabet::Z, vec![])));
    assert_eq!(to_token("w", Strictness::Loose), Ok(letter(false, Alphabet::W, vec![])));
}

#[test]
fn v_stands_for_u_with_umlaut() {
    let want = Ok(letter(false, Alphabet::U, vec![Diacritic::Umlaut]));
    assert_eq!(to_token("v", Strictness::Strict), want);
    assert_eq!(to_token("ü", Strictness::Strict), want);
    let want = Ok(letter(true, Alphabet::U, vec![Diacritic::Umlaut]));
    assert_eq!(to_token("V", Strictness::Strict), want);
    assert_eq!(to_token("Ü", Strictness::Strict), want);
}

#[test]
fn precomposed_letters_are_taken_apart() {
    assert_eq!(
        to_token("ǖ", Strictness::Strict),
        Ok(letter(false, Alphabet::U, vec![Diacritic::Umlaut, Diacritic::Macron]))
    );
    assert_eq!(
        to_token("Ế", Strictness::Strict),
        Ok(letter(true, Alphabet::E, vec![Diacritic::Circumflex, Diacritic::Acute]))
    );
    assert_eq!(
        to_token("ề", Strictness::Strict),
        Ok(letter(false, Alphabet::E, vec![Diacritic::Circumflex, Diacritic::Grave]))
    );
    assert_eq!(
        to_token("ẑ", Strictness::Strict),
        Ok(letter(false, Alphabet::Z, vec![Diacritic::Circumflex]))
    );
    assert_eq!(to_token("Ŋ", Strictness::Strict), Ok(letter(true, Alphabet::Ng, vec![])));
    assert_eq!(
        to_token("ă", Strictness::Strict),
        Ok(letter(false, Alphabet::A, vec![Diacritic::Breve]))
    );
    assert_eq!(
        to_token("Ǹ", Strictness::Loose),
        Ok(letter(true, Alphabet::N, vec![Diacritic::Grave]))
    );
    assert_eq!(
        to_token("ḿ", Strictness::Loose),
        Ok(letter(false, Alphabet::M, vec![Diacritic::Acute]))
    );
}

#[test]
fn every_precomposed_letter_agrees_with_its_decomposition() {
    let all = "āēīōūǖáéíóúǘếḿńǎěǐǒǔǚňăĕĭŏŭàèìòùǜềǹĉŝẑê\
               ĀĒĪŌŪǕÁÉÍÓÚǗẾḾŃǍĚǏǑǓǙŇĂĔĬŎŬÀÈÌÒÙǛỀǸĈŜẐÊ";
    for c in all.chars() {
        let composed = c.to_string();
        let decomposed = composed.nfd().collect::<String>();
        assert_ne!(composed, decomposed);
        assert_eq!(
            to_token(&composed, Strictness::Strict),
            to_token(&decomposed, Strictness::Strict),
            "{}",
            composed
        );
        assert!(matches!(
            to_token(&composed, Strictness::Strict),
            Ok(PinyinToken::Alph(_))
        ));
    }
}

#[test]
fn combining_marks_follow_in_order() {
    assert_eq!(
        to_token("u\u{300}\u{308}", Strictness::Strict),
        Ok(letter(false, Alphabet::U, vec![Diacritic::Grave, Diacritic::Umlaut]))
    );
    assert_eq!(
        to_token("ü\u{30c}", Strictness::Strict),
        Ok(letter(false, Alphabet::U, vec![Diacritic::Umlaut, Diacritic::Hacek]))
    );
    assert_eq!(
        to_token("H\u{302}", Strictness::Strict),
        Ok(letter(true, Alphabet::H, vec![Diacritic::Circumflex]))
    );
}

#[test]
fn unknown_mark_demotes_the_grapheme() {
    assert_eq!(
        to_token("e\u{327}", Strictness::Strict),
        Ok(PinyinToken::Others("e\u{327}".to_string()))
    );
    assert_eq!(
        to_token("a\u{301}\u{323}", Strictness::Loose),
        Ok(PinyinToken::Others("a\u{301}\u{323}".to_string()))
    );
}

#[test]
fn look_alikes() {
    for s in ["\u{261}", "\u{251}", "α", "ο", "Α", "Β", "Ε", "Ζ", "Η", "Ι", "Κ", "Μ", "Ν", "Ο", "Ρ", "Τ", "Υ", "Χ"] {
        assert_eq!(to_token(s, Strictness::Strict), Err(ParseError::ConfusableLetter));
        assert_eq!(
            to_token(s, Strictness::StrictAndSeparateApostropheFromCurlyQuote),
            Err(ParseError::ConfusableLetter)
        );
    }
    assert_eq!(to_token("\u{261}", Strictness::Loose), Ok(letter(false, Alphabet::G, vec![])));
    assert_eq!(to_token("\u{251}", Strictness::Loose), Ok(letter(false, Alphabet::A, vec![])));
    assert_eq!(to_token("α", Strictness::Loose), Ok(letter(false, Alphabet::A, vec![])));
    assert_eq!(to_token("ο", Strictness::Loose), Ok(letter(false, Alphabet::O, vec![])));
    let capitals = [
        ("Α", Alphabet::A), ("Β", Alphabet::B), ("Ε", Alphabet::E), ("Ζ", Alphabet::Z),
        ("Η", Alphabet::H), ("Ι", Alphabet::I), ("Κ", Alphabet::K), ("Μ", Alphabet::M),
        ("Ν", Alphabet::N), ("Ο", Alphabet::O), ("Ρ", Alphabet::P), ("Τ", Alphabet::T),
        ("Υ", Alphabet::Y), ("Χ", Alphabet::X),
    ];
    for (s, a) in capitals {
        assert_eq!(to_token(s, Strictness::Loose), Ok(letter(true, a, vec![])));
    }
    assert_eq!(
        to_token("α\u{301}", Strictness::Loose),
        Ok(letter(false, Alphabet::A, vec![Diacritic::Acute]))
    );
}

#[test]
fn marks_and_signs() {
    assert_eq!(to_token("·", Strictness::Strict), Ok(PinyinToken::LightToneMarker));
    assert_eq!(to_token("'", Strictness::Strict), Ok(PinyinToken::Apostrophe));
    assert_eq!(to_token("’", Strictness::Strict), Ok(PinyinToken::Apostrophe));
    assert_eq!(to_token("’", Strictness::Loose), Ok(PinyinToken::Apostrophe));
    assert_eq!(
        to_token("’", Strictness::StrictAndSeparateApostropheFromCurlyQuote),
        Ok(PinyinToken::Others("’".to_string()))
    );
    for s in ["!", "-", "?", "—", "…"] {
        assert_eq!(to_token(s, Strictness::Strict), Ok(PinyinToken::Punctuation(s.to_string())));
    }
    for s in [" ", "\t", "\u{a0}", "\u{3000}", "\r\n"] {
        assert_eq!(to_token(s, Strictness::Strict), Ok(PinyinToken::Space(s.to_string())));
    }
    for s in [".", ",", "你", "3", "\u{301}"] {
        assert_eq!(to_token(s, Strictness::Strict), Ok(PinyinToken::Others(s.to_string())));
    }
}

#[test]
fn empty_grapheme() {
    assert_eq!(to_token("", Strictness::Strict), Err(ParseError::EmptyGrapheme));
    assert_eq!(to_token("", Strictness::Loose), Err(ParseError::EmptyGrapheme));
}

#[test]
fn the_seven_marks() {
    assert_eq!(diacritic('\u{304}'), Some(Diacritic::Macron));
    assert_eq!(diacritic('\u{301}'), Some(Diacritic::Acute));
    assert_eq!(diacritic('\u{30c}'), Some(Diacritic::Hacek));
    assert_eq!(diacritic('\u{300}'), Some(Diacritic::Grave));
    assert_eq!(diacritic('\u{306}'), Some(Diacritic::Breve));
    assert_eq!(diacritic('\u{308}'), Some(Diacritic::Umlaut));
    assert_eq!(diacritic('\u{302}'), Some(Diacritic::Circumflex));
    assert_eq!(diacritic('\u{303}'), None);
    assert_eq!(diacritic('a'), None);
    for d in [
        Diacritic::Macron, Diacritic::Acute, Diacritic::Hacek, Diacritic::Grave,
        Diacritic::Breve, Diacritic::Umlaut, Diacritic::Circumflex,
    ] {
        assert_eq!(diacritic(d.to_str().chars().next().unwrap()), Some(d));
        assert_eq!(d.to_str().chars().count(), 1);
    }
    assert_eq!(Diacritic::Breve.to_str(), "\u{306}");
    assert_eq!(Diacritic::Breve.to_str_fixing_breve(), "\u{30c}");
    assert_eq!(Diacritic::Hacek.to_str_fixing_breve(), "\u{30c}");
    assert_eq!(Diacritic::Umlaut.to_str_fixing_breve(), "\u{308}");
}

#[test]
fn heads() {
    assert_eq!(head('q'), Head::Letter(false, Alphabet::Q, Marks::Zero));
    assert_eq!(head('Ǚ'), Head::Letter(true, Alphabet::U, Marks::Two(Diacritic::Umlaut, Diacritic::Hacek)));
    assert_eq!(head('Η'), Head::Confusable(true, Alphabet::H));
    assert_eq!(head('…'), Head::Punctuation);
    assert_eq!(head(' '), Head::Other);
    assert_eq!(Marks::Two(Diacritic::Umlaut, Diacritic::Hacek).to_vec(), vec![Diacritic::Umlaut, Diacritic::Hacek]);
    assert_eq!(Marks::One(Diacritic::Acute).to_vec(), vec![Diacritic::Acute]);
    assert_eq!(Marks::Zero.to_vec(), vec![]);
}

#[test]
fn letters_as_text() {
    assert_eq!(Alphabet::A.to_cap(), "A");
    assert_eq!(Alphabet::A.to_low(), "a");
    assert_eq!(Alphabet::Ng.to_cap(), "Ŋ");
    assert_eq!(Alphabet::Ng.to_low(), "ŋ");
    let all = [
        Alphabet::A, Alphabet::B, Alphabet::C, Alphabet::D, Alphabet::E, Alphabet::F,
        Alphabet::G, Alphabet::H, Alphabet::I, Alphabet::J, Alphabet::K, Alphabet::L,
        Alphabet::M, Alphabet::N, Alphabet::O, Alphabet::P, Alphabet::Q, Alphabet::R,
        Alphabet::S, Alphabet::T, Alphabet::U, Alphabet::W, Alphabet::X, Alphabet::Y,
        Alphabet::Z, Alphabet::Ng,
    ];
    for a in all {
        assert_eq!(to_token(a.to_low(), Strictness::Strict), Ok(letter(false, a, vec![])));
        assert_eq!(to_token(a.to_cap(), Strictness::Strict), Ok(letter(true, a, vec![])));
        assert_eq!(a.to_cap().to_lowercase(), a.to_low());
        assert_eq!(a.is_vowel(), "aeiou".contains(a.to_low()));
    }
}

#[test]
fn letter_with_marks_as_text() {
    let n = AlphabetWithDiacritics {
        capitalized: true,
        alphabet: Alphabet::N,
        diacritics: vec![Diacritic::Hacek],
    };
    assert_eq!(n.to_str(Strictness::Strict), "ň");
    assert_eq!(n.to_str_preserving_capitalization(true, Strictness::Strict), "Ň");
    assert_eq!(n.to_str_preserving_capitalization(false, Strictness::Strict), "ň");
    let u = AlphabetWithDiacritics {
        capitalized: false,
        alphabet: Alphabet::U,
        diacritics: vec![Diacritic::Umlaut, Diacritic::Breve],
    };
    assert_eq!(u.to_str(Strictness::Loose), "ǚ");
    assert_eq!(u.to_str(Strictness::Strict), "ü\u{306}");
    assert_eq!(u.to_str(Strictness::StrictAndSeparateApostropheFromCurlyQuote), "ü\u{306}");
    assert_eq!(u.to_str_preserving_capitalization(true, Strictness::Loose), "ǚ");
    let b = AlphabetWithDiacritics { capitalized: true, alphabet: Alphabet::B, diacritics: vec![] };
    assert_eq!(b.to_str(Strictness::Loose), "b");
    assert_eq!(b.to_str_preserving_capitalization(true, Strictness::Loose), "B");
}
