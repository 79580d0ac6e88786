use pinyin_parser::parser::{ParserState, PinyinParserIter};
use pinyin_parser::pinyin_token::{Alphabet, AlphabetWithDiacritics, Diacritic, PinyinToken};
use pinyin_parser::{ParseError, PinyinParser, Strictness, VecAndIndex};

#[test]
fn walking_a_cursor() {
    let mut c = VecAndIndex::new(vec![10, 20, 30]);
    assert_eq!(c.index(), 0);
    assert_eq!(c.len(), 3);
    assert_eq!(c.peek(0), Some(&10));
    assert_eq!(c.peek(2), Some(&30));
    assert_eq!(c.peek(3), None);
    assert_eq!(c.peek(usize::MAX), None);
    assert_eq!(c.next(), Some(&10));
    assert_eq!(c.index(), 1);
    assert_eq!(c.peek(0), Some(&20));
    c.advance(2);
    assert_eq!(c.index(), 3);
    assert_eq!(c.peek(0), None);
    assert_eq!(c.next(), None);
    assert_eq!(c.index(), 3);
    c.rewind(2);
    assert_eq!(c.index(), 1);
    assert_eq!(c.next(), Some(&20));
    assert_eq!(c.next(), Some(&30));
    assert_eq!(c.next(), None);
    c.rewind(3);
    assert_eq!(c.next(), Some(&10));
    c.advance(0);
    c.rewind(0);
    assert_eq!(c.index(), 1);
}

#[test]
fn empty_cursor() {
    let mut c: VecAndIndex<u8> = VecAndIndex::new(vec![]);
    assert_eq!(c.peek(0), None);
    assert_eq!(c.next(), None);
    assert_eq!(c.index(), 0);
    assert_eq!(c.len(), 0);
}

#[test]
fn configuration_is_built_step_by_step() {
    let p = PinyinParser::new();
    assert_eq!(p, PinyinParser::default());
    assert_eq!(p.strictness(), Strictness::Loose);
    assert!(!p.keeps_spaces());
    assert!(!p.keeps_punctuations());
    assert!(!p.keeps_miscellaneous());
    let q = p.preserve_spaces(true);
    assert!(q.keeps_spaces() && !q.keeps_punctuations() && !q.keeps_miscellaneous());
    assert_eq!(q.strictness(), Strictness::Loose);
    let q = p.preserve_punctuations(true);
    assert!(!q.keeps_spaces() && q.keeps_punctuations() && !q.keeps_miscellaneous());
    let q = p.preserve_miscellaneous(true);
    assert!(!q.keeps_spaces() && !q.keeps_punctuations() && q.keeps_miscellaneous());
    assert_eq!(q.preserve_miscellaneous(false), p);
    assert_eq!(p.is_strict(true).strictness(), Strictness::Strict);
    assert_eq!(p.is_strict(true).is_strict(false), p);
    let s = p.with_strictness(Strictness::StrictAndSeparateApostropheFromCurlyQuote);
    assert_eq!(s.strictness(), Strictness::StrictAndSeparateApostropheFromCurlyQuote);
    assert_eq!(s.preserve_spaces(true).strictness(), s.strictness());
    assert!(!p.is_strict(true).preserve_spaces(true).is_strict(false).keeps_punctuations());
    assert!(p.is_strict(true).preserve_spaces(true).is_strict(false).keeps_spaces());
}

#[test]
fn strictness_is_strict() {
    assert!(Strictness::Strict.is_strict());
    assert!(Strictness::StrictAndSeparateApostropheFromCurlyQuote.is_strict());
    assert!(!Strictness::Loose.is_strict());
}

#[test]
fn iterating_over_given_tokens() {
    let l = |alphabet, diacritics| {
        PinyinToken::Alph(AlphabetWithDiacritics { capitalized: false, alphabet, diacritics })
    };
    let tokens = vec![
        l(Alphabet::Z, vec![]),
        l(Alphabet::H, vec![]),
        l(Alphabet::U, vec![]),
        l(Alphabet::A, vec![Diacritic::Macron]),
        l(Alphabet::Ng, vec![]),
        l(Alphabet::R, vec![]),
        PinyinToken::Space(" ".to_string()),
        PinyinToken::LightToneMarker,
        l(Alphabet::N, vec![Diacritic::Acute]),
        PinyinToken::Punctuation("!".to_string()),
    ];
    let p = PinyinParser::new().preserve_punctuations(true);
    let mut it = PinyinParserIter::from_tokens(p, tokens.clone());
    assert_eq!(it.next(), Some("zhuāngr".to_string()));
    assert_eq!(it.next(), Some("ń".to_string()));
    assert_eq!(it.next(), Some("!".to_string()));
    assert_eq!(it.next(), None);
    assert_eq!(it.error(), None);
    let it = PinyinParserIter::from_tokens(PinyinParser::new().preserve_spaces(true), tokens);
    assert_eq!(it.collect(), Ok(vec!["zhuāngr".to_string(), " ".to_string(), "ń".to_string()]));
    let g = |v: &[&str]| v.iter().map(|s| s.to_string()).collect::<Vec<_>>();
    let it = PinyinParserIter::from_graphemes(PinyinParser::new(), &g(&["m", "a\u{301}"]));
    assert_eq!(it.collect(), Ok(vec!["má".to_string()]));
    let it = PinyinParserIter::from_graphemes(PinyinParser::new(), &g(&["m", "", "a"]));
    assert_eq!(it.collect(), Err(ParseError::EmptyGrapheme));
    assert_ne!(
        ParserState::BeforeWordInitial,
        ParserState::AfterSyllablePossiblyConsumingApostrophe
    );
}
