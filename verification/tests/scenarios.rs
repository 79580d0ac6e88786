use pinyin_parser::{ParseError, PinyinParser, Strictness};

fn strict(s: &str) -> Vec<String> {
    PinyinParser::strict(s).collect().unwrap()
}

fn loose(s: &str) -> Vec<String> {
    PinyinParser::loose(s).collect().unwrap()
}

#[test]
fn test_strict1() {
    assert_eq!(
        PinyinParser::strict("mián'ǎo").collect().unwrap(),
        vec!["mián", "ǎo"]
    );
}

#[test]
fn test_strict3() {
    assert_eq!(
        PinyinParser::strict("Nǐ zuò shénme?").collect().unwrap(),
        vec!["nǐ", "zuò", "shén", "me"]
    );
}

#[test]
fn test_strict4() {
    assert_eq!(
        PinyinParser::strict("Nǐ xiǎng qù nǎli?").collect().unwrap(),
        vec!["nǐ", "xiǎng", "qù", "nǎ", "li"]
    );
}

#[test]
fn test_strict5() {
    assert_eq!(
        PinyinParser::strict("jiǔshíjiǔ").collect().unwrap(),
        vec!["jiǔ", "shí", "jiǔ"]
    );
}

#[test]
fn test_strict6() {
    assert_eq!(
        PinyinParser::strict("Wǒ rènshi Lǜ xiǎojiě.").collect().unwrap(),
        vec!["wǒ", "rèn", "shi", "lǜ", "xiǎo", "jiě"]
    );
}

#[test]
fn test() {
    let parser = PinyinParser::new()
        .with_strictness(Strictness::Strict)
        .preserve_miscellaneous(true)
        .preserve_spaces(true);
    assert_eq!(
        parser.parse("你Nǐ 好hǎo").collect().unwrap(),
        vec!["你", "nǐ", " ", "好", "hǎo"]
    );
}

#[test]
fn test2() {
    let parser = PinyinParser::new()
        .with_strictness(Strictness::Strict)
        .preserve_miscellaneous(true)
        .preserve_spaces(true);
    assert_eq!(
        parser.parse("你Nǐあ好hǎo").collect().unwrap(),
        vec!["你", "nǐ", "あ", "好", "hǎo"]
    );
}

#[test]
fn test3() {
    assert_eq!(
        PinyinParser::strict("yù'ér").collect().unwrap(),
        vec!["yù", "ér"]
    );
}

#[test]
fn test4() {
    assert_eq!(
        PinyinParser::strict("yīdiǎnr").collect().unwrap(),
        vec!["yī", "diǎnr"]
    );
}

#[test]
fn two_syllables_without_a_separator() {
    assert_eq!(strict("jīntiān"), vec!["jīn", "tiān"]);
}

#[test]
fn circumflex_and_eng_abbreviate_digraphs() {
    assert_eq!(strict("Ẑāŋ"), vec!["zhāng"]);
    assert_eq!(strict("ĉī"), vec!["chī"]);
    assert_eq!(strict("ŝū"), vec!["shū"]);
    assert_eq!(strict("xiōŋ"), vec!["xiōng"]);
}

#[test]
fn loose_reads_a_breve_as_the_third_tone() {
    assert_eq!(loose("mián'ăo"), vec!["mián", "ǎo"]);
}

#[test]
fn strict_refuses_a_breve() {
    assert_eq!(
        PinyinParser::strict("mián'ăo").collect(),
        Err(ParseError::UnmatchedFinal)
    );
}

#[test]
fn strict_refuses_a_look_alike() {
    assert_eq!(
        PinyinParser::strict("zǒn\u{261}shì").collect(),
        Err(ParseError::ConfusableLetter)
    );
    let mut it = PinyinParser::strict("zǒn\u{261}shì");
    assert_eq!(it.next(), None);
    assert_eq!(it.error(), Some(ParseError::ConfusableLetter));
    assert_eq!(it.next(), None);
    assert_eq!(it.error(), Some(ParseError::ConfusableLetter));
}

#[test]
fn loose_repairs_a_look_alike() {
    assert_eq!(loose("zǒn\u{261}shì"), vec!["zǒng", "shì"]);
    assert_eq!(loose("\u{392}\u{3b1}"), vec!["ba"]);
}

#[test]
fn apostrophe_before_a_consonant() {
    assert_eq!(
        PinyinParser::strict("Yīng'guó").collect(),
        Err(ParseError::StrictApostropheMisplaced)
    );
    assert_eq!(loose("Yīng'guó"), vec!["yīng", "guó"]);
}

#[test]
fn lone_vowel_with_a_tone_is_a_zero_initial_syllable() {
    assert_eq!(strict("ā"), vec!["ā"]);
    assert_eq!(strict("è"), vec!["è"]);
    assert_eq!(strict("ó"), vec!["ó"]);
    assert_eq!(strict("a"), vec!["a"]);
}

#[test]
fn consonant_with_a_tone_is_a_syllable() {
    assert_eq!(strict("ń"), vec!["ń"]);
    assert_eq!(strict("ḿ"), vec!["ḿ"]);
    assert_eq!(strict("ň"), vec!["ň"]);
    assert_eq!(strict("ǹ"), vec!["ǹ"]);
    assert_eq!(strict("z\u{301}"), vec!["ź"]);
}

#[test]
fn decomposed_input_is_composed() {
    assert_eq!(strict("ma\u{30c}"), vec!["mǎ"]);
    assert_eq!(strict("lu\u{308}\u{300}"), vec!["lǜ"]);
    assert_eq!(strict("lu\u{300}\u{308}"), vec!["lǜ"]);
    assert_eq!(strict("lv\u{300}"), vec!["lǜ"]);
}

#[test]
fn capitals_are_lost() {
    assert_eq!(strict("BĚIJĪNG"), vec!["běi", "jīng"]);
    assert_eq!(strict("BĚIJĪNG"), strict("běijīng"));
}

#[test]
fn breve_and_hacek_agree_in_loose() {
    assert_eq!(loose("hăo"), loose("hǎo"));
    assert_eq!(loose("n\u{306}"), vec!["ň"]);
    assert_eq!(strict("n\u{306}"), vec!["n\u{306}"]);
}

#[test]
fn strict_and_loose_agree_on_strict_pinyin() {
    for s in ["Nǐ xiǎng qù nǎli", "jīntiān", "yù'ér", "yīdiǎnr", "Wǒ rènshi Lǜ xiǎojiě"] {
        assert_eq!(strict(s), loose(s));
    }
}

#[test]
fn consonant_before_a_vowel_begins_the_next_syllable() {
    assert_eq!(strict("fāngān"), vec!["fān", "gān"]);
    assert_eq!(strict("fáng'ān"), vec!["fáng", "ān"]);
    assert_eq!(strict("xīnán"), vec!["xī", "nán"]);
    assert_eq!(strict("gǎnrén"), vec!["gǎn", "rén"]);
    assert_eq!(strict("huār"), vec!["huār"]);
    assert_eq!(strict("zhuāngr"), vec!["zhuāngr"]);
}

#[test]
fn light_tone_marker_is_dropped() {
    assert_eq!(strict("·ma"), vec!["ma"]);
    assert_eq!(strict("hǎo·ma"), vec!["hǎo", "ma"]);
}

#[test]
fn punctuation_is_kept_on_request() {
    let parser = PinyinParser::new()
        .with_strictness(Strictness::Strict)
        .preserve_punctuations(true)
        .preserve_spaces(true);
    assert_eq!(
        parser.parse("Nǐ zuò shénme?").collect().unwrap(),
        vec!["nǐ", " ", "zuò", " ", "shén", "me", "?"]
    );
    let parser = PinyinParser::new().is_strict(true).preserve_miscellaneous(true);
    assert_eq!(
        parser.parse("你Nǐ 好hǎo").collect().unwrap(),
        vec!["你", "nǐ", "好", "hǎo"]
    );
}

#[test]
fn curly_quote_is_an_apostrophe_unless_it_is_told_apart() {
    assert_eq!(strict("yù\u{2019}ér"), vec!["yù", "ér"]);
    let apart = PinyinParser::new()
        .with_strictness(Strictness::StrictAndSeparateApostropheFromCurlyQuote);
    assert_eq!(apart.parse("yù\u{2019}ér").collect().unwrap(), vec!["yù", "ér"]);
    let kept = apart.preserve_miscellaneous(true);
    assert_eq!(
        kept.parse("yù\u{2019}ér").collect().unwrap(),
        vec!["yù", "\u{2019}", "ér"]
    );
    assert_eq!(
        apart.parse("zǒn\u{261}").collect(),
        Err(ParseError::ConfusableLetter)
    );
}

#[test]
fn errors_of_the_state_machine() {
    assert_eq!(
        PinyinParser::strict("ia").collect(),
        Err(ParseError::IllegalSyllableStart)
    );
    assert_eq!(
        PinyinParser::loose("ŋa").collect(),
        Err(ParseError::IllegalSyllableStart)
    );
    assert_eq!(
        PinyinParser::loose("'a").collect(),
        Err(ParseError::MalformedSyllable)
    );
    assert_eq!(
        PinyinParser::loose("b a").collect(),
        Err(ParseError::MalformedSyllable)
    );
    assert_eq!(
        PinyinParser::loose("z!").collect(),
        Err(ParseError::MalformedSyllable)
    );
    assert_eq!(
        PinyinParser::loose("b").collect(),
        Err(ParseError::UnmatchedFinal)
    );
    assert_eq!(
        PinyinParser::loose("z").collect(),
        Err(ParseError::UnmatchedFinal)
    );
    assert_eq!(
        PinyinParser::loose("bb").collect(),
        Err(ParseError::UnmatchedFinal)
    );
    assert_eq!(
        PinyinParser::loose("mai").collect(),
        Ok(vec!["mai".to_string()])
    );
}

#[test]
fn an_error_ends_the_iteration_for_good() {
    let mut it = PinyinParser::loose("bā b");
    assert_eq!(it.next(), Some("bā".to_string()));
    assert_eq!(it.error(), None);
    assert_eq!(it.next(), None);
    assert_eq!(it.error(), Some(ParseError::UnmatchedFinal));
    assert_eq!(it.next(), None);
    assert_eq!(it.error(), Some(ParseError::UnmatchedFinal));
}

#[test]
fn the_end_is_no_error() {
    let mut it = PinyinParser::loose("bā");
    assert_eq!(it.next(), Some("bā".to_string()));
    assert_eq!(it.next(), None);
    assert_eq!(it.next(), None);
    assert_eq!(it.error(), None);
    assert_eq!(PinyinParser::loose("").collect(), Ok(vec![]));
}

#[test]
fn an_h_with_a_mark_begins_no_digraph() {
    assert_eq!(strict("zhā"), vec!["zhā"]);
    assert_eq!(
        PinyinParser::strict("zh\u{304}a").collect(),
        Err(ParseError::UnmatchedFinal)
    );
}

#[test]
fn yielded_syllables_are_in_nfc() {
    for s in strict("Wǒ rènshi Lǜ xiǎojiě yīdiǎnr") {
        assert!(unicode_normalization::is_nfc(&s));
    }
}
