use pinyin_parser::erhua::{er_root, strip_r};
use pinyin_parser::{ParseError, PinyinParser, Strictness};

fn glue(parts: &[String]) -> Vec<String> {
    let mut out: Vec<String> = Vec::new();
    for part in parts {
        if part == "r" && !out.is_empty() {
            out.last_mut().unwrap().push('r');
        } else {
            out.push(part.clone());
        }
    }
    out
}

#[test]
fn rhotic_r_is_split_off() {
    assert_eq!(
        PinyinParser::strict("yīdiǎnr").split_erhua().collect().unwrap(),
        vec!["yī", "diǎn", "r"]
    );
    assert_eq!(
        PinyinParser::strict("huār").split_erhua().collect().unwrap(),
        vec!["huā", "r"]
    );
}

#[test]
fn er_itself_is_not_split() {
    for s in ["er", "ēr", "ér", "ěr", "èr"] {
        assert_eq!(PinyinParser::strict(s).split_erhua().collect().unwrap(), vec![s]);
        assert!(er_root(s));
    }
    assert_eq!(
        PinyinParser::strict("yù'ér").split_erhua().collect().unwrap(),
        vec!["yù", "ér"]
    );
    assert_eq!(
        PinyinParser::strict("érzi").split_erhua().collect().unwrap(),
        vec!["ér", "zi"]
    );
    for s in ["", "r", "e", "ar", "erx", "eer", "Er", "e\u{301}r"] {
        assert!(!er_root(s));
    }
}

#[test]
fn stripping_an_r() {
    assert_eq!(strip_r("diǎnr"), Some("diǎn".to_string()));
    assert_eq!(strip_r("r"), Some("".to_string()));
    assert_eq!(strip_r("rr"), Some("r".to_string()));
    assert_eq!(strip_r("ér"), Some("é".to_string()));
    assert_eq!(strip_r(""), None);
    assert_eq!(strip_r("ra"), None);
    assert_eq!(strip_r("R"), None);
}

#[test]
fn one_element_for_each_pull() {
    let mut it = PinyinParser::strict("wánr ba").split_erhua();
    assert_eq!(it.next(), Some("wán".to_string()));
    assert_eq!(it.next(), Some("r".to_string()));
    assert_eq!(it.next(), Some("ba".to_string()));
    assert_eq!(it.next(), None);
    assert_eq!(it.next(), None);
    assert_eq!(it.error(), None);
}

#[test]
fn kept_graphemes_pass_through() {
    let p = PinyinParser::new()
        .with_strictness(Strictness::Strict)
        .preserve_spaces(true)
        .preserve_punctuations(true);
    assert_eq!(
        p.parse("huār, wánr!").split_erhua().collect().unwrap(),
        vec!["huā", "r", " ", "wán", "r", "!"]
    );
}

#[test]
fn errors_pass_through() {
    assert_eq!(
        PinyinParser::strict("wánr b").split_erhua().collect(),
        Err(ParseError::UnmatchedFinal)
    );
    let mut it = PinyinParser::strict("wánr b").split_erhua();
    assert_eq!(it.next(), Some("wán".to_string()));
    assert_eq!(it.next(), Some("r".to_string()));
    assert_eq!(it.error(), None);
    assert_eq!(it.next(), None);
    assert_eq!(it.error(), Some(ParseError::UnmatchedFinal));
}

#[test]
fn gluing_gives_the_syllables_back() {
    for s in ["yīdiǎnr", "Nǐ xiǎng qù nǎli?", "huār wánr èr ér", "zhuāngr", "érzi"] {
        let whole = PinyinParser::strict(s).collect().unwrap();
        let parts = PinyinParser::strict(s).split_erhua().collect().unwrap();
        assert_eq!(glue(&parts), whole);
    }
}
