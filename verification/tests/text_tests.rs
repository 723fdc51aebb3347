use server_helper::text::{chars_of, fold_code, name_has_extension, text_order, TextOrder};

#[test]
fn equal_texts_are_the_same() {
    assert_eq!(text_order("abc", "abc"), TextOrder::Same);
    assert_eq!(text_order("", ""), TextOrder::Same);
}

#[test]
fn first_difference_decides() {
    assert_eq!(text_order("abc", "abd"), TextOrder::Before);
    assert_eq!(text_order("abd", "abc"), TextOrder::After);
    assert_eq!(text_order("b", "abc"), TextOrder::After);
}

#[test]
fn a_proper_prefix_comes_first() {
    assert_eq!(text_order("ab", "abc"), TextOrder::Before);
    assert_eq!(text_order("abc", "ab"), TextOrder::After);
    assert_eq!(text_order("", "a"), TextOrder::Before);
}

#[test]
fn capitals_come_before_small_letters() {
    assert_eq!(text_order("Z", "a"), TextOrder::Before);
}

#[test]
fn order_goes_by_character_code_beyond_ascii() {
    assert_eq!(text_order("z", "\u{e9}"), TextOrder::Before);
    assert_eq!(text_order("\u{e9}", "\u{1F4C1}"), TextOrder::Before);
    assert_eq!(text_order("\u{ffff}", "\u{10000}"), TextOrder::Before);
}

#[test]
fn order_agrees_with_the_order_of_strings() {
    let samples = ["", "a", "A", "ab", "b", "sub1", "sub2", "/x/a.xml", "/x/b.xml", "\u{e9}t\u{e9}"];
    for a in samples {
        for b in samples {
            let expected = if a < b {
                TextOrder::Before
            } else if a == b {
                TextOrder::Same
            } else {
                TextOrder::After
            };
            assert_eq!(text_order(a, b), expected);
        }
    }
}

#[test]
fn chars_of_gives_the_characters_in_order() {
    assert_eq!(chars_of("a\u{e9}z"), vec!['a', '\u{e9}', 'z']);
    assert_eq!(chars_of(""), Vec::<char>::new());
}

#[test]
fn fold_code_folds_only_ascii_capitals() {
    assert_eq!(fold_code('A'), 97);
    assert_eq!(fold_code('Z'), 122);
    assert_eq!(fold_code('a'), 97);
    assert_eq!(fold_code('@'), 64);
    assert_eq!(fold_code('['), 91);
    assert_eq!(fold_code('\u{c9}'), 0xc9);
}

#[test]
fn extension_matches() {
    assert!(name_has_extension("a.xml", "xml"));
    assert!(name_has_extension("ServerRoles_1700000000.xml", "xml"));
}

#[test]
fn extension_matches_whatever_the_case() {
    assert!(name_has_extension("a.XML", "xml"));
    assert!(name_has_extension("a.Xml", "xml"));
    assert!(name_has_extension("a.xml", "XML"));
}

#[test]
fn other_extensions_do_not_match() {
    assert!(!name_has_extension("a.txt", "xml"));
    assert!(!name_has_extension("a.xmlx", "xml"));
    assert!(!name_has_extension("a.xm", "xml"));
    assert!(!name_has_extension("a.xml.bak", "xml"));
}

#[test]
fn only_the_last_dot_counts() {
    assert!(name_has_extension("a.b.xml", "xml"));
    assert!(!name_has_extension("a.xml.", "xml"));
}

#[test]
fn a_name_without_a_dot_has_no_extension() {
    assert!(!name_has_extension("xml", "xml"));
    assert!(!name_has_extension("", "xml"));
    assert!(!name_has_extension("noext", ""));
}

#[test]
fn a_leading_dot_alone_makes_no_extension() {
    assert!(!name_has_extension(".xml", "xml"));
    assert!(name_has_extension(".hidden.xml", "xml"));
}

#[test]
fn an_empty_extension_is_an_extension() {
    assert!(name_has_extension("a.", ""));
    assert!(!name_has_extension("a.", "xml"));
}

#[test]
fn extension_with_letters_beyond_ascii() {
    assert!(name_has_extension("\u{e9}t\u{e9}.xml", "xml"));
    assert!(!name_has_extension("a.xm\u{212a}", "xmk"));
}
