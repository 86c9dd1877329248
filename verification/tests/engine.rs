use strutils::transliterate::{push_entry, push_replacement, transliterate};

#[test]
fn ellipsis_becomes_three_periods() {
    assert_eq!(transliterate("A\u{2026}C"), "A...C");
}

#[test]
fn empty_input_gives_empty_output() {
    assert_eq!(transliterate(""), "");
}

#[test]
fn accented_letter_loses_its_accent() {
    assert_eq!(transliterate("caf\u{e9}"), "cafe");
}

#[test]
fn ligature_becomes_two_letters() {
    assert_eq!(transliterate("\u{c6}neid"), "AEneid");
}

#[test]
fn each_code_point_is_replaced_on_its_own() {
    // The entries of the two ideographs are "Bei " and "Jing ". Each is
    // taken as it is, whatever stands next to it.
    assert_eq!(transliterate("\u{5317}"), "Bei ");
    assert_eq!(transliterate("\u{5317}\u{4eb0}"), "Bei Jing ");
    assert_eq!(transliterate("\u{5317} \u{4eb0}!"), "Bei  Jing !");
}

#[test]
fn output_is_ascii_for_mixed_scripts() {
    let inputs = [
        "\u{c6}neid \u{e9}tude",
        "\u{5317}\u{4eb0}",
        "\u{1f984}\u{2623}",
        "\u{3052}\u{3093}\u{307e}\u{3044}\u{8336}",
        "\u{e000}\u{10ffff}\u{301}",
        "plain",
    ];
    for input in inputs {
        let out = transliterate(input);
        assert!(out.is_ascii(), "{:?} gave {:?}", input, out);
    }
}

#[test]
fn ascii_input_comes_back_unchanged() {
    let all: String = (0u8..=0x7f).map(char::from).collect();
    assert_eq!(transliterate(&all), all);
    assert_eq!(transliterate("Hello, world!\r\n\t\u{0}\u{7f}"), "Hello, world!\r\n\t\u{0}\u{7f}");
}

#[test]
fn second_pass_changes_nothing() {
    let inputs = ["A\u{2026}C", "caf\u{e9}", "\u{5317}\u{4eb0}", "\u{1f984}", "", "\u{e000}x"];
    for input in inputs {
        let once = transliterate(input);
        let twice = transliterate(&once);
        assert_eq!(twice, once);
    }
}

#[test]
fn code_point_without_entry_is_dropped() {
    // Private use, and the last code point there is.
    assert_eq!(transliterate("a\u{e000}b"), "ab");
    assert_eq!(transliterate("\u{10ffff}"), "");
    assert_eq!(transliterate("\u{f0000}x\u{10fffd}"), "x");
}

#[test]
fn combining_mark_is_dropped() {
    assert_eq!(transliterate("e\u{301}"), "e");
    assert_eq!(transliterate("a\u{200d}b"), "ab");
    assert_eq!(transliterate("\u{feff}"), "");
}

#[test]
fn zero_width_space_goes_by_its_entry() {
    assert_eq!(transliterate("a\u{200b}b"), "a b");
}

#[test]
fn control_characters_stay_among_other_scripts() {
    assert_eq!(transliterate("\u{e9}\n\t\u{7f}\u{5317}\r\n"), "e\n\t\u{7f}Bei \r\n");
    assert_eq!(transliterate("\u{2026}\u{0}"), "...\u{0}");
}

#[test]
fn text_is_transliterated_part_by_part() {
    let a = "caf\u{e9} ";
    let b = "\u{2026}\u{5317}";
    let whole = format!("{}{}", a, b);
    assert_eq!(transliterate(&whole), format!("{}{}", transliterate(a), transliterate(b)));
}

#[test]
fn push_replacement_appends_to_what_is_there() {
    let mut out = String::from("x");
    push_replacement(&mut out, '\u{e9}');
    assert_eq!(out, "xe");
    push_replacement(&mut out, 'y');
    assert_eq!(out, "xey");
    push_replacement(&mut out, '\u{e000}');
    assert_eq!(out, "xey");
    push_replacement(&mut out, '\u{2026}');
    assert_eq!(out, "xey...");
}

#[test]
fn push_entry_takes_an_ascii_entry() {
    let mut out = String::from(">");
    push_entry(&mut out, '\u{e9}', Some("e"));
    assert_eq!(out, ">e");
    push_entry(&mut out, '\u{5317}', Some("Bei "));
    assert_eq!(out, ">eBei ");
    push_entry(&mut out, '\u{301}', Some(""));
    assert_eq!(out, ">eBei ");
}

#[test]
fn push_entry_drops_where_there_is_no_entry() {
    let mut out = String::from("ab");
    push_entry(&mut out, '\u{e000}', None);
    assert_eq!(out, "ab");
}

#[test]
fn push_entry_drops_an_entry_that_is_not_ascii() {
    let mut out = String::from("ab");
    push_entry(&mut out, '\u{e9}', Some("\u{e8}"));
    assert_eq!(out, "ab");
    push_entry(&mut out, '\u{e9}', Some("e\u{301}"));
    assert_eq!(out, "ab");
}

#[test]
fn push_entry_keeps_an_ascii_code_point_whatever_the_entry() {
    let mut out = String::new();
    push_entry(&mut out, 'a', Some("zzz"));
    push_entry(&mut out, '\u{7f}', None);
    push_entry(&mut out, '\u{0}', Some(""));
    assert_eq!(out, "a\u{7f}\u{0}");
    // The first code point past ASCII goes by its entry.
    push_entry(&mut out, '\u{80}', None);
    assert_eq!(out, "a\u{7f}\u{0}");
    push_entry(&mut out, '\u{80}', Some("E"));
    assert_eq!(out, "a\u{7f}\u{0}E");
}
