use unicode_font::{code_to_character, try_as, try_as_plain, Variant};

fn every_char() -> impl Iterator<Item = char> {
    (0u32..=0x10FFFF).filter_map(char::from_u32)
}

#[test]
fn double_plain_is_plain() {
    let plain: Vec<char> = every_char().filter_map(|c| try_as_plain(&c)).collect();
    let double_plain: Vec<char> = plain.iter().map(|c| try_as_plain(c).unwrap()).collect();
    assert_eq!(plain, double_plain);
}

#[test]
fn keys_are_plain() {
    for v in Variant::all() {
        for c in every_char() {
            if try_as(v, &c).is_some() {
                assert_eq!(try_as_plain(&c), Some(c), "{:?} {:?}", v, c);
            }
        }
    }
}

#[test]
fn values_are_supported_and_round_trip() {
    for v in Variant::all() {
        for c in every_char() {
            if let Some(s) = try_as(v, &c) {
                assert_eq!(try_as_plain(&s), Some(c), "{:?} {:?}", v, c);
                assert_eq!(try_as(v, &try_as_plain(&s).unwrap()), Some(s));
            }
        }
    }
}

#[test]
fn end_to_end_examples() {
    assert_eq!(try_as(Variant::Bold, &'a'), Some('\u{1D41A}'));
    assert_eq!(try_as(Variant::Circled, &'a'), Some('\u{24D0}'));
    assert_eq!(try_as(Variant::Monospace, &'a'), Some('\u{1D68A}'));
    assert_eq!(try_as(Variant::SmallCapital, &'a'), None);
    assert_eq!(try_as(Variant::SmallCapital, &'A'), Some('\u{1D00}'));
    assert_eq!(try_as(Variant::Squared, &'a'), None);
    assert_eq!(try_as(Variant::Squared, &'A'), Some('\u{1F130}'));
}

#[test]
fn plain_of_styled_digit() {
    assert_eq!(try_as_plain(&'\u{1D7D8}'), Some('0'));
    assert_eq!(try_as_plain(&'a'), Some('a'));
    assert_eq!(try_as_plain(&'\u{1D455}'), None);
    assert_eq!(try_as_plain(&'\u{4E00}'), None);
}

#[test]
fn styled_input_is_not_normalised() {
    assert_eq!(try_as(Variant::Bold, &'\u{24D0}'), None);
    assert_eq!(try_as(Variant::Bold, &'\u{1D41A}'), None);
}

#[test]
fn letterlike_holes_are_filled() {
    assert_eq!(try_as(Variant::Fraktur, &'C'), Some('\u{212D}'));
    assert_eq!(try_as(Variant::DoubleStruck, &'R'), Some('\u{211D}'));
    assert_eq!(try_as(Variant::Script, &'h'), Some('\u{210E}'));
    assert_eq!(try_as(Variant::Italic, &'h'), None);
    assert_eq!(try_as(Variant::MathematicalScript, &'A'), Some('\u{1D49C}'));
}

#[test]
fn plain_variant_is_identity_on_plain() {
    assert_eq!(try_as(Variant::Plain, &'a'), Some('a'));
    assert_eq!(try_as(Variant::Plain, &'\u{1D41A}'), None);
    assert_eq!(try_as(Variant::Plain, &'\u{4E00}'), None);
}

#[test]
fn whole_string_conversion() {
    let bold: Option<String> = "abc".chars().map(|c| try_as(Variant::Bold, &c)).collect();
    assert_eq!(bold, Some(String::from("\u{1D41A}\u{1D41B}\u{1D41C}")));
    let squared: Option<String> = "Ab".chars().map(|c| try_as(Variant::Squared, &c)).collect();
    assert_eq!(squared, None);
}

#[test]
fn code_points_from_hex() {
    assert_eq!(code_to_character("1D400"), '\u{1D400}');
    assert_eq!(code_to_character("1d41a"), '\u{1D41A}');
    assert_eq!(code_to_character("41"), 'A');
    assert_eq!(code_to_character("+0041"), 'A');
    assert_eq!(code_to_character("10FFFF"), '\u{10FFFF}');
}

#[test]
fn placeholder_for_missing_forms() {
    let shown: String = unicode_font::try_as_or(Variant::Squared, "Ab1", '?').into_iter().collect();
    assert_eq!(shown, "\u{1F130}??");
    let shown: String = unicode_font::try_as_or(Variant::Circled, "a1", '?').into_iter().collect();
    assert_eq!(shown, "\u{24D0}\u{2460}");
    assert!(unicode_font::try_as_or(Variant::Bold, "", '?').is_empty());
}

#[test]
fn arabic_and_hebrew_forms() {
    assert_eq!(try_as(Variant::ArabicMathematical, &'\u{0628}'), Some('\u{1EE01}'));
    assert_eq!(try_as(Variant::ArabicMathematical, &'\u{0647}'), None);
    assert_eq!(try_as(Variant::Looped, &'\u{0627}'), Some('\u{1EE80}'));
    assert_eq!(try_as(Variant::Wide, &'\u{05D0}'), Some('\u{FB21}'));
    assert_eq!(try_as(Variant::Other, &'i'), Some('\u{2139}'));
    assert_eq!(try_as_plain(&'\u{FB20}'), Some('\u{05E2}'));
}

#[test]
fn enclosed_and_script_forms() {
    assert_eq!(try_as(Variant::Superscript, &'2'), Some('\u{00B2}'));
    assert_eq!(try_as(Variant::Subscript, &'2'), Some('\u{2082}'));
    assert_eq!(try_as(Variant::Fullwidth, &'!'), Some('\u{FF01}'));
    assert_eq!(try_as(Variant::Regional, &'Z'), Some('\u{1F1FF}'));
    assert_eq!(try_as(Variant::Comma, &'9'), Some('\u{1F10A}'));
    assert_eq!(try_as(Variant::FullStop, &'0'), Some('\u{1F100}'));
    assert_eq!(try_as(Variant::NegativeCircled, &'0'), Some('\u{24FF}'));
    assert_eq!(try_as(Variant::Bold, &'\u{03A9}'), Some('\u{1D6C0}'));
    assert_eq!(try_as_plain(&'\u{1D6C1}'), Some('\u{2207}'));
}
