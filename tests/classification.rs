use unicode_font::{ParseError, Variant};

#[test]
fn precedence_of_compound_terms() {
    assert_eq!(Variant::parse_standard_name("SANS-SERIF BOLD ITALIC SMALL A"), Ok(Variant::SansSerifBoldItalic));
    assert_eq!(Variant::parse_standard_name("MATHEMATICAL BOLD SCRIPT CAPITAL A"), Ok(Variant::BoldScript));
    assert_eq!(Variant::parse_standard_name("DOUBLE-STRUCK ITALIC CAPITAL D"), Ok(Variant::DoubleStruckItalic));
    assert_eq!(Variant::parse_standard_name("PLANCK CONSTANT"), Ok(Variant::Script));
    assert_eq!(Variant::parse_standard_name("CIRCLED LATIN SMALL LETTER A"), Ok(Variant::Circled));
}

#[test]
fn unknown_name() {
    assert_eq!(
        Variant::parse_standard_name("LATIN CAPITAL LETTER A"),
        Err(ParseError { name: String::from("latin capital letter a") })
    );
}

#[test]
fn small_is_the_last_fallback() {
    assert_eq!(Variant::parse_standard_name("LATIN SMALL LETTER A"), Ok(Variant::SmallCapital));
}

#[test]
fn more_names() {
    assert_eq!(Variant::parse_standard_name("MATHEMATICAL SCRIPT CAPITAL A"), Ok(Variant::MathematicalScript));
    assert_eq!(Variant::parse_standard_name("SCRIPT CAPITAL B"), Ok(Variant::Script));
    assert_eq!(Variant::parse_standard_name("PLANCK CONSTANT OVER TWO PI"), Ok(Variant::Script));
    assert_eq!(Variant::parse_standard_name("BLACK-LETTER CAPITAL C"), Ok(Variant::Fraktur));
    assert_eq!(Variant::parse_standard_name("MATHEMATICAL BOLD FRAKTUR CAPITAL A"), Ok(Variant::BoldFraktur));
    assert_eq!(Variant::parse_standard_name("MODIFIER LETTER SMALL H"), Ok(Variant::Superscript));
    assert_eq!(Variant::parse_standard_name("LATIN SUBSCRIPT SMALL LETTER A"), Ok(Variant::Subscript));
    assert_eq!(Variant::parse_standard_name("LATIN LETTER SMALL CAPITAL A"), Ok(Variant::SmallCapital));
    assert_eq!(Variant::parse_standard_name("NEGATIVE CIRCLED DIGIT ZERO"), Ok(Variant::NegativeCircled));
    assert_eq!(Variant::parse_standard_name("INFORMATION SOURCE"), Ok(Variant::Other));
    assert_eq!(Variant::parse_standard_name("HEBREW LETTER WIDE ALEF"), Ok(Variant::Wide));
    assert_eq!(Variant::parse_standard_name("ARABIC MATHEMATICAL INITIAL BEH"), Ok(Variant::ArabicMathematicalInitial));
    assert_eq!(Variant::parse_standard_name("ARABIC MATHEMATICAL BEH"), Ok(Variant::ArabicMathematical));
    assert_eq!(Variant::parse_standard_name("ARABIC MATHEMATICAL LOOPED BEH"), Ok(Variant::Looped));
    assert_eq!(Variant::parse_standard_name("SMALL ROMAN NUMERAL ONE"), Ok(Variant::SmallCapital));
    assert_eq!(Variant::parse_standard_name("HEAVY PLUS SIGN"), Ok(Variant::Bold));
}

#[test]
fn exact_names_must_match_whole() {
    assert_eq!(
        Variant::parse_standard_name("INFORMATION SOURCE SIGN"),
        Err(ParseError { name: String::from("information source sign") })
    );
    assert_eq!(Variant::parse_lowercase_name("planck constant"), Ok(Variant::Script));
    assert_eq!(
        Variant::parse_lowercase_name("planck"),
        Err(ParseError { name: String::from("planck") })
    );
}

#[test]
fn lowercase_names_are_classified() {
    assert_eq!(Variant::parse_lowercase_name("mathematical bold capital a"), Ok(Variant::Bold));
    assert_eq!(
        Variant::parse_lowercase_name("MATHEMATICAL BOLD CAPITAL A"),
        Err(ParseError { name: String::from("MATHEMATICAL BOLD CAPITAL A") })
    );
    assert_eq!(
        Variant::parse_lowercase_name(""),
        Err(ParseError { name: String::new() })
    );
}

#[test]
fn error_message() {
    let e = Variant::parse_standard_name("Foo").unwrap_err();
    assert_eq!(e.message(), "unclassified name:\nfoo");
}

#[test]
fn names_round_trip() {
    let all = Variant::all();
    assert_eq!(all.len(), 36);
    assert_eq!(all[0], Variant::ArabicMathematical);
    for v in all {
        assert_eq!(Variant::from_name(v.name()), Some(v));
        assert_eq!(Variant::from_name(&v.name().to_lowercase()), Some(v));
        assert_eq!(Variant::from_name(&v.name().to_uppercase()), Some(v));
    }
    assert_eq!(Variant::Bold.name(), "Bold");
    assert_eq!(Variant::from_name("sansserifbolditalic"), Some(Variant::SansSerifBoldItalic));
    assert_eq!(Variant::from_name("bold italic"), None);
    assert_eq!(Variant::from_name(""), None);
}
