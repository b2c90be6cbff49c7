//! Font variants: the closed set of styles, their names, and the classification of Unicode
//! character names into them.
use vstd::prelude::*;
use vstd::string::*;

use crate::text::{chars_of, contains, has, same};

verus! {

/// The font variants that characters can be converted to.
#[derive(Debug, Clone, Copy, PartialEq, Eq, Structural, Hash)]
pub enum Variant {
    ArabicMathematical,
    ArabicMathematicalInitial,
    Bold,
    BoldItalic,
    BoldFraktur,
    BoldScript,
    Circled,
    Comma,
    DoubleStruck,
    DoubleStruckItalic,
    Fraktur,
    FullStop,
    Fullwidth,
    Italic,
    Looped,
    Monospace,
    NegativeCircled,
    NegativeSquared,
    Regional,
    Segmented,
    /// Letterlike forms marked as font variants by Unicode that belong to no named family.
    Other,
    Parenthesized,
    Plain,
    SansSerifBoldItalic,
    SansSerifBold,
    SansSerifItalic,
    SansSerif,
    MathematicalScript,
    Script,
    SmallCapital,
    Superscript,
    Subscript,
    Stretched,
    Squared,
    Tailed,
    Wide,
}

/// The failure to classify a Unicode character name; holds the lowercased name.
#[derive(Debug, Clone, PartialEq, Eq)]
pub struct ParseError {
    pub name: String,
}

impl ParseError {
    /// A message that names the unclassified name.
    pub fn message(&self) -> (r: String)
        ensures
            r@ == "unclassified name:\n"@ + self.name@,
    {
        let mut r = String::from_str("unclassified name:\n");
        r.append(self.name.as_str());
        r
    }
}

/// The display name of each variant.
pub open spec fn variant_name(v: Variant) -> Seq<char> {
    match v {
        Variant::ArabicMathematical => "ArabicMathematical"@,
        Variant::ArabicMathematicalInitial => "ArabicMathematicalInitial"@,
        Variant::Bold => "Bold"@,
        Variant::BoldItalic => "BoldItalic"@,
        Variant::BoldFraktur => "BoldFraktur"@,
        Variant::BoldScript => "BoldScript"@,
        Variant::Circled => "Circled"@,
        Variant::Comma => "Comma"@,
        Variant::DoubleStruck => "DoubleStruck"@,
        Variant::DoubleStruckItalic => "DoubleStruckItalic"@,
        Variant::Fraktur => "Fraktur"@,
        Variant::FullStop => "FullStop"@,
        Variant::Fullwidth => "Fullwidth"@,
        Variant::Italic => "Italic"@,
        Variant::Looped => "Looped"@,
        Variant::Monospace => "Monospace"@,
        Variant::NegativeCircled => "NegativeCircled"@,
        Variant::NegativeSquared => "NegativeSquared"@,
        Variant::Regional => "Regional"@,
        Variant::Segmented => "Segmented"@,
        Variant::Other => "Other"@,
        Variant::Parenthesized => "Parenthesized"@,
        Variant::Plain => "Plain"@,
        Variant::SansSerifBoldItalic => "SansSerifBoldItalic"@,
        Variant::SansSerifBold => "SansSerifBold"@,
        Variant::SansSerifItalic => "SansSerifItalic"@,
        Variant::SansSerif => "SansSerif"@,
        Variant::MathematicalScript => "MathematicalScript"@,
        Variant::Script => "Script"@,
        Variant::SmallCapital => "SmallCapital"@,
        Variant::Superscript => "Superscript"@,
        Variant::Subscript => "Subscript"@,
        Variant::Stretched => "Stretched"@,
        Variant::Squared => "Squared"@,
        Variant::Tailed => "Tailed"@,
        Variant::Wide => "Wide"@,
    }
}

/// All variants, in declaration order.
pub open spec fn all_variants() -> Seq<Variant> {
    seq![
        Variant::ArabicMathematical,
        Variant::ArabicMathematicalInitial,
        Variant::Bold,
        Variant::BoldItalic,
        Variant::BoldFraktur,
        Variant::BoldScript,
        Variant::Circled,
        Variant::Comma,
        Variant::DoubleStruck,
        Variant::DoubleStruckItalic,
        Variant::Fraktur,
        Variant::FullStop,
        Variant::Fullwidth,
        Variant::Italic,
        Variant::Looped,
        Variant::Monospace,
        Variant::NegativeCircled,
        Variant::NegativeSquared,
        Variant::Regional,
        Variant::Segmented,
        Variant::Other,
        Variant::Parenthesized,
        Variant::Plain,
        Variant::SansSerifBoldItalic,
        Variant::SansSerifBold,
        Variant::SansSerifItalic,
        Variant::SansSerif,
        Variant::MathematicalScript,
        Variant::Script,
        Variant::SmallCapital,
        Variant::Superscript,
        Variant::Subscript,
        Variant::Stretched,
        Variant::Squared,
        Variant::Tailed,
        Variant::Wide,
    ]
}

/// A character's code point, with ASCII capitals taken to lower case.
pub open spec fn ascii_lower(c: char) -> int {
    if 'A' <= c <= 'Z' {
        c as int + 32
    } else {
        c as int
    }
}

/// `a` and `b` are equal up to the case of ASCII letters.
pub open spec fn same_ignoring_case(a: Seq<char>, b: Seq<char>) -> bool {
    a.len() == b.len() && forall|i: int| 0 <= i < a.len() ==> #[trigger] ascii_lower(a[i]) == ascii_lower(b[i])
}

/// Computes `ascii_lower`.
fn lower_code(c: char) -> (r: u32)
    ensures
        r as int == ascii_lower(c),
{
    if 'A' <= c && c <= 'Z' {
        c as u32 + 32
    } else {
        c as u32
    }
}

/// Whether `a` and `b` are equal up to the case of ASCII letters.
fn eq_ignoring_case(a: &Vec<char>, b: &Vec<char>) -> (r: bool)
    ensures
        r == same_ignoring_case(a@, b@),
{
    if a.len() != b.len() {
        return false;
    }
    let mut i: usize = 0;
    while i < a.len()
        invariant
            a@.len() == b@.len(),
            i <= a@.len(),
            forall|t: int| 0 <= t < i ==> #[trigger] ascii_lower(a@[t]) == ascii_lower(b@[t]),
        decreases a@.len() - i,
    {
        let lx = lower_code(a[i]);
        let ly = lower_code(b[i]);
        if lx != ly {
            assert(ascii_lower(a@[i as int]) != ascii_lower(b@[i as int]));
            return false;
        }
        assert(ascii_lower(a@[i as int]) == ascii_lower(b@[i as int]));
        i += 1;
    }
    true
}

/// Every variant is listed in `all_variants`.
pub proof fn all_variants_are_listed(v: Variant)
    ensures
        all_variants().contains(v),
{
    match v {
        Variant::ArabicMathematical => assert(all_variants()[0] == v),
        Variant::ArabicMathematicalInitial => assert(all_variants()[1] == v),
        Variant::Bold => assert(all_variants()[2] == v),
        Variant::BoldItalic => assert(all_variants()[3] == v),
        Variant::BoldFraktur => assert(all_variants()[4] == v),
        Variant::BoldScript => assert(all_variants()[5] == v),
        Variant::Circled => assert(all_variants()[6] == v),
        Variant::Comma => assert(all_variants()[7] == v),
        Variant::DoubleStruck => assert(all_variants()[8] == v),
        Variant::DoubleStruckItalic => assert(all_variants()[9] == v),
        Variant::Fraktur => assert(all_variants()[10] == v),
        Variant::FullStop => assert(all_variants()[11] == v),
        Variant::Fullwidth => assert(all_variants()[12] == v),
        Variant::Italic => assert(all_variants()[13] == v),
        Variant::Looped => assert(all_variants()[14] == v),
        Variant::Monospace => assert(all_variants()[15] == v),
        Variant::NegativeCircled => assert(all_variants()[16] == v),
        Variant::NegativeSquared => assert(all_variants()[17] == v),
        Variant::Regional => assert(all_variants()[18] == v),
        Variant::Segmented => assert(all_variants()[19] == v),
        Variant::Other => assert(all_variants()[20] == v),
        Variant::Parenthesized => assert(all_variants()[21] == v),
        Variant::Plain => assert(all_variants()[22] == v),
        Variant::SansSerifBoldItalic => assert(all_variants()[23] == v),
        Variant::SansSerifBold => assert(all_variants()[24] == v),
        Variant::SansSerifItalic => assert(all_variants()[25] == v),
        Variant::SansSerif => assert(all_variants()[26] == v),
        Variant::MathematicalScript => assert(all_variants()[27] == v),
        Variant::Script => assert(all_variants()[28] == v),
        Variant::SmallCapital => assert(all_variants()[29] == v),
        Variant::Superscript => assert(all_variants()[30] == v),
        Variant::Subscript => assert(all_variants()[31] == v),
        Variant::Stretched => assert(all_variants()[32] == v),
        Variant::Squared => assert(all_variants()[33] == v),
        Variant::Tailed => assert(all_variants()[34] == v),
        Variant::Wide => assert(all_variants()[35] == v),
    }
}

impl Variant {
    /// All variants, in declaration order.
    pub fn all() -> (r: Vec<Variant>)
        ensures
            r@ == all_variants(),
    {
        let r = vec![
            Variant::ArabicMathematical,
            Variant::ArabicMathematicalInitial,
            Variant::Bold,
            Variant::BoldItalic,
            Variant::BoldFraktur,
            Variant::BoldScript,
            Variant::Circled,
            Variant::Comma,
            Variant::DoubleStruck,
            Variant::DoubleStruckItalic,
            Variant::Fraktur,
            Variant::FullStop,
            Variant::Fullwidth,
            Variant::Italic,
            Variant::Looped,
            Variant::Monospace,
            Variant::NegativeCircled,
            Variant::NegativeSquared,
            Variant::Regional,
            Variant::Segmented,
            Variant::Other,
            Variant::Parenthesized,
            Variant::Plain,
            Variant::SansSerifBoldItalic,
            Variant::SansSerifBold,
            Variant::SansSerifItalic,
            Variant::SansSerif,
            Variant::MathematicalScript,
            Variant::Script,
            Variant::SmallCapital,
            Variant::Superscript,
            Variant::Subscript,
            Variant::Stretched,
            Variant::Squared,
            Variant::Tailed,
            Variant::Wide,
        ];
        assert(r@ =~= all_variants());
        r
    }

    /// The display name of the variant.
    pub fn name(self) -> (r: &'static str)
        ensures
            r@ == variant_name(self),
    {
        match self {
            Variant::ArabicMathematical => "ArabicMathematical",
            Variant::ArabicMathematicalInitial => "ArabicMathematicalInitial",
            Variant::Bold => "Bold",
            Variant::BoldItalic => "BoldItalic",
            Variant::BoldFraktur => "BoldFraktur",
            Variant::BoldScript => "BoldScript",
            Variant::Circled => "Circled",
            Variant::Comma => "Comma",
            Variant::DoubleStruck => "DoubleStruck",
            Variant::DoubleStruckItalic => "DoubleStruckItalic",
            Variant::Fraktur => "Fraktur",
            Variant::FullStop => "FullStop",
            Variant::Fullwidth => "Fullwidth",
            Variant::Italic => "Italic",
            Variant::Looped => "Looped",
            Variant::Monospace => "Monospace",
            Variant::NegativeCircled => "NegativeCircled",
            Variant::NegativeSquared => "NegativeSquared",
            Variant::Regional => "Regional",
            Variant::Segmented => "Segmented",
            Variant::Other => "Other",
            Variant::Parenthesized => "Parenthesized",
            Variant::Plain => "Plain",
            Variant::SansSerifBoldItalic => "SansSerifBoldItalic",
            Variant::SansSerifBold => "SansSerifBold",
            Variant::SansSerifItalic => "SansSerifItalic",
            Variant::SansSerif => "SansSerif",
            Variant::MathematicalScript => "MathematicalScript",
            Variant::Script => "Script",
            Variant::SmallCapital => "SmallCapital",
            Variant::Superscript => "Superscript",
            Variant::Subscript => "Subscript",
            Variant::Stretched => "Stretched",
            Variant::Squared => "Squared",
            Variant::Tailed => "Tailed",
            Variant::Wide => "Wide",
        }
    }

    /// The variant whose display name is `s`, ignoring the case of ASCII letters.
    pub fn from_name(s: &str) -> (r: Option<Variant>)
        ensures
            r matches Some(v) ==> same_ignoring_case(s@, variant_name(v)),
            r is None ==> forall|v: Variant| !same_ignoring_case(s@, #[trigger] variant_name(v)),
    {
        let given = chars_of(s);
        let all = Variant::all();
        let mut i: usize = 0;
        while i < all.len()
            invariant
                given@ == s@,
                all@ == all_variants(),
                i <= all@.len(),
                forall|t: int| 0 <= t < i ==> !same_ignoring_case(s@, #[trigger] variant_name(all@[t])),
            decreases all@.len() - i,
        {
            let v = all[i];
            let name = chars_of(v.name());
            if eq_ignoring_case(&given, &name) {
                return Some(v);
            }
            i += 1;
        }
        proof {
            assert forall|v: Variant| !same_ignoring_case(s@, #[trigger] variant_name(v)) by {
                all_variants_are_listed(v);
            }
        }
        None
    }
}

/// The variant that a lowercased Unicode character name designates. The rules are tried in
/// order and the first that matches decides, so that longer, more specific terms win over the
/// terms they contain.
pub open spec fn classify(s: Seq<char>) -> Option<Variant> {
    if has(s, "superscript"@) || has(s, "modifier"@) {
        Some(Variant::Superscript)
    } else if has(s, "subscript"@) {
        Some(Variant::Subscript)
    } else if has(s, "fullwidth"@) {
        Some(Variant::Fullwidth)
    } else if has(s, "small capital"@) {
        Some(Variant::SmallCapital)
    } else if has(s, "sans-serif bold italic"@) {
        Some(Variant::SansSerifBoldItalic)
    } else if has(s, "sans-serif bold"@) {
        Some(Variant::SansSerifBold)
    } else if has(s, "sans-serif italic"@) {
        Some(Variant::SansSerifItalic)
    } else if has(s, "sans-serif"@) {
        Some(Variant::SansSerif)
    } else if has(s, "bold italic"@) {
        Some(Variant::BoldItalic)
    } else if has(s, "bold script"@) {
        Some(Variant::BoldScript)
    } else if has(s, "mathematical script"@) {
        Some(Variant::MathematicalScript)
    } else if s == "planck constant"@ || s == "planck constant over two pi"@ || has(s, "script"@) {
        Some(Variant::Script)
    } else if has(s, "bold fraktur"@) {
        Some(Variant::BoldFraktur)
    } else if has(s, "fraktur"@) || has(s, "black-letter"@) {
        Some(Variant::Fraktur)
    } else if has(s, "double-struck italic"@) || has(s, "doublestruck italic"@) {
        Some(Variant::DoubleStruckItalic)
    } else if has(s, "double-struck"@) || has(s, "doublestruck"@) {
        Some(Variant::DoubleStruck)
    } else if has(s, "bold"@) || has(s, "heavy"@) {
        Some(Variant::Bold)
    } else if has(s, "italic"@) {
        Some(Variant::Italic)
    } else if has(s, "monospace"@) {
        Some(Variant::Monospace)
    } else if has(s, "comma"@) {
        Some(Variant::Comma)
    } else if has(s, "full stop"@) {
        Some(Variant::FullStop)
    } else if has(s, "negative circled"@) {
        Some(Variant::NegativeCircled)
    } else if has(s, "negative squared"@) {
        Some(Variant::NegativeSquared)
    } else if has(s, "circled"@) {
        Some(Variant::Circled)
    } else if has(s, "squared"@) {
        Some(Variant::Squared)
    } else if has(s, "regional"@) {
        Some(Variant::Regional)
    } else if s == "information source"@ || s == "hebrew letter alternative ayin"@ || s == "hebrew letter alternative plus sign"@ {
        Some(Variant::Other)
    } else if has(s, "wide"@) {
        Some(Variant::Wide)
    } else if has(s, "looped"@) {
        Some(Variant::Looped)
    } else if has(s, "stretched"@) {
        Some(Variant::Stretched)
    } else if has(s, "tailed"@) {
        Some(Variant::Tailed)
    } else if has(s, "arabic mathematical initial"@) {
        Some(Variant::ArabicMathematicalInitial)
    } else if has(s, "arabic mathematical"@) {
        Some(Variant::ArabicMathematical)
    } else if has(s, "segmented"@) {
        Some(Variant::Segmented)
    } else if has(s, "parenthesized"@) {
        Some(Variant::Parenthesized)
    } else if has(s, "small"@) {
        Some(Variant::SmallCapital)
    } else {
        None
    }
}

/// `r` is the outcome of classifying the lowercased name `s`: its variant, or an error that
/// holds `s`.
pub open spec fn classified(s: Seq<char>, r: Result<Variant, ParseError>) -> bool {
    match r {
        Ok(v) => classify(s) == Some(v),
        Err(e) => classify(s) is None && e.name@ == s,
    }
}

/// The lowercase form of a string, as `str::to_lowercase` computes it.
pub uninterp spec fn lower_of(s: Seq<char>) -> Seq<char>;

/// Relies on `str::to_lowercase`, which maps each character to its Unicode lowercase form;
/// the result depends on the characters of `s` alone.
#[verifier::external_body]
fn lowercase(s: &str) -> (r: String)
    ensures
        r@ == lower_of(s@),
{
    s.to_lowercase()
}

impl Variant {
    /// Classifies an already lowercased Unicode character name, such as
    /// `"mathematical bold script capital a"`.
    pub fn parse_lowercase_name(name: &str) -> (r: Result<Variant, ParseError>)
        ensures
            classified(name@, r),
    {
        let s = chars_of(name);
        if contains(&s, "superscript") || contains(&s, "modifier") {
            return Ok(Variant::Superscript);
        }
        if contains(&s, "subscript") {
            return Ok(Variant::Subscript);
        }
        if contains(&s, "fullwidth") {
            return Ok(Variant::Fullwidth);
        }
        if contains(&s, "small capital") {
            return Ok(Variant::SmallCapital);
        }
        if contains(&s, "sans-serif bold italic") {
            return Ok(Variant::SansSerifBoldItalic);
        }
        if contains(&s, "sans-serif bold") {
            return Ok(Variant::SansSerifBold);
        }
        if contains(&s, "sans-serif italic") {
            return Ok(Variant::SansSerifItalic);
        }
        if contains(&s, "sans-serif") {
            return Ok(Variant::SansSerif);
        }
        if contains(&s, "bold italic") {
            return Ok(Variant::BoldItalic);
        }
        if contains(&s, "bold script") {
            return Ok(Variant::BoldScript);
        }
        if contains(&s, "mathematical script") {
            return Ok(Variant::MathematicalScript);
        }
        if same(&s, "planck constant") || same(&s, "planck constant over two pi") || contains(&s, "script") {
            return Ok(Variant::Script);
        }
        if contains(&s, "bold fraktur") {
            return Ok(Variant::BoldFraktur);
        }
        if contains(&s, "fraktur") || contains(&s, "black-letter") {
            return Ok(Variant::Fraktur);
        }
        if contains(&s, "double-struck italic") || contains(&s, "doublestruck italic") {
            return Ok(Variant::DoubleStruckItalic);
        }
        if contains(&s, "double-struck") || contains(&s, "doublestruck") {
            return Ok(Variant::DoubleStruck);
        }
        if contains(&s, "bold") || contains(&s, "heavy") {
            return Ok(Variant::Bold);
        }
        if contains(&s, "italic") {
            return Ok(Variant::Italic);
        }
        if contains(&s, "monospace") {
            return Ok(Variant::Monospace);
        }
        if contains(&s, "comma") {
            return Ok(Variant::Comma);
        }
        if contains(&s, "full stop") {
            return Ok(Variant::FullStop);
        }
        if contains(&s, "negative circled") {
            return Ok(Variant::NegativeCircled);
        }
        if contains(&s, "negative squared") {
            return Ok(Variant::NegativeSquared);
        }
        if contains(&s, "circled") {
            return Ok(Variant::Circled);
        }
        if contains(&s, "squared") {
            return Ok(Variant::Squared);
        }
        if contains(&s, "regional") {
            return Ok(Variant::Regional);
        }
        if same(&s, "information source") || same(&s, "hebrew letter alternative ayin") || same(&s, "hebrew letter alternative plus sign") {
            return Ok(Variant::Other);
        }
        if contains(&s, "wide") {
            return Ok(Variant::Wide);
        }
        if contains(&s, "looped") {
            return Ok(Variant::Looped);
        }
        if contains(&s, "stretched") {
            return Ok(Variant::Stretched);
        }
        if contains(&s, "tailed") {
            return Ok(Variant::Tailed);
        }
        if contains(&s, "arabic mathematical initial") {
            return Ok(Variant::ArabicMathematicalInitial);
        }
        if contains(&s, "arabic mathematical") {
            return Ok(Variant::ArabicMathematical);
        }
        if contains(&s, "segmented") {
            return Ok(Variant::Segmented);
        }
        if contains(&s, "parenthesized") {
            return Ok(Variant::Parenthesized);
        }
        if contains(&s, "small") {
            return Ok(Variant::SmallCapital);
        }
        Err(ParseError { name: name.to_owned() })
    }

    /// Classifies a Unicode character name, such as `"MATHEMATICAL BOLD SCRIPT CAPITAL A"`,
    /// after taking it to lower case.
    ///
    /// # Errors
    ///
    /// If no rule matches the name; the error holds the lowercased name.
    pub fn parse_standard_name(s: &str) -> (r: Result<Variant, ParseError>)
        ensures
            classified(lower_of(s@), r),
    {
        let lower = lowercase(s);
        Variant::parse_lowercase_name(lower.as_str())
    }
}

} // verus!
