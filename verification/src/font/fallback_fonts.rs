use vstd::prelude::*;

verus! {

/// The weight and slant of a font.
#[derive(Debug, Copy, Clone)]
pub enum FontStyle {
    Regular,
    Bold,
    Italic,
    BoldItalic,
}

/// The typeface family of a font.
#[derive(Debug, Copy, Clone)]
pub enum FontFamily {
    SansSerif,
    Serif,
    Monospace,
}

/// The bundled Liberation fonts, used when no other font is given.
pub struct FallbackFonts {}

/// The file name of the bundled font for `family` and `style`.
pub open spec fn font_file_name(family: FontFamily, style: FontStyle) -> Seq<char> {
    match family {
        FontFamily::SansSerif => match style {
            FontStyle::Regular => "LiberationSans-Regular.ttf"@,
            FontStyle::Bold => "LiberationSans-Bold.ttf"@,
            FontStyle::Italic => "LiberationSans-Italic.ttf"@,
            FontStyle::BoldItalic => "LiberationSans-BoldItalic.ttf"@,
        },
        FontFamily::Serif => match style {
            FontStyle::Regular => "LiberationSerif-Regular.ttf"@,
            FontStyle::Bold => "LiberationSerif-Bold.ttf"@,
            FontStyle::Italic => "LiberationSerif-Italic.ttf"@,
            FontStyle::BoldItalic => "LiberationSerif-BoldItalic.ttf"@,
        },
        FontFamily::Monospace => match style {
            FontStyle::Regular => "LiberationMono-Regular.ttf"@,
            FontStyle::Bold => "LiberationMono-Bold.ttf"@,
            FontStyle::Italic => "LiberationMono-Italic.ttf"@,
            FontStyle::BoldItalic => "LiberationMono-BoldItalic.ttf"@,
        },
    }
}

impl FallbackFonts {
    /// The file name, inside the bundled font archive, of the font for
    /// `family` and `style`.
    pub fn get_font_name(family: FontFamily, style: FontStyle) -> (r: &'static str)
        ensures
            r@ == font_file_name(family, style),
    {
        match family {
            FontFamily::SansSerif => match style {
                FontStyle::Regular => "LiberationSans-Regular.ttf",
                FontStyle::Bold => "LiberationSans-Bold.ttf",
                FontStyle::Italic => "LiberationSans-Italic.ttf",
                FontStyle::BoldItalic => "LiberationSans-BoldItalic.ttf",
            },
            FontFamily::Serif => match style {
                FontStyle::Regular => "LiberationSerif-Regular.ttf",
                FontStyle::Bold => "LiberationSerif-Bold.ttf",
                FontStyle::Italic => "LiberationSerif-Italic.ttf",
                FontStyle::BoldItalic => "LiberationSerif-BoldItalic.ttf",
            },
            FontFamily::Monospace => match style {
                FontStyle::Regular => "LiberationMono-Regular.ttf",
                FontStyle::Bold => "LiberationMono-Bold.ttf",
                FontStyle::Italic => "LiberationMono-Italic.ttf",
                FontStyle::BoldItalic => "LiberationMono-BoldItalic.ttf",
            },
        }
    }
}

/// Each family and style has a font file of its own: two different
/// combinations never name the same file.
pub proof fn lemma_font_names_distinct(f1: FontFamily, s1: FontStyle, f2: FontFamily, s2: FontStyle)
    requires
        f1 != f2 || s1 != s2,
    ensures
        font_file_name(f1, s1) != font_file_name(f2, s2),
{
    // The length and the twelfth character tell all twelve names apart.
    reveal_strlit("LiberationSans-Regular.ttf");
    assert("LiberationSans-Regular.ttf"@.len() == 26 && "LiberationSans-Regular.ttf"@[11] == 'a');
    reveal_strlit("LiberationSans-Bold.ttf");
    assert("LiberationSans-Bold.ttf"@.len() == 23 && "LiberationSans-Bold.ttf"@[11] == 'a');
    reveal_strlit("LiberationSans-Italic.ttf");
    assert("LiberationSans-Italic.ttf"@.len() == 25 && "LiberationSans-Italic.ttf"@[11] == 'a');
    reveal_strlit("LiberationSans-BoldItalic.ttf");
    assert("LiberationSans-BoldItalic.ttf"@.len() == 29 && "LiberationSans-BoldItalic.ttf"@[11] == 'a');
    reveal_strlit("LiberationSerif-Regular.ttf");
    assert("LiberationSerif-Regular.ttf"@.len() == 27 && "LiberationSerif-Regular.ttf"@[11] == 'e');
    reveal_strlit("LiberationSerif-Bold.ttf");
    assert("LiberationSerif-Bold.ttf"@.len() == 24 && "LiberationSerif-Bold.ttf"@[11] == 'e');
    reveal_strlit("LiberationSerif-Italic.ttf");
    assert("LiberationSerif-Italic.ttf"@.len() == 26 && "LiberationSerif-Italic.ttf"@[11] == 'e');
    reveal_strlit("LiberationSerif-BoldItalic.ttf");
    assert("LiberationSerif-BoldItalic.ttf"@.len() == 30 && "LiberationSerif-BoldItalic.ttf"@[11] == 'e');
    reveal_strlit("LiberationMono-Regular.ttf");
    assert("LiberationMono-Regular.ttf"@.len() == 26 && "LiberationMono-Regular.ttf"@[11] == 'o');
    reveal_strlit("LiberationMono-Bold.ttf");
    assert("LiberationMono-Bold.ttf"@.len() == 23 && "LiberationMono-Bold.ttf"@[11] == 'o');
    reveal_strlit("LiberationMono-Italic.ttf");
    assert("LiberationMono-Italic.ttf"@.len() == 25 && "LiberationMono-Italic.ttf"@[11] == 'o');
    reveal_strlit("LiberationMono-BoldItalic.ttf");
    assert("LiberationMono-BoldItalic.ttf"@.len() == 29 && "LiberationMono-BoldItalic.ttf"@[11] == 'o');
}

} // verus!
