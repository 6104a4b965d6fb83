//! The icon themes a user can choose between.

use vstd::prelude::*;

verus! {

/// A set of weather icons. The theme's name is a directory of the icon assets.
#[derive(Clone, Copy, Debug, PartialEq, Eq, Structural)]
pub enum IconTheme {
    Metno,
    Monochrome,
}

impl IconTheme {
    /// The theme's name, as it appears in the settings file and in asset paths.
    pub open spec fn name(self) -> Seq<char> {
        match self {
            IconTheme::Metno => "metno"@,
            IconTheme::Monochrome => "monochrome"@,
        }
    }

    /// Every theme, in the order in which a settings form offers them.
    pub open spec fn all() -> Seq<IconTheme> {
        seq![IconTheme::Metno, IconTheme::Monochrome]
    }

    pub fn to_string(&self) -> (text: String)
        ensures
            text@ == self.name(),
    {
        match self {
            IconTheme::Metno => String::from_str("metno"),
            IconTheme::Monochrome => String::from_str("monochrome"),
        }
    }

    pub fn iterator() -> (themes: Vec<IconTheme>)
        ensures
            themes@ == Self::all(),
    {
        let mut themes: Vec<IconTheme> = Vec::new();
        themes.push(IconTheme::Metno);
        themes.push(IconTheme::Monochrome);
        themes
    }
}

/// Distinct themes have distinct names, so a name read back from a settings
/// file stands for one theme only.
pub proof fn theme_names_distinct(a: IconTheme, b: IconTheme)
    requires
        a.name() == b.name(),
    ensures
        a == b,
{
    reveal_strlit("metno");
    reveal_strlit("monochrome");
    if a != b {
        assert("metno"@.len() == 5);
        assert("monochrome"@.len() == 10);
    }
}

} // verus!
