//! Colour-theme selection: the cycle of available themes and their
//! user-visible names. The palettes themselves are presentation data and
//! live with the render layer.

use vstd::prelude::*;

verus! {

#[derive(Debug, Clone, Copy, PartialEq, Eq, Structural)]
pub enum ThemeType {
    Synthwave,
    Ocean,
    Forest,
    Sunset,
    Monochrome,
    Cyberpunk,
}

impl Default for ThemeType {
    fn default() -> (r: Self)
        ensures
            r == ThemeType::Cyberpunk,
    {
        ThemeType::Cyberpunk
    }
}

impl ThemeType {
    /// The successor in the theme cycle; six applications return to the start.
    pub fn next(self) -> (r: Self)
        ensures
            r == self.spec_next(),
    {
        match self {
            ThemeType::Synthwave => ThemeType::Ocean,
            ThemeType::Ocean => ThemeType::Forest,
            ThemeType::Forest => ThemeType::Sunset,
            ThemeType::Sunset => ThemeType::Monochrome,
            ThemeType::Monochrome => ThemeType::Cyberpunk,
            ThemeType::Cyberpunk => ThemeType::Synthwave,
        }
    }

    pub open spec fn spec_next(self) -> Self {
        match self {
            ThemeType::Synthwave => ThemeType::Ocean,
            ThemeType::Ocean => ThemeType::Forest,
            ThemeType::Forest => ThemeType::Sunset,
            ThemeType::Sunset => ThemeType::Monochrome,
            ThemeType::Monochrome => ThemeType::Cyberpunk,
            ThemeType::Cyberpunk => ThemeType::Synthwave,
        }
    }

    /// The name under which the theme is shown and stored.
    pub fn name(self) -> (r: &'static str)
        ensures
            r@ == self.spec_name(),
    {
        proof {
            reveal_strlit("Synthwave");
            reveal_strlit("Ocean");
            reveal_strlit("Forest");
            reveal_strlit("Sunset");
            reveal_strlit("Mono");
            reveal_strlit("Cyberpunk");
        }
        match self {
            ThemeType::Synthwave => "Synthwave",
            ThemeType::Ocean => "Ocean",
            ThemeType::Forest => "Forest",
            ThemeType::Sunset => "Sunset",
            ThemeType::Monochrome => "Mono",
            ThemeType::Cyberpunk => "Cyberpunk",
        }
    }

    pub open spec fn spec_name(self) -> Seq<char> {
        match self {
            ThemeType::Synthwave => "Synthwave"@,
            ThemeType::Ocean => "Ocean"@,
            ThemeType::Forest => "Forest"@,
            ThemeType::Sunset => "Sunset"@,
            ThemeType::Monochrome => "Mono"@,
            ThemeType::Cyberpunk => "Cyberpunk"@,
        }
    }
}

} // verus!
