//! The light and dark colour schemes of the dashboard.
use vstd::prelude::*;

verus! {

/// Colour scheme of the dashboard.
#[derive(Clone, Copy, Debug, PartialEq, Eq, Structural)]
pub enum Theme {
    Light,
    Dark,
}

impl Theme {
    /// The scheme the theme button switches to.
    pub open spec fn spec_toggled(self) -> Theme {
        match self {
            Theme::Light => Theme::Dark,
            Theme::Dark => Theme::Light,
        }
    }

    /// Switches light to dark and dark to light.
    pub fn toggled(self) -> (t: Theme)
        ensures
            t == self.spec_toggled(),
    {
        match self {
            Theme::Light => Theme::Dark,
            Theme::Dark => Theme::Light,
        }
    }

    /// Background of the whole page.
    pub fn page_background(self) -> (c: &'static str)
        ensures
            c@ == (if self == Theme::Dark {
                "rgb(30, 30, 30)"@
            } else {
                "rgb(233, 233, 233)"@
            }),
    {
        match self {
            Theme::Dark => "rgb(30, 30, 30)",
            Theme::Light => "rgb(233, 233, 233)",
        }
    }

    /// Background of the control card.
    pub fn card_background(self) -> (c: &'static str)
        ensures
            c@ == (if self == Theme::Dark {
                "rgb(23, 23, 23)"@
            } else {
                "white"@
            }),
    {
        match self {
            Theme::Dark => "rgb(23, 23, 23)",
            Theme::Light => "white",
        }
    }

    /// Colour of the rotation label on the control card.
    pub fn card_text_color(self) -> (c: &'static str)
        ensures
            c@ == (if self == Theme::Dark {
                "white"@
            } else {
                "rgb(23, 23, 23)"@
            }),
    {
        match self {
            Theme::Dark => "white",
            Theme::Light => "rgb(23, 23, 23)",
        }
    }

    /// Colour of a part controller's title and contraction label.
    pub fn controller_text_color(self) -> (c: &'static str)
        ensures
            c@ == (if self == Theme::Dark {
                "white"@
            } else {
                "#333"@
            }),
    {
        match self {
            Theme::Dark => "white",
            Theme::Light => "#333",
        }
    }

    /// Fill of a body part that is neither selected nor under the pointer.
    pub fn idle_part_fill(self) -> (c: &'static str)
        ensures
            c@ == (if self == Theme::Dark {
                "white"@
            } else {
                "black"@
            }),
    {
        match self {
            Theme::Dark => "white",
            Theme::Light => "black",
        }
    }

    /// Drawing of the upper body, under `/assets/`.
    pub fn body_image(self) -> (c: &'static str)
        ensures
            c@ == (if self == Theme::Dark {
                "upper-body-white.svg"@
            } else {
                "upper-body.svg"@
            }),
    {
        match self {
            Theme::Dark => "upper-body-white.svg",
            Theme::Light => "upper-body.svg",
        }
    }

    /// Opacity of the sun icon of the theme button: shown in the dark
    /// scheme, hidden in the light one.
    pub fn sun_opacity(self) -> (o: u8)
        ensures
            o == (if self == Theme::Dark {
                1u8
            } else {
                0u8
            }),
    {
        match self {
            Theme::Dark => 1,
            Theme::Light => 0,
        }
    }

    /// Opacity of the moon icon of the theme button: shown in the light
    /// scheme, hidden in the dark one.
    pub fn moon_opacity(self) -> (o: u8)
        ensures
            o == (if self == Theme::Dark {
                0u8
            } else {
                1u8
            }),
    {
        match self {
            Theme::Dark => 0,
            Theme::Light => 1,
        }
    }
}

/// Switching the theme twice gives back the theme one started with, and
/// switching it once always changes it.
pub proof fn law_theme_toggle_involution(t: Theme)
    ensures
        t.spec_toggled().spec_toggled() == t,
        t.spec_toggled() != t,
{
}

} // verus!
