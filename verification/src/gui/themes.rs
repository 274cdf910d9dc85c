//! The visual themes a front-end can select.

use vstd::prelude::*;

verus! {

/// Available themes.
#[derive(Debug, Clone, Copy, PartialEq, Eq, Hash, Structural)]
pub enum ThemeType {
    Default,
    Dark,
    Light,
    Retro,
    HighContrast,
}

impl ThemeType {
    /// Every theme, in presentation order.
    pub fn all() -> (r: Vec<ThemeType>)
        ensures
            r@.len() == 5,
            r@[0] == ThemeType::Default,
            r@[1] == ThemeType::Dark,
            r@[2] == ThemeType::Light,
            r@[3] == ThemeType::Retro,
            r@[4] == ThemeType::HighContrast,
    {
        let mut v: Vec<ThemeType> = Vec::new();
        v.push(ThemeType::Default);
        v.push(ThemeType::Dark);
        v.push(ThemeType::Light);
        v.push(ThemeType::Retro);
        v.push(ThemeType::HighContrast);
        v
    }

    /// The theme's display name.
    pub fn name(&self) -> (r: &'static str)
        ensures
            r@ == self.name_spec(),
    {
        match self {
            ThemeType::Default => "Default",
            ThemeType::Dark => "Dark",
            ThemeType::Light => "Light",
            ThemeType::Retro => "Retro",
            ThemeType::HighContrast => "High Contrast",
        }
    }

    /// The theme's display name, as a spec value.
    pub open spec fn name_spec(self) -> Seq<char> {
        match self {
            ThemeType::Default => "Default"@,
            ThemeType::Dark => "Dark"@,
            ThemeType::Light => "Light"@,
            ThemeType::Retro => "Retro"@,
            ThemeType::HighContrast => "High Contrast"@,
        }
    }
}

} // verus!
