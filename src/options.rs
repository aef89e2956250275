use vstd::prelude::*;

verus! {

/// The themes that the interface can be drawn in.
#[derive(Debug, Clone, Copy, PartialEq, Eq, Structural)]
pub enum Theme {
    Dark,
    Light,
}

/// The theme the user asked for: an explicit one, or whatever the system uses.
#[derive(Debug, Clone, Copy, PartialEq, Eq, Structural)]
pub enum ThemeChoice {
    Light,
    Dark,
    System,
}

/// The visual appearance settings of the application.
#[derive(Debug, Clone, Copy, PartialEq, Eq, Structural)]
pub struct Appearance {
    /// The current theme choice.
    pub theme_choice: ThemeChoice,
}

/// The theme drawn for a choice, given the theme the system reports, if any:
/// an explicit choice wins, and a system that reports no light theme gets the
/// dark one.
pub open spec fn theme_of(choice: ThemeChoice, system: Option<Theme>) -> Theme {
    match choice {
        ThemeChoice::Light => Theme::Light,
        ThemeChoice::Dark => Theme::Dark,
        ThemeChoice::System => if system == Some(Theme::Light) {
            Theme::Light
        } else {
            Theme::Dark
        },
    }
}

impl Default for ThemeChoice {
    fn default() -> (r: ThemeChoice)
        ensures
            r == ThemeChoice::System,
    {
        ThemeChoice::System
    }
}

impl Default for Appearance {
    fn default() -> (r: Appearance)
        ensures
            r.theme_choice == ThemeChoice::System,
    {
        Appearance { theme_choice: ThemeChoice::default() }
    }
}

impl Appearance {
    /// The theme to draw with, given the theme the system reports, if any.
    pub fn theme(&self, system: Option<Theme>) -> (t: Theme)
        ensures
            t == theme_of(self.theme_choice, system),
    {
        match self.theme_choice {
            ThemeChoice::Light => Theme::Light,
            ThemeChoice::Dark => Theme::Dark,
            ThemeChoice::System => match system {
                Some(Theme::Light) => Theme::Light,
                _ => Theme::Dark,
            },
        }
    }
}

} // verus!
