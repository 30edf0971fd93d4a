//! Which of the desktop's theme configurations a scheme is written to.

use vstd::prelude::*;

verus! {

/// One of the desktop's two sets of theme configurations.
#[derive(Clone, Copy, Debug, PartialEq, Eq, Structural)]
pub enum ThemeSide {
    Dark,
    Light,
}

/// How a scheme is applied: the mode to switch the desktop to first, if it
/// must change, and the side whose configurations get the scheme's builder and
/// the theme built from it (which keeps the current theme's frosted and
/// transparency settings).
#[derive(Clone, Copy, Debug, PartialEq, Eq, Structural)]
pub struct ApplyPlan {
    pub switch_mode_to: Option<bool>,
    pub side: ThemeSide,
}

/// The side of a mode.
pub open spec fn side_of(is_dark: bool) -> ThemeSide {
    if is_dark { ThemeSide::Dark } else { ThemeSide::Light }
}

/// How to apply a scheme whose palette is dark (or light) while the desktop
/// is in dark (or light) mode: the desktop follows the scheme's mode.
pub fn apply_theme(theme_is_dark: bool, mode_is_dark: bool) -> (p: ApplyPlan)
    ensures
        p.switch_mode_to == (if theme_is_dark != mode_is_dark { Some(theme_is_dark) } else { None }),
        p.side == side_of(theme_is_dark),
{
    let switch_mode_to = if theme_is_dark != mode_is_dark { Some(theme_is_dark) } else { None };
    ApplyPlan { switch_mode_to, side: if theme_is_dark { ThemeSide::Dark } else { ThemeSide::Light } }
}

/// The side whose theme builder is the desktop's current theme.
pub fn get_current_theme(mode_is_dark: bool) -> (s: ThemeSide)
    ensures
        s == side_of(mode_is_dark),
{
    if mode_is_dark { ThemeSide::Dark } else { ThemeSide::Light }
}

/// After a scheme is applied, the desktop's current theme is read from the
/// side it was written to.
pub proof fn lemma_applied_is_current(theme_is_dark: bool, mode_is_dark: bool)
    ensures
        ({
            let mode_after = if theme_is_dark != mode_is_dark { theme_is_dark } else { mode_is_dark };
            side_of(mode_after) == side_of(theme_is_dark)
        }),
{
}

} // verus!
