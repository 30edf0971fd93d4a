use vstd::prelude::*;

verus! {

/// The version of the tool's configuration.
pub const CONFIG_VERSION: u64 = 1;

/// The application identifier, also the name of its configuration.
pub const APP_ID: &'static str = "dev.edfloreshz.CosmicTweaks";

/// The theme the tool's own window uses.
#[derive(Clone, Copy, Debug, PartialEq, Eq, Structural)]
pub enum AppTheme {
    Dark,
    Light,
    System,
}

/// The palette a theme starts from.
#[derive(Clone, Copy, Debug, PartialEq, Eq, Structural)]
pub enum ThemeBase {
    SystemDark,
    SystemLight,
    SystemPreference,
}

/// How to build the window's theme: a base palette and, for a forced mode,
/// whether it prefers dark.
#[derive(Clone, Copy, Debug, PartialEq, Eq, Structural)]
pub struct ThemeSpec {
    pub base: ThemeBase,
    pub prefer_dark: Option<bool>,
}

/// How the window's theme is built for an application theme.
pub open spec fn theme_spec(t: AppTheme) -> ThemeSpec {
    match t {
        AppTheme::Dark => ThemeSpec { base: ThemeBase::SystemDark, prefer_dark: Some(true) },
        AppTheme::Light => ThemeSpec { base: ThemeBase::SystemLight, prefer_dark: Some(false) },
        AppTheme::System => ThemeSpec { base: ThemeBase::SystemPreference, prefer_dark: None },
    }
}

/// The item of the theme menu (match desktop, dark, light) that selects a theme.
pub open spec fn theme_index(t: AppTheme) -> usize {
    match t {
        AppTheme::System => 0,
        AppTheme::Dark => 1,
        AppTheme::Light => 2,
    }
}

/// The theme a menu item selects; items past the list select matching the desktop.
pub open spec fn theme_of_index(i: usize) -> AppTheme {
    if i == 1 {
        AppTheme::Dark
    } else if i == 2 {
        AppTheme::Light
    } else {
        AppTheme::System
    }
}

impl AppTheme {
    /// The theme a configuration without one uses: match the desktop.
    pub fn default() -> (t: AppTheme)
        ensures
            t == AppTheme::System,
    {
        AppTheme::System
    }

    /// How to build the window's theme: the desktop's dark or light palette,
    /// forced to that mode, or the desktop's preference.
    pub fn theme(&self) -> (s: ThemeSpec)
        ensures
            s == theme_spec(*self),
    {
        match self {
            AppTheme::Dark => ThemeSpec { base: ThemeBase::SystemDark, prefer_dark: Some(true) },
            AppTheme::Light => ThemeSpec { base: ThemeBase::SystemLight, prefer_dark: Some(false) },
            AppTheme::System => ThemeSpec { base: ThemeBase::SystemPreference, prefer_dark: None },
        }
    }

    /// The item of the theme menu showing this theme.
    pub fn index(&self) -> (i: usize)
        ensures
            i == theme_index(*self),
    {
        match self {
            AppTheme::Dark => 1,
            AppTheme::Light => 2,
            AppTheme::System => 0,
        }
    }

    /// The theme the menu item `index` selects.
    pub fn from_index(index: usize) -> (t: AppTheme)
        ensures
            t == theme_of_index(index),
    {
        match index {
            1 => AppTheme::Dark,
            2 => AppTheme::Light,
            _ => AppTheme::System,
        }
    }
}

/// The localization keys of the theme menu's items, in order.
pub fn app_theme_labels() -> (v: Vec<&'static str>)
    ensures
        v@.len() == 3,
        v@[0]@ == "match-desktop"@,
        v@[1]@ == "dark"@,
        v@[2]@ == "light"@,
{
    vec!["match-desktop", "dark", "light"]
}

/// The palette a theme is built from agrees with the mode it prefers: dark
/// builds from the dark palette and prefers dark, light from the light palette
/// and prefers light, and matching the desktop follows the desktop's
/// preference and forces no mode.
pub proof fn lemma_palette_agrees_with_mode(t: AppTheme)
    ensures
        theme_spec(t).base == ThemeBase::SystemDark <==> theme_spec(t).prefer_dark == Some(true),
        theme_spec(t).base == ThemeBase::SystemLight <==> theme_spec(t).prefer_dark == Some(false),
        theme_spec(t).base == ThemeBase::SystemPreference <==> theme_spec(t).prefer_dark is None,
        t == AppTheme::Dark <==> theme_spec(t).prefer_dark == Some(true),
        t == AppTheme::Light <==> theme_spec(t).prefer_dark == Some(false),
        t == AppTheme::System <==> theme_spec(t).prefer_dark is None,
{
}

/// Picking the menu item that shows a theme selects that theme again.
pub proof fn lemma_theme_index_round_trip(t: AppTheme)
    ensures
        theme_of_index(theme_index(t)) == t,
        theme_index(t) < 3,
{
}

/// Each of the three menu items shows the theme it selects.
pub proof fn lemma_index_theme_round_trip(i: usize)
    requires
        i < 3,
    ensures
        theme_index(theme_of_index(i)) == i,
{
}

/// The tool's configuration.
#[derive(Clone, Copy, Debug, PartialEq, Eq, Structural)]
pub struct TweaksConfig {
    pub app_theme: AppTheme,
}

impl TweaksConfig {
    /// The configuration read from the store: the stored theme, or matching
    /// the desktop where none could be read.
    pub open spec fn spec_new(stored_theme: Option<AppTheme>) -> TweaksConfig {
        TweaksConfig {
            app_theme: match stored_theme {
                Some(t) => t,
                None => AppTheme::System,
            },
        }
    }

    /// The configuration read from the store: the stored theme, or matching
    /// the desktop where none could be read.
    pub fn new(stored_theme: Option<AppTheme>) -> (c: TweaksConfig)
        ensures
            c == Self::spec_new(stored_theme),
    {
        match stored_theme {
            Some(t) => TweaksConfig { app_theme: t },
            None => TweaksConfig { app_theme: AppTheme::default() },
        }
    }
}

/// What the tool starts with: its configuration as read.
#[derive(Clone, Copy, Debug, PartialEq, Eq, Structural)]
pub struct Flags {
    pub config: TweaksConfig,
}

/// The start-up values from the stored theme setting, if one could be read.
pub fn flags(stored_theme: Option<AppTheme>) -> (f: Flags)
    ensures
        f.config == TweaksConfig::spec_new(stored_theme),
{
    Flags { config: TweaksConfig::new(stored_theme) }
}

/// The smallest size of the tool's window.
#[derive(Clone, Copy, Debug, PartialEq, Eq, Structural)]
pub struct WindowLimits {
    pub min_width: u32,
    pub min_height: u32,
}

/// The window settings: at least 360 wide and 180 high.
pub fn settings() -> (w: WindowLimits)
    ensures
        w == (WindowLimits { min_width: 360, min_height: 180 }),
{
    WindowLimits { min_width: 360, min_height: 180 }
}

/// A tweak that can be pinned to the panel applet.
#[derive(Clone, Copy, Debug, PartialEq, Eq, Structural)]
pub enum Tweak {
    DockPadding,
    DockSpacing,
    PanelShow,
    PanelForceIcons,
    PanelPadding,
    PanelSpacing,
}

/// The favorites after the star of a tweak is clicked: a pinned tweak is
/// unpinned (its first occurrence removed), another one is pinned at the end.
pub open spec fn toggled_favorites(f: Seq<Tweak>, t: Tweak) -> Seq<Tweak> {
    if f.contains(t) {
        f.remove(f.index_of_first(t)->0)
    } else {
        f.push(t)
    }
}

/// Pins or unpins a tweak.
pub fn toggle_favorite(favorites: &Vec<Tweak>, tweak: Tweak) -> (r: Vec<Tweak>)
    ensures
        r@ == toggled_favorites(favorites@, tweak),
{
    let mut out = favorites.clone();
    let n = out.len();
    let mut i: usize = 0;
    while i < n
        invariant
            n == out@.len(),
            out@ == favorites@,
            i <= n,
            forall|j: int| 0 <= j < i ==> out@[j] != tweak,
        decreases n - i,
    {
        if out[i] == tweak {
            proof {
                let f = favorites@;
                assert(f.contains(tweak));
                f.index_of_first_ensures(tweak);
                let k = f.index_of_first(tweak)->0;
                if k < i { assert(f[k] != tweak); }
                assert(k == i);
            }
            out.remove(i);
            return out;
        }
        i = i + 1;
    }
    out.push(tweak);
    out
}

/// The settings of the tool with pinned tweaks.
#[derive(Debug)]
pub struct TweaksSettings {
    pub app_theme: AppTheme,
    pub favorites: Vec<Tweak>,
}

impl TweaksSettings {
    /// The settings read from the store: each value as stored, or its default
    /// (matching the desktop, nothing pinned) where it could not be read.
    pub fn config(stored_theme: Option<AppTheme>, stored_favorites: Option<Vec<Tweak>>) -> (s: TweaksSettings)
        ensures
            s.app_theme == match stored_theme {
                Some(t) => t,
                None => AppTheme::System,
            },
            s.favorites@ == match stored_favorites {
                Some(f) => f@,
                None => Seq::empty(),
            },
    {
        let app_theme = match stored_theme {
            Some(t) => t,
            None => AppTheme::System,
        };
        let favorites = match stored_favorites {
            Some(f) => f,
            None => Vec::new(),
        };
        TweaksSettings { app_theme, favorites }
    }

    /// Pins or unpins a tweak.
    pub fn toggle_favorite(&mut self, tweak: Tweak)
        ensures
            final(self).app_theme == old(self).app_theme,
            final(self).favorites@ == toggled_favorites(old(self).favorites@, tweak),
    {
        self.favorites = toggle_favorite(&self.favorites, tweak);
    }
}

/// Clicking the star of a tweak twice, from a list where it appears at most
/// once, gives the list back when the tweak was pinned at the end or not at all.
pub proof fn lemma_toggle_twice(f: Seq<Tweak>, t: Tweak)
    requires
        !f.contains(t),
    ensures
        toggled_favorites(toggled_favorites(f, t), t) == f,
{
    let g = f.push(t);
    assert(g[f.len() as int] == t);
    assert(g.contains(t));
    g.index_of_first_ensures(t);
    let k = g.index_of_first(t)->0;
    if k < f.len() {
        assert(g[k] == f[k]);
        assert(f.contains(t));
    }
    assert(k == f.len());
    assert(g.remove(k) =~= f);
}

} // verus!
