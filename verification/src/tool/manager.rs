//! The configurations the standalone tweak tool and its panel applet read and
//! write: the tool's own settings, the dock's and the panel's spacing, the
//! list of running panels and the forced button presentations.

use vstd::prelude::*;

use crate::config::{toggled_favorites, toggle_favorite, AppTheme, Tweak, TweaksSettings};
use crate::pages::panel::{
    button_view, copy_configs, copy_entries, distinct_panels, entries_after, forced_for,
    panel_entries_after, panel_forced_as, texts, with_panel_forced, CosmicPanel, CosmicPanelButtonConfig, IndividualConfig, Override,
};
use crate::strings::same_text;

verus! {

/// What the tool reads of a panel's or the dock's configuration.
#[derive(Clone, Copy, Debug, PartialEq, Eq, Structural)]
pub struct PanelValues {
    pub padding: u32,
    pub spacing: u32,
}

/// The configurations read, with whether a handle to write each is held.
#[derive(Debug)]
pub struct ConfigManager {
    pub has_app_handler: bool,
    pub app_config: TweaksSettings,
    pub has_dock_handler: bool,
    pub dock_config: Option<PanelValues>,
    pub has_panel_handler: bool,
    pub panel_config: Option<PanelValues>,
    pub has_entries_handler: bool,
    /// The names of the panels the desktop runs.
    pub cosmic_panel_config: CosmicPanel,
    pub has_button_handler: bool,
    pub panel_button_config: CosmicPanelButtonConfig,
}

/// The value of a configuration manager.
pub struct ManagerView {
    pub has_app_handler: bool,
    pub app_theme: AppTheme,
    pub favorites: Seq<Tweak>,
    pub has_dock_handler: bool,
    pub dock_config: Option<PanelValues>,
    pub has_panel_handler: bool,
    pub panel_config: Option<PanelValues>,
    pub has_entries_handler: bool,
    pub entries: Seq<Seq<char>>,
    pub has_button_handler: bool,
    pub button_configs: Seq<(Seq<char>, Option<Override>)>,
}

impl View for ConfigManager {
    type V = ManagerView;

    open spec fn view(&self) -> ManagerView {
        ManagerView {
            has_app_handler: self.has_app_handler,
            app_theme: self.app_config.app_theme,
            favorites: self.app_config.favorites@,
            has_dock_handler: self.has_dock_handler,
            dock_config: self.dock_config,
            has_panel_handler: self.has_panel_handler,
            panel_config: self.panel_config,
            has_entries_handler: self.has_entries_handler,
            entries: texts(self.cosmic_panel_config.entries@),
            has_button_handler: self.has_button_handler,
            button_configs: button_view(self.panel_button_config.configs@),
        }
    }
}

/// What the manager is asked to change.
#[derive(Debug, Clone, Copy)]
pub enum Message {
    SetDockPadding(u32),
    SetDockSpacing(u32),
    SetPanelPadding(u32),
    SetPanelSpacing(u32),
    SetPanelVisibility(bool),
    SetPanelForcedIcons(bool),
}

/// A value the program must write to the desktop's configuration.
#[derive(Debug)]
pub enum Write {
    DockPadding(u32),
    DockSpacing(u32),
    PanelPadding(u32),
    PanelSpacing(u32),
    /// The list of running panels.
    Entries(Vec<String>),
    ButtonConfigs(Vec<IndividualConfig>),
    /// The tool's own theme setting.
    AppTheme(AppTheme),
    /// The tool's pinned tweaks.
    Favorites(Vec<Tweak>),
}

/// The value of a write.
pub enum WriteView {
    DockPadding(u32),
    DockSpacing(u32),
    PanelPadding(u32),
    PanelSpacing(u32),
    Entries(Seq<Seq<char>>),
    ButtonConfigs(Seq<(Seq<char>, Option<Override>)>),
    AppTheme(AppTheme),
    Favorites(Seq<Tweak>),
}

impl View for Write {
    type V = WriteView;

    open spec fn view(&self) -> WriteView {
        match self {
            Write::DockPadding(v) => WriteView::DockPadding(*v),
            Write::DockSpacing(v) => WriteView::DockSpacing(*v),
            Write::PanelPadding(v) => WriteView::PanelPadding(*v),
            Write::PanelSpacing(v) => WriteView::PanelSpacing(*v),
            Write::Entries(e) => WriteView::Entries(texts(e@)),
            Write::ButtonConfigs(c) => WriteView::ButtonConfigs(button_view(c@)),
            Write::AppTheme(t) => WriteView::AppTheme(*t),
            Write::Favorites(f) => WriteView::Favorites(f@),
        }
    }
}

/// The value of an optional write.
pub open spec fn opt_write(w: Option<Write>) -> Option<WriteView> {
    match w {
        Some(w) => Some(w@),
        None => None,
    }
}

/// How the manager answers a request. The dock's and the panel's values are
/// changed and written only when their configuration was read and can be
/// written; the panel list and the button configurations are changed and
/// written only when a handle to write them is held, and the list only when
/// the request changes it.
pub open spec fn manager_step(m: ManagerView, msg: Message) -> (ManagerView, Option<WriteView>) {
    match msg {
        Message::SetDockPadding(v) => match m.dock_config {
            Some(c) => if m.has_dock_handler {
                (ManagerView { dock_config: Some(PanelValues { padding: v, ..c }), ..m }, Some(WriteView::DockPadding(v)))
            } else {
                (m, None)
            },
            None => (m, None),
        },
        Message::SetDockSpacing(v) => match m.dock_config {
            Some(c) => if m.has_dock_handler {
                (ManagerView { dock_config: Some(PanelValues { spacing: v, ..c }), ..m }, Some(WriteView::DockSpacing(v)))
            } else {
                (m, None)
            },
            None => (m, None),
        },
        Message::SetPanelPadding(v) => match m.panel_config {
            Some(c) => if m.has_panel_handler {
                (ManagerView { panel_config: Some(PanelValues { padding: v, ..c }), ..m }, Some(WriteView::PanelPadding(v)))
            } else {
                (m, None)
            },
            None => (m, None),
        },
        Message::SetPanelSpacing(v) => match m.panel_config {
            Some(c) => if m.has_panel_handler {
                (ManagerView { panel_config: Some(PanelValues { spacing: v, ..c }), ..m }, Some(WriteView::PanelSpacing(v)))
            } else {
                (m, None)
            },
            None => (m, None),
        },
        Message::SetPanelVisibility(show) => match entries_after(m.entries, show) {
            Some(e) => if m.has_entries_handler {
                (ManagerView { entries: e, ..m }, Some(WriteView::Entries(e)))
            } else {
                (m, None)
            },
            None => (m, None),
        },
        Message::SetPanelForcedIcons(force) => if m.has_button_handler {
            let c = with_panel_forced(m.button_configs, forced_for(force));
            (ManagerView { button_configs: c, ..m }, Some(WriteView::ButtonConfigs(c)))
        } else {
            (m, None)
        },
    }
}

/// The values of a configuration read for a panel, kept only when it is the
/// configuration of the panel of that name.
pub open spec fn named_values(read: Option<(Seq<char>, PanelValues)>, name: Seq<char>) -> Option<PanelValues> {
    match read {
        Some((n, v)) => if n == name { Some(v) } else { None },
        None => None,
    }
}

/// The values read for the panel called `name`, if those are its own.
fn values_named(read: Option<(String, PanelValues)>, name: &str) -> (r: Option<PanelValues>)
    ensures
        r == named_values(match read {
            Some((n, v)) => Some((n@, v)),
            None => None,
        }, name@),
{
    match read {
        Some((n, v)) => if same_text(n.as_str(), name) {
            Some(v)
        } else {
            None
        },
        None => None,
    }
}

/// The text of a read configuration's name, with its values.
pub open spec fn read_view(read: Option<(String, PanelValues)>) -> Option<(Seq<char>, PanelValues)> {
    match read {
        Some((n, v)) => Some((n@, v)),
        None => None,
    }
}

impl ConfigManager {
    /// The button configurations are one per panel.
    pub open spec fn wf(self) -> bool {
        distinct_panels(button_view(self.panel_button_config.configs@))
    }

    /// The manager from what could be read. `dock` and `panel` are the
    /// configurations read under the dock's and the panel's name (with the
    /// name they carry), kept only when that name is theirs; the panel list
    /// and the button configurations are `None` when no handle to them could
    /// be made, and are then empty and the defaults.
    pub fn new(
        app_config: TweaksSettings,
        has_app_handler: bool,
        has_dock_handler: bool,
        dock: Option<(String, PanelValues)>,
        has_panel_handler: bool,
        panel: Option<(String, PanelValues)>,
        cosmic_panel_config: Option<CosmicPanel>,
        panel_button_config: Option<CosmicPanelButtonConfig>,
    ) -> (m: ConfigManager)
        requires
            panel_button_config matches Some(c) ==> distinct_panels(button_view(c.configs@)),
        ensures
            m.wf(),
            m@.has_app_handler == has_app_handler,
            m@.app_theme == app_config.app_theme,
            m@.favorites == app_config.favorites@,
            m@.has_dock_handler == has_dock_handler,
            m@.dock_config == named_values(read_view(dock), "Dock"@),
            m@.has_panel_handler == has_panel_handler,
            m@.panel_config == named_values(read_view(panel), "Panel"@),
            m@.has_entries_handler == cosmic_panel_config is Some,
            m@.entries == match cosmic_panel_config {
                Some(e) => texts(e.entries@),
                None => Seq::<Seq<char>>::empty(),
            },
            m@.has_button_handler == panel_button_config is Some,
            m@.button_configs == match panel_button_config {
                Some(c) => button_view(c.configs@),
                None => seq![("Panel"@, None::<Override>), ("Dock"@, Some(Override::Icon))],
            },
    {
        let dock_config = values_named(dock, "Dock");
        let panel_config = values_named(panel, "Panel");
        let has_entries_handler = cosmic_panel_config.is_some();
        let cosmic_panel_config = match cosmic_panel_config {
            Some(e) => e,
            None => CosmicPanel::default(),
        };
        assert(cosmic_panel_config.entries@.len() == 0 ==> texts(cosmic_panel_config.entries@) =~= Seq::<Seq<char>>::empty());
        let has_button_handler = panel_button_config.is_some();
        let panel_button_config = match panel_button_config {
            Some(c) => c,
            None => CosmicPanelButtonConfig::default(),
        };
        ConfigManager {
            has_app_handler,
            app_config,
            has_dock_handler,
            dock_config,
            has_panel_handler,
            panel_config,
            has_entries_handler,
            cosmic_panel_config,
            has_button_handler,
            panel_button_config,
        }
    }

    /// Changes a value as `manager_step` says and gives what to write.
    pub fn update(&mut self, message: Message) -> (w: Option<Write>)
        requires
            old(self).wf(),
        ensures
            final(self).wf(),
            (final(self)@, opt_write(w)) == manager_step(old(self)@, message),
    {
        match message {
            Message::SetDockPadding(v) => {
                if self.has_dock_handler {
                    match self.dock_config {
                        Some(c) => {
                            self.dock_config = Some(PanelValues { padding: v, ..c });
                            return Some(Write::DockPadding(v));
                        },
                        None => {},
                    }
                }
                None
            },
            Message::SetDockSpacing(v) => {
                if self.has_dock_handler {
                    match self.dock_config {
                        Some(c) => {
                            self.dock_config = Some(PanelValues { spacing: v, ..c });
                            return Some(Write::DockSpacing(v));
                        },
                        None => {},
                    }
                }
                None
            },
            Message::SetPanelPadding(v) => {
                if self.has_panel_handler {
                    match self.panel_config {
                        Some(c) => {
                            self.panel_config = Some(PanelValues { padding: v, ..c });
                            return Some(Write::PanelPadding(v));
                        },
                        None => {},
                    }
                }
                None
            },
            Message::SetPanelSpacing(v) => {
                if self.has_panel_handler {
                    match self.panel_config {
                        Some(c) => {
                            self.panel_config = Some(PanelValues { spacing: v, ..c });
                            return Some(Write::PanelSpacing(v));
                        },
                        None => {},
                    }
                }
                None
            },
            Message::SetPanelVisibility(show) => {
                match panel_entries_after(&self.cosmic_panel_config.entries, show) {
                    Some(e) => if self.has_entries_handler {
                        let written = copy_entries(&e);
                        self.cosmic_panel_config.entries = e;
                        Some(Write::Entries(written))
                    } else {
                        None
                    },
                    None => None,
                }
            },
            Message::SetPanelForcedIcons(force) => {
                if self.has_button_handler {
                    let value = if force { Some(Override::Icon) } else { None };
                    let c = panel_forced_as(&self.panel_button_config.configs, value);
                    let written = copy_configs(&c);
                    self.panel_button_config.configs = c;
                    Some(Write::ButtonConfigs(written))
                } else {
                    None
                }
            },
        }
    }

    /// Stores the tool's theme setting: it is always changed here, and
    /// written when a handle to the tool's settings is held.
    pub fn set_app_theme(&mut self, theme: AppTheme) -> (w: Option<Write>)
        ensures
            final(self)@ == (ManagerView { app_theme: theme, ..old(self)@ }),
            opt_write(w) == (if old(self).has_app_handler { Some(WriteView::AppTheme(theme)) } else { None }),
    {
        self.app_config.app_theme = theme;
        if self.has_app_handler {
            Some(Write::AppTheme(theme))
        } else {
            None
        }
    }

    /// Pins or unpins a tweak: the favorites are always changed here, and
    /// written when a handle to the tool's settings is held.
    pub fn toggle_favorite(&mut self, tweak: Tweak) -> (w: Option<Write>)
        ensures
            final(self)@ == (ManagerView { favorites: toggled_favorites(old(self)@.favorites, tweak), ..old(self)@ }),
            opt_write(w) == (if old(self).has_app_handler {
                Some(WriteView::Favorites(toggled_favorites(old(self)@.favorites, tweak)))
            } else {
                None
            }),
    {
        let f = toggle_favorite(&self.app_config.favorites, tweak);
        let written = f.clone();
        self.app_config.favorites = f;
        if self.has_app_handler {
            Some(Write::Favorites(written))
        } else {
            None
        }
    }
}

} // verus!
