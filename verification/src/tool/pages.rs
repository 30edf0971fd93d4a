//! The dock and panel pages of the standalone tweak tool, where each tweak can
//! also be pinned to the panel applet.

use vstd::prelude::*;

use super::manager::{manager_step, opt_write, ConfigManager, ManagerView, Message as ManagerMessage, PanelValues, Write, WriteView};
use crate::config::{toggled_favorites, Tweak};
use crate::pages::panel::{forces_panel_icons, holds_panel, panel_forced, panel_name, Override};

verus! {

/// The dock page of the tool.
#[derive(Debug)]
pub struct Dock {
    pub manager: ConfigManager,
    pub padding: u32,
    pub spacing: u32,
}

/// What the tool's dock page is told.
#[derive(Debug, Clone, Copy)]
pub enum DockMessage {
    SetPadding(u32),
    SetSpacing(u32),
    ToggleFavorite(Tweak),
}

/// The padding and spacing read, or zero without a configuration.
pub open spec fn values_or_zero(c: Option<PanelValues>) -> PanelValues {
    match c {
        Some(v) => v,
        None => PanelValues { padding: 0, spacing: 0 },
    }
}

/// The manager after a tweak is pinned or unpinned, and what it writes.
pub open spec fn favorite_step(m: ManagerView, t: Tweak) -> (ManagerView, Option<WriteView>) {
    let f = toggled_favorites(m.favorites, t);
    (ManagerView { favorites: f, ..m }, if m.has_app_handler { Some(WriteView::Favorites(f)) } else { None })
}

fn read_or_zero(c: Option<PanelValues>) -> (v: PanelValues)
    ensures
        v == values_or_zero(c),
{
    match c {
        Some(v) => v,
        None => PanelValues { padding: 0, spacing: 0 },
    }
}

impl Dock {
    /// The page over the configurations read: the dock's padding and spacing,
    /// or zero without the dock's configuration.
    pub fn new(manager: ConfigManager) -> (d: Dock)
        ensures
            d.manager@ == manager@,
            d.padding == values_or_zero(manager.dock_config).padding,
            d.spacing == values_or_zero(manager.dock_config).spacing,
    {
        let v = read_or_zero(manager.dock_config);
        Dock { manager, padding: v.padding, spacing: v.spacing }
    }

    /// Handles a message; without the dock's configuration and a handle to
    /// it nothing happens, not even pinning.
    pub fn update(&mut self, message: DockMessage) -> (w: Option<Write>)
        requires
            old(self).manager.wf(),
        ensures
            final(self).manager.wf(),
            !(old(self).manager.has_dock_handler && old(self).manager.dock_config is Some) ==> final(self).manager@
                == old(self).manager@ && final(self).padding == old(self).padding
                && final(self).spacing == old(self).spacing && w is None,
            (old(self).manager.has_dock_handler && old(self).manager.dock_config is Some) ==> match message {
                DockMessage::SetPadding(v) => final(self).padding == v && final(self).spacing == old(self).spacing
                    && (final(self).manager@, opt_write(w)) == manager_step(old(self).manager@, ManagerMessage::SetDockPadding(v)),
                DockMessage::SetSpacing(v) => final(self).spacing == v && final(self).padding == old(self).padding
                    && (final(self).manager@, opt_write(w)) == manager_step(old(self).manager@, ManagerMessage::SetDockSpacing(v)),
                DockMessage::ToggleFavorite(t) => final(self).padding == old(self).padding
                    && final(self).spacing == old(self).spacing
                    && (final(self).manager@, opt_write(w)) == favorite_step(old(self).manager@, t),
            },
    {
        if !(self.manager.has_dock_handler && self.manager.dock_config.is_some()) {
            return None;
        }
        match message {
            DockMessage::SetPadding(v) => {
                self.padding = v;
                self.manager.update(ManagerMessage::SetDockPadding(v))
            },
            DockMessage::SetSpacing(v) => {
                self.spacing = v;
                self.manager.update(ManagerMessage::SetDockSpacing(v))
            },
            DockMessage::ToggleFavorite(t) => self.manager.toggle_favorite(t),
        }
    }
}

/// The panel page of the tool.
#[derive(Debug)]
pub struct Panel {
    pub manager: ConfigManager,
    pub padding: u32,
    pub spacing: u32,
    pub show_panel: bool,
    pub force_icons: bool,
}

/// What the tool's panel page is told.
#[derive(Debug, Clone, Copy)]
pub enum PanelMessage {
    SetPadding(u32),
    SetSpacing(u32),
    ShowPanel(bool),
    ForceIcons(bool),
    ToggleFavorite(Tweak),
    /// The panel list written for `ShowPanel(show)` was stored, or not.
    EntriesWritten(bool, bool),
    /// The button configurations written for `ForceIcons(force)` were stored, or not.
    ButtonConfigsWritten(bool, bool),
}

impl Panel {
    /// The page over the configurations read: the panel's padding and
    /// spacing (zero without its configuration), whether the panel runs and
    /// whether icons are forced on it.
    pub fn new(manager: ConfigManager) -> (p: Panel)
        requires
            manager.wf(),
        ensures
            p.manager@ == manager@,
            p.manager.wf(),
            p.padding == values_or_zero(manager.panel_config).padding,
            p.spacing == values_or_zero(manager.panel_config).spacing,
            p.show_panel == manager@.entries.contains(panel_name()),
            p.force_icons == (panel_forced(manager@.button_configs) == Some(Override::Icon)),
    {
        let v = read_or_zero(manager.panel_config);
        let show_panel = holds_panel(&manager.cosmic_panel_config.entries);
        let force_icons = forces_panel_icons(&manager.panel_button_config.configs);
        Panel { manager, padding: v.padding, spacing: v.spacing, show_panel, force_icons }
    }

    /// Handles a message; without the panel's configuration and a handle to
    /// it, requests do nothing. A stored panel list sets the shown flag to
    /// the opposite of the request; stored button configurations set the
    /// forced flag to the request.
    pub fn update(&mut self, message: PanelMessage) -> (w: Option<Write>)
        requires
            old(self).manager.wf(),
        ensures
            final(self).manager.wf(),
            match message {
                PanelMessage::EntriesWritten(show, ok) => w is None && final(self).manager@ == old(self).manager@
                    && final(self).padding == old(self).padding && final(self).spacing == old(self).spacing
                    && final(self).force_icons == old(self).force_icons
                    && final(self).show_panel == (if ok { !show } else { old(self).show_panel }),
                PanelMessage::ButtonConfigsWritten(force, ok) => w is None && final(self).manager@ == old(self).manager@
                    && final(self).padding == old(self).padding && final(self).spacing == old(self).spacing
                    && final(self).show_panel == old(self).show_panel
                    && final(self).force_icons == (if ok { force } else { old(self).force_icons }),
                _ => final(self).show_panel == old(self).show_panel && final(self).force_icons == old(self).force_icons
                    && if !(old(self).manager.has_panel_handler && old(self).manager.panel_config is Some) {
                        final(self).manager@ == old(self).manager@ && final(self).padding == old(self).padding
                            && final(self).spacing == old(self).spacing && w is None
                    } else {
                        match message {
                            PanelMessage::SetPadding(v) => final(self).padding == v && final(self).spacing == old(self).spacing
                                && (final(self).manager@, opt_write(w))
                                    == manager_step(old(self).manager@, ManagerMessage::SetPanelPadding(v)),
                            PanelMessage::SetSpacing(v) => final(self).spacing == v && final(self).padding == old(self).padding
                                && (final(self).manager@, opt_write(w))
                                    == manager_step(old(self).manager@, ManagerMessage::SetPanelSpacing(v)),
                            PanelMessage::ShowPanel(show) => final(self).padding == old(self).padding
                                && final(self).spacing == old(self).spacing
                                && (final(self).manager@, opt_write(w))
                                    == manager_step(old(self).manager@, ManagerMessage::SetPanelVisibility(show)),
                            PanelMessage::ForceIcons(force) => final(self).padding == old(self).padding
                                && final(self).spacing == old(self).spacing
                                && (final(self).manager@, opt_write(w))
                                    == manager_step(old(self).manager@, ManagerMessage::SetPanelForcedIcons(force)),
                            PanelMessage::ToggleFavorite(t) => final(self).padding == old(self).padding
                                && final(self).spacing == old(self).spacing
                                && (final(self).manager@, opt_write(w)) == favorite_step(old(self).manager@, t),
                            _ => true,
                        }
                    },
            },
    {
        match message {
            PanelMessage::EntriesWritten(show, ok) => {
                if ok {
                    self.show_panel = !show;
                }
                return None;
            },
            PanelMessage::ButtonConfigsWritten(force, ok) => {
                if ok {
                    self.force_icons = force;
                }
                return None;
            },
            _ => {},
        }
        if !(self.manager.has_panel_handler && self.manager.panel_config.is_some()) {
            return None;
        }
        match message {
            PanelMessage::SetPadding(v) => {
                self.padding = v;
                self.manager.update(ManagerMessage::SetPanelPadding(v))
            },
            PanelMessage::SetSpacing(v) => {
                self.spacing = v;
                self.manager.update(ManagerMessage::SetPanelSpacing(v))
            },
            PanelMessage::ShowPanel(show) => self.manager.update(ManagerMessage::SetPanelVisibility(show)),
            PanelMessage::ForceIcons(force) => self.manager.update(ManagerMessage::SetPanelForcedIcons(force)),
            PanelMessage::ToggleFavorite(t) => self.manager.toggle_favorite(t),
            _ => None,
        }
    }
}

} // verus!
