//! The panel applet: a popup with the tweaks pinned in the tool, each a slider
//! or a switch that writes the desktop's configuration at once.

use vstd::prelude::*;

use super::manager::{manager_step, opt_write, ConfigManager, Message as ManagerMessage, PanelValues, Write, WriteView};
use super::pages::values_or_zero;
use crate::config::Tweak;
use crate::pages::panel::{forces_panel_icons, holds_panel, panel_forced, panel_name, Override};

verus! {

/// The largest padding or spacing a slider of the applet offers.
pub const SLIDER_MAX: u32 = 28;

/// The bounds of the applet's popup.
#[derive(Clone, Copy, Debug, PartialEq, Eq, Structural)]
pub struct PopupLimits {
    pub min_width: u32,
    pub max_width: u32,
    pub min_height: u32,
    pub max_height: u32,
}

/// The applet's state.
#[derive(Debug)]
pub struct TweaksApplet {
    /// The open popup, by its identifier.
    pub popup: Option<u64>,
    pub manager: ConfigManager,
    pub dock_padding: u32,
    pub dock_spacing: u32,
    pub panel_padding: u32,
    pub panel_spacing: u32,
    pub panel_show: bool,
    pub panel_force_icons: bool,
}

/// What the applet is told.
#[derive(Debug)]
pub enum AppletMessage {
    /// Open the popup (under this fresh identifier) or close the open one.
    TogglePopup(u64),
    PopupClosed(u64),
    OpenTweaks,
    SetDockPadding(u32),
    SetDockSpacing(u32),
    SetPanelPadding(u32),
    SetPanelSpacing(u32),
    SetPanelVisibility(bool),
    SetPanelForcedIcons(bool),
    ReloadConfig,
    /// The configurations were read again.
    Reloaded(ConfigManager),
    /// Read the configurations again, then open or close the popup.
    ToggleReloadedPopup(u64),
}

/// What the applet asks of the program, in order.
#[derive(Debug)]
pub enum AppletEffect {
    /// Start the tweak tool.
    LaunchTool,
    OpenPopup(u64, PopupLimits),
    ClosePopup(u64),
    Write(Write),
    /// Read the configurations again and report them with `Reloaded`.
    ReloadConfig,
}

/// A control of the popup.
#[derive(Clone, Copy, Debug)]
pub enum TweakControl {
    /// A slider from zero to `SLIDER_MAX` with its label's key and value.
    Slider(&'static str, u32),
    /// A switch with its label's key and state.
    Switch(&'static str, bool),
}

/// The label key and value of the control of a tweak.
pub open spec fn control_spec(a: TweaksApplet, t: Tweak) -> (Seq<char>, Result<u32, bool>) {
    match t {
        Tweak::DockPadding => ("dock-padding"@, Ok(a.dock_padding)),
        Tweak::DockSpacing => ("dock-spacing"@, Ok(a.dock_spacing)),
        Tweak::PanelPadding => ("panel-padding"@, Ok(a.panel_padding)),
        Tweak::PanelSpacing => ("panel-spacing"@, Ok(a.panel_spacing)),
        Tweak::PanelShow => ("panel-show"@, Err(a.panel_show)),
        Tweak::PanelForceIcons => ("panel-force-icons"@, Err(a.panel_force_icons)),
    }
}

/// The label key and value of a control.
pub open spec fn control_view(c: TweakControl) -> (Seq<char>, Result<u32, bool>) {
    match c {
        TweakControl::Slider(k, v) => (k@, Ok(v)),
        TweakControl::Switch(k, v) => (k@, Err(v)),
    }
}

/// The popup's bounds.
pub open spec fn popup_limits() -> PopupLimits {
    PopupLimits { min_width: 300, max_width: 372, min_height: 200, max_height: 1080 }
}

/// The write asked for, if any, as a list of effects.
fn written(w: Option<Write>) -> (v: Vec<AppletEffect>)
    ensures
        v@ == match w {
            Some(w) => seq![AppletEffect::Write(w)],
            None => Seq::<AppletEffect>::empty(),
        },
{
    let mut v: Vec<AppletEffect> = Vec::new();
    let ghost w0 = w;
    match w {
        Some(w) => v.push(AppletEffect::Write(w)),
        None => {},
    }
    proof {
        match w0 {
            Some(x) => assert(v@ =~= seq![AppletEffect::Write(x)]),
            None => assert(v@ =~= Seq::<AppletEffect>::empty()),
        }
    }
    v
}

/// The write asked for, as a list of writes.
pub open spec fn write_effects(w: Option<Write>) -> Seq<AppletEffect> {
    match w {
        Some(w) => seq![AppletEffect::Write(w)],
        None => Seq::empty(),
    }
}

impl TweaksApplet {
    /// The applet over the configurations read: padding and spacing of the
    /// dock and the panel (zero without their configuration), whether the
    /// panel runs, whether icons are forced on it; no popup open.
    pub fn init(manager: ConfigManager) -> (a: TweaksApplet)
        requires
            manager.wf(),
        ensures
            a.manager@ == manager@,
            a.manager.wf(),
            a.popup is None,
            a.dock_padding == values_or_zero(manager.dock_config).padding,
            a.dock_spacing == values_or_zero(manager.dock_config).spacing,
            a.panel_padding == values_or_zero(manager.panel_config).padding,
            a.panel_spacing == values_or_zero(manager.panel_config).spacing,
            a.panel_show == manager@.entries.contains(panel_name()),
            a.panel_force_icons == (panel_forced(manager@.button_configs) == Some(Override::Icon)),
    {
        let dock = match manager.dock_config {
            Some(v) => v,
            None => PanelValues { padding: 0, spacing: 0 },
        };
        let panel = match manager.panel_config {
            Some(v) => v,
            None => PanelValues { padding: 0, spacing: 0 },
        };
        let panel_show = holds_panel(&manager.cosmic_panel_config.entries);
        let panel_force_icons = forces_panel_icons(&manager.panel_button_config.configs);
        TweaksApplet {
            popup: None,
            manager,
            dock_padding: dock.padding,
            dock_spacing: dock.spacing,
            panel_padding: panel.padding,
            panel_spacing: panel.spacing,
            panel_show,
            panel_force_icons,
        }
    }

    /// The control of a tweak, shown only when the tweak is pinned.
    pub fn tweak_view(&self, tweak: Tweak) -> (c: Option<TweakControl>)
        ensures
            match c {
                Some(c) => self.manager@.favorites.contains(tweak) && control_view(c) == control_spec(*self, tweak),
                None => !self.manager@.favorites.contains(tweak),
            },
    {
        let f = &self.manager.app_config.favorites;
        let n = f.len();
        let mut i: usize = 0;
        let mut found = false;
        while i < n
            invariant
                n == f@.len(),
                i <= n,
                found ==> f@.contains(tweak),
                !found ==> forall|j: int| 0 <= j < i ==> f@[j] != tweak,
            decreases n - i,
        {
            if f[i] == tweak {
                found = true;
            }
            i = i + 1;
        }
        if !found {
            return None;
        }
        Some(self.control(tweak))
    }

    fn control(&self, tweak: Tweak) -> (c: TweakControl)
        ensures
            control_view(c) == control_spec(*self, tweak),
    {
        match tweak {
            Tweak::DockPadding => TweakControl::Slider("dock-padding", self.dock_padding),
            Tweak::DockSpacing => TweakControl::Slider("dock-spacing", self.dock_spacing),
            Tweak::PanelPadding => TweakControl::Slider("panel-padding", self.panel_padding),
            Tweak::PanelSpacing => TweakControl::Slider("panel-spacing", self.panel_spacing),
            Tweak::PanelShow => TweakControl::Switch("panel-show", self.panel_show),
            Tweak::PanelForceIcons => TweakControl::Switch("panel-force-icons", self.panel_force_icons),
        }
    }

    /// The popup's controls: one for each pinned tweak, in the pinned order.
    pub fn view_window(&self) -> (v: Vec<TweakControl>)
        ensures
            v@.len() == self.manager@.favorites.len(),
            forall|i: int| 0 <= i < v@.len() ==> control_view(#[trigger] v@[i]) == control_spec(*self, self.manager@.favorites[i]),
    {
        let f = &self.manager.app_config.favorites;
        let n = f.len();
        let mut out: Vec<TweakControl> = Vec::new();
        let mut i: usize = 0;
        while i < n
            invariant
                n == f@.len(),
                f@ == self.manager@.favorites,
                i <= n,
                out@.len() == i,
                forall|j: int| 0 <= j < i ==> control_view(#[trigger] out@[j]) == control_spec(*self, f@[j]),
            decreases n - i,
        {
            out.push(self.control(f[i]));
            i = i + 1;
        }
        out
    }

    fn toggle_popup(&mut self, new_id: u64) -> (e: AppletEffect)
        ensures
            match old(self).popup {
                Some(p) => final(self).popup is None && e == AppletEffect::ClosePopup(p),
                None => final(self).popup == Some(new_id) && e == AppletEffect::OpenPopup(new_id, popup_limits()),
            },
            final(self).manager == old(self).manager,
            final(self).dock_padding == old(self).dock_padding,
            final(self).dock_spacing == old(self).dock_spacing,
            final(self).panel_padding == old(self).panel_padding,
            final(self).panel_spacing == old(self).panel_spacing,
            final(self).panel_show == old(self).panel_show,
            final(self).panel_force_icons == old(self).panel_force_icons,
    {
        match self.popup {
            Some(p) => {
                self.popup = None;
                AppletEffect::ClosePopup(p)
            },
            None => {
                self.popup = Some(new_id);
                AppletEffect::OpenPopup(new_id, PopupLimits { min_width: 300, max_width: 372, min_height: 200, max_height: 1080 })
            },
        }
    }

    /// Handles a message: a control sets its value here and asks the manager
    /// to change and write the desktop's configuration.
    pub fn update(&mut self, message: AppletMessage) -> (effects: Vec<AppletEffect>)
        requires
            old(self).manager.wf(),
            message matches AppletMessage::Reloaded(m) ==> m.wf(),
        ensures
            final(self).manager.wf(),
            match message {
                AppletMessage::TogglePopup(id) => final(self).manager == old(self).manager && match old(self).popup {
                    Some(p) => final(self).popup is None && effects@ == seq![AppletEffect::ClosePopup(p)],
                    None => final(self).popup == Some(id)
                        && effects@ == seq![AppletEffect::OpenPopup(id, popup_limits())],
                },
                AppletMessage::ToggleReloadedPopup(id) => final(self).manager == old(self).manager
                    && match old(self).popup {
                        Some(p) => final(self).popup is None
                            && effects@ == seq![AppletEffect::ReloadConfig, AppletEffect::ClosePopup(p)],
                        None => final(self).popup == Some(id)
                            && effects@ == seq![AppletEffect::ReloadConfig, AppletEffect::OpenPopup(id, popup_limits())],
                    },
                AppletMessage::PopupClosed(id) => effects@.len() == 0 && final(self).manager == old(self).manager
                    && final(self).popup == (if old(self).popup == Some(id) { None } else { old(self).popup }),
                AppletMessage::OpenTweaks => *final(self) == *old(self) && effects@ == seq![AppletEffect::LaunchTool],
                AppletMessage::ReloadConfig => *final(self) == *old(self) && effects@ == seq![AppletEffect::ReloadConfig],
                AppletMessage::Reloaded(m) => effects@.len() == 0 && final(self).manager == m
                    && final(self).popup == old(self).popup
                    && final(self).dock_padding == old(self).dock_padding
                    && final(self).panel_show == old(self).panel_show,
                AppletMessage::SetDockPadding(v) => final(self).dock_padding == v
                    && exists|w: Option<Write>| effects@ == write_effects(w)
                        && (final(self).manager@, opt_write(w)) == manager_step(old(self).manager@, ManagerMessage::SetDockPadding(v)),
                AppletMessage::SetDockSpacing(v) => final(self).dock_spacing == v
                    && exists|w: Option<Write>| effects@ == write_effects(w)
                        && (final(self).manager@, opt_write(w)) == manager_step(old(self).manager@, ManagerMessage::SetDockSpacing(v)),
                AppletMessage::SetPanelPadding(v) => final(self).panel_padding == v
                    && exists|w: Option<Write>| effects@ == write_effects(w)
                        && (final(self).manager@, opt_write(w)) == manager_step(old(self).manager@, ManagerMessage::SetPanelPadding(v)),
                AppletMessage::SetPanelSpacing(v) => final(self).panel_spacing == v
                    && exists|w: Option<Write>| effects@ == write_effects(w)
                        && (final(self).manager@, opt_write(w)) == manager_step(old(self).manager@, ManagerMessage::SetPanelSpacing(v)),
                AppletMessage::SetPanelVisibility(v) => final(self).panel_show == v
                    && exists|w: Option<Write>| effects@ == write_effects(w)
                        && (final(self).manager@, opt_write(w))
                            == manager_step(old(self).manager@, ManagerMessage::SetPanelVisibility(v)),
                AppletMessage::SetPanelForcedIcons(v) => final(self).panel_force_icons == v
                    && exists|w: Option<Write>| effects@ == write_effects(w)
                        && (final(self).manager@, opt_write(w))
                            == manager_step(old(self).manager@, ManagerMessage::SetPanelForcedIcons(v)),
            },
    {
        match message {
            AppletMessage::OpenTweaks => {
                let v = vec![AppletEffect::LaunchTool];
                assert(v@ =~= seq![AppletEffect::LaunchTool]);
                v
            },
            AppletMessage::ToggleReloadedPopup(id) => {
                let e = self.toggle_popup(id);
                let v = vec![AppletEffect::ReloadConfig, e];
                assert(v@ =~= seq![AppletEffect::ReloadConfig, e]);
                v
            },
            AppletMessage::TogglePopup(id) => {
                let e = self.toggle_popup(id);
                let v = vec![e];
                assert(v@ =~= seq![e]);
                v
            },
            AppletMessage::PopupClosed(id) => {
                match self.popup {
                    Some(p) => if p == id {
                        self.popup = None;
                    },
                    None => {},
                }
                Vec::new()
            },
            AppletMessage::SetDockPadding(v) => {
                self.dock_padding = v;
                let w = self.manager.update(ManagerMessage::SetDockPadding(v));
                let ghost wv = w;
                let r = written(w);
                assert(r@ == write_effects(wv));
                r
            },
            AppletMessage::SetDockSpacing(v) => {
                self.dock_spacing = v;
                let w = self.manager.update(ManagerMessage::SetDockSpacing(v));
                let ghost wv = w;
                let r = written(w);
                assert(r@ == write_effects(wv));
                r
            },
            AppletMessage::SetPanelPadding(v) => {
                self.panel_padding = v;
                let w = self.manager.update(ManagerMessage::SetPanelPadding(v));
                let ghost wv = w;
                let r = written(w);
                assert(r@ == write_effects(wv));
                r
            },
            AppletMessage::SetPanelSpacing(v) => {
                self.panel_spacing = v;
                let w = self.manager.update(ManagerMessage::SetPanelSpacing(v));
                let ghost wv = w;
                let r = written(w);
                assert(r@ == write_effects(wv));
                r
            },
            AppletMessage::SetPanelVisibility(v) => {
                self.panel_show = v;
                let w = self.manager.update(ManagerMessage::SetPanelVisibility(v));
                let ghost wv = w;
                let r = written(w);
                assert(r@ == write_effects(wv));
                r
            },
            AppletMessage::SetPanelForcedIcons(v) => {
                self.panel_force_icons = v;
                let w = self.manager.update(ManagerMessage::SetPanelForcedIcons(v));
                let ghost wv = w;
                let r = written(w);
                assert(r@ == write_effects(wv));
                r
            },
            AppletMessage::ReloadConfig => {
                let v = vec![AppletEffect::ReloadConfig];
                assert(v@ =~= seq![AppletEffect::ReloadConfig]);
                v
            },
            AppletMessage::Reloaded(m) => {
                self.manager = m;
                Vec::new()
            },
        }
    }
}

} // verus!
