use cosmic_ext_tweaks::color_schemes::models::ColorScheme;
use cosmic_ext_tweaks::color_schemes::page as schemes;
use cosmic_ext_tweaks::config::{AppTheme, Tweak, TweaksSettings};
use cosmic_ext_tweaks::nav::NavPage;
use cosmic_ext_tweaks::pages::panel::{CosmicPanel, CosmicPanelButtonConfig, IndividualConfig, Override};
use cosmic_ext_tweaks::tool::applet::{AppletEffect, AppletMessage, TweakControl, TweaksApplet};
use cosmic_ext_tweaks::tool::manager::{ConfigManager, Message, PanelValues, Write};
use cosmic_ext_tweaks::tool::pages::{Dock, DockMessage, Panel, PanelMessage};
use cosmic_ext_tweaks::tool::window::{FetchStatus, MoreButton, ToolContextPage, ToolDialog, ToolEffect, ToolMessage, TweakTool, PAGE_LIMIT};

fn manager(app_handler: bool, favorites: Vec<Tweak>) -> ConfigManager {
    ConfigManager::new(
        TweaksSettings::config(None, Some(favorites)),
        app_handler,
        true,
        Some(("Dock".to_string(), PanelValues { padding: 3, spacing: 5 })),
        true,
        Some(("Panel".to_string(), PanelValues { padding: 7, spacing: 9 })),
        Some(CosmicPanel { entries: vec!["Panel".to_string()] }),
        Some(CosmicPanelButtonConfig {
            configs: vec![IndividualConfig { name: "Panel".to_string(), force_presentation: Some(Override::Icon) }],
        }),
    )
}

#[test]
fn manager_keeps_configs_of_their_own_name() {
    let m = ConfigManager::new(
        TweaksSettings::config(None, None),
        false,
        true,
        Some(("Panel".to_string(), PanelValues { padding: 1, spacing: 1 })),
        true,
        Some(("Panel".to_string(), PanelValues { padding: 2, spacing: 2 })),
        None,
        None,
    );
    assert_eq!(m.dock_config, None);
    assert_eq!(m.panel_config, Some(PanelValues { padding: 2, spacing: 2 }));
    assert!(m.cosmic_panel_config.entries.is_empty());
    assert!(!m.has_entries_handler);
    assert_eq!(m.panel_button_config.configs.len(), 2);
}

#[test]
fn manager_writes_changes() {
    let mut m = manager(true, vec![]);
    assert!(matches!(m.update(Message::SetDockPadding(8)), Some(Write::DockPadding(8))));
    assert_eq!(m.dock_config, Some(PanelValues { padding: 8, spacing: 5 }));
    assert!(m.update(Message::SetPanelVisibility(true)).is_none());
    match m.update(Message::SetPanelVisibility(false)) {
        Some(Write::Entries(e)) => assert!(e.is_empty()),
        other => panic!("unexpected {:?}", other),
    }
    assert!(m.cosmic_panel_config.entries.is_empty());
    match m.update(Message::SetPanelForcedIcons(false)) {
        Some(Write::ButtonConfigs(c)) => assert_eq!(c[0].force_presentation, None),
        other => panic!("unexpected {:?}", other),
    }
    assert!(matches!(m.set_app_theme(AppTheme::Light), Some(Write::AppTheme(AppTheme::Light))));
    let mut no_handler = manager(false, vec![]);
    assert!(no_handler.set_app_theme(AppTheme::Dark).is_none());
    assert_eq!(no_handler.app_config.app_theme, AppTheme::Dark);
    assert!(no_handler.toggle_favorite(Tweak::DockSpacing).is_none());
    assert_eq!(no_handler.app_config.favorites, vec![Tweak::DockSpacing]);
}

#[test]
fn tool_dock_and_panel_pages() {
    let mut d = Dock::new(manager(true, vec![]));
    assert_eq!((d.padding, d.spacing), (3, 5));
    assert!(matches!(d.update(DockMessage::SetSpacing(12)), Some(Write::DockSpacing(12))));
    assert_eq!(d.spacing, 12);
    match d.update(DockMessage::ToggleFavorite(Tweak::DockPadding)) {
        Some(Write::Favorites(f)) => assert_eq!(f, vec![Tweak::DockPadding]),
        other => panic!("unexpected {:?}", other),
    }
    let mut p = Panel::new(manager(true, vec![]));
    assert!(p.show_panel);
    assert!(p.force_icons);
    assert!(matches!(p.update(PanelMessage::ShowPanel(false)), Some(Write::Entries(_))));
    p.update(PanelMessage::EntriesWritten(false, true));
    assert!(p.show_panel);
    assert!(matches!(p.update(PanelMessage::ForceIcons(false)), Some(Write::ButtonConfigs(_))));
    p.update(PanelMessage::ButtonConfigsWritten(false, true));
    assert!(!p.force_icons);
    let mut bare = Panel::new(ConfigManager::new(TweaksSettings::config(None, None), true, false, None, false, None, None, None));
    assert!(bare.update(PanelMessage::ToggleFavorite(Tweak::PanelShow)).is_none());
    assert!(bare.manager.app_config.favorites.is_empty());
}

#[test]
fn tool_window_fetches_pages() {
    let (mut t, effects) = TweakTool::init(manager(true, vec![]));
    assert!(matches!(effects.as_slice(), [ToolEffect::FetchThemes(PAGE_LIMIT, PAGE_LIMIT)]));
    assert_eq!(t.status, FetchStatus::Loading);
    assert!(t.available_themes().loading);
    t.update(ToolMessage::SetAvailableColorSchemes(vec![ColorScheme::new("a".to_string(), "()".to_string())]));
    assert_eq!(t.status, FetchStatus::Idle);
    assert_eq!(t.available_themes().more, MoreButton::ShowMore(PAGE_LIMIT));
    let e = t.update(ToolMessage::FetchAvailableColorSchemes(PAGE_LIMIT));
    assert!(matches!(e.as_slice(), [ToolEffect::FetchThemes(15, 30)]));
    assert_eq!(t.status, FetchStatus::LoadingMore);
    assert_eq!(t.available_themes().more, MoreButton::Loading);
    t.update(ToolMessage::SetAvailableColorSchemes(vec![ColorScheme::new("b".to_string(), "()".to_string())]));
    assert_eq!(t.available.len(), 2);
    assert_eq!(t.available[1].name, "b");
}

#[test]
fn tool_window_dialog_and_drawer() {
    let (mut t, _) = TweakTool::init(manager(false, vec![]));
    let e = t.update(ToolMessage::ColorSchemes(schemes::Message::SaveCurrentColorScheme(None)));
    assert!(matches!(e.as_slice(), [ToolEffect::FocusDialogInput]));
    let typed = t.dialog_pages[0].with_text("Mine".to_string());
    t.update(ToolMessage::DialogUpdate(typed));
    let e = t.update(ToolMessage::DialogComplete);
    assert!(matches!(e.as_slice(), [ToolEffect::ColorSchemes(schemes::Message::SaveCurrentColorScheme(Some(n)))] if n == "Mine"));
    let e = t.update(ToolMessage::OpenAvailableThemes);
    assert!(matches!(e.as_slice(), [ToolEffect::SetContextTitle(ToolContextPage::AvailableThemes)]));
    assert_eq!(t.context_drawer(), Some(ToolContextPage::AvailableThemes));
    t.update(ToolMessage::OpenAvailableThemes);
    assert_eq!(t.context_drawer(), None);
    let e = t.update(ToolMessage::AppTheme(2));
    assert!(matches!(e.as_slice(), [ToolEffect::ApplyAppTheme(_)]));
    assert_eq!(t.settings(), 2);
    t.update(ToolMessage::NavSelect(NavPage::Dock));
    assert_eq!(t.active_page, NavPage::Dock);
    assert!(matches!(t.update(ToolMessage::OpenSaveDialog).as_slice(), [ToolEffect::FocusDialogInput]));
    assert!(t.update(ToolMessage::DialogCancel).is_empty());
    assert!(t.dialog_pages.is_empty());
    assert_eq!(ToolContextPage::AvailableThemes.title(), "available");
    assert!(matches!(ToolDialog::New(String::new()).with_text("x".to_string()), ToolDialog::New(n) if n == "x"));
}

#[test]
fn applet_controls_follow_favorites() {
    let a = TweaksApplet::init(manager(true, vec![Tweak::PanelShow, Tweak::DockPadding]));
    assert_eq!(a.dock_padding, 3);
    assert_eq!(a.panel_padding, 7);
    assert!(a.panel_show);
    assert!(a.panel_force_icons);
    let controls = a.view_window();
    assert_eq!(controls.len(), 2);
    assert!(matches!(controls[0], TweakControl::Switch("panel-show", true)));
    assert!(matches!(controls[1], TweakControl::Slider("dock-padding", 3)));
    assert!(a.tweak_view(Tweak::PanelSpacing).is_none());
}

#[test]
fn applet_popup_and_writes() {
    let mut a = TweaksApplet::init(manager(true, vec![]));
    let e = a.update(AppletMessage::ToggleReloadedPopup(5));
    assert!(matches!(e.as_slice(), [AppletEffect::ReloadConfig, AppletEffect::OpenPopup(5, l)] if l.max_width == 372 && l.min_height == 200));
    assert_eq!(a.popup, Some(5));
    a.update(AppletMessage::PopupClosed(6));
    assert_eq!(a.popup, Some(5));
    let e = a.update(AppletMessage::TogglePopup(9));
    assert!(matches!(e.as_slice(), [AppletEffect::ClosePopup(5)]));
    assert_eq!(a.popup, None);
    let e = a.update(AppletMessage::SetPanelSpacing(4));
    assert!(matches!(e.as_slice(), [AppletEffect::Write(Write::PanelSpacing(4))]));
    assert_eq!(a.panel_spacing, 4);
    assert!(matches!(a.update(AppletMessage::OpenTweaks).as_slice(), [AppletEffect::LaunchTool]));
    a.update(AppletMessage::Reloaded(manager(true, vec![Tweak::DockSpacing])));
    assert_eq!(a.manager.app_config.favorites, vec![Tweak::DockSpacing]);
}
