use cosmic_ext_tweaks::color_schemes::page as schemes;
use cosmic_ext_tweaks::config::{AppTheme, ThemeBase, TweaksConfig};
use cosmic_ext_tweaks::keys::{Key, Modifiers};
use cosmic_ext_tweaks::nav::{ContextPage, Page};
use cosmic_ext_tweaks::pages::dock;
use cosmic_ext_tweaks::pages::layouts::{self, CreateLayoutDialog, LayoutPreview, PanelType, Position};
use cosmic_ext_tweaks::pages::snapshots::{self, SnapshotKind};
use cosmic_ext_tweaks::shell::{footer_buttons, Cosmic, DialogPage, Effect, FooterButton, Message, SettingsMessage};

fn shell() -> Cosmic {
    Cosmic::new(TweaksConfig::new(None))
}

fn ctrl() -> Modifiers {
    Modifiers { shift: false, control: true, alt: false, logo: false }
}

#[test]
fn new_shell_and_startup() {
    let s = shell();
    assert!(s.dialog_pages.is_empty());
    assert_eq!(s.context_drawer(), None);
    assert_eq!(s.active_page, Page::ColorSchemes);
    let e = Cosmic::startup("opened".to_string());
    assert!(matches!(&e[0], Effect::Snapshots(snapshots::Message::CreateSnapshot(n, SnapshotKind::System)) if n == "opened"));
    assert!(matches!(e[1], Effect::ListLayouts));
    assert!(matches!(e[2], Effect::SetWindowTitle(None)));
}

#[test]
fn drawer_toggles() {
    let mut s = shell();
    s.update(Message::ToggleContextPage(ContextPage::Settings));
    assert_eq!(s.context_drawer(), Some(ContextPage::Settings));
    s.update(Message::ToggleContextPage(ContextPage::Settings));
    assert_eq!(s.context_drawer(), None);
    s.update(Message::ToggleContextPage(ContextPage::About));
    s.update(Message::ToggleContextPage(ContextPage::Settings));
    assert_eq!(s.context_drawer(), Some(ContextPage::Settings));
    s.update(Message::ToggleContextDrawer);
    assert_eq!(s.context_drawer(), None);
}

#[test]
fn shortcut_keys_toggle_drawer() {
    let mut s = shell();
    assert!(s.update(Message::Key(ctrl(), Key::Character("i".to_string()))).is_empty());
    assert_eq!(s.context_drawer(), Some(ContextPage::About));
    s.update(Message::Key(ctrl(), Key::Character(",".to_string())));
    assert_eq!(s.context_drawer(), Some(ContextPage::Settings));
    s.update(Message::Key(Modifiers::empty(), Key::Character(",".to_string())));
    assert_eq!(s.context_drawer(), Some(ContextPage::Settings));
    s.update(Message::Modifiers(ctrl()));
    assert_eq!(s.modifiers, ctrl());
}

#[test]
fn page_messages_are_forwarded() {
    let mut s = shell();
    let e = s.update(Message::Dock(dock::Message::SetPadding(3)));
    assert!(matches!(e.as_slice(), [Effect::Dock(dock::Message::SetPadding(3))]));
    let e = s.update(Message::ColorSchemes(schemes::Message::FetchAvailableColorSchemes));
    assert!(matches!(e.as_slice(), [Effect::ColorSchemes(schemes::Message::FetchAvailableColorSchemes)]));
    assert!(s.dialog_pages.is_empty());
}

#[test]
fn save_scheme_dialog_round_trip() {
    let mut s = shell();
    let e = s.update(Message::ColorSchemes(schemes::Message::SaveCurrentColorScheme(None)));
    assert!(matches!(e.as_slice(), [Effect::FocusDialogInput]));
    assert!(matches!(&s.dialog_pages[0], DialogPage::SaveCurrentColorScheme(n) if n.is_empty()));
    let typed = s.dialog_pages[0].with_text("Night".to_string());
    s.update(Message::DialogUpdate(typed));
    let e = s.update(Message::DialogComplete);
    assert!(matches!(e.as_slice(), [Effect::ColorSchemes(schemes::Message::SaveCurrentColorScheme(Some(n)))] if n == "Night"));
    assert!(s.dialog_pages.is_empty());
    assert!(s.update(Message::DialogComplete).is_empty());
}

#[test]
fn dialogs_are_answered_in_order() {
    let mut s = shell();
    s.update(Message::ToggleDialogPage(DialogPage::CreateSnapshot("first".to_string())));
    s.update(Message::ToggleDialogPage(DialogPage::ResetPage(Page::Dock)));
    let e = s.update(Message::DialogComplete);
    assert!(matches!(e.as_slice(), [Effect::Snapshots(snapshots::Message::CreateSnapshot(n, SnapshotKind::User))] if n == "first"));
    let e = s.update(Message::DialogComplete);
    assert!(matches!(e.as_slice(), [Effect::ResetPage(Page::Dock)]));
    s.update(Message::ToggleDialogPage(DialogPage::CreateSnapshot("x".to_string())));
    assert!(s.update(Message::DialogCancel).is_empty());
    assert!(s.dialog_pages.is_empty());
}

#[test]
fn layout_dialog_with_error_is_shown_again() {
    let mut s = shell();
    let d = CreateLayoutDialog::new(String::new(), LayoutPreview::default(), None);
    let press = DialogPage::CreateLayout(d).primary_message("name required".to_string());
    let shown = match press {
        Message::DialogUpdate(p) => p,
        other => panic!("unexpected {:?}", other),
    };
    s.update(Message::ToggleDialogPage(shown));
    let e = s.update(Message::DialogComplete);
    assert!(matches!(e.as_slice(), [Effect::FocusDialogInput]));
    assert_eq!(s.dialog_pages.len(), 1);
    let named = s.dialog_pages[0].with_text("Mine".to_string());
    assert!(matches!(&named, DialogPage::CreateLayout(d) if d.name == "Mine" && d.error.as_deref() == Some("name required")));
    let ok = DialogPage::CreateLayout(CreateLayoutDialog::new("Mine".to_string(), LayoutPreview::default(), None));
    assert!(matches!(ok.primary_message("e".to_string()), Message::DialogComplete));
    s.update(Message::DialogUpdate(ok));
    let e = s.update(Message::DialogComplete);
    assert!(matches!(e.as_slice(), [Effect::Layouts(layouts::Message::Create(n, _))] if n == "Mine"));
}

#[test]
fn position_pick_updates_front_dialog() {
    let mut s = shell();
    s.update(Message::ToggleDialogPage(DialogPage::CreateLayout(CreateLayoutDialog::new(
        "L".to_string(),
        LayoutPreview::default(),
        Some("old error".to_string()),
    ))));
    let e = s.update(Message::UpdateDockLayoutPosition(Position::Right, "L".to_string(), LayoutPreview::default()));
    assert!(matches!(e.as_slice(), [Effect::SelectPosition(PanelType::Dock, Position::Right)]));
    match &s.dialog_pages[0] {
        DialogPage::CreateLayout(d) => {
            assert_eq!(d.preview.dock.position, Position::Right);
            assert_eq!(d.preview.panel.position, Position::Top);
            assert!(d.error.is_none());
        }
        other => panic!("unexpected {:?}", other),
    }
}

#[test]
fn app_theme_is_saved_and_applied() {
    let mut s = shell();
    let e = s.update(Message::Settings(SettingsMessage::AppTheme(1)));
    assert_eq!(s.config.app_theme, AppTheme::Dark);
    match e.as_slice() {
        [Effect::SaveConfig(c), Effect::ApplyAppTheme(t)] => {
            assert_eq!(c.app_theme, AppTheme::Dark);
            assert_eq!(t.base, ThemeBase::SystemDark);
        }
        other => panic!("unexpected {:?}", other),
    }
    let e = s.update(Message::Settings(SettingsMessage::ConfigUpdate(TweaksConfig::new(Some(AppTheme::Light)))));
    assert_eq!(s.config.app_theme, AppTheme::Light);
    assert!(matches!(e.as_slice(), [Effect::ApplyAppTheme(t)] if t.prefer_dark == Some(false)));
    s.update(Message::Settings(SettingsMessage::AppTheme(1)));
    let e = s.update(Message::SystemThemeModeChange);
    assert!(matches!(e.as_slice(), [Effect::ApplyAppTheme(t)] if t.prefer_dark == Some(true)));
    let e = s.update(Message::Open("https://example.org".to_string()));
    assert!(matches!(e.as_slice(), [Effect::OpenUrl(u)] if u == "https://example.org"));
    let e = s.update(Message::NavSelect(Page::Panel));
    assert_eq!(s.active_page, Page::Panel);
    assert!(matches!(e.as_slice(), [Effect::SetWindowTitle(Some(Page::Panel))]));
}

#[test]
fn footers() {
    assert_eq!(
        footer_buttons(Page::Layouts, Some(true)),
        vec![
            FooterButton::SaveCurrentLayout,
            FooterButton::ApplyLayout,
            FooterButton::DeleteLayout,
            FooterButton::ResetToDefaults(Page::Layouts)
        ]
    );
    assert_eq!(
        footer_buttons(Page::Layouts, Some(false)),
        vec![FooterButton::SaveCurrentLayout, FooterButton::ApplyLayout, FooterButton::ResetToDefaults(Page::Layouts)]
    );
    assert_eq!(
        footer_buttons(Page::Layouts, None),
        vec![FooterButton::SaveCurrentLayout, FooterButton::ResetToDefaults(Page::Layouts)]
    );
    assert_eq!(footer_buttons(Page::Snapshots, None), vec![FooterButton::CreateSnapshot]);
    assert_eq!(footer_buttons(Page::Panel, None), vec![FooterButton::ResetToDefaults(Page::Panel)]);
    assert!(footer_buttons(Page::DateTime, None).is_empty());
    assert_eq!(FooterButton::ResetToDefaults(Page::Dock).label_key(), "reset-to-defaults");
    assert!(matches!(FooterButton::ResetToDefaults(Page::Dock).message(), Message::ToggleDialogPage(DialogPage::ResetPage(Page::Dock))));
    assert!(matches!(FooterButton::ApplyLayout.message(), Message::Layouts(layouts::Message::Apply)));
    match FooterButton::SaveCurrentLayout.message() {
        Message::ToggleDialogPage(DialogPage::CreateLayout(d)) => {
            assert!(d.name.is_empty());
            assert_eq!(d.preview, LayoutPreview::default());
        }
        other => panic!("unexpected {:?}", other),
    }
}

#[test]
fn dialog_shows_the_front_page_with_cancel() {
    let mut s = shell();
    assert!(s.dialog("empty".to_string()).is_none());
    s.update(Message::ToggleDialogPage(DialogPage::CreateSnapshot("one".to_string())));
    s.update(Message::ToggleDialogPage(DialogPage::SaveCurrentColorScheme("two".to_string())));
    let shown = s.dialog("empty".to_string()).unwrap();
    assert!(matches!(&shown.page, DialogPage::CreateSnapshot(n) if n == "one"));
    assert!(matches!(shown.primary, Message::DialogComplete));
    assert!(matches!(shown.cancel, Message::DialogCancel));
    let mut l = shell();
    l.update(Message::ToggleDialogPage(DialogPage::CreateLayout(CreateLayoutDialog::new(
        String::new(),
        LayoutPreview::default(),
        None,
    ))));
    let shown = l.dialog("layout-name-empty".to_string()).unwrap();
    assert!(matches!(&shown.primary, Message::DialogUpdate(DialogPage::CreateLayout(d)) if d.error.as_deref() == Some("layout-name-empty")));
    assert!(matches!(shown.cancel, Message::DialogCancel));
}

#[test]
fn new_shell_has_navigation_themes_and_shortcuts() {
    let s = shell();
    let pages: Vec<Page> = s.nav_model.iter().map(|e| e.page).collect();
    assert_eq!(pages, Page::all());
    assert_eq!(s.nav_model[0].title, "color-schemes");
    assert_eq!(s.nav_model[0].icon.name, "dark-mode-symbolic");
    assert_eq!(s.app_themes, vec!["match-desktop", "dark", "light"]);
    assert_eq!(s.key_binds.len(), 2);
    assert!(matches!(&s.key_binds[0].bind.key, Key::Character(k) if k == ","));
    assert!(matches!(&s.key_binds[1].bind.key, Key::Character(k) if k == "i"));
}
