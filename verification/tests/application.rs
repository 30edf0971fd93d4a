use cosmic_ext_tweaks::application::{App, AppAction};
use cosmic_ext_tweaks::color_schemes::models::ColorScheme;
use cosmic_ext_tweaks::color_schemes::page::{self as schemes, ColorSchemes};
use cosmic_ext_tweaks::config::TweaksConfig;
use cosmic_ext_tweaks::nav::Page;
use cosmic_ext_tweaks::pages::autohide::{AutoHide, PanelConfigValues};
use cosmic_ext_tweaks::pages::date_time::{self, DateTime};
use cosmic_ext_tweaks::pages::dock::{self, Dock};
use cosmic_ext_tweaks::pages::layouts::{self, CreateLayoutDialog, LayoutPreview, Layouts, PanelType, Position};
use cosmic_ext_tweaks::pages::panel::{self, CosmicPanel, Panel};
use cosmic_ext_tweaks::pages::panel_size::PanelSize;
use cosmic_ext_tweaks::pages::shortcuts::{self, ShortcutsGroup, ShortcutsPage};
use cosmic_ext_tweaks::pages::snapshots::{self, SnapshotKind, Snapshots};
use cosmic_ext_tweaks::shell::{Cosmic, DialogPage, Effect, Message};

fn config(name: &str) -> PanelConfigValues {
    PanelConfigValues {
        name: name.to_string(),
        padding: 1,
        margin: 1,
        spacing: 1,
        size: PanelSize::M,
        autohide: None,
    }
}

fn app() -> App {
    let hide = AutoHide { wait_time: 1000, transition_time: 200, handle_size: 4 };
    let (color_schemes, _) = ColorSchemes::new(None, Some(Vec::new()), vec![ColorScheme::new("Dawn".to_string(), "()".to_string())], false);
    App {
        cosmic: Cosmic::new(TweaksConfig::new(None)),
        color_schemes,
        dock: Dock::new(Some(config("Dock")), hide),
        panel: Panel::new(Some(config("Panel")), Some(CosmicPanel { entries: vec!["Panel".to_string()] }), None, hide),
        layouts: Layouts::new(),
        snapshots: Snapshots::new(),
        shortcuts: ShortcutsPage::new(true),
        date_time: DateTime::new(true, None),
    }
}

#[test]
fn page_messages_reach_their_pages() {
    let mut a = app();
    let acts = a.update(Message::Dock(dock::Message::SetSpacing(9)));
    assert!(matches!(acts.as_slice(), [AppAction::Dock(dock::Action::WriteSpacing(9))]));
    assert_eq!(a.dock.spacing, 9);
    let acts = a.update(Message::Panel(panel::Message::SetPadding(3)));
    assert!(matches!(acts.as_slice(), [AppAction::Panel(panel::Action::WritePadding(3))]));
    assert_eq!(a.panel.padding, 3);
    let acts = a.update(Message::Shortcuts(shortcuts::Message::ApplyShortcuts(ShortcutsGroup::Windows)));
    assert!(matches!(acts.as_slice(), [AppAction::Shortcuts(shortcuts::Action::AddGroup(ShortcutsGroup::Windows))]));
    let acts = a.update(Message::DateTime(date_time::Message::Strftime("%H".to_string())));
    assert!(matches!(acts.as_slice(), [AppAction::WriteTimeFormat(f)] if f == "%H"));
    let acts = a.update(Message::Snapshots(snapshots::Message::ReloadSnapshots));
    assert!(matches!(acts.as_slice(), [AppAction::Snapshots(snapshots::Action::List)]));
}

#[test]
fn saving_a_scheme_goes_through_the_dialog() {
    let mut a = app();
    let acts = a.update(Message::ColorSchemes(schemes::Message::SaveCurrentColorScheme(None)));
    assert!(matches!(acts.as_slice(), [AppAction::Window(Effect::FocusDialogInput)]));
    let typed = a.cosmic.dialog_pages[0].with_text("Mine".to_string());
    assert!(a.update(Message::DialogUpdate(typed)).is_empty());
    let acts = a.update(Message::DialogComplete);
    assert!(matches!(acts.as_slice(), [AppAction::ColorSchemes(schemes::Action::ReadCurrentTheme(n))] if n == "Mine"));
    assert!(a.cosmic.dialog_pages.is_empty());
}

#[test]
fn completed_dialogs_reach_pages() {
    let mut a = app();
    a.update(Message::ToggleDialogPage(DialogPage::CreateSnapshot("mine".to_string())));
    let acts = a.update(Message::DialogComplete);
    assert!(matches!(acts.as_slice(), [AppAction::Snapshots(snapshots::Action::Create(n, SnapshotKind::User))] if n == "mine"));
    a.update(Message::ToggleDialogPage(DialogPage::CreateLayout(CreateLayoutDialog::new(
        "L".to_string(),
        LayoutPreview::default(),
        None,
    ))));
    let acts = a.update(Message::UpdatePanelLayoutPosition(Position::Left, "L".to_string(), LayoutPreview::default()));
    assert!(acts.is_empty());
    assert_eq!(a.layouts.panel_position, Position::Left);
    let acts = a.update(Message::DialogComplete);
    match acts.as_slice() {
        [AppAction::Layouts(layouts::Action::Create(n, p))] => {
            assert_eq!(n, "L");
            assert_eq!(p.panel.position, Position::Left);
        }
        other => panic!("unexpected {:?}", other),
    }
    a.update(Message::ToggleDialogPage(DialogPage::ResetPage(Page::Dock)));
    let acts = a.update(Message::DialogComplete);
    assert!(matches!(acts.as_slice(), [AppAction::Window(Effect::ResetPage(Page::Dock))]));
}

#[test]
fn window_requests_are_left_to_the_program() {
    let mut a = app();
    let acts = a.update(Message::Settings(cosmic_ext_tweaks::shell::SettingsMessage::AppTheme(2)));
    assert!(matches!(acts.as_slice(), [AppAction::Window(Effect::SaveConfig(_)), AppAction::Window(Effect::ApplyAppTheme(_))]));
    let acts = a.route(Effect::SelectPosition(PanelType::Dock, Position::Right));
    assert!(acts.is_empty());
    assert_eq!(a.layouts.dock_position, Position::Right);
    let acts = a.update(Message::ColorSchemes(schemes::Message::DeleteColorScheme(
        cosmic_ext_tweaks::color_schemes::models::ColorSchemeKey::Installed("Dawn".to_string()),
    )));
    assert!(acts.is_empty());
    assert!(a.color_schemes.installed.is_empty());
}

#[test]
fn opening_takes_a_snapshot_and_lists_layouts() {
    let hide = AutoHide { wait_time: 1000, transition_time: 200, handle_size: 4 };
    let (color_schemes, _) = ColorSchemes::new(None, Some(Vec::new()), Vec::new(), true);
    let (a, acts) = App::init(
        TweaksConfig::new(None),
        color_schemes,
        Dock::new(None, hide),
        Panel::new(Some(config("Panel")), None, None, hide),
        Layouts::new(),
        Snapshots::new(),
        ShortcutsPage::new(false),
        DateTime::new(false, None),
        "Application opened".to_string(),
    );
    assert!(a.cosmic.dialog_pages.is_empty());
    assert!(matches!(&acts[0], AppAction::Snapshots(snapshots::Action::Create(n, SnapshotKind::System)) if n == "Application opened"));
    assert!(matches!(acts[1], AppAction::Window(Effect::ListLayouts)));
    assert!(matches!(acts[2], AppAction::Window(Effect::SetWindowTitle(None))));
    assert_eq!(acts.len(), 3);
}
