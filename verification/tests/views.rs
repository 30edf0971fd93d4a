use cosmic_ext_tweaks::color_schemes::import::system_scheme;
use cosmic_ext_tweaks::config::app_theme_labels;
use cosmic_ext_tweaks::nav::{view_menu, MenuEntry, TweaksAction};
use cosmic_ext_tweaks::color_schemes::apply::{apply_theme, get_current_theme, ThemeSide};
use cosmic_ext_tweaks::color_schemes::cards::{sort_choices, TabContent};
use cosmic_ext_tweaks::color_schemes::import::{checked_import_target, import_target, imported_scheme, ImportError};
use cosmic_ext_tweaks::color_schemes::models::{ColorScheme, ColorSchemeKey, SortBy, Source, Tab};
use cosmic_ext_tweaks::color_schemes::page::{ColorSchemes, Message};
use cosmic_ext_tweaks::keys::{Key, Modifiers};
use cosmic_ext_tweaks::pages::autohide::{AutoHide, PanelConfigValues};
use cosmic_ext_tweaks::pages::controls::Unit;
use cosmic_ext_tweaks::pages::dock::Dock;
use cosmic_ext_tweaks::pages::panel::Panel;
use cosmic_ext_tweaks::pages::panel_size::PanelSize;
use cosmic_ext_tweaks::pages::snapshots::{self, Snapshot, SnapshotKind, Snapshots};
use cosmic_ext_tweaks::shell::{subscription, Event, Message as ShellMessage, SettingsMessage};
use cosmic_ext_tweaks::config::{flags, AppTheme, TweaksConfig};
use cosmic_ext_tweaks::color_schemes::remote::CosmicTheme;

fn autohide() -> AutoHide {
    AutoHide { wait_time: 1000, transition_time: 200, handle_size: 8 }
}

#[test]
fn import_targets() {
    assert_eq!(import_target(&Vec::new()).unwrap_err(), ImportError::NoUri);
    assert_eq!(import_target(&vec!["not a url".to_string()]).unwrap_err(), ImportError::InvalidUrl);
    assert_eq!(import_target(&vec!["https://example.org/a.ron".to_string()]).unwrap_err(), ImportError::NotAFile);
    assert_eq!(import_target(&vec!["file://remote-host/a.ron".to_string()]).unwrap_err(), ImportError::NoFilePath);
    let t = import_target(&vec!["file:///home/me/Night%20Sky.ron".to_string(), "file:///x.ron".to_string()]).unwrap();
    assert_eq!(t.path, "/home/me/Night Sky.ron");
    assert_eq!(t.name, "Night Sky");
    assert_eq!(t.file_name, "Night Sky.ron");
    // a file URL of a path with no file name cannot be imported
    assert!(checked_import_target(&vec!["file:///".to_string()]).is_none());
    assert!(checked_import_target(&Vec::new()).is_some());
    let hidden = checked_import_target(&vec!["file:///a/.hidden".to_string()]).unwrap().unwrap();
    assert_eq!((hidden.name.as_str(), hidden.file_name.as_str()), (".hidden", ".hidden"));
    let two_dots = checked_import_target(&vec!["file:///a/x.tar.ron".to_string()]).unwrap().unwrap();
    assert_eq!(two_dots.name, "x.tar");
    let c = imported_scheme(&t, "(theme)".to_string(), "/data/themes/cosmic/Night Sky.ron".to_string());
    assert_eq!(c.name, "Night Sky");
    assert_eq!(c.theme, "(theme)");
    assert_eq!(c.source, Some(Source::ImportedFromPath));
    assert_eq!(c.path, Some("/data/themes/cosmic/Night Sky.ron".to_string()));
}

#[test]
fn events_become_messages() {
    let ctrl = Modifiers { shift: false, control: true, alt: false, logo: false };
    assert!(matches!(subscription(Event::KeyPressed(ctrl, Key::Other)), Some(ShellMessage::Key(m, Key::Other)) if m == ctrl));
    assert!(matches!(subscription(Event::ModifiersChanged(ctrl)), Some(ShellMessage::Modifiers(_))));
    assert!(matches!(
        subscription(Event::ConfigChanged(TweaksConfig::new(Some(AppTheme::Dark)))),
        Some(ShellMessage::Settings(SettingsMessage::ConfigUpdate(c))) if c.app_theme == AppTheme::Dark
    ));
    assert!(matches!(subscription(Event::ThemeModeChanged), Some(ShellMessage::SystemThemeModeChange)));
    assert!(subscription(Event::Other).is_none());
}

#[test]
fn applying_follows_the_scheme_mode() {
    let p = apply_theme(true, false);
    assert_eq!(p.switch_mode_to, Some(true));
    assert_eq!(p.side, ThemeSide::Dark);
    let p = apply_theme(false, false);
    assert_eq!(p.switch_mode_to, None);
    assert_eq!(p.side, ThemeSide::Light);
    // what was applied is what is read back
    assert_eq!(get_current_theme(p.switch_mode_to.unwrap_or(false)), p.side);
    assert_eq!(get_current_theme(apply_theme(true, false).switch_mode_to.unwrap()), ThemeSide::Dark);
}

#[test]
fn dock_and_panel_controls() {
    let values = |name: &str| PanelConfigValues {
        name: name.to_string(),
        padding: 4,
        margin: 2,
        spacing: 6,
        size: PanelSize::Custom(70),
        autohide: None,
    };
    let d = Dock::new(Some(values("Dock")), autohide());
    let (main, animation) = d.controls();
    assert_eq!(main.len(), 3);
    assert_eq!((main[0].label_key, main[0].max, main[0].value), ("padding", 28, 4));
    assert_eq!((main[1].label_key, main[1].max, main[1].value), ("margin", 20, 2));
    assert_eq!(animation[0].marks, vec![1000, 2000, 3000]);
    assert_eq!(animation[0].unit, Unit::Milliseconds);
    assert_eq!((animation[2].min, animation[2].max, animation[2].step), (4, 32, 4));
    let p = Panel::new(Some(values("Panel")), None, None, autohide());
    let c = p.controls();
    assert_eq!(c.size.value, 68);
    assert_eq!(c.size_label, "L+1");
    assert_eq!(c.size.marks, vec![32, 40, 56, 64, 96]);
    assert_eq!(c.sliders[0].max, 20);
    assert!(!c.show_panel);
}

fn scheme(name: &str) -> ColorScheme {
    ColorScheme::new(name.to_string(), "()".to_string())
}

#[test]
fn tab_contents() {
    let (mut p, _) = ColorSchemes::new(None, None, Vec::new(), false);
    assert!(matches!(p.tab_content(&Vec::new()), TabContent::Empty("no-color-schemes-installed")));
    p.update(Message::TabSelected(Tab::Available));
    assert!(matches!(p.tab_content(&Vec::new()), TabContent::Loading));
    p.update(Message::SetAvailableColorSchemes(Vec::new()));
    assert!(matches!(p.tab_content(&Vec::new()), TabContent::Empty("no-color-schemes-found")));
    p.update(Message::SetAvailableColorSchemes(vec![scheme("b"), scheme("a")]));
    p.update(Message::SortBy(SortBy::Az));
    // the collator ranks "b" after "a"
    match p.tab_content(&vec![1, 0]) {
        TabContent::Grid(keys) => {
            assert!(matches!(keys.as_slice(), [ColorSchemeKey::Available(1), ColorSchemeKey::Available(0)]))
        }
        other => panic!("unexpected {:?}", other),
    }
    assert_eq!(sort_choices(), vec![SortBy::Az, SortBy::MostDownloaded, SortBy::LastModified, SortBy::Author]);
}

#[test]
fn snapshot_rows() {
    let mut s = Snapshots::new();
    assert!(s.rows().is_empty());
    s.update(snapshots::Message::Listed(vec![Snapshot {
        id: 1,
        name: "opened".to_string(),
        kind: SnapshotKind::System,
        created: 60,
        schema: None,
    }]));
    let rows = s.rows();
    assert_eq!(rows.len(), 1);
    assert_eq!(rows[0].name, "opened");
    assert_eq!(rows[0].kind_key, "system");
    assert_eq!(rows[0].created, Some("1970-01-01 00:01:00".to_string()));
}

#[test]
fn menus_and_labels() {
    assert_eq!(app_theme_labels(), vec!["match-desktop", "dark", "light"]);
    let m = view_menu();
    assert!(matches!(m[0], MenuEntry::Button("settings", "settings-symbolic", TweaksAction::Settings)));
    assert!(matches!(m[1], MenuEntry::Divider));
    assert!(matches!(m[2], MenuEntry::Button("about", _, TweaksAction::About)));
    let s = system_scheme("/usr/share/themes/cosmic/Ocean.ron".to_string(), "()".to_string()).unwrap();
    assert_eq!(s.name, "Ocean");
    assert_eq!(s.source, Some(Source::System));
    assert!(system_scheme("/".to_string(), "()".to_string()).is_none());
}

#[test]
fn flags_and_provider_themes() {
    assert_eq!(flags(None).config.app_theme, AppTheme::System);
    assert_eq!(flags(Some(AppTheme::Light)).config.app_theme, AppTheme::Light);
    let c = CosmicTheme {
        name: "Sea".to_string(),
        ron: "()".to_string(),
        author: "me".to_string(),
        link: "https://example.org".to_string(),
    }
    .into_color_scheme();
    assert_eq!(c.name, "Sea");
    assert_eq!(c.author, Some("me".to_string()));
    assert_eq!(c.link, Some("https://example.org".to_string()));
    assert_eq!(c.source, None);
}
