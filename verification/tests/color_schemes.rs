use std::cmp::Ordering;

use cosmic_ext_tweaks::color_schemes::cards::SchemesFooter;
use cosmic_ext_tweaks::color_schemes::models::{ColorScheme, ColorSchemeKey, MessageErrorKind, SortBy, Source, Status, Tab};
use cosmic_ext_tweaks::color_schemes::order::{is_after, rank_order};
use cosmic_ext_tweaks::color_schemes::page::{Action, ColorSchemes, Message};
use cosmic_ext_tweaks::color_schemes::query::is_shown_for;
use cosmic_ext_tweaks::color_schemes::remote::{convert_downloaded, RemoteTheme, RemoteThemeError};

fn scheme(name: &str) -> ColorScheme {
    ColorScheme::new(name.to_string(), format!("({name})"))
}

fn with_path(name: &str) -> ColorScheme {
    let mut c = scheme(name);
    c.path = Some(format!("/themes/{name}.ron"));
    c
}

fn remote(name: &str, created: &str, updated: &str) -> RemoteTheme {
    RemoteTheme {
        id: 1,
        uuid: 42,
        name: name.to_string(),
        ron: "(theme)".to_string(),
        author: Some(String::new()),
        link: Some("https://example.org/t".to_string()),
        downloads: 9,
        created: created.to_string(),
        updated: updated.to_string(),
    }
}

fn page() -> ColorSchemes {
    let (p, actions) = ColorSchemes::new(
        Some(scheme("Current")),
        Some(vec![scheme("Remote A"), scheme("Remote B")]),
        vec![with_path("Dusk"), scheme("Dawn"), with_path("Dusk")],
        true,
    );
    assert!(actions.is_empty());
    p
}

#[test]
fn new_page_stores_installed_by_name() {
    let p = page();
    let names: Vec<&str> = p.installed.iter().map(|c| c.name.as_str()).collect();
    assert_eq!(names, vec!["Dawn", "Dusk"]);
    assert_eq!(p.status, Status::Idle);
    assert_eq!(p.sort_by, SortBy::LastModified);
    assert_eq!(p.tab, Tab::Installed);
    assert!(!p.can_revert());
}

#[test]
fn new_page_without_cache_downloads() {
    let (p, actions) = ColorSchemes::new(None, None, Vec::new(), false);
    assert_eq!(p.status, Status::Loading);
    assert!(matches!(actions.as_slice(), [Action::DownloadThemes]));
}

#[test]
fn delete_removes_and_asks_to_remove_file() {
    let mut p = page();
    let actions = p.update(Message::DeleteColorScheme(ColorSchemeKey::Installed("Dusk".to_string())));
    match actions.as_slice() {
        [Action::RemoveFile(path)] => assert_eq!(path, "/themes/Dusk.ron"),
        other => panic!("unexpected {:?}", other),
    }
    assert!(!p.is_installed("Dusk"));
    assert!(p.is_installed("Dawn"));
    let actions = p.update(Message::DeleteColorScheme(ColorSchemeKey::Installed("Dawn".to_string())));
    assert!(actions.is_empty());
    assert!(p.installed.is_empty());
}

#[test]
fn install_then_delete_leaves_page_as_before() {
    let mut p = page();
    let actions = p.update(Message::Installed(with_path("Noon"), false));
    assert!(actions.is_empty());
    assert!(p.is_installed("Noon"));
    let actions = p.update(Message::DeleteColorScheme(ColorSchemeKey::Installed("Noon".to_string())));
    assert!(matches!(actions.as_slice(), [Action::RemoveFile(_)]));
    let names: Vec<&str> = p.installed.iter().map(|c| c.name.as_str()).collect();
    assert_eq!(names, vec!["Dawn", "Dusk"]);
}

#[test]
fn installed_as_current_is_recorded() {
    let mut p = page();
    let actions = p.update(Message::Installed(scheme("Saved"), true));
    assert!(matches!(actions.as_slice(), [Action::WriteCurrentConfig(c)] if c.name == "Saved"));
    assert_eq!(p.current_config.as_ref().map(|c| c.name.as_str()), Some("Saved"));
}

#[test]
fn try_then_revert_goes_back() {
    let mut p = page();
    let actions = p.update(Message::SetColorSchemeWithRollBack(ColorSchemeKey::Available(1)));
    assert!(matches!(actions.as_slice(), [Action::ApplyTheme(c, false)] if c.name == "Remote B"));
    p.update(Message::ThemeApplied(scheme("Remote B"), false));
    assert!(p.can_revert());
    let actions = p.update(Message::RevertOldTheme);
    match actions.as_slice() {
        [Action::ApplyThemeOnly(a), Action::WriteCurrentConfig(b)] => {
            assert_eq!(a.name, "Current");
            assert_eq!(b.name, "Current");
        }
        other => panic!("unexpected {:?}", other),
    }
    assert_eq!(p.current_config.as_ref().map(|c| c.name.as_str()), Some("Current"));
    assert!(!p.can_revert());
}

#[test]
fn saving_current_theme_reads_then_installs() {
    let mut p = page();
    let actions = p.update(Message::SaveCurrentColorScheme(Some("Mine".to_string())));
    assert!(matches!(actions.as_slice(), [Action::ReadCurrentTheme(n)] if n == "Mine"));
    let actions = p.update(Message::CurrentThemeRead("Mine".to_string(), "(ron)".to_string()));
    match actions.as_slice() {
        [Action::InstallTheme(c, true)] => {
            assert_eq!(c.name, "Mine");
            assert_eq!(c.theme, "(ron)");
            assert_eq!(c.source, Some(Source::Saved));
        }
        other => panic!("unexpected {:?}", other),
    }
}

#[test]
fn fetching_and_errors() {
    let mut p = page();
    assert!(matches!(p.update(Message::FetchAvailableColorSchemes).as_slice(), [Action::DownloadThemes]));
    assert_eq!(p.status, Status::Loading);
    assert!(p.update(Message::Error(MessageErrorKind::Fetching, "down".to_string())).is_empty());
    assert_eq!(p.status, Status::Idle);
    let actions = p.update(Message::SetAvailableColorSchemes(vec![scheme("X")]));
    assert!(matches!(actions.as_slice(), [Action::CacheThemes(v)] if v.len() == 1));
    assert_eq!(p.available.len(), 1);
    assert!(matches!(p.update(Message::ToggleDarkMode(false)).as_slice(), [Action::WriteDarkMode(false)]));
    assert!(!p.is_dark);
    assert!(matches!(p.update(Message::Reset).as_slice(), [Action::ResetThemeConfigs]));
}

#[test]
fn values_follow_sort_and_query() {
    let mut p = page();
    p.update(Message::TabSelected(Tab::Available));
    p.update(Message::SortBy(SortBy::Az));
    // the collator puts "Remote A" before "Remote B"
    let keys = p.values(&vec![0, 1]);
    let idx: Vec<usize> = keys
        .iter()
        .map(|k| match k {
            ColorSchemeKey::Available(i) => *i,
            _ => panic!("available keys expected"),
        })
        .collect();
    assert_eq!(idx, vec![0, 1]);
    // a collator that puts "Remote B" first
    let keys = p.values(&vec![1, 0]);
    assert!(matches!(keys.as_slice(), [ColorSchemeKey::Available(1), ColorSchemeKey::Available(0)]));
    p.update(Message::Query("b".to_string()));
    let keys = p.values(&vec![0, 1]);
    assert_eq!(keys.len(), 1);
    assert!(matches!(keys[0], ColorSchemeKey::Available(1)));
}

#[test]
fn search_matches_substrings() {
    assert!(is_shown_for("", "anything"));
    assert!(is_shown_for("dus", "Dusk"));
    assert!(!is_shown_for("xyz", "Dusk"));
}

#[test]
fn sort_orders() {
    assert_eq!(rank_order(1, 2), Ordering::Less);
    assert_eq!(rank_order(5, 2), Ordering::Greater);
    assert_eq!(rank_order(3, 3), Ordering::Equal);
    let mut a = scheme("a");
    let mut b = scheme("b");
    a.downloads = Some(5);
    b.downloads = Some(50);
    assert_eq!(SortBy::MostDownloaded.compare(&a, &b, Ordering::Less), Ordering::Greater);
    assert!(is_after(SortBy::MostDownloaded, &a, 0, &b, 1));
    b.downloads = None;
    assert_eq!(SortBy::MostDownloaded.compare(&a, &b, Ordering::Greater), Ordering::Less);
    a.updated = Some(10);
    b.updated = Some(20);
    assert_eq!(SortBy::LastModified.compare(&a, &b, Ordering::Less), Ordering::Greater);
    a.author = None;
    b.author = Some("z".to_string());
    assert_eq!(SortBy::Author.compare(&a, &b, Ordering::Less), Ordering::Greater);
    // by name, the collator decides, whatever the code points say
    assert_eq!(SortBy::Az.compare(&a, &b, Ordering::Greater), Ordering::Greater);
    assert_eq!(SortBy::Az.compare(&a, &b, Ordering::Less), Ordering::Less);
    b.author = Some("y".to_string());
    a.author = Some("z".to_string());
    assert_eq!(SortBy::Author.compare(&a, &b, Ordering::Less), Ordering::Less);
    assert_eq!(SortBy::Az.label_key(), "a-z");
}

#[test]
fn remote_themes_convert_with_dates() {
    let ok = remote("Ok", "2024-05-01T10:00:00Z", "2024-05-02T10:00:00+02:00");
    let c = ok.into_color_scheme().unwrap();
    assert_eq!(c.created, Some(1_714_557_600_000));
    assert_eq!(c.updated, Some(1_714_636_800_000));
    assert_eq!(c.author, None);
    assert_eq!(c.link, Some("https://example.org/t".to_string()));
    assert_eq!(c.source, Some(Source::CosmicThemesOrg));
    assert_eq!(c.id, 42);
    assert_eq!(remote("Bad", "yesterday", "2024-05-02T10:00:00Z").into_color_scheme().unwrap_err(), RemoteThemeError::InvalidCreated);
    assert_eq!(remote("Bad", "2024-05-02T10:00:00Z", "").into_color_scheme().unwrap_err(), RemoteThemeError::InvalidUpdated);
}

#[test]
fn downloaded_list_skips_unreadable() {
    let themes = vec![
        remote("A", "2024-05-01T10:00:00Z", "2024-05-01T10:00:00Z"),
        remote("B", "bad", "2024-05-01T10:00:00Z"),
        remote("C", "2024-05-01T10:00:00Z", "2024-05-01T10:00:00Z"),
        remote("D", "2024-05-01T10:00:00Z", "2024-05-01T10:00:00Z"),
    ];
    let out = convert_downloaded(themes, &vec![true, true, false, true]);
    let names: Vec<&str> = out.iter().map(|c| c.name.as_str()).collect();
    assert_eq!(names, vec!["A", "D"]);
}

#[test]
fn footer_and_cards() {
    let mut p = page();
    assert_eq!(p.footer(), SchemesFooter::Installed { is_dark: true });
    let card = p.installed_card(&ColorSchemeKey::Installed("Dusk".to_string()));
    assert!(matches!(&card.press, Message::SetColorScheme(ColorSchemeKey::Installed(n)) if n == "Dusk"));
    assert!(matches!(&card.first, Some(Message::OpenFolder(path)) if path == "/themes/Dusk.ron"));
    assert!(matches!(&card.second, Some(Message::DeleteColorScheme(_))));
    let card = p.installed_card(&ColorSchemeKey::Installed("Dawn".to_string()));
    assert!(card.first.is_none());
    p.update(Message::TabSelected(Tab::Available));
    assert_eq!(p.footer(), SchemesFooter::Available { is_dark: true, loading: false, can_revert: false });
    let card = p.available_card(&ColorSchemeKey::Available(0));
    assert!(matches!(card.press, Message::SetColorSchemeWithRollBack(ColorSchemeKey::Available(0))));
    assert!(card.first.is_none());
    assert!(matches!(card.second, Some(Message::InstallColorScheme(ColorSchemeKey::Available(0)))));
    p.update(Message::Installed(scheme("Remote A"), false));
    let card = p.available_card(&ColorSchemeKey::Available(0));
    assert!(card.second.is_none());
}

#[test]
fn themes_table_keeps_the_first_theme_per_identifier() {
    let mut dawn = scheme("Dawn");
    dawn.id = 7;
    let (mut p, _) = ColorSchemes::new(None, Some(Vec::new()), vec![dawn], false);
    assert_eq!(p.themes, vec![(7, "(Dawn)".to_string())]);
    let mut again = scheme("Other");
    again.id = 7;
    let mut fresh = scheme("Fresh");
    fresh.id = 9;
    p.update(Message::SetAvailableColorSchemes(vec![again, fresh]));
    assert_eq!(p.themes, vec![(7, "(Dawn)".to_string()), (9, "(Fresh)".to_string())]);
    let mut imported = scheme("Imported");
    imported.id = 11;
    p.update(Message::Imported(imported));
    assert_eq!(p.themes.len(), 3);
    assert_eq!(p.themes[2], (11, "(Imported)".to_string()));
    let mut installed = scheme("Installed");
    installed.id = 12;
    p.update(Message::Installed(installed, false));
    assert_eq!(p.themes.len(), 3);
}
