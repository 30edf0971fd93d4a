use std::cmp::Ordering;

use cosmic_ext_tweaks::color_schemes::models::{ColorScheme, SortBy};
use cosmic_ext_tweaks::color_schemes::order::rank_order;
use cosmic_ext_tweaks::color_schemes::page::{ColorSchemes, Message};
use cosmic_ext_tweaks::nav::{ContextPage, Page};
use cosmic_ext_tweaks::pages::panel::{forces_panel_icons, panel_entries_after, panel_forced_as, IndividualConfig, Override};
use cosmic_ext_tweaks::shell::{DialogPage, Message as ShellMessage, Cosmic};
use cosmic_ext_tweaks::config::TweaksConfig;

fn strings(v: &[&str]) -> Vec<String> {
    v.iter().map(|s| s.to_string()).collect()
}

#[test]
fn show_then_hide_panel_restores_list() {
    let e = strings(&["Dock", "Other"]);
    let shown = panel_entries_after(&e, true).unwrap();
    assert_eq!(shown, strings(&["Dock", "Other", "Panel"]));
    assert_eq!(panel_entries_after(&shown, false).unwrap(), e);
    assert!(panel_entries_after(&shown, true).is_none());
    assert!(panel_entries_after(&e, false).is_none());
}

#[test]
fn forced_presentation_reads_back() {
    let c = vec![
        IndividualConfig { name: "Dock".to_string(), force_presentation: Some(Override::Icon) },
        IndividualConfig { name: "Panel".to_string(), force_presentation: Some(Override::Text) },
    ];
    assert!(!forces_panel_icons(&c));
    let on = panel_forced_as(&c, Some(Override::Icon));
    assert!(forces_panel_icons(&on));
    assert_eq!(on.len(), 2);
    let off = panel_forced_as(&on, None);
    assert!(!forces_panel_icons(&off));
}

#[test]
fn drawer_asked_twice() {
    let mut s = Cosmic::new(TweaksConfig::new(None));
    s.update(ShellMessage::ToggleContextPage(ContextPage::About));
    s.update(ShellMessage::ToggleContextPage(ContextPage::About));
    assert_eq!(s.context_drawer(), None);
    s.update(ShellMessage::ToggleContextPage(ContextPage::About));
    assert_eq!(s.context_drawer(), Some(ContextPage::About));
    s.update(ShellMessage::ToggleContextPage(ContextPage::About));
    s.update(ShellMessage::ToggleContextPage(ContextPage::About));
    assert_eq!(s.context_drawer(), Some(ContextPage::About));
}

#[test]
fn first_dialog_stays_in_front() {
    let mut s = Cosmic::new(TweaksConfig::new(None));
    s.update(ShellMessage::ToggleDialogPage(DialogPage::ResetPage(Page::Panel)));
    s.update(ShellMessage::ToggleDialogPage(DialogPage::CreateSnapshot("n".to_string())));
    assert!(matches!(s.dialog_pages[0], DialogPage::ResetPage(Page::Panel)));
    assert!(matches!(&s.dialog_pages[1], DialogPage::CreateSnapshot(n) if n == "n"));
}

#[test]
fn kept_scheme_is_not_reverted() {
    let (mut p, _) = ColorSchemes::new(None, Some(Vec::new()), Vec::new(), false);
    p.update(Message::ThemeApplied(ColorScheme::new("Kept".to_string(), "()".to_string()), true));
    assert!(!p.can_revert());
    p.update(Message::RevertOldTheme);
    assert_eq!(p.current_config.as_ref().map(|c| c.name.as_str()), Some("Kept"));
}

#[test]
fn scheme_order_is_antisymmetric_and_transitive_for_a_collator() {
    // three schemes whose names the collator ranks 0, 1, 2
    let schemes: Vec<(ColorScheme, u64)> = vec![
        (ColorScheme::new("b".to_string(), "()".to_string()), 0),
        (ColorScheme::new("A".to_string(), "()".to_string()), 1),
        (ColorScheme::new("c".to_string(), "()".to_string()), 2),
    ];
    for by in [SortBy::Az, SortBy::Author, SortBy::MostDownloaded, SortBy::LastModified] {
        for (x, rx) in &schemes {
            for (y, ry) in &schemes {
                let xy = by.compare(x, y, rank_order(*rx, *ry));
                assert_eq!(xy, by.compare(y, x, rank_order(*ry, *rx)).reverse());
                for (z, rz) in &schemes {
                    let yz = by.compare(y, z, rank_order(*ry, *rz));
                    if xy != Ordering::Greater && yz != Ordering::Greater {
                        assert_ne!(by.compare(x, z, rank_order(*rx, *rz)), Ordering::Greater);
                    }
                }
            }
        }
    }
    let mut a = ColorScheme::new("a".to_string(), "()".to_string());
    let b = ColorScheme::new("b".to_string(), "()".to_string());
    a.author = Some("x".to_string());
    assert_eq!(SortBy::Author.compare(&a, &b, Ordering::Equal), Ordering::Less);
    assert_eq!(SortBy::Author.compare(&b, &a, Ordering::Equal), Ordering::Greater);
}

#[test]
fn pages_listed_once() {
    let all = Page::all();
    for (i, p) in all.iter().enumerate() {
        assert_eq!(all.iter().filter(|q| *q == p).count(), 1, "page {i}");
    }
    assert_eq!(all[0], Page::default());
}
