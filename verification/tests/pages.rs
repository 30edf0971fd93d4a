use cosmic_ext_tweaks::config::{settings, toggle_favorite, AppTheme, ThemeBase, Tweak, TweaksConfig, TweaksSettings};
use cosmic_ext_tweaks::keys::{find_action, Key, KeyBindings, Modifiers};
use cosmic_ext_tweaks::nav::{ContextPage, NavPage, Page, TweaksAction};
use cosmic_ext_tweaks::pages::autohide::{AutoHide, PanelConfigValues};
use cosmic_ext_tweaks::pages::date_time::{self, DateTime};
use cosmic_ext_tweaks::pages::dock::{self, Dock};
use cosmic_ext_tweaks::pages::layouts::{
    self, position_choices, CreateAction, CreateLayoutDialog, DialogControl, Layout, LayoutPreview, Layouts,
    PanelProperties, PanelType, Position,
};
use cosmic_ext_tweaks::pages::panel::{self, panel_entries_after, panel_forced_as, CosmicPanel, CosmicPanelButtonConfig, IndividualConfig, Override, Panel};
use cosmic_ext_tweaks::pages::panel_size::{name, to_u32, PanelSize};
use cosmic_ext_tweaks::pages::preview::{Axis, BarLook, Extent, Frame, Piece, Slot};
use cosmic_ext_tweaks::pages::shortcuts::{self, ShortcutsGroup, ShortcutsPage};
use cosmic_ext_tweaks::pages::snapshots::{self, Snapshot, SnapshotKind, Snapshots};

fn fallback() -> AutoHide {
    AutoHide { wait_time: 1000, transition_time: 200, handle_size: 4 }
}

fn named(name: &str, autohide: Option<AutoHide>) -> PanelConfigValues {
    PanelConfigValues { name: name.to_string(), padding: 4, margin: 2, spacing: 6, size: PanelSize::M, autohide }
}

fn values(autohide: Option<AutoHide>) -> PanelConfigValues {
    named("Panel", autohide)
}

fn strings(v: &[&str]) -> Vec<String> {
    v.iter().map(|s| s.to_string()).collect()
}

#[test]
fn page_titles_icons_and_order() {
    assert_eq!(Page::default(), Page::ColorSchemes);
    assert_eq!(Page::Snapshots.title(), "snapshots");
    assert_eq!(Page::DateTime.title(), "date-time");
    let icon = Page::Dock.icon();
    assert_eq!(icon.name, "dock-bottom-symbolic");
    assert_eq!(icon.size, 18);
    assert!(icon.bundled);
    assert!(!Page::DateTime.icon().bundled);
    assert_eq!(
        Page::all(),
        vec![
            Page::ColorSchemes,
            Page::DateTime,
            Page::Dock,
            Page::Panel,
            Page::Layouts,
            Page::Shortcuts,
            Page::Snapshots
        ]
    );
    assert_eq!(NavPage::all(), vec![NavPage::ColorSchemes, NavPage::Dock, NavPage::Panel]);
    assert_eq!(NavPage::default(), NavPage::ColorSchemes);
    assert_eq!(NavPage::Panel.title(), "panel");
}

#[test]
fn context_pages_and_actions() {
    assert_eq!(ContextPage::About.title(), "about");
    assert_eq!(ContextPage::Settings.title(), "settings");
    assert_eq!(TweaksAction::About.message(), ContextPage::About);
    assert_eq!(TweaksAction::Settings.message(), ContextPage::Settings);
}

#[test]
fn key_bindings_open_drawer_pages() {
    let binds = KeyBindings::new();
    let ctrl = Modifiers { shift: false, control: true, alt: false, logo: false };
    assert_eq!(find_action(&binds, ctrl, &Key::Character(",".to_string())), Some(TweaksAction::Settings));
    assert_eq!(find_action(&binds, ctrl, &Key::Character("i".to_string())), Some(TweaksAction::About));
    assert_eq!(find_action(&binds, Modifiers::empty(), &Key::Character("i".to_string())), None);
    assert_eq!(find_action(&binds, ctrl, &Key::Other), None);
}

#[test]
fn app_theme_menu_round_trip() {
    for i in 0..3usize {
        assert_eq!(AppTheme::from_index(i).index(), i);
    }
    assert_eq!(AppTheme::from_index(7), AppTheme::System);
    assert_eq!(AppTheme::Dark.theme().base, ThemeBase::SystemDark);
    assert_eq!(AppTheme::Dark.theme().prefer_dark, Some(true));
    assert_eq!(AppTheme::Light.theme().prefer_dark, Some(false));
    assert_eq!(AppTheme::System.theme().prefer_dark, None);
    assert_eq!(AppTheme::default(), AppTheme::System);
}

#[test]
fn config_reads_or_defaults() {
    assert_eq!(TweaksConfig::new(None).app_theme, AppTheme::System);
    assert_eq!(TweaksConfig::new(Some(AppTheme::Dark)).app_theme, AppTheme::Dark);
    let s = TweaksSettings::config(None, None);
    assert_eq!(s.app_theme, AppTheme::System);
    assert!(s.favorites.is_empty());
    let s = TweaksSettings::config(Some(AppTheme::Light), Some(vec![Tweak::PanelShow]));
    assert_eq!(s.favorites, vec![Tweak::PanelShow]);
    let w = settings();
    assert_eq!((w.min_width, w.min_height), (360, 180));
}

#[test]
fn favorites_toggle_twice_restores() {
    let f = vec![Tweak::DockPadding, Tweak::PanelShow];
    let once = toggle_favorite(&f, Tweak::PanelSpacing);
    assert_eq!(once, vec![Tweak::DockPadding, Tweak::PanelShow, Tweak::PanelSpacing]);
    assert_eq!(toggle_favorite(&once, Tweak::PanelSpacing), f);
    assert_eq!(toggle_favorite(&f, Tweak::DockPadding), vec![Tweak::PanelShow]);
    let mut s = TweaksSettings::config(None, Some(f.clone()));
    s.toggle_favorite(Tweak::PanelShow);
    assert_eq!(s.favorites, vec![Tweak::DockPadding]);
}

#[test]
fn panel_size_names_and_values() {
    assert_eq!(name(PanelSize::M), "M");
    assert_eq!(name(PanelSize::Custom(16)), "XS-4");
    assert_eq!(name(PanelSize::Custom(56)), "M");
    assert_eq!(name(PanelSize::Custom(200)), "XL+4");
    assert_eq!(name(PanelSize::Custom(3)), "XS-4");
    assert_eq!(to_u32(PanelSize::XS), 32);
    assert_eq!(to_u32(PanelSize::XL), 96);
    assert_eq!(to_u32(PanelSize::Custom(42)), 40);
    assert_eq!(to_u32(PanelSize::Custom(500)), 112);
    assert_eq!(to_u32(PanelSize::Custom(to_u32(PanelSize::Custom(42)))), 40);
}

#[test]
fn dock_reads_and_writes() {
    let mut d = Dock::new(Some(named("Dock", None)), fallback());
    assert_eq!((d.padding, d.margin, d.spacing), (4, 2, 6));
    assert_eq!(d.autohide, fallback());
    assert_eq!(d.update(dock::Message::SetPadding(10)), Some(dock::Action::WritePadding(10)));
    assert_eq!(d.padding, 10);
    let a = d.update(dock::Message::SetWaitTime(3000));
    assert_eq!(a, Some(dock::Action::WriteAutoHide(AutoHide { wait_time: 3000, ..fallback() })));
    let wrong = Dock::new(Some(named("Panel", None)), fallback());
    assert!(!wrong.has_dock_config);
    assert_eq!(wrong.padding, 0);
    let mut none = Dock::new(None, fallback());
    assert_eq!((none.padding, none.margin, none.spacing), (0, 0, 0));
    assert_eq!(none.update(dock::Message::SetPadding(10)), None);
    assert_eq!(none.padding, 0);
}

fn panel_page(entries: Option<Vec<String>>) -> Panel {
    Panel::new(Some(values(Some(fallback()))), entries.map(|entries| CosmicPanel { entries }), None, fallback())
}

#[test]
fn panel_page_reads_entries_and_icons() {
    let p = panel_page(Some(strings(&["Panel", "Dock"])));
    assert!(p.show_panel);
    assert!(!p.force_icons);
    assert_eq!(p.cosmic_panel_button_config.configs.len(), 2);
    let p = panel_page(Some(strings(&["Dock"])));
    assert!(!p.show_panel);
    let forced = vec![IndividualConfig { name: "Panel".to_string(), force_presentation: Some(Override::Icon) }];
    let p = Panel::new(Some(values(None)), None, Some(CosmicPanelButtonConfig { configs: forced }), fallback());
    assert!(p.force_icons);
    assert!(!p.has_entries_writer);
}

#[test]
fn panel_show_hides_and_shows() {
    let mut p = panel_page(Some(strings(&["Dock"])));
    match p.update(panel::Message::ShowPanel(true)) {
        Some(panel::Action::WriteEntries(e, true)) => assert_eq!(e, strings(&["Dock", "Panel"])),
        other => panic!("unexpected {:?}", other),
    }
    assert_eq!(p.cosmic_panel_config.entries, strings(&["Dock", "Panel"]));
    // a stored list sets the flag to the opposite of the request
    assert!(p.update(panel::Message::EntriesWritten(true, true)).is_none());
    assert!(!p.show_panel);
    match p.update(panel::Message::ShowPanel(false)) {
        Some(panel::Action::WriteEntries(e, false)) => assert_eq!(e, strings(&["Dock"])),
        other => panic!("unexpected {:?}", other),
    }
    assert!(p.update(panel::Message::ShowPanel(false)).is_none());
}

#[test]
fn panel_force_icons_writes_configs() {
    let mut p = Panel::new(Some(values(None)), None, Some(CosmicPanelButtonConfig { configs: Vec::new() }), fallback());
    match p.update(panel::Message::ForceIcons(true)) {
        Some(panel::Action::WriteButtonConfigs(c, true)) => {
            assert_eq!(c.len(), 1);
            assert_eq!(c[0].name, "Panel");
            assert_eq!(c[0].force_presentation, Some(Override::Icon));
        }
        other => panic!("unexpected {:?}", other),
    }
    assert!(!p.force_icons);
    p.update(panel::Message::ButtonConfigsWritten(true, true));
    assert!(p.force_icons);
    p.update(panel::Message::ButtonConfigsWritten(false, false));
    assert!(p.force_icons);
}

#[test]
fn panel_size_message_writes_custom_size() {
    let mut p = panel_page(None);
    match p.update(panel::Message::SetPanelSize(60)) {
        Some(panel::Action::WriteSize(PanelSize::Custom(60))) => {}
        other => panic!("unexpected {:?}", other),
    }
    assert_eq!(p.panel_size, PanelSize::Custom(60));
}

#[test]
fn entries_and_forced_helpers() {
    let e = strings(&["A", "Panel", "B", "Panel"]);
    assert_eq!(panel_entries_after(&e, false), Some(strings(&["A", "B", "Panel"])));
    assert_eq!(panel_entries_after(&e, true), None);
    let d = CosmicPanelButtonConfig::default();
    let c = panel_forced_as(&d.configs, Some(Override::Icon));
    assert_eq!(c.len(), 2);
    assert_eq!(c[0].name, "Panel");
    assert_eq!(c[0].force_presentation, Some(Override::Icon));
    assert_eq!(c[1].name, "Dock");
}

#[test]
fn date_time_writes_only_with_config() {
    let mut d = DateTime::new(true, Some("%H:%M".to_string()));
    assert_eq!(d.format_strftime, "%H:%M");
    assert_eq!(d.update(date_time::Message::Strftime("%I".to_string())), Some("%I".to_string()));
    let mut n = DateTime::new(false, None);
    assert_eq!(n.format_strftime, "");
    assert_eq!(n.update(date_time::Message::Strftime("%I".to_string())), None);
    assert_eq!(n.format_strftime, "%I");
}

#[test]
fn shortcuts_page_actions() {
    let page = ShortcutsPage::new(true);
    assert_eq!(page.update(shortcuts::Message::ApplyShortcuts(ShortcutsGroup::Windows)), shortcuts::Action::AddGroup(ShortcutsGroup::Windows));
    assert_eq!(page.update(shortcuts::Message::Reset), shortcuts::Action::ResetConfig);
    assert_eq!(ShortcutsGroup::Windows.name(), "Windows");
    assert_eq!(ShortcutsGroup::Windows.desc(), "windows-desc");
}

fn snapshot(id: u128, name: &str, created: i64) -> Snapshot {
    Snapshot { id, name: name.to_string(), kind: SnapshotKind::User, created, schema: Some(format!("schema {id}")) }
}

#[test]
fn snapshots_newest_first_and_stable() {
    let mut s = Snapshots::new();
    let list = vec![snapshot(1, "a", 100), snapshot(2, "b", 300), snapshot(3, "c", 100), snapshot(4, "d", 200)];
    assert!(s.update(snapshots::Message::Listed(list)).is_none());
    let ids: Vec<u128> = s.snapshots.iter().map(|x| x.id).collect();
    assert_eq!(ids, vec![2, 4, 1, 3]);
}

#[test]
fn snapshot_actions() {
    let mut s = Snapshots::new();
    match s.update(snapshots::Message::RestoreSnapshot(snapshot(7, "x", 5))) {
        Some(snapshots::Action::LoadTemplate(t)) => assert_eq!(t, "schema 7"),
        other => panic!("unexpected {:?}", other),
    }
    let mut none = snapshot(8, "y", 5);
    none.schema = None;
    assert!(s.update(snapshots::Message::RestoreSnapshot(none)).is_none());
    assert!(matches!(s.update(snapshots::Message::DeleteSnapshot(snapshot(9, "z", 1))), Some(snapshots::Action::Delete(9))));
    assert!(matches!(s.update(snapshots::Message::ReloadSnapshots), Some(snapshots::Action::List)));
    match s.update(snapshots::Message::CreateSnapshot("n".to_string(), SnapshotKind::System)) {
        Some(snapshots::Action::Create(n, SnapshotKind::System)) => assert_eq!(n, "n"),
        other => panic!("unexpected {:?}", other),
    }
    assert_eq!(SnapshotKind::User.label_key(), "user");
}

#[test]
fn snapshot_created_text() {
    assert_eq!(snapshot(1, "a", 0).created(), Some("1970-01-01 00:00:00".to_string()));
    assert_eq!(snapshot(1, "a", 86_461).created(), Some("1970-01-02 00:01:01".to_string()));
}

fn layout(id: u128, name: &str, custom: bool) -> Layout {
    Layout { id, name: name.to_string(), custom, schema: format!("schema {name}"), preview: LayoutPreview::default() }
}

#[test]
fn layouts_select_apply_delete() {
    let mut l = Layouts::new();
    assert_eq!(l.panel_position, Position::Top);
    assert_eq!(l.dock_position, Position::Bottom);
    l.update(layouts::Message::LoadLayouts(vec![layout(1, "mac", false), layout(2, "mine", true)]));
    assert!(l.update(layouts::Message::Apply).is_none());
    l.update(layouts::Message::Select(layout(2, "mine", true)));
    assert!(matches!(l.update(layouts::Message::Delete), Some(layouts::Action::DeleteFile(2))));
    assert!(l.update(layouts::Message::Deleted(2)).is_none());
    assert!(l.selected_layout.is_none());
    assert_eq!(l.layouts.len(), 1);
    assert_eq!(l.layouts[0].id, 1);
    l.update(layouts::Message::Select(layout(1, "mac", false)));
    match l.update(layouts::Message::Apply) {
        Some(layouts::Action::LoadTemplate(t)) => assert_eq!(t, "schema mac"),
        other => panic!("unexpected {:?}", other),
    }
    assert!(l.selected_layout.is_none());
    l.select_position(PanelType::Dock, Position::Left);
    assert_eq!(l.dock_position, Position::Left);
    assert_eq!(l.panel_position, Position::Top);
}

#[test]
fn new_layout_is_custom_with_fresh_id() {
    let a = Layout::new("a".to_string(), "s".to_string(), LayoutPreview::default());
    let b = Layout::new("a".to_string(), "s".to_string(), LayoutPreview::default());
    assert!(a.custom);
    assert_ne!(a.id, b.id);
    assert!(a.is_selected(&Some(layout(5, "a", true))));
    assert!(!a.is_selected(&Some(layout(5, "b", true))));
    assert!(!a.is_selected(&None));
    assert_eq!(position_choices(), vec![Position::Left, Position::Top, Position::Right, Position::Bottom]);
}

#[test]
fn create_layout_dialog_edits() {
    let d = CreateLayoutDialog::new(String::new(), LayoutPreview::default(), None);
    match d.primary_action("empty!".to_string()) {
        CreateAction::ShowError(e) => assert_eq!(e.error, Some("empty!".to_string())),
        other => panic!("unexpected {:?}", other),
    }
    let d = CreateLayoutDialog::new("x".to_string(), LayoutPreview::default(), None);
    assert!(matches!(d.primary_action("e".to_string()), CreateAction::Complete));
    let d2 = d.toggled_shown(PanelType::Dock, false);
    assert!(d2.preview.dock.hidden);
    assert!(!d2.preview.panel.hidden);
    let d3 = d2.toggled_extend(PanelType::Panel, false).sized(PanelType::Panel, 30).with_dock_icons(3);
    assert_eq!(d3.preview.panel, PanelProperties::new(Position::Top, false, false, 30));
    assert_eq!(d3.preview.dock_icons, 3);
    assert_eq!(d3.name, "x");
    assert_eq!(
        d3.section(PanelType::Dock),
        vec![
            DialogControl::Show(false),
            DialogControl::Extend(true),
            DialogControl::Position(PanelType::Dock),
            DialogControl::Size(20),
            DialogControl::DockIcons(3)
        ]
    );
    assert_eq!(d3.section(PanelType::Panel).len(), 4);
    assert_eq!(Position::Left.label_key(), "left");
}

#[test]
fn preview_places_panel_and_dock() {
    let p = LayoutPreview::default().view(2, 130);
    assert_eq!((p.height, p.fills_width, p.frame, p.padding), (130, true, Frame::Secondary, 2));
    assert_eq!(p.dock_look, Some(BarLook { squares: 6, side: 20, along_row: true, gap: false, frame: Frame::Panel }));
    assert_eq!(p.panel_look.map(|l| l.squares), Some(2));
    assert_eq!(p.axis, Axis::Column);
    let pieces: Vec<Piece> = p
        .slots
        .iter()
        .map(|s| match s {
            Slot::Piece(p) => *p,
            Slot::Group(..) => panic!("no group expected"),
        })
        .collect();
    assert_eq!(
        pieces,
        vec![
            Piece::Panel(Extent::Fill, Extent::Fixed(20)),
            Piece::VerticalSpace,
            Piece::HorizontalSpace,
            Piece::Dock(Extent::Fill, Extent::Auto)
        ]
    );
    let mut hidden = LayoutPreview::default();
    hidden.panel.hidden = true;
    hidden.dock.hidden = true;
    let empty = hidden.view(4, 90);
    assert!(empty.slots.is_empty());
    assert_eq!(empty.axis, Axis::Column);
    assert_eq!((empty.height, empty.fills_width, empty.frame, empty.padding), (90, true, Frame::Secondary, 4));
    assert_eq!((empty.panel_look, empty.dock_look), (None, None));
    let mut left = LayoutPreview::default();
    left.panel.position = Position::Left;
    left.dock.position = Position::Top;
    left.dock.extend = false;
    let v = left.view(2, 130);
    assert!(!v.fills_width);
    assert_eq!(v.axis, Axis::Row);
    assert_eq!(v.slots.len(), 4);
    match &v.slots[2] {
        Slot::Group(Axis::Column, pieces, false, true) => {
            assert_eq!(pieces, &vec![Piece::Dock(Extent::Shrink, Extent::Auto), Piece::VerticalSpace])
        }
        other => panic!("unexpected {:?}", other),
    }
    assert_eq!(
        LayoutPreview::default().bar_look(PanelType::Dock),
        BarLook { squares: 6, side: 20, along_row: true, gap: false, frame: Frame::Panel }
    );
}

#[test]
fn panel_configs_default_to_nothing_and_dock_icons() {
    assert!(CosmicPanel::default().entries.is_empty());
    let d = CosmicPanelButtonConfig::default();
    assert_eq!(d.configs.len(), 2);
    assert_eq!(d.configs[0].name, "Panel");
    assert_eq!(d.configs[0].force_presentation, None);
    assert_eq!(d.configs[1].name, "Dock");
    assert_eq!(d.configs[1].force_presentation, Some(Override::Icon));
}
