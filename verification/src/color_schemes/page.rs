use vstd::prelude::*;

use super::models::{
    at, clone_opt_scheme, increasing, in_range, opt_scheme_view, ColorScheme, ColorSchemeKey, KeyView, MessageErrorKind,
    SchemeView, SortBy, Source, Status, Tab,
};
use super::named::{
    distinct_names, has_name, lemma_with_named, lemma_without_name, views_of, with_named,
    without_name, without_named,
};
use super::query::{is_shown_for, shown_for};
use super::sort::{positions_in, sorted_by, stable_by, stable_sort_positions};
use crate::strings::{opt_text, same_text};

verus! {

/// What the color scheme page knows.
#[derive(Debug)]
pub struct ColorSchemes {
    pub installed: Vec<ColorScheme>,
    pub available: Vec<ColorScheme>,
    pub current_config: Option<ColorScheme>,
    pub saved_color_theme: Option<ColorScheme>,
    pub status: Status,
    pub is_dark: bool,
    pub query: String,
    pub sort_by: SortBy,
    pub tab: Tab,
    /// The theme of each scheme identifier met so far, the first one met kept.
    pub themes: Vec<(u128, String)>,
}

/// The value of the page.
pub struct PageView {
    /// Installed schemes, one per name.
    pub installed: Seq<SchemeView>,
    /// Schemes offered for download.
    pub available: Seq<SchemeView>,
    /// The scheme recorded as the current one in the page's configuration.
    pub current: Option<SchemeView>,
    /// The scheme to go back to after trying others.
    pub saved: Option<SchemeView>,
    pub status: Status,
    /// Whether the desktop is in dark mode.
    pub is_dark: bool,
    pub query: Seq<char>,
    pub sort_by: SortBy,
    pub tab: Tab,
    /// The theme of each scheme identifier met so far, the first one met kept.
    pub themes: Seq<(u128, Seq<char>)>,
}

/// The values of a table of themes.
pub open spec fn theme_entries(v: Seq<(u128, String)>) -> Seq<(u128, Seq<char>)> {
    Seq::new(v.len(), |i: int| (v[i].0, v[i].1@))
}

/// The table holds a theme for `id`.
pub open spec fn has_id(t: Seq<(u128, Seq<char>)>, id: u128) -> bool {
    exists|i: int| 0 <= i < t.len() && #[trigger] t[i].0 == id
}

/// No identifier appears twice in the table.
pub open spec fn distinct_ids(t: Seq<(u128, Seq<char>)>) -> bool {
    forall|i: int, j: int| 0 <= i < j < t.len() ==> #[trigger] t[i].0 != #[trigger] t[j].0
}

/// The table after meeting `theme` for `id`: kept as it is when it holds a
/// theme for `id`, else with the new entry at its end.
pub open spec fn kept_first(t: Seq<(u128, Seq<char>)>, id: u128, theme: Seq<char>) -> Seq<(u128, Seq<char>)> {
    if has_id(t, id) {
        t
    } else {
        t.push((id, theme))
    }
}

/// The table after meeting the themes of `list`, in order.
pub open spec fn kept_all(t: Seq<(u128, Seq<char>)>, list: Seq<SchemeView>) -> Seq<(u128, Seq<char>)>
    decreases list.len(),
{
    if list.len() == 0 {
        t
    } else {
        kept_first(kept_all(t, list.drop_last()), list.last().id, list.last().theme)
    }
}

impl View for ColorSchemes {
    type V = PageView;

    open spec fn view(&self) -> PageView {
        PageView {
            installed: views_of(self.installed@),
            available: views_of(self.available@),
            current: opt_scheme_view(self.current_config),
            saved: opt_scheme_view(self.saved_color_theme),
            status: self.status,
            is_dark: self.is_dark,
            query: self.query@,
            sort_by: self.sort_by,
            tab: self.tab,
            themes: theme_entries(self.themes@),
        }
    }
}

/// What the page asks of the program around it.
#[derive(Debug)]
pub enum Action {
    /// Let the user pick a theme file; import it and report `Imported`.
    PickImportFile,
    /// Apply the scheme to the desktop; on success report `ThemeApplied` with the flag.
    ApplyTheme(ColorScheme, bool),
    /// Apply the scheme to the desktop; a failure is only reported to the user.
    ApplyThemeOnly(ColorScheme),
    /// Record the scheme as the current one in the page's configuration.
    WriteCurrentConfig(ColorScheme),
    /// Delete the theme file at this path.
    RemoveFile(String),
    /// Write the scheme to the theme directory unless a file of that name is
    /// there; on success report `Installed` with the written scheme and the flag.
    InstallTheme(ColorScheme, bool),
    /// Read the desktop's current theme; on success report `CurrentThemeRead`.
    ReadCurrentTheme(String),
    /// Download the schemes offered online; report `SetAvailableColorSchemes`
    /// or a fetching `Error`.
    DownloadThemes,
    /// Store the downloaded schemes in the cache.
    CacheThemes(Vec<ColorScheme>),
    OpenLink(String),
    /// Open the folder that holds the file at this path.
    OpenFolder(String),
    /// Switch the desktop's dark mode.
    WriteDarkMode(bool),
    /// Reset the theme configurations and rebuild the page from what is on disk.
    ResetThemeConfigs,
}

/// The value of an action.
pub enum ActionView {
    PickImportFile,
    ApplyTheme(SchemeView, bool),
    ApplyThemeOnly(SchemeView),
    WriteCurrentConfig(SchemeView),
    RemoveFile(Seq<char>),
    InstallTheme(SchemeView, bool),
    ReadCurrentTheme(Seq<char>),
    DownloadThemes,
    CacheThemes(Seq<SchemeView>),
    OpenLink(Seq<char>),
    OpenFolder(Seq<char>),
    WriteDarkMode(bool),
    ResetThemeConfigs,
}

impl View for Action {
    type V = ActionView;

    open spec fn view(&self) -> ActionView {
        match self {
            Action::PickImportFile => ActionView::PickImportFile,
            Action::ApplyTheme(c, r) => ActionView::ApplyTheme(c@, *r),
            Action::ApplyThemeOnly(c) => ActionView::ApplyThemeOnly(c@),
            Action::WriteCurrentConfig(c) => ActionView::WriteCurrentConfig(c@),
            Action::RemoveFile(p) => ActionView::RemoveFile(p@),
            Action::InstallTheme(c, m) => ActionView::InstallTheme(c@, *m),
            Action::ReadCurrentTheme(n) => ActionView::ReadCurrentTheme(n@),
            Action::DownloadThemes => ActionView::DownloadThemes,
            Action::CacheThemes(v) => ActionView::CacheThemes(views_of(v@)),
            Action::OpenLink(l) => ActionView::OpenLink(l@),
            Action::OpenFolder(p) => ActionView::OpenFolder(p@),
            Action::WriteDarkMode(d) => ActionView::WriteDarkMode(*d),
            Action::ResetThemeConfigs => ActionView::ResetThemeConfigs,
        }
    }
}

/// The values of a list of actions.
pub open spec fn actions_view(a: Seq<Action>) -> Seq<ActionView> {
    Seq::new(a.len(), |i: int| a[i]@)
}

/// What the page is told: by the user, or about the outcome of an action.
#[derive(Debug)]
pub enum Message {
    StartImport,
    /// A theme file was imported as this scheme.
    Imported(ColorScheme),
    Error(MessageErrorKind, String),
    /// Save the desktop's current theme under a name (a name must be given).
    SaveCurrentColorScheme(Option<String>),
    /// The desktop's current theme, read for saving it under the name.
    CurrentThemeRead(String, String),
    InstallColorScheme(ColorSchemeKey),
    /// The scheme was written to the theme directory; the flag makes it current.
    Installed(ColorScheme, bool),
    SetColorScheme(ColorSchemeKey),
    SetColorSchemeWithRollBack(ColorSchemeKey),
    /// The scheme was applied; the flag makes it the one to go back to.
    ThemeApplied(ColorScheme, bool),
    RevertOldTheme,
    DeleteColorScheme(ColorSchemeKey),
    SetAvailableColorSchemes(Vec<ColorScheme>),
    FetchAvailableColorSchemes,
    OpenFolder(String),
    OpenLink(String),
    TabSelected(Tab),
    ToggleDarkMode(bool),
    SortBy(SortBy),
    Query(String),
    Reset,
}

/// The value of a message.
pub enum MessageView {
    StartImport,
    Imported(SchemeView),
    Error(MessageErrorKind, Seq<char>),
    SaveCurrentColorScheme(Option<Seq<char>>),
    CurrentThemeRead(Seq<char>, Seq<char>),
    InstallColorScheme(KeyView),
    Installed(SchemeView, bool),
    SetColorScheme(KeyView),
    SetColorSchemeWithRollBack(KeyView),
    ThemeApplied(SchemeView, bool),
    RevertOldTheme,
    DeleteColorScheme(KeyView),
    SetAvailableColorSchemes(Seq<SchemeView>),
    FetchAvailableColorSchemes,
    OpenFolder(Seq<char>),
    OpenLink(Seq<char>),
    TabSelected(Tab),
    ToggleDarkMode(bool),
    SortBy(SortBy),
    Query(Seq<char>),
    Reset,
}

impl View for Message {
    type V = MessageView;

    open spec fn view(&self) -> MessageView {
        match self {
            Message::StartImport => MessageView::StartImport,
            Message::Imported(c) => MessageView::Imported(c@),
            Message::Error(k, m) => MessageView::Error(*k, m@),
            Message::SaveCurrentColorScheme(n) => MessageView::SaveCurrentColorScheme(opt_text(*n)),
            Message::CurrentThemeRead(n, t) => MessageView::CurrentThemeRead(n@, t@),
            Message::InstallColorScheme(k) => MessageView::InstallColorScheme(k@),
            Message::Installed(c, m) => MessageView::Installed(c@, *m),
            Message::SetColorScheme(k) => MessageView::SetColorScheme(k@),
            Message::SetColorSchemeWithRollBack(k) => MessageView::SetColorSchemeWithRollBack(k@),
            Message::ThemeApplied(c, r) => MessageView::ThemeApplied(c@, *r),
            Message::RevertOldTheme => MessageView::RevertOldTheme,
            Message::DeleteColorScheme(k) => MessageView::DeleteColorScheme(k@),
            Message::SetAvailableColorSchemes(v) => MessageView::SetAvailableColorSchemes(views_of(v@)),
            Message::FetchAvailableColorSchemes => MessageView::FetchAvailableColorSchemes,
            Message::OpenFolder(p) => MessageView::OpenFolder(p@),
            Message::OpenLink(l) => MessageView::OpenLink(l@),
            Message::TabSelected(t) => MessageView::TabSelected(*t),
            Message::ToggleDarkMode(d) => MessageView::ToggleDarkMode(*d),
            Message::SortBy(s) => MessageView::SortBy(*s),
            Message::Query(q) => MessageView::Query(q@),
            Message::Reset => MessageView::Reset,
        }
    }
}

/// The installed scheme called `name`.
pub open spec fn named(s: Seq<SchemeView>, name: Seq<char>) -> SchemeView {
    s[choose|i: int| 0 <= i < s.len() && s[i].name == name]
}

/// The key names a scheme of the page.
pub open spec fn key_valid(p: PageView, k: KeyView) -> bool {
    match k {
        KeyView::Installed(n) => has_name(p.installed, n),
        KeyView::Available(i) => i < p.available.len(),
    }
}

/// The scheme a key names.
pub open spec fn lookup(p: PageView, k: KeyView) -> SchemeView {
    match k {
        KeyView::Installed(n) => named(p.installed, n),
        KeyView::Available(i) => p.available[i as int],
    }
}

/// The page can handle the message: the schemes it names are there, and a
/// name is given for saving the current theme.
pub open spec fn message_ok(p: PageView, m: MessageView) -> bool {
    match m {
        MessageView::InstallColorScheme(k) => key_valid(p, k),
        MessageView::SetColorScheme(k) => key_valid(p, k),
        MessageView::SetColorSchemeWithRollBack(k) => key_valid(p, k),
        MessageView::DeleteColorScheme(k) => key_valid(p, k),
        MessageView::SaveCurrentColorScheme(n) => n is Some,
        _ => true,
    }
}

/// The scheme saved from the current theme: a new identifier, the name and
/// theme, marked as saved, nothing else known.
pub open spec fn saved_scheme(id: u128, name: Seq<char>, theme: Seq<char>) -> SchemeView {
    SchemeView {
        id,
        name,
        theme,
        author: None,
        link: None,
        downloads: None,
        created: None,
        updated: None,
        source: Some(Source::Saved),
        path: None,
    }
}

/// How the page answers a message: its next value and the actions it asks
/// for. `fresh` is the identifier a newly saved scheme gets.
pub open spec fn step(p: PageView, m: MessageView, fresh: u128) -> (PageView, Seq<ActionView>) {
    match m {
        MessageView::StartImport => (p, seq![ActionView::PickImportFile]),
        MessageView::Imported(c) => (
            PageView { installed: with_named(p.installed, c), themes: kept_first(p.themes, c.id, c.theme), ..p },
            seq![ActionView::ApplyTheme(c, true)],
        ),
        MessageView::Error(kind, _) => (
            if kind == MessageErrorKind::Fetching { PageView { status: Status::Idle, ..p } } else { p },
            seq![],
        ),
        MessageView::SaveCurrentColorScheme(n) => (p, seq![ActionView::ReadCurrentTheme(n->0)]),
        MessageView::CurrentThemeRead(name, theme) => (
            p,
            seq![ActionView::InstallTheme(saved_scheme(fresh, name, theme), true)],
        ),
        MessageView::InstallColorScheme(k) => (p, seq![ActionView::InstallTheme(lookup(p, k), false)]),
        MessageView::Installed(c, make_current) => if make_current {
            (
                PageView {
                    installed: with_named(p.installed, c),
                    current: Some(c),
                    themes: kept_first(p.themes, c.id, c.theme),
                    ..p
                },
                seq![ActionView::WriteCurrentConfig(c)],
            )
        } else {
            (PageView { installed: with_named(p.installed, c), ..p }, seq![])
        },
        MessageView::SetColorScheme(k) => (p, seq![ActionView::ApplyTheme(lookup(p, k), true)]),
        MessageView::SetColorSchemeWithRollBack(k) => (p, seq![ActionView::ApplyTheme(lookup(p, k), false)]),
        MessageView::ThemeApplied(c, remember) => (
            PageView { current: Some(c), saved: if remember { Some(c) } else { p.saved }, ..p },
            seq![ActionView::WriteCurrentConfig(c)],
        ),
        MessageView::RevertOldTheme => match p.saved {
            Some(old) => (
                PageView { current: Some(old), ..p },
                seq![ActionView::ApplyThemeOnly(old), ActionView::WriteCurrentConfig(old)],
            ),
            None => (p, seq![]),
        },
        MessageView::DeleteColorScheme(k) => {
            let c = lookup(p, k);
            (
                PageView { installed: without_name(p.installed, c.name), ..p },
                match c.path {
                    Some(path) => seq![ActionView::RemoveFile(path)],
                    None => seq![],
                },
            )
        },
        MessageView::SetAvailableColorSchemes(list) => (
            PageView { status: Status::Idle, available: list, themes: kept_all(p.themes, list), ..p },
            seq![ActionView::CacheThemes(list)],
        ),
        MessageView::FetchAvailableColorSchemes => (
            PageView { status: Status::Loading, ..p },
            seq![ActionView::DownloadThemes],
        ),
        MessageView::OpenFolder(path) => (p, seq![ActionView::OpenFolder(path)]),
        MessageView::OpenLink(link) => (p, seq![ActionView::OpenLink(link)]),
        MessageView::TabSelected(t) => (PageView { tab: t, ..p }, seq![]),
        MessageView::ToggleDarkMode(d) => (PageView { is_dark: d, ..p }, seq![ActionView::WriteDarkMode(d)]),
        MessageView::SortBy(s) => (PageView { sort_by: s, ..p }, seq![]),
        MessageView::Query(q) => (PageView { query: q, ..p }, seq![]),
        MessageView::Reset => (p, seq![ActionView::ResetThemeConfigs]),
    }
}

} // verus!

verus! {

/// The value of the page built from what is on disk: the installed schemes
/// stored by name in order (a later scheme replaces an earlier one of the same
/// name), the cached downloadable schemes if the cache could be read, and
/// otherwise none and a download under way.
pub open spec fn installed_from(list: Seq<SchemeView>) -> Seq<SchemeView>
    decreases list.len(),
{
    if list.len() == 0 {
        list
    } else {
        with_named(installed_from(list.drop_last()), list.last())
    }
}

impl ColorSchemes {
    /// The installed schemes have distinct names, and the table of themes
    /// one entry per identifier.
    pub open spec fn wf(self) -> bool {
        &&& distinct_names(views_of(self.installed@))
        &&& distinct_ids(theme_entries(self.themes@))
    }

    /// The page as it starts: `current_config` from the page's configuration,
    /// the cached downloadable schemes when the cache could be read (otherwise
    /// none, and a download is asked for), the installed schemes found in the
    /// theme directories, and the desktop's dark mode.
    pub fn new(
        current_config: Option<ColorScheme>,
        cached: Option<Vec<ColorScheme>>,
        installed: Vec<ColorScheme>,
        is_dark: bool,
    ) -> (r: (Self, Vec<Action>))
        ensures
            r.0.wf(),
            r.0@.installed == installed_from(views_of(installed@)),
            r.0@.available == match cached {
                Some(v) => views_of(v@),
                None => Seq::<SchemeView>::empty(),
            },
            r.0@.current == opt_scheme_view(current_config),
            r.0@.saved == opt_scheme_view(current_config),
            r.0@.status == (if cached is Some { Status::Idle } else { Status::Loading }),
            r.0@.is_dark == is_dark,
            r.0@.query == Seq::<char>::empty(),
            r.0@.sort_by == SortBy::LastModified,
            r.0@.tab == Tab::Installed,
            r.0@.themes == kept_all(kept_all(Seq::empty(), views_of(installed@)), r.0@.available),
            actions_view(r.1@) == (if cached is Some { Seq::<ActionView>::empty() } else {
                seq![ActionView::DownloadThemes]
            }),
    {
        let mut map: Vec<ColorScheme> = Vec::new();
        let n = installed.len();
        let mut k: usize = 0;
        proof {
            assert(views_of(installed@).take(0) =~= Seq::<SchemeView>::empty());
            assert(views_of(map@) =~= Seq::<SchemeView>::empty());
        }
        while k < n
            invariant
                n == installed@.len(),
                k <= n,
                views_of(map@) == installed_from(views_of(installed@).take(k as int)),
                distinct_names(views_of(map@)),
            decreases n - k,
        {
            let c = installed[k].clone();
            map = Self::store(&map, c);
            assert(views_of(installed@).take(k + 1).drop_last() =~= views_of(installed@).take(k as int));
            assert(views_of(installed@).take(k + 1).last() == installed@[k as int]@);
            k = k + 1;
        }
        proof {
            assert(views_of(installed@).take(n as int) =~= views_of(installed@));
        }
        let need_fetching = cached.is_none();
        let available = match cached {
            Some(v) => v,
            None => Vec::new(),
        };
        proof {
            if need_fetching {
                assert(views_of(available@) =~= Seq::<SchemeView>::empty());
            }
        }
        let mut themes: Vec<(u128, String)> = Vec::new();
        assert(theme_entries(themes@) =~= Seq::<(u128, Seq<char>)>::empty());
        Self::keep_all(&mut themes, &installed);
        Self::keep_all(&mut themes, &available);
        let saved = clone_opt_scheme(&current_config);
        let page = ColorSchemes {
            installed: map,
            available,
            current_config,
            saved_color_theme: saved,
            status: if need_fetching { Status::Loading } else { Status::Idle },
            is_dark,
            query: String::new(),
            sort_by: SortBy::default(),
            tab: Tab::Installed,
            themes,
        };
        let mut actions: Vec<Action> = Vec::new();
        if need_fetching {
            actions.push(Action::DownloadThemes);
        }
        proof {
            if need_fetching {
                assert(actions_view(actions@) =~= seq![ActionView::DownloadThemes]);
            } else {
                assert(actions_view(actions@) =~= Seq::<ActionView>::empty());
            }
        }
        (page, actions)
    }

    /// Records `theme` for `id` unless the table already holds a theme for it.
    fn keep_first(themes: &mut Vec<(u128, String)>, id: u128, theme: &String)
        requires
            distinct_ids(theme_entries(old(themes)@)),
        ensures
            theme_entries(final(themes)@) == kept_first(theme_entries(old(themes)@), id, theme@),
            distinct_ids(theme_entries(final(themes)@)),
    {
        let ghost t = theme_entries(themes@);
        let n = themes.len();
        let mut k: usize = 0;
        while k < n
            invariant
                n == themes@.len(),
                t == theme_entries(themes@),
                distinct_ids(t),
                k <= n,
                forall|j: int| 0 <= j < k ==> themes@[j].0 != id,
            decreases n - k,
        {
            if themes[k].0 == id {
                assert(t[k as int].0 == id);
                assert(has_id(t, id));
                return;
            }
            k = k + 1;
        }
        assert(!has_id(t, id)) by {
            if has_id(t, id) {
                let i = choose|i: int| 0 <= i < t.len() && #[trigger] t[i].0 == id;
                assert(themes@[i].0 == id);
            }
        }
        themes.push((id, theme.clone()));
        assert(theme_entries(themes@) =~= t.push((id, theme@)));
        assert forall|i: int, j: int| 0 <= i < j < t.len() + 1 implies
            #[trigger] t.push((id, theme@))[i].0 != #[trigger] t.push((id, theme@))[j].0 by {
            if j == t.len() {
                assert(t[i].0 != id);
            } else {
                assert(t[i].0 != t[j].0);
            }
        }
    }

    /// Records the theme of each scheme of `list`, in order, as `keep_first` does.
    fn keep_all(themes: &mut Vec<(u128, String)>, list: &Vec<ColorScheme>)
        requires
            distinct_ids(theme_entries(old(themes)@)),
        ensures
            theme_entries(final(themes)@) == kept_all(theme_entries(old(themes)@), views_of(list@)),
            distinct_ids(theme_entries(final(themes)@)),
    {
        let ghost t0 = theme_entries(themes@);
        let n = list.len();
        let mut k: usize = 0;
        assert(views_of(list@).take(0) =~= Seq::<SchemeView>::empty());
        while k < n
            invariant
                n == list@.len(),
                k <= n,
                theme_entries(themes@) == kept_all(t0, views_of(list@).take(k as int)),
                distinct_ids(theme_entries(themes@)),
            decreases n - k,
        {
            Self::keep_first(themes, list[k].id, &list[k].theme);
            assert(views_of(list@).take(k + 1).drop_last() =~= views_of(list@).take(k as int));
            assert(views_of(list@).take(k + 1).last() == list@[k as int]@);
            k = k + 1;
        }
        assert(views_of(list@).take(n as int) =~= views_of(list@));
    }

    /// `list` with `c` stored under its name.
    fn store(list: &Vec<ColorScheme>, c: ColorScheme) -> (r: Vec<ColorScheme>)
        requires
            distinct_names(views_of(list@)),
        ensures
            views_of(r@) == with_named(views_of(list@), c@),
            distinct_names(views_of(r@)),
    {
        let mut out = without_named(list, c.name.as_str());
        let ghost w = views_of(out@);
        proof {
            lemma_with_named(views_of(list@), c@);
        }
        out.push(c);
        assert(views_of(out@) =~= w.push(c@));
        out
    }
}

} // verus!

verus! {

impl ColorSchemes {
    /// The scheme a key names.
    pub fn get(&self, key: &ColorSchemeKey) -> (r: &ColorScheme)
        requires
            self.wf(),
            key_valid(self@, key@),
        ensures
            r@ == lookup(self@, key@),
    {
        match key {
            ColorSchemeKey::Installed(name) => {
                let n = self.installed.len();
                let mut i: usize = 0;
                while i < n
                    invariant
                        n == self.installed@.len(),
                        i <= n,
                        has_name(self@.installed, name@),
                        self.wf(),
                        key@ == KeyView::Installed(name@),
                        forall|j: int| 0 <= j < i ==> self@.installed[j].name != name@,
                    decreases n - i,
                {
                    if same_text(self.installed[i].name.as_str(), name.as_str()) {
                        proof {
                            let s = self@.installed;
                            let j = choose|j: int| 0 <= j < s.len() && s[j].name == name@;
                            if j != i {
                                if j < i {
                                    assert(s[j].name != s[i as int].name);
                                } else {
                                    assert(s[i as int].name != s[j].name);
                                }
                            }
                            assert(j == i);
                            assert(named(s, name@) == s[i as int]);
                        }
                        assert(self@.installed[i as int] == self.installed@[i as int]@);
                        let r = &self.installed[i];
                        assert(r@ == lookup(self@, key@));
                        return r;
                    }
                    i = i + 1;
                }
                proof {
                    let s = self@.installed;
                    let j = choose|j: int| 0 <= j < s.len() && s[j].name == name@;
                    assert(s[j].name != name@);
                }
                &self.installed[0]
            },
            ColorSchemeKey::Available(i) => &self.available[*i],
        }
    }

    /// Whether a scheme of this name is installed (the install button is
    /// offered only when it is not).
    pub fn is_installed(&self, name: &str) -> (r: bool)
        ensures
            r == has_name(self@.installed, name@),
    {
        let n = self.installed.len();
        let mut i: usize = 0;
        while i < n
            invariant
                n == self.installed@.len(),
                i <= n,
                forall|j: int| 0 <= j < i ==> self@.installed[j].name != name@,
            decreases n - i,
        {
            if same_text(self.installed[i].name.as_str(), name) {
                assert(self@.installed[i as int].name == name@);
                return true;
            }
            i = i + 1;
        }
        false
    }

    /// Whether going back to the saved scheme is offered: there is a saved
    /// scheme, and it is not the current one (by name).
    pub fn can_revert(&self) -> (r: bool)
        ensures
            r == can_revert_to(self@.saved, self@.current),
    {
        match (&self.saved_color_theme, &self.current_config) {
            (None, None) => false,
            (None, Some(_)) => false,
            (Some(_), None) => true,
            (Some(old), Some(current)) => !same_text(old.name.as_str(), current.name.as_str()),
        }
    }

    /// Records the desktop's dark mode.
    pub fn set_theme_mode(&mut self, is_dark: bool)
        ensures
            final(self)@ == (PageView { is_dark, ..old(self)@ }),
    {
        self.is_dark = is_dark;
    }

    /// Sets the search text.
    pub fn set_query(&mut self, query: String)
        ensures
            final(self)@ == (PageView { query: query@, ..old(self)@ }),
    {
        self.query = query;
    }
}

/// Going back is offered when there is a saved scheme that is not the current one.
pub open spec fn can_revert_to(saved: Option<SchemeView>, current: Option<SchemeView>) -> bool {
    match (saved, current) {
        (Some(old), Some(cur)) => old.name != cur.name,
        (Some(_), None) => true,
        _ => false,
    }
}

} // verus!

verus! {

fn no_actions() -> (v: Vec<Action>)
    ensures
        actions_view(v@) == Seq::<ActionView>::empty(),
{
    let v: Vec<Action> = Vec::new();
    assert(actions_view(v@) =~= Seq::<ActionView>::empty());
    v
}

fn one_action(a: Action) -> (v: Vec<Action>)
    ensures
        actions_view(v@) == seq![a@],
{
    let mut v: Vec<Action> = Vec::new();
    let ghost av = a@;
    v.push(a);
    assert(actions_view(v@) =~= seq![av]);
    v
}

fn two_actions(a: Action, b: Action) -> (v: Vec<Action>)
    ensures
        actions_view(v@) == seq![a@, b@],
{
    let mut v: Vec<Action> = Vec::new();
    let ghost av = a@;
    let ghost bv = b@;
    v.push(a);
    v.push(b);
    assert(actions_view(v@) =~= seq![av, bv]);
    v
}

impl ColorSchemes {
    /// Handles a message: updates the page and returns what it asks of the
    /// program, as `step` says.
    pub fn update(&mut self, message: Message) -> (actions: Vec<Action>)
        requires
            old(self).wf(),
            message_ok(old(self)@, message@),
        ensures
            final(self).wf(),
            exists|fresh: u128| (final(self)@, actions_view(actions@)) == step(old(self)@, message@, fresh),
    {
        let ghost p = self@;
        let ghost m = message@;
        match message {
            Message::StartImport => {
                let a = one_action(Action::PickImportFile);
                assert((self@, actions_view(a@)) == step(p, m, 0));
                a
            },
            Message::Imported(theme) => {
                let applied = theme.clone();
                Self::keep_first(&mut self.themes, theme.id, &theme.theme);
                self.installed = Self::store(&self.installed, theme);
                let a = one_action(Action::ApplyTheme(applied, true));
                assert(self@ =~= (PageView {
                    installed: with_named(p.installed, applied@),
                    themes: kept_first(p.themes, applied@.id, applied@.theme),
                    ..p
                }));
                assert((self@, actions_view(a@)) == step(p, m, 0));
                a
            },
            Message::Error(kind, _text) => {
                if kind == MessageErrorKind::Fetching {
                    self.status = Status::Idle;
                }
                let a = no_actions();
                assert((self@, actions_view(a@)) == step(p, m, 0));
                a
            },
            Message::SaveCurrentColorScheme(name) => {
                let name = name.unwrap();
                let a = one_action(Action::ReadCurrentTheme(name));
                assert((self@, actions_view(a@)) == step(p, m, 0));
                a
            },
            Message::CurrentThemeRead(name, theme) => {
                let mut scheme = ColorScheme::new(name, theme);
                scheme.source = Some(Source::Saved);
                let ghost fresh = scheme.id;
                assert(scheme@ == saved_scheme(fresh, m->CurrentThemeRead_0, m->CurrentThemeRead_1));
                let a = one_action(Action::InstallTheme(scheme, true));
                assert((self@, actions_view(a@)) == step(p, m, fresh));
                a
            },
            Message::InstallColorScheme(key) => {
                let c = self.get(&key).clone();
                let a = one_action(Action::InstallTheme(c, false));
                assert((self@, actions_view(a@)) == step(p, m, 0));
                a
            },
            Message::Installed(theme, make_current) => {
                let kept = theme.clone();
                self.installed = Self::store(&self.installed, theme);
                if make_current {
                    Self::keep_first(&mut self.themes, kept.id, &kept.theme);
                    let written = kept.clone();
                    self.current_config = Some(kept);
                    let a = one_action(Action::WriteCurrentConfig(written));
                    assert(self@ =~= (PageView {
                        installed: with_named(p.installed, written@),
                        current: Some(written@),
                        themes: kept_first(p.themes, written@.id, written@.theme),
                        ..p
                    }));
                    assert((self@, actions_view(a@)) == step(p, m, 0));
                    a
                } else {
                    let a = no_actions();
                    assert(self@ =~= (PageView { installed: with_named(p.installed, kept@), ..p }));
                    assert((self@, actions_view(a@)) == step(p, m, 0));
                    a
                }
            },
            Message::SetColorScheme(key) => {
                let c = self.get(&key).clone();
                let a = one_action(Action::ApplyTheme(c, true));
                assert((self@, actions_view(a@)) == step(p, m, 0));
                a
            },
            Message::SetColorSchemeWithRollBack(key) => {
                let c = self.get(&key).clone();
                let a = one_action(Action::ApplyTheme(c, false));
                assert((self@, actions_view(a@)) == step(p, m, 0));
                a
            },
            Message::ThemeApplied(theme, remember) => {
                let written = theme.clone();
                if remember {
                    self.saved_color_theme = Some(theme.clone());
                }
                self.current_config = Some(theme);
                let a = one_action(Action::WriteCurrentConfig(written));
                assert((self@, actions_view(a@)) == step(p, m, 0));
                a
            },
            Message::RevertOldTheme => {
                match &self.saved_color_theme {
                    Some(old) => {
                        let applied = old.clone();
                        let written = old.clone();
                        let current = old.clone();
                        self.current_config = Some(current);
                        let a = two_actions(Action::ApplyThemeOnly(applied), Action::WriteCurrentConfig(written));
                        assert((self@, actions_view(a@)) == step(p, m, 0));
                        a
                    },
                    None => {
                        let a = no_actions();
                        assert((self@, actions_view(a@)) == step(p, m, 0));
                        a
                    },
                }
            },
            Message::DeleteColorScheme(key) => {
                let c = self.get(&key).clone();
                let installed = without_named(&self.installed, c.name.as_str());
                proof {
                    lemma_without_name(p.installed, c@.name);
                }
                self.installed = installed;
                let a = match c.path {
                    Some(path) => one_action(Action::RemoveFile(path)),
                    None => no_actions(),
                };
                assert(self@ =~= (PageView { installed: without_name(p.installed, c@.name), ..p }));
                assert((self@, actions_view(a@)) == step(p, m, 0));
                a
            },
            Message::SetAvailableColorSchemes(available) => {
                self.status = Status::Idle;
                Self::keep_all(&mut self.themes, &available);
                let cached = Self::copy_all(&available);
                self.available = available;
                let a = one_action(Action::CacheThemes(cached));
                assert((self@, actions_view(a@)) == step(p, m, 0));
                a
            },
            Message::FetchAvailableColorSchemes => {
                self.status = Status::Loading;
                let a = one_action(Action::DownloadThemes);
                assert((self@, actions_view(a@)) == step(p, m, 0));
                a
            },
            Message::OpenFolder(path) => {
                let a = one_action(Action::OpenFolder(path));
                assert((self@, actions_view(a@)) == step(p, m, 0));
                a
            },
            Message::OpenLink(link) => {
                let a = one_action(Action::OpenLink(link));
                assert((self@, actions_view(a@)) == step(p, m, 0));
                a
            },
            Message::TabSelected(tab) => {
                self.tab = tab;
                let a = no_actions();
                assert((self@, actions_view(a@)) == step(p, m, 0));
                a
            },
            Message::ToggleDarkMode(dark) => {
                self.is_dark = dark;
                let a = one_action(Action::WriteDarkMode(dark));
                assert((self@, actions_view(a@)) == step(p, m, 0));
                a
            },
            Message::SortBy(sort_by) => {
                self.sort_by = sort_by;
                let a = no_actions();
                assert((self@, actions_view(a@)) == step(p, m, 0));
                a
            },
            Message::Query(query) => {
                self.set_query(query);
                let a = no_actions();
                assert((self@, actions_view(a@)) == step(p, m, 0));
                a
            },
            Message::Reset => {
                let a = one_action(Action::ResetThemeConfigs);
                assert((self@, actions_view(a@)) == step(p, m, 0));
                a
            },
        }
    }

    /// Copies of all the schemes of a list.
    fn copy_all(v: &Vec<ColorScheme>) -> (r: Vec<ColorScheme>)
        ensures
            views_of(r@) == views_of(v@),
    {
        let mut out: Vec<ColorScheme> = Vec::new();
        let n = v.len();
        let mut k: usize = 0;
        while k < n
            invariant
                n == v@.len(),
                k <= n,
                out@.len() == k,
                forall|j: int| 0 <= j < k ==> (#[trigger] out@[j])@ == v@[j]@,
            decreases n - k,
        {
            let c = v[k].clone();
            out.push(c);
            k = k + 1;
        }
        assert(views_of(out@) =~= views_of(v@));
        out
    }
}

} // verus!

verus! {

/// The schemes of the open tab.
pub open spec fn tab_items(p: &ColorSchemes) -> Seq<ColorScheme> {
    match p.tab {
        Tab::Installed => p.installed@,
        Tab::Available => p.available@,
    }
}

/// `perm` lists, each once, the positions of `items` that `shown` selects,
/// ordered by `by`, positions of schemes that compare equal in their order.
pub open spec fn shown_in_order(
    items: Seq<ColorScheme>,
    ranks: Seq<u64>,
    shown: spec_fn(usize) -> bool,
    by: SortBy,
    perm: Seq<usize>,
) -> bool {
    &&& perm.no_duplicates()
    &&& forall|x: usize| perm.contains(x) <==> (x < items.len() && shown(x))
    &&& sorted_by(by, items, ranks, perm)
    &&& stable_by(by, items, ranks, perm)
}

/// `perm` is the order in which the page shows the open tab: the positions of
/// the schemes whose name the search text matches (all for an empty search),
/// by the chosen sort order, stably, names and authors ordered by their
/// collation `ranks`.
pub open spec fn displayed_order(p: &ColorSchemes, ranks: Seq<u64>, perm: Seq<usize>) -> bool {
    shown_in_order(tab_items(p), ranks, |x: usize| shown_for(p.query@, tab_items(p)[x as int].name@), p.sort_by, perm)
}

/// The key of the scheme at a position of the open tab.
pub open spec fn key_of(p: &ColorSchemes, pos: usize) -> KeyView {
    match p.tab {
        Tab::Installed => KeyView::Installed(p.installed@[pos as int].name@),
        Tab::Available => KeyView::Available(pos as nat),
    }
}

impl ColorSchemes {
    /// The positions of the open tab's schemes to show, in the order to show
    /// them, given for each position whether the search selects it and the
    /// collation rank of the text its scheme is compared by (its name when
    /// sorting by name, its author when sorting by author).
    pub fn order_shown(&self, shown: &Vec<bool>, ranks: &Vec<u64>) -> (perm: Vec<usize>)
        requires
            shown@.len() == tab_items(self).len(),
            ranks@.len() == tab_items(self).len(),
        ensures
            shown_in_order(tab_items(self), ranks@, |x: usize| shown@[x as int], self.sort_by, perm@),
    {
        let items = match self.tab {
            Tab::Installed => &self.installed,
            Tab::Available => &self.available,
        };
        let n = items.len();
        let mut base: Vec<usize> = Vec::new();
        let mut i: usize = 0;
        while i < n
            invariant
                n == items@.len(),
                n == shown@.len(),
                i <= n,
                increasing(base@),
                forall|j: int| 0 <= j < base@.len() ==> #[trigger] base@[j] < i,
                forall|x: usize| base@.contains(x) <==> (x < i && shown@[x as int]),
            decreases n - i,
        {
            if shown[i] {
                let ghost old_base = base@;
                base.push(i);
                proof {
                    assert forall|x: usize| base@.contains(x) <==> (x < i + 1 && shown@[x as int]) by {
                        if base@.contains(x) && x != i {
                            let t = choose|t: int| 0 <= t < base@.len() && base@[t] == x;
                            assert(old_base[t] == x);
                        }
                        if x < i && shown@[x as int] {
                            let t = choose|t: int| 0 <= t < old_base.len() && old_base[t] == x;
                            assert(base@[t] == x);
                        }
                        if x == i {
                            assert(base@[base@.len() - 1] == i);
                        }
                    }
                }
            }
            i = i + 1;
        }
        proof {
            assert forall|j: int| 0 <= j < base@.len() implies in_range(items@, #[trigger] base@[j]) by {}
            assert forall|a: int, b: int| 0 <= a < base@.len() && 0 <= b < base@.len() && a != b
                implies base@[a] != base@[b] by {
                if a < b { assert(base@[a] < base@[b]); } else { assert(base@[b] < base@[a]); }
            }
        }
        stable_sort_positions(items, ranks, &base, self.sort_by)
    }

    /// The positions of the open tab's schemes to show, in the order to show
    /// them: those whose name the search text matches (all of them for an
    /// empty search), by the chosen sort order, stably. `ranks` gives, position
    /// by position, the collation rank of the text each scheme is compared by.
    pub fn value_positions(&self, ranks: &Vec<u64>) -> (perm: Vec<usize>)
        requires
            ranks@.len() == tab_items(self).len(),
        ensures
            displayed_order(self, ranks@, perm@),
    {
        let items = match self.tab {
            Tab::Installed => &self.installed,
            Tab::Available => &self.available,
        };
        let n = items.len();
        let mut shown: Vec<bool> = Vec::new();
        let mut i: usize = 0;
        while i < n
            invariant
                n == items@.len(),
                i <= n,
                shown@.len() == i,
                forall|j: int| 0 <= j < i ==> shown@[j] == shown_for(self.query@, #[trigger] items@[j].name@),
            decreases n - i,
        {
            let s = is_shown_for(self.query.as_str(), items[i].name.as_str());
            shown.push(s);
            i = i + 1;
        }
        let perm = self.order_shown(&shown, ranks);
        proof {
            assert forall|x: usize| perm@.contains(x) <==> (x < items@.len()
                && shown_for(self.query@, tab_items(self)[x as int].name@)) by {
                if x < items@.len() {
                    assert(shown@[x as int] == shown_for(self.query@, items@[x as int].name@));
                }
            }
        }
        perm
    }

    /// The keys of the open tab's schemes to show, in the order to show them
    /// (see `value_positions`).
    pub fn values(&self, ranks: &Vec<u64>) -> (keys: Vec<ColorSchemeKey>)
        requires
            ranks@.len() == tab_items(self).len(),
        ensures
            exists|perm: Seq<usize>| {
                &&& #[trigger] displayed_order(self, ranks@, perm)
                &&& keys@.len() == perm.len()
                &&& forall|j: int| 0 <= j < perm.len() ==> (#[trigger] keys@[j])@ == key_of(self, perm[j])
            },
    {
        let perm = self.value_positions(ranks);
        let n = perm.len();
        let mut keys: Vec<ColorSchemeKey> = Vec::new();
        let mut j: usize = 0;
        while j < n
            invariant
                n == perm@.len(),
                j <= n,
                keys@.len() == j,
                forall|x: usize| perm@.contains(x) ==> x < tab_items(self).len(),
                forall|t: int| 0 <= t < j ==> (#[trigger] keys@[t])@ == key_of(self, perm@[t]),
            decreases n - j,
        {
            let pos = perm[j];
            assert(perm@.contains(pos));
            let key = match self.tab {
                Tab::Installed => ColorSchemeKey::Installed(self.installed[pos].name.clone()),
                Tab::Available => ColorSchemeKey::Available(pos),
            };
            keys.push(key);
            j = j + 1;
        }
        keys
    }
}

} // verus!
