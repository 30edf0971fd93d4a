//! The window of the standalone tweak tool: its navigation, its drawer (about,
//! settings and the downloadable color schemes), the dialog that names a saved
//! scheme, and the paged download of schemes.

use vstd::prelude::*;

use super::manager::{opt_write, ConfigManager, ManagerView, Write, WriteView};
use super::pages::{DockMessage, PanelMessage};
use crate::color_schemes::models::ColorScheme;
use crate::color_schemes::page as schemes;
use crate::config::{theme_of_index, theme_spec, AppTheme, ThemeSpec};
use crate::nav::NavPage;

verus! {

/// The address of the schemes offered online, to which the page's limit and
/// offset are added.
pub const THEMES_API: &'static str = "https://cosmic-themes.org/api/themes/?order=name";

/// The number of schemes asked for per page.
pub const PAGE_LIMIT: usize = 15;

/// Whether downloadable schemes are being fetched, and whether some are shown.
#[derive(Clone, Copy, Debug, PartialEq, Eq, Structural)]
pub enum FetchStatus {
    Idle,
    /// The first page is being fetched.
    Loading,
    /// A further page is being fetched.
    LoadingMore,
}

/// The drawer's pages.
#[derive(Clone, Copy, Debug, PartialEq, Eq, Structural)]
pub enum ToolContextPage {
    AvailableThemes,
    Settings,
    About,
}

impl ToolContextPage {
    /// The localization key of the drawer's title.
    pub fn title(&self) -> (k: &'static str)
        ensures
            k@ == match *self {
                ToolContextPage::About => "about"@,
                ToolContextPage::Settings => "settings"@,
                ToolContextPage::AvailableThemes => "available"@,
            },
    {
        match self {
            ToolContextPage::About => "about",
            ToolContextPage::Settings => "settings",
            ToolContextPage::AvailableThemes => "available",
        }
    }
}

/// The dialog asking for the name of a saved scheme, with the name typed so far.
#[derive(Debug)]
pub enum ToolDialog {
    New(String),
}

/// What the tool's window is told.
#[derive(Debug)]
pub enum ToolMessage {
    Dock(DockMessage),
    Panel(PanelMessage),
    ColorSchemes(schemes::Message),
    /// Show the downloadable schemes in the drawer.
    OpenAvailableThemes,
    OpenSaveDialog,
    DialogUpdate(ToolDialog),
    DialogComplete,
    DialogCancel,
    SaveNewColorScheme(String),
    ToggleContextPage(ToolContextPage),
    LaunchUrl(String),
    AppTheme(usize),
    /// Fetch the next page of downloadable schemes, of this many.
    FetchAvailableColorSchemes(usize),
    /// A page of downloadable schemes arrived (empty when fetching failed).
    SetAvailableColorSchemes(Vec<ColorScheme>),
    NavSelect(NavPage),
}

/// What the tool's window asks of the program, in order.
#[derive(Debug)]
pub enum ToolEffect {
    /// Build the dock page from the configurations and hand it the message.
    Dock(DockMessage),
    /// Build the panel page from the configurations and hand it the message.
    Panel(PanelMessage),
    ColorSchemes(schemes::Message),
    /// Fetch this many schemes from `THEMES_API`, starting at this offset, and
    /// report them with `SetAvailableColorSchemes`.
    FetchThemes(usize, usize),
    Write(Write),
    /// Build the window's theme this way.
    ApplyAppTheme(ThemeSpec),
    OpenUrl(String),
    FocusDialogInput,
    SetContextTitle(ToolContextPage),
}

/// The tool's window.
#[derive(Debug)]
pub struct TweakTool {
    pub dialog_pages: Vec<ToolDialog>,
    pub context_page: ToolContextPage,
    pub show_context: bool,
    pub active_page: NavPage,
    pub manager: ConfigManager,
    pub available: Vec<ColorScheme>,
    pub status: FetchStatus,
    pub limit: usize,
    pub offset: usize,
}

/// The button under the downloadable schemes.
#[derive(Clone, Copy, Debug, PartialEq, Eq, Structural)]
pub enum MoreButton {
    /// Fetch this many more.
    ShowMore(usize),
    /// A label saying more are being fetched.
    Loading,
    Hidden,
}

/// What the drawer of downloadable schemes shows: a loading text, the list,
/// and the button under it.
#[derive(Clone, Copy, Debug, PartialEq, Eq, Structural)]
pub struct AvailableView {
    pub loading: bool,
    pub list: bool,
    pub more: MoreButton,
}

/// A list of one effect.
fn one(e: ToolEffect) -> (v: Vec<ToolEffect>)
    ensures
        v@ == seq![e],
{
    let v = vec![e];
    assert(v@ =~= seq![e]);
    v
}

/// The write asked for, if any, followed by `e`.
fn then(w: Option<Write>, e: ToolEffect) -> (v: Vec<ToolEffect>)
    ensures
        v@ == match w {
            Some(w) => seq![ToolEffect::Write(w), e],
            None => seq![e],
        },
{
    let mut v: Vec<ToolEffect> = Vec::new();
    let ghost w0 = w;
    match w {
        Some(w) => v.push(ToolEffect::Write(w)),
        None => {},
    }
    v.push(e);
    proof {
        match w0 {
            Some(x) => assert(v@ =~= seq![ToolEffect::Write(x), e]),
            None => assert(v@ =~= seq![e]),
        }
    }
    v
}

/// The drawer after a request for `page`: the page it shows is hidden or
/// shown in turn; another page is shown.
pub open spec fn drawer_after(current: ToolContextPage, shown: bool, page: ToolContextPage) -> (ToolContextPage, bool) {
    if current == page {
        (current, !shown)
    } else {
        (page, true)
    }
}

impl TweakTool {
    /// The window as it opens over the configurations read: no dialog, the
    /// drawer hidden on the about page, the first page, no scheme downloaded;
    /// it starts fetching the first page of downloadable schemes.
    pub fn init(manager: ConfigManager) -> (r: (TweakTool, Vec<ToolEffect>))
        ensures
            r.0.dialog_pages@.len() == 0,
            r.0.context_page == ToolContextPage::About,
            !r.0.show_context,
            r.0.active_page == NavPage::ColorSchemes,
            r.0.manager@ == manager@,
            r.0.available@.len() == 0,
            r.0.status == FetchStatus::Loading,
            r.0.limit == PAGE_LIMIT,
            r.0.offset == PAGE_LIMIT,
            r.1@ == seq![ToolEffect::FetchThemes(PAGE_LIMIT, PAGE_LIMIT)],
    {
        let mut t = TweakTool {
            dialog_pages: Vec::new(),
            context_page: ToolContextPage::About,
            show_context: false,
            active_page: NavPage::default(),
            manager,
            available: Vec::new(),
            status: FetchStatus::Idle,
            limit: PAGE_LIMIT,
            offset: 0,
        };
        let e = t.fetch(PAGE_LIMIT);
        (t, one(e))
    }

    fn fetch(&mut self, limit: usize) -> (e: ToolEffect)
        requires
            old(self).offset + limit <= usize::MAX,
        ensures
            final(self).status == (if old(self).offset == 0 { FetchStatus::Loading } else { FetchStatus::LoadingMore }),
            final(self).limit == limit,
            final(self).offset == old(self).offset + limit,
            e == ToolEffect::FetchThemes(limit, (old(self).offset + limit) as usize),
            final(self).dialog_pages == old(self).dialog_pages,
            final(self).context_page == old(self).context_page,
            final(self).show_context == old(self).show_context,
            final(self).active_page == old(self).active_page,
            final(self).manager == old(self).manager,
            final(self).available == old(self).available,
    {
        self.status = if self.offset == 0 { FetchStatus::Loading } else { FetchStatus::LoadingMore };
        self.limit = limit;
        self.offset = self.offset + limit;
        ToolEffect::FetchThemes(limit, self.offset)
    }

    /// The drawer's page, if the drawer is shown.
    pub fn context_drawer(&self) -> (r: Option<ToolContextPage>)
        ensures
            r == (if self.show_context { Some(self.context_page) } else { None }),
    {
        if self.show_context { Some(self.context_page) } else { None }
    }

    /// What the drawer of downloadable schemes shows: a loading text while the
    /// first page is fetched, else the list; under it a button to fetch more
    /// when idle, or a loading label while more are fetched.
    pub fn available_themes(&self) -> (v: AvailableView)
        ensures
            v.loading == (self.status == FetchStatus::Loading),
            v.list == (self.status != FetchStatus::Loading),
            v.more == match self.status {
                FetchStatus::Idle => MoreButton::ShowMore(self.limit),
                FetchStatus::LoadingMore => MoreButton::Loading,
                FetchStatus::Loading => MoreButton::Hidden,
            },
    {
        match self.status {
            FetchStatus::Idle => AvailableView { loading: false, list: true, more: MoreButton::ShowMore(self.limit) },
            FetchStatus::LoadingMore => AvailableView { loading: false, list: true, more: MoreButton::Loading },
            FetchStatus::Loading => AvailableView { loading: true, list: false, more: MoreButton::Hidden },
        }
    }

    /// The theme menu's item showing the tool's theme.
    pub fn settings(&self) -> (i: usize)
        ensures
            i == crate::config::theme_index(self.manager.app_config.app_theme),
    {
        self.manager.app_config.app_theme.index()
    }

    fn toggle_context(&mut self, page: ToolContextPage) -> (e: ToolEffect)
        ensures
            (final(self).context_page, final(self).show_context)
                == drawer_after(old(self).context_page, old(self).show_context, page),
            e == ToolEffect::SetContextTitle(page),
            final(self).dialog_pages == old(self).dialog_pages,
            final(self).active_page == old(self).active_page,
            final(self).manager == old(self).manager,
            final(self).available == old(self).available,
            final(self).status == old(self).status,
            final(self).limit == old(self).limit,
            final(self).offset == old(self).offset,
    {
        if self.context_page == page {
            self.show_context = !self.show_context;
        } else {
            self.context_page = page;
            self.show_context = true;
        }
        ToolEffect::SetContextTitle(page)
    }

    fn open_save_dialog(&mut self) -> (v: Vec<ToolEffect>)
        ensures
            final(self).dialog_pages@.len() == old(self).dialog_pages@.len() + 1,
            final(self).dialog_pages@.drop_last() == old(self).dialog_pages@,
            final(self).dialog_pages@.last() matches ToolDialog::New(n) && n@ == Seq::<char>::empty(),
            v@ == seq![ToolEffect::FocusDialogInput],
            final(self).context_page == old(self).context_page,
            final(self).show_context == old(self).show_context,
            final(self).active_page == old(self).active_page,
            final(self).manager == old(self).manager,
            final(self).available == old(self).available,
            final(self).status == old(self).status,
            final(self).limit == old(self).limit,
            final(self).offset == old(self).offset,
    {
        self.dialog_pages.push(ToolDialog::New(String::new()));
        assert(self.dialog_pages@.drop_last() =~= old(self).dialog_pages@);
        one(ToolEffect::FocusDialogInput)
    }

    /// Handles a message and says what the program must do next.
    ///
    /// Saving the current scheme without a name opens the dialog asking for
    /// one; completing it saves the scheme under the name typed. Fetching
    /// moves the offset on by the limit before asking for that page, and
    /// arriving schemes are added after those shown.
    pub fn update(&mut self, message: ToolMessage) -> (effects: Vec<ToolEffect>)
        requires
            (message matches ToolMessage::DialogUpdate(_)) ==> old(self).dialog_pages@.len() > 0,
            message matches ToolMessage::FetchAvailableColorSchemes(l) ==> old(self).offset + l <= usize::MAX,
        ensures
            match message {
                ToolMessage::Dock(m) => *final(self) == *old(self) && effects@ == seq![ToolEffect::Dock(m)],
                ToolMessage::Panel(m) => *final(self) == *old(self) && effects@ == seq![ToolEffect::Panel(m)],
                ToolMessage::ColorSchemes(m) => match m {
                    schemes::Message::SaveCurrentColorScheme(None) => final(self).dialog_pages@.len()
                        == old(self).dialog_pages@.len() + 1
                        && final(self).dialog_pages@.drop_last() == old(self).dialog_pages@
                        && (final(self).dialog_pages@.last() matches ToolDialog::New(n) && n@ == Seq::<char>::empty())
                        && effects@ == seq![ToolEffect::FocusDialogInput]
                        && final(self).manager == old(self).manager && final(self).available == old(self).available
                        && final(self).show_context == old(self).show_context,
                    _ => *final(self) == *old(self) && effects@ == seq![ToolEffect::ColorSchemes(m)],
                },
                ToolMessage::OpenAvailableThemes => effects@ == seq![ToolEffect::SetContextTitle(ToolContextPage::AvailableThemes)]
                    && (final(self).context_page, final(self).show_context) == drawer_after(
                        old(self).context_page, old(self).show_context, ToolContextPage::AvailableThemes)
                    && final(self).dialog_pages == old(self).dialog_pages && final(self).manager == old(self).manager,
                ToolMessage::OpenSaveDialog => final(self).dialog_pages@.len() == old(self).dialog_pages@.len() + 1
                    && final(self).dialog_pages@.drop_last() == old(self).dialog_pages@
                    && (final(self).dialog_pages@.last() matches ToolDialog::New(n) && n@ == Seq::<char>::empty())
                    && effects@ == seq![ToolEffect::FocusDialogInput],
                ToolMessage::DialogUpdate(d) => final(self).dialog_pages@ == old(self).dialog_pages@.update(0, d)
                    && effects@.len() == 0 && final(self).manager == old(self).manager,
                ToolMessage::DialogComplete => if old(self).dialog_pages@.len() == 0 {
                    *final(self) == *old(self) && effects@.len() == 0
                } else {
                    final(self).dialog_pages@ == old(self).dialog_pages@.drop_first()
                        && final(self).manager == old(self).manager
                        && match old(self).dialog_pages@[0] {
                            ToolDialog::New(name) => effects@ == seq![
                                ToolEffect::ColorSchemes(schemes::Message::SaveCurrentColorScheme(Some(name))),
                            ],
                        }
                },
                ToolMessage::DialogCancel => effects@.len() == 0 && final(self).manager == old(self).manager
                    && final(self).dialog_pages@ == (if old(self).dialog_pages@.len() == 0 {
                        old(self).dialog_pages@
                    } else {
                        old(self).dialog_pages@.drop_first()
                    }),
                ToolMessage::SaveNewColorScheme(name) => *final(self) == *old(self)
                    && effects@ == seq![ToolEffect::ColorSchemes(schemes::Message::SaveCurrentColorScheme(Some(name)))],
                ToolMessage::ToggleContextPage(page) => effects@ == seq![ToolEffect::SetContextTitle(page)]
                    && (final(self).context_page, final(self).show_context)
                        == drawer_after(old(self).context_page, old(self).show_context, page)
                    && final(self).dialog_pages == old(self).dialog_pages && final(self).manager == old(self).manager,
                ToolMessage::LaunchUrl(url) => *final(self) == *old(self) && effects@ == seq![ToolEffect::OpenUrl(url)],
                ToolMessage::AppTheme(index) => final(self).manager@
                    == (ManagerView { app_theme: theme_of_index(index), ..old(self).manager@ })
                    && effects@ == if old(self).manager.has_app_handler {
                        seq![
                            ToolEffect::Write(Write::AppTheme(theme_of_index(index))),
                            ToolEffect::ApplyAppTheme(theme_spec(theme_of_index(index))),
                        ]
                    } else {
                        seq![ToolEffect::ApplyAppTheme(theme_spec(theme_of_index(index)))]
                    },
                ToolMessage::FetchAvailableColorSchemes(limit) => final(self).status
                    == (if old(self).offset == 0 { FetchStatus::Loading } else { FetchStatus::LoadingMore })
                    && final(self).limit == limit && final(self).offset == old(self).offset + limit
                    && final(self).available == old(self).available
                    && effects@ == seq![ToolEffect::FetchThemes(limit, (old(self).offset + limit) as usize)],
                ToolMessage::SetAvailableColorSchemes(list) => final(self).status == FetchStatus::Idle
                    && final(self).available@ == old(self).available@ + list@
                    && final(self).offset == old(self).offset && final(self).limit == old(self).limit
                    && effects@.len() == 0,
                ToolMessage::NavSelect(page) => final(self).active_page == page && effects@.len() == 0
                    && final(self).dialog_pages == old(self).dialog_pages && final(self).manager == old(self).manager,
            },
    {
        match message {
            ToolMessage::Dock(m) => one(ToolEffect::Dock(m)),
            ToolMessage::Panel(m) => one(ToolEffect::Panel(m)),
            ToolMessage::ColorSchemes(m) => match m {
                schemes::Message::SaveCurrentColorScheme(None) => self.open_save_dialog(),
                m => one(ToolEffect::ColorSchemes(m)),
            },
            ToolMessage::OpenAvailableThemes => {
                let e = self.toggle_context(ToolContextPage::AvailableThemes);
                one(e)
            },
            ToolMessage::OpenSaveDialog => self.open_save_dialog(),
            ToolMessage::DialogUpdate(d) => {
                self.dialog_pages.set(0, d);
                Vec::new()
            },
            ToolMessage::DialogComplete => {
                if self.dialog_pages.len() == 0 {
                    return Vec::new();
                }
                let ghost before = self.dialog_pages@;
                let front = self.dialog_pages.remove(0);
                assert(self.dialog_pages@ =~= before.drop_first());
                match front {
                    ToolDialog::New(name) => one(
                        ToolEffect::ColorSchemes(schemes::Message::SaveCurrentColorScheme(Some(name))),
                    ),
                }
            },
            ToolMessage::DialogCancel => {
                if self.dialog_pages.len() > 0 {
                    let ghost before = self.dialog_pages@;
                    let _ = self.dialog_pages.remove(0);
                    assert(self.dialog_pages@ =~= before.drop_first());
                }
                Vec::new()
            },
            ToolMessage::SaveNewColorScheme(name) => one(
                ToolEffect::ColorSchemes(schemes::Message::SaveCurrentColorScheme(Some(name))),
            ),
            ToolMessage::ToggleContextPage(page) => {
                let e = self.toggle_context(page);
                one(e)
            },
            ToolMessage::LaunchUrl(url) => one(ToolEffect::OpenUrl(url)),
            ToolMessage::AppTheme(index) => {
                let t = AppTheme::from_index(index);
                let w = self.manager.set_app_theme(t);
                then(w, ToolEffect::ApplyAppTheme(t.theme()))
            },
            ToolMessage::FetchAvailableColorSchemes(limit) => {
                let e = self.fetch(limit);
                one(e)
            },
            ToolMessage::SetAvailableColorSchemes(list) => {
                let mut list = list;
                self.status = FetchStatus::Idle;
                self.available.append(&mut list);
                Vec::new()
            },
            ToolMessage::NavSelect(page) => {
                self.active_page = page;
                Vec::new()
            },
        }
    }
}

impl ToolDialog {
    /// The dialog after its name field is edited to `text`.
    pub fn with_text(&self, text: String) -> (d: ToolDialog)
        ensures
            d == ToolDialog::New(text),
    {
        ToolDialog::New(text)
    }
}

} // verus!
