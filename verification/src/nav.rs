use vstd::prelude::*;

verus! {

/// The pages of the tool, in the order of the navigation bar.
#[derive(Clone, Copy, Debug, PartialEq, Eq, Structural)]
pub enum Page {
    ColorSchemes,
    DateTime,
    Dock,
    Panel,
    Layouts,
    Shortcuts,
    Snapshots,
}

/// An icon: its name, its size, and whether it ships with the tool (otherwise
/// it comes from the icon theme).
#[derive(Clone, Copy, Debug)]
pub struct PageIcon {
    pub name: &'static str,
    pub size: u16,
    pub bundled: bool,
}

/// The localization key of a page's title.
pub open spec fn page_title_key(p: Page) -> Seq<char> {
    match p {
        Page::ColorSchemes => "color-schemes"@,
        Page::DateTime => "date-time"@,
        Page::Dock => "dock"@,
        Page::Panel => "panel"@,
        Page::Layouts => "layouts"@,
        Page::Shortcuts => "shortcuts"@,
        Page::Snapshots => "snapshots"@,
    }
}

/// The icon of a page.
pub open spec fn page_icon_name(p: Page) -> Seq<char> {
    match p {
        Page::ColorSchemes => "dark-mode-symbolic"@,
        Page::DateTime => "x-office-calendar-symbolic"@,
        Page::Dock => "dock-bottom-symbolic"@,
        Page::Panel => "dock-top-symbolic"@,
        Page::Layouts => "view-coverflow-symbolic"@,
        Page::Shortcuts => "keyboard-symbolic"@,
        Page::Snapshots => "snapshots-symbolic"@,
    }
}

/// All pages, in navigation order.
pub open spec fn all_pages() -> Seq<Page> {
    seq![Page::ColorSchemes, Page::DateTime, Page::Dock, Page::Panel, Page::Layouts, Page::Shortcuts, Page::Snapshots]
}

impl Page {
    /// The page the tool opens on.
    pub fn default() -> (p: Page)
        ensures
            p == Page::ColorSchemes,
    {
        Page::ColorSchemes
    }

    /// The localization key of the page's title.
    pub fn title(&self) -> (k: &'static str)
        ensures
            k@ == page_title_key(*self),
    {
        match self {
            Page::ColorSchemes => "color-schemes",
            Page::DateTime => "date-time",
            Page::Dock => "dock",
            Page::Panel => "panel",
            Page::Layouts => "layouts",
            Page::Shortcuts => "shortcuts",
            Page::Snapshots => "snapshots",
        }
    }

    /// The page's icon, 18 px; all ship with the tool but the calendar.
    pub fn icon(&self) -> (i: PageIcon)
        ensures
            i.name@ == page_icon_name(*self),
            i.size == 18,
            i.bundled == (*self != Page::DateTime),
    {
        let name = match self {
            Page::ColorSchemes => "dark-mode-symbolic",
            Page::DateTime => "x-office-calendar-symbolic",
            Page::Dock => "dock-bottom-symbolic",
            Page::Panel => "dock-top-symbolic",
            Page::Layouts => "view-coverflow-symbolic",
            Page::Shortcuts => "keyboard-symbolic",
            Page::Snapshots => "snapshots-symbolic",
        };
        let bundled = match self {
            Page::DateTime => false,
            _ => true,
        };
        PageIcon { name, size: 18, bundled }
    }

    /// All pages, in navigation order.
    pub fn all() -> (v: Vec<Page>)
        ensures
            v@ == all_pages(),
    {
        let v = vec![Page::ColorSchemes, Page::DateTime, Page::Dock, Page::Panel, Page::Layouts, Page::Shortcuts, Page::Snapshots];
        assert(v@ =~= all_pages());
        v
    }
}

/// An entry of the navigation bar: the page it opens, with its icon and title.
#[derive(Clone, Copy, Debug)]
pub struct NavEntry {
    pub page: Page,
    pub icon: PageIcon,
    pub title: &'static str,
}

/// The navigation bar: one entry per page, in the order of `Page::all`, each
/// with the page's icon and title.
pub fn nav_model() -> (v: Vec<NavEntry>)
    ensures
        v@.len() == all_pages().len(),
        forall|i: int| 0 <= i < v@.len() ==> {
            &&& (#[trigger] v@[i]).page == all_pages()[i]
            &&& v@[i].title@ == page_title_key(all_pages()[i])
            &&& v@[i].icon.name@ == page_icon_name(all_pages()[i])
            &&& v@[i].icon.size == 18
            &&& v@[i].icon.bundled == (all_pages()[i] != Page::DateTime)
        },
{
    let pages = Page::all();
    let mut v: Vec<NavEntry> = Vec::new();
    let n = pages.len();
    let mut k: usize = 0;
    while k < n
        invariant
            n == pages@.len(),
            pages@ == all_pages(),
            k <= n,
            v@.len() == k,
            forall|i: int| 0 <= i < k ==> {
                &&& (#[trigger] v@[i]).page == all_pages()[i]
                &&& v@[i].title@ == page_title_key(all_pages()[i])
                &&& v@[i].icon.name@ == page_icon_name(all_pages()[i])
                &&& v@[i].icon.size == 18
                &&& v@[i].icon.bundled == (all_pages()[i] != Page::DateTime)
            },
        decreases n - k,
    {
        let page = pages[k];
        v.push(NavEntry { page, icon: page.icon(), title: page.title() });
        k = k + 1;
    }
    v
}

/// Every page appears once in the navigation order, and the first is the
/// page the tool opens on.
pub proof fn lemma_all_pages_once()
    ensures
        all_pages().no_duplicates(),
        all_pages()[0] == Page::ColorSchemes,
        forall|p: Page| all_pages().contains(p),
{
    assert forall|p: Page| all_pages().contains(p) by {
        match p {
            Page::ColorSchemes => assert(all_pages()[0] == p),
            Page::DateTime => assert(all_pages()[1] == p),
            Page::Dock => assert(all_pages()[2] == p),
            Page::Panel => assert(all_pages()[3] == p),
            Page::Layouts => assert(all_pages()[4] == p),
            Page::Shortcuts => assert(all_pages()[5] == p),
            Page::Snapshots => assert(all_pages()[6] == p),
        }
    }
}

/// The pages of the standalone tweak tool.
#[derive(Clone, Copy, Debug, PartialEq, Eq, Structural)]
pub enum NavPage {
    ColorSchemes,
    Dock,
    Panel,
}

impl NavPage {
    pub fn default() -> (p: NavPage)
        ensures
            p == NavPage::ColorSchemes,
    {
        NavPage::ColorSchemes
    }

    /// The localization key of the page's title.
    pub fn title(&self) -> (k: &'static str)
        ensures
            k@ == (match *self {
                NavPage::ColorSchemes => "color-schemes"@,
                NavPage::Dock => "dock"@,
                NavPage::Panel => "panel"@,
            }),
    {
        match self {
            NavPage::ColorSchemes => "color-schemes",
            NavPage::Dock => "dock",
            NavPage::Panel => "panel",
        }
    }

    /// The page's icon, 18 px, shipped with the tool.
    pub fn icon(&self) -> (i: PageIcon)
        ensures
            i.name@ == (match *self {
                NavPage::ColorSchemes => "dark-mode-symbolic"@,
                NavPage::Dock => "dock-bottom-symbolic"@,
                NavPage::Panel => "dock-top-symbolic"@,
            }),
            i.size == 18,
            i.bundled,
    {
        let name = match self {
            NavPage::ColorSchemes => "dark-mode-symbolic",
            NavPage::Dock => "dock-bottom-symbolic",
            NavPage::Panel => "dock-top-symbolic",
        };
        PageIcon { name, size: 18, bundled: true }
    }

    /// All pages, in navigation order.
    pub fn all() -> (v: Vec<NavPage>)
        ensures
            v@ == seq![NavPage::ColorSchemes, NavPage::Dock, NavPage::Panel],
    {
        let v = vec![NavPage::ColorSchemes, NavPage::Dock, NavPage::Panel];
        assert(v@ =~= seq![NavPage::ColorSchemes, NavPage::Dock, NavPage::Panel]);
        v
    }
}

/// The side drawer's contents.
#[derive(Clone, Copy, Debug, PartialEq, Eq, Structural)]
pub enum ContextPage {
    Settings,
    About,
}

impl ContextPage {
    /// The localization key of the drawer's title.
    pub fn title(&self) -> (k: &'static str)
        ensures
            k@ == (match *self { ContextPage::About => "about"@, ContextPage::Settings => "settings"@ }),
    {
        match self {
            ContextPage::About => "about",
            ContextPage::Settings => "settings",
        }
    }
}

/// The menu actions of the tool.
#[derive(Clone, Copy, Debug, PartialEq, Eq, Structural)]
pub enum TweaksAction {
    About,
    Settings,
}

impl TweaksAction {
    /// The drawer page a menu action toggles.
    pub fn message(&self) -> (p: ContextPage)
        ensures
            p == action_page(*self),
    {
        match self {
            TweaksAction::About => ContextPage::About,
            TweaksAction::Settings => ContextPage::Settings,
        }
    }
}

/// An entry of the window's "view" menu.
#[derive(Clone, Copy, Debug)]
pub enum MenuEntry {
    /// A button: the localization key of its label, its icon (14 px) and its action.
    Button(&'static str, &'static str, TweaksAction),
    Divider,
}

/// The window's "view" menu: settings, a divider, then about.
pub fn view_menu() -> (v: Vec<MenuEntry>)
    ensures
        v@.len() == 3,
        v@[0] matches MenuEntry::Button(l, i, a) && l@ == "settings"@ && i@ == "settings-symbolic"@
            && a == TweaksAction::Settings,
        v@[1] is Divider,
        v@[2] matches MenuEntry::Button(l, i, a) && l@ == "about"@ && i@ == "info-outline-symbolic"@
            && a == TweaksAction::About,
{
    vec![
        MenuEntry::Button("settings", "settings-symbolic", TweaksAction::Settings),
        MenuEntry::Divider,
        MenuEntry::Button("about", "info-outline-symbolic", TweaksAction::About),
    ]
}

/// The drawer page a menu action toggles.
pub open spec fn action_page(a: TweaksAction) -> ContextPage {
    match a {
        TweaksAction::About => ContextPage::About,
        TweaksAction::Settings => ContextPage::Settings,
    }
}

} // verus!
