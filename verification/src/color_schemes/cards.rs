//! What the color scheme page offers: the buttons of its footer and of each
//! scheme's card.

use vstd::prelude::*;

use super::models::{ColorSchemeKey, KeyView, SortBy, Status, Tab};
use super::named::has_name;
use super::page::{can_revert_to, displayed_order, key_of, key_valid, lookup, tab_items, ColorSchemes, Message, MessageView};
use crate::strings::clone_opt_string;

verus! {

/// The page's footer: the dark-mode switch, then on the installed tab the
/// buttons that save the current theme and import a file; on the available
/// tab a refresh button (a loading label while fetching) and a button to go
/// back to the saved scheme, enabled when there is one to go back to.
#[derive(Clone, Copy, Debug, PartialEq, Eq, Structural)]
pub enum SchemesFooter {
    Installed { is_dark: bool },
    Available { is_dark: bool, loading: bool, can_revert: bool },
}

/// The buttons of a scheme's card: what a click on the card sends, then
/// its two buttons, each `None` when disabled.
#[derive(Debug)]
pub struct Card {
    pub press: Message,
    pub first: Option<Message>,
    pub second: Option<Message>,
}

/// The value of an optional message.
pub open spec fn opt_message(m: Option<Message>) -> Option<MessageView> {
    match m {
        Some(m) => Some(m@),
        None => None,
    }
}

/// What the open tab shows: a text (by its localization key) when there is
/// nothing to show, a loading text while downloadable schemes are fetched, or
/// the grid of cards for these keys, in order.
#[derive(Debug)]
pub enum TabContent {
    Empty(&'static str),
    Loading,
    Grid(Vec<ColorSchemeKey>),
}

/// The sort orders offered, in the order the picker lists them.
pub fn sort_choices() -> (v: Vec<SortBy>)
    ensures
        v@ == seq![SortBy::Az, SortBy::MostDownloaded, SortBy::LastModified, SortBy::Author],
{
    let v = vec![SortBy::Az, SortBy::MostDownloaded, SortBy::LastModified, SortBy::Author];
    assert(v@ =~= seq![SortBy::Az, SortBy::MostDownloaded, SortBy::LastModified, SortBy::Author]);
    v
}

impl ColorSchemes {
    /// What the open tab shows: the installed tab says so when nothing is
    /// installed; the available tab shows a loading text while fetching and
    /// says so when nothing was found; otherwise the cards of `values`, the
    /// schemes ordered with the collation `ranks` of their names or authors.
    pub fn tab_content(&self, ranks: &Vec<u64>) -> (c: TabContent)
        requires
            self.wf(),
            ranks@.len() == tab_items(self).len(),
        ensures
            match c {
                TabContent::Empty(k) => match self.tab {
                    Tab::Installed => self.installed@.len() == 0 && k@ == "no-color-schemes-installed"@,
                    Tab::Available => self.status == Status::Idle && self.available@.len() == 0
                        && k@ == "no-color-schemes-found"@,
                },
                TabContent::Loading => self.tab == Tab::Available && self.status == Status::Loading,
                TabContent::Grid(keys) => (match self.tab {
                    Tab::Installed => self.installed@.len() > 0,
                    Tab::Available => self.status == Status::Idle && self.available@.len() > 0,
                }) && exists|perm: Seq<usize>| {
                    &&& #[trigger] displayed_order(self, ranks@, perm)
                    &&& keys@.len() == perm.len()
                    &&& forall|j: int| 0 <= j < perm.len() ==> (#[trigger] keys@[j])@ == key_of(self, perm[j])
                },
            },
    {
        match self.tab {
            Tab::Installed => if self.installed.len() == 0 {
                return TabContent::Empty("no-color-schemes-installed");
            },
            Tab::Available => match self.status {
                Status::Loading => return TabContent::Loading,
                Status::Idle => if self.available.len() == 0 {
                    return TabContent::Empty("no-color-schemes-found");
                },
            },
        }
        TabContent::Grid(self.values(ranks))
    }

    /// The page's footer.
    pub fn footer(&self) -> (f: SchemesFooter)
        ensures
            f == match self.tab {
                Tab::Installed => SchemesFooter::Installed { is_dark: self.is_dark },
                Tab::Available => SchemesFooter::Available {
                    is_dark: self.is_dark,
                    loading: self.status == Status::Loading,
                    can_revert: can_revert_to(self@.saved, self@.current),
                },
            },
    {
        match self.tab {
            Tab::Installed => SchemesFooter::Installed { is_dark: self.is_dark },
            Tab::Available => SchemesFooter::Available {
                is_dark: self.is_dark,
                loading: match self.status {
                    Status::Loading => true,
                    Status::Idle => false,
                },
                can_revert: self.can_revert(),
            },
        }
    }

    /// The card of an installed scheme: a click applies it; its buttons open
    /// the folder holding its file (when it has one) and delete it.
    pub fn installed_card(&self, key: &ColorSchemeKey) -> (c: Card)
        requires
            self.wf(),
            key@ is Installed,
            key_valid(self@, key@),
        ensures
            c.press@ == MessageView::SetColorScheme(key@),
            opt_message(c.first) == match lookup(self@, key@).path {
                Some(p) => Some(MessageView::OpenFolder(p)),
                None => None,
            },
            opt_message(c.second) == Some(MessageView::DeleteColorScheme(key@)),
    {
        let scheme = self.get(key);
        let first = match clone_opt_string(&scheme.path) {
            Some(p) => Some(Message::OpenFolder(p)),
            None => None,
        };
        Card {
            press: Message::SetColorScheme(key.clone()),
            first,
            second: Some(Message::DeleteColorScheme(key.clone())),
        }
    }

    /// The card of a downloadable scheme: a click tries it out, keeping the
    /// scheme to go back to; its buttons open its web page (when it has one)
    /// and install it (unless a scheme of that name is installed).
    pub fn available_card(&self, key: &ColorSchemeKey) -> (c: Card)
        requires
            self.wf(),
            key@ is Available,
            key_valid(self@, key@),
        ensures
            c.press@ == MessageView::SetColorSchemeWithRollBack(key@),
            opt_message(c.first) == match lookup(self@, key@).link {
                Some(l) => Some(MessageView::OpenLink(l)),
                None => None,
            },
            opt_message(c.second) == if has_name(self@.installed, lookup(self@, key@).name) {
                None
            } else {
                Some(MessageView::InstallColorScheme(key@))
            },
    {
        let scheme = self.get(key);
        let first = match clone_opt_string(&scheme.link) {
            Some(l) => Some(Message::OpenLink(l)),
            None => None,
        };
        let second = if self.is_installed(scheme.name.as_str()) {
            None
        } else {
            Some(Message::InstallColorScheme(key.clone()))
        };
        Card { press: Message::SetColorSchemeWithRollBack(key.clone()), first, second }
    }
}

} // verus!
