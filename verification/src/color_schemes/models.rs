use vstd::prelude::*;

use crate::strings::{clone_opt_string, opt_text};

verus! {

/// Where a color scheme came from.
#[derive(Clone, Copy, Debug, PartialEq, Eq, Structural)]
pub enum Source {
    CosmicThemesOrg,
    ImportedFromPath,
    Saved,
    System,
}

/// The orders in which the color scheme grid can be shown.
#[derive(Clone, Copy, Debug, PartialEq, Eq, Structural)]
pub enum SortBy {
    Az,
    MostDownloaded,
    LastModified,
    Author,
}

impl SortBy {
    /// The order a fresh page starts with.
    pub fn default() -> (s: SortBy)
        ensures
            s == SortBy::LastModified,
    {
        SortBy::LastModified
    }

    /// The localization key of the label shown for this order.
    pub fn label_key(&self) -> (k: &'static str)
        ensures
            k@ == sort_label_key(*self),
    {
        match self {
            SortBy::Az => "a-z",
            SortBy::MostDownloaded => "most-downloaded",
            SortBy::LastModified => "last-modified",
            SortBy::Author => "author",
        }
    }
}

/// The localization key of the label of a sort order.
pub open spec fn sort_label_key(s: SortBy) -> Seq<char> {
    match s {
        SortBy::Az => "a-z"@,
        SortBy::MostDownloaded => "most-downloaded"@,
        SortBy::LastModified => "last-modified"@,
        SortBy::Author => "author"@,
    }
}

/// Whether the list of downloadable schemes is being fetched.
#[derive(Clone, Copy, Debug, PartialEq, Eq, Structural)]
pub enum Status {
    Idle,
    Loading,
}

/// The two tabs of the color scheme page.
#[derive(Clone, Copy, Debug, PartialEq, Eq, Structural)]
pub enum Tab {
    Installed,
    Available,
}

/// What went wrong, as far as the page state cares.
#[derive(Clone, Copy, Debug, PartialEq, Eq, Structural)]
pub enum MessageErrorKind {
    Fetching,
    Other,
}

/// A reference to a scheme shown on the page: installed ones by name,
/// downloadable ones by position in the list.
#[derive(Debug)]
pub enum ColorSchemeKey {
    Installed(String),
    Available(usize),
}

/// The value of a key.
pub enum KeyView {
    Installed(Seq<char>),
    Available(nat),
}

impl View for ColorSchemeKey {
    type V = KeyView;

    open spec fn view(&self) -> KeyView {
        match self {
            ColorSchemeKey::Installed(n) => KeyView::Installed(n@),
            ColorSchemeKey::Available(i) => KeyView::Available(*i as nat),
        }
    }
}

impl Clone for ColorSchemeKey {
    fn clone(&self) -> (r: Self)
        ensures
            r@ == self@,
    {
        match self {
            ColorSchemeKey::Installed(n) => ColorSchemeKey::Installed(n.clone()),
            ColorSchemeKey::Available(i) => ColorSchemeKey::Available(*i),
        }
    }
}

/// A color scheme: its theme (a serialized theme builder) and what is known of it.
#[derive(Debug)]
pub struct ColorScheme {
    pub id: u128,
    pub name: String,
    pub theme: String,
    pub author: Option<String>,
    pub link: Option<String>,
    pub downloads: Option<u64>,
    pub created: Option<i64>,
    pub updated: Option<i64>,
    pub source: Option<Source>,
    pub path: Option<String>,
}

/// The value of a color scheme.
pub struct SchemeView {
    pub id: u128,
    pub name: Seq<char>,
    pub theme: Seq<char>,
    pub author: Option<Seq<char>>,
    pub link: Option<Seq<char>>,
    pub downloads: Option<u64>,
    pub created: Option<i64>,
    pub updated: Option<i64>,
    pub source: Option<Source>,
    pub path: Option<Seq<char>>,
}

impl View for ColorScheme {
    type V = SchemeView;

    open spec fn view(&self) -> SchemeView {
        SchemeView {
            id: self.id,
            name: self.name@,
            theme: self.theme@,
            author: opt_text(self.author),
            link: opt_text(self.link),
            downloads: self.downloads,
            created: self.created,
            updated: self.updated,
            source: self.source,
            path: opt_text(self.path),
        }
    }
}

impl Clone for ColorScheme {
    fn clone(&self) -> (r: Self)
        ensures
            r@ == self@,
    {
        ColorScheme {
            id: self.id,
            name: self.name.clone(),
            theme: self.theme.clone(),
            author: clone_opt_string(&self.author),
            link: clone_opt_string(&self.link),
            downloads: self.downloads,
            created: self.created,
            updated: self.updated,
            source: self.source,
            path: clone_opt_string(&self.path),
        }
    }
}

/// Copies an optional scheme.
pub fn clone_opt_scheme(o: &Option<ColorScheme>) -> (r: Option<ColorScheme>)
    ensures
        opt_scheme_view(r) == opt_scheme_view(*o),
{
    match o {
        Some(c) => Some(c.clone()),
        None => None,
    }
}

/// The value of an optional scheme.
pub open spec fn opt_scheme_view(o: Option<ColorScheme>) -> Option<SchemeView> {
    match o {
        Some(c) => Some(c@),
        None => None,
    }
}

impl ColorScheme {
    /// A new scheme with the given name and theme, a fresh identifier and
    /// nothing else known of it.
    pub fn new(name: String, theme: String) -> (c: Self)
        ensures
            c.name@ == name@,
            c.theme@ == theme@,
            c.author is None,
            c.link is None,
            c.downloads is None,
            c.created is None,
            c.updated is None,
            c.source is None,
            c.path is None,
    {
        ColorScheme {
            id: crate::ids::new_v4(),
            name,
            theme,
            author: None,
            link: None,
            downloads: None,
            created: None,
            updated: None,
            source: None,
            path: None,
        }
    }
}

} // verus!

verus! {

/// The value of the scheme at position `pos`.
pub open spec fn at(items: Seq<ColorScheme>, pos: usize) -> SchemeView {
    items[pos as int]@
}

/// Whether `pos` is a position in `items`.
pub open spec fn in_range(items: Seq<ColorScheme>, pos: usize) -> bool {
    pos < items.len()
}

/// A strictly increasing list of positions.
pub open spec fn increasing(s: Seq<usize>) -> bool {
    forall|i: int, j: int| 0 <= i < j < s.len() ==> s[i] < s[j]
}

} // verus!
