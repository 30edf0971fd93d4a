use vstd::prelude::*;

use super::models::{ColorScheme, SchemeView, Source};
use crate::strings::{opt_text, str_len_is_zero};
use crate::time::{parse_rfc3339_millis, rfc3339_millis};

verus! {

/// The address listing every theme offered by cosmic-themes.org.
pub const THEMES_URL: &'static str = "https://cosmic-themes.org/api/themes/?limit=50000";

/// A theme as the cosmic-themes.org service lists it.
#[derive(Debug)]
pub struct RemoteTheme {
    pub id: u32,
    pub uuid: u128,
    pub name: String,
    pub ron: String,
    pub author: Option<String>,
    pub link: Option<String>,
    pub downloads: u64,
    pub created: String,
    pub updated: String,
}

/// A theme as the cosmic-themes provider of the standalone tool lists it.
#[derive(Debug)]
pub struct CosmicTheme {
    pub name: String,
    pub ron: String,
    pub author: String,
    pub link: String,
}

impl CosmicTheme {
    /// The scheme this theme becomes: its name and theme, its author and link,
    /// a fresh identifier, nothing else known.
    pub fn into_color_scheme(self) -> (c: ColorScheme)
        ensures
            c.name@ == self.name@,
            c.theme@ == self.ron@,
            c.author == Some(self.author),
            c.link == Some(self.link),
            c.downloads is None,
            c.created is None,
            c.updated is None,
            c.source is None,
            c.path is None,
    {
        let mut c = ColorScheme::new(self.name, self.ron);
        c.author = Some(self.author);
        c.link = Some(self.link);
        c
    }
}

/// Why a listed theme is skipped.
#[derive(Clone, Copy, Debug, PartialEq, Eq, Structural)]
pub enum RemoteThemeError {
    /// Its creation date is not an RFC 3339 date.
    InvalidCreated,
    /// Its update date is not an RFC 3339 date.
    InvalidUpdated,
}

/// An optional text, with an empty text taken as absent.
pub open spec fn non_empty(o: Option<Seq<char>>) -> Option<Seq<char>> {
    match o {
        Some(t) => if t.len() == 0 { None } else { Some(t) },
        None => None,
    }
}

/// The scheme a listed theme becomes, or why it is skipped.
pub open spec fn remote_scheme(r: RemoteTheme) -> Result<SchemeView, RemoteThemeError> {
    match rfc3339_millis(r.created@) {
        None => Err(RemoteThemeError::InvalidCreated),
        Some(created) => match rfc3339_millis(r.updated@) {
            None => Err(RemoteThemeError::InvalidUpdated),
            Some(updated) => Ok(SchemeView {
                id: r.uuid,
                name: r.name@,
                theme: r.ron@,
                author: non_empty(opt_text(r.author)),
                link: non_empty(opt_text(r.link)),
                downloads: Some(r.downloads),
                created: Some(created),
                updated: Some(updated),
                source: Some(Source::CosmicThemesOrg),
                path: None,
            }),
        },
    }
}

fn keep_non_empty(o: Option<String>) -> (r: Option<String>)
    ensures
        opt_text(r) == non_empty(opt_text(o)),
{
    match o {
        Some(t) => if str_len_is_zero(t.as_str()) { None } else { Some(t) },
        None => None,
    }
}

impl RemoteTheme {
    /// The scheme this listed theme becomes: its identifier, name, theme,
    /// author and link (empty ones dropped), downloads, and its dates in
    /// milliseconds since the epoch; marked as coming from cosmic-themes.org.
    pub fn into_color_scheme(self) -> (r: Result<ColorScheme, RemoteThemeError>)
        ensures
            match (r, remote_scheme(self)) {
                (Ok(c), Ok(v)) => c@ == v,
                (Err(e), Err(f)) => e == f,
                _ => false,
            },
    {
        let ghost me = self;
        let created = match parse_rfc3339_millis(self.created.as_str()) {
            Some(t) => t,
            None => return Err(RemoteThemeError::InvalidCreated),
        };
        let updated = match parse_rfc3339_millis(self.updated.as_str()) {
            Some(t) => t,
            None => return Err(RemoteThemeError::InvalidUpdated),
        };
        let c = ColorScheme {
            id: self.uuid,
            name: self.name,
            theme: self.ron,
            author: keep_non_empty(self.author),
            link: keep_non_empty(self.link),
            downloads: Some(self.downloads),
            created: Some(created),
            updated: Some(updated),
            source: Some(Source::CosmicThemesOrg),
            path: None,
        };
        assert(c@ == remote_scheme(me)->Ok_0);
        Ok(c)
    }
}

/// The schemes of the listed themes whose theme could be read (`theme_ok`)
/// and whose dates parse, in order.
pub open spec fn accepted(themes: Seq<RemoteTheme>, theme_ok: Seq<bool>) -> Seq<SchemeView>
    decreases themes.len(),
{
    if themes.len() == 0 {
        Seq::empty()
    } else {
        let rest = accepted(themes.drop_last(), theme_ok);
        let i = themes.len() - 1;
        if theme_ok[i] && remote_scheme(themes[i]) is Ok {
            rest.push(remote_scheme(themes[i])->Ok_0)
        } else {
            rest
        }
    }
}

/// Turns the listed themes into schemes, skipping those whose theme could not
/// be read (`theme_ok` is false) and those with a date that does not parse.
pub fn convert_downloaded(themes: Vec<RemoteTheme>, theme_ok: &Vec<bool>) -> (r: Vec<ColorScheme>)
    requires
        theme_ok@.len() == themes@.len(),
    ensures
        crate::color_schemes::named::views_of(r@) == accepted(themes@, theme_ok@),
{
    let ghost all = themes@;
    let mut rest = themes;
    let mut out: Vec<ColorScheme> = Vec::new();
    let n = rest.len();
    let mut k: usize = 0;
    proof {
        assert(crate::color_schemes::named::views_of(out@) =~= accepted(all.take(0), theme_ok@));
    }
    // take themes from the front, one at a time
    while k < n
        invariant
            n == all.len(),
            n == theme_ok@.len(),
            k <= n,
            rest@ == all.skip(k as int),
            crate::color_schemes::named::views_of(out@) == accepted(all.take(k as int), theme_ok@),
        decreases n - k,
    {
        let t = rest.remove(0);
        assert(t == all[k as int]);
        assert(rest@ =~= all.skip(k + 1));
        let ok = theme_ok[k];
        assert(all.take(k + 1).drop_last() =~= all.take(k as int));
        assert(all.take(k + 1)[k as int] == all[k as int]);
        if ok {
            let ghost tv = t;
            match t.into_color_scheme() {
                Ok(c) => {
                    let ghost cv = c@;
                    out.push(c);
                    assert(crate::color_schemes::named::views_of(out@) =~= crate::color_schemes::named::views_of(out@).drop_last().push(cv));
                    assert(crate::color_schemes::named::views_of(out@).drop_last() =~= accepted(all.take(k as int), theme_ok@));
                },
                Err(_) => {},
            }
        }
        k = k + 1;
    }
    proof {
        assert(all.take(n as int) =~= all);
    }
    out
}

/// A listed theme is kept exactly when both its dates are RFC 3339 dates, and
/// then keeps its identifier, name, theme and download count, with its dates
/// in milliseconds, marked as coming from cosmic-themes.org and with no file.
pub proof fn lemma_listed_theme_kept(r: RemoteTheme)
    ensures
        remote_scheme(r) is Ok <==> (rfc3339_millis(r.created@) is Some && rfc3339_millis(r.updated@) is Some),
        remote_scheme(r) matches Ok(c) ==> {
            &&& c.id == r.uuid
            &&& c.name == r.name@
            &&& c.theme == r.ron@
            &&& c.downloads == Some(r.downloads)
            &&& c.created == rfc3339_millis(r.created@)
            &&& c.updated == rfc3339_millis(r.updated@)
            &&& c.source == Some(Source::CosmicThemesOrg)
            &&& c.path is None
        },
        rfc3339_millis(r.created@) is None ==> remote_scheme(r) == Err::<SchemeView, RemoteThemeError>(
            RemoteThemeError::InvalidCreated,
        ),
{
}

} // verus!
