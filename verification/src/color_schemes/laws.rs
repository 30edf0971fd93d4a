//! What holds of the color scheme page across messages.

use vstd::prelude::*;

use super::models::{KeyView, SchemeView};
use super::named::{distinct_names, has_name, lemma_with_named, lemma_without_name, with_named, without_name};
use super::page::{lookup, named, step, ActionView, MessageView, PageView};

verus! {

/// A scheme stored under its name is the one found under that name.
pub proof fn lemma_stored_is_found(s: Seq<SchemeView>, c: SchemeView)
    requires
        distinct_names(s),
    ensures
        named(with_named(s, c), c.name) == c,
{
    lemma_with_named(s, c);
    let w = with_named(s, c);
    let i = choose|i: int| 0 <= i < w.len() && w[i].name == c.name;
    assert(w[w.len() - 1] == c);
    if i != w.len() - 1 {
        assert(w[i].name != w[w.len() - 1].name);
    }
}

/// Removing a name from a list stored under that name leaves what removing
/// it from the list itself leaves.
pub proof fn lemma_unstore(s: Seq<SchemeView>, c: SchemeView)
    ensures
        without_name(with_named(s, c), c.name) == without_name(s, c.name),
{
    let w = without_name(s, c.name);
    lemma_without_name(s, c.name);
    assert(w.push(c).drop_last() =~= w);
    assert(!has_name(w, c.name)) by {
        if has_name(w, c.name) {
            let i = choose|i: int| 0 <= i < w.len() && w[i].name == c.name;
            assert(w[i].name != c.name);
        }
    }
    lemma_without_name(w, c.name);
}

/// Deleting a scheme right after it was installed removes every scheme of
/// its name, and asks to remove its file when it has one.
pub proof fn lemma_install_then_delete(p: PageView, c: SchemeView, make_current: bool, f1: u128, f2: u128)
    requires
        distinct_names(p.installed),
    ensures
        ({
            let q = step(p, MessageView::Installed(c, make_current), f1).0;
            let r = step(q, MessageView::DeleteColorScheme(KeyView::Installed(c.name)), f2);
            &&& r.0.installed == without_name(p.installed, c.name)
            &&& r.1 == match c.path {
                Some(path) => seq![ActionView::RemoveFile(path)],
                None => Seq::<ActionView>::empty(),
            }
        }),
{
    lemma_stored_is_found(p.installed, c);
    lemma_unstore(p.installed, c);
}

/// Trying a scheme without keeping it, then going back, makes the scheme
/// kept before current again and applies and records it.
pub proof fn lemma_try_then_revert(p: PageView, c: SchemeView, f1: u128, f2: u128)
    requires
        p.saved is Some,
    ensures
        ({
            let q = step(p, MessageView::ThemeApplied(c, false), f1).0;
            let r = step(q, MessageView::RevertOldTheme, f2);
            &&& r.0.current == p.saved
            &&& r.0.saved == p.saved
            &&& r.1 == seq![ActionView::ApplyThemeOnly(p.saved->0), ActionView::WriteCurrentConfig(p.saved->0)]
        }),
{
}

/// Applying a scheme and keeping it makes it the scheme to go back to, so
/// going back then changes nothing of the current scheme.
pub proof fn lemma_keep_then_revert(p: PageView, c: SchemeView, f1: u128, f2: u128)
    ensures
        ({
            let q = step(p, MessageView::ThemeApplied(c, true), f1).0;
            let r = step(q, MessageView::RevertOldTheme, f2);
            &&& r.0.current == Some(c)
            &&& r.0.saved == Some(c)
        }),
{
}

/// Setting a scheme asks only to apply it, and once it is applied it is the
/// current scheme and the one to go back to; trying a scheme asks the same,
/// but once applied the scheme to go back to is still the one from before.
pub proof fn lemma_set_is_remembered_try_is_not(p: PageView, k: KeyView, f1: u128, f2: u128)
    ensures
        ({
            let (q, acts) = step(p, MessageView::SetColorScheme(k), f1);
            &&& q == p
            &&& acts.len() == 1
            &&& acts[0] matches ActionView::ApplyTheme(c, remember) && c == lookup(p, k) && {
                let r = step(q, MessageView::ThemeApplied(c, remember), f2).0;
                &&& r.saved == Some(lookup(p, k))
                &&& r.current == Some(lookup(p, k))
            }
        }),
        ({
            let (q, acts) = step(p, MessageView::SetColorSchemeWithRollBack(k), f1);
            &&& q == p
            &&& acts.len() == 1
            &&& acts[0] matches ActionView::ApplyTheme(c, remember) && c == lookup(p, k) && {
                let r = step(q, MessageView::ThemeApplied(c, remember), f2).0;
                &&& r.saved == p.saved
                &&& r.current == Some(lookup(p, k))
            }
        }),
{
}

} // verus!
