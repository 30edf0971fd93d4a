use vstd::prelude::*;

use crate::nav::TweaksAction;
use crate::strings::same_text;

verus! {

/// A modifier key that a shortcut asks for.
#[derive(Clone, Copy, Debug, PartialEq, Eq, Structural)]
pub enum Modifier {
    Super,
    Ctrl,
    Alt,
    Shift,
}

/// The modifier keys held down.
#[derive(Clone, Copy, Debug, PartialEq, Eq, Structural)]
pub struct Modifiers {
    pub shift: bool,
    pub control: bool,
    pub alt: bool,
    pub logo: bool,
}

impl Modifiers {
    /// No modifier held.
    pub fn empty() -> (m: Modifiers)
        ensures
            m == (Modifiers { shift: false, control: false, alt: false, logo: false }),
    {
        Modifiers { shift: false, control: false, alt: false, logo: false }
    }
}

/// A key pressed: one that types a text, or another one.
#[derive(Debug)]
pub enum Key {
    Character(String),
    Other,
}

/// A keyboard shortcut: the modifiers it needs and its key.
#[derive(Debug)]
pub struct KeyBind {
    pub modifiers: Vec<Modifier>,
    pub key: Key,
}

/// A shortcut and the menu action it triggers.
#[derive(Debug)]
pub struct Binding {
    pub bind: KeyBind,
    pub action: TweaksAction,
}

/// The shortcut is exactly this key with exactly these modifiers.
pub open spec fn bind_matches(b: KeyBind, m: Modifiers, key: Key) -> bool {
    &&& (match (b.key, key) {
        (Key::Character(a), Key::Character(c)) => a@ == c@,
        _ => false,
    })
    &&& m.logo == b.modifiers@.contains(Modifier::Super)
    &&& m.control == b.modifiers@.contains(Modifier::Ctrl)
    &&& m.alt == b.modifiers@.contains(Modifier::Alt)
    &&& m.shift == b.modifiers@.contains(Modifier::Shift)
}

fn holds(mods: &Vec<Modifier>, m: Modifier) -> (r: bool)
    ensures
        r == mods@.contains(m),
{
    let n = mods.len();
    let mut i: usize = 0;
    while i < n
        invariant
            n == mods@.len(),
            i <= n,
            forall|j: int| 0 <= j < i ==> mods@[j] != m,
        decreases n - i,
    {
        if mods[i] == m {
            assert(mods@[i as int] == m);
            return true;
        }
        i = i + 1;
    }
    false
}

impl KeyBind {
    /// Whether a key press with these modifiers triggers the shortcut.
    pub fn matches(&self, modifiers: Modifiers, key: &Key) -> (r: bool)
        ensures
            r == bind_matches(*self, modifiers, *key),
    {
        let key_eq = match (&self.key, key) {
            (Key::Character(a), Key::Character(c)) => same_text(a.as_str(), c.as_str()),
            _ => false,
        };
        key_eq && modifiers.logo == holds(&self.modifiers, Modifier::Super)
            && modifiers.control == holds(&self.modifiers, Modifier::Ctrl)
            && modifiers.alt == holds(&self.modifiers, Modifier::Alt)
            && modifiers.shift == holds(&self.modifiers, Modifier::Shift)
    }
}

/// The tool's shortcuts: Ctrl+, opens the settings, then Ctrl+i the about page.
pub open spec fn default_binds(b: Seq<Binding>) -> bool {
    &&& b.len() == 2
    &&& b[0].bind.modifiers@ == seq![Modifier::Ctrl]
    &&& b[0].bind.key matches Key::Character(k) && k@ == ","@
    &&& b[0].action == TweaksAction::Settings
    &&& b[1].bind.modifiers@ == seq![Modifier::Ctrl]
    &&& b[1].bind.key matches Key::Character(k) && k@ == "i"@
    &&& b[1].action == TweaksAction::About
}

/// The tool's shortcuts.
pub struct KeyBindings;

impl KeyBindings {
    /// Ctrl+, opens the settings, Ctrl+i the about page.
    pub fn new() -> (b: Vec<Binding>)
        ensures
            default_binds(b@),
    {
        let mut b: Vec<Binding> = Vec::new();
        b.push(Binding {
            bind: KeyBind { modifiers: vec![Modifier::Ctrl], key: Key::Character(String::from_str(",")) },
            action: TweaksAction::Settings,
        });
        b.push(Binding {
            bind: KeyBind { modifiers: vec![Modifier::Ctrl], key: Key::Character(String::from_str("i")) },
            action: TweaksAction::About,
        });
        assert(b@[0].bind.modifiers@ =~= seq![Modifier::Ctrl]);
        assert(b@[1].bind.modifiers@ =~= seq![Modifier::Ctrl]);
        b
    }
}

/// The action of the first shortcut that the key press triggers, if any.
pub open spec fn first_match(b: Seq<Binding>, m: Modifiers, key: Key) -> Option<TweaksAction>
    decreases b.len(),
{
    if b.len() == 0 {
        None
    } else if bind_matches(b[0].bind, m, key) {
        Some(b[0].action)
    } else {
        first_match(b.drop_first(), m, key)
    }
}

/// The action of the first shortcut that the key press triggers, if any.
pub fn find_action(binds: &Vec<Binding>, modifiers: Modifiers, key: &Key) -> (r: Option<TweaksAction>)
    ensures
        r == first_match(binds@, modifiers, *key),
{
    let n = binds.len();
    let mut i: usize = 0;
    assert(binds@.skip(0) =~= binds@);
    while i < n
        invariant
            n == binds@.len(),
            i <= n,
            first_match(binds@, modifiers, *key) == first_match(binds@.skip(i as int), modifiers, *key),
        decreases n - i,
    {
        assert(binds@.skip(i as int)[0] == binds@[i as int]);
        if binds[i].bind.matches(modifiers, key) {
            return Some(binds[i].action);
        }
        assert(binds@.skip(i as int).drop_first() =~= binds@.skip(i + 1));
        i = i + 1;
    }
    None
}

} // verus!
