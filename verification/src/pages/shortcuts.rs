use vstd::prelude::*;

verus! {

/// A set of preset shortcuts.
#[derive(Clone, Copy, Debug, PartialEq, Eq, Structural)]
pub enum ShortcutsGroup {
    Windows,
}

impl ShortcutsGroup {
    /// The group's name.
    pub fn name(&self) -> (n: &'static str)
        ensures
            n@ == "Windows"@,
    {
        match self {
            ShortcutsGroup::Windows => "Windows",
        }
    }

    /// The localization key of the group's description.
    pub fn desc(&self) -> (k: &'static str)
        ensures
            k@ == "windows-desc"@,
    {
        match self {
            ShortcutsGroup::Windows => "windows-desc",
        }
    }
}

/// What the shortcuts page is told.
#[derive(Clone, Copy, Debug, PartialEq, Eq, Structural)]
pub enum Message {
    ApplyShortcuts(ShortcutsGroup),
    Reset,
}

/// What the shortcuts page asks of the program.
#[derive(Clone, Copy, Debug, PartialEq, Eq, Structural)]
pub enum Action {
    /// Add the group's shortcuts to the user's custom shortcuts (read as empty
    /// when they cannot be read), replacing those on the same keys, and write them.
    AddGroup(ShortcutsGroup),
    /// Reset the shortcut configuration and reopen it.
    ResetConfig,
}

/// The shortcuts page.
#[derive(Debug)]
pub struct ShortcutsPage {
    /// Whether the shortcut configuration could be opened.
    pub has_config: bool,
}

impl ShortcutsPage {
    pub fn new(has_config: bool) -> (s: ShortcutsPage)
        ensures
            s.has_config == has_config,
    {
        ShortcutsPage { has_config }
    }

    /// Asks to add a preset group, or to reset the configuration.
    pub fn update(&self, message: Message) -> (a: Action)
        ensures
            a == (match message {
                Message::ApplyShortcuts(g) => Action::AddGroup(g),
                Message::Reset => Action::ResetConfig,
            }),
    {
        match message {
            Message::ApplyShortcuts(g) => Action::AddGroup(g),
            Message::Reset => Action::ResetConfig,
        }
    }
}

} // verus!
