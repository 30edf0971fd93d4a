use vstd::prelude::*;

use super::autohide::{autohide_or, AutoHide, PanelConfigValues};

verus! {

/// The settings page for the dock.
#[derive(Debug)]
pub struct Dock {
    /// Whether the dock's configuration could be opened and read as the dock's.
    pub has_dock_config: bool,
    pub padding: u32,
    pub margin: u16,
    pub spacing: u32,
    pub autohide: AutoHide,
}

/// What the dock page is told.
#[derive(Debug, Clone, Copy)]
pub enum Message {
    SetPadding(u32),
    SetMargin(u16),
    SetSpacing(u32),
    SetWaitTime(u32),
    SetTransitionTime(u32),
    SetHandleSize(u32),
}

/// What the dock page asks the program to write.
#[derive(Debug, Clone, Copy, PartialEq, Eq, Structural)]
pub enum Action {
    WritePadding(u32),
    WriteMargin(u16),
    WriteSpacing(u32),
    WriteAutoHide(AutoHide),
}

/// How the dock page answers a message: nothing without the dock's
/// configuration; otherwise the new value and the write it asks for.
pub open spec fn dock_step(d: Dock, m: Message) -> (Dock, Option<Action>) {
    if !d.has_dock_config {
        (d, None)
    } else {
        match m {
            Message::SetPadding(v) => (Dock { padding: v, ..d }, Some(Action::WritePadding(v))),
            Message::SetMargin(v) => (Dock { margin: v, ..d }, Some(Action::WriteMargin(v))),
            Message::SetSpacing(v) => (Dock { spacing: v, ..d }, Some(Action::WriteSpacing(v))),
            Message::SetWaitTime(v) => {
                let a = AutoHide { wait_time: v, ..d.autohide };
                (Dock { autohide: a, ..d }, Some(Action::WriteAutoHide(a)))
            },
            Message::SetTransitionTime(v) => {
                let a = AutoHide { transition_time: v, ..d.autohide };
                (Dock { autohide: a, ..d }, Some(Action::WriteAutoHide(a)))
            },
            Message::SetHandleSize(v) => {
                let a = AutoHide { handle_size: v, ..d.autohide };
                (Dock { autohide: a, ..d }, Some(Action::WriteAutoHide(a)))
            },
        }
    }
}

impl Dock {
    /// The page from the configuration read under the dock's name, used only
    /// when it names its panel "Dock": its padding, margin, spacing and
    /// auto-hide setting (`fallback` when it has none); without it everything
    /// is zero and the auto-hide setting is `fallback`.
    pub fn new(config: Option<PanelConfigValues>, fallback: AutoHide) -> (d: Dock)
        ensures
            d.has_dock_config == (config matches Some(c) && c.name@ == "Dock"@),
            d.has_dock_config ==> d.padding == config->0.padding && d.margin == config->0.margin
                && d.spacing == config->0.spacing
                && d.autohide == match config->0.autohide { Some(a) => a, None => fallback },
            !d.has_dock_config ==> d.padding == 0 && d.margin == 0 && d.spacing == 0 && d.autohide == fallback,
    {
        match config {
            Some(c) => if crate::strings::same_text(c.name.as_str(), "Dock") {
                Dock {
                    has_dock_config: true,
                    padding: c.padding,
                    margin: c.margin,
                    spacing: c.spacing,
                    autohide: autohide_or(&c, fallback),
                }
            } else {
                Dock { has_dock_config: false, padding: 0, margin: 0, spacing: 0, autohide: fallback }
            },
            None => Dock { has_dock_config: false, padding: 0, margin: 0, spacing: 0, autohide: fallback },
        }
    }

    /// Handles a message as `dock_step` says.
    pub fn update(&mut self, message: Message) -> (action: Option<Action>)
        ensures
            (*final(self), action) == dock_step(*old(self), message),
    {
        if !self.has_dock_config {
            return None;
        }
        match message {
            Message::SetPadding(v) => {
                self.padding = v;
                Some(Action::WritePadding(v))
            },
            Message::SetMargin(v) => {
                self.margin = v;
                Some(Action::WriteMargin(v))
            },
            Message::SetSpacing(v) => {
                self.spacing = v;
                Some(Action::WriteSpacing(v))
            },
            Message::SetWaitTime(v) => {
                self.autohide.wait_time = v;
                Some(Action::WriteAutoHide(self.autohide))
            },
            Message::SetTransitionTime(v) => {
                self.autohide.transition_time = v;
                Some(Action::WriteAutoHide(self.autohide))
            },
            Message::SetHandleSize(v) => {
                self.autohide.handle_size = v;
                Some(Action::WriteAutoHide(self.autohide))
            },
        }
    }
}

/// Each message changes only the value it names, to the value it carries,
/// and asks to write that value (the whole auto-hide setting for an auto-hide
/// value); without the dock's configuration nothing changes or is written.
pub proof fn lemma_each_message_sets_its_value(d: Dock, m: Message)
    ensures
        ({
            let (e, a) = dock_step(d, m);
            &&& e.has_dock_config == d.has_dock_config
            &&& !d.has_dock_config ==> e == d && a is None
            &&& d.has_dock_config ==> match m {
                Message::SetPadding(v) => e == (Dock { padding: v, ..d }) && a == Some(Action::WritePadding(v)),
                Message::SetMargin(v) => e == (Dock { margin: v, ..d }) && a == Some(Action::WriteMargin(v)),
                Message::SetSpacing(v) => e == (Dock { spacing: v, ..d }) && a == Some(Action::WriteSpacing(v)),
                Message::SetWaitTime(v) => {
                    &&& e.autohide.wait_time == v
                    &&& e.autohide.transition_time == d.autohide.transition_time
                    &&& e.autohide.handle_size == d.autohide.handle_size
                    &&& (e.padding, e.margin, e.spacing) == (d.padding, d.margin, d.spacing)
                    &&& a == Some(Action::WriteAutoHide(e.autohide))
                },
                Message::SetTransitionTime(v) => {
                    &&& e.autohide.transition_time == v
                    &&& e.autohide.wait_time == d.autohide.wait_time
                    &&& e.autohide.handle_size == d.autohide.handle_size
                    &&& (e.padding, e.margin, e.spacing) == (d.padding, d.margin, d.spacing)
                    &&& a == Some(Action::WriteAutoHide(e.autohide))
                },
                Message::SetHandleSize(v) => {
                    &&& e.autohide.handle_size == v
                    &&& e.autohide.wait_time == d.autohide.wait_time
                    &&& e.autohide.transition_time == d.autohide.transition_time
                    &&& (e.padding, e.margin, e.spacing) == (d.padding, d.margin, d.spacing)
                    &&& a == Some(Action::WriteAutoHide(e.autohide))
                },
            }
        }),
{
}

} // verus!
