//! The whole tool: the window and its pages. A message goes to the window,
//! and what the window asks of the pages is handed to them in turn; what is
//! left is for the program to do.

use vstd::prelude::*;

use crate::color_schemes::page::{
    self as schemes, actions_view, message_ok, step, ColorSchemes,
};
use crate::pages::date_time::{self, date_time_step, DateTime};
use crate::pages::dock::{self, dock_step, Dock};
use crate::pages::layouts::{self, layouts_step, Layouts, PanelType};
use crate::pages::panel::{self, opt_action, panel_step, Panel};
use crate::pages::shortcuts::{self, ShortcutsPage};
use crate::pages::snapshots::{self, snapshots_step, Snapshots};
use crate::shell::{cosmic_step, completed, Cosmic, DialogPage, Effect, Message};

verus! {

/// The tool: the window and its pages.
#[derive(Debug)]
pub struct App {
    pub cosmic: Cosmic,
    pub color_schemes: ColorSchemes,
    pub dock: Dock,
    pub panel: Panel,
    pub layouts: Layouts,
    pub snapshots: Snapshots,
    pub shortcuts: ShortcutsPage,
    pub date_time: DateTime,
}

/// What the tool asks of the program, in order.
#[derive(Debug)]
pub enum AppAction {
    /// A request of the window that no page handles.
    Window(Effect),
    Dock(dock::Action),
    Panel(panel::Action),
    Layouts(layouts::Action),
    Snapshots(snapshots::Action),
    Shortcuts(shortcuts::Action),
    ColorSchemes(schemes::Action),
    /// Write this time format to the clock applet's configuration.
    WriteTimeFormat(String),
}

/// The request of the dock page, if any, as the tool's.
pub open spec fn dock_acts(a: Option<dock::Action>) -> Seq<AppAction> {
    match a {
        Some(x) => seq![AppAction::Dock(x)],
        None => Seq::empty(),
    }
}

/// The request of the panel page, if any, as the tool's.
pub open spec fn panel_acts(a: Option<panel::Action>) -> Seq<AppAction> {
    match a {
        Some(x) => seq![AppAction::Panel(x)],
        None => Seq::empty(),
    }
}

/// The request of the layouts page, if any, as the tool's.
pub open spec fn layouts_acts(a: Option<layouts::Action>) -> Seq<AppAction> {
    match a {
        Some(x) => seq![AppAction::Layouts(x)],
        None => Seq::empty(),
    }
}

/// The request of the snapshots page, if any, as the tool's.
pub open spec fn snapshots_acts(a: Option<snapshots::Action>) -> Seq<AppAction> {
    match a {
        Some(x) => seq![AppAction::Snapshots(x)],
        None => Seq::empty(),
    }
}

/// The write of the clock page, if any, as the tool's.
pub open spec fn time_acts(w: Option<String>) -> Seq<AppAction> {
    match w {
        Some(x) => seq![AppAction::WriteTimeFormat(x)],
        None => Seq::empty(),
    }
}

/// The requests of the color scheme page, as the tool's.
pub open spec fn schemes_acts(v: Seq<schemes::Action>) -> Seq<AppAction> {
    Seq::new(v.len(), |i: int| AppAction::ColorSchemes(v[i]))
}

/// The request of the shortcuts page for a message.
pub open spec fn shortcut_action(m: shortcuts::Message) -> shortcuts::Action {
    match m {
        shortcuts::Message::ApplyShortcuts(g) => shortcuts::Action::AddGroup(g),
        shortcuts::Message::Reset => shortcuts::Action::ResetConfig,
    }
}

/// How the tool hands one request of the window on: a page's message goes to
/// that page, which alone changes, and its requests become the tool's; a
/// picked position is shown in the layouts page; any other request is left
/// to the program.
pub open spec fn routed(a: App, b: App, e: Effect, acts: Seq<AppAction>) -> bool {
    match e {
        Effect::Dock(m) => b == (App { dock: dock_step(a.dock, m).0, ..a }) && acts == dock_acts(dock_step(a.dock, m).1),
        Effect::Panel(m) => b == (App { panel: b.panel, ..a }) && exists|x: Option<panel::Action>|
            (b.panel@, opt_action(x)) == panel_step(a.panel@, m) && acts == panel_acts(x),
        Effect::Layouts(m) => b == (App { layouts: b.layouts, ..a }) && exists|x: Option<layouts::Action>|
            layouts_step(a.layouts, b.layouts, m, x) && acts == layouts_acts(x),
        Effect::Snapshots(m) => b == (App { snapshots: b.snapshots, ..a }) && exists|x: Option<snapshots::Action>|
            snapshots_step(a.snapshots, b.snapshots, m, x) && acts == snapshots_acts(x),
        Effect::Shortcuts(m) => b == a && acts == seq![AppAction::Shortcuts(shortcut_action(m))],
        Effect::ColorSchemes(m) => b == (App { color_schemes: b.color_schemes, ..a }) && exists|
            fresh: u128,
            v: Seq<schemes::Action>,
        | (b.color_schemes@, actions_view(v)) == step(a.color_schemes@, m@, fresh) && acts == schemes_acts(v),
        Effect::DateTime(m) => b == (App { date_time: b.date_time, ..a }) && exists|w: Option<String>|
            date_time_step(a.date_time, b.date_time, m, w) && acts == time_acts(w),
        Effect::SelectPosition(t, p) => b == (App { layouts: b.layouts, ..a })
            && b.layouts.layouts@ == a.layouts.layouts@
            && b.layouts.selected_layout == a.layouts.selected_layout
            && b.layouts.panel_position == (if t == PanelType::Panel { p } else { a.layouts.panel_position })
            && b.layouts.dock_position == (if t == PanelType::Dock { p } else { a.layouts.dock_position })
            && acts.len() == 0,
        _ => b == a && acts == seq![AppAction::Window(e)],
    }
}

/// The window's requests handed on one after the other, from `a` to `b`.
pub open spec fn routed_all(a: App, b: App, effects: Seq<Effect>, acts: Seq<AppAction>) -> bool
    decreases effects.len(),
{
    if effects.len() == 0 {
        b == a && acts.len() == 0
    } else {
        exists|mid: App, n: int|
            0 <= n <= acts.len() && #[trigger] routed(a, mid, effects[0], acts.take(n))
                && routed_all(mid, b, effects.drop_first(), acts.skip(n))
    }
}

/// A message the color scheme page can handle, where one goes to it.
pub open spec fn schemes_ok(a: App, m: Message) -> bool {
    match m {
        Message::ColorSchemes(x) => (x matches schemes::Message::SaveCurrentColorScheme(None)) || message_ok(
            a.color_schemes@,
            x@,
        ),
        _ => true,
    }
}

/// A message the window can handle: one that edits the front dialog needs one.
pub open spec fn window_ok(c: Cosmic, m: Message) -> bool {
    &&& (m matches Message::DialogUpdate(_)) ==> c.dialog_pages@.len() > 0
    &&& (m matches Message::UpdatePanelLayoutPosition(..)) ==> c.dialog_pages@.len() > 0
    &&& (m matches Message::UpdateDockLayoutPosition(..)) ==> c.dialog_pages@.len() > 0
}

fn wrap_dock(a: Option<dock::Action>) -> (v: Vec<AppAction>)
    ensures
        v@ == dock_acts(a),
{
    let mut v: Vec<AppAction> = Vec::new();
    match a {
        Some(x) => {
            v.push(AppAction::Dock(x));
            assert(v@ =~= seq![AppAction::Dock(x)]);
        },
        None => {
            assert(v@ =~= Seq::<AppAction>::empty());
        },
    }
    v
}

fn wrap_panel(a: Option<panel::Action>) -> (v: Vec<AppAction>)
    ensures
        v@ == panel_acts(a),
{
    let mut v: Vec<AppAction> = Vec::new();
    let ghost a0 = a;
    match a {
        Some(x) => v.push(AppAction::Panel(x)),
        None => {},
    }
    proof {
        match a0 {
            Some(x) => assert(v@ =~= seq![AppAction::Panel(x)]),
            None => assert(v@ =~= Seq::<AppAction>::empty()),
        }
    }
    v
}

fn wrap_layouts(a: Option<layouts::Action>) -> (v: Vec<AppAction>)
    ensures
        v@ == layouts_acts(a),
{
    let mut v: Vec<AppAction> = Vec::new();
    let ghost a0 = a;
    match a {
        Some(x) => v.push(AppAction::Layouts(x)),
        None => {},
    }
    proof {
        match a0 {
            Some(x) => assert(v@ =~= seq![AppAction::Layouts(x)]),
            None => assert(v@ =~= Seq::<AppAction>::empty()),
        }
    }
    v
}

fn wrap_snapshots(a: Option<snapshots::Action>) -> (v: Vec<AppAction>)
    ensures
        v@ == snapshots_acts(a),
{
    let mut v: Vec<AppAction> = Vec::new();
    let ghost a0 = a;
    match a {
        Some(x) => v.push(AppAction::Snapshots(x)),
        None => {},
    }
    proof {
        match a0 {
            Some(x) => assert(v@ =~= seq![AppAction::Snapshots(x)]),
            None => assert(v@ =~= Seq::<AppAction>::empty()),
        }
    }
    v
}

fn wrap_time(w: Option<String>) -> (v: Vec<AppAction>)
    ensures
        v@ == time_acts(w),
{
    let mut v: Vec<AppAction> = Vec::new();
    let ghost w0 = w;
    match w {
        Some(x) => v.push(AppAction::WriteTimeFormat(x)),
        None => {},
    }
    proof {
        match w0 {
            Some(x) => assert(v@ =~= seq![AppAction::WriteTimeFormat(x)]),
            None => assert(v@ =~= Seq::<AppAction>::empty()),
        }
    }
    v
}

fn wrap_schemes(actions: Vec<schemes::Action>) -> (v: Vec<AppAction>)
    ensures
        v@ == schemes_acts(actions@),
{
    let ghost all = actions@;
    let mut rest = actions;
    let mut v: Vec<AppAction> = Vec::new();
    let n = rest.len();
    let mut k: usize = 0;
    while k < n
        invariant
            n == all.len(),
            k <= n,
            rest@ == all.skip(k as int),
            v@ == schemes_acts(all.take(k as int)),
        decreases n - k,
    {
        let x = rest.remove(0);
        assert(x == all[k as int]);
        assert(rest@ =~= all.skip(k + 1));
        v.push(AppAction::ColorSchemes(x));
        assert(v@ =~= schemes_acts(all.take(k + 1)));
        k = k + 1;
    }
    assert(all.take(n as int) =~= all);
    v
}

fn one(a: AppAction) -> (v: Vec<AppAction>)
    ensures
        v@ == seq![a],
{
    let v = vec![a];
    assert(v@ =~= seq![a]);
    v
}

/// What the window asks for in answer to a message: at most two requests,
/// the second only ever rebuilding the window's theme; a request to the
/// color scheme page is either the message itself passed on, or saving the
/// current theme under a given name.
proof fn lemma_effects_shape(old: Cosmic, fin: Cosmic, message: Message, effects: Seq<Effect>)
    requires
        cosmic_step(old, fin, message, effects),
    ensures
        effects.len() <= 2,
        effects.len() == 2 ==> effects[1] is ApplyAppTheme,
        effects.len() >= 1 ==> match effects[0] {
            Effect::ColorSchemes(x) => (message matches Message::ColorSchemes(y) && x == y
                && !(y matches schemes::Message::SaveCurrentColorScheme(None)))
                || (x matches schemes::Message::SaveCurrentColorScheme(Some(_))),
            _ => true,
        },
{
    if message is DialogComplete && old.dialog_pages@.len() > 0 {
        match old.dialog_pages@[0] {
            DialogPage::CreateLayout(d) => {
                if d.error is Some {
                    assert(effects =~= seq![Effect::FocusDialogInput]);
                }
            },
            _ => {},
        }
    }
}

impl App {
    /// The pages' own invariants hold.
    pub open spec fn wf(self) -> bool {
        &&& self.panel.wf()
        &&& self.color_schemes.wf()
    }

    /// The tool as it opens over its pages: the window as `Cosmic::new` makes
    /// it with the configuration read; it asks for a snapshot named `opened`
    /// to be taken, for the saved layouts, and for the window's title.
    pub fn init(
        config: crate::config::TweaksConfig,
        color_schemes: ColorSchemes,
        dock: Dock,
        panel: Panel,
        layouts: Layouts,
        snapshots: Snapshots,
        shortcuts: ShortcutsPage,
        date_time: DateTime,
        opened: String,
    ) -> (r: (App, Vec<AppAction>))
        requires
            panel.wf(),
            color_schemes.wf(),
        ensures
            r.0.wf(),
            r.0.cosmic.dialog_pages@.len() == 0,
            r.0.cosmic.config == config,
            !r.0.cosmic.show_context,
            r.0.color_schemes == color_schemes,
            r.0.dock == dock,
            r.0.panel == panel,
            r.0.layouts == layouts,
            r.0.snapshots == snapshots,
            r.0.shortcuts == shortcuts,
            r.0.date_time == date_time,
            r.1@.len() == 3,
            r.1@[0] matches AppAction::Snapshots(snapshots::Action::Create(n, k)) && n@ == opened@
                && k == crate::pages::snapshots::SnapshotKind::System,
            r.1@[1] matches AppAction::Window(Effect::ListLayouts),
            r.1@[2] matches AppAction::Window(Effect::SetWindowTitle(None)),
    {
        let mut app = App {
            cosmic: Cosmic::new(config),
            color_schemes,
            dock,
            panel,
            layouts,
            snapshots,
            shortcuts,
            date_time,
        };
        let mut effects = Cosmic::startup(opened);
        let e0 = effects.remove(0);
        let e1 = effects.remove(0);
        let e2 = effects.remove(0);
        let mut acts = app.route(e0);
        let mut more = app.route(e1);
        acts.append(&mut more);
        let mut last = app.route(e2);
        acts.append(&mut last);
        (app, acts)
    }

    /// Hands one request of the window on, as `routed` says.
    pub fn route(&mut self, e: Effect) -> (acts: Vec<AppAction>)
        requires
            old(self).wf(),
            e matches Effect::ColorSchemes(m) ==> message_ok(old(self).color_schemes@, m@),
        ensures
            final(self).wf(),
            routed(*old(self), *final(self), e, acts@),
    {
        match e {
            Effect::Dock(m) => {
                let a = self.dock.update(m);
                wrap_dock(a)
            },
            Effect::Panel(m) => {
                let a = self.panel.update(m);
                let ghost x = a;
                let v = wrap_panel(a);
                assert((self.panel@, opt_action(x)) == panel_step(old(self).panel@, m));
                v
            },
            Effect::Layouts(m) => {
                let ghost mv = m;
                let a = self.layouts.update(m);
                let ghost x = a;
                let v = wrap_layouts(a);
                assert(layouts_step(old(self).layouts, self.layouts, mv, x));
                v
            },
            Effect::Snapshots(m) => {
                let ghost mv = m;
                let a = self.snapshots.update(m);
                let ghost x = a;
                let v = wrap_snapshots(a);
                assert(snapshots_step(old(self).snapshots, self.snapshots, mv, x));
                v
            },
            Effect::Shortcuts(m) => {
                let a = self.shortcuts.update(m);
                one(AppAction::Shortcuts(a))
            },
            Effect::ColorSchemes(m) => {
                let actions = self.color_schemes.update(m);
                let ghost av = actions@;
                let v = wrap_schemes(actions);
                let ghost fresh = choose|fresh: u128|
                    (self.color_schemes@, actions_view(av)) == step(old(self).color_schemes@, m@, fresh);
                assert((self.color_schemes@, actions_view(av)) == step(old(self).color_schemes@, m@, fresh));
                v
            },
            Effect::DateTime(m) => {
                let ghost mv = m;
                let w = self.date_time.update(m);
                let ghost x = w;
                let v = wrap_time(w);
                assert(date_time_step(old(self).date_time, self.date_time, mv, x));
                v
            },
            Effect::SelectPosition(t, p) => {
                self.layouts.select_position(t, p);
                Vec::new()
            },
            other => one(AppAction::Window(other)),
        }
    }

    /// Handles a message: the window answers it as `cosmic_step` says, and its
    /// requests are handed on in order as `routed` says.
    pub fn update(&mut self, message: Message) -> (acts: Vec<AppAction>)
        requires
            old(self).wf(),
            window_ok(old(self).cosmic, message),
            schemes_ok(*old(self), message),
        ensures
            final(self).wf(),
            exists|c: Cosmic, effects: Seq<Effect>|
                cosmic_step(old(self).cosmic, c, message, effects)
                    && routed_all(App { cosmic: c, ..*old(self) }, *final(self), effects, acts@),
    {
        let ghost msg = message;
        let effects = self.cosmic.update(message);
        let ghost start = *self;
        let ghost effs = effects@;
        proof {
            lemma_effects_shape(old(self).cosmic, self.cosmic, msg, effs);
            assert(start == (App { cosmic: self.cosmic, ..*old(self) }));
        }
        let mut rest = effects;
        if rest.len() == 0 {
            let v: Vec<AppAction> = Vec::new();
            assert(routed_all(start, *self, effs, v@));
            return v;
        }
        let e0 = rest.remove(0);
        assert(rest@ =~= effs.drop_first());
        let mut acts = self.route(e0);
        let ghost mid = *self;
        let ghost a0 = acts@;
        if rest.len() == 0 {
            proof {
                assert(effs.drop_first() =~= Seq::<Effect>::empty());
                assert(a0.take(a0.len() as int) =~= a0);
                assert(a0.skip(a0.len() as int) =~= Seq::<AppAction>::empty());
                assert(routed_all(mid, *self, effs.drop_first(), a0.skip(a0.len() as int)));
                assert(routed(start, mid, effs[0], a0.take(a0.len() as int)));
                assert(routed_all(start, *self, effs, a0));
            }
            return acts;
        }
        let e1 = rest.remove(0);
        let mut more = self.route(e1);
        let ghost a1 = more@;
        acts.append(&mut more);
        proof {
            let all = a0 + a1;
            assert(acts@ =~= all);
            let tail = effs.drop_first();
            assert(tail.len() == 1);
            assert(tail[0] == effs[1]);
            assert(tail.drop_first() =~= Seq::<Effect>::empty());
            assert(a1.take(a1.len() as int) =~= a1);
            assert(a1.skip(a1.len() as int) =~= Seq::<AppAction>::empty());
            assert(routed_all(*self, *self, tail.drop_first(), a1.skip(a1.len() as int)));
            assert(routed(mid, *self, tail[0], a1.take(a1.len() as int)));
            assert(routed_all(mid, *self, tail, a1));
            assert(all.take(a0.len() as int) =~= a0);
            assert(all.skip(a0.len() as int) =~= a1);
            assert(routed(start, mid, effs[0], all.take(a0.len() as int)));
            assert(routed_all(start, *self, effs, all));
        }
        acts
    }
}

} // verus!
