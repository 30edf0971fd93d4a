use vstd::prelude::*;

use super::autohide::AutoHide;
use super::panel_size::PanelSize;
use crate::strings::same_text;

verus! {

/// How a panel shows its buttons.
#[derive(Clone, Copy, Debug, PartialEq, Eq, Structural)]
pub enum Override {
    Icon,
    Text,
}

/// The button presentation forced for one panel, by the panel's name.
#[derive(Debug)]
pub struct IndividualConfig {
    pub name: String,
    pub force_presentation: Option<Override>,
}

/// The names of the panels the desktop runs.
#[derive(Debug)]
pub struct CosmicPanel {
    pub entries: Vec<String>,
}

/// The forced button presentations, one per panel.
#[derive(Debug)]
pub struct CosmicPanelButtonConfig {
    pub configs: Vec<IndividualConfig>,
}

/// The name of the main panel.
pub open spec fn panel_name() -> Seq<char> {
    "Panel"@
}

/// The texts of a list of strings.
pub open spec fn texts(v: Seq<String>) -> Seq<Seq<char>> {
    Seq::new(v.len(), |i: int| v[i]@)
}

/// The button configurations, as (panel name, forced presentation) pairs.
pub open spec fn button_view(v: Seq<IndividualConfig>) -> Seq<(Seq<char>, Option<Override>)> {
    Seq::new(v.len(), |i: int| (v[i].name@, v[i].force_presentation))
}

/// The presentation forced for the main panel by these configurations.
pub open spec fn panel_forced(c: Seq<(Seq<char>, Option<Override>)>) -> Option<Override> {
    if exists|i: int| 0 <= i < c.len() && c[i].0 == panel_name() {
        c[choose|i: int| 0 <= i < c.len() && c[i].0 == panel_name()].1
    } else {
        None
    }
}

/// The configurations with the main panel's forced presentation set to `v`:
/// its entry changed in place, or added at the end when there is none.
pub open spec fn with_panel_forced(c: Seq<(Seq<char>, Option<Override>)>, v: Option<Override>) -> Seq<
    (Seq<char>, Option<Override>),
> {
    if exists|i: int| 0 <= i < c.len() && c[i].0 == panel_name() {
        c.update(choose|i: int| 0 <= i < c.len() && c[i].0 == panel_name(), (panel_name(), v))
    } else {
        c.push((panel_name(), v))
    }
}

/// No two configurations are for the same panel.
pub open spec fn distinct_panels(c: Seq<(Seq<char>, Option<Override>)>) -> bool {
    forall|i: int, j: int| 0 <= i < j < c.len() ==> c[i].0 != c[j].0
}

/// The panel list after asking to show (`true`) or hide the main panel: the
/// name added at the end when showing a list without it, its first occurrence
/// removed when hiding a list with it, and no change otherwise.
pub open spec fn entries_after(e: Seq<Seq<char>>, show: bool) -> Option<Seq<Seq<char>>> {
    if show {
        if e.contains(panel_name()) { None } else { Some(e.push(panel_name())) }
    } else {
        match e.index_of_first(panel_name()) {
            Some(i) => Some(e.remove(i)),
            None => None,
        }
    }
}

/// Showing the panel when it does not run adds it at the end, and hiding it
/// again gives back the list as it was.
pub proof fn lemma_show_then_hide(e: Seq<Seq<char>>)
    requires
        !e.contains(panel_name()),
    ensures
        entries_after(e, true) == Some(e.push(panel_name())),
        entries_after(e.push(panel_name()), false) == Some(e),
{
    let f = e.push(panel_name());
    assert(f[e.len() as int] == panel_name());
    assert(f.contains(panel_name()));
    f.index_of_first_ensures(panel_name());
    let k = f.index_of_first(panel_name())->0;
    if k < e.len() {
        assert(f[k] == e[k]);
        assert(e.contains(panel_name()));
    }
    assert(k == e.len());
    assert(f.remove(k) =~= e);
}

/// Asking to show a running panel, or to hide one that does not run, changes
/// nothing.
pub proof fn lemma_no_change_when_already_so(e: Seq<Seq<char>>, show: bool)
    requires
        e.contains(panel_name()) == show,
    ensures
        entries_after(e, show) is None,
{
    if !show {
        e.index_of_first_ensures(panel_name());
    }
}

/// After forcing a presentation on the main panel, the configurations force
/// exactly that presentation on it, and stay one per panel.
pub proof fn lemma_forced_reads_back(c: Seq<(Seq<char>, Option<Override>)>, v: Option<Override>)
    requires
        distinct_panels(c),
    ensures
        panel_forced(with_panel_forced(c, v)) == v,
        distinct_panels(with_panel_forced(c, v)),
{
    let w = with_panel_forced(c, v);
    if exists|i: int| 0 <= i < c.len() && c[i].0 == panel_name() {
        let k = choose|i: int| 0 <= i < c.len() && c[i].0 == panel_name();
        assert(w[k].0 == panel_name());
        assert forall|a: int, b: int| 0 <= a < b < w.len() implies w[a].0 != w[b].0 by {
            if a != k && b != k {
                assert(w[a] == c[a] && w[b] == c[b]);
            } else if a == k {
                assert(w[b] == c[b]);
                assert(c[a].0 != c[b].0);
            } else {
                assert(w[a] == c[a]);
                assert(c[a].0 != c[b].0);
            }
        }
        let j = choose|i: int| 0 <= i < w.len() && w[i].0 == panel_name();
        if j != k {
            if j < k { assert(w[j].0 != w[k].0); } else { assert(w[k].0 != w[j].0); }
        }
    } else {
        let n = c.len() as int;
        assert(w[n].0 == panel_name());
        assert forall|a: int, b: int| 0 <= a < b < w.len() implies w[a].0 != w[b].0 by {
            if b < n {
                assert(w[a] == c[a] && w[b] == c[b]);
            } else {
                assert(w[a] == c[a]);
            }
        }
        let j = choose|i: int| 0 <= i < w.len() && w[i].0 == panel_name();
        if j != n {
            assert(w[j] == c[j]);
        }
    }
}

/// The settings page for the top panel.
#[derive(Debug)]
pub struct Panel {
    /// Whether the panel's configuration could be opened and read as the main panel's.
    pub has_panel_config: bool,
    pub padding: u32,
    pub margin: u16,
    pub spacing: u32,
    pub show_panel: bool,
    /// The names of the panels the desktop runs, with a handle to write them if any.
    pub cosmic_panel_config: CosmicPanel,
    pub has_entries_writer: bool,
    /// The forced button presentations, with a handle to write them if any.
    pub cosmic_panel_button_config: CosmicPanelButtonConfig,
    pub has_button_writer: bool,
    pub force_icons: bool,
    pub panel_size: PanelSize,
    pub autohide: AutoHide,
}

/// What the panel page asks the program to write.
#[derive(Debug)]
pub enum Action {
    WritePadding(u32),
    WriteMargin(u16),
    WriteSpacing(u32),
    WriteSize(PanelSize),
    WriteAutoHide(AutoHide),
    /// Write the panel list; report `EntriesWritten` with the flag and the outcome.
    WriteEntries(Vec<String>, bool),
    /// Write the button configurations; report `ButtonConfigsWritten` with the flag and the outcome.
    WriteButtonConfigs(Vec<IndividualConfig>, bool),
}

/// What the panel page is told.
#[derive(Debug, Clone, Copy)]
pub enum Message {
    SetPadding(u32),
    SetMargin(u16),
    SetSpacing(u32),
    ShowPanel(bool),
    ForceIcons(bool),
    SetPanelSize(i32),
    SetWaitTime(u32),
    SetTransitionTime(u32),
    SetHandleSize(u32),
    /// The panel list asked for by `ShowPanel(show)` was written, or not.
    EntriesWritten(bool, bool),
    /// The configurations asked for by `ForceIcons(force)` were written, or not.
    ButtonConfigsWritten(bool, bool),
}

/// Whether a list of names holds the main panel's.
pub fn holds_panel(entries: &Vec<String>) -> (r: bool)
    ensures
        r == texts(entries@).contains(panel_name()),
{
    proof { reveal_strlit("Panel"); }
    let n = entries.len();
    let mut i: usize = 0;
    while i < n
        invariant
            n == entries@.len(),
            i <= n,
            forall|j: int| 0 <= j < i ==> texts(entries@)[j] != panel_name(),
        decreases n - i,
    {
        if same_text(entries[i].as_str(), "Panel") {
            assert(texts(entries@)[i as int] == panel_name());
            return true;
        }
        i = i + 1;
    }
    false
}

/// Whether these configurations force icons on the main panel.
pub fn forces_panel_icons(configs: &Vec<IndividualConfig>) -> (r: bool)
    requires
        distinct_panels(button_view(configs@)),
    ensures
        r == (panel_forced(button_view(configs@)) == Some(Override::Icon)),
{
    proof { reveal_strlit("Panel"); }
    let ghost c = button_view(configs@);
    let n = configs.len();
    let mut i: usize = 0;
    while i < n
        invariant
            n == configs@.len(),
            c == button_view(configs@),
            distinct_panels(c),
            i <= n,
            forall|j: int| 0 <= j < i ==> c[j].0 != panel_name(),
        decreases n - i,
    {
        if same_text(configs[i].name.as_str(), "Panel") {
            proof {
                reveal_strlit("Panel");
                assert(c[i as int].0 == panel_name());
                let k = choose|k: int| 0 <= k < c.len() && c[k].0 == panel_name();
                if k != i {
                    if k < i { assert(c[k].0 != c[i as int].0); } else { assert(c[i as int].0 != c[k].0); }
                }
            }
            return match configs[i].force_presentation {
                Some(Override::Icon) => true,
                _ => false,
            };
        }
        i = i + 1;
    }
    false
}

} // verus!

verus! {

/// The value of the panel page.
pub struct PanelView {
    pub has_panel_config: bool,
    pub padding: u32,
    pub margin: u16,
    pub spacing: u32,
    pub show_panel: bool,
    pub entries: Seq<Seq<char>>,
    pub has_entries_writer: bool,
    pub button_configs: Seq<(Seq<char>, Option<Override>)>,
    pub has_button_writer: bool,
    pub force_icons: bool,
    pub panel_size: PanelSize,
    pub autohide: AutoHide,
}

impl View for Panel {
    type V = PanelView;

    open spec fn view(&self) -> PanelView {
        PanelView {
            has_panel_config: self.has_panel_config,
            padding: self.padding,
            margin: self.margin,
            spacing: self.spacing,
            show_panel: self.show_panel,
            entries: texts(self.cosmic_panel_config.entries@),
            has_entries_writer: self.has_entries_writer,
            button_configs: button_view(self.cosmic_panel_button_config.configs@),
            has_button_writer: self.has_button_writer,
            force_icons: self.force_icons,
            panel_size: self.panel_size,
            autohide: self.autohide,
        }
    }
}

/// The value of a panel page action.
pub enum ActionView {
    WritePadding(u32),
    WriteMargin(u16),
    WriteSpacing(u32),
    WriteSize(PanelSize),
    WriteAutoHide(AutoHide),
    WriteEntries(Seq<Seq<char>>, bool),
    WriteButtonConfigs(Seq<(Seq<char>, Option<Override>)>, bool),
}

impl View for Action {
    type V = ActionView;

    open spec fn view(&self) -> ActionView {
        match self {
            Action::WritePadding(v) => ActionView::WritePadding(*v),
            Action::WriteMargin(v) => ActionView::WriteMargin(*v),
            Action::WriteSpacing(v) => ActionView::WriteSpacing(*v),
            Action::WriteSize(v) => ActionView::WriteSize(*v),
            Action::WriteAutoHide(v) => ActionView::WriteAutoHide(*v),
            Action::WriteEntries(e, s) => ActionView::WriteEntries(texts(e@), *s),
            Action::WriteButtonConfigs(c, f) => ActionView::WriteButtonConfigs(button_view(c@), *f),
        }
    }
}

/// The value of an optional action.
pub open spec fn opt_action(a: Option<Action>) -> Option<ActionView> {
    match a {
        Some(a) => Some(a@),
        None => None,
    }
}

/// The presentation that forcing icons on (`true`) or off asks for.
pub open spec fn forced_for(force: bool) -> Option<Override> {
    if force { Some(Override::Icon) } else { None }
}

/// How the panel page answers a message: nothing without the panel's
/// configuration; otherwise the new value and the write it asks for.
pub open spec fn panel_step(p: PanelView, m: Message) -> (PanelView, Option<ActionView>) {
    if !p.has_panel_config {
        (p, None)
    } else {
        match m {
            Message::SetPadding(v) => (PanelView { padding: v, ..p }, Some(ActionView::WritePadding(v))),
            Message::SetMargin(v) => (PanelView { margin: v, ..p }, Some(ActionView::WriteMargin(v))),
            Message::SetSpacing(v) => (PanelView { spacing: v, ..p }, Some(ActionView::WriteSpacing(v))),
            Message::ForceIcons(force) => if p.has_button_writer {
                let c = with_panel_forced(p.button_configs, forced_for(force));
                (PanelView { button_configs: c, ..p }, Some(ActionView::WriteButtonConfigs(c, force)))
            } else {
                (p, None)
            },
            Message::ShowPanel(show) => match entries_after(p.entries, show) {
                Some(e) => if p.has_entries_writer {
                    (PanelView { entries: e, ..p }, Some(ActionView::WriteEntries(e, show)))
                } else {
                    (p, None)
                },
                None => (p, None),
            },
            Message::EntriesWritten(show, ok) => if ok {
                (PanelView { show_panel: !show, ..p }, None)
            } else {
                (p, None)
            },
            Message::ButtonConfigsWritten(force, ok) => if ok {
                (PanelView { force_icons: force, ..p }, None)
            } else {
                (p, None)
            },
            Message::SetPanelSize(s) => {
                let size = PanelSize::Custom(s as u32);
                (PanelView { panel_size: size, ..p }, Some(ActionView::WriteSize(size)))
            },
            Message::SetWaitTime(v) => {
                let a = AutoHide { wait_time: v, ..p.autohide };
                (PanelView { autohide: a, ..p }, Some(ActionView::WriteAutoHide(a)))
            },
            Message::SetTransitionTime(v) => {
                let a = AutoHide { transition_time: v, ..p.autohide };
                (PanelView { autohide: a, ..p }, Some(ActionView::WriteAutoHide(a)))
            },
            Message::SetHandleSize(v) => {
                let a = AutoHide { handle_size: v, ..p.autohide };
                (PanelView { autohide: a, ..p }, Some(ActionView::WriteAutoHide(a)))
            },
        }
    }
}

/// Each auto-hide message changes only the auto-hide value it names, to the
/// value it carries, and asks to write the whole new auto-hide setting; the
/// other settings of the page stay as they were.
pub proof fn lemma_autohide_message_sets_its_value(p: PanelView, m: Message)
    requires
        p.has_panel_config,
        m is SetWaitTime || m is SetTransitionTime || m is SetHandleSize,
    ensures
        ({
            let (q, a) = panel_step(p, m);
            &&& (q.padding, q.margin, q.spacing, q.show_panel, q.force_icons) == (p.padding, p.margin, p.spacing,
                p.show_panel, p.force_icons)
            &&& q.entries == p.entries
            &&& q.button_configs == p.button_configs
            &&& q.panel_size == p.panel_size
            &&& a == Some(ActionView::WriteAutoHide(q.autohide))
            &&& match m {
                Message::SetWaitTime(v) => q.autohide.wait_time == v
                    && q.autohide.transition_time == p.autohide.transition_time
                    && q.autohide.handle_size == p.autohide.handle_size,
                Message::SetTransitionTime(v) => q.autohide.transition_time == v
                    && q.autohide.wait_time == p.autohide.wait_time
                    && q.autohide.handle_size == p.autohide.handle_size,
                Message::SetHandleSize(v) => q.autohide.handle_size == v
                    && q.autohide.wait_time == p.autohide.wait_time
                    && q.autohide.transition_time == p.autohide.transition_time,
                _ => true,
            }
        }),
{
}

pub fn copy_entries(v: &Vec<String>) -> (r: Vec<String>)
    ensures
        texts(r@) == texts(v@),
{
    let mut out: Vec<String> = Vec::new();
    let n = v.len();
    let mut k: usize = 0;
    while k < n
        invariant
            n == v@.len(),
            k <= n,
            out@.len() == k,
            forall|j: int| 0 <= j < k ==> (#[trigger] out@[j])@ == v@[j]@,
        decreases n - k,
    {
        out.push(v[k].clone());
        k = k + 1;
    }
    assert(texts(out@) =~= texts(v@));
    out
}

pub fn copy_configs(v: &Vec<IndividualConfig>) -> (r: Vec<IndividualConfig>)
    ensures
        button_view(r@) == button_view(v@),
{
    let mut out: Vec<IndividualConfig> = Vec::new();
    let n = v.len();
    let mut k: usize = 0;
    while k < n
        invariant
            n == v@.len(),
            k <= n,
            out@.len() == k,
            forall|j: int| 0 <= j < k ==> (#[trigger] out@[j]).name@ == v@[j].name@
                && out@[j].force_presentation == v@[j].force_presentation,
        decreases n - k,
    {
        out.push(IndividualConfig { name: v[k].name.clone(), force_presentation: v[k].force_presentation });
        k = k + 1;
    }
    assert(button_view(out@) =~= button_view(v@));
    out
}

/// The panel list after asking to show or hide the main panel, or `None` when
/// nothing changes.
pub fn panel_entries_after(entries: &Vec<String>, show: bool) -> (r: Option<Vec<String>>)
    ensures
        match (r, entries_after(texts(entries@), show)) {
            (Some(v), Some(e)) => texts(v@) == e,
            (None, None) => true,
            _ => false,
        },
{
    proof { reveal_strlit("Panel"); }
    let ghost e = texts(entries@);
    if show {
        if holds_panel(entries) {
            None
        } else {
            let mut v = copy_entries(entries);
            v.push(String::from_str("Panel"));
            assert(texts(v@) =~= e.push(panel_name()));
            Some(v)
        }
    } else {
        let n = entries.len();
        let mut i: usize = 0;
        while i < n
            invariant
                n == entries@.len(),
                e == texts(entries@),
                !show,
                i <= n,
                forall|j: int| 0 <= j < i ==> e[j] != panel_name(),
            decreases n - i,
        {
            if same_text(entries[i].as_str(), "Panel") {
                proof {
                    assert(e[i as int] == panel_name());
                    assert(e.contains(panel_name()));
                    e.index_of_first_ensures(panel_name());
                    let k = e.index_of_first(panel_name())->0;
                    if k < i {
                        assert(e[k] != panel_name());
                    }
                    assert(k == i);
                    assert(e.index_of_first(panel_name()) == Some(i as int));
                }
                let mut v = copy_entries(entries);
                v.remove(i);
                assert(texts(v@) =~= e.remove(i as int));
                return Some(v);
            }
            i = i + 1;
        }
        proof {
            e.index_of_first_ensures(panel_name());
        }
        None
    }
}

/// The configurations with the main panel's forced presentation set.
pub fn panel_forced_as(configs: &Vec<IndividualConfig>, value: Option<Override>) -> (r: Vec<IndividualConfig>)
    requires
        distinct_panels(button_view(configs@)),
    ensures
        button_view(r@) == with_panel_forced(button_view(configs@), value),
        distinct_panels(button_view(r@)),
{
    proof { reveal_strlit("Panel"); }
    let ghost c = button_view(configs@);
    let mut out = copy_configs(configs);
    let n = out.len();
    let mut i: usize = 0;
    while i < n
        invariant
            n == out@.len(),
            button_view(out@) == c,
            c == button_view(configs@),
            distinct_panels(c),
            i <= n,
            forall|j: int| 0 <= j < i ==> c[j].0 != panel_name(),
        decreases n - i,
    {
        if same_text(out[i].name.as_str(), "Panel") {
            proof {
                reveal_strlit("Panel");
                assert(c[i as int].0 == panel_name());
                let k = choose|k: int| 0 <= k < c.len() && c[k].0 == panel_name();
                if k != i {
                    if k < i { assert(c[k].0 != c[i as int].0); } else { assert(c[i as int].0 != c[k].0); }
                }
            }
            out.set(i, IndividualConfig { name: String::from_str("Panel"), force_presentation: value });
            assert(button_view(out@) =~= c.update(i as int, (panel_name(), value)));
            assert(distinct_panels(button_view(out@))) by {
                let r = button_view(out@);
                assert forall|a: int, b: int| 0 <= a < b < r.len() implies r[a].0 != r[b].0 by {
                    if a != i && b != i { assert(r[a] == c[a] && r[b] == c[b]); }
                    else if a == i { assert(r[b] == c[b]); assert(c[a].0 != c[b].0); }
                    else { assert(r[a] == c[a]); assert(c[a].0 != c[b].0); }
                }
            }
            return out;
        }
        i = i + 1;
    }
    out.push(IndividualConfig { name: String::from_str("Panel"), force_presentation: value });
    assert(button_view(out@) =~= c.push((panel_name(), value)));
    assert(distinct_panels(button_view(out@))) by {
        let r = button_view(out@);
        assert forall|a: int, b: int| 0 <= a < b < r.len() implies r[a].0 != r[b].0 by {
            if b < n { assert(r[a] == c[a] && r[b] == c[b]); }
            else { assert(r[a] == c[a]); }
        }
    }
    out
}

impl Panel {
    /// The button configurations are one per panel.
    pub open spec fn wf(self) -> bool {
        distinct_panels(button_view(self.cosmic_panel_button_config.configs@))
    }

    /// Handles a message as `panel_step` says.
    pub fn update(&mut self, message: Message) -> (action: Option<Action>)
        requires
            old(self).wf(),
        ensures
            final(self).wf(),
            (final(self)@, opt_action(action)) == panel_step(old(self)@, message),
    {
        let ghost p = self@;
        if !self.has_panel_config {
            return None;
        }
        match message {
            Message::SetPadding(v) => {
                self.padding = v;
                Some(Action::WritePadding(v))
            },
            Message::SetMargin(v) => {
                self.margin = v;
                Some(Action::WriteMargin(v))
            },
            Message::SetSpacing(v) => {
                self.spacing = v;
                Some(Action::WriteSpacing(v))
            },
            Message::ForceIcons(force) => {
                if self.has_button_writer {
                    let value = if force { Some(Override::Icon) } else { None };
                    let configs = panel_forced_as(&self.cosmic_panel_button_config.configs, value);
                    let written = copy_configs(&configs);
                    self.cosmic_panel_button_config.configs = configs;
                    Some(Action::WriteButtonConfigs(written, force))
                } else {
                    None
                }
            },
            Message::ShowPanel(show) => {
                match panel_entries_after(&self.cosmic_panel_config.entries, show) {
                    Some(e) => {
                        if self.has_entries_writer {
                            let written = copy_entries(&e);
                            self.cosmic_panel_config.entries = e;
                            Some(Action::WriteEntries(written, show))
                        } else {
                            None
                        }
                    },
                    None => None,
                }
            },
            Message::EntriesWritten(show, ok) => {
                if ok {
                    self.show_panel = !show;
                }
                None
            },
            Message::ButtonConfigsWritten(force, ok) => {
                if ok {
                    self.force_icons = force;
                }
                None
            },
            Message::SetPanelSize(s) => {
                self.panel_size = PanelSize::Custom(s as u32);
                Some(Action::WriteSize(self.panel_size))
            },
            Message::SetWaitTime(v) => {
                self.autohide.wait_time = v;
                Some(Action::WriteAutoHide(self.autohide))
            },
            Message::SetTransitionTime(v) => {
                self.autohide.transition_time = v;
                Some(Action::WriteAutoHide(self.autohide))
            },
            Message::SetHandleSize(v) => {
                self.autohide.handle_size = v;
                Some(Action::WriteAutoHide(self.autohide))
            },
        }
    }
}

} // verus!

verus! {

impl Default for CosmicPanel {
    /// No panel at all.
    fn default() -> (c: CosmicPanel)
        ensures
            c.entries@.len() == 0,
    {
        CosmicPanel { entries: Vec::new() }
    }
}

impl Default for CosmicPanelButtonConfig {
    /// The button configurations used when none can be read: nothing forced
    /// on the main panel, icons forced on the dock.
    fn default() -> (c: CosmicPanelButtonConfig)
        ensures
            button_view(c.configs@) == seq![(panel_name(), None::<Override>), ("Dock"@, Some(Override::Icon))],
            distinct_panels(button_view(c.configs@)),
    {
        proof {
            reveal_strlit("Panel");
            reveal_strlit("Dock");
        }
        let mut c: Vec<IndividualConfig> = Vec::new();
        c.push(IndividualConfig { name: String::from_str("Panel"), force_presentation: None });
        c.push(IndividualConfig { name: String::from_str("Dock"), force_presentation: Some(Override::Icon) });
        assert(button_view(c@) =~= seq![(panel_name(), None::<Override>), ("Dock"@, Some(Override::Icon))]);
        assert("Panel"@[0] != "Dock"@[0]);
        CosmicPanelButtonConfig { configs: c }
    }
}

impl Panel {
    /// The page from what could be read: the main panel's configuration (it
    /// must be there, naming its panel "Panel"), the panel list if its configuration could be opened
    /// (else none, and no way to write it), and the button configurations if
    /// theirs could be opened (else `default_button_configs`). `fallback` is
    /// the auto-hide setting used when the configuration has none.
    pub fn new(
        config: Option<super::autohide::PanelConfigValues>,
        cosmic_panel_config: Option<CosmicPanel>,
        cosmic_panel_button_config: Option<CosmicPanelButtonConfig>,
        fallback: AutoHide,
    ) -> (p: Panel)
        requires
            config matches Some(c) && c.name@ == "Panel"@,
            cosmic_panel_button_config matches Some(c) ==> distinct_panels(button_view(c.configs@)),
        ensures
            p.wf(),
            p@.has_panel_config,
            p@.padding == config->0.padding,
            p@.margin == config->0.margin,
            p@.spacing == config->0.spacing,
            p@.panel_size == config->0.size,
            p@.autohide == match config->0.autohide {
                Some(a) => a,
                None => fallback,
            },
            p@.entries == match cosmic_panel_config {
                Some(e) => texts(e.entries@),
                None => Seq::<Seq<char>>::empty(),
            },
            p@.has_entries_writer == cosmic_panel_config is Some,
            p@.button_configs == match cosmic_panel_button_config {
                Some(c) => button_view(c.configs@),
                None => seq![(panel_name(), None::<Override>), ("Dock"@, Some(Override::Icon))],
            },
            p@.has_button_writer == cosmic_panel_button_config is Some,
            p@.show_panel == p@.entries.contains(panel_name()),
            p@.force_icons == (panel_forced(p@.button_configs) == Some(Override::Icon)),
    {
        let c = config.unwrap();
        let has_entries_writer = cosmic_panel_config.is_some();
        let cosmic_panel_config = match cosmic_panel_config {
            Some(e) => e,
            None => CosmicPanel::default(),
        };
        assert(cosmic_panel_config.entries@.len() == 0 ==> texts(cosmic_panel_config.entries@) =~= Seq::<Seq<char>>::empty());
        let has_button_writer = cosmic_panel_button_config.is_some();
        let cosmic_panel_button_config = match cosmic_panel_button_config {
            Some(b) => b,
            None => CosmicPanelButtonConfig::default(),
        };
        let show_panel = holds_panel(&cosmic_panel_config.entries);
        let force_icons = forces_panel_icons(&cosmic_panel_button_config.configs);
        Panel {
            has_panel_config: true,
            padding: c.padding,
            margin: c.margin,
            spacing: c.spacing,
            show_panel,
            cosmic_panel_config,
            has_entries_writer,
            cosmic_panel_button_config,
            has_button_writer,
            force_icons,
            panel_size: c.size,
            autohide: super::autohide::autohide_or(&c, fallback),
        }
    }
}

} // verus!
