//! The window around the pages: the side drawer, the queue of dialogs, the
//! keyboard shortcuts and the routing of messages to the pages.

use vstd::prelude::*;

use crate::color_schemes::page as schemes;
use crate::config::{theme_of_index, theme_spec, AppTheme, ThemeSpec, TweaksConfig};
use crate::keys::{default_binds, find_action, first_match, Binding, Key, KeyBindings, Modifiers};
use crate::nav::{action_page, all_pages, nav_model, page_icon_name, page_title_key, ContextPage, NavEntry, Page};
use crate::pages::layouts::{self, default_preview, CreateLayoutDialog, LayoutPreview, PanelProperties, PanelType, Position};
use crate::pages::snapshots::{self, SnapshotKind};
use crate::pages::{date_time, dock, panel, shortcuts};
use crate::strings::opt_text;

verus! {

/// A dialog waiting for an answer.
#[derive(Debug)]
pub enum DialogPage {
    /// Save the desktop's current theme under the name typed so far.
    SaveCurrentColorScheme(String),
    /// Take a snapshot under the name typed so far.
    CreateSnapshot(String),
    /// Save the desktop's panels as a layout.
    CreateLayout(CreateLayoutDialog),
    /// Reset a page's settings to their defaults.
    ResetPage(Page),
}

/// The value of a dialog.
pub enum DialogView {
    SaveCurrentColorScheme(Seq<char>),
    CreateSnapshot(Seq<char>),
    CreateLayout(Seq<char>, LayoutPreview, Option<Seq<char>>),
    ResetPage(Page),
}

impl View for DialogPage {
    type V = DialogView;

    open spec fn view(&self) -> DialogView {
        match self {
            DialogPage::SaveCurrentColorScheme(n) => DialogView::SaveCurrentColorScheme(n@),
            DialogPage::CreateSnapshot(n) => DialogView::CreateSnapshot(n@),
            DialogPage::CreateLayout(d) => DialogView::CreateLayout(d.name@, d.preview, opt_text(d.error)),
            DialogPage::ResetPage(p) => DialogView::ResetPage(*p),
        }
    }
}

impl DialogPage {
    /// The dialog after its text field is edited to `text`; a reset dialog has
    /// no text field and stays as it is.
    pub fn with_text(&self, text: String) -> (d: DialogPage)
        ensures
            d@ == match self@ {
                DialogView::SaveCurrentColorScheme(_) => DialogView::SaveCurrentColorScheme(text@),
                DialogView::CreateSnapshot(_) => DialogView::CreateSnapshot(text@),
                DialogView::CreateLayout(_, preview, error) => DialogView::CreateLayout(text@, preview, error),
                DialogView::ResetPage(p) => DialogView::ResetPage(p),
            },
    {
        match self {
            DialogPage::SaveCurrentColorScheme(_) => DialogPage::SaveCurrentColorScheme(text),
            DialogPage::CreateSnapshot(_) => DialogPage::CreateSnapshot(text),
            DialogPage::CreateLayout(d) => DialogPage::CreateLayout(
                CreateLayoutDialog::new(text, d.preview, crate::strings::clone_opt_string(&d.error)),
            ),
            DialogPage::ResetPage(p) => DialogPage::ResetPage(*p),
        }
    }

    /// A copy of the dialog.
    pub fn copy(&self) -> (d: DialogPage)
        ensures
            d@ == self@,
    {
        match self {
            DialogPage::SaveCurrentColorScheme(n) => DialogPage::SaveCurrentColorScheme(n.clone()),
            DialogPage::CreateSnapshot(n) => DialogPage::CreateSnapshot(n.clone()),
            DialogPage::CreateLayout(d) => DialogPage::CreateLayout(
                CreateLayoutDialog::new(d.name.clone(), d.preview, crate::strings::clone_opt_string(&d.error)),
            ),
            DialogPage::ResetPage(p) => DialogPage::ResetPage(*p),
        }
    }

    /// What the dialog's main button sends: a layout dialog with an empty
    /// name is shown again with the empty-name error (the given text);
    /// every other dialog is completed.
    pub fn primary_message(&self, empty_name_error: String) -> (m: Message)
        ensures
            primary_sent(self@, empty_name_error@, m),
    {
        match self {
            DialogPage::CreateLayout(d) => match d.primary_action(empty_name_error) {
                layouts::CreateAction::ShowError(shown) => Message::DialogUpdate(DialogPage::CreateLayout(shown)),
                layouts::CreateAction::Complete => Message::DialogComplete,
            },
            _ => Message::DialogComplete,
        }
    }
}

/// What the main button of a dialog with value `v` sends: a layout dialog
/// with an empty name asks to be shown again with the empty-name error `error`;
/// every other dialog is completed.
pub open spec fn primary_sent(v: DialogView, error: Seq<char>, m: Message) -> bool {
    match v {
        DialogView::CreateLayout(name, preview, _) => if name.len() == 0 {
            m matches Message::DialogUpdate(d) && d@ == DialogView::CreateLayout(name, preview, Some(error))
        } else {
            m is DialogComplete
        },
        _ => m is DialogComplete,
    }
}

/// The dialog the window shows: the dialog itself, what its main button
/// sends and what its cancel button sends.
#[derive(Debug)]
pub struct ShownDialog {
    pub page: DialogPage,
    pub primary: Message,
    pub cancel: Message,
}

/// The values of a queue of dialogs.
pub open spec fn dialog_views(s: Seq<DialogPage>) -> Seq<DialogView> {
    Seq::new(s.len(), |i: int| s[i]@)
}

/// What the window is told.
#[derive(Debug)]
pub enum Message {
    Dock(dock::Message),
    Panel(panel::Message),
    Layouts(layouts::Message),
    Shortcuts(shortcuts::Message),
    Snapshots(snapshots::Message),
    ColorSchemes(schemes::Message),
    DateTime(date_time::Message),
    /// A position was picked for the panel in the create-layout dialog, which
    /// showed this name and preview.
    UpdatePanelLayoutPosition(Position, String, LayoutPreview),
    /// A position was picked for the dock in the create-layout dialog.
    UpdateDockLayoutPosition(Position, String, LayoutPreview),
    /// The dialog in front was edited into this one.
    DialogUpdate(DialogPage),
    DialogComplete,
    DialogCancel,
    SaveNewColorScheme(String),
    ToggleContextPage(ContextPage),
    ToggleContextDrawer,
    ToggleDialogPage(DialogPage),
    Key(Modifiers, Key),
    Modifiers(Modifiers),
    SystemThemeModeChange,
    Open(String),
    Settings(SettingsMessage),
    /// A page was picked in the navigation bar.
    NavSelect(Page),
}

/// What the settings drawer is told.
#[derive(Debug, Clone, Copy)]
pub enum SettingsMessage {
    /// The theme menu's item at this index was picked.
    AppTheme(usize),
    /// The tool's stored configuration now holds this.
    ConfigUpdate(TweaksConfig),
}

/// What the window asks of the program, in order.
#[derive(Debug)]
pub enum Effect {
    Dock(dock::Message),
    Panel(panel::Message),
    Layouts(layouts::Message),
    Shortcuts(shortcuts::Message),
    Snapshots(snapshots::Message),
    ColorSchemes(schemes::Message),
    DateTime(date_time::Message),
    /// Open the address in the desktop's browser.
    OpenUrl(String),
    /// Store the tool's configuration.
    SaveConfig(TweaksConfig),
    /// Read the desktop's theme again and build the window's theme this way.
    ApplyAppTheme(ThemeSpec),
    /// Put the keyboard focus on the dialog's text field.
    FocusDialogInput,
    /// Show this position as picked for one bar in the layouts page.
    SelectPosition(PanelType, Position),
    /// Reset the settings of the page to their defaults.
    ResetPage(Page),
    /// Title the window after the page, or with the tool's name alone.
    SetWindowTitle(Option<Page>),
    /// Read the saved layouts and report them to the layouts page.
    ListLayouts,
}

/// What the window hears from the toolkit and the desktop.
#[derive(Debug)]
pub enum Event {
    KeyPressed(Modifiers, Key),
    ModifiersChanged(Modifiers),
    /// The tool's stored configuration changed to this.
    ConfigChanged(TweaksConfig),
    /// The desktop switched between dark and light.
    ThemeModeChanged,
    /// Anything else.
    Other,
}

/// The message an event becomes: key presses and modifier changes as such, a
/// change of the tool's configuration as the new configuration, a change of
/// the desktop's mode as a request to rebuild the window's theme; other
/// events are ignored.
pub fn subscription(event: Event) -> (m: Option<Message>)
    ensures
        match event {
            Event::KeyPressed(mods, key) => m == Some(Message::Key(mods, key)),
            Event::ModifiersChanged(mods) => m == Some(Message::Modifiers(mods)),
            Event::ConfigChanged(c) => m == Some(Message::Settings(SettingsMessage::ConfigUpdate(c))),
            Event::ThemeModeChanged => m matches Some(Message::SystemThemeModeChange),
            Event::Other => m is None,
        },
{
    match event {
        Event::KeyPressed(mods, key) => Some(Message::Key(mods, key)),
        Event::ModifiersChanged(mods) => Some(Message::Modifiers(mods)),
        Event::ConfigChanged(c) => Some(Message::Settings(SettingsMessage::ConfigUpdate(c))),
        Event::ThemeModeChanged => Some(Message::SystemThemeModeChange),
        Event::Other => None,
    }
}

/// The window's own state.
#[derive(Debug)]
pub struct Cosmic {
    /// The navigation bar; the entry of `active_page` is the one selected.
    pub nav_model: Vec<NavEntry>,
    /// The localization keys of the app theme choices in the settings.
    pub app_themes: Vec<&'static str>,
    /// The dialogs waiting, the one shown first.
    pub dialog_pages: Vec<DialogPage>,
    pub key_binds: Vec<Binding>,
    pub modifiers: Modifiers,
    pub context_page: ContextPage,
    pub show_context: bool,
    pub active_page: Page,
    pub config: TweaksConfig,
}

/// The drawer after a menu asks for `page`: asked for the page it shows, it
/// is hidden or shown in turn; asked for another, it shows that one.
pub open spec fn toggled_drawer(current: ContextPage, shown: bool, page: ContextPage) -> (ContextPage, bool) {
    if current == page {
        (current, !shown)
    } else {
        (page, true)
    }
}

/// Asking the drawer twice for one page leaves it on that page, shown only
/// if it showed that page before the first request.
pub proof fn lemma_drawer_toggle_twice(current: ContextPage, shown: bool, page: ContextPage)
    ensures
        ({
            let once = toggled_drawer(current, shown, page);
            toggled_drawer(once.0, once.1, page) == (page, current == page && shown)
        }),
{
}

/// Everything of the window but its dialogs is as it was.
pub open spec fn same_but_dialogs(a: Cosmic, b: Cosmic) -> bool {
    &&& a.key_binds@ == b.key_binds@
    &&& a.modifiers == b.modifiers
    &&& a.context_page == b.context_page
    &&& a.show_context == b.show_context
    &&& a.active_page == b.active_page
    &&& a.config == b.config
}

/// Everything of the window but its drawer is as it was.
pub open spec fn same_but_drawer(a: Cosmic, b: Cosmic) -> bool {
    &&& a.dialog_pages@ == b.dialog_pages@
    &&& a.key_binds@ == b.key_binds@
    &&& a.modifiers == b.modifiers
    &&& a.active_page == b.active_page
    &&& a.config == b.config
}

/// The drawer shows `(page, shown)` and nothing else changed.
pub open spec fn drawer_is(fin: Cosmic, old: Cosmic, d: (ContextPage, bool)) -> bool {
    &&& same_but_drawer(fin, old)
    &&& fin.context_page == d.0
    &&& fin.show_context == d.1
}

/// The dialog `d` was queued behind the others and the text field focused.
pub open spec fn queued(fin: Cosmic, old: Cosmic, d: DialogPage, effects: Seq<Effect>) -> bool {
    &&& same_but_dialogs(fin, old)
    &&& fin.dialog_pages@ == old.dialog_pages@.push(d)
    &&& effects == seq![Effect::FocusDialogInput]
}

/// Dialogs are answered in the order they were opened: a dialog opened on an
/// empty queue stays in front while others are opened behind it.
pub proof fn lemma_first_opened_in_front(
    s0: Cosmic,
    s1: Cosmic,
    s2: Cosmic,
    d: DialogPage,
    e: DialogPage,
    x: Seq<Effect>,
    y: Seq<Effect>,
)
    requires
        s0.dialog_pages@.len() == 0,
        queued(s1, s0, d, x),
        queued(s2, s1, e, y),
    ensures
        s2.dialog_pages@ == seq![d, e],
{
    assert(s2.dialog_pages@ =~= seq![d, e]);
}

/// The preview with the bar's position replaced.
pub open spec fn placed(preview: LayoutPreview, t: PanelType, position: Position) -> LayoutPreview {
    match t {
        PanelType::Panel => LayoutPreview { panel: PanelProperties { position, ..preview.panel }, ..preview },
        PanelType::Dock => LayoutPreview { dock: PanelProperties { position, ..preview.dock }, ..preview },
    }
}

/// The window's answer when the dialog in front is completed.
pub open spec fn completed(fin: Cosmic, old: Cosmic, effects: Seq<Effect>) -> bool {
    if old.dialog_pages@.len() == 0 {
        fin == old && effects.len() == 0
    } else {
        &&& same_but_dialogs(fin, old)
        &&& match old.dialog_pages@[0] {
            DialogPage::SaveCurrentColorScheme(name) => fin.dialog_pages@ == old.dialog_pages@.drop_first()
                && effects == seq![Effect::ColorSchemes(schemes::Message::SaveCurrentColorScheme(Some(name)))],
            DialogPage::CreateSnapshot(name) => fin.dialog_pages@ == old.dialog_pages@.drop_first()
                && effects == seq![Effect::Snapshots(snapshots::Message::CreateSnapshot(name, SnapshotKind::User))],
            DialogPage::CreateLayout(d) => match d.error {
                Some(_) => fin.dialog_pages@ == old.dialog_pages@.drop_first().push(old.dialog_pages@[0])
                    && effects == seq![Effect::FocusDialogInput],
                None => fin.dialog_pages@ == old.dialog_pages@.drop_first()
                    && effects == seq![Effect::Layouts(layouts::Message::Create(d.name, d.preview))],
            },
            DialogPage::ResetPage(p) => fin.dialog_pages@ == old.dialog_pages@.drop_first()
                && effects == seq![Effect::ResetPage(p)],
        }
    }
}

/// A button of the window's footer.
#[derive(Clone, Copy, Debug, PartialEq, Eq, Structural)]
pub enum FooterButton {
    SaveCurrentLayout,
    ApplyLayout,
    DeleteLayout,
    CreateSnapshot,
    ResetToDefaults(Page),
}

/// The footer's buttons under a page, after the page's own; `selected` is
/// whether a layout is picked in the layouts page and whether it is one the
/// user made.
pub open spec fn footer_spec(page: Page, selected: Option<bool>) -> Seq<FooterButton> {
    match page {
        Page::ColorSchemes => seq![FooterButton::ResetToDefaults(Page::ColorSchemes)],
        Page::Layouts => seq![FooterButton::SaveCurrentLayout]
            + (if selected is Some { seq![FooterButton::ApplyLayout] } else { Seq::empty() })
            + (if selected == Some(true) { seq![FooterButton::DeleteLayout] } else { Seq::empty() })
            + seq![FooterButton::ResetToDefaults(Page::Layouts)],
        Page::Snapshots => seq![FooterButton::CreateSnapshot],
        Page::Dock | Page::Panel | Page::Shortcuts => seq![FooterButton::ResetToDefaults(page)],
        Page::DateTime => Seq::empty(),
    }
}

/// The footer's buttons under a page, in order.
pub fn footer_buttons(page: Page, selected: Option<bool>) -> (v: Vec<FooterButton>)
    ensures
        v@ == footer_spec(page, selected),
{
    let mut v: Vec<FooterButton> = Vec::new();
    match page {
        Page::ColorSchemes => v.push(FooterButton::ResetToDefaults(Page::ColorSchemes)),
        Page::Layouts => {
            v.push(FooterButton::SaveCurrentLayout);
            match selected {
                Some(custom) => {
                    v.push(FooterButton::ApplyLayout);
                    if custom {
                        v.push(FooterButton::DeleteLayout);
                    }
                },
                None => {},
            }
            v.push(FooterButton::ResetToDefaults(Page::Layouts));
        },
        Page::Snapshots => v.push(FooterButton::CreateSnapshot),
        Page::Dock | Page::Panel | Page::Shortcuts => v.push(FooterButton::ResetToDefaults(page)),
        Page::DateTime => {},
    }
    proof {
        assert(v@ =~= footer_spec(page, selected));
    }
    v
}

impl FooterButton {
    /// The localization key of the button's label.
    pub fn label_key(&self) -> (k: &'static str)
        ensures
            k@ == match *self {
                FooterButton::SaveCurrentLayout => "save-current-layout"@,
                FooterButton::ApplyLayout => "apply-layout"@,
                FooterButton::DeleteLayout => "delete-layout"@,
                FooterButton::CreateSnapshot => "create-snapshot"@,
                FooterButton::ResetToDefaults(_) => "reset-to-defaults"@,
            },
    {
        match self {
            FooterButton::SaveCurrentLayout => "save-current-layout",
            FooterButton::ApplyLayout => "apply-layout",
            FooterButton::DeleteLayout => "delete-layout",
            FooterButton::CreateSnapshot => "create-snapshot",
            FooterButton::ResetToDefaults(_) => "reset-to-defaults",
        }
    }

    /// What pressing the button sends: the dialogs open empty (a new layout
    /// with the default preview), the layout buttons go to the layouts page.
    pub fn message(&self) -> (m: Message)
        ensures
            match *self {
                FooterButton::SaveCurrentLayout => m matches Message::ToggleDialogPage(d)
                    && d@ == DialogView::CreateLayout(Seq::empty(), default_preview(), None),
                FooterButton::ApplyLayout => m matches Message::Layouts(layouts::Message::Apply),
                FooterButton::DeleteLayout => m matches Message::Layouts(layouts::Message::Delete),
                FooterButton::CreateSnapshot => m matches Message::ToggleDialogPage(d)
                    && d@ == DialogView::CreateSnapshot(Seq::empty()),
                FooterButton::ResetToDefaults(p) => m matches Message::ToggleDialogPage(d)
                    && d@ == DialogView::ResetPage(p),
            },
    {
        match self {
            FooterButton::SaveCurrentLayout => Message::ToggleDialogPage(DialogPage::CreateLayout(
                CreateLayoutDialog::new(String::new(), LayoutPreview::default(), None),
            )),
            FooterButton::ApplyLayout => Message::Layouts(layouts::Message::Apply),
            FooterButton::DeleteLayout => Message::Layouts(layouts::Message::Delete),
            FooterButton::CreateSnapshot => Message::ToggleDialogPage(DialogPage::CreateSnapshot(String::new())),
            FooterButton::ResetToDefaults(p) => Message::ToggleDialogPage(DialogPage::ResetPage(*p)),
        }
    }
}

/// A list of one effect.
fn one(e: Effect) -> (v: Vec<Effect>)
    ensures
        v@ == seq![e],
{
    let v = vec![e];
    assert(v@ =~= seq![e]);
    v
}

/// How the window answers a message: its next state and what it asks of
/// the program.
pub open spec fn cosmic_step(old: Cosmic, fin: Cosmic, message: Message, effects: Seq<Effect>) -> bool {
    match message {
        Message::Dock(m) => fin == old && effects =~= seq![Effect::Dock(m)],
        Message::Panel(m) => fin == old && effects =~= seq![Effect::Panel(m)],
        Message::Layouts(m) => fin == old && effects =~= seq![Effect::Layouts(m)],
        Message::Shortcuts(m) => fin == old && effects =~= seq![Effect::Shortcuts(m)],
        Message::Snapshots(m) => fin == old && effects =~= seq![Effect::Snapshots(m)],
        Message::DateTime(m) => fin == old && effects =~= seq![Effect::DateTime(m)],
        Message::ColorSchemes(m) => match m {
            schemes::Message::SaveCurrentColorScheme(None) => same_but_dialogs(fin, old)
                && dialog_views(fin.dialog_pages@)
                    =~= dialog_views(old.dialog_pages@).push(DialogView::SaveCurrentColorScheme(Seq::empty()))
                && effects =~= seq![Effect::FocusDialogInput],
            _ => fin == old && effects =~= seq![Effect::ColorSchemes(m)],
        },
        Message::UpdatePanelLayoutPosition(position, name, preview) => same_but_dialogs(fin, old)
            && fin.dialog_pages@ =~= old.dialog_pages@.update(0, DialogPage::CreateLayout(
                CreateLayoutDialog { name, preview: placed(preview, PanelType::Panel, position), error: None }))
            && effects =~= seq![Effect::SelectPosition(PanelType::Panel, position)],
        Message::UpdateDockLayoutPosition(position, name, preview) => same_but_dialogs(fin, old)
            && fin.dialog_pages@ =~= old.dialog_pages@.update(0, DialogPage::CreateLayout(
                CreateLayoutDialog { name, preview: placed(preview, PanelType::Dock, position), error: None }))
            && effects =~= seq![Effect::SelectPosition(PanelType::Dock, position)],
        Message::DialogUpdate(d) => same_but_dialogs(fin, old)
            && fin.dialog_pages@ =~= old.dialog_pages@.update(0, d)
            && effects.len() == 0,
        Message::DialogComplete => completed(fin, old, effects),
        Message::DialogCancel => same_but_dialogs(fin, old) && effects.len() == 0
            && fin.dialog_pages@ =~= (if old.dialog_pages@.len() == 0 {
                old.dialog_pages@
            } else {
                old.dialog_pages@.drop_first()
            }),
        Message::SaveNewColorScheme(name) => fin == old
            && effects =~= seq![Effect::ColorSchemes(schemes::Message::SaveCurrentColorScheme(Some(name)))],
        Message::ToggleContextPage(page) => effects.len() == 0
            && drawer_is(fin, old, toggled_drawer(old.context_page, old.show_context, page)),
        Message::ToggleContextDrawer => effects.len() == 0
            && drawer_is(fin, old, (old.context_page, !old.show_context)),
        Message::ToggleDialogPage(d) => queued(fin, old, d, effects),
        Message::Key(m, key) => effects.len() == 0 && match first_match(old.key_binds@, m, key) {
            Some(a) => drawer_is(fin, old,
                toggled_drawer(old.context_page, old.show_context, action_page(a))),
            None => fin == old,
        },
        Message::Modifiers(m) => effects.len() == 0 && fin == (Cosmic { modifiers: m, ..old }),
        Message::SystemThemeModeChange => fin == old
            && effects =~= seq![Effect::ApplyAppTheme(theme_spec(old.config.app_theme))],
        Message::Open(url) => fin == old && effects =~= seq![Effect::OpenUrl(url)],
        Message::Settings(SettingsMessage::AppTheme(index)) => fin
            == (Cosmic { config: TweaksConfig { app_theme: theme_of_index(index) }, ..old })
            && effects =~= seq![
                Effect::SaveConfig(TweaksConfig { app_theme: theme_of_index(index) }),
                Effect::ApplyAppTheme(theme_spec(theme_of_index(index))),
            ],
        Message::Settings(SettingsMessage::ConfigUpdate(c)) => fin == (Cosmic { config: c, ..old })
            && effects =~= seq![Effect::ApplyAppTheme(theme_spec(c.app_theme))],
        Message::NavSelect(page) => fin == (Cosmic { active_page: page, ..old })
            && effects =~= seq![Effect::SetWindowTitle(Some(page))],
    }
}

impl Cosmic {
    /// The window as the tool opens: a navigation entry per page with the
    /// first page selected, the three app theme choices, no dialog, the drawer
    /// on the about page and hidden, the default shortcuts, no modifier held.
    pub fn new(config: TweaksConfig) -> (s: Cosmic)
        ensures
            s.dialog_pages@.len() == 0,
            s.context_page == ContextPage::About,
            !s.show_context,
            s.modifiers == (Modifiers { shift: false, control: false, alt: false, logo: false }),
            s.active_page == Page::ColorSchemes,
            s.config == config,
            default_binds(s.key_binds@),
            s.nav_model@.len() == all_pages().len(),
            forall|i: int| 0 <= i < s.nav_model@.len() ==> {
                &&& (#[trigger] s.nav_model@[i]).page == all_pages()[i]
                &&& s.nav_model@[i].title@ == page_title_key(all_pages()[i])
                &&& s.nav_model@[i].icon.name@ == page_icon_name(all_pages()[i])
            },
            s.app_themes@.len() == 3,
            s.app_themes@[0]@ == "match-desktop"@,
            s.app_themes@[1]@ == "dark"@,
            s.app_themes@[2]@ == "light"@,
    {
        Cosmic {
            nav_model: nav_model(),
            app_themes: crate::config::app_theme_labels(),
            dialog_pages: Vec::new(),
            key_binds: KeyBindings::new(),
            modifiers: Modifiers::empty(),
            context_page: ContextPage::About,
            show_context: false,
            active_page: Page::default(),
            config,
        }
    }

    /// What the tool does as it opens: take a snapshot of the desktop under
    /// the given name, list the saved layouts, and title the window.
    pub fn startup(opened: String) -> (effects: Vec<Effect>)
        ensures
            effects@ == seq![
                Effect::Snapshots(snapshots::Message::CreateSnapshot(opened, SnapshotKind::System)),
                Effect::ListLayouts,
                Effect::SetWindowTitle(None),
            ],
    {
        vec![
            Effect::Snapshots(snapshots::Message::CreateSnapshot(opened, SnapshotKind::System)),
            Effect::ListLayouts,
            Effect::SetWindowTitle(None),
        ]
    }

    /// The dialog the window shows: none when no dialog waits, else the one
    /// at the front of the queue, whose main button sends what
    /// `primary_message` gives (with `empty_name_error` as the text of the
    /// empty-name error) and whose cancel button sends `DialogCancel`.
    pub fn dialog(&self, empty_name_error: String) -> (r: Option<ShownDialog>)
        ensures
            r is None <==> self.dialog_pages@.len() == 0,
            r matches Some(shown) ==> {
                &&& shown.page@ == self.dialog_pages@[0]@
                &&& primary_sent(self.dialog_pages@[0]@, empty_name_error@, shown.primary)
                &&& shown.cancel is DialogCancel
            },
    {
        if self.dialog_pages.len() == 0 {
            return None;
        }
        let front = &self.dialog_pages[0];
        Some(ShownDialog {
            page: front.copy(),
            primary: front.primary_message(empty_name_error),
            cancel: Message::DialogCancel,
        })
    }

    /// The page the side drawer shows, if it is shown.
    pub fn context_drawer(&self) -> (r: Option<ContextPage>)
        ensures
            r == (if self.show_context { Some(self.context_page) } else { None }),
    {
        if self.show_context {
            Some(self.context_page)
        } else {
            None
        }
    }

    fn toggle_context(&mut self, page: ContextPage)
        ensures
            drawer_is(*final(self), *old(self), toggled_drawer(old(self).context_page, old(self).show_context, page)),
    {
        if self.context_page == page {
            self.show_context = !self.show_context;
        } else {
            self.context_page = page;
            self.show_context = true;
        }
    }

    fn queue_dialog(&mut self, d: DialogPage) -> (effects: Vec<Effect>)
        ensures
            queued(*final(self), *old(self), d, effects@),
    {
        self.dialog_pages.push(d);
        one(Effect::FocusDialogInput)
    }

    fn complete_dialog(&mut self) -> (effects: Vec<Effect>)
        ensures
            completed(*final(self), *old(self), effects@),
    {
        if self.dialog_pages.len() == 0 {
            return Vec::new();
        }
        let ghost before = self.dialog_pages@;
        let front = self.dialog_pages.remove(0);
        assert(self.dialog_pages@ =~= before.drop_first());
        match front {
            DialogPage::SaveCurrentColorScheme(name) => {
                one(Effect::ColorSchemes(schemes::Message::SaveCurrentColorScheme(Some(name))))
            },
            DialogPage::CreateSnapshot(name) => {
                one(Effect::Snapshots(snapshots::Message::CreateSnapshot(name, SnapshotKind::User)))
            },
            DialogPage::CreateLayout(dialog) => {
                if dialog.error.is_some() {
                    self.dialog_pages.push(DialogPage::CreateLayout(dialog));
                    one(Effect::FocusDialogInput)
                } else {
                    one(Effect::Layouts(layouts::Message::Create(dialog.name, dialog.preview)))
                }
            },
            DialogPage::ResetPage(page) => one(Effect::ResetPage(page)),
        }
    }

    fn update_front(&mut self, d: DialogPage)
        requires
            old(self).dialog_pages@.len() > 0,
        ensures
            same_but_dialogs(*final(self), *old(self)),
            final(self).dialog_pages@ == old(self).dialog_pages@.update(0, d),
    {
        self.dialog_pages.set(0, d);
    }

    /// Handles a message and says what the program must do next.
    ///
    /// A new stored configuration is taken and the window's theme rebuilt
    /// from it. Page messages go to their page, except the request to save the current
    /// color scheme without a name, which opens the dialog that asks for one.
    /// Completing a dialog removes it and sends what it asked for to its page;
    /// a layout dialog that shows an error is queued again instead. A key
    /// press toggles the drawer page of the first shortcut it triggers.
    pub fn update(&mut self, message: Message) -> (effects: Vec<Effect>)
        requires
            (message matches Message::DialogUpdate(_)) ==> old(self).dialog_pages@.len() > 0,
            (message matches Message::UpdatePanelLayoutPosition(..)) ==> old(self).dialog_pages@.len() > 0,
            (message matches Message::UpdateDockLayoutPosition(..)) ==> old(self).dialog_pages@.len() > 0,
        ensures
            cosmic_step(*old(self), *final(self), message, effects@),
    {
        match message {
            Message::Dock(m) => vec![Effect::Dock(m)],
            Message::Panel(m) => vec![Effect::Panel(m)],
            Message::Layouts(m) => vec![Effect::Layouts(m)],
            Message::Shortcuts(m) => vec![Effect::Shortcuts(m)],
            Message::Snapshots(m) => vec![Effect::Snapshots(m)],
            Message::DateTime(m) => vec![Effect::DateTime(m)],
            Message::ColorSchemes(m) => match m {
                schemes::Message::SaveCurrentColorScheme(None) => {
                    let ghost before = self.dialog_pages@;
                    let effects = self.queue_dialog(DialogPage::SaveCurrentColorScheme(String::new()));
                    assert(dialog_views(self.dialog_pages@) =~= dialog_views(before).push(
                        DialogView::SaveCurrentColorScheme(Seq::empty())));
                    effects
                },
                m => vec![Effect::ColorSchemes(m)],
            },
            Message::UpdatePanelLayoutPosition(position, name, preview) => {
                let mut p = preview;
                p.panel.position = position;
                self.update_front(DialogPage::CreateLayout(CreateLayoutDialog::new(name, p, None)));
                vec![Effect::SelectPosition(PanelType::Panel, position)]
            },
            Message::UpdateDockLayoutPosition(position, name, preview) => {
                let mut p = preview;
                p.dock.position = position;
                self.update_front(DialogPage::CreateLayout(CreateLayoutDialog::new(name, p, None)));
                vec![Effect::SelectPosition(PanelType::Dock, position)]
            },
            Message::DialogUpdate(d) => {
                self.update_front(d);
                Vec::new()
            },
            Message::DialogComplete => self.complete_dialog(),
            Message::DialogCancel => {
                if self.dialog_pages.len() > 0 {
                    let ghost before = self.dialog_pages@;
                    let _ = self.dialog_pages.remove(0);
                    assert(self.dialog_pages@ =~= before.drop_first());
                }
                Vec::new()
            },
            Message::SaveNewColorScheme(name) => {
                vec![Effect::ColorSchemes(schemes::Message::SaveCurrentColorScheme(Some(name)))]
            },
            Message::ToggleContextPage(page) => {
                self.toggle_context(page);
                Vec::new()
            },
            Message::ToggleContextDrawer => {
                self.show_context = !self.show_context;
                Vec::new()
            },
            Message::ToggleDialogPage(d) => self.queue_dialog(d),
            Message::Key(m, key) => {
                match find_action(&self.key_binds, m, &key) {
                    Some(a) => {
                        let page = a.message();
                        self.toggle_context(page);
                    },
                    None => {},
                }
                Vec::new()
            },
            Message::Modifiers(m) => {
                self.modifiers = m;
                Vec::new()
            },
            Message::SystemThemeModeChange => vec![Effect::ApplyAppTheme(self.config.app_theme.theme())],
            Message::Open(url) => vec![Effect::OpenUrl(url)],
            Message::Settings(SettingsMessage::AppTheme(index)) => {
                let t = AppTheme::from_index(index);
                self.config.app_theme = t;
                vec![Effect::SaveConfig(self.config), Effect::ApplyAppTheme(t.theme())]
            },
            Message::Settings(SettingsMessage::ConfigUpdate(c)) => {
                self.config = c;
                one(Effect::ApplyAppTheme(c.app_theme.theme()))
            },
            Message::NavSelect(page) => {
                self.active_page = page;
                vec![Effect::SetWindowTitle(Some(page))]
            },
        }
    }
}

} // verus!
