//! The state of the plugin and its reaction to each event of the host.
//!
//! The host is never called from here. A reaction is the new state and, at
//! most, one request that the caller hands on to the host.

use crate::manifest::{
    eligible_pred, focused_in, panes_of, Manifest, TabInfo, TabPanes,
};
use crate::mode_state::{
    pane_mode_of, tab_mode_of, with_pane_mode, with_tab_mode, Mode, ModeState, Records,
    TabRecord,
};
use crate::navigation::{
    flattened, lemma_full_cycle, lemma_next_of, lemma_next_prev_cancel, lemma_prev_of, next_of,
    next_times, prev_of, selected_in, settled, NavItem, NavigationState, Selection,
};
use crate::render::{render_lines, rendered, texts};
use std::collections::BTreeMap;
use vstd::arithmetic::div_mod::lemma_mod_twice;
use vstd::prelude::*;

verus! {

/// The key that moves the cursor forward.
pub const KEY_NEXT: char = 'j';

/// The key that moves the cursor backward.
pub const KEY_PREV: char = 'k';

/// The key that locks what is selected.
pub const KEY_LOCK: char = 'L';

/// The key that puts what is selected back to normal.
pub const KEY_NORMAL: char = 'N';

/// The key that goes to what is selected.
pub const KEY_ENTER: char = '\n';

/// What the host reports.
#[derive(Debug)]
pub enum Event {
    /// The tabs of the session.
    TabUpdate(Vec<TabInfo>),
    /// The panes of every tab.
    PaneUpdate(Manifest),
    /// A key that stands for a character; the enter key stands for a line
    /// feed.
    Key(char),
    /// Anything else.
    Other,
}

/// A request to the host.
#[derive(Clone, Copy, Debug, PartialEq, Eq)]
pub enum HostCall {
    /// Switch the input mode of the session.
    SwitchToInputMode(Mode),
    /// Give the focus to a terminal pane.
    FocusTerminalPane { id: u32, should_float_if_hidden: bool },
    /// Go to a tab, named by its position as the host takes it.
    GoToTab(u32),
}

/// The reaction to an event, as far as the caller has to act on it.
#[derive(Clone, Copy, Debug, PartialEq, Eq)]
pub struct Outcome {
    /// Whether the lines have to be shown anew.
    pub should_render: bool,
    /// The request to hand on to the host, if any.
    pub call: Option<HostCall>,
}

/// What the plugin is allowed to do, as it asks the host at start.
#[derive(Clone, Copy, Debug, PartialEq, Eq)]
pub enum Permission {
    ReadApplicationState,
    RunCommands,
    ChangeApplicationState,
}

/// A kind of event that the plugin asks the host to report.
#[derive(Clone, Copy, Debug, PartialEq, Eq)]
pub enum Subscription {
    PaneUpdate,
    TabUpdate,
    Key,
}

/// What the caller asks of the host once the plugin is loaded.
#[derive(Debug, PartialEq, Eq)]
pub struct Startup {
    pub permissions: Vec<Permission>,
    pub subscriptions: Vec<Subscription>,
}

/// The state of the plugin.
#[derive(Debug)]
pub struct State {
    /// The position of the tab that the host last reported as active.
    pub active_tab: usize,
    pub mode_state: ModeState,
    /// The panes that the host last reported.
    pub panes_manifest: Manifest,
    /// The cursor, as the last move left it. It is brought into the list
    /// whenever the list is derived.
    pub active_item: usize,
    /// The configuration that the host passed at start, kept as it came.
    pub userspace_configuration: BTreeMap<String, String>,
}

/// The state, as contracts speak of it.
pub struct StateView {
    pub active_tab: usize,
    pub records: Records,
    pub tabs: Seq<TabPanes>,
    pub active_item: usize,
    pub configuration: BTreeMap<String, String>,
}

impl View for State {
    type V = StateView;

    open spec fn view(&self) -> StateView {
        StateView {
            active_tab: self.active_tab,
            records: self.mode_state@,
            tabs: self.panes_manifest@,
            active_item: self.active_item,
            configuration: self.userspace_configuration,
        }
    }
}

/// The position of the first tab that is reported as active, if any.
pub open spec fn active_in(tabs: Seq<TabInfo>) -> Option<usize>
    decreases tabs.len(),
{
    if tabs.len() == 0 {
        None
    } else if tabs.first().active {
        Some(tabs.first().position)
    } else {
        active_in(tabs.drop_first())
    }
}

/// The flattened list of a state.
pub open spec fn items_of(state: StateView) -> Seq<NavItem> {
    flattened(state.tabs, state.active_tab)
}

/// What the cursor of a state selects, once it is brought into the list.
pub open spec fn selection_of(state: StateView) -> Selection {
    selected_in(
        items_of(state),
        state.active_tab,
        settled(state.active_item as int, items_of(state).len() as int),
    )
}

/// The records after what `selection` names is given `mode`: the pane if it
/// names one, else the tab with all its panes.
pub open spec fn with_mode(records: Records, selection: Selection, mode: Mode) -> Records {
    match selection.pane {
        Some(id) => with_pane_mode(records, selection.tab, id, mode),
        None => with_tab_mode(records, selection.tab, mode),
    }
}

/// The position of a tab as the host takes it: in 32 bits.
pub open spec fn tab_index(position: usize) -> u32 {
    (position as int % 0x1_0000_0000) as u32
}

/// The request that goes to what `selection` names.
pub open spec fn visit(selection: Selection) -> HostCall {
    match selection.pane {
        Some(id) => HostCall::FocusTerminalPane { id, should_float_if_hidden: true },
        None => HostCall::GoToTab(tab_index(selection.tab)),
    }
}

/// The state after a key.
pub open spec fn after_key(pre: StateView, key: char) -> StateView {
    let count = items_of(pre).len() as int;
    if key == KEY_NEXT {
        StateView { active_item: next_of(pre.active_item as int, count) as usize, ..pre }
    } else if key == KEY_PREV {
        StateView { active_item: prev_of(pre.active_item as int, count) as usize, ..pre }
    } else if key == KEY_LOCK {
        StateView { records: with_mode(pre.records, selection_of(pre), Mode::Locked), ..pre }
    } else if key == KEY_NORMAL {
        StateView { records: with_mode(pre.records, selection_of(pre), Mode::Normal), ..pre }
    } else {
        pre
    }
}

/// The state after an event.
pub open spec fn after(pre: StateView, event: Event) -> StateView {
    match event {
        Event::TabUpdate(tabs) => match active_in(tabs@) {
            Some(position) => StateView { active_tab: position, ..pre },
            None => pre,
        },
        Event::PaneUpdate(manifest) => StateView { tabs: manifest@, ..pre },
        Event::Key(key) => after_key(pre, key),
        Event::Other => pre,
    }
}

/// Whether a key means anything.
pub open spec fn is_bound(key: char) -> bool {
    key == KEY_NEXT || key == KEY_PREV || key == KEY_LOCK || key == KEY_NORMAL || key == KEY_ENTER
}

/// What the caller has to do after an event.
pub open spec fn outcome_of(pre: StateView, event: Event) -> Outcome {
    match event {
        Event::TabUpdate(tabs) => match active_in(tabs@) {
            Some(position) => Outcome {
                should_render: true,
                call: Some(HostCall::SwitchToInputMode(tab_mode_of(pre.records, position))),
            },
            None => Outcome { should_render: false, call: None },
        },
        Event::PaneUpdate(manifest) => Outcome {
            should_render: true,
            call: match focused_in(panes_of(manifest@, pre.active_tab)) {
                Some(id) => Some(
                    HostCall::SwitchToInputMode(pane_mode_of(pre.records, pre.active_tab, id)),
                ),
                None => None,
            },
        },
        Event::Key(key) => Outcome {
            should_render: is_bound(key),
            call: if key == KEY_ENTER {
                Some(visit(selection_of(pre)))
            } else {
                None
            },
        },
        Event::Other => Outcome { should_render: false, call: None },
    }
}

/// The state after the same key is pressed `times` times.
pub open spec fn pressed(pre: StateView, key: char, times: nat) -> StateView
    decreases times,
{
    if times == 0 {
        pre
    } else {
        after_key(pressed(pre, key, (times - 1) as nat), key)
    }
}

/// The keys that move the cursor leave it on an item of the list, and change
/// nothing else.
pub proof fn lemma_moved_cursor_is_in_list(pre: StateView, key: char)
    requires
        key == KEY_NEXT || key == KEY_PREV,
        items_of(pre).len() > 0,
    ensures
        after_key(pre, key).active_item < items_of(pre).len(),
        after_key(pre, key) == (StateView { active_item: after_key(pre, key).active_item, ..pre }),
{
}

/// Pressing the key forward moves the cursor as that many steps forward do,
/// in a list that the machine can hold.
pub proof fn lemma_pressed_next(pre: StateView, times: nat)
    requires
        0 < items_of(pre).len() <= usize::MAX,
        pre.active_item < items_of(pre).len(),
    ensures
        pressed(pre, KEY_NEXT, times) == (StateView {
            active_item: next_times(
                pre.active_item as int,
                items_of(pre).len() as int,
                times,
            ) as usize,
            ..pre
        }),
        pressed(pre, KEY_NEXT, times).active_item < items_of(pre).len(),
    decreases times,
{
    if times > 0 {
        lemma_pressed_next(pre, (times - 1) as nat);
    }
}

/// With the cursor on an item, pressing the key forward once for each item
/// of the list brings the state back to what it was. The list is one that
/// the machine can hold.
pub proof fn lemma_next_key_cycles(pre: StateView)
    requires
        0 < items_of(pre).len() <= usize::MAX,
        pre.active_item < items_of(pre).len(),
    ensures
        pressed(pre, KEY_NEXT, items_of(pre).len()) == pre,
{
    lemma_pressed_next(pre, items_of(pre).len());
    lemma_full_cycle(pre.active_item as int, items_of(pre).len() as int);
}

/// With the cursor on an item, the keys forward and backward undo each
/// other. The list is one that the machine can hold.
pub proof fn lemma_next_prev_keys_cancel(pre: StateView)
    requires
        0 < items_of(pre).len() <= usize::MAX,
        pre.active_item < items_of(pre).len(),
    ensures
        after_key(after_key(pre, KEY_NEXT), KEY_PREV) == pre,
        after_key(after_key(pre, KEY_PREV), KEY_NEXT) == pre,
{
    lemma_next_prev_cancel(pre.active_item as int, items_of(pre).len() as int);
}

/// While nothing is listed, the keys that move the cursor change nothing,
/// however often they are pressed.
pub proof fn lemma_keys_on_empty_list(pre: StateView, times: nat)
    requires
        items_of(pre).len() == 0,
    ensures
        pressed(pre, KEY_NEXT, times) == pre,
        pressed(pre, KEY_PREV, times) == pre,
    decreases times,
{
    if times > 0 {
        lemma_keys_on_empty_list(pre, (times - 1) as nat);
    }
}

/// The key that locks, pressed on a pane, locks that pane and leaves the
/// default of its tab and every other pane as they were.
pub proof fn lemma_lock_on_pane(pre: StateView, id: u32)
    requires
        selection_of(pre).pane == Some(id),
    ensures
        ({
            let tab = selection_of(pre).tab;
            let post = after_key(pre, KEY_LOCK);
            &&& pane_mode_of(post.records, tab, id) == Mode::Locked
            &&& forall|p: usize| tab_mode_of(post.records, p) == #[trigger] tab_mode_of(pre.records, p)
            &&& forall|p: usize, i: u32|
                (p != tab || i != id) ==> pane_mode_of(post.records, p, i)
                    == #[trigger] pane_mode_of(pre.records, p, i)
        }),
{
}

/// The key that locks, pressed on the header of a tab, locks the tab and
/// every pane in it, whatever override a pane had, and leaves the other tabs
/// as they were.
pub proof fn lemma_lock_on_header(pre: StateView)
    requires
        selection_of(pre).pane is None,
    ensures
        ({
            let tab = selection_of(pre).tab;
            let post = after_key(pre, KEY_LOCK);
            &&& tab_mode_of(post.records, tab) == Mode::Locked
            &&& forall|id: u32| #[trigger] pane_mode_of(post.records, tab, id) == Mode::Locked
            &&& forall|p: usize, id: u32|
                p != tab ==> pane_mode_of(post.records, p, id) == #[trigger] pane_mode_of(
                    pre.records,
                    p,
                    id,
                )
        }),
{
}

/// The position of the first tab that is reported as active, if any.
pub fn find_active(tabs: &Vec<TabInfo>) -> (position: Option<usize>)
    ensures
        position == active_in(tabs@),
{
    let mut i: usize = 0;
    proof {
        assert(tabs@.skip(0) =~= tabs@);
    }
    while i < tabs.len()
        invariant
            i <= tabs.len(),
            active_in(tabs@) == active_in(tabs@.skip(i as int)),
        decreases tabs.len() - i,
    {
        if tabs[i].active {
            return Some(tabs[i].position);
        }
        proof {
            assert(tabs@.skip(i as int).drop_first() =~= tabs@.skip(i + 1));
        }
        i += 1;
    }
    None
}

/// The position of a tab as the host takes it.
pub fn to_tab_index(position: usize) -> (index: u32)
    ensures
        index == tab_index(position),
{
    let wide: u64 = position as u64;
    (wide % 0x1_0000_0000) as u32
}

impl State {
    /// The state at start: the first tab is taken as active, nothing is
    /// recorded or reported, and the cursor is on the first place.
    pub fn new() -> (state: State)
        ensures
            state@.active_tab == 0,
            state@.active_item == 0,
            state@.records == Map::<usize, TabRecord>::empty(),
            state@.tabs == Seq::<TabPanes>::empty(),
            state@.configuration@ == Map::<String, String>::empty(),
    {
        State {
            active_tab: 0,
            mode_state: ModeState::new(),
            panes_manifest: Manifest::new(),
            active_item: 0,
            userspace_configuration: BTreeMap::new(),
        }
    }

    /// Keeps the configuration and says what to ask of the host.
    pub fn load(&mut self, configuration: BTreeMap<String, String>) -> (startup: Startup)
        ensures
            final(self)@ == (StateView { configuration, ..old(self)@ }),
            startup.permissions@ == seq![
                Permission::ReadApplicationState,
                Permission::RunCommands,
                Permission::ChangeApplicationState,
            ],
            startup.subscriptions@ == seq![
                Subscription::PaneUpdate,
                Subscription::TabUpdate,
                Subscription::Key,
            ],
    {
        self.userspace_configuration = configuration;
        let mut permissions: Vec<Permission> = Vec::new();
        permissions.push(Permission::ReadApplicationState);
        permissions.push(Permission::RunCommands);
        permissions.push(Permission::ChangeApplicationState);
        let mut subscriptions: Vec<Subscription> = Vec::new();
        subscriptions.push(Subscription::PaneUpdate);
        subscriptions.push(Subscription::TabUpdate);
        subscriptions.push(Subscription::Key);
        Startup { permissions, subscriptions }
    }

    /// The list derived from the panes last reported, with the cursor
    /// brought into it.
    pub fn navigation(&self) -> (nav: NavigationState)
        ensures
            nav.active_tab == self.active_tab,
            nav.items@ == items_of(self@),
            nav.active_item == settled(self.active_item as int, nav.items@.len() as int),
            nav.spec_selection() == selection_of(self@),
            nav.wf(),
    {
        NavigationState::build(&self.panes_manifest, self.active_tab, self.active_item)
    }

    /// How many panes of the active tab are no plugins.
    pub fn get_active_tab_panes_len(&self) -> (count: usize)
        ensures
            count == panes_of(self.panes_manifest@, self.active_tab).filter(eligible_pred()).len(),
    {
        self.panes_manifest.eligible_panes(self.active_tab).len()
    }

    /// The pane of the active tab that the host reports as focused.
    pub fn get_focused_pane_id(&self) -> (id: Option<u32>)
        ensures
            id == focused_in(panes_of(self.panes_manifest@, self.active_tab)),
    {
        self.panes_manifest.focused_pane_id(self.active_tab)
    }

    /// Gives `mode` to what the cursor selects.
    fn set_selected_mode(&mut self, mode: Mode)
        ensures
            final(self)@ == (StateView {
                records: with_mode(old(self)@.records, selection_of(old(self)@), mode),
                ..old(self)@
            }),
    {
        let selection = self.navigation().selection();
        match selection.pane {
            Some(id) => self.mode_state.set_pane_mode(selection.tab, id, mode),
            None => self.mode_state.set_tab_mode(selection.tab, mode),
        }
    }

    /// Reacts to a key.
    fn press(&mut self, key: char) -> (outcome: Outcome)
        ensures
            final(self)@ == after_key(old(self)@, key),
            outcome == outcome_of(old(self)@, Event::Key(key)),
    {
        if key == KEY_NEXT {
            let mut nav = self.navigation();
            proof {
                let count = nav.items@.len() as int;
                if count > 0 {
                    lemma_mod_twice(self.active_item as int, count);
                    lemma_next_of(self.active_item as int, count);
                    lemma_next_of(nav.active_item as int, count);
                }
            }
            nav.move_next();
            self.active_item = nav.active_item;
            Outcome { should_render: true, call: None }
        } else if key == KEY_PREV {
            let mut nav = self.navigation();
            proof {
                let count = nav.items@.len() as int;
                if count > 0 {
                    lemma_mod_twice(self.active_item as int, count);
                    lemma_prev_of(self.active_item as int, count);
                    lemma_prev_of(nav.active_item as int, count);
                }
            }
            nav.move_prev();
            self.active_item = nav.active_item;
            Outcome { should_render: true, call: None }
        } else if key == KEY_LOCK {
            self.set_selected_mode(Mode::Locked);
            Outcome { should_render: true, call: None }
        } else if key == KEY_NORMAL {
            self.set_selected_mode(Mode::Normal);
            Outcome { should_render: true, call: None }
        } else if key == KEY_ENTER {
            let selection = self.navigation().selection();
            let call = match selection.pane {
                Some(id) => HostCall::FocusTerminalPane { id, should_float_if_hidden: true },
                None => HostCall::GoToTab(to_tab_index(selection.tab)),
            };
            Outcome { should_render: true, call: Some(call) }
        } else {
            Outcome { should_render: false, call: None }
        }
    }

    /// Reacts to an event of the host: the state changes as the event asks,
    /// and the outcome says whether to show the lines anew and what to
    /// request of the host.
    pub fn update(&mut self, event: Event) -> (outcome: Outcome)
        ensures
            final(self)@ == after(old(self)@, event),
            outcome == outcome_of(old(self)@, event),
    {
        match event {
            Event::TabUpdate(tabs) => match find_active(&tabs) {
                Some(position) => {
                    self.active_tab = position;
                    let mode = self.mode_state.get_tab_mode(position);
                    Outcome {
                        should_render: true,
                        call: Some(HostCall::SwitchToInputMode(mode)),
                    }
                },
                None => Outcome { should_render: false, call: None },
            },
            Event::PaneUpdate(manifest) => {
                self.panes_manifest = manifest;
                let call = match self.get_focused_pane_id() {
                    Some(id) => Some(
                        HostCall::SwitchToInputMode(
                            self.mode_state.get_pane_mode(self.active_tab, id),
                        ),
                    ),
                    None => None,
                };
                Outcome { should_render: true, call }
            },
            Event::Key(key) => self.press(key),
            Event::Other => Outcome { should_render: false, call: None },
        }
    }

    /// Takes note of a message that reached the plugin through a pipe. The
    /// message is not acted on; it is always acknowledged.
    pub fn pipe(&self) -> (acknowledged: bool)
        ensures
            acknowledged,
    {
        true
    }

    /// The lines that show the state. The size of the pane that shows them
    /// does not change them.
    pub fn render(&self, _rows: usize, _cols: usize) -> (lines: Vec<String>)
        ensures
            texts(lines@) == rendered(
                self.panes_manifest@,
                self.mode_state@,
                self.active_tab,
                self.active_item,
            ),
    {
        render_lines(&self.panes_manifest, &self.mode_state, self.active_tab, self.active_item)
    }
}

impl Default for State {
    fn default() -> (state: State)
        ensures
            state@.active_tab == 0,
            state@.active_item == 0,
            state@.records == Map::<usize, TabRecord>::empty(),
            state@.tabs == Seq::<TabPanes>::empty(),
            state@.configuration@ == Map::<String, String>::empty(),
    {
        State::new()
    }
}

} // verus!
