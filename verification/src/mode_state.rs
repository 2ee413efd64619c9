//! The store of mode overrides: a default mode per tab position and, under
//! each tab, the panes whose mode differs from that default.

use std::collections::HashMap;
use vstd::prelude::*;
use vstd::std_specs::hash::*;

verus! {

/// How the host interprets input for a tab or a pane.
#[derive(Clone, Copy, Debug, PartialEq, Eq, Structural)]
pub enum Mode {
    Normal,
    Locked,
}

/// What is recorded for one tab position: its default mode and the panes that
/// override it.
pub struct TabRecord {
    pub default_mode: Mode,
    pub overrides: Map<u32, Mode>,
}

/// The abstract content of a store: the records by tab position.
pub type Records = Map<usize, TabRecord>;

/// The default mode of the tab at `pos`: `Normal` where nothing is recorded.
pub open spec fn tab_mode_of(records: Records, pos: usize) -> Mode {
    if records.contains_key(pos) {
        records[pos].default_mode
    } else {
        Mode::Normal
    }
}

/// The overrides recorded under the tab at `pos`: none where nothing is
/// recorded.
pub open spec fn overrides_of(records: Records, pos: usize) -> Map<u32, Mode> {
    if records.contains_key(pos) {
        records[pos].overrides
    } else {
        Map::empty()
    }
}

/// The effective mode of pane `id` in the tab at `pos`: the pane's own
/// override if it has one, else the tab's default.
pub open spec fn pane_mode_of(records: Records, pos: usize, id: u32) -> Mode {
    if overrides_of(records, pos).contains_key(id) {
        overrides_of(records, pos)[id]
    } else {
        tab_mode_of(records, pos)
    }
}

/// The records after the tab at `pos` is given the default `mode`: its record
/// is replaced, and so every override under it is gone.
pub open spec fn with_tab_mode(records: Records, pos: usize, mode: Mode) -> Records {
    records.insert(pos, TabRecord { default_mode: mode, overrides: Map::empty() })
}

/// The records after pane `id` in the tab at `pos` is given `mode`: the tab
/// keeps its default and its other overrides.
pub open spec fn with_pane_mode(records: Records, pos: usize, id: u32, mode: Mode) -> Records {
    records.insert(
        pos,
        TabRecord {
            default_mode: tab_mode_of(records, pos),
            overrides: overrides_of(records, pos).insert(id, mode),
        },
    )
}

/// The records after the override of pane `id` in the tab at `pos` is
/// dropped: nothing changes where the tab has no record.
pub open spec fn without_pane_mode(records: Records, pos: usize, id: u32) -> Records {
    if records.contains_key(pos) {
        records.insert(
            pos,
            TabRecord {
                default_mode: records[pos].default_mode,
                overrides: records[pos].overrides.remove(id),
            },
        )
    } else {
        records
    }
}

/// The mode overrides of a session.
#[derive(Debug)]
pub struct ModeState {
    store: HashMap<usize, (Mode, HashMap<u32, Mode>)>,
}

impl View for ModeState {
    type V = Records;

    closed spec fn view(&self) -> Records {
        Map::new(
            |pos: usize| self.store@.contains_key(pos),
            |pos: usize|
                TabRecord { default_mode: self.store@[pos].0, overrides: self.store@[pos].1@ },
        )
    }
}

impl ModeState {
    /// A store with no record.
    pub fn new() -> (state: ModeState)
        ensures
            state@ == Map::<usize, TabRecord>::empty(),
    {
        let state = ModeState { store: HashMap::new() };
        state
    }

    /// Sets the default mode of the tab at `pos` and clears the overrides of
    /// its panes.
    pub fn set_tab_mode(&mut self, pos: usize, mode: Mode)
        ensures
            final(self)@ == with_tab_mode(old(self)@, pos, mode),
    {
        broadcast use group_hash_axioms;

        let panes: HashMap<u32, Mode> = HashMap::new();
        self.store.insert(pos, (mode, panes));
    }

    /// Sets the mode of pane `id` in the tab at `pos`. A tab without a record
    /// gets one whose default is `Normal`.
    pub fn set_pane_mode(&mut self, pos: usize, id: u32, mode: Mode)
        ensures
            final(self)@ == with_pane_mode(old(self)@, pos, id, mode),
    {
        broadcast use group_hash_axioms;

        match self.store.remove(&pos) {
            Some((default_mode, mut panes)) => {
                panes.insert(id, mode);
                self.store.insert(pos, (default_mode, panes));
            },
            None => {
                let mut panes: HashMap<u32, Mode> = HashMap::new();
                panes.insert(id, mode);
                self.store.insert(pos, (Mode::Normal, panes));
            },
        }
    }

    /// Puts the tab at `pos` back to `Normal`, clearing the overrides of its
    /// panes as `set_tab_mode` does.
    pub fn remove_tab_mode(&mut self, pos: usize)
        ensures
            final(self)@ == with_tab_mode(old(self)@, pos, Mode::Normal),
    {
        self.set_tab_mode(pos, Mode::Normal);
    }

    /// Drops the override of pane `id` in the tab at `pos`, if there is one.
    pub fn remove_pane_mode(&mut self, pos: usize, id: u32)
        ensures
            final(self)@ == without_pane_mode(old(self)@, pos, id),
    {
        broadcast use group_hash_axioms;

        match self.store.remove(&pos) {
            Some((default_mode, mut panes)) => {
                panes.remove(&id);
                self.store.insert(pos, (default_mode, panes));
            },
            None => {},
        }
    }

    /// The effective mode of pane `id` in the tab at `pos`.
    pub fn get_pane_mode(&self, pos: usize, id: u32) -> (mode: Mode)
        ensures
            mode == pane_mode_of(self@, pos, id),
    {
        broadcast use group_hash_axioms;

        match self.store.get(&pos) {
            Some(record) => match record.1.get(&id) {
                Some(own) => *own,
                None => record.0,
            },
            None => Mode::Normal,
        }
    }

    /// The default mode of the tab at `pos`.
    pub fn get_tab_mode(&self, pos: usize) -> (mode: Mode)
        ensures
            mode == tab_mode_of(self@, pos),
    {
        broadcast use group_hash_axioms;

        match self.store.get(&pos) {
            Some(record) => record.0,
            None => Mode::Normal,
        }
    }
}

impl Default for ModeState {
    fn default() -> (state: ModeState)
        ensures
            state@ == Map::<usize, TabRecord>::empty(),
    {
        ModeState::new()
    }
}

/// Where the tab at `pos` has no record, the tab and each of its panes are in
/// `Normal`.
pub proof fn lemma_unrecorded_is_normal(records: Records, pos: usize, id: u32)
    requires
        !records.contains_key(pos),
    ensures
        pane_mode_of(records, pos, id) == Mode::Normal,
        tab_mode_of(records, pos) == Mode::Normal,
{
}

/// A pane reads back the mode it was given. The tab's default is untouched,
/// and so is every pane but that one, in this tab and in all others.
pub proof fn lemma_pane_mode_is_read_back(records: Records, pos: usize, id: u32, mode: Mode)
    ensures
        pane_mode_of(with_pane_mode(records, pos, id, mode), pos, id) == mode,
        tab_mode_of(with_pane_mode(records, pos, id, mode), pos) == tab_mode_of(records, pos),
        forall|p: usize|
            tab_mode_of(with_pane_mode(records, pos, id, mode), p) == #[trigger] tab_mode_of(
                records,
                p,
            ),
        forall|p: usize, i: u32|
            (p != pos || i != id) ==> pane_mode_of(with_pane_mode(records, pos, id, mode), p, i)
                == #[trigger] pane_mode_of(records, p, i),
{
}

/// A tab reads back the default it was given, and so does every pane in it,
/// whether or not the pane had an override before. Other tabs are untouched.
pub proof fn lemma_tab_mode_clears_overrides(records: Records, pos: usize, mode: Mode)
    ensures
        tab_mode_of(with_tab_mode(records, pos, mode), pos) == mode,
        overrides_of(with_tab_mode(records, pos, mode), pos) == Map::<u32, Mode>::empty(),
        forall|id: u32| #[trigger] pane_mode_of(with_tab_mode(records, pos, mode), pos, id) == mode,
        forall|p: usize, id: u32|
            p != pos ==> pane_mode_of(with_tab_mode(records, pos, mode), p, id)
                == #[trigger] pane_mode_of(records, p, id),
{
}

/// A pane whose override is set and then dropped is back on its tab's
/// default, whatever mode the override had.
pub proof fn lemma_dropped_override_falls_back(records: Records, pos: usize, id: u32, mode: Mode)
    ensures
        ({
            let dropped = without_pane_mode(with_pane_mode(records, pos, id, mode), pos, id);
            &&& pane_mode_of(dropped, pos, id) == tab_mode_of(dropped, pos)
            &&& tab_mode_of(dropped, pos) == tab_mode_of(records, pos)
        }),
{
}

/// Dropping an override touches nothing but that one pane.
pub proof fn lemma_drop_is_local(records: Records, pos: usize, id: u32)
    ensures
        pane_mode_of(without_pane_mode(records, pos, id), pos, id) == tab_mode_of(records, pos),
        forall|p: usize|
            tab_mode_of(without_pane_mode(records, pos, id), p) == #[trigger] tab_mode_of(
                records,
                p,
            ),
        forall|p: usize, i: u32|
            (p != pos || i != id) ==> pane_mode_of(without_pane_mode(records, pos, id), p, i)
                == #[trigger] pane_mode_of(records, p, i),
{
}

} // verus!
