//! The flattened list of selectable items and the cursor into it.
//!
//! The list is derived from a snapshot each time it is needed: first the
//! listed panes of the active tab, then every other tab in the snapshot's
//! order, each with its header and its listed panes. The header of the active
//! tab is shown but takes no place in the list, so the cursor never rests on
//! it while anything else can be selected.

use crate::manifest::{eligible_pred, panes_of, Manifest, Pane, TabPanes};
use vstd::arithmetic::div_mod::{
    lemma_fundamental_div_mod, lemma_mod_multiples_vanish, lemma_mod_self_0, lemma_mod_twice,
    lemma_small_mod,
};
use vstd::prelude::*;

verus! {

/// What the cursor points at: a tab and, unless it is the tab's header, a
/// pane of that tab.
#[derive(Clone, Copy, Debug, PartialEq, Eq, Structural)]
pub struct Selection {
    pub tab: usize,
    pub pane: Option<u32>,
}

/// One selectable item.
#[derive(Debug, PartialEq, Eq)]
pub enum NavItem {
    /// The header of a tab.
    Header { tab: usize },
    /// A pane of a tab.
    Pane { tab: usize, id: u32, title: String },
}

impl NavItem {
    /// What is selected when the cursor rests on this item.
    pub open spec fn selection(self) -> Selection {
        match self {
            NavItem::Header { tab } => Selection { tab, pane: None },
            NavItem::Pane { tab, id, title } => Selection { tab, pane: Some(id) },
        }
    }

    /// What is selected when the cursor rests on this item.
    pub fn to_selection(&self) -> (selection: Selection)
        ensures
            selection == self.selection(),
    {
        match self {
            NavItem::Header { tab } => Selection { tab: *tab, pane: None },
            NavItem::Pane { tab, id, title } => Selection { tab: *tab, pane: Some(*id) },
        }
    }
}

/// The predicate that keeps the panes that are listed.
pub open spec fn navigable_pred() -> spec_fn(Pane) -> bool {
    |pane: Pane| pane.navigable()
}

/// The item that stands for `pane` of the tab at `tab`.
pub open spec fn pane_item(tab: usize, pane: Pane) -> NavItem {
    NavItem::Pane { tab, id: pane.id, title: pane.title }
}

/// The items of the listed panes among `panes`, in order.
pub open spec fn pane_items(tab: usize, panes: Seq<Pane>) -> Seq<NavItem> {
    panes.filter(navigable_pred()).map_values(|pane: Pane| pane_item(tab, pane))
}

/// The items of a tab other than the active one: its header, then its listed
/// panes.
pub open spec fn tab_items(entry: TabPanes) -> Seq<NavItem> {
    seq![NavItem::Header { tab: entry.position }] + pane_items(entry.position, entry.panes@)
}

/// The items of all tabs but the active one, in the snapshot's order.
pub open spec fn other_tab_items(tabs: Seq<TabPanes>, active_tab: usize) -> Seq<NavItem>
    decreases tabs.len(),
{
    if tabs.len() == 0 {
        Seq::empty()
    } else if tabs.last().position == active_tab {
        other_tab_items(tabs.drop_last(), active_tab)
    } else {
        other_tab_items(tabs.drop_last(), active_tab) + tab_items(tabs.last())
    }
}

/// The flattened list: the cursor's positions, in order.
pub open spec fn flattened(tabs: Seq<TabPanes>, active_tab: usize) -> Seq<NavItem> {
    pane_items(active_tab, panes_of(tabs, active_tab)) + other_tab_items(tabs, active_tab)
}

/// The cursor brought into a list of `count` items: unchanged where it is in
/// range or the list is empty.
pub open spec fn settled(cursor: int, count: int) -> int {
    if count > 0 {
        cursor % count
    } else {
        cursor
    }
}

/// The cursor after one step forward in a list of `count` items.
pub open spec fn next_of(cursor: int, count: int) -> int {
    if count > 0 {
        (cursor + 1 + count) % count
    } else {
        cursor
    }
}

/// The cursor after one step backward in a list of `count` items.
pub open spec fn prev_of(cursor: int, count: int) -> int {
    if count > 0 {
        (cursor - 1 + count) % count
    } else {
        cursor
    }
}

/// The cursor after `presses` steps forward.
pub open spec fn next_times(cursor: int, count: int, presses: nat) -> int
    decreases presses,
{
    if presses == 0 {
        cursor
    } else {
        next_of(next_times(cursor, count, (presses - 1) as nat), count)
    }
}

/// What the cursor selects in `items`: the item it rests on, or the header
/// of the active tab where it rests on none.
pub open spec fn selected_in(items: Seq<NavItem>, active_tab: usize, cursor: int) -> Selection {
    if 0 <= cursor < items.len() {
        items[cursor].selection()
    } else {
        Selection { tab: active_tab, pane: None }
    }
}

/// Taking one more pane into account adds its item if the pane is listed,
/// and nothing otherwise.
pub proof fn lemma_pane_items_step(tab: usize, panes: Seq<Pane>, upto: int)
    requires
        0 <= upto < panes.len(),
    ensures
        pane_items(tab, panes.take(upto + 1)) == if panes[upto].navigable() {
            pane_items(tab, panes.take(upto)).push(pane_item(tab, panes[upto]))
        } else {
            pane_items(tab, panes.take(upto))
        },
{
    let before = panes.take(upto);
    before.lemma_filter_push(panes[upto], navigable_pred());
    assert(before.push(panes[upto]) =~= panes.take(upto + 1));
}

/// Appends the items of the listed panes among `panes` to `items`.
fn push_pane_items(items: &mut Vec<NavItem>, tab: usize, panes: &Vec<Pane>)
    ensures
        final(items)@ == old(items)@ + pane_items(tab, panes@),
{
    let mut i: usize = 0;
    while i < panes.len()
        invariant
            i <= panes.len(),
            items@ == old(items)@ + pane_items(tab, panes@.take(i as int)),
        decreases panes.len() - i,
    {
        proof {
            lemma_pane_items_step(tab, panes@, i as int);
        }
        if panes[i].is_navigable() {
            items.push(NavItem::Pane { tab, id: panes[i].id, title: panes[i].title.clone() });
        }
        i += 1;
    }
    proof {
        assert(panes@.take(panes.len() as int) =~= panes@);
    }
}

/// The flattened list of `manifest` when the tab at `active_tab` is active.
pub fn flatten(manifest: &Manifest, active_tab: usize) -> (items: Vec<NavItem>)
    ensures
        items@ == flattened(manifest@, active_tab),
{
    let mut items: Vec<NavItem> = Vec::new();
    match manifest.get(active_tab) {
        Some(panes) => {
            push_pane_items(&mut items, active_tab, panes);
        },
        None => {},
    }
    let tabs = manifest.tabs();
    let ghost own = items@;
    let mut i: usize = 0;
    while i < tabs.len()
        invariant
            i <= tabs.len(),
            items@ == own + other_tab_items(tabs@.take(i as int), active_tab),
        decreases tabs.len() - i,
    {
        proof {
            assert(tabs@.take(i + 1).drop_last() =~= tabs@.take(i as int));
        }
        if tabs[i].position != active_tab {
            items.push(NavItem::Header { tab: tabs[i].position });
            push_pane_items(&mut items, tabs[i].position, &tabs[i].panes);
        }
        i += 1;
    }
    proof {
        assert(tabs@.take(tabs.len() as int) =~= tabs@);
    }
    items
}

/// A step forward goes to the next place and, from the last, to the first.
pub proof fn lemma_next_of(cursor: int, count: int)
    requires
        count > 0,
    ensures
        next_of(cursor, count) == if cursor % count + 1 == count {
            0
        } else {
            cursor % count + 1
        },
        0 <= next_of(cursor, count) < count,
{
    let rest = cursor % count;
    lemma_fundamental_div_mod(cursor, count);
    assert(cursor + 1 + count == count * (cursor / count + 1) + (rest + 1)) by (nonlinear_arith)
        requires
            cursor == count * (cursor / count) + rest,
    ;
    lemma_mod_multiples_vanish(cursor / count + 1, rest + 1, count);
    if rest + 1 == count {
        lemma_mod_self_0(count);
    } else {
        lemma_small_mod((rest + 1) as nat, count as nat);
    }
}

/// A step backward goes to the place before and, from the first, to the
/// last.
pub proof fn lemma_prev_of(cursor: int, count: int)
    requires
        count > 0,
    ensures
        prev_of(cursor, count) == if cursor % count == 0 {
            count - 1
        } else {
            cursor % count - 1
        },
        0 <= prev_of(cursor, count) < count,
{
    let rest = cursor % count;
    lemma_fundamental_div_mod(cursor, count);
    if rest == 0 {
        lemma_mod_multiples_vanish(cursor / count, count - 1, count);
        lemma_small_mod((count - 1) as nat, count as nat);
    } else {
        assert(cursor - 1 + count == count * (cursor / count + 1) + (rest - 1)) by (nonlinear_arith)
            requires
                cursor == count * (cursor / count) + rest,
        ;
        lemma_mod_multiples_vanish(cursor / count + 1, rest - 1, count);
        lemma_small_mod((rest - 1) as nat, count as nat);
    }
}

/// Steps forward add up: after at least one step the cursor is as many
/// places beyond its start as steps were made, counted round the list.
pub proof fn lemma_next_times(cursor: int, count: int, presses: nat)
    requires
        count > 0,
    ensures
        next_times(cursor, count, presses) == if presses == 0 {
            cursor
        } else {
            (cursor + presses) % count
        },
    decreases presses,
{
    if presses > 0 {
        let before = next_times(cursor, count, (presses - 1) as nat);
        lemma_next_times(cursor, count, (presses - 1) as nat);
        lemma_next_of(before, count);
        lemma_next_of(cursor + presses - 1, count);
        if presses > 1 {
            lemma_mod_twice(cursor + presses - 1, count);
        }
        assert(next_of(cursor + presses - 1, count) == (cursor + presses) % count) by {
            lemma_mod_multiples_vanish(1, cursor + presses, count);
            assert(cursor + presses - 1 + 1 + count == count * 1 + (cursor + presses))
                by (nonlinear_arith);
        }
    }
}

/// In a list of `count` items, as many steps forward as the list has items
/// bring the cursor to where it settles in the list: back to where it
/// started, if it started on an item.
pub proof fn lemma_full_cycle(cursor: int, count: int)
    requires
        count > 0,
        cursor >= 0,
    ensures
        next_times(cursor, count, count as nat) == settled(cursor, count),
        cursor < count ==> next_times(cursor, count, count as nat) == cursor,
{
    lemma_next_times(cursor, count, count as nat);
    lemma_mod_multiples_vanish(1, cursor, count);
    if cursor < count {
        lemma_small_mod(cursor as nat, count as nat);
    }
}

/// A step forward and a step backward undo each other, in both orders.
pub proof fn lemma_next_prev_cancel(cursor: int, count: int)
    requires
        count > 0,
        0 <= cursor < count,
    ensures
        prev_of(next_of(cursor, count), count) == cursor,
        next_of(prev_of(cursor, count), count) == cursor,
{
    lemma_small_mod(cursor as nat, count as nat);
    lemma_next_of(cursor, count);
    lemma_prev_of(cursor, count);
    let forth = next_of(cursor, count);
    let back = prev_of(cursor, count);
    lemma_small_mod(forth as nat, count as nat);
    lemma_small_mod(back as nat, count as nat);
    lemma_prev_of(forth, count);
    lemma_next_of(back, count);
}

/// In an empty list the cursor does not move.
pub proof fn lemma_moves_in_empty_list(cursor: int, presses: nat)
    ensures
        next_of(cursor, 0) == cursor,
        prev_of(cursor, 0) == cursor,
        next_times(cursor, 0, presses) == cursor,
    decreases presses,
{
    if presses > 0 {
        lemma_moves_in_empty_list(cursor, (presses - 1) as nat);
    }
}

/// A cursor that is brought into a list rests on an item, and stays where it
/// is if it rested on one already.
pub proof fn lemma_settled(cursor: int, count: int)
    requires
        count > 0,
        cursor >= 0,
    ensures
        0 <= settled(cursor, count) < count,
        cursor < count ==> settled(cursor, count) == cursor,
{
    if cursor < count {
        lemma_small_mod(cursor as nat, count as nat);
    }
}

/// Where the snapshot holds no tab but the active one, the list holds
/// nothing but the listed panes of that tab.
pub proof fn lemma_no_other_tabs(tabs: Seq<TabPanes>, active_tab: usize)
    requires
        forall|i: int| 0 <= i < tabs.len() ==> (#[trigger] tabs[i]).position == active_tab,
    ensures
        other_tab_items(tabs, active_tab) == Seq::<NavItem>::empty(),
        flattened(tabs, active_tab) == pane_items(active_tab, panes_of(tabs, active_tab)),
    decreases tabs.len(),
{
    if tabs.len() > 0 {
        lemma_no_other_tabs(tabs.drop_last(), active_tab);
    }
}

/// Where the snapshot holds no tab but the active one, and in it no pane
/// that counts, the list is empty.
pub proof fn lemma_nothing_to_list(tabs: Seq<TabPanes>, active_tab: usize)
    requires
        forall|i: int| 0 <= i < tabs.len() ==> (#[trigger] tabs[i]).position == active_tab,
        panes_of(tabs, active_tab).filter(eligible_pred()).len() == 0,
    ensures
        flattened(tabs, active_tab).len() == 0,
{
    lemma_no_other_tabs(tabs, active_tab);
    let panes = panes_of(tabs, active_tab);
    let listed = panes.filter(navigable_pred());
    if listed.len() > 0 {
        let pane = listed[0];
        panes.lemma_filter_contains_rev(navigable_pred(), pane);
        let at = choose|at: int| 0 <= at < panes.len() && panes[at] == pane;
        let counted = panes.filter(eligible_pred());
        assert(counted.contains(pane));
    }
}

/// The list as it was last derived, and the cursor into it.
#[derive(Debug, PartialEq, Eq)]
pub struct NavigationState {
    /// The tab that was active when the list was derived.
    pub active_tab: usize,
    /// The selectable items, in order.
    pub items: Vec<NavItem>,
    /// The cursor: a place in `items` unless `items` is empty.
    pub active_item: usize,
}

impl NavigationState {
    /// The cursor rests on an item unless there is none.
    pub open spec fn wf(&self) -> bool {
        self.items@.len() > 0 ==> self.active_item < self.items@.len()
    }

    /// What the cursor selects.
    pub open spec fn spec_selection(&self) -> Selection {
        selected_in(self.items@, self.active_tab, self.active_item as int)
    }

    /// Derives the list from `manifest` and brings `cursor` into it.
    pub fn build(manifest: &Manifest, active_tab: usize, cursor: usize) -> (nav: NavigationState)
        ensures
            nav.active_tab == active_tab,
            nav.items@ == flattened(manifest@, active_tab),
            nav.active_item == settled(cursor as int, nav.items@.len() as int),
            nav.wf(),
    {
        let items = flatten(manifest, active_tab);
        let count: usize = items.len();
        let active_item: usize = if count > 0 {
            cursor % count
        } else {
            cursor
        };
        NavigationState { active_tab, items, active_item }
    }

    /// The number of selectable items.
    pub fn items_count(&self) -> (count: usize)
        ensures
            count == self.items@.len(),
    {
        self.items.len()
    }

    /// What the cursor selects: the item it rests on, or the header of the
    /// active tab where it rests on none.
    pub fn selection(&self) -> (selection: Selection)
        ensures
            selection == self.spec_selection(),
    {
        if self.active_item < self.items.len() {
            self.items[self.active_item].to_selection()
        } else {
            Selection { tab: self.active_tab, pane: None }
        }
    }

    /// Moves the cursor one item forward, from the last item to the first.
    /// Nothing moves in an empty list.
    pub fn move_next(&mut self)
        ensures
            final(self).active_item == next_of(
                old(self).active_item as int,
                old(self).items@.len() as int,
            ),
            final(self).items == old(self).items,
            final(self).active_tab == old(self).active_tab,
            final(self).wf(),
    {
        let count: usize = self.items.len();
        if count > 0 {
            proof {
                lemma_next_of(self.active_item as int, count as int);
            }
            let at: usize = self.active_item % count;
            self.active_item = if at + 1 == count {
                0
            } else {
                at + 1
            };
        }
    }

    /// Moves the cursor one item backward, from the first item to the last.
    /// Nothing moves in an empty list.
    pub fn move_prev(&mut self)
        ensures
            final(self).active_item == prev_of(
                old(self).active_item as int,
                old(self).items@.len() as int,
            ),
            final(self).items == old(self).items,
            final(self).active_tab == old(self).active_tab,
            final(self).wf(),
    {
        let count: usize = self.items.len();
        if count > 0 {
            proof {
                lemma_prev_of(self.active_item as int, count as int);
            }
            let at: usize = self.active_item % count;
            self.active_item = if at == 0 {
                count - 1
            } else {
                at - 1
            };
        }
    }
}

} // verus!
