//! The lines that show a snapshot: one for each tab header and listed pane,
//! each with its mode, and an empty line at the end.

use crate::manifest::{has_tab, Manifest, TabPanes};
use crate::mode_state::{pane_mode_of, tab_mode_of, ModeState, Records};
use crate::navigation::{flattened, settled, NavItem, NavigationState};
use crate::style::{pane_line, pane_line_text, tab_line, tab_line_text};
use vstd::prelude::*;

verus! {

/// The characters of each line.
pub open spec fn texts(lines: Seq<String>) -> Seq<Seq<char>> {
    lines.map_values(|line: String| line@)
}

/// The line of one item of the list, with the mode that `records` gives it.
pub open spec fn item_line(item: NavItem, records: Records, marked: bool) -> Seq<char> {
    match item {
        NavItem::Header { tab } => tab_line_text(tab, tab_mode_of(records, tab), marked),
        NavItem::Pane { tab, id, title } => pane_line_text(
            title@,
            pane_mode_of(records, tab, id),
            marked,
        ),
    }
}

/// The lines of the items of the list: the one at `cursor` is marked.
pub open spec fn item_lines(items: Seq<NavItem>, records: Records, cursor: int) -> Seq<Seq<char>> {
    Seq::new(items.len(), |at: int| item_line(items[at], records, at == cursor))
}

/// The line of the active tab's header, where the snapshot holds that tab.
/// It is marked when the list is empty, since the cursor can then rest on
/// nothing else.
pub open spec fn active_header(
    tabs: Seq<TabPanes>,
    records: Records,
    active_tab: usize,
) -> Seq<Seq<char>> {
    if has_tab(tabs, active_tab) {
        seq![
            tab_line_text(
                active_tab,
                tab_mode_of(records, active_tab),
                flattened(tabs, active_tab).len() == 0,
            ),
        ]
    } else {
        Seq::empty()
    }
}

/// All lines: the active tab's header, the items of the list with the
/// cursor's item marked, and an empty line.
pub open spec fn rendered(
    tabs: Seq<TabPanes>,
    records: Records,
    active_tab: usize,
    cursor: usize,
) -> Seq<Seq<char>> {
    let items = flattened(tabs, active_tab);
    active_header(tabs, records, active_tab) + item_lines(
        items,
        records,
        settled(cursor as int, items.len() as int),
    ) + seq![Seq::<char>::empty()]
}

/// The lines that show `manifest` with the modes of `modes`, the tab at
/// `active_tab` first and the item at `cursor` marked.
pub fn render_lines(manifest: &Manifest, modes: &ModeState, active_tab: usize, cursor: usize) -> (lines:
    Vec<String>)
    ensures
        texts(lines@) == rendered(manifest@, modes@, active_tab, cursor),
{
    let nav = NavigationState::build(manifest, active_tab, cursor);
    let mut lines: Vec<String> = Vec::new();
    if manifest.get(active_tab).is_some() {
        let mode = modes.get_tab_mode(active_tab);
        lines.push(tab_line(active_tab, mode, nav.items.len() == 0));
    }
    let ghost head = active_header(manifest@, modes@, active_tab);
    let ghost at = nav.active_item as int;
    let mut i: usize = 0;
    while i < nav.items.len()
        invariant
            i <= nav.items.len(),
            at == nav.active_item as int,
            texts(lines@) == head + item_lines(nav.items@.take(i as int), modes@, at),
        decreases nav.items.len() - i,
    {
        let marked = i == nav.active_item;
        let line = match &nav.items[i] {
            NavItem::Header { tab } => tab_line(*tab, modes.get_tab_mode(*tab), marked),
            NavItem::Pane { tab, id, title } => pane_line(
                title.as_str(),
                modes.get_pane_mode(*tab, *id),
                marked,
            ),
        };
        lines.push(line);
        proof {
            let shown = item_lines(nav.items@.take(i as int), modes@, at);
            let grown = item_lines(nav.items@.take(i + 1), modes@, at);
            assert(grown =~= shown.push(line@));
            assert(head + shown.push(line@) =~= (head + shown).push(line@));
        }
        i += 1;
    }
    assert(nav.items@.take(nav.items.len() as int) =~= nav.items@);
    lines.push(String::new());
    lines
}

} // verus!
