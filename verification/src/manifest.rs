//! The snapshot of tabs and panes that the host last reported.

use vstd::prelude::*;

verus! {

/// A pane, as the host describes it.
#[derive(Debug, PartialEq, Eq)]
pub struct Pane {
    /// Unique while the pane exists.
    pub id: u32,
    pub title: String,
    /// A plugin pane is neither listed nor counted.
    pub is_plugin: bool,
    /// A floating pane is counted but not listed.
    pub is_floating: bool,
    pub is_focused: bool,
}

impl Pane {
    /// Whether the pane counts among the panes of its tab.
    pub open spec fn eligible(&self) -> bool {
        !self.is_plugin
    }

    /// Whether the pane is listed for navigation.
    pub open spec fn navigable(&self) -> bool {
        !self.is_plugin && !self.is_floating
    }

    #[verifier::when_used_as_spec(eligible)]
    pub fn is_eligible(&self) -> (yes: bool)
        ensures
            yes == self.eligible(),
    {
        !self.is_plugin
    }

    #[verifier::when_used_as_spec(navigable)]
    pub fn is_navigable(&self) -> (yes: bool)
        ensures
            yes == self.navigable(),
    {
        !self.is_plugin && !self.is_floating
    }
}

impl Clone for Pane {
    fn clone(&self) -> (copy: Pane)
        ensures
            copy == *self,
    {
        Pane {
            id: self.id,
            title: self.title.clone(),
            is_plugin: self.is_plugin,
            is_floating: self.is_floating,
            is_focused: self.is_focused,
        }
    }
}

/// A tab, as the host describes it in a tab update.
#[derive(Clone, Copy, Debug, PartialEq, Eq, Structural)]
pub struct TabInfo {
    pub position: usize,
    pub active: bool,
}

/// The panes of one tab, in the host's order.
#[derive(Debug, PartialEq, Eq)]
pub struct TabPanes {
    pub position: usize,
    pub panes: Vec<Pane>,
}

/// The predicate that keeps the panes that count.
pub open spec fn eligible_pred() -> spec_fn(Pane) -> bool {
    |pane: Pane| pane.eligible()
}

/// The index of the first entry for the tab at `pos`, or the length of
/// `tabs` where it has none.
pub open spec fn index_of(tabs: Seq<TabPanes>, pos: usize) -> int
    decreases tabs.len(),
{
    if tabs.len() == 0 || tabs.first().position == pos {
        0
    } else {
        1 + index_of(tabs.drop_first(), pos)
    }
}

/// Whether the snapshot holds the tab at `pos`.
pub open spec fn has_tab(tabs: Seq<TabPanes>, pos: usize) -> bool {
    index_of(tabs, pos) < tabs.len()
}

/// The panes of the tab at `pos`: none where the snapshot lacks the tab.
pub open spec fn panes_of(tabs: Seq<TabPanes>, pos: usize) -> Seq<Pane> {
    if has_tab(tabs, pos) {
        tabs[index_of(tabs, pos)].panes@
    } else {
        Seq::empty()
    }
}

/// The first pane that the host reports as focused, if any.
pub open spec fn focused_in(panes: Seq<Pane>) -> Option<u32>
    decreases panes.len(),
{
    if panes.len() == 0 {
        None
    } else if panes.first().is_focused {
        Some(panes.first().id)
    } else {
        focused_in(panes.drop_first())
    }
}

/// No tab position occurs twice.
pub open spec fn distinct_positions(tabs: Seq<TabPanes>) -> bool {
    forall|i: int, j: int|
        0 <= i < j < tabs.len() ==> (#[trigger] tabs[i]).position != (#[trigger] tabs[j]).position
}

/// The snapshot after the tab at `position` is given `panes`: an entry for
/// that tab is replaced where it stands, a new tab comes last.
pub open spec fn with_tab(tabs: Seq<TabPanes>, position: usize, panes: Vec<Pane>) -> Seq<
    TabPanes,
> {
    let entry = TabPanes { position, panes };
    if has_tab(tabs, position) {
        tabs.update(index_of(tabs, position), entry)
    } else {
        tabs.push(entry)
    }
}

/// `index_of` finds the first entry for `pos`, and only that.
pub proof fn lemma_index_of(tabs: Seq<TabPanes>, pos: usize)
    ensures
        0 <= index_of(tabs, pos) <= tabs.len(),
        has_tab(tabs, pos) ==> tabs[index_of(tabs, pos)].position == pos,
        forall|i: int| 0 <= i < index_of(tabs, pos) ==> (#[trigger] tabs[i]).position != pos,
    decreases tabs.len(),
{
    if tabs.len() > 0 && tabs.first().position != pos {
        let rest = tabs.drop_first();
        lemma_index_of(rest, pos);
        assert forall|i: int| 0 <= i < index_of(tabs, pos) implies (#[trigger] tabs[i]).position
            != pos by {
            if i > 0 {
                assert(tabs[i] == rest[i - 1]);
            }
        }
    }
}

/// An entry for `pos` with no entry for `pos` before it is the one that
/// `index_of` finds.
pub proof fn lemma_index_of_is(tabs: Seq<TabPanes>, pos: usize, at: int)
    requires
        0 <= at <= tabs.len(),
        at < tabs.len() ==> tabs[at].position == pos,
        forall|i: int| 0 <= i < at ==> (#[trigger] tabs[i]).position != pos,
    ensures
        index_of(tabs, pos) == at,
{
    lemma_index_of(tabs, pos);
}

/// Where no position occurs twice, every entry is the one that is found
/// under its position.
pub proof fn lemma_every_entry_is_found(tabs: Seq<TabPanes>, at: int)
    requires
        distinct_positions(tabs),
        0 <= at < tabs.len(),
    ensures
        index_of(tabs, tabs[at].position) == at,
        panes_of(tabs, tabs[at].position) == tabs[at].panes@,
{
    lemma_index_of(tabs, tabs[at].position);
}

/// Giving panes to one tab leaves every other tab as it was.
pub proof fn lemma_with_tab_elsewhere(
    tabs: Seq<TabPanes>,
    position: usize,
    panes: Vec<Pane>,
    other: usize,
)
    requires
        other != position,
    ensures
        has_tab(with_tab(tabs, position, panes), other) == has_tab(tabs, other),
        panes_of(with_tab(tabs, position, panes), other) == panes_of(tabs, other),
{
    let grown = with_tab(tabs, position, panes);
    let found = index_of(tabs, other);
    lemma_index_of(tabs, position);
    lemma_index_of(tabs, other);
    if found < tabs.len() {
        lemma_index_of_is(grown, other, found);
    } else {
        lemma_index_of_is(grown, other, grown.len() as int);
    }
}

/// A tab that is given panes holds just these afterwards, and no position
/// comes to occur twice.
pub proof fn lemma_with_tab(tabs: Seq<TabPanes>, position: usize, panes: Vec<Pane>)
    ensures
        has_tab(with_tab(tabs, position, panes), position),
        panes_of(with_tab(tabs, position, panes), position) == panes@,
        distinct_positions(tabs) ==> distinct_positions(with_tab(tabs, position, panes)),
{
    let grown = with_tab(tabs, position, panes);
    lemma_index_of(tabs, position);
    lemma_index_of_is(grown, position, index_of(tabs, position));
}

/// The tabs of the session with their panes: at most one entry for each tab
/// position, in the order in which the host listed them.
#[derive(Debug, PartialEq, Eq)]
pub struct Manifest {
    tabs: Vec<TabPanes>,
}

impl View for Manifest {
    type V = Seq<TabPanes>;

    closed spec fn view(&self) -> Seq<TabPanes> {
        self.tabs@
    }
}

impl Manifest {
    /// What every snapshot satisfies.
    #[verifier::type_invariant]
    pub open spec fn wf(&self) -> bool {
        distinct_positions(self@)
    }

    /// A snapshot without tabs.
    pub fn new() -> (manifest: Manifest)
        ensures
            manifest@ == Seq::<TabPanes>::empty(),
            manifest.wf(),
    {
        Manifest { tabs: Vec::new() }
    }

    /// The entries, in order.
    pub fn tabs(&self) -> (tabs: &Vec<TabPanes>)
        ensures
            tabs@ == self@,
            distinct_positions(tabs@),
    {
        proof {
            use_type_invariant(self);
        }
        &self.tabs
    }

    /// Records `panes` as the panes of the tab at `position`.
    pub fn insert(&mut self, position: usize, panes: Vec<Pane>)
        ensures
            final(self)@ == with_tab(old(self)@, position, panes),
            final(self).wf(),
    {
        proof {
            use_type_invariant(&*self);
        }
        let mut tabs: Vec<TabPanes> = Vec::new();
        core::mem::swap(&mut self.tabs, &mut tabs);
        let mut i: usize = 0;
        while i < tabs.len()
            invariant
                i <= tabs.len(),
                forall|j: int| 0 <= j < i ==> (#[trigger] tabs@[j]).position != position,
            ensures
                i < tabs.len() ==> tabs@[i as int].position == position,
            decreases tabs.len() - i,
        {
            if tabs[i].position == position {
                break ;
            }
            i += 1;
        }
        proof {
            lemma_index_of_is(tabs@, position, i as int);
        }
        if i < tabs.len() {
            tabs.set(i, TabPanes { position, panes });
        } else {
            tabs.push(TabPanes { position, panes });
        }
        core::mem::swap(&mut self.tabs, &mut tabs);
    }

    /// The panes of the tab at `pos`, if the snapshot holds that tab.
    pub fn get(&self, pos: usize) -> (found: Option<&Vec<Pane>>)
        ensures
            found is Some == has_tab(self@, pos),
            found is Some ==> found->0@ == panes_of(self@, pos),
    {
        let mut i: usize = 0;
        while i < self.tabs.len()
            invariant
                i <= self.tabs.len(),
                forall|j: int| 0 <= j < i ==> (#[trigger] self.tabs@[j]).position != pos,
            decreases self.tabs.len() - i,
        {
            if self.tabs[i].position == pos {
                proof {
                    lemma_index_of_is(self@, pos, i as int);
                }
                return Some(&self.tabs[i].panes);
            }
            i += 1;
        }
        proof {
            lemma_index_of_is(self@, pos, self.tabs.len() as int);
        }
        None
    }

    /// The panes of the tab at `pos` that are no plugins, in order.
    pub fn eligible_panes(&self, pos: usize) -> (panes: Vec<Pane>)
        ensures
            panes@ == panes_of(self@, pos).filter(eligible_pred()),
    {
        let mut kept: Vec<Pane> = Vec::new();
        match self.get(pos) {
            Some(all) => {
                let mut i: usize = 0;
                while i < all.len()
                    invariant
                        i <= all.len(),
                        kept@ == all@.take(i as int).filter(eligible_pred()),
                    decreases all.len() - i,
                {
                    proof {
                        all@.take(i as int).lemma_filter_push(all@[i as int], eligible_pred());
                        assert(all@.take(i as int).push(all@[i as int]) =~= all@.take(i + 1));
                    }
                    if all[i].is_eligible() {
                        kept.push(all[i].clone());
                    }
                    i += 1;
                }
                proof {
                    assert(all@.take(all.len() as int) =~= all@);
                }
            },
            None => {},
        }
        kept
    }

    /// The pane of the tab at `pos` that the host reports as focused.
    pub fn focused_pane_id(&self, pos: usize) -> (id: Option<u32>)
        ensures
            id == focused_in(panes_of(self@, pos)),
    {
        match self.get(pos) {
            Some(all) => find_focused(all),
            None => None,
        }
    }
}

impl Default for Manifest {
    fn default() -> (manifest: Manifest)
        ensures
            manifest@ == Seq::<TabPanes>::empty(),
    {
        Manifest::new()
    }
}

/// The first pane of `panes` that the host reports as focused.
pub fn find_focused(panes: &Vec<Pane>) -> (id: Option<u32>)
    ensures
        id == focused_in(panes@),
{
    let mut i: usize = 0;
    proof {
        assert(panes@.skip(0) =~= panes@);
    }
    while i < panes.len()
        invariant
            i <= panes.len(),
            focused_in(panes@) == focused_in(panes@.skip(i as int)),
        decreases panes.len() - i,
    {
        if panes[i].is_focused {
            return Some(panes[i].id);
        }
        proof {
            assert(panes@.skip(i as int).drop_first() =~= panes@.skip(i + 1));
        }
        i += 1;
    }
    None
}

} // verus!
