use pane_modes::manifest::{Manifest, Pane, TabInfo};
use pane_modes::mode_state::Mode;
use pane_modes::navigation::Selection;
use pane_modes::render::render_lines;
use pane_modes::state::{
    find_active, to_tab_index, Event, HostCall, Outcome, Permission, Startup, State, Subscription,
    KEY_ENTER, KEY_LOCK, KEY_NEXT, KEY_NORMAL, KEY_PREV,
};
use std::collections::BTreeMap;

fn pane(id: u32, title: &str) -> Pane {
    Pane { id, title: title.to_string(), is_plugin: false, is_floating: false, is_focused: false }
}

fn plugin(id: u32, title: &str) -> Pane {
    Pane { id, title: title.to_string(), is_plugin: true, is_floating: false, is_focused: false }
}

fn floating(id: u32, title: &str) -> Pane {
    Pane { id, title: title.to_string(), is_plugin: false, is_floating: true, is_focused: false }
}

fn focused(id: u32, title: &str) -> Pane {
    Pane { id, title: title.to_string(), is_plugin: false, is_floating: false, is_focused: true }
}

fn two_panes() -> Manifest {
    let mut manifest = Manifest::new();
    manifest.insert(0, vec![pane(10, "A"), pane(20, "B")]);
    manifest
}

fn three_tabs() -> Manifest {
    let mut manifest = Manifest::new();
    manifest.insert(0, vec![pane(10, "A"), plugin(11, "bar"), pane(20, "B")]);
    manifest.insert(1, vec![floating(30, "F"), pane(31, "C")]);
    manifest.insert(2, vec![]);
    manifest
}

fn rendered(render: bool) -> Outcome {
    Outcome { should_render: render, call: None }
}

#[test]
fn key_bindings() {
    assert_eq!(KEY_NEXT, 'j');
    assert_eq!(KEY_PREV, 'k');
    assert_eq!(KEY_LOCK, 'L');
    assert_eq!(KEY_NORMAL, 'N');
    assert_eq!(KEY_ENTER, '\n');
}

#[test]
fn new_state_is_blank() {
    let state = State::new();
    assert_eq!(state.active_tab, 0);
    assert_eq!(state.active_item, 0);
    assert!(state.panes_manifest.tabs().is_empty());
    assert!(state.userspace_configuration.is_empty());
    assert_eq!(state.mode_state.get_tab_mode(0), Mode::Normal);
    let state = State::default();
    assert_eq!(state.active_tab, 0);
    assert_eq!(state.active_item, 0);
}

#[test]
fn load_keeps_the_configuration_and_lists_the_requests() {
    let mut state = State::new();
    let mut configuration = BTreeMap::new();
    configuration.insert("theme".to_string(), "dark".to_string());
    configuration.insert("keys".to_string(), "vi".to_string());
    let startup = state.load(configuration.clone());
    assert_eq!(state.userspace_configuration, configuration);
    assert_eq!(
        startup,
        Startup {
            permissions: vec![
                Permission::ReadApplicationState,
                Permission::RunCommands,
                Permission::ChangeApplicationState,
            ],
            subscriptions: vec![
                Subscription::PaneUpdate,
                Subscription::TabUpdate,
                Subscription::Key
            ],
        }
    );
    assert_eq!(state.active_tab, 0);
    assert_eq!(state.active_item, 0);
}

#[test]
fn find_active_takes_the_first_active_tab() {
    assert_eq!(find_active(&vec![]), None);
    assert_eq!(find_active(&vec![TabInfo { position: 0, active: false }]), None);
    assert_eq!(
        find_active(&vec![
            TabInfo { position: 0, active: false },
            TabInfo { position: 4, active: true },
            TabInfo { position: 2, active: true },
        ]),
        Some(4)
    );
}

#[test]
fn tab_update_switches_to_the_mode_of_the_active_tab() {
    let mut state = State::new();
    state.mode_state.set_tab_mode(3, Mode::Locked);
    let outcome = state.update(Event::TabUpdate(vec![
        TabInfo { position: 0, active: false },
        TabInfo { position: 3, active: true },
    ]));
    assert_eq!(state.active_tab, 3);
    assert_eq!(
        outcome,
        Outcome { should_render: true, call: Some(HostCall::SwitchToInputMode(Mode::Locked)) }
    );
    let outcome = state.update(Event::TabUpdate(vec![TabInfo { position: 1, active: true }]));
    assert_eq!(state.active_tab, 1);
    assert_eq!(
        outcome,
        Outcome { should_render: true, call: Some(HostCall::SwitchToInputMode(Mode::Normal)) }
    );
}

#[test]
fn tab_update_without_active_tab_changes_nothing() {
    let mut state = State::new();
    state.update(Event::TabUpdate(vec![TabInfo { position: 5, active: true }]));
    let outcome = state.update(Event::TabUpdate(vec![
        TabInfo { position: 0, active: false },
        TabInfo { position: 1, active: false },
    ]));
    assert_eq!(outcome, rendered(false));
    assert_eq!(state.active_tab, 5);
    let outcome = state.update(Event::TabUpdate(vec![]));
    assert_eq!(outcome, rendered(false));
    assert_eq!(state.active_tab, 5);
}

#[test]
fn pane_update_replaces_the_manifest_wholesale() {
    let mut state = State::new();
    state.update(Event::PaneUpdate(three_tabs()));
    assert_eq!(state.panes_manifest, three_tabs());
    state.update(Event::PaneUpdate(two_panes()));
    assert_eq!(state.panes_manifest, two_panes());
    assert!(state.panes_manifest.get(1).is_none());
}

#[test]
fn pane_update_switches_to_the_mode_of_the_focused_pane() {
    let mut state = State::new();
    state.mode_state.set_pane_mode(0, 20, Mode::Locked);
    let mut manifest = Manifest::new();
    manifest.insert(0, vec![pane(10, "A"), focused(20, "B")]);
    manifest.insert(1, vec![focused(30, "C")]);
    let outcome = state.update(Event::PaneUpdate(manifest));
    assert_eq!(
        outcome,
        Outcome { should_render: true, call: Some(HostCall::SwitchToInputMode(Mode::Locked)) }
    );
    let mut manifest = Manifest::new();
    manifest.insert(0, vec![focused(10, "A"), pane(20, "B")]);
    let outcome = state.update(Event::PaneUpdate(manifest));
    assert_eq!(
        outcome,
        Outcome { should_render: true, call: Some(HostCall::SwitchToInputMode(Mode::Normal)) }
    );
}

#[test]
fn pane_update_follows_the_tab_default_for_a_focused_pane_without_override() {
    let mut state = State::new();
    state.mode_state.set_tab_mode(0, Mode::Locked);
    let mut manifest = Manifest::new();
    manifest.insert(0, vec![focused(10, "A")]);
    let outcome = state.update(Event::PaneUpdate(manifest));
    assert_eq!(outcome.call, Some(HostCall::SwitchToInputMode(Mode::Locked)));
}

#[test]
fn pane_update_without_focused_pane_asks_nothing() {
    let mut state = State::new();
    let outcome = state.update(Event::PaneUpdate(two_panes()));
    assert_eq!(outcome, rendered(true));
    let mut manifest = Manifest::new();
    manifest.insert(1, vec![focused(30, "C")]);
    let outcome = state.update(Event::PaneUpdate(manifest));
    assert_eq!(outcome, rendered(true));
    assert_eq!(state.get_focused_pane_id(), None);
}

#[test]
fn focused_pane_and_pane_count_of_the_active_tab() {
    let mut state = State::new();
    let mut manifest = Manifest::new();
    manifest.insert(0, vec![plugin(1, "bar"), pane(2, "a"), floating(3, "f"), focused(4, "b")]);
    manifest.insert(1, vec![pane(5, "c")]);
    state.update(Event::PaneUpdate(manifest));
    assert_eq!(state.get_active_tab_panes_len(), 3);
    assert_eq!(state.get_focused_pane_id(), Some(4));
    state.update(Event::TabUpdate(vec![TabInfo { position: 1, active: true }]));
    assert_eq!(state.get_active_tab_panes_len(), 1);
    assert_eq!(state.get_focused_pane_id(), None);
    state.update(Event::TabUpdate(vec![TabInfo { position: 8, active: true }]));
    assert_eq!(state.get_active_tab_panes_len(), 0);
}

#[test]
fn empty_manifest_keeps_the_cursor_at_zero() {
    let mut state = State::new();
    let mut manifest = Manifest::new();
    manifest.insert(0, vec![plugin(1, "bar")]);
    state.update(Event::PaneUpdate(manifest));
    assert_eq!(state.get_active_tab_panes_len(), 0);
    assert_eq!(state.navigation().items_count(), 0);
    assert_eq!(state.update(Event::Key('j')), rendered(true));
    assert_eq!(state.active_item, 0);
    assert_eq!(state.update(Event::Key('k')), rendered(true));
    assert_eq!(state.active_item, 0);

    let mut state = State::new();
    assert_eq!(state.update(Event::Key('j')), rendered(true));
    assert_eq!(state.update(Event::Key('k')), rendered(true));
    assert_eq!(state.active_item, 0);
    assert_eq!(state.navigation().items_count(), 0);
}

#[test]
fn two_panes_next_then_lock() {
    let mut state = State::new();
    state.update(Event::TabUpdate(vec![TabInfo { position: 0, active: true }]));
    state.update(Event::PaneUpdate(two_panes()));
    assert_eq!(state.navigation().items_count(), 2);
    assert_eq!(state.navigation().selection(), Selection { tab: 0, pane: Some(10) });
    assert_eq!(state.update(Event::Key('j')), rendered(true));
    assert_eq!(state.active_item, 1);
    assert_eq!(state.navigation().selection(), Selection { tab: 0, pane: Some(20) });
    assert_eq!(state.update(Event::Key('L')), rendered(true));
    assert_eq!(state.mode_state.get_pane_mode(0, 20), Mode::Locked);
    assert_eq!(state.mode_state.get_pane_mode(0, 10), Mode::Normal);
    assert_eq!(state.mode_state.get_tab_mode(0), Mode::Normal);
}

// Current behaviour: locking a tab header drops the overrides of its panes.
#[test]
fn lock_on_a_tab_header_cascades() {
    let mut state = State::new();
    let mut manifest = Manifest::new();
    manifest.insert(0, vec![]);
    manifest.insert(2, vec![pane(7, "x"), pane(8, "y")]);
    state.update(Event::TabUpdate(vec![TabInfo { position: 0, active: true }]));
    state.update(Event::PaneUpdate(manifest));
    state.mode_state.set_pane_mode(2, 7, Mode::Normal);
    state.mode_state.set_pane_mode(2, 8, Mode::Locked);
    assert_eq!(state.navigation().selection(), Selection { tab: 2, pane: None });
    assert_eq!(state.update(Event::Key('L')), rendered(true));
    assert_eq!(state.mode_state.get_tab_mode(2), Mode::Locked);
    assert_eq!(state.mode_state.get_pane_mode(2, 7), Mode::Locked);
    assert_eq!(state.mode_state.get_pane_mode(2, 8), Mode::Locked);
    assert_eq!(state.mode_state.get_tab_mode(0), Mode::Normal);
}

#[test]
fn normal_key_undoes_a_lock() {
    let mut state = State::new();
    state.update(Event::PaneUpdate(two_panes()));
    state.update(Event::Key('L'));
    assert_eq!(state.mode_state.get_pane_mode(0, 10), Mode::Locked);
    assert_eq!(state.update(Event::Key('N')), rendered(true));
    assert_eq!(state.mode_state.get_pane_mode(0, 10), Mode::Normal);
    assert_eq!(state.active_item, 0);
}

#[test]
fn normal_key_on_a_tab_header_resets_the_tab() {
    let mut state = State::new();
    state.update(Event::PaneUpdate(three_tabs()));
    state.mode_state.set_tab_mode(1, Mode::Locked);
    state.mode_state.set_pane_mode(1, 31, Mode::Locked);
    state.active_item = 2;
    state.update(Event::Key('N'));
    assert_eq!(state.mode_state.get_tab_mode(1), Mode::Normal);
    assert_eq!(state.mode_state.get_pane_mode(1, 31), Mode::Normal);
}

#[test]
fn lock_with_nothing_listed_locks_the_active_tab() {
    let mut state = State::new();
    state.update(Event::TabUpdate(vec![TabInfo { position: 4, active: true }]));
    state.update(Event::Key('L'));
    assert_eq!(state.mode_state.get_tab_mode(4), Mode::Locked);
}

#[test]
fn enter_on_a_pane_asks_for_the_focus() {
    let mut state = State::new();
    state.update(Event::PaneUpdate(two_panes()));
    state.update(Event::Key('j'));
    let outcome = state.update(Event::Key('\n'));
    assert_eq!(
        outcome,
        Outcome {
            should_render: true,
            call: Some(HostCall::FocusTerminalPane { id: 20, should_float_if_hidden: true }),
        }
    );
    assert_eq!(state.active_item, 1);
}

#[test]
fn enter_on_a_tab_header_asks_for_the_tab() {
    let mut state = State::new();
    state.update(Event::PaneUpdate(three_tabs()));
    state.active_item = 4;
    let outcome = state.update(Event::Key('\n'));
    assert_eq!(outcome, Outcome { should_render: true, call: Some(HostCall::GoToTab(2)) });
}

#[test]
fn tab_index_fits_the_host() {
    assert_eq!(to_tab_index(0), 0);
    assert_eq!(to_tab_index(7), 7);
    assert_eq!(to_tab_index(u32::MAX as usize), u32::MAX);
    assert_eq!(to_tab_index(usize::MAX), usize::MAX as u32);
}

#[test]
fn other_events_and_unbound_keys_are_ignored() {
    let mut state = State::new();
    state.update(Event::PaneUpdate(three_tabs()));
    state.update(Event::Key('j'));
    assert_eq!(state.update(Event::Other), rendered(false));
    assert_eq!(state.update(Event::Key('x')), rendered(false));
    assert_eq!(state.update(Event::Key('J')), rendered(false));
    assert_eq!(state.update(Event::Key('l')), rendered(false));
    assert_eq!(state.active_item, 1);
    assert_eq!(state.active_tab, 0);
    assert_eq!(state.panes_manifest, three_tabs());
    assert_eq!(state.mode_state.get_pane_mode(0, 20), Mode::Normal);
}

#[test]
fn keys_cycle_through_the_list() {
    let mut state = State::new();
    state.update(Event::PaneUpdate(three_tabs()));
    let count = state.navigation().items_count();
    assert_eq!(count, 5);
    for start in 0..count {
        state.active_item = start;
        for _ in 0..count {
            state.update(Event::Key('j'));
        }
        assert_eq!(state.active_item, start);
        state.update(Event::Key('j'));
        state.update(Event::Key('k'));
        assert_eq!(state.active_item, start);
    }
    state.active_item = 4;
    state.update(Event::Key('j'));
    assert_eq!(state.active_item, 0);
    state.update(Event::Key('k'));
    assert_eq!(state.active_item, 4);
}

#[test]
fn cursor_survives_a_shrinking_manifest() {
    let mut state = State::new();
    state.update(Event::PaneUpdate(three_tabs()));
    state.active_item = 4;
    state.update(Event::PaneUpdate(two_panes()));
    assert_eq!(state.active_item, 4);
    assert_eq!(state.navigation().active_item, 0);
    assert_eq!(state.navigation().selection(), Selection { tab: 0, pane: Some(10) });
    state.update(Event::Key('j'));
    assert_eq!(state.active_item, 1);
}

#[test]
fn render_of_a_blank_state_is_one_empty_line() {
    assert_eq!(State::new().render(24, 80), vec![String::new()]);
}

#[test]
fn render_shows_every_item_with_its_mode() {
    let mut state = State::new();
    state.update(Event::PaneUpdate(three_tabs()));
    state.mode_state.set_tab_mode(1, Mode::Locked);
    state.mode_state.set_pane_mode(0, 20, Mode::Locked);
    state.update(Event::Key('j'));
    assert_eq!(
        state.render(24, 80),
        vec![
            "\u{1b}[1;38;5;51mTab #1 M: N\u{1b}[0m".to_string(),
            "  \u{1b}[1;38;5;51mA\u{1b}[0m M: N".to_string(),
            "  \u{1b}[1;38;5;166mB\u{1b}[0m M: L".to_string(),
            "\u{1b}[1;38;5;51mTab #2 M: L\u{1b}[0m".to_string(),
            "  \u{1b}[1;38;5;51mC\u{1b}[0m M: L".to_string(),
            "\u{1b}[1;38;5;51mTab #3 M: N\u{1b}[0m".to_string(),
            String::new(),
        ]
    );
}

#[test]
fn render_marks_the_header_under_the_cursor() {
    let mut state = State::new();
    state.update(Event::PaneUpdate(three_tabs()));
    state.active_item = 2;
    let lines = state.render(0, 0);
    assert_eq!(lines[3], "\u{1b}[1;38;5;154mTab #2 M: N\u{1b}[0m");
    assert_eq!(lines[0], "\u{1b}[1;38;5;51mTab #1 M: N\u{1b}[0m");
    assert_eq!(lines.len(), 7);
}

#[test]
fn render_marks_the_active_header_when_nothing_is_listed() {
    let mut state = State::new();
    let mut manifest = Manifest::new();
    manifest.insert(0, vec![plugin(1, "bar")]);
    state.update(Event::PaneUpdate(manifest));
    state.update(Event::Key('L'));
    assert_eq!(
        state.render(1, 1),
        vec!["\u{1b}[1;38;5;154mTab #1 M: L\u{1b}[0m".to_string(), String::new()]
    );
}

#[test]
fn render_without_the_active_tab_lists_the_others() {
    let mut state = State::new();
    state.update(Event::TabUpdate(vec![TabInfo { position: 5, active: true }]));
    state.update(Event::PaneUpdate(two_panes()));
    assert_eq!(
        state.render(24, 80),
        vec![
            "\u{1b}[1;38;5;154mTab #1 M: N\u{1b}[0m".to_string(),
            "  \u{1b}[1;38;5;51mA\u{1b}[0m M: N".to_string(),
            "  \u{1b}[1;38;5;51mB\u{1b}[0m M: N".to_string(),
            String::new(),
        ]
    );
}

#[test]
fn render_does_not_depend_on_the_size() {
    let mut state = State::new();
    state.update(Event::PaneUpdate(three_tabs()));
    assert_eq!(state.render(1, 1), state.render(200, 300));
    assert_eq!(
        state.render(1, 1),
        render_lines(&state.panes_manifest, &state.mode_state, state.active_tab, state.active_item)
    );
}

#[test]
fn pipe_messages_are_acknowledged() {
    let state = State::new();
    assert!(state.pipe());
    assert_eq!(state.active_item, 0);
}
