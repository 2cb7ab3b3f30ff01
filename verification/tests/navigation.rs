use flutter_cli::app::{ActionKind, App};
use flutter_cli::keys::{check_key_allowed, check_well_formed, handle_key, Key, KeyOutcome};
use flutter_cli::list::StatefulList;
use flutter_cli::state::{GlobalState, InnerListState};

fn start() -> (App, GlobalState) {
    (App::new(), GlobalState::new())
}

fn press(app: &mut App, g: &mut GlobalState, key: Key) -> KeyOutcome {
    assert!(check_well_formed(app, g));
    assert!(check_key_allowed(app, g, key));
    let out = handle_key(app, g, key);
    assert!(check_well_formed(app, g));
    out
}

fn commands(outcome: KeyOutcome) -> (ActionKind, Vec<(&'static str, &'static str)>) {
    match outcome {
        KeyOutcome::Act(a) => (a.kind, a.commands),
        _ => panic!("Enter must give an action"),
    }
}

#[test]
fn start_screen_is_consistent() {
    let (app, g) = start();
    assert!(check_well_formed(&app, &g));
    assert_eq!(app.titles, vec!["exec", "checks", "cleanup", "config", "ios", "exit"]);
    assert_eq!(app.index, 0);
    assert_eq!(g.level, 0);
    assert_eq!(g.current_tab, 0);
    let lens: Vec<usize> = app.items.items.iter().map(|l| l.len()).collect();
    assert_eq!(lens, vec![3, 3, 3, 3, 4, 1]);
    assert_eq!(app.items.items[0][1], ("flutter pub get".to_string(), 1));
    assert_eq!(app.items.items[4][3], ("flutter repo update".to_string(), 5));
    assert_eq!(app.items.items[5][0], ("exit".to_string(), 6));
    assert_eq!(app.items.items.len(), 6);
    assert!(app.items.inner_states.iter().all(|s| s.selected.is_none()));
    assert!(!app.command_running);
}

#[test]
fn right_and_left_wrap_round_the_tabs() {
    let (mut app, mut g) = start();
    press(&mut app, &mut g, Key::Left);
    assert_eq!((app.index, g.current_tab), (5, 5));
    press(&mut app, &mut g, Key::Right);
    assert_eq!((app.index, g.current_tab), (0, 0));
    for _ in 0..6 {
        press(&mut app, &mut g, Key::Right);
    }
    assert_eq!((app.index, g.current_tab), (0, 0));
    press(&mut app, &mut g, Key::Right);
    press(&mut app, &mut g, Key::Right);
    press(&mut app, &mut g, Key::Left);
    assert_eq!((app.index, g.current_tab), (1, 1));
}

#[test]
fn down_and_up_move_the_selection_and_level() {
    let (mut app, mut g) = start();
    press(&mut app, &mut g, Key::Down);
    assert_eq!(app.items.inner_states[0].selected, Some(1));
    assert_eq!(g.level, 1);
    press(&mut app, &mut g, Key::Down);
    assert_eq!(app.items.inner_states[0].selected, Some(2));
    assert_eq!(g.level, 2);
    press(&mut app, &mut g, Key::Down);
    assert_eq!(app.items.inner_states[0].selected, Some(0));
    assert_eq!(g.level, 2);
    press(&mut app, &mut g, Key::Up);
    assert_eq!(app.items.inner_states[0].selected, Some(2));
    assert_eq!(g.level, 1);
    press(&mut app, &mut g, Key::Up);
    press(&mut app, &mut g, Key::Up);
    assert_eq!(app.items.inner_states[0].selected, Some(0));
    assert_eq!(g.level, 0);
    assert_eq!(app.items.inner_states[1].selected, None);
}

#[test]
fn up_with_nothing_selected_takes_the_last_row() {
    let (mut app, mut g) = start();
    for _ in 0..4 {
        press(&mut app, &mut g, Key::Right);
    }
    press(&mut app, &mut g, Key::Up);
    assert_eq!(app.items.inner_states[4].selected, Some(3));
    press(&mut app, &mut g, Key::Down);
    assert_eq!(app.items.inner_states[4].selected, Some(0));
}

#[test]
fn enter_with_nothing_selected_does_nothing() {
    let (mut app, mut g) = start();
    let (kind, cmds) = commands(press(&mut app, &mut g, Key::Enter));
    assert_eq!(kind, ActionKind::Nothing);
    assert!(cmds.is_empty());
    assert!(!app.command_running);
}

#[test]
fn enter_runs_the_selected_command() {
    let (mut app, mut g) = start();
    press(&mut app, &mut g, Key::Down);
    let (kind, cmds) = commands(press(&mut app, &mut g, Key::Enter));
    assert_eq!(kind, ActionKind::Run);
    assert_eq!(cmds, vec![("flutter", "pub get")]);
    press(&mut app, &mut g, Key::Down);
    let (_, cmds) = commands(press(&mut app, &mut g, Key::Enter));
    assert_eq!(cmds, vec![("flutter", "channel stable")]);
    press(&mut app, &mut g, Key::Down);
    let (_, cmds) = commands(press(&mut app, &mut g, Key::Enter));
    assert_eq!(cmds, vec![("flutter", "run")]);
}

#[test]
fn ios_commands_need_an_ios_project() {
    let (mut app, mut g) = start();
    for _ in 0..4 {
        press(&mut app, &mut g, Key::Right);
    }
    press(&mut app, &mut g, Key::Up);
    press(&mut app, &mut g, Key::Up);
    assert_eq!(app.items.inner_states[4].selected, Some(2));
    let (kind, cmds) = commands(press(&mut app, &mut g, Key::Enter));
    assert_eq!(kind, ActionKind::RunInIosProject);
    assert_eq!(cmds, vec![("cd", "ios"), ("flutter", "deintegrate")]);
}

fn run_of(tab: usize, row: usize) -> (ActionKind, Vec<(&'static str, &'static str)>) {
    let mut app = App::new();
    app.index = tab;
    app.items.inner_states[tab] = InnerListState { selected: Some(row) };
    let a = app.enter();
    (a.kind, a.commands)
}

#[test]
fn every_row_runs_the_command_it_names() {
    let run = ActionKind::Run;
    assert_eq!(run_of(0, 0), (run, vec![("flutter", "run")]));
    assert_eq!(run_of(0, 1), (run, vec![("flutter", "pub get")]));
    assert_eq!(run_of(0, 2), (run, vec![("flutter", "channel stable")]));
    assert_eq!(run_of(1, 0), (run, vec![("flutter", "clean")]));
    assert_eq!(run_of(1, 1), (run, vec![("flutter", "build")]));
    assert_eq!(run_of(1, 2), (run, vec![("flutter", "doctor")]));
    assert_eq!(run_of(2, 0), (run, vec![("flutter", "pub cache clean")]));
    assert_eq!(run_of(2, 1), (run, vec![("flutter", "cache repair")]));
    assert_eq!(run_of(2, 2), (run, vec![("rm", "~/flutter/.pub-cache")]));
    assert_eq!(run_of(3, 0), (run, vec![("flutter", "devices")]));
    assert_eq!(run_of(3, 1), (run, vec![("flutter", "logs")]));
    assert_eq!(run_of(3, 2), (run, vec![("flutter", "emulators")]));
    assert_eq!(run_of(4, 0), (run, vec![("flutter", "install")]));
    let (kind, cmds) = run_of(4, 1);
    assert_eq!(kind, ActionKind::RunInIosProject);
    assert_eq!(
        cmds,
        vec![("flutter", "clean && cd ios && rm Podfile Podfile.lock && rm -rf Pods/ && cd .. && flutter pub get")]
    );
    assert_eq!(run_of(4, 3), (ActionKind::RunInIosProject, vec![("cd", "ios"), ("flutter", "repo-update")]));
    assert_eq!(run_of(5, 0), (ActionKind::Exit, vec![]));
    assert_eq!(run_of(3, 3), (ActionKind::Nothing, vec![]));
    assert_eq!(run_of(4, 4), (ActionKind::RunInIosProject, vec![("cd", "ios"), ("flutter", "clean")]));
    assert_eq!(run_of(4, 5), (ActionKind::Nothing, vec![]));
}

#[test]
fn cache_row_cleans_the_cache() {
    let (mut app, mut g) = start();
    press(&mut app, &mut g, Key::Right);
    press(&mut app, &mut g, Key::Right);
    press(&mut app, &mut g, Key::Up);
    press(&mut app, &mut g, Key::Down);
    assert_eq!(app.items.inner_states[2].selected, Some(0));
    let (kind, cmds) = commands(press(&mut app, &mut g, Key::Enter));
    assert_eq!(kind, ActionKind::Run);
    assert_eq!(cmds, vec![("flutter", "pub cache clean")]);
}

#[test]
fn exit_tab_leaves_the_program() {
    let (mut app, mut g) = start();
    press(&mut app, &mut g, Key::Left);
    press(&mut app, &mut g, Key::Down);
    assert_eq!(app.items.inner_states[5].selected, Some(0));
    let (kind, cmds) = commands(press(&mut app, &mut g, Key::Enter));
    assert_eq!(kind, ActionKind::Exit);
    assert!(cmds.is_empty());
}

#[test]
fn q_quits_and_other_keys_change_nothing() {
    let (mut app, mut g) = start();
    press(&mut app, &mut g, Key::Down);
    assert!(matches!(press(&mut app, &mut g, Key::Char('q')), KeyOutcome::Quit));
    assert!(matches!(press(&mut app, &mut g, Key::Char('x')), KeyOutcome::Continue));
    assert!(matches!(press(&mut app, &mut g, Key::Other), KeyOutcome::Continue));
    assert_eq!(app.index, 0);
    assert_eq!(g.level, 1);
    assert_eq!(app.items.inner_states[0].selected, Some(1));
}

#[test]
fn inconsistent_states_are_detected() {
    let (mut app, mut g) = start();
    g.current_tab = 3;
    assert!(!check_well_formed(&app, &g));
    g.current_tab = 0;
    g.level = 3;
    assert!(!check_well_formed(&app, &g));
    g.level = 2;
    assert!(check_well_formed(&app, &g));
    app.items.inner_states[4] = InnerListState { selected: Some(4) };
    assert!(!check_well_formed(&app, &g));
}

#[test]
fn list_with_items_starts_unselected() {
    let items = vec![vec![("a".to_string(), 1), ("b".to_string(), 2)], vec![]];
    let list = StatefulList::with_items(items.clone());
    assert_eq!(list.items, items);
    assert_eq!(list.inner_states.len(), 2);
    assert!(list.inner_states.iter().all(|s| s.selected.is_none()));
    assert_eq!(list.state, None);
}

#[test]
fn item_moves_wrap_and_empty_list_selects_zero() {
    let items = vec![vec![("a".to_string(), 1), ("b".to_string(), 2)], vec![]];
    let mut list = StatefulList::with_items(items);
    let mut g = GlobalState::new();
    list.next_item(&g);
    assert_eq!(list.inner_states[0].selected, Some(1));
    list.next_item(&g);
    assert_eq!(list.inner_states[0].selected, Some(0));
    list.previous_item(&g);
    assert_eq!(list.inner_states[0].selected, Some(1));
    g.current_tab = 1;
    list.previous_item(&g);
    assert_eq!(list.inner_states[1].selected, Some(0));
}

#[test]
fn unselect_clears_every_selection() {
    let (mut app, mut g) = start();
    press(&mut app, &mut g, Key::Down);
    press(&mut app, &mut g, Key::Right);
    press(&mut app, &mut g, Key::Up);
    app.items.state = Some(2);
    app.items.unselect();
    assert_eq!(app.items.state, None);
    assert!(app.items.inner_states.iter().all(|s| s.selected.is_none()));
}

#[test]
fn app_next_previous_direct() {
    let mut app = App::new();
    app.previous();
    assert_eq!(app.index, 5);
    app.next();
    assert_eq!(app.index, 0);
    app.next();
    assert_eq!(app.index, 1);
}

#[test]
fn enter_direct_clears_running_flag() {
    let mut app = App::new();
    app.command_running = true;
    app.items.inner_states[3] = InnerListState { selected: Some(1) };
    app.index = 3;
    let a = app.enter();
    assert_eq!(a.kind, ActionKind::Run);
    assert_eq!(a.commands, vec![("flutter", "logs")]);
    assert!(!app.command_running);
}

#[test]
fn inner_list_state_default_is_unselected() {
    assert_eq!(InnerListState::default().selected, None);
}

#[test]
fn keys_are_handled_outside_consistent_states() {
    let (mut app, mut g) = start();
    g.current_tab = 2;
    assert!(!check_well_formed(&app, &g));
    assert!(check_key_allowed(&app, &g, Key::Right));
    handle_key(&mut app, &mut g, Key::Right);
    assert_eq!((app.index, g.current_tab), (1, 3));
    handle_key(&mut app, &mut g, Key::Up);
    assert_eq!(app.items.inner_states[3].selected, Some(2));
    assert_eq!(app.items.inner_states[1].selected, None);
    g.level = 9;
    assert!(!check_key_allowed(&app, &g, Key::Down));
    assert!(check_key_allowed(&app, &g, Key::Up));
    handle_key(&mut app, &mut g, Key::Up);
    assert_eq!(g.level, 8);
    g.current_tab = 6;
    assert!(!check_key_allowed(&app, &g, Key::Up));
    assert!(check_key_allowed(&app, &g, Key::Enter));
}
