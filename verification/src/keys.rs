use vstd::prelude::*;
use crate::state::{GlobalState, InnerListState};
use crate::list::{next_selection, previous_selection};
use crate::list::items_view;
use crate::app::{App, EnterAction, next_tab, previous_tab, planned_kind, planned_commands, default_titles, default_items};

verus! {

/// A key press, as far as the navigation cares.
#[derive(Clone, Copy, Debug, PartialEq, Eq, Structural)]
pub enum Key {
    Char(char),
    Right,
    Left,
    Enter,
    Down,
    Up,
    Other,
}

/// What the front end does after a key press.
pub enum KeyOutcome {
    /// Redraw and wait for the next key.
    Continue,
    /// Leave the event loop.
    Quit,
    /// Clear the output, perform the action, then go on.
    Act(EnterAction),
}

/// The row level after moving down: one further, unless the level already
/// equals the last row index of the list that the level itself indexes.
pub open spec fn level_down(items: Seq<Vec<(String, i32)>>, level: int) -> int {
    let end = items[level]@.len() - 1;
    if level == end {
        end
    } else {
        level + 1
    }
}

/// The row level after moving up: one less, but never below zero.
pub open spec fn level_up(level: int) -> int {
    if level <= 0 {
        0
    } else {
        level - 1
    }
}

/// Some list at or after `level` has exactly `index + 1` entries, so that
/// moving down comes to rest there.
pub open spec fn level_has_stop(items: Seq<Vec<(String, i32)>>, level: int) -> bool {
    exists|s: int| level <= s < items.len() && #[trigger] items[s]@.len() == s + 1
}

/// The screen state is consistent: one list and one selection per tab,
/// the shown tab is the tab the cursor is on, every list has an entry,
/// every selection points into its list, and moving down cannot run off
/// the lists.
pub open spec fn well_formed(app: App, g: GlobalState) -> bool {
    let n = app.titles@.len();
    &&& n > 0
    &&& app.items.items@.len() == n
    &&& app.items.inner_states@.len() == n
    &&& app.index < n
    &&& g.current_tab == app.index
    &&& forall|i: int| 0 <= i < n ==> (#[trigger] app.items.items@[i])@.len() > 0
    &&& forall|i: int|
        0 <= i < n ==> ((#[trigger] app.items.inner_states@[i]).selected matches Some(k) ==> k
            < app.items.items@[i]@.len())
    &&& level_has_stop(app.items.items@, g.level as int)
}

/// The tab shown after `key`.
pub open spec fn tab_after(key: Key, index: int, n: int) -> int {
    match key {
        Key::Right => next_tab(index, n),
        Key::Left => previous_tab(index, n),
        _ => index,
    }
}

/// The row level after `key`.
pub open spec fn level_after(key: Key, items: Seq<Vec<(String, i32)>>, level: int) -> int {
    match key {
        Key::Down => level_down(items, level),
        Key::Up => level_up(level),
        _ => level,
    }
}

/// The per-tab selections after `key`, with tab `tab` shown.
pub open spec fn selections_after(
    key: Key,
    inner: Seq<InnerListState>,
    items: Seq<Vec<(String, i32)>>,
    tab: int,
) -> Seq<InnerListState> {
    match key {
        Key::Down => inner.update(
            tab,
            InnerListState { selected: next_selection(inner[tab].selected, items[tab]@.len()) },
        ),
        Key::Up => inner.update(
            tab,
            InnerListState { selected: previous_selection(inner[tab].selected, items[tab]@.len()) },
        ),
        _ => inner,
    }
}

/// `key` is the quit key.
pub open spec fn is_quit(key: Key) -> bool {
    key matches Key::Char(c) && c == 'q'
}

/// The key can be handled without running past a list or a number range:
/// the arrows need tabs to wrap round, Enter needs a selection for the shown
/// tab, and the up and down arrows need the cursor tab's list (and, for
/// down, the list that the row level indexes) to exist.
pub open spec fn key_allowed(app: App, g: GlobalState, key: Key) -> bool {
    let n = app.titles@.len();
    let tab = g.current_tab as int;
    match key {
        Key::Right => n > 0 && g.current_tab < usize::MAX && app.index < usize::MAX,
        Key::Left => (g.current_tab == 0 ==> n > 0) && (app.index == 0 ==> n > 0),
        Key::Enter => app.index < app.items.inner_states@.len(),
        Key::Down => {
            &&& g.level < app.items.items@.len()
            &&& app.items.items@[g.level as int]@.len() > 0
            &&& tab < app.items.items@.len()
            &&& tab < app.items.inner_states@.len()
            &&& app.items.items@[tab]@.len() > 0
            &&& app.items.inner_states@[tab].selected matches Some(k) ==> k < usize::MAX
        },
        Key::Up => tab < app.items.items@.len() && tab < app.items.inner_states@.len(),
        _ => true,
    }
}

/// Handles one key press: `q` quits, the left and right arrows switch
/// tabs, the up and down arrows move the row level and the selection in the
/// cursor tab's list, Enter decides what the selected row of the shown tab
/// runs, and every other key changes nothing. A consistent screen state
/// stays consistent.
pub fn handle_key(app: &mut App, global: &mut GlobalState, key: Key) -> (outcome: KeyOutcome)
    requires
        key_allowed(*old(app), *old(global), key),
    ensures
        well_formed(*old(app), *old(global)) ==> well_formed(*final(app), *final(global)),
        old(global).current_tab == old(app).index ==> final(global).current_tab == final(app).index,
        final(app).index == tab_after(key, old(app).index as int, old(app).titles@.len() as int),
        final(global).current_tab == tab_after(
            key,
            old(global).current_tab as int,
            old(app).titles@.len() as int,
        ),
        final(global).level == level_after(key, old(app).items.items@, old(global).level as int),
        final(app).items.inner_states@ == selections_after(
            key,
            old(app).items.inner_states@,
            old(app).items.items@,
            old(global).current_tab as int,
        ),
        final(app).titles == old(app).titles,
        final(app).items.items == old(app).items.items,
        final(app).items.state == old(app).items.state,
        final(app).items.level == old(app).items.level,
        final(app).items.inner_index == old(app).items.inner_index,
        final(app).clear_output == old(app).clear_output,
        final(app).command_running == (if key is Enter {
            false
        } else {
            old(app).command_running
        }),
        is_quit(key) <==> outcome is Quit,
        key is Enter <==> outcome is Act,
        outcome matches KeyOutcome::Act(action) ==> {
            let sel = old(app).items.inner_states@[old(app).index as int].selected;
            &&& action.kind == planned_kind(old(app).index, sel)
            &&& action.commands@ == planned_commands(old(app).index, sel)
        },
{
    match key {
        Key::Char(c) => {
            if c == 'q' {
                KeyOutcome::Quit
            } else {
                KeyOutcome::Continue
            }
        },
        Key::Right => {
            let n = app.titles.len();
            global.current_tab = (global.current_tab + 1) % n;
            app.next();
            KeyOutcome::Continue
        },
        Key::Left => {
            global.current_tab = if global.current_tab == 0 {
                app.titles.len() - 1
            } else {
                global.current_tab - 1
            };
            app.previous();
            KeyOutcome::Continue
        },
        Key::Enter => KeyOutcome::Act(app.enter()),
        Key::Down => {
            let level = global.level;
            let lists = app.items.items.len();
            assert(level < lists);
            let end = app.items.items[level].len() - 1;
            if level == end {
                global.level = end;
            } else {
                global.level = global.level + 1;
            }
            proof {
                if well_formed(*old(app), *old(global)) {
                    let s = choose|s: int|
                        old(global).level <= s < app.items.items@.len()
                            && #[trigger] app.items.items@[s]@.len() == s + 1;
                    assert(app.items.items@[s]@.len() == s + 1);
                }
            }
            app.items.next_item(global);
            KeyOutcome::Continue
        },
        Key::Up => {
            let new_level = if global.level <= 0 {
                0
            } else {
                global.level - 1
            };
            global.level = new_level;
            app.items.previous_item(global);
            proof {
                if well_formed(*old(app), *old(global)) {
                    let s = choose|s: int|
                        old(global).level <= s < app.items.items@.len()
                            && #[trigger] app.items.items@[s]@.len() == s + 1;
                    assert(app.items.items@[s]@.len() == s + 1);
                }
            }
            KeyOutcome::Continue
        },
        Key::Other => KeyOutcome::Continue,
    }
}

/// Tests whether `key` can be handled in this state (see `key_allowed`).
pub fn check_key_allowed(app: &App, g: &GlobalState, key: Key) -> (b: bool)
    ensures
        b == key_allowed(*app, *g, key),
{
    let n = app.titles.len();
    match key {
        Key::Right => n > 0 && g.current_tab < usize::MAX && app.index < usize::MAX,
        Key::Left => (g.current_tab != 0 || n > 0) && (app.index != 0 || n > 0),
        Key::Enter => app.index < app.items.inner_states.len(),
        Key::Down => {
            let tab = g.current_tab;
            if g.level >= app.items.items.len() || app.items.items[g.level].len() == 0 {
                return false;
            }
            if tab >= app.items.items.len() || tab >= app.items.inner_states.len()
                || app.items.items[tab].len() == 0 {
                return false;
            }
            match app.items.inner_states[tab].selected {
                Some(k) => k < usize::MAX,
                None => true,
            }
        },
        Key::Up => g.current_tab < app.items.items.len() && g.current_tab < app.items.inner_states.len(),
        _ => true,
    }
}

/// A consistent screen state can handle every key.
pub proof fn lemma_well_formed_allows_every_key(app: App, g: GlobalState, key: Key)
    requires
        well_formed(app, g),
        app.titles@.len() <= usize::MAX,
        app.items.items@[g.current_tab as int]@.len() <= usize::MAX,
    ensures
        key_allowed(app, g, key),
{
    let s = choose|s: int|
        g.level <= s < app.items.items@.len() && #[trigger] app.items.items@[s]@.len() == s + 1;
    assert(app.items.items@[s]@.len() == s + 1);
    assert(app.items.items@[g.level as int]@.len() > 0);
    assert(app.items.items@[g.current_tab as int]@.len() > 0);
    assert(app.items.inner_states@[g.current_tab as int].selected matches Some(k) ==> k
        < app.items.items@[g.current_tab as int]@.len());
}

/// Tests whether the screen state is consistent (see `well_formed`).
pub fn check_well_formed(app: &App, g: &GlobalState) -> (b: bool)
    ensures
        b == well_formed(*app, *g),
{
    let n = app.titles.len();
    if n == 0 || app.items.items.len() != n || app.items.inner_states.len() != n || app.index >= n
        || g.current_tab != app.index {
        return false;
    }
    let mut i: usize = 0;
    while i < n
        invariant
            i <= n,
            n == app.titles@.len(),
            app.items.items@.len() == n,
            app.items.inner_states@.len() == n,
            forall|j: int| 0 <= j < i ==> (#[trigger] app.items.items@[j])@.len() > 0,
            forall|j: int|
                0 <= j < i ==> ((#[trigger] app.items.inner_states@[j]).selected matches Some(k) ==> k
                    < app.items.items@[j]@.len()),
        decreases n - i,
    {
        let len = app.items.items[i].len();
        if len == 0 {
            return false;
        }
        match app.items.inner_states[i].selected {
            Some(k) => {
                if k >= len {
                    return false;
                }
            },
            None => {},
        }
        i = i + 1;
    }
    let mut s: usize = g.level;
    while s < n
        invariant
            g.level <= s,
            n == app.items.items@.len(),
            n == app.titles@.len(),
            n > 0,
            app.items.inner_states@.len() == n,
            app.index < n,
            g.current_tab == app.index,
            forall|j: int| 0 <= j < n ==> (#[trigger] app.items.items@[j])@.len() > 0,
            forall|j: int|
                0 <= j < n ==> ((#[trigger] app.items.inner_states@[j]).selected matches Some(k) ==> k
                    < app.items.items@[j]@.len()),
            forall|t: int| g.level <= t < s ==> (#[trigger] app.items.items@[t])@.len() != t + 1,
        decreases n - s,
    {
        if app.items.items[s].len() == s + 1 {
            assert(app.items.items@[s as int]@.len() == s + 1);
            return true;
        }
        s = s + 1;
    }
    assert(!level_has_stop(app.items.items@, g.level as int)) by {
        if level_has_stop(app.items.items@, g.level as int) {
            let t = choose|t: int|
                g.level <= t < app.items.items@.len() && #[trigger] app.items.items@[t]@.len() == t + 1;
            assert(app.items.items@[t]@.len() != t + 1);
        }
    }
    false
}

/// The start-up screen (`App::new` with `GlobalState::new`) is consistent.
pub proof fn lemma_start_state_well_formed(app: App, g: GlobalState)
    requires
        app.titles@ == default_titles(),
        app.index == 0,
        items_view(app.items.items@) == default_items(),
        app.items.inner_states@.len() == 6,
        forall|i: int| 0 <= i < 6 ==> (#[trigger] app.items.inner_states@[i]).selected is None,
        g.level == 0,
        g.current_tab == 0,
    ensures
        well_formed(app, g),
{
    let items = app.items.items@;
    assert(items.len() == 6) by {
        assert(items_view(items).len() == items.len());
    }
    assert forall|i: int| 0 <= i < 6 implies (#[trigger] items[i])@.len() == default_items()[i].len() by {
        assert(items_view(items)[i] == items[i]@.map_values(|e: (String, i32)| crate::list::entry_view(e)));
    }
    assert(items[2]@.len() == 3);
    assert(level_has_stop(items, 0));
}

} // verus!
