//! Properties of the navigation that span several operations.

use vstd::prelude::*;
use crate::state::InnerListState;
use crate::list::{next_selection, previous_selection, items_view};
use crate::app::{next_tab, previous_tab, planned_kind, planned_commands, default_items, ActionKind, ShellCommand};
use crate::keys::{Key, tab_after, selections_after, level_has_stop};
use crate::screen::highlighted;
use crate::vote::{voters, count_of};

verus! {

/// The tab reached from `index` after `m` presses of the right arrow.
pub open spec fn next_tab_times(index: int, n: int, m: nat) -> int
    decreases m,
{
    if m == 0 {
        index
    } else {
        next_tab(next_tab_times(index, n, (m - 1) as nat), n)
    }
}

/// Switching tabs stays among the tabs, and the left arrow undoes the right
/// arrow and the other way round.
pub proof fn lemma_tab_round_trip(index: int, n: int)
    requires
        0 <= index < n,
    ensures
        0 <= next_tab(index, n) < n,
        0 <= previous_tab(index, n) < n,
        previous_tab(next_tab(index, n), n) == index,
        next_tab(previous_tab(index, n), n) == index,
        tab_after(Key::Left, tab_after(Key::Right, index, n), n) == index,
        tab_after(Key::Right, tab_after(Key::Left, index, n), n) == index,
{
    if index + 1 < n {
        vstd::arithmetic::div_mod::lemma_small_mod((index + 1) as nat, n as nat);
    } else {
        vstd::arithmetic::div_mod::lemma_mod_self_0(n);
    }
    if index == 0 {
        vstd::arithmetic::div_mod::lemma_mod_self_0(n);
    } else {
        vstd::arithmetic::div_mod::lemma_small_mod(index as nat, n as nat);
    }
}

/// Pressing the right arrow `m` times moves `m` tabs to the right, wrapping
/// round.
pub proof fn lemma_next_tab_times(index: int, n: int, m: nat)
    requires
        0 <= index < n,
    ensures
        next_tab_times(index, n, m) == (index + m) % n,
    decreases m,
{
    if m == 0 {
        vstd::arithmetic::div_mod::lemma_small_mod(index as nat, n as nat);
    } else {
        lemma_next_tab_times(index, n, (m - 1) as nat);
        vstd::arithmetic::div_mod::lemma_add_mod_noop(index + m - 1, 1, n);
        if n == 1 {
            assert(1int % n == 0);
            assert((index + m) % n == 0);
        } else {
            vstd::arithmetic::div_mod::lemma_small_mod(1, n as nat);
        }
    }
}

/// Pressing the right arrow once per tab comes back to the tab one started on.
pub proof fn lemma_tabs_cycle(index: int, n: int)
    requires
        0 <= index < n,
    ensures
        next_tab_times(index, n, n as nat) == index,
{
    lemma_next_tab_times(index, n, n as nat);
    vstd::arithmetic::div_mod::lemma_mod_multiples_vanish(1, index, n);
    vstd::arithmetic::div_mod::lemma_small_mod(index as nat, n as nat);
}

/// In a list with entries, moving the selection always selects an entry of
/// the list.
pub proof fn lemma_selection_stays_in_list(sel: Option<usize>, len: nat)
    requires
        len > 0,
        len <= usize::MAX,
        sel matches Some(k) ==> k < len,
    ensures
        next_selection(sel, len) matches Some(j) && j < len,
        previous_selection(sel, len) matches Some(j) && j < len,
{
}

/// Once an entry is selected, moving up undoes moving down and moving down
/// undoes moving up.
pub proof fn lemma_selection_round_trip(k: usize, len: nat)
    requires
        k < len <= usize::MAX,
    ensures
        previous_selection(next_selection(Some(k), len), len) == Some(k),
        next_selection(previous_selection(Some(k), len), len) == Some(k),
{
    if k + 1 < len {
        vstd::arithmetic::div_mod::lemma_small_mod((k + 1) as nat, len);
    } else {
        vstd::arithmetic::div_mod::lemma_mod_self_0(len as int);
    }
    if k == 0 {
        vstd::arithmetic::div_mod::lemma_mod_self_0(len as int);
    } else {
        vstd::arithmetic::div_mod::lemma_small_mod(k as nat, len);
    }
}

/// On the shown tab's list, the up arrow undoes the down arrow once an entry
/// is selected there.
pub proof fn lemma_up_undoes_down(
    inner: Seq<InnerListState>,
    items: Seq<Vec<(String, i32)>>,
    tab: int,
)
    requires
        0 <= tab < inner.len(),
        tab < items.len(),
        items[tab]@.len() <= usize::MAX,
        inner[tab].selected matches Some(k) && k < items[tab]@.len(),
    ensures
        selections_after(Key::Up, selections_after(Key::Down, inner, items, tab), items, tab) == inner,
        selections_after(Key::Down, selections_after(Key::Up, inner, items, tab), items, tab) == inner,
{
    lemma_selection_round_trip(inner[tab].selected->0, items[tab]@.len());
    assert(selections_after(Key::Up, selections_after(Key::Down, inner, items, tab), items, tab) =~= inner);
    assert(selections_after(Key::Down, selections_after(Key::Up, inner, items, tab), items, tab) =~= inner);
}

/// With the start-up command lists, moving down comes to rest on level 2:
/// the row level is always 0, 1 or 2.
pub proof fn lemma_start_lists_levels(items: Seq<Vec<(String, i32)>>, level: int)
    requires
        items_view(items) == default_items(),
        0 <= level,
    ensures
        level_has_stop(items, level) <==> level <= 2,
{
    assert(items.len() == 6) by {
        assert(items_view(items).len() == items.len());
    }
    assert forall|i: int| 0 <= i < 6 implies (#[trigger] items[i])@.len() == default_items()[i].len() by {
        assert(items_view(items)[i] == items[i]@.map_values(|e: (String, i32)| crate::list::entry_view(e)));
    }
    if level <= 2 {
        assert(items[2]@.len() == 3);
    }
    if level_has_stop(items, level) {
        let s = choose|s: int| level <= s < items.len() && #[trigger] items[s]@.len() == s + 1;
        assert(items[s]@.len() == default_items()[s].len());
    }
}

/// Enter leaves the program exactly on the first row of the last tab, and it
/// names commands exactly when it runs some.
pub proof fn lemma_enter_plan_consistent(tab: usize, sel: Option<usize>)
    ensures
        planned_kind(tab, sel) == ActionKind::Exit <==> (tab == 5 && sel == Some(0usize)),
        planned_commands(tab, sel).len() > 0 <==> (planned_kind(tab, sel) == ActionKind::Run
            || planned_kind(tab, sel) == ActionKind::RunInIosProject),
{
}

/// The selection reached from `sel` after `m` presses of the down arrow in a
/// list of `len` entries.
pub open spec fn next_selection_times(sel: Option<usize>, len: nat, m: nat) -> Option<usize>
    decreases m,
{
    if m == 0 {
        sel
    } else {
        next_selection(next_selection_times(sel, len, (m - 1) as nat), len)
    }
}

/// From a selected entry, pressing the down arrow `m` times moves `m` rows
/// down, wrapping round.
pub proof fn lemma_next_selection_times(k: usize, len: nat, m: nat)
    requires
        k < len <= usize::MAX,
    ensures
        next_selection_times(Some(k), len, m) == Some(((k + m) % (len as int)) as usize),
    decreases m,
{
    if m == 0 {
        vstd::arithmetic::div_mod::lemma_small_mod(k as nat, len);
    } else {
        lemma_next_selection_times(k, len, (m - 1) as nat);
        let prev = (k + m - 1) % (len as int);
        vstd::arithmetic::div_mod::lemma_mod_bound(k + m - 1, len as int);
        assert(0 <= prev < len);
        vstd::arithmetic::div_mod::lemma_add_mod_noop(k + m - 1, 1, len as int);
        if len == 1 {
            assert(1int % (len as int) == 0);
            assert((k + m) % (len as int) == 0);
        } else {
            vstd::arithmetic::div_mod::lemma_small_mod(1, len);
        }
    }
}

/// Pressing the down arrow once per entry comes back to the entry one
/// started on.
pub proof fn lemma_selection_cycle(k: usize, len: nat)
    requires
        k < len <= usize::MAX,
    ensures
        next_selection_times(Some(k), len, len) == Some(k),
{
    lemma_next_selection_times(k, len, len);
    vstd::arithmetic::div_mod::lemma_mod_multiples_vanish(1, k as int, len as int);
    vstd::arithmetic::div_mod::lemma_small_mod(k as nat, len);
}

/// On the start-up lists, every listed row runs a command or leaves the
/// program; past the end of its list a row does nothing, but for the fifth
/// row of the miscellaneous tab, which cleans inside `ios`.
pub proof fn lemma_every_listed_row_acts(tab: usize, row: usize)
    requires
        tab < 6,
    ensures
        row < default_items()[tab as int].len() ==> planned_kind(tab, Some(row)) != ActionKind::Nothing,
        row >= default_items()[tab as int].len() && !(tab == 4 && row == 4) ==> planned_kind(
            tab,
            Some(row),
        ) == ActionKind::Nothing,
        planned_kind(4, Some(4usize)) == ActionKind::RunInIosProject,
{
}

/// A row is highlighted exactly when it is the selected row; with nothing
/// selected no row is.
pub proof fn lemma_highlight_only_selected(sel: Option<usize>, row: int)
    requires
        0 <= row <= usize::MAX,
    ensures
        highlighted(sel, row) <==> sel == Some(row as usize),
        !highlighted(None, row),
{
}

/// The down arrow moves a selected row one further, wrapping after the
/// last row; with nothing selected it acts as from the first row and so
/// takes the second (the first in a one-row list). The up arrow with
/// nothing selected takes the last row.
pub proof fn lemma_moves_from_any_selection(k: usize, len: nat)
    requires
        0 < len <= usize::MAX,
    ensures
        next_selection(Some(k), len) == Some(((k + 1) % (len as int)) as usize),
        next_selection(None, len) == next_selection(Some(0usize), len),
        next_selection(None, len) == Some((1int % (len as int)) as usize),
        previous_selection(None, len) == Some((len - 1) as usize),
        k > 0 ==> previous_selection(Some(k), len) == Some((k - 1) as usize),
{
}

/// Exactly the `k` nearest neighbours vote (all of them when there are
/// fewer), each with its own label, nearest first.
pub proof fn lemma_voters_are_the_nearest(k: usize, ranked: Seq<String>)
    ensures
        voters(k, ranked).len() == (if k < ranked.len() {
            k as int
        } else {
            ranked.len() as int
        }),
        forall|i: int| 0 <= i < voters(k, ranked).len() ==> #[trigger] voters(k, ranked)[i] == ranked[i]@,
{
}

/// A label is counted at most once per entry, and counted at all exactly
/// when it occurs.
pub proof fn lemma_count_of_bounds(s: Seq<Seq<char>>, x: Seq<char>)
    ensures
        count_of(s, x) <= s.len(),
        count_of(s, x) > 0 <==> s.contains(x),
        s.len() > 0 ==> count_of(s, x) == count_of(s.drop_last(), x) + (if s.last() == x {
            1int
        } else {
            0int
        }),
    decreases s.len(),
{
    if s.len() > 0 {
        lemma_count_of_bounds(s.drop_last(), x);
        if s.drop_last().contains(x) {
            let i = choose|i: int| 0 <= i < s.drop_last().len() && s.drop_last()[i] == x;
            assert(s[i] == x);
        }
        if s.contains(x) && s.last() != x {
            let i = choose|i: int| 0 <= i < s.len() && s[i] == x;
            assert(s.drop_last()[i] == x);
        }
    }
}

/// `w` stands in `s` from position `i` on.
pub open spec fn occurs_at(s: Seq<char>, w: Seq<char>, i: int) -> bool {
    0 <= i && i + w.len() <= s.len() && s.subrange(i, i + w.len()) == w
}

/// `w` is a whole word of `s` (between spaces or the ends) from position `i`.
pub open spec fn word_at(s: Seq<char>, w: Seq<char>, i: int) -> bool {
    &&& occurs_at(s, w, i)
    &&& (i == 0 || s[i - 1] == ' ')
    &&& (i + w.len() == s.len() || s[i + w.len()] == ' ')
}

/// A row's label names one of its commands: it reads `flutter ` and then
/// words, one of which stands in the argument of one of the commands.
pub open spec fn label_names_command(label: Seq<char>, cmds: Seq<ShellCommand>) -> bool {
    &&& label.take(8) == "flutter "@
    &&& exists|w: Seq<char>, i: int, c: int, j: int|
        #![trigger word_at(label.skip(8), w, i), occurs_at(cmds[c].1@, w, j)]
        w.len() > 0 && word_at(label.skip(8), w, i) && 0 <= c < cmds.len() && occurs_at(cmds[c].1@, w, j)
}

proof fn lemma_names_by(label: Seq<char>, cmds: Seq<ShellCommand>, c: int, i: int, n: int, j: int)
    requires
        label.take(8) == "flutter "@,
        n > 0,
        0 <= i,
        i + n <= label.skip(8).len(),
        0 <= c < cmds.len(),
        word_at(label.skip(8), label.skip(8).subrange(i, i + n), i),
        occurs_at(cmds[c].1@, label.skip(8).subrange(i, i + n), j),
    ensures
        label_names_command(label, cmds),
{
    let w = label.skip(8).subrange(i, i + n);
    assert(w.len() > 0 && word_at(label.skip(8), w, i) && 0 <= c < cmds.len() && occurs_at(cmds[c].1@, w, j));
}

/// On tab 0 of the start-up lists, every row's label names one of the
/// commands Enter runs for it.
pub proof fn lemma_tab0_labels_name_commands(row: usize)
    requires
        row < default_items()[0].len(),
    ensures
        label_names_command(default_items()[0][row as int].0, planned_commands(0usize, Some(row))),
{
    reveal_strlit("flutter ");
    if row == 0 {
        reveal_strlit("flutter run");
        reveal_strlit("run");
        let label = "flutter run"@;
        assert(label.take(8) =~= "flutter "@);
        assert(label.skip(8).subrange(0, 3) =~= "run"@.subrange(0, 3));
        lemma_names_by(label, planned_commands(0usize, Some(row)), 0, 0, 3, 0);
    }
    if row == 1 {
        reveal_strlit("flutter pub get");
        reveal_strlit("pub get");
        let label = "flutter pub get"@;
        assert(label.take(8) =~= "flutter "@);
        assert(label.skip(8).subrange(0, 3) =~= "pub get"@.subrange(0, 3));
        lemma_names_by(label, planned_commands(0usize, Some(row)), 0, 0, 3, 0);
    }
    if row == 2 {
        reveal_strlit("flutter channel");
        reveal_strlit("channel stable");
        let label = "flutter channel"@;
        assert(label.take(8) =~= "flutter "@);
        assert(label.skip(8).subrange(0, 7) =~= "channel stable"@.subrange(0, 7));
        lemma_names_by(label, planned_commands(0usize, Some(row)), 0, 0, 7, 0);
    }
}

/// On tab 1 of the start-up lists, every row's label names one of the
/// commands Enter runs for it.
pub proof fn lemma_tab1_labels_name_commands(row: usize)
    requires
        row < default_items()[1].len(),
    ensures
        label_names_command(default_items()[1][row as int].0, planned_commands(1usize, Some(row))),
{
    reveal_strlit("flutter ");
    if row == 0 {
        reveal_strlit("flutter clean");
        reveal_strlit("clean");
        let label = "flutter clean"@;
        assert(label.take(8) =~= "flutter "@);
        assert(label.skip(8).subrange(0, 5) =~= "clean"@.subrange(0, 5));
        lemma_names_by(label, planned_commands(1usize, Some(row)), 0, 0, 5, 0);
    }
    if row == 1 {
        reveal_strlit("flutter build");
        reveal_strlit("build");
        let label = "flutter build"@;
        assert(label.take(8) =~= "flutter "@);
        assert(label.skip(8).subrange(0, 5) =~= "build"@.subrange(0, 5));
        lemma_names_by(label, planned_commands(1usize, Some(row)), 0, 0, 5, 0);
    }
    if row == 2 {
        reveal_strlit("flutter doctor");
        reveal_strlit("doctor");
        let label = "flutter doctor"@;
        assert(label.take(8) =~= "flutter "@);
        assert(label.skip(8).subrange(0, 6) =~= "doctor"@.subrange(0, 6));
        lemma_names_by(label, planned_commands(1usize, Some(row)), 0, 0, 6, 0);
    }
}

/// On tab 2 of the start-up lists, every row's label names one of the
/// commands Enter runs for it.
pub proof fn lemma_tab2_labels_name_commands(row: usize)
    requires
        row < default_items()[2].len(),
    ensures
        label_names_command(default_items()[2][row as int].0, planned_commands(2usize, Some(row))),
{
    reveal_strlit("flutter ");
    if row == 0 {
        reveal_strlit("flutter clean cache");
        reveal_strlit("pub cache clean");
        let label = "flutter clean cache"@;
        assert(label.take(8) =~= "flutter "@);
        assert(label.skip(8).subrange(6, 11) =~= "pub cache clean"@.subrange(4, 9));
        lemma_names_by(label, planned_commands(2usize, Some(row)), 0, 6, 5, 4);
    }
    if row == 1 {
        reveal_strlit("flutter repair");
        reveal_strlit("cache repair");
        let label = "flutter repair"@;
        assert(label.take(8) =~= "flutter "@);
        assert(label.skip(8).subrange(0, 6) =~= "cache repair"@.subrange(6, 12));
        lemma_names_by(label, planned_commands(2usize, Some(row)), 0, 0, 6, 6);
    }
    if row == 2 {
        reveal_strlit("flutter remove cache");
        reveal_strlit("~/flutter/.pub-cache");
        let label = "flutter remove cache"@;
        assert(label.take(8) =~= "flutter "@);
        assert(label.skip(8).subrange(7, 12) =~= "~/flutter/.pub-cache"@.subrange(15, 20));
        lemma_names_by(label, planned_commands(2usize, Some(row)), 0, 7, 5, 15);
    }
}

/// On tab 3 of the start-up lists, every row's label names one of the
/// commands Enter runs for it.
pub proof fn lemma_tab3_labels_name_commands(row: usize)
    requires
        row < default_items()[3].len(),
    ensures
        label_names_command(default_items()[3][row as int].0, planned_commands(3usize, Some(row))),
{
    reveal_strlit("flutter ");
    if row == 0 {
        reveal_strlit("flutter devices");
        reveal_strlit("devices");
        let label = "flutter devices"@;
        assert(label.take(8) =~= "flutter "@);
        assert(label.skip(8).subrange(0, 7) =~= "devices"@.subrange(0, 7));
        lemma_names_by(label, planned_commands(3usize, Some(row)), 0, 0, 7, 0);
    }
    if row == 1 {
        reveal_strlit("flutter logs");
        reveal_strlit("logs");
        let label = "flutter logs"@;
        assert(label.take(8) =~= "flutter "@);
        assert(label.skip(8).subrange(0, 4) =~= "logs"@.subrange(0, 4));
        lemma_names_by(label, planned_commands(3usize, Some(row)), 0, 0, 4, 0);
    }
    if row == 2 {
        reveal_strlit("flutter emulators");
        reveal_strlit("emulators");
        let label = "flutter emulators"@;
        assert(label.take(8) =~= "flutter "@);
        assert(label.skip(8).subrange(0, 9) =~= "emulators"@.subrange(0, 9));
        lemma_names_by(label, planned_commands(3usize, Some(row)), 0, 0, 9, 0);
    }
}

/// On tab 4 of the start-up lists, every row's label names one of the
/// commands Enter runs for it.
pub proof fn lemma_tab4_labels_name_commands(row: usize)
    requires
        row < default_items()[4].len(),
    ensures
        label_names_command(default_items()[4][row as int].0, planned_commands(4usize, Some(row))),
{
    reveal_strlit("flutter ");
    if row == 0 {
        reveal_strlit("flutter install");
        reveal_strlit("install");
        let label = "flutter install"@;
        assert(label.take(8) =~= "flutter "@);
        assert(label.skip(8).subrange(0, 7) =~= "install"@.subrange(0, 7));
        lemma_names_by(label, planned_commands(4usize, Some(row)), 0, 0, 7, 0);
    }
    if row == 1 {
        reveal_strlit("flutter pod clean up");
        reveal_strlit("clean && cd ios && rm Podfile Podfile.lock && rm -rf Pods/ && cd .. && flutter pub get");
        let label = "flutter pod clean up"@;
        assert(label.take(8) =~= "flutter "@);
        assert(label.skip(8).subrange(4, 9) =~= "clean && cd ios && rm Podfile Podfile.lock && rm -rf Pods/ && cd .. && flutter pub get"@.subrange(0, 5));
        lemma_names_by(label, planned_commands(4usize, Some(row)), 0, 4, 5, 0);
    }
    if row == 2 {
        reveal_strlit("flutter deintegrate");
        reveal_strlit("deintegrate");
        let label = "flutter deintegrate"@;
        assert(label.take(8) =~= "flutter "@);
        assert(label.skip(8).subrange(0, 11) =~= "deintegrate"@.subrange(0, 11));
        lemma_names_by(label, planned_commands(4usize, Some(row)), 1, 0, 11, 0);
    }
    if row == 3 {
        reveal_strlit("flutter repo update");
        reveal_strlit("repo-update");
        let label = "flutter repo update"@;
        assert(label.take(8) =~= "flutter "@);
        assert(label.skip(8).subrange(0, 4) =~= "repo-update"@.subrange(0, 4));
        lemma_names_by(label, planned_commands(4usize, Some(row)), 1, 0, 4, 0);
    }
}
/// On the start-up lists, every listed row of the first five tabs reads
/// `flutter` and words, one of which stands in the argument of a command
/// that Enter runs for that row.
pub proof fn lemma_labels_name_commands(items: Seq<Vec<(String, i32)>>, tab: usize, row: usize)
    requires
        items_view(items) == default_items(),
        tab < 5,
        row < default_items()[tab as int].len(),
    ensures
        label_names_command(items[tab as int]@[row as int].0@, planned_commands(tab, Some(row))),
{
    assert(items.len() == 6) by {
        assert(items_view(items).len() == items.len());
    }
    assert(items_view(items)[tab as int] == items[tab as int]@.map_values(
        |e: (String, i32)| crate::list::entry_view(e),
    ));
    assert(items[tab as int]@[row as int].0@ == default_items()[tab as int][row as int].0);
    if tab == 0 {
        lemma_tab0_labels_name_commands(row);
    } else if tab == 1 {
        lemma_tab1_labels_name_commands(row);
    } else if tab == 2 {
        lemma_tab2_labels_name_commands(row);
    } else if tab == 3 {
        lemma_tab3_labels_name_commands(row);
    } else {
        lemma_tab4_labels_name_commands(row);
    }
}

} // verus!
