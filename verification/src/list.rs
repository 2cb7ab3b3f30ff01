use vstd::prelude::*;
use crate::state::{GlobalState, InnerListState};

verus! {

/// One command entry as the contracts see it: its text and its group number.
pub open spec fn entry_view(e: (String, i32)) -> (Seq<char>, i32) {
    (e.0@, e.1)
}

/// The command lists of all tabs, each entry by its text and group number.
pub open spec fn items_view(items: Seq<Vec<(String, i32)>>) -> Seq<Seq<(Seq<char>, i32)>> {
    items.map_values(|row: Vec<(String, i32)>| row@.map_values(|e: (String, i32)| entry_view(e)))
}

/// Moving down in a list of `len` entries: the row after the selected one,
/// wrapping to the top; with nothing selected the second row is taken.
pub open spec fn next_selection(sel: Option<usize>, len: nat) -> Option<usize> {
    let cur: int = match sel {
        Some(k) => k as int,
        None => 0,
    };
    Some(((cur + 1) % (len as int)) as usize)
}

/// Moving up in a list of `len` entries: the row before the selected one,
/// wrapping to the bottom; with nothing selected the last row is taken, and
/// an empty list selects row 0.
pub open spec fn previous_selection(sel: Option<usize>, len: nat) -> Option<usize> {
    if len == 0 {
        Some(0usize)
    } else if sel is Some && sel->0 > 0 {
        Some((sel->0 - 1) as usize)
    } else {
        Some((len - 1) as usize)
    }
}

/// The per-tab command lists with the selection inside each of them.
pub struct StatefulList {
    /// The selection of the list widget as a whole.
    pub state: Option<usize>,
    /// One selection per tab, in tab order.
    pub inner_states: Vec<InnerListState>,
    /// One command list per tab: each entry is its text and its group number.
    pub items: Vec<Vec<(String, i32)>>,
    /// 0 for the outer list, 1 for an inner list.
    pub level: usize,
    /// Index in the inner list.
    pub inner_index: usize,
}

impl StatefulList {
    /// A list over `items` with nothing selected in any tab.
    pub fn with_items(items: Vec<Vec<(String, i32)>>) -> (s: StatefulList)
        ensures
            s.state is None,
            s.items == items,
            s.inner_states@.len() == items@.len(),
            forall|i: int| 0 <= i < s.inner_states@.len() ==> (#[trigger] s.inner_states@[i]).selected is None,
            s.level == 0,
            s.inner_index == 0,
    {
        let n = items.len();
        let mut inner_states: Vec<InnerListState> = Vec::new();
        let mut i: usize = 0;
        while i < n
            invariant
                i <= n,
                inner_states@.len() == i,
                forall|j: int| 0 <= j < i ==> (#[trigger] inner_states@[j]).selected is None,
            decreases n - i,
        {
            inner_states.push(InnerListState::default());
            i = i + 1;
        }
        StatefulList { state: None, inner_states, items, level: 0, inner_index: 0 }
    }

    /// Selects the next row of the command list of the current tab.
    pub fn next_item(&mut self, global: &GlobalState)
        requires
            global.current_tab < old(self).items@.len(),
            global.current_tab < old(self).inner_states@.len(),
            old(self).items@[global.current_tab as int]@.len() > 0,
            old(self).inner_states@[global.current_tab as int].selected matches Some(k) ==> k < usize::MAX,
        ensures
            final(self).inner_states@ == old(self).inner_states@.update(
                global.current_tab as int,
                InnerListState {
                    selected: next_selection(
                        old(self).inner_states@[global.current_tab as int].selected,
                        old(self).items@[global.current_tab as int]@.len(),
                    ),
                },
            ),
            final(self).items == old(self).items,
            final(self).state == old(self).state,
            final(self).level == old(self).level,
            final(self).inner_index == old(self).inner_index,
    {
        let tab = global.current_tab;
        let cur: usize = match self.inner_states[tab].selected {
            Some(k) => k,
            None => 0,
        };
        let n = self.items[tab].len();
        self.inner_states.set(tab, InnerListState { selected: Some((cur + 1) % n) });
    }

    /// Selects the previous row of the command list of the current tab.
    pub fn previous_item(&mut self, global: &GlobalState)
        requires
            global.current_tab < old(self).items@.len(),
            global.current_tab < old(self).inner_states@.len(),
        ensures
            final(self).inner_states@ == old(self).inner_states@.update(
                global.current_tab as int,
                InnerListState {
                    selected: previous_selection(
                        old(self).inner_states@[global.current_tab as int].selected,
                        old(self).items@[global.current_tab as int]@.len(),
                    ),
                },
            ),
            final(self).items == old(self).items,
            final(self).state == old(self).state,
            final(self).level == old(self).level,
            final(self).inner_index == old(self).inner_index,
    {
        let tab = global.current_tab;
        let n = self.items[tab].len();
        let sel: usize = if n == 0 {
            0
        } else {
            match self.inner_states[tab].selected {
                Some(k) => if k > 0 { k - 1 } else { n - 1 },
                None => n - 1,
            }
        };
        self.inner_states.set(tab, InnerListState { selected: Some(sel) });
    }

    /// Clears the selection of the widget and of every tab's list.
    pub fn unselect(&mut self)
        ensures
            final(self).state is None,
            final(self).inner_states@.len() == old(self).inner_states@.len(),
            forall|i: int| 0 <= i < final(self).inner_states@.len() ==> (#[trigger] final(self).inner_states@[i]).selected is None,
            final(self).items == old(self).items,
            final(self).level == old(self).level,
            final(self).inner_index == old(self).inner_index,
    {
        self.state = None;
        let n = self.inner_states.len();
        let mut i: usize = 0;
        while i < n
            invariant
                i <= n,
                self.inner_states@.len() == n,
                self.state is None,
                self.items == old(self).items,
                self.level == old(self).level,
                self.inner_index == old(self).inner_index,
                n == old(self).inner_states@.len(),
                forall|j: int| 0 <= j < i ==> (#[trigger] self.inner_states@[j]).selected is None,
            decreases n - i,
        {
            self.inner_states.set(i, InnerListState { selected: None });
            i = i + 1;
        }
    }
}

} // verus!
