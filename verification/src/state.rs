use vstd::prelude::*;

verus! {

/// Where the cursor stands across the whole screen: the tab that is shown
/// and the row level reached with the arrow keys.
pub struct GlobalState {
    pub level: usize,
    pub current_tab: usize,
}

impl GlobalState {
    /// The state at start-up: first tab, top level.
    pub fn new() -> (s: Self)
        ensures
            s.level == 0,
            s.current_tab == 0,
    {
        GlobalState { level: 0, current_tab: 0 }
    }
}

/// The selection inside one tab's command list.
#[derive(Clone, Copy, Debug, PartialEq, Eq, Structural)]
pub struct InnerListState {
    pub selected: Option<usize>,
}

impl InnerListState {
    /// A list with nothing selected.
    pub fn default() -> (s: Self)
        ensures
            s.selected is None,
    {
        InnerListState { selected: None }
    }
}

} // verus!
