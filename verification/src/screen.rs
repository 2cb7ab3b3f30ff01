use vstd::prelude::*;
use crate::app::App;
use crate::text::{int_text, spaces, push_int, push_spaces};

verus! {

/// The heading of the command list on tab `index`.
pub open spec fn block_title_spec(index: int) -> &'static str {
    if index == 0 {
        "Development"
    } else if index == 1 {
        "Maintenance"
    } else if index == 2 {
        "Cache Management"
    } else if index == 3 {
        "Device Management"
    } else if index == 4 {
        "Miscellaneous"
    } else {
        "Exit"
    }
}

/// The heading of the command list on tab `index`; there are six tabs.
pub fn block_title(index: usize) -> (t: &'static str)
    requires
        index < 6,
    ensures
        t == block_title_spec(index as int),
{
    if index == 0 {
        "Development"
    } else if index == 1 {
        "Maintenance"
    } else if index == 2 {
        "Cache Management"
    } else if index == 3 {
        "Device Management"
    } else if index == 4 {
        "Miscellaneous"
    } else {
        "Exit"
    }
}

/// The width that each of `tabs` tabs gets on a screen `total_width` cells
/// wide; the tab count is taken as a 16-bit number.
pub fn tab_width(total_width: u16, tabs: usize) -> (w: u16)
    requires
        tabs as int % 65536 != 0,
    ensures
        w as int == total_width as int / (tabs as int % 65536),
{
    let t: u16 = #[verifier::truncate] (tabs as u16);
    assert(t as int == tabs as int % 65536) by (bit_vector)
        requires
            t == tabs as u16,
    ;
    total_width / t
}

/// The width of a title: its length in bytes, taken as a 16-bit number.
pub open spec fn text_width(title: &str) -> int {
    title.len() as int % 65536
}

/// The padding on each side of a title in a tab `width_per_tab` cells wide:
/// a third of the room the title leaves.
pub open spec fn title_padding(title: &str, width_per_tab: u16) -> nat {
    ((width_per_tab - text_width(title)) / 3) as nat
}

/// A tab title centred by padding it with spaces on both sides.
pub fn padded_tab_title(title: &str, width_per_tab: u16) -> (r: String)
    requires
        text_width(title) <= width_per_tab,
    ensures
        r@ == spaces(title_padding(title, width_per_tab)) + title@ + spaces(
            title_padding(title, width_per_tab),
        ),
{
    let len = title.len();
    let tw: u16 = #[verifier::truncate] (len as u16);
    assert(tw as int == len as int % 65536) by (bit_vector)
        requires
            tw == len as u16,
    ;
    let padding: u16 = (width_per_tab - tw) / 3;
    let mut r = String::new();
    push_spaces(&mut r, padding);
    r.append(title);
    push_spaces(&mut r, padding);
    r
}

/// A command entry as listed: its text, a colon, and its group number.
pub fn item_label(text: &String, number: i32) -> (r: String)
    ensures
        r@ == text@ + ": "@ + int_text(number as int),
{
    let mut r = text.clone();
    r.append(": ");
    push_int(&mut r, number);
    r
}

/// Whether the selection `selected` highlights row `row`.
pub open spec fn highlighted(selected: Option<usize>, row: int) -> bool {
    selected matches Some(k) && k == row
}

impl App {
    /// The rows of the shown tab's command list, each with whether it is
    /// highlighted; no rows when the shown tab has no list.
    pub fn list_rows(&self) -> (rows: Vec<(String, bool)>)
        requires
            self.index < self.items.items@.len() ==> self.index < self.items.inner_states@.len(),
        ensures
            self.index >= self.items.items@.len() ==> rows@.len() == 0,
            self.index < self.items.items@.len() ==> {
                let list = self.items.items@[self.index as int]@;
                let sel = self.items.inner_states@[self.index as int].selected;
                &&& rows@.len() == list.len()
                &&& forall|j: int|
                    0 <= j < list.len() ==> {
                        &&& (#[trigger] rows@[j]).0@ == list[j].0@ + ": "@ + int_text(list[j].1 as int)
                        &&& rows@[j].1 == (sel == Some(j as usize))
                    }
            },
    {
        let mut rows: Vec<(String, bool)> = Vec::new();
        if self.index >= self.items.items.len() {
            return rows;
        }
        let list = &self.items.items[self.index];
        let sel = self.items.inner_states[self.index].selected;
        let n = list.len();
        let mut j: usize = 0;
        while j < n
            invariant
                j <= n,
                n == list@.len(),
                rows@.len() == j,
                forall|i: int|
                    0 <= i < j ==> {
                        &&& (#[trigger] rows@[i]).0@ == list@[i].0@ + ": "@ + int_text(list@[i].1 as int)
                        &&& rows@[i].1 == (sel == Some(i as usize))
                    },
            decreases n - j,
        {
            let label = item_label(&list[j].0, list[j].1);
            let on = match sel {
                Some(k) => k == j,
                None => false,
            };
            rows.push((label, on));
            j = j + 1;
        }
        rows
    }
}

/// The line telling whether the working directory is a project directory.
pub open spec fn project_dir_line(inside: bool) -> &'static str {
    if inside {
        "You are in a Flutter project directory."
    } else {
        "You are NOT in a Flutter project directory."
    }
}

/// Decides from the two markers of a project directory (a file and a
/// folder that must both exist) whether the working directory is one, and
/// the line that says so.
pub fn project_dir_report(has_marker_file: bool, has_marker_dir: bool) -> (r: (bool, &'static str))
    ensures
        r.0 == (has_marker_file && has_marker_dir),
        r.1 == project_dir_line(r.0),
{
    let inside = has_marker_file && has_marker_dir;
    if inside {
        (true, "You are in a Flutter project directory.")
    } else {
        (false, "You are NOT in a Flutter project directory.")
    }
}

} // verus!
