//! The tabbed layout of panes.
use vstd::prelude::*;

use crate::text::{decimal, push_decimal, push_str};

verus! {

/// Title of the tab of pane number `nr`: "View " and the number.
pub open spec fn tab_title_text(nr: nat) -> Seq<char> {
    seq!['V', 'i', 'e', 'w', ' '] + decimal(nr)
}

/// The title of the tab of pane number `nr`.
pub fn tab_title_for_pane(nr: usize) -> (title: String)
    ensures
        title@ == tab_title_text(nr as nat),
{
    let mut title = String::new();
    proof { reveal_strlit("View "); }
    push_str(&mut title, "View ");
    push_decimal(&mut title, nr as u64);
    title
}

/// A tab can be closed unless it is the last one: only while the layout
/// holds more than one pane.
pub fn is_tab_closable(pane_count: usize) -> (closable: bool)
    ensures
        closable == (pane_count > 1),
{
    pane_count > 1
}

} // verus!
