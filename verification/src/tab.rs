//! Tab selection for the page: the two panes ("how to earn" and "history"),
//! the query-string values that persist the selection, and the CSS classes
//! that mark the selected tab.

use vstd::prelude::*;

verus! {

use vstd::string::StrSliceExecFns;

/// Index of the explainer tab.
pub const HOW_TO_TAB: i32 = 0;

/// Index of the history tab.
pub const HISTORY_TAB: i32 = 1;

/// Compares two strings character by character.
pub fn str_eq(a: &str, b: &str) -> (r: bool)
    ensures
        r == (a@ == b@),
{
    let a_len = a.unicode_len();
    let b_len = b.unicode_len();
    if a_len != b_len {
        return false;
    }
    let mut i: usize = 0;
    while i < a_len
        invariant
            a_len == a@.len(),
            b_len == b@.len(),
            a_len == b_len,
            i <= a_len,
            forall|j: int| 0 <= j < i ==> a@[j] == b@[j],
        decreases a_len - i,
    {
        if a.get_char(i) != b.get_char(i) {
            return false;
        }
        i = i + 1;
    }
    proof {
        assert(a@ =~= b@);
    }
    true
}

/// The tab index that a value of the `tab` query parameter selects:
/// "history" selects the history tab, anything else the explainer tab.
pub open spec fn spec_tab_index(tab: Option<Seq<char>>) -> int {
    match tab {
        Some(s) => if s == "history"@ {
            HISTORY_TAB as int
        } else {
            HOW_TO_TAB as int
        },
        None => HOW_TO_TAB as int,
    }
}

/// The view of an optional query-parameter value.
pub open spec fn opt_str_view(tab: Option<&str>) -> Option<Seq<char>> {
    match tab {
        Some(s) => Some(s@),
        None => None,
    }
}

/// Maps the `tab` query parameter to the index of the selected tab.
pub fn tab_index_of_query(tab: Option<&str>) -> (idx: i32)
    ensures
        idx as int == spec_tab_index(opt_str_view(tab)),
{
    match tab {
        Some(t) => {
            if str_eq(t, "history") {
                HISTORY_TAB
            } else {
                HOW_TO_TAB
            }
        },
        None => HOW_TO_TAB,
    }
}

/// The query-string value that selects the tab with the given index.
pub open spec fn spec_tab_query_value(tab_idx: int) -> Seq<char> {
    if tab_idx == HISTORY_TAB as int {
        "history"@
    } else {
        "how-to"@
    }
}

/// Returns the query-string value that selects the tab with the given index.
pub fn tab_query_value(tab_idx: i32) -> (s: &'static str)
    ensures
        s@ == spec_tab_query_value(tab_idx as int),
{
    if tab_idx == HISTORY_TAB {
        "history"
    } else {
        "how-to"
    }
}

/// Storing a tab's query value in the URL and reading it back selects the
/// same tab.
pub proof fn lemma_tab_selection_round_trip(tab_idx: int)
    requires
        tab_idx == HOW_TO_TAB as int || tab_idx == HISTORY_TAB as int,
    ensures
        spec_tab_index(Some(spec_tab_query_value(tab_idx))) == tab_idx,
{
    reveal_strlit("how-to");
    reveal_strlit("history");
    assert("how-to"@.len() != "history"@.len());
}

/// The class of a tab's label: bold white when the tab is selected, dimmed
/// otherwise.
pub open spec fn spec_tab_button_class(tab_idx: int, current_tab: int) -> Seq<char> {
    if tab_idx == current_tab {
        "text-white font-bold"@
    } else {
        "text-white/50 font-bold"@
    }
}

/// Returns the CSS class of the label of tab `tab_idx` while `current_tab`
/// is selected.
pub fn tab_button_class(tab_idx: i32, current_tab: i32) -> (c: &'static str)
    ensures
        c@ == spec_tab_button_class(tab_idx as int, current_tab as int),
{
    if tab_idx == current_tab {
        "text-white font-bold"
    } else {
        "text-white/50 font-bold"
    }
}

/// The class of the dot under a tab: orange when the tab is selected,
/// transparent otherwise.
pub open spec fn spec_tab_selector_class(tab_idx: int, current_tab: int) -> Seq<char> {
    if tab_idx == current_tab {
        "bg-orange-500 w-2 h-2 rounded-full"@
    } else {
        "bg-transparent w-2 h-2 rounded-full"@
    }
}

/// Returns the CSS class of the selection dot of tab `tab_idx` while
/// `current_tab` is selected.
pub fn tab_selector_class(tab_idx: i32, current_tab: i32) -> (c: &'static str)
    ensures
        c@ == spec_tab_selector_class(tab_idx as int, current_tab as int),
{
    if tab_idx == current_tab {
        "bg-orange-500 w-2 h-2 rounded-full"
    } else {
        "bg-transparent w-2 h-2 rounded-full"
    }
}

} // verus!
