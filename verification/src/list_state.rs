use vstd::prelude::*;

verus! {

/// The selection after ratatui's `ListState::select_next`: the first row
/// when nothing was selected, else the next index (saturating).
pub open spec fn next_selection(selected: Option<usize>) -> Option<usize> {
    match selected {
        None => Some(0usize),
        Some(i) => if i == usize::MAX {
            Some(i)
        } else {
            Some((i + 1) as usize)
        },
    }
}

/// The selection after ratatui's `ListState::select_previous`: the last
/// possible index when nothing was selected, else the previous index
/// (saturating at 0).
pub open spec fn previous_selection(selected: Option<usize>) -> Option<usize> {
    match selected {
        None => Some(usize::MAX),
        Some(i) => if i == 0 {
            Some(0usize)
        } else {
            Some((i - 1) as usize)
        },
    }
}

/// Calls `ratatui::widgets::ListState::select_next` on a list state whose
/// selection is `selected` and returns the new selection. The source sets
/// the selection to `selected.map_or(0, |i| i.saturating_add(1))`.
#[verifier::external_body]
pub(crate) fn select_next(selected: Option<usize>) -> (r: Option<usize>)
    ensures
        r == next_selection(selected),
{
    let mut state = ratatui::widgets::ListState::default().with_selected(selected);
    state.select_next();
    state.selected()
}

/// Calls `ratatui::widgets::ListState::select_previous` on a list state
/// whose selection is `selected` and returns the new selection. The source
/// sets the selection to `selected.map_or(usize::MAX, |i| i.saturating_sub(1))`.
#[verifier::external_body]
pub(crate) fn select_previous(selected: Option<usize>) -> (r: Option<usize>)
    ensures
        r == previous_selection(selected),
{
    let mut state = ratatui::widgets::ListState::default().with_selected(selected);
    state.select_previous();
    state.selected()
}

} // verus!
