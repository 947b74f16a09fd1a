//! Clamped (never wrapping) navigation over a list, plus the highlight cursor
//! that the rendering layer reads.
use vstd::prelude::*;

verus! {

/// The widget highlight: which row of a list is drawn as selected, if any.
#[derive(Clone, Copy, Debug, PartialEq, Eq)]
pub struct ListCursor {
    pub selected: Option<usize>,
}

impl ListCursor {
    /// A cursor with nothing highlighted.
    pub fn new() -> (r: ListCursor)
        ensures
            r.selected is None,
    {
        ListCursor { selected: None }
    }

    pub fn select(&mut self, index: Option<usize>)
        ensures
            final(self).selected == index,
    {
        self.selected = index;
    }

    pub fn selected(&self) -> (r: Option<usize>)
        ensures
            r == self.selected,
    {
        self.selected
    }
}

/// Index after moving up once: one less, stopping at the top.
pub open spec fn step_up(selected: nat) -> nat {
    if selected > 0 {
        (selected - 1) as nat
    } else {
        selected
    }
}

/// Index after moving down once in a list of `len` rows: one more, stopping
/// at the last row; an empty list resets the index to 0.
pub open spec fn step_down(selected: nat, len: nat) -> nat {
    if len == 0 {
        0
    } else if selected + 1 < len {
        selected + 1
    } else {
        selected
    }
}

/// Highlight after moving down: none for an empty list, else the new index.
pub open spec fn highlight_after_down(selected: nat, len: nat) -> Option<usize> {
    if len == 0 {
        None
    } else {
        Some(step_down(selected, len) as usize)
    }
}

/// Moves the selection one row up, without wrapping, and highlights it.
pub fn move_up(selected: &mut usize, len: usize, state: &mut ListCursor)
    ensures
        *final(selected) as nat == step_up(*old(selected) as nat),
        final(state).selected == Some(*final(selected)),
{
    if *selected > 0 {
        *selected -= 1;
    }
    state.select(Some(*selected));
}

/// Moves the selection one row down, without wrapping, and highlights it;
/// on an empty list the index is reset and nothing is highlighted.
pub fn move_down(selected: &mut usize, len: usize, state: &mut ListCursor)
    ensures
        *final(selected) as nat == step_down(*old(selected) as nat, len as nat),
        final(state).selected == highlight_after_down(*old(selected) as nat, len as nat),
{
    if len == 0 {
        *selected = 0;
        state.select(None);
        return;
    }
    if *selected < len - 1 {
        *selected += 1;
    }
    state.select(Some(*selected));
}

/// Index kept after the list shrank or grew to `len` rows: the old index if it
/// is still a row, else the last row; 0 when the list is empty.
pub open spec fn clamp_index(selected: nat, len: nat) -> nat {
    if len == 0 {
        0
    } else if selected >= len {
        (len - 1) as nat
    } else {
        selected
    }
}

/// Highlight after clamping: none for an empty list, else the clamped index.
pub open spec fn clamp_highlight(selected: nat, len: nat) -> Option<usize> {
    if len == 0 {
        None
    } else {
        Some(clamp_index(selected, len) as usize)
    }
}

/// Brings the selection back into a list of `len` rows and highlights it;
/// an empty list leaves no selection.
pub fn clamp(selected: &mut usize, len: usize, state: &mut ListCursor)
    ensures
        *final(selected) as nat == clamp_index(*old(selected) as nat, len as nat),
        final(state).selected == clamp_highlight(*old(selected) as nat, len as nat),
{
    if len == 0 {
        *selected = 0;
        state.select(None);
    } else {
        if *selected >= len {
            *selected = len - 1;
        }
        state.select(Some(*selected));
    }
}

/// Moving up and then down comes back to the starting row whenever neither
/// move is stopped by an edge of the list (`0 < selected < len`).
pub proof fn lemma_up_then_down(selected: nat, len: nat)
    requires
        0 < selected < len,
    ensures
        step_down(step_up(selected), len) == selected,
{
}

/// Moving down and then up comes back to the starting row whenever the down
/// move is not stopped by the end of the list.
pub proof fn lemma_down_then_up(selected: nat, len: nat)
    requires
        selected + 1 < len,
    ensures
        step_up(step_down(selected, len)) == selected,
{
}

/// Navigation clamps rather than wraps: up from the first row and down from
/// the last row both stay put.
pub proof fn lemma_no_wraparound(len: nat)
    requires
        len > 0,
    ensures
        step_up(0) == 0,
        step_down((len - 1) as nat, len) == (len - 1) as nat,
{
}

/// Clamping always leaves a valid row of a nonempty list selected and
/// highlighted, and keeps a selection that was already valid.
pub proof fn lemma_clamp_in_range(selected: nat, len: nat)
    requires
        len > 0,
    ensures
        clamp_index(selected, len) < len,
        clamp_highlight(selected, len) == Some(clamp_index(selected, len) as usize),
        selected < len ==> clamp_index(selected, len) == selected,
{
}

} // verus!
