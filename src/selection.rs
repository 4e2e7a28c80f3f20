use vstd::prelude::*;

verus! {

/// A selection fits a view of `len` rows: none when the view is empty, and
/// otherwise a row of it.
pub open spec fn selection_valid(sel: Option<usize>, len: nat) -> bool {
    match sel {
        None => len == 0,
        Some(i) => i < len,
    }
}

/// The selection kept after the view changed to `len` rows: the same row where
/// it still exists, the last row where it fell off the end, the first row where
/// there was none, and none in an empty view.
pub open spec fn reconciled(sel: Option<usize>, len: nat) -> Option<usize> {
    if len == 0 {
        None
    } else {
        match sel {
            Some(i) => Some(if i < len { i } else { (len - 1) as usize }),
            None => Some(0),
        }
    }
}

/// Moving down by `steps` rows, stopping at the last one.
pub open spec fn next_spec(sel: Option<usize>, steps: nat, len: nat) -> Option<usize> {
    if len == 0 {
        sel
    } else {
        match sel {
            Some(i) => Some(if i + steps < len { (i + steps) as usize } else { (len - 1) as usize }),
            None => Some(0),
        }
    }
}

/// Moving up by `steps` rows, stopping at the first one.
pub open spec fn previous_spec(sel: Option<usize>, steps: nat, len: nat) -> Option<usize> {
    if len == 0 {
        sel
    } else {
        match sel {
            Some(i) => Some(if i < steps { 0 } else { (i - steps) as usize }),
            None => Some(0),
        }
    }
}

/// Selecting a row directly, clamped to the last one.
pub open spec fn select_spec(idx: usize, len: nat) -> Option<usize> {
    if len == 0 {
        None
    } else {
        Some(if idx < len { idx } else { (len - 1) as usize })
    }
}

pub fn reconcile(sel: Option<usize>, len: usize) -> (r: Option<usize>)
    ensures
        r == reconciled(sel, len as nat),
{
    if len == 0 {
        None
    } else {
        match sel {
            Some(i) => Some(if i < len { i } else { len - 1 }),
            None => Some(0),
        }
    }
}

pub fn next_selection(sel: Option<usize>, steps: usize, len: usize) -> (r: Option<usize>)
    requires
        steps > 0,
    ensures
        r == next_spec(sel, steps as nat, len as nat),
{
    if len == 0 {
        sel
    } else {
        match sel {
            Some(i) => Some(if i < len && steps < len - i { i + steps } else { len - 1 }),
            None => Some(0),
        }
    }
}

pub fn previous_selection(sel: Option<usize>, steps: usize, len: usize) -> (r: Option<usize>)
    requires
        steps > 0,
    ensures
        r == previous_spec(sel, steps as nat, len as nat),
{
    if len == 0 {
        sel
    } else {
        match sel {
            Some(i) => Some(if i < steps { 0 } else { i - steps }),
            None => Some(0),
        }
    }
}

pub fn select_index(idx: usize, len: usize) -> (r: Option<usize>)
    ensures
        r == select_spec(idx, len as nat),
{
    if len == 0 {
        None
    } else {
        Some(if idx < len { idx } else { len - 1 })
    }
}

/// The first visible row for a viewport of `height` rows: the smallest offset
/// that keeps the selected row on screen.
pub fn scroll_offset(selected: usize, height: usize) -> (r: usize)
    ensures
        r == if selected < height {
            0
        } else if height == 0 {
            selected
        } else {
            (selected + 1 - height) as usize
        },
        r <= selected,
        height > 0 ==> selected < r + height,
{
    if selected < height {
        0
    } else if height == 0 {
        selected
    } else {
        selected - (height - 1)
    }
}

/// Whatever selection and view length came before, reconciling leaves a
/// selection that fits the view.
pub proof fn lemma_reconciled_valid(sel: Option<usize>, len: nat)
    requires
        len <= usize::MAX,
    ensures
        selection_valid(reconciled(sel, len), len),
{
}

/// Navigation and direct selection keep a fitting selection fitting.
pub proof fn lemma_navigation_valid(sel: Option<usize>, steps: nat, idx: usize, len: nat)
    requires
        selection_valid(sel, len),
        len <= usize::MAX,
    ensures
        selection_valid(next_spec(sel, steps, len), len),
        selection_valid(previous_spec(sel, steps, len), len),
        selection_valid(select_spec(idx, len), len),
{
}

} // verus!
