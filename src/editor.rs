use vstd::prelude::*;

verus! {

/// A key that changes which placed part is selected.
#[derive(Debug, Clone, Copy, PartialEq, Eq, Structural)]
pub enum EditKey {
    /// Remove the selected part.
    Delete,
    /// Select the part before the selected one.
    Previous,
    /// Select the part after the selected one.
    Next,
}

/// What a key does to a list of `count` parts of which `selected` is the
/// selected one: the new selection, and the position of the part to remove,
/// if any.
#[derive(Debug, Clone, Copy, PartialEq, Eq, Structural)]
pub struct KeyOutcome {
    pub selected: usize,
    pub removed: Option<usize>,
}

/// A selection is valid when it names a part, or when there are none.
pub open spec fn selection_valid(selected: nat, count: nat) -> bool {
    count == 0 || selected < count
}

pub open spec fn key_outcome_of(selected: nat, count: nat, key: EditKey) -> (nat, Option<nat>) {
    match key {
        EditKey::Delete => if count == 0 {
            (selected, None)
        } else if count > 1 && selected > count - 2 {
            ((count - 2) as nat, Some(selected))
        } else {
            (selected, Some(selected))
        },
        EditKey::Previous => if selected > 0 {
            ((selected - 1) as nat, None)
        } else {
            (0, None)
        },
        EditKey::Next => if count == 0 {
            (selected, None)
        } else if selected < count - 1 {
            (selected + 1, None)
        } else {
            ((count - 1) as nat, None)
        },
    }
}

/// Applies an editing key to the selection. Delete removes the selected part
/// and keeps the selection on the last part when it fell off the end;
/// Previous and Next move the selection and stop at either end.
pub fn apply_key(selected: usize, count: usize, key: EditKey) -> (r: KeyOutcome)
    requires
        selection_valid(selected as nat, count as nat),
    ensures
        (r.selected as nat, match r.removed {
            Some(i) => Some(i as nat),
            None => None,
        }) == key_outcome_of(selected as nat, count as nat, key),
        selection_valid(
            r.selected as nat,
            if r.removed.is_some() {
                (count - 1) as nat
            } else {
                count as nat
            },
        ),
{
    match key {
        EditKey::Delete => {
            if count == 0 {
                KeyOutcome { selected, removed: None }
            } else if count > 1 && selected > count - 2 {
                KeyOutcome { selected: count - 2, removed: Some(selected) }
            } else {
                KeyOutcome { selected, removed: Some(selected) }
            }
        },
        EditKey::Previous => {
            if selected > 0 {
                KeyOutcome { selected: selected - 1, removed: None }
            } else {
                KeyOutcome { selected: 0, removed: None }
            }
        },
        EditKey::Next => {
            if count == 0 {
                KeyOutcome { selected, removed: None }
            } else if selected < count - 1 {
                KeyOutcome { selected: selected + 1, removed: None }
            } else {
                KeyOutcome { selected: count - 1, removed: None }
            }
        },
    }
}

} // verus!
