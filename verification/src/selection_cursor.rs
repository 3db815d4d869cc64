//! The speed-axis selection: a spot or a dragged range, kept as the two
//! endpoints in the order they were placed.

use vstd::prelude::*;

verus! {

pub struct SelectionCursor {
    values: Option<(i64, i64)>,
}

impl SelectionCursor {
    pub closed spec fn values_spec(&self) -> Option<(i64, i64)> {
        self.values
    }

    /// The selected range, low end first.
    pub fn range(&self) -> (r: Option<(i64, i64)>)
        ensures
            match self.values_spec() {
                Some((a, b)) => r == Some(
                    (
                        if a <= b {
                            a
                        } else {
                            b
                        },
                        if a >= b {
                            a
                        } else {
                            b
                        },
                    ),
                ),
                None => r is None,
            },
    {
        if let Some((a, b)) = self.values {
            Some(
                (
                    if a <= b {
                        a
                    } else {
                        b
                    },
                    if a >= b {
                        a
                    } else {
                        b
                    },
                ),
            )
        } else {
            None
        }
    }

    /// Collapses the selection to one spot.
    pub fn set_spot(&mut self, value: i64)
        ensures
            final(self).values_spec() == Some((value, value)),
    {
        self.values = Some((value, value));
    }

    /// Drags the free endpoint; starts a spot selection when none exists.
    pub fn extend(&mut self, value: i64)
        ensures
            match old(self).values_spec() {
                Some((a, _)) => final(self).values_spec() == Some((a, value)),
                None => final(self).values_spec() == Some((value, value)),
            },
    {
        if let Some((a, _)) = self.values {
            self.values = Some((a, value));
        } else {
            self.set_spot(value);
        }
    }
}

impl Default for SelectionCursor {
    fn default() -> (r: Self)
        ensures
            r.values_spec() is None,
    {
        SelectionCursor { values: None }
    }
}

} // verus!
