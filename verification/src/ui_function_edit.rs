//! Display configuration of one curve editor: its title, axis labels, and
//! whether an axis is shown as a percentage.  The widget tree that renders
//! it is the caller's.

use vstd::prelude::*;

verus! {

pub struct UiFunctionEdit<'a> {
    title: &'a str,
    axis_label: (&'a str, &'a str),
    percentage: (bool, bool),
}

impl<'a> UiFunctionEdit<'a> {
    pub closed spec fn title_spec(&self) -> Seq<char> {
        self.title@
    }

    pub closed spec fn axis_label_spec(&self) -> (Seq<char>, Seq<char>) {
        (self.axis_label.0@, self.axis_label.1@)
    }

    pub closed spec fn percentage_spec(&self) -> (bool, bool) {
        self.percentage
    }

    pub fn new(title: &'a str, axis_label: (&'a str, &'a str)) -> (r: Self)
        ensures
            r.title_spec() == title@,
            r.axis_label_spec() == (axis_label.0@, axis_label.1@),
            r.percentage_spec() == (false, false),
    {
        UiFunctionEdit { title, axis_label, percentage: (false, false) }
    }

    /// Shows the x axis as a percentage.
    pub fn x_percentage(self, value: bool) -> (r: Self)
        ensures
            r.title_spec() == self.title_spec(),
            r.axis_label_spec() == self.axis_label_spec(),
            r.percentage_spec() == (value, self.percentage_spec().1),
    {
        let mut s = self;
        s.percentage.0 = value;
        s
    }

    /// Shows the y axis as a percentage.
    pub fn y_percentage(self, value: bool) -> (r: Self)
        ensures
            r.title_spec() == self.title_spec(),
            r.axis_label_spec() == self.axis_label_spec(),
            r.percentage_spec() == (self.percentage_spec().0, value),
    {
        let mut s = self;
        s.percentage.1 = value;
        s
    }
}

} // verus!
