use vstd::prelude::*;

verus! {

/// How a control is placed along one axis within the space it is given.
#[derive(PartialEq, Eq, Structural, Clone, Copy, Debug)]
pub enum Alignment {
    Start,
    Center,
    End,
    Stretch,
}

/// Key of the horizontal alignment attached to a control.
pub struct HorizontalAlignment;

/// Key of the vertical alignment attached to a control.
pub struct VerticalAlignment;

impl Alignment {
    /// The alignment a control gets along one axis: the one attached to it, else the default
    /// of its container.
    pub fn effective(attached: Option<Alignment>, default_alignment: Alignment) -> (a: Alignment)
        ensures
            a == (match attached {
                Some(x) => x,
                None => default_alignment,
            }),
    {
        match attached {
            Some(x) => x,
            None => default_alignment,
        }
    }
}

} // verus!
