use vstd::prelude::*;

verus! {

/// The musical themes rhythm modulation is weighted for.
#[derive(Debug, Clone, Copy, PartialEq, Eq, Structural)]
pub enum VisualTheme {
    Electronic,
    Jazz,
    Ambient,
}

impl Default for VisualTheme {
    fn default() -> (r: Self)
        ensures
            r == VisualTheme::Electronic,
    {
        VisualTheme::Electronic
    }
}

} // verus!
