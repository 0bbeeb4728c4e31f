use vstd::prelude::*;

verus! {

/// The dimensions of the first root screen of a display connection.
///
/// The display server reports screen dimensions as 16-bit pixel counts; the
/// shell reads them from the connection's setup reply and hands them to the
/// layout engine through this record.
#[derive(Clone, Copy, PartialEq, Eq, Structural, Debug)]
pub struct Screen {
    pub width: u16,
    pub height: u16,
}

impl Screen {
    /// Builds a screen record from reported pixel dimensions.
    pub fn new(width: u16, height: u16) -> (s: Screen)
        ensures
            s.width == width,
            s.height == height,
    {
        Screen { width, height }
    }
}

} // verus!

