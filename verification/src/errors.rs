use vstd::prelude::*;

verus! {

/// The shared error enumeration for the window manager's fallible
/// operations.  It is deliberately a placeholder for now: every failure
/// currently surfaces through the one generic form, and distinguished error
/// kinds will be added here as they become worth catching individually.
#[derive(Debug, Clone, PartialEq, Eq, Structural)]
pub enum MWMError {
    Unspecified,
}

} // verus!
