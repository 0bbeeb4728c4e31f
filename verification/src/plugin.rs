use vstd::prelude::*;

verus! {

/// A loadable plugin: a carrier for plugin-specific context.
#[derive(Clone, Copy, PartialEq, Eq, Structural, Debug)]
pub struct Plugin<T> {
    pub context: T,
}

} // verus!
