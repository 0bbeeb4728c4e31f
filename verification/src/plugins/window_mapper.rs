use crate::plugin::Plugin;
use vstd::prelude::*;

verus! {

/// The context of the window-mapper plugin; it carries no state of its
/// own.
#[derive(Clone, Copy, PartialEq, Eq, Structural, Debug)]
pub struct PluginContext;

/// Builds the window-mapper plugin.
pub fn load_window_mapper_plugin() -> (p: Plugin<PluginContext>)
    ensures
        p.context == PluginContext,
{
    Plugin { context: PluginContext }
}

} // verus!
