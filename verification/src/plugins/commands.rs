use crate::config::CommandKeyPress;
use crate::event::KeyPressInfo;
use vstd::prelude::*;

verus! {

/// The plugin that spawns configured external commands on their key
/// bindings.
#[derive(Clone, Copy, PartialEq, Eq, Structural, Debug)]
pub struct Commands;

/// Whether the command binding at `k` fires for a press of `keycode` with
/// modifier `state`: its keysym resolved to exactly that keycode and its
/// modifier matches exactly.
pub open spec fn binding_fires(
    bindings: Seq<CommandKeyPress>,
    resolved: Seq<Option<u8>>,
    keycode: u8,
    state: u16,
    k: int,
) -> bool {
    &&& resolved[k] == Some(keycode)
    &&& bindings[k].modifier == state
}

/// The indices of the command bindings that fire, in configuration order,
/// among the first `k` bindings.
pub open spec fn spec_firing_upto(
    bindings: Seq<CommandKeyPress>,
    resolved: Seq<Option<u8>>,
    keycode: u8,
    state: u16,
    k: int,
) -> Seq<int>
    decreases k,
{
    if k <= 0 {
        Seq::empty()
    } else {
        spec_firing_upto(bindings, resolved, keycode, state, k - 1) + if binding_fires(
            bindings,
            resolved,
            keycode,
            state,
            k - 1,
        ) {
            seq![k - 1]
        } else {
            Seq::empty()
        }
    }
}

impl Commands {
    pub fn new() -> (r: Commands) {
        Commands
    }

    /// The configured command bindings that fire for this key press, as
    /// indices into the binding list, in order; the shell spawns each
    /// binding's program.  `resolved` holds the keycode each binding's
    /// keysym resolved to under the current keyboard mapping, `None` for a
    /// keysym with no keycode.
    pub fn on_key_press(
        &self,
        bindings: &Vec<CommandKeyPress>,
        resolved: &Vec<Option<u8>>,
        event: &KeyPressInfo,
    ) -> (fires: Vec<usize>)
        requires
            resolved@.len() == bindings@.len(),
        ensures
            fires@.map_values(|u: usize| u as int) == spec_firing_upto(
                bindings@,
                resolved@,
                event.keycode,
                event.state,
                bindings@.len() as int,
            ),
            forall|k: int| 0 <= k < fires@.len() ==> #[trigger] fires@[k] < bindings@.len(),
    {
        let mut fires: Vec<usize> = Vec::new();
        let mut i: usize = 0;
        while i < bindings.len()
            invariant
                0 <= i <= bindings@.len(),
                resolved@.len() == bindings@.len(),
                fires@.map_values(|u: usize| u as int) == spec_firing_upto(
                    bindings@,
                    resolved@,
                    event.keycode,
                    event.state,
                    i as int,
                ),
                forall|k: int| 0 <= k < fires@.len() ==> #[trigger] fires@[k] < bindings@.len(),
            decreases bindings@.len() - i,
        {
            let hit = match resolved[i] {
                Some(kc) => kc == event.keycode && bindings[i].modifier == event.state,
                None => false,
            };
            if hit {
                fires.push(i);
                proof {
                    assert(fires@.map_values(|u: usize| u as int) =~= spec_firing_upto(
                        bindings@,
                        resolved@,
                        event.keycode,
                        event.state,
                        i + 1,
                    ));
                }
            }
            i += 1;
        }
        fires
    }
}

} // verus!
