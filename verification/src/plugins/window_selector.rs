use crate::client::clients::{Clients, ClientsView};
use crate::command::Request;
use crate::config::{Action, ActionKeyPress, Config};
use crate::event::{ClientMessageInfo, KeyPressInfo};
use crate::screen::Screen;
use vstd::prelude::*;

verus! {

/// The plugin that moves the input focus: on configured action bindings,
/// on external activation requests, and on the pointer entering a window.
#[derive(Clone, Copy, PartialEq, Eq, Structural, Debug)]
pub struct WindowSelector;

/// The actions whose bindings fire for a press of `keycode` with modifier
/// `state`, in configuration order, starting from binding `k`.
pub open spec fn spec_fired_actions(
    actions: Seq<ActionKeyPress>,
    resolved: Seq<Option<u8>>,
    keycode: u8,
    state: u16,
    k: int,
) -> Seq<Action>
    decreases actions.len() - k,
{
    if k < 0 || k >= actions.len() {
        Seq::empty()
    } else {
        (if resolved[k] == Some(keycode) && actions[k].modifier == state {
            seq![actions[k].action]
        } else {
            Seq::empty()
        }) + spec_fired_actions(actions, resolved, keycode, state, k + 1)
    }
}

impl ClientsView {
    /// The state after a sequence of actions is handled in order.
    pub open spec fn spec_apply_actions(self, acts: Seq<Action>) -> ClientsView
        decreases acts.len(),
    {
        if acts.len() == 0 {
            self
        } else {
            self.spec_handle_action(acts[0]).spec_apply_actions(acts.drop_first())
        }
    }

    /// The requests of handling a sequence of actions in order.
    pub open spec fn spec_apply_actions_requests(
        self,
        cfg: Config,
        screen: Screen,
        acts: Seq<Action>,
        supports_delete: bool,
    ) -> Seq<Request>
        decreases acts.len(),
    {
        if acts.len() == 0 {
            Seq::empty()
        } else {
            self.spec_handle_action_requests(cfg, screen, acts[0], supports_delete)
                + self.spec_handle_action(acts[0]).spec_apply_actions_requests(
                cfg,
                screen,
                acts.drop_first(),
                supports_delete,
            )
        }
    }

    /// What handling a sequence of actions needs: each intermediate state
    /// must satisfy the layout precondition.
    pub open spec fn spec_apply_actions_pre(
        self,
        cfg: Config,
        screen: Screen,
        acts: Seq<Action>,
    ) -> bool
        decreases acts.len(),
    {
        if acts.len() == 0 {
            true
        } else {
            &&& self.spec_handle_action(acts[0]).resize_pre(cfg, screen)
            &&& self.spec_handle_action(acts[0]).spec_apply_actions_pre(
                cfg,
                screen,
                acts.drop_first(),
            )
        }
    }
}

impl WindowSelector {
    pub fn new() -> (r: WindowSelector) {
        WindowSelector
    }

    /// On a key press, every configured action binding that fires is
    /// dispatched to the registry, in configuration order.  `resolved`
    /// holds the keycode each binding's keysym resolved to; a binding
    /// whose keysym has no keycode is a fatal configuration error, left
    /// out by precondition.  `supports_delete` says whether the currently
    /// active window advertises the graceful-close protocol.
    pub fn on_key_press(
        &self,
        clients: &mut Clients,
        cfg: &Config,
        screen: Screen,
        resolved: &Vec<Option<u8>>,
        event: &KeyPressInfo,
        supports_delete: bool,
    ) -> (reqs: Vec<Request>)
        requires
            old(clients).wf(),
            resolved@.len() == cfg.actions@.len(),
            forall|k: int| 0 <= k < resolved@.len() ==> (#[trigger] resolved@[k]) is Some,
            old(clients)@.spec_apply_actions_pre(
                *cfg,
                screen,
                spec_fired_actions(cfg.actions@, resolved@, event.keycode, event.state, 0),
            ),
        ensures
            final(clients)@ == old(clients)@.spec_apply_actions(
                spec_fired_actions(cfg.actions@, resolved@, event.keycode, event.state, 0),
            ),
            final(clients).wf(),
            reqs@ == old(clients)@.spec_apply_actions_requests(
                *cfg,
                screen,
                spec_fired_actions(cfg.actions@, resolved@, event.keycode, event.state, 0),
                supports_delete,
            ),
    {
        let ghost all = spec_fired_actions(
            cfg.actions@,
            resolved@,
            event.keycode,
            event.state,
            0,
        );
        let mut reqs: Vec<Request> = Vec::new();
        let mut i: usize = 0;
        while i < cfg.actions.len()
            invariant
                0 <= i <= cfg.actions@.len(),
                resolved@.len() == cfg.actions@.len(),
                forall|k: int| 0 <= k < resolved@.len() ==> (#[trigger] resolved@[k]) is Some,
                clients.wf(),
                old(clients)@.spec_apply_actions(all) == clients@.spec_apply_actions(
                    spec_fired_actions(
                        cfg.actions@,
                        resolved@,
                        event.keycode,
                        event.state,
                        i as int,
                    ),
                ),
                clients@.spec_apply_actions_pre(
                    *cfg,
                    screen,
                    spec_fired_actions(
                        cfg.actions@,
                        resolved@,
                        event.keycode,
                        event.state,
                        i as int,
                    ),
                ),
                reqs@ + clients@.spec_apply_actions_requests(
                    *cfg,
                    screen,
                    spec_fired_actions(
                        cfg.actions@,
                        resolved@,
                        event.keycode,
                        event.state,
                        i as int,
                    ),
                    supports_delete,
                ) == old(clients)@.spec_apply_actions_requests(
                    *cfg,
                    screen,
                    all,
                    supports_delete,
                ),
            decreases cfg.actions@.len() - i,
        {
            let binding = &cfg.actions[i];
            let hit = match resolved[i] {
                Some(kc) => kc == event.keycode && binding.modifier == event.state,
                None => false,
            };
            proof {
                let fired = spec_fired_actions(
                    cfg.actions@,
                    resolved@,
                    event.keycode,
                    event.state,
                    i as int,
                );
                let rest = spec_fired_actions(
                    cfg.actions@,
                    resolved@,
                    event.keycode,
                    event.state,
                    i + 1,
                );
                if hit {
                    assert(fired == seq![cfg.actions@[i as int].action] + rest);
                    assert(fired[0] == cfg.actions@[i as int].action);
                    assert(fired.drop_first() =~= rest);
                } else {
                    assert(fired =~= rest);
                }
            }
            if hit {
                let mut step = clients.handle_action(
                    cfg,
                    screen,
                    event.child,
                    binding.action,
                    supports_delete,
                );
                reqs.append(&mut step);
            }
            i += 1;
        }
        proof {
            let done = spec_fired_actions(
                cfg.actions@,
                resolved@,
                event.keycode,
                event.state,
                cfg.actions@.len() as int,
            );
            assert(done =~= Seq::<Action>::empty());
            assert(reqs@ =~= reqs@ + clients@.spec_apply_actions_requests(
                *cfg,
                screen,
                done,
                supports_delete,
            ));
        }
        reqs
    }

    /// An external activation request names a window in a client message;
    /// that window becomes active.
    pub fn on_client_message(
        &self,
        clients: &mut Clients,
        cfg: &Config,
        event: &ClientMessageInfo,
    ) -> (reqs: Vec<Request>)
        requires
            old(clients).wf(),
        ensures
            final(clients)@ == old(clients)@.spec_set_active_window(Some(event.window)),
            final(clients).wf(),
            reqs@ == old(clients)@.spec_set_active_window_requests(*cfg, Some(event.window)),
    {
        clients.set_active_window(cfg, Some(event.window))
    }

    /// Focus follows the mouse: the window the pointer entered becomes
    /// active.
    pub fn on_enter_notify(&self, clients: &mut Clients, cfg: &Config, window: u32) -> (reqs: Vec<
        Request,
    >)
        requires
            old(clients).wf(),
        ensures
            final(clients)@ == old(clients)@.spec_set_active_window(Some(window)),
            final(clients).wf(),
            reqs@ == old(clients)@.spec_set_active_window_requests(*cfg, Some(window)),
    {
        clients.set_active_window(cfg, Some(window))
    }
}

} // verus!
