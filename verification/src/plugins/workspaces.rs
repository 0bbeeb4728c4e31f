use crate::client::clients::{Clients, ClientsView};
use crate::command::Request;
use crate::config::Config;
use crate::event::{ClientMessageInfo, KeyPressInfo, MessageKind};
use crate::screen::Screen;
use vstd::prelude::*;

verus! {

/// The plugin that reacts to workspace key bindings and desktop-change
/// messages; it also keeps a secondary per-workspace window list, a
/// bookkeeping structure retained from an earlier design.
pub struct Workspaces {
    /// One window list per workspace; entry `w - 1` belongs to workspace
    /// `w`.
    pub window_lists: Vec<Vec<u32>>,
}

/// The first workspace digit (1 through 9) whose resolved keycode matches
/// the pressed one, scanning from workspace `k + 1` upward.
pub open spec fn spec_pressed_digit(resolved: Seq<Option<u8>>, keycode: u8, k: int) -> Option<u8>
    decreases 9 - k,
{
    if k < 0 || k >= 9 {
        None
    } else if resolved[k] == Some(keycode) {
        Some((k + 1) as u8)
    } else {
        spec_pressed_digit(resolved, keycode, k + 1)
    }
}

impl ClientsView {
    /// The state after a workspace digit key press: with the switch
    /// modifier held, the workspace becomes active; with the move modifier
    /// held, the key event's child window is reassigned to it.
    pub open spec fn spec_workspace_key(
        self,
        cfg: Config,
        ws: u8,
        state: u16,
        child: u32,
    ) -> ClientsView {
        let v1 = if cfg.workspace_modifier == state {
            self.spec_set_active_workspace(ws)
        } else {
            self
        };
        if cfg.workspace_move_window_modifier == state {
            v1.spec_set_window_workspace(child, Some(ws))
        } else {
            v1
        }
    }

    /// The requests of a workspace digit key press.
    pub open spec fn spec_workspace_key_requests(
        self,
        cfg: Config,
        screen: Screen,
        ws: u8,
        state: u16,
        child: u32,
    ) -> Seq<Request> {
        let v1 = if cfg.workspace_modifier == state {
            self.spec_set_active_workspace(ws)
        } else {
            self
        };
        (if cfg.workspace_modifier == state {
            self.spec_set_active_workspace_requests(cfg, screen, ws)
        } else {
            Seq::empty()
        }) + (if cfg.workspace_move_window_modifier == state {
            v1.spec_set_window_workspace_requests(cfg, screen, child, Some(ws))
        } else {
            Seq::empty()
        })
    }

    /// What a workspace digit key press needs of the layout precondition.
    pub open spec fn spec_workspace_key_pre(
        self,
        cfg: Config,
        screen: Screen,
        ws: u8,
        state: u16,
        child: u32,
    ) -> bool {
        let v1 = if cfg.workspace_modifier == state {
            self.spec_set_active_workspace(ws)
        } else {
            self
        };
        &&& (cfg.workspace_modifier == state ==> self.spec_set_active_workspace(ws).resize_pre(
            cfg,
            screen,
        ))
        &&& (cfg.workspace_move_window_modifier == state && !v1.reassign_noop(Some(ws))
            ==> v1.spec_set_window_workspace(child, Some(ws)).resize_pre(cfg, screen))
    }
}

impl Workspaces {
    /// The bookkeeping holds one list per workspace.
    pub open spec fn wf(self) -> bool {
        self.window_lists@.len() == 9
    }

    /// A fresh plugin with nine empty window lists.
    pub fn new() -> (r: Workspaces)
        ensures
            r.wf(),
            forall|i: int| 0 <= i < 9 ==> (#[trigger] r.window_lists@[i])@.len() == 0,
    {
        let mut lists: Vec<Vec<u32>> = Vec::new();
        let mut i: usize = 0;
        while i < 9
            invariant
                0 <= i <= 9,
                lists@.len() == i,
                forall|j: int| 0 <= j < i ==> (#[trigger] lists@[j])@.len() == 0,
            decreases 9 - i,
        {
            lists.push(Vec::new());
            i += 1;
        }
        Workspaces { window_lists: lists }
    }

    /// A current-desktop message forces workspace 1 active, regardless of
    /// the desktop index the message carries; this fixed response is
    /// long-standing observed behaviour, preserved as-is.
    pub fn on_client_message(
        &self,
        clients: &mut Clients,
        cfg: &Config,
        screen: Screen,
        event: &ClientMessageInfo,
    ) -> (reqs: Vec<Request>)
        requires
            old(clients).wf(),
            event.kind is CurrentDesktop ==> old(clients)@.spec_set_active_workspace(
                1,
            ).resize_pre(*cfg, screen),
        ensures
            final(clients)@ == if event.kind is CurrentDesktop {
                old(clients)@.spec_set_active_workspace(1)
            } else {
                old(clients)@
            },
            final(clients).wf(),
            reqs@ == if event.kind is CurrentDesktop {
                old(clients)@.spec_set_active_workspace_requests(*cfg, screen, 1)
            } else {
                Seq::<Request>::empty()
            },
    {
        let is_current_desktop = match event.kind {
            MessageKind::CurrentDesktop => true,
            _ => false,
        };
        if is_current_desktop {
            clients.set_active_workspace(cfg, screen, 1)
        } else {
            Vec::new()
        }
    }

    /// On a key press of a workspace digit: with the switch modifier held
    /// the workspace becomes active, and with the move modifier held the
    /// event's child window moves to it without switching the view.
    /// `resolved` holds the keycodes the nine digit keysyms resolved to; a
    /// digit without a keycode is a fatal configuration error, left out by
    /// precondition.
    pub fn on_key_press(
        &self,
        clients: &mut Clients,
        cfg: &Config,
        screen: Screen,
        resolved: &Vec<Option<u8>>,
        event: &KeyPressInfo,
    ) -> (reqs: Vec<Request>)
        requires
            old(clients).wf(),
            resolved@.len() == 9,
            forall|k: int| 0 <= k < 9 ==> (#[trigger] resolved@[k]) is Some,
            match spec_pressed_digit(resolved@, event.keycode, 0) {
                Some(ws) => old(clients)@.spec_workspace_key_pre(
                    *cfg,
                    screen,
                    ws,
                    event.state,
                    event.child,
                ),
                None => true,
            },
        ensures
            final(clients)@ == match spec_pressed_digit(resolved@, event.keycode, 0) {
                Some(ws) => old(clients)@.spec_workspace_key(*cfg, ws, event.state, event.child),
                None => old(clients)@,
            },
            final(clients).wf(),
            reqs@ == match spec_pressed_digit(resolved@, event.keycode, 0) {
                Some(ws) => old(clients)@.spec_workspace_key_requests(
                    *cfg,
                    screen,
                    ws,
                    event.state,
                    event.child,
                ),
                None => Seq::<Request>::empty(),
            },
    {
        let mut pressed: Option<u8> = None;
        let mut k: usize = 0;
        while k < 9 && pressed.is_none()
            invariant
                0 <= k <= 9,
                resolved@.len() == 9,
                match pressed {
                    Some(ws) => k < 9 && 1 <= ws <= 9 && spec_pressed_digit(
                        resolved@,
                        event.keycode,
                        0,
                    ) == Some(ws),
                    None => spec_pressed_digit(resolved@, event.keycode, 0) == spec_pressed_digit(
                        resolved@,
                        event.keycode,
                        k as int,
                    ),
                },
            decreases 9 - k + (if pressed is Some {
                0int
            } else {
                1int
            }),
        {
            let hit = match resolved[k] {
                Some(kc) => kc == event.keycode,
                None => false,
            };
            if hit {
                pressed = Some((k + 1) as u8);
            } else {
                k += 1;
            }
        }
        let mut reqs: Vec<Request> = Vec::new();
        if let Some(ws) = pressed {
            if cfg.workspace_modifier == event.state {
                let mut step = clients.set_active_workspace(cfg, screen, ws);
                reqs.append(&mut step);
            }
            if cfg.workspace_move_window_modifier == event.state {
                let mut step = clients.set_window_workspace(cfg, screen, event.child, Some(ws));
                reqs.append(&mut step);
            }
            proof {
                assert(reqs@ =~= old(clients)@.spec_workspace_key_requests(
                    *cfg,
                    screen,
                    ws,
                    event.state,
                    event.child,
                ));
            }
        }
        reqs
    }

    /// A map request records the window into the currently active
    /// workspace's window list.
    pub fn on_map_request(&mut self, clients: &Clients, window: u32)
        requires
            old(self).wf(),
            clients.wf(),
        ensures
            final(self).wf(),
            final(self).window_lists@.len() == old(self).window_lists@.len(),
            forall|i: int|
                0 <= i < 9 && i != clients.active_workspace - 1 ==> (#[trigger] final(self)
                    .window_lists@[i])@ == (old(self).window_lists@[i])@,
            (final(self).window_lists@[clients.active_workspace - 1])@ == (old(
                self,
            ).window_lists@[clients.active_workspace - 1])@.push(window),
    {
        let idx = (clients.active_workspace - 1) as usize;
        let list = &mut self.window_lists[idx];
        list.push(window);
    }
}

} // verus!
