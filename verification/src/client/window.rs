use crate::client::client::{has_client, Client};
use crate::client::clients::{Clients, ClientsView};
use crate::command::Request;
use crate::config::Config;
use crate::screen::Screen;
use vstd::prelude::*;

verus! {

/// The position of the (unique) client record of `window`.
pub open spec fn client_index(s: Seq<Client>, window: u32) -> int {
    choose|i: int| 0 <= i < s.len() && s[i].window == window
}

/// There is a client record of `window` that is currently visible.
pub open spec fn has_visible_client(s: Seq<Client>, window: u32) -> bool {
    exists|i: int| 0 <= i < s.len() && s[i].window == window && s[i].visible
}

/// There is a client record of `window` that is currently hidden.
pub open spec fn has_hidden_client(s: Seq<Client>, window: u32) -> bool {
    exists|i: int| 0 <= i < s.len() && s[i].window == window && !s[i].visible
}

/// The client records with the visibility of `window` replaced.
pub open spec fn spec_set_visible(s: Seq<Client>, window: u32, visible: bool) -> Seq<Client> {
    s.map_values(
        |c: Client|
            if c.window == window {
                c.with_visible(visible)
            } else {
                c
            },
    )
}

impl ClientsView {
    /// This state with the client sequence replaced.
    pub open spec fn with_clients(self, clients: Seq<Client>) -> ClientsView {
        ClientsView {
            clients,
            active_workspace: self.active_workspace,
            active_window: self.active_window,
            dock_window: self.dock_window,
            front_window_ratio: self.front_window_ratio,
        }
    }

    /// Whether a focus change to `window` is ignored: the target is the
    /// dock window, or is already active.
    pub open spec fn active_noop(self, window: Option<u32>) -> bool {
        ||| (window is Some && window == self.dock_window)
        ||| window == self.active_window
    }

    /// The state after a focus change to `window`.
    pub open spec fn spec_set_active_window(self, window: Option<u32>) -> ClientsView {
        if self.active_noop(window) {
            self
        } else {
            ClientsView {
                clients: self.clients,
                active_workspace: self.active_workspace,
                active_window: window,
                dock_window: self.dock_window,
                front_window_ratio: self.front_window_ratio,
            }
        }
    }

    /// The requests of a focus change to `window`: focus and active border
    /// colour on the target, the inactive border colour restored on the
    /// window losing the focus, and the active-window property published
    /// (`0` clears it); nothing when the change is ignored.
    pub open spec fn spec_set_active_window_requests(
        self,
        cfg: Config,
        window: Option<u32>,
    ) -> Seq<Request> {
        if self.active_noop(window) {
            Seq::empty()
        } else {
            (match window {
                Some(t) => seq![
                    Request::SetInputFocus { window: t },
                    Request::SetBorderColor { window: t, color: cfg.active_border },
                ],
                None => Seq::empty(),
            }) + (match self.active_window {
                Some(p) => seq![Request::SetBorderColor { window: p, color: cfg.inactive_border }],
                None => Seq::empty(),
            }) + seq![
                Request::PublishActiveWindow {
                    window: match window {
                        Some(t) => t,
                        None => 0,
                    },
                },
            ]
        }
    }

    /// The state after hiding `window`.
    pub open spec fn spec_hide(self, window: u32) -> ClientsView {
        self.with_clients(spec_set_visible(self.clients, window, false))
    }

    /// The requests of hiding `window`: an unmap when it was visible, then
    /// the workspace names re-published and a full relayout.
    pub open spec fn spec_hide_requests(self, cfg: Config, screen: Screen, window: u32) -> Seq<
        Request,
    > {
        (if has_visible_client(self.clients, window) {
            seq![Request::UnmapWindow { window }]
        } else {
            Seq::empty()
        }) + seq![Request::PublishWorkspaceNames] + self.spec_hide(window).spec_resize_requests(
            cfg,
            screen,
        )
    }

    /// The state after showing `window`.
    pub open spec fn spec_show(self, window: u32) -> ClientsView {
        self.with_clients(spec_set_visible(self.clients, window, true))
    }

    /// The requests of showing `window`: a map when it was hidden, then the
    /// workspace names re-published and a full relayout.
    pub open spec fn spec_show_requests(self, cfg: Config, screen: Screen, window: u32) -> Seq<
        Request,
    > {
        (if has_hidden_client(self.clients, window) {
            seq![Request::MapWindow { window }]
        } else {
            Seq::empty()
        }) + seq![Request::PublishWorkspaceNames] + self.spec_show(window).spec_resize_requests(
            cfg,
            screen,
        )
    }

    /// The first controlled client's window, in registry order.
    pub open spec fn first_controlled(s: Seq<Client>) -> Option<u32>
        decreases s.len(),
    {
        if s.len() == 0 {
            None
        } else if s[0].controlled {
            Some(s[0].window)
        } else {
            Self::first_controlled(s.drop_first())
        }
    }

    /// The state after the client record of `window` is removed outright;
    /// if it held the focus, the first remaining controlled client (if any)
    /// becomes active.
    pub open spec fn spec_destroy(self, window: u32) -> ClientsView {
        let removed = if has_client(self.clients, window) {
            self.clients.remove(client_index(self.clients, window))
        } else {
            self.clients
        };
        let mid = self.with_clients(removed);
        if self.active_window == Some(window) {
            mid.spec_set_active_window(Self::first_controlled(removed))
        } else {
            mid
        }
    }

    /// The requests of destroying `window`: the focus handed over when the
    /// destroyed window held it, then the client list and workspace names
    /// re-published.
    pub open spec fn spec_destroy_requests(self, cfg: Config, window: u32) -> Seq<Request> {
        let removed = if has_client(self.clients, window) {
            self.clients.remove(client_index(self.clients, window))
        } else {
            self.clients
        };
        let mid = self.with_clients(removed);
        (if self.active_window == Some(window) {
            mid.spec_set_active_window_requests(cfg, Self::first_controlled(removed))
        } else {
            Seq::empty()
        }) + seq![Request::PublishClientList, Request::PublishWorkspaceNames]
    }

    /// The full-screen flag that results from a state-change request:
    /// an explicit `Some(true)` always sets it; with no explicit state, a
    /// toggle negates the previous flag and otherwise the previous flag is
    /// kept.
    pub open spec fn spec_full_screen_flag(prev: bool, status: Option<bool>, toggle: bool) -> bool {
        match status {
            Some(true) => true,
            Some(false) => prev,
            None => if toggle {
                !prev
            } else {
                prev
            },
        }
    }

    /// The state after a full-screen state change of `window`.
    pub open spec fn spec_set_full_screen(
        self,
        window: u32,
        status: Option<bool>,
        toggle: bool,
    ) -> ClientsView {
        self.with_clients(
            self.clients.map_values(
                |c: Client|
                    if c.window == window {
                        c.with_full_screen(Self::spec_full_screen_flag(c.full_screen, status, toggle))
                    } else {
                        c
                    },
            ),
        )
    }

    /// The requests of a full-screen state change: the window's full-screen
    /// property written and a full relayout, when the window is managed at
    /// all.
    pub open spec fn spec_set_full_screen_requests(
        self,
        cfg: Config,
        screen: Screen,
        window: u32,
        status: Option<bool>,
        toggle: bool,
    ) -> Seq<Request> {
        if has_client(self.clients, window) {
            let c = self.clients[client_index(self.clients, window)];
            seq![
                Request::SetFullScreenState {
                    window,
                    full_screen: Self::spec_full_screen_flag(c.full_screen, status, toggle),
                },
            ] + self.spec_set_full_screen(window, status, toggle).spec_resize_requests(cfg, screen)
        } else {
            Seq::empty()
        }
    }

    /// The state after the controlled flag of `window` is replaced.
    pub open spec fn spec_set_controlled(self, window: u32, status: bool) -> ClientsView {
        self.with_clients(
            self.clients.map_values(
                |c: Client|
                    if c.window == window {
                        c.with_controlled(status)
                    } else {
                        c
                    },
            ),
        )
    }
}

impl Clients {
    /// The position of the client record of `window`, if there is one.
    pub(crate) fn find_client(&self, window: u32) -> (r: Option<usize>)
        ensures
            match r {
                Some(i) => i < self.clients@.len() && self.clients@[i as int].window == window,
                None => !has_client(self.clients@, window),
            },
    {
        let mut i: usize = 0;
        while i < self.clients.len()
            invariant
                0 <= i <= self.clients@.len(),
                forall|j: int| 0 <= j < i ==> self.clients@[j].window != window,
            decreases self.clients@.len() - i,
        {
            if self.clients[i].window == window {
                return Some(i);
            }
            i += 1;
        }
        None
    }

    /// The request that subscribes `window` to property-change, structure
    /// and enter events.
    pub fn enable_event_mask(&self, window: u32) -> (r: Request)
        ensures
            r == (Request::EnableEventMask { window }),
    {
        Request::EnableEventMask { window }
    }

    /// The request that drops the enter-event subscription of `window`
    /// while the manager reconfigures it.
    pub fn disable_event_mask(&self, window: u32) -> (r: Request)
        ensures
            r == (Request::DisableEventMask { window }),
    {
        Request::DisableEventMask { window }
    }

    /// Re-publishes the client-list and desktop-name properties from the
    /// current state.
    pub fn refresh_clients(&self) -> (reqs: Vec<Request>)
        ensures
            reqs@ == seq![Request::PublishClientList, Request::PublishWorkspaceNames],
    {
        let mut reqs: Vec<Request> = Vec::new();
        reqs.push(Request::PublishClientList);
        reqs.push(Request::PublishWorkspaceNames);
        proof {
            assert(reqs@ =~= seq![Request::PublishClientList, Request::PublishWorkspaceNames]);
        }
        reqs
    }

    /// Moves the input focus to `window` (or clears it with `None`).
    ///
    /// The change is ignored when the target is the dock window or is
    /// already active; otherwise the target gains the focus and the active
    /// border colour, the previously focused window gets the inactive
    /// colour back, and the active-window property is published.
    pub fn set_active_window(&mut self, cfg: &Config, window: Option<u32>) -> (reqs: Vec<Request>)
        requires
            old(self).wf(),
        ensures
            final(self)@ == old(self)@.spec_set_active_window(window),
            final(self).wf(),
            reqs@ == old(self)@.spec_set_active_window_requests(*cfg, window),
    {
        let noop = match (window, self.dock_window) {
            (Some(w), Some(d)) => w == d,
            _ => false,
        } || match (window, self.active_window) {
            (Some(w), Some(a)) => w == a,
            (None, None) => true,
            _ => false,
        };
        let mut reqs: Vec<Request> = Vec::new();
        if noop {
            proof {
                assert(reqs@ =~= old(self)@.spec_set_active_window_requests(*cfg, window));
            }
            return reqs;
        }
        if let Some(t) = window {
            reqs.push(Request::SetInputFocus { window: t });
            reqs.push(Request::SetBorderColor { window: t, color: cfg.active_border });
        }
        if let Some(p) = self.active_window {
            reqs.push(Request::SetBorderColor { window: p, color: cfg.inactive_border });
        }
        reqs.push(
            Request::PublishActiveWindow {
                window: match window {
                    Some(t) => t,
                    None => 0,
                },
            },
        );
        self.active_window = window;
        proof {
            assert(reqs@ =~= old(self)@.spec_set_active_window_requests(*cfg, window));
        }
        reqs
    }

    /// Marks `window` invisible, unmapping it if it was mapped, and
    /// triggers a relayout; idempotent when already hidden.
    pub fn hide_window(&mut self, cfg: &Config, screen: Screen, window: u32) -> (reqs: Vec<Request>)
        requires
            old(self).wf(),
            old(self)@.spec_hide(window).resize_pre(*cfg, screen),
        ensures
            final(self)@ == old(self)@.spec_hide(window),
            final(self).wf(),
            reqs@ == old(self)@.spec_hide_requests(*cfg, screen, window),
    {
        let mut reqs: Vec<Request> = Vec::new();
        if let Some(i) = self.find_client(window) {
            let c = self.clients[i];
            if c.visible {
                reqs.push(Request::UnmapWindow { window });
            }
            let updated = Client {
                visible: false,
                window: c.window,
                workspace: c.workspace,
                controlled: c.controlled,
                full_screen: c.full_screen,
                padding_top: c.padding_top,
            };
            self.clients[i] = updated;
            proof {
                assert(self.clients@ =~= spec_set_visible(old(self)@.clients, window, false));
            }
        } else {
            proof {
                assert(self.clients@ =~= spec_set_visible(old(self)@.clients, window, false));
            }
        }
        reqs.push(Request::PublishWorkspaceNames);
        let mut tail = self.resize(cfg, screen);
        reqs.append(&mut tail);
        proof {
            assert(reqs@ =~= old(self)@.spec_hide_requests(*cfg, screen, window));
        }
        reqs
    }

    /// Marks `window` visible, mapping it if it was hidden, and triggers a
    /// relayout.
    pub fn show(&mut self, cfg: &Config, screen: Screen, window: u32) -> (reqs: Vec<Request>)
        requires
            old(self).wf(),
            old(self)@.spec_show(window).resize_pre(*cfg, screen),
        ensures
            final(self)@ == old(self)@.spec_show(window),
            final(self).wf(),
            reqs@ == old(self)@.spec_show_requests(*cfg, screen, window),
    {
        let mut reqs: Vec<Request> = Vec::new();
        if let Some(i) = self.find_client(window) {
            let c = self.clients[i];
            if !c.visible {
                reqs.push(Request::MapWindow { window });
            }
            let updated = Client {
                visible: true,
                window: c.window,
                workspace: c.workspace,
                controlled: c.controlled,
                full_screen: c.full_screen,
                padding_top: c.padding_top,
            };
            self.clients[i] = updated;
            proof {
                assert(self.clients@ =~= spec_set_visible(old(self)@.clients, window, true));
            }
        } else {
            proof {
                assert(self.clients@ =~= spec_set_visible(old(self)@.clients, window, true));
            }
        }
        reqs.push(Request::PublishWorkspaceNames);
        let mut tail = self.resize(cfg, screen);
        reqs.append(&mut tail);
        proof {
            assert(reqs@ =~= old(self)@.spec_show_requests(*cfg, screen, window));
        }
        reqs
    }

    /// Removes the client record of `window` outright; if it held the
    /// focus, the first remaining controlled client (or nothing) takes it.
    pub fn destroy(&mut self, cfg: &Config, window: u32) -> (reqs: Vec<Request>)
        requires
            old(self).wf(),
        ensures
            final(self)@ == old(self)@.spec_destroy(window),
            final(self).wf(),
            reqs@ == old(self)@.spec_destroy_requests(*cfg, window),
    {
        let was_active = match self.active_window {
            Some(a) => a == window,
            None => false,
        };
        if let Some(i) = self.find_client(window) {
            self.clients.remove(i);
            proof {
                let s = old(self)@.clients;
                let j = client_index(s, window);
                assert(0 <= j < s.len() && s[j].window == window);
                assert(j == i);
            }
        }
        let mut reqs: Vec<Request> = Vec::new();
        if was_active {
            let next = self.first_controlled_window();
            let mut focus = self.set_active_window(cfg, next);
            reqs.append(&mut focus);
        }
        let mut tail = self.refresh_clients();
        reqs.append(&mut tail);
        proof {
            assert(reqs@ =~= old(self)@.spec_destroy_requests(*cfg, window));
        }
        reqs
    }

    /// The first controlled client's window, in registry order.
    fn first_controlled_window(&self) -> (r: Option<u32>)
        ensures
            r == ClientsView::first_controlled(self.clients@),
    {
        let mut i: usize = 0;
        proof {
            assert(self.clients@.skip(0) =~= self.clients@);
        }
        while i < self.clients.len()
            invariant
                0 <= i <= self.clients@.len(),
                forall|j: int| 0 <= j < i ==> !self.clients@[j].controlled,
                ClientsView::first_controlled(self.clients@) == ClientsView::first_controlled(
                    self.clients@.skip(i as int),
                ),
            decreases self.clients@.len() - i,
        {
            let c = &self.clients[i];
            proof {
                lemma_first_controlled_step(self.clients@, i as int);
            }
            if c.controlled {
                return Some(c.window);
            }
            i += 1;
        }
        proof {
            assert(self.clients@.skip(self.clients@.len() as int) =~= Seq::<Client>::empty());
        }
        None
    }

    /// Replaces whether the layout engine owns the geometry of `window`,
    /// used when a window's advertised type changes after creation.
    pub fn set_controlled_status(&mut self, window: u32, status: bool)
        requires
            old(self).wf(),
        ensures
            final(self)@ == old(self)@.spec_set_controlled(window, status),
            final(self).wf(),
    {
        if let Some(i) = self.find_client(window) {
            let c = self.clients[i];
            let updated = Client {
                controlled: status,
                window: c.window,
                workspace: c.workspace,
                visible: c.visible,
                full_screen: c.full_screen,
                padding_top: c.padding_top,
            };
            self.clients[i] = updated;
            proof {
                assert(self.clients@ =~= old(self)@.spec_set_controlled(window, status).clients);
            }
        } else {
            proof {
                assert(self.clients@ =~= old(self)@.spec_set_controlled(window, status).clients);
            }
        }
    }

    /// Applies a full-screen state change to `window` and, when the window
    /// is managed, writes its full-screen property and triggers a relayout.
    ///
    /// The resulting flag follows the state-change convention: an explicit
    /// `Some(true)` forces full screen; with no explicit state, a toggle
    /// request negates the previous state and otherwise the previous state
    /// is kept.
    pub fn set_full_screen(
        &mut self,
        cfg: &Config,
        screen: Screen,
        window: u32,
        status: Option<bool>,
        toggle: bool,
    ) -> (reqs: Vec<Request>)
        requires
            old(self).wf(),
            old(self)@.spec_set_full_screen(window, status, toggle).resize_pre(*cfg, screen),
        ensures
            final(self)@ == old(self)@.spec_set_full_screen(window, status, toggle),
            final(self).wf(),
            reqs@ == old(self)@.spec_set_full_screen_requests(*cfg, screen, window, status, toggle),
    {
        let mut reqs: Vec<Request> = Vec::new();
        if let Some(i) = self.find_client(window) {
            let c = self.clients[i];
            let flag = match status {
                Some(true) => true,
                Some(false) => c.full_screen,
                None => if toggle {
                    !c.full_screen
                } else {
                    c.full_screen
                },
            };
            let updated = Client {
                full_screen: flag,
                window: c.window,
                workspace: c.workspace,
                visible: c.visible,
                controlled: c.controlled,
                padding_top: c.padding_top,
            };
            self.clients[i] = updated;
            proof {
                let s = old(self)@.clients;
                let j = client_index(s, window);
                assert(0 <= j < s.len() && s[j].window == window);
                assert(j == i);
                assert(self.clients@ =~= old(self)@.spec_set_full_screen(
                    window,
                    status,
                    toggle,
                ).clients);
            }
            reqs.push(Request::SetFullScreenState { window, full_screen: flag });
            let mut tail = self.resize(cfg, screen);
            reqs.append(&mut tail);
        } else {
            proof {
                assert(self.clients@ =~= old(self)@.spec_set_full_screen(
                    window,
                    status,
                    toggle,
                ).clients);
            }
        }
        proof {
            assert(reqs@ =~= old(self)@.spec_set_full_screen_requests(
                *cfg,
                screen,
                window,
                status,
                toggle,
            ));
        }
        reqs
    }
}

/// The full truth table of a full-screen state change: an explicit set
/// always wins regardless of toggle and previous state, a bare toggle
/// negates the previous state, and a message with neither leaves the state
/// unchanged.
pub proof fn lemma_full_screen_truth_table(prev: bool)
    ensures
        ClientsView::spec_full_screen_flag(prev, Some(true), true) == true,
        ClientsView::spec_full_screen_flag(prev, Some(true), false) == true,
        ClientsView::spec_full_screen_flag(prev, None, true) == !prev,
        ClientsView::spec_full_screen_flag(prev, None, false) == prev,
{
}

/// Scanning past an uncontrolled client does not change which controlled
/// client comes first.
proof fn lemma_first_controlled_step(s: Seq<Client>, i: int)
    requires
        0 <= i < s.len(),
    ensures
        s.skip(i)[0] == s[i],
        !s[i].controlled ==> ClientsView::first_controlled(s.skip(i))
            == ClientsView::first_controlled(s.skip(i + 1)),
{
    assert(s.skip(i).drop_first() =~= s.skip(i + 1));
}

} // verus!
