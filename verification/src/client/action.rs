use crate::client::client::Client;
use crate::client::clients::{ratio_wf, Clients, ClientsView};
use crate::client::geometry::visible_controlled;
use crate::command::Request;
use crate::config::{Action, Config};
use crate::screen::Screen;
use vstd::prelude::*;
use vstd::seq_lib::*;

verus! {

/// The position of the client holding `active` within `s`, if any.
pub open spec fn spec_position_of(s: Seq<Client>, active: Option<u32>) -> Option<int>
    decreases s.len(),
{
    if s.len() == 0 {
        None
    } else if active == Some(s[0].window) {
        Some(0int)
    } else {
        match spec_position_of(s.drop_first(), active) {
            Some(i) => Some(i + 1),
            None => None,
        }
    }
}

/// The current selection position: the active window's index among the
/// visible, controlled clients, or position 0 as a safe default.
pub open spec fn spec_active_pos(s: Seq<Client>, active: Option<u32>) -> int {
    match spec_position_of(s, active) {
        Some(i) => i,
        None => 0,
    }
}

/// Where a selection action moves from position `pos` among `len`
/// candidates: selecting above a singleton (or nothing) stays at 0, above
/// position 0 wraps to the last position, and otherwise decrements;
/// selecting below the last position (or within a singleton) wraps to 0,
/// and otherwise increments.  Other actions keep the position.
pub open spec fn spec_select_pos(len: int, pos: int, action: Action) -> int {
    match action {
        Action::SelectAbove => if len <= 1 {
            0
        } else if pos == 0 {
            len - 1
        } else {
            pos - 1
        },
        Action::SelectBelow => if len <= 1 || pos >= len - 1 {
            0
        } else {
            pos + 1
        },
        _ => pos,
    }
}

/// Selection from position 0 wraps to the end, selection below the last
/// position wraps to the start, and interior positions move by exactly one.
pub proof fn lemma_selection_wraparound(len: int, pos: int)
    requires
        2 <= len,
        0 <= pos < len,
    ensures
        spec_select_pos(len, 0, Action::SelectAbove) == len - 1,
        spec_select_pos(len, len - 1, Action::SelectBelow) == 0,
        0 < pos ==> spec_select_pos(len, pos, Action::SelectAbove) == pos - 1,
        pos < len - 1 ==> spec_select_pos(len, pos, Action::SelectBelow) == pos + 1,
{
}

/// The master-pane ratio after a sizing action: a shrink takes one step of
/// five hundredths while the ratio is strictly above the floor of ten
/// hundredths, an expansion adds one step while strictly below the ceiling
/// of ninety, and any other action keeps the ratio.
pub open spec fn spec_adjust_ratio(r: u32, action: Action) -> u32 {
    match action {
        Action::ShrinkFront => if r > 10 {
            (r - 5) as u32
        } else {
            r
        },
        Action::ExpandFront => if r < 90 {
            (r + 5) as u32
        } else {
            r
        },
        _ => r,
    }
}

/// Repeated shrinking approaches but never passes the floor of one tenth,
/// and repeated expansion approaches but never passes nine tenths; each
/// step keeps the ratio valid.
pub proof fn lemma_ratio_clamping(r: u32)
    requires
        ratio_wf(r),
    ensures
        ratio_wf(spec_adjust_ratio(r, Action::ShrinkFront)),
        ratio_wf(spec_adjust_ratio(r, Action::ExpandFront)),
        spec_adjust_ratio(r, Action::ShrinkFront) >= 10,
        spec_adjust_ratio(r, Action::ExpandFront) <= 90,
        r > 10 ==> spec_adjust_ratio(r, Action::ShrinkFront) == r - 5,
        r <= 10 ==> spec_adjust_ratio(r, Action::ShrinkFront) == r,
        r < 90 ==> spec_adjust_ratio(r, Action::ExpandFront) == r + 5,
        r >= 90 ==> spec_adjust_ratio(r, Action::ExpandFront) == r,
{
}

/// How the active window is closed: through the graceful-close protocol
/// message when the window advertises it, and otherwise by destroying the
/// client's connection outright.
pub open spec fn spec_close_requests(active: Option<u32>, supports_delete: bool) -> Seq<Request> {
    match active {
        Some(w) => if supports_delete {
            seq![Request::SendDeleteMessage { window: w }]
        } else {
            seq![Request::SetCloseDownModeDestroyAll, Request::KillClient { window: w }]
        },
        None => Seq::empty(),
    }
}

/// The fallback when the graceful-close message could not be delivered:
/// the connection's close-down mode is switched to destroy-all and the
/// client killed, exactly as for a window that never advertised the
/// protocol.
pub fn close_fallback(window: u32) -> (reqs: Vec<Request>)
    ensures
        reqs@ == spec_close_requests(Some(window), false),
{
    let mut reqs: Vec<Request> = Vec::new();
    reqs.push(Request::SetCloseDownModeDestroyAll);
    reqs.push(Request::KillClient { window });
    proof {
        assert(reqs@ =~= spec_close_requests(Some(window), false));
    }
    reqs
}

impl ClientsView {
    /// The state after the selection step of an action: the client at the
    /// resulting selection position, if there is one, becomes active.
    pub open spec fn spec_action_select(self, action: Action) -> ClientsView {
        let vc = visible_controlled(self.clients);
        let pos = spec_active_pos(vc, self.active_window);
        let np = spec_select_pos(vc.len() as int, pos, action);
        if 0 <= np < vc.len() {
            self.spec_set_active_window(Some(vc[np].window))
        } else {
            self
        }
    }

    /// The state after an action is handled: the selection step, then the
    /// active workspace's master-pane ratio adjusted for a sizing action.
    pub open spec fn spec_handle_action(self, action: Action) -> ClientsView {
        let v1 = self.spec_action_select(action);
        let idx = v1.active_workspace - 1;
        ClientsView {
            clients: v1.clients,
            active_workspace: v1.active_workspace,
            active_window: v1.active_window,
            dock_window: v1.dock_window,
            front_window_ratio: v1.front_window_ratio.update(
                idx as int,
                spec_adjust_ratio(v1.front_window_ratio[idx as int], action),
            ),
        }
    }

    /// The requests of handling an action: the close protocol for a close
    /// action, the focus change of the selection step, and a full relayout.
    pub open spec fn spec_handle_action_requests(
        self,
        cfg: Config,
        screen: Screen,
        action: Action,
        supports_delete: bool,
    ) -> Seq<Request> {
        let vc = visible_controlled(self.clients);
        let pos = spec_active_pos(vc, self.active_window);
        let np = spec_select_pos(vc.len() as int, pos, action);
        (if action is Close {
            spec_close_requests(self.active_window, supports_delete)
        } else {
            Seq::empty()
        }) + (if 0 <= np < vc.len() {
            self.spec_set_active_window_requests(cfg, Some(vc[np].window))
        } else {
            Seq::empty()
        }) + self.spec_handle_action(action).spec_resize_requests(cfg, screen)
    }
}

impl Clients {
    /// Executes a window-management action.
    ///
    /// A close action asks the active window to close: `supports_delete`
    /// says whether it advertises the graceful-close protocol, which the
    /// shell reads from the window's protocol list beforehand.  Selection
    /// actions move the focus through the visible, controlled clients with
    /// wraparound; sizing actions adjust the active workspace's master-pane
    /// ratio one clamped step.  Every action concludes with a relayout.
    /// The `_window` argument, the event's originating window, is unused.
    pub fn handle_action(
        &mut self,
        cfg: &Config,
        screen: Screen,
        _window: u32,
        action: Action,
        supports_delete: bool,
    ) -> (reqs: Vec<Request>)
        requires
            old(self).wf(),
            old(self)@.spec_handle_action(action).resize_pre(*cfg, screen),
        ensures
            final(self)@ == old(self)@.spec_handle_action(action),
            final(self).wf(),
            reqs@ == old(self)@.spec_handle_action_requests(*cfg, screen, action, supports_delete),
    {
        broadcast use Seq::filter_distributes_over_add;

        let mut reqs: Vec<Request> = Vec::new();

        // Close protocol.
        let is_close = match action {
            Action::Close => true,
            _ => false,
        };
        if is_close {
            if let Some(w) = self.active_window {
                if supports_delete {
                    reqs.push(Request::SendDeleteMessage { window: w });
                } else {
                    reqs.push(Request::SetCloseDownModeDestroyAll);
                    reqs.push(Request::KillClient { window: w });
                }
            }
        }
        proof {
            assert(reqs@ =~= if action is Close {
                spec_close_requests(old(self)@.active_window, supports_delete)
            } else {
                Seq::empty()
            });
        }

        // The selection candidates: visible and controlled, in order.
        let mut vc: Vec<Client> = Vec::new();
        let mut i: usize = 0;
        while i < self.clients.len()
            invariant
                0 <= i <= self.clients@.len(),
                self == old(self),
                vc@ == visible_controlled(self.clients@.take(i as int)),
            decreases self.clients@.len() - i,
        {
            let c = self.clients[i];
            proof {
                assert(self.clients@.take(i + 1) =~= self.clients@.take(i as int) + seq![
                    self.clients@[i as int],
                ]);
                let pred = |c: Client| crate::client::client::is_tiled_candidate(c);
                assert(seq![c].filter(pred) =~= if pred(c) {
                    seq![c]
                } else {
                    Seq::<Client>::empty()
                }) by {
                    reveal_with_fuel(Seq::filter, 2);
                    assert(seq![c].drop_last() =~= Seq::<Client>::empty());
                }
            }
            if c.visible && c.controlled {
                vc.push(c);
            }
            i += 1;
        }
        proof {
            assert(self.clients@.take(self.clients@.len() as int) =~= self.clients@);
        }

        // The active window's position among the candidates, default 0.
        let ghost gvc = vc@;
        let mut pos: usize = 0;
        let mut found = false;
        let mut j: usize = 0;
        proof {
            assert(gvc.skip(0) =~= gvc);
        }
        while j < vc.len() && !found
            invariant
                0 <= j <= gvc.len(),
                vc@ == gvc,
                self == old(self),
                found ==> pos == j && spec_position_of(gvc, self.active_window) == Some(
                    j as int,
                ),
                !found ==> pos == 0 && match spec_position_of(
                    gvc.skip(j as int),
                    self.active_window,
                ) {
                    Some(k) => spec_position_of(gvc, self.active_window) == Some(j + k),
                    None => spec_position_of(gvc, self.active_window) is None,
                },
            decreases gvc.len() - j + (if found {
                0int
            } else {
                1int
            }),
        {
            let c = &vc[j];
            let hit = match self.active_window {
                Some(a) => a == c.window,
                None => false,
            };
            proof {
                assert(gvc.skip(j as int)[0] == gvc[j as int]);
                assert(gvc.skip(j as int).drop_first() =~= gvc.skip(j + 1));
            }
            if hit {
                pos = j;
                found = true;
            } else {
                j += 1;
            }
        }
        proof {
            if !found {
                assert(gvc.skip(gvc.len() as int) =~= Seq::<Client>::empty());
            }
            assert(pos == spec_active_pos(gvc, self.active_window));
        }

        // The selection step.
        let len = vc.len();
        let new_pos: usize = match action {
            Action::SelectAbove => if len <= 1 {
                0
            } else if pos == 0 {
                len - 1
            } else {
                pos - 1
            },
            Action::SelectBelow => if len <= 1 || pos >= len - 1 {
                0
            } else {
                pos + 1
            },
            _ => pos,
        };
        proof {
            assert(new_pos == spec_select_pos(gvc.len() as int, pos as int, action));
        }
        if new_pos < vc.len() {
            let target = vc[new_pos].window;
            let mut focus = self.set_active_window(cfg, Some(target));
            reqs.append(&mut focus);
        }

        // The sizing step.
        let idx = (self.active_workspace - 1) as usize;
        let cur = self.front_window_ratio[idx];
        let adjusted = match action {
            Action::ShrinkFront => if cur > 10 {
                cur - 5
            } else {
                cur
            },
            Action::ExpandFront => if cur < 90 {
                cur + 5
            } else {
                cur
            },
            _ => cur,
        };
        proof {
            assert(ratio_wf(old(self)@.front_window_ratio[idx as int]));
            assert(adjusted == spec_adjust_ratio(cur, action));
        }
        self.front_window_ratio[idx] = adjusted;
        proof {
            assert(self@ == old(self)@.spec_handle_action(action));
            assert(self.wf());
        }

        let mut tail = self.resize(cfg, screen);
        reqs.append(&mut tail);
        proof {
            assert(reqs@ =~= old(self)@.spec_handle_action_requests(
                *cfg,
                screen,
                action,
                supports_delete,
            ));
        }
        reqs
    }
}

} // verus!
