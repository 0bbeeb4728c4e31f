use crate::client::client::{has_client, Client};
use crate::client::clients::{Clients, ClientsView};
use crate::client::geometry::{
    lemma_padding_top_nonneg, lemma_padding_top_prefix, spec_padding_top,
};
use crate::command::Request;
use crate::config::Config;
use vstd::prelude::*;

verus! {

impl ClientsView {
    /// The client record a newly mapped window gets: dock and dialog
    /// windows are uncontrolled (and a dock becomes the registry's single
    /// dock window); every other window is controlled and assigned to the
    /// active workspace.  New clients are visible and not full screen.
    pub open spec fn spec_classified_client(
        self,
        window: u32,
        is_dock: bool,
        is_dialog: bool,
        padding_top: u32,
    ) -> Client {
        let controlled = !is_dock && !is_dialog;
        Client {
            window,
            workspace: if controlled {
                Some(self.active_workspace)
            } else {
                None
            },
            visible: true,
            controlled,
            full_screen: false,
            padding_top,
        }
    }

    /// The state after registering a newly mapped window; a window already
    /// registered is left alone.
    pub open spec fn spec_create(
        self,
        window: u32,
        is_dock: bool,
        is_dialog: bool,
        padding_top: u32,
    ) -> ClientsView {
        if has_client(self.clients, window) {
            self
        } else {
            let c = self.spec_classified_client(window, is_dock, is_dialog, padding_top);
            let v1 = ClientsView {
                clients: self.clients.insert(0, c),
                active_workspace: self.active_workspace,
                active_window: self.active_window,
                dock_window: if is_dock {
                    Some(window)
                } else {
                    self.dock_window
                },
                front_window_ratio: self.front_window_ratio,
            };
            if v1.dock_window != Some(window) {
                v1.spec_set_active_window(Some(window))
            } else {
                v1
            }
        }
    }

    /// The requests of registering a newly mapped window: its event mask
    /// enabled; for non-dock windows the border width and inactive colour
    /// set and the window made active; controlled windows pushed below the
    /// summed top reservation; then the window mapped and the client list
    /// and workspace names re-published.  Nothing for a window already
    /// registered.
    pub open spec fn spec_create_requests(
        self,
        cfg: Config,
        window: u32,
        is_dock: bool,
        is_dialog: bool,
        padding_top: u32,
    ) -> Seq<Request> {
        if has_client(self.clients, window) {
            Seq::empty()
        } else {
            let c = self.spec_classified_client(window, is_dock, is_dialog, padding_top);
            let v1 = ClientsView {
                clients: self.clients.insert(0, c),
                active_workspace: self.active_workspace,
                active_window: self.active_window,
                dock_window: if is_dock {
                    Some(window)
                } else {
                    self.dock_window
                },
                front_window_ratio: self.front_window_ratio,
            };
            seq![Request::EnableEventMask { window }] + (if v1.dock_window != Some(window) {
                seq![
                    Request::SetBorderWidth { window, width: cfg.border_thickness },
                    Request::SetBorderColor { window, color: cfg.inactive_border },
                ] + v1.spec_set_active_window_requests(cfg, Some(window))
            } else {
                Seq::empty()
            }) + (if c.controlled {
                seq![Request::SetY { window, y: spec_padding_top(v1.clients) as u32 }]
            } else {
                Seq::empty()
            }) + seq![
                Request::MapWindow { window },
                Request::PublishClientList,
                Request::PublishWorkspaceNames,
            ]
        }
    }
}

impl Clients {
    /// Classifies and registers a newly mapped window, enabling its events,
    /// styling and focusing it when it is not the dock, keeping it clear of
    /// the reserved top space when controlled, mapping it, and re-publishing
    /// the client list and workspace names.  A window already registered is
    /// a no-op.
    ///
    /// The shell reads the window-type property (dock and dialog hints) and
    /// the strut-partial hint's top field beforehand and passes them in.
    pub fn create(
        &mut self,
        cfg: &Config,
        window: u32,
        is_dock: bool,
        is_dialog: bool,
        padding_top: u32,
    ) -> (reqs: Vec<Request>)
        requires
            old(self).wf(),
            spec_padding_top(old(self)@.clients) + padding_top <= u32::MAX,
        ensures
            final(self)@ == old(self)@.spec_create(window, is_dock, is_dialog, padding_top),
            final(self).wf(),
            reqs@ == old(self)@.spec_create_requests(*cfg, window, is_dock, is_dialog, padding_top),
    {
        let mut reqs: Vec<Request> = Vec::new();
        if self.find_client(window).is_some() {
            proof {
                assert(reqs@ =~= old(self)@.spec_create_requests(
                    *cfg,
                    window,
                    is_dock,
                    is_dialog,
                    padding_top,
                ));
            }
            return reqs;
        }
        reqs.push(Request::EnableEventMask { window });

        let controlled = !is_dock && !is_dialog;
        let c = Client {
            window,
            workspace: if controlled {
                Some(self.active_workspace)
            } else {
                None
            },
            visible: true,
            controlled,
            full_screen: false,
            padding_top,
        };
        if is_dock {
            self.dock_window = Some(window);
        }
        proof {
            lemma_padding_top_nonneg(old(self)@.clients);
        }
        self.clients.insert(0, c);
        proof {
            assert(old(self)@.clients.insert(0, c).drop_first() =~= old(self)@.clients);
            assert(spec_padding_top(self.clients@) == spec_padding_top(old(self)@.clients)
                + padding_top) by {
                lemma_padding_top_insert_front(old(self)@.clients, c);
            }
        }

        let is_dock_window = match self.dock_window {
            Some(d) => d == window,
            None => false,
        };
        if !is_dock_window {
            reqs.push(Request::SetBorderWidth { window, width: cfg.border_thickness });
            reqs.push(Request::SetBorderColor { window, color: cfg.inactive_border });
            let mut focus = self.set_active_window(cfg, Some(window));
            reqs.append(&mut focus);
        }
        if controlled {
            let padding = self.get_padding_top();
            reqs.push(Request::SetY { window, y: padding as u32 });
        }
        reqs.push(Request::MapWindow { window });
        reqs.push(Request::PublishClientList);
        reqs.push(Request::PublishWorkspaceNames);
        proof {
            assert(reqs@ =~= old(self)@.spec_create_requests(
                *cfg,
                window,
                is_dock,
                is_dialog,
                padding_top,
            ));
        }
        reqs
    }
}

/// Inserting a client at the front adds its reservation (when visible) to
/// the summed padding.
proof fn lemma_padding_top_insert_front(s: Seq<Client>, c: Client)
    requires
        c.visible,
    ensures
        spec_padding_top(s.insert(0, c)) == spec_padding_top(s) + c.padding_top,
    decreases s.len(),
{
    let t = s.insert(0, c);
    if s.len() == 0 {
        assert(t.len() == 1);
        assert(t.last() == c);
        assert(t.drop_last() =~= Seq::<Client>::empty());
        assert(spec_padding_top(Seq::<Client>::empty()) == 0);
        assert(s =~= Seq::<Client>::empty());
    } else {
        assert(t.drop_last() =~= s.drop_last().insert(0, c));
        assert(t.last() == s.last());
        lemma_padding_top_insert_front(s.drop_last(), c);
    }
}

} // verus!
