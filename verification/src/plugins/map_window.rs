use crate::client::clients::{Clients, ClientsView};
use crate::client::geometry::spec_padding_top;
use crate::command::Request;
use crate::config::Config;
use crate::screen::Screen;
use vstd::prelude::*;

verus! {

/// The plugin that registers and shows a window asking to be mapped.
#[derive(Clone, Copy, PartialEq, Eq, Structural, Debug)]
pub struct MapWindow;

impl ClientsView {
    /// The state after a map request is handled: the window is classified
    /// and registered, then shown; a window with the override-redirect
    /// attribute opts out of management entirely.
    pub open spec fn spec_map_request(
        self,
        override_redirect: bool,
        window: u32,
        is_dock: bool,
        is_dialog: bool,
        padding_top: u32,
    ) -> ClientsView {
        if override_redirect {
            self
        } else {
            self.spec_create(window, is_dock, is_dialog, padding_top).spec_show(window)
        }
    }

    /// The requests of handling a map request: those of registering the
    /// window, then those of showing it.
    pub open spec fn spec_map_request_requests(
        self,
        cfg: Config,
        screen: Screen,
        override_redirect: bool,
        window: u32,
        is_dock: bool,
        is_dialog: bool,
        padding_top: u32,
    ) -> Seq<Request> {
        if override_redirect {
            Seq::empty()
        } else {
            let mid = self.spec_create(window, is_dock, is_dialog, padding_top);
            self.spec_create_requests(cfg, window, is_dock, is_dialog, padding_top)
                + mid.spec_show_requests(cfg, screen, window)
        }
    }
}

impl MapWindow {
    pub fn new() -> (r: MapWindow) {
        MapWindow
    }

    /// On a map request, a window without the override-redirect attribute
    /// is classified, registered and shown; one with it is ignored.
    ///
    /// The shell reads the override-redirect attribute, the window-type
    /// hints and the strut-partial top reservation beforehand.
    pub fn on_map_request(
        &self,
        clients: &mut Clients,
        cfg: &Config,
        screen: Screen,
        window: u32,
        override_redirect: bool,
        is_dock: bool,
        is_dialog: bool,
        padding_top: u32,
    ) -> (reqs: Vec<Request>)
        requires
            old(clients).wf(),
            !override_redirect ==> spec_padding_top(old(clients)@.clients) + padding_top
                <= u32::MAX,
            !override_redirect ==> old(clients)@.spec_map_request(
                false,
                window,
                is_dock,
                is_dialog,
                padding_top,
            ).resize_pre(*cfg, screen),
        ensures
            final(clients)@ == old(clients)@.spec_map_request(
                override_redirect,
                window,
                is_dock,
                is_dialog,
                padding_top,
            ),
            final(clients).wf(),
            reqs@ == old(clients)@.spec_map_request_requests(
                *cfg,
                screen,
                override_redirect,
                window,
                is_dock,
                is_dialog,
                padding_top,
            ),
    {
        if override_redirect {
            let reqs: Vec<Request> = Vec::new();
            proof {
                assert(reqs@ =~= Seq::<Request>::empty());
            }
            return reqs;
        }
        let mut reqs = clients.create(cfg, window, is_dock, is_dialog, padding_top);
        let mut tail = clients.show(cfg, screen, window);
        reqs.append(&mut tail);
        proof {
            assert(reqs@ =~= old(clients)@.spec_map_request_requests(
                *cfg,
                screen,
                override_redirect,
                window,
                is_dock,
                is_dialog,
                padding_top,
            ));
        }
        reqs
    }
}

} // verus!
