use crate::client::Clients;
use crate::command::Request;
use crate::config::Config;
use crate::screen::Screen;
use vstd::prelude::*;

verus! {

/// The plugin that hides a client when its window is unmapped.
#[derive(Clone, Copy, PartialEq, Eq, Structural, Debug)]
pub struct UnmapWindow;

impl UnmapWindow {
    pub fn new() -> (r: UnmapWindow) {
        UnmapWindow
    }

    /// On an unmap notification, the client record is marked invisible
    /// (retained, eligible to reappear) and the layout reflowed.
    pub fn on_unmap_notify(
        &self,
        clients: &mut Clients,
        cfg: &Config,
        screen: Screen,
        window: u32,
    ) -> (reqs: Vec<Request>)
        requires
            old(clients).wf(),
            old(clients)@.spec_hide(window).resize_pre(*cfg, screen),
        ensures
            final(clients)@ == old(clients)@.spec_hide(window),
            final(clients).wf(),
            reqs@ == old(clients)@.spec_hide_requests(*cfg, screen, window),
    {
        clients.hide_window(cfg, screen, window)
    }
}

} // verus!
