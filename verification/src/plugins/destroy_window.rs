use crate::client::Clients;
use crate::command::Request;
use crate::config::Config;
use vstd::prelude::*;

verus! {

/// The plugin that drops a client's record when its window is destroyed.
#[derive(Clone, Copy, PartialEq, Eq, Structural, Debug)]
pub struct DestroyWindow;

impl DestroyWindow {
    pub fn new() -> (r: DestroyWindow) {
        DestroyWindow
    }

    /// On a destroy notification, the client record of the destroyed
    /// window is removed outright.
    pub fn on_destroy_notify(&self, clients: &mut Clients, cfg: &Config, window: u32) -> (reqs:
        Vec<Request>)
        requires
            old(clients).wf(),
        ensures
            final(clients)@ == old(clients)@.spec_destroy(window),
            final(clients).wf(),
            reqs@ == old(clients)@.spec_destroy_requests(*cfg, window),
    {
        clients.destroy(cfg, window)
    }
}

} // verus!
