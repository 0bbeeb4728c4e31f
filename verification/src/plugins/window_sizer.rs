use crate::client::Clients;
use crate::command::Request;
use crate::config::Config;
use crate::event::{PropertyKind, PropertyNotifyInfo};
use crate::screen::Screen;
use vstd::prelude::*;

verus! {

/// The plugin that reflows the layout when the windows' space changes: a
/// new window being mapped, or a panel announcing reserved screen space.
#[derive(Clone, Copy, PartialEq, Eq, Structural, Debug)]
pub struct WindowSizer;

impl WindowSizer {
    pub fn new() -> (r: WindowSizer) {
        WindowSizer
    }

    /// A change of a window's strut-partial hint reflows the whole layout;
    /// other property changes are ignored.
    pub fn on_property_notify(
        &self,
        clients: &Clients,
        cfg: &Config,
        screen: Screen,
        event: &PropertyNotifyInfo,
    ) -> (reqs: Vec<Request>)
        requires
            clients.wf(),
            event.kind is StrutPartial ==> clients@.resize_pre(*cfg, screen),
        ensures
            reqs@ == if event.kind is StrutPartial {
                clients@.spec_resize_requests(*cfg, screen)
            } else {
                Seq::<Request>::empty()
            },
    {
        let is_strut = match event.kind {
            PropertyKind::StrutPartial => true,
            _ => false,
        };
        if is_strut {
            clients.resize(cfg, screen)
        } else {
            Vec::new()
        }
    }

    /// A map request reflows the layout.
    pub fn on_map_request(&self, clients: &Clients, cfg: &Config, screen: Screen) -> (reqs: Vec<
        Request,
    >)
        requires
            clients.wf(),
            clients@.resize_pre(*cfg, screen),
        ensures
            reqs@ == clients@.spec_resize_requests(*cfg, screen),
    {
        clients.resize(cfg, screen)
    }
}

} // verus!
