use crate::client::client::{windows_unique, Client};
use vstd::prelude::*;

verus! {

/// A master-pane ratio is a whole number of hundredths between one tenth and
/// nine tenths, always reached from the default half by steps of five
/// hundredths.
pub open spec fn ratio_wf(r: u32) -> bool {
    &&& 10 <= r <= 90
    &&& r % 5 == 0
}

/// The registry of managed windows: the single source of truth for what is
/// managed, where it is, which workspace it belongs to, and what geometry it
/// currently occupies.
///
/// Its operations mutate this state and return the ordered display-server
/// requests that realize the change (see [`crate::command::Request`]).
pub struct Clients {
    /// The managed clients, newest first.
    pub clients: Vec<Client>,
    /// The workspace currently shown, 1 through 9.
    pub active_workspace: u8,
    /// The window holding the input focus, if any.
    pub active_window: Option<u32>,
    /// The single panel window, if one has been observed.
    pub dock_window: Option<u32>,
    /// The master-pane width ratio of each workspace, in hundredths;
    /// entry `w - 1` belongs to workspace `w`.
    pub front_window_ratio: Vec<u32>,
}

/// The abstract state of the registry, used throughout the contracts.
pub ghost struct ClientsView {
    pub clients: Seq<Client>,
    pub active_workspace: u8,
    pub active_window: Option<u32>,
    pub dock_window: Option<u32>,
    pub front_window_ratio: Seq<u32>,
}

impl View for Clients {
    type V = ClientsView;

    open spec fn view(&self) -> ClientsView {
        ClientsView {
            clients: self.clients@,
            active_workspace: self.active_workspace,
            active_window: self.active_window,
            dock_window: self.dock_window,
            front_window_ratio: self.front_window_ratio@,
        }
    }
}

impl ClientsView {
    /// Well-formedness of the registry: the active workspace names one of
    /// the nine workspaces, every workspace has a valid master-pane ratio,
    /// every client record is well formed, and no window is recorded twice.
    pub open spec fn wf(self) -> bool {
        &&& 1 <= self.active_workspace <= 9
        &&& self.front_window_ratio.len() == 9
        &&& forall|i: int| 0 <= i < 9 ==> ratio_wf(#[trigger] self.front_window_ratio[i])
        &&& forall|i: int| 0 <= i < self.clients.len() ==> (#[trigger] self.clients[i]).wf()
        &&& windows_unique(self.clients)
    }

    /// The master-pane ratio of the active workspace, in hundredths.
    pub open spec fn active_ratio(self) -> u32 {
        self.front_window_ratio[self.active_workspace - 1]
    }
}

impl Clients {
    /// Well-formedness of the registry (see [`ClientsView::wf`]).
    pub open spec fn wf(self) -> bool {
        self@.wf()
    }

    /// A fresh registry: no clients, workspace 1 active, no focus, no dock,
    /// and the default half ratio on every workspace.
    pub fn new() -> (r: Clients)
        ensures
            r.wf(),
            r.clients@.len() == 0,
            r.active_workspace == 1,
            r.active_window is None,
            r.dock_window is None,
            forall|i: int| 0 <= i < 9 ==> #[trigger] r.front_window_ratio@[i] == 50,
    {
        let ratios: Vec<u32> = vec![50, 50, 50, 50, 50, 50, 50, 50, 50];
        Clients {
            clients: Vec::new(),
            active_workspace: 1,
            active_window: None,
            dock_window: None,
            front_window_ratio: ratios,
        }
    }

    /// The window of every client record, in registry order; the contents of
    /// the published client-list property.
    pub fn client_list(&self) -> (r: Vec<u32>)
        ensures
            r@ == self.clients@.map_values(|c: Client| c.window),
    {
        let ghost target = self.clients@.map_values(|c: Client| c.window);
        let mut r: Vec<u32> = Vec::new();
        let mut i: usize = 0;
        while i < self.clients.len()
            invariant
                0 <= i <= self.clients@.len(),
                r@ == self.clients@.take(i as int).map_values(|c: Client| c.window),
            decreases self.clients@.len() - i,
        {
            r.push(self.clients[i].window);
            proof {
                assert(self.clients@.take(i + 1).map_values(|c: Client| c.window) =~= self
                    .clients@.take(i as int).map_values(|c: Client| c.window).push(
                    self.clients@[i as int].window,
                ));
            }
            i += 1;
        }
        proof {
            assert(self.clients@.take(self.clients@.len() as int) =~= self.clients@);
        }
        r
    }
}

} // verus!
