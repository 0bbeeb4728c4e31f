use vstd::prelude::*;

verus! {

/// One managed or observed top-level window.
#[derive(Clone, Copy, PartialEq, Eq, Debug)]
pub struct Client {
    /// The server-assigned window identifier, stable for the window's
    /// lifetime.
    pub window: u32,
    /// The workspace the window is assigned to, 1 through 9; `None` for
    /// windows the manager does not place on any workspace.
    pub workspace: Option<u8>,
    /// Whether the window is currently mapped by the manager.
    pub visible: bool,
    /// Whether the layout engine owns this window's geometry; false for
    /// docks, dialogs and transients, which position themselves.
    pub controlled: bool,
    /// Whether the window is pinned to cover the entire output, overriding
    /// its tiled geometry.
    pub full_screen: bool,
    /// Pixels of top-of-screen space this window reserves; non-zero only for
    /// panel windows that advertise a reserved-area hint.
    pub padding_top: u32,
}

impl Client {
    /// A client's workspace, when assigned, names one of the nine
    /// workspaces.
    pub open spec fn wf(self) -> bool {
        match self.workspace {
            Some(w) => 1 <= w <= 9,
            None => true,
        }
    }

    /// This client with its visibility flag replaced.
    pub open spec fn with_visible(self, visible: bool) -> Client {
        Client {
            window: self.window,
            workspace: self.workspace,
            visible,
            controlled: self.controlled,
            full_screen: self.full_screen,
            padding_top: self.padding_top,
        }
    }

    /// This client with its controlled flag replaced.
    pub open spec fn with_controlled(self, controlled: bool) -> Client {
        Client {
            window: self.window,
            workspace: self.workspace,
            visible: self.visible,
            controlled,
            full_screen: self.full_screen,
            padding_top: self.padding_top,
        }
    }

    /// This client with its full-screen flag replaced.
    pub open spec fn with_full_screen(self, full_screen: bool) -> Client {
        Client {
            window: self.window,
            workspace: self.workspace,
            visible: self.visible,
            controlled: self.controlled,
            full_screen,
            padding_top: self.padding_top,
        }
    }

    /// This client with its workspace assignment replaced.
    pub open spec fn with_workspace(self, workspace: Option<u8>) -> Client {
        Client {
            window: self.window,
            workspace,
            visible: self.visible,
            controlled: self.controlled,
            full_screen: self.full_screen,
            padding_top: self.padding_top,
        }
    }
}

/// Whether a client is both visible and owned by the layout engine; only
/// such clients take part in tiling and selection.
pub open spec fn is_tiled_candidate(c: Client) -> bool {
    c.visible && c.controlled
}

/// No two client records name the same window.
pub open spec fn windows_unique(s: Seq<Client>) -> bool {
    forall|i: int, j: int| 0 <= i < j < s.len() ==> s[i].window != s[j].window
}

/// There is a client record for the window.
pub open spec fn has_client(s: Seq<Client>, window: u32) -> bool {
    exists|i: int| 0 <= i < s.len() && s[i].window == window
}

} // verus!
