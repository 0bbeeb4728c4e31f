use vstd::prelude::*;

verus! {

/// One request the registry asks the shell to issue to the display server.
///
/// The registry's operations mutate the managed-client state and return the
/// exact ordered sequence of display-server requests that realizes the
/// change; the shell performs them in order against its connection.  The two
/// `Publish*List` markers carry no payload: on reaching one, the shell
/// fetches the current client list or workspace names from the registry and
/// publishes them.
#[derive(Clone, Copy, PartialEq, Eq, Structural, Debug)]
pub enum Request {
    /// Subscribe the window to property-change, structure and enter events.
    EnableEventMask { window: u32 },
    /// Drop the enter-event subscription while the manager reconfigures the
    /// window, so its own changes do not re-trigger handling.
    DisableEventMask { window: u32 },
    /// Move and resize the window and set its border width.
    SetGeometry { window: u32, x: u32, y: u32, width: u32, height: u32, border: u32 },
    /// Move the window vertically only.
    SetY { window: u32, y: u32 },
    /// Set the window's border width.
    SetBorderWidth { window: u32, width: u32 },
    /// Set the window's border colour.
    SetBorderColor { window: u32, color: u32 },
    /// Give the window the input focus.
    SetInputFocus { window: u32 },
    /// Map (show) the window.
    MapWindow { window: u32 },
    /// Unmap (hide) the window.
    UnmapWindow { window: u32 },
    /// Publish the active-window property; `0` clears it.
    PublishActiveWindow { window: u32 },
    /// Publish the current-desktop property.
    PublishCurrentDesktop { desktop: u32 },
    /// Re-publish the client-list property from the registry's current state.
    PublishClientList,
    /// Re-publish the nine desktop-name strings from the registry's current
    /// state.
    PublishWorkspaceNames,
    /// Write the window's full-screen state property.
    SetFullScreenState { window: u32, full_screen: bool },
    /// Send the graceful-close protocol message to the window.
    SendDeleteMessage { window: u32 },
    /// Switch the connection's close-down mode to destroy-all.
    SetCloseDownModeDestroyAll,
    /// Kill the client owning the window.
    KillClient { window: u32 },
}

/// The payload of the graceful-close client message: the delete atom, the
/// current server timestamp, and three zero words, sent with format 32.
pub fn delete_message_data(delete_atom: u32, timestamp: u32) -> (data: [u32; 5])
    ensures
        data@ == seq![delete_atom, timestamp, 0u32, 0u32, 0u32],
{
    let data = [delete_atom, timestamp, 0, 0, 0];
    proof {
        assert(data@ =~= seq![delete_atom, timestamp, 0u32, 0u32, 0u32]);
    }
    data
}

} // verus!
