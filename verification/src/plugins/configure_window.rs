use crate::client::clients::{Clients, ClientsView};
use crate::command::Request;
use crate::config::Config;
use crate::event::{
    ClientMessageInfo, ConfigureRequestInfo, MessageKind, PropertyKind, PropertyNotifyInfo,
    STATE_ADD, STATE_TOGGLE,
};
use crate::screen::Screen;
use vstd::prelude::*;

verus! {

/// The plugin that applies configure requests, full-screen state-change
/// messages, and window-type changes.
#[derive(Clone, Copy, PartialEq, Eq, Structural, Debug)]
pub struct ConfigureWindow;

/// The bit of a configure request's value mask that says the x position
/// was specified; the following constants cover the other fields.
pub const CONFIG_WINDOW_X: u16 = 1;

pub const CONFIG_WINDOW_Y: u16 = 2;

pub const CONFIG_WINDOW_WIDTH: u16 = 4;

pub const CONFIG_WINDOW_HEIGHT: u16 = 8;

pub const CONFIG_WINDOW_BORDER_WIDTH: u16 = 16;

pub const CONFIG_WINDOW_SIBLING: u16 = 32;

pub const CONFIG_WINDOW_STACK_MODE: u16 = 64;

/// A 16-bit signed coordinate in the two's-complement form it takes in a
/// 32-bit configure value.
pub open spec fn spec_coord_value(x: i16) -> u32 {
    if x >= 0 {
        x as u32
    } else {
        (x + 0x10000) as u32
    }
}

/// The full-screen status decoded from a state-change message: the "add"
/// word requests full screen explicitly, anything else leaves the request
/// to the toggle word.
pub open spec fn spec_decoded_status(data0: u32) -> Option<bool> {
    if data0 == STATE_ADD {
        Some(true)
    } else {
        None
    }
}

/// Whether a window counts as transient from its transient-for property
/// reply: the reply has format 32, or carries the window-property type, or
/// is non-empty.
pub open spec fn spec_is_transient(format: u8, is_window_type: bool, value_len: u32) -> bool {
    format == 32 || is_window_type || value_len != 0
}

/// The value list a configure request is answered with: only the fields
/// the request specified are taken over, except that transient and dialog
/// windows have their position overridden to centre them on the screen
/// using their (possibly just-changed) size.
pub open spec fn spec_configure_values(
    e: ConfigureRequestInfo,
    cur_width: u16,
    cur_height: u16,
    is_transient: bool,
    is_dialog: bool,
    screen: Screen,
) -> Seq<(u16, u32)> {
    let width = if e.value_mask & CONFIG_WINDOW_WIDTH != 0 {
        e.width
    } else {
        cur_width
    };
    let height = if e.value_mask & CONFIG_WINDOW_HEIGHT != 0 {
        e.height
    } else {
        cur_height
    };
    (if e.value_mask & CONFIG_WINDOW_WIDTH != 0 {
        seq![(CONFIG_WINDOW_WIDTH, e.width as u32)]
    } else {
        Seq::empty()
    }) + (if e.value_mask & CONFIG_WINDOW_HEIGHT != 0 {
        seq![(CONFIG_WINDOW_HEIGHT, e.height as u32)]
    } else {
        Seq::empty()
    }) + (if e.value_mask & CONFIG_WINDOW_BORDER_WIDTH != 0 {
        seq![(CONFIG_WINDOW_BORDER_WIDTH, e.border_width as u32)]
    } else {
        Seq::empty()
    }) + (if e.value_mask & CONFIG_WINDOW_SIBLING != 0 {
        seq![(CONFIG_WINDOW_SIBLING, e.sibling)]
    } else {
        Seq::empty()
    }) + (if e.value_mask & CONFIG_WINDOW_STACK_MODE != 0 {
        seq![(CONFIG_WINDOW_STACK_MODE, e.stack_mode as u32)]
    } else {
        Seq::empty()
    }) + (if is_transient || is_dialog {
        seq![
            (CONFIG_WINDOW_X, (((screen.width - width) / 2) as u32)),
            (CONFIG_WINDOW_Y, (((screen.height - height) / 2) as u32)),
        ]
    } else {
        (if e.value_mask & CONFIG_WINDOW_X != 0 {
            seq![(CONFIG_WINDOW_X, spec_coord_value(e.x))]
        } else {
            Seq::empty()
        }) + (if e.value_mask & CONFIG_WINDOW_Y != 0 {
            seq![(CONFIG_WINDOW_Y, spec_coord_value(e.y))]
        } else {
            Seq::empty()
        })
    })
}

/// Whether a window counts as transient, from the fields of its
/// transient-for property reply.
pub fn decide_transient(format: u8, is_window_type: bool, value_len: u32) -> (r: bool)
    ensures
        r == spec_is_transient(format, is_window_type, value_len),
{
    format == 32 || is_window_type || value_len != 0
}

/// A 16-bit signed coordinate as the 32-bit configure value it is sent
/// as.
fn coord_value(x: i16) -> (r: u32)
    ensures
        r == spec_coord_value(x),
{
    if x >= 0 {
        x as u32
    } else {
        (x as i32 + 0x10000) as u32
    }
}

impl ConfigureWindow {
    pub fn new() -> (r: ConfigureWindow) {
        ConfigureWindow
    }

    /// A full-screen state-change message is forwarded to the registry,
    /// decoding "add" and "toggle" from the first two data words; other
    /// message types are ignored.
    pub fn on_client_message(
        &self,
        clients: &mut Clients,
        cfg: &Config,
        screen: Screen,
        event: &ClientMessageInfo,
    ) -> (reqs: Vec<Request>)
        requires
            old(clients).wf(),
            event.kind is NetWmState ==> old(clients)@.spec_set_full_screen(
                event.window,
                spec_decoded_status(event.data0),
                event.data1 == STATE_TOGGLE,
            ).resize_pre(*cfg, screen),
        ensures
            final(clients)@ == if event.kind is NetWmState {
                old(clients)@.spec_set_full_screen(
                    event.window,
                    spec_decoded_status(event.data0),
                    event.data1 == STATE_TOGGLE,
                )
            } else {
                old(clients)@
            },
            final(clients).wf(),
            reqs@ == if event.kind is NetWmState {
                old(clients)@.spec_set_full_screen_requests(
                    *cfg,
                    screen,
                    event.window,
                    spec_decoded_status(event.data0),
                    event.data1 == STATE_TOGGLE,
                )
            } else {
                Seq::<Request>::empty()
            },
    {
        let is_state = match event.kind {
            MessageKind::NetWmState => true,
            _ => false,
        };
        if is_state {
            let status = if event.data0 == STATE_ADD {
                Some(true)
            } else {
                None
            };
            let toggle = event.data1 == STATE_TOGGLE;
            clients.set_full_screen(cfg, screen, event.window, status, toggle)
        } else {
            Vec::new()
        }
    }

    /// Answers a configure request with the value list built from the
    /// fields it specified, centring transient and dialog windows; the
    /// shell applies the list to the window.
    ///
    /// `cur_width` and `cur_height` are the window's current dimensions,
    /// used for centring when the request does not change them.
    #[verifier::rlimit(60)]
    pub fn on_configure_request(
        &self,
        event: &ConfigureRequestInfo,
        cur_width: u16,
        cur_height: u16,
        is_transient: bool,
        is_dialog: bool,
        screen: Screen,
    ) -> (values: Vec<(u16, u32)>)
        requires
            is_transient || is_dialog ==> (if event.value_mask & CONFIG_WINDOW_WIDTH != 0 {
                event.width
            } else {
                cur_width
            }) <= screen.width && (if event.value_mask & CONFIG_WINDOW_HEIGHT != 0 {
                event.height
            } else {
                cur_height
            }) <= screen.height,
        ensures
            values@ == spec_configure_values(
                *event,
                cur_width,
                cur_height,
                is_transient,
                is_dialog,
                screen,
            ),
    {
        let mut values: Vec<(u16, u32)> = Vec::new();
        let mut width = cur_width;
        let mut height = cur_height;
        if event.value_mask & CONFIG_WINDOW_WIDTH != 0 {
            values.push((CONFIG_WINDOW_WIDTH, event.width as u32));
            width = event.width;
        }
        if event.value_mask & CONFIG_WINDOW_HEIGHT != 0 {
            values.push((CONFIG_WINDOW_HEIGHT, event.height as u32));
            height = event.height;
        }
        if event.value_mask & CONFIG_WINDOW_BORDER_WIDTH != 0 {
            values.push((CONFIG_WINDOW_BORDER_WIDTH, event.border_width as u32));
        }
        if event.value_mask & CONFIG_WINDOW_SIBLING != 0 {
            values.push((CONFIG_WINDOW_SIBLING, event.sibling));
        }
        if event.value_mask & CONFIG_WINDOW_STACK_MODE != 0 {
            values.push((CONFIG_WINDOW_STACK_MODE, event.stack_mode as u32));
        }
        if is_transient || is_dialog {
            let x = (screen.width - width) / 2;
            let y = (screen.height - height) / 2;
            values.push((CONFIG_WINDOW_X, x as u32));
            values.push((CONFIG_WINDOW_Y, y as u32));
        } else {
            if event.value_mask & CONFIG_WINDOW_X != 0 {
                values.push((CONFIG_WINDOW_X, coord_value(event.x)));
            }
            if event.value_mask & CONFIG_WINDOW_Y != 0 {
                values.push((CONFIG_WINDOW_Y, coord_value(event.y)));
            }
        }
        proof {
            assert(values@ =~= spec_configure_values(
                *event,
                cur_width,
                cur_height,
                is_transient,
                is_dialog,
                screen,
            ));
        }
        values
    }

    /// If the changed property is the window-type hint and the new type
    /// includes the dock type, the window is forced uncontrolled; other
    /// changes are ignored.
    pub fn on_property_notify(
        &self,
        clients: &mut Clients,
        event: &PropertyNotifyInfo,
        has_dock_type: bool,
    ) -> (reacted: bool)
        requires
            old(clients).wf(),
        ensures
            final(clients)@ == if event.kind is WindowType && has_dock_type {
                old(clients)@.spec_set_controlled(event.window, false)
            } else {
                old(clients)@
            },
            final(clients).wf(),
            reacted == (event.kind is WindowType && has_dock_type),
    {
        let is_type = match event.kind {
            PropertyKind::WindowType => true,
            _ => false,
        };
        if is_type && has_dock_type {
            clients.set_controlled_status(event.window, false);
            true
        } else {
            false
        }
    }
}

} // verus!
