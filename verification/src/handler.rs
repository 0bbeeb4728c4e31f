use crate::client::clients::{Clients, ClientsView};
use crate::client::geometry::spec_padding_top;
use crate::command::Request;
use crate::config::Config;
use crate::event::{
    ClientMessageInfo, ConfigureRequestInfo, KeyPressInfo, PropertyNotifyInfo, STATE_TOGGLE,
};
use crate::plugins::commands::spec_firing_upto;
use crate::plugins::configure_window::{spec_configure_values, spec_decoded_status};
use crate::plugins::window_selector::spec_fired_actions;
use crate::plugins::workspaces::spec_pressed_digit;
use crate::plugins::{
    Commands, ConfigureWindow, DestroyWindow, MapWindow, UnmapWindow, WindowSelector, WindowSizer,
    Workspaces,
};
use crate::screen::Screen;
use vstd::prelude::*;

verus! {

/// The event-dispatch pipeline: the eight behaviour plugins, invoked in a
/// fixed order for every event category the manager understands.
pub struct Handler {
    pub commands: Commands,
    pub configure_window: ConfigureWindow,
    pub destroy_window: DestroyWindow,
    pub map_window: MapWindow,
    pub unmap_window: UnmapWindow,
    pub window_selector: WindowSelector,
    pub window_sizer: WindowSizer,
    pub workspaces: Workspaces,
}

/// What handling a key press produces: the command bindings to spawn, as
/// indices into the configured command list, and the display requests.
pub struct KeyPressOutcome {
    pub spawn: Vec<usize>,
    pub requests: Vec<Request>,
}

impl ClientsView {
    /// The state after a client message runs through the pipeline: a
    /// full-screen change when the message asks for one, then the
    /// message's window activated, then the fixed switch to workspace 1
    /// for a current-desktop message.
    pub open spec fn spec_client_message(self, cfg: Config, msg: ClientMessageInfo) -> ClientsView {
        let v1 = if msg.kind is NetWmState {
            self.spec_set_full_screen(
                msg.window,
                spec_decoded_status(msg.data0),
                msg.data1 == STATE_TOGGLE,
            )
        } else {
            self
        };
        let v2 = v1.spec_set_active_window(Some(msg.window));
        if msg.kind is CurrentDesktop {
            v2.spec_set_active_workspace(1)
        } else {
            v2
        }
    }

    /// The requests of a client message running through the pipeline.
    pub open spec fn spec_client_message_requests(
        self,
        cfg: Config,
        screen: Screen,
        msg: ClientMessageInfo,
    ) -> Seq<Request> {
        let v1 = if msg.kind is NetWmState {
            self.spec_set_full_screen(
                msg.window,
                spec_decoded_status(msg.data0),
                msg.data1 == STATE_TOGGLE,
            )
        } else {
            self
        };
        let v2 = v1.spec_set_active_window(Some(msg.window));
        (if msg.kind is NetWmState {
            self.spec_set_full_screen_requests(
                cfg,
                screen,
                msg.window,
                spec_decoded_status(msg.data0),
                msg.data1 == STATE_TOGGLE,
            )
        } else {
            Seq::empty()
        }) + v1.spec_set_active_window_requests(cfg, Some(msg.window)) + (if msg.kind
            is CurrentDesktop {
            v2.spec_set_active_workspace_requests(cfg, screen, 1)
        } else {
            Seq::empty()
        })
    }

    /// What a client message needs of the layout precondition.
    pub open spec fn spec_client_message_pre(
        self,
        cfg: Config,
        screen: Screen,
        msg: ClientMessageInfo,
    ) -> bool {
        let v1 = if msg.kind is NetWmState {
            self.spec_set_full_screen(
                msg.window,
                spec_decoded_status(msg.data0),
                msg.data1 == STATE_TOGGLE,
            )
        } else {
            self
        };
        let v2 = v1.spec_set_active_window(Some(msg.window));
        &&& (msg.kind is NetWmState ==> v1.resize_pre(cfg, screen))
        &&& (msg.kind is CurrentDesktop ==> v2.spec_set_active_workspace(1).resize_pre(
            cfg,
            screen,
        ))
    }

    /// The state after a key press runs through the pipeline: the fired
    /// window-management actions, then the workspace digit handling.
    pub open spec fn spec_key_press(
        self,
        cfg: Config,
        act_resolved: Seq<Option<u8>>,
        digit_resolved: Seq<Option<u8>>,
        event: KeyPressInfo,
    ) -> ClientsView {
        let v1 = self.spec_apply_actions(
            spec_fired_actions(cfg.actions@, act_resolved, event.keycode, event.state, 0),
        );
        match spec_pressed_digit(digit_resolved, event.keycode, 0) {
            Some(ws) => v1.spec_workspace_key(cfg, ws, event.state, event.child),
            None => v1,
        }
    }

    /// The requests of a key press running through the pipeline.
    pub open spec fn spec_key_press_requests(
        self,
        cfg: Config,
        screen: Screen,
        act_resolved: Seq<Option<u8>>,
        digit_resolved: Seq<Option<u8>>,
        event: KeyPressInfo,
        supports_delete: bool,
    ) -> Seq<Request> {
        let fired = spec_fired_actions(
            cfg.actions@,
            act_resolved,
            event.keycode,
            event.state,
            0,
        );
        let v1 = self.spec_apply_actions(fired);
        self.spec_apply_actions_requests(cfg, screen, fired, supports_delete) + (
        match spec_pressed_digit(digit_resolved, event.keycode, 0) {
            Some(ws) => v1.spec_workspace_key_requests(cfg, screen, ws, event.state, event.child),
            None => Seq::empty(),
        })
    }

    /// What a key press needs of the layout precondition.
    pub open spec fn spec_key_press_pre(
        self,
        cfg: Config,
        screen: Screen,
        act_resolved: Seq<Option<u8>>,
        digit_resolved: Seq<Option<u8>>,
        event: KeyPressInfo,
    ) -> bool {
        let fired = spec_fired_actions(
            cfg.actions@,
            act_resolved,
            event.keycode,
            event.state,
            0,
        );
        let v1 = self.spec_apply_actions(fired);
        &&& self.spec_apply_actions_pre(cfg, screen, fired)
        &&& (match spec_pressed_digit(digit_resolved, event.keycode, 0) {
            Some(ws) => v1.spec_workspace_key_pre(cfg, screen, ws, event.state, event.child),
            None => true,
        })
    }
}

impl Handler {
    /// The pipeline with all eight plugins loaded, in their fixed order.
    pub fn new() -> (h: Handler)
        ensures
            h.workspaces.wf(),
    {
        Handler {
            commands: Commands::new(),
            configure_window: ConfigureWindow::new(),
            destroy_window: DestroyWindow::new(),
            map_window: MapWindow::new(),
            unmap_window: UnmapWindow::new(),
            window_selector: WindowSelector::new(),
            window_sizer: WindowSizer::new(),
            workspaces: Workspaces::new(),
        }
    }

    /// Dispatches a client message: a full-screen change if requested,
    /// activation of the message's window, and the fixed workspace-1
    /// switch on a current-desktop message.
    pub fn on_client_message(
        &self,
        clients: &mut Clients,
        cfg: &Config,
        screen: Screen,
        msg: &ClientMessageInfo,
    ) -> (reqs: Vec<Request>)
        requires
            old(clients).wf(),
            old(clients)@.spec_client_message_pre(*cfg, screen, *msg),
        ensures
            final(clients)@ == old(clients)@.spec_client_message(*cfg, *msg),
            final(clients).wf(),
            reqs@ == old(clients)@.spec_client_message_requests(*cfg, screen, *msg),
    {
        let mut reqs = self.configure_window.on_client_message(clients, cfg, screen, msg);
        let mut step = self.window_selector.on_client_message(clients, cfg, msg);
        reqs.append(&mut step);
        let mut step = self.workspaces.on_client_message(clients, cfg, screen, msg);
        reqs.append(&mut step);
        proof {
            assert(reqs@ =~= old(clients)@.spec_client_message_requests(*cfg, screen, *msg));
        }
        reqs
    }

    /// Dispatches a key press: fired command bindings are reported for the
    /// shell to spawn, fired window-management actions are executed, and
    /// workspace digit bindings switch or reassign.
    pub fn on_key_press(
        &self,
        clients: &mut Clients,
        cfg: &Config,
        screen: Screen,
        cmd_resolved: &Vec<Option<u8>>,
        act_resolved: &Vec<Option<u8>>,
        digit_resolved: &Vec<Option<u8>>,
        event: &KeyPressInfo,
        supports_delete: bool,
    ) -> (outcome: KeyPressOutcome)
        requires
            old(clients).wf(),
            cmd_resolved@.len() == cfg.commands@.len(),
            act_resolved@.len() == cfg.actions@.len(),
            forall|k: int| 0 <= k < act_resolved@.len() ==> (#[trigger] act_resolved@[k]) is Some,
            digit_resolved@.len() == 9,
            forall|k: int| 0 <= k < 9 ==> (#[trigger] digit_resolved@[k]) is Some,
            old(clients)@.spec_key_press_pre(*cfg, screen, act_resolved@, digit_resolved@, *event),
        ensures
            final(clients)@ == old(clients)@.spec_key_press(
                *cfg,
                act_resolved@,
                digit_resolved@,
                *event,
            ),
            final(clients).wf(),
            outcome.requests@ == old(clients)@.spec_key_press_requests(
                *cfg,
                screen,
                act_resolved@,
                digit_resolved@,
                *event,
                supports_delete,
            ),
            outcome.spawn@.map_values(|u: usize| u as int) == spec_firing_upto(
                cfg.commands@,
                cmd_resolved@,
                event.keycode,
                event.state,
                cfg.commands@.len() as int,
            ),
            forall|k: int|
                0 <= k < outcome.spawn@.len() ==> #[trigger] outcome.spawn@[k]
                    < cfg.commands@.len(),
    {
        let spawn = self.commands.on_key_press(&cfg.commands, cmd_resolved, event);
        let mut requests = self.window_selector.on_key_press(
            clients,
            cfg,
            screen,
            act_resolved,
            event,
            supports_delete,
        );
        let mut step = self.workspaces.on_key_press(clients, cfg, screen, digit_resolved, event);
        requests.append(&mut step);
        proof {
            assert(requests@ =~= old(clients)@.spec_key_press_requests(
                *cfg,
                screen,
                act_resolved@,
                digit_resolved@,
                *event,
                supports_delete,
            ));
        }
        KeyPressOutcome { spawn, requests }
    }

    /// Dispatches a configure request: the reply value list, which the
    /// shell applies to the window.
    pub fn on_configure_request(
        &self,
        event: &ConfigureRequestInfo,
        cur_width: u16,
        cur_height: u16,
        is_transient: bool,
        is_dialog: bool,
        screen: Screen,
    ) -> (values: Vec<(u16, u32)>)
        requires
            is_transient || is_dialog ==> (if event.value_mask
                & crate::plugins::configure_window::CONFIG_WINDOW_WIDTH != 0 {
                event.width
            } else {
                cur_width
            }) <= screen.width && (if event.value_mask
                & crate::plugins::configure_window::CONFIG_WINDOW_HEIGHT != 0 {
                event.height
            } else {
                cur_height
            }) <= screen.height,
        ensures
            values@ == spec_configure_values(
                *event,
                cur_width,
                cur_height,
                is_transient,
                is_dialog,
                screen,
            ),
    {
        self.configure_window.on_configure_request(
            event,
            cur_width,
            cur_height,
            is_transient,
            is_dialog,
            screen,
        )
    }

    /// Dispatches a map request: the window is registered and shown
    /// (unless override-redirected), the layout reflowed, and the window
    /// recorded in the secondary per-workspace bookkeeping.
    pub fn on_map_request(
        &mut self,
        clients: &mut Clients,
        cfg: &Config,
        screen: Screen,
        window: u32,
        override_redirect: bool,
        is_dock: bool,
        is_dialog: bool,
        padding_top: u32,
    ) -> (reqs: Vec<Request>)
        requires
            old(clients).wf(),
            old(self).workspaces.wf(),
            !override_redirect ==> spec_padding_top(old(clients)@.clients) + padding_top
                <= u32::MAX,
            !override_redirect ==> old(clients)@.spec_map_request(
                false,
                window,
                is_dock,
                is_dialog,
                padding_top,
            ).resize_pre(*cfg, screen),
            override_redirect ==> old(clients)@.resize_pre(*cfg, screen),
        ensures
            final(clients)@ == old(clients)@.spec_map_request(
                override_redirect,
                window,
                is_dock,
                is_dialog,
                padding_top,
            ),
            final(clients).wf(),
            final(self).workspaces.wf(),
            reqs@ == old(clients)@.spec_map_request_requests(
                *cfg,
                screen,
                override_redirect,
                window,
                is_dock,
                is_dialog,
                padding_top,
            ) + final(clients)@.spec_resize_requests(*cfg, screen),
    {
        let mut reqs = self.map_window.on_map_request(
            clients,
            cfg,
            screen,
            window,
            override_redirect,
            is_dock,
            is_dialog,
            padding_top,
        );
        let mut step = self.window_sizer.on_map_request(clients, cfg, screen);
        reqs.append(&mut step);
        self.workspaces.on_map_request(clients, window);
        reqs
    }

    /// Dispatches a property-change notification: a window whose type
    /// becomes a dock is forced uncontrolled, and a strut change reflows
    /// the layout.
    pub fn on_property_notify(
        &self,
        clients: &mut Clients,
        cfg: &Config,
        screen: Screen,
        event: &PropertyNotifyInfo,
        has_dock_type: bool,
    ) -> (reqs: Vec<Request>)
        requires
            old(clients).wf(),
            event.kind is StrutPartial ==> old(clients)@.resize_pre(*cfg, screen),
        ensures
            final(clients)@ == if event.kind is WindowType && has_dock_type {
                old(clients)@.spec_set_controlled(event.window, false)
            } else {
                old(clients)@
            },
            final(clients).wf(),
            reqs@ == if event.kind is StrutPartial {
                final(clients)@.spec_resize_requests(*cfg, screen)
            } else {
                Seq::<Request>::empty()
            },
    {
        self.configure_window.on_property_notify(clients, event, has_dock_type);
        self.window_sizer.on_property_notify(clients, cfg, screen, event)
    }

    /// Dispatches an enter notification: focus follows the mouse.
    pub fn on_enter_notify(&self, clients: &mut Clients, cfg: &Config, window: u32) -> (reqs: Vec<
        Request,
    >)
        requires
            old(clients).wf(),
        ensures
            final(clients)@ == old(clients)@.spec_set_active_window(Some(window)),
            final(clients).wf(),
            reqs@ == old(clients)@.spec_set_active_window_requests(*cfg, Some(window)),
    {
        self.window_selector.on_enter_notify(clients, cfg, window)
    }

    /// Dispatches an unmap notification: the window is hidden.
    pub fn on_unmap_notify(
        &self,
        clients: &mut Clients,
        cfg: &Config,
        screen: Screen,
        window: u32,
    ) -> (reqs: Vec<Request>)
        requires
            old(clients).wf(),
            old(clients)@.spec_hide(window).resize_pre(*cfg, screen),
        ensures
            final(clients)@ == old(clients)@.spec_hide(window),
            final(clients).wf(),
            reqs@ == old(clients)@.spec_hide_requests(*cfg, screen, window),
    {
        self.unmap_window.on_unmap_notify(clients, cfg, screen, window)
    }

    /// Dispatches a destroy notification: the client record is removed.
    pub fn on_destroy_notify(&self, clients: &mut Clients, cfg: &Config, window: u32) -> (reqs:
        Vec<Request>)
        requires
            old(clients).wf(),
        ensures
            final(clients)@ == old(clients)@.spec_destroy(window),
            final(clients).wf(),
            reqs@ == old(clients)@.spec_destroy_requests(*cfg, window),
    {
        self.destroy_window.on_destroy_notify(clients, cfg, window)
    }
}

} // verus!
