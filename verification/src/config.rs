use vstd::prelude::*;

verus! {

/// A window-management action that can be bound to a key combination.
#[derive(Clone, Copy, PartialEq, Eq, Structural, Debug)]
pub enum Action {
    /// Ask the active window to close, killing its client if it does not
    /// support the graceful-close protocol.
    Close,
    /// Move the selection to the previous visible, controlled client.
    SelectAbove,
    /// Move the selection to the next visible, controlled client.
    SelectBelow,
    /// Narrow the master pane of the active workspace by one step.
    ShrinkFront,
    /// Widen the master pane of the active workspace by one step.
    ExpandFront,
}

/// A key binding that triggers a window-management action.
#[derive(Clone, Debug)]
pub struct ActionKeyPress {
    pub modifier: u16,
    pub keysym: u32,
    pub action: Action,
}

/// A key binding that spawns an external command.
#[derive(Clone, Debug)]
pub struct CommandKeyPress {
    pub modifier: u16,
    pub keysym: u32,
    pub command: String,
}

/// The window manager's configuration, immutable after load.
///
/// Every field must be present in the configuration file; no defaults are
/// synthesized in code.  The shell reads and parses the file and builds this
/// record through [`Config::from_parts`].
#[derive(Clone, Debug)]
pub struct Config {
    /// Border width, in pixels, drawn around managed windows.
    pub border_thickness: u32,
    /// Gap, in pixels, kept between windows and around the screen edge.
    pub border_gap: u32,
    /// Packed 24-bit border colour of the focused window.
    pub active_border: u32,
    /// Packed 24-bit border colour of unfocused windows.
    pub inactive_border: u32,
    /// Modifier mask that switches the active workspace.
    pub workspace_modifier: u16,
    /// Modifier mask that moves the focused window to a workspace.
    pub workspace_move_window_modifier: u16,
    /// Programs spawned once at startup, in order.
    pub autostart: Vec<String>,
    /// Key bindings for window-management actions.
    pub actions: Vec<ActionKeyPress>,
    /// Key bindings that spawn external commands.
    pub commands: Vec<CommandKeyPress>,
}

impl Config {
    /// Assembles a configuration from independently parsed fields.
    ///
    /// Returns `Some` exactly when every required field was present, with the
    /// fields taken over unchanged; a single missing field yields `None`, and
    /// the owning process is expected to abort rather than start with a
    /// partially defaulted configuration.
    #[allow(clippy::too_many_arguments)]
    pub fn from_parts(
        border_thickness: Option<u32>,
        border_gap: Option<u32>,
        active_border: Option<u32>,
        inactive_border: Option<u32>,
        workspace_modifier: Option<u16>,
        workspace_move_window_modifier: Option<u16>,
        autostart: Option<Vec<String>>,
        actions: Option<Vec<ActionKeyPress>>,
        commands: Option<Vec<CommandKeyPress>>,
    ) -> (r: Option<Config>)
        ensures
            r is Some <==> {
                &&& border_thickness is Some
                &&& border_gap is Some
                &&& active_border is Some
                &&& inactive_border is Some
                &&& workspace_modifier is Some
                &&& workspace_move_window_modifier is Some
                &&& autostart is Some
                &&& actions is Some
                &&& commands is Some
            },
            r matches Some(c) ==> {
                &&& c.border_thickness == border_thickness->Some_0
                &&& c.border_gap == border_gap->Some_0
                &&& c.active_border == active_border->Some_0
                &&& c.inactive_border == inactive_border->Some_0
                &&& c.workspace_modifier == workspace_modifier->Some_0
                &&& c.workspace_move_window_modifier == workspace_move_window_modifier->Some_0
                &&& c.autostart == autostart->Some_0
                &&& c.actions == actions->Some_0
                &&& c.commands == commands->Some_0
            },
    {
        match (
            border_thickness,
            border_gap,
            active_border,
            inactive_border,
            workspace_modifier,
            workspace_move_window_modifier,
            autostart,
            actions,
            commands,
        ) {
            (
                Some(border_thickness),
                Some(border_gap),
                Some(active_border),
                Some(inactive_border),
                Some(workspace_modifier),
                Some(workspace_move_window_modifier),
                Some(autostart),
                Some(actions),
                Some(commands),
            ) => Some(Config {
                border_thickness,
                border_gap,
                active_border,
                inactive_border,
                workspace_modifier,
                workspace_move_window_modifier,
                autostart,
                actions,
                commands,
            }),
            _ => None,
        }
    }
}

/// True when one of the configured modifier names equals `target`.
pub open spec fn spec_contains_name(names: Seq<String>, target: Seq<char>) -> bool {
    exists|i: int| 0 <= i < names.len() && names[i]@ == target
}

fn contains_name(names: &Vec<String>, target: &String) -> (r: bool)
    ensures
        r == spec_contains_name(names@, target@),
{
    let mut i: usize = 0;
    while i < names.len()
        invariant
            0 <= i <= names@.len(),
            forall|j: int| 0 <= j < i ==> names@[j]@ != target@,
        decreases names@.len() - i,
    {
        if names[i].eq(target) {
            return true;
        }
        i += 1;
    }
    false
}

/// The set of keyboard modifiers named by a configuration entry, used by the
/// compositor prototype's key handling.
///
/// A configured combination matches a reported modifier state when every
/// modifier the combination requires is held; extra held modifiers do not
/// prevent the match.
#[derive(Clone, Copy, PartialEq, Eq, Structural, Debug)]
pub struct Modifiers {
    pub ctrl: bool,
    pub alt: bool,
    pub shift: bool,
    pub caps_lock: bool,
    pub logo: bool,
    pub num_lock: bool,
}

impl Modifiers {
    /// Builds the modifier set from the names listed in the configuration
    /// file; unknown names are ignored.
    pub fn from_names(names: &Vec<String>) -> (m: Modifiers)
        ensures
            m.ctrl == spec_contains_name(names@, "Ctrl"@),
            m.alt == spec_contains_name(names@, "Alt"@),
            m.shift == spec_contains_name(names@, "Shift"@),
            m.caps_lock == spec_contains_name(names@, "CapsLock"@),
            m.logo == spec_contains_name(names@, "Logo"@),
            m.num_lock == spec_contains_name(names@, "NumLock"@),
    {
        Modifiers {
            ctrl: contains_name(names, &String::from_str("Ctrl")),
            alt: contains_name(names, &String::from_str("Alt")),
            shift: contains_name(names, &String::from_str("Shift")),
            caps_lock: contains_name(names, &String::from_str("CapsLock")),
            logo: contains_name(names, &String::from_str("Logo")),
            num_lock: contains_name(names, &String::from_str("NumLock")),
        }
    }

    /// True when every modifier this combination requires is held in the
    /// reported state.
    pub fn matches(&self, held: &Modifiers) -> (r: bool)
        ensures
            r == !{
                ||| (self.ctrl && !held.ctrl)
                ||| (self.alt && !held.alt)
                ||| (self.shift && !held.shift)
                ||| (self.caps_lock && !held.caps_lock)
                ||| (self.logo && !held.logo)
                ||| (self.num_lock && !held.num_lock)
            },
    {
        !((self.ctrl && !held.ctrl) || (self.alt && !held.alt) || (self.shift && !held.shift) || (
        self.caps_lock && !held.caps_lock) || (self.logo && !held.logo) || (self.num_lock
            && !held.num_lock))
    }
}

} // verus!
