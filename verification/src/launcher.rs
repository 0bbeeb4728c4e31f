pub mod config;

use crate::launcher::config::Config;
use vstd::prelude::*;

verus! {

/// What pressing a key in the launcher resolved to, against the configured
/// key bindings; the shell resolves keycodes before dispatching.
#[derive(Clone, Copy, PartialEq, Eq, Structural, Debug)]
pub enum LauncherKey {
    /// The configured close key.
    Close,
    /// The configured select key.
    Select,
    /// The configured up key.
    Up,
    /// The configured down key.
    Down,
    /// Any other key.
    Other,
}

/// What a key press leads to: abandon the prompt, print the chosen
/// command and stop, or keep prompting.
#[derive(Clone, PartialEq, Eq, Debug)]
pub enum Outcome {
    /// Exit without a selection.
    Cancel,
    /// Print this command and exit.
    Chosen(String),
    /// Keep running.
    Continue,
}

/// The launcher's runtime state: the commands read from standard input at
/// startup (blank lines discarded) and the 0-based selection index.
pub struct Launcher {
    pub commands: Vec<String>,
    pub selection_index: usize,
}

impl Launcher {
    /// The selection stays inside the command list (and at 0 when the
    /// list is empty).
    pub open spec fn wf(self) -> bool {
        if self.commands@.len() == 0 {
            self.selection_index == 0
        } else {
            self.selection_index < self.commands@.len()
        }
    }

    /// A fresh prompt over the given commands, with the first selected.
    pub fn new(commands: Vec<String>) -> (r: Launcher)
        ensures
            r.wf(),
            r.commands == commands,
            r.selection_index == 0,
    {
        Launcher { commands, selection_index: 0 }
    }

    /// The height of one row: one and a half times the font size.
    pub fn item_height(cfg: &Config) -> (h: u16)
        requires
            cfg.font_size + cfg.font_size / 2 <= u16::MAX,
        ensures
            h == cfg.font_size + cfg.font_size / 2,
    {
        cfg.font_size + cfg.font_size / 2
    }

    /// The popup's height: one row per command plus the header row.
    pub fn window_height(&self, cfg: &Config) -> (h: u16)
        requires
            self.commands@.len() < usize::MAX,
            cfg.font_size + cfg.font_size / 2 <= u16::MAX,
            (cfg.font_size + cfg.font_size / 2) * (self.commands@.len() + 1) <= u16::MAX,
        ensures
            h == (cfg.font_size + cfg.font_size / 2) * (self.commands@.len() + 1),
    {
        let item = Self::item_height(cfg);
        let rows = self.commands.len() + 1;
        proof {
            assert(item * rows == (cfg.font_size + cfg.font_size / 2) * (self.commands@.len()
                + 1));
        }
        (item as usize * rows) as u16
    }

    /// The popup's position: centred horizontally, at the vertical
    /// midpoint of the screen.
    pub fn initial_position(cfg: &Config, screen_width: u16, screen_height: u16) -> (pos: (
        u16,
        u16,
    ))
        requires
            cfg.width <= screen_width,
        ensures
            pos.0 == (screen_width - cfg.width) / 2,
            pos.1 == screen_height / 2,
    {
        ((screen_width - cfg.width) / 2, screen_height / 2)
    }

    /// Reacts to one key press: the close key abandons the prompt; the
    /// select key prints the selected command, if one exists; the up and
    /// down keys move the selection with wraparound.
    pub fn on_key_press(&mut self, key: LauncherKey) -> (r: Outcome)
        requires
            old(self).wf(),
            (key is Up || key is Down) ==> old(self).commands@.len() > 0,
        ensures
            final(self).wf(),
            final(self).commands == old(self).commands,
            key is Close ==> r == Outcome::Cancel && *final(self) == *old(self),
            key is Select ==> *final(self) == *old(self) && (if old(self).selection_index < old(
                self,
            ).commands@.len() {
                r matches Outcome::Chosen(c) && c@ == old(self).commands@[old(
                    self,
                ).selection_index as int]@
            } else {
                r == Outcome::Continue
            }),
            key is Up ==> r == Outcome::Continue && final(self).selection_index == (if old(
                self,
            ).selection_index > 0 {
                old(self).selection_index - 1
            } else {
                old(self).commands@.len() - 1
            }),
            key is Down ==> r == Outcome::Continue && final(self).selection_index == (if old(
                self,
            ).selection_index < old(self).commands@.len() - 1 {
                old(self).selection_index + 1
            } else {
                0
            }),
            key is Other ==> r == Outcome::Continue && *final(self) == *old(self),
    {
        match key {
            LauncherKey::Close => Outcome::Cancel,
            LauncherKey::Select => {
                if self.selection_index < self.commands.len() {
                    let chosen = self.commands[self.selection_index].clone();
                    Outcome::Chosen(chosen)
                } else {
                    Outcome::Continue
                }
            },
            LauncherKey::Up => {
                if self.selection_index > 0 {
                    self.selection_index = self.selection_index - 1;
                } else {
                    self.selection_index = self.commands.len() - 1;
                }
                Outcome::Continue
            },
            LauncherKey::Down => {
                if self.selection_index < self.commands.len() - 1 {
                    self.selection_index = self.selection_index + 1;
                } else {
                    self.selection_index = 0;
                }
                Outcome::Continue
            },
            LauncherKey::Other => Outcome::Continue,
        }
    }
}

} // verus!
