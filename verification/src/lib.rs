//! A tiling window manager for X11 together with its companion utilities (a
//! status bar, a command launcher, a filtering command selector) and an
//! experimental Wayland compositor prototype.
//!
//! This crate holds the decision logic of the whole ecosystem: the client
//! registry and master/stack layout engine, the event-pipeline plugins, the
//! configuration schemas, the text the status bar renders, the selection and
//! scrolling rules of the launcher and selector, and the workspace/cursor
//! bookkeeping of the compositor prototype.  Everything that talks to a
//! display server is driven from the `app` shell, which performs the commands
//! these functions return.

use vstd::prelude::*;

pub mod client;
pub mod command;
pub mod config;
pub mod element;
mod errors;
pub mod event;
pub mod handler;
pub mod input;
pub mod launcher;
pub mod plugin;
pub mod plugins;
pub mod renderer;
pub mod screen;
pub mod statusbar;
pub mod workspace;
pub mod selector;

pub use errors::MWMError;

verus! {

/// Decomposes a packed 24-bit colour into its red, green and blue channels.
///
/// Every renderer in the ecosystem (the status bar, the launcher, the
/// selector and the compositor's border shader) uses this same decomposition.
pub fn rgb_channels(color: u32) -> (rgb: (u32, u32, u32))
    ensures
        rgb.0 == (color >> 16) & 255,
        rgb.1 == (color >> 8) & 255,
        rgb.2 == color & 255,
{
    (color >> 16 & 255, color >> 8 & 255, color & 255)
}

} // verus!
