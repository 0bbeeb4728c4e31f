use vstd::prelude::*;

verus! {

/// The thickness of the compositor's window outlines, in pixels.
pub const BORDER_THICKNESS: i32 = 2;

/// The packed colour the active window is outlined in.
pub const ACTIVE_BORDER_COLOR: u32 = 0xff0000;

/// The packed colour every other window is outlined in.
pub const INACTIVE_BORDER_COLOR: u32 = 0x0000ff;

/// One window outline for the border pixel shader: the rectangle it
/// covers and the uniforms handed to the shader program.
#[derive(Clone, Copy, PartialEq, Eq, Structural, Debug)]
pub struct BorderElement {
    pub x: i32,
    pub y: i32,
    pub width: i32,
    pub height: i32,
    /// The outline colour's 0–255 red channel.
    pub red: u32,
    /// The outline colour's 0–255 green channel.
    pub green: u32,
    /// The outline colour's 0–255 blue channel.
    pub blue: u32,
    pub thickness: i32,
}

/// The compositor's border shader: a pixel-shader program compiled once at
/// startup and cached in the rendering context.  The program handle lives
/// with the shell's renderer; this side computes each outline element.
#[derive(Clone, Copy, PartialEq, Eq, Structural, Debug)]
pub struct BorderShader;

impl BorderShader {
    /// The outline element of a window: its screen geometry inflated by
    /// the border thickness on each side, so the border straddles the
    /// window edge, coloured for whether the window is active, with the
    /// packed colour split into 0–255 channels for the shader uniforms.
    pub fn element(x: i32, y: i32, width: i32, height: i32, active: bool) -> (e: BorderElement)
        requires
            i32::MIN + BORDER_THICKNESS <= x,
            i32::MIN + BORDER_THICKNESS <= y,
            width <= i32::MAX - 2 * BORDER_THICKNESS,
            height <= i32::MAX - 2 * BORDER_THICKNESS,
        ensures
            e.x == x - BORDER_THICKNESS,
            e.y == y - BORDER_THICKNESS,
            e.width == width + 2 * BORDER_THICKNESS,
            e.height == height + 2 * BORDER_THICKNESS,
            e.red == (Self::spec_color(active) >> 16) & 255,
            e.green == (Self::spec_color(active) >> 8) & 255,
            e.blue == Self::spec_color(active) & 255,
            e.thickness == BORDER_THICKNESS,
    {
        let color: u32 = if active {
            ACTIVE_BORDER_COLOR
        } else {
            INACTIVE_BORDER_COLOR
        };
        let (red, green, blue) = crate::rgb_channels(color);
        BorderElement {
            x: x - BORDER_THICKNESS,
            y: y - BORDER_THICKNESS,
            width: width + 2 * BORDER_THICKNESS,
            height: height + 2 * BORDER_THICKNESS,
            red,
            green,
            blue,
            thickness: BORDER_THICKNESS,
        }
    }

    /// The outline colour of a window: one fixed colour for the active
    /// window, another for all others.
    pub open spec fn spec_color(active: bool) -> u32 {
        if active {
            ACTIVE_BORDER_COLOR
        } else {
            INACTIVE_BORDER_COLOR
        }
    }
}

} // verus!
