use vstd::prelude::*;

verus! {

/// The launcher's configuration, immutable after load.
#[derive(Clone, Debug)]
pub struct Config {
    /// The popup's width in pixels.
    pub width: u16,
    /// The popup's border width in pixels.
    pub border_thickness: u16,
    /// Packed 24-bit border colour.
    pub border_color: u32,
    /// Font size in pixels.
    pub font_size: u16,
    /// Font family name.
    pub font_family: String,
    /// Packed 24-bit text colour.
    pub font_color: u32,
    /// Packed 24-bit text colour of the selected row.
    pub font_active_color: u32,
    /// Packed 24-bit background colour.
    pub background_color: u32,
    /// Packed 24-bit background colour of the selected row.
    pub background_active_color: u32,
    /// Keysym that abandons the prompt.
    pub close_keysym: u32,
    /// Keysym that confirms the selection.
    pub select_keysym: u32,
    /// Keysym that moves the selection up.
    pub up_keysym: u32,
    /// Keysym that moves the selection down.
    pub down_keysym: u32,
}

impl Config {
    /// Assembles the configuration from independently parsed fields:
    /// `Some` exactly when every field was present, taken over unchanged.
    #[allow(clippy::too_many_arguments)]
    pub fn from_parts(
        width: Option<u16>,
        border_thickness: Option<u16>,
        border_color: Option<u32>,
        font_size: Option<u16>,
        font_family: Option<String>,
        font_color: Option<u32>,
        font_active_color: Option<u32>,
        background_color: Option<u32>,
        background_active_color: Option<u32>,
        close_keysym: Option<u32>,
        select_keysym: Option<u32>,
        up_keysym: Option<u32>,
        down_keysym: Option<u32>,
    ) -> (r: Option<Config>)
        ensures
            r is Some <==> {
                &&& width is Some
                &&& border_thickness is Some
                &&& border_color is Some
                &&& font_size is Some
                &&& font_family is Some
                &&& font_color is Some
                &&& font_active_color is Some
                &&& background_color is Some
                &&& background_active_color is Some
                &&& close_keysym is Some
                &&& select_keysym is Some
                &&& up_keysym is Some
                &&& down_keysym is Some
            },
            r matches Some(c) ==> {
                &&& c.width == width->Some_0
                &&& c.border_thickness == border_thickness->Some_0
                &&& c.border_color == border_color->Some_0
                &&& c.font_size == font_size->Some_0
                &&& c.font_family == font_family->Some_0
                &&& c.font_color == font_color->Some_0
                &&& c.font_active_color == font_active_color->Some_0
                &&& c.background_color == background_color->Some_0
                &&& c.background_active_color == background_active_color->Some_0
                &&& c.close_keysym == close_keysym->Some_0
                &&& c.select_keysym == select_keysym->Some_0
                &&& c.up_keysym == up_keysym->Some_0
                &&& c.down_keysym == down_keysym->Some_0
            },
    {
        match (
            width,
            border_thickness,
            border_color,
            font_size,
            font_family,
            font_color,
            font_active_color,
            background_color,
            background_active_color,
            close_keysym,
            select_keysym,
            up_keysym,
            down_keysym,
        ) {
            (
                Some(width),
                Some(border_thickness),
                Some(border_color),
                Some(font_size),
                Some(font_family),
                Some(font_color),
                Some(font_active_color),
                Some(background_color),
                Some(background_active_color),
                Some(close_keysym),
                Some(select_keysym),
                Some(up_keysym),
                Some(down_keysym),
            ) => Some(
                Config {
                    width,
                    border_thickness,
                    border_color,
                    font_size,
                    font_family,
                    font_color,
                    font_active_color,
                    background_color,
                    background_active_color,
                    close_keysym,
                    select_keysym,
                    up_keysym,
                    down_keysym,
                },
            ),
            _ => None,
        }
    }
}

} // verus!
