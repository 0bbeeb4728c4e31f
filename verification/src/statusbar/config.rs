use vstd::prelude::*;

verus! {

/// The status bar's configuration, immutable after load.
#[derive(Clone, Debug)]
pub struct Config {
    /// The bar's height in pixels.
    pub height: u16,
    /// The gap kept around the bar, in pixels.
    pub margin: u16,
    /// Font size in pixels.
    pub font_size: u32,
    /// Font family name.
    pub font_family: String,
    /// Packed 24-bit text colour.
    pub font_color: u32,
    /// Packed 24-bit text colour of the active workspace cell.
    pub font_active_color: u32,
    /// Packed 24-bit background colour.
    pub background_color: u32,
    /// Packed 24-bit background colour of the active workspace cell.
    pub background_active_color: u32,
    /// The fixed width of one workspace cell, in pixels.
    pub workspace_width: u32,
}

impl Config {
    /// Assembles the configuration from independently parsed fields:
    /// `Some` exactly when every field was present, taken over unchanged.
    #[allow(clippy::too_many_arguments)]
    pub fn from_parts(
        height: Option<u16>,
        margin: Option<u16>,
        font_size: Option<u32>,
        font_family: Option<String>,
        font_color: Option<u32>,
        font_active_color: Option<u32>,
        background_color: Option<u32>,
        background_active_color: Option<u32>,
        workspace_width: Option<u32>,
    ) -> (r: Option<Config>)
        ensures
            r is Some <==> {
                &&& height is Some
                &&& margin is Some
                &&& font_size is Some
                &&& font_family is Some
                &&& font_color is Some
                &&& font_active_color is Some
                &&& background_color is Some
                &&& background_active_color is Some
                &&& workspace_width is Some
            },
            r matches Some(c) ==> {
                &&& c.height == height->Some_0
                &&& c.margin == margin->Some_0
                &&& c.font_size == font_size->Some_0
                &&& c.font_family == font_family->Some_0
                &&& c.font_color == font_color->Some_0
                &&& c.font_active_color == font_active_color->Some_0
                &&& c.background_color == background_color->Some_0
                &&& c.background_active_color == background_active_color->Some_0
                &&& c.workspace_width == workspace_width->Some_0
            },
    {
        match (
            height,
            margin,
            font_size,
            font_family,
            font_color,
            font_active_color,
            background_color,
            background_active_color,
            workspace_width,
        ) {
            (
                Some(height),
                Some(margin),
                Some(font_size),
                Some(font_family),
                Some(font_color),
                Some(font_active_color),
                Some(background_color),
                Some(background_active_color),
                Some(workspace_width),
            ) => Some(
                Config {
                    height,
                    margin,
                    font_size,
                    font_family,
                    font_color,
                    font_active_color,
                    background_color,
                    background_active_color,
                    workspace_width,
                },
            ),
            _ => None,
        }
    }
}

} // verus!
