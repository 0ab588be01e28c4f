//! What a border looks like: the settings the engine is driven by.

use vstd::prelude::*;
use crate::raster::Rgba8;

verus! {

/// The eight ways a border can be drawn.
#[derive(Debug, Clone, Copy, PartialEq, Eq, Structural)]
pub enum BorderStyle {
    Solid,
    Double,
    Dashed,
    Dotted,
    Groove,
    Ridge,
    Inset,
    Outset,
}

/// A drop shadow beneath the content.
#[derive(Debug, Clone, Copy)]
pub struct ShadowConfig {
    pub offset_x: i32,
    pub offset_y: i32,
    pub blur_radius: u32,
    pub color: Rgba8,
}

/// The kinds of capture a host can make.
#[derive(Debug, Clone, Copy, PartialEq, Eq, Structural)]
pub enum CaptureMode {
    FullScreen,
    Window,
    Region,
    Gif,
}

/// Border settings.  `size` is the border's thickness in pixels, `padding`
/// the gap between content and border.  A missing `background_color` means
/// fully transparent; a missing `only_modes` means every capture mode.
#[derive(Debug, Clone)]
pub struct BorderConfig {
    pub enabled: bool,
    pub style: BorderStyle,
    pub size: u32,
    pub color: Rgba8,
    pub corner_radius: u32,
    pub shadow: Option<ShadowConfig>,
    pub padding: u32,
    pub background_color: Option<Rgba8>,
    pub only_modes: Option<Vec<String>>,
}

/// The settings used where none are given: a solid dark grey border three
/// pixels wide, with nothing else.
pub open spec fn default_border_config() -> BorderConfig {
    BorderConfig {
        enabled: true,
        style: BorderStyle::Solid,
        size: 3,
        color: [60u8, 60u8, 60u8, 255u8],
        corner_radius: 0,
        shadow: None,
        padding: 0,
        background_color: None,
        only_modes: None,
    }
}

impl Default for BorderConfig {
    fn default() -> (config: Self)
        ensures
            config == default_border_config(),
    {
        BorderConfig {
            enabled: true,
            style: BorderStyle::Solid,
            size: 3,
            color: [60, 60, 60, 255],
            corner_radius: 0,
            shadow: None,
            padding: 0,
            background_color: None,
            only_modes: None,
        }
    }
}

impl BorderConfig {
    /// The colour the canvas starts out with.
    pub open spec fn background(&self) -> Rgba8 {
        match self.background_color {
            Some(c) => c,
            None => [0u8, 0u8, 0u8, 0u8],
        }
    }
}

} // verus!
