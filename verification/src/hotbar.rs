//! Settings of the capture toolbar: where it sits, what buttons it shows and
//! how it is themed.

use vstd::prelude::*;
use crate::raster::Rgba8;

verus! {

/// The frosted-glass backdrop of the toolbar.
#[derive(Debug, Clone, Copy)]
pub struct GlassConfig {
    pub enabled: bool,
    pub blur_amount: u32,
    pub tint_color: Rgba8,
}

/// The glass settings used where none are given.
pub open spec fn default_glass() -> GlassConfig {
    GlassConfig { enabled: true, blur_amount: 30, tint_color: [30u8, 30u8, 30u8, 180u8] }
}

impl Default for GlassConfig {
    fn default() -> (glass: Self)
        ensures
            glass == default_glass(),
    {
        GlassConfig { enabled: true, blur_amount: 30, tint_color: [30, 30, 30, 180] }
    }
}

/// Where on the screen the toolbar sits.
#[derive(Debug, Clone, Copy, PartialEq, Eq, Structural)]
pub enum HotbarPosition {
    Top,
    Bottom,
    Left,
    Right,
    TopLeft,
    TopRight,
    BottomLeft,
    BottomRight,
    Custom { x: i32, y: i32 },
}

/// What a toolbar button does.
#[derive(Debug, Clone, Copy, PartialEq, Eq, Structural)]
pub enum HotbarAction {
    CaptureScreen,
    CaptureWindow,
    CaptureRegion,
    RecordGif,
    OpenSettings,
    ToggleHotbar,
}

/// One button of the toolbar.
#[derive(Debug, Clone)]
pub struct HotbarButton {
    pub action: HotbarAction,
    pub label: String,
    pub tooltip: Option<String>,
    pub hotkey: Option<String>,
}

/// Sizes of the toolbar's parts, in pixels.
#[derive(Debug, Clone, Copy)]
pub struct HotbarSize {
    pub button_width: u32,
    pub button_height: u32,
    pub spacing: u32,
    pub padding: u32,
}

/// Colours of the toolbar's parts.
#[derive(Debug, Clone, Copy)]
pub struct HotbarTheme {
    pub background: Rgba8,
    pub button_background: Rgba8,
    pub button_hover: Rgba8,
    pub button_active: Rgba8,
    pub text: Rgba8,
    pub border: Rgba8,
    pub border_radius: u32,
}

/// Toolbar settings.
#[derive(Debug, Clone)]
pub struct HotbarConfig {
    pub enabled: bool,
    pub position: HotbarPosition,
    pub auto_hide: bool,
    pub auto_hide_delay_ms: u32,
    pub buttons: Vec<HotbarButton>,
    pub size: HotbarSize,
    pub theme: HotbarTheme,
    pub glass: GlassConfig,
}

/// The sizes used where none are given.
pub open spec fn default_size() -> HotbarSize {
    HotbarSize { button_width: 36, button_height: 36, spacing: 6, padding: 10 }
}

/// The colours used where none are given.
pub open spec fn default_theme() -> HotbarTheme {
    HotbarTheme {
        background: [0u8, 0u8, 0u8, 1u8],
        button_background: [255u8, 255u8, 255u8, 30u8],
        button_hover: [255u8, 255u8, 255u8, 50u8],
        button_active: [255u8, 255u8, 255u8, 70u8],
        text: [255u8, 255u8, 255u8, 255u8],
        border: [255u8, 255u8, 255u8, 40u8],
        border_radius: 8,
    }
}

impl HotbarButton {
    /// Whether this button does `action`, is labelled `label` and has the
    /// given tooltip and hotkey.
    pub open spec fn reads(
        &self,
        action: HotbarAction,
        label: Seq<char>,
        tooltip: Seq<char>,
        hotkey: Seq<char>,
    ) -> bool {
        &&& self.action == action
        &&& self.label@ == label
        &&& self.tooltip matches Some(text) && text@ == tooltip
        &&& self.hotkey matches Some(keys) && keys@ == hotkey
    }

    /// A button with a tooltip and a hotkey.
    pub fn with_hotkey(action: HotbarAction, label: &str, tooltip: &str, hotkey: &str) -> (button:
        Self)
        ensures
            button.reads(action, label@, tooltip@, hotkey@),
    {
        HotbarButton {
            action,
            label: label.to_owned(),
            tooltip: Some(tooltip.to_owned()),
            hotkey: Some(hotkey.to_owned()),
        }
    }
}

impl Default for HotbarConfig {
    /// An enabled toolbar at the bottom of the screen with one button for
    /// each kind of capture.
    fn default() -> (config: Self)
        ensures
            config.enabled,
            config.position == HotbarPosition::Bottom,
            !config.auto_hide,
            config.auto_hide_delay_ms == 2000,
            config.buttons@.len() == 4,
            config.buttons@[0].reads(
                HotbarAction::CaptureScreen,
                "S"@,
                "Capture Screen"@,
                "Ctrl+Shift+S"@,
            ),
            config.buttons@[1].reads(
                HotbarAction::CaptureWindow,
                "W"@,
                "Capture Window"@,
                "Ctrl+Shift+W"@,
            ),
            config.buttons@[2].reads(
                HotbarAction::CaptureRegion,
                "R"@,
                "Capture Region"@,
                "Ctrl+Shift+R"@,
            ),
            config.buttons@[3].reads(HotbarAction::RecordGif, "G"@, "Record GIF"@, "Ctrl+Shift+G"@),
            config.size == default_size(),
            config.theme == default_theme(),
            config.glass == default_glass(),
    {
        let mut buttons: Vec<HotbarButton> = Vec::new();
        buttons.push(
            HotbarButton::with_hotkey(
                HotbarAction::CaptureScreen,
                "S",
                "Capture Screen",
                "Ctrl+Shift+S",
            ),
        );
        buttons.push(
            HotbarButton::with_hotkey(
                HotbarAction::CaptureWindow,
                "W",
                "Capture Window",
                "Ctrl+Shift+W",
            ),
        );
        buttons.push(
            HotbarButton::with_hotkey(
                HotbarAction::CaptureRegion,
                "R",
                "Capture Region",
                "Ctrl+Shift+R",
            ),
        );
        buttons.push(
            HotbarButton::with_hotkey(HotbarAction::RecordGif, "G", "Record GIF", "Ctrl+Shift+G"),
        );
        HotbarConfig {
            enabled: true,
            position: HotbarPosition::Bottom,
            auto_hide: false,
            auto_hide_delay_ms: 2000,
            buttons,
            size: HotbarSize { button_width: 36, button_height: 36, spacing: 6, padding: 10 },
            theme: HotbarTheme {
                background: [0, 0, 0, 1],
                button_background: [255, 255, 255, 30],
                button_hover: [255, 255, 255, 50],
                button_active: [255, 255, 255, 70],
                text: [255, 255, 255, 255],
                border: [255, 255, 255, 40],
                border_radius: 8,
            },
            glass: GlassConfig::default(),
        }
    }
}

} // verus!
