//! Screenshot post-processing for the capscr capture tool, with proofs.
//!
//! The core is a border compositing engine: it sets a captured image on a
//! canvas with a border in one of eight styles, optional padding, an
//! optional drop shadow and optional rounded corners.  Every stage states
//! what it leaves at each pixel of the canvas, and Verus proves that the
//! code does just that.
//!
//! * [`raster`]: the pixel buffer, kept by the `image` crate
//! * [`color`]: shades of a colour and source-over compositing
//! * [`config`], [`plugin`]: border settings and the plugin that holds them
//! * [`layout`]: the size of the canvas and the place of the content
//! * [`shadow`], [`border`], [`corner`]: the three drawing stages
//! * [`compose`]: the pipeline that runs them
//! * [`modes`]: restricting a plugin to some capture modes
//! * [`hotbar`], [`toolbar`], [`hotkey`]: settings, geometry and hotkeys of
//!   the capture toolbar

pub mod raster;
pub mod color;
pub mod config;
pub mod plugin;
pub mod layout;
pub mod shadow;
pub mod border;
pub mod corner;
pub mod compose;
pub mod modes;
pub mod hotbar;
pub mod toolbar;
pub mod hotkey;
