use vstd::prelude::*;

use crate::number::{parsed_i32, parsed_u32, string_to_i32, string_to_u32, i32_fallback};
use crate::text::text_eq;

verus! {

/// The narrowest window allowed outside full screen.
pub const MIN_WIDTH: i32 = 350;

/// The lowest window allowed outside full screen.
pub const MIN_HEIGHT: i32 = 200;

/// The smallest icon size that a configuration may set.
pub const MIN_ICON_SIZE: i32 = 20;

/// The icon size used before the window's width is known.
pub const START_ICON_SIZE: i32 = 30;

/// The shell layer that the window is placed on.
#[derive(Debug, Clone, Copy, PartialEq, Eq, Structural)]
pub enum Layer {
    Overlay,
    Top,
    Bottom,
}

/// How the window takes the keyboard.
#[derive(Debug, Clone, Copy, PartialEq, Eq, Structural)]
pub enum KeyboardMode {
    Exclusive,
    OnDemand,
}

/// A window's default width and height.
#[derive(Debug, Clone, Copy, PartialEq, Eq, Structural)]
pub struct WindowSize {
    pub width: i32,
    pub height: i32,
}

/// Where and how the launcher's window is shown. `size` is `None` in full
/// screen, where the window is anchored to all four edges; otherwise the
/// window is anchored to the bottom edge with that default width and height.
#[derive(Debug, Clone, Copy, PartialEq, Eq, Structural)]
pub struct WindowSettings {
    pub size: Option<WindowSize>,
    pub layer: Layer,
    pub keyboard: KeyboardMode,
}

/// The size of the icons in the application grid.
#[derive(Debug, Clone, Copy, PartialEq, Eq, Structural)]
pub enum IconSize {
    /// A size set by the configuration.
    Fixed(i32),
    /// A size that follows the window's width.
    Auto,
}

/// "overlay" and "bottom" name their layers; anything else is the top layer.
pub open spec fn layer_of(s: Seq<char>) -> Layer {
    if s == "overlay"@ {
        Layer::Overlay
    } else if s == "bottom"@ {
        Layer::Bottom
    } else {
        Layer::Top
    }
}

/// "exclusive" takes the keyboard; anything else takes it on demand.
pub open spec fn keyboard_of(s: Seq<char>) -> KeyboardMode {
    if s == "exclusive"@ {
        KeyboardMode::Exclusive
    } else {
        KeyboardMode::OnDemand
    }
}

pub open spec fn at_least(v: i32, low: i32) -> i32 {
    if v < low {
        low
    } else {
        v
    }
}

/// A configured dimension: its number, or `fallback` when it is none, and no
/// less than `low`.
pub open spec fn dimension(s: Seq<char>, which: Seq<char>, low: i32) -> i32 {
    at_least(
        match parsed_i32(s) {
            Some(v) => v,
            None => i32_fallback(which),
        },
        low,
    )
}

/// The window's settings: only "false" leaves full screen, and then the
/// configured width and height hold, raised to at least 350 by 200.
pub open spec fn settings_of(
    layer: Seq<char>,
    fullscreen: Seq<char>,
    input: Seq<char>,
    width: Seq<char>,
    height: Seq<char>,
) -> WindowSettings {
    WindowSettings {
        size: if fullscreen == "false"@ {
            Some(
                WindowSize {
                    width: dimension(width, "width"@, MIN_WIDTH),
                    height: dimension(height, "height"@, MIN_HEIGHT),
                },
            )
        } else {
            None
        },
        layer: layer_of(layer),
        keyboard: keyboard_of(input),
    }
}

/// "auto", or a number below 20 or none at all, lets the size follow the
/// window; a number of 20 or more fixes it.
pub open spec fn icon_size_of(s: Seq<char>) -> IconSize {
    if s == "auto"@ {
        IconSize::Auto
    } else {
        match parsed_i32(s) {
            Some(v) => if v >= MIN_ICON_SIZE {
                IconSize::Fixed(v)
            } else {
                IconSize::Auto
            },
            None => IconSize::Auto,
        }
    }
}

/// The icon size that follows the window's width.
pub open spec fn auto_icon_size_of(width: i32) -> i32 {
    if 0 <= width <= 599 {
        30
    } else if 600 <= width <= 1799 {
        40
    } else if 1800 <= width <= 2399 {
        50
    } else {
        60
    }
}

/// The number of grid columns that follows the window's width.
pub open spec fn auto_columns_of(width: i32) -> u32 {
    if 0 <= width <= 499 {
        3
    } else if 500 <= width <= 799 {
        5
    } else if 800 <= width <= 1099 {
        6
    } else if 1100 <= width <= 1399 {
        7
    } else if 1400 <= width <= 1699 {
        8
    } else if 1700 <= width <= 1999 {
        9
    } else {
        10
    }
}

/// The number of grid columns: the configured number when it is 2 or more,
/// else the number that follows the window's width.
pub open spec fn columns_of(s: Seq<char>, width: i32) -> u32 {
    match parsed_u32(s) {
        Some(n) => if n >= 2 {
            n
        } else {
            auto_columns_of(width)
        },
        None => auto_columns_of(width),
    }
}

/// The shell layer named by the configuration (see `layer_of`).
pub fn layer_setting(layer: &str) -> (r: Layer)
    ensures
        r == layer_of(layer@),
{
    if text_eq(layer, "overlay") {
        Layer::Overlay
    } else if text_eq(layer, "bottom") {
        Layer::Bottom
    } else {
        Layer::Top
    }
}

/// The keyboard mode named by the configuration (see `keyboard_of`).
pub fn keyboard_setting(input: &str) -> (r: KeyboardMode)
    ensures
        r == keyboard_of(input@),
{
    if text_eq(input, "exclusive") {
        KeyboardMode::Exclusive
    } else {
        KeyboardMode::OnDemand
    }
}

/// The window's settings from the configured "layer", "fullscreen", "input",
/// "width" and "height" (see `settings_of`).
pub fn window_settings(layer: &str, fullscreen: &str, input: &str, width: String, height: String) -> (r:
    WindowSettings)
    ensures
        r == settings_of(layer@, fullscreen@, input@, width@, height@),
{
    let size = if text_eq(fullscreen, "false") {
        let mut w = string_to_i32(width, "width");
        let mut h = string_to_i32(height, "height");
        if w < MIN_WIDTH {
            w = MIN_WIDTH;
        }
        if h < MIN_HEIGHT {
            h = MIN_HEIGHT;
        }
        Some(WindowSize { width: w, height: h })
    } else {
        None
    };
    WindowSettings { size, layer: layer_setting(layer), keyboard: keyboard_setting(input) }
}

/// The icon size set by the configured "icon_size" (see `icon_size_of`).
pub fn icon_size_setting(icon_size: String) -> (r: IconSize)
    ensures
        r == icon_size_of(icon_size@),
{
    if text_eq(icon_size.as_str(), "auto") {
        return IconSize::Auto;
    }
    let none = "";
    proof {
        reveal_strlit("");
        reveal_strlit("height");
        reveal_strlit("width");
        assert(none@.len() == 0);
        assert("height"@.len() == 6);
        assert("width"@.len() == 5);
        assert(i32_fallback(none@) == 0);
    }
    let v = string_to_i32(icon_size, none);
    if v >= MIN_ICON_SIZE {
        IconSize::Fixed(v)
    } else {
        IconSize::Auto
    }
}

/// The size that icons are first drawn at: the fixed size, or 30 until the
/// window's width is known.
pub fn initial_icon_size(setting: IconSize) -> (r: i32)
    ensures
        r == match setting {
            IconSize::Fixed(v) => v,
            IconSize::Auto => START_ICON_SIZE,
        },
{
    match setting {
        IconSize::Fixed(v) => v,
        IconSize::Auto => START_ICON_SIZE,
    }
}

/// The icon size that follows the window's width (see `auto_icon_size_of`).
pub fn auto_icon_size(width: i32) -> (r: i32)
    ensures
        r == auto_icon_size_of(width),
{
    if 0 <= width && width <= 599 {
        30
    } else if 600 <= width && width <= 1799 {
        40
    } else if 1800 <= width && width <= 2399 {
        50
    } else {
        60
    }
}

/// The number of grid columns that follows the window's width (see
/// `auto_columns_of`).
pub fn auto_columns(width: i32) -> (r: u32)
    ensures
        r == auto_columns_of(width),
{
    if 0 <= width && width <= 499 {
        3
    } else if 500 <= width && width <= 799 {
        5
    } else if 800 <= width && width <= 1099 {
        6
    } else if 1100 <= width && width <= 1399 {
        7
    } else if 1400 <= width && width <= 1699 {
        8
    } else if 1700 <= width && width <= 1999 {
        9
    } else {
        10
    }
}

/// The number of grid columns from the configured "columns" and the window's
/// width (see `columns_of`).
pub fn grid_columns(columns: String, window_width: i32) -> (r: u32)
    ensures
        r == columns_of(columns@, window_width),
{
    let n = string_to_u32(columns);
    if n >= 2 {
        n
    } else {
        auto_columns(window_width)
    }
}

} // verus!
