//! The layout of the overlay: how large its window is for what it shows,
//! and where on the screen it stands.

use crate::settings::{FpsColor, OverlayPosition, OverlaySize};
use vstd::prelude::*;

verus! {

/// Distance of the overlay from the edges of the screen, in pixels.
pub const OVERLAY_MARGIN: i32 = 10;

/// Space to the left and to the right of a line of text, in pixels.
pub const TEXT_PADDING: i32 = 6;

/// Space between the frame rate and its label, in pixels.
pub const LABEL_GAP: i32 = 4;

/// Space between two lines, in pixels.
pub const LINE_GAP: i32 = 4;

/// What the overlay shows, as far as its layout depends on it.
#[derive(Debug, Clone, Copy, PartialEq, Eq, Structural)]
pub struct OverlayContent {
    /// The frame rate, in thousandths of a frame per second.
    pub fps: u64,
    pub size: OverlaySize,
    pub show_1_percent_low: bool,
    pub show_cpu_usage: bool,
    pub show_gpu_usage: bool,
}

/// Width of `chars` characters in a font of height `font`: six tenths of
/// the height for each, rounded down.
pub open spec fn text_width(font: int, chars: int) -> int {
    font * 6 * chars / 10
}

/// Number of digits that the frame rate is drawn with: three from 100
/// frames per second on, two from 10 on, else one.
pub open spec fn fps_digits(fps: u64) -> int {
    if fps >= 100_000 {
        3
    } else if fps >= 10_000 {
        2
    } else {
        1
    }
}

/// Width of a line that holds `chars` characters of the large font, with
/// its padding.
pub open spec fn line_width(size: OverlaySize, chars: int) -> int {
    TEXT_PADDING + text_width(size.metrics().2 as int, chars) + TEXT_PADDING
}

/// Width of the frame rate as it is drawn.
pub open spec fn fps_number_width(content: OverlayContent) -> int {
    text_width(content.size.metrics().2 as int, fps_digits(content.fps))
}

/// Width of the label beside the frame rate: three characters of the small
/// font, each half as wide as the font is high.
pub open spec fn fps_label_width(content: OverlayContent) -> int {
    content.size.metrics().3 * 15 / 10
}

/// The larger of two numbers.
pub open spec fn larger(a: int, b: int) -> int {
    if a >= b {
        a
    } else {
        b
    }
}

/// Width that the content asks for: that of its widest line. The line of
/// the slowest hundredth is taken as eight characters, those of the
/// processor and graphics loads as ten.
pub open spec fn content_width(content: OverlayContent) -> int {
    let first = TEXT_PADDING + fps_number_width(content) + LABEL_GAP + fps_label_width(content)
        + TEXT_PADDING;
    let second = if content.show_1_percent_low {
        larger(first, line_width(content.size, 8))
    } else {
        first
    };
    if content.show_cpu_usage || content.show_gpu_usage {
        larger(second, line_width(content.size, 10))
    } else {
        second
    }
}

/// Height of a line below the frame rate: the height of the large font
/// and a gap.
pub open spec fn line_height(size: OverlaySize) -> int {
    size.metrics().2 + LINE_GAP
}

/// Height of the line below the frame rate that is there if `shown`.
pub open spec fn height_if(shown: bool, size: OverlaySize) -> int {
    if shown {
        line_height(size)
    } else {
        0
    }
}

/// Height that the content asks for: the height of the overlay's size, and
/// a line for each further value that is shown.
pub open spec fn content_height(content: OverlayContent) -> int {
    content.size.metrics().1 + height_if(content.show_1_percent_low, content.size) + height_if(
        content.show_cpu_usage,
        content.size,
    ) + height_if(content.show_gpu_usage, content.size)
}

fn width_of_text(font: i32, chars: i32) -> (width: i32)
    requires
        0 <= font <= 32,
        0 <= chars <= 10,
    ensures
        width == text_width(font as int, chars as int),
        0 <= width <= 192,
{
    assert(0 <= font * 6 * chars <= 1920) by (nonlinear_arith)
        requires
            0 <= font <= 32,
            0 <= chars <= 10,
    ;
    font * 6 * chars / 10
}

/// Computes the width and the height that the content asks for, and the
/// widths of the frame rate and of its label.
pub fn calculate_dimensions(content: &OverlayContent) -> (dims: (i32, i32, i32, i32))
    ensures
        dims.0 == content_width(*content),
        dims.1 == content_height(*content),
        dims.2 == fps_number_width(*content),
        dims.3 == fps_label_width(*content),
{
    let (_, height, font_large, font_small) = content.size.dimensions();
    let digits: i32 = if content.fps >= 100_000 {
        3
    } else if content.fps >= 10_000 {
        2
    } else {
        1
    };
    let number_width: i32 = width_of_text(font_large, digits);
    let label_width: i32 = font_small * 15 / 10;
    let mut width: i32 = TEXT_PADDING + number_width + LABEL_GAP + label_width + TEXT_PADDING;
    let mut total_height: i32 = height;
    let line: i32 = font_large + LINE_GAP;
    if content.show_1_percent_low {
        let wide: i32 = TEXT_PADDING + width_of_text(font_large, 8) + TEXT_PADDING;
        if wide > width {
            width = wide;
        }
        total_height = total_height + line;
    }
    if content.show_cpu_usage {
        let wide: i32 = TEXT_PADDING + width_of_text(font_large, 10) + TEXT_PADDING;
        if wide > width {
            width = wide;
        }
        total_height = total_height + line;
    }
    if content.show_gpu_usage {
        let wide: i32 = TEXT_PADDING + width_of_text(font_large, 10) + TEXT_PADDING;
        if wide > width {
            width = wide;
        }
        total_height = total_height + line;
    }
    (width, total_height, number_width, label_width)
}

/// Where the overlay's window stands and how large it is: left, top, width
/// and height.
pub open spec fn placement(
    content: OverlayContent,
    position: OverlayPosition,
    screen_width: i32,
) -> (int, int, int, int) {
    let width = if content_width(content) <= content.size.metrics().0 {
        content_width(content)
    } else {
        content.size.metrics().0 as int
    };
    let left = match position {
        OverlayPosition::TopRight => screen_width - width - OVERLAY_MARGIN,
        OverlayPosition::TopLeft => OVERLAY_MARGIN as int,
    };
    (left, OVERLAY_MARGIN as int, width, content_height(content))
}

/// Places the overlay's window on a screen `screen_width` pixels wide: a
/// margin away from the top and from the left or right edge, as wide as
/// the content asks for but no wider than its size allows, and as high as
/// the content asks for.
pub fn place_window(content: &OverlayContent, position: OverlayPosition, screen_width: i32) -> (at:
    (i32, i32, i32, i32))
    requires
        placement(*content, position, screen_width).0 >= i32::MIN,
    ensures
        at.0 == placement(*content, position, screen_width).0,
        at.1 == placement(*content, position, screen_width).1,
        at.2 == placement(*content, position, screen_width).2,
        at.3 == placement(*content, position, screen_width).3,
{
    let (default_width, _, _, _) = content.size.dimensions();
    let (asked, height, _, _) = calculate_dimensions(content);
    let width: i32 = if asked <= default_width {
        asked
    } else {
        default_width
    };
    let left: i32 = match position {
        OverlayPosition::TopRight => screen_width - width - OVERLAY_MARGIN,
        OverlayPosition::TopLeft => OVERLAY_MARGIN,
    };
    (left, OVERLAY_MARGIN, width, height)
}

/// The colour as the window system takes it: blue, green and red from the
/// highest byte used down to the lowest.
pub open spec fn color_value(color: FpsColor) -> u32 {
    (color.rgb().2 * 65536 + color.rgb().1 * 256 + color.rgb().0) as u32
}

/// Returns the colour as the window system takes it.
pub fn color_reference(color: FpsColor) -> (value: u32)
    ensures
        value == color_value(color),
{
    let (r, g, b) = color.to_rgb();
    b as u32 * 65536 + g as u32 * 256 + r as u32
}

} // verus!
