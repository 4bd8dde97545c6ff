//! Where things are drawn: the player's marker, the fixed reference marker,
//! and the frame-rate label. Drawing itself is left to whoever owns a canvas.

use crate::character::Position;
use crate::fixed::{clamp, div_toward_zero, UNIT};
use vstd::prelude::*;
use vstd::string::StringExecFns;

verus! {

/// Side of the square markers, in pixels.
pub const MARKER_SIZE: u32 = 10;

/// The left edge of the reference marker, at the middle of an 800 pixel wide
/// view.
pub const REFERENCE_X: i32 = 395;

/// The top edge of the reference marker, at the middle of a 600 pixel high
/// view.
pub const REFERENCE_Y: i32 = 295;

/// Space kept between the frame-rate label and the right and bottom edges of
/// the view, in pixels.
pub const LABEL_MARGIN: i32 = 10;

/// An axis-aligned rectangle in pixels, given by its top left corner and its
/// size.
#[derive(Debug, Clone, Copy, PartialEq, Eq, Structural)]
pub struct Rectangle {
    pub x: i32,
    pub y: i32,
    pub width: u32,
    pub height: u32,
}

/// The pixel that a coordinate falls on: its whole part, held within `i32`.
pub open spec fn pixel(coordinate: int) -> int {
    clamp(div_toward_zero(coordinate, UNIT as int), i32::MIN as int, i32::MAX as int)
}

/// Where a label of `size` pixels starts so that it ends `LABEL_MARGIN` before
/// the far edge of a view `extent` pixels long, held within `i32`.
pub open spec fn label_origin(extent: int, size: int) -> int {
    clamp(extent - size - LABEL_MARGIN, i32::MIN as int, i32::MAX as int)
}

/// The character for a single decimal digit.
pub open spec fn digit(value: nat) -> char
    recommends
        value < 10,
{
    if value == 0 {
        '0'
    } else if value == 1 {
        '1'
    } else if value == 2 {
        '2'
    } else if value == 3 {
        '3'
    } else if value == 4 {
        '4'
    } else if value == 5 {
        '5'
    } else if value == 6 {
        '6'
    } else if value == 7 {
        '7'
    } else if value == 8 {
        '8'
    } else {
        '9'
    }
}

/// A number written in decimal, without leading zeros.
pub open spec fn decimal(value: nat) -> Seq<char>
    decreases value,
{
    if value < 10 {
        seq![digit(value)]
    } else {
        decimal(value / 10).push(digit(value % 10))
    }
}

/// The pixel that a coordinate falls on.
pub fn to_pixel(coordinate: i64) -> (p: i32)
    ensures
        p == pixel(coordinate as int),
{
    let whole = coordinate / UNIT;
    if whole > i32::MAX as i64 {
        i32::MAX
    } else if whole < i32::MIN as i64 {
        i32::MIN
    } else {
        whole as i32
    }
}

/// The static marker that shows where the middle of the view is.
pub fn reference_marker() -> (marker: Rectangle)
    ensures
        marker == (Rectangle {
            x: REFERENCE_X,
            y: REFERENCE_Y,
            width: MARKER_SIZE,
            height: MARKER_SIZE,
        }),
{
    Rectangle { x: REFERENCE_X, y: REFERENCE_Y, width: MARKER_SIZE, height: MARKER_SIZE }
}

/// The marker that shows the player: a square with its top left corner on the
/// pixel that the position falls on.
pub fn player_marker(position: &Position) -> (marker: Rectangle)
    ensures
        marker.x == pixel(position@.x),
        marker.y == pixel(position@.y),
        marker.width == MARKER_SIZE,
        marker.height == MARKER_SIZE,
{
    Rectangle {
        x: to_pixel(position.get_x()),
        y: to_pixel(position.get_y()),
        width: MARKER_SIZE,
        height: MARKER_SIZE,
    }
}

/// Where the frame-rate label goes: in the bottom right corner of the view,
/// `LABEL_MARGIN` away from both edges, at the size it was rendered in.
pub fn fps_label_frame(
    view_width: u32,
    view_height: u32,
    label_width: u32,
    label_height: u32,
) -> (frame: Rectangle)
    ensures
        frame.x == label_origin(view_width as int, label_width as int),
        frame.y == label_origin(view_height as int, label_height as int),
        frame.width == label_width,
        frame.height == label_height,
{
    Rectangle {
        x: origin_of_label(view_width, label_width),
        y: origin_of_label(view_height, label_height),
        width: label_width,
        height: label_height,
    }
}

fn origin_of_label(extent: u32, size: u32) -> (origin: i32)
    ensures
        origin == label_origin(extent as int, size as int),
{
    let origin: i64 = extent as i64 - size as i64 - LABEL_MARGIN as i64;
    if origin > i32::MAX as i64 {
        i32::MAX
    } else if origin < i32::MIN as i64 {
        i32::MIN
    } else {
        origin as i32
    }
}

/// The text of a single decimal digit.
fn digit_text(value: u32) -> (text: &'static str)
    requires
        value < 10,
    ensures
        text@ == seq![digit(value as nat)],
{
    proof {
        reveal_strlit("0");
        reveal_strlit("1");
        reveal_strlit("2");
        reveal_strlit("3");
        reveal_strlit("4");
        reveal_strlit("5");
        reveal_strlit("6");
        reveal_strlit("7");
        reveal_strlit("8");
        reveal_strlit("9");
    }
    let text = if value == 0 {
        "0"
    } else if value == 1 {
        "1"
    } else if value == 2 {
        "2"
    } else if value == 3 {
        "3"
    } else if value == 4 {
        "4"
    } else if value == 5 {
        "5"
    } else if value == 6 {
        "6"
    } else if value == 7 {
        "7"
    } else if value == 8 {
        "8"
    } else {
        "9"
    };
    assert(text@ =~= seq![digit(value as nat)]);
    text
}

/// Writes `value` in decimal at the end of `text`.
fn append_decimal(text: &mut String, value: u32)
    ensures
        final(text)@ == old(text)@ + decimal(value as nat),
    decreases value,
{
    if value >= 10 {
        append_decimal(text, value / 10);
    }
    text.append(digit_text(value % 10));
    assert(text@ =~= old(text)@ + decimal(value as nat));
}

/// The text of the frame-rate label: `FPS: ` and the rate in decimal.
pub fn fps_label_text(fps: u32) -> (label: String)
    ensures
        label@ == "FPS: "@ + decimal(fps as nat),
{
    let mut label = String::from_str("FPS: ");
    append_decimal(&mut label, fps);
    label
}

} // verus!
