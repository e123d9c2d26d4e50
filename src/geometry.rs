use vstd::prelude::*;

verus! {

/// Coordinates are counted in sub-pixels, this many to a pixel. With it every
/// position on the chart is a whole number: quarter rows, eighths of a row
/// and single minutes of the 24-hour axis alike.
pub const SUBPIXELS: i64 = 1440;

/// Margin left of the grid, in pixels, kept for the row captions.
pub const PADDING_X: i64 = 70;

/// Margin above the grid, in pixels.
pub const PADDING_Y: i64 = 40;

/// Hours on the horizontal axis.
pub const HOURS: i64 = 24;

/// Minutes in an hour.
pub const MINUTES_PER_HOUR: i64 = 60;

/// A point on the drawing surface, in sub-pixels from its top left corner.
#[derive(Debug, Clone, Copy, PartialEq, Eq, Structural)]
pub struct Point {
    pub x: i64,
    pub y: i64,
}

/// Builds a point from sub-pixel coordinates.
pub open spec fn point(x: int, y: int) -> Point {
    Point { x: x as i64, y: y as i64 }
}

/// Height of one status row of a chart `height` pixels high, in sub-pixels:
/// a quarter of what the top and bottom margins leave.
pub open spec fn row_height(height: int) -> int {
    (height - 2 * PADDING_Y) * (SUBPIXELS / 4)
}

/// Width of one hour column of a chart `width` pixels wide, in sub-pixels:
/// a 24th of what the two side margins leave.
pub open spec fn col_width(width: int) -> int {
    (width - 2 * PADDING_X) * (SUBPIXELS / HOURS)
}

/// Height of the horizontal grid line `i` (0 to 4, top to bottom).
pub open spec fn row_rule_y(height: int, i: int) -> int {
    PADDING_Y * SUBPIXELS + i * row_height(height)
}

/// Height of the middle of row `row`, where its status line and its
/// caption go.
pub open spec fn row_center_y(height: int, row: int) -> int {
    PADDING_Y * SUBPIXELS + row * row_height(height) + row_height(height) / 2
}

/// Position of the vertical grid line of hour `hour` (0 to 24).
pub open spec fn hour_x(width: int, hour: int) -> int {
    PADDING_X * SUBPIXELS + hour * col_width(width)
}

/// Position of the time `minute` minutes after midnight.
pub open spec fn minute_x(width: int, minute: int) -> int {
    PADDING_X * SUBPIXELS + minute * col_width(width) / (MINUTES_PER_HOUR as int)
}

/// The height of grid line `i` on a chart `height` pixels high.
pub fn row_rule_position(height: u32, i: u32) -> (r: i64)
    requires
        i <= 4,
    ensures
        r == row_rule_y(height as int, i as int),
{
    let rh: i64 = (height as i64 - 2 * PADDING_Y) * (SUBPIXELS / 4);
    assert(i * rh <= 4 * 0x1_0000_0000 * 360 && i * rh >= -4 * 80 * 360) by (nonlinear_arith)
        requires
            0 <= i <= 4,
            -80 * 360 <= rh <= 0x1_0000_0000 * 360,
    ;
    PADDING_Y * SUBPIXELS + i as i64 * rh
}

/// The height of the middle of row `row` on a chart `height` pixels high.
pub fn row_center_position(height: u32, row: u32) -> (r: i64)
    requires
        row < 4,
    ensures
        r == row_center_y(height as int, row as int),
{
    let rh: i64 = (height as i64 - 2 * PADDING_Y) * (SUBPIXELS / 4);
    assert(row * rh <= 4 * 0x1_0000_0000 * 360 && row * rh >= -4 * 80 * 360) by (nonlinear_arith)
        requires
            0 <= row < 4,
            -80 * 360 <= rh <= 0x1_0000_0000 * 360,
    ;
    let half: i64 = (height as i64 - 2 * PADDING_Y) * (SUBPIXELS / 8);
    assert(half == rh / 2);
    PADDING_Y * SUBPIXELS + row as i64 * rh + half
}

/// The position of the vertical grid line of hour `hour` on a chart
/// `width` pixels wide.
pub fn hour_position(width: u32, hour: u32) -> (r: i64)
    requires
        hour <= 24,
    ensures
        r == hour_x(width as int, hour as int),
{
    let cw: i64 = (width as i64 - 2 * PADDING_X) * (SUBPIXELS / HOURS);
    assert(hour * cw <= 24 * 0x1_0000_0000 * 60 && hour * cw >= -24 * 140 * 60) by (nonlinear_arith)
        requires
            0 <= hour <= 24,
            -140 * 60 <= cw <= 0x1_0000_0000 * 60,
    ;
    PADDING_X * SUBPIXELS + hour as i64 * cw
}

/// The position of the time `minute` minutes after midnight on a chart
/// `width` pixels wide. Times outside the day fall outside the grid.
pub fn minute_position(width: u32, minute: i32) -> (r: i64)
    ensures
        r == minute_x(width as int, minute as int),
{
    let d: i64 = width as i64 - 2 * PADDING_X;
    let m: i64 = minute as i64;
    assert(-0x8000_0000 * 0xffff_ff73 <= m * d <= 0x8000_0000 * 0xffff_ff73) by (nonlinear_arith)
        requires
            -0x8000_0000 <= m < 0x8000_0000,
            -140 <= d <= 0xffff_ff73,
    ;
    let offset: i64 = m * d;
    assert(minute * col_width(width as int) / (MINUTES_PER_HOUR as int) == offset) by (nonlinear_arith)
        requires
            offset == minute * d,
            col_width(width as int) == d * 60,
            MINUTES_PER_HOUR == 60,
    ;
    PADDING_X * SUBPIXELS + offset
}

} // verus!
