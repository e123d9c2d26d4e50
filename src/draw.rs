use vstd::prelude::*;
use vstd::string::*;
use crate::geometry::{
    hour_position, hour_x, minute_position, minute_x, point, row_center_position, row_center_y,
    row_height, row_rule_position, row_rule_y, Point, HOURS, PADDING_X, PADDING_Y, SUBPIXELS,
};
use crate::labels::{hour_label, hour_label_of};
use crate::segment::Segment;
use crate::status::{row_caption, row_caption_text, status_row, DutyStatus, ROW_COUNT};
use crate::style::{status_color, ChartProps};

verus! {

/// Line width of the grid, in pixels.
pub const GRID_LINE_WIDTH: u32 = 1;

/// Line width of a status line, in pixels.
pub const SEGMENT_LINE_WIDTH: u32 = 4;

/// Font of the hour captions.
pub const HOUR_FONT: &'static str = "12px Arial";

/// Distance of the row captions from the left edge, in pixels.
pub const ROW_CAPTION_X: i64 = 10;

/// How far an hour caption stands left of its grid line and above the
/// bottom edge, in pixels.
pub const HOUR_CAPTION_OFFSET: i64 = 10;

/// One step of painting the chart.
#[derive(Debug, Clone, PartialEq)]
pub enum DrawOp {
    /// Erase the surface, `width` by `height` pixels from its top left corner.
    Clear { width: u32, height: u32 },
    /// A straight line of the given colour and width in pixels.
    Line { from: Point, to: Point, color: &'static str, line_width: u32 },
    /// A caption whose text starts at `at`.
    Text { text: String, at: Point, font: &'static str, color: &'static str },
}

/// What a drawing operation paints, with texts as character sequences.
pub enum DrawOpView {
    Clear { width: u32, height: u32 },
    Line { from: Point, to: Point, color: Seq<char>, line_width: u32 },
    Text { text: Seq<char>, at: Point, font: Seq<char>, color: Seq<char> },
}

impl View for DrawOp {
    type V = DrawOpView;

    open spec fn view(&self) -> DrawOpView {
        match self {
            DrawOp::Clear { width, height } => DrawOpView::Clear { width: *width, height: *height },
            DrawOp::Line { from, to, color, line_width } => DrawOpView::Line {
                from: *from,
                to: *to,
                color: color@,
                line_width: *line_width,
            },
            DrawOp::Text { text, at, font, color } => DrawOpView::Text {
                text: text@,
                at: *at,
                font: font@,
                color: color@,
            },
        }
    }
}

/// The operations of a list, each seen as what it paints.
pub open spec fn ops_view(ops: Seq<DrawOp>) -> Seq<DrawOpView> {
    ops.map_values(|o: DrawOp| o@)
}

/// The horizontal grid line `i`, from the left margin to the right edge.
pub open spec fn row_rule(width: int, height: int, i: int, props: ChartProps) -> DrawOpView {
    DrawOpView::Line {
        from: point(PADDING_X * SUBPIXELS, row_rule_y(height, i)),
        to: point(width * SUBPIXELS, row_rule_y(height, i)),
        color: props.grid_color@,
        line_width: GRID_LINE_WIDTH,
    }
}

/// The caption of row `i`, in the middle of the row at the left edge.
pub open spec fn row_label(height: int, i: int, props: ChartProps) -> DrawOpView {
    DrawOpView::Text {
        text: row_caption_text(i),
        at: point(ROW_CAPTION_X * SUBPIXELS, row_center_y(height, i)),
        font: props.font@,
        color: props.label_color@,
    }
}

/// The horizontal grid lines `0 .. n` in order, each of the first four
/// followed by its row's caption.
pub open spec fn row_ops(width: int, height: int, props: ChartProps, n: nat) -> Seq<DrawOpView>
    decreases n,
{
    if n == 0 {
        seq![]
    } else {
        let i = n - 1;
        row_ops(width, height, props, (n - 1) as nat) + if i < ROW_COUNT {
            seq![row_rule(width, height, i, props), row_label(height, i, props)]
        } else {
            seq![row_rule(width, height, i, props)]
        }
    }
}

/// The vertical grid line of hour `i`, from the top margin to the bottom
/// edge.
pub open spec fn hour_rule(width: int, height: int, i: int, props: ChartProps) -> DrawOpView {
    DrawOpView::Line {
        from: point(hour_x(width, i), PADDING_Y * SUBPIXELS),
        to: point(hour_x(width, i), height * SUBPIXELS),
        color: props.grid_color@,
        line_width: GRID_LINE_WIDTH,
    }
}

/// The caption of hour `i`, under the chart left of its grid line.
pub open spec fn hour_caption(width: int, height: int, i: int, props: ChartProps) -> DrawOpView {
    DrawOpView::Text {
        text: hour_label(i),
        at: point(
            hour_x(width, i) - HOUR_CAPTION_OFFSET * SUBPIXELS,
            (height - HOUR_CAPTION_OFFSET) * SUBPIXELS,
        ),
        font: HOUR_FONT@,
        color: props.label_color@,
    }
}

/// The vertical grid lines of hours `0 .. n` in order, each even hour's
/// followed by its caption.
pub open spec fn hour_ops(width: int, height: int, props: ChartProps, n: nat) -> Seq<DrawOpView>
    decreases n,
{
    if n == 0 {
        seq![]
    } else {
        let i = n - 1;
        hour_ops(width, height, props, (n - 1) as nat) + if i % 2 == 0 {
            seq![hour_rule(width, height, i, props), hour_caption(width, height, i, props)]
        } else {
            seq![hour_rule(width, height, i, props)]
        }
    }
}

/// The static grid: the surface erased, five horizontal lines with the four
/// row captions, then 25 vertical lines with a caption at every other hour.
pub open spec fn grid_ops(width: int, height: int, props: ChartProps) -> Seq<DrawOpView> {
    seq![DrawOpView::Clear { width: width as u32, height: height as u32 }]
        + row_ops(width, height, props, 5)
        + hour_ops(width, height, props, 25)
}

proof fn lemma_ops_view_push(s: Seq<DrawOp>, o: DrawOp)
    ensures
        ops_view(s.push(o)) == ops_view(s).push(o@),
{
    assert(ops_view(s.push(o)) =~= ops_view(s).push(o@));
}

// Hour lines stand no further left than the left margin allows on a chart
// of width zero, which keeps their captions' positions within `i64`.
proof fn lemma_hour_x_lower(width: int, hour: int)
    requires
        0 <= width,
        0 <= hour <= 24,
    ensures
        hour_x(width, hour) >= PADDING_X * SUBPIXELS - 24 * 2 * PADDING_X * (SUBPIXELS / HOURS),
{
    assert(hour * ((width - 140) * 60) >= -24 * 140 * 60) by (nonlinear_arith)
        requires
            0 <= hour <= 24,
            0 <= width,
    ;
}

/// Paints the static grid of a chart `width` by `height` pixels: erases the
/// surface, draws the five horizontal lines with the four row captions
/// ("Off Duty", "Sleeper", "Driving", "On Duty", top to bottom), then the 25
/// hour lines with a 12-hour caption under every other one.
pub fn draw_grid(width: u32, height: u32, props: &ChartProps) -> (ops: Vec<DrawOp>)
    ensures
        ops_view(ops@) == grid_ops(width as int, height as int, *props),
{
    let w = Ghost(width as int);
    let h = Ghost(height as int);
    let mut ops: Vec<DrawOp> = Vec::new();
    ops.push(DrawOp::Clear { width, height });
    let ghost head = seq![DrawOpView::Clear { width, height }];
    assert(ops_view(ops@) =~= head);
    let left: i64 = PADDING_X * SUBPIXELS;
    let right: i64 = width as i64 * SUBPIXELS;
    let mut i: u32 = 0;
    while i <= 4
        invariant
            i <= 5,
            w@ == width,
            h@ == height,
            left == PADDING_X * SUBPIXELS,
            right == width * SUBPIXELS,
            ops_view(ops@) == head + row_ops(w@, h@, *props, i as nat),
        decreases 5 - i,
    {
        let y = row_rule_position(height, i);
        let rule = DrawOp::Line {
            from: Point { x: left, y },
            to: Point { x: right, y },
            color: props.grid_color,
            line_width: GRID_LINE_WIDTH,
        };
        assert(rule@ == row_rule(w@, h@, i as int, *props));
        proof { lemma_ops_view_push(ops@, rule); }
        ops.push(rule);
        if i < ROW_COUNT {
            let text = String::from_str(row_caption(i));
            let at = Point { x: ROW_CAPTION_X * SUBPIXELS, y: row_center_position(height, i) };
            let label = DrawOp::Text { text, at, font: props.font, color: props.label_color };
            assert(label@ == row_label(h@, i as int, *props));
            proof { lemma_ops_view_push(ops@, label); }
            ops.push(label);
        }
        assert(ops_view(ops@) =~= head + row_ops(w@, h@, *props, (i + 1) as nat));
        i = i + 1;
    }
    let ghost mid = head + row_ops(w@, h@, *props, 5);
    let top: i64 = PADDING_Y * SUBPIXELS;
    let bottom: i64 = height as i64 * SUBPIXELS;
    let caption_y: i64 = (height as i64 - HOUR_CAPTION_OFFSET) * SUBPIXELS;
    let mut k: u32 = 0;
    while k <= 24
        invariant
            k <= 25,
            w@ == width,
            h@ == height,
            top == PADDING_Y * SUBPIXELS,
            bottom == height * SUBPIXELS,
            caption_y == (height - HOUR_CAPTION_OFFSET) * SUBPIXELS,
            ops_view(ops@) == mid + hour_ops(w@, h@, *props, k as nat),
        decreases 25 - k,
    {
        let x = hour_position(width, k);
        let rule = DrawOp::Line {
            from: Point { x, y: top },
            to: Point { x, y: bottom },
            color: props.grid_color,
            line_width: GRID_LINE_WIDTH,
        };
        assert(rule@ == hour_rule(w@, h@, k as int, *props));
        proof { lemma_ops_view_push(ops@, rule); }
        ops.push(rule);
        if k % 2 == 0 {
            proof { lemma_hour_x_lower(w@, k as int); }
            let text = hour_label_of(k);
            let at = Point { x: x - HOUR_CAPTION_OFFSET * SUBPIXELS, y: caption_y };
            let caption = DrawOp::Text { text, at, font: HOUR_FONT, color: props.label_color };
            assert(caption@ == hour_caption(w@, h@, k as int, *props));
            proof { lemma_ops_view_push(ops@, caption); }
            ops.push(caption);
        }
        assert(ops_view(ops@) =~= mid + hour_ops(w@, h@, *props, (k + 1) as nat));
        k = k + 1;
    }
    ops
}

/// The status line of a segment: across its row's middle, from its start
/// to its end, in its status's colour. `None` for a status that is not
/// plotted.
pub open spec fn segment_line(width: int, height: int, seg: Segment, props: ChartProps) -> Option<
    DrawOpView,
> {
    match (status_row(seg.status), status_color(props, seg.status)) {
        (Some(row), Some(color)) => Some(
            DrawOpView::Line {
                from: point(minute_x(width, seg.start_minute as int), row_center_y(height, row)),
                to: point(minute_x(width, seg.end_minute as int), row_center_y(height, row)),
                color,
                line_width: SEGMENT_LINE_WIDTH,
            },
        ),
        _ => None,
    }
}

/// The status lines of a list of segments, in the list's order, leaving out
/// those whose status is not plotted.
pub open spec fn segment_ops(width: int, height: int, segs: Seq<Segment>, props: ChartProps) -> Seq<
    DrawOpView,
>
    decreases segs.len(),
{
    if segs.len() == 0 {
        seq![]
    } else {
        segment_ops(width, height, segs.drop_last(), props) + match segment_line(
            width,
            height,
            segs.last(),
            props,
        ) {
            Some(line) => seq![line],
            None => seq![],
        }
    }
}

/// Paints the status line of every segment, in order, on a chart `width` by
/// `height` pixels. Segments whose status is not plotted are passed over.
/// Nothing is sorted or clipped: later lines cover earlier ones.
pub fn draw_segments(segments: &[Segment], width: u32, height: u32, props: &ChartProps) -> (ops: Vec<DrawOp>)
    ensures
        ops_view(ops@) == segment_ops(width as int, height as int, segments@, *props),
{
    let mut ops: Vec<DrawOp> = Vec::new();
    let mut j: usize = 0;
    while j < segments.len()
        invariant
            j <= segments@.len(),
            ops_view(ops@) == segment_ops(width as int, height as int, segments@.take(j as int), *props),
        decreases segments@.len() - j,
    {
        let seg = &segments[j];
        proof {
            assert(segments@.take(j + 1).drop_last() =~= segments@.take(j as int));
            assert(segments@.take(j + 1).last() == *seg);
        }
        match (seg.status.row(), props.color_of(seg.status)) {
            (Some(row), Some(color)) => {
                let y = row_center_position(height, row);
                let line = DrawOp::Line {
                    from: Point { x: minute_position(width, seg.start_minute), y },
                    to: Point { x: minute_position(width, seg.end_minute), y },
                    color,
                    line_width: SEGMENT_LINE_WIDTH,
                };
                proof { lemma_ops_view_push(ops@, line); }
                ops.push(line);
            },
            _ => {},
        }
        assert(ops_view(ops@) =~= segment_ops(
            width as int,
            height as int,
            segments@.take(j + 1),
            *props,
        ));
        j = j + 1;
    }
    assert(segments@.take(segments@.len() as int) =~= segments@);
    ops
}

/// A plotted segment's status line runs level across the middle of its row,
/// at `PADDING_Y + row * row_height + row_height / 2`, where the rows go off
/// duty, sleeper, driving, on duty from the top.
pub proof fn lemma_row_mapping(width: u32, height: u32, seg: Segment, props: ChartProps)
    requires
        status_row(seg.status) is Some,
    ensures
        status_row(DutyStatus::OffDuty) == Some(0int),
        status_row(DutyStatus::Sleeper) == Some(1int),
        status_row(DutyStatus::Driving) == Some(2int),
        status_row(DutyStatus::OnDuty) == Some(3int),
        segment_line(width as int, height as int, seg, props) matches Some(
            DrawOpView::Line { from, to, .. },
        ) && from.y == to.y && from.y == PADDING_Y * SUBPIXELS + status_row(seg.status).unwrap()
            * row_height(height as int) + row_height(height as int) / 2,
{
    let row = status_row(seg.status).unwrap();
    assert(0 <= row < 4);
    assert(row * row_height(height as int) <= 4 * 0x1_0000_0000 * 360 && row * row_height(
        height as int,
    ) >= -4 * 80 * 360) by (nonlinear_arith)
        requires
            0 <= row < 4,
            row_height(height as int) == (height - 80) * 360,
            0 <= height < 0x1_0000_0000,
    ;
}

/// A segment whose status the chart does not plot (personal conveyance,
/// yard move) paints nothing: adding it to a log leaves what the log paints
/// unchanged.
pub proof fn lemma_unplotted_paints_nothing(
    width: int,
    height: int,
    segs: Seq<Segment>,
    seg: Segment,
    props: ChartProps,
)
    requires
        seg.status == DutyStatus::PersonalConveyance || seg.status == DutyStatus::YardMove,
    ensures
        segment_line(width, height, seg, props) is None,
        segment_ops(width, height, segs.push(seg), props) == segment_ops(width, height, segs, props),
{
    assert(segs.push(seg).drop_last() =~= segs);
    assert(segment_ops(width, height, segs.push(seg), props) =~= segment_ops(width, height, segs, props));
}

} // verus!
