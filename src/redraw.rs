use vstd::prelude::*;
use vstd::string::*;
use crate::draw::{draw_grid, draw_segments, grid_ops, ops_view, segment_ops, DrawOp, DrawOpView};
use crate::segment::Segment;
use crate::style::ChartProps;

verus! {

/// Whether the static grid has been painted on the surface since it was
/// last cleared.
///
/// The grid is painted once; later renders paint only the status lines over
/// it, until `clear` wipes the surface and the next render paints the grid
/// again.
#[derive(Debug, Clone, Copy, PartialEq, Eq, Structural)]
pub struct RedrawState {
    pub grid_drawn: bool,
}

/// The state after a render: the grid is on the surface.
pub open spec fn rendered(s: RedrawState) -> RedrawState {
    RedrawState { grid_drawn: true }
}

/// The state after the surface is cleared: no grid on it.
pub open spec fn cleared(s: RedrawState) -> RedrawState {
    RedrawState { grid_drawn: false }
}

/// What one render paints: the grid first unless it is already there, then
/// every segment's status line.
pub open spec fn render_ops(
    grid_drawn: bool,
    width: int,
    height: int,
    segs: Seq<Segment>,
    props: ChartProps,
) -> Seq<DrawOpView> {
    if grid_drawn {
        segment_ops(width, height, segs, props)
    } else {
        grid_ops(width, height, props) + segment_ops(width, height, segs, props)
    }
}

proof fn lemma_ops_view_concat(a: Seq<DrawOp>, b: Seq<DrawOp>)
    ensures
        ops_view(a + b) == ops_view(a) + ops_view(b),
{
    assert(ops_view(a + b) =~= ops_view(a) + ops_view(b));
}

impl RedrawState {
    /// A fresh surface, with no grid painted yet.
    pub fn new() -> (r: RedrawState)
        ensures
            !r.grid_drawn,
    {
        RedrawState { grid_drawn: false }
    }

    /// The state recorded in a marker's attribute: the grid is there exactly
    /// when the attribute is present and reads `"true"`.
    pub fn from_marker(attribute: Option<String>) -> (r: RedrawState)
        ensures
            r.grid_drawn <==> (attribute matches Some(a) && a@ == "true"@),
    {
        match attribute {
            Some(a) => {
                let expected = String::from_str("true");
                RedrawState { grid_drawn: a == expected }
            },
            None => RedrawState { grid_drawn: false },
        }
    }

    /// The attribute value that records this state in a marker: `"true"`
    /// once the grid is painted, `"false"` before.
    pub fn marker_value(&self) -> (r: &'static str)
        ensures
            r@ == (if self.grid_drawn {
                "true"@
            } else {
                "false"@
            }),
    {
        if self.grid_drawn {
            "true"
        } else {
            "false"
        }
    }

    /// Paints the chart of `segments` on a surface `width` by `height`
    /// pixels: the static grid if it is not there yet, then the status line
    /// of every segment. Afterwards the grid is recorded as painted.
    pub fn render(&mut self, segments: &[Segment], width: u32, height: u32, props: &ChartProps) -> (ops: Vec<DrawOp>)
        ensures
            *final(self) == rendered(*old(self)),
            ops_view(ops@) == render_ops(
                old(self).grid_drawn,
                width as int,
                height as int,
                segments@,
                *props,
            ),
    {
        let mut lines = draw_segments(segments, width, height, props);
        if self.grid_drawn {
            lines
        } else {
            let mut ops = draw_grid(width, height, props);
            proof { lemma_ops_view_concat(ops@, lines@); }
            ops.append(&mut lines);
            self.grid_drawn = true;
            ops
        }
    }

    /// Wipes a surface `width` by `height` pixels, grid included, so that the
    /// next render paints the grid anew.
    pub fn clear(&mut self, width: u32, height: u32) -> (op: DrawOp)
        ensures
            *final(self) == cleared(*old(self)),
            op@ == (DrawOpView::Clear { width, height }),
    {
        self.grid_drawn = false;
        DrawOp::Clear { width, height }
    }
}

/// Rendering twice in a row on an unchanged surface paints the grid at most
/// once, on the first pass and only where it was not there yet, while both
/// passes paint every segment's status line.
pub proof fn lemma_grid_painted_once(
    state: RedrawState,
    segs: Seq<Segment>,
    width: int,
    height: int,
    props: ChartProps,
)
    ensures
        render_ops(rendered(state).grid_drawn, width, height, segs, props) == segment_ops(
            width,
            height,
            segs,
            props,
        ),
        render_ops(state.grid_drawn, width, height, segs, props) + render_ops(
            rendered(state).grid_drawn,
            width,
            height,
            segs,
            props,
        ) == (if state.grid_drawn {
            Seq::<DrawOpView>::empty()
        } else {
            grid_ops(width, height, props)
        }) + segment_ops(width, height, segs, props) + segment_ops(width, height, segs, props),
{
    let g = grid_ops(width, height, props);
    let s = segment_ops(width, height, segs, props);
    if state.grid_drawn {
        assert(Seq::<DrawOpView>::empty() + s =~= s);
    } else {
        assert(g + s + s =~= g + s + s);
    }
}

/// After the surface is cleared, the next render paints the grid afresh
/// before the status lines.
pub proof fn lemma_clear_repaints_grid(
    state: RedrawState,
    segs: Seq<Segment>,
    width: int,
    height: int,
    props: ChartProps,
)
    ensures
        render_ops(cleared(state).grid_drawn, width, height, segs, props) == grid_ops(
            width,
            height,
            props,
        ) + segment_ops(width, height, segs, props),
{
}

} // verus!
