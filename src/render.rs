use vstd::prelude::*;

use crate::geometry::{DevicePoint, Position, Size};
use crate::window::{ClickHandler, TickHandler};

verus! {

/// A colour, each channel on a scale where 255 is full intensity.
#[derive(Clone, Copy, Debug, PartialEq, Eq, Structural)]
pub struct Color {
    pub r: u8,
    pub g: u8,
    pub b: u8,
    pub a: u8,
}

/// One drawing primitive, issued in order to the rendering context.
#[derive(Clone, Copy, Debug, PartialEq, Eq, Structural)]
pub enum DrawCommand {
    /// Map device space onto the whole client area of this size.
    Viewport(Size),
    /// Fill the colour buffer with the clear colour.
    Clear,
    /// Set the colour that later clears use.
    ClearColor(Color),
    /// Set the diameter of points, in pixels.
    PointSize(u32),
    /// Start a batch of point primitives.
    BeginPoints,
    /// Set the current drawing colour.
    SetColor(Color),
    /// Submit one vertex at this device point.
    Vertex(DevicePoint),
    /// End the current batch.
    EndPoints,
}

/// The configuration that a drawing surface must offer.
#[derive(Clone, Copy, Debug, PartialEq, Eq, Structural)]
pub struct SurfaceFormat {
    pub double_buffered: bool,
    pub rgba: bool,
    pub color_bits: u8,
    pub depth_bits: u8,
    pub stencil_bits: u8,
}

/// Diameter of a plotted point, in pixels.
pub const POINT_SIZE: u32 = 10;

/// The background of a plot frame: opaque yellow.
pub open spec fn background() -> Color {
    Color { r: 255, g: 255, b: 0, a: 255 }
}

/// The colour of plotted points: opaque black.
pub open spec fn ink() -> Color {
    Color { r: 0, g: 0, b: 0, a: 255 }
}

/// The commands that draw one point.
pub open spec fn point_commands(p: Position) -> Seq<DrawCommand> {
    seq![
        DrawCommand::PointSize(POINT_SIZE),
        DrawCommand::BeginPoints,
        DrawCommand::SetColor(ink()),
        DrawCommand::Vertex(p.device_spec()),
        DrawCommand::EndPoints,
    ]
}

/// The commands that draw each of `ps`, in order.
pub open spec fn points_commands(ps: Seq<Position>) -> Seq<DrawCommand>
    decreases ps.len(),
{
    if ps.len() == 0 {
        Seq::empty()
    } else {
        points_commands(ps.drop_last()) + point_commands(ps.last())
    }
}

/// A whole plot frame: set the viewport, clear, choose the background for
/// the next clear, then draw every point.
pub open spec fn frame_spec(ps: Seq<Position>, client: Size) -> Seq<DrawCommand> {
    seq![
        DrawCommand::Viewport(client),
        DrawCommand::Clear,
        DrawCommand::ClearColor(background()),
    ] + points_commands(ps)
}

impl SurfaceFormat {
    /// Double-buffered RGBA with 32 colour bits, a 24-bit depth buffer and
    /// an 8-bit stencil buffer.
    pub fn required() -> (r: SurfaceFormat)
        ensures
            r == (SurfaceFormat {
                double_buffered: true,
                rgba: true,
                color_bits: 32,
                depth_bits: 24,
                stencil_bits: 8,
            }),
    {
        SurfaceFormat {
            double_buffered: true,
            rgba: true,
            color_bits: 32,
            depth_bits: 24,
            stencil_bits: 8,
        }
    }
}

/// Application state of a point plot: the clicked positions, in the order
/// they came.
pub struct PointPlot {
    points: Vec<Position>,
}

impl PointPlot {
    #[verifier::type_invariant]
    spec fn inv(self) -> bool {
        forall|i: int| 0 <= i < self.points.len() ==> (#[trigger] self.points[i]).wf()
    }

    /// The recorded positions, oldest first.
    pub closed spec fn view(self) -> Seq<Position> {
        self.points@
    }

    /// An empty plot.
    pub fn new() -> (r: PointPlot)
        ensures
            r@ == Seq::<Position>::empty(),
    {
        PointPlot { points: Vec::new() }
    }

    /// Appends a clicked position.
    pub fn record_click(&mut self, pos: Position)
        requires
            pos.wf(),
        ensures
            final(self)@ == old(self)@.push(pos),
    {
        let mut taken = PointPlot { points: Vec::new() };
        core::mem::swap(self, &mut taken);
        proof {
            use_type_invariant(&taken);
        }
        let PointPlot { points: mut points } = taken;
        points.push(pos);
        *self = PointPlot { points };
    }

    /// The recorded positions, oldest first.
    pub fn points(&self) -> (r: &Vec<Position>)
        ensures
            r@ == self@,
            forall|i: int| 0 <= i < r@.len() ==> (#[trigger] r@[i]).wf(),
    {
        proof {
            use_type_invariant(self);
        }
        &self.points
    }

    /// The commands of one frame that shows every recorded position.
    pub fn frame_commands(&self, client: Size) -> (r: Vec<DrawCommand>)
        ensures
            r@ == frame_spec(self@, client),
    {
        proof {
            use_type_invariant(self);
        }
        let mut r: Vec<DrawCommand> = Vec::new();
        r.push(DrawCommand::Viewport(client));
        r.push(DrawCommand::Clear);
        r.push(DrawCommand::ClearColor(Color { r: 255, g: 255, b: 0, a: 255 }));
        let n = self.points.len();
        let mut i: usize = 0;
        while i < n
            invariant
                n == self.points@.len(),
                0 <= i <= n,
                forall|k: int| 0 <= k < self.points@.len() ==> (#[trigger] self.points@[k]).wf(),
                r@ == frame_spec(self.points@.take(i as int), client),
            decreases n - i,
        {
            let d = self.points[i].to_device();
            r.push(DrawCommand::PointSize(POINT_SIZE));
            r.push(DrawCommand::BeginPoints);
            r.push(DrawCommand::SetColor(Color { r: 0, g: 0, b: 0, a: 255 }));
            r.push(DrawCommand::Vertex(d));
            r.push(DrawCommand::EndPoints);
            proof {
                let ps = self.points@.take(i as int + 1);
                assert(ps.drop_last() =~= self.points@.take(i as int));
                assert(ps.last() == self.points@[i as int]);
            }
            i += 1;
        }
        assert(self.points@.take(n as int) =~= self.points@);
        r
    }
}

/// Clicks recorded one after another before a frame are all drawn in that
/// frame, in the order they were clicked, after what was there before.
pub proof fn lemma_frame_keeps_click_order(ps: Seq<Position>, a: Position, b: Position, client: Size)
    ensures
        frame_spec(ps.push(a).push(b), client) =~= frame_spec(ps, client) + point_commands(a)
            + point_commands(b),
{
    let pa = ps.push(a);
    let pab = pa.push(b);
    assert(pab.drop_last() =~= pa);
    assert(pa.drop_last() =~= ps);
    assert(points_commands(pab) == points_commands(pa) + point_commands(b));
    assert(points_commands(pa) == points_commands(ps) + point_commands(a));
    let head = seq![
        DrawCommand::Viewport(client),
        DrawCommand::Clear,
        DrawCommand::ClearColor(background()),
    ];
    assert(head + (points_commands(ps) + point_commands(a) + point_commands(b)) =~= head
        + points_commands(ps) + point_commands(a) + point_commands(b));
}

/// The handlers of a point plot: each click adds a point, each frame draws
/// them all.
#[derive(Clone, Copy, Debug, PartialEq, Eq, Structural)]
pub struct Plotter;

impl ClickHandler<PointPlot> for Plotter {
    /// A click appends its position to the plot.
    open spec fn clicked(&self, before: PointPlot, pos: Position, after: PointPlot) -> bool {
        after@ == before@.push(pos)
    }

    fn on_click(&self, state: &mut PointPlot, pos: Position) {
        state.record_click(pos);
    }
}

impl TickHandler<PointPlot> for Plotter {
    /// A tick leaves the plot as it is and draws every point of it.
    open spec fn ticked(
        &self,
        before: PointPlot,
        client: Size,
        after: PointPlot,
        frame: Seq<DrawCommand>,
    ) -> bool {
        after@ == before@ && frame == frame_spec(before@, client)
    }

    fn on_tick(&self, state: &mut PointPlot, client: Size) -> Vec<DrawCommand> {
        state.frame_commands(client)
    }
}

} // verus!
