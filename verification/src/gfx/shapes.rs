//! Shapes that can be drawn.

use vstd::prelude::*;
use vstd::slice::slice_to_vec;
use crate::math::{Color, Vec2};
use crate::scalar::Scalar;

verus! {

/// How two edges of an outline meet.
#[derive(Clone, Copy, PartialEq, Eq, Structural, Debug)]
pub enum LineJoin {
    NoJoin,
    Round,
    Bevel,
    Miter,
}

/// How an edge of an outline ends.
#[derive(Clone, Copy, PartialEq, Eq, Structural, Debug)]
pub enum LineCap {
    Square,
    Butt,
    Round,
}

/// A dashed line: the length of a dash and of the gap after it.
#[derive(Clone, Copy, PartialEq, Eq, Structural, Debug)]
pub struct LineDash {
    pub len: Scalar,
    pub interval: Scalar,
}

/// How an outline is drawn.
#[derive(Clone, Copy, PartialEq, Eq, Structural, Debug)]
pub struct Stroke {
    pub width: Scalar,
    pub join: LineJoin,
    pub dash: Option<LineDash>,
    pub color: Color,
}

/// A polygon by its corners, with an optional filling and outline.
#[derive(Clone, Debug)]
pub struct Polygon {
    pub pts: Vec<Vec2>,
    pub fill: Option<Color>,
    pub stroke: Option<Stroke>,
}

/// A [`Polygon`] with its corners as a sequence.
pub struct PolygonView {
    pub pts: Seq<Vec2>,
    pub fill: Option<Color>,
    pub stroke: Option<Stroke>,
}

/// One edge of an outline, as it is to be drawn.
#[derive(Clone, Copy, PartialEq, Eq, Structural, Debug)]
pub struct Edge {
    pub p1: Vec2,
    pub p2: Vec2,
    pub width: Scalar,
    pub color: Color,
    /// Round ends for a round join; the other joins leave the ends as they
    /// are.
    pub cap: Option<LineCap>,
}

impl View for Polygon {
    type V = PolygonView;

    open spec fn view(&self) -> PolygonView {
        PolygonView { pts: self.pts@, fill: self.fill, stroke: self.stroke }
    }
}

/// The color with its opacity set to `a`.
pub open spec fn faded(c: Color, a: Scalar) -> Color {
    Color { a, ..c }
}

/// The ends that the edges of an outline get under a join.
pub open spec fn cap_of(join: LineJoin) -> Option<LineCap> {
    match join {
        LineJoin::Round => Some(LineCap::Round),
        _ => None,
    }
}

impl PolygonView {
    /// Whether there is anything to draw: fewer than three corners make no
    /// polygon.
    pub open spec fn drawable(self) -> bool {
        self.pts.len() >= 3
    }

    /// The corner indices of the triangles that fill the polygon: a fan
    /// round corner 0, one triangle `0, i - 1, i` for each further corner
    /// `i` from 2 on. Empty without a filling.
    pub open spec fn fan(self) -> Seq<u32> {
        if self.drawable() && self.fill is Some {
            Seq::new(
                (3 * (self.pts.len() - 2)) as nat,
                |k: int|
                    if k % 3 == 0 {
                        0u32
                    } else if k % 3 == 1 {
                        (k / 3 + 1) as u32
                    } else {
                        (k / 3 + 2) as u32
                    },
            )
        } else {
            Seq::empty()
        }
    }

    /// Edge `i` of the outline: from corner `i` to the next, the last one
    /// back to corner 0.
    pub open spec fn edge(self, stroke: Stroke, i: int) -> Edge {
        Edge {
            p1: self.pts[i],
            p2: self.pts[if i + 1 == self.pts.len() {
                0
            } else {
                i + 1
            }],
            width: stroke.width,
            color: stroke.color,
            cap: cap_of(stroke.join),
        }
    }

    /// The edges of the outline, one for each corner. Empty without an
    /// outline.
    pub open spec fn outline(self) -> Seq<Edge> {
        if self.drawable() && self.stroke is Some {
            Seq::new(self.pts.len(), |i: int| self.edge(self.stroke->0, i))
        } else {
            Seq::empty()
        }
    }
}

impl Polygon {
    /// A polygon filled with opaque white, without an outline.
    pub fn from_pts(pts: &[Vec2]) -> (p: Polygon)
        ensures
            p@ == (PolygonView { pts: pts@, fill: Some(Color::white()), stroke: None }),
    {
        Polygon { pts: slice_to_vec(pts), fill: Some(Color::default()), stroke: None }
    }

    pub fn fill(self, c: Color) -> (p: Polygon)
        ensures
            p@ == (PolygonView { fill: Some(c), ..self@ }),
    {
        let mut p = self;
        p.fill = Some(c);
        p
    }

    pub fn no_fill(self) -> (p: Polygon)
        ensures
            p@ == (PolygonView { fill: None, ..self@ }),
    {
        let mut p = self;
        p.fill = None;
        p
    }

    /// Sets the opacity of the filling and of the outline, where there is
    /// one.
    pub fn opacity(self, a: Scalar) -> (p: Polygon)
        ensures
            p@.pts == self@.pts,
            p@.fill == match self@.fill {
                Some(c) => Some(faded(c, a)),
                None => None,
            },
            p@.stroke == match self@.stroke {
                Some(s) => Some(Stroke { color: faded(s.color, a), ..s }),
                None => None,
            },
    {
        let mut p = self;
        if let Some(c) = p.fill {
            p.fill = Some(Color { r: c.r, g: c.g, b: c.b, a });
        }
        if let Some(s) = p.stroke {
            let color = Color { r: s.color.r, g: s.color.g, b: s.color.b, a };
            p.stroke = Some(Stroke { width: s.width, join: s.join, dash: s.dash, color });
        }
        p
    }

    /// Gives the polygon a solid outline of width one in the color `c`.
    pub fn stroke(self, c: Color) -> (p: Polygon)
        ensures
            p@ == (PolygonView {
                stroke: Some(
                    Stroke {
                        width: Scalar::one(),
                        join: LineJoin::NoJoin,
                        dash: None,
                        color: c,
                    },
                ),
                ..self@
            }),
    {
        let mut p = self;
        p.stroke = Some(Stroke { width: Scalar::one(), join: LineJoin::NoJoin, dash: None, color: c });
        p
    }

    /// Sets the join of the outline, where there is one.
    pub fn line_join(self, j: LineJoin) -> (p: Polygon)
        ensures
            p@.pts == self@.pts,
            p@.fill == self@.fill,
            p@.stroke == match self@.stroke {
                Some(s) => Some(Stroke { join: j, ..s }),
                None => None,
            },
    {
        let mut p = self;
        if let Some(s) = p.stroke {
            p.stroke = Some(Stroke { width: s.width, join: j, dash: s.dash, color: s.color });
        }
        p
    }

    /// Sets the width of the outline, where there is one.
    pub fn line_width(self, w: Scalar) -> (p: Polygon)
        ensures
            p@.pts == self@.pts,
            p@.fill == self@.fill,
            p@.stroke == match self@.stroke {
                Some(s) => Some(Stroke { width: w, ..s }),
                None => None,
            },
    {
        let mut p = self;
        if let Some(s) = p.stroke {
            p.stroke = Some(Stroke { width: w, join: s.join, dash: s.dash, color: s.color });
        }
        p
    }

    /// The corner indices of the triangles that fill the polygon.
    pub fn triangles(&self) -> (indices: Vec<u32>)
        requires
            self@.pts.len() <= u32::MAX,
        ensures
            indices@ == self@.fan(),
    {
        let mut indices: Vec<u32> = Vec::new();
        let n: usize = self.pts.len();
        if n < 3 || self.fill.is_none() {
            assert(indices@ =~= self@.fan());
            return indices;
        }
        let mut i: usize = 2;
        while i < n
            invariant
                2 <= i <= n,
                n == self@.pts.len(),
                n <= u32::MAX,
                indices@.len() == 3 * (i - 2),
                forall|k: int| 0 <= k < indices@.len() ==> indices@[k] == self@.fan()[k],
                self@.drawable() && self@.fill is Some,
            decreases n - i,
        {
            indices.push(0);
            indices.push((i - 1) as u32);
            indices.push(i as u32);
            i += 1;
        }
        assert(indices@ =~= self@.fan());
        indices
    }

    /// The edges of the outline, in the order of the corners.
    pub fn edges(&self) -> (edges: Vec<Edge>)
        ensures
            edges@ == self@.outline(),
    {
        let mut edges: Vec<Edge> = Vec::new();
        let n: usize = self.pts.len();
        if n < 3 {
            assert(edges@ =~= self@.outline());
            return edges;
        }
        match self.stroke {
            Some(stroke) => {
                let cap = match stroke.join {
                    LineJoin::Round => Some(LineCap::Round),
                    _ => None,
                };
                let mut i: usize = 0;
                while i < n
                    invariant
                        i <= n,
                        3 <= n == self@.pts.len(),
                        self@.stroke == Some(stroke),
                        cap == cap_of(stroke.join),
                        edges@.len() == i,
                        forall|k: int| 0 <= k < i ==> edges@[k] == self@.edge(stroke, k),
                    decreases n - i,
                {
                    let next: usize = if i + 1 == n {
                        0
                    } else {
                        i + 1
                    };
                    edges.push(
                        Edge {
                            p1: self.pts[i],
                            p2: self.pts[next],
                            width: stroke.width,
                            color: stroke.color,
                            cap,
                        },
                    );
                    i += 1;
                }
                assert(edges@ =~= self@.outline());
            },
            None => {
                assert(edges@ =~= self@.outline());
            },
        }
        edges
    }
}

/// A canvas as it is to be drawn: tinted, and stretched to a width or a
/// height where one is given.
#[derive(Clone, Copy, Debug)]
pub struct Canvas<'a> {
    pub canvas: &'a crate::gfx::Canvas,
    pub color: Color,
    pub width: Option<Scalar>,
    pub height: Option<Scalar>,
}

impl<'a> Canvas<'a> {
    /// The canvas in its own size, tinted opaque white.
    pub fn new(c: &'a crate::gfx::Canvas) -> (s: Canvas<'a>)
        ensures
            s == (Canvas { canvas: c, color: Color::white(), width: None, height: None }),
    {
        Canvas { canvas: c, color: Color::all(Scalar::one()), width: None, height: None }
    }

    pub fn color(self, color: Color) -> (s: Canvas<'a>)
        ensures
            s == (Canvas { color, ..self }),
    {
        Canvas { canvas: self.canvas, color, width: self.width, height: self.height }
    }

    pub fn opacity(self, a: Scalar) -> (s: Canvas<'a>)
        ensures
            s == (Canvas { color: faded(self.color, a), ..self }),
    {
        let color = Color { r: self.color.r, g: self.color.g, b: self.color.b, a };
        Canvas { canvas: self.canvas, color, width: self.width, height: self.height }
    }

    pub fn width(self, w: Scalar) -> (s: Canvas<'a>)
        ensures
            s == (Canvas { width: Some(w), ..self }),
    {
        Canvas { canvas: self.canvas, color: self.color, width: Some(w), height: self.height }
    }

    pub fn height(self, h: Scalar) -> (s: Canvas<'a>)
        ensures
            s == (Canvas { height: Some(h), ..self }),
    {
        Canvas { canvas: self.canvas, color: self.color, width: self.width, height: Some(h) }
    }
}

/// The canvas in its own size, tinted opaque white.
pub fn canvas<'a>(c: &'a crate::gfx::Canvas) -> (s: Canvas<'a>)
    ensures
        s == (Canvas { canvas: c, color: Color::white(), width: None, height: None }),
{
    Canvas::new(c)
}

/// A polygon filled with opaque white, without an outline.
pub fn polygon(pts: &[Vec2]) -> (p: Polygon)
    ensures
        p@ == (PolygonView { pts: pts@, fill: Some(Color::white()), stroke: None }),
{
    Polygon::from_pts(pts)
}

} // verus!
