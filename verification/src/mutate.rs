//! Shape mutation. Each attribute of the chosen shape is perturbed
//! independently: a coin decides whether the attribute is resampled within
//! its fixed valid range, and a second-level coin gates color mutation as a
//! whole. The draws are taken from the seeded stream first and handed to
//! the mutation as plain values, so both which draws are taken and what the
//! mutation does with them are stated exactly.

use vstd::prelude::*;

use crate::rng::advanced_state;
use crate::rng::next_output;
use crate::rng::ranged;
use crate::rng::stepped;
use crate::rng::lemma_stepped_add;
use crate::rng::lemma_stepped_one;
use crate::rng::lemma_stepped_zero;
use crate::rng::SeededRng;
use crate::shape::Point;
use crate::shape::Rgba;
use crate::shape::Shape;
use crate::shape::ShapeView;

verus! {

/// The fixed valid ranges attributes are resampled in; every range is
/// half-open.
#[derive(Clone, Copy, PartialEq, Eq, Structural, Debug)]
pub struct MutationRanges {
    pub x_min: i32,
    pub x_max: i32,
    pub y_min: i32,
    pub y_max: i32,
    pub radius_min: i32,
    pub radius_max: i32,
}

impl MutationRanges {
    /// Every range is nonempty.
    pub open spec fn wf(self) -> bool {
        self.x_min < self.x_max && self.y_min < self.y_max && self.radius_min < self.radius_max
    }
}

/// One channel's draw: a coin, and the byte used if the coin passes.
#[derive(Clone, Copy, PartialEq, Eq, Structural, Debug)]
pub struct ChannelDraw {
    pub flip: bool,
    pub value: u8,
}

/// The color draws: a gate coin for mutating color at all, then one draw
/// per channel.
#[derive(Clone, Copy, PartialEq, Eq, Structural, Debug)]
pub struct ColorDraws {
    pub gate: bool,
    pub red: ChannelDraw,
    pub green: ChannelDraw,
    pub blue: ChannelDraw,
    pub alpha: ChannelDraw,
}

/// A position's draws: a coin and a fresh coordinate for each axis.
#[derive(Clone, Copy, PartialEq, Eq, Structural, Debug)]
pub struct PointDraws {
    pub flip_x: bool,
    pub x: i32,
    pub flip_y: bool,
    pub y: i32,
}

/// Every draw one shape mutation consumes.
#[derive(Debug, PartialEq, Eq)]
pub struct ShapeDraws {
    pub position: PointDraws,
    pub flip_radius: bool,
    pub radius: i32,
    pub resample_vertices: bool,
    pub vertex: Vec<PointDraws>,
    pub color: ColorDraws,
}

/// The point draws lie within the position ranges.
pub open spec fn point_draws_wf(d: PointDraws, ranges: MutationRanges) -> bool {
    ranges.x_min <= d.x < ranges.x_max && ranges.y_min <= d.y < ranges.y_max
}

/// Every draw lies within its range.
pub open spec fn shape_draws_wf(d: ShapeDraws, ranges: MutationRanges) -> bool {
    &&& point_draws_wf(d.position, ranges)
    &&& ranges.radius_min <= d.radius < ranges.radius_max
    &&& forall|i: int| 0 <= i < d.vertex@.len() ==> point_draws_wf(#[trigger] d.vertex@[i], ranges)
}

/// The point draws that four successive calls starting from state `s`
/// yield: a coin and a coordinate per axis.
pub open spec fn drawn_point(s: u64, ranges: MutationRanges) -> PointDraws
    recommends
        ranges.wf(),
{
    PointDraws {
        flip_x: (next_output(s) & 1) == 1,
        x: ranged(next_output(stepped(s, 1)), ranges.x_min, ranges.x_max),
        flip_y: (next_output(stepped(s, 2)) & 1) == 1,
        y: ranged(next_output(stepped(s, 3)), ranges.y_min, ranges.y_max),
    }
}

/// The channel draw that two successive calls starting from state `s`
/// yield: a coin, then a byte.
pub open spec fn drawn_channel(s: u64) -> ChannelDraw {
    ChannelDraw {
        flip: (next_output(s) & 1) == 1,
        value: (next_output(stepped(s, 1)) & 0xFF) as u8,
    }
}

/// The color draws that nine successive calls starting from state `s`
/// yield: the whole-color coin, then one channel draw per channel.
pub open spec fn drawn_color(s: u64) -> ColorDraws {
    ColorDraws {
        gate: (next_output(s) & 1) == 1,
        red: drawn_channel(stepped(s, 1)),
        green: drawn_channel(stepped(s, 3)),
        blue: drawn_channel(stepped(s, 5)),
        alpha: drawn_channel(stepped(s, 7)),
    }
}

/// What one position becomes under its draws.
pub open spec fn mutated_point(p: Point, d: PointDraws) -> Point {
    Point {
        x: if d.flip_x {
            d.x
        } else {
            p.x
        },
        y: if d.flip_y {
            d.y
        } else {
            p.y
        },
    }
}

/// What one color becomes under its draws: nothing unless the whole-color
/// coin passes, then each channel independently.
pub open spec fn mutated_color(c: Rgba, d: ColorDraws) -> Rgba {
    if d.gate {
        Rgba {
            red: if d.red.flip {
                d.red.value
            } else {
                c.red
            },
            green: if d.green.flip {
                d.green.value
            } else {
                c.green
            },
            blue: if d.blue.flip {
                d.blue.value
            } else {
                c.blue
            },
            alpha: if d.alpha.flip {
                d.alpha.value
            } else {
                c.alpha
            },
        }
    } else {
        c
    }
}

/// What one shape becomes under its draws: each attribute independently,
/// and a polygon's vertices only if the per-shape resample coin passes.
pub open spec fn mutated_shape(s: ShapeView, d: ShapeDraws) -> ShapeView {
    match s {
        ShapeView::Circle { center, radius, color } => ShapeView::Circle {
            center: mutated_point(center, d.position),
            radius: if d.flip_radius {
                d.radius
            } else {
                radius
            },
            color: mutated_color(color, d.color),
        },
        ShapeView::Polygon { vertices, color } => ShapeView::Polygon {
            vertices: if d.resample_vertices {
                Seq::new(vertices.len(), |i: int| mutated_point(vertices[i], d.vertex@[i]))
            } else {
                vertices
            },
            color: mutated_color(color, d.color),
        },
    }
}

/// Samples the draws for one shape, in a fixed order of stream calls: the
/// position's four, the radius coin and value, the vertex-resample coin,
/// four per vertex, and the color's nine. Every field is pinned to the
/// stream, so the draws are a function of the entering state alone.
pub fn sample_shape_draws(rng: &mut SeededRng, ranges: &MutationRanges, vertex_count: usize) -> (d:
    ShapeDraws)
    requires
        ranges.wf(),
    ensures
        shape_draws_wf(d, *ranges),
        d.vertex@.len() == vertex_count,
        d.position == drawn_point(old(rng).state, *ranges),
        d.flip_radius == ((next_output(stepped(old(rng).state, 4)) & 1) == 1),
        d.radius == ranged(
            next_output(stepped(old(rng).state, 5)),
            ranges.radius_min,
            ranges.radius_max,
        ),
        d.resample_vertices == ((next_output(stepped(old(rng).state, 6)) & 1) == 1),
        forall|j: int|
            0 <= j < vertex_count ==> #[trigger] d.vertex@[j] == drawn_point(
                stepped(old(rng).state, (7 + 4 * j) as nat),
                *ranges,
            ),
        d.color == drawn_color(stepped(old(rng).state, (7 + 4 * vertex_count) as nat)),
        final(rng).state == stepped(old(rng).state, (16 + 4 * vertex_count) as nat),
{
    let ghost s0 = rng.state;
    let position = sample_point_draws(rng, ranges);
    let flip_radius = rng.next_bool();
    let radius = rng.next_in_range(ranges.radius_min, ranges.radius_max);
    let resample_vertices = rng.next_bool();
    proof {
        lemma_stepped_one(s0, 4);
        lemma_stepped_one(s0, 5);
        lemma_stepped_one(s0, 6);
    }
    let mut vertex: Vec<PointDraws> = Vec::new();
    let mut i: usize = 0;
    while i < vertex_count
        invariant
            i <= vertex_count,
            vertex@.len() == i,
            ranges.wf(),
            rng.state == stepped(s0, (7 + 4 * (i as int)) as nat),
            forall|j: int| 0 <= j < i ==> point_draws_wf(#[trigger] vertex@[j], *ranges),
            forall|j: int|
                0 <= j < i ==> #[trigger] vertex@[j] == drawn_point(
                    stepped(s0, (7 + 4 * j) as nat),
                    *ranges,
                ),
        decreases vertex_count - i,
    {
        let vd = sample_point_draws(rng, ranges);
        vertex.push(vd);
        proof {
            lemma_stepped_add(s0, (7 + 4 * (i as int)) as nat, 4);
        }
        i += 1;
    }
    let ghost sc = stepped(s0, (7 + 4 * (vertex_count as int)) as nat);
    let gate = rng.next_bool();
    let red = ChannelDraw { flip: rng.next_bool(), value: rng.next_byte() };
    let green = ChannelDraw { flip: rng.next_bool(), value: rng.next_byte() };
    let blue = ChannelDraw { flip: rng.next_bool(), value: rng.next_byte() };
    let alpha = ChannelDraw { flip: rng.next_bool(), value: rng.next_byte() };
    proof {
        lemma_stepped_zero(sc);
        lemma_stepped_one(sc, 0);
        lemma_stepped_one(sc, 1);
        lemma_stepped_one(sc, 2);
        lemma_stepped_one(sc, 3);
        lemma_stepped_one(sc, 4);
        lemma_stepped_one(sc, 5);
        lemma_stepped_one(sc, 6);
        lemma_stepped_one(sc, 7);
        lemma_stepped_one(sc, 8);
        lemma_stepped_add(sc, 1, 1);
        lemma_stepped_add(sc, 3, 1);
        lemma_stepped_add(sc, 5, 1);
        lemma_stepped_add(sc, 7, 1);
        lemma_stepped_add(s0, (7 + 4 * (vertex_count as int)) as nat, 9);
    }
    let color = ColorDraws { gate, red, green, blue, alpha };
    ShapeDraws { position, flip_radius, radius, resample_vertices, vertex, color }
}

/// Samples one position's draws: four calls of the stream, in a fixed
/// order.
pub fn sample_point_draws(rng: &mut SeededRng, ranges: &MutationRanges) -> (d: PointDraws)
    requires
        ranges.wf(),
    ensures
        point_draws_wf(d, *ranges),
        d == drawn_point(old(rng).state, *ranges),
        final(rng).state == stepped(old(rng).state, 4),
{
    let ghost s0 = rng.state;
    let flip_x = rng.next_bool();
    let x = rng.next_in_range(ranges.x_min, ranges.x_max);
    let flip_y = rng.next_bool();
    let y = rng.next_in_range(ranges.y_min, ranges.y_max);
    proof {
        lemma_stepped_zero(s0);
        lemma_stepped_one(s0, 0);
        lemma_stepped_one(s0, 1);
        lemma_stepped_one(s0, 2);
        lemma_stepped_one(s0, 3);
    }
    PointDraws { flip_x, x, flip_y, y }
}

fn mutate_point(p: Point, d: PointDraws) -> (r: Point)
    ensures
        r == mutated_point(p, d),
{
    Point {
        x: if d.flip_x {
            d.x
        } else {
            p.x
        },
        y: if d.flip_y {
            d.y
        } else {
            p.y
        },
    }
}

fn mutate_color(c: Rgba, d: ColorDraws) -> (r: Rgba)
    ensures
        r == mutated_color(c, d),
{
    if d.gate {
        Rgba {
            red: if d.red.flip {
                d.red.value
            } else {
                c.red
            },
            green: if d.green.flip {
                d.green.value
            } else {
                c.green
            },
            blue: if d.blue.flip {
                d.blue.value
            } else {
                c.blue
            },
            alpha: if d.alpha.flip {
                d.alpha.value
            } else {
                c.alpha
            },
        }
    } else {
        c
    }
}

/// Applies the draws to one shape; what comes out is exactly
/// `mutated_shape` of what went in.
pub fn mutate_shape(s: &Shape, d: &ShapeDraws) -> (r: Shape)
    requires
        d.vertex@.len() >= s@.vertex_count(),
    ensures
        r@ == mutated_shape(s@, *d),
{
    match s {
        Shape::Circle { center, radius, color } => Shape::Circle {
            center: mutate_point(*center, d.position),
            radius: if d.flip_radius {
                d.radius
            } else {
                *radius
            },
            color: mutate_color(*color, d.color),
        },
        Shape::Polygon { vertices, color } => {
            let mut vs: Vec<Point> = Vec::new();
            if d.resample_vertices {
                let mut i: usize = 0;
                while i < vertices.len()
                    invariant
                        i <= vertices.len(),
                        vs@.len() == i,
                        d.vertex@.len() >= vertices@.len(),
                        forall|j: int|
                            0 <= j < i ==> vs@[j] == mutated_point(
                                vertices@[j],
                                d.vertex@[j],
                            ),
                    decreases vertices.len() - i,
                {
                    let p = mutate_point(vertices[i], d.vertex[i]);
                    vs.push(p);
                    i += 1;
                }
                proof {
                    assert(vs@ =~= Seq::new(
                        vertices@.len(),
                        |i: int| mutated_point(vertices@[i], d.vertex@[i]),
                    ));
                }
            } else {
                let mut i: usize = 0;
                while i < vertices.len()
                    invariant
                        i <= vertices.len(),
                        vs@ == vertices@.take(i as int),
                    decreases vertices.len() - i,
                {
                    vs.push(vertices[i]);
                    proof {
                        assert(vs@ =~= vertices@.take(i + 1 as int));
                    }
                    i += 1;
                }
                proof {
                    assert(vs@ =~= vertices@);
                }
            }
            Shape::Polygon { vertices: vs, color: mutate_color(*color, d.color) }
        },
    }
}

}
