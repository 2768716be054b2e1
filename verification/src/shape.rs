//! The geometric primitives a population is made of: circles and convex
//! polygons, each with a position or outline and an RGBA8 color. Coordinates
//! are signed, so a shape may stand off canvas; that is how every shape
//! starts.

use vstd::prelude::*;

verus! {

/// An 8-bit-per-channel color; the channels are independent.
#[derive(Clone, Copy, PartialEq, Eq, Structural, Debug)]
pub struct Rgba {
    pub red: u8,
    pub green: u8,
    pub blue: u8,
    pub alpha: u8,
}

/// A signed canvas position; negative coordinates lie off canvas and are
/// valid.
#[derive(Clone, Copy, PartialEq, Eq, Structural, Debug)]
pub struct Point {
    pub x: i32,
    pub y: i32,
}

/// A single geometric primitive. Within a population, insertion order is
/// z-order: later shapes draw on top of earlier ones.
#[derive(Debug, PartialEq, Eq)]
pub enum Shape {
    Circle { center: Point, radius: i32, color: Rgba },
    Polygon { vertices: Vec<Point>, color: Rgba },
}

/// The mathematical value of a `Shape`: the same data with the vertex list
/// as a sequence.
pub enum ShapeView {
    Circle { center: Point, radius: i32, color: Rgba },
    Polygon { vertices: Seq<Point>, color: Rgba },
}

impl View for Shape {
    type V = ShapeView;

    open spec fn view(&self) -> ShapeView {
        match self {
            Shape::Circle { center, radius, color } => ShapeView::Circle {
                center: *center,
                radius: *radius,
                color: *color,
            },
            Shape::Polygon { vertices, color } => ShapeView::Polygon {
                vertices: vertices@,
                color: *color,
            },
        }
    }
}

impl ShapeView {
    /// The number of vertices the shape carries; zero for a circle.
    pub open spec fn vertex_count(self) -> nat {
        match self {
            ShapeView::Circle { .. } => 0,
            ShapeView::Polygon { vertices, .. } => vertices.len(),
        }
    }
}

/// The degenerate circle every population member starts as: off canvas,
/// minimal radius, opaque black.
pub open spec fn default_circle() -> ShapeView {
    ShapeView::Circle {
        center: Point { x: -10 as i32, y: -10 as i32 },
        radius: 1,
        color: Rgba { red: 0, green: 0, blue: 0, alpha: 255 },
    }
}

impl Shape {
    /// Builds the degenerate starting circle.
    pub fn new_default_circle() -> (r: Shape)
        ensures
            r@ == default_circle(),
    {
        Shape::Circle {
            center: Point { x: -10, y: -10 },
            radius: 1,
            color: Rgba { red: 0, green: 0, blue: 0, alpha: 255 },
        }
    }

    /// The number of vertices the shape carries; zero for a circle.
    pub fn vertex_count(&self) -> (r: usize)
        ensures
            r == self@.vertex_count(),
    {
        match self {
            Shape::Circle { .. } => 0,
            Shape::Polygon { vertices, .. } => vertices.len(),
        }
    }
}

impl Clone for Shape {
    /// A clone carries the same mathematical value; a candidate population
    /// is a fully independent copy of the best one.
    fn clone(&self) -> (r: Shape)
        ensures
            r@ == self@,
    {
        match self {
            Shape::Circle { center, radius, color } => Shape::Circle {
                center: *center,
                radius: *radius,
                color: *color,
            },
            Shape::Polygon { vertices, color } => {
                let mut vs: Vec<Point> = Vec::new();
                let mut i: usize = 0;
                while i < vertices.len()
                    invariant
                        i <= vertices.len(),
                        vs@ == vertices@.take(i as int),
                    decreases vertices.len() - i,
                {
                    vs.push(vertices[i]);
                    proof {
                        assert(vs@ =~= vertices@.take(i + 1 as int));
                    }
                    i += 1;
                }
                proof {
                    assert(vs@ =~= vertices@);
                }
                Shape::Polygon { vertices: vs, color: *color }
            },
        }
    }
}

}
