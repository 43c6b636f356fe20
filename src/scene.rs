use vstd::prelude::*;
use crate::vertex::{attrib_spec, floats_before, layout_fits, AttribPointer, FLOAT_BYTES, Vertex, VertexView};

verus! {

pub const WINDOW_WIDTH: u32 = 640;
pub const WINDOW_HEIGHT: u32 = 480;
/// Components of one vertex: x, y and z.
pub const FLOAT_NUM: usize = 3;
pub const VERTEX_NUM: usize = 3;
pub const BUF_LEN: usize = FLOAT_NUM * VERTEX_NUM;

/// A non-negative rational number `num / den`.
#[derive(PartialEq, Eq, Structural, Clone, Copy, Debug)]
pub struct Ratio {
    pub num: u32,
    pub den: u32,
}

/// A point or direction with integer coordinates.
#[derive(PartialEq, Eq, Structural, Clone, Copy, Debug)]
pub struct Point3i {
    pub x: i32,
    pub y: i32,
    pub z: i32,
}

/// A look-at view transform: the camera sits at `eye`, looks at `center`,
/// and `up` points upward on screen.
#[derive(PartialEq, Eq, Structural, Clone, Copy, Debug)]
pub struct LookAt {
    pub eye: Point3i,
    pub center: Point3i,
    pub up: Point3i,
}

/// A perspective projection: vertical field of view in degrees, aspect ratio
/// (width over height), and the distances of the near and far planes.
#[derive(PartialEq, Eq, Structural, Clone, Copy, Debug)]
pub struct Perspective {
    pub fovy_degrees: u32,
    pub aspect: Ratio,
    pub near: Ratio,
    pub far: Ratio,
}

/// The model transform of the triangle.
#[derive(PartialEq, Eq, Structural, Clone, Copy, Debug)]
pub enum Model {
    Identity,
}

#[derive(PartialEq, Eq, Structural, Clone, Copy, Debug)]
pub struct Viewport {
    pub x: i32,
    pub y: i32,
    pub width: i32,
    pub height: i32,
}

/// A color whose channels run from 0 (none) to 255 (full).
#[derive(PartialEq, Eq, Structural, Clone, Copy, Debug)]
pub struct Rgba {
    pub r: u8,
    pub g: u8,
    pub b: u8,
    pub a: u8,
}

/// The triangle in model space, vertex after vertex, x, y, z each.
pub open spec fn triangle_spec() -> Seq<i32> {
    seq![-1i32, -1i32, 0i32, 1i32, -1i32, 0i32, 0i32, 1i32, 0i32]
}

/// The coordinates of the triangle's vertices: (-1,-1,0), (1,-1,0), (0,1,0).
pub fn triangle_vertices() -> (r: Vec<i32>)
    ensures
        r@ == triangle_spec(),
        r@.len() == BUF_LEN,
{
    let r = vec![-1, -1, 0, 1, -1, 0, 0, 1, 0];
    assert(r@ =~= triangle_spec());
    r
}

/// The triangle's vertex array: `BUF_LEN` floats uploaded with `usage`, one
/// attribute of `FLOAT_NUM` values of type `float_kind`, `VERTEX_NUM` vertices.
pub fn triangle_vertex(vao: u32, vbo: u32, usage: u32, float_kind: u32) -> (r: Vertex)
    ensures
        r@ == (VertexView {
            vao,
            vbo,
            size: 36,
            usage,
            attribs: seq![AttribPointer {
                index: 0,
                size: 3,
                kind: float_kind,
                normalized: false,
                stride: 12,
                offset: 0,
            }],
            vertex_num: 3,
        }),
{
    let kinds: Vec<u32> = vec![float_kind];
    let sizes: Vec<i32> = vec![FLOAT_NUM as i32];
    proof {
        assert(floats_before(sizes@, 0) == 0);
        assert(floats_before(sizes@, 1) == 3);
        assert(layout_fits(kinds@, sizes@));
    }
    let r = Vertex::new(
        vao,
        vbo,
        (BUF_LEN * FLOAT_BYTES) as isize,
        usage,
        kinds,
        sizes,
        (FLOAT_NUM * FLOAT_BYTES) as i32,
        VERTEX_NUM as i32,
    );
    proof {
        let a = attrib_spec(seq![float_kind], seq![3i32], 12, 0);
        assert(r@.attribs =~= seq![a]);
    }
    r
}

pub open spec fn viewport_spec() -> Viewport {
    Viewport { x: 0, y: 0, width: WINDOW_WIDTH as i32, height: WINDOW_HEIGHT as i32 }
}

/// The whole window.
pub fn viewport() -> (r: Viewport)
    ensures
        r == viewport_spec(),
{
    Viewport { x: 0, y: 0, width: WINDOW_WIDTH as i32, height: WINDOW_HEIGHT as i32 }
}

pub open spec fn clear_color_spec() -> Rgba {
    Rgba { r: 255, g: 255, b: 255, a: 255 }
}

/// Opaque white.
pub fn clear_color() -> (r: Rgba)
    ensures
        r == clear_color_spec(),
{
    Rgba { r: 255, g: 255, b: 255, a: 255 }
}

pub open spec fn view_spec() -> LookAt {
    LookAt {
        eye: Point3i { x: 0, y: 0, z: 5 },
        center: Point3i { x: 0, y: 0, z: 0 },
        up: Point3i { x: 0, y: 1, z: 0 },
    }
}

/// From (0,0,5) toward the origin, with +y up.
pub fn view() -> (r: LookAt)
    ensures
        r == view_spec(),
{
    LookAt {
        eye: Point3i { x: 0, y: 0, z: 5 },
        center: Point3i { x: 0, y: 0, z: 0 },
        up: Point3i { x: 0, y: 1, z: 0 },
    }
}

pub open spec fn projection_spec() -> Perspective {
    Perspective {
        fovy_degrees: 45,
        aspect: Ratio { num: WINDOW_WIDTH, den: WINDOW_HEIGHT },
        near: Ratio { num: 1, den: 10 },
        far: Ratio { num: 100, den: 1 },
    }
}

/// 45 degrees of vertical view, the window's aspect ratio, planes at 0.1 and 100.
pub fn projection() -> (r: Perspective)
    ensures
        r == projection_spec(),
{
    Perspective {
        fovy_degrees: 45,
        aspect: Ratio { num: WINDOW_WIDTH, den: WINDOW_HEIGHT },
        near: Ratio { num: 1, den: 10 },
        far: Ratio { num: 100, den: 1 },
    }
}

} // verus!
