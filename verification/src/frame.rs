//! The frame target: the off-screen pixel buffer that the compute program
//! writes and the raster program samples, and the full-screen quad that puts
//! it on the screen.
//!
//! The device owns the buffer and the geometry; this module says what they
//! are and which calls display and fill them.

use vstd::prelude::*;
use crate::program::{GPUProgram, ProgramKind};

verus! {

/// A corner of the quad: a position in clip space and the texture coordinate
/// shown there. Every component is -1, 0 or 1.
#[derive(Clone, Copy, Debug, PartialEq, Eq, Structural)]
pub struct QuadVertex {
    pub x: i8,
    pub y: i8,
    pub u: i8,
    pub v: i8,
}

/// The clip-space coordinate of the left and bottom edges of the screen.
pub const EDGE_LOW: i8 = -1;

/// The clip-space coordinate of the right and top edges of the screen.
pub const EDGE_HIGH: i8 = 1;

/// Vertices in the quad: two triangles.
pub const QUAD_VERTEX_COUNT: u32 = 6;

/// Components per vertex: two of position, two of texture coordinate.
pub const VERTEX_COMPONENTS: u32 = 4;

/// Bytes per stored component.
pub const COMPONENT_BYTES: u32 = 4;

/// Bytes from one vertex to the next.
pub const VERTEX_STRIDE_BYTES: u32 = VERTEX_COMPONENTS * COMPONENT_BYTES;

/// Bytes from the start of a vertex to its texture coordinate.
pub const TEXCOORD_OFFSET_BYTES: u32 = 2 * COMPONENT_BYTES;

/// Bytes of the whole vertex buffer.
pub const QUAD_BUFFER_BYTES: u32 = QUAD_VERTEX_COUNT * VERTEX_STRIDE_BYTES;

/// The quad: the triangle top left, bottom left, bottom right, then the
/// triangle top left, bottom right, top right.
pub open spec fn quad() -> Seq<QuadVertex> {
    seq![
        QuadVertex { x: EDGE_LOW, y: 1, u: 0, v: 1 },
        QuadVertex { x: EDGE_LOW, y: EDGE_LOW, u: 0, v: 0 },
        QuadVertex { x: 1, y: EDGE_LOW, u: 1, v: 0 },
        QuadVertex { x: EDGE_LOW, y: 1, u: 0, v: 1 },
        QuadVertex { x: 1, y: EDGE_LOW, u: 1, v: 0 },
        QuadVertex { x: 1, y: 1, u: 1, v: 1 },
    ]
}

/// The vertices of the full-screen quad, in drawing order.
pub fn quad_vertices() -> (vertices: Vec<QuadVertex>)
    ensures
        vertices@ == quad(),
{
    let mut vertices: Vec<QuadVertex> = Vec::new();
    vertices.push(QuadVertex { x: -1, y: 1, u: 0, v: 1 });
    vertices.push(QuadVertex { x: -1, y: -1, u: 0, v: 0 });
    vertices.push(QuadVertex { x: 1, y: -1, u: 1, v: 0 });
    vertices.push(QuadVertex { x: -1, y: 1, u: 0, v: 1 });
    vertices.push(QuadVertex { x: 1, y: -1, u: 1, v: 0 });
    vertices.push(QuadVertex { x: 1, y: 1, u: 1, v: 1 });
    assert(vertices@ =~= quad());
    vertices
}

/// One attribute of the interleaved vertex buffer.
#[derive(Clone, Copy, Debug, PartialEq, Eq, Structural)]
pub struct VertexAttribute {
    /// The attribute's location in the vertex stage.
    pub location: u32,
    /// How many components it has.
    pub components: u32,
    /// Bytes from one vertex's value to the next.
    pub stride: u32,
    /// Bytes from the start of a vertex to the value.
    pub offset: u32,
}

/// The position attribute: location 0, the first two components.
pub fn position_attribute() -> (attribute: VertexAttribute)
    ensures
        attribute == (VertexAttribute { location: 0, components: 2, stride: 16, offset: 0 }),
{
    VertexAttribute { location: 0, components: 2, stride: VERTEX_STRIDE_BYTES, offset: 0 }
}

/// The texture-coordinate attribute: location 1, the last two components.
pub fn texcoord_attribute() -> (attribute: VertexAttribute)
    ensures
        attribute == (VertexAttribute { location: 1, components: 2, stride: 16, offset: 8 }),
{
    VertexAttribute {
        location: 1,
        components: 2,
        stride: VERTEX_STRIDE_BYTES,
        offset: TEXCOORD_OFFSET_BYTES,
    }
}

/// How the pixel buffer is sampled between texels.
#[derive(Clone, Copy, Debug, PartialEq, Eq, Structural)]
pub enum Filter {
    Nearest,
    Linear,
}

/// How a pixel is stored.
#[derive(Clone, Copy, Debug, PartialEq, Eq, Structural)]
pub enum PixelFormat {
    /// Four channels of eight bits.
    Rgba8,
}

/// What the device is asked to allocate for the pixel buffer.
#[derive(Clone, Copy, Debug, PartialEq, Eq, Structural)]
pub struct TextureSpec {
    pub width: u32,
    pub height: u32,
    pub format: PixelFormat,
    pub min_filter: Filter,
    pub mag_filter: Filter,
    /// Levels of detail; one means no mipmaps.
    pub levels: u32,
}

/// A draw of the full-screen quad.
#[derive(Clone, Copy, Debug, PartialEq, Eq, Structural)]
pub struct DrawCall {
    /// Handle of the raster program to draw with.
    pub program: u32,
    pub first_vertex: u32,
    pub vertex_count: u32,
}

/// A run of the compute program over the pixel buffer.
#[derive(Clone, Copy, Debug, PartialEq, Eq, Structural)]
pub struct Dispatch {
    /// Handle of the compute program to run.
    pub program: u32,
    pub groups_x: u32,
    pub groups_y: u32,
    pub groups_z: u32,
}

/// The least number of groups of `local` invocations that cover `extent`.
pub open spec fn groups_needed(extent: int, local: int) -> int {
    (extent + local - 1) / local
}

/// The least number of work groups of `local` invocations that cover `extent`
/// pixels, or zero where `local` is zero.
pub fn group_count(extent: u32, local: u32) -> (groups: u32)
    ensures
        local == 0 ==> groups == 0,
        local > 0 ==> groups == groups_needed(extent as int, local as int),
{
    if local == 0 {
        return 0;
    }
    let padded: u64 = extent as u64 + local as u64 - 1;
    let groups: u64 = padded / (local as u64);
    proof {
        lemma_groups_cover(extent as int, local as int);
    }
    groups as u32
}

/// The groups counted cover the extent, and one group fewer would not: the
/// count is the least that does. It never exceeds the extent.
pub proof fn lemma_groups_cover(extent: int, local: int)
    requires
        extent >= 0,
        local > 0,
    ensures
        groups_needed(extent, local) * local >= extent,
        (groups_needed(extent, local) - 1) * local < extent,
        0 <= groups_needed(extent, local) <= extent,
{
    let padded = extent + local - 1;
    let groups = padded / local;
    vstd::arithmetic::div_mod::lemma_fundamental_div_mod(padded, local);
    vstd::arithmetic::div_mod::lemma_mod_bound(padded, local);
    assert(padded == local * groups + padded % local);
    assert(groups * local == local * groups) by (nonlinear_arith);
    assert((groups - 1) * local == groups * local - local) by (nonlinear_arith);
    assert(0 <= groups <= extent) by (nonlinear_arith)
        requires
            groups * local >= extent,
            groups * local - local < extent,
            extent >= 0,
            local > 0,
    ;
}

/// The resolution of a frame target.
pub struct FrameView {
    pub width: int,
    pub height: int,
}

/// The off-screen pixel buffer at its fixed resolution, with the quad that
/// displays it.
#[derive(Debug)]
pub struct FrameTarget {
    width: u32,
    height: u32,
}

impl View for FrameTarget {
    type V = FrameView;

    closed spec fn view(&self) -> FrameView {
        FrameView { width: self.width as int, height: self.height as int }
    }
}

impl FrameTarget {
    /// A frame target of `width` by `height` pixels.
    pub fn new(width: u32, height: u32) -> (target: FrameTarget)
        ensures
            target@ == (FrameView { width: width as int, height: height as int }),
    {
        FrameTarget { width, height }
    }

    /// Width of the pixel buffer.
    pub fn width(&self) -> (width: u32)
        ensures
            width == self@.width,
    {
        self.width
    }

    /// Height of the pixel buffer.
    pub fn height(&self) -> (height: u32)
        ensures
            height == self@.height,
    {
        self.height
    }

    /// The pixel buffer to allocate: four eight-bit channels at the target's
    /// resolution, filtered linearly both ways, without mipmaps.
    pub fn texture(&self) -> (texture: TextureSpec)
        ensures
            texture == (TextureSpec {
                width: self@.width as u32,
                height: self@.height as u32,
                format: PixelFormat::Rgba8,
                min_filter: Filter::Linear,
                mag_filter: Filter::Linear,
                levels: 1,
            }),
    {
        TextureSpec {
            width: self.width,
            height: self.height,
            format: PixelFormat::Rgba8,
            min_filter: Filter::Linear,
            mag_filter: Filter::Linear,
            levels: 1,
        }
    }

    /// The draw that shows the pixel buffer: all six vertices of the quad with
    /// `program`. Only a raster program can draw.
    pub fn draw(&self, program: &GPUProgram) -> (call: Option<DrawCall>)
        ensures
            program@.kind != ProgramKind::Raster ==> call is None,
            program@.kind == ProgramKind::Raster ==> call == Some(
                DrawCall { program: program@.handle, first_vertex: 0, vertex_count: 6 },
            ),
    {
        match program.kind() {
            ProgramKind::Raster => Some(
                DrawCall {
                    program: program.handle(),
                    first_vertex: 0,
                    vertex_count: QUAD_VERTEX_COUNT,
                },
            ),
            ProgramKind::Compute => None,
        }
    }

    /// The run of `program` that fills the pixel buffer, for a program whose
    /// work groups are `local_width` by `local_height` invocations: the least
    /// number of groups that covers the resolution in each direction. Only a
    /// compute program with work groups that are not empty can run.
    pub fn dispatch(&self, program: &GPUProgram, local_width: u32, local_height: u32) -> (run:
        Option<Dispatch>)
        ensures
            run is Some <==> program@.kind == ProgramKind::Compute && local_width > 0
                && local_height > 0,
            run is Some ==> run->0.program == program@.handle && run->0.groups_x == groups_needed(
                self@.width,
                local_width as int,
            ) && run->0.groups_y == groups_needed(self@.height, local_height as int)
                && run->0.groups_z == 1,
    {
        match program.kind() {
            ProgramKind::Raster => None,
            ProgramKind::Compute => {
                if local_width == 0 || local_height == 0 {
                    None
                } else {
                    Some(
                        Dispatch {
                            program: program.handle(),
                            groups_x: group_count(self.width, local_width),
                            groups_y: group_count(self.height, local_height),
                            groups_z: 1,
                        },
                    )
                }
            },
        }
    }
}

/// Whether the point `(px / scale, py / scale)` lies in the triangle with the
/// corners `a`, `b` and `c`, its edges included.
pub open spec fn triangle_holds(
    a: QuadVertex,
    b: QuadVertex,
    c: QuadVertex,
    px: int,
    py: int,
    scale: int,
) -> bool {
    let ab = edge_side(a, b, px, py, scale);
    let bc = edge_side(b, c, px, py, scale);
    let ca = edge_side(c, a, px, py, scale);
    (ab >= 0 && bc >= 0 && ca >= 0) || (ab <= 0 && bc <= 0 && ca <= 0)
}

/// On which side of the line from `a` to `b` the point `(px / scale,
/// py / scale)` lies: positive to the left, negative to the right, zero on it.
pub open spec fn edge_side(a: QuadVertex, b: QuadVertex, px: int, py: int, scale: int) -> int {
    (b.x - a.x) * (py - a.y * scale) - (b.y - a.y) * (px - a.x * scale)
}

/// The quad is full screen: every point of the clip-space square lies in one
/// of its two triangles.
pub proof fn lemma_quad_covers_screen(px: int, py: int, scale: int)
    requires
        scale > 0,
        -scale <= px <= scale,
        -scale <= py <= scale,
    ensures
        triangle_holds(quad()[0], quad()[1], quad()[2], px, py, scale) || triangle_holds(
            quad()[3],
            quad()[4],
            quad()[5],
            px,
            py,
            scale,
        ),
{
    let top_left = quad()[0];
    let bottom_left = quad()[1];
    let bottom_right = quad()[2];
    let top_right = quad()[5];
    assert(quad()[3] == top_left && quad()[4] == bottom_right);
    assert(edge_side(top_left, bottom_left, px, py, scale) == 2 * (px + scale)
        && edge_side(bottom_left, bottom_right, px, py, scale) == 2 * (py + scale)
        && edge_side(bottom_right, top_left, px, py, scale) == -2 * (px + py)
        && edge_side(top_left, bottom_right, px, py, scale) == 2 * (px + py)
        && edge_side(bottom_right, top_right, px, py, scale) == 2 * (scale - px)
        && edge_side(top_right, top_left, px, py, scale) == 2 * (scale - py))
        by (nonlinear_arith)
        requires
            top_left == (QuadVertex { x: EDGE_LOW, y: 1, u: 0, v: 1 }),
            bottom_left == (QuadVertex { x: EDGE_LOW, y: EDGE_LOW, u: 0, v: 0 }),
            bottom_right == (QuadVertex { x: 1, y: EDGE_LOW, u: 1, v: 0 }),
            top_right == (QuadVertex { x: 1, y: 1, u: 1, v: 1 }),
    ;
}

/// The texture spans the quad exactly: at every vertex the texture coordinate
/// is the position brought from `[-1, 1]` to `[0, 1]`.
pub proof fn lemma_texture_spans_quad(index: int)
    requires
        0 <= index < quad().len(),
    ensures
        quad().len() == QUAD_VERTEX_COUNT,
        2 * quad()[index].u - 1 == quad()[index].x,
        2 * quad()[index].v - 1 == quad()[index].y,
{
}

} // verus!
