//! The toolkit's per-frame draw data and the draw commands made from it.

use crate::color::{packed_of, ImguiColor};
use std::ops::Range;
use vstd::prelude::*;

verus! {

/// Handle of a texture in the renderer's binding space.
#[derive(Clone, Copy, Debug, PartialEq, Eq, Structural)]
pub struct TextureId(pub u32);

impl TextureId {
    /// The renderer's handle for a toolkit handle. The two handle spaces are
    /// bit-compatible: the numeric value is kept as it is.
    pub fn from_handle(handle: u32) -> (id: Self)
        ensures
            id == TextureId(handle),
    {
        TextureId(handle)
    }

    /// The renderer's handle for a toolkit handle of pointer width, if the
    /// handle fits the renderer's 32-bit handle space.
    pub fn checked_from_handle(handle: usize) -> (id: Option<Self>)
        ensures
            handle <= u32::MAX ==> id == Some(TextureId(handle as u32)),
            handle > u32::MAX ==> id is None,
    {
        if handle <= u32::MAX as usize {
            Some(TextureId(handle as u32))
        } else {
            None
        }
    }
}

/// A vertex as the toolkit emits it. Coordinates are carried as the bit
/// patterns of their 32-bit floating-point values.
#[derive(Clone, Copy, Debug, PartialEq, Eq)]
pub struct DrawVert {
    pub pos: (u32, u32),
    pub uv: (u32, u32),
    pub col: [u8; 4],
}

/// Vertex format with position, UV texture coordinate and packed colour
/// attributes. Coordinates are carried as the bit patterns of their 32-bit
/// floating-point values.
#[derive(Clone, Copy, Debug, PartialEq, Eq)]
pub struct ImguiArgs {
    /// Position of the vertex in 2D space.
    pub position: (u32, u32),
    /// UV texture coordinates used by the vertex.
    pub tex_coord: (u32, u32),
    pub color: ImguiColor,
}

/// The pipeline vertex that a toolkit vertex becomes.
pub open spec fn converted_vertex(v: DrawVert) -> ImguiArgs {
    ImguiArgs {
        position: v.pos,
        tex_coord: v.uv,
        color: ImguiColor(packed_of(v.col[0], v.col[1], v.col[2], v.col[3])),
    }
}

impl ImguiArgs {
    /// Converts a toolkit vertex: coordinates are kept, the colour is packed.
    pub fn from_draw_vert(v: &DrawVert) -> (out: Self)
        ensures
            out == converted_vertex(*v),
    {
        ImguiArgs { position: v.pos, tex_coord: v.uv, color: ImguiColor::from_channels(v.col) }
    }
}

/// A clip rectangle in whole UI pixels, by its two corners.
#[derive(Clone, Copy, Debug, PartialEq, Eq, Structural)]
pub struct ClipRect {
    pub left: i32,
    pub top: i32,
    pub right: i32,
    pub bottom: i32,
}

/// A scissor rectangle, by its corner and extent.
#[derive(Clone, Copy, Debug, PartialEq, Eq, Structural)]
pub struct Rect {
    pub x: i16,
    pub y: i16,
    pub w: i16,
    pub h: i16,
}

/// The nearest 16-bit value to `v`.
pub open spec fn saturated(v: int) -> i16 {
    if v < i16::MIN {
        i16::MIN
    } else if v > i16::MAX {
        i16::MAX
    } else {
        v as i16
    }
}

/// The scissor rectangle of a clip rectangle: its first corner, and the
/// distance to its second, each saturated to 16 bits.
pub open spec fn scissor_of(clip: ClipRect) -> Rect {
    Rect {
        x: saturated(clip.left as int),
        y: saturated(clip.top as int),
        w: saturated(clip.right - clip.left),
        h: saturated(clip.bottom - clip.top),
    }
}

fn saturate(v: i64) -> (out: i16)
    ensures
        out == saturated(v as int),
{
    if v < i16::MIN as i64 {
        i16::MIN
    } else if v > i16::MAX as i64 {
        i16::MAX
    } else {
        v as i16
    }
}

impl ClipRect {
    /// The scissor rectangle that clips to this rectangle.
    pub fn scissor(&self) -> (rect: Rect)
        ensures
            rect == scissor_of(*self),
    {
        Rect {
            x: saturate(self.left as i64),
            y: saturate(self.top as i64),
            w: saturate(self.right as i64 - self.left as i64),
            h: saturate(self.bottom as i64 - self.top as i64),
        }
    }
}

/// One command of the toolkit's command buffer.
#[derive(Clone, Copy, Debug, PartialEq, Eq, Structural)]
pub enum DrawCmd {
    /// Draw `count` indices, clipped to `clip_rect`, with texture `texture_id`.
    Elements { count: usize, clip_rect: ClipRect, texture_id: u32 },
    /// Marker asking for the render state to be reset.
    ResetRenderState,
    /// A callback of the toolkit's user, to be called in place of drawing.
    RawCallback,
}

/// One batch of the toolkit's output.
#[derive(Clone, Debug)]
pub struct DrawList {
    pub vtx_buffer: Vec<DrawVert>,
    pub idx_buffer: Vec<u16>,
    pub cmd_buffer: Vec<DrawCmd>,
}

/// One draw submission over the frame's flat buffers.
#[derive(Debug)]
pub struct DrawCmdOps {
    pub vertex_range: Range<u32>,
    pub index_range: Range<u32>,
    pub scissor: Rect,
    pub texture_id: TextureId,
}

/// Place of a raw-callback command in the draw data: its draw list and its
/// position in that list's command buffer.
#[derive(Clone, Copy, Debug, PartialEq, Eq, Structural)]
pub struct CallbackRef {
    pub list: usize,
    pub command: usize,
}

} // verus!
