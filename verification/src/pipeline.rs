//! The fixed state of the GUI's graphics pipeline, and the order in which
//! the pipeline and its layout are made and released.

use crate::draw_data::Rect;
use std::ops::Range;
use vstd::prelude::*;

verus! {

/// Format of one vertex attribute.
#[derive(Clone, Copy, Debug, PartialEq, Eq, Structural)]
pub enum AttributeFormat {
    /// Two 32-bit floats.
    Rg32Sfloat,
    /// Four unsigned integers.
    Rgba32Uint,
}

/// What a vertex attribute holds.
#[derive(Clone, Copy, Debug, PartialEq, Eq, Structural)]
pub enum AttributeName {
    Position,
    TexCoord,
    Color,
}

/// One attribute of the vertex layout.
#[derive(Clone, Copy, Debug, PartialEq, Eq, Structural)]
pub struct VertexAttribute {
    pub name: AttributeName,
    pub format: AttributeFormat,
}

/// How primitives are put together from vertices.
#[derive(Clone, Copy, Debug, PartialEq, Eq, Structural)]
pub enum Primitive {
    TriangleList,
}

/// Which faces are culled.
#[derive(Clone, Copy, Debug, PartialEq, Eq, Structural)]
pub enum CullFace {
    Disabled,
}

/// How drawn colours are combined with those present.
#[derive(Clone, Copy, Debug, PartialEq, Eq, Structural)]
pub enum Blend {
    Alpha,
}

/// The depth test.
#[derive(Clone, Copy, Debug, PartialEq, Eq, Structural)]
pub enum DepthTest {
    Off,
    /// Pass where the new depth is less; `write` says whether the depth
    /// buffer is written.
    Less { write: bool },
}

/// How often a vertex attribute advances.
#[derive(Clone, Copy, Debug, PartialEq, Eq, Structural)]
pub enum InputRate {
    Vertex,
}

/// How polygons are filled.
#[derive(Clone, Copy, Debug, PartialEq, Eq, Structural)]
pub enum PolygonMode {
    Fill,
}

/// Which winding is the front of a face.
#[derive(Clone, Copy, Debug, PartialEq, Eq, Structural)]
pub enum FrontFace {
    Clockwise,
}

/// Which colour channels are written.
#[derive(Clone, Copy, Debug, PartialEq, Eq, Structural)]
pub enum ColorMask {
    All,
}

/// The fixed state of the pipeline.
#[derive(Debug, PartialEq, Eq)]
pub struct PipelineDesc {
    pub vertex_layout: [VertexAttribute; 3],
    pub input_rate: InputRate,
    pub primitive: Primitive,
    pub polygon_mode: PolygonMode,
    pub cull_face: CullFace,
    pub front_face: FrontFace,
    pub viewport: Rect,
    pub dynamic_scissor: bool,
    pub color_mask: ColorMask,
    pub blend: Blend,
    pub depth_test: DepthTest,
    /// The bytes of the constant block that the vertex stage reads.
    pub push_constants: Range<u32>,
}

/// The vertex layout: position, then texture coordinates, then colour.
pub open spec fn vertex_layout() -> Seq<VertexAttribute> {
    seq![
        VertexAttribute { name: AttributeName::Position, format: AttributeFormat::Rg32Sfloat },
        VertexAttribute { name: AttributeName::TexCoord, format: AttributeFormat::Rg32Sfloat },
        VertexAttribute { name: AttributeName::Color, format: AttributeFormat::Rgba32Uint },
    ]
}

/// Whether a viewport can cover a framebuffer of this size: both sides fit
/// the 16-bit extent of a rectangle.
pub open spec fn representable(framebuffer_width: u32, framebuffer_height: u32) -> bool {
    framebuffer_width <= i16::MAX && framebuffer_height <= i16::MAX
}

impl PipelineDesc {
    /// The vertex layout of the GUI's vertices.
    pub fn vertex() -> (layout: [VertexAttribute; 3])
        ensures
            layout@ == vertex_layout(),
    {
        let layout = [
            VertexAttribute { name: AttributeName::Position, format: AttributeFormat::Rg32Sfloat },
            VertexAttribute { name: AttributeName::TexCoord, format: AttributeFormat::Rg32Sfloat },
            VertexAttribute { name: AttributeName::Color, format: AttributeFormat::Rgba32Uint },
        ];
        assert(layout@ =~= vertex_layout());
        layout
    }

    /// The state of the pipeline for a framebuffer of the given size: the
    /// GUI's vertex layout read once for each vertex, filled triangle lists,
    /// no culling, a fixed viewport that covers the framebuffer, a scissor
    /// set with each draw, alpha blending into all colour channels, and a
    /// depth test that passes the nearer and writes nothing. A framebuffer
    /// whose side does not fit the 16-bit extent of a viewport is refused.
    pub fn new(framebuffer_width: u32, framebuffer_height: u32) -> (out: Option<Self>)
        ensures
            out is Some <==> representable(framebuffer_width, framebuffer_height),
            out matches Some(desc) ==> {
                &&& desc.vertex_layout@ == vertex_layout()
                &&& desc.input_rate == InputRate::Vertex
                &&& desc.primitive == Primitive::TriangleList
                &&& desc.polygon_mode == PolygonMode::Fill
                &&& desc.cull_face == CullFace::Disabled
                &&& desc.front_face == FrontFace::Clockwise
                &&& desc.viewport.x == 0
                &&& desc.viewport.y == 0
                &&& desc.viewport.w == framebuffer_width
                &&& desc.viewport.h == framebuffer_height
                &&& desc.dynamic_scissor
                &&& desc.color_mask == ColorMask::All
                &&& desc.blend == Blend::Alpha
                &&& desc.depth_test == (DepthTest::Less { write: false })
                &&& desc.push_constants == (Range { start: 0u32, end: 16u32 })
            },
    {
        if framebuffer_width > i16::MAX as u32 || framebuffer_height > i16::MAX as u32 {
            return None;
        }
        Some(
            PipelineDesc {
                vertex_layout: Self::vertex(),
                input_rate: InputRate::Vertex,
                primitive: Primitive::TriangleList,
                polygon_mode: PolygonMode::Fill,
                cull_face: CullFace::Disabled,
                front_face: FrontFace::Clockwise,
                viewport: Rect {
                    x: 0,
                    y: 0,
                    w: framebuffer_width as i16,
                    h: framebuffer_height as i16,
                },
                dynamic_scissor: true,
                color_mask: ColorMask::All,
                blend: Blend::Alpha,
                depth_test: DepthTest::Less { write: false },
                push_constants: Range { start: 0, end: 16 },
            },
        )
    }
}

/// How far the making of the pipeline has come.
#[derive(Clone, Copy, Debug, PartialEq, Eq, Structural)]
pub enum BuildState {
    /// Nothing was asked for yet.
    Start,
    /// The pipeline layout was asked for.
    AwaitLayout,
    /// The layout exists and the pipeline was asked for.
    AwaitPipeline,
    /// Pipeline and layout exist.
    Built,
    /// The making failed; nothing of it is left.
    Failed,
}

/// One thing to do on the graphics device.
#[derive(Clone, Copy, Debug, PartialEq, Eq, Structural)]
pub enum BuildAction {
    CreateLayout,
    CreateShaderModules,
    BuildPipeline,
    DestroyShaderModules,
    DestroyLayout,
}

/// The state after `state`, when what was last asked for has succeeded
/// (`succeeded`) or failed.
pub open spec fn next_state(state: BuildState, succeeded: bool) -> BuildState {
    match state {
        BuildState::Start => BuildState::AwaitLayout,
        BuildState::AwaitLayout => if succeeded {
            BuildState::AwaitPipeline
        } else {
            BuildState::Failed
        },
        BuildState::AwaitPipeline => if succeeded {
            BuildState::Built
        } else {
            BuildState::Failed
        },
        BuildState::Built => BuildState::Built,
        BuildState::Failed => BuildState::Failed,
    }
}

/// What is to be done on the device on leaving `state`.
pub open spec fn next_actions(state: BuildState, succeeded: bool) -> Seq<BuildAction> {
    match state {
        BuildState::Start => seq![BuildAction::CreateLayout],
        BuildState::AwaitLayout => if succeeded {
            seq![
                BuildAction::CreateShaderModules,
                BuildAction::BuildPipeline,
                BuildAction::DestroyShaderModules,
            ]
        } else {
            Seq::empty()
        },
        BuildState::AwaitPipeline => if succeeded {
            Seq::empty()
        } else {
            seq![BuildAction::DestroyLayout]
        },
        BuildState::Built => Seq::empty(),
        BuildState::Failed => Seq::empty(),
    }
}

/// One step of the making of the pipeline: from the state and the outcome of
/// what was last asked for, the next state and what to do on the device. A
/// failure is final and is not tried again; where the pipeline fails, the
/// layout made for it is released before the failure is reported.
pub fn build_step(state: BuildState, succeeded: bool) -> (out: (BuildState, Vec<BuildAction>))
    ensures
        out.0 == next_state(state, succeeded),
        out.1@ == next_actions(state, succeeded),
{
    let mut actions: Vec<BuildAction> = Vec::new();
    let next = match state {
        BuildState::Start => {
            actions.push(BuildAction::CreateLayout);
            BuildState::AwaitLayout
        },
        BuildState::AwaitLayout => {
            if succeeded {
                actions.push(BuildAction::CreateShaderModules);
                actions.push(BuildAction::BuildPipeline);
                actions.push(BuildAction::DestroyShaderModules);
                BuildState::AwaitPipeline
            } else {
                BuildState::Failed
            }
        },
        BuildState::AwaitPipeline => {
            if succeeded {
                BuildState::Built
            } else {
                actions.push(BuildAction::DestroyLayout);
                BuildState::Failed
            }
        },
        BuildState::Built => BuildState::Built,
        BuildState::Failed => BuildState::Failed,
    };
    assert(actions@ =~= next_actions(state, succeeded));
    (next, actions)
}

/// A layout that was made is released exactly when the pipeline then fails,
/// and a finished or failed making asks for nothing more.
pub proof fn lemma_layout_released_on_failure(state: BuildState, succeeded: bool)
    ensures
        next_actions(state, succeeded).contains(BuildAction::DestroyLayout) <==> (state
            == BuildState::AwaitPipeline && !succeeded),
        (state == BuildState::Built || state == BuildState::Failed) ==> next_state(state, succeeded)
            == state && next_actions(state, succeeded).len() == 0,
{
    let acts = next_actions(state, succeeded);
    if state == BuildState::AwaitPipeline && !succeeded {
        assert(acts[0] == BuildAction::DestroyLayout);
    }
}

} // verus!
