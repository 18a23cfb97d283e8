//! Encoding of a frame's draw commands into the ordered submissions that the
//! graphics pipeline is to receive.

use crate::constant::ImguiPushConstant;
use crate::draw_data::{DrawCmdOps, Rect, TextureId};
use crate::textures::TextureTracker;
use std::ops::Range;
use vstd::prelude::*;

verus! {

/// One submission to the graphics pipeline.
#[derive(Debug, PartialEq, Eq)]
pub enum DrawAction {
    /// Bind the graphics pipeline.
    BindPipeline,
    /// Bind the vertex and index storage of a frame slot.
    BindBuffers { slot: usize },
    /// Bind the descriptor of a texture into the pipeline's texture slot.
    BindTexture { id: TextureId },
    /// Set the scissor rectangle.
    SetScissor { rect: Rect },
    /// Push the frame's transform to the pipeline's constant block.
    PushConstants { constant: ImguiPushConstant },
    /// Draw the indices in `indices`, offset by `base_vertex`, once for each
    /// instance in `instances`.
    DrawIndexed { indices: Range<u32>, base_vertex: u32, instances: Range<u32> },
}

/// The submissions of one draw command on frame slot `slot`.
pub open spec fn command_actions(c: DrawCmdOps, slot: usize, constant: ImguiPushConstant) -> Seq<
    DrawAction,
> {
    seq![
        DrawAction::BindBuffers { slot },
        DrawAction::BindTexture { id: c.texture_id },
        DrawAction::SetScissor { rect: c.scissor },
        DrawAction::PushConstants { constant },
        DrawAction::DrawIndexed {
            indices: c.index_range,
            base_vertex: c.vertex_range.start,
            instances: Range { start: 0u32, end: 1u32 },
        },
    ]
}

/// The submissions of the first `n` draw commands, in order. A command whose
/// texture is not ready is left out whole.
pub open spec fn frame_actions(
    cmds: Seq<DrawCmdOps>,
    n: int,
    textures: &TextureTracker,
    slot: usize,
    constant: ImguiPushConstant,
) -> Seq<DrawAction>
    decreases n,
{
    if n <= 0 {
        Seq::empty()
    } else if textures.is_ready_spec(cmds[n - 1].texture_id) {
        frame_actions(cmds, n - 1, textures, slot, constant) + command_actions(cmds[n - 1], slot, constant)
    } else {
        frame_actions(cmds, n - 1, textures, slot, constant)
    }
}

/// The submissions of a frame: none for a frame without commands; else one
/// pipeline bind, then the submissions of the commands.
pub open spec fn draw_actions(
    cmds: Seq<DrawCmdOps>,
    textures: &TextureTracker,
    slot: usize,
    constant: ImguiPushConstant,
) -> Seq<DrawAction> {
    if cmds.len() == 0 {
        Seq::empty()
    } else {
        seq![DrawAction::BindPipeline] + frame_actions(cmds, cmds.len() as int, textures, slot, constant)
    }
}

/// Encodes the draw commands of a frame for frame slot `slot`.
pub fn encode(
    cmds: &Vec<DrawCmdOps>,
    textures: &TextureTracker,
    slot: usize,
    constant: ImguiPushConstant,
) -> (actions: Vec<DrawAction>)
    requires
        textures.wf(),
    ensures
        actions@ == draw_actions(cmds@, textures, slot, constant),
{
    let mut actions: Vec<DrawAction> = Vec::new();
    if cmds.len() == 0 {
        return actions;
    }
    actions.push(DrawAction::BindPipeline);
    let mut i: usize = 0;
    while i < cmds.len()
        invariant
            i <= cmds.len(),
            textures.wf(),
            actions@ == seq![DrawAction::BindPipeline] + frame_actions(
                cmds@,
                i as int,
                textures,
                slot,
                constant,
            ),
        decreases cmds.len() - i,
    {
        let draw = &cmds[i];
        let ghost before = actions@;
        if textures.is_ready(draw.texture_id) {
            actions.push(DrawAction::BindBuffers { slot });
            actions.push(DrawAction::BindTexture { id: draw.texture_id });
            actions.push(DrawAction::SetScissor { rect: draw.scissor });
            actions.push(DrawAction::PushConstants { constant });
            actions.push(
                DrawAction::DrawIndexed {
                    indices: Range { start: draw.index_range.start, end: draw.index_range.end },
                    base_vertex: draw.vertex_range.start,
                    instances: Range { start: 0, end: 1 },
                },
            );
            assert(actions@ =~= before + command_actions(cmds@[i as int], slot, constant));
        }
        i += 1;
        assert(actions@ =~= seq![DrawAction::BindPipeline] + frame_actions(
            cmds@,
            i as int,
            textures,
            slot,
            constant,
        ));
    }
    actions
}

/// A command whose texture is not ready is skipped, and the others are drawn
/// as if it were not there: taking it out of the list changes nothing of
/// what is submitted for the first `n` commands.
pub proof fn lemma_not_ready_skipped(
    cmds: Seq<DrawCmdOps>,
    n: int,
    textures: &TextureTracker,
    slot: usize,
    constant: ImguiPushConstant,
    i: int,
)
    requires
        0 <= i < cmds.len(),
        0 <= n <= cmds.len(),
        !textures.is_ready_spec(cmds[i].texture_id),
    ensures
        n <= i ==> frame_actions(cmds, n, textures, slot, constant) == frame_actions(
            cmds.remove(i),
            n,
            textures,
            slot,
            constant,
        ),
        n > i ==> frame_actions(cmds, n, textures, slot, constant) == frame_actions(
            cmds.remove(i),
            n - 1,
            textures,
            slot,
            constant,
        ),
    decreases n,
{
    if n > 0 {
        lemma_not_ready_skipped(cmds, n - 1, textures, slot, constant, i);
        if n - 1 < i {
            assert(cmds.remove(i)[n - 1] == cmds[n - 1]);
        } else if n - 1 > i {
            assert(cmds.remove(i)[n - 2] == cmds[n - 1]);
        }
    }
}

/// When every texture is ready, every command is drawn: the frame's
/// submissions are five for each command.
pub proof fn lemma_all_ready_all_drawn(
    cmds: Seq<DrawCmdOps>,
    n: int,
    textures: &TextureTracker,
    slot: usize,
    constant: ImguiPushConstant,
)
    requires
        0 <= n <= cmds.len(),
        forall|i: int| 0 <= i < n ==> textures.is_ready_spec(#[trigger] cmds[i].texture_id),
    ensures
        frame_actions(cmds, n, textures, slot, constant).len() == 5 * n,
        forall|i: int|
            0 <= i < n ==> #[trigger] frame_actions(cmds, n, textures, slot, constant).subrange(
                5 * i,
                5 * i + 5,
            ) == command_actions(cmds[i], slot, constant),
    decreases n,
{
    if n > 0 {
        lemma_all_ready_all_drawn(cmds, n - 1, textures, slot, constant);
        let all = frame_actions(cmds, n, textures, slot, constant);
        let rest = frame_actions(cmds, n - 1, textures, slot, constant);
        assert forall|i: int| 0 <= i < n implies #[trigger] all.subrange(5 * i, 5 * i + 5)
            == command_actions(cmds[i], slot, constant) by {
            if i < n - 1 {
                assert(rest.subrange(5 * i, 5 * i + 5) == command_actions(cmds[i], slot, constant));
                assert(all.subrange(5 * i, 5 * i + 5) =~= rest.subrange(5 * i, 5 * i + 5));
            } else {
                assert(all.subrange(5 * i, 5 * i + 5) =~= command_actions(cmds[i], slot, constant));
            }
        }
    }
}

/// A texture is bound only when it is ready.
pub proof fn lemma_only_ready_textures_bound(
    cmds: Seq<DrawCmdOps>,
    n: int,
    textures: &TextureTracker,
    slot: usize,
    constant: ImguiPushConstant,
    j: int,
)
    requires
        0 <= n <= cmds.len(),
        0 <= j < frame_actions(cmds, n, textures, slot, constant).len(),
        frame_actions(cmds, n, textures, slot, constant)[j] is BindTexture,
    ensures
        textures.is_ready_spec(frame_actions(cmds, n, textures, slot, constant)[j]->id),
    decreases n,
{
    if n > 0 {
        let rest = frame_actions(cmds, n - 1, textures, slot, constant);
        if j < rest.len() {
            lemma_only_ready_textures_bound(cmds, n - 1, textures, slot, constant, j);
        }
    }
}

} // verus!
