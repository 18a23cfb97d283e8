//! Flattening of a frame's draw lists into one vertex buffer, one index buffer
//! and one ordered list of draw commands.

use crate::draw_data::{
    converted_vertex, scissor_of, CallbackRef, DrawCmd, DrawCmdOps, DrawList, DrawVert, ImguiArgs,
    TextureId,
};
use std::ops::Range;
use vstd::prelude::*;

verus! {

/// Number of vertices in the first `n` draw lists.
pub open spec fn vertex_total(lists: Seq<DrawList>, n: int) -> int
    decreases n,
{
    if n <= 0 {
        0
    } else {
        vertex_total(lists, n - 1) + lists[n - 1].vtx_buffer@.len()
    }
}

/// Number of indices in the first `n` draw lists.
pub open spec fn index_total(lists: Seq<DrawList>, n: int) -> int
    decreases n,
{
    if n <= 0 {
        0
    } else {
        index_total(lists, n - 1) + lists[n - 1].idx_buffer@.len()
    }
}

/// The first `k` vertices of a draw list, converted.
pub open spec fn converted(vs: Seq<DrawVert>, k: int) -> Seq<ImguiArgs> {
    Seq::new(k as nat, |j: int| converted_vertex(vs[j]))
}

/// The converted vertices of the first `n` draw lists, end to end.
pub open spec fn flat_vertices(lists: Seq<DrawList>, n: int) -> Seq<ImguiArgs>
    decreases n,
{
    if n <= 0 {
        Seq::empty()
    } else {
        flat_vertices(lists, n - 1) + converted(
            lists[n - 1].vtx_buffer@,
            lists[n - 1].vtx_buffer@.len() as int,
        )
    }
}

/// The indices of the first `n` draw lists, end to end.
pub open spec fn flat_indices(lists: Seq<DrawList>, n: int) -> Seq<u16>
    decreases n,
{
    if n <= 0 {
        Seq::empty()
    } else {
        flat_indices(lists, n - 1) + lists[n - 1].idx_buffer@
    }
}

/// The part of the flat vertex buffer that draw list `k` fills.
pub open spec fn vertex_span(lists: Seq<DrawList>, k: int) -> Range<u32> {
    Range { start: vertex_total(lists, k) as u32, end: vertex_total(lists, k + 1) as u32 }
}

/// The part of the flat index buffer that draw list `k` fills.
pub open spec fn index_span(lists: Seq<DrawList>, k: int) -> Range<u32> {
    Range { start: index_total(lists, k) as u32, end: index_total(lists, k + 1) as u32 }
}

/// Number of indices that the indexed-draw commands among the first `m`
/// commands of a draw list draw.
pub open spec fn count_sum(cmds: Seq<DrawCmd>, m: int) -> int
    decreases m,
{
    if m <= 0 {
        0
    } else if cmds[m - 1] is Elements {
        count_sum(cmds, m - 1) + cmds[m - 1]->count
    } else {
        count_sum(cmds, m - 1)
    }
}

/// Whether the indexed-draw commands of a draw list draw, together, exactly
/// the indices of the list.
pub open spec fn counts_match(list: DrawList) -> bool {
    count_sum(list.cmd_buffer@, list.cmd_buffer@.len() as int) == list.idx_buffer@.len()
}

/// Whether the counts match in each of the first `n` draw lists.
pub open spec fn all_counts_match(lists: Seq<DrawList>, n: int) -> bool {
    forall|k: int| 0 <= k < n ==> counts_match(#[trigger] lists[k])
}

/// The draw command that an indexed-draw command becomes, with the ranges
/// given.
pub open spec fn rewritten(cmd: DrawCmd, vertices: Range<u32>, indices: Range<u32>) -> DrawCmdOps
    recommends
        cmd is Elements,
{
    DrawCmdOps {
        vertex_range: vertices,
        index_range: indices,
        scissor: scissor_of(cmd->clip_rect),
        texture_id: TextureId(cmd->texture_id),
    }
}

/// The index range of an indexed-draw command that draws `count` indices
/// after `before` indices of its list, in a list whose indices fill
/// `indices`. Where the counts of the list match (`by_count`), the range
/// starts `before` into the list's span and is `count` long. Where they do
/// not, the counts say nothing reliable, and the range is the list's whole
/// span, which lies inside the flat buffer whatever the counts are.
pub open spec fn command_indices(indices: Range<u32>, by_count: bool, before: int, count: int)
    -> Range<u32> {
    if by_count {
        Range { start: (indices.start + before) as u32, end: (indices.start + before + count) as u32 }
    } else {
        indices
    }
}

/// The draw commands of the first `m` commands of one draw list, whose
/// vertices fill `vertices` and whose indices fill `indices` in the flat
/// buffers: one for each indexed-draw command, in order. The vertex range of
/// each is the list's span, so that its indices count from the list's first
/// vertex; its index range is given by `command_indices`.
pub open spec fn list_commands(
    cmds: Seq<DrawCmd>,
    m: int,
    vertices: Range<u32>,
    indices: Range<u32>,
    by_count: bool,
) -> Seq<DrawCmdOps>
    decreases m,
{
    if m <= 0 {
        Seq::empty()
    } else if cmds[m - 1] is Elements {
        list_commands(cmds, m - 1, vertices, indices, by_count).push(
            rewritten(
                cmds[m - 1],
                vertices,
                command_indices(
                    indices,
                    by_count,
                    count_sum(cmds, m - 1),
                    cmds[m - 1]->count as int,
                ),
            ),
        )
    } else {
        list_commands(cmds, m - 1, vertices, indices, by_count)
    }
}

/// The draw commands of draw list `k`.
pub open spec fn commands_of_list(lists: Seq<DrawList>, k: int) -> Seq<DrawCmdOps> {
    list_commands(
        lists[k].cmd_buffer@,
        lists[k].cmd_buffer@.len() as int,
        vertex_span(lists, k),
        index_span(lists, k),
        counts_match(lists[k]),
    )
}

/// The draw commands of the first `n` draw lists, in order.
pub open spec fn flat_commands(lists: Seq<DrawList>, n: int) -> Seq<DrawCmdOps>
    decreases n,
{
    if n <= 0 {
        Seq::empty()
    } else {
        flat_commands(lists, n - 1) + commands_of_list(lists, n - 1)
    }
}

/// The places of the raw-callback commands among the first `m` commands of
/// draw list `list`, in order.
pub open spec fn list_callbacks(cmds: Seq<DrawCmd>, m: int, list: int) -> Seq<CallbackRef>
    decreases m,
{
    if m <= 0 {
        Seq::empty()
    } else if cmds[m - 1] is RawCallback {
        list_callbacks(cmds, m - 1, list).push(
            CallbackRef { list: list as usize, command: (m - 1) as usize },
        )
    } else {
        list_callbacks(cmds, m - 1, list)
    }
}

/// The places of the raw-callback commands of the first `n` draw lists, in
/// order.
pub open spec fn flat_callbacks(lists: Seq<DrawList>, n: int) -> Seq<CallbackRef>
    decreases n,
{
    if n <= 0 {
        Seq::empty()
    } else {
        flat_callbacks(lists, n - 1) + list_callbacks(
            lists[n - 1].cmd_buffer@,
            lists[n - 1].cmd_buffer@.len() as int,
            n - 1,
        )
    }
}

/// Whether both totals fit the 32-bit ranges of a draw command.
pub open spec fn fits(lists: Seq<DrawList>) -> bool {
    vertex_total(lists, lists.len() as int) <= u32::MAX && index_total(
        lists,
        lists.len() as int,
    ) <= u32::MAX
}

/// Why a frame's draw lists could not be flattened.
#[derive(Clone, Copy, Debug, PartialEq, Eq, Structural)]
pub enum AssembleError {
    /// The lists hold more vertices than a 32-bit range can address.
    TooManyVertices,
    /// The lists hold more indices than a 32-bit range can address.
    TooManyIndices,
}

/// The reason for which the draw lists cannot be flattened, if there is one:
/// too many vertices comes first, then too many indices.
pub open spec fn refusal(lists: Seq<DrawList>) -> Option<AssembleError> {
    if vertex_total(lists, lists.len() as int) > u32::MAX {
        Some(AssembleError::TooManyVertices)
    } else if index_total(lists, lists.len() as int) > u32::MAX {
        Some(AssembleError::TooManyIndices)
    } else {
        None
    }
}

/// What one frame's draw lists flatten to.
#[derive(Debug)]
pub struct Assembled {
    pub vertices: Vec<ImguiArgs>,
    pub indices: Vec<u16>,
    pub commands: Vec<DrawCmdOps>,
    pub callbacks: Vec<CallbackRef>,
}

/// The vertex total never shrinks as lists are added.
pub proof fn lemma_vertex_total_monotone(lists: Seq<DrawList>, a: int, b: int)
    requires
        a <= b,
    ensures
        0 <= vertex_total(lists, a) <= vertex_total(lists, b),
    decreases b,
{
    if b > 0 && a < b {
        lemma_vertex_total_monotone(lists, a, b - 1);
    } else if b > 0 {
        lemma_vertex_total_monotone(lists, a - 1, b - 1);
    }
}

/// The index total never shrinks as lists are added.
pub proof fn lemma_index_total_monotone(lists: Seq<DrawList>, a: int, b: int)
    requires
        a <= b,
    ensures
        0 <= index_total(lists, a) <= index_total(lists, b),
    decreases b,
{
    if b > 0 && a < b {
        lemma_index_total_monotone(lists, a, b - 1);
    } else if b > 0 {
        lemma_index_total_monotone(lists, a - 1, b - 1);
    }
}

/// The number of vertices in all the draw lists, if it fits 32 bits.
pub fn vertex_count(lists: &Vec<DrawList>) -> (out: Option<u32>)
    ensures
        out is Some <==> vertex_total(lists@, lists@.len() as int) <= u32::MAX,
        out matches Some(t) ==> t == vertex_total(lists@, lists@.len() as int),
{
    let mut total: u32 = 0;
    let mut i: usize = 0;
    while i < lists.len()
        invariant
            i <= lists.len(),
            total == vertex_total(lists@, i as int),
        decreases lists.len() - i,
    {
        let n: usize = lists[i].vtx_buffer.len();
        if n > (u32::MAX - total) as usize {
            proof {
                lemma_vertex_total_monotone(lists@, i + 1, lists@.len() as int);
            }
            return None;
        }
        total = total + n as u32;
        i += 1;
    }
    Some(total)
}

/// The number of indices in all the draw lists, if it fits 32 bits.
pub fn index_count(lists: &Vec<DrawList>) -> (out: Option<u32>)
    ensures
        out is Some <==> index_total(lists@, lists@.len() as int) <= u32::MAX,
        out matches Some(t) ==> t == index_total(lists@, lists@.len() as int),
{
    let mut total: u32 = 0;
    let mut i: usize = 0;
    while i < lists.len()
        invariant
            i <= lists.len(),
            total == index_total(lists@, i as int),
        decreases lists.len() - i,
    {
        let n: usize = lists[i].idx_buffer.len();
        if n > (u32::MAX - total) as usize {
            proof {
                lemma_index_total_monotone(lists@, i + 1, lists@.len() as int);
            }
            return None;
        }
        total = total + n as u32;
        i += 1;
    }
    Some(total)
}

/// The count of indices drawn never shrinks as commands are added.
pub proof fn lemma_count_sum_monotone(cmds: Seq<DrawCmd>, a: int, b: int)
    requires
        a <= b,
    ensures
        0 <= count_sum(cmds, a) <= count_sum(cmds, b),
    decreases b,
{
    if b > 0 && a < b {
        lemma_count_sum_monotone(cmds, a, b - 1);
    } else if b > 0 {
        lemma_count_sum_monotone(cmds, a - 1, b - 1);
    }
}

/// Whether the indexed-draw commands of the list draw, together, exactly the
/// indices of the list.
pub fn counts_add_up(list: &DrawList) -> (out: bool)
    ensures
        out == counts_match(*list),
{
    let n: usize = list.idx_buffer.len();
    let mut sum: usize = 0;
    let mut j: usize = 0;
    while j < list.cmd_buffer.len()
        invariant
            j <= list.cmd_buffer.len(),
            n == list.idx_buffer@.len(),
            sum <= n,
            sum == count_sum(list.cmd_buffer@, j as int),
        decreases list.cmd_buffer.len() - j,
    {
        match list.cmd_buffer[j] {
            DrawCmd::Elements { count, clip_rect: _, texture_id: _ } => {
                if count > n - sum {
                    proof {
                        lemma_count_sum_monotone(
                            list.cmd_buffer@,
                            j + 1,
                            list.cmd_buffer@.len() as int,
                        );
                    }
                    return false;
                }
                sum = sum + count;
            },
            _ => {},
        }
        j += 1;
    }
    sum == n
}

/// The flat vertex buffer holds as many vertices as the draw lists together,
/// and the flat index buffer as many indices.
pub proof fn lemma_counts_preserved(lists: Seq<DrawList>, n: int)
    ensures
        flat_vertices(lists, n).len() == vertex_total(lists, n),
        flat_indices(lists, n).len() == index_total(lists, n),
    decreases n,
{
    if n > 0 {
        lemma_counts_preserved(lists, n - 1);
    }
}

/// Flattens the draw lists of one frame, in the order given, whenever both
/// totals fit 32 bits. Each list's indexed-draw commands become draw
/// commands, one for one and in order. The vertex range of each is the part
/// of the flat vertex buffer that its list fills. Where the counts of the
/// list's indexed-draw commands add up to the list's indices, their index
/// ranges follow one another, each as long as its count, through the part of
/// the flat index buffer that the list fills; where they do not, each
/// command's index range is that whole part. Reset markers have no effect.
/// Raw-callback commands give no draw command: they are reported by their
/// place, and the caller is to invoke them in that order, with the list and
/// the command at that place, before it uploads the flat buffers.
pub fn assemble(lists: &Vec<DrawList>) -> (out: Result<Assembled, AssembleError>)
    ensures
        out is Ok <==> refusal(lists@) is None,
        out matches Err(e) ==> refusal(lists@) == Some(e),
        out matches Ok(a) ==> {
            &&& a.vertices@ == flat_vertices(lists@, lists@.len() as int)
            &&& a.indices@ == flat_indices(lists@, lists@.len() as int)
            &&& a.commands@ == flat_commands(lists@, lists@.len() as int)
            &&& a.callbacks@ == flat_callbacks(lists@, lists@.len() as int)
            &&& a.vertices@.len() == vertex_total(lists@, lists@.len() as int)
            &&& a.indices@.len() == index_total(lists@, lists@.len() as int)
            &&& forall|i: int|
                0 <= i < a.commands@.len() ==> {
                    let c = #[trigger] a.commands@[i];
                    &&& 0 <= c.vertex_range.start <= c.vertex_range.end <= a.vertices@.len()
                    &&& 0 <= c.index_range.start <= c.index_range.end <= a.indices@.len()
                }
        },
{
    if vertex_count(lists).is_none() {
        return Err(AssembleError::TooManyVertices);
    }
    if index_count(lists).is_none() {
        return Err(AssembleError::TooManyIndices);
    }
    let mut vertices: Vec<ImguiArgs> = Vec::new();
    let mut indices: Vec<u16> = Vec::new();
    let mut commands: Vec<DrawCmdOps> = Vec::new();
    let mut callbacks: Vec<CallbackRef> = Vec::new();
    let mut i: usize = 0;
    while i < lists.len()
        invariant
            i <= lists.len(),
            refusal(lists@) is None,
            vertices@ == flat_vertices(lists@, i as int),
            indices@ == flat_indices(lists@, i as int),
            commands@ == flat_commands(lists@, i as int),
            callbacks@ == flat_callbacks(lists@, i as int),
        decreases lists.len() - i,
    {
        let list = &lists[i];
        proof {
            lemma_counts_preserved(lists@, i as int);
            lemma_vertex_total_monotone(lists@, i + 1, lists@.len() as int);
            lemma_index_total_monotone(lists@, i + 1, lists@.len() as int);
            lemma_vertex_total_monotone(lists@, i as int, i + 1);
            lemma_index_total_monotone(lists@, i as int, i + 1);
        }
        let by_count = counts_add_up(list);
        let vertex_start: u32 = vertices.len() as u32;
        let vertex_end: u32 = (vertices.len() + list.vtx_buffer.len()) as u32;
        let index_start: u32 = indices.len() as u32;
        let index_end: u32 = (indices.len() + list.idx_buffer.len()) as u32;
        let mut next_index: u32 = index_start;
        let ghost vspan = vertex_span(lists@, i as int);
        let ghost ispan = index_span(lists@, i as int);
        let mut j: usize = 0;
        while j < list.cmd_buffer.len()
            invariant
                j <= list.cmd_buffer.len(),
                i < lists.len(),
                list == &lists[i as int],
                by_count == counts_match(*list),
                index_start + list.idx_buffer@.len() <= u32::MAX,
                vspan == (Range { start: vertex_start, end: vertex_end }),
                ispan == (Range { start: index_start, end: index_end }),
                by_count ==> next_index == index_start + count_sum(list.cmd_buffer@, j as int),
                commands@ == flat_commands(lists@, i as int) + list_commands(
                    list.cmd_buffer@,
                    j as int,
                    vspan,
                    ispan,
                    by_count,
                ),
                callbacks@ == flat_callbacks(lists@, i as int) + list_callbacks(
                    list.cmd_buffer@,
                    j as int,
                    i as int,
                ),
            decreases list.cmd_buffer.len() - j,
        {
            proof {
                lemma_count_sum_monotone(list.cmd_buffer@, j + 1, list.cmd_buffer@.len() as int);
                lemma_count_sum_monotone(list.cmd_buffer@, j as int, j + 1);
            }
            match list.cmd_buffer[j] {
                DrawCmd::Elements { count, clip_rect, texture_id } => {
                    let index_range = if by_count {
                        let end: u32 = next_index + count as u32;
                        let range = Range { start: next_index, end };
                        next_index = end;
                        range
                    } else {
                        Range { start: index_start, end: index_end }
                    };
                    commands.push(
                        DrawCmdOps {
                            vertex_range: Range { start: vertex_start, end: vertex_end },
                            index_range,
                            scissor: clip_rect.scissor(),
                            texture_id: TextureId::from_handle(texture_id),
                        },
                    );
                },
                DrawCmd::ResetRenderState => {},
                DrawCmd::RawCallback => {
                    callbacks.push(CallbackRef { list: i, command: j });
                },
            }
            j += 1;
            assert(commands@ =~= flat_commands(lists@, i as int) + list_commands(
                list.cmd_buffer@,
                j as int,
                vspan,
                ispan,
                by_count,
            ));
            assert(callbacks@ =~= flat_callbacks(lists@, i as int) + list_callbacks(
                list.cmd_buffer@,
                j as int,
                i as int,
            ));
        }
        let mut k: usize = 0;
        while k < list.vtx_buffer.len()
            invariant
                k <= list.vtx_buffer.len(),
                i < lists.len(),
                list == &lists[i as int],
                vertices@ == flat_vertices(lists@, i as int) + converted(
                    list.vtx_buffer@,
                    k as int,
                ),
            decreases list.vtx_buffer.len() - k,
        {
            vertices.push(ImguiArgs::from_draw_vert(&list.vtx_buffer[k]));
            k += 1;
            assert(vertices@ =~= flat_vertices(lists@, i as int) + converted(
                list.vtx_buffer@,
                k as int,
            ));
        }
        let mut k: usize = 0;
        while k < list.idx_buffer.len()
            invariant
                k <= list.idx_buffer.len(),
                i < lists.len(),
                list == &lists[i as int],
                indices@ == flat_indices(lists@, i as int) + list.idx_buffer@.take(k as int),
            decreases list.idx_buffer.len() - k,
        {
            indices.push(list.idx_buffer[k]);
            k += 1;
            assert(indices@ =~= flat_indices(lists@, i as int) + list.idx_buffer@.take(k as int));
        }
        assert(list.idx_buffer@.take(list.idx_buffer@.len() as int) =~= list.idx_buffer@);
        i += 1;
    }
    proof {
        let n = lists@.len() as int;
        lemma_counts_preserved(lists@, n);
        assert forall|i: int| 0 <= i < commands@.len() implies {
            let c = #[trigger] commands@[i];
            &&& 0 <= c.vertex_range.start <= c.vertex_range.end <= vertices@.len()
            &&& 0 <= c.index_range.start <= c.index_range.end <= indices@.len()
        } by {
            lemma_ranges_valid(lists@, n, i);
        }
    }
    Ok(Assembled { vertices, indices, commands, callbacks })
}

/// The commands of the first `n` draw lists as the toolkit gave them, end to
/// end.
pub open spec fn raw_commands(lists: Seq<DrawList>, n: int) -> Seq<DrawCmd>
    decreases n,
{
    if n <= 0 {
        Seq::empty()
    } else {
        raw_commands(lists, n - 1) + lists[n - 1].cmd_buffer@
    }
}

/// The test that picks the indexed-draw commands.
pub open spec fn is_indexed_draw() -> spec_fn(DrawCmd) -> bool {
    |c: DrawCmd| c is Elements
}

/// Whether draw command `out` carries the clip rectangle and the texture of
/// the toolkit command `cmd`.
pub open spec fn carries(out: DrawCmdOps, cmd: DrawCmd) -> bool {
    &&& cmd is Elements
    &&& out.scissor == scissor_of(cmd->clip_rect)
    &&& out.texture_id == TextureId(cmd->texture_id)
}

/// The draw commands of one draw list are its indexed-draw commands, in
/// order; each of them has the vertex span given, and, where the ranges do
/// not go by the counts, the index span given.
pub proof fn lemma_list_order(
    cmds: Seq<DrawCmd>,
    m: int,
    vertices: Range<u32>,
    indices: Range<u32>,
    by_count: bool,
)
    requires
        0 <= m <= cmds.len(),
    ensures
        list_commands(cmds, m, vertices, indices, by_count).len() == cmds.take(m).filter(
            is_indexed_draw(),
        ).len(),
        forall|i: int|
            0 <= i < list_commands(cmds, m, vertices, indices, by_count).len() ==> {
                let c = #[trigger] list_commands(cmds, m, vertices, indices, by_count)[i];
                &&& c.vertex_range == vertices
                &&& !by_count ==> c.index_range == indices
                &&& carries(c, cmds.take(m).filter(is_indexed_draw())[i])
            },
    decreases m,
{
    reveal(Seq::filter);
    if m > 0 {
        lemma_list_order(cmds, m - 1, vertices, indices, by_count);
        assert(cmds.take(m).drop_last() =~= cmds.take(m - 1));
        assert(cmds.take(m).last() == cmds[m - 1]);
    }
}

/// Where the ranges go by the counts, the index ranges of the draw commands
/// of one draw list partition, in order, what the list's indexed-draw
/// commands draw: the first starts where the list's indices start, each has
/// the count of its command and ends where the next starts, and the last
/// ends after the sum of the counts.
pub proof fn lemma_list_partition(
    cmds: Seq<DrawCmd>,
    m: int,
    vertices: Range<u32>,
    indices: Range<u32>,
)
    requires
        0 <= m <= cmds.len(),
        indices.start + count_sum(cmds, m) <= u32::MAX,
    ensures
        ({
            let out = list_commands(cmds, m, vertices, indices, true);
            let drawn = cmds.take(m).filter(is_indexed_draw());
            &&& out.len() == drawn.len()
            &&& out.len() == 0 ==> count_sum(cmds, m) == 0
            &&& out.len() > 0 ==> out[0].index_range.start == indices.start
            &&& out.len() > 0 ==> out.last().index_range.end == indices.start + count_sum(cmds, m)
            &&& forall|i: int|
                0 <= i < out.len() ==> (#[trigger] out[i]).index_range.end
                    == out[i].index_range.start + drawn[i]->count
            &&& forall|i: int|
                0 <= i < out.len() ==> indices.start <= (#[trigger] out[i]).index_range.start
                    && out[i].index_range.end <= indices.start + count_sum(cmds, m)
            &&& forall|i: int|
                0 <= i < out.len() - 1 ==> (#[trigger] out[i]).index_range.end == out[i
                    + 1].index_range.start
        }),
    decreases m,
{
    reveal(Seq::filter);
    if m > 0 {
        lemma_count_sum_monotone(cmds, m - 1, m);
        lemma_count_sum_monotone(cmds, 0, m - 1);
        lemma_list_partition(cmds, m - 1, vertices, indices);
        assert(cmds.take(m).drop_last() =~= cmds.take(m - 1));
        assert(cmds.take(m).last() == cmds[m - 1]);
    }
}

/// The draw commands of the first `a` draw lists are the first of the draw
/// commands of the first `b`.
pub proof fn lemma_commands_prefix(lists: Seq<DrawList>, a: int, b: int)
    requires
        0 <= a <= b,
    ensures
        flat_commands(lists, a).len() <= flat_commands(lists, b).len(),
        flat_commands(lists, b).subrange(0, flat_commands(lists, a).len() as int) == flat_commands(
            lists,
            a,
        ),
    decreases b,
{
    if a < b {
        lemma_commands_prefix(lists, a, b - 1);
        assert(flat_commands(lists, b).subrange(0, flat_commands(lists, a).len() as int)
            =~= flat_commands(lists, b - 1).subrange(0, flat_commands(lists, a).len() as int));
    } else {
        assert(flat_commands(lists, b).subrange(0, flat_commands(lists, a).len() as int)
            =~= flat_commands(lists, a));
    }
}

/// The draw commands of draw list `k` stand together among the draw commands
/// of the frame, after those of the lists before it, whatever the other
/// lists hold.
pub proof fn lemma_commands_of_list(lists: Seq<DrawList>, n: int, k: int)
    requires
        0 <= k < n,
    ensures
        flat_commands(lists, k).len() + commands_of_list(lists, k).len() == flat_commands(
            lists,
            k + 1,
        ).len(),
        flat_commands(lists, k + 1).len() <= flat_commands(lists, n).len(),
        flat_commands(lists, n).subrange(
            flat_commands(lists, k).len() as int,
            flat_commands(lists, k + 1).len() as int,
        ) == commands_of_list(lists, k),
{
    lemma_commands_prefix(lists, k + 1, n);
    let whole = flat_commands(lists, n);
    let upto = flat_commands(lists, k + 1);
    let before = flat_commands(lists, k);
    assert(upto == before + commands_of_list(lists, k));
    assert(whole.subrange(before.len() as int, upto.len() as int) =~= whole.subrange(
        0,
        upto.len() as int,
    ).subrange(before.len() as int, upto.len() as int));
    assert(upto.subrange(before.len() as int, upto.len() as int) =~= commands_of_list(lists, k));
}

/// Order is preserved: the draw commands are, one for one and in the same
/// order, the indexed-draw commands of all the draw lists; raw callbacks and
/// reset markers leave no command.
pub proof fn lemma_order_preserved(lists: Seq<DrawList>, n: int)
    requires
        0 <= n <= lists.len(),
    ensures
        flat_commands(lists, n).len() == raw_commands(lists, n).filter(is_indexed_draw()).len(),
        forall|i: int|
            0 <= i < flat_commands(lists, n).len() ==> carries(
                #[trigger] flat_commands(lists, n)[i],
                raw_commands(lists, n).filter(is_indexed_draw())[i],
            ),
    decreases n,
{
    if n > 0 {
        let cmds = lists[n - 1].cmd_buffer@;
        lemma_order_preserved(lists, n - 1);
        lemma_list_order(
            cmds,
            cmds.len() as int,
            vertex_span(lists, n - 1),
            index_span(lists, n - 1),
            counts_match(lists[n - 1]),
        );
        assert(cmds.take(cmds.len() as int) =~= cmds);
        Seq::filter_distributes_over_add(raw_commands(lists, n - 1), cmds, is_indexed_draw());
    } else {
        reveal(Seq::filter);
    }
}

/// Ranges are valid: each draw command's ranges lie inside the flat buffers.
/// Its vertex range is the span of one of the draw lists, and its index range
/// lies inside the index span of that list.
pub proof fn lemma_ranges_valid(lists: Seq<DrawList>, n: int, i: int)
    requires
        0 <= n <= lists.len(),
        vertex_total(lists, n) <= u32::MAX,
        index_total(lists, n) <= u32::MAX,
        0 <= i < flat_commands(lists, n).len(),
    ensures
        ({
            let c = flat_commands(lists, n)[i];
            &&& 0 <= c.vertex_range.start <= c.vertex_range.end <= flat_vertices(lists, n).len()
            &&& 0 <= c.index_range.start <= c.index_range.end <= flat_indices(lists, n).len()
            &&& exists|k: int|
                0 <= k < n && c.vertex_range == #[trigger] vertex_span(lists, k) && index_total(
                    lists,
                    k,
                ) <= c.index_range.start && c.index_range.end <= index_total(lists, k + 1)
        }),
    decreases n,
{
    lemma_counts_preserved(lists, n);
    lemma_vertex_total_monotone(lists, n - 1, n);
    lemma_index_total_monotone(lists, n - 1, n);
    lemma_vertex_total_monotone(lists, 0, n - 1);
    lemma_index_total_monotone(lists, 0, n - 1);
    let cmds = lists[n - 1].cmd_buffer@;
    if i < flat_commands(lists, n - 1).len() {
        lemma_ranges_valid(lists, n - 1, i);
        lemma_counts_preserved(lists, n - 1);
        let c = flat_commands(lists, n - 1)[i];
        let k = choose|k: int|
            0 <= k < n - 1 && c.vertex_range == #[trigger] vertex_span(lists, k) && index_total(
                lists,
                k,
            ) <= c.index_range.start && c.index_range.end <= index_total(lists, k + 1);
        assert(c.vertex_range == vertex_span(lists, k));
    } else {
        let by_count = counts_match(lists[n - 1]);
        lemma_list_order(
            cmds,
            cmds.len() as int,
            vertex_span(lists, n - 1),
            index_span(lists, n - 1),
            by_count,
        );
        if by_count {
            lemma_list_partition(
                cmds,
                cmds.len() as int,
                vertex_span(lists, n - 1),
                index_span(lists, n - 1),
            );
        }
        let out = commands_of_list(lists, n - 1);
        let c = flat_commands(lists, n)[i];
        assert(c == out[i - flat_commands(lists, n - 1).len()]);
        assert(c.vertex_range == vertex_span(lists, n - 1));
    }
}

/// Where the counts match in every draw list, the index ranges of all the
/// draw commands partition the flat index buffer in order: the first starts
/// at zero, each ends where the next starts, and the last ends where the
/// buffer ends; without commands there are no indices.
pub proof fn lemma_commands_partition(lists: Seq<DrawList>, n: int)
    requires
        0 <= n <= lists.len(),
        index_total(lists, n) <= u32::MAX,
        all_counts_match(lists, n),
    ensures
        ({
            let out = flat_commands(lists, n);
            &&& out.len() == 0 ==> index_total(lists, n) == 0
            &&& out.len() > 0 ==> out[0].index_range.start == 0
            &&& out.len() > 0 ==> out.last().index_range.end == index_total(lists, n)
            &&& forall|i: int|
                0 <= i < out.len() - 1 ==> (#[trigger] out[i]).index_range.end == out[i
                    + 1].index_range.start
        }),
    decreases n,
{
    if n > 0 {
        lemma_index_total_monotone(lists, n - 1, n);
        lemma_index_total_monotone(lists, 0, n - 1);
        lemma_commands_partition(lists, n - 1);
        let cmds = lists[n - 1].cmd_buffer@;
        assert(counts_match(lists[n - 1]));
        lemma_list_partition(
            cmds,
            cmds.len() as int,
            vertex_span(lists, n - 1),
            index_span(lists, n - 1),
        );
        let before = flat_commands(lists, n - 1);
        let last = commands_of_list(lists, n - 1);
        let out = flat_commands(lists, n);
        assert(out == before + last);
        assert forall|i: int| 0 <= i < out.len() - 1 implies (#[trigger] out[i]).index_range.end
            == out[i + 1].index_range.start by {
            if i + 1 < before.len() {
                assert(out[i] == before[i] && out[i + 1] == before[i + 1]);
            } else if i < before.len() {
                assert(out[i] == before.last() && out[i + 1] == last[0]);
            } else {
                assert(out[i] == last[i - before.len()] && out[i + 1] == last[i + 1
                    - before.len()]);
            }
        }
        if out.len() > 0 {
            if before.len() > 0 {
                assert(out[0] == before[0]);
            } else {
                assert(out[0] == last[0]);
            }
            if last.len() > 0 {
                assert(out.last() == last.last());
            } else {
                assert(out.last() == before.last());
            }
        }
    }
}

/// The spans of the draw lists partition the flat buffers in order: the first
/// starts at zero, each starts where the one before it ends, and the last
/// ends where the buffers end.
pub proof fn lemma_spans_partition(lists: Seq<DrawList>, k: int)
    requires
        fits(lists),
        0 <= k < lists.len(),
    ensures
        vertex_span(lists, 0).start == 0,
        index_span(lists, 0).start == 0,
        vertex_span(lists, k).start <= vertex_span(lists, k).end,
        index_span(lists, k).start <= index_span(lists, k).end,
        k + 1 < lists.len() ==> vertex_span(lists, k).end == vertex_span(lists, k + 1).start,
        k + 1 < lists.len() ==> index_span(lists, k).end == index_span(lists, k + 1).start,
        k + 1 == lists.len() ==> vertex_span(lists, k).end == flat_vertices(
            lists,
            lists.len() as int,
        ).len(),
        k + 1 == lists.len() ==> index_span(lists, k).end == flat_indices(
            lists,
            lists.len() as int,
        ).len(),
{
    lemma_counts_preserved(lists, lists.len() as int);
    lemma_vertex_total_monotone(lists, k, k + 1);
    lemma_index_total_monotone(lists, k, k + 1);
    lemma_vertex_total_monotone(lists, k + 1, lists.len() as int);
    lemma_index_total_monotone(lists, k + 1, lists.len() as int);
}

/// The span of a draw list holds that list's own vertices and indices, and
/// nothing else.
pub proof fn lemma_span_holds_list(lists: Seq<DrawList>, n: int, k: int)
    requires
        0 <= k < n <= lists.len(),
    ensures
        flat_vertices(lists, n).subrange(vertex_total(lists, k), vertex_total(lists, k + 1))
            == converted(lists[k].vtx_buffer@, lists[k].vtx_buffer@.len() as int),
        flat_indices(lists, n).subrange(index_total(lists, k), index_total(lists, k + 1))
            == lists[k].idx_buffer@,
    decreases n,
{
    lemma_counts_preserved(lists, n - 1);
    lemma_counts_preserved(lists, n);
    lemma_vertex_total_monotone(lists, 0, k);
    lemma_index_total_monotone(lists, 0, k);
    lemma_vertex_total_monotone(lists, k, k + 1);
    lemma_index_total_monotone(lists, k, k + 1);
    if k < n - 1 {
        lemma_vertex_total_monotone(lists, k + 1, n - 1);
        lemma_index_total_monotone(lists, k + 1, n - 1);
        lemma_span_holds_list(lists, n - 1, k);
        assert(flat_vertices(lists, n).subrange(
            vertex_total(lists, k),
            vertex_total(lists, k + 1),
        ) =~= flat_vertices(lists, n - 1).subrange(
            vertex_total(lists, k),
            vertex_total(lists, k + 1),
        ));
        assert(flat_indices(lists, n).subrange(index_total(lists, k), index_total(lists, k + 1))
            =~= flat_indices(lists, n - 1).subrange(
            index_total(lists, k),
            index_total(lists, k + 1),
        ));
    } else {
        assert(flat_vertices(lists, n).subrange(
            vertex_total(lists, k),
            vertex_total(lists, k + 1),
        ) =~= converted(lists[k].vtx_buffer@, lists[k].vtx_buffer@.len() as int));
        assert(flat_indices(lists, n).subrange(index_total(lists, k), index_total(lists, k + 1))
            =~= lists[k].idx_buffer@);
    }
}

/// Draw commands come out in the order of their draw lists: a later command
/// never has its vertices before those of an earlier one.
pub proof fn lemma_ranges_ordered(lists: Seq<DrawList>, n: int, i: int, j: int)
    requires
        0 <= n <= lists.len(),
        vertex_total(lists, n) <= u32::MAX,
        index_total(lists, n) <= u32::MAX,
        0 <= i <= j < flat_commands(lists, n).len(),
    ensures
        flat_commands(lists, n)[i].vertex_range.start <= flat_commands(
            lists,
            n,
        )[j].vertex_range.start,
    decreases n,
{
    lemma_vertex_total_monotone(lists, n - 1, n);
    lemma_index_total_monotone(lists, n - 1, n);
    lemma_vertex_total_monotone(lists, 0, n - 1);
    let cmds = lists[n - 1].cmd_buffer@;
    let before = flat_commands(lists, n - 1).len();
    lemma_list_order(
        cmds,
        cmds.len() as int,
        vertex_span(lists, n - 1),
        index_span(lists, n - 1),
        counts_match(lists[n - 1]),
    );
    if j < before {
        lemma_ranges_ordered(lists, n - 1, i, j);
    } else if i < before {
        lemma_ranges_valid(lists, n - 1, i);
        let c = flat_commands(lists, n - 1)[i];
        let k = choose|k: int|
            0 <= k < n - 1 && c.vertex_range == #[trigger] vertex_span(lists, k) && index_total(
                lists,
                k,
            ) <= c.index_range.start && c.index_range.end <= index_total(lists, k + 1);
        lemma_vertex_total_monotone(lists, k, n - 1);
        lemma_vertex_total_monotone(lists, 0, k);
    }
}

} // verus!
