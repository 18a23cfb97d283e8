//! The render pass of the GUI: its description, and the state that prepares
//! and draws one frame after another.

use crate::assembler::{
    assemble, flat_callbacks, flat_commands, flat_indices, flat_vertices, refusal, AssembleError,
};
use crate::buffers::{extended, DynamicBuffer, WriteAction};
use crate::constant::{ImguiPushConstant, MINUS_ONE, ONE, ZERO};
use crate::draw_data::{CallbackRef, DrawCmdOps, DrawList, ImguiArgs, TextureId};
use crate::encoder::{draw_actions, encode, DrawAction};
use crate::textures::{Registration, TextureTracker};
use vstd::prelude::*;

verus! {

/// Description of the GUI render pass.
#[derive(Clone, Copy, Debug, PartialEq, Eq, Structural)]
pub struct DrawImguiDesc;

impl Default for DrawImguiDesc {
    fn default() -> (out: Self)
        ensures
            out == DrawImguiDesc,
    {
        DrawImguiDesc
    }
}

/// Where the pass stands in the life of a frame.
#[derive(Clone, Copy, Debug, PartialEq, Eq, Structural)]
pub enum Phase {
    /// Nothing is prepared.
    Idle,
    /// A frame is prepared and has commands to draw.
    Recording,
    /// The prepared frame was drawn and its commands are gone.
    Flushed,
}

/// Whether a prepared frame has anything to draw.
#[derive(Clone, Copy, Debug, PartialEq, Eq, Structural)]
pub enum PrepareResult {
    /// There are commands to record.
    DrawRecord,
    /// There is nothing to draw.
    Empty,
}

/// What a prepared frame hands to the caller: the data to upload into the
/// frame's slot, what to do with the slot's storage first, and the raw
/// callbacks to invoke.
#[derive(Debug)]
pub struct Prepared {
    pub result: PrepareResult,
    pub vertices: Vec<ImguiArgs>,
    pub indices: Vec<u16>,
    pub callbacks: Vec<CallbackRef>,
    pub vertex_action: WriteAction,
    pub index_action: WriteAction,
}

/// One step of the teardown of the pass.
#[derive(Clone, Copy, Debug, PartialEq, Eq, Structural)]
pub enum DisposeAction {
    DestroyPipeline,
    DestroyPipelineLayout,
}

/// The state of the GUI render pass.
#[derive(Debug)]
pub struct DrawImgui {
    vertex: DynamicBuffer,
    index: DynamicBuffer,
    textures: TextureTracker,
    commands: Vec<DrawCmdOps>,
    constant: ImguiPushConstant,
    phase: Phase,
}

/// The action that a write of `count` elements into a slot of capacity
/// `capacity` asks for.
pub open spec fn write_action(capacity: u64, count: u64) -> WriteAction {
    if count > capacity {
        WriteAction::Grow(count)
    } else {
        WriteAction::Reuse
    }
}

/// The capacity of a slot of capacity `capacity` after a write of `count`
/// elements.
pub open spec fn grown(capacity: u64, count: u64) -> u64 {
    if count > capacity {
        count
    } else {
        capacity
    }
}

impl DrawImguiDesc {
    /// Create the description of the GUI render pass.
    pub fn new() -> (out: Self)
        ensures
            out == DrawImguiDesc,
    {
        DrawImguiDesc
    }

    /// The state of the pass at its start, for `frames_in_flight` frame
    /// slots: idle, without commands or textures, with empty storage.
    pub fn build(self, frames_in_flight: usize) -> (pass: DrawImgui)
        ensures
            pass.wf(),
            pass.phase() == Phase::Idle,
            pass.commands() == Seq::<DrawCmdOps>::empty(),
            pass.constant().words() == seq![ONE, ONE, ZERO, ZERO],
            pass.textures().refs() == Seq::<u32>::empty(),
            pass.vertex().capacities() == Seq::new(frames_in_flight as nat, |i: int| 0u64),
            pass.vertex().lengths() == Seq::new(frames_in_flight as nat, |i: int| 0u64),
            pass.index().capacities() == Seq::new(frames_in_flight as nat, |i: int| 0u64),
            pass.index().lengths() == Seq::new(frames_in_flight as nat, |i: int| 0u64),
    {
        DrawImgui {
            vertex: DynamicBuffer::new(frames_in_flight),
            index: DynamicBuffer::new(frames_in_flight),
            textures: TextureTracker::new(),
            commands: Vec::new(),
            constant: ImguiPushConstant::default(),
            phase: Phase::Idle,
        }
    }
}

impl DrawImgui {
    /// The draw commands waiting to be drawn, in draw order.
    pub closed spec fn commands(&self) -> Seq<DrawCmdOps> {
        self.commands@
    }

    /// The phase of the pass.
    pub closed spec fn phase(&self) -> Phase {
        self.phase
    }

    /// The transform of the frame last prepared.
    pub closed spec fn constant(&self) -> ImguiPushConstant {
        self.constant
    }

    /// The texture tracker of the pass.
    pub closed spec fn textures(&self) -> &TextureTracker {
        &self.textures
    }

    /// The vertex storage of the pass.
    pub closed spec fn vertex(&self) -> &DynamicBuffer {
        &self.vertex
    }

    /// The index storage of the pass.
    pub closed spec fn index(&self) -> &DynamicBuffer {
        &self.index
    }

    /// The parts are well formed, both kinds of storage have the same slots,
    /// and the pass is recording exactly when commands are waiting.
    pub open spec fn wf(&self) -> bool {
        &&& self.vertex().wf()
        &&& self.index().wf()
        &&& self.textures().wf()
        &&& self.vertex().capacities().len() == self.index().capacities().len()
        &&& (self.phase() == Phase::Recording <==> self.commands().len() > 0)
    }

    /// The phase of the pass.
    pub fn current_phase(&self) -> (out: Phase)
        ensures
            out == self.phase(),
    {
        self.phase
    }

    /// The transform of the frame last prepared.
    pub fn push_constant(&self) -> (out: ImguiPushConstant)
        ensures
            out == self.constant(),
    {
        self.constant
    }

    /// Number of draw commands waiting to be drawn.
    pub fn command_count(&self) -> (n: usize)
        ensures
            n == self.commands().len(),
    {
        self.commands.len()
    }

    /// The draw commands waiting to be drawn, in draw order.
    pub fn waiting_commands(&self) -> (out: &Vec<DrawCmdOps>)
        ensures
            out@ == self.commands(),
    {
        &self.commands
    }

    /// Number of frame slots.
    pub fn frames_in_flight(&self) -> (n: usize)
        requires
            self.wf(),
        ensures
            n == self.vertex().capacities().len(),
            n == self.index().capacities().len(),
    {
        self.vertex.slots()
    }

    /// Capacity of the vertex storage of frame slot `index`, in vertices.
    pub fn vertex_capacity(&self, index: usize) -> (out: u64)
        requires
            self.wf(),
            index < self.vertex().capacities().len(),
        ensures
            out == self.vertex().capacities()[index as int],
    {
        self.vertex.capacity(index)
    }

    /// Capacity of the index storage of frame slot `index`, in indices.
    pub fn index_capacity(&self, index: usize) -> (out: u64)
        requires
            self.wf(),
            index < self.index().capacities().len(),
        ensures
            out == self.index().capacities()[index as int],
    {
        self.index.capacity(index)
    }

    /// The texture tracker of the pass.
    pub fn tracker(&self) -> (out: &TextureTracker)
        ensures
            out == self.textures(),
    {
        &self.textures
    }

    /// Makes sure that the pass has at least `slots` frame slots: empty
    /// slots are added, and nothing else changes.
    pub fn ensure_slots(&mut self, slots: usize)
        requires
            old(self).wf(),
        ensures
            final(self).wf(),
            final(self).commands() == old(self).commands(),
            final(self).phase() == old(self).phase(),
            final(self).constant() == old(self).constant(),
            final(self).textures() == old(self).textures(),
            final(self).vertex().capacities() == extended(
                old(self).vertex().capacities(),
                slots as int,
            ),
            final(self).vertex().lengths() == extended(old(self).vertex().lengths(), slots as int),
            final(self).index().capacities() == extended(
                old(self).index().capacities(),
                slots as int,
            ),
            final(self).index().lengths() == extended(old(self).index().lengths(), slots as int),
    {
        self.vertex.ensure_slots(slots);
        self.index.ensure_slots(slots);
    }

    /// Registers a texture reference with the pass's tracker.
    pub fn register_texture(&mut self, r: u32) -> (out: Option<Registration>)
        requires
            old(self).wf(),
        ensures
            final(self).wf(),
            final(self).commands() == old(self).commands(),
            final(self).phase() == old(self).phase(),
            final(self).constant() == old(self).constant(),
            final(self).vertex() == old(self).vertex(),
            final(self).index() == old(self).index(),
            out is Some <==> (old(self).textures().refs().contains(r) || old(
                self,
            ).textures().refs().len() < u32::MAX),
            out is None ==> final(self).textures() == old(self).textures(),
            out matches Some(reg) ==> {
                &&& reg.id.0 == crate::textures::id_after(old(self).textures().refs(), r)
                &&& reg.upload == !old(self).textures().refs().contains(r)
                &&& final(self).textures().refs() == crate::textures::refs_after(
                    old(self).textures().refs(),
                    r,
                )
                &&& final(self).textures().ready() == crate::textures::ready_after(
                    old(self).textures().refs(),
                    old(self).textures().ready(),
                    r,
                )
            },
    {
        self.textures.register(r)
    }

    /// Whether texture `id` can be drawn with.
    pub fn texture_ready(&self, id: TextureId) -> (out: bool)
        requires
            self.wf(),
        ensures
            out == self.textures().is_ready_spec(id),
    {
        self.textures.is_ready(id)
    }

    /// Prepares a frame for frame slot `index`, whenever the totals of the
    /// draw lists fit 32 bits: flattens the draw lists, sets the frame's
    /// transform from `scale`, which is two over the display size as bit
    /// patterns, adds the draw commands to those waiting, sizes the slot's
    /// vertex and index storage for the flat buffers, and takes the
    /// registered textures among `loaded` for ready and no other. Where the
    /// draw lists are refused nothing changes. The raw callbacks of the
    /// frame are reported by their place: the caller is to invoke them in
    /// that order, with the list and the command at that place, before it
    /// uploads the flat buffers and before the frame is drawn.
    pub fn prepare(
        &mut self,
        lists: &Vec<DrawList>,
        index: usize,
        scale: (u32, u32),
        loaded: &Vec<TextureId>,
    ) -> (out: Result<Prepared, AssembleError>)
        requires
            old(self).wf(),
            index < old(self).vertex().capacities().len(),
        ensures
            final(self).wf(),
            out is Ok <==> refusal(lists@) is None,
            out matches Err(e) ==> *final(self) == *old(self) && refusal(lists@) == Some(e),
            out matches Ok(p) ==> {
                let n = lists@.len() as int;
                let v = flat_vertices(lists@, n).len() as u64;
                let i = flat_indices(lists@, n).len() as u64;
                &&& p.vertices@ == flat_vertices(lists@, n)
                &&& p.indices@ == flat_indices(lists@, n)
                &&& p.vertices@.len() == crate::assembler::vertex_total(lists@, n)
                &&& p.indices@.len() == crate::assembler::index_total(lists@, n)
                &&& p.callbacks@ == flat_callbacks(lists@, n)
                &&& final(self).constant().words() == seq![scale.0, scale.1, MINUS_ONE, MINUS_ONE]
                &&& final(self).commands() == old(self).commands() + flat_commands(lists@, n)
                &&& p.result == if final(self).commands().len() > 0 {
                    PrepareResult::DrawRecord
                } else {
                    PrepareResult::Empty
                }
                &&& final(self).phase() == if final(self).commands().len() > 0 {
                    Phase::Recording
                } else {
                    Phase::Idle
                }
                &&& p.vertex_action == write_action(old(self).vertex().capacities()[index as int], v)
                &&& p.index_action == write_action(old(self).index().capacities()[index as int], i)
                &&& final(self).vertex().lengths() == old(self).vertex().lengths().update(
                    index as int,
                    v,
                )
                &&& final(self).index().lengths() == old(self).index().lengths().update(
                    index as int,
                    i,
                )
                &&& final(self).vertex().capacities() == old(self).vertex().capacities().update(
                    index as int,
                    grown(old(self).vertex().capacities()[index as int], v),
                )
                &&& final(self).index().capacities() == old(self).index().capacities().update(
                    index as int,
                    grown(old(self).index().capacities()[index as int], i),
                )
                &&& final(self).textures().refs() == old(self).textures().refs()
                &&& forall|id: TextureId| #[trigger]
                    final(self).textures().is_ready_spec(id) == (id.0 < old(
                        self,
                    ).textures().refs().len() && loaded@.contains(id))
            },
    {
        let assembled = match assemble(lists) {
            Ok(a) => a,
            Err(e) => {
                return Err(e);
            },
        };
        self.constant.set_frame(scale);
        let mut new_commands = assembled.commands;
        self.commands.append(&mut new_commands);
        let vertex_action = self.vertex.write(index, assembled.vertices.len() as u64);
        let index_action = self.index.write(index, assembled.indices.len() as u64);
        self.textures.maintain(loaded);
        let result = if self.commands.len() > 0 {
            self.phase = Phase::Recording;
            PrepareResult::DrawRecord
        } else {
            self.phase = Phase::Idle;
            PrepareResult::Empty
        };
        Ok(
            Prepared {
                result,
                vertices: assembled.vertices,
                indices: assembled.indices,
                callbacks: assembled.callbacks,
                vertex_action,
                index_action,
            },
        )
    }

    /// Draws the prepared frame from frame slot `index`: gives the
    /// submissions of the waiting commands, in order, and clears the
    /// commands, also where there were none.
    pub fn draw_inline(&mut self, index: usize) -> (actions: Vec<DrawAction>)
        requires
            old(self).wf(),
        ensures
            final(self).wf(),
            actions@ == draw_actions(
                old(self).commands(),
                old(self).textures(),
                index,
                old(self).constant(),
            ),
            final(self).constant() == old(self).constant(),
            final(self).commands() == Seq::<DrawCmdOps>::empty(),
            final(self).phase() == Phase::Flushed,
            final(self).textures() == old(self).textures(),
            final(self).vertex() == old(self).vertex(),
            final(self).index() == old(self).index(),
    {
        let actions = encode(&self.commands, &self.textures, index, self.constant);
        self.commands.clear();
        self.phase = Phase::Flushed;
        actions
    }

    /// Ends the pass: the pipeline is destroyed, then its layout, each once.
    pub fn dispose(self) -> (actions: [DisposeAction; 2])
        ensures
            actions@ == seq![DisposeAction::DestroyPipeline, DisposeAction::DestroyPipelineLayout],
    {
        let actions = [DisposeAction::DestroyPipeline, DisposeAction::DestroyPipelineLayout];
        assert(actions@ =~= seq![
            DisposeAction::DestroyPipeline,
            DisposeAction::DestroyPipelineLayout,
        ]);
        actions
    }
}

} // verus!
