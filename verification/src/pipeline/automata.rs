//! The simulation stage: its buffers, its pipelines, its bind group and its state machine.

use vstd::prelude::*;
use crate::cell::{cell_words, Cell};
use crate::grid::{ConfigError, GridDimensions};
use crate::input::AutomataParams;
use crate::pipeline::{
    dispatch, dispatch_over, CompilationError, CompileStatus, Dispatch, EntryPoint, LayoutEntry,
    PipelineDescriptor, Resource, ShaderProgram, TexelFormat, GRID_SIZE_BYTES,
};
use crate::utils::{
    create_storage_buffer_with_data, create_uniform_buffer, native_image, BufferInit, BufferUsage,
};

verus! {

/// Position of the storage buffer that is read on frame `frame`: 0 on even frames, 1 on odd.
pub open spec fn input_slot(frame: nat) -> int {
    (frame % 2) as int
}

/// Position of the storage buffer that is written on frame `frame`: the other one.
pub open spec fn output_slot(frame: nat) -> int {
    1 - (frame % 2) as int
}

/// The frame counter after one advance; it wraps to zero from the largest value.
pub open spec fn next_frame(frame: usize) -> usize {
    if frame == usize::MAX {
        0
    } else {
        (frame + 1) as usize
    }
}

/// The roles of the two storage buffers repeat every two frames and swap every frame.
pub proof fn lemma_select_alternates(frame: nat)
    ensures
        input_slot(frame + 2) == input_slot(frame),
        output_slot(frame + 2) == output_slot(frame),
        input_slot(frame + 1) == output_slot(frame),
        output_slot(frame + 1) == input_slot(frame),
        input_slot(frame) != output_slot(frame),
        0 <= input_slot(frame) <= 1,
        0 <= output_slot(frame) <= 1,
{
}

/// An advance of the frame counter swaps the roles of the buffers, also where it wraps.
pub proof fn lemma_next_frame_swaps(frame: usize)
    ensures
        input_slot(next_frame(frame) as nat) == output_slot(frame as nat),
        output_slot(next_frame(frame) as nat) == input_slot(frame as nat),
{
    assert(usize::MAX == 0xffff_ffff || usize::MAX == 0xffff_ffff_ffff_ffff) by {
        assert(usize::BITS == 32 || usize::BITS == 64);
    }
}

/// What the device may do with a texture.
#[derive(Clone, Copy, Debug, PartialEq, Eq, Structural)]
pub struct ImageUsage {
    /// Data may be copied into it.
    pub copy_dst: bool,
    /// Compute programs may read and write it as a storage image.
    pub storage_binding: bool,
    /// It may be sampled when the screen is drawn.
    pub texture_binding: bool,
}

/// The two-dimensional texture that the colouring stage writes and the screen shows, one
/// texel per cell, every texel filled with `fill` at creation.
#[derive(Clone, Copy, Debug, PartialEq, Eq)]
pub struct GameOfLifeImage {
    pub width: u32,
    pub height: u32,
    pub fill: (u8, u8, u8, u8),
    pub format: TexelFormat,
    pub usage: ImageUsage,
}

impl GameOfLifeImage {
    /// The display texture of a grid: opaque black, writable by the colouring stage.
    pub open spec fn for_grid(width: u32, height: u32) -> GameOfLifeImage {
        GameOfLifeImage {
            width,
            height,
            fill: (0u8, 0u8, 0u8, 255u8),
            format: TexelFormat::Rgba8Unorm,
            usage: ImageUsage { copy_dst: true, storage_binding: true, texture_binding: true },
        }
    }

    /// Describes the display texture of a grid.
    pub fn new(width: u32, height: u32) -> (r: GameOfLifeImage)
        ensures
            r == GameOfLifeImage::for_grid(width, height),
    {
        GameOfLifeImage {
            width,
            height,
            fill: (0, 0, 0, 255),
            format: TexelFormat::Rgba8Unorm,
            usage: ImageUsage { copy_dst: true, storage_binding: true, texture_binding: true },
        }
    }
}

/// Label of the simulation stage's bind-group layout.
pub const AUTOMATA_LAYOUT_LABEL: &'static str = "GameOfLifeImages Bind Group Layout";

/// Label of the simulation stage's bind group.
pub const AUTOMATA_BIND_GROUP_LABEL: &'static str = "Automata Bind Group 0";

/// The uniform buffer with the grid's size and the two storage buffers, as created.
#[derive(Debug)]
pub struct GameOfLifeBuffers {
    pub size: BufferInit,
    pub in_out: Vec<BufferInit>,
}

impl GameOfLifeBuffers {
    /// There are exactly two storage buffers, of one size.
    pub open spec fn wf(&self) -> bool {
        &&& self.in_out@.len() == 2
        &&& self.in_out@[0].contents@.len() == self.in_out@[1].contents@.len()
    }

    /// Describes the three buffers of a grid that starts out holding `cells`.
    ///
    /// Dimensions that are not aligned are refused, then a run of cells shorter than the
    /// grid. Both storage buffers start with the same contents.
    pub fn new(dims: &GridDimensions, cells: &[Cell]) -> (r: Result<GameOfLifeBuffers, ConfigError>)
        ensures
            !dims.wf() ==> r == Err::<GameOfLifeBuffers, ConfigError>(ConfigError::Misaligned),
            dims.wf() && cells@.len() < dims.cells() ==> r == Err::<GameOfLifeBuffers, ConfigError>(
                ConfigError::BufferTooSmall,
            ),
            dims.wf() && cells@.len() >= dims.cells() ==> r is Ok && {
                let b = r->Ok_0;
                &&& b.wf()
                &&& b.size.usage == BufferUsage::Uniform
                &&& native_image(seq![dims.width, dims.height], b.size.contents@)
                &&& b.size.contents@.len() == GRID_SIZE_BYTES
                &&& b.size.label matches Some(l) && l@ == "Size Uniform Buffer"@
                &&& b.in_out@[0].label matches Some(l) && l@ == "Game of Life Buffer 0"@
                &&& b.in_out@[1].label matches Some(l) && l@ == "Game of Life Buffer 1"@
                &&& forall|i: int|
                    0 <= i < 2 ==> {
                        &&& (#[trigger] b.in_out@[i]).usage == BufferUsage::Storage
                        &&& native_image(cell_words(cells@), b.in_out@[i].contents@)
                        &&& b.in_out@[i].contents@.len() == 20 * cells@.len()
                        &&& b.in_out@[i].contents@.len() >= dims.storage_bytes()
                    }
            },
    {
        if !dims.is_aligned() {
            return Err(ConfigError::Misaligned);
        }
        if (cells.len() as u64) < dims.cell_count() {
            return Err(ConfigError::BufferTooSmall);
        }
        let mut size_data: Vec<u32> = Vec::new();
        size_data.push(dims.width);
        size_data.push(dims.height);
        assert(size_data@ =~= seq![dims.width, dims.height]);
        let size = create_uniform_buffer(size_data.as_slice(), Some("Size Uniform Buffer"));
        let mut in_out: Vec<BufferInit> = Vec::new();
        in_out.push(create_storage_buffer_with_data(cells, Some("Game of Life Buffer 0")));
        in_out.push(create_storage_buffer_with_data(cells, Some("Game of Life Buffer 1")));
        assert(20 * cells@.len() >= dims.cells() * 20) by (nonlinear_arith)
            requires
                cells@.len() >= dims.cells(),
        ;
        Ok(GameOfLifeBuffers { size, in_out })
    }

    /// The positions of the buffers to read and to write on frame `frame`.
    pub fn roles(frame: usize) -> (r: (usize, usize))
        ensures
            r.0 == input_slot(frame as nat),
            r.1 == output_slot(frame as nat),
    {
        if frame % 2 == 0 {
            (0, 1)
        } else {
            (1, 0)
        }
    }

    /// The buffer to read and the buffer to write on frame `frame`.
    pub fn select(&self, frame: usize) -> (r: (&BufferInit, &BufferInit))
        requires
            self.wf(),
        ensures
            *r.0 == self.in_out@[input_slot(frame as nat)],
            *r.1 == self.in_out@[output_slot(frame as nat)],
    {
        if frame % 2 == 0 {
            (&self.in_out[0], &self.in_out[1])
        } else {
            (&self.in_out[1], &self.in_out[0])
        }
    }
}

/// The layout of the simulation stage's bind group: the grid's size, the buffer to read,
/// the buffer to write.
pub open spec fn automata_layout(dims: GridDimensions) -> Seq<LayoutEntry> {
    seq![
        LayoutEntry::uniform_at(0, GRID_SIZE_BYTES),
        LayoutEntry::storage_at(1, dims.storage_bytes() as u64),
        LayoutEntry::storage_at(2, dims.storage_bytes() as u64),
    ]
}

/// The bind-group layout of the simulation stage and its two pipelines.
#[derive(Debug)]
pub struct GameOfLifePipeline {
    pub texture_bind_group_layout: Vec<LayoutEntry>,
    pub init_pipeline: PipelineDescriptor,
    pub update_pipeline: PipelineDescriptor,
}

impl GameOfLifePipeline {
    /// Describes the layout and the pipelines of the simulation stage for a grid.
    pub fn new(dims: &GridDimensions) -> (r: GameOfLifePipeline)
        requires
            dims.storage_bytes() <= u64::MAX,
        ensures
            r.texture_bind_group_layout@ == automata_layout(*dims),
            r.init_pipeline == (PipelineDescriptor {
                label: None,
                program: ShaderProgram::Automaton,
                entry_point: EntryPoint::Init,
            }),
            r.update_pipeline == (PipelineDescriptor {
                label: None,
                program: ShaderProgram::Automaton,
                entry_point: EntryPoint::Update,
            }),
    {
        let cells = dims.min_storage_binding_size();
        let mut layout: Vec<LayoutEntry> = Vec::new();
        layout.push(LayoutEntry::uniform(0, GRID_SIZE_BYTES));
        layout.push(LayoutEntry::storage(1, cells));
        layout.push(LayoutEntry::storage(2, cells));
        assert(layout@ =~= automata_layout(*dims));
        GameOfLifePipeline {
            texture_bind_group_layout: layout,
            init_pipeline: PipelineDescriptor {
                label: None,
                program: ShaderProgram::Automaton,
                entry_point: EntryPoint::Init,
            },
            update_pipeline: PipelineDescriptor {
                label: None,
                program: ShaderProgram::Automaton,
                entry_point: EntryPoint::Update,
            },
        }
    }
}

/// The bind group of the simulation stage on one frame, in binding order.
#[derive(Clone, Copy, Debug, PartialEq, Eq, Structural)]
pub struct GameOfLifeImageBindGroup {
    pub size: Resource,
    pub input: Resource,
    pub output: Resource,
}

impl GameOfLifeImageBindGroup {
    /// The bind group for frame `frame`.
    pub open spec fn for_frame(frame: usize) -> GameOfLifeImageBindGroup {
        GameOfLifeImageBindGroup {
            size: Resource::GridSize,
            input: Resource::CellBuffer(input_slot(frame as nat) as usize),
            output: Resource::CellBuffer(output_slot(frame as nat) as usize),
        }
    }

    /// The resources at bindings 0, 1 and 2.
    pub open spec fn entries(self) -> Seq<Resource> {
        seq![self.size, self.input, self.output]
    }
}

/// Builds the simulation stage's bind group for the current frame: the buffers swap roles
/// with the parity of the frame counter.
pub fn prepare_automata_bind_group(params: &AutomataParams) -> (r: GameOfLifeImageBindGroup)
    ensures
        r == GameOfLifeImageBindGroup::for_frame(params.frame),
        r.entries() == seq![
            Resource::GridSize,
            Resource::CellBuffer(input_slot(params.frame as nat) as usize),
            Resource::CellBuffer(output_slot(params.frame as nat) as usize),
        ],
{
    let (input, output) = GameOfLifeBuffers::roles(params.frame);
    GameOfLifeImageBindGroup {
        size: Resource::GridSize,
        input: Resource::CellBuffer(input),
        output: Resource::CellBuffer(output),
    }
}

/// Where the simulation stage stands.
#[derive(Clone, Copy, Debug, PartialEq, Eq, Structural)]
pub enum GameOfLifeState {
    /// Waiting for the `init` pipeline.
    Loading,
    /// Seeding the grid and waiting for the `update` pipeline.
    Init,
    /// Steady state: advancing the grid.
    Update,
}

impl GameOfLifeState {
    /// The position of the state in the one order in which states are visited.
    pub open spec fn rank(self) -> nat {
        match self {
            GameOfLifeState::Loading => 0,
            GameOfLifeState::Init => 1,
            GameOfLifeState::Update => 2,
        }
    }

    /// The failure that a poll brings to light, if any: the pipeline that the stage waits
    /// for did not build. Nothing can go on after it.
    pub open spec fn failure(
        self,
        init_status: CompileStatus,
        update_status: CompileStatus,
    ) -> Option<CompilationError> {
        if self == GameOfLifeState::Loading && init_status == CompileStatus::Failed {
            Some(
                CompilationError {
                    program: ShaderProgram::Automaton,
                    entry_point: EntryPoint::Init,
                },
            )
        } else if self == GameOfLifeState::Init && update_status == CompileStatus::Failed {
            Some(
                CompilationError {
                    program: ShaderProgram::Automaton,
                    entry_point: EntryPoint::Update,
                },
            )
        } else {
            None
        }
    }

    /// Whether a poll ends everything.
    pub open spec fn fatal(self, init_status: CompileStatus, update_status: CompileStatus) -> bool {
        self.failure(init_status, update_status) is Some
    }

    /// The state after one poll of the two pipelines.
    pub open spec fn next(
        self,
        init_status: CompileStatus,
        update_status: CompileStatus,
    ) -> GameOfLifeState {
        match self {
            GameOfLifeState::Loading => if init_status == CompileStatus::Ready {
                GameOfLifeState::Init
            } else {
                GameOfLifeState::Loading
            },
            GameOfLifeState::Init => if update_status == CompileStatus::Ready {
                GameOfLifeState::Update
            } else {
                GameOfLifeState::Init
            },
            GameOfLifeState::Update => GameOfLifeState::Update,
        }
    }
}

/// The state reached from `start` after a run of polls, each a pair of what the `init`
/// and the `update` pipeline returned.
pub open spec fn state_after(
    start: GameOfLifeState,
    polls: Seq<(CompileStatus, CompileStatus)>,
) -> GameOfLifeState
    decreases polls.len(),
{
    if polls.len() == 0 {
        start
    } else {
        state_after(start, polls.drop_last()).next(polls.last().0, polls.last().1)
    }
}

/// One poll keeps the state or moves it to the next one in order.
pub proof fn lemma_next_moves_forward(
    state: GameOfLifeState,
    init_status: CompileStatus,
    update_status: CompileStatus,
)
    ensures
        state.rank() <= state.next(init_status, update_status).rank() <= state.rank() + 1,
        state == GameOfLifeState::Update ==> state.next(init_status, update_status)
            == GameOfLifeState::Update,
{
}

/// The states are visited in order: whatever is polled, the state after the first `j`
/// polls is never an earlier one than the state after the first `i <= j` polls.
pub proof fn lemma_states_in_order(
    start: GameOfLifeState,
    polls: Seq<(CompileStatus, CompileStatus)>,
    i: int,
    j: int,
)
    requires
        0 <= i <= j <= polls.len(),
    ensures
        state_after(start, polls.take(i)).rank() <= state_after(start, polls.take(j)).rank(),
    decreases j - i,
{
    if i < j {
        lemma_states_in_order(start, polls, i, j - 1);
        assert(polls.take(j).drop_last() =~= polls.take(j - 1));
    }
}

/// No state is visited twice: where the states after `i` and after `j` polls are the same,
/// so is every state in between.
pub proof fn lemma_no_state_revisited(
    start: GameOfLifeState,
    polls: Seq<(CompileStatus, CompileStatus)>,
    i: int,
    m: int,
    j: int,
)
    requires
        0 <= i <= m <= j <= polls.len(),
        state_after(start, polls.take(i)) == state_after(start, polls.take(j)),
    ensures
        state_after(start, polls.take(m)) == state_after(start, polls.take(i)),
{
    lemma_states_in_order(start, polls, i, m);
    lemma_states_in_order(start, polls, m, j);
}

/// The counters after the state-advance of a frame that began in `state`: in the steady
/// state a positive step budget advances the frame counter.
pub open spec fn advanced(state: GameOfLifeState, params: AutomataParams) -> AutomataParams {
    if state == GameOfLifeState::Update && params.frame_queue_count > 0 {
        AutomataParams { frame: next_frame(params.frame), ..params }
    } else {
        params
    }
}

/// Whether the simulation stage sits a frame out: paused, with no step asked for.
pub open spec fn gated(params: AutomataParams) -> bool {
    params.is_paused && params.frame_queue_count == 0
}

/// The entry point that the simulation stage dispatches on a frame, if any.
///
/// Nothing is dispatched on a frame that the stage sits out, nor while loading. The grid is
/// seeded once: `init` runs on the first frame in `Init` that is not sat out, and never
/// again. In the steady state `update` runs.
pub open spec fn dispatched_entry(node: GameOfLifeNode, params: AutomataParams) -> Option<
    EntryPoint,
> {
    if gated(params) {
        None
    } else {
        match node.state {
            GameOfLifeState::Loading => None,
            GameOfLifeState::Init => if node.seeded {
                None
            } else {
                Some(EntryPoint::Init)
            },
            GameOfLifeState::Update => Some(EntryPoint::Update),
        }
    }
}

/// What the simulation stage dispatches on a frame, if anything: its entry point over the
/// whole grid.
pub open spec fn planned_dispatch(
    node: GameOfLifeNode,
    params: AutomataParams,
    dims: GridDimensions,
) -> Option<Dispatch> {
    match dispatched_entry(node, params) {
        Some(entry_point) => Some(dispatch_over(entry_point, dims)),
        None => None,
    }
}

/// The counters after the run of a frame: a frame in which something is dispatched takes
/// one step off a positive budget; any other frame leaves the budget alone.
pub open spec fn consumed(node: GameOfLifeNode, params: AutomataParams) -> AutomataParams {
    if dispatched_entry(node, params) is Some && params.frame_queue_count > 0 {
        AutomataParams { frame_queue_count: (params.frame_queue_count - 1) as usize, ..params }
    } else {
        params
    }
}

/// The stage after the run of a frame: it remembers that the grid was seeded.
pub open spec fn after_run(node: GameOfLifeNode, params: AutomataParams) -> GameOfLifeNode {
    GameOfLifeNode {
        state: node.state,
        seeded: node.seeded || dispatched_entry(node, params) == Some(EntryPoint::Init),
    }
}

/// The grid is seeded once: the run that dispatches `init` remembers it, every run and every
/// state-advance keeps what is remembered, and a stage that has seeded the grid never
/// dispatches `init` again, whatever its state and the counters.
pub proof fn lemma_seeded_once(
    node: GameOfLifeNode,
    params: AutomataParams,
    init_status: CompileStatus,
    update_status: CompileStatus,
    later: AutomataParams,
)
    ensures
        dispatched_entry(node, params) == Some(EntryPoint::Init) ==> after_run(node, params).seeded,
        node.seeded ==> after_run(node, params).seeded,
        node.seeded ==> dispatched_entry(
            GameOfLifeNode { state: node.state.next(init_status, update_status), ..node },
            later,
        ) != Some(EntryPoint::Init),
        node.seeded ==> dispatched_entry(node, later) != Some(EntryPoint::Init),
{
}

/// The step budget falls only on a frame in which something is dispatched, and then by
/// one; it never falls below zero.
pub proof fn lemma_budget_follows_dispatch(node: GameOfLifeNode, params: AutomataParams)
    ensures
        dispatched_entry(node, params) is None ==> consumed(node, params) == params,
        dispatched_entry(node, params) is Some && params.frame_queue_count > 0 ==> consumed(
            node,
            params,
        ).frame_queue_count == params.frame_queue_count - 1,
        consumed(node, params).frame_queue_count <= params.frame_queue_count,
        consumed(node, params).frame == params.frame,
        consumed(node, params).is_paused == params.is_paused,
{
}

/// The simulation stage: where it stands, and whether it has seeded the grid.
#[derive(Clone, Copy, Debug, PartialEq, Eq, Structural)]
pub struct GameOfLifeNode {
    pub state: GameOfLifeState,
    pub seeded: bool,
}

impl Default for GameOfLifeNode {
    /// A stage that waits for its first pipeline and has seeded nothing.
    fn default() -> (r: GameOfLifeNode)
        ensures
            r == (GameOfLifeNode { state: GameOfLifeState::Loading, seeded: false }),
    {
        GameOfLifeNode { state: GameOfLifeState::Loading, seeded: false }
    }
}

impl GameOfLifeNode {
    /// The failure that a poll of the two pipelines brings to light, if any: the pipeline
    /// that the stage waits for did not build. The caller must stop on it.
    pub fn failure(&self, init_status: CompileStatus, update_status: CompileStatus) -> (r: Option<
        CompilationError,
    >)
        ensures
            r == self.state.failure(init_status, update_status),
    {
        match (self.state, init_status, update_status) {
            (GameOfLifeState::Loading, CompileStatus::Failed, _) => Some(
                CompilationError {
                    program: ShaderProgram::Automaton,
                    entry_point: EntryPoint::Init,
                },
            ),
            (GameOfLifeState::Init, _, CompileStatus::Failed) => Some(
                CompilationError {
                    program: ShaderProgram::Automaton,
                    entry_point: EntryPoint::Update,
                },
            ),
            _ => None,
        }
    }

    /// The state-advance of one frame, given what polling the two pipelines returned.
    ///
    /// The state moves on when the awaited pipeline is ready, and a stage that was already
    /// in the steady state advances the frame counter if a step is asked for. A poll that
    /// shows the awaited pipeline failed is not taken: see `failure`.
    pub fn update(
        &mut self,
        init_status: CompileStatus,
        update_status: CompileStatus,
        params: &mut AutomataParams,
    )
        requires
            !old(self).state.fatal(init_status, update_status),
        ensures
            final(self).state == old(self).state.next(init_status, update_status),
            final(self).seeded == old(self).seeded,
            *final(params) == advanced(old(self).state, *old(params)),
    {
        match self.state {
            GameOfLifeState::Loading => {
                if let CompileStatus::Ready = init_status {
                    self.state = GameOfLifeState::Init;
                }
            },
            GameOfLifeState::Init => {
                if let CompileStatus::Ready = update_status {
                    self.state = GameOfLifeState::Update;
                }
            },
            GameOfLifeState::Update => {
                if params.frame_queue_count > 0 {
                    params.frame = params.frame.wrapping_add(1);
                }
            },
        }
    }

    /// Whether the stage sits the frame out: paused, with no step asked for.
    pub fn sits_out(params: &AutomataParams) -> (r: bool)
        ensures
            r == gated(*params),
    {
        params.is_paused && params.frame_queue_count == 0
    }

    /// The run of one frame: says what to dispatch, takes one step off the budget if
    /// something is dispatched, and remembers a seeding.
    pub fn run(&mut self, params: &mut AutomataParams, dims: &GridDimensions) -> (r: Option<
        Dispatch,
    >)
        ensures
            r == planned_dispatch(*old(self), *old(params), *dims),
            *final(params) == consumed(*old(self), *old(params)),
            *final(self) == after_run(*old(self), *old(params)),
    {
        if GameOfLifeNode::sits_out(params) {
            return None;
        }
        let planned = match self.state {
            GameOfLifeState::Loading => None,
            GameOfLifeState::Init => if self.seeded {
                None
            } else {
                self.seeded = true;
                Some(dispatch(EntryPoint::Init, dims))
            },
            GameOfLifeState::Update => Some(dispatch(EntryPoint::Update, dims)),
        };
        if planned.is_some() && params.frame_queue_count > 0 {
            params.frame_queue_count = params.frame_queue_count - 1;
        }
        planned
    }
}

} // verus!
