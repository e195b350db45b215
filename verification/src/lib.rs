//! A double-buffered cellular-automaton compute engine, described on the CPU side.
//!
//! The library decides everything that does not need the device: the layout of a cell in
//! memory, the contents of the buffers at creation, the bind-group layouts, which buffer is
//! read and which is written on a frame, the state machines of the two compute stages, and
//! the gating of dispatches by the pause flag and the step budget.

use vstd::prelude::*;
use crate::cell::{cell_words, initial_cells, Cell};
use crate::grid::{aligned, ConfigError, GridDimensions};
use crate::input::AutomataParams;
use crate::pipeline::automata::{
    advanced, after_run, consumed, gated, next_frame, planned_dispatch,
    prepare_automata_bind_group,
    GameOfLifeBuffers, GameOfLifeImage, GameOfLifeImageBindGroup, GameOfLifeNode, GameOfLifePipeline,
    GameOfLifeState,
};
use crate::pipeline::color::{
    planned_coloring, prepare_color_bind_group, AutomataColorBindGroups, AutomataColorNode,
    AutomataColorPipeline, AutomataColorState,
};
use crate::pipeline::{
    dispatch_over, CompilationError, CompileStatus, Dispatch, EntryPoint, PipelineDescriptor,
    ShaderProgram,
};
use crate::utils::{native_image, BufferUsage};

pub mod cell;
pub mod grid;
pub mod input;
pub mod pipeline;
pub mod utils;

verus! {

/// Edge length of the square tile of cells that one workgroup processes.
pub const WORKGROUP_SIZE: u32 = 8;

/// Number of screen pixels along each edge of a displayed cell.
pub const DISPLAY_FACTOR: u32 = 4;

/// Width of the default grid, a multiple of `WORKGROUP_SIZE`.
pub const WIDTH: u32 = 64 * 8 / DISPLAY_FACTOR;

/// Height of the default grid, a multiple of `WORKGROUP_SIZE`.
pub const HEIGHT: u32 = 64 * 8 / DISPLAY_FACTOR;

/// Width and height of the default grid.
pub const SIZE: (u32, u32) = (WIDTH, HEIGHT);

/// Number of cells of the default grid.
pub const NUM_OF_CELLS: usize = 16384;

/// The default grid is aligned, and `NUM_OF_CELLS` is the number of its cells.
pub proof fn lemma_default_grid()
    ensures
        WIDTH == 128,
        HEIGHT == 128,
        SIZE == (WIDTH, HEIGHT),
        (GridDimensions { width: WIDTH, height: HEIGHT }).wf(),
        (GridDimensions { width: WIDTH, height: HEIGHT }).cells() == NUM_OF_CELLS,
        (GridDimensions { width: WIDTH, height: HEIGHT }).storage_bytes() == 327_680,
{
}

/// The words of `count` default cells, record after record.
pub open spec fn default_grid_words(count: nat) -> Seq<u32> {
    Seq::new(count * 5, |k: int| Cell::default_words()[k % 5])
}

/// Describes what to create before the first frame: the display texture, filled with opaque
/// black, and the buffers of a grid of default cells.
///
/// A width or height that is not a positive multiple of the workgroup size is refused, and
/// then nothing is described at all.
pub fn setup(width: u32, height: u32) -> (r: Result<(GameOfLifeImage, GameOfLifeBuffers), ConfigError>)
    requires
        aligned(width) && aligned(height) ==> (GridDimensions { width, height }).storage_bytes()
            <= usize::MAX,
    ensures
        !(aligned(width) && aligned(height)) ==> r == Err::<
            (GameOfLifeImage, GameOfLifeBuffers),
            ConfigError,
        >(ConfigError::Misaligned),
        aligned(width) && aligned(height) ==> r is Ok && {
            let (image, buffers) = r->Ok_0;
            let dims = GridDimensions { width, height };
            &&& image == GameOfLifeImage::for_grid(width, height)
            &&& buffers.wf()
            &&& buffers.size.usage == BufferUsage::Uniform
            &&& native_image(seq![width, height], buffers.size.contents@)
            &&& buffers.size.label matches Some(l) && l@ == "Size Uniform Buffer"@
            &&& buffers.in_out@[0].label matches Some(l) && l@ == "Game of Life Buffer 0"@
            &&& buffers.in_out@[1].label matches Some(l) && l@ == "Game of Life Buffer 1"@
            &&& forall|i: int|
                0 <= i < 2 ==> {
                    &&& (#[trigger] buffers.in_out@[i]).usage == BufferUsage::Storage
                    &&& native_image(
                        default_grid_words(dims.cells()),
                        buffers.in_out@[i].contents@,
                    )
                    &&& buffers.in_out@[i].contents@.len() == dims.storage_bytes()
                }
        },
{
    let dims = match GridDimensions::new(width, height) {
        Ok(dims) => dims,
        Err(e) => {
            return Err(e);
        },
    };
    let image = GameOfLifeImage::new(width, height);
    let initial_life_data = initial_cells(dims.num_cells());
    proof {
        let cells = initial_life_data@;
        assert forall|k: int| 0 <= k < cells.len() * 5 implies cell_words(cells)[k]
            == default_grid_words(dims.cells())[k] by {
            assert(cells[k / 5].words() == Cell::default_words());
        }
        assert(cell_words(cells) =~= default_grid_words(dims.cells()));
    }
    match GameOfLifeBuffers::new(&dims, initial_life_data.as_slice()) {
        Ok(buffers) => Ok((image, buffers)),
        Err(e) => Err(e),
    }
}

/// What polling the three pipelines returned on one frame.
#[derive(Clone, Copy, Debug, PartialEq, Eq, Structural)]
pub struct Polls {
    pub init: CompileStatus,
    pub update: CompileStatus,
    pub color: CompileStatus,
}

/// The bind groups of the two stages, rebuilt on every frame.
#[derive(Clone, Copy, Debug, PartialEq, Eq, Structural)]
pub struct BindGroups {
    pub automata: GameOfLifeImageBindGroup,
    pub color: AutomataColorBindGroups,
}

/// The device commands of one frame, in the order in which they are recorded: first the
/// simulation stage, then the colouring stage.
#[derive(Clone, Copy, Debug, PartialEq, Eq)]
pub struct FrameCommands {
    pub bind_groups: BindGroups,
    pub automata: Option<Dispatch>,
    pub color: Option<Dispatch>,
}

impl FrameCommands {
    /// The dispatches of the frame in the order of the stages: what the simulation stage
    /// dispatches, if anything, comes before what the colouring stage dispatches.
    pub open spec fn sequence(self) -> Seq<Dispatch> {
        let first = match self.automata {
            Some(d) => seq![d],
            None => Seq::<Dispatch>::empty(),
        };
        match self.color {
            Some(d) => first.push(d),
            None => first,
        }
    }

    /// The dispatches of the frame, in the order in which to record them.
    pub fn dispatches(&self) -> (r: Vec<Dispatch>)
        ensures
            r@ == self.sequence(),
    {
        let mut all: Vec<Dispatch> = Vec::new();
        if let Some(d) = self.automata {
            all.push(d);
        }
        if let Some(d) = self.color {
            all.push(d);
        }
        assert(all@ =~= self.sequence());
        all
    }
}

/// The engine: the two stages in their fixed order, the grid they work on, and the bind
/// groups last prepared.
#[derive(Clone, Copy, Debug, PartialEq, Eq)]
pub struct GameOfLifeComputePlugin {
    pub dims: GridDimensions,
    pub automata: GameOfLifeNode,
    pub color: AutomataColorNode,
    pub bind_groups: Option<BindGroups>,
}

/// A stage of the engine.
#[derive(Clone, Copy, Debug, PartialEq, Eq, Structural)]
pub enum Stage {
    /// The simulation stage.
    Automata,
    /// The colouring stage.
    Colorization,
}

/// The stages in the one order in which they run on every frame: the colouring stage
/// reads what the simulation stage has just written.
pub open spec fn stage_sequence() -> Seq<Stage> {
    seq![Stage::Automata, Stage::Colorization]
}

impl GameOfLifeComputePlugin {
    /// The failure that the polls of a frame bring to light, if any: that of the
    /// simulation stage first, then that of the colouring stage.
    pub open spec fn failure_of(self, polls: Polls) -> Option<CompilationError> {
        match self.automata.state.failure(polls.init, polls.update) {
            Some(e) => Some(e),
            None => self.color.state.failure(polls.color),
        }
    }

    /// Whether the polls of a frame end everything: a pipeline that a stage waits for did
    /// not build.
    pub open spec fn fatal(self, polls: Polls) -> bool {
        self.failure_of(polls) is Some
    }

    /// The engine after the state-advance of both stages.
    pub open spec fn updated(self, polls: Polls) -> GameOfLifeComputePlugin {
        GameOfLifeComputePlugin {
            automata: GameOfLifeNode {
                state: self.automata.state.next(polls.init, polls.update),
                seeded: self.automata.seeded,
            },
            color: AutomataColorNode { state: self.color.state.next(polls.color) },
            ..self
        }
    }

    /// The engine after the bind groups were prepared for the frame of `params`.
    pub open spec fn prepared(self, params: AutomataParams) -> GameOfLifeComputePlugin {
        GameOfLifeComputePlugin {
            bind_groups: Some(
                BindGroups {
                    automata: GameOfLifeImageBindGroup::for_frame(params.frame),
                    color: AutomataColorBindGroups::for_frame(params.frame),
                },
            ),
            ..self
        }
    }

    /// The commands of a frame whose counters stand at `params` when the stages run.
    pub open spec fn commands(self, params: AutomataParams) -> FrameCommands {
        FrameCommands {
            bind_groups: self.bind_groups->Some_0,
            automata: planned_dispatch(self.automata, params, self.dims),
            color: planned_coloring(self.color.state, self.dims),
        }
    }

    /// The engine after the run of a frame whose counters stand at `params`.
    pub open spec fn ran(self, params: AutomataParams) -> GameOfLifeComputePlugin {
        GameOfLifeComputePlugin { automata: after_run(self.automata, params), ..self }
    }

    /// An engine for a grid, with both stages waiting for their pipelines.
    pub fn build(dims: GridDimensions) -> (r: GameOfLifeComputePlugin)
        ensures
            r == (GameOfLifeComputePlugin {
                dims,
                automata: GameOfLifeNode { state: GameOfLifeState::Loading, seeded: false },
                color: AutomataColorNode { state: AutomataColorState::Loading },
                bind_groups: None,
            }),
    {
        GameOfLifeComputePlugin {
            dims,
            automata: GameOfLifeNode::default(),
            color: AutomataColorNode::default(),
            bind_groups: None,
        }
    }

    /// The stages in the order in which they run.
    pub fn stage_order() -> (r: Vec<Stage>)
        ensures
            r@ == stage_sequence(),
    {
        let mut order: Vec<Stage> = Vec::new();
        order.push(Stage::Automata);
        order.push(Stage::Colorization);
        assert(order@ =~= stage_sequence());
        order
    }

    /// Describes the pipelines of both stages, to be queued for compilation.
    pub fn finish(&self) -> (r: (GameOfLifePipeline, AutomataColorPipeline))
        requires
            self.dims.storage_bytes() <= u64::MAX,
        ensures
            r.0.texture_bind_group_layout@ == crate::pipeline::automata::automata_layout(
                self.dims,
            ),
            r.0.init_pipeline == (PipelineDescriptor {
                label: None,
                program: ShaderProgram::Automaton,
                entry_point: EntryPoint::Init,
            }),
            r.0.update_pipeline == (PipelineDescriptor {
                label: None,
                program: ShaderProgram::Automaton,
                entry_point: EntryPoint::Update,
            }),
            r.1.color_bind_group_layout@ == crate::pipeline::color::color_layout(self.dims),
            r.1.color_pipeline.program == ShaderProgram::Colorization,
            r.1.color_pipeline.entry_point == EntryPoint::ColorCells,
            r.1.color_pipeline.label matches Some(l) && l@ == "Game of Life Color Pipeline"@,
    {
        (GameOfLifePipeline::new(&self.dims), AutomataColorPipeline::new(&self.dims))
    }

    /// The failure that the polls of a frame bring to light, if any. The caller must stop
    /// on it, and hands the polls on to `update` or `frame` only where there is none.
    pub fn failure(&self, polls: Polls) -> (r: Option<CompilationError>)
        ensures
            r == self.failure_of(polls),
    {
        match self.automata.failure(polls.init, polls.update) {
            Some(e) => Some(e),
            None => self.color.failure(polls.color),
        }
    }

    /// The state-advance of one frame, for both stages in order.
    pub fn update(&mut self, polls: Polls, params: &mut AutomataParams)
        requires
            !old(self).fatal(polls),
        ensures
            *final(self) == old(self).updated(polls),
            *final(params) == advanced(old(self).automata.state, *old(params)),
    {
        self.automata.update(polls.init, polls.update, params);
        self.color.update(polls.color);
    }

    /// Rebuilds the bind groups of both stages for the current frame. Nothing else changes,
    /// however often this is done.
    pub fn prepare_bind_groups(&mut self, params: &AutomataParams)
        ensures
            *final(self) == old(self).prepared(*params),
    {
        self.bind_groups = Some(
            BindGroups {
                automata: prepare_automata_bind_group(params),
                color: prepare_color_bind_group(params),
            },
        );
    }

    /// The run of one frame: the simulation stage first, then the colouring stage.
    pub fn run(&mut self, params: &mut AutomataParams) -> (r: FrameCommands)
        requires
            old(self).bind_groups is Some,
        ensures
            r == old(self).commands(*old(params)),
            *final(self) == old(self).ran(*old(params)),
            *final(params) == consumed(old(self).automata, *old(params)),
    {
        let bind_groups = self.bind_groups.unwrap();
        let automata = self.automata.run(params, &self.dims);
        let color = self.color.run(&self.dims);
        FrameCommands { bind_groups, automata, color }
    }

    /// One whole frame: state-advance, preparation of the bind groups, then the run of the
    /// simulation stage and of the colouring stage.
    pub fn frame(&mut self, polls: Polls, params: &mut AutomataParams) -> (r: FrameCommands)
        requires
            !old(self).fatal(polls),
        ensures
            ({
                let counters = advanced(old(self).automata.state, *old(params));
                let ready = old(self).updated(polls).prepared(counters);
                &&& r == ready.commands(counters)
                &&& *final(self) == ready.ran(counters)
                &&& *final(params) == consumed(ready.automata, counters)
            }),
            old(self).automata.state == GameOfLifeState::Update ==> *final(params)
                == steady_frame(*old(params)),
    {
        self.update(polls, params);
        self.prepare_bind_groups(params);
        self.run(params)
    }
}

/// The counters after one frame of an engine in the steady state.
pub open spec fn steady_frame(params: AutomataParams) -> AutomataParams {
    consumed(steady_node(), advanced(GameOfLifeState::Update, params))
}

/// A simulation stage in the steady state.
pub open spec fn steady_node() -> GameOfLifeNode {
    GameOfLifeNode { state: GameOfLifeState::Update, seeded: true }
}

/// The counters after `k` frames of an engine in the steady state, with no input between.
pub open spec fn after_steady_frames(params: AutomataParams, k: nat) -> AutomataParams
    decreases k,
{
    if k == 0 {
        params
    } else {
        steady_frame(after_steady_frames(params, (k - 1) as nat))
    }
}

/// The frame counter after `n` advances.
pub open spec fn frames_ahead(frame: usize, n: nat) -> usize
    decreases n,
{
    if n == 0 {
        frame
    } else {
        next_frame(frames_ahead(frame, (n - 1) as nat))
    }
}

/// Whether the frame that starts with the counters at `params`, in the steady state,
/// advances the simulation: it moves the frame counter on and dispatches `update`.
pub open spec fn advances(params: AutomataParams, dims: GridDimensions) -> bool {
    &&& steady_frame(params).frame == next_frame(params.frame)
    &&& planned_dispatch(steady_node(), advanced(GameOfLifeState::Update, params), dims) == Some(dispatch_over(EntryPoint::Update, dims))
}

/// Whether the frame that starts with the counters at `params`, in the steady state,
/// stands still: the counters stay as they are and nothing is dispatched for the simulation.
pub open spec fn stands_still(params: AutomataParams, dims: GridDimensions) -> bool {
    &&& steady_frame(params) == params
    &&& planned_dispatch(steady_node(), advanced(GameOfLifeState::Update, params), dims) is None
}

/// Preparing the bind groups twice is the same as preparing them once, and it touches
/// neither the stages nor the grid. The counters are only read.
pub proof fn lemma_prepare_idempotent(engine: GameOfLifeComputePlugin, params: AutomataParams)
    ensures
        engine.prepared(params).prepared(params) == engine.prepared(params),
        engine.prepared(params).automata == engine.automata,
        engine.prepared(params).color == engine.color,
        engine.prepared(params).dims == engine.dims,
{
}

/// The step budget is spent one step a frame. A paused engine in the steady state that
/// starts with a budget of `n` steps has, after `k` frames, advanced the frame counter
/// `min(k, n)` times and has `n - min(k, n)` steps left; its next frame advances the
/// simulation exactly if `k < n`, and stands still otherwise.
pub proof fn lemma_step_budget(params: AutomataParams, k: nat, dims: GridDimensions)
    requires
        params.is_paused,
    ensures
        ({
            let n = params.frame_queue_count as nat;
            let done = if k < n {
                k
            } else {
                n
            };
            let now = after_steady_frames(params, k);
            &&& now.is_paused
            &&& now.frame == frames_ahead(params.frame, done)
            &&& now.frame_queue_count == n - done
            &&& k < n ==> advances(now, dims)
            &&& k >= n ==> stands_still(now, dims)
        }),
    decreases k,
{
    if k > 0 {
        lemma_step_budget(params, (k - 1) as nat, dims);
    }
}

/// Where the frame counter does not wrap, `n` advances add `n` to it.
pub proof fn lemma_frames_ahead_adds(frame: usize, n: nat)
    requires
        frame + n <= usize::MAX,
    ensures
        frames_ahead(frame, n) == frame + n,
    decreases n,
{
    if n > 0 {
        lemma_frames_ahead_adds(frame, (n - 1) as nat);
    }
}

/// The display stays live: on a frame that finds the engine paused with an empty budget,
/// the simulation stage dispatches nothing and the counters stay as they are, yet a
/// colouring stage in its steady state colours the whole grid.
pub proof fn lemma_display_stays_live(
    engine: GameOfLifeComputePlugin,
    polls: Polls,
    params: AutomataParams,
)
    requires
        gated(params),
        engine.color.state == AutomataColorState::Update,
    ensures
        ({
            let counters = advanced(engine.automata.state, params);
            let ready = engine.updated(polls).prepared(counters);
            let commands = ready.commands(counters);
            &&& consumed(ready.automata, counters) == params
            &&& commands.automata is None
            &&& commands.color == Some(dispatch_over(EntryPoint::ColorCells, engine.dims))
        }),
{
}

} // verus!
