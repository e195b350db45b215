//! The colouring stage: its pipeline, its bind group and its state machine.

use vstd::prelude::*;
use crate::grid::GridDimensions;
use crate::input::AutomataParams;
use crate::pipeline::automata::{automata_layout, input_slot, output_slot, GameOfLifeBuffers};
use crate::pipeline::{
    dispatch, dispatch_over, CompilationError, CompileStatus, Dispatch, EntryPoint, LayoutEntry,
    PipelineDescriptor, Resource, ShaderProgram, GRID_SIZE_BYTES,
};

verus! {

/// The layout of the colouring stage's bind group: the three bindings of the simulation
/// stage, then the display texture.
pub open spec fn color_layout(dims: GridDimensions) -> Seq<LayoutEntry> {
    automata_layout(dims).push(LayoutEntry::display_texture_at(3))
}

/// Label of the colouring stage's bind-group layout.
pub const COLOR_LAYOUT_LABEL: &'static str = "Game of Life Color Bind Group Layout";

/// Label of the colouring stage's bind group.
pub const COLOR_BIND_GROUP_LABEL: &'static str = "Game of Life Color Bind Group";

/// The bind-group layout of the colouring stage and its pipeline.
#[derive(Debug)]
pub struct AutomataColorPipeline {
    pub color_pipeline: PipelineDescriptor,
    pub color_bind_group_layout: Vec<LayoutEntry>,
}

impl AutomataColorPipeline {
    /// Describes the layout and the pipeline of the colouring stage for a grid.
    pub fn new(dims: &GridDimensions) -> (r: AutomataColorPipeline)
        requires
            dims.storage_bytes() <= u64::MAX,
        ensures
            r.color_bind_group_layout@ == color_layout(*dims),
            r.color_pipeline.program == ShaderProgram::Colorization,
            r.color_pipeline.entry_point == EntryPoint::ColorCells,
            r.color_pipeline.label matches Some(l) && l@ == "Game of Life Color Pipeline"@,
    {
        let cells = dims.min_storage_binding_size();
        let mut layout: Vec<LayoutEntry> = Vec::new();
        layout.push(LayoutEntry::uniform(0, GRID_SIZE_BYTES));
        layout.push(LayoutEntry::storage(1, cells));
        layout.push(LayoutEntry::storage(2, cells));
        layout.push(LayoutEntry::display_texture(3));
        assert(layout@ =~= color_layout(*dims));
        AutomataColorPipeline {
            color_pipeline: PipelineDescriptor {
                label: Some("Game of Life Color Pipeline"),
                program: ShaderProgram::Colorization,
                entry_point: EntryPoint::ColorCells,
            },
            color_bind_group_layout: layout,
        }
    }
}

/// The bind group of the colouring stage on one frame, in binding order.
#[derive(Clone, Copy, Debug, PartialEq, Eq, Structural)]
pub struct AutomataColorBindGroups {
    pub size: Resource,
    pub input: Resource,
    pub output: Resource,
    pub texture: Resource,
}

impl AutomataColorBindGroups {
    /// The bind group for frame `frame`.
    pub open spec fn for_frame(frame: usize) -> AutomataColorBindGroups {
        AutomataColorBindGroups {
            size: Resource::GridSize,
            input: Resource::CellBuffer(input_slot(frame as nat) as usize),
            output: Resource::CellBuffer(output_slot(frame as nat) as usize),
            texture: Resource::DisplayTexture,
        }
    }

    /// The resources at bindings 0, 1, 2 and 3.
    pub open spec fn entries(self) -> Seq<Resource> {
        seq![self.size, self.input, self.output, self.texture]
    }
}

/// Builds the colouring stage's bind group for the current frame: the same roles of the
/// buffers as in the simulation stage, and the display texture.
pub fn prepare_color_bind_group(params: &AutomataParams) -> (r: AutomataColorBindGroups)
    ensures
        r == AutomataColorBindGroups::for_frame(params.frame),
        r.entries() == seq![
            Resource::GridSize,
            Resource::CellBuffer(input_slot(params.frame as nat) as usize),
            Resource::CellBuffer(output_slot(params.frame as nat) as usize),
            Resource::DisplayTexture,
        ],
{
    let (input, output) = GameOfLifeBuffers::roles(params.frame);
    AutomataColorBindGroups {
        size: Resource::GridSize,
        input: Resource::CellBuffer(input),
        output: Resource::CellBuffer(output),
        texture: Resource::DisplayTexture,
    }
}

/// Where the colouring stage stands.
#[derive(Clone, Copy, Debug, PartialEq, Eq, Structural)]
pub enum AutomataColorState {
    /// Waiting for the pipeline.
    Loading,
    /// Steady state: colouring every frame.
    Update,
}

impl AutomataColorState {
    /// The failure that a poll brings to light, if any: the pipeline did not build while
    /// the stage waited for it. Nothing can go on after it.
    pub open spec fn failure(self, status: CompileStatus) -> Option<CompilationError> {
        if self == AutomataColorState::Loading && status == CompileStatus::Failed {
            Some(
                CompilationError {
                    program: ShaderProgram::Colorization,
                    entry_point: EntryPoint::ColorCells,
                },
            )
        } else {
            None
        }
    }

    /// Whether a poll ends everything.
    pub open spec fn fatal(self, status: CompileStatus) -> bool {
        self.failure(status) is Some
    }

    /// The state after one poll of the pipeline.
    pub open spec fn next(self, status: CompileStatus) -> AutomataColorState {
        if self == AutomataColorState::Loading && status != CompileStatus::Ready {
            AutomataColorState::Loading
        } else {
            AutomataColorState::Update
        }
    }
}

/// What the colouring stage dispatches on a frame, if anything. The pause flag and the
/// step budget have no say in it.
pub open spec fn planned_coloring(state: AutomataColorState, dims: GridDimensions) -> Option<
    Dispatch,
> {
    match state {
        AutomataColorState::Loading => None,
        AutomataColorState::Update => Some(dispatch_over(EntryPoint::ColorCells, dims)),
    }
}

/// The colouring stage.
#[derive(Clone, Copy, Debug, PartialEq, Eq, Structural)]
pub struct AutomataColorNode {
    pub state: AutomataColorState,
}

impl Default for AutomataColorNode {
    /// A stage that waits for its pipeline.
    fn default() -> (r: AutomataColorNode)
        ensures
            r.state == AutomataColorState::Loading,
    {
        AutomataColorNode { state: AutomataColorState::Loading }
    }
}

impl AutomataColorNode {
    /// The failure that a poll of the pipeline brings to light, if any. The caller must
    /// stop on it.
    pub fn failure(&self, status: CompileStatus) -> (r: Option<CompilationError>)
        ensures
            r == self.state.failure(status),
    {
        match (self.state, status) {
            (AutomataColorState::Loading, CompileStatus::Failed) => Some(
                CompilationError {
                    program: ShaderProgram::Colorization,
                    entry_point: EntryPoint::ColorCells,
                },
            ),
            _ => None,
        }
    }

    /// The state-advance of one frame: the stage leaves `Loading` once its pipeline is
    /// ready, and never comes back. A poll that shows the awaited pipeline failed is not
    /// taken: see `failure`.
    pub fn update(&mut self, status: CompileStatus)
        requires
            !old(self).state.fatal(status),
        ensures
            final(self).state == old(self).state.next(status),
    {
        match self.state {
            AutomataColorState::Loading => {
                if let CompileStatus::Ready = status {
                    self.state = AutomataColorState::Update;
                }
            },
            AutomataColorState::Update => {},
        }
    }

    /// The run of one frame: in the steady state the whole grid is coloured, paused or not.
    pub fn run(&self, dims: &GridDimensions) -> (r: Option<Dispatch>)
        ensures
            r == planned_coloring(self.state, *dims),
    {
        match self.state {
            AutomataColorState::Loading => None,
            AutomataColorState::Update => Some(dispatch(EntryPoint::ColorCells, dims)),
        }
    }
}

} // verus!
