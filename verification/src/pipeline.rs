//! The two compute stages and the descriptions they share.

use vstd::prelude::*;
use crate::grid::GridDimensions;

pub mod automata;
pub mod color;

verus! {

/// How far the compilation of a compute pipeline has come, as polled on one frame.
#[derive(Clone, Copy, Debug, PartialEq, Eq, Structural)]
pub enum CompileStatus {
    /// Still queued or being built.
    Pending,
    /// Built and usable.
    Ready,
    /// The device program did not build.
    Failed,
}

/// A device program, by the module that holds it.
#[derive(Clone, Copy, Debug, PartialEq, Eq, Structural)]
pub enum ShaderProgram {
    /// The simulation module, with the entry points `init` and `update`.
    Automaton,
    /// The colouring module, with the entry point `color_cells`.
    Colorization,
}

/// An entry point of a device program.
#[derive(Clone, Copy, Debug, PartialEq, Eq, Structural)]
pub enum EntryPoint {
    /// Seeds the grid.
    Init,
    /// Advances the grid by one generation.
    Update,
    /// Writes the colour of every cell into the display texture.
    ColorCells,
}

/// A device program failed to build; nothing can run without it.
#[derive(Clone, Copy, Debug, PartialEq, Eq, Structural)]
pub struct CompilationError {
    pub program: ShaderProgram,
    pub entry_point: EntryPoint,
}

/// The programs that can see a binding.
#[derive(Clone, Copy, Debug, PartialEq, Eq, Structural)]
pub enum ShaderStage {
    Vertex,
    Fragment,
    Compute,
}

/// How the channels of a texel are stored.
#[derive(Clone, Copy, Debug, PartialEq, Eq, Structural)]
pub enum TexelFormat {
    /// Red, green, blue and alpha, each 8 bits, unsigned and normalised.
    Rgba8Unorm,
}

/// What a program may do with a storage texture.
#[derive(Clone, Copy, Debug, PartialEq, Eq, Structural)]
pub enum StorageAccess {
    ReadOnly,
    WriteOnly,
    ReadWrite,
}

/// The number of dimensions of a texture as a program sees it.
#[derive(Clone, Copy, Debug, PartialEq, Eq, Structural)]
pub enum ViewDimension {
    D1,
    D2,
    D3,
}

/// What a binding of a bind group holds.
#[derive(Clone, Copy, Debug, PartialEq, Eq, Structural)]
pub enum BindingKind {
    /// A uniform buffer.
    Uniform,
    /// A storage buffer.
    Storage { read_only: bool },
    /// A storage texture.
    StorageTexture { access: StorageAccess, format: TexelFormat, dimension: ViewDimension },
}

/// One entry of a bind-group layout.
///
/// `min_binding_size` is the least number of bytes of a buffer bound there, and zero for a
/// texture.
#[derive(Clone, Copy, Debug, PartialEq, Eq, Structural)]
pub struct LayoutEntry {
    pub binding: u32,
    pub visibility: ShaderStage,
    pub kind: BindingKind,
    pub min_binding_size: u64,
}

impl LayoutEntry {
    /// A uniform buffer of at least `size` bytes, seen by compute programs.
    pub open spec fn uniform_at(binding: u32, size: u64) -> LayoutEntry {
        LayoutEntry {
            binding,
            visibility: ShaderStage::Compute,
            kind: BindingKind::Uniform,
            min_binding_size: size,
        }
    }

    /// A storage buffer of at least `size` bytes that compute programs read and write.
    pub open spec fn storage_at(binding: u32, size: u64) -> LayoutEntry {
        LayoutEntry {
            binding,
            visibility: ShaderStage::Compute,
            kind: BindingKind::Storage { read_only: false },
            min_binding_size: size,
        }
    }

    /// The display texture: a two-dimensional storage image of four 8-bit normalised
    /// channels that compute programs read and write.
    pub open spec fn display_texture_at(binding: u32) -> LayoutEntry {
        LayoutEntry {
            binding,
            visibility: ShaderStage::Compute,
            kind: BindingKind::StorageTexture {
                access: StorageAccess::ReadWrite,
                format: TexelFormat::Rgba8Unorm,
                dimension: ViewDimension::D2,
            },
            min_binding_size: 0,
        }
    }

    /// Describes a uniform buffer at `binding`.
    pub fn uniform(binding: u32, size: u64) -> (r: LayoutEntry)
        ensures
            r == LayoutEntry::uniform_at(binding, size),
    {
        LayoutEntry {
            binding,
            visibility: ShaderStage::Compute,
            kind: BindingKind::Uniform,
            min_binding_size: size,
        }
    }

    /// Describes a read-write storage buffer at `binding`.
    pub fn storage(binding: u32, size: u64) -> (r: LayoutEntry)
        ensures
            r == LayoutEntry::storage_at(binding, size),
    {
        LayoutEntry {
            binding,
            visibility: ShaderStage::Compute,
            kind: BindingKind::Storage { read_only: false },
            min_binding_size: size,
        }
    }

    /// Describes the display texture at `binding`.
    pub fn display_texture(binding: u32) -> (r: LayoutEntry)
        ensures
            r == LayoutEntry::display_texture_at(binding),
    {
        LayoutEntry {
            binding,
            visibility: ShaderStage::Compute,
            kind: BindingKind::StorageTexture {
                access: StorageAccess::ReadWrite,
                format: TexelFormat::Rgba8Unorm,
                dimension: ViewDimension::D2,
            },
            min_binding_size: 0,
        }
    }
}

/// A compute pipeline to queue for compilation.
#[derive(Clone, Copy, Debug, PartialEq, Eq)]
pub struct PipelineDescriptor {
    pub label: Option<&'static str>,
    pub program: ShaderProgram,
    pub entry_point: EntryPoint,
}

/// A resource bound at one index of a bind group.
#[derive(Clone, Copy, Debug, PartialEq, Eq, Structural)]
pub enum Resource {
    /// The uniform buffer that holds the grid's width and height.
    GridSize,
    /// One of the two storage buffers, by its position: 0 or 1.
    CellBuffer(usize),
    /// The display texture.
    DisplayTexture,
}

/// One compute dispatch: the entry point to run and the number of workgroups.
#[derive(Clone, Copy, Debug, PartialEq, Eq)]
pub struct Dispatch {
    pub entry_point: EntryPoint,
    pub workgroups: (u32, u32, u32),
}

/// Number of bytes of the uniform buffer: the width and the height, a word each.
pub const GRID_SIZE_BYTES: u64 = 8;

impl ShaderProgram {
    /// Where the module's source is found among the assets.
    pub fn asset_path(&self) -> (r: &'static str)
        ensures
            *self == ShaderProgram::Automaton ==> r@ == "shaders/litterbox.wgsl"@,
            *self == ShaderProgram::Colorization ==> r@ == "shaders/color.wgsl"@,
    {
        match self {
            ShaderProgram::Automaton => "shaders/litterbox.wgsl",
            ShaderProgram::Colorization => "shaders/color.wgsl",
        }
    }
}

impl EntryPoint {
    /// The module that holds the entry point.
    pub open spec fn program_of(self) -> ShaderProgram {
        match self {
            EntryPoint::Init => ShaderProgram::Automaton,
            EntryPoint::Update => ShaderProgram::Automaton,
            EntryPoint::ColorCells => ShaderProgram::Colorization,
        }
    }

    /// The module that holds the entry point.
    pub fn program(&self) -> (r: ShaderProgram)
        ensures
            r == self.program_of(),
    {
        match self {
            EntryPoint::Init => ShaderProgram::Automaton,
            EntryPoint::Update => ShaderProgram::Automaton,
            EntryPoint::ColorCells => ShaderProgram::Colorization,
        }
    }

    /// The entry point's name in the device program.
    pub fn name(&self) -> (r: &'static str)
        ensures
            *self == EntryPoint::Init ==> r@ == "init"@,
            *self == EntryPoint::Update ==> r@ == "update"@,
            *self == EntryPoint::ColorCells ==> r@ == "color_cells"@,
    {
        match self {
            EntryPoint::Init => "init",
            EntryPoint::Update => "update",
            EntryPoint::ColorCells => "color_cells",
        }
    }
}

/// The dispatch of `entry_point` over the whole grid.
pub open spec fn dispatch_over(entry_point: EntryPoint, dims: GridDimensions) -> Dispatch {
    Dispatch {
        entry_point,
        workgroups: (
            crate::grid::workgroups_along(dims.width) as u32,
            crate::grid::workgroups_along(dims.height) as u32,
            1u32,
        ),
    }
}

/// Builds the dispatch of `entry_point` over the whole grid.
pub fn dispatch(entry_point: EntryPoint, dims: &GridDimensions) -> (r: Dispatch)
    ensures
        r == dispatch_over(entry_point, *dims),
{
    Dispatch { entry_point, workgroups: dims.workgroups() }
}

} // verus!
