//! Grid dimensions and the sizes derived from them.

use vstd::prelude::*;
use crate::WORKGROUP_SIZE;
use crate::cell::CELL_BYTES;

verus! {

/// Why a configuration is refused at setup.
#[derive(Clone, Copy, Debug, PartialEq, Eq, Structural)]
pub enum ConfigError {
    /// A grid edge is zero or not a whole number of workgroup tiles.
    Misaligned,
    /// A storage buffer holds fewer bytes than the grid needs.
    BufferTooSmall,
}

/// Whether a grid edge of `n` cells is a positive whole number of workgroup tiles.
pub open spec fn aligned(n: u32) -> bool {
    n > 0 && n % WORKGROUP_SIZE == 0
}

/// Number of workgroups needed to cover `n` cells along one edge: `n / 8`, rounded up.
pub open spec fn workgroups_along(n: u32) -> int {
    (n + WORKGROUP_SIZE - 1) / (WORKGROUP_SIZE as int)
}

/// Width and height of the grid, in cells.
#[derive(Clone, Copy, Debug, PartialEq, Eq, Structural)]
pub struct GridDimensions {
    pub width: u32,
    pub height: u32,
}

impl GridDimensions {
    /// Both edges are positive multiples of the workgroup size.
    pub open spec fn wf(&self) -> bool {
        aligned(self.width) && aligned(self.height)
    }

    /// Number of cells in the grid.
    pub open spec fn cells(&self) -> nat {
        (self.width * self.height) as nat
    }

    /// Number of bytes that one storage buffer of the grid occupies.
    pub open spec fn storage_bytes(&self) -> nat {
        self.cells() * (CELL_BYTES as nat)
    }

    /// Accepts a width and a height exactly when both are positive multiples of the
    /// workgroup size.
    pub fn new(width: u32, height: u32) -> (r: Result<GridDimensions, ConfigError>)
        ensures
            aligned(width) && aligned(height) ==> r == Ok::<GridDimensions, ConfigError>(
                GridDimensions { width, height },
            ),
            !(aligned(width) && aligned(height)) ==> r == Err::<GridDimensions, ConfigError>(
                ConfigError::Misaligned,
            ),
    {
        let dims = GridDimensions { width, height };
        if dims.is_aligned() {
            Ok(dims)
        } else {
            Err(ConfigError::Misaligned)
        }
    }

    /// Whether both edges are positive multiples of the workgroup size.
    pub fn is_aligned(&self) -> (r: bool)
        ensures
            r == self.wf(),
    {
        self.width > 0 && self.width % WORKGROUP_SIZE == 0 && self.height > 0 && self.height
            % WORKGROUP_SIZE == 0
    }

    /// Number of cells in the grid, which always fits in 64 bits.
    pub fn cell_count(&self) -> (r: u64)
        ensures
            r == self.cells(),
    {
        assert(self.width * self.height <= 0xffff_ffff * 0xffff_ffff) by (nonlinear_arith)
            requires
                0 <= self.width <= 0xffff_ffff,
                0 <= self.height <= 0xffff_ffff,
        ;
        (self.width as u64) * (self.height as u64)
    }

    /// Whether one storage buffer of the grid can be held in memory on this machine.
    pub fn fits_in_memory(&self) -> (r: bool)
        ensures
            r == (self.storage_bytes() <= usize::MAX),
    {
        self.cell_count() <= (usize::MAX as u64) / CELL_BYTES
    }

    /// Number of cells in the grid.
    pub fn num_cells(&self) -> (r: usize)
        requires
            self.cells() <= usize::MAX,
        ensures
            r == self.cells(),
    {
        self.cell_count() as usize
    }

    /// Smallest size in bytes that a storage buffer bound for this grid may have.
    pub fn min_storage_binding_size(&self) -> (r: u64)
        requires
            self.storage_bytes() <= u64::MAX,
        ensures
            r == self.storage_bytes(),
    {
        self.cell_count() * CELL_BYTES
    }

    /// Number of workgroups of one dispatch over the grid: enough tiles to cover each edge,
    /// and one layer.
    pub fn workgroups(&self) -> (r: (u32, u32, u32))
        ensures
            r.0 == workgroups_along(self.width),
            r.1 == workgroups_along(self.height),
            r.2 == 1,
            self.wf() ==> r.0 * WORKGROUP_SIZE == self.width && r.1 * WORKGROUP_SIZE
                == self.height,
    {
        let x: u32 = self.width / WORKGROUP_SIZE + if self.width % WORKGROUP_SIZE == 0 {
            0
        } else {
            1
        };
        let y: u32 = self.height / WORKGROUP_SIZE + if self.height % WORKGROUP_SIZE == 0 {
            0
        } else {
            1
        };
        (x, y, 1)
    }
}

} // verus!
