//! The record of one cell, as the device reads it.

use vstd::prelude::*;

verus! {

/// Number of 32-bit words in one cell record.
pub const CELL_WORDS: usize = 5;

/// Number of bytes in one cell record: the flag, then four colour channels.
pub const CELL_BYTES: u64 = 20;

/// Bit pattern of the single-precision number one.
pub const CHANNEL_ONE: u32 = 0x3f80_0000;

/// One cell of the grid, in the field order and widths of the device's record.
///
/// `alive` is a flag held in a full word, zero or one. `color` holds red, green, blue and
/// alpha, each as the bit pattern of a single-precision number.
#[derive(Clone, Copy, Debug)]
pub struct Cell {
    pub alive: u32,
    pub color: [u32; 4],
}

impl Cell {
    /// The five words of the record, in memory order.
    pub open spec fn words(&self) -> Seq<u32> {
        seq![self.alive, self.color@[0], self.color@[1], self.color@[2], self.color@[3]]
    }

    /// The words of a dead cell coloured opaque black.
    pub open spec fn default_words() -> Seq<u32> {
        seq![0u32, 0u32, 0u32, 0u32, CHANNEL_ONE]
    }

    /// The word at position `i` of the record.
    pub fn word(&self, i: usize) -> (r: u32)
        requires
            i < CELL_WORDS,
        ensures
            r == self.words()[i as int],
    {
        if i == 0 {
            self.alive
        } else {
            self.color[i - 1]
        }
    }
}

impl Default for Cell {
    /// A dead cell coloured opaque black.
    fn default() -> (r: Cell)
        ensures
            r.words() == Cell::default_words(),
    {
        let r = Cell { alive: 0, color: [0, 0, 0, CHANNEL_ONE] };
        assert(r.words() =~= Cell::default_words());
        r
    }
}

/// The words of a run of cells, record after record.
pub open spec fn cell_words(cells: Seq<Cell>) -> Seq<u32> {
    Seq::new(cells.len() * 5, |k: int| cells[k / 5].words()[k % 5])
}

/// A grid's worth of default cells.
pub fn initial_cells(count: usize) -> (r: Vec<Cell>)
    ensures
        r@.len() == count,
        forall|i: int| 0 <= i < count ==> (#[trigger] r@[i]).words() == Cell::default_words(),
{
    let mut cells: Vec<Cell> = Vec::new();
    let mut i: usize = 0;
    while i < count
        invariant
            i <= count,
            cells@.len() == i,
            forall|j: int| 0 <= j < i ==> (#[trigger] cells@[j]).words() == Cell::default_words(),
        decreases count - i,
    {
        cells.push(Cell::default());
        i += 1;
    }
    cells
}

/// Lays a run of cells out as words, record after record.
pub fn flatten_cells(cells: &[Cell]) -> (r: Vec<u32>)
    ensures
        r@ == cell_words(cells@),
{
    let mut words: Vec<u32> = Vec::new();
    let mut i: usize = 0;
    while i < cells.len()
        invariant
            i <= cells@.len(),
            words@.len() == 5 * i,
            forall|k: int| 0 <= k < 5 * i ==> words@[k] == cells@[k / 5].words()[k % 5],
        decreases cells@.len() - i,
    {
        let cell = &cells[i];
        words.push(cell.word(0));
        words.push(cell.word(1));
        words.push(cell.word(2));
        words.push(cell.word(3));
        words.push(cell.word(4));
        i += 1;
    }
    assert(words@ =~= cell_words(cells@));
    words
}

} // verus!
