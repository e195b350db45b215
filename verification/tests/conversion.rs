use litterbox::cell::{flatten_cells, Cell};
use litterbox::input::AutomataParams;
use litterbox::utils::create_storage_buffer_with_data;

#[derive(Clone, Copy, Debug, PartialEq)]
struct FloatCell {
    alive: u32,
    color: [f32; 4],
}

impl From<Cell> for FloatCell {
    fn from(cell: Cell) -> Self {
        Self { alive: cell.alive, color: cell.color.map(f32::from_bits) }
    }
}

impl From<FloatCell> for Cell {
    fn from(cell: FloatCell) -> Self {
        Self { alive: cell.alive, color: cell.color.map(f32::to_bits) }
    }
}

#[test]
fn channels_are_single_precision_bit_patterns() {
    let default: FloatCell = Cell::default().into();
    assert_eq!(default, FloatCell { alive: 0, color: [0.0, 0.0, 0.0, 1.0] });
    let lit = FloatCell { alive: 1, color: [2.0, 0.5, 0.25, 1.0] };
    let cell: Cell = lit.into();
    assert_eq!(cell.alive, 1);
    assert_eq!(cell.color, [0x4000_0000, 0x3f00_0000, 0x3e80_0000, 0x3f80_0000]);
    assert_eq!(FloatCell::from(cell), lit);
}

#[test]
fn record_matches_the_layout_of_a_flag_and_four_floats() {
    let lit = FloatCell { alive: 1, color: [2.0, 0.5, 0.25, 1.0] };
    let mut expected = Vec::new();
    expected.extend_from_slice(&lit.alive.to_ne_bytes());
    for channel in lit.color {
        expected.extend_from_slice(&channel.to_ne_bytes());
    }
    let cells = [Cell::from(lit)];
    assert_eq!(create_storage_buffer_with_data(&cells, None).contents, expected);
    assert_eq!(flatten_cells(&cells).len(), 5);
}

#[test]
fn params_are_plain_and_copyable() {
    let params = AutomataParams { is_paused: true, frame: 3, frame_queue_count: 2 };
    let copy = params;
    assert_eq!(copy, params);
    assert_eq!(format!("{:?}", AutomataParams::default()).is_empty(), false);
}
