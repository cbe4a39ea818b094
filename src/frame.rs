use vstd::prelude::*;

verus! {

/// What the renderer shows for one entity: a cell of the sprite sheet, and
/// whether that cell is mirrored horizontally.
#[derive(Clone, Copy, PartialEq, Eq, Structural, Debug)]
pub struct SpriteFrame {
    pub index: usize,
    pub flip_x: bool,
}

/// The magnitude of a frame identifier.
pub open spec fn frame_magnitude(frame: i8) -> int {
    if frame < 0 {
        -(frame as int)
    } else {
        frame as int
    }
}

/// The sheet cell that a frame identifier addresses: its magnitude is a
/// 1-based cell number, wrapped round the number of cells of the sheet.
pub open spec fn render_index(frame: i8, cells: nat) -> int {
    (frame_magnitude(frame) - 1) % (cells as int)
}

/// A negative frame identifier shows its cell mirrored.
pub open spec fn render_flip(frame: i8) -> bool {
    frame < 0
}

/// The render output that a frame identifier stands for.
pub open spec fn spec_encode_frame(frame: i8, cells: nat) -> SpriteFrame {
    SpriteFrame { index: render_index(frame, cells) as usize, flip_x: render_flip(frame) }
}

/// Turns a signed frame identifier into a sheet cell and a mirror flag.
pub fn encode_frame(frame: i8, cells: usize) -> (r: SpriteFrame)
    requires
        frame != 0,
        cells > 0,
    ensures
        r == spec_encode_frame(frame, cells as nat),
        0 <= r.index < cells,
{
    let magnitude: u8 = if frame < 0 {
        (-(frame as i16)) as u8
    } else {
        frame as u8
    };
    let index: usize = ((magnitude - 1) as usize) % cells;
    SpriteFrame { index, flip_x: frame < 0 }
}

} // verus!
