//! Cutting a frame into a square grid of equal parts.

use crate::screenshot::{channel, Screenshot};
use crate::text::{decimal_string, decimal_text};
use vstd::prelude::*;

verus! {

/// Whether `part` is the part in column `column` and row `row` of a frame that is
/// cut into `parts_per_side` columns and as many rows: it is as wide and as high
/// as the frame's width and height divided by `parts_per_side`, rounded down, and
/// holds the frame's pixels from its place in the grid.
pub open spec fn is_part(frame: &Screenshot, parts_per_side: int, column: int, row: int, part: Screenshot) -> bool {
    let width = frame.width as int / parts_per_side;
    let height = frame.height as int / parts_per_side;
    &&& part.width == width
    &&& part.height == height
    &&& part.well_formed()
    &&& forall|x: int, y: int, c: int|
        0 <= x < width && 0 <= y < height && 0 <= c < 4 ==> #[trigger] channel(part.data@, width, x, y, c)
            == channel(frame.data@, frame.width as int, column * width + x, row * height + y, c)
}

/// The parts of a grid lie inside the frame.
pub proof fn lemma_part_inside(size: int, parts_per_side: int, index: int)
    requires
        0 <= size,
        0 < parts_per_side,
        0 <= index < parts_per_side,
    ensures
        0 <= index * (size / parts_per_side),
        index * (size / parts_per_side) + size / parts_per_side <= size,
{
    let part = size / parts_per_side;
    assert(0 <= part && part * parts_per_side <= size) by (nonlinear_arith)
        requires
            part == size / parts_per_side,
            0 <= size,
            0 < parts_per_side,
    ;
    assert(0 <= index * part && index * part + part <= part * parts_per_side) by (nonlinear_arith)
        requires
            0 <= index < parts_per_side,
            0 <= part,
    ;
}

/// Cuts a frame into `parts_per_side * parts_per_side` parts, row by row from
/// the top and in each row from the left. What is left over at the right and at
/// the bottom, where the size is no multiple of `parts_per_side`, is in no part.
pub fn split(frame: &Screenshot, parts_per_side: usize) -> (parts: Vec<Screenshot>)
    requires
        frame.well_formed(),
        parts_per_side > 0,
    ensures
        parts@.len() == parts_per_side * parts_per_side,
        forall|column: int, row: int|
            0 <= column < parts_per_side && 0 <= row < parts_per_side ==> is_part(
                frame,
                parts_per_side as int,
                column,
                row,
                #[trigger] parts@[row * parts_per_side + column],
            ),
{
    let part_width: usize = frame.width / parts_per_side;
    let part_height: usize = frame.height / parts_per_side;
    let size: usize = frame.data.len();
    proof {
        lemma_part_inside(frame.width as int, parts_per_side as int, 0);
        lemma_part_inside(frame.height as int, parts_per_side as int, 0);
        assert(part_width * part_height * 4 <= frame.width * frame.height * 4) by (nonlinear_arith)
            requires
                0 <= part_width <= frame.width,
                0 <= part_height <= frame.height,
        ;
    }
    let mut parts: Vec<Screenshot> = Vec::new();
    let mut row: usize = 0;
    while row < parts_per_side
        invariant
            frame.well_formed(),
            parts_per_side > 0,
            part_width == frame.width / parts_per_side,
            part_height == frame.height / parts_per_side,
            part_width * part_height * 4 <= usize::MAX,
            0 <= row <= parts_per_side,
            parts@.len() == row * parts_per_side,
            forall|c: int, r: int|
                0 <= c < parts_per_side && 0 <= r < row ==> is_part(
                    frame,
                    parts_per_side as int,
                    c,
                    r,
                    #[trigger] parts@[r * parts_per_side + c],
                ),
        decreases parts_per_side - row,
    {
        let mut column: usize = 0;
        while column < parts_per_side
            invariant
                frame.well_formed(),
                parts_per_side > 0,
                part_width == frame.width / parts_per_side,
                part_height == frame.height / parts_per_side,
                part_width * part_height * 4 <= usize::MAX,
                0 <= row < parts_per_side,
                0 <= column <= parts_per_side,
                parts@.len() == row * parts_per_side + column,
                forall|c: int, r: int|
                    0 <= c < parts_per_side && 0 <= r < row ==> is_part(
                        frame,
                        parts_per_side as int,
                        c,
                        r,
                        #[trigger] parts@[r * parts_per_side + c],
                    ),
                forall|c: int|
                    0 <= c < column ==> is_part(
                        frame,
                        parts_per_side as int,
                        c,
                        row as int,
                        #[trigger] parts@[row * parts_per_side + c],
                    ),
            decreases parts_per_side - column,
        {
            proof {
                lemma_part_inside(frame.width as int, parts_per_side as int, column as int);
                lemma_part_inside(frame.height as int, parts_per_side as int, row as int);
            }
            let left: usize = column * part_width;
            let top: usize = row * part_height;
            let part = frame.get_area(left, top, part_width, part_height);
            proof {
                assert forall|x: int, y: int, c: int|
                    0 <= x < part_width && 0 <= y < part_height && 0 <= c < 4 implies #[trigger] channel(
                    part.data@,
                    part_width as int,
                    x,
                    y,
                    c,
                ) == channel(frame.data@, frame.width as int, left + x, top + y, c) by {
                    assert(left + x < frame.width && top + y < frame.height);
                }
                assert(is_part(frame, parts_per_side as int, column as int, row as int, part));
            }
            let ghost before = parts@;
            parts.push(part);
            proof {
                assert forall|c: int, r: int| 0 <= c < parts_per_side && 0 <= r < row implies is_part(
                    frame,
                    parts_per_side as int,
                    c,
                    r,
                    #[trigger] parts@[r * parts_per_side + c],
                ) by {
                    assert(r * parts_per_side + c < row * parts_per_side) by (nonlinear_arith)
                        requires
                            0 <= c < parts_per_side,
                            0 <= r < row,
                    ;
                    assert(parts@[r * parts_per_side + c] == before[r * parts_per_side + c]);
                }
                assert forall|c: int| 0 <= c < column + 1 implies is_part(
                    frame,
                    parts_per_side as int,
                    c,
                    row as int,
                    #[trigger] parts@[row * parts_per_side + c],
                ) by {
                    if c < column {
                        assert(parts@[row * parts_per_side + c] == before[row * parts_per_side + c]);
                    }
                }
            }
            column = column + 1;
        }
        proof {
            assert(row * parts_per_side + parts_per_side == (row + 1) * parts_per_side) by (nonlinear_arith);
        }
        row = row + 1;
    }
    parts
}

/// Where the part number `idx` of a picture is stored: in the directory
/// `save_path`, under the picture's name without its ending, followed by
/// `_split_`, the number, a dot and the ending.
pub open spec fn output_path_text(save_path: Seq<char>, file_stem: Seq<char>, extension: Seq<char>, idx: nat) -> Seq<
    char,
> {
    save_path + "/"@ + file_stem + "_split_"@ + decimal_text(idx) + "."@ + extension
}

/// Where the part number `idx` of a picture is stored, given the picture's name
/// without its ending and the ending.
pub fn output_path(save_path: &str, file_stem: &str, extension: &str, idx: usize) -> (path: String)
    ensures
        path@ == output_path_text(save_path@, file_stem@, extension@, idx as nat),
{
    let number = decimal_string(idx as u128);
    String::from_str(save_path).concat("/").concat(file_stem).concat("_split_").concat(number.as_str()).concat(
        ".",
    ).concat(extension)
}

} // verus!
