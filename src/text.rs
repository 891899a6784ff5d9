use vstd::prelude::*;
use vstd::string::StrSliceExecFns;
use crate::color::Color;
use crate::framebuffer::{Framebuffer, is_image, lemma_rect_off_bottom, lemma_rect_off_right, rect_filled};

verus! {

/// The dots of the glyph for `c`, as (column, row) offsets inside a cell
/// five dots wide; rows 7 and 8 hold descenders. A character without a
/// glyph, and the space, have no dots.
pub open spec fn glyph(c: char) -> Seq<(u8, u8)> {
    match c {
        'A' => seq![(1u8, 0u8), (2u8, 0u8), (3u8, 0u8), (0u8, 1u8), (4u8, 1u8), (0u8, 2u8), (4u8, 2u8), (0u8, 3u8), (1u8, 3u8), (2u8, 3u8), (3u8, 3u8), (4u8, 3u8), (0u8, 4u8), (4u8, 4u8), (0u8, 5u8), (4u8, 5u8), (0u8, 6u8), (4u8, 6u8)],
        'B' => seq![(0u8, 0u8), (1u8, 0u8), (2u8, 0u8), (3u8, 0u8), (0u8, 1u8), (4u8, 1u8), (0u8, 2u8), (4u8, 2u8), (0u8, 3u8), (1u8, 3u8), (2u8, 3u8), (3u8, 3u8), (0u8, 4u8), (4u8, 4u8), (0u8, 5u8), (4u8, 5u8), (0u8, 6u8), (1u8, 6u8), (2u8, 6u8), (3u8, 6u8)],
        'C' => seq![(1u8, 0u8), (2u8, 0u8), (3u8, 0u8), (0u8, 1u8), (4u8, 1u8), (0u8, 2u8), (0u8, 3u8), (0u8, 4u8), (0u8, 5u8), (4u8, 5u8), (1u8, 6u8), (2u8, 6u8), (3u8, 6u8)],
        'D' => seq![(0u8, 0u8), (1u8, 0u8), (2u8, 0u8), (3u8, 0u8), (0u8, 1u8), (4u8, 1u8), (0u8, 2u8), (4u8, 2u8), (0u8, 3u8), (4u8, 3u8), (0u8, 4u8), (4u8, 4u8), (0u8, 5u8), (4u8, 5u8), (0u8, 6u8), (1u8, 6u8), (2u8, 6u8), (3u8, 6u8)],
        'E' => seq![(0u8, 0u8), (1u8, 0u8), (2u8, 0u8), (3u8, 0u8), (4u8, 0u8), (0u8, 1u8), (0u8, 2u8), (0u8, 3u8), (1u8, 3u8), (2u8, 3u8), (3u8, 3u8), (0u8, 4u8), (0u8, 5u8), (0u8, 6u8), (1u8, 6u8), (2u8, 6u8), (3u8, 6u8), (4u8, 6u8)],
        'F' => seq![(0u8, 0u8), (1u8, 0u8), (2u8, 0u8), (3u8, 0u8), (4u8, 0u8), (0u8, 1u8), (0u8, 2u8), (0u8, 3u8), (1u8, 3u8), (2u8, 3u8), (3u8, 3u8), (0u8, 4u8), (0u8, 5u8), (0u8, 6u8)],
        'G' => seq![(1u8, 0u8), (2u8, 0u8), (3u8, 0u8), (0u8, 1u8), (4u8, 1u8), (0u8, 2u8), (0u8, 3u8), (0u8, 4u8), (3u8, 4u8), (4u8, 4u8), (0u8, 5u8), (4u8, 5u8), (1u8, 6u8), (2u8, 6u8), (3u8, 6u8)],
        'H' => seq![(0u8, 0u8), (4u8, 0u8), (0u8, 1u8), (4u8, 1u8), (0u8, 2u8), (4u8, 2u8), (0u8, 3u8), (1u8, 3u8), (2u8, 3u8), (3u8, 3u8), (4u8, 3u8), (0u8, 4u8), (4u8, 4u8), (0u8, 5u8), (4u8, 5u8), (0u8, 6u8), (4u8, 6u8)],
        'I' => seq![(0u8, 0u8), (1u8, 0u8), (2u8, 0u8), (3u8, 0u8), (4u8, 0u8), (2u8, 1u8), (2u8, 2u8), (2u8, 3u8), (2u8, 4u8), (2u8, 5u8), (0u8, 6u8), (1u8, 6u8), (2u8, 6u8), (3u8, 6u8), (4u8, 6u8)],
        'J' => seq![(0u8, 0u8), (1u8, 0u8), (2u8, 0u8), (3u8, 0u8), (4u8, 0u8), (2u8, 1u8), (2u8, 2u8), (2u8, 3u8), (2u8, 4u8), (0u8, 5u8), (2u8, 5u8), (1u8, 6u8)],
        'K' => seq![(0u8, 0u8), (4u8, 0u8), (0u8, 1u8), (3u8, 1u8), (0u8, 2u8), (2u8, 2u8), (0u8, 3u8), (1u8, 3u8), (0u8, 4u8), (2u8, 4u8), (0u8, 5u8), (3u8, 5u8), (0u8, 6u8), (4u8, 6u8)],
        'L' => seq![(0u8, 0u8), (0u8, 1u8), (0u8, 2u8), (0u8, 3u8), (0u8, 4u8), (0u8, 5u8), (0u8, 6u8), (1u8, 6u8), (2u8, 6u8), (3u8, 6u8), (4u8, 6u8)],
        'M' => seq![(0u8, 0u8), (4u8, 0u8), (0u8, 1u8), (1u8, 1u8), (3u8, 1u8), (4u8, 1u8), (0u8, 2u8), (2u8, 2u8), (4u8, 2u8), (0u8, 3u8), (4u8, 3u8), (0u8, 4u8), (4u8, 4u8), (0u8, 5u8), (4u8, 5u8), (0u8, 6u8), (4u8, 6u8)],
        'N' => seq![(0u8, 0u8), (4u8, 0u8), (0u8, 1u8), (1u8, 1u8), (4u8, 1u8), (0u8, 2u8), (2u8, 2u8), (4u8, 2u8), (0u8, 3u8), (2u8, 3u8), (4u8, 3u8), (0u8, 4u8), (3u8, 4u8), (4u8, 4u8), (0u8, 5u8), (3u8, 5u8), (4u8, 5u8), (0u8, 6u8), (4u8, 6u8)],
        'O' => seq![(1u8, 0u8), (2u8, 0u8), (3u8, 0u8), (0u8, 1u8), (4u8, 1u8), (0u8, 2u8), (4u8, 2u8), (0u8, 3u8), (4u8, 3u8), (0u8, 4u8), (4u8, 4u8), (0u8, 5u8), (4u8, 5u8), (1u8, 6u8), (2u8, 6u8), (3u8, 6u8)],
        'P' => seq![(0u8, 0u8), (1u8, 0u8), (2u8, 0u8), (3u8, 0u8), (0u8, 1u8), (4u8, 1u8), (0u8, 2u8), (4u8, 2u8), (0u8, 3u8), (1u8, 3u8), (2u8, 3u8), (3u8, 3u8), (0u8, 4u8), (0u8, 5u8), (0u8, 6u8)],
        'Q' => seq![(1u8, 0u8), (2u8, 0u8), (3u8, 0u8), (0u8, 1u8), (4u8, 1u8), (0u8, 2u8), (4u8, 2u8), (0u8, 3u8), (4u8, 3u8), (0u8, 4u8), (2u8, 4u8), (4u8, 4u8), (0u8, 5u8), (3u8, 5u8), (1u8, 6u8), (2u8, 6u8), (4u8, 6u8)],
        'R' => seq![(0u8, 0u8), (1u8, 0u8), (2u8, 0u8), (3u8, 0u8), (0u8, 1u8), (4u8, 1u8), (0u8, 2u8), (4u8, 2u8), (0u8, 3u8), (1u8, 3u8), (2u8, 3u8), (3u8, 3u8), (0u8, 4u8), (2u8, 4u8), (0u8, 5u8), (3u8, 5u8), (0u8, 6u8), (4u8, 6u8)],
        'S' => seq![(1u8, 0u8), (2u8, 0u8), (3u8, 0u8), (0u8, 1u8), (4u8, 1u8), (0u8, 2u8), (1u8, 3u8), (2u8, 3u8), (3u8, 3u8), (4u8, 4u8), (0u8, 5u8), (4u8, 5u8), (1u8, 6u8), (2u8, 6u8), (3u8, 6u8)],
        'T' => seq![(0u8, 0u8), (1u8, 0u8), (2u8, 0u8), (3u8, 0u8), (4u8, 0u8), (2u8, 1u8), (2u8, 2u8), (2u8, 3u8), (2u8, 4u8), (2u8, 5u8), (2u8, 6u8)],
        'U' => seq![(0u8, 0u8), (4u8, 0u8), (0u8, 1u8), (4u8, 1u8), (0u8, 2u8), (4u8, 2u8), (0u8, 3u8), (4u8, 3u8), (0u8, 4u8), (4u8, 4u8), (0u8, 5u8), (4u8, 5u8), (1u8, 6u8), (2u8, 6u8), (3u8, 6u8)],
        'V' => seq![(0u8, 0u8), (4u8, 0u8), (0u8, 1u8), (4u8, 1u8), (0u8, 2u8), (4u8, 2u8), (0u8, 3u8), (4u8, 3u8), (1u8, 4u8), (3u8, 4u8), (1u8, 5u8), (3u8, 5u8), (2u8, 6u8)],
        'W' => seq![(0u8, 0u8), (4u8, 0u8), (0u8, 1u8), (4u8, 1u8), (0u8, 2u8), (4u8, 2u8), (0u8, 3u8), (4u8, 3u8), (0u8, 4u8), (2u8, 4u8), (4u8, 4u8), (0u8, 5u8), (2u8, 5u8), (4u8, 5u8), (1u8, 6u8), (3u8, 6u8)],
        'X' => seq![(0u8, 0u8), (4u8, 0u8), (0u8, 1u8), (4u8, 1u8), (1u8, 2u8), (3u8, 2u8), (2u8, 3u8), (1u8, 4u8), (3u8, 4u8), (0u8, 5u8), (4u8, 5u8), (0u8, 6u8), (4u8, 6u8)],
        'Y' => seq![(0u8, 0u8), (4u8, 0u8), (0u8, 1u8), (4u8, 1u8), (1u8, 2u8), (3u8, 2u8), (2u8, 3u8), (2u8, 4u8), (2u8, 5u8), (2u8, 6u8)],
        'Z' => seq![(0u8, 0u8), (1u8, 0u8), (2u8, 0u8), (3u8, 0u8), (4u8, 0u8), (4u8, 1u8), (3u8, 2u8), (2u8, 3u8), (1u8, 4u8), (0u8, 5u8), (0u8, 6u8), (1u8, 6u8), (2u8, 6u8), (3u8, 6u8), (4u8, 6u8)],
        'a' => seq![(1u8, 2u8), (2u8, 2u8), (3u8, 2u8), (0u8, 3u8), (4u8, 3u8), (1u8, 4u8), (2u8, 4u8), (3u8, 4u8), (4u8, 4u8), (0u8, 5u8), (4u8, 5u8), (1u8, 6u8), (2u8, 6u8), (3u8, 6u8), (4u8, 6u8)],
        'b' => seq![(0u8, 0u8), (0u8, 1u8), (0u8, 2u8), (1u8, 2u8), (2u8, 2u8), (3u8, 2u8), (0u8, 3u8), (4u8, 3u8), (0u8, 4u8), (4u8, 4u8), (0u8, 5u8), (4u8, 5u8), (0u8, 6u8), (1u8, 6u8), (2u8, 6u8), (3u8, 6u8)],
        'c' => seq![(1u8, 2u8), (2u8, 2u8), (3u8, 2u8), (0u8, 3u8), (0u8, 4u8), (0u8, 5u8), (1u8, 6u8), (2u8, 6u8), (3u8, 6u8)],
        'd' => seq![(4u8, 0u8), (4u8, 1u8), (1u8, 2u8), (2u8, 2u8), (3u8, 2u8), (4u8, 2u8), (0u8, 3u8), (4u8, 3u8), (0u8, 4u8), (4u8, 4u8), (0u8, 5u8), (4u8, 5u8), (1u8, 6u8), (2u8, 6u8), (3u8, 6u8), (4u8, 6u8)],
        'e' => seq![(1u8, 2u8), (2u8, 2u8), (3u8, 2u8), (0u8, 3u8), (4u8, 3u8), (0u8, 4u8), (1u8, 4u8), (2u8, 4u8), (3u8, 4u8), (4u8, 4u8), (0u8, 5u8), (1u8, 6u8), (2u8, 6u8), (3u8, 6u8)],
        'f' => seq![(2u8, 0u8), (3u8, 0u8), (1u8, 1u8), (1u8, 2u8), (0u8, 3u8), (1u8, 3u8), (2u8, 3u8), (1u8, 4u8), (1u8, 5u8), (1u8, 6u8)],
        'g' => seq![(1u8, 2u8), (2u8, 2u8), (3u8, 2u8), (4u8, 2u8), (0u8, 3u8), (4u8, 3u8), (0u8, 4u8), (4u8, 4u8), (1u8, 5u8), (2u8, 5u8), (3u8, 5u8), (4u8, 5u8), (4u8, 6u8), (1u8, 7u8), (2u8, 7u8), (3u8, 7u8)],
        'h' => seq![(0u8, 0u8), (0u8, 1u8), (0u8, 2u8), (1u8, 2u8), (2u8, 2u8), (3u8, 2u8), (0u8, 3u8), (4u8, 3u8), (0u8, 4u8), (4u8, 4u8), (0u8, 5u8), (4u8, 5u8), (0u8, 6u8), (4u8, 6u8)],
        'i' => seq![(2u8, 0u8), (2u8, 2u8), (2u8, 3u8), (2u8, 4u8), (2u8, 5u8), (2u8, 6u8)],
        'j' => seq![(3u8, 0u8), (3u8, 2u8), (3u8, 3u8), (3u8, 4u8), (3u8, 5u8), (0u8, 6u8), (1u8, 6u8), (2u8, 6u8)],
        'k' => seq![(0u8, 0u8), (0u8, 1u8), (0u8, 2u8), (3u8, 2u8), (0u8, 3u8), (2u8, 3u8), (0u8, 4u8), (1u8, 4u8), (0u8, 5u8), (2u8, 5u8), (0u8, 6u8), (3u8, 6u8)],
        'l' => seq![(1u8, 0u8), (1u8, 1u8), (1u8, 2u8), (1u8, 3u8), (1u8, 4u8), (1u8, 5u8), (2u8, 6u8)],
        'm' => seq![(0u8, 2u8), (2u8, 2u8), (4u8, 2u8), (0u8, 3u8), (1u8, 3u8), (3u8, 3u8), (4u8, 3u8), (0u8, 4u8), (2u8, 4u8), (4u8, 4u8), (0u8, 5u8), (2u8, 5u8), (4u8, 5u8), (0u8, 6u8), (2u8, 6u8), (4u8, 6u8)],
        'n' => seq![(0u8, 2u8), (1u8, 2u8), (2u8, 2u8), (3u8, 2u8), (0u8, 3u8), (4u8, 3u8), (0u8, 4u8), (4u8, 4u8), (0u8, 5u8), (4u8, 5u8), (0u8, 6u8), (4u8, 6u8)],
        'o' => seq![(1u8, 2u8), (2u8, 2u8), (3u8, 2u8), (0u8, 3u8), (4u8, 3u8), (0u8, 4u8), (4u8, 4u8), (0u8, 5u8), (4u8, 5u8), (1u8, 6u8), (2u8, 6u8), (3u8, 6u8)],
        'p' => seq![(0u8, 2u8), (1u8, 2u8), (2u8, 2u8), (3u8, 2u8), (0u8, 3u8), (4u8, 3u8), (0u8, 4u8), (4u8, 4u8), (0u8, 5u8), (1u8, 5u8), (2u8, 5u8), (3u8, 5u8), (0u8, 6u8), (0u8, 7u8), (0u8, 8u8)],
        'q' => seq![(1u8, 2u8), (2u8, 2u8), (3u8, 2u8), (4u8, 2u8), (0u8, 3u8), (4u8, 3u8), (0u8, 4u8), (4u8, 4u8), (1u8, 5u8), (2u8, 5u8), (3u8, 5u8), (4u8, 5u8), (4u8, 6u8), (4u8, 7u8), (4u8, 8u8)],
        'r' => seq![(0u8, 2u8), (1u8, 2u8), (2u8, 2u8), (3u8, 2u8), (0u8, 3u8), (4u8, 3u8), (0u8, 4u8), (0u8, 5u8), (0u8, 6u8)],
        's' => seq![(1u8, 2u8), (2u8, 2u8), (3u8, 2u8), (4u8, 2u8), (0u8, 3u8), (1u8, 4u8), (2u8, 4u8), (3u8, 4u8), (4u8, 5u8), (0u8, 6u8), (1u8, 6u8), (2u8, 6u8), (3u8, 6u8)],
        't' => seq![(2u8, 0u8), (2u8, 1u8), (1u8, 2u8), (2u8, 2u8), (3u8, 2u8), (2u8, 3u8), (2u8, 4u8), (2u8, 5u8), (3u8, 6u8)],
        'u' => seq![(0u8, 2u8), (4u8, 2u8), (0u8, 3u8), (4u8, 3u8), (0u8, 4u8), (4u8, 4u8), (0u8, 5u8), (3u8, 5u8), (4u8, 5u8), (1u8, 6u8), (2u8, 6u8), (4u8, 6u8)],
        'v' => seq![(0u8, 2u8), (4u8, 2u8), (0u8, 3u8), (4u8, 3u8), (0u8, 4u8), (4u8, 4u8), (1u8, 5u8), (3u8, 5u8), (2u8, 6u8)],
        'w' => seq![(0u8, 2u8), (2u8, 2u8), (4u8, 2u8), (0u8, 3u8), (2u8, 3u8), (4u8, 3u8), (0u8, 4u8), (2u8, 4u8), (4u8, 4u8), (0u8, 5u8), (2u8, 5u8), (4u8, 5u8), (1u8, 6u8), (3u8, 6u8)],
        'x' => seq![(0u8, 2u8), (4u8, 2u8), (1u8, 3u8), (3u8, 3u8), (2u8, 4u8), (1u8, 5u8), (3u8, 5u8), (0u8, 6u8), (4u8, 6u8)],
        'y' => seq![(0u8, 2u8), (4u8, 2u8), (0u8, 3u8), (4u8, 3u8), (0u8, 4u8), (4u8, 4u8), (1u8, 5u8), (2u8, 5u8), (3u8, 5u8), (4u8, 5u8), (4u8, 6u8), (1u8, 7u8), (2u8, 7u8), (3u8, 7u8)],
        'z' => seq![(0u8, 2u8), (1u8, 2u8), (2u8, 2u8), (3u8, 2u8), (4u8, 2u8), (3u8, 3u8), (2u8, 4u8), (1u8, 5u8), (0u8, 6u8), (1u8, 6u8), (2u8, 6u8), (3u8, 6u8), (4u8, 6u8)],
        '0' => seq![(1u8, 0u8), (2u8, 0u8), (3u8, 0u8), (0u8, 1u8), (4u8, 1u8), (0u8, 2u8), (3u8, 2u8), (4u8, 2u8), (0u8, 3u8), (2u8, 3u8), (4u8, 3u8), (0u8, 4u8), (1u8, 4u8), (4u8, 4u8), (0u8, 5u8), (4u8, 5u8), (1u8, 6u8), (2u8, 6u8), (3u8, 6u8)],
        '1' => seq![(2u8, 0u8), (1u8, 1u8), (2u8, 1u8), (0u8, 2u8), (2u8, 2u8), (2u8, 3u8), (2u8, 4u8), (2u8, 5u8), (0u8, 6u8), (1u8, 6u8), (2u8, 6u8), (3u8, 6u8), (4u8, 6u8)],
        '2' => seq![(1u8, 0u8), (2u8, 0u8), (3u8, 0u8), (0u8, 1u8), (4u8, 1u8), (4u8, 2u8), (2u8, 3u8), (3u8, 3u8), (1u8, 4u8), (0u8, 5u8), (0u8, 6u8), (1u8, 6u8), (2u8, 6u8), (3u8, 6u8), (4u8, 6u8)],
        '3' => seq![(1u8, 0u8), (2u8, 0u8), (3u8, 0u8), (0u8, 1u8), (4u8, 1u8), (4u8, 2u8), (2u8, 3u8), (3u8, 3u8), (4u8, 4u8), (0u8, 5u8), (4u8, 5u8), (1u8, 6u8), (2u8, 6u8), (3u8, 6u8)],
        '4' => seq![(3u8, 0u8), (2u8, 1u8), (3u8, 1u8), (1u8, 2u8), (3u8, 2u8), (0u8, 3u8), (3u8, 3u8), (0u8, 4u8), (1u8, 4u8), (2u8, 4u8), (3u8, 4u8), (4u8, 4u8), (3u8, 5u8), (3u8, 6u8)],
        '5' => seq![(0u8, 0u8), (1u8, 0u8), (2u8, 0u8), (3u8, 0u8), (4u8, 0u8), (0u8, 1u8), (0u8, 2u8), (0u8, 3u8), (1u8, 3u8), (2u8, 3u8), (3u8, 3u8), (4u8, 4u8), (0u8, 5u8), (4u8, 5u8), (1u8, 6u8), (2u8, 6u8), (3u8, 6u8)],
        '6' => seq![(1u8, 0u8), (2u8, 0u8), (3u8, 0u8), (0u8, 1u8), (0u8, 2u8), (0u8, 3u8), (1u8, 3u8), (2u8, 3u8), (3u8, 3u8), (0u8, 4u8), (4u8, 4u8), (0u8, 5u8), (4u8, 5u8), (1u8, 6u8), (2u8, 6u8), (3u8, 6u8)],
        '7' => seq![(0u8, 0u8), (1u8, 0u8), (2u8, 0u8), (3u8, 0u8), (4u8, 0u8), (4u8, 1u8), (3u8, 2u8), (2u8, 3u8), (2u8, 4u8), (2u8, 5u8), (2u8, 6u8)],
        '8' => seq![(1u8, 0u8), (2u8, 0u8), (3u8, 0u8), (0u8, 1u8), (4u8, 1u8), (0u8, 2u8), (4u8, 2u8), (1u8, 3u8), (2u8, 3u8), (3u8, 3u8), (0u8, 4u8), (4u8, 4u8), (0u8, 5u8), (4u8, 5u8), (1u8, 6u8), (2u8, 6u8), (3u8, 6u8)],
        '9' => seq![(1u8, 0u8), (2u8, 0u8), (3u8, 0u8), (0u8, 1u8), (4u8, 1u8), (0u8, 2u8), (4u8, 2u8), (1u8, 3u8), (2u8, 3u8), (3u8, 3u8), (4u8, 3u8), (4u8, 4u8), (4u8, 5u8), (1u8, 6u8), (2u8, 6u8), (3u8, 6u8)],
        ' ' => seq![],
        ':' => seq![(2u8, 1u8), (2u8, 2u8), (2u8, 4u8), (2u8, 5u8)],
        '.' => seq![(2u8, 5u8), (2u8, 6u8)],
        ',' => seq![(2u8, 5u8), (2u8, 6u8), (1u8, 7u8)],
        '=' => seq![(0u8, 2u8), (1u8, 2u8), (2u8, 2u8), (3u8, 2u8), (4u8, 2u8), (0u8, 4u8), (1u8, 4u8), (2u8, 4u8), (3u8, 4u8), (4u8, 4u8)],
        '|' => seq![(2u8, 0u8), (2u8, 1u8), (2u8, 2u8), (2u8, 3u8), (2u8, 4u8), (2u8, 5u8), (2u8, 6u8)],
        '-' => seq![(0u8, 3u8), (1u8, 3u8), (2u8, 3u8), (3u8, 3u8), (4u8, 3u8)],
        '_' => seq![(0u8, 6u8), (1u8, 6u8), (2u8, 6u8), (3u8, 6u8), (4u8, 6u8)],
        '+' => seq![(2u8, 1u8), (2u8, 2u8), (0u8, 3u8), (1u8, 3u8), (2u8, 3u8), (3u8, 3u8), (4u8, 3u8), (2u8, 4u8), (2u8, 5u8)],
        '/' => seq![(4u8, 0u8), (4u8, 1u8), (3u8, 2u8), (2u8, 3u8), (1u8, 4u8), (0u8, 5u8), (0u8, 6u8)],
        _ => seq![],
    }
}

/// Every dot of every glyph lies inside a cell five dots wide and nine
/// rows high.
pub proof fn lemma_glyph_in_cell(c: char)
    ensures
        forall|k: int| 0 <= k < glyph(c).len() ==> #[trigger] glyph(c)[k].0 < 5 && glyph(c)[k].1 < 9,
{
}

/// Looks up the glyph table.
pub fn glyph_dots(c: char) -> (v: Vec<(u8, u8)>)
    ensures
        v@ == glyph(c),
{
    let v: Vec<(u8, u8)> = match c {
        'A' => vec![(1, 0), (2, 0), (3, 0), (0, 1), (4, 1), (0, 2), (4, 2), (0, 3), (1, 3), (2, 3), (3, 3), (4, 3), (0, 4), (4, 4), (0, 5), (4, 5), (0, 6), (4, 6)],
        'B' => vec![(0, 0), (1, 0), (2, 0), (3, 0), (0, 1), (4, 1), (0, 2), (4, 2), (0, 3), (1, 3), (2, 3), (3, 3), (0, 4), (4, 4), (0, 5), (4, 5), (0, 6), (1, 6), (2, 6), (3, 6)],
        'C' => vec![(1, 0), (2, 0), (3, 0), (0, 1), (4, 1), (0, 2), (0, 3), (0, 4), (0, 5), (4, 5), (1, 6), (2, 6), (3, 6)],
        'D' => vec![(0, 0), (1, 0), (2, 0), (3, 0), (0, 1), (4, 1), (0, 2), (4, 2), (0, 3), (4, 3), (0, 4), (4, 4), (0, 5), (4, 5), (0, 6), (1, 6), (2, 6), (3, 6)],
        'E' => vec![(0, 0), (1, 0), (2, 0), (3, 0), (4, 0), (0, 1), (0, 2), (0, 3), (1, 3), (2, 3), (3, 3), (0, 4), (0, 5), (0, 6), (1, 6), (2, 6), (3, 6), (4, 6)],
        'F' => vec![(0, 0), (1, 0), (2, 0), (3, 0), (4, 0), (0, 1), (0, 2), (0, 3), (1, 3), (2, 3), (3, 3), (0, 4), (0, 5), (0, 6)],
        'G' => vec![(1, 0), (2, 0), (3, 0), (0, 1), (4, 1), (0, 2), (0, 3), (0, 4), (3, 4), (4, 4), (0, 5), (4, 5), (1, 6), (2, 6), (3, 6)],
        'H' => vec![(0, 0), (4, 0), (0, 1), (4, 1), (0, 2), (4, 2), (0, 3), (1, 3), (2, 3), (3, 3), (4, 3), (0, 4), (4, 4), (0, 5), (4, 5), (0, 6), (4, 6)],
        'I' => vec![(0, 0), (1, 0), (2, 0), (3, 0), (4, 0), (2, 1), (2, 2), (2, 3), (2, 4), (2, 5), (0, 6), (1, 6), (2, 6), (3, 6), (4, 6)],
        'J' => vec![(0, 0), (1, 0), (2, 0), (3, 0), (4, 0), (2, 1), (2, 2), (2, 3), (2, 4), (0, 5), (2, 5), (1, 6)],
        'K' => vec![(0, 0), (4, 0), (0, 1), (3, 1), (0, 2), (2, 2), (0, 3), (1, 3), (0, 4), (2, 4), (0, 5), (3, 5), (0, 6), (4, 6)],
        'L' => vec![(0, 0), (0, 1), (0, 2), (0, 3), (0, 4), (0, 5), (0, 6), (1, 6), (2, 6), (3, 6), (4, 6)],
        'M' => vec![(0, 0), (4, 0), (0, 1), (1, 1), (3, 1), (4, 1), (0, 2), (2, 2), (4, 2), (0, 3), (4, 3), (0, 4), (4, 4), (0, 5), (4, 5), (0, 6), (4, 6)],
        'N' => vec![(0, 0), (4, 0), (0, 1), (1, 1), (4, 1), (0, 2), (2, 2), (4, 2), (0, 3), (2, 3), (4, 3), (0, 4), (3, 4), (4, 4), (0, 5), (3, 5), (4, 5), (0, 6), (4, 6)],
        'O' => vec![(1, 0), (2, 0), (3, 0), (0, 1), (4, 1), (0, 2), (4, 2), (0, 3), (4, 3), (0, 4), (4, 4), (0, 5), (4, 5), (1, 6), (2, 6), (3, 6)],
        'P' => vec![(0, 0), (1, 0), (2, 0), (3, 0), (0, 1), (4, 1), (0, 2), (4, 2), (0, 3), (1, 3), (2, 3), (3, 3), (0, 4), (0, 5), (0, 6)],
        'Q' => vec![(1, 0), (2, 0), (3, 0), (0, 1), (4, 1), (0, 2), (4, 2), (0, 3), (4, 3), (0, 4), (2, 4), (4, 4), (0, 5), (3, 5), (1, 6), (2, 6), (4, 6)],
        'R' => vec![(0, 0), (1, 0), (2, 0), (3, 0), (0, 1), (4, 1), (0, 2), (4, 2), (0, 3), (1, 3), (2, 3), (3, 3), (0, 4), (2, 4), (0, 5), (3, 5), (0, 6), (4, 6)],
        'S' => vec![(1, 0), (2, 0), (3, 0), (0, 1), (4, 1), (0, 2), (1, 3), (2, 3), (3, 3), (4, 4), (0, 5), (4, 5), (1, 6), (2, 6), (3, 6)],
        'T' => vec![(0, 0), (1, 0), (2, 0), (3, 0), (4, 0), (2, 1), (2, 2), (2, 3), (2, 4), (2, 5), (2, 6)],
        'U' => vec![(0, 0), (4, 0), (0, 1), (4, 1), (0, 2), (4, 2), (0, 3), (4, 3), (0, 4), (4, 4), (0, 5), (4, 5), (1, 6), (2, 6), (3, 6)],
        'V' => vec![(0, 0), (4, 0), (0, 1), (4, 1), (0, 2), (4, 2), (0, 3), (4, 3), (1, 4), (3, 4), (1, 5), (3, 5), (2, 6)],
        'W' => vec![(0, 0), (4, 0), (0, 1), (4, 1), (0, 2), (4, 2), (0, 3), (4, 3), (0, 4), (2, 4), (4, 4), (0, 5), (2, 5), (4, 5), (1, 6), (3, 6)],
        'X' => vec![(0, 0), (4, 0), (0, 1), (4, 1), (1, 2), (3, 2), (2, 3), (1, 4), (3, 4), (0, 5), (4, 5), (0, 6), (4, 6)],
        'Y' => vec![(0, 0), (4, 0), (0, 1), (4, 1), (1, 2), (3, 2), (2, 3), (2, 4), (2, 5), (2, 6)],
        'Z' => vec![(0, 0), (1, 0), (2, 0), (3, 0), (4, 0), (4, 1), (3, 2), (2, 3), (1, 4), (0, 5), (0, 6), (1, 6), (2, 6), (3, 6), (4, 6)],
        'a' => vec![(1, 2), (2, 2), (3, 2), (0, 3), (4, 3), (1, 4), (2, 4), (3, 4), (4, 4), (0, 5), (4, 5), (1, 6), (2, 6), (3, 6), (4, 6)],
        'b' => vec![(0, 0), (0, 1), (0, 2), (1, 2), (2, 2), (3, 2), (0, 3), (4, 3), (0, 4), (4, 4), (0, 5), (4, 5), (0, 6), (1, 6), (2, 6), (3, 6)],
        'c' => vec![(1, 2), (2, 2), (3, 2), (0, 3), (0, 4), (0, 5), (1, 6), (2, 6), (3, 6)],
        'd' => vec![(4, 0), (4, 1), (1, 2), (2, 2), (3, 2), (4, 2), (0, 3), (4, 3), (0, 4), (4, 4), (0, 5), (4, 5), (1, 6), (2, 6), (3, 6), (4, 6)],
        'e' => vec![(1, 2), (2, 2), (3, 2), (0, 3), (4, 3), (0, 4), (1, 4), (2, 4), (3, 4), (4, 4), (0, 5), (1, 6), (2, 6), (3, 6)],
        'f' => vec![(2, 0), (3, 0), (1, 1), (1, 2), (0, 3), (1, 3), (2, 3), (1, 4), (1, 5), (1, 6)],
        'g' => vec![(1, 2), (2, 2), (3, 2), (4, 2), (0, 3), (4, 3), (0, 4), (4, 4), (1, 5), (2, 5), (3, 5), (4, 5), (4, 6), (1, 7), (2, 7), (3, 7)],
        'h' => vec![(0, 0), (0, 1), (0, 2), (1, 2), (2, 2), (3, 2), (0, 3), (4, 3), (0, 4), (4, 4), (0, 5), (4, 5), (0, 6), (4, 6)],
        'i' => vec![(2, 0), (2, 2), (2, 3), (2, 4), (2, 5), (2, 6)],
        'j' => vec![(3, 0), (3, 2), (3, 3), (3, 4), (3, 5), (0, 6), (1, 6), (2, 6)],
        'k' => vec![(0, 0), (0, 1), (0, 2), (3, 2), (0, 3), (2, 3), (0, 4), (1, 4), (0, 5), (2, 5), (0, 6), (3, 6)],
        'l' => vec![(1, 0), (1, 1), (1, 2), (1, 3), (1, 4), (1, 5), (2, 6)],
        'm' => vec![(0, 2), (2, 2), (4, 2), (0, 3), (1, 3), (3, 3), (4, 3), (0, 4), (2, 4), (4, 4), (0, 5), (2, 5), (4, 5), (0, 6), (2, 6), (4, 6)],
        'n' => vec![(0, 2), (1, 2), (2, 2), (3, 2), (0, 3), (4, 3), (0, 4), (4, 4), (0, 5), (4, 5), (0, 6), (4, 6)],
        'o' => vec![(1, 2), (2, 2), (3, 2), (0, 3), (4, 3), (0, 4), (4, 4), (0, 5), (4, 5), (1, 6), (2, 6), (3, 6)],
        'p' => vec![(0, 2), (1, 2), (2, 2), (3, 2), (0, 3), (4, 3), (0, 4), (4, 4), (0, 5), (1, 5), (2, 5), (3, 5), (0, 6), (0, 7), (0, 8)],
        'q' => vec![(1, 2), (2, 2), (3, 2), (4, 2), (0, 3), (4, 3), (0, 4), (4, 4), (1, 5), (2, 5), (3, 5), (4, 5), (4, 6), (4, 7), (4, 8)],
        'r' => vec![(0, 2), (1, 2), (2, 2), (3, 2), (0, 3), (4, 3), (0, 4), (0, 5), (0, 6)],
        's' => vec![(1, 2), (2, 2), (3, 2), (4, 2), (0, 3), (1, 4), (2, 4), (3, 4), (4, 5), (0, 6), (1, 6), (2, 6), (3, 6)],
        't' => vec![(2, 0), (2, 1), (1, 2), (2, 2), (3, 2), (2, 3), (2, 4), (2, 5), (3, 6)],
        'u' => vec![(0, 2), (4, 2), (0, 3), (4, 3), (0, 4), (4, 4), (0, 5), (3, 5), (4, 5), (1, 6), (2, 6), (4, 6)],
        'v' => vec![(0, 2), (4, 2), (0, 3), (4, 3), (0, 4), (4, 4), (1, 5), (3, 5), (2, 6)],
        'w' => vec![(0, 2), (2, 2), (4, 2), (0, 3), (2, 3), (4, 3), (0, 4), (2, 4), (4, 4), (0, 5), (2, 5), (4, 5), (1, 6), (3, 6)],
        'x' => vec![(0, 2), (4, 2), (1, 3), (3, 3), (2, 4), (1, 5), (3, 5), (0, 6), (4, 6)],
        'y' => vec![(0, 2), (4, 2), (0, 3), (4, 3), (0, 4), (4, 4), (1, 5), (2, 5), (3, 5), (4, 5), (4, 6), (1, 7), (2, 7), (3, 7)],
        'z' => vec![(0, 2), (1, 2), (2, 2), (3, 2), (4, 2), (3, 3), (2, 4), (1, 5), (0, 6), (1, 6), (2, 6), (3, 6), (4, 6)],
        '0' => vec![(1, 0), (2, 0), (3, 0), (0, 1), (4, 1), (0, 2), (3, 2), (4, 2), (0, 3), (2, 3), (4, 3), (0, 4), (1, 4), (4, 4), (0, 5), (4, 5), (1, 6), (2, 6), (3, 6)],
        '1' => vec![(2, 0), (1, 1), (2, 1), (0, 2), (2, 2), (2, 3), (2, 4), (2, 5), (0, 6), (1, 6), (2, 6), (3, 6), (4, 6)],
        '2' => vec![(1, 0), (2, 0), (3, 0), (0, 1), (4, 1), (4, 2), (2, 3), (3, 3), (1, 4), (0, 5), (0, 6), (1, 6), (2, 6), (3, 6), (4, 6)],
        '3' => vec![(1, 0), (2, 0), (3, 0), (0, 1), (4, 1), (4, 2), (2, 3), (3, 3), (4, 4), (0, 5), (4, 5), (1, 6), (2, 6), (3, 6)],
        '4' => vec![(3, 0), (2, 1), (3, 1), (1, 2), (3, 2), (0, 3), (3, 3), (0, 4), (1, 4), (2, 4), (3, 4), (4, 4), (3, 5), (3, 6)],
        '5' => vec![(0, 0), (1, 0), (2, 0), (3, 0), (4, 0), (0, 1), (0, 2), (0, 3), (1, 3), (2, 3), (3, 3), (4, 4), (0, 5), (4, 5), (1, 6), (2, 6), (3, 6)],
        '6' => vec![(1, 0), (2, 0), (3, 0), (0, 1), (0, 2), (0, 3), (1, 3), (2, 3), (3, 3), (0, 4), (4, 4), (0, 5), (4, 5), (1, 6), (2, 6), (3, 6)],
        '7' => vec![(0, 0), (1, 0), (2, 0), (3, 0), (4, 0), (4, 1), (3, 2), (2, 3), (2, 4), (2, 5), (2, 6)],
        '8' => vec![(1, 0), (2, 0), (3, 0), (0, 1), (4, 1), (0, 2), (4, 2), (1, 3), (2, 3), (3, 3), (0, 4), (4, 4), (0, 5), (4, 5), (1, 6), (2, 6), (3, 6)],
        '9' => vec![(1, 0), (2, 0), (3, 0), (0, 1), (4, 1), (0, 2), (4, 2), (1, 3), (2, 3), (3, 3), (4, 3), (4, 4), (4, 5), (1, 6), (2, 6), (3, 6)],
        ':' => vec![(2, 1), (2, 2), (2, 4), (2, 5)],
        '.' => vec![(2, 5), (2, 6)],
        ',' => vec![(2, 5), (2, 6), (1, 7)],
        '=' => vec![(0, 2), (1, 2), (2, 2), (3, 2), (4, 2), (0, 4), (1, 4), (2, 4), (3, 4), (4, 4)],
        '|' => vec![(2, 0), (2, 1), (2, 2), (2, 3), (2, 4), (2, 5), (2, 6)],
        '-' => vec![(0, 3), (1, 3), (2, 3), (3, 3), (4, 3)],
        '_' => vec![(0, 6), (1, 6), (2, 6), (3, 6), (4, 6)],
        '+' => vec![(2, 1), (2, 2), (0, 3), (1, 3), (2, 3), (3, 3), (4, 3), (2, 4), (2, 5)],
        '/' => vec![(4, 0), (4, 1), (3, 2), (2, 3), (1, 4), (0, 5), (0, 6)],
        _ => Vec::new(),
    };
    proof {
        assert(v@ =~= glyph(c));
    }
    v
}

/// `img` with each dot of `dots` drawn, in order, as a `scale` by `scale`
/// square of color `c`, dot (dx, dy) at (x + dx * scale, y + dy * scale).
pub open spec fn paint_dots(
    img: Seq<Seq<Color>>,
    dots: Seq<(u8, u8)>,
    x: int,
    y: int,
    scale: int,
    c: Color,
) -> Seq<Seq<Color>>
    decreases dots.len(),
{
    if dots.len() == 0 {
        img
    } else {
        let d = dots.last();
        rect_filled(
            paint_dots(img, dots.drop_last(), x, y, scale, c),
            x + d.0 * scale,
            y + d.1 * scale,
            scale,
            scale,
            c,
        )
    }
}

/// `img` with the characters of `text` drawn left to right in color `c`,
/// the i-th with its cell's top-left corner at (x + 8 * scale * i, y).
pub open spec fn paint_text(
    img: Seq<Seq<Color>>,
    text: Seq<char>,
    x: int,
    y: int,
    scale: int,
    c: Color,
) -> Seq<Seq<Color>>
    decreases text.len(),
{
    if text.len() == 0 {
        img
    } else {
        paint_dots(
            paint_text(img, text.drop_last(), x, y, scale, c),
            glyph(text.last()),
            x + 8 * scale * (text.len() - 1),
            y,
            scale,
            c,
        )
    }
}

proof fn lemma_dots_off_right(img: Seq<Seq<Color>>, w: nat, h: nat, dots: Seq<(u8, u8)>, x: int, y: int, scale: int, c: Color)
    requires
        is_image(img, w, h),
        x >= w,
        scale >= 0,
    ensures
        paint_dots(img, dots, x, y, scale, c) == img,
    decreases dots.len(),
{
    if dots.len() > 0 {
        lemma_dots_off_right(img, w, h, dots.drop_last(), x, y, scale, c);
        let d = dots.last();
        assert(d.0 * scale >= 0) by (nonlinear_arith)
            requires scale >= 0, d.0 >= 0;
        lemma_rect_off_right(img, w, h, x + d.0 * scale, y + d.1 * scale, scale, scale, c);
    }
}

/// Draws the glyph of `c` in the current color with its cell's top-left
/// corner at (x, y), each dot a `scale` by `scale` square; parts off the
/// canvas are skipped.
pub fn draw_char(framebuffer: &mut Framebuffer, c: char, x: i64, y: i64, scale: u32)
    requires
        old(framebuffer).wf(),
    ensures
        final(framebuffer).wf(),
        final(framebuffer).spec_width() == old(framebuffer).spec_width(),
        final(framebuffer).spec_height() == old(framebuffer).spec_height(),
        final(framebuffer).background() == old(framebuffer).background(),
        final(framebuffer).current() == old(framebuffer).current(),
        final(framebuffer).image() == paint_dots(
            old(framebuffer).image(),
            glyph(c),
            x as int,
            y as int,
            scale as int,
            old(framebuffer).current(),
        ),
{
    let ghost img0 = framebuffer.image();
    let ghost col = framebuffer.current();
    let ghost w = framebuffer.spec_width();
    let ghost h = framebuffer.spec_height();
    let pattern = glyph_dots(c);
    let mut k: usize = 0;
    while k < pattern.len()
        invariant
            framebuffer.wf(),
            framebuffer.spec_width() == w,
            framebuffer.spec_height() == h,
            w == old(framebuffer).spec_width(),
            h == old(framebuffer).spec_height(),
            framebuffer.background() == old(framebuffer).background(),
            framebuffer.current() == col,
            col == old(framebuffer).current(),
            img0 == old(framebuffer).image(),
            pattern@ == glyph(c),
            k <= pattern@.len(),
            framebuffer.image() == paint_dots(img0, pattern@.take(k as int), x as int, y as int, scale as int, col),
        decreases pattern@.len() - k,
    {
        let (dx, dy) = pattern[k];
        proof {
            assert(dx * scale <= 0xff * 0xffff_ffff) by (nonlinear_arith)
                requires dx <= 0xff, scale <= 0xffff_ffff;
            assert(dy * scale <= 0xff * 0xffff_ffff) by (nonlinear_arith)
                requires dy <= 0xff, scale <= 0xffff_ffff;
            assert(dx * scale >= 0) by (nonlinear_arith)
                requires dx >= 0, scale >= 0;
            assert(dy * scale >= 0) by (nonlinear_arith)
                requires dy >= 0, scale >= 0;
        }
        let px: i128 = x as i128 + dx as i128 * scale as i128;
        let py: i128 = y as i128 + dy as i128 * scale as i128;
        proof {
            assert(pattern@.take(k + 1).drop_last() == pattern@.take(k as int));
            assert(pattern@.take(k + 1).last() == pattern@[k as int]);
        }
        if px <= i64::MAX as i128 && py <= i64::MAX as i128 {
            framebuffer.fill_rect(px as i64, py as i64, scale as u64, scale as u64);
        } else if px > i64::MAX as i128 {
            proof {
                lemma_rect_off_right(framebuffer.image(), w, h, px as int, py as int, scale as int, scale as int, col);
            }
        } else {
            proof {
                lemma_rect_off_bottom(framebuffer.image(), w, h, px as int, py as int, scale as int, scale as int, col);
            }
        }
        k = k + 1;
    }
    proof {
        assert(pattern@.take(pattern@.len() as int) == pattern@);
    }
}

/// The characters of `s`, in order.
pub fn chars_of(s: &str) -> (v: Vec<char>)
    ensures
        v@ == s@,
{
    let n = s.unicode_len();
    let mut v: Vec<char> = Vec::new();
    let mut i: usize = 0;
    while i < n
        invariant
            n == s@.len(),
            i <= n,
            v@ == s@.take(i as int),
        decreases n - i,
    {
        v.push(s.get_char(i));
        proof {
            assert(s@.take(i + 1) =~= s@.take(i as int).push(s@[i as int]));
        }
        i = i + 1;
    }
    proof {
        assert(s@.take(n as int) =~= s@);
    }
    v
}

/// Draws `text` left to right in the current color, advancing the cursor by
/// 8 * scale pixels per character whatever its glyph; a character without a
/// glyph only advances the cursor.
pub fn draw_chars(framebuffer: &mut Framebuffer, text: &Vec<char>, x: i64, y: i64, scale: u32)
    requires
        old(framebuffer).wf(),
    ensures
        final(framebuffer).wf(),
        final(framebuffer).spec_width() == old(framebuffer).spec_width(),
        final(framebuffer).spec_height() == old(framebuffer).spec_height(),
        final(framebuffer).background() == old(framebuffer).background(),
        final(framebuffer).current() == old(framebuffer).current(),
        final(framebuffer).image() == paint_text(
            old(framebuffer).image(),
            text@,
            x as int,
            y as int,
            scale as int,
            old(framebuffer).current(),
        ),
{
    let ghost img0 = framebuffer.image();
    let ghost col = framebuffer.current();
    let ghost w = framebuffer.spec_width();
    let ghost h = framebuffer.spec_height();
    let mut i: usize = 0;
    let mut current_x: i128 = x as i128;
    while i < text.len()
        invariant
            framebuffer.wf(),
            framebuffer.spec_width() == w,
            framebuffer.spec_height() == h,
            w == old(framebuffer).spec_width(),
            h == old(framebuffer).spec_height(),
            framebuffer.background() == old(framebuffer).background(),
            framebuffer.current() == col,
            col == old(framebuffer).current(),
            img0 == old(framebuffer).image(),
            i <= text@.len(),
            current_x == x + 8 * scale * i,
            framebuffer.image() == paint_text(img0, text@.take(i as int), x as int, y as int, scale as int, col),
        decreases text@.len() - i,
    {
        proof {
            assert(text@.take(i + 1).drop_last() == text@.take(i as int));
            assert(text@.take(i + 1).last() == text@[i as int]);
            assert(8 * scale * i <= 8 * 0xffff_ffffint * 0xffff_ffff_ffff_ffffint) by (nonlinear_arith)
                requires scale <= 0xffff_ffff, i <= 0xffff_ffff_ffff_ffff;
        }
        if current_x <= i64::MAX as i128 {
            draw_char(framebuffer, text[i], current_x as i64, y, scale);
        } else {
            proof {
                lemma_dots_off_right(framebuffer.image(), w, h, glyph(text@[i as int]), current_x as int, y as int, scale as int, col);
            }
        }
        proof {
            assert(8 * scale * (i + 1) == 8 * scale * i + 8 * scale) by (nonlinear_arith);
        }
        current_x = current_x + 8 * scale as i128;
        i = i + 1;
    }
    proof {
        assert(text@.take(text@.len() as int) == text@);
    }
}

/// Draws `text` as `draw_chars` does.
pub fn draw_text(framebuffer: &mut Framebuffer, text: &str, x: i64, y: i64, scale: u32)
    requires
        old(framebuffer).wf(),
    ensures
        final(framebuffer).wf(),
        final(framebuffer).spec_width() == old(framebuffer).spec_width(),
        final(framebuffer).spec_height() == old(framebuffer).spec_height(),
        final(framebuffer).background() == old(framebuffer).background(),
        final(framebuffer).current() == old(framebuffer).current(),
        final(framebuffer).image() == paint_text(
            old(framebuffer).image(),
            text@,
            x as int,
            y as int,
            scale as int,
            old(framebuffer).current(),
        ),
{
    let chars = chars_of(text);
    draw_chars(framebuffer, &chars, x, y, scale);
}

/// Draws a filled `2 * size` by `2 * size` swatch of `color` at (x, y) and
/// leaves `color` as the current color.
pub fn draw_color_square(framebuffer: &mut Framebuffer, color: Color, x: u32, y: i64, size: u32)
    requires
        old(framebuffer).wf(),
    ensures
        final(framebuffer).wf(),
        final(framebuffer).spec_width() == old(framebuffer).spec_width(),
        final(framebuffer).spec_height() == old(framebuffer).spec_height(),
        final(framebuffer).background() == old(framebuffer).background(),
        final(framebuffer).current() == color,
        final(framebuffer).image() == rect_filled(
            old(framebuffer).image(),
            x as int,
            y as int,
            2 * size,
            2 * size,
            color,
        ),
{
    framebuffer.set_current_color(color);
    framebuffer.fill_rect(x as i64, y, 2 * size as u64, 2 * size as u64);
}

} // verus!
