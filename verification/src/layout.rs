//! Where the parts of a menu box go, and how large the box behind them is.

use vstd::prelude::*;
use vstd::utf8::encode_utf8;

verus! {

/// The width that stands for the text of a box without lines.
pub const EMPTY_TEXT_WIDTH: u16 = 16;

/// The first row of text in a box, counted from the top of the box.
pub const FIRST_TEXT_ROW: u16 = 3;

/// The length of `text` in bytes of UTF-8, which is the length that a string
/// gives of itself.
pub open spec fn byte_len(text: Seq<char>) -> usize {
    encode_utf8(text).len() as usize
}

/// The greatest length in bytes among `lines`, zero where there is none.
pub open spec fn widest_line(lines: Seq<String>) -> usize
    decreases lines.len(),
{
    if lines.len() == 0 {
        0
    } else {
        let above = widest_line(lines.drop_last());
        let last = byte_len(lines.last()@);
        if last > above {
            last
        } else {
            above
        }
    }
}

/// The width of the box behind a header and its lines: room for the widest
/// line, or for [`EMPTY_TEXT_WIDTH`] where there is no line, and a margin of
/// two; or room for the header if that is more; and a margin of two again.
pub open spec fn frame_width(header: Seq<char>, lines: Seq<String>) -> nat {
    let text_width = 2 + if lines.len() == 0 {
        EMPTY_TEXT_WIDTH as nat
    } else {
        widest_line(lines) as nat
    };
    let header_width = byte_len(header) as nat;
    2 + if text_width > header_width {
        text_width
    } else {
        header_width
    }
}

/// The height of the box behind a header and its lines: one row for each line
/// and four for the header and the margins.
pub open spec fn frame_height(lines: Seq<String>) -> nat {
    4 + lines.len()
}

/// Whether the box behind a header and its lines, drawn at `(pos_x, pos_y)`,
/// has sides that fit a terminal's coordinates and stays within them.
pub open spec fn frame_fits(header: Seq<char>, lines: Seq<String>, pos_x: u16, pos_y: u16) -> bool {
    &&& frame_width(header, lines) <= u16::MAX
    &&& frame_height(lines) <= u16::MAX
    &&& pos_x + frame_width(header, lines) - 1 <= u16::MAX
    &&& pos_y + frame_height(lines) - 1 <= u16::MAX
}

/// Whether a header and `count` lines below it, in a box at `(pos_x, pos_y)`,
/// stay within a terminal's coordinates: the header stands one cell into the
/// box, the lines from [`FIRST_TEXT_ROW`] on.
pub open spec fn text_fits(count: nat, pos_x: u16, pos_y: u16) -> bool {
    &&& pos_x + 1 <= u16::MAX
    &&& pos_y + 1 <= u16::MAX
    &&& count > 0 ==> pos_y + FIRST_TEXT_ROW + count - 1 <= u16::MAX
}

/// The widest of the first `count + 1` lines is the widest of the first
/// `count` or the line after them, whichever is wider.
proof fn lemma_widest_line_step(lines: Seq<String>, count: int)
    requires
        0 <= count < lines.len(),
    ensures
        widest_line(lines.take(count + 1)) == (if byte_len(lines[count]@) > widest_line(
            lines.take(count),
        ) {
            byte_len(lines[count]@)
        } else {
            widest_line(lines.take(count))
        }),
{
    assert(lines.take(count + 1).drop_last() =~= lines.take(count));
    assert(lines.take(count + 1).last() == lines[count]);
}

/// The sides of the box behind `header` and `text`, its width and its height,
/// where both fit a terminal's coordinates.
pub fn frame_size(header: &String, text: &Vec<String>) -> (size: Option<(u16, u16)>)
    ensures
        size is Some <==> frame_width(header@, text@) <= u16::MAX && frame_height(text@)
            <= u16::MAX,
        size matches Some((width, height)) ==> width == frame_width(header@, text@) && height
            == frame_height(text@),
{
    let limit: usize = 0xffff;
    let mut widest: usize = 0;
    for index in 0..text.len()
        invariant
            widest == widest_line(text@.take(index as int)),
    {
        let length = text[index].as_str().len();
        proof {
            lemma_widest_line_step(text@, index as int);
        }
        if length > widest {
            widest = length;
        }
    }
    assert(text@.take(text@.len() as int) =~= text@);
    let header_length = header.as_str().len();
    if widest > limit - 4 || header_length > limit - 2 || text.len() > limit - 4 {
        return None;
    }
    let text_width: u16 = 2 + if text.len() == 0 {
        EMPTY_TEXT_WIDTH
    } else {
        widest as u16
    };
    let header_width: u16 = header_length as u16;
    let width: u16 = 2 + if text_width > header_width {
        text_width
    } else {
        header_width
    };
    let height: u16 = 4 + text.len() as u16;
    Some((width, height))
}

/// Tells whether the box behind `header` and `text` can be drawn at
/// `(pos_x, pos_y)`.
pub fn frame_can_be_drawn(header: &String, text: &Vec<String>, pos_x: u16, pos_y: u16) -> (fits:
    bool)
    ensures
        fits == frame_fits(header@, text@, pos_x, pos_y),
{
    match frame_size(header, text) {
        Some((width, height)) => width - 1 <= u16::MAX - pos_x && height - 1 <= u16::MAX - pos_y,
        None => false,
    }
}

/// Tells whether a header and `count` lines below it can be drawn in a box at
/// `(pos_x, pos_y)`.
pub fn text_can_be_drawn(count: usize, pos_x: u16, pos_y: u16) -> (fits: bool)
    ensures
        fits == text_fits(count as nat, pos_x, pos_y),
{
    let limit: usize = 0xffff;
    let first: usize = 3;
    pos_x < u16::MAX && pos_y < u16::MAX && (count == 0 || (count - 1 <= limit - first
        && pos_y as usize <= limit - first - (count - 1)))
}

} // verus!
