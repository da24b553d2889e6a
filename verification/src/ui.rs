//! The widgets of the menus: what each queues for the terminal, and where.

use vstd::prelude::*;
use crossterm::style::Attribute;
use crossterm::style::Color;
use crate::display::enqueue;
use crate::display::ops;
use crate::display::DrawCommand;
use crate::display::DrawOp;
use crate::display::Paint;
use crate::layout::frame_can_be_drawn;
use crate::layout::frame_fits;
use crate::layout::frame_height;
use crate::layout::frame_size;
use crate::layout::frame_width;
use crate::layout::text_can_be_drawn;
use crate::layout::text_fits;
use crate::layout::FIRST_TEXT_ROW;

verus! {

/// The ways in which a user acts on a menu.
#[derive(Debug)]
pub enum Interractions {
    /// The user moves through the entries of a menu.
    ScrollMenu,
    /// The user confirms the entry that the menu has reached.
    UserInput,
}

/// What the menus read of the state of the game.
pub struct GameParams {
    /// How far the user has scrolled through the menu of seeds.
    pub menu_scroll: u32,
    /// How many seeds the menu offers.
    pub seed_count: u32,
}

impl GameParams {
    /// The index of the seed that the scrolling has reached: the scroll
    /// position, wrapped around at the number of seeds.
    pub open spec fn selected(&self) -> int
        recommends
            self.seed_count > 0,
    {
        self.menu_scroll as int % self.seed_count as int
    }

    /// The index of the seed that the scrolling has reached, where there is a
    /// seed at all.
    pub fn selected_seed(&self) -> (index: Option<usize>)
        ensures
            index is Some <==> self.seed_count > 0,
            index matches Some(seed) ==> seed == self.selected(),
    {
        if self.seed_count == 0 {
            None
        } else {
            Some((self.menu_scroll % self.seed_count) as usize)
        }
    }
}

/// A widget that can be drawn with its top left corner at a given place.
pub trait Drawable {
    /// Whether the drawing at `(pos_x, pos_y)` stays within the coordinates
    /// that a terminal can address.
    spec fn fits_at(&self, pos_x: u16, pos_y: u16, forced: bool) -> bool;

    /// What the widget queues when drawn at `(pos_x, pos_y)`; `forced` asks
    /// for the parts that an ordinary redraw leaves as they are.
    spec fn drawing(&self, pos_x: u16, pos_y: u16, forced: bool) -> Seq<DrawOp>;

    /// Tells whether the widget can be drawn at `(pos_x, pos_y)`.
    fn can_draw_at(&self, pos_x: u16, pos_y: u16, forced: bool) -> (fits: bool)
        ensures
            fits == self.fits_at(pos_x, pos_y, forced),
    ;

    /// Queues the drawing behind what `queue` holds.
    fn draw_at(&self, queue: &mut Vec<DrawCommand>, pos_x: u16, pos_y: u16, forced: bool)
        requires
            self.fits_at(pos_x, pos_y, forced),
        ensures
            ops(final(queue)@) == ops(old(queue)@) + self.drawing(pos_x, pos_y, forced),
    ;
}

/// A widget whose drawing depends on the state of the game.
pub trait InterractiveDrawable {
    /// Whether the drawing at `(pos_x, pos_y)` stays within the coordinates
    /// that a terminal can address, and the state of the game selects an
    /// entry wherever one is drawn.
    spec fn fits_with_input(
        &self,
        pos_x: u16,
        pos_y: u16,
        game_params: &GameParams,
        forced: bool,
    ) -> bool;

    /// What the widget queues when drawn at `(pos_x, pos_y)` in this state of
    /// the game; `forced` asks for the parts that an ordinary redraw leaves
    /// as they are.
    spec fn drawing_with_input(
        &self,
        pos_x: u16,
        pos_y: u16,
        game_params: &GameParams,
        forced: bool,
    ) -> Seq<DrawOp>;

    /// Tells whether the widget can be drawn at `(pos_x, pos_y)` in this state
    /// of the game.
    fn can_draw_with_input(
        &self,
        pos_x: u16,
        pos_y: u16,
        game_params: &GameParams,
        forced: bool,
    ) -> (fits: bool)
        ensures
            fits == self.fits_with_input(pos_x, pos_y, game_params, forced),
    ;

    /// Queues the drawing behind what `queue` holds.
    fn draw_with_input(
        &self,
        queue: &mut Vec<DrawCommand>,
        pos_x: u16,
        pos_y: u16,
        game_params: &GameParams,
        forced: bool,
    )
        requires
            self.fits_with_input(pos_x, pos_y, game_params, forced),
        ensures
            ops(final(queue)@) == ops(old(queue)@) + self.drawing_with_input(
                pos_x,
                pos_y,
                game_params,
                forced,
            ),
    ;
}

/// The cells of one row of a filled box, `width` of them from `(x, y)` to the
/// right: for each the cursor goes there and a blank is written.
pub open spec fn blank_cells(x: int, y: int, width: nat) -> Seq<DrawOp>
    decreases width,
{
    if width == 0 {
        Seq::empty()
    } else {
        blank_cells(x, y, (width - 1) as nat).push(DrawOp::MoveTo(x + width - 1, y)).push(
            DrawOp::Print(" "@),
        )
    }
}

/// The rows of a filled box, `height` of them from `(x, y)` downwards: for
/// each the cursor goes to its start and its cells are blanked.
pub open spec fn blank_rows(x: int, y: int, width: nat, height: nat) -> Seq<DrawOp>
    decreases height,
{
    if height == 0 {
        Seq::empty()
    } else {
        blank_rows(x, y, width, (height - 1) as nat).push(DrawOp::MoveTo(x, y + height - 1))
            + blank_cells(x, y + height - 1, width)
    }
}

/// A rectangle filled with one color.
pub struct StyledBox {
    pub width: u16,
    pub height: u16,
    pub color: Color,
}

impl Drawable for StyledBox {
    /// The last row and, where there is a cell to blank, the last column can
    /// be addressed.
    open spec fn fits_at(&self, pos_x: u16, pos_y: u16, forced: bool) -> bool {
        self.height > 0 ==> {
            &&& pos_y + self.height - 1 <= u16::MAX
            &&& self.width > 0 ==> pos_x + self.width - 1 <= u16::MAX
        }
    }

    /// The color is set, every cell is blanked row by row, and the queue is
    /// flushed.
    open spec fn drawing(&self, pos_x: u16, pos_y: u16, forced: bool) -> Seq<DrawOp> {
        seq![DrawOp::SetBackground(Paint::Fixed(self.color))] + blank_rows(
            pos_x as int,
            pos_y as int,
            self.width as nat,
            self.height as nat,
        ) + seq![DrawOp::Flush]
    }

    fn can_draw_at(&self, pos_x: u16, pos_y: u16, _forced: bool) -> (fits: bool) {
        self.height == 0 || (self.height - 1 <= u16::MAX - pos_y && (self.width == 0 || self.width
            - 1 <= u16::MAX - pos_x))
    }

    fn draw_at(&self, queue: &mut Vec<DrawCommand>, pos_x: u16, pos_y: u16, _forced: bool) {
        let ghost colored = ops(queue@).push(DrawOp::SetBackground(Paint::Fixed(self.color)));
        enqueue(queue, DrawCommand::SetBackground(Paint::Fixed(self.color)));
        for iy in 0..self.height
            invariant
                self.fits_at(pos_x, pos_y, _forced),
                ops(queue@) == colored + blank_rows(
                    pos_x as int,
                    pos_y as int,
                    self.width as nat,
                    iy as nat,
                ),
        {
            let ghost at_row = ops(queue@).push(DrawOp::MoveTo(pos_x as int, pos_y + iy));
            enqueue(queue, DrawCommand::MoveTo(pos_x, pos_y + iy));
            for ix in 0..self.width
                invariant
                    self.fits_at(pos_x, pos_y, _forced),
                    iy < self.height,
                    ops(queue@) == at_row + blank_cells(pos_x as int, pos_y + iy, ix as nat),
            {
                enqueue(queue, DrawCommand::MoveTo(ix + pos_x, pos_y + iy));
                enqueue(queue, DrawCommand::Print(" ".to_owned()));
                assert(ops(queue@) =~= at_row + blank_cells(
                    pos_x as int,
                    pos_y + iy,
                    (ix + 1) as nat,
                ));
            }
            assert(ops(queue@) =~= colored + blank_rows(
                pos_x as int,
                pos_y as int,
                self.width as nat,
                (iy + 1) as nat,
            ));
        }
        enqueue(queue, DrawCommand::Flush);
        assert(ops(queue@) =~= ops(old(queue)@) + self.drawing(pos_x, pos_y, _forced));
    }
}

/// A text in one color with one attribute.
pub struct StyledString {
    pub string: String,
    pub text_color: Color,
    pub background_color: Color,
    pub attribute: Attribute,
}

impl Drawable for StyledString {
    /// A single place is addressed, which always can be.
    open spec fn fits_at(&self, pos_x: u16, pos_y: u16, forced: bool) -> bool {
        true
    }

    /// The cursor goes to the place and the text is written in its color and
    /// attribute, on whatever background is set.
    open spec fn drawing(&self, pos_x: u16, pos_y: u16, forced: bool) -> Seq<DrawOp> {
        seq![
            DrawOp::MoveTo(pos_x as int, pos_y as int),
            DrawOp::PrintStyled {
                text: self.string@,
                foreground: self.text_color,
                background: None,
                attribute: self.attribute,
            },
        ]
    }

    fn can_draw_at(&self, pos_x: u16, pos_y: u16, _forced: bool) -> (fits: bool) {
        true
    }

    fn draw_at(&self, queue: &mut Vec<DrawCommand>, pos_x: u16, pos_y: u16, _forced: bool) {
        enqueue(queue, DrawCommand::MoveTo(pos_x, pos_y));
        enqueue(
            queue,
            DrawCommand::PrintStyled {
                text: self.string.clone(),
                foreground: self.text_color,
                background: None,
                attribute: self.attribute,
            },
        );
        assert(ops(queue@) =~= ops(old(queue)@) + self.drawing(pos_x, pos_y, _forced));
    }
}

/// The drawing of the box behind a header and its lines, in `color`.
pub open spec fn frame_drawing(
    header: Seq<char>,
    lines: Seq<String>,
    color: Color,
    pos_x: u16,
    pos_y: u16,
) -> Seq<DrawOp> {
    (StyledBox {
        width: frame_width(header, lines) as u16,
        height: frame_height(lines) as u16,
        color,
    }).drawing(pos_x, pos_y, false)
}

/// The drawing of a header: the cursor goes one cell into the box, and the
/// header is written on the menu's background.
pub open spec fn header_drawing(
    header: Seq<char>,
    foreground: Color,
    attribute: Attribute,
    pos_x: u16,
    pos_y: u16,
) -> Seq<DrawOp> {
    seq![
        DrawOp::MoveTo(pos_x + 1, pos_y + 1),
        DrawOp::PrintStyled { text: header, foreground, background: Some(Paint::Menu), attribute },
    ]
}

/// The drawing of `lines` one below the other from row `y` on, each from
/// column `x` and on the menu's background.
pub open spec fn text_rows(
    lines: Seq<String>,
    foreground: Color,
    attribute: Attribute,
    x: int,
    y: int,
) -> Seq<DrawOp>
    decreases lines.len(),
{
    if lines.len() == 0 {
        Seq::empty()
    } else {
        text_rows(lines.drop_last(), foreground, attribute, x, y).push(
            DrawOp::MoveTo(x, y + lines.len() - 1),
        ).push(
            DrawOp::PrintStyled {
                text: lines.last()@,
                foreground,
                background: Some(Paint::Menu),
                attribute,
            },
        )
    }
}

/// The drawing of the entries `lines` of a menu one below the other from row
/// `y` on, each from column `x`. Before an entry the background is set: to
/// the highlight for the entry at index `selected`, to the menu's for any
/// other. After the selected entry the background is set to `resting`.
pub open spec fn menu_rows(
    lines: Seq<String>,
    selected: int,
    foreground: Color,
    attribute: Attribute,
    resting: Color,
    x: int,
    y: int,
) -> Seq<DrawOp>
    decreases lines.len(),
{
    if lines.len() == 0 {
        Seq::empty()
    } else {
        let index = lines.len() - 1;
        let above = menu_rows(lines.drop_last(), selected, foreground, attribute, resting, x, y);
        let entry = seq![
            DrawOp::SetBackground(
                if index == selected {
                    Paint::Highlight
                } else {
                    Paint::Menu
                },
            ),
            DrawOp::MoveTo(x, y + index),
            DrawOp::PrintStyled { text: lines.last()@, foreground, background: None, attribute },
        ];
        if index == selected {
            above + entry.push(DrawOp::SetBackground(Paint::Fixed(resting)))
        } else {
            above + entry
        }
    }
}

/// Queues the box behind `header` and `text`.
fn draw_frame(
    queue: &mut Vec<DrawCommand>,
    header: &String,
    text: &Vec<String>,
    color: Color,
    pos_x: u16,
    pos_y: u16,
)
    requires
        frame_fits(header@, text@, pos_x, pos_y),
    ensures
        ops(final(queue)@) == ops(old(queue)@) + frame_drawing(header@, text@, color, pos_x, pos_y),
{
    if let Some((width, height)) = frame_size(header, text) {
        let styled_box = StyledBox { width, height, color };
        styled_box.draw_at(queue, pos_x, pos_y, false);
    }
}

/// Queues the header of a box at `(pos_x, pos_y)`.
fn draw_header(
    queue: &mut Vec<DrawCommand>,
    header: &String,
    foreground: Color,
    attribute: Attribute,
    pos_x: u16,
    pos_y: u16,
)
    requires
        pos_x + 1 <= u16::MAX,
        pos_y + 1 <= u16::MAX,
    ensures
        ops(final(queue)@) == ops(old(queue)@) + header_drawing(
            header@,
            foreground,
            attribute,
            pos_x,
            pos_y,
        ),
{
    enqueue(queue, DrawCommand::MoveTo(pos_x + 1, pos_y + 1));
    enqueue(
        queue,
        DrawCommand::PrintStyled {
            text: header.clone(),
            foreground,
            background: Some(Paint::Menu),
            attribute,
        },
    );
    assert(ops(queue@) =~= ops(old(queue)@) + header_drawing(
        header@,
        foreground,
        attribute,
        pos_x,
        pos_y,
    ));
}

/// A box with a header and lines of text below it.
pub struct TextBox {
    pub header: String,
    pub header_color: Color,
    pub header_attribute: Attribute,
    pub text: Vec<String>,
    pub text_color: Color,
    pub text_attribute: Attribute,
    pub background_color: Color,
}

impl Drawable for TextBox {
    /// The header and every line can be addressed, and so can the box where
    /// it is drawn.
    open spec fn fits_at(&self, pos_x: u16, pos_y: u16, forced: bool) -> bool {
        &&& text_fits(self.text@.len(), pos_x, pos_y)
        &&& forced ==> frame_fits(self.header@, self.text@, pos_x, pos_y)
    }

    /// The box, if it is `forced`; then the header; then the lines.
    open spec fn drawing(&self, pos_x: u16, pos_y: u16, forced: bool) -> Seq<DrawOp> {
        (if forced {
            frame_drawing(self.header@, self.text@, self.background_color, pos_x, pos_y)
        } else {
            Seq::empty()
        }) + header_drawing(self.header@, self.header_color, self.header_attribute, pos_x, pos_y)
            + text_rows(
            self.text@,
            self.text_color,
            self.text_attribute,
            pos_x + 1,
            pos_y + FIRST_TEXT_ROW,
        )
    }

    fn can_draw_at(&self, pos_x: u16, pos_y: u16, forced: bool) -> (fits: bool) {
        text_can_be_drawn(self.text.len(), pos_x, pos_y) && (!forced || frame_can_be_drawn(
            &self.header,
            &self.text,
            pos_x,
            pos_y,
        ))
    }

    fn draw_at(&self, queue: &mut Vec<DrawCommand>, pos_x: u16, pos_y: u16, forced: bool) {
        if forced {
            draw_frame(queue, &self.header, &self.text, self.background_color, pos_x, pos_y);
        }
        draw_header(queue, &self.header, self.header_color, self.header_attribute, pos_x, pos_y);
        let ghost headed = ops(queue@);
        for index in 0..self.text.len()
            invariant
                text_fits(self.text@.len(), pos_x, pos_y),
                ops(queue@) == headed + text_rows(
                    self.text@.take(index as int),
                    self.text_color,
                    self.text_attribute,
                    pos_x + 1,
                    pos_y + FIRST_TEXT_ROW,
                ),
        {
            enqueue(queue, DrawCommand::MoveTo(pos_x + 1, pos_y + FIRST_TEXT_ROW + index as u16));
            enqueue(
                queue,
                DrawCommand::PrintStyled {
                    text: self.text[index].clone(),
                    foreground: self.text_color,
                    background: Some(Paint::Menu),
                    attribute: self.text_attribute,
                },
            );
            assert(self.text@.take(index + 1).drop_last() =~= self.text@.take(index as int));
            assert(ops(queue@) =~= headed + text_rows(
                self.text@.take(index + 1),
                self.text_color,
                self.text_attribute,
                pos_x + 1,
                pos_y + FIRST_TEXT_ROW,
            ));
        }
        assert(self.text@.take(self.text@.len() as int) =~= self.text@);
        assert(ops(queue@) =~= ops(old(queue)@) + self.drawing(pos_x, pos_y, forced));
    }
}

/// A box with a header and a menu below it, in which the entry that the user
/// has scrolled to is highlighted.
pub struct InterractiveTextBox {
    pub header: String,
    pub header_color: Color,
    pub header_attribute: Attribute,
    pub text: Vec<String>,
    pub text_color: Color,
    pub text_attribute: Attribute,
    pub background_color: Color,
}

impl InterractiveDrawable for InterractiveTextBox {
    /// The header and every entry can be addressed, and so can the box where
    /// it is drawn; and where there is an entry there is a seed to select.
    open spec fn fits_with_input(
        &self,
        pos_x: u16,
        pos_y: u16,
        game_params: &GameParams,
        forced: bool,
    ) -> bool {
        &&& text_fits(self.text@.len(), pos_x, pos_y)
        &&& forced ==> frame_fits(self.header@, self.text@, pos_x, pos_y)
        &&& self.text@.len() > 0 ==> game_params.seed_count > 0
    }

    /// The box, if it is `forced`; then the header; then the entries, the
    /// selected one highlighted.
    open spec fn drawing_with_input(
        &self,
        pos_x: u16,
        pos_y: u16,
        game_params: &GameParams,
        forced: bool,
    ) -> Seq<DrawOp> {
        (if forced {
            frame_drawing(self.header@, self.text@, self.background_color, pos_x, pos_y)
        } else {
            Seq::empty()
        }) + header_drawing(self.header@, self.header_color, self.header_attribute, pos_x, pos_y)
            + menu_rows(
            self.text@,
            game_params.selected(),
            self.text_color,
            self.text_attribute,
            self.background_color,
            pos_x + 1,
            pos_y + FIRST_TEXT_ROW,
        )
    }

    fn can_draw_with_input(
        &self,
        pos_x: u16,
        pos_y: u16,
        game_params: &GameParams,
        forced: bool,
    ) -> (fits: bool) {
        text_can_be_drawn(self.text.len(), pos_x, pos_y) && (!forced || frame_can_be_drawn(
            &self.header,
            &self.text,
            pos_x,
            pos_y,
        )) && (self.text.len() == 0 || game_params.seed_count > 0)
    }

    fn draw_with_input(
        &self,
        queue: &mut Vec<DrawCommand>,
        pos_x: u16,
        pos_y: u16,
        game_params: &GameParams,
        forced: bool,
    ) {
        if forced {
            draw_frame(queue, &self.header, &self.text, self.background_color, pos_x, pos_y);
        }
        draw_header(queue, &self.header, self.header_color, self.header_attribute, pos_x, pos_y);
        let selected = game_params.selected_seed();
        let ghost headed = ops(queue@);
        for index in 0..self.text.len()
            invariant
                text_fits(self.text@.len(), pos_x, pos_y),
                self.text@.len() > 0 ==> selected == Some(game_params.selected() as usize)
                    && 0 <= game_params.selected() <= u32::MAX,
                ops(queue@) == headed + menu_rows(
                    self.text@.take(index as int),
                    game_params.selected(),
                    self.text_color,
                    self.text_attribute,
                    self.background_color,
                    pos_x + 1,
                    pos_y + FIRST_TEXT_ROW,
                ),
        {
            let is_selected = selected == Some(index);
            enqueue(
                queue,
                DrawCommand::SetBackground(
                    if is_selected {
                        Paint::Highlight
                    } else {
                        Paint::Menu
                    },
                ),
            );
            enqueue(queue, DrawCommand::MoveTo(pos_x + 1, pos_y + FIRST_TEXT_ROW + index as u16));
            enqueue(
                queue,
                DrawCommand::PrintStyled {
                    text: self.text[index].clone(),
                    foreground: self.text_color,
                    background: None,
                    attribute: self.text_attribute,
                },
            );
            if is_selected {
                enqueue(queue, DrawCommand::SetBackground(Paint::Fixed(self.background_color)));
            }
            assert(self.text@.take(index + 1).drop_last() =~= self.text@.take(index as int));
            assert(ops(queue@) =~= headed + menu_rows(
                self.text@.take(index + 1),
                game_params.selected(),
                self.text_color,
                self.text_attribute,
                self.background_color,
                pos_x + 1,
                pos_y + FIRST_TEXT_ROW,
            ));
        }
        assert(self.text@.take(self.text@.len() as int) =~= self.text@);
        assert(ops(queue@) =~= ops(old(queue)@) + self.drawing_with_input(
            pos_x,
            pos_y,
            game_params,
            forced,
        ));
    }
}

} // verus!
