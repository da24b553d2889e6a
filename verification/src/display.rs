//! The commands that a widget queues for the terminal, and what they say.

use vstd::prelude::*;
use crossterm::style::Attribute;
use crossterm::style::Color;

verus! {

/// `crossterm::style::Color`, a color of the terminal. The library stores and
/// hands on such values and never looks inside one.
#[verifier::external_type_specification]
#[verifier::external_body]
pub struct ExColor(Color);

/// `crossterm::style::Attribute`, a text attribute of the terminal such as
/// bold. The library stores and hands on such values and never looks inside
/// one.
#[verifier::external_type_specification]
#[verifier::external_body]
pub struct ExAttribute(Attribute);

/// A background that a widget asks for.
#[derive(Debug, PartialEq, Eq)]
pub enum Paint {
    /// The background of the menus, which the host chooses.
    Menu,
    /// The background of the selected menu entry, which the host chooses.
    Highlight,
    /// This color.
    Fixed(Color),
}

/// One thing for the terminal to do.
#[derive(Debug, PartialEq, Eq)]
pub enum DrawCommand {
    /// Use this background from now on.
    SetBackground(Paint),
    /// Put the cursor at this column and row.
    MoveTo(u16, u16),
    /// Write the text at the cursor.
    Print(String),
    /// Write the text at the cursor in this foreground, on this background if
    /// there is one, with this attribute.
    PrintStyled {
        text: String,
        foreground: Color,
        background: Option<Paint>,
        attribute: Attribute,
    },
    /// Send what has been queued to the terminal.
    Flush,
}

/// What a [`DrawCommand`] says, with each text as its sequence of characters
/// and each coordinate as a mathematical integer.
pub enum DrawOp {
    SetBackground(Paint),
    MoveTo(int, int),
    Print(Seq<char>),
    PrintStyled {
        text: Seq<char>,
        foreground: Color,
        background: Option<Paint>,
        attribute: Attribute,
    },
    Flush,
}

impl View for DrawCommand {
    type V = DrawOp;

    open spec fn view(&self) -> DrawOp {
        match *self {
            DrawCommand::SetBackground(paint) => DrawOp::SetBackground(paint),
            DrawCommand::MoveTo(column, row) => DrawOp::MoveTo(column as int, row as int),
            DrawCommand::Print(text) => DrawOp::Print(text@),
            DrawCommand::PrintStyled { text, foreground, background, attribute } => {
                DrawOp::PrintStyled { text: text@, foreground, background, attribute }
            },
            DrawCommand::Flush => DrawOp::Flush,
        }
    }
}

/// What a queue of commands says, command by command.
pub open spec fn ops(queue: Seq<DrawCommand>) -> Seq<DrawOp> {
    Seq::new(queue.len(), |i: int| queue[i]@)
}

/// Queues `command` behind what `queue` holds.
pub fn enqueue(queue: &mut Vec<DrawCommand>, command: DrawCommand)
    ensures
        final(queue)@ == old(queue)@.push(command),
        ops(final(queue)@) == ops(old(queue)@).push(command@),
{
    queue.push(command);
    assert(ops(queue@) =~= ops(old(queue)@).push(command@));
}

} // verus!
