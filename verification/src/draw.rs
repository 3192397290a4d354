use vstd::prelude::*;

verus! {

/// The colours the console draws with.
#[derive(Clone, Copy, PartialEq, Eq, Debug, Structural)]
pub enum Color {
    White,
    Black,
    Red,
    Yellow,
    Purple,
    Lime,
    Green,
    /// The lit pixel of a two-colour (on/off) display.
    On,
}

/// The monospaced fonts that texts are set in.
#[derive(Clone, Copy, PartialEq, Eq, Debug, Structural)]
pub enum Font {
    /// Glyphs of ten by twenty pixels.
    Large,
    /// Glyphs of six by nine pixels.
    Small,
}

/// How a shape is painted: filled, or outlined with a stroke of a given width.
#[derive(Clone, Copy, PartialEq, Eq, Debug, Structural)]
pub enum Paint {
    Fill(Color),
    Stroke(Color, u32),
}

/// The two fighter pictures of the battle game.
#[derive(Clone, Copy, PartialEq, Eq, Debug, Structural)]
pub enum Sprite {
    Player1,
    Player2,
}

/// One drawing command for the display, in screen coordinates
/// (x to the right, y downwards, origin at the top left corner).
#[derive(Debug)]
pub enum DrawCmd {
    /// Paint the whole screen in one colour.
    Clear(Color),
    /// Write a text whose top left corner is at (x, y).
    Text { text: String, x: i32, y: i32, font: Font, color: Color },
    /// Draw a picture with its top left corner at (x, y).
    Image { sprite: Sprite, x: i32, y: i32 },
    /// Draw a rectangle with its top left corner at (x, y).
    Rect { x: i32, y: i32, width: u32, height: u32, paint: Paint },
    /// Draw a straight line from (x1, y1) to (x2, y2).
    Line { x1: i32, y1: i32, x2: i32, y2: i32, paint: Paint },
}

/// The mathematical meaning of a drawing command: texts become character
/// sequences and coordinates become integers.
pub enum DrawOp {
    Clear(Color),
    Text { text: Seq<char>, x: int, y: int, font: Font, color: Color },
    Image { sprite: Sprite, x: int, y: int },
    Rect { x: int, y: int, width: int, height: int, paint: Paint },
    Line { x1: int, y1: int, x2: int, y2: int, paint: Paint },
}

impl View for DrawCmd {
    type V = DrawOp;

    open spec fn view(&self) -> DrawOp {
        match self {
            DrawCmd::Clear(c) => DrawOp::Clear(*c),
            DrawCmd::Text { text, x, y, font, color } => DrawOp::Text {
                text: text@,
                x: *x as int,
                y: *y as int,
                font: *font,
                color: *color,
            },
            DrawCmd::Image { sprite, x, y } => DrawOp::Image { sprite: *sprite, x: *x as int, y: *y as int },
            DrawCmd::Rect { x, y, width, height, paint } => DrawOp::Rect {
                x: *x as int,
                y: *y as int,
                width: *width as int,
                height: *height as int,
                paint: *paint,
            },
            DrawCmd::Line { x1, y1, x2, y2, paint } => DrawOp::Line {
                x1: *x1 as int,
                y1: *y1 as int,
                x2: *x2 as int,
                y2: *y2 as int,
                paint: *paint,
            },
        }
    }
}

/// The operations that a list of drawing commands stands for, in order.
pub open spec fn ops_of(cmds: Seq<DrawCmd>) -> Seq<DrawOp> {
    cmds.map_values(|c: DrawCmd| c@)
}

/// Appends `cmd` to `frame`.
pub fn emit(frame: &mut Vec<DrawCmd>, cmd: DrawCmd)
    ensures
        ops_of(final(frame)@) == ops_of(old(frame)@).push(cmd@),
{
    let ghost before = frame@;
    frame.push(cmd);
    proof {
        before.lemma_push_map_commute(|c: DrawCmd| c@, cmd);
    }
}

/// A rectangle command.
pub open spec fn rect_op(x: int, y: int, width: int, height: int, paint: Paint) -> DrawOp {
    DrawOp::Rect { x, y, width, height, paint }
}

/// A text command in the console's own font and colour (large, black).
pub open spec fn text_op(text: Seq<char>, x: int, y: int) -> DrawOp {
    DrawOp::Text { text, x, y, font: Font::Large, color: Color::Black }
}

} // verus!
