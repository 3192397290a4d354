use vstd::prelude::*;
use vstd::string::StringSliceAdditionalSpecFns;

use crate::draw::{emit, ops_of, rect_op, Color, DrawCmd, DrawOp, Font, Paint};
use crate::menu::WINDOW_X;
use crate::text::{lemma_label_lengths, CONSOLE_NAME, OTHER_GAMES_LABEL, PROMPT, RETRO_HEROES_LABEL};

verus! {

/// A text of the preview: small font, lit pixels.
pub open spec fn preview_text_op(text: Seq<char>, x: int, y: int) -> DrawOp {
    DrawOp::Text { text, x, y, font: Font::Small, color: Color::On }
}

/// Left edge of an entry's box in the preview.
pub open spec fn preview_box_x(label: &str) -> int {
    WINDOW_X / 2 - label.spec_bytes().len() * 5 / 2
}

/// Left edge of an entry's text in the preview.
pub open spec fn preview_text_x(label: &str) -> int {
    WINDOW_X / 2 - label.spec_bytes().len() * 2
}

/// The still picture of the menu that the desktop preview shows on a
/// two-colour display: the console's name, the question, and both entries
/// outlined with one-pixel lines.
pub open spec fn preview_ops() -> Seq<DrawOp> {
    let outline = Paint::Stroke(Color::On, 1);
    seq![
        preview_text_op(CONSOLE_NAME@, WINDOW_X / 2 - 2 * 8, 20),
        preview_text_op(PROMPT@, 80, 80),
        rect_op(preview_box_x(RETRO_HEROES_LABEL), 100, RETRO_HEROES_LABEL.spec_bytes().len() * 8 as int, 30, outline),
        preview_text_op(RETRO_HEROES_LABEL@, preview_text_x(RETRO_HEROES_LABEL), 120),
        rect_op(preview_box_x(OTHER_GAMES_LABEL), 130, OTHER_GAMES_LABEL.spec_bytes().len() * 8 as int, 30, outline),
        preview_text_op(OTHER_GAMES_LABEL@, preview_text_x(OTHER_GAMES_LABEL), 140),
    ]
}

fn small_text(text: &str, x: i32, y: i32) -> (cmd: DrawCmd)
    ensures
        cmd@ == preview_text_op(text@, x as int, y as int),
{
    DrawCmd::Text { text: text.to_owned(), x, y, font: Font::Small, color: Color::On }
}

/// The still picture of the menu for the desktop preview.
pub fn preview_frame() -> (frame: Vec<DrawCmd>)
    ensures
        ops_of(frame@) == preview_ops(),
{
    proof {
        lemma_label_lengths();
    }
    let mut frame: Vec<DrawCmd> = Vec::new();
    let outline = Paint::Stroke(Color::On, 1);
    emit(&mut frame, small_text(CONSOLE_NAME, WINDOW_X / 2 - 2 * 8, 20));
    emit(&mut frame, small_text(PROMPT, 80, 80));
    let retro_len = RETRO_HEROES_LABEL.len();
    emit(&mut frame, DrawCmd::Rect {
        x: WINDOW_X / 2 - retro_len as i32 * 5 / 2,
        y: 100,
        width: retro_len as u32 * 8,
        height: 30,
        paint: outline,
    });
    emit(&mut frame, small_text(RETRO_HEROES_LABEL, WINDOW_X / 2 - retro_len as i32 * 2, 120));
    let other_len = OTHER_GAMES_LABEL.len();
    emit(&mut frame, DrawCmd::Rect {
        x: WINDOW_X / 2 - other_len as i32 * 5 / 2,
        y: 130,
        width: other_len as u32 * 8,
        height: 30,
        paint: outline,
    });
    emit(&mut frame, small_text(OTHER_GAMES_LABEL, WINDOW_X / 2 - other_len as i32 * 2, 140));
    assert(ops_of(frame@) =~= preview_ops());
    frame
}

} // verus!
