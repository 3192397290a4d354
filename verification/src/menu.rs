use vstd::prelude::*;
use vstd::string::StringSliceAdditionalSpecFns;

use crate::draw::{emit, ops_of, rect_op, text_op, Color, DrawCmd, DrawOp, Font, Paint};
use crate::text::{lemma_label_lengths, CONSOLE_NAME, OTHER_GAMES_LABEL, PROMPT, RETRO_HEROES_LABEL};

verus! {

/// Width of the display in landscape orientation, in pixels.
pub const WINDOW_X: i32 = 320;

/// Height of the display in landscape orientation, in pixels.
pub const WINDOW_Y: i32 = 240;

/// Pixels that a menu entry's box reaches left of the centre, per label character.
pub const SCALE: i32 = 5;

/// Width of a menu entry's box, per label character.
pub const BUTTON_SCALE: u32 = 12;

/// Height of a menu entry's box.
pub const BUTTON_HEIGHT: u32 = 30;

/// Width of the outlines that the console draws.
pub const STROKE_WIDTH: u32 = 2;

/// The three buttons of the console, each `true` while it is held down
/// (its input pin reads low).
#[derive(Clone, Copy, PartialEq, Eq, Debug, Structural)]
pub struct Buttons {
    pub left: bool,
    pub ok: bool,
    pub right: bool,
}

/// Which menu entry is highlighted.
#[derive(Clone, Copy, PartialEq, Eq, Debug, Structural)]
pub struct Menu {
    pub retro_heroes_active: bool,
    pub other_games_active: bool,
}

impl Menu {
    /// Exactly one entry is highlighted.
    pub open spec fn exclusive(self) -> bool {
        self.retro_heroes_active != self.other_games_active
    }

    /// The menu with both highlights flipped.
    pub open spec fn flipped(self) -> Menu {
        Menu { retro_heroes_active: !self.retro_heroes_active, other_games_active: !self.other_games_active }
    }

    /// The menu at power-on: "Retro Heroes" is highlighted.
    pub open spec fn initial() -> Menu {
        Menu { retro_heroes_active: true, other_games_active: false }
    }

    /// The menu at power-on: "Retro Heroes" is highlighted.
    pub fn new() -> (menu: Menu)
        ensures
            menu == Menu::initial(),
    {
        Menu { retro_heroes_active: true, other_games_active: false }
    }

    /// Moves the highlight to the other entry.
    pub fn toggle(&mut self)
        ensures
            *final(self) == old(self).flipped(),
    {
        self.retro_heroes_active = !self.retro_heroes_active;
        self.other_games_active = !self.other_games_active;
    }
}

/// The menu after the buttons are read: left or right moves the highlight.
pub open spec fn menu_after_input(menu: Menu, buttons: Buttons) -> Menu {
    if buttons.left || buttons.right {
        menu.flipped()
    } else {
        menu
    }
}

/// OK starts the highlighted game; only Retro Heroes has a game behind it.
pub open spec fn launches_battle(menu: Menu, buttons: Buttons) -> bool {
    buttons.ok && menu_after_input(menu, buttons).retro_heroes_active
}

/// Left, OK and right held together wipe the screen.
pub open spec fn wipe_chord(buttons: Buttons) -> bool {
    buttons.ok && buttons.left && buttons.right
}

/// The console's name and the question at the top of the menu.
pub open spec fn header_ops() -> Seq<DrawOp> {
    seq![text_op(CONSOLE_NAME@, WINDOW_X / 2 - 2 * 8, 20), text_op(PROMPT@, 20, 80)]
}

/// Left edge of the box and text of a menu entry with the given label.
pub open spec fn entry_x(label: &str) -> int {
    WINDOW_X / 2 - label.spec_bytes().len() * SCALE
}

/// Width of the box of a menu entry with the given label.
pub open spec fn entry_width(label: &str) -> int {
    label.spec_bytes().len() * BUTTON_SCALE
}

/// The two menu entries, each a box outlined in its highlight colour with its label.
pub open spec fn entries_ops(menu: Menu) -> Seq<DrawOp> {
    let retro_color = if menu.retro_heroes_active { Color::Lime } else { Color::Black };
    let other_color = if menu.other_games_active { Color::Green } else { Color::Black };
    seq![
        rect_op(entry_x(RETRO_HEROES_LABEL), 100, entry_width(RETRO_HEROES_LABEL), BUTTON_HEIGHT as int,
            Paint::Stroke(retro_color, STROKE_WIDTH)),
        text_op(RETRO_HEROES_LABEL@, entry_x(RETRO_HEROES_LABEL), 120),
        rect_op(entry_x(OTHER_GAMES_LABEL), 130, entry_width(OTHER_GAMES_LABEL), BUTTON_HEIGHT as int,
            Paint::Stroke(other_color, STROKE_WIDTH)),
        text_op(OTHER_GAMES_LABEL@, entry_x(OTHER_GAMES_LABEL), 150),
    ]
}

/// What the first half of a menu pass draws: the header, then a clear
/// screen when OK is held.
pub open spec fn menu_open_ops(buttons: Buttons) -> Seq<DrawOp> {
    if buttons.ok {
        header_ops().push(DrawOp::Clear(Color::White))
    } else {
        header_ops()
    }
}

/// What the second half of a menu pass draws: a clear screen on the wipe
/// chord, then the two entries.
pub open spec fn menu_close_ops(menu: Menu, buttons: Buttons) -> Seq<DrawOp> {
    if wipe_chord(buttons) {
        seq![DrawOp::Clear(Color::White)] + entries_ops(menu)
    } else {
        entries_ops(menu)
    }
}

fn large_text(text: &str, x: i32, y: i32) -> (cmd: DrawCmd)
    ensures
        cmd@ == text_op(text@, x as int, y as int),
{
    DrawCmd::Text { text: text.to_owned(), x, y, font: Font::Large, color: Color::Black }
}

/// First half of a pass through the menu: draws the header, moves the
/// highlight when left or right is held, and clears the screen when OK is
/// held. Returns the new menu and whether the battle game starts.
pub fn menu_open(menu: Menu, buttons: Buttons, frame: &mut Vec<DrawCmd>) -> (res: (Menu, bool))
    ensures
        res.0 == menu_after_input(menu, buttons),
        res.1 == launches_battle(menu, buttons),
        ops_of(final(frame)@) == ops_of(old(frame)@) + menu_open_ops(buttons),
{
    let ghost start = ops_of(frame@);
    emit(frame, large_text(CONSOLE_NAME, WINDOW_X / 2 - 2 * 8, 20));
    emit(frame, large_text(PROMPT, 20, 80));
    let mut menu = menu;
    if buttons.left || buttons.right {
        menu.toggle();
    }
    let mut launch = false;
    if buttons.ok {
        emit(frame, DrawCmd::Clear(Color::White));
        if menu.retro_heroes_active {
            launch = true;
        }
    }
    assert(ops_of(frame@) =~= start + menu_open_ops(buttons));
    (menu, launch)
}

/// Second half of a pass through the menu: clears the screen on the wipe
/// chord, then draws the two entries, the highlighted one in colour.
pub fn menu_close(menu: Menu, buttons: Buttons, frame: &mut Vec<DrawCmd>)
    ensures
        ops_of(final(frame)@) == ops_of(old(frame)@) + menu_close_ops(menu, buttons),
{
    let ghost start = ops_of(frame@);
    proof {
        lemma_label_lengths();
    }
    if buttons.ok && buttons.left && buttons.right {
        emit(frame, DrawCmd::Clear(Color::White));
    }
    let retro_len = RETRO_HEROES_LABEL.len();
    let other_len = OTHER_GAMES_LABEL.len();
    let retro_color = if menu.retro_heroes_active { Color::Lime } else { Color::Black };
    let retro_x: i32 = WINDOW_X / 2 - retro_len as i32 * SCALE;
    emit(frame, DrawCmd::Rect {
        x: retro_x,
        y: 100,
        width: retro_len as u32 * BUTTON_SCALE,
        height: BUTTON_HEIGHT,
        paint: Paint::Stroke(retro_color, STROKE_WIDTH),
    });
    emit(frame, large_text(RETRO_HEROES_LABEL, retro_x, 120));
    let other_color = if menu.other_games_active { Color::Green } else { Color::Black };
    let other_x: i32 = WINDOW_X / 2 - other_len as i32 * SCALE;
    emit(frame, DrawCmd::Rect {
        x: other_x,
        y: 130,
        width: other_len as u32 * BUTTON_SCALE,
        height: BUTTON_HEIGHT,
        paint: Paint::Stroke(other_color, STROKE_WIDTH),
    });
    emit(frame, large_text(OTHER_GAMES_LABEL, other_x, 150));
    assert(ops_of(frame@) =~= start + menu_close_ops(menu, buttons));
}

} // verus!
