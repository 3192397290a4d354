use vstd::prelude::*;

use crate::draw::{emit, ops_of, rect_op, text_op, Color, DrawCmd, DrawOp, Font, Paint, Sprite};
use crate::menu::{Buttons, STROKE_WIDTH};
use crate::text::{format_hp, hp_text, PLAYER1_WON_TEXT, PLAYER2_WON_TEXT};

verus! {

/// Health points at the start of a battle, and the most a player can have.
pub const MAX_HP: i32 = 100;

/// Health points that an attack takes from player 2.
pub const ATTACK_DAMAGE: i32 = 10;

/// Health points that a heal gives player 1.
pub const HEAL_AMOUNT: i32 = 10;

/// Health points that a special attack takes from player 2.
pub const SPECIAL_DAMAGE: i32 = 20;

/// The effects are drawn with their target point no further than this from
/// the top of the screen, in either direction.
pub const ROLL_RANGE: i32 = 140;

/// The state of a Retro Heroes battle.
#[derive(Clone, Copy, PartialEq, Eq, Debug, Structural)]
pub struct Battle {
    pub player1_hp: i32,
    pub player2_hp: i32,
    pub player1_won: bool,
    pub player2_won: bool,
}

/// The three moves of player 1.
#[derive(Clone, Copy, PartialEq, Eq, Debug, Structural)]
pub enum Move {
    Attack,
    Heal,
    SpecialAttack,
}

impl Battle {
    /// A fresh battle: both players at full health, nobody has won.
    pub open spec fn initial() -> Battle {
        Battle { player1_hp: MAX_HP, player2_hp: MAX_HP, player1_won: false, player2_won: false }
    }

    /// A fresh battle: both players at full health, nobody has won.
    pub fn new() -> (battle: Battle)
        ensures
            battle == Battle::initial(),
    {
        Battle { player1_hp: MAX_HP, player2_hp: MAX_HP, player1_won: false, player2_won: false }
    }

    /// The battle is decided and moves no longer count.
    pub open spec fn over(self) -> bool {
        self.player1_won || self.player2_won
    }

    /// The battle is decided and moves no longer count.
    pub fn is_over(&self) -> (over: bool)
        ensures
            over == self.over(),
    {
        self.player1_won || self.player2_won
    }

    /// A move cannot push a health count past the ends of `i32`.
    pub open spec fn arith_safe(self) -> bool {
        &&& self.player1_hp + HEAL_AMOUNT <= i32::MAX
        &&& self.player2_hp - SPECIAL_DAMAGE >= i32::MIN
    }

    /// The states that a battle can be in, starting from a fresh one: player 1
    /// is never hit and so stays at full health, player 2's health is a
    /// multiple of ten between zero and full, player 2 never wins, and the
    /// battle is over exactly when player 2 has no health left.
    pub open spec fn reachable(self) -> bool {
        &&& self.player1_hp == MAX_HP
        &&& 0 <= self.player2_hp <= MAX_HP
        &&& self.player2_hp % 10 == 0
        &&& !self.player2_won
        &&& self.player1_won == (self.player2_hp == 0)
    }
}

/// The move that the held buttons choose: exactly one button held, left for
/// an attack, OK for a heal, right for a special attack.
pub open spec fn move_of(buttons: Buttons) -> Option<Move> {
    if buttons.left && !buttons.right && !buttons.ok {
        Some(Move::Attack)
    } else if buttons.ok && !buttons.left && !buttons.right {
        Some(Move::Heal)
    } else if buttons.right && !buttons.ok && !buttons.left {
        Some(Move::SpecialAttack)
    } else {
        None
    }
}

/// The move that the held buttons choose, if any.
pub fn chosen_move(buttons: Buttons) -> (mv: Option<Move>)
    ensures
        mv == move_of(buttons),
{
    if buttons.left && !buttons.right && !buttons.ok {
        Some(Move::Attack)
    } else if buttons.ok && !buttons.left && !buttons.right {
        Some(Move::Heal)
    } else if buttons.right && !buttons.ok && !buttons.left {
        Some(Move::SpecialAttack)
    } else {
        None
    }
}

/// Health points clamped to the range from zero to full health.
pub open spec fn clamp_spec(hp: int) -> int {
    if hp < 0 {
        0
    } else if hp > MAX_HP {
        MAX_HP as int
    } else {
        hp
    }
}

/// Clamps health points to the range from zero to full health.
pub fn clamp_hp(hp: i32) -> (clamped: i32)
    ensures
        clamped == clamp_spec(hp as int),
{
    let mut hp = hp;
    if hp < 0 {
        hp = 0;
    }
    if hp > MAX_HP {
        hp = MAX_HP;
    }
    hp
}

/// Remainder of `v` divided by `m`, rounded toward zero as Rust's `%` does:
/// it has the sign of `v`.
pub open spec fn rem_toward_zero(v: int, m: int) -> int {
    if v >= 0 {
        v % m
    } else {
        -((-v) % m)
    }
}

/// The low 32 bits of `roll` read as a two's complement `i32`.
pub open spec fn low_i32(roll: int) -> int {
    let low = roll % 0x1_0000_0000;
    if low < 0x8000_0000 {
        low
    } else {
        low - 0x1_0000_0000
    }
}

/// The screen row that a random roll stands for: the roll cast to `i32`,
/// then `% 140`.
pub open spec fn roll_y(roll: u64) -> int {
    rem_toward_zero(low_i32(roll as int), ROLL_RANGE as int)
}

/// The screen row that a random roll stands for: `roll as i32 % 140`.
pub fn roll_to_y(roll: u64) -> (y: i32)
    ensures
        y == roll_y(roll),
        -ROLL_RANGE < y < ROLL_RANGE,
{
    let low: u64 = roll % 0x1_0000_0000;
    if low < 0x8000_0000 {
        (low % 140) as i32
    } else {
        let magnitude: u64 = 0x1_0000_0000 - low;
        0 - ((magnitude % 140) as i32)
    }
}

/// Remainder toward zero of `v` by 140, as `v % 140` computes it on an `i32`.
fn rem_140(v: i32) -> (r: i32)
    requires
        v > i32::MIN,
    ensures
        r == rem_toward_zero(v as int, ROLL_RANGE as int),
{
    if v >= 0 {
        v % 140
    } else {
        0 - ((0 - v) % 140)
    }
}

/// The colour of a move's effect.
pub open spec fn move_color(mv: Move) -> Color {
    match mv {
        Move::Attack => Color::Red,
        Move::Heal => Color::Yellow,
        Move::SpecialAttack => Color::Purple,
    }
}

/// What a move takes from player 2.
pub open spec fn damage(mv: Option<Move>) -> int {
    match mv {
        Some(Move::Attack) => ATTACK_DAMAGE as int,
        Some(Move::SpecialAttack) => SPECIAL_DAMAGE as int,
        _ => 0,
    }
}

/// What a move gives player 1.
pub open spec fn healing(mv: Option<Move>) -> int {
    match mv {
        Some(Move::Heal) => HEAL_AMOUNT as int,
        _ => 0,
    }
}

/// The status panel that a move repaints white: player 2's after an attack,
/// player 1's after a heal.
pub open spec fn panel_op(mv: Move) -> DrawOp {
    match mv {
        Move::Heal => rect_op(30, 140, 140, 250, Paint::Fill(Color::White)),
        _ => rect_op(200, 138, 100, 250, Paint::Fill(Color::White)),
    }
}

/// The picture of a move: the field between the fighters is repainted white,
/// a line in the move's colour runs from the first fighter's side at the
/// row of `start_roll` to the second fighter's side at the row of
/// `target_roll`, a small box marks where it lands, and the affected status
/// panel is repainted white.
pub open spec fn move_ops(mv: Move, target_roll: u64, start_roll: u64) -> Seq<DrawOp> {
    let paint = Paint::Stroke(move_color(mv), STROKE_WIDTH);
    let y = roll_y(target_roll);
    seq![
        rect_op(138, 0, 62, 138, Paint::Fill(Color::White)),
        DrawOp::Line { x1: 140, y1: roll_y(start_roll), x2: 200, y2: y, paint },
        rect_op(200, y, 10, 10, paint),
        panel_op(mv),
    ]
}

/// The two fighters.
pub open spec fn sprite_ops() -> Seq<DrawOp> {
    seq![
        DrawOp::Image { sprite: Sprite::Player1, x: 10, y: 10 },
        DrawOp::Image { sprite: Sprite::Player2, x: 200, y: 10 },
    ]
}

/// Left and OK held (right not) leave the battle for the menu.
pub open spec fn exit_chord(buttons: Buttons) -> bool {
    buttons.ok && buttons.left && !buttons.right
}

/// The move that counts in this frame: none once the battle is over.
pub open spec fn effective_move(battle: Battle, buttons: Buttons) -> Option<Move> {
    if battle.over() {
        None
    } else {
        move_of(buttons)
    }
}

/// The battle after one frame.
pub open spec fn next_battle(battle: Battle, buttons: Buttons) -> Battle {
    let mv = effective_move(battle, buttons);
    let hp1 = clamp_spec(battle.player1_hp + healing(mv));
    let hp2 = clamp_spec(battle.player2_hp - damage(mv));
    Battle {
        player1_hp: hp1 as i32,
        player2_hp: hp2 as i32,
        player1_won: battle.player1_won || hp1 == 0 || hp2 == 0,
        player2_won: battle.player2_won,
    }
}

/// The picture of the move that counts in this frame, if any.
pub open spec fn moved_ops(battle: Battle, buttons: Buttons, target_roll: u64, start_roll: u64) -> Seq<DrawOp> {
    match effective_move(battle, buttons) {
        Some(mv) => move_ops(mv, target_roll, start_roll),
        None => Seq::empty(),
    }
}

/// The end of a frame, for the battle as it stands after the move: the
/// winner's line when a player has no health left, both health lines, and a
/// clear screen on the exit or wipe chord (left and OK, with or without right).
pub open spec fn outcome_ops(next: Battle, buttons: Buttons) -> Seq<DrawOp> {
    let p2_wins: Seq<DrawOp> = if next.player1_hp == 0 { seq![text_op(PLAYER2_WON_TEXT@, 20, 80)] } else { Seq::empty() };
    let p1_wins: Seq<DrawOp> = if next.player2_hp == 0 { seq![text_op(PLAYER1_WON_TEXT@, 20, 80)] } else { Seq::empty() };
    let status = seq![
        text_op(hp_text(next.player1_hp as int), 30, 160),
        text_op(hp_text(next.player2_hp as int), 200, 160),
    ];
    let wipe: Seq<DrawOp> = if buttons.ok && buttons.left { seq![DrawOp::Clear(Color::White)] } else { Seq::empty() };
    p2_wins + p1_wins + status + wipe
}

/// What one frame of the battle draws: the fighters, the move (if one
/// counts), then the outcome.
pub open spec fn battle_ops(battle: Battle, buttons: Buttons, target_roll: u64, start_roll: u64) -> Seq<DrawOp> {
    sprite_ops() + moved_ops(battle, buttons, target_roll, start_roll) + outcome_ops(next_battle(battle, buttons), buttons)
}

fn large_text(text: String, x: i32, y: i32) -> (cmd: DrawCmd)
    ensures
        cmd@ == text_op(text@, x as int, y as int),
{
    DrawCmd::Text { text, x, y, font: Font::Large, color: Color::Black }
}

/// Draws the picture of a move from two random rolls.
fn draw_move(mv: Move, target_roll: u64, start_roll: u64, frame: &mut Vec<DrawCmd>)
    ensures
        ops_of(final(frame)@) == ops_of(old(frame)@) + move_ops(mv, target_roll, start_roll),
{
    let ghost start = ops_of(frame@);
    let color = match mv {
        Move::Attack => Color::Red,
        Move::Heal => Color::Yellow,
        Move::SpecialAttack => Color::Purple,
    };
    let paint = Paint::Stroke(color, STROKE_WIDTH);
    emit(frame, DrawCmd::Rect { x: 138, y: 0, width: 62, height: 138, paint: Paint::Fill(Color::White) });
    let y = roll_to_y(target_roll);
    let from_y = roll_to_y(start_roll);
    let to_y = match mv {
        Move::Heal => rem_140(y),
        _ => y,
    };
    emit(frame, DrawCmd::Line { x1: 140, y1: from_y, x2: 200, y2: to_y, paint });
    emit(frame, DrawCmd::Rect { x: 200, y, width: 10, height: 10, paint });
    match mv {
        Move::Heal => emit(frame, DrawCmd::Rect { x: 30, y: 140, width: 140, height: 250, paint: Paint::Fill(Color::White) }),
        _ => emit(frame, DrawCmd::Rect { x: 200, y: 138, width: 100, height: 250, paint: Paint::Fill(Color::White) }),
    }
    assert(ops_of(frame@) =~= start + move_ops(mv, target_roll, start_roll));
}

/// Plays the move that the buttons choose, unless the battle is over, and
/// returns both health counts before clamping.
fn play_move(battle: Battle, buttons: Buttons, target_roll: u64, start_roll: u64, frame: &mut Vec<DrawCmd>) -> (hp: (i32, i32))
    requires
        battle.arith_safe(),
    ensures
        hp.0 == battle.player1_hp + healing(effective_move(battle, buttons)),
        hp.1 == battle.player2_hp - damage(effective_move(battle, buttons)),
        ops_of(final(frame)@) == ops_of(old(frame)@) + moved_ops(battle, buttons, target_roll, start_roll),
{
    let ghost start = ops_of(frame@);
    let mut player1_hp = battle.player1_hp;
    let mut player2_hp = battle.player2_hp;
    if !battle.is_over() {
        match chosen_move(buttons) {
            Some(Move::Attack) => {
                draw_move(Move::Attack, target_roll, start_roll, frame);
                player2_hp = player2_hp - ATTACK_DAMAGE;
            },
            Some(Move::Heal) => {
                draw_move(Move::Heal, target_roll, start_roll, frame);
                player1_hp = player1_hp + HEAL_AMOUNT;
            },
            Some(Move::SpecialAttack) => {
                draw_move(Move::SpecialAttack, target_roll, start_roll, frame);
                player2_hp = player2_hp - SPECIAL_DAMAGE;
            },
            None => {},
        }
    }
    assert(ops_of(frame@) =~= start + moved_ops(battle, buttons, target_roll, start_roll));
    (player1_hp, player2_hp)
}

/// Ends a frame from the clamped health counts: marks the battle won when a
/// player has no health left and draws the outcome.
fn finish_frame(battle: Battle, player1_hp: i32, player2_hp: i32, buttons: Buttons, frame: &mut Vec<DrawCmd>) -> (res: (Battle, bool))
    ensures
        res.0 == (Battle {
            player1_hp,
            player2_hp,
            player1_won: battle.player1_won || player1_hp == 0 || player2_hp == 0,
            player2_won: battle.player2_won,
        }),
        res.1 == exit_chord(buttons),
        ops_of(final(frame)@) == ops_of(old(frame)@) + outcome_ops(res.0, buttons),
{
    let ghost start = ops_of(frame@);
    let mut player1_won = battle.player1_won;
    if player1_hp == 0 {
        player1_won = true;
        emit(frame, large_text(PLAYER2_WON_TEXT.to_owned(), 20, 80));
    }
    if player2_hp == 0 {
        player1_won = true;
        emit(frame, large_text(PLAYER1_WON_TEXT.to_owned(), 20, 80));
    }
    emit(frame, large_text(format_hp(player1_hp), 30, 160));
    emit(frame, large_text(format_hp(player2_hp), 200, 160));
    let mut exit = false;
    if buttons.ok && buttons.left && !buttons.right {
        emit(frame, DrawCmd::Clear(Color::White));
        exit = true;
    } else if buttons.ok && buttons.left && buttons.right {
        emit(frame, DrawCmd::Clear(Color::White));
    }
    let next = Battle { player1_hp, player2_hp, player1_won, player2_won: battle.player2_won };
    assert(ops_of(frame@) =~= start + outcome_ops(next, buttons));
    (next, exit)
}

/// One frame of the battle. `target_roll` and `start_roll` are the random
/// numbers that place the effect of a move; they are not used when no move
/// counts. Returns the battle after the frame and whether the exit chord
/// (left and OK) leaves the battle.
pub fn battle_frame(battle: Battle, buttons: Buttons, target_roll: u64, start_roll: u64, frame: &mut Vec<DrawCmd>) -> (res: (Battle, bool))
    requires
        battle.arith_safe(),
    ensures
        res.0 == next_battle(battle, buttons),
        res.1 == exit_chord(buttons),
        ops_of(final(frame)@) == ops_of(old(frame)@) + battle_ops(battle, buttons, target_roll, start_roll),
{
    let ghost start = ops_of(frame@);
    emit(frame, DrawCmd::Image { sprite: Sprite::Player1, x: 10, y: 10 });
    emit(frame, DrawCmd::Image { sprite: Sprite::Player2, x: 200, y: 10 });
    let ghost after_sprites = ops_of(frame@);
    let (hp1, hp2) = play_move(battle, buttons, target_roll, start_roll, frame);
    let ghost after_move = ops_of(frame@);
    let player1_hp = clamp_hp(hp1);
    let player2_hp = clamp_hp(hp2);
    let res = finish_frame(battle, player1_hp, player2_hp, buttons, frame);
    proof {
        assert(res.0 == next_battle(battle, buttons));
        assert(after_sprites =~= start + sprite_ops());
        assert(ops_of(frame@) =~= start + battle_ops(battle, buttons, target_roll, start_roll));
    }
    res
}

} // verus!
