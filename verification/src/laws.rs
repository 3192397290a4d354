use vstd::prelude::*;

use crate::battle::{
    effective_move, exit_chord, moved_ops, next_battle, roll_y, Battle, Move, ATTACK_DAMAGE, MAX_HP, ROLL_RANGE,
    SPECIAL_DAMAGE, move_of,
};
use crate::battle::{battle_ops, move_ops};
use crate::console::{game_matches_menu, log_event_spec, needs_rolls, screen_reachable, spec_step, LogEvent, Screen};
use crate::draw::{rect_op, text_op, Color, DrawOp, Paint};
use crate::menu::{menu_after_input, menu_close_ops, menu_open_ops, Buttons, Menu};
use crate::preview::{preview_ops, preview_text_op};
use crate::text::{hp_text, lemma_label_lengths, CONSOLE_NAME, OTHER_GAMES_LABEL, PLAYER1_WON_TEXT, PROMPT, RETRO_HEROES_LABEL};
use crate::draw::Sprite;
use crate::network::{net_step_spec, NetAction, NetEvent, NetPhase};

verus! {

/// Every step keeps exactly one menu entry highlighted, keeps a battle on
/// screen in a state that play can reach from a fresh battle, and keeps
/// "Retro Heroes" highlighted while a battle, or the return from one, runs.
pub proof fn lemma_step_keeps_invariant(menu: Menu, screen: Screen, buttons: Buttons, target_roll: u64, start_roll: u64)
    requires
        menu.exclusive(),
        screen_reachable(screen),
        game_matches_menu(menu, screen),
    ensures
        spec_step(menu, screen, buttons, target_roll, start_roll).0.exclusive(),
        screen_reachable(spec_step(menu, screen, buttons, target_roll, start_roll).1),
        game_matches_menu(
            spec_step(menu, screen, buttons, target_roll, start_roll).0,
            spec_step(menu, screen, buttons, target_roll, start_roll).1,
        ),
{
}

/// Moving the highlight twice puts it back where it was.
pub proof fn lemma_toggle_twice_restores(menu: Menu)
    ensures
        menu.flipped().flipped() == menu,
{
}

/// On the menu, left or right moves the highlight to the other entry, and
/// with neither held the highlight stays.
pub proof fn lemma_left_right_move_highlight(menu: Menu, buttons: Buttons, target_roll: u64, start_roll: u64)
    requires
        menu.exclusive(),
    ensures
        (buttons.left || buttons.right) ==> spec_step(menu, Screen::Menu, buttons, target_roll, start_roll).0.retro_heroes_active
            == !menu.retro_heroes_active,
        !(buttons.left || buttons.right) ==> spec_step(menu, Screen::Menu, buttons, target_roll, start_roll).0 == menu,
{
}

/// On the menu, OK starts a fresh battle exactly when "Retro Heroes" is
/// highlighted after the buttons are read; otherwise the menu stays on screen.
pub proof fn lemma_ok_launches_battle(menu: Menu, buttons: Buttons, target_roll: u64, start_roll: u64)
    ensures
        (buttons.ok && menu_after_input(menu, buttons).retro_heroes_active) ==> spec_step(
            menu,
            Screen::Menu,
            buttons,
            target_roll,
            start_roll,
        ).1 == Screen::Battle(Battle::initial()),
        !(buttons.ok && menu_after_input(menu, buttons).retro_heroes_active) ==> spec_step(
            menu,
            Screen::Menu,
            buttons,
            target_roll,
            start_roll,
        ).1 == Screen::Menu,
{
}

/// A battle never changes which menu entry is highlighted.
pub proof fn lemma_battle_keeps_menu(menu: Menu, battle: Battle, buttons: Buttons, target_roll: u64, start_roll: u64)
    ensures
        spec_step(menu, Screen::Battle(battle), buttons, target_roll, start_roll).0 == menu,
{
}

/// Left and OK together leave a battle, and the next step is back on the
/// menu with the same entry highlighted.
pub proof fn lemma_exit_returns_to_menu(
    menu: Menu,
    battle: Battle,
    buttons: Buttons,
    next_buttons: Buttons,
    rolls: (u64, u64, u64, u64),
)
    requires
        exit_chord(buttons),
    ensures
        ({
            let first = spec_step(menu, Screen::Battle(battle), buttons, rolls.0, rolls.1);
            let second = spec_step(first.0, first.1, next_buttons, rolls.2, rolls.3);
            &&& first.1 == Screen::MenuTail
            &&& second.0 == menu
            &&& second.1 == Screen::Menu
        }),
{
}

/// Health counts stay between zero and full health in every frame.
pub proof fn lemma_health_stays_in_range(battle: Battle, buttons: Buttons)
    ensures
        0 <= next_battle(battle, buttons).player1_hp <= MAX_HP,
        0 <= next_battle(battle, buttons).player2_hp <= MAX_HP,
{
}

/// Once a battle is over, no button changes either player's health, the
/// battle stays over, and no move is drawn.
pub proof fn lemma_game_over_freezes_battle(battle: Battle, buttons: Buttons, target_roll: u64, start_roll: u64)
    requires
        battle.over(),
        0 <= battle.player1_hp <= MAX_HP,
        0 <= battle.player2_hp <= MAX_HP,
    ensures
        next_battle(battle, buttons).player1_hp == battle.player1_hp,
        next_battle(battle, buttons).player2_hp == battle.player2_hp,
        next_battle(battle, buttons).over(),
        moved_ops(battle, buttons, target_roll, start_roll) == Seq::<crate::draw::DrawOp>::empty(),
{
}

/// Without a move (no button, or more than one held) neither player's
/// health changes.
pub proof fn lemma_no_move_no_change(battle: Battle, buttons: Buttons)
    requires
        move_of(buttons) is None,
        0 <= battle.player1_hp <= MAX_HP,
        0 <= battle.player2_hp <= MAX_HP,
    ensures
        next_battle(battle, buttons).player1_hp == battle.player1_hp,
        next_battle(battle, buttons).player2_hp == battle.player2_hp,
{
}

/// While a battle is on, an attack takes ten health points from player 2
/// and a special attack twenty, never below zero, and neither touches
/// player 1; a heal gives player 1 ten, never above full health.
pub proof fn lemma_moves_change_health(battle: Battle, buttons: Buttons)
    requires
        !battle.over(),
        0 <= battle.player1_hp <= MAX_HP,
        0 <= battle.player2_hp <= MAX_HP,
    ensures
        (buttons.left && !buttons.ok && !buttons.right) ==> {
            &&& next_battle(battle, buttons).player2_hp == if battle.player2_hp >= ATTACK_DAMAGE { battle.player2_hp - ATTACK_DAMAGE } else { 0 }
            &&& next_battle(battle, buttons).player1_hp == battle.player1_hp
        },
        (!buttons.left && !buttons.ok && buttons.right) ==> {
            &&& next_battle(battle, buttons).player2_hp == if battle.player2_hp >= SPECIAL_DAMAGE { battle.player2_hp - SPECIAL_DAMAGE } else { 0 }
            &&& next_battle(battle, buttons).player1_hp == battle.player1_hp
        },
        (!buttons.left && buttons.ok && !buttons.right) ==> {
            &&& next_battle(battle, buttons).player1_hp == if battle.player1_hp + 10 <= MAX_HP { battle.player1_hp + 10 } else { MAX_HP as int }
            &&& next_battle(battle, buttons).player2_hp == battle.player2_hp
        },
{
}

/// In every battle that play can reach, player 1 is at full health, so the
/// line "Player 2 won the game!" is never drawn, and the battle is won (by
/// player 1) exactly when player 2 has no health left.
pub proof fn lemma_player1_never_falls(battle: Battle, buttons: Buttons)
    requires
        battle.reachable(),
    ensures
        next_battle(battle, buttons).reachable(),
        next_battle(battle, buttons).player1_hp == MAX_HP,
        next_battle(battle, buttons).over() == (next_battle(battle, buttons).player2_hp == 0),
{
}

/// The effect of a move lands strictly within 140 rows of the top edge.
pub proof fn lemma_roll_in_range(roll: u64)
    ensures
        -ROLL_RANGE < roll_y(roll) < ROLL_RANGE,
{
}

/// The console is started exactly when DHCP reports the network up while
/// the firmware waits for it, and nothing happens once it is online.
pub proof fn lemma_console_starts_once_online(phase: NetPhase, event: NetEvent)
    ensures
        net_step_spec(phase, event).1.contains(NetAction::StartConsole) <==> (phase == NetPhase::AwaitingDhcp
            && event == NetEvent::ConfigUp),
        net_step_spec(phase, event).1.contains(NetAction::StartConsole) ==> net_step_spec(phase, event).0
            == NetPhase::Online,
        phase == NetPhase::Online ==> net_step_spec(phase, event) == (NetPhase::Online, Seq::<NetAction>::empty()),
{
    let actions = net_step_spec(phase, event).1;
    if phase == NetPhase::AwaitingDhcp && event == NetEvent::ConfigUp {
        assert(actions[2] == NetAction::StartConsole);
    }
}

/// Every battle frame ends with the two health lines of the battle as it
/// stands after the frame, both between zero and full health (player 1's at
/// (30, 160), player 2's at (200, 160)), followed only by a clear screen
/// when left and OK are held; and whenever player 2 is left with no health
/// the frame holds the line "Player 1 won the game!" at (20, 80).
pub proof fn lemma_frame_shows_health_after_the_move(battle: Battle, buttons: Buttons, target_roll: u64, start_roll: u64)
    ensures
        ({
            let ops = battle_ops(battle, buttons, target_roll, start_roll);
            let next = next_battle(battle, buttons);
            let wipe: int = if buttons.ok && buttons.left { 1 } else { 0 };
            &&& ops.len() >= 4 + wipe
            &&& ops[ops.len() - 2 - wipe] == text_op(hp_text(next.player1_hp as int), 30, 160)
            &&& ops[ops.len() - 1 - wipe] == text_op(hp_text(next.player2_hp as int), 200, 160)
            &&& 0 <= next.player1_hp <= MAX_HP
            &&& 0 <= next.player2_hp <= MAX_HP
            &&& wipe == 1 ==> ops[ops.len() - 1] == DrawOp::Clear(Color::White)
            &&& next.player2_hp == 0 ==> ops.contains(text_op(PLAYER1_WON_TEXT@, 20, 80))
        }),
{
    let ops = battle_ops(battle, buttons, target_roll, start_roll);
    let next = next_battle(battle, buttons);
    let won = text_op(PLAYER1_WON_TEXT@, 20, 80);
    if next.player2_hp == 0 {
        let moved_len = crate::battle::moved_ops(battle, buttons, target_roll, start_roll).len();
        let at: int = 2 + moved_len + if next.player1_hp == 0 { 1int } else { 0int };
        assert(ops[at] == won);
    }
}

/// A step draws two fresh random numbers exactly when it plays a move in a
/// battle that is not over: exactly one of the three buttons held (left
/// attacks, OK heals, right attacks specially). On the menu, and on the way
/// back to it, no number is drawn.
pub proof fn lemma_rolls_exactly_for_moves(screen: Screen, buttons: Buttons)
    ensures
        needs_rolls(screen, buttons) == match screen {
            Screen::Battle(battle) => {
                &&& !battle.player1_won
                &&& !battle.player2_won
                &&& ((buttons.left && !buttons.ok && !buttons.right) || (!buttons.left && buttons.ok && !buttons.right)
                    || (!buttons.left && !buttons.ok && buttons.right))
            },
            _ => false,
        },
{
}

/// The second half of a menu pass draws the entries from the menu alone,
/// whatever buttons are held: the "Retro Heroes" box at (100, 100), 144 by
/// 30, outlined in lime exactly when that entry is highlighted and black
/// otherwise, its label at (100, 120); the "Other Games" box at (105, 130),
/// 132 by 30, outlined in green exactly when that entry is highlighted and
/// black otherwise, its label at (105, 150). Only the wipe chord puts a clear
/// screen before them.
pub proof fn lemma_entries_show_the_menu(menu: Menu, buttons: Buttons)
    ensures
        ({
            let ops = menu_close_ops(menu, buttons);
            let n = ops.len();
            &&& n == if buttons.left && buttons.ok && buttons.right { 5int } else { 4int }
            &&& n == 5 ==> ops[0] == DrawOp::Clear(Color::White)
            &&& ops[n - 4] == rect_op(100, 100, 144, 30,
                Paint::Stroke(if menu.retro_heroes_active { Color::Lime } else { Color::Black }, 2))
            &&& ops[n - 3] == text_op(RETRO_HEROES_LABEL@, 100, 120)
            &&& ops[n - 2] == rect_op(105, 130, 132, 30,
                Paint::Stroke(if menu.other_games_active { Color::Green } else { Color::Black }, 2))
            &&& ops[n - 1] == text_op(OTHER_GAMES_LABEL@, 105, 150)
        }),
{
    lemma_label_lengths();
}

/// The picture of a move: the field between the fighters (138, 0), 62 by
/// 138, is repainted white; a line in red (attack), yellow (heal) or purple
/// (special attack), two pixels wide, runs from x 140 to x 200 and ends on
/// the row of the 10 by 10 box that marks where it lands at x 200; then the
/// status panel of the player the move affects is repainted white: player
/// 2's (200, 138), 100 by 250, after either attack, player 1's (30, 140),
/// 140 by 250, after a heal.
pub proof fn lemma_move_picture(mv: Move, target_roll: u64, start_roll: u64)
    ensures
        ({
            let ops = move_ops(mv, target_roll, start_roll);
            let color = match mv {
                Move::Attack => Color::Red,
                Move::Heal => Color::Yellow,
                Move::SpecialAttack => Color::Purple,
            };
            &&& ops.len() == 4
            &&& ops[0] == rect_op(138, 0, 62, 138, Paint::Fill(Color::White))
            &&& ops[1] matches DrawOp::Line { x1, y1, x2, y2, paint } && x1 == 140 && x2 == 200
                && paint == Paint::Stroke(color, 2) && ops[2] == rect_op(200, y2, 10, 10, paint)
                && -140 < y1 < 140 && -140 < y2 < 140
            &&& (mv == Move::Heal) ==> ops[3] == rect_op(30, 140, 140, 250, Paint::Fill(Color::White))
            &&& (mv != Move::Heal) ==> ops[3] == rect_op(200, 138, 100, 250, Paint::Fill(Color::White))
        }),
{
    lemma_roll_in_range(target_roll);
    lemma_roll_in_range(start_roll);
}

/// What a step logs. On the menu with exactly one entry highlighted, OK
/// always logs the launch of the entry that is highlighted once left or
/// right have moved the highlight ("Retro Heroes" when it was highlighted
/// and neither was held, or when it was not and one was), and nothing is
/// logged without OK. In a battle that is not over, the single held button
/// logs its move; nothing else logs.
pub proof fn lemma_log_reports_launch_and_moves(menu: Menu, screen: Screen, buttons: Buttons)
    requires
        menu.exclusive(),
    ensures
        screen == Screen::Menu ==> log_event_spec(menu, screen, buttons) == if !buttons.ok {
            None
        } else if menu.retro_heroes_active != (buttons.left || buttons.right) {
            Some(LogEvent::RetroHeroesLaunching)
        } else {
            Some(LogEvent::OtherGamesLaunching)
        },
        screen == Screen::MenuTail ==> log_event_spec(menu, screen, buttons) == None::<LogEvent>,
        screen matches Screen::Battle(battle) ==> log_event_spec(menu, screen, buttons) == if battle.player1_won
            || battle.player2_won {
            None
        } else if buttons.left && !buttons.ok && !buttons.right {
            Some(LogEvent::Attack)
        } else if !buttons.left && buttons.ok && !buttons.right {
            Some(LogEvent::Heal)
        } else if !buttons.left && !buttons.ok && buttons.right {
            Some(LogEvent::SpecialAttack)
        } else {
            None
        },
{
}

/// A menu pass starts with the console's name at (144, 20) and the question
/// at (20, 80), followed by a clear screen exactly when OK is held. When it
/// starts no battle, the entries follow in the same step.
pub proof fn lemma_menu_pass_starts_with_header(menu: Menu, buttons: Buttons, target_roll: u64, start_roll: u64)
    ensures
        menu_open_ops(buttons).len() == if buttons.ok { 3int } else { 2int },
        menu_open_ops(buttons)[0] == text_op(CONSOLE_NAME@, 144, 20),
        menu_open_ops(buttons)[1] == text_op(PROMPT@, 20, 80),
        buttons.ok ==> menu_open_ops(buttons)[2] == DrawOp::Clear(Color::White),
        spec_step(menu, Screen::Menu, buttons, target_roll, start_roll).1 == Screen::Menu ==> spec_step(
            menu,
            Screen::Menu,
            buttons,
            target_roll,
            start_roll,
        ).2 == menu_open_ops(buttons) + menu_close_ops(spec_step(menu, Screen::Menu, buttons, target_roll, start_roll).0, buttons),
{
}

/// Every battle frame starts with player 1's picture at (10, 10) and player
/// 2's at (200, 10); the picture of a move follows exactly when one counts,
/// and it is the picture of the move that the single held button chooses.
pub proof fn lemma_frame_starts_with_fighters(battle: Battle, buttons: Buttons, target_roll: u64, start_roll: u64)
    ensures
        ({
            let ops = battle_ops(battle, buttons, target_roll, start_roll);
            &&& ops[0] == DrawOp::Image { sprite: Sprite::Player1, x: 10, y: 10 }
            &&& ops[1] == DrawOp::Image { sprite: Sprite::Player2, x: 200, y: 10 }
            &&& (!battle.over() && move_of(buttons) is Some) ==> ops.subrange(2, 6) == move_ops(
                move_of(buttons)->0,
                target_roll,
                start_roll,
            )
            &&& !(!battle.over() && move_of(buttons) is Some) ==> moved_ops(battle, buttons, target_roll, start_roll).len() == 0
        }),
{
    let ops = battle_ops(battle, buttons, target_roll, start_roll);
    if !battle.over() && move_of(buttons) is Some {
        let mv = move_of(buttons)->0;
        assert(ops.subrange(2, 6) =~= move_ops(mv, target_roll, start_roll));
    }
}

/// A roll is placed as Rust's `roll as i32 % 140` places it: with `v` the
/// roll's low 32 bits read as a signed number, the row differs from `v` by a
/// multiple of 140, lies strictly within 140 of zero, and has the sign of `v`.
pub proof fn lemma_roll_is_signed_remainder(roll: u64)
    ensures
        ({
            let low = roll as int % 0x1_0000_0000;
            let v = if low < 0x8000_0000 { low } else { low - 0x1_0000_0000 };
            let y = roll_y(roll);
            &&& (v - y) % 140 == 0
            &&& -140 < y < 140
            &&& v >= 0 ==> y >= 0
            &&& v < 0 ==> y <= 0
        }),
{
    let low = roll as int % 0x1_0000_0000;
    let v = if low < 0x8000_0000 { low } else { low - 0x1_0000_0000 };
    if v >= 0 {
        assert((v - v % 140) % 140 == 0) by (nonlinear_arith);
    } else {
        let m = -v;
        assert(m > 0);
        assert((m - m % 140) % 140 == 0) by (nonlinear_arith);
        assert((v - (-(m % 140))) == -(m - m % 140));
        assert((-(m - m % 140)) % 140 == 0) by (nonlinear_arith)
            requires (m - m % 140) % 140 == 0;
    }
}

/// The desktop preview shows the console's name at (144, 20) and the
/// question at (80, 80), then the "Retro Heroes" box at (130, 100), 96 by
/// 30, with its label at (136, 120), and the "Other Games" box at (133,
/// 130), 88 by 30, with its label at (138, 140), all in lit pixels, the
/// boxes outlined one pixel wide.
pub proof fn lemma_preview_layout()
    ensures
        preview_ops() == seq![
            preview_text_op(CONSOLE_NAME@, 144, 20),
            preview_text_op(PROMPT@, 80, 80),
            rect_op(130, 100, 96, 30, Paint::Stroke(Color::On, 1)),
            preview_text_op(RETRO_HEROES_LABEL@, 136, 120),
            rect_op(133, 130, 88, 30, Paint::Stroke(Color::On, 1)),
            preview_text_op(OTHER_GAMES_LABEL@, 138, 140),
        ],
{
    lemma_label_lengths();
    assert(preview_ops() =~= seq![
        preview_text_op(CONSOLE_NAME@, 144, 20),
        preview_text_op(PROMPT@, 80, 80),
        rect_op(130, 100, 96, 30, Paint::Stroke(Color::On, 1)),
        preview_text_op(RETRO_HEROES_LABEL@, 136, 120),
        rect_op(133, 130, 88, 30, Paint::Stroke(Color::On, 1)),
        preview_text_op(OTHER_GAMES_LABEL@, 138, 140),
    ]);
}

/// A failed join is reported and tried again, a pending DHCP configuration
/// is waited for and looked at again, and a successful join starts the wait
/// for DHCP with a look at the configuration.
pub proof fn lemma_network_retries()
    ensures
        net_step_spec(NetPhase::Joining, NetEvent::JoinFailed) == (NetPhase::Joining, seq![NetAction::ReportJoinFailure, NetAction::Join]),
        net_step_spec(NetPhase::AwaitingDhcp, NetEvent::ConfigPending) == (NetPhase::AwaitingDhcp, seq![NetAction::Sleep, NetAction::CheckConfig]),
        net_step_spec(NetPhase::Joining, NetEvent::Joined) == (NetPhase::AwaitingDhcp, seq![NetAction::AnnounceDhcpWait, NetAction::CheckConfig]),
{
}

/// The buttons of a plain attack: left alone.
pub open spec fn attack_buttons() -> Buttons {
    Buttons { left: true, ok: false, right: false }
}

/// The battle after `n` frames of plain attacks.
pub open spec fn after_attacks(battle: Battle, n: nat) -> Battle
    decreases n,
{
    if n == 0 {
        battle
    } else {
        after_attacks(next_battle(battle, attack_buttons()), (n - 1) as nat)
    }
}

/// Every battle that play can reach is won after at most ten attacks: one
/// for each ten health points that player 2 has left.
pub proof fn lemma_attacks_win(battle: Battle)
    requires
        battle.reachable(),
    ensures
        after_attacks(battle, (battle.player2_hp / 10) as nat).over(),
        after_attacks(battle, (battle.player2_hp / 10) as nat).player2_hp == 0,
        battle.player2_hp / 10 <= 10,
    decreases battle.player2_hp,
{
    if battle.player2_hp > 0 {
        let next = next_battle(battle, attack_buttons());
        assert(effective_move(battle, attack_buttons()) == Some(Move::Attack));
        assert(next.player2_hp == battle.player2_hp - 10);
        assert(next.reachable());
        assert(next.player2_hp / 10 == battle.player2_hp / 10 - 1);
        lemma_attacks_win(next);
    }
}

} // verus!
