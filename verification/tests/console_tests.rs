use picoplay::battle::{battle_frame, chosen_move, clamp_hp, roll_to_y, Battle, Move};
use picoplay::console::{console_step, log_event, step_needs_rolls, LogEvent, PicoPlay, Screen};
use picoplay::network::{net_start, net_step, NetAction, NetEvent, NetPhase};
use picoplay::draw::{Color, DrawCmd, Font, Paint, Sprite};
use picoplay::hardware::{buzzer_compare, BUZZER_TOP, BUZZER_VOLUME};
use picoplay::menu::{menu_close, menu_open, Buttons, Menu};
use picoplay::preview::preview_frame;

fn buttons(left: bool, ok: bool, right: bool) -> Buttons {
    Buttons { left, ok, right }
}

fn none() -> Buttons {
    buttons(false, false, false)
}

fn text(t: &str, x: i32, y: i32) -> DrawCmd {
    DrawCmd::Text { text: t.to_string(), x, y, font: Font::Large, color: Color::Black }
}

fn same(a: &DrawCmd, b: &DrawCmd) -> bool {
    format!("{:?}", a) == format!("{:?}", b)
}

fn assert_frame(frame: &[DrawCmd], expected: &[DrawCmd]) {
    assert_eq!(frame.len(), expected.len(), "frame {:?}", frame);
    for (a, b) in frame.iter().zip(expected.iter()) {
        assert!(same(a, b), "{:?} != {:?}", a, b);
    }
}

fn entries(retro: Color, other: Color) -> Vec<DrawCmd> {
    vec![
        DrawCmd::Rect { x: 100, y: 100, width: 144, height: 30, paint: Paint::Stroke(retro, 2) },
        text("Retro Heroes", 100, 120),
        DrawCmd::Rect { x: 105, y: 130, width: 132, height: 30, paint: Paint::Stroke(other, 2) },
        text("Other Games", 105, 150),
    ]
}

fn header() -> Vec<DrawCmd> {
    vec![text("PicoPlay", 144, 20), text("What would you like to play?", 20, 80)]
}

#[test]
fn menu_starts_on_retro_heroes() {
    let menu = Menu::new();
    assert!(menu.retro_heroes_active);
    assert!(!menu.other_games_active);
}

#[test]
fn toggle_moves_highlight_and_back() {
    let mut menu = Menu::new();
    menu.toggle();
    assert_eq!(menu, Menu { retro_heroes_active: false, other_games_active: true });
    menu.toggle();
    assert_eq!(menu, Menu::new());
}

#[test]
fn idle_menu_pass_draws_header_and_entries() {
    let (menu, screen, frame) = console_step(Menu::new(), Screen::Menu, none(), 0, 0);
    assert_eq!(menu, Menu::new());
    assert_eq!(screen, Screen::Menu);
    let mut expected = header();
    expected.extend(entries(Color::Lime, Color::Black));
    assert_frame(&frame, &expected);
}

#[test]
fn left_or_right_moves_highlight() {
    for b in [buttons(true, false, false), buttons(false, false, true), buttons(true, false, true)] {
        let (menu, screen, frame) = console_step(Menu::new(), Screen::Menu, b, 0, 0);
        assert_eq!(menu, Menu { retro_heroes_active: false, other_games_active: true });
        assert_eq!(screen, Screen::Menu);
        let mut expected = header();
        expected.extend(entries(Color::Black, Color::Green));
        assert_frame(&frame, &expected);
    }
}

#[test]
fn ok_launches_retro_heroes() {
    let (menu, screen, frame) = console_step(Menu::new(), Screen::Menu, buttons(false, true, false), 0, 0);
    assert_eq!(menu, Menu::new());
    assert_eq!(screen, Screen::Battle(Battle::new()));
    let mut expected = header();
    expected.push(DrawCmd::Clear(Color::White));
    assert_frame(&frame, &expected);
}

#[test]
fn ok_on_other_games_stays_on_menu() {
    let other = Menu { retro_heroes_active: false, other_games_active: true };
    let (menu, screen, frame) = console_step(other, Screen::Menu, buttons(false, true, false), 0, 0);
    assert_eq!(menu, other);
    assert_eq!(screen, Screen::Menu);
    let mut expected = header();
    expected.push(DrawCmd::Clear(Color::White));
    expected.extend(entries(Color::Black, Color::Green));
    assert_frame(&frame, &expected);
}

#[test]
fn ok_with_right_switches_then_launches_nothing() {
    // right moves the highlight to "Other Games" before OK is looked at
    let (menu, screen, _) = console_step(Menu::new(), Screen::Menu, buttons(false, true, true), 0, 0);
    assert_eq!(menu, Menu { retro_heroes_active: false, other_games_active: true });
    assert_eq!(screen, Screen::Menu);
    // from "Other Games", left and OK switch back and start the battle
    let (menu, screen, _) = console_step(menu, Screen::Menu, buttons(true, true, false), 0, 0);
    assert_eq!(menu, Menu::new());
    assert_eq!(screen, Screen::Battle(Battle::new()));
}

#[test]
fn wipe_chord_clears_before_entries() {
    let mut frame = Vec::new();
    menu_close(Menu::new(), buttons(true, true, true), &mut frame);
    let mut expected = vec![DrawCmd::Clear(Color::White)];
    expected.extend(entries(Color::Lime, Color::Black));
    assert_frame(&frame, &expected);
}

#[test]
fn menu_open_reports_launch() {
    let mut frame = Vec::new();
    let (menu, launch) = menu_open(Menu::new(), buttons(false, true, false), &mut frame);
    assert!(launch);
    assert_eq!(menu, Menu::new());
    assert_eq!(frame.len(), 3);
}

#[test]
fn moves_from_buttons() {
    assert_eq!(chosen_move(buttons(true, false, false)), Some(Move::Attack));
    assert_eq!(chosen_move(buttons(false, true, false)), Some(Move::Heal));
    assert_eq!(chosen_move(buttons(false, false, true)), Some(Move::SpecialAttack));
    assert_eq!(chosen_move(buttons(true, true, false)), None);
    assert_eq!(chosen_move(buttons(true, false, true)), None);
    assert_eq!(chosen_move(none()), None);
}

#[test]
fn clamp_keeps_health_in_range() {
    assert_eq!(clamp_hp(-10), 0);
    assert_eq!(clamp_hp(0), 0);
    assert_eq!(clamp_hp(55), 55);
    assert_eq!(clamp_hp(110), 100);
    assert_eq!(clamp_hp(i32::MIN), 0);
    assert_eq!(clamp_hp(i32::MAX), 100);
}

#[test]
fn rolls_match_cast_and_remainder() {
    let rolls: [u64; 10] = [
        0,
        139,
        140,
        281,
        0xFFFF_FFFF,
        0x8000_0000,
        0x7FFF_FFFF,
        11653916018131561298,
        8879211503557437945,
        u64::MAX,
    ];
    for r in rolls {
        assert_eq!(roll_to_y(r), (r as i32) % 140, "roll {}", r);
    }
    assert_eq!(roll_to_y(0xFFFF_FFFF), -1);
    assert_eq!(roll_to_y(281), 1);
}

#[test]
fn attack_frame() {
    let mut frame = Vec::new();
    let (battle, exit) = battle_frame(Battle::new(), buttons(true, false, false), 150, 20, &mut frame);
    assert!(!exit);
    assert_eq!(battle, Battle { player1_hp: 100, player2_hp: 90, player1_won: false, player2_won: false });
    let red = Paint::Stroke(Color::Red, 2);
    let expected = vec![
        DrawCmd::Image { sprite: Sprite::Player1, x: 10, y: 10 },
        DrawCmd::Image { sprite: Sprite::Player2, x: 200, y: 10 },
        DrawCmd::Rect { x: 138, y: 0, width: 62, height: 138, paint: Paint::Fill(Color::White) },
        DrawCmd::Line { x1: 140, y1: 20, x2: 200, y2: 10, paint: red },
        DrawCmd::Rect { x: 200, y: 10, width: 10, height: 10, paint: red },
        DrawCmd::Rect { x: 200, y: 138, width: 100, height: 250, paint: Paint::Fill(Color::White) },
        text("HP: 100", 30, 160),
        text("HP: 90", 200, 160),
    ];
    assert_frame(&frame, &expected);
}

#[test]
fn heal_frame_keeps_full_health() {
    let mut frame = Vec::new();
    let (battle, exit) = battle_frame(Battle::new(), buttons(false, true, false), 0xFFFF_FFFF, 3, &mut frame);
    assert!(!exit);
    assert_eq!(battle, Battle::new());
    let yellow = Paint::Stroke(Color::Yellow, 2);
    let expected = vec![
        DrawCmd::Image { sprite: Sprite::Player1, x: 10, y: 10 },
        DrawCmd::Image { sprite: Sprite::Player2, x: 200, y: 10 },
        DrawCmd::Rect { x: 138, y: 0, width: 62, height: 138, paint: Paint::Fill(Color::White) },
        DrawCmd::Line { x1: 140, y1: 3, x2: 200, y2: -1, paint: yellow },
        DrawCmd::Rect { x: 200, y: -1, width: 10, height: 10, paint: yellow },
        DrawCmd::Rect { x: 30, y: 140, width: 140, height: 250, paint: Paint::Fill(Color::White) },
        text("HP: 100", 30, 160),
        text("HP: 100", 200, 160),
    ];
    assert_frame(&frame, &expected);
}

#[test]
fn heal_restores_wounded_player() {
    let wounded = Battle { player1_hp: 85, player2_hp: 40, player1_won: false, player2_won: false };
    let mut frame = Vec::new();
    let (battle, _) = battle_frame(wounded, buttons(false, true, false), 0, 0, &mut frame);
    assert_eq!(battle.player1_hp, 95);
    assert_eq!(battle.player2_hp, 40);
    let (battle, _) = battle_frame(battle, buttons(false, true, false), 0, 0, &mut frame);
    assert_eq!(battle.player1_hp, 100);
}

#[test]
fn special_attacks_win_the_battle() {
    let mut battle = Battle::new();
    for round in 0..5 {
        let mut frame = Vec::new();
        let (next, exit) = battle_frame(battle, buttons(false, false, true), 7, 7, &mut frame);
        assert!(!exit);
        battle = next;
        assert_eq!(battle.player2_hp, 80 - 20 * round);
        let last = &frame[frame.len() - 1];
        assert!(same(last, &text(&format!("HP: {}", 80 - 20 * round), 200, 160)));
        if round == 4 {
            assert!(same(&frame[frame.len() - 3], &text("Player 1 won the game!", 20, 80)));
            assert!(same(&frame[3], &DrawCmd::Line { x1: 140, y1: 7, x2: 200, y2: 7, paint: Paint::Stroke(Color::Purple, 2) }));
        }
    }
    assert!(battle.player1_won);
    assert!(!battle.player2_won);
    assert!(battle.is_over());
}

#[test]
fn over_battle_ignores_moves() {
    let over = Battle { player1_hp: 100, player2_hp: 0, player1_won: true, player2_won: false };
    let mut frame = Vec::new();
    let (battle, exit) = battle_frame(over, buttons(true, false, false), 1, 1, &mut frame);
    assert!(!exit);
    assert_eq!(battle, over);
    let expected = vec![
        DrawCmd::Image { sprite: Sprite::Player1, x: 10, y: 10 },
        DrawCmd::Image { sprite: Sprite::Player2, x: 200, y: 10 },
        text("Player 1 won the game!", 20, 80),
        text("HP: 100", 30, 160),
        text("HP: 0", 200, 160),
    ];
    assert_frame(&frame, &expected);
}

#[test]
fn fallen_player1_shows_player2_won() {
    let fallen = Battle { player1_hp: 0, player2_hp: 50, player1_won: false, player2_won: false };
    let mut frame = Vec::new();
    let (battle, _) = battle_frame(fallen, none(), 0, 0, &mut frame);
    assert!(battle.player1_won);
    assert!(same(&frame[2], &text("Player 2 won the game!", 20, 80)));
    assert!(same(&frame[3], &text("HP: 0", 30, 160)));
}

#[test]
fn negative_health_text() {
    // a battle built by hand may start below zero: it is clamped first
    let mut frame = Vec::new();
    let odd = Battle { player1_hp: -5, player2_hp: 150, player1_won: false, player2_won: false };
    let (battle, _) = battle_frame(odd, none(), 0, 0, &mut frame);
    assert_eq!(battle.player1_hp, 0);
    assert_eq!(battle.player2_hp, 100);
}

#[test]
fn exit_chord_leaves_battle() {
    let in_battle = Battle { player1_hp: 100, player2_hp: 60, player1_won: false, player2_won: false };
    let (menu, screen, frame) = console_step(Menu::new(), Screen::Battle(in_battle), buttons(true, true, false), 0, 0);
    assert_eq!(menu, Menu::new());
    assert_eq!(screen, Screen::MenuTail);
    assert!(same(&frame[frame.len() - 1], &DrawCmd::Clear(Color::White)));
    let (menu, screen, frame) = console_step(menu, screen, none(), 0, 0);
    assert_eq!(menu, Menu::new());
    assert_eq!(screen, Screen::Menu);
    assert_frame(&frame, &entries(Color::Lime, Color::Black));
}

#[test]
fn wipe_chord_in_battle_stays() {
    let (_, screen, frame) = console_step(Menu::new(), Screen::Battle(Battle::new()), buttons(true, true, true), 0, 0);
    assert_eq!(screen, Screen::Battle(Battle::new()));
    assert!(same(&frame[frame.len() - 1], &DrawCmd::Clear(Color::White)));
}

#[test]
fn rolls_needed_only_for_moves() {
    assert!(!step_needs_rolls(Screen::Menu, buttons(true, false, false)));
    assert!(!step_needs_rolls(Screen::MenuTail, buttons(true, false, false)));
    assert!(step_needs_rolls(Screen::Battle(Battle::new()), buttons(true, false, false)));
    assert!(!step_needs_rolls(Screen::Battle(Battle::new()), buttons(true, true, false)));
    let over = Battle { player1_hp: 100, player2_hp: 0, player1_won: true, player2_won: false };
    assert!(!step_needs_rolls(Screen::Battle(over), buttons(true, false, false)));
}

#[test]
fn console_uses_seeded_generator() {
    // biski64 seeded with 12345 yields these numbers first
    let first: u64 = 11653916018131561298;
    let second: u64 = 8879211503557437945;
    let mut console = PicoPlay::new(12345);
    assert_eq!(console.menu(), Menu::new());
    assert_eq!(console.screen(), Screen::Menu);
    console.step(buttons(false, true, false));
    assert_eq!(console.screen(), Screen::Battle(Battle::new()));
    let frame = console.step(buttons(true, false, false));
    let red = Paint::Stroke(Color::Red, 2);
    let line = DrawCmd::Line {
        x1: 140,
        y1: (second as i32) % 140,
        x2: 200,
        y2: (first as i32) % 140,
        paint: red,
    };
    assert!(same(&frame[3], &line), "{:?}", frame[3]);
    match console.screen() {
        Screen::Battle(b) => assert_eq!(b.player2_hp, 90),
        other => panic!("unexpected screen {:?}", other),
    }
}

#[test]
fn console_plays_a_whole_game() {
    let mut console = PicoPlay::new(7);
    console.step(buttons(false, true, false));
    for _ in 0..10 {
        console.step(buttons(true, false, false));
        assert!(console.menu().retro_heroes_active);
    }
    match console.screen() {
        Screen::Battle(b) => {
            assert_eq!(b.player2_hp, 0);
            assert!(b.is_over());
        }
        other => panic!("unexpected screen {:?}", other),
    }
    console.step(buttons(true, true, false));
    assert_eq!(console.screen(), Screen::MenuTail);
    console.step(none());
    assert_eq!(console.screen(), Screen::Menu);
    assert_eq!(console.menu(), Menu::new());
}

#[test]
fn buzzer_level() {
    assert_eq!(buzzer_compare(BUZZER_TOP, BUZZER_VOLUME), 0x9088);
    assert_eq!(buzzer_compare(0x9088, 2), 0x4844);
}

#[test]
fn preview_layout() {
    let frame = preview_frame();
    let on = Paint::Stroke(Color::On, 1);
    let small = |t: &str, x: i32, y: i32| DrawCmd::Text { text: t.to_string(), x, y, font: Font::Small, color: Color::On };
    let expected = vec![
        small("PicoPlay", 144, 20),
        small("What would you like to play?", 80, 80),
        DrawCmd::Rect { x: 130, y: 100, width: 96, height: 30, paint: on },
        small("Retro Heroes", 136, 120),
        DrawCmd::Rect { x: 133, y: 130, width: 88, height: 30, paint: on },
        small("Other Games", 138, 140),
    ];
    assert_frame(&frame, &expected);
}

#[test]
fn no_move_leaves_health() {
    let battle = Battle { player1_hp: 100, player2_hp: 70, player1_won: false, player2_won: false };
    for b in [none(), buttons(true, false, true), buttons(false, true, true)] {
        let mut frame = Vec::new();
        let (next, exit) = battle_frame(battle, b, 5, 5, &mut frame);
        assert!(!exit);
        assert_eq!(next, battle);
        assert_eq!(frame.len(), 4);
    }
}

#[test]
fn player1_stays_at_full_health() {
    let mut console = PicoPlay::new(99);
    console.step(buttons(false, true, false));
    let presses = [
        buttons(true, false, false),
        buttons(false, true, false),
        buttons(false, false, true),
        none(),
        buttons(false, false, true),
    ];
    for b in presses {
        console.step(b);
        match console.screen() {
            Screen::Battle(battle) => {
                assert_eq!(battle.player1_hp, 100);
                assert!(!battle.player2_won);
                assert_eq!(battle.player2_hp % 10, 0);
            }
            other => panic!("unexpected screen {:?}", other),
        }
    }
}

#[test]
fn log_events_follow_steps() {
    assert_eq!(log_event(Menu::new(), Screen::Menu, buttons(false, true, false)), Some(LogEvent::RetroHeroesLaunching));
    assert_eq!(log_event(Menu::new(), Screen::Menu, buttons(false, true, true)), Some(LogEvent::OtherGamesLaunching));
    assert_eq!(log_event(Menu::new(), Screen::Menu, none()), None);
    assert_eq!(log_event(Menu::new(), Screen::Battle(Battle::new()), buttons(true, false, false)), Some(LogEvent::Attack));
    assert_eq!(log_event(Menu::new(), Screen::Battle(Battle::new()), buttons(false, true, false)), Some(LogEvent::Heal));
    assert_eq!(log_event(Menu::new(), Screen::Battle(Battle::new()), buttons(false, false, true)), Some(LogEvent::SpecialAttack));
    let over = Battle { player1_hp: 100, player2_hp: 0, player1_won: true, player2_won: false };
    assert_eq!(log_event(Menu::new(), Screen::Battle(over), buttons(true, false, false)), None);
    assert_eq!(log_event(Menu::new(), Screen::MenuTail, buttons(false, true, false)), None);
    let console = PicoPlay::new(1);
    assert_eq!(console.pending_log(buttons(false, true, false)), Some(LogEvent::RetroHeroesLaunching));
}

#[test]
fn network_bring_up() {
    let (phase, actions) = net_start();
    assert_eq!(phase, NetPhase::Joining);
    assert_eq!(actions, vec![NetAction::Join]);
    let (phase, actions) = net_step(phase, NetEvent::JoinFailed);
    assert_eq!(phase, NetPhase::Joining);
    assert_eq!(actions, vec![NetAction::ReportJoinFailure, NetAction::Join]);
    let (phase, actions) = net_step(phase, NetEvent::Joined);
    assert_eq!(phase, NetPhase::AwaitingDhcp);
    assert_eq!(actions, vec![NetAction::AnnounceDhcpWait, NetAction::CheckConfig]);
    let (phase, actions) = net_step(phase, NetEvent::ConfigPending);
    assert_eq!(phase, NetPhase::AwaitingDhcp);
    assert_eq!(actions, vec![NetAction::Sleep, NetAction::CheckConfig]);
    let (phase, actions) = net_step(phase, NetEvent::ConfigUp);
    assert_eq!(phase, NetPhase::Online);
    assert_eq!(actions, vec![NetAction::AnnounceOnline, NetAction::LightOn, NetAction::StartConsole]);
    let (phase, actions) = net_step(phase, NetEvent::JoinFailed);
    assert_eq!(phase, NetPhase::Online);
    assert!(actions.is_empty());
    let (phase, actions) = net_step(NetPhase::Joining, NetEvent::ConfigUp);
    assert_eq!(phase, NetPhase::Joining);
    assert!(actions.is_empty());
}

#[test]
fn generator_draws_two_numbers_per_move() {
    // a move draws the target row first, then the start row; the next move
    // continues with the third and fourth numbers of the seed
    let first: u64 = 11653916018131561298;
    let second: u64 = 8879211503557437945;
    let third: u64 = 8034477089638237744;
    let mut console = PicoPlay::new(12345);
    console.step(buttons(false, true, false));
    console.step(none());
    let frame = console.step(buttons(false, false, true));
    let purple = Paint::Stroke(Color::Purple, 2);
    assert!(same(&frame[3], &DrawCmd::Line { x1: 140, y1: (second as i32) % 140, x2: 200, y2: (first as i32) % 140, paint: purple }));
    let frame = console.step(buttons(true, false, false));
    match &frame[3] {
        DrawCmd::Line { y2, .. } => assert_eq!(*y2, (third as i32) % 140),
        other => panic!("unexpected command {:?}", other),
    }
}
