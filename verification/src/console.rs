use biski64::Biski64Rng;
use vstd::prelude::*;

use crate::battle::{battle_frame, battle_ops, chosen_move, effective_move, exit_chord, next_battle, Battle, Move};
use crate::draw::{ops_of, DrawCmd, DrawOp};
use crate::laws::lemma_step_keeps_invariant;
use crate::menu::{launches_battle, menu_after_input, menu_close, menu_close_ops, menu_open, menu_open_ops, Buttons, Menu};
use crate::random::{advanced, next_output, next_roll, seeded_generator, seeded_rng};

verus! {

/// What the console is showing.
#[derive(Clone, Copy, PartialEq, Eq, Debug, Structural)]
pub enum Screen {
    /// The menu; the next step draws the header and reads the menu buttons.
    Menu,
    /// A Retro Heroes battle in progress.
    Battle(Battle),
    /// Back from a battle: the next step draws the menu entries to finish
    /// the menu pass that started the battle.
    MenuTail,
}

/// A battle on screen cannot overflow its health counts.
pub open spec fn screen_safe(screen: Screen) -> bool {
    match screen {
        Screen::Battle(b) => b.arith_safe(),
        _ => true,
    }
}

/// A battle on screen is in a state that play can reach from a fresh battle.
pub open spec fn screen_reachable(screen: Screen) -> bool {
    match screen {
        Screen::Battle(b) => b.reachable(),
        _ => true,
    }
}

/// A battle, and the return to the menu after it, run only while
/// "Retro Heroes" is highlighted.
pub open spec fn game_matches_menu(menu: Menu, screen: Screen) -> bool {
    (screen is Battle || screen is MenuTail) ==> menu.retro_heroes_active
}

/// One step of the console: the menu, screen and drawing after reading the
/// buttons once, with `target_roll` and `start_roll` as the random numbers
/// that place a move's effect.
pub open spec fn spec_step(menu: Menu, screen: Screen, buttons: Buttons, target_roll: u64, start_roll: u64) -> (Menu, Screen, Seq<DrawOp>) {
    match screen {
        Screen::Menu => {
            let next = menu_after_input(menu, buttons);
            if launches_battle(menu, buttons) {
                (next, Screen::Battle(Battle::initial()), menu_open_ops(buttons))
            } else {
                (next, Screen::Menu, menu_open_ops(buttons) + menu_close_ops(next, buttons))
            }
        },
        Screen::MenuTail => (menu, Screen::Menu, menu_close_ops(menu, buttons)),
        Screen::Battle(battle) => (
            menu,
            if exit_chord(buttons) { Screen::MenuTail } else { Screen::Battle(next_battle(battle, buttons)) },
            battle_ops(battle, buttons, target_roll, start_roll),
        ),
    }
}

/// Whether a step plays a move and so draws two random numbers.
pub open spec fn needs_rolls(screen: Screen, buttons: Buttons) -> bool {
    match screen {
        Screen::Battle(battle) => effective_move(battle, buttons) is Some,
        _ => false,
    }
}

/// Whether a step plays a move and so draws two random numbers.
pub fn step_needs_rolls(screen: Screen, buttons: Buttons) -> (needs: bool)
    ensures
        needs == needs_rolls(screen, buttons),
{
    match screen {
        Screen::Battle(battle) => !battle.is_over() && chosen_move(buttons).is_some(),
        _ => false,
    }
}

/// One step of the console, for given random numbers: reads the buttons
/// once and returns the new menu, the new screen and what to draw.
pub fn console_step(menu: Menu, screen: Screen, buttons: Buttons, target_roll: u64, start_roll: u64) -> (res: (Menu, Screen, Vec<DrawCmd>))
    requires
        screen_safe(screen),
    ensures
        (res.0, res.1, ops_of(res.2@)) == spec_step(menu, screen, buttons, target_roll, start_roll),
{
    let mut frame: Vec<DrawCmd> = Vec::new();
    assert(ops_of(frame@) =~= Seq::<DrawOp>::empty());
    match screen {
        Screen::Menu => {
            let (next, launch) = menu_open(menu, buttons, &mut frame);
            if launch {
                assert(ops_of(frame@) =~= menu_open_ops(buttons));
                (next, Screen::Battle(Battle::new()), frame)
            } else {
                menu_close(next, buttons, &mut frame);
                assert(ops_of(frame@) =~= menu_open_ops(buttons) + menu_close_ops(next, buttons));
                (next, Screen::Menu, frame)
            }
        },
        Screen::MenuTail => {
            menu_close(menu, buttons, &mut frame);
            assert(ops_of(frame@) =~= menu_close_ops(menu, buttons));
            (menu, Screen::Menu, frame)
        },
        Screen::Battle(battle) => {
            let (next, exit) = battle_frame(battle, buttons, target_roll, start_roll, &mut frame);
            assert(ops_of(frame@) =~= battle_ops(battle, buttons, target_roll, start_roll));
            if exit {
                (menu, Screen::MenuTail, frame)
            } else {
                (menu, Screen::Battle(next), frame)
            }
        },
    }
}

/// What the firmware logs about a step.
#[derive(Clone, Copy, PartialEq, Eq, Debug, Structural)]
pub enum LogEvent {
    /// OK starts Retro Heroes.
    RetroHeroesLaunching,
    /// OK is pressed on "Other Games".
    OtherGamesLaunching,
    /// Player 1 attacks.
    Attack,
    /// Player 1 heals.
    Heal,
    /// Player 1 uses the special attack.
    SpecialAttack,
}

/// What a step logs: the launch of a game when OK is pressed on the menu
/// (after left or right have moved the highlight), or the move that counts
/// in a battle.
pub open spec fn log_event_spec(menu: Menu, screen: Screen, buttons: Buttons) -> Option<LogEvent> {
    match screen {
        Screen::Menu => if launches_battle(menu, buttons) {
            Some(LogEvent::RetroHeroesLaunching)
        } else if buttons.ok && menu_after_input(menu, buttons).other_games_active {
            Some(LogEvent::OtherGamesLaunching)
        } else {
            None
        },
        Screen::Battle(battle) => match effective_move(battle, buttons) {
            Some(Move::Attack) => Some(LogEvent::Attack),
            Some(Move::Heal) => Some(LogEvent::Heal),
            Some(Move::SpecialAttack) => Some(LogEvent::SpecialAttack),
            None => None,
        },
        Screen::MenuTail => None,
    }
}

/// What a step from `menu` and `screen` with `buttons` logs.
pub fn log_event(menu: Menu, screen: Screen, buttons: Buttons) -> (event: Option<LogEvent>)
    ensures
        event == log_event_spec(menu, screen, buttons),
{
    match screen {
        Screen::Menu => {
            let mut next = menu;
            if buttons.left || buttons.right {
                next.toggle();
            }
            if buttons.ok && next.retro_heroes_active {
                Some(LogEvent::RetroHeroesLaunching)
            } else if buttons.ok && next.other_games_active {
                Some(LogEvent::OtherGamesLaunching)
            } else {
                None
            }
        },
        Screen::Battle(battle) => {
            if battle.is_over() {
                None
            } else {
                match chosen_move(buttons) {
                    Some(Move::Attack) => Some(LogEvent::Attack),
                    Some(Move::Heal) => Some(LogEvent::Heal),
                    Some(Move::SpecialAttack) => Some(LogEvent::SpecialAttack),
                    None => None,
                }
            }
        },
        Screen::MenuTail => None,
    }
}

/// The whole console: the menu, what is on screen, and the random number
/// generator that places the effects of moves.
pub struct PicoPlay {
    menu: Menu,
    screen: Screen,
    rng: Biski64Rng,
}

impl PicoPlay {
    /// Exactly one menu entry is highlighted, and a battle on screen is in a
    /// state that play can reach.
    #[verifier::type_invariant]
    spec fn well_formed(self) -> bool {
        &&& self.menu.exclusive()
        &&& screen_reachable(self.screen)
        &&& game_matches_menu(self.menu, self.screen)
    }

    /// The menu.
    pub closed spec fn menu_state(self) -> Menu {
        self.menu
    }

    /// What is on screen.
    pub closed spec fn screen_state(self) -> Screen {
        self.screen
    }

    /// The random number generator.
    pub closed spec fn rng_state(self) -> Biski64Rng {
        self.rng
    }

    /// The console at power-on: the menu with "Retro Heroes" highlighted,
    /// and a generator seeded with `seed`.
    pub fn new(seed: u64) -> (console: PicoPlay)
        ensures
            console.menu_state() == Menu::initial(),
            console.screen_state() == Screen::Menu,
            console.rng_state() == seeded_generator(seed),
    {
        PicoPlay { menu: Menu::new(), screen: Screen::Menu, rng: seeded_rng(seed) }
    }

    /// The menu.
    pub fn menu(&self) -> (menu: Menu)
        ensures
            menu == self.menu_state(),
            menu.exclusive(),
            game_matches_menu(menu, self.screen_state()),
    {
        proof {
            use_type_invariant(self);
        }
        self.menu
    }

    /// What is on screen.
    pub fn screen(&self) -> (screen: Screen)
        ensures
            screen == self.screen_state(),
            screen_reachable(screen),
            game_matches_menu(self.menu_state(), screen),
    {
        proof {
            use_type_invariant(self);
        }
        self.screen
    }

    /// What the next step with `buttons` logs.
    pub fn pending_log(&self, buttons: Buttons) -> (event: Option<LogEvent>)
        ensures
            event == log_event_spec(self.menu_state(), self.screen_state(), buttons),
    {
        log_event(self.menu, self.screen, buttons)
    }

    /// One step of the console: reads the buttons once, plays a move with
    /// two fresh random numbers when one counts (the row where the effect
    /// lands first, then the row it starts from), and returns what to draw.
    pub fn step(&mut self, buttons: Buttons) -> (frame: Vec<DrawCmd>)
        ensures
            needs_rolls(old(self).screen_state(), buttons) ==> {
                &&& (final(self).menu_state(), final(self).screen_state(), ops_of(frame@)) == spec_step(
                    old(self).menu_state(),
                    old(self).screen_state(),
                    buttons,
                    next_output(old(self).rng_state()),
                    next_output(advanced(old(self).rng_state())),
                )
                &&& final(self).rng_state() == advanced(advanced(old(self).rng_state()))
            },
            !needs_rolls(old(self).screen_state(), buttons) ==> {
                &&& (final(self).menu_state(), final(self).screen_state(), ops_of(frame@)) == spec_step(
                    old(self).menu_state(),
                    old(self).screen_state(),
                    buttons,
                    0,
                    0,
                )
                &&& final(self).rng_state() == old(self).rng_state()
            },
            final(self).menu_state().exclusive(),
            screen_reachable(final(self).screen_state()),
            game_matches_menu(final(self).menu_state(), final(self).screen_state()),
    {
        proof {
            use_type_invariant(&*self);
        }
        let ghost menu_before = self.menu;
        let ghost screen_before = self.screen;
        let mut target_roll: u64 = 0;
        let mut start_roll: u64 = 0;
        if step_needs_rolls(self.screen, buttons) {
            target_roll = next_roll(&mut self.rng);
            start_roll = next_roll(&mut self.rng);
        }
        proof {
            lemma_step_keeps_invariant(self.menu, self.screen, buttons, target_roll, start_roll);
        }
        let (menu, screen, frame) = console_step(self.menu, self.screen, buttons, target_roll, start_roll);
        self.menu = menu;
        self.screen = screen;
        assert((self.menu_state(), self.screen_state(), ops_of(frame@)) == spec_step(
            menu_before,
            screen_before,
            buttons,
            target_roll,
            start_roll,
        ));
        assert(menu_before == old(self).menu_state());
        assert(screen_before == old(self).screen_state());
        frame
    }
}

} // verus!
