//! The three interrupt handlers: buttons, display refresh and logic tick.
//!
//! Each runs to completion on the state it is handed. What must happen
//! outside of the state (register operations, a new timer period) is
//! returned to the caller.

use vstd::prelude::*;
use crate::pixel::{Pixel, black, blank_frame, set_pixel};
use crate::port::Signal;
use crate::matrix::{NO_LINE, open_line, refresh_signals, run};
use crate::game::{BULLET_HAVEN, EASY, HARD, MUZZLE_ROW, Bullet, Game, GameState, GameStatus,
    Impact, Ship, check_impact, draw_player_ship, draw_score, frame_after_tick, glyph,
    handle_alien, handle_bullet, init_game};

verus! {

/// Button 0: move the ship to the right.
pub const MOVE_RIGHT: u32 = 0x01;

/// Button 2: fire.
pub const FIRE: u32 = 0x04;

/// Button 3: move the ship to the left.
pub const MOVE_LEFT: u32 = 0x08;

/// Switch 0: restart the game.
pub const RESTART: u32 = 0x10;

/// Switch 1: change between the two tick rates.
pub const TOGGLE_SPEED: u32 = 0x20;

/// What a button or switch asks for.
#[derive(Clone, Copy, Debug, PartialEq, Eq, Structural)]
pub enum Command {
    /// Nothing: no input, an unused button, or a pattern that is none of
    /// the single inputs.
    Idle,
    MoveRight,
    Fire,
    MoveLeft,
    Restart,
    ToggleSpeed,
}

/// The command that an input status stands for. Only the exact patterns of
/// the single inputs are commands.
pub open spec fn command_of(status: u32) -> Command {
    if status == MOVE_RIGHT {
        Command::MoveRight
    } else if status == FIRE {
        Command::Fire
    } else if status == MOVE_LEFT {
        Command::MoveLeft
    } else if status == RESTART {
        Command::Restart
    } else if status == TOGGLE_SPEED {
        Command::ToggleSpeed
    } else {
        Command::Idle
    }
}

/// `x` brought into the ship's lane.
pub open spec fn clamp_lane(x: int) -> int {
    if x > 6 {
        6
    } else if x < 1 {
        1
    } else {
        x
    }
}

impl Game {
    /// The game after `command` was carried out, before the ship is brought
    /// back into its lane.
    pub open spec fn dispatched(self, command: Command) -> Game {
        match command {
            Command::Idle => self,
            Command::MoveRight => Game {
                ship: Ship { x: (self.ship.x + 1) as usize, y: self.ship.y },
                ..self
            },
            Command::MoveLeft => Game {
                ship: Ship { x: (self.ship.x - 1) as usize, y: self.ship.y },
                ..self
            },
            Command::Fire => if self.bullet.parked() {
                Game { bullet: Bullet { x: self.ship.x, y: MUZZLE_ROW }, ..self }
            } else {
                self
            },
            Command::Restart => Game::start(),
            Command::ToggleSpeed => Game {
                frequency: if self.frequency == EASY {
                    HARD
                } else {
                    EASY
                },
                ..self
            },
        }
    }

    /// The game after `command`: the command is carried out, then the ship
    /// is brought back into its lane.
    pub open spec fn after_command(self, command: Command) -> Game {
        let next = self.dispatched(command);
        Game { ship: Ship { x: clamp_lane(next.ship.x as int) as usize, y: next.ship.y }, ..next }
    }

    /// The line that the next display refresh shows.
    pub open spec fn line(self) -> int {
        if self.open_channel > 7 {
            0
        } else {
            self.open_channel as int
        }
    }

    /// The game after one display refresh: the line counter has moved on.
    pub open spec fn after_refresh(self) -> Game {
        Game { open_channel: (self.line() + 1) as usize, ..self }
    }
}

/// `frame` after the button handler ran `command` on `game`: the ship's plus
/// is wiped where the ship stood, and a restart clears the matrix.
pub open spec fn frame_after_command(frame: Seq<Pixel>, game: Game, command: Command) -> Seq<
    Pixel,
> {
    if command is Restart {
        blank_frame()
    } else {
        glyph(frame, game.ship, black())
    }
}

/// Decodes an input status.
pub fn decode(status: u32) -> (command: Command)
    ensures
        command == command_of(status),
{
    match status {
        0x01 => Command::MoveRight,
        0x04 => Command::Fire,
        0x08 => Command::MoveLeft,
        0x10 => Command::Restart,
        0x20 => Command::ToggleSpeed,
        _ => Command::Idle,
    }
}

/// Handles a change of the buttons and switches, whose pattern is `status`.
/// The bank that raised the interrupt plays no part.
///
/// The ship's plus is wiped before anything moves, so that no stale cell
/// stays behind; the next logic tick draws it again. Returns the command
/// that was carried out. After [`Command::ToggleSpeed`] the caller programs
/// the logic timer with the new `frequency`.
pub fn button_handler(state: &mut GameState, _bank: u32, status: u32) -> (command: Command)
    requires
        old(state).game.wf(),
    ensures
        command == command_of(status),
        final(state).game == old(state).game.after_command(command),
        final(state).game.wf(),
        1 <= final(state).game.ship.x <= 6,
        final(state).dots@ == frame_after_command(old(state).dots@, old(state).game, command),
{
    // Wipe the ship.
    let x = state.game.ship.x;
    let y = state.game.ship.y;
    let _ = set_pixel(&mut state.dots, x, y, 0, 0, 0);
    let _ = set_pixel(&mut state.dots, x - 1, y, 0, 0, 0);
    let _ = set_pixel(&mut state.dots, x + 1, y, 0, 0, 0);
    let _ = set_pixel(&mut state.dots, x, y - 1, 0, 0, 0);

    let command = decode(status);
    match command {
        Command::Idle => {},
        Command::MoveRight => {
            state.game.ship.x += 1;
        },
        Command::Fire => {
            // One bullet at a time.
            if state.game.bullet.y == BULLET_HAVEN {
                state.game.bullet.x = state.game.ship.x;
                state.game.bullet.y = MUZZLE_ROW;
            }
        },
        Command::MoveLeft => {
            state.game.ship.x -= 1;
        },
        Command::Restart => {
            init_game(state);
        },
        Command::ToggleSpeed => {
            if state.game.frequency == EASY {
                state.game.frequency = HARD;
            } else {
                state.game.frequency = EASY;
            }
        },
    }

    // Keep the ship off the right edge.
    if state.game.ship.x > 6 {
        state.game.ship.x = 6;
    }
    // Keep the ship off the left edge.
    if state.game.ship.x < 1 {
        state.game.ship.x = 1;
    }
    command
}

/// Handles a tick of the display timer: refreshes one line of the matrix and
/// moves on to the next.
///
/// Returns the register operations of the refresh. The caller performs them
/// in order, with interrupts disabled throughout.
pub fn tick_handler(state: &mut GameState) -> (signals: Vec<Signal>)
    ensures
        signals@ == refresh_signals(old(state).dots@, old(state).game.line()),
        final(state).game == old(state).game.after_refresh(),
        final(state).dots@ == old(state).dots@,
{
    if state.game.open_channel > 7 {
        state.game.open_channel = 0;
    }
    let line = state.game.open_channel;
    let mut signals: Vec<Signal> = Vec::new();
    signals.push(open_line(NO_LINE));
    let mut body = run(&state.dots, line);
    signals.append(&mut body);
    signals.push(open_line(line as u8));
    state.game.open_channel += 1;
    assert(signals@ =~= refresh_signals(old(state).dots@, old(state).game.line()));
    signals
}

/// Handles a tick of the logic timer: while play is on, moves the alien and
/// the bullet, draws the ship and judges the impact; in any case draws the
/// indicators.
///
/// Returns what became of the bullet.
pub fn tick_handler_1(state: &mut GameState) -> (impact: Impact)
    requires
        old(state).game.wf(),
    ensures
        impact == old(state).game.tick_impact(),
        final(state).game == old(state).game.after_tick(),
        final(state).game.wf(),
        final(state).dots@ == frame_after_tick(old(state).dots@, old(state).game),
{
    let mut impact = Impact::Idle;
    let over = match state.game.status {
        GameStatus::Won => true,
        GameStatus::Lost => true,
        _ => false,
    };
    if !over {
        state.game.status = GameStatus::Playing;
        handle_alien(state);
        handle_bullet(state);
        draw_player_ship(state);
        impact = check_impact(state);
    }
    draw_score(state);
    impact
}

} // verus!
