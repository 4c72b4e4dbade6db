//! What holds of the game whatever the player does.

use vstd::prelude::*;
use crate::pixel::{Pixel, black, cell, on_matrix};
use crate::game::{FULL_SHIELD, MUZZLE_ROW, WIN_SCORE, Bullet, Game, Impact, frame_after_tick,
    indicators, score_colour, shield_colour};
use crate::handlers::{Command, command_of};

verus! {

/// One of the interrupts that change the game.
pub enum Interrupt {
    /// The buttons or switches changed to this pattern.
    Input(u32),
    /// The display timer fired.
    Refresh,
    /// The logic timer fired.
    Tick,
}

/// The game after one interrupt was handled.
pub open spec fn after_interrupt(game: Game, interrupt: Interrupt) -> Game {
    match interrupt {
        Interrupt::Input(status) => game.after_command(command_of(status)),
        Interrupt::Refresh => game.after_refresh(),
        Interrupt::Tick => game.after_tick(),
    }
}

/// The game after a run of interrupts, handled one after the other.
pub open spec fn after_interrupts(game: Game, interrupts: Seq<Interrupt>) -> Game
    decreases interrupts.len(),
{
    if interrupts.len() == 0 {
        game
    } else {
        after_interrupt(after_interrupts(game, interrupts.drop_last()), interrupts.last())
    }
}

/// Every handler keeps the game's invariant.
pub proof fn lemma_interrupt_keeps_wf(game: Game, interrupt: Interrupt)
    requires
        game.wf(),
    ensures
        after_interrupt(game, interrupt).wf(),
{
}

/// Whatever interrupts arrive, in whatever order, the game's invariant holds
/// after each of them. In particular the ship is in its lane after every
/// move, the shield is never below zero or above five, and the game is won
/// exactly when the score is three and lost exactly when the shield is
/// used up.
pub proof fn lemma_always_wf(game: Game, interrupts: Seq<Interrupt>, n: int)
    requires
        game.wf(),
        0 <= n <= interrupts.len(),
    ensures
        after_interrupts(game, interrupts.take(n)).wf(),
        1 <= after_interrupts(game, interrupts.take(n)).ship.x <= 6,
        0 <= after_interrupts(game, interrupts.take(n)).shield <= FULL_SHIELD,
        0 <= after_interrupts(game, interrupts.take(n)).score <= WIN_SCORE,
    decreases n,
{
    if n > 0 {
        lemma_always_wf(game, interrupts, n - 1);
        assert(interrupts.take(n).drop_last() =~= interrupts.take(n - 1));
        lemma_interrupt_keeps_wf(
            after_interrupts(game, interrupts.take(n - 1)),
            interrupts.take(n).last(),
        );
    }
}

/// The button handler leaves the ship in its lane, whatever the command.
pub proof fn lemma_ship_in_lane(game: Game, command: Command)
    ensures
        1 <= game.after_command(command).ship.x <= 6,
{
}

/// A shot is taken exactly when the bullet is parked: then the bullet starts
/// above the ship; a bullet in flight is left alone.
pub proof fn lemma_fire_iff_parked(game: Game)
    ensures
        game.bullet.parked() ==> game.after_command(Command::Fire).bullet == (Bullet {
            x: game.ship.x,
            y: MUZZLE_ROW,
        }),
        !game.bullet.parked() ==> game.after_command(Command::Fire).bullet == game.bullet,
        game.bullet.y < 10 ==> game.after_command(Command::Fire).bullet == game.bullet,
        game.after_command(Command::Fire).bullet != game.bullet <==> game.bullet.parked(),
{
}

/// Once the game is over, a tick moves nothing and reports nothing; it
/// draws the indicators and no more.
pub proof fn lemma_tick_when_over(game: Game, frame: Seq<Pixel>)
    requires
        game.frozen(),
    ensures
        game.after_tick() == game,
        game.tick_impact() == Impact::Idle,
        frame_after_tick(frame, game) == indicators(frame, game.score as int, game.shield as int),
{
}

/// A game that is over stays over, with the same outcome, until it is
/// restarted.
pub proof fn lemma_over_until_restart(game: Game, interrupt: Interrupt)
    requires
        game.frozen(),
        !(interrupt matches Interrupt::Input(status) && command_of(status) is Restart),
    ensures
        after_interrupt(game, interrupt).status == game.status,
        after_interrupt(game, interrupt).score == game.score,
        after_interrupt(game, interrupt).shield == game.shield,
{
}

/// A restart brings any game back to its start.
pub proof fn lemma_restart(game: Game)
    ensures
        game.after_command(Command::Restart) == Game::start(),
        Game::start().wf(),
        Game::start().status is Init,
{
}

/// What a tick does to the counters: a hit adds one to the score, a miss
/// takes one from the shield, and nothing else changes them. The shield
/// never goes below zero.
pub proof fn lemma_tick_counts(game: Game)
    requires
        game.wf(),
    ensures
        game.after_tick().score == game.score + (if game.tick_impact() is Hit {
            1int
        } else {
            0int
        }),
        game.after_tick().shield == game.shield - (if game.tick_impact() is Miss {
            1int
        } else {
            0int
        }),
        game.tick_impact() !is Idle ==> game.after_tick().bullet.parked(),
        game.after_tick().status is Won <==> game.after_tick().score == WIN_SCORE,
        game.after_tick().status is Lost <==> game.after_tick().shield == 0,
        !game.frozen() && !game.after_tick().frozen() ==> game.after_tick().status is Playing,
{
}

/// What the indicators show: in the score column one lit cell for each hit,
/// in the shield column one for each miss the ship can still take, both
/// counted from the top line; the rest of both gauges is dark, and no other
/// cell changes. Whatever the gauges held before does not show.
pub proof fn lemma_indicators_show_counters(
    frame: Seq<Pixel>,
    score: int,
    shield: int,
    x: int,
    y: int,
)
    requires
        frame.len() == 64,
        on_matrix(x, y),
    ensures
        cell(indicators(frame, score, shield), x, y) == if x == 0 && y < 6 {
            if y < score {
                score_colour()
            } else {
                black()
            }
        } else if x == 7 && y < 6 {
            if y < shield {
                shield_colour()
            } else {
                black()
            }
        } else {
            cell(frame, x, y)
        },
{
    let n = x * 8 + y;
    assert(n / 8 == x && n % 8 == y);
}

/// Which handler writes what. A display refresh moves the line counter and
/// nothing else. A logic tick leaves the ship, the tick rate and the line
/// counter alone. A button press other than a restart leaves the alien, the
/// counters, the status and the line counter alone.
pub proof fn lemma_ownership(game: Game, command: Command)
    ensures
        game.after_refresh() == (Game {
            open_channel: game.after_refresh().open_channel,
            ..game
        }),
        game.after_tick().ship == game.ship,
        game.after_tick().frequency == game.frequency,
        game.after_tick().open_channel == game.open_channel,
        command !is Restart ==> game.after_command(command) == (Game {
            ship: game.after_command(command).ship,
            bullet: game.after_command(command).bullet,
            frequency: game.after_command(command).frequency,
            ..game
        }),
{
}

/// The shield saturates: judging an impact never raises it and never takes
/// it below zero, and in a game that is over, which is where the shield can
/// be empty, it changes nothing at all.
pub proof fn lemma_impact_saturates(game: Game)
    requires
        game.wf(),
    ensures
        0 <= game.after_impact().shield <= game.shield,
        game.after_impact().wf(),
        game.shield == 0 ==> game.after_impact() == game && game.impact() is Idle,
        game.frozen() ==> game.after_impact() == game && game.impact() is Idle,
{
}

} // verus!
