//! The game: a ship at the bottom of the matrix, an alien sweeping along the
//! top, one bullet at a time, and two counters that decide the outcome.

use vstd::prelude::*;
use crate::pixel::{Framebuffer, Pixel, black, blank_frame, lemma_frame_len, paint, rgb, set_pixel};

verus! {

/// The `y` at which a bullet waits while it is not in flight.
pub const BULLET_HAVEN: usize = 50;

/// The `y` at which a bullet starts its flight.
pub const MUZZLE_ROW: usize = 6;

/// The line on which the ship moves.
pub const SHIP_ROW: usize = 7;

/// The line along which the alien sweeps.
pub const ALIEN_ROW: usize = 0;

/// Hits that win the game.
pub const WIN_SCORE: u16 = 3;

/// The shield of a new game. Each miss uses one up; the miss that uses the
/// last one up loses the game.
pub const FULL_SHIELD: u16 = 5;

/// The slower of the two tick rates.
pub const EASY: u16 = 10;

/// The faster of the two tick rates.
pub const HARD: u16 = 20;

/// Cells in each of the two indicator columns.
pub const GAUGE: usize = 6;

/// The column that shows the score.
pub const SCORE_COLUMN: usize = 0;

/// The column that shows the shield.
pub const SHIELD_COLUMN: usize = 7;

/// The player's ship. It is drawn as a plus: its centre, the cells left and
/// right of it, and the cell above.
#[derive(Clone, Copy, Debug, PartialEq, Eq, Structural)]
pub struct Ship {
    pub x: usize,
    pub y: usize,
}

/// The alien, with the direction of its next step: `1` towards higher `x`,
/// `-1` towards lower.
#[derive(Clone, Copy, Debug, PartialEq, Eq, Structural)]
pub struct Alien {
    pub x: usize,
    pub y: usize,
    pub increment: i8,
}

/// The bullet. It is in flight while `y` is below 10 and parked while `y` is
/// [`BULLET_HAVEN`].
#[derive(Clone, Copy, Debug, PartialEq, Eq, Structural)]
pub struct Bullet {
    pub x: usize,
    pub y: usize,
}

/// Where the game stands.
#[derive(Clone, Copy, Debug, PartialEq, Eq, Structural)]
pub enum GameStatus {
    /// Freshly set up; no tick has run yet.
    Init,
    /// In play.
    Playing,
    /// Ended with the third hit.
    Won,
    /// Ended with the shield used up.
    Lost,
}

/// What a tick found when the bullet reached the alien's line.
#[derive(Clone, Copy, Debug, PartialEq, Eq, Structural)]
pub enum Impact {
    /// The bullet was not at the top line.
    Idle,
    /// The bullet met the alien.
    Hit,
    /// The bullet passed the alien.
    Miss,
}

/// Everything the game keeps besides the pixels.
#[derive(Clone, Copy, Debug, PartialEq, Eq, Structural)]
pub struct Game {
    /// The line that the next display refresh will show.
    pub open_channel: usize,
    pub alien: Alien,
    pub ship: Ship,
    pub bullet: Bullet,
    /// The tick rate: [`EASY`] or [`HARD`].
    pub frequency: u16,
    /// Hits so far.
    pub score: u16,
    /// Misses the ship can still take.
    pub shield: u16,
    pub status: GameStatus,
}

/// The state shared by the interrupt handlers: the game and the framebuffer
/// it draws into. Whoever holds the exclusive reference holds the critical
/// section.
#[derive(Clone, Copy, Debug)]
pub struct GameState {
    pub game: Game,
    pub dots: Framebuffer,
}

/// The alien is green.
pub open spec fn alien_colour() -> Pixel {
    rgb(0, 255, 0)
}

/// The bullet is blue.
pub open spec fn bullet_colour() -> Pixel {
    rgb(0, 0, 255)
}

/// The ship is red.
pub open spec fn ship_colour() -> Pixel {
    rgb(255, 0, 0)
}

/// Debris is white.
pub open spec fn debris_colour() -> Pixel {
    rgb(255, 255, 255)
}

/// The colour of a lit cell of the score gauge.
pub open spec fn score_colour() -> Pixel {
    rgb(200, 200, 200)
}

/// The colour of a lit cell of the shield gauge.
pub open spec fn shield_colour() -> Pixel {
    rgb(50, 100, 150)
}

/// The colour of the victory sign.
pub open spec fn victory_colour() -> Pixel {
    rgb(0, 200, 100)
}

impl Bullet {
    /// The bullet waits off the matrix.
    pub open spec fn parked(self) -> bool {
        self.y == BULLET_HAVEN
    }

    /// The bullet is in flight.
    pub open spec fn active(self) -> bool {
        self.y < 10
    }
}

impl Game {
    /// The invariant of the game: the ship stays in its lane, the alien on
    /// its line, the bullet is in flight or parked, and the status tells
    /// the counters' story.
    pub open spec fn wf(self) -> bool {
        &&& 1 <= self.ship.x <= 6
        &&& self.ship.y == SHIP_ROW
        &&& self.alien.x <= 7
        &&& self.alien.y == ALIEN_ROW
        &&& (self.alien.increment == 1 || self.alien.increment == -1)
        &&& (self.bullet.active() || self.bullet.parked())
        &&& self.score <= WIN_SCORE
        &&& self.shield <= FULL_SHIELD
        &&& (self.status is Won <==> self.score == WIN_SCORE)
        &&& (self.status is Lost <==> self.shield == 0)
        &&& (self.frequency == EASY || self.frequency == HARD)
    }

    /// The game as it is set up at power-on and on restart.
    pub open spec fn start() -> Game {
        Game {
            open_channel: 0,
            alien: Alien { x: 0, y: ALIEN_ROW, increment: 1 },
            ship: Ship { x: 3, y: SHIP_ROW },
            bullet: Bullet { x: 0, y: BULLET_HAVEN },
            frequency: EASY,
            score: 0,
            shield: FULL_SHIELD,
            status: GameStatus::Init,
        }
    }

    /// The game is over; ticks no longer move anything.
    pub open spec fn frozen(self) -> bool {
        self.status is Won || self.status is Lost
    }

    /// The game after the alien's step: at the left edge it turns towards
    /// higher `x`, at the right edge towards lower, and then moves one cell.
    pub open spec fn after_alien(self) -> Game {
        let increment: i8 = if self.alien.x < 1 {
            1i8
        } else if self.alien.x >= 7 {
            -1i8
        } else {
            self.alien.increment
        };
        let x = if increment > 0 {
            self.alien.x + 1
        } else {
            self.alien.x - 1
        };
        Game { alien: Alien { x: x as usize, y: self.alien.y, increment }, ..self }
    }

    /// The game after the bullet's step: a bullet in flight above the top
    /// line climbs by one cell.
    pub open spec fn after_bullet(self) -> Game {
        if 0 < self.bullet.y < 10 {
            Game { bullet: Bullet { x: self.bullet.x, y: (self.bullet.y - 1) as usize }, ..self }
        } else {
            self
        }
    }

    /// What the bullet does to the alien: nothing once the game is over or
    /// while the bullet is off the top line, a hit where it shares the
    /// alien's `x`, else a miss.
    pub open spec fn impact(self) -> Impact {
        if self.frozen() || self.bullet.y != 0 {
            Impact::Idle
        } else if self.alien.x == self.bullet.x {
            Impact::Hit
        } else {
            Impact::Miss
        }
    }

    /// The game after the impact was judged: a hit adds to the score and
    /// wins the game at [`WIN_SCORE`]; a miss takes from the shield, which
    /// never goes below zero, and loses the game at zero; either parks the
    /// bullet. A game that is over stays as it is.
    pub open spec fn after_impact(self) -> Game {
        let parked = Bullet { x: self.bullet.x, y: BULLET_HAVEN };
        match self.impact() {
            Impact::Idle => self,
            Impact::Hit => Game {
                score: (self.score + 1) as u16,
                status: if self.score + 1 >= WIN_SCORE {
                    GameStatus::Won
                } else {
                    self.status
                },
                bullet: parked,
                ..self
            },
            Impact::Miss => Game {
                shield: if self.shield >= 1 {
                    (self.shield - 1) as u16
                } else {
                    0
                },
                status: if self.shield <= 1 {
                    GameStatus::Lost
                } else {
                    self.status
                },
                bullet: parked,
                ..self
            },
        }
    }

    /// The game as a tick finds it once it has noted that play is on.
    pub open spec fn in_play(self) -> Game {
        Game { status: GameStatus::Playing, ..self }
    }

    /// The game after one logic tick. A game that is over stays as it is;
    /// otherwise the alien moves, then the bullet, then the impact is judged.
    pub open spec fn after_tick(self) -> Game {
        if self.frozen() {
            self
        } else {
            self.in_play().after_alien().after_bullet().after_impact()
        }
    }

    /// What a logic tick reports of the bullet.
    pub open spec fn tick_impact(self) -> Impact {
        if self.frozen() {
            Impact::Idle
        } else {
            self.in_play().after_alien().after_bullet().impact()
        }
    }
}

/// `frame` with the ship's plus drawn in `colour`: the centre, the cells
/// left and right of it, and the cell above.
pub open spec fn glyph(frame: Seq<Pixel>, ship: Ship, colour: Pixel) -> Seq<Pixel> {
    let x = ship.x as int;
    let y = ship.y as int;
    paint(paint(paint(paint(frame, x, y, colour), x - 1, y, colour), x + 1, y, colour), x, y - 1, colour)
}

/// `frame` after the alien's step from `game`: its old cell dark, its new
/// cell lit.
pub open spec fn frame_after_alien(frame: Seq<Pixel>, game: Game) -> Seq<Pixel> {
    let old_alien = game.alien;
    let new_alien = game.after_alien().alien;
    paint(
        paint(frame, old_alien.x as int, old_alien.y as int, black()),
        new_alien.x as int,
        new_alien.y as int,
        alien_colour(),
    )
}

/// `frame` after the bullet's step from `game`: for a bullet in flight its
/// old cell dark and its new cell lit, else nothing.
pub open spec fn frame_after_bullet(frame: Seq<Pixel>, game: Game) -> Seq<Pixel> {
    if game.bullet.active() {
        let old_bullet = game.bullet;
        let new_bullet = game.after_bullet().bullet;
        paint(
            paint(frame, old_bullet.x as int, old_bullet.y as int, black()),
            new_bullet.x as int,
            new_bullet.y as int,
            bullet_colour(),
        )
    } else {
        frame
    }
}

/// `frame` with debris on both sides of the cell `(x, 0)`.
pub open spec fn debris(frame: Seq<Pixel>, x: int) -> Seq<Pixel> {
    paint(paint(frame, x + 1, 0, debris_colour()), x - 1, 0, debris_colour())
}

/// `frame` after the impact was judged in `game`: debris beside the alien on
/// a hit, the victory sign on the winning hit, the explosion on the losing
/// miss, and no change where there was no impact to judge.
pub open spec fn frame_after_impact(frame: Seq<Pixel>, game: Game) -> Seq<Pixel> {
    match game.impact() {
        Impact::Idle => frame,
        Impact::Hit => {
            let hit = debris(frame, game.bullet.x as int);
            if game.after_impact().status is Won {
                victory(hit)
            } else {
                hit
            }
        },
        Impact::Miss => if game.after_impact().status is Lost {
            explosion(frame)
        } else {
            frame
        },
    }
}

/// `frame` with an indicator drawn in line `x`: of its first [`GAUGE`] cells
/// the first `lit` in `colour`, the others dark.
pub open spec fn column(frame: Seq<Pixel>, x: int, lit: int, colour: Pixel) -> Seq<Pixel> {
    Seq::new(
        64,
        |n: int|
            if n / 8 == x && n % 8 < GAUGE {
                if n % 8 < lit {
                    colour
                } else {
                    black()
                }
            } else {
                frame[n]
            },
    )
}

/// `frame` with both indicators drawn: the score column shows one lit cell
/// for each hit, none in a new game; the shield column one lit cell for each
/// miss the ship can still take, five in a new game and none in a lost one.
/// The cells of both gauges depend on the counters alone.
pub open spec fn indicators(frame: Seq<Pixel>, score: int, shield: int) -> Seq<Pixel> {
    column(
        column(frame, SCORE_COLUMN as int, score, score_colour()),
        SHIELD_COLUMN as int,
        shield,
        shield_colour(),
    )
}

/// `frame` after one logic tick on `game`. While play is on the tick draws
/// the alien, the bullet, the ship, the outcome of an impact and the
/// indicators, in that order; once the game is over it draws the indicators
/// alone.
pub open spec fn frame_after_tick(frame: Seq<Pixel>, game: Game) -> Seq<Pixel> {
    if game.frozen() {
        indicators(frame, game.score as int, game.shield as int)
    } else {
        let g0 = game.in_play();
        let g1 = g0.after_alien();
        let g2 = g1.after_bullet();
        let g3 = g2.after_impact();
        let f1 = frame_after_alien(frame, g0);
        let f2 = frame_after_bullet(f1, g1);
        let f3 = glyph(f2, g2.ship, ship_colour());
        let f4 = frame_after_impact(f3, g2);
        indicators(f4, g3.score as int, g3.shield as int)
    }
}

impl Game {
    /// The game as it is set up at power-on and on restart.
    pub fn new() -> (game: Game)
        ensures
            game == Game::start(),
            game.wf(),
    {
        Game {
            open_channel: 0,
            alien: Alien { x: 0, y: ALIEN_ROW, increment: 1 },
            ship: Ship { x: 3, y: SHIP_ROW },
            bullet: Bullet { x: 0, y: BULLET_HAVEN },
            frequency: EASY,
            score: 0,
            shield: FULL_SHIELD,
            status: GameStatus::Init,
        }
    }

    /// Whether the game's invariant holds. The handlers ask for it and keep
    /// it; a game built field by field is checked with this first.
    pub fn is_valid(&self) -> (ok: bool)
        ensures
            ok == self.wf(),
    {
        let won = match self.status {
            GameStatus::Won => true,
            _ => false,
        };
        let lost = match self.status {
            GameStatus::Lost => true,
            _ => false,
        };
        1 <= self.ship.x && self.ship.x <= 6 && self.ship.y == SHIP_ROW && self.alien.x <= 7
            && self.alien.y == ALIEN_ROW && (self.alien.increment == 1 || self.alien.increment
            == -1) && (self.bullet.y < 10 || self.bullet.y == BULLET_HAVEN) && self.score
            <= WIN_SCORE && self.shield <= FULL_SHIELD && won == (self.score == WIN_SCORE) && lost
            == (self.shield == 0) && (self.frequency == EASY || self.frequency == HARD)
    }
}

impl GameState {
    /// A new game on a dark matrix.
    pub fn new() -> (state: GameState)
        ensures
            state.game == Game::start(),
            state.game.wf(),
            state.dots@ == blank_frame(),
    {
        GameState { game: Game::new(), dots: Framebuffer::new() }
    }
}

/// The colour of the `k`-th cell of the explosion. From one cell to the
/// next red climbs by 2, green by 4 and blue by 6, all from 1; a channel
/// that would pass 240 starts again at 0, which only blue does, at the 40th
/// cell.
pub open spec fn flare(k: int) -> Pixel {
    rgb(
        (1 + 2 * k) as u8,
        (1 + 4 * k) as u8,
        (if k < 40 {
            1 + 6 * k
        } else {
            6 * (k - 40)
        }) as u8,
    )
}

/// The place of a cell in the explosion: the cells with both coordinates
/// below 7 are counted from 1, line after line.
pub open spec fn flare_order(n: int) -> int {
    7 * (n / 8) + n % 8 + 1
}

/// `frame` after the first `count` cells of the explosion were drawn.
pub open spec fn explosion_upto(frame: Seq<Pixel>, count: int) -> Seq<Pixel> {
    Seq::new(
        64,
        |n: int|
            if n / 8 < 7 && n % 8 < 7 && flare_order(n) <= count {
                flare(flare_order(n))
            } else {
                frame[n]
            },
    )
}

/// `frame` with the explosion that marks a lost game drawn over it: 49
/// cells, the last line and the last cell of each line left as they were.
pub open spec fn explosion(frame: Seq<Pixel>) -> Seq<Pixel> {
    explosion_upto(frame, 49)
}

/// `frame` with the six cells of the victory sign drawn over it.
pub open spec fn victory(frame: Seq<Pixel>) -> Seq<Pixel> {
    let c = victory_colour();
    paint(paint(paint(paint(paint(paint(frame, 4, 3, c), 5, 1, c), 4, 4, c), 5, 2, c), 1, 2, c), 2, 4, c)
}

/// Ends the game as lost and draws the explosion.
pub fn lose_game(state: &mut GameState)
    ensures
        final(state).game == (Game { status: GameStatus::Lost, ..old(state).game }),
        final(state).dots@ == explosion(old(state).dots@),
{
    broadcast use lemma_frame_len;

    let mut r: u8 = 1;
    let mut g: u8 = 1;
    let mut b: u8 = 1;
    state.game.status = GameStatus::Lost;
    assert(state.dots@ =~= explosion_upto(old(state).dots@, 0));
    let mut i: usize = 0;
    while i < 7
        invariant
            i <= 7,
            state.game == (Game { status: GameStatus::Lost, ..old(state).game }),
            state.dots@ == explosion_upto(old(state).dots@, 7 * i),
            (Pixel { r, g, b }) == flare(7 * i),
        decreases 7 - i,
    {
        let mut j: usize = 0;
        while j < 7
            invariant
                i < 7,
                j <= 7,
                state.game == (Game { status: GameStatus::Lost, ..old(state).game }),
                state.dots@ == explosion_upto(old(state).dots@, 7 * i + j),
                (Pixel { r, g, b }) == flare(7 * i + j),
            decreases 7 - j,
        {
            r += 2;
            g += 4;
            b += 6;
            // A channel that has passed 240 starts again.
            if r > 240 {
                r = 0;
            }
            if g > 240 {
                g = 0;
            }
            if b > 240 {
                b = 0;
            }
            let _ = set_pixel(&mut state.dots, i, j, r, g, b);
            proof {
                let k = 7 * i + j + 1;
                assert((Pixel { r, g, b }) == flare(k));
                assert(flare_order(8 * i + j) == k);
                assert forall|n: int| 0 <= n < 64 implies #[trigger] state.dots@[n]
                    == explosion_upto(old(state).dots@, k)[n] by {
                    if n / 8 < 7 && n % 8 < 7 && n != 8 * i + j {
                        assert(flare_order(n) != k);
                    }
                }
                assert(state.dots@ =~= explosion_upto(old(state).dots@, k));
            }
            j += 1;
        }
        i += 1;
    }
}

/// Ends the game as won and draws the victory sign.
pub fn win_game(state: &mut GameState)
    ensures
        final(state).game == (Game { status: GameStatus::Won, ..old(state).game }),
        final(state).dots@ == victory(old(state).dots@),
{
    state.game.status = GameStatus::Won;
    let r: u8 = 0;
    let g: u8 = 200;
    let b: u8 = 100;
    let _ = set_pixel(&mut state.dots, 4, 3, r, g, b);
    let _ = set_pixel(&mut state.dots, 5, 1, r, g, b);
    let _ = set_pixel(&mut state.dots, 4, 4, r, g, b);
    let _ = set_pixel(&mut state.dots, 5, 2, r, g, b);
    let _ = set_pixel(&mut state.dots, 1, 2, r, g, b);
    let _ = set_pixel(&mut state.dots, 2, 4, r, g, b);
}

/// Sets the game up anew and clears the matrix.
pub fn init_game(state: &mut GameState)
    ensures
        final(state).game == Game::start(),
        final(state).game.wf(),
        final(state).dots@ == blank_frame(),
{
    broadcast use lemma_frame_len;

    state.game = Game::new();
    let mut i: usize = 0;
    while i < 8
        invariant
            i <= 8,
            state.game == Game::start(),
            state.dots@.len() == 64,
            forall|n: int| 0 <= n < 8 * i ==> state.dots@[n] == black(),
        decreases 8 - i,
    {
        let mut j: usize = 0;
        while j < 8
            invariant
                i < 8,
                j <= 8,
                state.game == Game::start(),
                state.dots@.len() == 64,
                forall|n: int| 0 <= n < 8 * i + j ==> state.dots@[n] == black(),
            decreases 8 - j,
        {
            let _ = set_pixel(&mut state.dots, i, j, 0, 0, 0);
            j += 1;
        }
        i += 1;
    }
    assert(state.dots@ =~= blank_frame());
}

/// Judges the bullet against the alien once it is on the top line, and ends
/// the game where a counter has run out. In a game that is over there is
/// nothing to judge: game and matrix stay as they are.
pub fn check_impact(state: &mut GameState) -> (impact: Impact)
    requires
        old(state).game.wf(),
    ensures
        impact == old(state).game.impact(),
        final(state).game == old(state).game.after_impact(),
        final(state).game.wf(),
        final(state).dots@ == frame_after_impact(old(state).dots@, old(state).game),
        final(state).game.shield <= old(state).game.shield,
        old(state).game.frozen() ==> impact == Impact::Idle && final(state).game == old(
            state,
        ).game && final(state).dots@ == old(state).dots@,
{
    let over = match state.game.status {
        GameStatus::Won => true,
        GameStatus::Lost => true,
        _ => false,
    };
    if over || state.game.bullet.y != 0 {
        return Impact::Idle;
    }
    let impact = if state.game.alien.x == state.game.bullet.x {
        // Debris falls off on both sides of the alien.
        let x = state.game.bullet.x;
        let _ = set_pixel(&mut state.dots, x + 1, 0, 255, 255, 255);
        if x >= 1 {
            let _ = set_pixel(&mut state.dots, x - 1, 0, 255, 255, 255);
        }
        state.game.score += 1;
        if state.game.score > 2 {
            win_game(state);
        }
        Impact::Hit
    } else {
        // The shield never goes below zero.
        if state.game.shield > 0 {
            state.game.shield -= 1;
        }
        if state.game.shield < 1 {
            lose_game(state);
        }
        Impact::Miss
    };
    // The bullet leaves the matrix.
    state.game.bullet.y = BULLET_HAVEN;
    impact
}

/// Draws the ship.
pub fn draw_player_ship(state: &mut GameState)
    requires
        old(state).game.wf(),
    ensures
        final(state).game == old(state).game,
        final(state).dots@ == glyph(old(state).dots@, old(state).game.ship, ship_colour()),
{
    let x = state.game.ship.x;
    let y = state.game.ship.y;
    let _ = set_pixel(&mut state.dots, x, y, 255, 0, 0);
    let _ = set_pixel(&mut state.dots, x - 1, y, 255, 0, 0);
    let _ = set_pixel(&mut state.dots, x + 1, y, 255, 0, 0);
    let _ = set_pixel(&mut state.dots, x, y - 1, 255, 0, 0);
}

/// Moves the alien one cell, turning it round at the edges, and redraws it.
pub fn handle_alien(state: &mut GameState)
    requires
        old(state).game.wf(),
    ensures
        final(state).game == old(state).game.after_alien(),
        final(state).game.wf(),
        final(state).dots@ == frame_after_alien(old(state).dots@, old(state).game),
{
    let y = state.game.alien.y;
    let _ = set_pixel(&mut state.dots, state.game.alien.x, y, 0, 0, 0);
    if state.game.alien.x < 1 {
        state.game.alien.increment = 1;
    }
    if state.game.alien.x >= 7 {
        state.game.alien.increment = -1;
    }
    if state.game.alien.increment > 0 {
        state.game.alien.x += 1;
    } else {
        state.game.alien.x -= 1;
    }
    let _ = set_pixel(&mut state.dots, state.game.alien.x, y, 0, 255, 0);
}

/// Moves a bullet in flight one cell up and redraws it.
pub fn handle_bullet(state: &mut GameState)
    requires
        old(state).game.wf(),
    ensures
        final(state).game == old(state).game.after_bullet(),
        final(state).game.wf(),
        final(state).dots@ == frame_after_bullet(old(state).dots@, old(state).game),
{
    if state.game.bullet.y < 10 {
        let x = state.game.bullet.x;
        let _ = set_pixel(&mut state.dots, x, state.game.bullet.y, 0, 0, 0);
        if state.game.bullet.y > 0 && state.game.bullet.y < 10 {
            state.game.bullet.y -= 1;
        }
        let _ = set_pixel(&mut state.dots, x, state.game.bullet.y, 0, 0, 255);
    }
}

/// Draws one indicator: clears the first [`GAUGE`] cells of line `x`, then
/// lights the first `lit` of them.
fn draw_column(state: &mut GameState, x: usize, lit: usize, r: u8, g: u8, b: u8)
    requires
        x < 8,
        lit <= GAUGE,
    ensures
        final(state).game == old(state).game,
        final(state).dots@ == column(old(state).dots@, x as int, lit as int, rgb(r, g, b)),
{
    broadcast use lemma_frame_len;

    let ghost start = state.dots@;
    assert(start.len() == 64);
    let mut y: usize = 0;
    while y < GAUGE
        invariant
            x < 8,
            y <= GAUGE,
            state.game == old(state).game,
            start.len() == 64,
            state.dots@ == Seq::new(
                64,
                |n: int|
                    if n / 8 == x && n % 8 < y {
                        black()
                    } else {
                        start[n]
                    },
            ),
        decreases GAUGE - y,
    {
        let _ = set_pixel(&mut state.dots, x, y, 0, 0, 0);
        y += 1;
        assert(state.dots@ =~= Seq::new(
            64,
            |n: int|
                if n / 8 == x && n % 8 < y {
                    black()
                } else {
                    start[n]
                },
        ));
    }
    let mut y: usize = 0;
    while y < lit
        invariant
            x < 8,
            y <= lit <= GAUGE,
            state.game == old(state).game,
            start.len() == 64,
            state.dots@ == column(start, x as int, y as int, rgb(r, g, b)),
        decreases lit - y,
    {
        let _ = set_pixel(&mut state.dots, x, y, r, g, b);
        y += 1;
        assert(state.dots@ =~= column(start, x as int, y as int, rgb(r, g, b)));
    }
}

/// Draws the score and shield indicators: both gauges are cleared, then the
/// score gauge is lit for the hits so far and the shield gauge for the
/// shield that is left.
pub fn draw_score(state: &mut GameState)
    requires
        old(state).game.wf(),
    ensures
        final(state).game == old(state).game,
        final(state).dots@ == indicators(
            old(state).dots@,
            old(state).game.score as int,
            old(state).game.shield as int,
        ),
{
    let score_lit: usize = state.game.score as usize;
    let shield_lit: usize = state.game.shield as usize;
    draw_column(state, SCORE_COLUMN, score_lit, 200, 200, 200);
    draw_column(state, SHIELD_COLUMN, shield_lit, 50, 100, 150);
}

} // verus!
