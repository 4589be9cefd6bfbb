//! The rules of play: how one tick changes the paddles and the ball, and when
//! the game is over.

use vstd::prelude::*;
use crate::entity::{Entity, Visual};
use crate::rectangle::Rectangle;
use crate::render::{Color, DrawCommand};
use crate::units::{
    fits, lemma_truncated_quotient_is_no_larger, pixel_units, pixels, truncated_quotient,
};
use crate::vector::Vec2;

verus! {

/// Width of the playing field.
pub const WINDOW_WIDTH: i64 = 640_000;

/// Height of the playing field.
pub const WINDOW_HEIGHT: i64 = 480_000;

/// Distance that a paddle travels in one tick while its key is held.
pub const PADDLE_SPEED: i64 = 8_000;

/// Speed of the ball when play begins.
pub const BALL_SPEED: i64 = 5_000;

/// Vertical velocity that the ball gains when it strikes a paddle a whole
/// paddle height away from the paddle's middle.
pub const PADDLE_SPIN: i64 = 4_000;

/// Speed that the ball gains at each paddle hit.
pub const BALL_ACC: i64 = 50;

/// Gap between a paddle and the edge of the field behind it.
pub const PADDLE_INSET: i64 = 16_000;

/// A magnitude of coordinates and velocity components up to which a tick can
/// always be computed: a hundred thousand million pixels.
pub const COORDINATE_LIMIT: i64 = 100_000_000_000_000;

/// One of the two players. Player one defends the left edge, player two the
/// right edge.
#[derive(Clone, Copy, Debug, PartialEq, Eq, Structural)]
pub enum Player {
    One,
    Two,
}

/// Whether play goes on.
#[derive(Clone, Copy, Debug, PartialEq, Eq, Structural)]
pub enum Status {
    Playing,
    Terminated,
}

/// The keys that are held during a tick: up and down for each paddle.
#[derive(Clone, Copy, Debug, PartialEq, Eq, Structural)]
pub struct Controls {
    pub one_up: bool,
    pub one_down: bool,
    pub two_up: bool,
    pub two_down: bool,
}

pub open spec fn spec_paddle_shift(up: bool, down: bool) -> i64 {
    ((if down { PADDLE_SPEED as int } else { 0 }) - (if up { PADDLE_SPEED as int } else { 0 })) as i64
}

/// The vertical displacement of a paddle in one tick: `PADDLE_SPEED` down
/// for the one key, as much up, towards smaller y, for the other. Two keys
/// held together cancel.
#[verifier::when_used_as_spec(spec_paddle_shift)]
pub fn paddle_shift(up: bool, down: bool) -> (dy: i64)
    ensures
        dy == paddle_shift(up, down),
        dy == (if down { PADDLE_SPEED as int } else { 0 }) - (if up { PADDLE_SPEED as int } else { 0 }),
{
    let mut dy: i64 = 0;
    if up {
        dy = dy - PADDLE_SPEED;
    }
    if down {
        dy = dy + PADDLE_SPEED;
    }
    dy
}

/// The paddle's new height on the screen can be held in its position.
pub open spec fn can_move_paddle(paddle: Entity, up: bool, down: bool) -> bool {
    fits(paddle.position.y + paddle_shift(up, down))
}

/// A paddle after one tick with the given keys held: moved vertically, and
/// otherwise the same. Nothing keeps it inside the field.
pub open spec fn moved_paddle(paddle: Entity, up: bool, down: bool) -> Entity {
    Entity {
        position: Vec2 { x: paddle.position.x, y: (paddle.position.y + paddle_shift(up, down)) as i64 },
        ..paddle
    }
}

/// Moves a paddle as the held keys say.
pub fn move_paddle(paddle: &mut Entity, up: bool, down: bool)
    requires
        can_move_paddle(*old(paddle), up, down),
    ensures
        final(paddle).position.y == old(paddle).position.y + paddle_shift(up, down),
        final(paddle).position.x == old(paddle).position.x,
        final(paddle).velocity == old(paddle).velocity,
        final(paddle).visual == old(paddle).visual,
        *final(paddle) == moved_paddle(*old(paddle), up, down),
{
    paddle.position = Vec2::new(paddle.position.x, paddle.position.y + paddle_shift(up, down));
}

pub open spec fn spec_paddle_hit(ball: &Rectangle, one: &Rectangle, two: &Rectangle) -> Option<
    Player,
> {
    if ball.overlaps(*one) {
        Some(Player::One)
    } else if ball.overlaps(*two) {
        Some(Player::Two)
    } else {
        None
    }
}

/// The paddle that the ball strikes, given the rectangles that the three
/// cover. A ball that overlaps both paddles strikes paddle one.
#[verifier::when_used_as_spec(spec_paddle_hit)]
pub fn paddle_hit(ball: &Rectangle, one: &Rectangle, two: &Rectangle) -> (hit: Option<Player>)
    ensures
        hit == paddle_hit(ball, one, two),
        hit == Some(Player::One) <==> ball.overlaps(*one),
        hit == Some(Player::Two) <==> !ball.overlaps(*one) && ball.overlaps(*two),
        hit.is_none() <==> !ball.overlaps(*one) && !ball.overlaps(*two),
{
    if ball.intersects(one) {
        Some(Player::One)
    } else if ball.intersects(two) {
        Some(Player::Two)
    } else {
        None
    }
}

/// The horizontal velocity of the ball after a paddle hit: the speed grows by
/// `BALL_ACC` and the direction reverses. A ball without horizontal motion
/// counts as moving right.
pub open spec fn rebound(vx: int) -> int {
    if vx >= 0 {
        -(vx + BALL_ACC)
    } else {
        -(vx - BALL_ACC)
    }
}

/// The vertical velocity that a paddle hit adds to the ball: `PADDLE_SPIN`
/// times the distance of the ball's middle below the paddle's middle, as a
/// fraction of the paddle's height, rounded towards zero. It is negative,
/// upwards, for a ball that strikes above the middle.
pub open spec fn spin(paddle: Entity, ball: Entity) -> int
    recommends
        paddle.visual.height > 0,
{
    -truncated_quotient(
        PADDLE_SPIN * (paddle.center_y() - ball.center_y()),
        paddle.height() as int,
    )
}

/// The velocity with which the ball leaves `paddle` can be held in the ball's
/// velocity.
pub open spec fn can_deflect(ball: Entity, paddle: Entity) -> bool {
    &&& fits(rebound(ball.velocity.x as int))
    &&& fits(ball.velocity.y + spin(paddle, ball))
}

/// The ball after it has struck `paddle`: in place, with its new velocity.
pub open spec fn deflected(ball: Entity, paddle: Entity) -> Entity {
    Entity {
        velocity: Vec2 {
            x: rebound(ball.velocity.x as int) as i64,
            y: (ball.velocity.y + spin(paddle, ball)) as i64,
        },
        ..ball
    }
}

/// Gives the ball the velocity with which it leaves `paddle`.
pub fn deflect(ball: &mut Entity, paddle: &Entity)
    requires
        paddle.visual.height > 0,
        can_deflect(*old(ball), *paddle),
    ensures
        final(ball).velocity.x == rebound(old(ball).velocity.x as int),
        final(ball).velocity.y == old(ball).velocity.y + spin(*paddle, *old(ball)),
        final(ball).position == old(ball).position,
        final(ball).visual == old(ball).visual,
        *final(ball) == deflected(*old(ball), *paddle),
{
    let vx: i128 = ball.velocity.x as i128;
    let acc: i128 = BALL_ACC as i128;
    let new_vx: i128 = if vx >= 0 {
        -(vx + acc)
    } else {
        -(vx - acc)
    };
    let paddle_height: i128 = paddle.height() as i128;
    let paddle_middle: i128 = paddle.position.y as i128 + paddle_height / 2;
    let ball_middle: i128 = ball.position.y as i128 + (ball.height() as i128) / 2;
    let leverage: i128 = (PADDLE_SPIN as i128) * (paddle_middle - ball_middle);
    let new_vy: i128 = ball.velocity.y as i128 - leverage / paddle_height;
    ball.velocity = Vec2::new(new_vx as i64, new_vy as i64);
}

/// The ball's image reaches the top or the bottom edge of the field.
pub open spec fn spec_touches_wall(ball: &Entity) -> bool {
    ball.position.y <= 0 || ball.position.y + ball.height() >= WINDOW_HEIGHT
}

/// Tells whether the ball's image reaches the top or the bottom edge of the
/// field.
#[verifier::when_used_as_spec(spec_touches_wall)]
pub fn touches_wall(ball: &Entity) -> (contact: bool)
    ensures
        contact == touches_wall(ball),
        contact == (ball.position.y <= 0 || ball.position.y + pixel_units(ball.visual.height as int)
            >= WINDOW_HEIGHT),
{
    let top: i128 = ball.position.y as i128;
    let height: i128 = ball.height() as i128;
    top <= 0 || top + height >= WINDOW_HEIGHT as i128
}

/// Where the ball touches a wall, its vertical velocity has an inverse that
/// can be held in its place.
pub open spec fn can_bounce(ball: Entity) -> bool {
    touches_wall(&ball) ==> ball.velocity.y > i64::MIN
}

/// The ball after the walls have acted on it: where it touches one, its
/// vertical velocity is inverted. Its position stays as it is.
pub open spec fn wall_bounced(ball: Entity) -> Entity {
    if touches_wall(&ball) {
        Entity { velocity: Vec2 { x: ball.velocity.x, y: (-ball.velocity.y) as i64 }, ..ball }
    } else {
        ball
    }
}

/// Inverts the ball's vertical velocity where the ball touches the top or the
/// bottom edge of the field.
pub fn bounce_off_walls(ball: &mut Entity)
    requires
        can_bounce(*old(ball)),
    ensures
        touches_wall(old(ball)) ==> final(ball).velocity.y == -old(ball).velocity.y,
        !touches_wall(old(ball)) ==> final(ball).velocity.y == old(ball).velocity.y,
        final(ball).velocity.x == old(ball).velocity.x,
        final(ball).position == old(ball).position,
        final(ball).visual == old(ball).visual,
        *final(ball) == wall_bounced(*old(ball)),
{
    if touches_wall(ball) {
        ball.velocity = Vec2::new(ball.velocity.x, -ball.velocity.y);
    }
}

pub open spec fn spec_winner_at(ball_x: i64) -> Option<Player> {
    if ball_x < 0 {
        Some(Player::Two)
    } else if ball_x > WINDOW_WIDTH {
        Some(Player::One)
    } else {
        None
    }
}

/// The player who has won once the ball's left edge is at `ball_x`: player
/// two when it has passed the left edge of the field, player one when it has
/// passed the right edge, nobody in between.
#[verifier::when_used_as_spec(spec_winner_at)]
pub fn winner_at(ball_x: i64) -> (winner: Option<Player>)
    ensures
        winner == winner_at(ball_x),
        winner == Some(Player::Two) <==> ball_x < 0,
        winner == Some(Player::One) <==> ball_x > WINDOW_WIDTH,
        winner.is_none() <==> 0 <= ball_x <= WINDOW_WIDTH,
{
    if ball_x < 0 {
        Some(Player::Two)
    } else if ball_x > WINDOW_WIDTH {
        Some(Player::One)
    } else {
        None
    }
}

/// The line that tells the players who has won.
pub fn announcement(winner: Player) -> (line: &'static str)
    ensures
        winner == Player::One ==> line@ == "Player 1 wins!"@,
        winner == Player::Two ==> line@ == "Player 2 wins!"@,
{
    match winner {
        Player::One => "Player 1 wins!",
        Player::Two => "Player 2 wins!",
    }
}

pub open spec fn spec_background() -> Color {
    Color { r: 100, g: 149, b: 237 }
}

/// The colour behind the sprites: cornflower blue.
#[verifier::when_used_as_spec(spec_background)]
pub fn background() -> (color: Color)
    ensures
        color == background(),
{
    Color { r: 100, g: 149, b: 237 }
}

/// The coordinate at which something of length `extent` sits in the middle of
/// a field of length `field`.
pub open spec fn centered(field: int, extent: int) -> int {
    (field - extent) / 2
}

/// Computes the coordinate at which an image of `extent_pixels` pixels sits in
/// the middle of a field of even length `field`.
fn center_in(field: i64, extent_pixels: u32) -> (at: i64)
    requires
        0 <= field <= WINDOW_WIDTH,
        field % 2 == 0,
    ensures
        at == centered(field as int, pixel_units(extent_pixels as int)),
        2 * at == field - pixel_units(extent_pixels as int),
        -COORDINATE_LIMIT <= at <= COORDINATE_LIMIT,
{
    let extent: i64 = pixels(extent_pixels);
    assert(extent == 2 * (500 * extent_pixels));
    (field - extent) / 2
}

/// A game of Pong: two paddles, a ball, and whether play goes on.
#[derive(Clone, Copy, Debug, PartialEq, Eq, Structural)]
pub struct GameState {
    pub player_one: Entity,
    pub player_two: Entity,
    pub ball: Entity,
    pub status: Status,
}

impl GameState {
    /// Both paddles have a height, so that the place where the ball strikes
    /// one can be told as a fraction of it.
    pub open spec fn wf(self) -> bool {
        &&& self.player_one.visual.height > 0
        &&& self.player_two.visual.height > 0
    }

    /// Every coordinate and every velocity component is within
    /// `COORDINATE_LIMIT` of zero.
    pub open spec fn in_range(self) -> bool {
        &&& self.player_one.within(COORDINATE_LIMIT as int)
        &&& self.player_two.within(COORDINATE_LIMIT as int)
        &&& self.ball.within(COORDINATE_LIMIT as int)
    }

    /// The game before the first tick. Each paddle stands `PADDLE_INSET` from
    /// its edge of the field, halfway down; the ball lies in the middle of the
    /// field and moves left at `BALL_SPEED`.
    pub fn new(player_one: Visual, player_two: Visual, ball: Visual) -> (game: GameState)
        requires
            player_one.height > 0,
            player_two.height > 0,
        ensures
            game.wf(),
            game.in_range(),
            game.status == Status::Playing,
            game.player_one.visual == player_one,
            game.player_one.position.x == PADDLE_INSET,
            game.player_one.position.y == centered(
                WINDOW_HEIGHT as int,
                pixel_units(player_one.height as int),
            ),
            game.player_one.velocity == (Vec2 { x: 0, y: 0 }),
            game.player_two.visual == player_two,
            game.player_two.position.x == WINDOW_WIDTH - PADDLE_INSET - pixel_units(
                player_two.width as int,
            ),
            game.player_two.position.y == centered(
                WINDOW_HEIGHT as int,
                pixel_units(player_two.height as int),
            ),
            game.player_two.velocity == (Vec2 { x: 0, y: 0 }),
            game.ball.visual == ball,
            game.ball.position.x == centered(WINDOW_WIDTH as int, pixel_units(ball.width as int)),
            game.ball.position.y == centered(WINDOW_HEIGHT as int, pixel_units(ball.height as int)),
            game.ball.velocity == (Vec2 { x: (-BALL_SPEED) as i64, y: 0 }),
    {
        let one_position = Vec2::new(PADDLE_INSET, center_in(WINDOW_HEIGHT, player_one.height));
        let two_position = Vec2::new(
            WINDOW_WIDTH - PADDLE_INSET - pixels(player_two.width),
            center_in(WINDOW_HEIGHT, player_two.height),
        );
        let ball_position = Vec2::new(
            center_in(WINDOW_WIDTH, ball.width),
            center_in(WINDOW_HEIGHT, ball.height),
        );
        let ball_velocity = Vec2::new(-BALL_SPEED, 0);
        GameState {
            player_one: Entity::new(player_one, one_position),
            player_two: Entity::new(player_two, two_position),
            ball: Entity::with_velocity(ball, ball_position, ball_velocity),
            status: Status::Playing,
        }
    }

    /// The paddle that the ball strikes in the tick that begins in `self`
    /// with `controls` held: the one whose rectangle, after the paddles and
    /// the ball have moved, overlaps the ball's.
    pub open spec fn struck(self, controls: Controls) -> Option<Player> {
        paddle_hit(
            &self.ball.advanced().bounds(),
            &moved_paddle(self.player_one, controls.one_up, controls.one_down).bounds(),
            &moved_paddle(self.player_two, controls.two_up, controls.two_down).bounds(),
        )
    }

    /// The ball after its move and after the paddle of `hit`, itself moved as
    /// `controls` say, has deflected it, before the walls act on it.
    pub open spec fn leaving(self, controls: Controls, hit: Option<Player>) -> Entity {
        let flying = self.ball.advanced();
        match hit {
            Some(Player::One) => deflected(
                flying,
                moved_paddle(self.player_one, controls.one_up, controls.one_down),
            ),
            Some(Player::Two) => deflected(
                flying,
                moved_paddle(self.player_two, controls.two_up, controls.two_down),
            ),
            None => flying,
        }
    }

    /// The game one tick after `self`, a game in play, when `controls` are
    /// held and the ball strikes the paddle of `hit`. The paddles move, the
    /// ball moves, the struck paddle deflects it, the walls turn it back, and
    /// play ends if the ball has then left the field on the left or on the
    /// right.
    pub open spec fn resolved(self, controls: Controls, hit: Option<Player>) -> GameState {
        let ball = wall_bounced(self.leaving(controls, hit));
        GameState {
            player_one: moved_paddle(self.player_one, controls.one_up, controls.one_down),
            player_two: moved_paddle(self.player_two, controls.two_up, controls.two_down),
            ball,
            status: if winner_at(ball.position.x).is_some() {
                Status::Terminated
            } else {
                Status::Playing
            },
        }
    }

    /// The game one tick after `self` when `controls` are held. A game that
    /// is over stays as it is.
    pub open spec fn stepped(self, controls: Controls) -> GameState {
        match self.status {
            Status::Terminated => self,
            Status::Playing => self.resolved(controls, self.struck(controls)),
        }
    }

    /// The player whom the tick that begins in `self` declares the winner, if
    /// it declares one.
    pub open spec fn verdict(self, controls: Controls) -> Option<Player> {
        match self.status {
            Status::Terminated => None,
            Status::Playing => winner_at(self.stepped(controls).ball.position.x),
        }
    }

    /// Every number that the tick from `self` with `controls` held computes
    /// for the next state can be held in its place. This is all that `update`
    /// asks of a well-formed game.
    pub open spec fn steppable(self, controls: Controls) -> bool {
        self.status == Status::Playing ==> {
            let one = moved_paddle(self.player_one, controls.one_up, controls.one_down);
            let two = moved_paddle(self.player_two, controls.two_up, controls.two_down);
            let flying = self.ball.advanced();
            &&& can_move_paddle(self.player_one, controls.one_up, controls.one_down)
            &&& can_move_paddle(self.player_two, controls.two_up, controls.two_down)
            &&& self.ball.can_advance()
            &&& match self.struck(controls) {
                Some(Player::One) => can_deflect(flying, one),
                Some(Player::Two) => can_deflect(flying, two),
                None => true,
            }
            &&& can_bounce(self.leaving(controls, self.struck(controls)))
        }
    }

    /// Tells whether the game is well formed and in range. If it is, `update`
    /// can be called whatever keys are held.
    pub fn can_update(&self) -> (ready: bool)
        ensures
            ready == (self.wf() && self.in_range()),
            ready ==> forall|controls: Controls| #[trigger] self.steppable(controls),
    {
        let ready = self.player_one.visual.height > 0 && self.player_two.visual.height > 0
            && self.player_one.is_within(COORDINATE_LIMIT) && self.player_two.is_within(
            COORDINATE_LIMIT,
        ) && self.ball.is_within(COORDINATE_LIMIT);
        proof {
            if ready {
                assert forall|controls: Controls| #[trigger] self.steppable(controls) by {
                    lemma_in_range_is_steppable(*self, controls);
                }
            }
        }
        ready
    }

    /// Plays one tick with `controls` held, and returns the winner if the
    /// tick ends the game. On a game that is over it does nothing.
    pub fn update(&mut self, controls: Controls) -> (winner: Option<Player>)
        requires
            old(self).wf(),
            old(self).steppable(controls),
        ensures
            *final(self) == old(self).stepped(controls),
            winner == old(self).verdict(controls),
            winner.is_some() <==> old(self).status == Status::Playing && final(self).status
                == Status::Terminated,
            final(self).wf(),
    {
        match self.status {
            Status::Terminated => {
                return None;
            },
            Status::Playing => {},
        }
        move_paddle(&mut self.player_one, controls.one_up, controls.one_down);
        move_paddle(&mut self.player_two, controls.two_up, controls.two_down);
        self.ball.update();

        let one_bounds = self.player_one.bounds();
        let two_bounds = self.player_two.bounds();
        let ball_bounds = self.ball.bounds();
        match paddle_hit(&ball_bounds, &one_bounds, &two_bounds) {
            Some(Player::One) => {
                let paddle = self.player_one;
                deflect(&mut self.ball, &paddle);
            },
            Some(Player::Two) => {
                let paddle = self.player_two;
                deflect(&mut self.ball, &paddle);
            },
            None => {},
        }
        bounce_off_walls(&mut self.ball);

        let winner = winner_at(self.ball.position.x);
        if winner.is_some() {
            self.status = Status::Terminated;
        }
        winner
    }

    /// The commands that draw the game: the background, then paddle one,
    /// paddle two and the ball, each at its position.
    pub open spec fn frame(self) -> Seq<DrawCommand> {
        seq![
            DrawCommand::Clear(background()),
            DrawCommand::Sprite { visual: self.player_one.visual, position: self.player_one.position },
            DrawCommand::Sprite { visual: self.player_two.visual, position: self.player_two.position },
            DrawCommand::Sprite { visual: self.ball.visual, position: self.ball.position },
        ]
    }

    /// The commands that draw the game, in the order in which they are to be
    /// carried out.
    pub fn draw(&self) -> (commands: Vec<DrawCommand>)
        ensures
            commands@ == self.frame(),
    {
        let commands = vec![
            DrawCommand::Clear(background()),
            self.player_one.draw(),
            self.player_two.draw(),
            self.ball.draw(),
        ];
        assert(commands@ =~= self.frame());
        commands
    }
}

/// The spin that a paddle gives points away from the paddle's middle and is
/// at most `PADDLE_SPIN` times the distance between the two middles.
pub proof fn lemma_spin_is_bounded(paddle: Entity, ball: Entity)
    requires
        paddle.visual.height > 0,
    ensures
        ball.center_y() <= paddle.center_y() ==> -PADDLE_SPIN * (paddle.center_y()
            - ball.center_y()) <= spin(paddle, ball) <= 0,
        ball.center_y() >= paddle.center_y() ==> 0 <= spin(paddle, ball) <= PADDLE_SPIN * (
        ball.center_y() - paddle.center_y()),
{
    lemma_truncated_quotient_is_no_larger(
        PADDLE_SPIN * (paddle.center_y() - ball.center_y()),
        paddle.height() as int,
    );
}

/// A well-formed game in range can take a tick, whatever keys are held.
pub proof fn lemma_in_range_is_steppable(game: GameState, controls: Controls)
    requires
        game.wf(),
        game.in_range(),
    ensures
        game.steppable(controls),
{
    let one = moved_paddle(game.player_one, controls.one_up, controls.one_down);
    let two = moved_paddle(game.player_two, controls.two_up, controls.two_down);
    let flying = game.ball.advanced();
    lemma_spin_is_bounded(one, flying);
    lemma_spin_is_bounded(two, flying);
}

} // verus!
