//! What holds of every tick, proved from the definitions of the game.

use vstd::prelude::*;
use crate::entity::Entity;
use crate::game::{
    deflected, lemma_spin_is_bounded, moved_paddle, paddle_shift, rebound, spin, touches_wall,
    wall_bounced, Controls, GameState, Player, Status, BALL_ACC, COORDINATE_LIMIT, PADDLE_SPEED,
    PADDLE_SPIN, WINDOW_WIDTH,
};
use crate::rectangle::Rectangle;
use crate::units::{
    lemma_truncated_quotient_is_odd, lemma_truncated_quotient_rounds_towards_zero, pixel_units,
};
use crate::vector::Vec2;

verus! {

/// One tick moves an entity by exactly its velocity, wherever it stands, and
/// changes nothing else of it.
pub proof fn lemma_advance_adds_the_velocity(entity: Entity)
    requires
        entity.can_advance(),
    ensures
        entity.advanced().position.x - entity.position.x == entity.velocity.x,
        entity.advanced().position.y - entity.position.y == entity.velocity.y,
        entity.advanced().velocity == entity.velocity,
        entity.advanced().visual == entity.visual,
{
}

/// The rectangle of an entity has the entity's position as its corner and the
/// extent of the image, at every position, and the extent does not depend on
/// the position.
pub proof fn lemma_bounds_follow_the_position(entity: Entity, position: Vec2)
    ensures
        (Entity { position, ..entity }).bounds() == (Rectangle {
            x: position.x,
            y: position.y,
            width: entity.bounds().width,
            height: entity.bounds().height,
        }),
        entity.bounds().width == pixel_units(entity.visual.width as int),
        entity.bounds().height == pixel_units(entity.visual.height as int),
{
}

/// A paddle hit turns the ball round and makes it faster by exactly
/// `BALL_ACC`: a ball that moved left moves right afterwards, and a ball that
/// moved right moves left.
pub proof fn lemma_rebound_reverses_and_accelerates(vx: int)
    ensures
        vx < 0 ==> rebound(vx) > 0 && rebound(vx) == -vx + BALL_ACC,
        vx > 0 ==> rebound(vx) < 0 && -rebound(vx) == vx + BALL_ACC,
        vx == 0 ==> rebound(vx) == -BALL_ACC,
{
}

/// A ball that strikes a paddle at the height of the paddle's middle gains no
/// spin; one that strikes above the middle is sent upwards, one that strikes
/// below it downwards.
pub proof fn lemma_spin_points_away_from_the_middle(paddle: Entity, ball: Entity)
    requires
        paddle.visual.height > 0,
    ensures
        ball.center_y() == paddle.center_y() ==> spin(paddle, ball) == 0,
        ball.center_y() < paddle.center_y() ==> spin(paddle, ball) <= 0,
        ball.center_y() > paddle.center_y() ==> spin(paddle, ball) >= 0,
{
    lemma_spin_is_bounded(paddle, ball);
}

/// The spin is the exact quotient `PADDLE_SPIN * d / h`, rounded towards
/// zero, where `d` is the distance of the ball's middle below the paddle's
/// and `h` the paddle's height: it is less than one unit away from it.
pub proof fn lemma_spin_is_the_rounded_quotient(paddle: Entity, ball: Entity)
    requires
        paddle.visual.height > 0,
    ensures
        ({
            let exact = PADDLE_SPIN * (ball.center_y() - paddle.center_y());
            let rounded = spin(paddle, ball) * paddle.height();
            &&& exact >= 0 ==> 0 <= rounded <= exact < rounded + paddle.height()
            &&& exact <= 0 ==> 0 >= rounded >= exact > rounded - paddle.height()
        }),
{
    let leverage = PADDLE_SPIN * (paddle.center_y() - ball.center_y());
    let height = paddle.height() as int;
    lemma_truncated_quotient_is_odd(leverage, height);
    lemma_truncated_quotient_rounds_towards_zero(-leverage, height);
    assert(-leverage == PADDLE_SPIN * (ball.center_y() - paddle.center_y())) by (nonlinear_arith)
        requires
            leverage == PADDLE_SPIN * (paddle.center_y() - ball.center_y()),
    ;
}

/// Two balls that strike a paddle as far above its middle as below it gain
/// opposite spins.
pub proof fn lemma_spin_is_mirrored(paddle: Entity, above: Entity, below: Entity)
    requires
        paddle.visual.height > 0,
        paddle.center_y() - above.center_y() == below.center_y() - paddle.center_y(),
    ensures
        spin(paddle, above) == -spin(paddle, below),
{
    let leverage = PADDLE_SPIN * (paddle.center_y() - above.center_y());
    lemma_truncated_quotient_is_odd(leverage, paddle.height() as int);
    assert(-leverage == PADDLE_SPIN * (paddle.center_y() - below.center_y())) by (nonlinear_arith)
        requires
            leverage == PADDLE_SPIN * (paddle.center_y() - above.center_y()),
            paddle.center_y() - above.center_y() == below.center_y() - paddle.center_y(),
    ;
}

/// In a tick of a game in play, each paddle moves by the shift of its own two
/// keys, vertically, and keeps its image and its velocity.
pub proof fn lemma_paddles_follow_their_keys(game: GameState, controls: Controls)
    requires
        game.status == Status::Playing,
        game.steppable(controls),
    ensures
        ({
            let next = game.stepped(controls);
            &&& next.player_one.position.x == game.player_one.position.x
            &&& next.player_one.position.y == game.player_one.position.y + paddle_shift(
                controls.one_up,
                controls.one_down,
            )
            &&& next.player_one.velocity == game.player_one.velocity
            &&& next.player_one.visual == game.player_one.visual
            &&& next.player_two.position.x == game.player_two.position.x
            &&& next.player_two.position.y == game.player_two.position.y + paddle_shift(
                controls.two_up,
                controls.two_down,
            )
            &&& next.player_two.velocity == game.player_two.velocity
            &&& next.player_two.visual == game.player_two.visual
        }),
{
}

/// In a tick of a game in play, the ball moves by exactly the velocity that
/// it had when the tick began, whatever else happens in the tick.
pub proof fn lemma_ball_moves_by_its_velocity(game: GameState, controls: Controls)
    requires
        game.status == Status::Playing,
        game.steppable(controls),
    ensures
        ({
            let next = game.stepped(controls);
            &&& next.ball.position.x == game.ball.position.x + game.ball.velocity.x
            &&& next.ball.position.y == game.ball.position.y + game.ball.velocity.y
            &&& next.ball.visual == game.ball.visual
        }),
{
}

/// In a tick in which the ball strikes no paddle, its horizontal velocity
/// stays, and its vertical velocity is inverted exactly if the ball, after
/// its move, touches the top or the bottom of the field.
pub proof fn lemma_tick_without_hit(game: GameState, controls: Controls)
    requires
        game.status == Status::Playing,
        game.steppable(controls),
        game.struck(controls).is_none(),
    ensures
        ({
            let next = game.stepped(controls);
            &&& next.ball.velocity.x == game.ball.velocity.x
            &&& touches_wall(&game.ball.advanced()) ==> next.ball.velocity.y
                == -game.ball.velocity.y
            &&& !touches_wall(&game.ball.advanced()) ==> next.ball.velocity.y
                == game.ball.velocity.y
        }),
{
}

/// In a tick in which the ball strikes a paddle, its horizontal velocity is
/// the rebound of the old one, and its vertical velocity is the old one plus
/// the spin that the moved paddle gives the moved ball, inverted if the ball
/// also touches the top or the bottom of the field.
pub proof fn lemma_tick_with_hit(game: GameState, controls: Controls)
    requires
        game.status == Status::Playing,
        game.steppable(controls),
        game.struck(controls).is_some(),
    ensures
        ({
            let next = game.stepped(controls);
            let paddle = match game.struck(controls) {
                Some(Player::Two) => moved_paddle(
                    game.player_two,
                    controls.two_up,
                    controls.two_down,
                ),
                _ => moved_paddle(game.player_one, controls.one_up, controls.one_down),
            };
            let ball = game.ball.advanced();
            &&& next.ball.velocity.x == rebound(game.ball.velocity.x as int)
            &&& touches_wall(&ball) ==> next.ball.velocity.y == -(game.ball.velocity.y + spin(
                paddle,
                ball,
            ))
            &&& !touches_wall(&ball) ==> next.ball.velocity.y == game.ball.velocity.y + spin(
                paddle,
                ball,
            )
        }),
{
}

/// A ball that overlaps both paddles at once strikes paddle one: the tick
/// ends as if paddle two were not touched.
pub proof fn lemma_paddle_one_has_priority(game: GameState, controls: Controls)
    requires
        game.status == Status::Playing,
        game.ball.advanced().bounds().overlaps(
            moved_paddle(game.player_one, controls.one_up, controls.one_down).bounds(),
        ),
        game.ball.advanced().bounds().overlaps(
            moved_paddle(game.player_two, controls.two_up, controls.two_down).bounds(),
        ),
    ensures
        game.struck(controls) == Some(Player::One),
        game.stepped(controls) == game.resolved(controls, Some(Player::One)),
        game.stepped(controls).ball == wall_bounced(
            deflected(
                game.ball.advanced(),
                moved_paddle(game.player_one, controls.one_up, controls.one_down),
            ),
        ),
{
}

/// Which paddle is struck, and with it the whole tick, is a matter of the
/// state and the keys alone: where the ball overlaps paddle one, paddle two
/// may stand anywhere without changing what becomes of the ball.
pub proof fn lemma_paddle_two_is_ignored_behind_paddle_one(
    game: GameState,
    other: GameState,
    controls: Controls,
)
    requires
        game.status == Status::Playing,
        other.status == Status::Playing,
        other.player_one == game.player_one,
        other.ball == game.ball,
        game.struck(controls) == Some(Player::One),
    ensures
        other.struck(controls) == Some(Player::One),
        other.stepped(controls).ball == game.stepped(controls).ball,
        other.verdict(controls) == game.verdict(controls),
{
}

/// A tick of a game in play declares a winner exactly if it ends the game:
/// player two if the ball has passed the left edge of the field, player one
/// if it has passed the right edge.
pub proof fn lemma_verdict_ends_the_game(game: GameState, controls: Controls)
    requires
        game.status == Status::Playing,
    ensures
        game.verdict(controls).is_some() <==> game.stepped(controls).status == Status::Terminated,
        game.verdict(controls) == Some(Player::Two) <==> game.stepped(controls).ball.position.x < 0,
        game.verdict(controls) == Some(Player::One) <==> game.stepped(controls).ball.position.x
            > WINDOW_WIDTH,
{
}

/// A game that is over stays over and unchanged, and no tick declares a
/// winner again.
pub proof fn lemma_game_over_is_final(game: GameState, controls: Controls)
    requires
        game.status == Status::Terminated,
    ensures
        game.stepped(controls) == game,
        game.verdict(controls).is_none(),
        game.steppable(controls),
{
}

/// A winner is declared once: after the tick that declares one, no later
/// tick does.
pub proof fn lemma_winner_is_declared_once(game: GameState, first: Controls, second: Controls)
    requires
        game.verdict(first).is_some(),
    ensures
        game.stepped(first).status == Status::Terminated,
        game.stepped(first).verdict(second).is_none(),
        game.stepped(first).stepped(second) == game.stepped(first),
{
}

/// A tick keeps the images of all three entities, and with them the
/// well-formedness of the game.
pub proof fn lemma_tick_keeps_the_images(game: GameState, controls: Controls)
    ensures
        game.stepped(controls).player_one.visual == game.player_one.visual,
        game.stepped(controls).player_two.visual == game.player_two.visual,
        game.stepped(controls).ball.visual == game.ball.visual,
        game.wf() ==> game.stepped(controls).wf(),
{
}

/// A tick cannot throw a game in range far out of it: afterwards the paddles
/// lie within `COORDINATE_LIMIT + PADDLE_SPEED` and the ball's position
/// within twice `COORDINATE_LIMIT`.
pub proof fn lemma_tick_moves_a_bounded_distance(game: GameState, controls: Controls)
    requires
        game.in_range(),
    ensures
        game.stepped(controls).player_one.position.within(COORDINATE_LIMIT + PADDLE_SPEED),
        game.stepped(controls).player_two.position.within(COORDINATE_LIMIT + PADDLE_SPEED),
        game.stepped(controls).ball.position.within(2 * COORDINATE_LIMIT),
{
}

} // verus!
