use vstd::prelude::*;

use crate::ball::Ball;
use crate::paddle::{CPUPaddle, PlayerPaddle};
use crate::{BALL_SPEED, SCREEN_HEIGHT, SCREEN_WIDTH};

verus! {

/// What the outside world supplies to one frame: the keys held, the two
/// random picks for a possible reset, and whether the ball overlaps each
/// paddle after the entities have moved.
pub struct FrameEvents {
    pub up: bool,
    pub down: bool,
    pub pick_x: i32,
    pub pick_y: i32,
    pub hit_player: bool,
    pub hit_cpu: bool,
}

/// Random picks that select one of the two reset velocities.
pub open spec fn valid_picks(e: FrameEvents) -> bool {
    0 <= e.pick_x <= 1 && 0 <= e.pick_y <= 1
}

/// The whole state of a match: the ball, both paddles and both scores.
#[derive(Clone, Copy, Debug, PartialEq, Eq, Structural)]
pub struct Game {
    pub ball: Ball,
    pub player: PlayerPaddle,
    pub cpu_paddle: CPUPaddle,
    pub player_score: i32,
    pub cpu_score: i32,
}

impl Game {
    /// The invariant kept by every frame: the ball is in play and both
    /// paddles are on screen.
    pub open spec fn wf(self) -> bool {
        &&& self.ball.wf()
        &&& self.player.wf()
        &&& self.cpu_paddle.base.wf()
    }

    /// The state after the movement half of a frame: ball first (which may
    /// score), then the player's paddle, then the computer's paddle towards
    /// the ball's new height.
    pub open spec fn updated(self, up: bool, down: bool, pick_x: i32, pick_y: i32) -> Game {
        let ball = self.ball.ticked(pick_x, pick_y);
        Game {
            ball,
            player: self.player.ticked(up, down),
            cpu_paddle: self.cpu_paddle.ticked(ball.y),
            player_score: (self.player_score + if !self.ball.reaches_right()
                && self.ball.reaches_left() {
                1int
            } else {
                0
            }) as i32,
            cpu_score: (self.cpu_score + if self.ball.reaches_right() {
                1int
            } else {
                0
            }) as i32,
        }
    }

    /// The state after the collision half of a frame: the ball's horizontal
    /// velocity is reversed once for each paddle it overlaps.
    pub open spec fn collided(self, hit_player: bool, hit_cpu: bool) -> Game {
        if hit_player != hit_cpu {
            Game { ball: Ball { speed_x: (-self.ball.speed_x) as i32, ..self.ball }, ..self }
        } else {
            self
        }
    }

    /// One whole frame.
    pub open spec fn frame(self, e: FrameEvents) -> Game {
        self.updated(e.up, e.down, e.pick_x, e.pick_y).collided(e.hit_player, e.hit_cpu)
    }

    /// The state after a run of frames.
    pub open spec fn run(self, frames: Seq<FrameEvents>) -> Game
        decreases frames.len(),
    {
        if frames.len() == 0 {
            self
        } else {
            self.frame(frames[0]).run(frames.subrange(1, frames.len() as int))
        }
    }

    /// The opening state: the default ball, the player's paddle moved to the
    /// right edge and centred vertically, the computer's default paddle on
    /// the left, and both scores at zero.
    pub fn new() -> (r: Game)
        ensures
            r.ball == Ball::default_spec(),
            r.player == (PlayerPaddle {
                x: (SCREEN_WIDTH - 25 - 10) as i32,
                y: (SCREEN_HEIGHT / 2 - 60) as i32,
                w: 25,
                h: 120,
                speed: 6,
            }),
            r.cpu_paddle.base == (PlayerPaddle {
                x: 10,
                y: (SCREEN_HEIGHT / 2) as i32,
                w: 25,
                h: 120,
                speed: 6,
            }),
            r.player_score == 0,
            r.cpu_score == 0,
            r.wf(),
    {
        let mut player = PlayerPaddle::default();
        player.x = SCREEN_WIDTH - player.w - 10;
        player.y = SCREEN_HEIGHT / 2 - player.h / 2;
        Game {
            ball: Ball::default(),
            player,
            cpu_paddle: CPUPaddle::default(),
            player_score: 0,
            cpu_score: 0,
        }
    }

    /// The movement half of a frame: ticks the ball (updating the scores),
    /// the player's paddle with the keys held, and the computer's paddle
    /// towards the ball's new height.
    pub fn update(&mut self, up: bool, down: bool, pick_x: i32, pick_y: i32)
        requires
            old(self).wf(),
            old(self).player_score < i32::MAX,
            old(self).cpu_score < i32::MAX,
            0 <= pick_x <= 1,
            0 <= pick_y <= 1,
        ensures
            *final(self) == old(self).updated(up, down, pick_x, pick_y),
            final(self).wf(),
    {
        self.ball.tick(&mut self.player_score, &mut self.cpu_score, pick_x, pick_y);
        self.player.tick(up, down);
        let ball_y = self.ball.y;
        self.cpu_paddle.tick(ball_y);
    }

    /// The collision half of a frame: reverses the ball's horizontal velocity
    /// for each paddle it overlaps. Both tests always apply, so overlapping
    /// both paddles at once leaves the velocity as it was.
    pub fn resolve_collisions(&mut self, hit_player: bool, hit_cpu: bool)
        requires
            -BALL_SPEED <= old(self).ball.speed_x <= BALL_SPEED,
        ensures
            *final(self) == old(self).collided(hit_player, hit_cpu),
            final(self).ball.speed_x == if hit_player == hit_cpu {
                old(self).ball.speed_x as int
            } else {
                -old(self).ball.speed_x
            },
            hit_player && hit_cpu ==> *final(self) == *old(self),
            old(self).wf() ==> final(self).wf(),
    {
        if hit_player {
            self.ball.speed_x = -self.ball.speed_x;
        }
        if hit_cpu {
            self.ball.speed_x = -self.ball.speed_x;
        }
    }
}

/// Every frame keeps the ball in play and both paddles on screen, whatever
/// keys are held and whatever the collision tests report.
pub proof fn lemma_frame_keeps_invariant(g: Game, e: FrameEvents)
    requires
        g.wf(),
        valid_picks(e),
    ensures
        g.frame(e).wf(),
{
}

/// From any state in play, after any number of frames the paddles' top
/// edges lie in `[0, SCREEN_HEIGHT - h]` and each component of the ball's
/// velocity is `BALL_SPEED` or `-BALL_SPEED`.
pub proof fn lemma_run_keeps_invariant(g: Game, frames: Seq<FrameEvents>)
    requires
        g.wf(),
        forall|i: int| 0 <= i < frames.len() ==> valid_picks(#[trigger] frames[i]),
    ensures
        g.run(frames).wf(),
        0 <= g.run(frames).player.y <= SCREEN_HEIGHT - g.run(frames).player.h,
        0 <= g.run(frames).cpu_paddle.base.y <= SCREEN_HEIGHT - g.run(frames).cpu_paddle.base.h,
        g.run(frames).ball.speed_x == BALL_SPEED || g.run(frames).ball.speed_x == -BALL_SPEED,
        g.run(frames).ball.speed_y == BALL_SPEED || g.run(frames).ball.speed_y == -BALL_SPEED,
    decreases frames.len(),
{
    if frames.len() > 0 {
        lemma_frame_keeps_invariant(g, frames[0]);
        let rest = frames.subrange(1, frames.len() as int);
        assert forall|i: int| 0 <= i < rest.len() implies valid_picks(#[trigger] rest[i]) by {
            assert(rest[i] == frames[i + 1]);
        }
        lemma_run_keeps_invariant(g.frame(frames[0]), rest);
    }
}

} // verus!
