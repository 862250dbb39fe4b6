use vstd::prelude::*;

use crate::{BALL_SPEED, COORD_BOUND, MAX_RADIUS, SCREEN_HEIGHT, SCREEN_WIDTH};

verus! {

/// The velocity picked by a random draw: `0` gives `-BALL_SPEED`, anything
/// else gives `BALL_SPEED`.
pub open spec fn speed_of(pick: i32) -> i32 {
    if pick == 0 {
        (-BALL_SPEED) as i32
    } else {
        BALL_SPEED
    }
}

/// The ball: its centre, its velocity per frame and its radius.
#[derive(Clone, Copy, Debug, PartialEq, Eq, Structural)]
pub struct Ball {
    pub x: i32,
    pub y: i32,
    pub speed_x: i32,
    pub speed_y: i32,
    pub radius: i32,
}

impl Ball {
    /// Values on which one tick cannot overflow.
    pub open spec fn in_bounds(self) -> bool {
        &&& -COORD_BOUND <= self.x <= COORD_BOUND
        &&& -COORD_BOUND <= self.y <= COORD_BOUND
        &&& -BALL_SPEED <= self.speed_x <= BALL_SPEED
        &&& -BALL_SPEED <= self.speed_y <= BALL_SPEED
        &&& 0 <= self.radius <= MAX_RADIUS
    }

    /// The invariant of a ball in play: each velocity component has magnitude
    /// `BALL_SPEED`, the ball is at most one step past a wall, and a ball past
    /// the top or bottom wall is still moving outwards (it was just moved
    /// there and will be turned back on the next tick).
    pub open spec fn wf(self) -> bool {
        &&& (self.speed_x == BALL_SPEED || self.speed_x == -BALL_SPEED)
        &&& (self.speed_y == BALL_SPEED || self.speed_y == -BALL_SPEED)
        &&& 0 <= self.radius <= MAX_RADIUS
        &&& self.radius - BALL_SPEED < self.x < SCREEN_WIDTH - self.radius + BALL_SPEED
        &&& -BALL_SPEED <= self.y - self.radius
        &&& self.y + self.radius <= SCREEN_HEIGHT + BALL_SPEED
        &&& (self.y - self.radius < 0 ==> self.speed_y == -BALL_SPEED)
        &&& (self.y + self.radius > SCREEN_HEIGHT ==> self.speed_y == BALL_SPEED)
    }

    /// The ball's top or bottom edge touches or passes a horizontal wall.
    pub open spec fn hits_wall(self) -> bool {
        self.y + self.radius >= SCREEN_HEIGHT || self.y - self.radius <= 0
    }

    /// The ball's right edge touches or passes the right wall: the opponent
    /// scores.
    pub open spec fn reaches_right(self) -> bool {
        self.x + self.radius >= SCREEN_WIDTH
    }

    /// The ball's left edge touches or passes the left wall: the player scores.
    pub open spec fn reaches_left(self) -> bool {
        self.x - self.radius <= 0
    }

    /// The ball put back at the centre of the court with the picked velocity.
    pub open spec fn recentred(self, pick_x: i32, pick_y: i32) -> Ball {
        Ball {
            x: (SCREEN_WIDTH / 2) as i32,
            y: (SCREEN_HEIGHT / 2) as i32,
            speed_x: speed_of(pick_x),
            speed_y: speed_of(pick_y),
            radius: self.radius,
        }
    }

    /// The ball with its vertical velocity reversed when it hits a wall.
    pub open spec fn bounced(self) -> Ball {
        if self.hits_wall() {
            Ball { speed_y: (-self.speed_y) as i32, ..self }
        } else {
            self
        }
    }

    /// The ball moved by one step of its velocity.
    pub open spec fn moved(self) -> Ball {
        Ball { x: (self.x + self.speed_x) as i32, y: (self.y + self.speed_y) as i32, ..self }
    }

    /// The ball after one tick: bounced off a horizontal wall, recentred when
    /// either side wall is reached, then moved by its (new) velocity.
    pub open spec fn ticked(self, pick_x: i32, pick_y: i32) -> Ball {
        if self.reaches_right() || self.reaches_left() {
            self.recentred(pick_x, pick_y).moved()
        } else {
            self.bounced().moved()
        }
    }

    /// Puts the ball back at the centre of the court. Each velocity component
    /// is picked from `[-BALL_SPEED, BALL_SPEED]` by a random index (`0` or
    /// `1`) drawn by the caller.
    pub fn reset_ball(&mut self, pick_x: i32, pick_y: i32)
        requires
            0 <= pick_x <= 1,
            0 <= pick_y <= 1,
        ensures
            *final(self) == old(self).recentred(pick_x, pick_y),
            final(self).x == SCREEN_WIDTH / 2,
            final(self).y == SCREEN_HEIGHT / 2,
            final(self).speed_x == BALL_SPEED || final(self).speed_x == -BALL_SPEED,
            final(self).speed_y == BALL_SPEED || final(self).speed_y == -BALL_SPEED,
    {
        self.x = SCREEN_WIDTH / 2;
        self.y = SCREEN_HEIGHT / 2;
        let speeds: [i32; 2] = [-BALL_SPEED, BALL_SPEED];
        self.speed_x = speeds[pick_x as usize];
        self.speed_y = speeds[pick_y as usize];
    }
    /// Advances the ball by one frame. A ball touching the top or bottom wall
    /// has its vertical velocity reversed first. A ball whose right edge
    /// reaches the right wall gives the opponent a point and is recentred; a
    /// ball whose left edge reaches the left wall gives the player a point and
    /// is recentred. Last, the ball moves by its velocity, so a recentred ball
    /// ends the tick one step away from the centre.
    pub fn tick(&mut self, player_score: &mut i32, cpu_score: &mut i32, pick_x: i32, pick_y: i32)
        requires
            old(self).in_bounds(),
            *old(player_score) < i32::MAX,
            *old(cpu_score) < i32::MAX,
            0 <= pick_x <= 1,
            0 <= pick_y <= 1,
        ensures
            *final(self) == old(self).ticked(pick_x, pick_y),
            *final(cpu_score) == *old(cpu_score) + if old(self).reaches_right() { 1int } else { 0 },
            *final(player_score) == *old(player_score) + if !old(self).reaches_right()
                && old(self).reaches_left() { 1int } else { 0 },
            old(self).reaches_right() ==> {
                &&& *final(cpu_score) == *old(cpu_score) + 1
                &&& final(self).x == SCREEN_WIDTH / 2 + final(self).speed_x
                &&& final(self).y == SCREEN_HEIGHT / 2 + final(self).speed_y
            },
            old(self).reaches_left() ==> {
                &&& *final(player_score) == *old(player_score) + 1
                &&& final(self).x == SCREEN_WIDTH / 2 + final(self).speed_x
                &&& final(self).y == SCREEN_HEIGHT / 2 + final(self).speed_y
            },
            old(self).wf() ==> final(self).wf(),
    {
        if self.y + self.radius >= SCREEN_HEIGHT || self.y - self.radius <= 0 {
            self.speed_y = -self.speed_y;
        }
        if self.x + self.radius >= SCREEN_WIDTH {
            *cpu_score = *cpu_score + 1;
            self.reset_ball(pick_x, pick_y);
        }
        if self.x - self.radius <= 0 {
            *player_score = *player_score + 1;
            self.reset_ball(pick_x, pick_y);
        }
        self.x = self.x + self.speed_x;
        self.y = self.y + self.speed_y;
    }
}

impl Ball {
    /// The ball a match starts with.
    pub open spec fn default_spec() -> Ball {
        Ball {
            x: (SCREEN_WIDTH / 2) as i32,
            y: (SCREEN_HEIGHT / 2) as i32,
            speed_x: BALL_SPEED,
            speed_y: BALL_SPEED,
            radius: 20,
        }
    }
}

impl Default for Ball {
    /// A ball of radius 20 at the centre of the court, moving down and right.
    fn default() -> (r: Ball)
        ensures
            r == Ball::default_spec(),
            r.wf(),
    {
        Ball {
            x: SCREEN_WIDTH / 2,
            y: SCREEN_HEIGHT / 2,
            speed_x: BALL_SPEED,
            speed_y: BALL_SPEED,
            radius: 20,
        }
    }
}

} // verus!
