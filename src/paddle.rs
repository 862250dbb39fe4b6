use vstd::prelude::*;

use crate::{COORD_BOUND, SCREEN_HEIGHT};

verus! {

/// `y` restricted to the vertical range `[0, SCREEN_HEIGHT - h]` that keeps a
/// paddle of height `h` on screen: the lower bound is applied first, so an
/// over-tall paddle ends at `SCREEN_HEIGHT - h`.
pub open spec fn clamp_y(y: int, h: int) -> int {
    let low = if y < 0 { 0 } else { y };
    if low > SCREEN_HEIGHT - h {
        SCREEN_HEIGHT - h
    } else {
        low
    }
}

/// A paddle: its top-left corner, its size, and how far it moves per frame.
/// This is the paddle steered by the player.
#[derive(Clone, Copy, Debug, PartialEq, Eq, Structural)]
pub struct PlayerPaddle {
    pub x: i32,
    pub y: i32,
    pub w: i32,
    pub h: i32,
    pub speed: i32,
}

impl PlayerPaddle {
    /// Values on which one tick cannot overflow and the paddle fits on screen.
    pub open spec fn in_bounds(self) -> bool {
        &&& -COORD_BOUND <= self.y <= COORD_BOUND
        &&& 0 <= self.h <= SCREEN_HEIGHT
        &&& 0 <= self.speed <= COORD_BOUND
    }

    /// The invariant of a paddle in play: it fits on screen, its top edge
    /// lies in `[0, SCREEN_HEIGHT - h]`, and its speed is in bounds.
    pub open spec fn wf(self) -> bool {
        &&& self.in_bounds()
        &&& 0 <= self.y <= SCREEN_HEIGHT - self.h
    }

    /// The paddle with its top edge at `y`, clamped to the screen.
    pub open spec fn placed(self, y: int) -> PlayerPaddle {
        PlayerPaddle { y: clamp_y(y, self.h as int) as i32, ..self }
    }

    /// The paddle after one tick with the given keys held: "up" moves it up by
    /// its speed, otherwise "down" moves it down, and the result is clamped.
    pub open spec fn ticked(self, up: bool, down: bool) -> PlayerPaddle {
        if up {
            self.placed(self.y - self.speed)
        } else if down {
            self.placed(self.y + self.speed)
        } else {
            self.placed(self.y as int)
        }
    }

    /// Clamps the paddle's top edge into `[0, SCREEN_HEIGHT - h]`.
    pub fn limit_movement(&mut self)
        requires
            old(self).h >= SCREEN_HEIGHT - i32::MAX,
        ensures
            *final(self) == old(self).placed(old(self).y as int),
            0 <= old(self).h <= SCREEN_HEIGHT ==> 0 <= final(self).y <= SCREEN_HEIGHT - final(self).h,
    {
        let low: i32 = if self.y < 0 { 0 } else { self.y };
        let high: i32 = SCREEN_HEIGHT - self.h;
        self.y = if low > high { high } else { low };
    }

    /// Moves the paddle for one frame: up by its speed while "up" is held,
    /// else down by its speed while "down" is held, then clamps it to the
    /// screen.
    pub fn tick(&mut self, up: bool, down: bool)
        requires
            old(self).in_bounds(),
        ensures
            *final(self) == old(self).ticked(up, down),
            0 <= final(self).y <= SCREEN_HEIGHT - final(self).h,
            final(self).wf(),
    {
        if up {
            self.y = self.y - self.speed;
        } else if down {
            self.y = self.y + self.speed;
        }
        self.limit_movement();
    }
}

impl Default for PlayerPaddle {
    /// A 25 by 120 paddle at (10, 10) that moves 6 pixels per frame.
    fn default() -> (r: PlayerPaddle)
        ensures
            r == (PlayerPaddle { x: 10, y: 10, w: 25, h: 120, speed: 6 }),
            r.wf(),
    {
        PlayerPaddle { x: 10, y: 10, w: 25, h: 120, speed: 6 }
    }
}

/// The paddle steered by the computer: it follows the ball vertically.
#[derive(Clone, Copy, Debug, PartialEq, Eq, Structural)]
pub struct CPUPaddle {
    pub base: PlayerPaddle,
}

impl CPUPaddle {
    /// The paddle's vertical centre is greater than `ball_y` (lower on the
    /// screen than the ball), so the paddle moves up. Compared at twice the
    /// scale, so that a centre on a half pixel is compared exactly.
    pub open spec fn above_target(self, ball_y: i32) -> bool {
        2 * self.base.y + self.base.h > 2 * ball_y
    }

    /// The paddle after one tick towards `ball_y`: up by its speed when its
    /// centre is greater than `ball_y`, otherwise (ties included) down by its
    /// speed, then clamped.
    pub open spec fn ticked(self, ball_y: i32) -> CPUPaddle {
        if self.above_target(ball_y) {
            CPUPaddle { base: self.base.placed(self.base.y - self.base.speed) }
        } else {
            CPUPaddle { base: self.base.placed(self.base.y + self.base.speed) }
        }
    }

    /// Moves the paddle one step towards the ball's height `ball_y`, then
    /// clamps it to the screen. The paddle never stands still: when its
    /// centre is level with the ball it moves down.
    pub fn tick(&mut self, ball_y: i32)
        requires
            old(self).base.in_bounds(),
        ensures
            *final(self) == old(self).ticked(ball_y),
            0 <= final(self).base.y <= SCREEN_HEIGHT - final(self).base.h,
            final(self).base.wf(),
    {
        let centre2: i64 = 2 * (self.base.y as i64) + self.base.h as i64;
        if centre2 > 2 * (ball_y as i64) {
            self.base.y = self.base.y - self.base.speed;
        } else {
            self.base.y = self.base.y + self.base.speed;
        }
        self.base.limit_movement();
    }
}

impl Default for CPUPaddle {
    /// A paddle of the default size and speed at (10, SCREEN_HEIGHT / 2).
    fn default() -> (r: CPUPaddle)
        ensures
            r == (CPUPaddle {
                base: PlayerPaddle { x: 10, y: (SCREEN_HEIGHT / 2) as i32, w: 25, h: 120, speed: 6 },
            }),
            r.base.wf(),
    {
        let master: PlayerPaddle = PlayerPaddle::default();
        CPUPaddle {
            base: PlayerPaddle {
                x: 10,
                y: SCREEN_HEIGHT / 2,
                w: master.w,
                h: master.h,
                speed: master.speed,
            },
        }
    }
}

} // verus!
