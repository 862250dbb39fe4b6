use pong::ball::Ball;
use pong::game::Game;
use pong::paddle::{CPUPaddle, PlayerPaddle};
use pong::{BALL_SPEED, SCREEN_HEIGHT, SCREEN_WIDTH};

fn paddle_at(y: i32) -> PlayerPaddle {
    PlayerPaddle { x: 10, y, w: 25, h: 120, speed: 6 }
}

#[test]
fn ball_default_is_centred() {
    let b = Ball::default();
    assert_eq!(b, Ball { x: 640, y: 400, speed_x: 7, speed_y: 7, radius: 20 });
}

#[test]
fn left_edge_at_zero_gives_player_a_point() {
    let mut b = Ball { x: 20, y: 400, speed_x: -7, speed_y: 0, radius: 20 };
    let mut player = 0;
    let mut cpu = 0;
    b.tick(&mut player, &mut cpu, 1, 0);
    assert_eq!(player, 1);
    assert_eq!(cpu, 0);
    assert_eq!((b.speed_x, b.speed_y), (7, -7));
    assert_eq!((b.x, b.y), (SCREEN_WIDTH / 2 + 7, SCREEN_HEIGHT / 2 - 7));
}

#[test]
fn right_edge_gives_cpu_a_point() {
    let mut b = Ball { x: 1260, y: 300, speed_x: 7, speed_y: 7, radius: 20 };
    let mut player = 3;
    let mut cpu = 5;
    b.tick(&mut player, &mut cpu, 0, 1);
    assert_eq!(player, 3);
    assert_eq!(cpu, 6);
    assert_eq!(b, Ball { x: 633, y: 407, speed_x: -7, speed_y: 7, radius: 20 });
}

#[test]
fn ball_in_open_court_just_moves() {
    let mut b = Ball { x: 100, y: 100, speed_x: 7, speed_y: -7, radius: 20 };
    let mut player = 0;
    let mut cpu = 0;
    b.tick(&mut player, &mut cpu, 0, 0);
    assert_eq!(b, Ball { x: 107, y: 93, speed_x: 7, speed_y: -7, radius: 20 });
    assert_eq!((player, cpu), (0, 0));
}

#[test]
fn ball_bounces_off_top_and_bottom() {
    let mut top = Ball { x: 300, y: 20, speed_x: 7, speed_y: -7, radius: 20 };
    let mut bottom = Ball { x: 300, y: 785, speed_x: -7, speed_y: 7, radius: 20 };
    let mut player = 0;
    let mut cpu = 0;
    top.tick(&mut player, &mut cpu, 0, 0);
    bottom.tick(&mut player, &mut cpu, 0, 0);
    assert_eq!(top, Ball { x: 307, y: 27, speed_x: 7, speed_y: 7, radius: 20 });
    assert_eq!(bottom, Ball { x: 293, y: 778, speed_x: -7, speed_y: -7, radius: 20 });
    assert_eq!((player, cpu), (0, 0));
}

#[test]
fn reset_picks_each_axis_independently() {
    let mut b = Ball { x: 5, y: 6, speed_x: 7, speed_y: 7, radius: 20 };
    b.reset_ball(0, 1);
    assert_eq!(b, Ball { x: 640, y: 400, speed_x: -7, speed_y: 7, radius: 20 });
    b.reset_ball(1, 0);
    assert_eq!((b.speed_x, b.speed_y), (7, -7));
    b.reset_ball(0, 0);
    assert_eq!((b.speed_x, b.speed_y), (-7, -7));
    b.reset_ball(1, 1);
    assert_eq!((b.speed_x, b.speed_y), (7, 7));
}

#[test]
fn up_at_top_stays_at_zero() {
    let mut p = paddle_at(0);
    p.tick(true, false);
    assert_eq!(p.y, 0);
}

#[test]
fn down_at_bottom_stays_at_limit() {
    let mut p = paddle_at(678);
    p.tick(false, true);
    assert_eq!(p.y, SCREEN_HEIGHT - 120);
}

#[test]
fn player_paddle_moves_by_its_speed() {
    let mut p = paddle_at(300);
    p.tick(true, false);
    assert_eq!(p.y, 294);
    p.tick(false, true);
    assert_eq!(p.y, 300);
    p.tick(false, false);
    assert_eq!(p.y, 300);
    p.tick(true, true);
    assert_eq!(p.y, 294);
}

#[test]
fn limit_movement_clamps_both_ways() {
    let mut p = paddle_at(-40);
    p.limit_movement();
    assert_eq!(p.y, 0);
    let mut q = paddle_at(900);
    q.limit_movement();
    assert_eq!(q.y, 680);
    let mut r = paddle_at(250);
    r.limit_movement();
    assert_eq!(r.y, 250);
}

#[test]
fn player_paddle_default() {
    assert_eq!(PlayerPaddle::default(), paddle_at(10));
}

#[test]
fn cpu_paddle_default() {
    assert_eq!(CPUPaddle::default().base, paddle_at(400));
}

#[test]
fn cpu_level_with_ball_moves_down() {
    let mut c = CPUPaddle { base: paddle_at(340) };
    c.tick(400);
    assert_eq!(c.base.y, 346);
}

#[test]
fn cpu_below_ball_moves_up() {
    let mut c = CPUPaddle { base: paddle_at(340) };
    c.tick(399);
    assert_eq!(c.base.y, 334);
}

#[test]
fn cpu_half_pixel_centre_is_compared_exactly() {
    let mut c = CPUPaddle { base: PlayerPaddle { x: 10, y: 100, w: 25, h: 121, speed: 6 } };
    c.tick(160);
    assert_eq!(c.base.y, 94);
    let mut d = CPUPaddle { base: PlayerPaddle { x: 10, y: 100, w: 25, h: 121, speed: 6 } };
    d.tick(161);
    assert_eq!(d.base.y, 106);
}

#[test]
fn cpu_paddle_is_clamped() {
    let mut c = CPUPaddle { base: paddle_at(2) };
    c.tick(0);
    assert_eq!(c.base.y, 0);
    let mut d = CPUPaddle { base: paddle_at(678) };
    d.tick(800);
    assert_eq!(d.base.y, 680);
}

#[test]
fn game_starts_with_paddles_placed() {
    let g = Game::new();
    assert_eq!(g.ball, Ball::default());
    assert_eq!(g.player, PlayerPaddle { x: 1245, y: 340, w: 25, h: 120, speed: 6 });
    assert_eq!(g.cpu_paddle.base, paddle_at(400));
    assert_eq!((g.player_score, g.cpu_score), (0, 0));
}

#[test]
fn game_update_moves_everything() {
    let mut g = Game::new();
    g.update(true, false, 0, 0);
    assert_eq!(g.ball, Ball { x: 647, y: 407, speed_x: 7, speed_y: 7, radius: 20 });
    assert_eq!(g.player.y, 334);
    assert_eq!(g.cpu_paddle.base.y, 394);
}

#[test]
fn overlapping_both_paddles_leaves_speed() {
    let mut g = Game::new();
    let before = g;
    g.resolve_collisions(true, true);
    assert_eq!(g, before);
}

#[test]
fn overlapping_one_paddle_reverses_speed() {
    let mut g = Game::new();
    g.resolve_collisions(true, false);
    assert_eq!(g.ball.speed_x, -7);
    g.resolve_collisions(false, true);
    assert_eq!(g.ball.speed_x, 7);
    g.resolve_collisions(false, false);
    assert_eq!(g.ball.speed_x, 7);
}

#[test]
fn long_match_keeps_bounds() {
    let mut g = Game::new();
    let mut seed: u32 = 12345;
    for frame in 0..20000u32 {
        seed = seed.wrapping_mul(1103515245).wrapping_add(12345);
        let bits = seed >> 16;
        let up = bits & 1 == 1;
        let down = bits & 2 == 2;
        let pick_x = ((bits >> 2) & 1) as i32;
        let pick_y = ((bits >> 3) & 1) as i32;
        g.update(up, down, pick_x, pick_y);
        let hit_player = frame % 97 == 0;
        let hit_cpu = frame % 89 == 0;
        g.resolve_collisions(hit_player, hit_cpu);
        assert!(0 <= g.player.y && g.player.y <= SCREEN_HEIGHT - g.player.h);
        assert!(0 <= g.cpu_paddle.base.y && g.cpu_paddle.base.y <= SCREEN_HEIGHT - g.cpu_paddle.base.h);
        assert_eq!(g.ball.speed_x.abs(), BALL_SPEED);
        assert_eq!(g.ball.speed_y.abs(), BALL_SPEED);
    }
    assert!(g.player_score + g.cpu_score > 0);
}
