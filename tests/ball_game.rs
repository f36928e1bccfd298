use ball_bounce::{
    create_game, next, Action, Ball, Frame, Game, HorizDir, Input, Mode, SizeError, VertDir,
};

fn frame(width: i32, height: i32) -> Frame {
    Frame { width, height }
}

fn ball(x: i32, y: i32, horiz_dir: HorizDir, vert_dir: VertDir) -> Ball {
    Ball { x, y, vert_dir, horiz_dir }
}

#[test]
fn default_ball_state() {
    let b = Ball::default();
    assert_eq!(b, ball(3, 5, HorizDir::Left, VertDir::Up));
}

#[test]
fn new_game_and_first_step() {
    let mut g = Game::new(frame(20, 20));
    assert_eq!(g.ball, ball(3, 5, HorizDir::Left, VertDir::Up));
    assert_eq!(g.frame, frame(20, 20));
    g.step();
    assert_eq!(g.ball, ball(2, 4, HorizDir::Left, VertDir::Up));
}

#[test]
fn bounce_left_wall() {
    let mut b = ball(1, 7, HorizDir::Left, VertDir::Down);
    b.bounce(&frame(20, 20));
    assert_eq!(b, ball(1, 7, HorizDir::Right, VertDir::Down));
}

#[test]
fn bounce_right_wall() {
    let mut b = ball(22, 7, HorizDir::Right, VertDir::Up);
    b.bounce(&frame(20, 20));
    assert_eq!(b, ball(22, 7, HorizDir::Left, VertDir::Up));
}

#[test]
fn bounce_top_wall() {
    let mut b = ball(6, 1, HorizDir::Right, VertDir::Up);
    b.bounce(&frame(20, 15));
    assert_eq!(b, ball(6, 1, HorizDir::Right, VertDir::Down));
}

#[test]
fn bounce_bottom_wall() {
    let mut b = ball(6, 17, HorizDir::Left, VertDir::Down);
    b.bounce(&frame(20, 15));
    assert_eq!(b, ball(6, 17, HorizDir::Left, VertDir::Up));
}

#[test]
fn bounce_away_from_walls_keeps_directions() {
    let mut b = ball(5, 5, HorizDir::Left, VertDir::Down);
    b.bounce(&frame(20, 20));
    assert_eq!(b, ball(5, 5, HorizDir::Left, VertDir::Down));
}

#[test]
fn move_each_direction() {
    let mut b = ball(5, 5, HorizDir::Right, VertDir::Down);
    b.mv();
    assert_eq!(b, ball(6, 6, HorizDir::Right, VertDir::Down));
    let mut b = ball(5, 5, HorizDir::Left, VertDir::Up);
    b.mv();
    assert_eq!(b, ball(4, 4, HorizDir::Left, VertDir::Up));
}

#[test]
fn corner_step() {
    let mut g = Game::new(frame(20, 20));
    g.ball = ball(1, 1, HorizDir::Left, VertDir::Up);
    g.step();
    assert_eq!(g.ball, ball(2, 2, HorizDir::Right, VertDir::Down));
}

#[test]
fn bottom_right_corner_step() {
    let mut g = Game::new(frame(10, 12));
    g.ball = ball(12, 14, HorizDir::Right, VertDir::Down);
    g.step();
    assert_eq!(g.ball, ball(11, 13, HorizDir::Left, VertDir::Up));
}

#[test]
fn ball_stays_inside_smallest_frame() {
    let mut g = Game::new(frame(10, 10));
    for _ in 0..1000 {
        g.step();
        assert!(1 <= g.ball.x && g.ball.x <= 12);
        assert!(1 <= g.ball.y && g.ball.y <= 12);
    }
}

#[test]
fn ball_stays_inside_wide_frame() {
    let mut g = Game::new(frame(37, 11));
    for _ in 0..5000 {
        g.step();
        assert!(1 <= g.ball.x && g.ball.x <= 39);
        assert!(1 <= g.ball.y && g.ball.y <= 13);
    }
}

#[test]
fn steps_are_deterministic() {
    let mut a = Game::new(frame(23, 17));
    let mut b = Game::new(frame(23, 17));
    for _ in 0..777 {
        a.step();
        b.step();
        assert_eq!(a, b);
    }
    let mut c = Game::new(frame(23, 17));
    for _ in 0..777 {
        c.step();
    }
    assert_eq!(a, c);
}

#[test]
fn trajectory_returns_to_start() {
    // In a 10x10 frame the ball moves between 1 and 12 on each axis, so the
    // path repeats every 22 ticks.
    let start = Game::new(frame(10, 10));
    let mut g = start;
    for _ in 0..22 {
        g.step();
    }
    assert_eq!(g, start);
}

#[test]
fn resize_resets_ball() {
    let mut g = Game::new(frame(20, 20));
    for _ in 0..13 {
        g.step();
    }
    assert_ne!(g.ball, Ball::default());
    g = create_game(30, 40).unwrap();
    assert_eq!(g.ball, ball(3, 5, HorizDir::Left, VertDir::Up));
    assert_eq!(g.frame, frame(36, 26));
}

#[test]
fn create_game_from_window_size() {
    let g = create_game(24, 80).unwrap();
    assert_eq!(g, Game::new(frame(76, 20)));
}

#[test]
fn create_game_smallest_window() {
    let g = create_game(14, 14).unwrap();
    assert_eq!(g.frame, frame(10, 10));
}

#[test]
fn create_game_rejects_narrow_window() {
    assert_eq!(create_game(30, 13), Err(SizeError { width: 9, height: 26 }));
}

#[test]
fn create_game_rejects_low_window() {
    assert_eq!(create_game(13, 30), Err(SizeError { width: 26, height: 9 }));
}

#[test]
fn create_game_rejects_tiny_window() {
    assert_eq!(create_game(0, 0), Err(SizeError { width: -4, height: -4 }));
    assert_eq!(
        create_game(i32::MIN, 20),
        Err(SizeError { width: 16, height: i32::MIN as i64 - 4 })
    );
}

#[test]
fn running_q_quits() {
    assert_eq!(next(Mode::Running, Input::Key('q')), (Mode::Running, Action::Quit));
}

#[test]
fn running_p_or_space_pauses() {
    assert_eq!(next(Mode::Running, Input::Key('p')), (Mode::Paused, Action::Wait));
    assert_eq!(next(Mode::Running, Input::Key(' ')), (Mode::Paused, Action::Wait));
}

#[test]
fn running_resize_rebuilds() {
    assert_eq!(next(Mode::Running, Input::Resize), (Mode::Running, Action::Rebuild));
}

#[test]
fn running_other_input_ticks() {
    assert_eq!(next(Mode::Running, Input::Key('x')), (Mode::Running, Action::Tick));
    assert_eq!(next(Mode::Running, Input::Key('Q')), (Mode::Running, Action::Tick));
    assert_eq!(next(Mode::Running, Input::OtherKey), (Mode::Running, Action::Tick));
    assert_eq!(next(Mode::Running, Input::Nothing), (Mode::Running, Action::Tick));
}

#[test]
fn paused_waits_for_input() {
    assert_eq!(next(Mode::Paused, Input::Nothing), (Mode::Paused, Action::Wait));
}

#[test]
fn paused_any_input_resumes() {
    for i in [
        Input::Key('q'),
        Input::Key('p'),
        Input::Key(' '),
        Input::Key('a'),
        Input::OtherKey,
        Input::Resize,
    ] {
        assert_eq!(next(Mode::Paused, i), (Mode::Running, Action::Tick));
    }
}

#[test]
fn pause_then_resume_sequence() {
    let mut mode = Mode::Running;
    let mut ticks: u32 = 0;
    let inputs = [
        Input::Nothing,
        Input::Key('p'),
        Input::Nothing,
        Input::Nothing,
        Input::Key('z'),
        Input::Nothing,
        Input::Key('q'),
    ];
    let mut last = Action::Tick;
    for i in inputs {
        let (m, a) = next(mode, i);
        mode = m;
        last = a;
        if a == Action::Tick {
            ticks += 1;
        }
    }
    assert_eq!(ticks, 3);
    assert_eq!(last, Action::Quit);
}
