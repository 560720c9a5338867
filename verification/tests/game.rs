use snake_game::game_context::context::{
    GameContext, GameState, PlayerDirection, Point, GRID_X_SIZE, GRID_Y_SIZE,
};

#[test]
fn initial_configuration() {
    let g = GameContext::new();
    assert_eq!(g.player_position, vec![Point(3, 1), Point(2, 1), Point(1, 1)]);
    assert_eq!(g.player_direction, PlayerDirection::Right);
    assert_eq!(g.food, Point(3, 3));
    assert_eq!(g.state, GameState::Playing);
}

#[test]
fn point_addition_is_componentwise() {
    let p = Point(3, -2).add(Point(-1, 7));
    assert_eq!(p, Point(2, 5));
}

#[test]
fn s1_straight_move() {
    let mut g = GameContext::new();
    g.next_tick();
    assert_eq!(g.player_position, vec![Point(4, 1), Point(3, 1), Point(2, 1)]);
    assert_eq!(g.player_direction, PlayerDirection::Right);
    assert_eq!(g.state, GameState::Playing);
    assert_eq!(g.food, Point(3, 3));
}

#[test]
fn s2_turn_then_move() {
    let mut g = GameContext::new();
    g.move_down();
    g.next_tick();
    assert_eq!(g.player_position, vec![Point(3, 2), Point(3, 1), Point(2, 1)]);
    assert_eq!(g.player_direction, PlayerDirection::Down);
}

#[test]
fn s3_eat() {
    let mut g = GameContext::new();
    g.move_down();
    g.next_tick();
    g.next_tick();
    assert_eq!(g.player_position[0], Point(3, 3));
    assert_eq!(g.food, Point(3, 3));
    g.feed_with(0);
    assert_eq!(g.player_position.len(), 4);
    assert_eq!(g.food, Point(3, 3));
}

#[test]
fn s4_wall_death() {
    let mut g = GameContext::new();
    g.move_up();
    g.next_tick();
    assert_eq!(g.player_position[0], Point(3, 0));
    assert_eq!(g.state, GameState::Playing);
    g.next_tick();
    assert_eq!(g.player_position[0], Point(3, -1));
    assert_eq!(g.state, GameState::GameOver);
    let body = g.player_position.clone();
    g.next_tick();
    g.next_tick();
    assert_eq!(g.player_position, body);
    assert_eq!(g.state, GameState::GameOver);
}

#[test]
fn s5_pause() {
    let mut g = GameContext::new();
    g.toggle_pause();
    assert_eq!(g.state, GameState::Paused);
    let body = g.player_position.clone();
    for _ in 0..10 {
        g.next_tick();
    }
    assert_eq!(g.player_position, body);
    assert_eq!(g.player_direction, PlayerDirection::Right);
    assert_eq!(g.food, Point(3, 3));
    g.toggle_pause();
    assert_eq!(g.state, GameState::Playing);
    g.next_tick();
    assert_eq!(g.player_position[0], Point(4, 1));
}

#[test]
fn s6_game_over_is_sticky() {
    let mut g = GameContext::new();
    g.move_up();
    g.next_tick();
    g.next_tick();
    assert_eq!(g.state, GameState::GameOver);
    g.toggle_pause();
    assert_eq!(g.state, GameState::GameOver);
}

#[test]
fn tick_preserves_length() {
    let mut g = GameContext::new();
    for _ in 0..20 {
        let before: usize = g.player_position.len();
        g.next_tick();
        assert_eq!(g.player_position.len(), before);
    }
}

#[test]
fn feed_off_food_is_a_noop() {
    let mut g = GameContext::new();
    assert_ne!(g.player_position[0], g.food);
    g.feed_with(17);
    assert_eq!(g.player_position, vec![Point(3, 1), Point(2, 1), Point(1, 1)]);
    assert_eq!(g.food, Point(3, 3));
    assert_eq!(g.state, GameState::Playing);
}

#[test]
fn feed_on_food_grows_by_exactly_one() {
    let mut g = GameContext::new();
    g.move_down();
    g.next_tick();
    g.next_tick();
    let before: usize = g.player_position.len();
    g.feed_with(7);
    assert_eq!(g.player_position.len(), before + 1);
    assert_eq!(g.food, Point((3 + 7) % 40, (3 + 7) % 30));
}

#[test]
fn head_advances_by_unit_vector() {
    let deltas = [
        (PlayerDirection::Up, 0, -1),
        (PlayerDirection::Down, 0, 1),
        (PlayerDirection::Left, -1, 0),
        (PlayerDirection::Right, 1, 0),
    ];
    for (dir, dx, dy) in deltas {
        let mut g = GameContext::new();
        match dir {
            PlayerDirection::Up => g.move_up(),
            PlayerDirection::Down => g.move_down(),
            PlayerDirection::Left => g.move_left(),
            PlayerDirection::Right => g.move_right(),
        }
        let old_head = g.player_position[0];
        g.next_tick();
        let new_head = g.player_position[0];
        assert_eq!(new_head.0 - old_head.0, dx);
        assert_eq!(new_head.1 - old_head.1, dy);
    }
}

#[test]
fn game_over_absorbs_ticks() {
    let mut g = GameContext::new();
    g.move_up();
    g.next_tick();
    g.next_tick();
    assert_eq!(g.state, GameState::GameOver);
    let body = g.player_position.clone();
    let food = g.food;
    for _ in 0..10 {
        g.next_tick();
        assert_eq!(g.player_position, body);
        assert_eq!(g.food, food);
        assert_eq!(g.state, GameState::GameOver);
    }
}

#[test]
fn food_stays_in_grid() {
    let mut g = GameContext::new();
    for r in [0, 1, 13, 29] {
        g.move_down();
        g.feed_with(r);
        g.next_tick();
        g.move_right();
        g.feed_with(29 - r);
        g.next_tick();
        assert!(g.food.0 >= 0 && g.food.0 < GRID_X_SIZE as i32);
        assert!(g.food.1 >= 0 && g.food.1 < GRID_Y_SIZE as i32);
    }
}

#[test]
fn feed_with_live_rng_keeps_food_in_grid() {
    for _ in 0..50 {
        let mut g = GameContext::new();
        g.move_down();
        g.next_tick();
        g.next_tick();
        assert_eq!(g.player_position[0], g.food);
        g.feed();
        assert_eq!(g.player_position.len(), 4);
        assert!(g.food.0 >= 3 && g.food.0 < 33);
        assert!(g.food.1 >= 0 && g.food.1 < GRID_Y_SIZE as i32);
    }
}

#[test]
fn instant_reversal_is_permitted() {
    let mut g = GameContext::new();
    g.move_left();
    g.next_tick();
    assert_eq!(g.player_position, vec![Point(2, 1), Point(3, 1), Point(2, 1)]);
    assert_eq!(g.state, GameState::Playing);
}
