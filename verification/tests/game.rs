use snake::consts::{HEIGHT, WIDTH};
use snake::difficulties::Difficulty;
use snake::input::Key;
use snake::moveobj::Move;
use snake::position::Position;
use snake::render::{Color, DrawCommand};
use snake::state::{GameEvent, StateInfo};
use std::time::Instant;

const MS: u128 = 1_000_000;
const SEC: u128 = 1_000_000_000;
const FAR: Position = Position { x: 50, y: 30 };

fn at(x: i32, y: i32) -> Position {
    Position::new(x, y)
}

fn game_with_food(food: Position) -> StateInfo {
    StateInfo::with_start(Difficulty::Normal, Instant::now(), food)
}

fn set(cell: Position, fg: Color, glyph: char) -> DrawCommand {
    DrawCommand::SetCell { x: cell.x, y: cell.y, fg, bg: Color::Black, glyph }
}

fn score_commands(score: &str) -> Vec<DrawCommand> {
    vec![
        DrawCommand::Print { x: 93, y: 0, text: String::from("    ") },
        DrawCommand::Print { x: 93, y: 0, text: String::from(score) },
    ]
}

/// Runs ticks 40 ms apart with the given keys, starting at `*now + 40 ms`;
/// every tick must let the game continue.
fn drive(game: &mut StateInfo, now: &mut u128, keys: &[Option<Key>], fresh: Position) {
    for key in keys {
        *now += 40 * MS;
        assert!(game.has_room());
        let (event, _) = game.advance(*key, *now, fresh);
        assert_eq!(event, GameEvent::Continue);
    }
}

/// A game whose snake has a tail of four cells and whose head has just
/// come back to (10, 10), a cell of that tail.
fn game_with_head_on_tail() -> (StateInfo, u128) {
    let mut game = game_with_food(at(6, 5));
    let mut now = 0;
    drive(&mut game, &mut now, &[None], at(7, 5));
    drive(&mut game, &mut now, &[None], at(7, 5));
    drive(&mut game, &mut now, &[None], at(8, 5));
    drive(&mut game, &mut now, &[None], at(9, 5));
    drive(&mut game, &mut now, &[None], FAR);
    assert_eq!(game.head(), at(10, 5));
    assert_eq!(game.score(), 4);
    assert_eq!(game.tail().len(), 4);
    drive(&mut game, &mut now, &[Some(Key::S), None, None, None, None], FAR);
    assert_eq!(game.head(), at(10, 10));
    drive(
        &mut game,
        &mut now,
        &[Some(Key::D), Some(Key::S), Some(Key::A), Some(Key::W)],
        FAR,
    );
    (game, now)
}

#[test]
fn a_new_game_starts_at_the_same_place() {
    let start = Instant::now();
    let game = StateInfo::with_start(Difficulty::Hard, start, at(20, 30));
    assert_eq!(game.start(), start);
    assert_eq!(game.head(), at(5, 5));
    assert_eq!(game.food(), at(20, 30));
    assert_eq!(game.direction(), Move::Right);
    assert_eq!(game.score(), 0);
    assert_eq!(game.tail().len(), 0);
    assert_eq!(game.tail().iter(), vec![]);
    assert_eq!(game.last_move(), 0);
    assert_eq!(game.food_spawn_time(), 0);
    assert!(game.has_room());
}

#[test]
fn a_new_game_has_random_food_in_the_food_area() {
    for _ in 0..200 {
        let game = StateInfo::new(Difficulty::Easy);
        let food = game.food();
        assert!(2 <= food.x && food.x < WIDTH - 2);
        assert!(2 <= food.y && food.y < HEIGHT - 2);
        assert_eq!(game.head(), at(5, 5));
        assert_eq!(game.score(), 0);
        assert_eq!(game.direction(), Move::Right);
    }
}

#[test]
fn no_step_before_the_interval_is_over() {
    let mut game = game_with_food(FAR);
    let (event, frame) = game.advance(None, 39 * MS + 999_999, FAR);
    assert_eq!(event, GameEvent::Continue);
    assert_eq!(game.head(), at(5, 5));
    assert_eq!(game.last_move(), 0);
    let mut expected = score_commands("0");
    expected.push(set(FAR, Color::Red, 'o'));
    expected.push(set(at(5, 5), Color::Green, '@'));
    assert_eq!(frame, expected);
}

#[test]
fn a_step_once_the_interval_is_over() {
    let mut game = game_with_food(FAR);
    let (event, frame) = game.advance(None, 40 * MS, FAR);
    assert_eq!(event, GameEvent::Continue);
    assert_eq!(game.head(), at(6, 5));
    assert_eq!(game.last_move(), 40 * MS);
    assert_eq!(game.tail().iter(), vec![]);
    let mut expected = score_commands("0");
    expected.push(set(FAR, Color::Red, 'o'));
    expected.push(set(at(5, 5), Color::Green, ' '));
    expected.push(set(at(6, 5), Color::Green, '@'));
    expected.push(set(at(6, 5), Color::Green, '@'));
    assert_eq!(frame, expected);
}

#[test]
fn the_interval_depends_on_the_difficulty() {
    let mut easy = StateInfo::with_start(Difficulty::Easy, Instant::now(), FAR);
    easy.advance(None, 54 * MS, FAR);
    assert_eq!(easy.head(), at(5, 5));
    easy.advance(None, 55 * MS, FAR);
    assert_eq!(easy.head(), at(6, 5));

    let mut extreme = StateInfo::with_start(Difficulty::Extreme2, Instant::now(), FAR);
    extreme.advance(None, 15 * MS, FAR);
    assert_eq!(extreme.head(), at(5, 5));
    extreme.advance(None, 16 * MS, FAR);
    assert_eq!(extreme.head(), at(6, 5));
}

#[test]
fn steps_are_counted_from_the_last_step() {
    let mut game = game_with_food(FAR);
    game.advance(None, 100 * MS, FAR);
    assert_eq!(game.head(), at(6, 5));
    game.advance(None, 139 * MS, FAR);
    assert_eq!(game.head(), at(6, 5));
    game.advance(None, 140 * MS, FAR);
    assert_eq!(game.head(), at(7, 5));
}

#[test]
fn a_long_wait_is_one_step() {
    let mut game = game_with_food(FAR);
    game.advance(None, 4 * SEC, FAR);
    assert_eq!(game.head(), at(6, 5));
    game.advance(None, 4 * SEC + MS, FAR);
    assert_eq!(game.head(), at(6, 5));
}

#[test]
fn a_clock_that_runs_backwards_moves_nothing() {
    let mut game = game_with_food(FAR);
    game.advance(None, 100 * MS, FAR);
    assert_eq!(game.head(), at(6, 5));
    let (event, _) = game.advance(None, 10 * MS, FAR);
    assert_eq!(event, GameEvent::Continue);
    assert_eq!(game.head(), at(6, 5));
    assert_eq!(game.score(), 0);
}

#[test]
fn movement_keys_turn_the_snake() {
    for (key, direction, head) in [
        (Key::W, Move::Up, at(5, 4)),
        (Key::Up, Move::Up, at(5, 4)),
        (Key::S, Move::Down, at(5, 6)),
        (Key::Down, Move::Down, at(5, 6)),
        (Key::D, Move::Right, at(6, 5)),
        (Key::Right, Move::Right, at(6, 5)),
    ] {
        let mut game = game_with_food(FAR);
        game.advance(Some(key), 40 * MS, FAR);
        assert_eq!(game.direction(), direction);
        assert_eq!(game.head(), head);
    }
}

#[test]
fn the_snake_does_not_turn_round() {
    for key in [Key::A, Key::Left] {
        let mut game = game_with_food(FAR);
        let (event, _) = game.advance(Some(key), 40 * MS, FAR);
        assert_eq!(event, GameEvent::Continue);
        assert_eq!(game.direction(), Move::Right);
        assert_eq!(game.head(), at(6, 5));
    }
}

#[test]
fn no_direction_can_be_reversed() {
    let turns = [
        (Key::W, Move::Up, [Key::S, Key::Down]),
        (Key::S, Move::Down, [Key::W, Key::Up]),
    ];
    for (first, direction, reverse) in turns {
        for key in reverse {
            let mut game = game_with_food(FAR);
            game.advance(Some(first), MS, FAR);
            assert_eq!(game.direction(), direction);
            game.advance(Some(key), 2 * MS, FAR);
            assert_eq!(game.direction(), direction);
        }
    }
    for key in [Key::D, Key::Right] {
        let mut game = game_with_food(FAR);
        game.advance(Some(Key::W), MS, FAR);
        game.advance(Some(Key::A), 2 * MS, FAR);
        assert_eq!(game.direction(), Move::Left);
        game.advance(Some(key), 3 * MS, FAR);
        assert_eq!(game.direction(), Move::Left);
    }
}

#[test]
fn a_turn_takes_effect_without_a_step() {
    let mut game = game_with_food(FAR);
    game.advance(Some(Key::W), MS, FAR);
    assert_eq!(game.direction(), Move::Up);
    assert_eq!(game.head(), at(5, 5));
}

#[test]
fn keys_without_meaning_change_nothing() {
    for key in [Key::Return, Key::Other] {
        let mut game = game_with_food(FAR);
        let (event, _) = game.advance(Some(key), MS, FAR);
        assert_eq!(event, GameEvent::Continue);
        assert_eq!(game.direction(), Move::Right);
        assert_eq!(game.head(), at(5, 5));
    }
}

#[test]
fn eating_scores_one_and_grows_the_tail_by_one() {
    let mut game = game_with_food(at(6, 5));
    game.advance(None, 40 * MS, FAR);
    assert_eq!(game.head(), at(6, 5));
    assert_eq!(game.score(), 0);
    assert_eq!(game.food(), at(6, 5));

    let (event, frame) = game.advance(None, 50 * MS, at(20, 21));
    assert_eq!(event, GameEvent::Continue);
    assert_eq!(game.score(), 1);
    assert_eq!(game.tail().len(), 1);
    assert_eq!(game.tail().iter(), vec![]);
    assert_eq!(game.food(), at(20, 21));
    assert_eq!(game.food_spawn_time(), 50 * MS);
    assert_eq!(game.head(), at(6, 5));
    let mut expected = score_commands("1");
    expected.push(set(at(20, 21), Color::Red, 'o'));
    expected.push(set(at(6, 5), Color::Green, '@'));
    assert_eq!(frame, expected);
}

#[test]
fn the_tail_follows_the_head() {
    let mut game = game_with_food(at(6, 5));
    game.advance(None, 40 * MS, FAR);
    game.advance(None, 50 * MS, FAR);
    let (_, frame) = game.advance(None, 80 * MS, FAR);
    assert_eq!(game.head(), at(7, 5));
    assert_eq!(game.tail().iter(), vec![at(6, 5)]);
    let mut expected = score_commands("1");
    expected.push(set(FAR, Color::Red, 'o'));
    expected.push(set(at(6, 5), Color::Green, ' '));
    expected.push(set(at(7, 5), Color::Green, '@'));
    expected.push(set(at(7, 5), Color::Green, '@'));
    expected.push(set(at(6, 5), Color::Green, 'x'));
    assert_eq!(frame, expected);

    let (_, frame) = game.advance(None, 120 * MS, FAR);
    assert_eq!(game.head(), at(8, 5));
    assert_eq!(game.tail().iter(), vec![at(7, 5)]);
    let mut expected = score_commands("1");
    expected.push(set(FAR, Color::Red, 'o'));
    expected.push(DrawCommand::SetCell {
        x: 6,
        y: 5,
        fg: Color::Black,
        bg: Color::Black,
        glyph: ' ',
    });
    expected.push(set(at(7, 5), Color::Green, ' '));
    expected.push(set(at(8, 5), Color::Green, '@'));
    expected.push(set(at(8, 5), Color::Green, '@'));
    expected.push(set(at(7, 5), Color::Green, 'x'));
    assert_eq!(frame, expected);
}

#[test]
fn eating_and_stepping_in_one_tick() {
    let mut game = game_with_food(at(6, 5));
    game.advance(None, 40 * MS, FAR);
    let (event, _) = game.advance(None, 80 * MS, at(9, 9));
    assert_eq!(event, GameEvent::Continue);
    assert_eq!(game.score(), 1);
    assert_eq!(game.tail().len(), 1);
    assert_eq!(game.tail().iter(), vec![at(6, 5)]);
    assert_eq!(game.head(), at(7, 5));
    assert_eq!(game.food(), at(9, 9));
}

#[test]
fn food_expires_after_its_lifetime() {
    let food = at(40, 20);
    let mut game = game_with_food(food);
    let (event, frame) = game.advance(None, 10 * SEC, at(30, 31));
    assert_eq!(event, GameEvent::Continue);
    assert_eq!(game.score(), -2);
    assert_eq!(game.food(), at(30, 31));
    assert_eq!(game.food_spawn_time(), 10 * SEC);
    assert_eq!(game.tail().len(), 0);
    let mut expected = vec![DrawCommand::SetCell {
        x: 40,
        y: 20,
        fg: Color::Black,
        bg: Color::Black,
        glyph: ' ',
    }];
    expected.extend(score_commands("-2"));
    expected.push(set(at(30, 31), Color::Red, 'o'));
    expected.push(set(at(5, 5), Color::Green, ' '));
    expected.push(set(at(6, 5), Color::Green, '@'));
    expected.push(set(at(6, 5), Color::Green, '@'));
    assert_eq!(frame, expected);
}

#[test]
fn food_stays_until_its_lifetime_is_over() {
    let food = at(40, 20);
    let mut game = game_with_food(food);
    game.advance(None, 10 * SEC - 1, at(30, 31));
    assert_eq!(game.score(), 0);
    assert_eq!(game.food(), food);
    assert_eq!(game.food_spawn_time(), 0);
}

#[test]
fn food_expires_again_and_again() {
    let mut game = game_with_food(at(40, 20));
    game.advance(Some(Key::S), 10 * SEC, at(30, 31));
    assert_eq!(game.score(), -2);
    game.advance(None, 19 * SEC, at(32, 33));
    assert_eq!(game.score(), -2);
    assert_eq!(game.food(), at(30, 31));
    game.advance(None, 20 * SEC, at(32, 33));
    assert_eq!(game.score(), -4);
    assert_eq!(game.food(), at(32, 33));
}

#[test]
fn the_lifetime_depends_on_the_difficulty() {
    let mut game = StateInfo::with_start(Difficulty::Extreme, Instant::now(), at(40, 20));
    game.advance(None, 7 * SEC - 1, FAR);
    assert_eq!(game.score(), 0);
    game.advance(None, 7 * SEC, FAR);
    assert_eq!(game.score(), -2);
}

#[test]
fn eaten_food_does_not_expire_in_the_same_tick() {
    let mut game = game_with_food(at(6, 5));
    game.advance(None, 40 * MS, FAR);
    game.advance(None, 30 * SEC, at(9, 9));
    assert_eq!(game.score(), 1);
    assert_eq!(game.food(), at(9, 9));
    assert_eq!(game.food_spawn_time(), 30 * SEC);
}

#[test]
fn self_collision_ends_the_game() {
    let (mut game, now) = game_with_head_on_tail();
    assert_eq!(game.head(), at(10, 10));
    assert!(game.tail().contains(at(10, 10)));
    assert_eq!(
        game.tail().iter(),
        vec![at(10, 10), at(11, 10), at(11, 11), at(10, 11)]
    );
    let before = game.clone();
    let (event, frame) = game.advance(None, now + 40 * MS, FAR);
    assert_eq!(event, GameEvent::End);
    assert_eq!(frame, vec![]);
    assert_eq!(game, before);
}

#[test]
fn self_collision_ends_the_game_whatever_the_key() {
    for key in [Key::W, Key::A, Key::S, Key::D, Key::Escape, Key::Return, Key::Other] {
        let (mut game, now) = game_with_head_on_tail();
        let before = game.clone();
        let (event, frame) = game.advance(Some(key), now + MS, FAR);
        assert_eq!(event, GameEvent::End);
        assert_eq!(frame, vec![]);
        assert_eq!(game, before);
    }
}

#[test]
fn the_right_border_ends_the_game() {
    let mut game = game_with_food(FAR);
    let mut now = 0;
    drive(&mut game, &mut now, &[None; 94], FAR);
    assert_eq!(game.head(), at(WIDTH - 1, 5));
    let before = game.clone();
    let (event, frame) = game.advance(None, now + 40 * MS, FAR);
    assert_eq!(event, GameEvent::End);
    assert_eq!(frame, vec![]);
    assert_eq!(game, before);
}

#[test]
fn the_top_border_ends_the_game() {
    let mut game = game_with_food(FAR);
    let mut now = 0;
    drive(&mut game, &mut now, &[Some(Key::W), None, None, None, None], FAR);
    assert_eq!(game.head(), at(5, 0));
    let (event, _) = game.advance(None, now + MS, FAR);
    assert_eq!(event, GameEvent::End);
    assert_eq!(game.head(), at(5, 0));
}

#[test]
fn the_left_border_ends_the_game() {
    let mut game = game_with_food(FAR);
    let mut now = 0;
    drive(
        &mut game,
        &mut now,
        &[Some(Key::W), Some(Key::A), None, None, None, None],
        FAR,
    );
    assert_eq!(game.head(), at(0, 4));
    let (event, _) = game.advance(Some(Key::D), now + MS, FAR);
    assert_eq!(event, GameEvent::End);
    assert_eq!(game.head(), at(0, 4));
}

#[test]
fn the_bottom_border_ends_the_game() {
    let mut game = game_with_food(FAR);
    let mut now = 0;
    let mut keys = vec![Some(Key::Down)];
    keys.extend([None; 49]);
    drive(&mut game, &mut now, &keys, FAR);
    assert_eq!(game.head(), at(5, HEIGHT - 1));
    let (event, _) = game.advance(None, now + MS, FAR);
    assert_eq!(event, GameEvent::End);
}

#[test]
fn the_border_is_checked_at_every_tick() {
    let mut game = game_with_food(FAR);
    let mut now = 0;
    drive(&mut game, &mut now, &[None; 94], FAR);
    let (event, _) = game.advance(None, now, FAR);
    assert_eq!(event, GameEvent::End);
}

#[test]
fn escape_pauses_without_a_step() {
    let mut game = game_with_food(FAR);
    let before = game.clone();
    let (event, frame) = game.advance(Some(Key::Escape), 40 * MS, FAR);
    assert_eq!(event, GameEvent::Pause);
    assert_eq!(game, before);
    let mut expected = score_commands("0");
    expected.push(set(FAR, Color::Red, 'o'));
    assert_eq!(frame, expected);
}

#[test]
fn the_pausing_tick_still_eats() {
    let mut game = game_with_food(at(6, 5));
    game.advance(None, 40 * MS, FAR);
    let (event, _) = game.advance(Some(Key::Escape), 80 * MS, at(9, 9));
    assert_eq!(event, GameEvent::Pause);
    assert_eq!(game.score(), 1);
    assert_eq!(game.tail().len(), 1);
    assert_eq!(game.head(), at(6, 5));
    assert_eq!(game.last_move(), 40 * MS);
}

#[test]
fn a_paused_game_resumes_on_return_only() {
    let game = game_with_food(FAR);
    assert_eq!(game.pased_tick(Some(Key::Return)), GameEvent::Continue);
    assert_eq!(game.pased_tick(None), GameEvent::Pause);
    for key in [Key::W, Key::A, Key::S, Key::D, Key::Up, Key::Escape, Key::Other] {
        assert_eq!(game.pased_tick(Some(key)), GameEvent::Pause);
    }
}

#[test]
fn a_tick_by_the_clock() {
    let mut game = StateInfo::new(Difficulty::Normal);
    while game.food() == game.head() {
        game = StateInfo::new(Difficulty::Normal);
    }
    let food = game.food();
    assert!(game.has_room());
    let (event, frame) = game.game_tick(None);
    assert_eq!(event, GameEvent::Continue);
    assert_eq!(game.score(), 0);
    assert_eq!(game.food(), food);
    assert_eq!(game.direction(), Move::Right);
    assert!(game.head() == at(5, 5) || game.head() == at(6, 5));
    assert_eq!(frame[0], DrawCommand::Print { x: 93, y: 0, text: String::from("    ") });
    assert_eq!(frame[1], DrawCommand::Print { x: 93, y: 0, text: String::from("0") });
    assert_eq!(frame[2], set(food, Color::Red, 'o'));
}

#[test]
fn ticks_by_the_clock_move_the_snake_in_time() {
    let mut game = StateInfo::new(Difficulty::Extreme2);
    let mut steps = 0;
    while game.start().elapsed().as_millis() < 200 {
        let before = game.head();
        assert!(game.has_room());
        let (event, _) = game.game_tick(Some(Key::S));
        assert_eq!(event, GameEvent::Continue);
        assert_eq!(game.direction(), Move::Down);
        if game.head() != before {
            assert_eq!(game.head(), at(before.x, before.y + 1));
            steps += 1;
        }
    }
    let played = game.start().elapsed().as_millis();
    assert!(steps >= 2);
    assert!(steps as u128 * 16 <= played);
    assert_eq!(game.head(), at(5, 5 + steps));
    assert!(game.last_move() / MS >= 16 * steps as u128);
}

#[test]
fn a_pause_by_the_clock() {
    let mut game = StateInfo::new(Difficulty::Normal);
    let (event, _) = game.game_tick(Some(Key::Escape));
    assert_eq!(event, GameEvent::Pause);
    assert_eq!(game.head(), at(5, 5));
}

#[test]
fn room_for_the_score() {
    let mut game = game_with_food(at(40, 20));
    let mut now = 0;
    for _ in 0..63 {
        now += 10 * SEC;
        assert!(game.has_room());
        game.advance(Some(Key::Escape), now, at(40, 20));
    }
    assert_eq!(game.score(), -126);
    assert!(game.has_room());
    game.advance(Some(Key::Escape), now + 10 * SEC, at(40, 20));
    assert_eq!(game.score(), -128);
    assert!(!game.has_room());
}

#[test]
fn setup_screen_draws_the_field() {
    assert_eq!(
        StateInfo::setup_screen(),
        vec![
            DrawCommand::Clear,
            DrawCommand::DrawBox {
                x0: 0,
                y0: 0,
                x1: 99,
                y1: 55,
                fg: Color::White,
                bg: Color::Black,
            },
            DrawCommand::Print { x: 85, y: 0, text: String::from("[Score:     ]") },
        ]
    );
}

#[test]
fn setup_paused_screen_draws_the_pause() {
    assert_eq!(
        StateInfo::setup_paused_screen(),
        vec![
            DrawCommand::Clear,
            DrawCommand::PrintColorCentered {
                row: 27,
                fg: Color::Orange,
                bg: Color::Black,
                text: String::from("Paused"),
            },
            DrawCommand::PrintCentered {
                row: 28,
                text: String::from("Press [Enter] to resume game."),
            },
        ]
    );
}
