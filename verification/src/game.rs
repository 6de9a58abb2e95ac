//! The simulation of a running game: one tick at a time.

use std::time::Instant;
use vstd::prelude::*;
use vstd::string::StringExecFns;
use crate::clock::{elapsed_millis, elapsed_secs, millis_between, nanos_since, secs_between};
use crate::consts::{
    FOOD_COL_END, FOOD_COL_START, FOOD_ROW_END, FOOD_ROW_START, HEIGHT, MIDDLE_ROW,
    SCORE_INDICATOR_OFFSET, WIDTH,
};
use crate::difficulties::Difficulty;
use crate::input::Key;
use crate::moveobj::Move;
use crate::position::Position;
use crate::random::choose_in_range;
use crate::render::{drawings, emit, Color, DrawCommand, Drawing};
use crate::tail::{Tail, TailView};
use crate::text::{push_signed_decimal, signed_decimal};

verus! {

/// How a tick of a running game ends.
#[derive(Debug, Clone, Copy, PartialEq, Eq, Structural)]
pub enum GameEvent {
    /// The snake ran into itself or into the border.
    End,
    /// The player asked for a pause.
    Pause,
    /// The game goes on.
    Continue,
}

/// Column at which the score is written into the top border.
pub const SCORE_COLUMN: i32 = WIDTH - SCORE_INDICATOR_OFFSET + 8;

/// What a running game consists of. Times are nanoseconds since `start`.
pub ghost struct GameView {
    pub start: Instant,
    pub move_interval: nat,
    pub food_lifetime: nat,
    pub head: Position,
    pub tail: TailView,
    pub food: Position,
    pub direction: Move,
    pub score: int,
    pub last_move: nat,
    pub food_spawn_time: nat,
}

/// The direction after a key press: the one the key asks for, unless the
/// key asks for none or for the exact opposite of the current one.
pub open spec fn steer(current: Move, key: Option<Key>) -> Move {
    match key {
        Some(k) => match k.direction() {
            Some(wish) => if wish == current.opposite() {
                current
            } else {
                wish
            },
            None => current,
        },
        None => current,
    }
}

/// The command that puts `glyph` on a black cell.
pub open spec fn cell(at: Position, fg: Color, glyph: char) -> Drawing {
    Drawing::SetCell { x: at.x as int, y: at.y as int, fg, bg: Color::Black, glyph }
}

/// The commands that put `glyph` on each of the cells, in their order.
pub open spec fn cells(at: Seq<Position>, fg: Color, glyph: char) -> Seq<Drawing> {
    at.map_values(|p: Position| cell(p, fg, glyph))
}

/// What is drawn when play begins or resumes: an empty screen, the border
/// of the field, and the frame of the score in the top border.
pub open spec fn play_field_frame() -> Seq<Drawing> {
    seq![
        Drawing::Clear,
        Drawing::DrawBox {
            x0: 0,
            y0: 0,
            x1: WIDTH - 1,
            y1: HEIGHT - 1,
            fg: Color::White,
            bg: Color::Black,
        },
        Drawing::Print { x: WIDTH - SCORE_INDICATOR_OFFSET, y: 0, text: "[Score:     ]"@ },
    ]
}

/// What is drawn when the game pauses.
pub open spec fn paused_frame() -> Seq<Drawing> {
    seq![
        Drawing::Clear,
        Drawing::PrintColorCentered {
            row: MIDDLE_ROW - 1,
            fg: Color::Orange,
            bg: Color::Black,
            text: "Paused"@,
        },
        Drawing::PrintCentered { row: MIDDLE_ROW as int, text: "Press [Enter] to resume game."@ },
    ]
}

/// What a tick of a paused game asks for: the confirm key resumes the
/// game, anything else leaves it paused.
pub open spec fn paused_event(key: Option<Key>) -> GameEvent {
    if key == Some(Key::Return) {
        GameEvent::Continue
    } else {
        GameEvent::Pause
    }
}

impl GameView {
    /// The game as it starts: the snake is a lone head that travels right,
    /// nothing has been scored, and both timers start at `start`.
    pub open spec fn fresh(difficulty: Difficulty, start: Instant, food: Position) -> GameView {
        GameView {
            start,
            move_interval: difficulty.interval_ms(),
            food_lifetime: difficulty.lifetime_secs(),
            head: Position { x: 5, y: 5 },
            tail: TailView::empty(0),
            food,
            direction: Move::Right,
            score: 0,
            last_move: 0,
            food_spawn_time: 0,
        }
    }

    /// The head is on the grid, the food lies where food may lie, the tail
    /// is within its length, and food lasts for some time.
    pub open spec fn wf(self) -> bool {
        &&& self.tail.wf()
        &&& self.tail.length <= usize::MAX
        &&& self.head.in_grid()
        &&& self.food.in_food_area()
        &&& self.food_lifetime > 0
        &&& i8::MIN <= self.score <= i8::MAX
    }

    /// The head is on the food.
    pub open spec fn eats(self) -> bool {
        self.head == self.food
    }

    /// The game after the snake has eaten, if its head is on the food: one
    /// point more, room for one more cell of tail, and new food at `fresh`.
    pub open spec fn fed(self, now: nat, fresh: Position) -> GameView {
        if self.eats() {
            GameView {
                score: self.score + 1,
                food: fresh,
                food_spawn_time: now,
                tail: self.tail.grown(),
                ..self
            }
        } else {
            self
        }
    }

    /// The head is on a cell of the tail or on the border.
    pub open spec fn crashed(self) -> bool {
        self.tail.points.contains(self.head) || self.head.on_border()
    }

    /// The food has been lying for its whole lifetime.
    pub open spec fn food_expired(self, now: nat) -> bool {
        elapsed_secs(now, self.food_spawn_time) >= self.food_lifetime
    }

    /// The game after expired food has been replaced, if the food has
    /// expired: two points less, and new food at `fresh`.
    pub open spec fn refreshed(self, now: nat, fresh: Position) -> GameView {
        if self.food_expired(now) {
            GameView { score: self.score - 2, food: fresh, food_spawn_time: now, ..self }
        } else {
            self
        }
    }

    /// The game after the key has been looked at.
    pub open spec fn steered(self, key: Option<Key>) -> GameView {
        GameView { direction: steer(self.direction, key), ..self }
    }

    /// Enough time has passed since the last step for the next one.
    pub open spec fn move_due(self, now: nat) -> bool {
        elapsed_millis(now, self.last_move) >= self.move_interval
    }

    /// The game after the snake has taken a step, if one is due: the cell
    /// the head leaves joins the tail, provided the tail has any length.
    pub open spec fn moved(self, now: nat) -> GameView {
        if self.move_due(now) {
            GameView {
                tail: if self.tail.length > 0 {
                    self.tail.pushed(self.head)
                } else {
                    self.tail
                },
                head: self.direction.step_from(self.head),
                last_move: now,
                ..self
            }
        } else {
            self
        }
    }

    /// How a tick ends in which `key` was pressed. Eating moves neither head
    /// nor tail, so this does not depend on whether the snake eats first.
    pub open spec fn tick_event(self, key: Option<Key>) -> GameEvent {
        if self.crashed() {
            GameEvent::End
        } else if key == Some(Key::Escape) {
            GameEvent::Pause
        } else {
            GameEvent::Continue
        }
    }

    /// The game after the tick at time `now`, in which `key` was pressed
    /// and `fresh` is where new food goes if any is needed.
    pub open spec fn ticked(self, key: Option<Key>, now: nat, fresh: Position) -> GameView {
        let fed = self.fed(now, fresh);
        if self.crashed() {
            fed
        } else {
            let turned = fed.refreshed(now, fresh).steered(key);
            if key == Some(Key::Escape) {
                turned
            } else {
                turned.moved(now)
            }
        }
    }

    /// What is drawn once the food has been dealt with: expired food is
    /// wiped, the score is written anew, and the food is shown.
    pub open spec fn status_frame(self, now: nat, fresh: Position) -> Seq<Drawing> {
        let kept = self.refreshed(now, fresh);
        let wipe = if self.food_expired(now) {
            seq![cell(self.food, Color::Black, ' ')]
        } else {
            Seq::<Drawing>::empty()
        };
        wipe + seq![
            Drawing::Print { x: SCORE_COLUMN as int, y: 0, text: "    "@ },
            Drawing::Print { x: SCORE_COLUMN as int, y: 0, text: signed_decimal(kept.score) },
            cell(kept.food, Color::Red, 'o'),
        ]
    }

    /// What is drawn around a step: the tail is wiped where it was, the head
    /// leaves its cell and enters the next if a step is due, and head and
    /// tail are shown where they are now.
    pub open spec fn motion_frame(self, now: nat) -> Seq<Drawing> {
        let after = self.moved(now);
        let step = if self.move_due(now) {
            seq![cell(self.head, Color::Green, ' '), cell(after.head, Color::Green, '@')]
        } else {
            Seq::<Drawing>::empty()
        };
        cells(self.tail.points, Color::Black, ' ') + step + seq![
            cell(after.head, Color::Green, '@'),
        ] + cells(after.tail.points, Color::Green, 'x')
    }

    /// What the tick at time `now` draws. A tick that ends the game draws
    /// nothing; one that pauses it draws no motion.
    pub open spec fn tick_frame(self, key: Option<Key>, now: nat, fresh: Position) -> Seq<
        Drawing,
    > {
        let fed = self.fed(now, fresh);
        if self.crashed() {
            Seq::<Drawing>::empty()
        } else if key == Some(Key::Escape) {
            fed.status_frame(now, fresh)
        } else {
            fed.status_frame(now, fresh) + fed.refreshed(now, fresh).steered(key).motion_frame(now)
        }
    }

    /// The tick at time `now` keeps the score within the range of scores
    /// and the length of the tail within the range of lengths.
    pub open spec fn can_tick(self, now: nat) -> bool {
        if self.eats() {
            self.score < i8::MAX && self.tail.length < usize::MAX
        } else {
            self.crashed() || !self.food_expired(now) || self.score >= i8::MIN + 2
        }
    }

    /// A tick keeps the score within the range of scores and the length of
    /// the tail within the range of lengths, whenever it takes place.
    pub open spec fn has_room(self) -> bool {
        if self.eats() {
            self.score < i8::MAX && self.tail.length < usize::MAX
        } else {
            self.crashed() || self.score >= i8::MIN + 2
        }
    }

    /// The tick at time `now` places new food.
    pub open spec fn needs_food(self, now: nat) -> bool {
        self.eats() || self.food_expired(now)
    }
}

/// A key never turns the snake round on the spot: whatever is pressed, the
/// new direction is not the opposite of the old one. A movement key that
/// asks for any other direction gets it.
pub proof fn lemma_steer_never_reverses(current: Move, key: Key)
    ensures
        steer(current, Some(key)) != current.opposite(),
        key.direction() == Some(current.opposite()) ==> steer(current, Some(key)) == current,
        forall|wish: Move|
            key.direction() == Some(wish) && wish != current.opposite() ==> steer(
                current,
                Some(key),
            ) == wish,
        steer(current, None) == current,
{
}

/// A tick never turns the snake round, whichever key is pressed.
pub proof fn lemma_tick_never_reverses(game: GameView, key: Option<Key>, now: nat, fresh: Position)
    ensures
        game.ticked(key, now, fresh).direction != game.direction.opposite(),
{
}

/// A tick keeps the game well formed. In particular the food always lies
/// where food may lie, and the head stays on the grid.
pub proof fn lemma_tick_keeps_game_well_formed(
    game: GameView,
    key: Option<Key>,
    now: nat,
    fresh: Position,
)
    requires
        game.wf(),
        game.can_tick(now),
        fresh.in_food_area(),
    ensures
        game.ticked(key, now, fresh).wf(),
        game.ticked(key, now, fresh).food.in_food_area(),
        2 <= game.ticked(key, now, fresh).food.x < WIDTH - 1,
        2 <= game.ticked(key, now, fresh).food.y < HEIGHT - 1,
{
    if !game.crashed() {
        let turned = game.fed(now, fresh).refreshed(now, fresh).steered(key);
        assert(turned.head.in_grid() && !turned.head.on_border());
        assert(turned.direction.step_from(turned.head).in_grid());
    }
}

/// A snake whose head is on its own tail ends the game in the next tick,
/// whatever the key and the time, and the tick does nothing else: nothing
/// is drawn, and the game is as it was.
pub proof fn lemma_self_collision_ends_game(
    game: GameView,
    key: Option<Key>,
    now: nat,
    fresh: Position,
)
    requires
        game.tail.points.contains(game.head),
    ensures
        game.tick_event(key) == GameEvent::End,
        game.ticked(key, now, fresh) == game.fed(now, fresh),
        !game.eats() ==> game.ticked(key, now, fresh) == game,
        game.tick_frame(key, now, fresh) == Seq::<Drawing>::empty(),
{
}

/// A snake whose head is on the border ends the game in the next tick,
/// whatever the key and the time.
pub proof fn lemma_border_ends_game(game: GameView, key: Option<Key>, now: nat, fresh: Position)
    requires
        game.head.x == 0 || game.head.x == WIDTH - 1 || game.head.y == 0 || game.head.y == HEIGHT
            - 1,
    ensures
        game.tick_event(key) == GameEvent::End,
        game.ticked(key, now, fresh) == game.fed(now, fresh),
{
}

/// A snake whose head is on the food eats it in the next tick: the score
/// grows by exactly one, the tail gets room for exactly one more cell, and
/// the food moves to the fresh cell, where it starts to age anew.
pub proof fn lemma_eating_scores_one(game: GameView, key: Option<Key>, now: nat, fresh: Position)
    requires
        game.wf(),
        game.eats(),
        fresh.in_food_area(),
    ensures
        game.ticked(key, now, fresh).score == game.score + 1,
        game.ticked(key, now, fresh).tail.length == game.tail.length + 1,
        game.ticked(key, now, fresh).food == fresh,
        game.ticked(key, now, fresh).food_spawn_time == now,
        game.ticked(key, now, fresh).food.in_food_area(),
{
    assert(!game.fed(now, fresh).food_expired(now));
}

/// Food that is not eaten before its lifetime is over expires in the tick
/// that finds it so: the score drops by exactly two, and the food moves to
/// the fresh cell. Food that is neither eaten nor expired stays, and so
/// does the score.
pub proof fn lemma_expiry_costs_two(game: GameView, key: Option<Key>, now: nat, fresh: Position)
    requires
        !game.eats(),
        !game.crashed(),
    ensures
        game.food_expired(now) ==> {
            &&& game.ticked(key, now, fresh).score == game.score - 2
            &&& game.ticked(key, now, fresh).food == fresh
            &&& game.ticked(key, now, fresh).food_spawn_time == now
        },
        !game.food_expired(now) ==> {
            &&& game.ticked(key, now, fresh).score == game.score
            &&& game.ticked(key, now, fresh).food == game.food
            &&& game.ticked(key, now, fresh).food_spawn_time == game.food_spawn_time
        },
{
}

/// The length of the tail only grows: a tick in which the snake eats adds
/// one to it, and every other tick leaves it as it is.
pub proof fn lemma_tail_only_grows(game: GameView, key: Option<Key>, now: nat, fresh: Position)
    ensures
        game.ticked(key, now, fresh).tail.length == if game.eats() {
            game.tail.length + 1
        } else {
            game.tail.length
        },
        game.ticked(key, now, fresh).tail.length >= game.tail.length,
{
}

/// The tick that pauses the game moves nothing: head, tail, direction and
/// the time of the last step are as before. If the snake neither eats nor
/// loses its food in that tick, the whole game is as before.
pub proof fn lemma_pausing_moves_nothing(game: GameView, now: nat, fresh: Position)
    requires
        !game.crashed(),
    ensures
        game.tick_event(Some(Key::Escape)) == GameEvent::Pause,
        game.ticked(Some(Key::Escape), now, fresh).head == game.head,
        game.ticked(Some(Key::Escape), now, fresh).tail.points == game.tail.points,
        game.ticked(Some(Key::Escape), now, fresh).direction == game.direction,
        game.ticked(Some(Key::Escape), now, fresh).last_move == game.last_move,
        !game.eats() && !game.food_expired(now) ==> game.ticked(Some(Key::Escape), now, fresh)
            == game,
{
}

/// A game that is being played.
#[derive(Debug, PartialEq, Eq)]
pub struct StateInfo {
    start: Instant,
    snake_move_interval: u128,
    food_lifetime: u64,
    head_pos: Position,
    tail: Tail,
    food: Position,
    move_direction: Move,
    score: i8,
    last_move: u128,
    food_spawn_time: u128,
}

impl View for StateInfo {
    type V = GameView;

    closed spec fn view(&self) -> GameView {
        GameView {
            start: self.start,
            move_interval: self.snake_move_interval as nat,
            food_lifetime: self.food_lifetime as nat,
            head: self.head_pos,
            tail: self.tail@,
            food: self.food,
            direction: self.move_direction,
            score: self.score as int,
            last_move: self.last_move as nat,
            food_spawn_time: self.food_spawn_time as nat,
        }
    }
}

impl Clone for StateInfo {
    fn clone(&self) -> (copy: Self)
        ensures
            copy@ == self@,
    {
        StateInfo {
            start: self.start,
            snake_move_interval: self.snake_move_interval,
            food_lifetime: self.food_lifetime,
            head_pos: self.head_pos,
            tail: self.tail.clone(),
            food: self.food,
            move_direction: self.move_direction,
            score: self.score,
            last_move: self.last_move,
            food_spawn_time: self.food_spawn_time,
        }
    }
}

/// The command that puts `glyph` on a black cell.
fn cell_command(at: Position, fg: Color, glyph: char) -> (command: DrawCommand)
    ensures
        command@ == cell(at, fg, glyph),
{
    DrawCommand::SetCell { x: at.x, y: at.y, fg, bg: Color::Black, glyph }
}

/// Appends the commands that put `glyph` on each of the cells.
fn emit_cells(frame: &mut Vec<DrawCommand>, at: &Vec<Position>, fg: Color, glyph: char)
    ensures
        drawings(final(frame)@) == drawings(old(frame)@) + cells(at@, fg, glyph),
{
    let mut i: usize = 0;
    assert(drawings(frame@) =~= drawings(old(frame)@) + cells(at@.subrange(0, 0), fg, glyph));
    while i < at.len()
        invariant
            i <= at@.len(),
            drawings(frame@) == drawings(old(frame)@) + cells(at@.subrange(0, i as int), fg, glyph),
        decreases at@.len() - i,
    {
        emit(frame, cell_command(at[i], fg, glyph));
        assert(cells(at@.subrange(0, i + 1), fg, glyph) =~= cells(
            at@.subrange(0, i as int),
            fg,
            glyph,
        ).push(cell(at@[i as int], fg, glyph)));
        assert(drawings(frame@) =~= drawings(old(frame)@) + cells(
            at@.subrange(0, i + 1),
            fg,
            glyph,
        ));
        i += 1;
    }
    assert(at@.subrange(0, i as int) =~= at@);
}

impl StateInfo {
    /// The game is in a state that ticks keep: see [`GameView::wf`].
    pub open spec fn wf(&self) -> bool {
        self@.wf()
    }

    /// A new game at the given difficulty. The clock is read for its start,
    /// and the first food lies in a random cell.
    pub fn new(difficulty: Difficulty) -> (game: Self)
        ensures
            game.wf(),
            game@.food.in_food_area(),
            game@ == GameView::fresh(difficulty, game@.start, game@.food),
    {
        Self::with_start(difficulty, Instant::now(), Self::gen_new_food())
    }

    /// A new game at the given difficulty that started at `start` and has
    /// its first food at `food`.
    pub fn with_start(difficulty: Difficulty, start: Instant, food: Position) -> (game: Self)
        requires
            food.in_food_area(),
        ensures
            game.wf(),
            game@ == GameView::fresh(difficulty, start, food),
    {
        Self {
            start,
            snake_move_interval: difficulty.snake_move_interval(),
            food_lifetime: difficulty.food_lifetime(),
            head_pos: Position::new(5, 5),
            tail: Tail::new(0),
            food,
            move_direction: Move::Right,
            score: 0,
            last_move: 0,
            food_spawn_time: 0,
        }
    }

    /// A random cell in which food may lie: a row, then a column, each
    /// drawn uniformly from those in which food may appear.
    pub fn gen_new_food() -> (food: Position)
        ensures
            food.in_food_area(),
            2 <= food.x < WIDTH - 1,
            2 <= food.y < HEIGHT - 1,
    {
        let line = choose_in_range(FOOD_ROW_START, FOOD_ROW_END).unwrap();
        let col = choose_in_range(FOOD_COL_START, FOOD_COL_END).unwrap();
        Position::new(col, line)
    }

    /// Whether a tick keeps the score and the length of the tail within
    /// their ranges.
    pub fn has_room(&self) -> (room: bool)
        requires
            self.wf(),
        ensures
            room == self@.has_room(),
    {
        if self.head_pos == self.food {
            self.score < i8::MAX && self.tail.len() < usize::MAX
        } else {
            self.tail.contains(self.head_pos) || self.head_pos.is_on_border() || self.score
                >= i8::MIN + 2
        }
    }

    fn eat(&mut self, now: u128, fresh: Position)
        requires
            old(self).wf(),
            old(self)@.eats() ==> old(self)@.score < i8::MAX && old(self)@.tail.length
                < usize::MAX,
            fresh.in_food_area(),
        ensures
            final(self)@ == old(self)@.fed(now as nat, fresh),
            final(self).wf(),
    {
        if self.head_pos == self.food {
            self.score = self.score + 1;
            self.food = fresh;
            self.food_spawn_time = now;
            self.tail.inc_length();
        }
    }

    fn check_food_expiry(&mut self, now: u128, fresh: Position, frame: &mut Vec<DrawCommand>)
        requires
            old(self).wf(),
            old(self)@.food_expired(now as nat) ==> old(self)@.score >= i8::MIN + 2,
            fresh.in_food_area(),
        ensures
            final(self)@ == old(self)@.refreshed(now as nat, fresh),
            final(self).wf(),
            drawings(final(frame)@) == drawings(old(frame)@) + (if old(self)@.food_expired(
                now as nat,
            ) {
                seq![cell(old(self)@.food, Color::Black, ' ')]
            } else {
                Seq::<Drawing>::empty()
            }),
    {
        if secs_between(now, self.food_spawn_time) < self.food_lifetime as u128 {
            assert(drawings(frame@) =~= drawings(old(frame)@) + Seq::<Drawing>::empty());
            return ;
        }
        emit(frame, cell_command(self.food, Color::Black, ' '));
        assert(drawings(frame@) =~= drawings(old(frame)@) + seq![
            cell(old(self)@.food, Color::Black, ' '),
        ]);
        self.score = self.score - 2;
        self.food = fresh;
        self.food_spawn_time = now;
    }

    fn steer(&mut self, key: Option<Key>)
        ensures
            final(self)@ == old(self)@.steered(key),
    {
        if let Some(k) = key {
            if let Some(wish) = k.to_direction() {
                if !self.move_direction.is_opposite(wish) {
                    self.move_direction = wish;
                }
            }
        }
    }

    fn move_player(&mut self, now: u128, frame: &mut Vec<DrawCommand>)
        requires
            old(self).wf(),
            !old(self)@.head.on_border(),
        ensures
            final(self)@ == old(self)@.moved(now as nat),
            final(self).wf(),
            drawings(final(frame)@) == drawings(old(frame)@) + (if old(self)@.move_due(now as nat) {
                seq![
                    cell(old(self)@.head, Color::Green, ' '),
                    cell(final(self)@.head, Color::Green, '@'),
                ]
            } else {
                Seq::<Drawing>::empty()
            }),
    {
        if millis_between(now, self.last_move) < self.snake_move_interval {
            assert(drawings(frame@) =~= drawings(old(frame)@) + Seq::<Drawing>::empty());
            return ;
        }
        emit(frame, cell_command(self.head_pos, Color::Green, ' '));
        if self.tail.len() > 0 {
            self.tail.push(Position::new(self.head_pos.x, self.head_pos.y));
        }
        self.head_pos = self.move_direction.advance(self.head_pos);
        emit(frame, cell_command(self.head_pos, Color::Green, '@'));
        self.last_move = now;
        assert(drawings(frame@) =~= drawings(old(frame)@) + seq![
            cell(old(self)@.head, Color::Green, ' '),
            cell(self@.head, Color::Green, '@'),
        ]);
    }

    /// Appends the commands that write the score and show the food.
    fn draw_status(&self, frame: &mut Vec<DrawCommand>)
        ensures
            drawings(final(frame)@) == drawings(old(frame)@) + seq![
                Drawing::Print { x: SCORE_COLUMN as int, y: 0, text: "    "@ },
                Drawing::Print { x: SCORE_COLUMN as int, y: 0, text: signed_decimal(self@.score) },
                cell(self@.food, Color::Red, 'o'),
            ],
    {
        emit(frame, DrawCommand::Print { x: SCORE_COLUMN, y: 0, text: String::from_str("    ") });
        let mut score_text = String::new();
        push_signed_decimal(&mut score_text, self.score);
        assert(score_text@ =~= signed_decimal(self@.score));
        emit(frame, DrawCommand::Print { x: SCORE_COLUMN, y: 0, text: score_text });
        emit(frame, cell_command(self.food, Color::Red, 'o'));
        assert(drawings(frame@) =~= drawings(old(frame)@) + seq![
            Drawing::Print { x: SCORE_COLUMN as int, y: 0, text: "    "@ },
            Drawing::Print { x: SCORE_COLUMN as int, y: 0, text: signed_decimal(self@.score) },
            cell(self@.food, Color::Red, 'o'),
        ]);
    }

    /// Appends the commands that put `glyph` on each cell of the tail.
    fn draw_tail(&self, frame: &mut Vec<DrawCommand>, fg: Color, glyph: char)
        requires
            self.wf(),
        ensures
            drawings(final(frame)@) == drawings(old(frame)@) + cells(self@.tail.points, fg, glyph),
    {
        if self.tail.len() > 0 {
            let at = self.tail.iter();
            emit_cells(frame, &at, fg, glyph);
        } else {
            assert(self@.tail.points =~= Seq::<Position>::empty());
            assert(drawings(frame@) =~= drawings(old(frame)@) + cells(
                self@.tail.points,
                fg,
                glyph,
            ));
        }
    }

    /// One tick of the game at time `now`, nanoseconds after its start, in
    /// which `key` was pressed; `fresh` is where new food goes if the tick
    /// places any. Returns how the tick ends and what it draws.
    ///
    /// The snake eats if its head is on the food. Then the tick ends the
    /// game if the head is on the tail or on the border. Otherwise expired
    /// food is replaced, the key steers the snake or asks for a pause, and
    /// the snake takes a step if one is due.
    pub fn advance(&mut self, key: Option<Key>, now: u128, fresh: Position) -> (out: (
        GameEvent,
        Vec<DrawCommand>,
    ))
        requires
            old(self).wf(),
            old(self)@.can_tick(now as nat),
            fresh.in_food_area(),
        ensures
            final(self).wf(),
            out.0 == old(self)@.tick_event(key),
            final(self)@ == old(self)@.ticked(key, now as nat, fresh),
            drawings(out.1@) == old(self)@.tick_frame(key, now as nat, fresh),
            final(self)@.direction != old(self)@.direction.opposite(),
            old(self)@.head.on_border() ==> out.0 == GameEvent::End,
            final(self)@.food.in_food_area(),
    {
        let mut frame: Vec<DrawCommand> = Vec::new();
        assert(drawings(frame@) =~= Seq::<Drawing>::empty());

        self.eat(now, fresh);
        let ghost fed = self@;

        if self.tail.contains(self.head_pos) {
            return (GameEvent::End, frame);
        }
        if self.head_pos.is_on_border() {
            return (GameEvent::End, frame);
        }
        self.check_food_expiry(now, fresh, &mut frame);
        self.draw_status(&mut frame);
        assert(drawings(frame@) =~= fed.status_frame(now as nat, fresh));

        self.steer(key);
        if let Some(Key::Escape) = key {
            return (GameEvent::Pause, frame);
        }
        let ghost turned = self@;

        self.draw_tail(&mut frame, Color::Black, ' ');
        self.move_player(now, &mut frame);
        emit(&mut frame, cell_command(self.head_pos, Color::Green, '@'));
        self.draw_tail(&mut frame, Color::Green, 'x');
        assert(drawings(frame@) =~= fed.status_frame(now as nat, fresh) + turned.motion_frame(
            now as nat,
        ));
        (GameEvent::Continue, frame)
    }

    /// One tick of the game, in which `key` was pressed. The clock is read
    /// once, and new food, if the tick places any, goes to a random cell.
    /// The tick is [`StateInfo::advance`] at that time with that cell.
    pub fn game_tick(&mut self, key: Option<Key>) -> (out: (GameEvent, Vec<DrawCommand>))
        requires
            old(self).wf(),
            old(self)@.has_room(),
        ensures
            final(self).wf(),
            out.0 == old(self)@.tick_event(key),
            exists|now: nat, fresh: Position|
                {
                    &&& fresh.in_food_area()
                    &&& #[trigger] old(self)@.ticked(key, now, fresh) == final(self)@
                    &&& drawings(out.1@) == old(self)@.tick_frame(key, now, fresh)
                },
            final(self)@.direction != old(self)@.direction.opposite(),
            old(self)@.head.on_border() ==> out.0 == GameEvent::End,
            final(self)@.food.in_food_area(),
    {
        let now = nanos_since(&self.start);
        let fresh = if self.needs_food(now) {
            Self::gen_new_food()
        } else {
            self.food
        };
        let out = self.advance(key, now, fresh);
        assert(old(self)@.ticked(key, now as nat, fresh) == self@);
        out
    }

    /// The commands that draw the empty field.
    pub fn setup_screen() -> (frame: Vec<DrawCommand>)
        ensures
            drawings(frame@) == play_field_frame(),
    {
        let mut frame: Vec<DrawCommand> = Vec::new();
        emit(&mut frame, DrawCommand::Clear);
        emit(
            &mut frame,
            DrawCommand::DrawBox {
                x0: 0,
                y0: 0,
                x1: WIDTH - 1,
                y1: HEIGHT - 1,
                fg: Color::White,
                bg: Color::Black,
            },
        );
        emit(
            &mut frame,
            DrawCommand::Print {
                x: WIDTH - SCORE_INDICATOR_OFFSET,
                y: 0,
                text: String::from_str("[Score:     ]"),
            },
        );
        assert(drawings(frame@) =~= play_field_frame());
        frame
    }

    /// The commands that draw the pause screen.
    pub fn setup_paused_screen() -> (frame: Vec<DrawCommand>)
        ensures
            drawings(frame@) == paused_frame(),
    {
        let mut frame: Vec<DrawCommand> = Vec::new();
        emit(&mut frame, DrawCommand::Clear);
        emit(
            &mut frame,
            DrawCommand::PrintColorCentered {
                row: MIDDLE_ROW - 1,
                fg: Color::Orange,
                bg: Color::Black,
                text: String::from_str("Paused"),
            },
        );
        emit(
            &mut frame,
            DrawCommand::PrintCentered {
                row: MIDDLE_ROW,
                text: String::from_str("Press [Enter] to resume game."),
            },
        );
        assert(drawings(frame@) =~= paused_frame());
        frame
    }

    /// One tick of the game while it is paused, in which `key` was pressed.
    /// The game itself stays as it is.
    pub fn pased_tick(&self, key: Option<Key>) -> (event: GameEvent)
        ensures
            event == paused_event(key),
    {
        if let Some(Key::Return) = key {
            return GameEvent::Continue;
        }
        GameEvent::Pause
    }

    /// Whether the tick at time `now` places new food.
    pub fn needs_food(&self, now: u128) -> (needed: bool)
        ensures
            needed == self@.needs_food(now as nat),
    {
        self.head_pos == self.food || secs_between(now, self.food_spawn_time)
            >= self.food_lifetime as u128
    }

    /// The reading of the clock at which the game started.
    pub fn start(&self) -> (start: Instant)
        ensures
            start == self@.start,
    {
        self.start
    }

    /// The cell of the head.
    pub fn head(&self) -> (head: Position)
        ensures
            head == self@.head,
    {
        self.head_pos
    }

    /// The cells that trail the head.
    pub fn tail(&self) -> (tail: &Tail)
        ensures
            tail@ == self@.tail,
    {
        &self.tail
    }

    /// The cell of the food.
    pub fn food(&self) -> (food: Position)
        ensures
            food == self@.food,
    {
        self.food
    }

    /// The direction in which the snake travels.
    pub fn direction(&self) -> (direction: Move)
        ensures
            direction == self@.direction,
    {
        self.move_direction
    }

    /// The points scored so far.
    pub fn score(&self) -> (score: i8)
        ensures
            score == self@.score,
    {
        self.score
    }

    /// The time of the last step, in nanoseconds after the start.
    pub fn last_move(&self) -> (at: u128)
        ensures
            at == self@.last_move,
    {
        self.last_move
    }

    /// The time at which the food was placed, in nanoseconds after the
    /// start.
    pub fn food_spawn_time(&self) -> (at: u128)
        ensures
            at == self@.food_spawn_time,
    {
        self.food_spawn_time
    }
}

} // verus!
