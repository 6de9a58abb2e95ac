//! The screens of the game and the ticks that lead from one to the next.

use std::time::Instant;
use vstd::prelude::*;
use vstd::string::StringExecFns;
use crate::clock::{nanos_since, NANOS_PER_SEC};
use crate::consts::{FOOD_COL_START, FOOD_ROW_START, HEIGHT, MIDDLE_ROW};
use crate::game::{lemma_tick_keeps_game_well_formed, paused_frame, play_field_frame, GameView};
use crate::input::Key;
use crate::menu::{MenuItem, MenuView};
use crate::position::Position;
use crate::render::{drawings, emit, emit_all, Color, DrawCommand, Drawing};
use crate::text::{push_signed_decimal, push_two_digits, signed_decimal, two_digits};

pub use crate::game::{GameEvent, StateInfo};
pub use crate::menu::{MainScreenInfo, MenuEvent};

verus! {

/// The time of day that a number of seconds comes to, as hours, minutes
/// and seconds of two places each, separated by colons.
pub open spec fn playtime_text(secs: nat) -> Seq<char> {
    two_digits(secs / 3600) + ":"@ + two_digits((secs % 3600) / 60) + ":"@ + two_digits(secs % 60)
}

/// Writes a number of seconds as hours, minutes and seconds.
fn playtime_string(full_seconds: u128) -> (text: String)
    ensures
        text@ == playtime_text(full_seconds as nat),
{
    let hours = full_seconds / 3600;
    let minutes = (full_seconds % 3600) / 60;
    let seconds = ((full_seconds % 3600) % 60) % 60;
    assert(seconds == full_seconds % 60) by {
        let rest = full_seconds % 3600;
        assert(full_seconds == 3600 * (full_seconds / 3600) + rest);
        assert(rest == 60 * (rest / 60) + rest % 60);
        assert(full_seconds == 60 * (60 * (full_seconds / 3600) + rest / 60) + rest % 60);
    }
    let mut text = String::new();
    push_two_digits(&mut text, hours);
    let ghost with_hours = text@;
    assert(with_hours =~= two_digits(hours as nat));
    text.append(":");
    push_two_digits(&mut text, minutes);
    let ghost with_minutes = text@;
    assert(with_minutes =~= two_digits(hours as nat) + ":"@ + two_digits(minutes as nat));
    text.append(":");
    push_two_digits(&mut text, seconds);
    assert(text@ =~= with_minutes + ":"@ + two_digits(seconds as nat));
    text
}

/// What the end of a game consists of: the score, and the time the game
/// took in nanoseconds.
pub ghost struct EndView {
    pub final_score: int,
    pub playtime: nat,
}

impl EndView {
    /// The whole seconds the game took.
    pub open spec fn playtime_secs(self) -> nat {
        self.playtime / (NANOS_PER_SEC as nat)
    }

    /// What the game-over screen draws.
    pub open spec fn frame(self) -> Seq<Drawing> {
        seq![
            Drawing::Clear,
            Drawing::PrintColorCentered {
                row: MIDDLE_ROW as int,
                fg: Color::Blue,
                bg: Color::Black,
                text: "GAME OVER"@,
            },
            Drawing::PrintCentered {
                row: MIDDLE_ROW + 1,
                text: "Final score: "@ + signed_decimal(self.final_score),
            },
            Drawing::PrintCentered {
                row: MIDDLE_ROW + 2,
                text: "Playtime: "@ + playtime_text(self.playtime_secs()),
            },
            Drawing::PrintCentered {
                row: HEIGHT - 1,
                text: "Press [ENTER] to restart the game."@,
            },
        ]
    }
}

/// The end of a game: what the game-over screen shows.
#[derive(Debug, PartialEq, Eq)]
pub struct EndInfo {
    final_score: i8,
    playtime: u128,
}

impl View for EndInfo {
    type V = EndView;

    closed spec fn view(&self) -> EndView {
        EndView { final_score: self.final_score as int, playtime: self.playtime as nat }
    }
}

/// What a tick draws from besides the key: a reading of the clock, the time
/// since the running game started in nanoseconds, and a cell for new food.
#[derive(Debug, Clone, Copy)]
pub struct Sample {
    pub instant: Instant,
    pub elapsed: u128,
    pub food: Position,
}

/// What a tick hands back: the commands to draw, and whether the player
/// asked to leave the program.
#[derive(Debug, PartialEq, Eq)]
pub struct Frame {
    pub commands: Vec<DrawCommand>,
    pub quit: bool,
}

/// What the screen shows, and all that belongs to it.
pub ghost enum StateView {
    MainScreen(MenuView),
    InGame(GameView),
    Paused(GameView),
    End(EndView),
}

impl StateView {
    /// A game on screen, running or paused, is well formed.
    pub open spec fn wf(self) -> bool {
        match self {
            StateView::InGame(game) => game.wf(),
            StateView::Paused(game) => game.wf(),
            _ => true,
        }
    }

    /// The tick with this sample keeps a running game within its ranges.
    pub open spec fn can_step(self, sample: Sample) -> bool {
        match self {
            StateView::InGame(game) => game.can_tick(sample.elapsed as nat),
            _ => true,
        }
    }

    /// A tick keeps a running game within its ranges, whenever it takes
    /// place.
    pub open spec fn has_room(self) -> bool {
        match self {
            StateView::InGame(game) => game.has_room(),
            _ => true,
        }
    }

    /// The end of `game` after `playtime` nanoseconds.
    pub open spec fn ended(game: GameView, playtime: nat) -> EndView {
        EndView { final_score: game.score, playtime }
    }

    /// The menu that follows the game-over screen: the first menu, but for
    /// the confirm key, which it takes as seen until it is released.
    pub open spec fn restarted() -> MenuView {
        MenuView { last_key: Some(Key::Return), ..MenuView::initial() }
    }

    /// The screen after a tick in which `key` was pressed.
    pub open spec fn stepped(self, key: Option<Key>, sample: Sample) -> StateView {
        match self {
            StateView::MainScreen(menu) => match menu.tick_event(key) {
                MenuEvent::Play => StateView::InGame(
                    GameView::fresh(menu.difficulty, sample.instant, sample.food),
                ),
                _ => StateView::MainScreen(menu.ticked(key)),
            },
            StateView::InGame(game) => {
                let after = game.ticked(key, sample.elapsed as nat, sample.food);
                match game.tick_event(key) {
                    GameEvent::End => StateView::End(
                        Self::ended(after, sample.elapsed as nat),
                    ),
                    GameEvent::Pause => StateView::Paused(after),
                    GameEvent::Continue => StateView::InGame(after),
                }
            },
            StateView::Paused(game) => if key == Some(Key::Return) {
                StateView::InGame(game)
            } else {
                StateView::Paused(game)
            },
            StateView::End(end) => if key == Some(Key::Return) {
                StateView::MainScreen(Self::restarted())
            } else {
                StateView::End(end)
            },
        }
    }

    /// The screen after one tick for each entry of `ticks`, in their order;
    /// an entry is the key and the sample of its tick.
    pub open spec fn stepped_all(self, ticks: Seq<(Option<Key>, Sample)>) -> StateView
        decreases ticks.len(),
    {
        if ticks.len() == 0 {
            self
        } else {
            self.stepped_all(ticks.drop_last()).stepped(ticks.last().0, ticks.last().1)
        }
    }

    /// What a tick draws in which `key` was pressed.
    pub open spec fn step_frame(self, key: Option<Key>, sample: Sample) -> Seq<Drawing> {
        match self {
            StateView::MainScreen(menu) => match menu.tick_event(key) {
                MenuEvent::Play => menu.frame() + play_field_frame(),
                _ => menu.frame(),
            },
            StateView::InGame(game) => {
                let frame = game.tick_frame(key, sample.elapsed as nat, sample.food);
                match game.tick_event(key) {
                    GameEvent::Pause => frame + paused_frame(),
                    _ => frame,
                }
            },
            StateView::Paused(game) => if key == Some(Key::Return) {
                play_field_frame()
            } else {
                Seq::<Drawing>::empty()
            },
            StateView::End(end) => end.frame(),
        }
    }

    /// The player asks to leave the program: a new press of the escape key
    /// in the menu.
    pub open spec fn step_quits(self, key: Option<Key>) -> bool {
        match self {
            StateView::MainScreen(menu) => menu.tick_event(key) == MenuEvent::Quit,
            _ => false,
        }
    }

    /// The tick takes its sample's cell for food.
    pub open spec fn needs_food(self, key: Option<Key>, elapsed: nat) -> bool {
        match self {
            StateView::MainScreen(menu) => menu.tick_event(key) == MenuEvent::Play,
            StateView::InGame(game) => game.needs_food(elapsed),
            _ => false,
        }
    }
}

/// A paused game waits: as long as the confirm key is not pressed, ticks
/// leave it exactly as it is, whatever time passes.
pub proof fn lemma_paused_game_waits(game: GameView, ticks: Seq<(Option<Key>, Sample)>)
    requires
        forall|i: int| 0 <= i < ticks.len() ==> (#[trigger] ticks[i]).0 != Some(Key::Return),
    ensures
        StateView::Paused(game).stepped_all(ticks) == StateView::Paused(game),
    decreases ticks.len(),
{
    if ticks.len() > 0 {
        let before = ticks.drop_last();
        assert forall|i: int| 0 <= i < before.len() implies (#[trigger] before[i]).0 != Some(
            Key::Return,
        ) by {
            assert(before[i] == ticks[i]);
        }
        lemma_paused_game_waits(game, before);
    }
}

/// Pausing and resuming gives the game back as it was. The escape key
/// pauses a game whose snake neither crashes, eats nor loses its food in
/// that tick without changing it; the pause leaves it alone for any number
/// of ticks; and the confirm key resumes it unchanged: head, tail, score,
/// direction, and the times of the last step and of the food are the same,
/// so no step is made up for the time of the pause.
pub proof fn lemma_pause_then_resume_restores_game(
    game: GameView,
    pause: Sample,
    waiting: Seq<(Option<Key>, Sample)>,
    resume: Sample,
)
    requires
        !game.eats(),
        !game.crashed(),
        !game.food_expired(pause.elapsed as nat),
        forall|i: int| 0 <= i < waiting.len() ==> (#[trigger] waiting[i]).0 != Some(Key::Return),
    ensures
        StateView::InGame(game).stepped(Some(Key::Escape), pause) == StateView::Paused(game),
        StateView::InGame(game).stepped(Some(Key::Escape), pause).stepped_all(waiting).stepped(
            Some(Key::Return),
            resume,
        ) == StateView::InGame(game),
{
    lemma_paused_game_waits(game, waiting);
}

/// The game-over screen always leads back to the menu: it stays until the
/// confirm key is pressed, and then the menu is shown.
pub proof fn lemma_game_over_leads_to_menu(end: EndView, key: Option<Key>, sample: Sample)
    ensures
        key == Some(Key::Return) ==> StateView::End(end).stepped(key, sample)
            == StateView::MainScreen(StateView::restarted()),
        key != Some(Key::Return) ==> StateView::End(end).stepped(key, sample) == StateView::End(
            end,
        ),
{
}

/// A tick keeps the screen well formed.
pub proof fn lemma_step_keeps_screen_well_formed(
    screen: StateView,
    key: Option<Key>,
    sample: Sample,
)
    requires
        screen.wf(),
        screen.can_step(sample),
        sample.food.in_food_area(),
    ensures
        screen.stepped(key, sample).wf(),
{
    match screen {
        StateView::InGame(game) => {
            lemma_tick_keeps_game_well_formed(
                game,
                key,
                sample.elapsed as nat,
                sample.food,
            );
        },
        _ => {},
    }
}

/// The screen that is shown, with all that belongs to it.
#[derive(Debug, PartialEq, Eq)]
pub enum State {
    MainScreen(MainScreenInfo),
    InGame(StateInfo),
    Paused(StateInfo),
    End(EndInfo),
}

impl View for State {
    type V = StateView;

    open spec fn view(&self) -> StateView {
        match self {
            State::MainScreen(menu) => StateView::MainScreen(menu@),
            State::InGame(game) => StateView::InGame(game@),
            State::Paused(game) => StateView::Paused(game@),
            State::End(end) => StateView::End(end@),
        }
    }
}

impl Default for State {
    fn default() -> (state: Self)
        ensures
            state@ == StateView::MainScreen(MenuView::initial()),
    {
        State::MainScreen(MainScreenInfo::default())
    }
}

impl EndInfo {
    /// The end of `value`, with the time that has passed since its start by
    /// the clock.
    pub fn from(value: &mut StateInfo) -> (end: Self)
        ensures
            end@.final_score == old(value)@.score,
            final(value)@ == old(value)@,
    {
        let playtime = nanos_since(&value.start());
        Self::snapshot(value, playtime)
    }

    /// The end of `game` after `playtime` nanoseconds.
    pub fn snapshot(game: &StateInfo, playtime: u128) -> (end: Self)
        ensures
            end@ == StateView::ended(game@, playtime as nat),
    {
        EndInfo { final_score: game.score(), playtime }
    }

    /// The score the game ended with.
    pub fn final_score(&self) -> (score: i8)
        ensures
            score == self@.final_score,
    {
        self.final_score
    }

    /// The time the game took, in nanoseconds.
    pub fn playtime(&self) -> (nanos: u128)
        ensures
            nanos == self@.playtime,
    {
        self.playtime
    }

    /// One tick of the game-over screen, in which `key` was pressed.
    /// Returns whether the player asked for a new start, and what the tick
    /// draws.
    pub fn screen_tick(&mut self, key: Option<Key>) -> (out: (bool, Vec<DrawCommand>))
        ensures
            final(self)@ == old(self)@,
            out.0 == (key == Some(Key::Return)),
            drawings(out.1@) == old(self)@.frame(),
    {
        let mut frame: Vec<DrawCommand> = Vec::new();
        emit(&mut frame, DrawCommand::Clear);
        emit(
            &mut frame,
            DrawCommand::PrintColorCentered {
                row: MIDDLE_ROW,
                fg: Color::Blue,
                bg: Color::Black,
                text: String::from_str("GAME OVER"),
            },
        );
        let mut score = String::from_str("Final score: ");
        push_signed_decimal(&mut score, self.final_score);
        emit(&mut frame, DrawCommand::PrintCentered { row: MIDDLE_ROW + 1, text: score });

        let mut playtime = String::from_str("Playtime: ");
        let clock = playtime_string(self.playtime / NANOS_PER_SEC);
        playtime.append(clock.as_str());
        emit(&mut frame, DrawCommand::PrintCentered { row: MIDDLE_ROW + 2, text: playtime });
        emit(
            &mut frame,
            DrawCommand::PrintCentered {
                row: HEIGHT - 1,
                text: String::from_str("Press [ENTER] to restart the game."),
            },
        );
        assert(drawings(frame@) =~= self@.frame());
        let restart = match key {
            Some(Key::Return) => true,
            _ => false,
        };
        (restart, frame)
    }

    /// Puts the menu on screen that follows the game-over screen. It takes
    /// the confirm key as seen, so that the press that left the game-over
    /// screen does not start a game as well.
    pub fn restart_game(state: &mut State)
        ensures
            final(state)@ == StateView::MainScreen(StateView::restarted()),
    {
        *state = State::MainScreen(MainScreenInfo::after_key(Key::Return));
    }
}

impl State {
    /// A game on screen, running or paused, is well formed.
    pub open spec fn wf(&self) -> bool {
        self@.wf()
    }

    /// Whether a tick keeps a running game within its ranges.
    pub fn has_room(&self) -> (room: bool)
        requires
            self.wf(),
        ensures
            room == self@.has_room(),
    {
        match self {
            State::InGame(game) => game.has_room(),
            _ => true,
        }
    }

    /// One tick of the screen, in which `key` was pressed and which draws
    /// from `sample` whatever it needs of time and chance.
    ///
    /// The menu starts a game when `Play` is confirmed. A running game ends
    /// when the snake crashes and pauses on the escape key. A paused game
    /// resumes, as it was, on the confirm key. The game-over screen leads
    /// back to the menu on the confirm key.
    pub fn advance(&mut self, key: Option<Key>, sample: Sample) -> (frame: Frame)
        requires
            old(self).wf(),
            old(self)@.can_step(sample),
            sample.food.in_food_area(),
        ensures
            final(self).wf(),
            final(self)@ == old(self)@.stepped(key, sample),
            drawings(frame.commands@) == old(self)@.step_frame(key, sample),
            frame.quit == old(self)@.step_quits(key),
    {
        match self {
            State::MainScreen(menu) => {
                let (event, mut commands) = menu.screen_tick(key);
                match event {
                    MenuEvent::Play => {
                        let game = StateInfo::with_start(
                            menu.difficulty(),
                            sample.instant,
                            sample.food,
                        );
                        emit_all(&mut commands, StateInfo::setup_screen());
                        *self = State::InGame(game);
                        Frame { commands, quit: false }
                    },
                    MenuEvent::Quit => Frame { commands, quit: true },
                    MenuEvent::Stay => Frame { commands, quit: false },
                }
            },
            State::InGame(game) => {
                let (event, mut commands) = game.advance(key, sample.elapsed, sample.food);
                match event {
                    GameEvent::End => {
                        let end = EndInfo::snapshot(game, sample.elapsed);
                        *self = State::End(end);
                    },
                    GameEvent::Pause => {
                        emit_all(&mut commands, StateInfo::setup_paused_screen());
                        let paused = game.clone();
                        *self = State::Paused(paused);
                    },
                    GameEvent::Continue => {},
                }
                Frame { commands, quit: false }
            },
            State::Paused(game) => {
                match game.pased_tick(key) {
                    GameEvent::Continue => {
                        let commands = StateInfo::setup_screen();
                        let resumed = game.clone();
                        *self = State::InGame(resumed);
                        Frame { commands, quit: false }
                    },
                    _ => Frame { commands: Vec::new(), quit: false },
                }
            },
            State::End(end) => {
                let (restart, commands) = end.screen_tick(key);
                if restart {
                    EndInfo::restart_game(self);
                }
                Frame { commands, quit: false }
            },
        }
    }

    /// One tick of the screen, in which `key` was pressed. The clock is
    /// read, and a random cell is drawn if the tick places food. The tick
    /// is [`State::advance`] with what was read and drawn.
    pub fn tick(&mut self, key: Option<Key>) -> (frame: Frame)
        requires
            old(self).wf(),
            old(self)@.has_room(),
        ensures
            final(self).wf(),
            exists|sample: Sample|
                {
                    &&& sample.food.in_food_area()
                    &&& #[trigger] old(self)@.stepped(key, sample) == final(self)@
                    &&& drawings(frame.commands@) == old(self)@.step_frame(key, sample)
                },
            frame.quit == old(self)@.step_quits(key),
    {
        let instant = Instant::now();
        let elapsed = match self {
            State::InGame(game) => nanos_since(&game.start()),
            _ => 0,
        };
        let food = if self.needs_food(key, elapsed) {
            StateInfo::gen_new_food()
        } else {
            Position::new(FOOD_COL_START, FOOD_ROW_START)
        };
        let sample = Sample { instant, elapsed, food };
        let frame = self.advance(key, sample);
        assert(old(self)@.stepped(key, sample) == self@);
        frame
    }

    /// Whether the tick at `elapsed` nanoseconds after the start of the
    /// running game, in which `key` was pressed, places food.
    pub fn needs_food(&self, key: Option<Key>, elapsed: u128) -> (needed: bool)
        ensures
            needed == self@.needs_food(key, elapsed as nat),
    {
        match self {
            State::MainScreen(menu) => match key {
                Some(Key::Return) => match (menu.choice(), menu.last_key()) {
                    (MenuItem::Play, Some(Key::Return)) => false,
                    (MenuItem::Play, _) => true,
                    _ => false,
                },
                _ => false,
            },
            State::InGame(game) => game.needs_food(elapsed),
            _ => false,
        }
    }
}

} // verus!
