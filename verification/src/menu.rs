//! The main menu: start a game, or choose how hard it will be.

use vstd::prelude::*;
use vstd::string::StringExecFns;
use crate::consts::{HEIGHT, MIDDLE_ROW};
use crate::difficulties::Difficulty;
use crate::input::Key;
use crate::render::{drawings, emit, DrawCommand, Drawing};

verus! {

/// The entries of the menu.
#[derive(Debug, Clone, Copy, PartialEq, Eq, Structural)]
pub enum MenuItem {
    Play,
    Difficulty,
}

/// What a tick of the menu asks for.
#[derive(Debug, Clone, Copy, PartialEq, Eq, Structural)]
pub enum MenuEvent {
    /// The menu stays on screen.
    Stay,
    /// A game starts at the chosen difficulty.
    Play,
    /// The program ends.
    Quit,
}

/// Row of the `Play` entry.
pub const PLAY_ROW: i32 = MIDDLE_ROW - 5;

/// Row of the `Difficulty` entry.
pub const DIFFICULTY_ROW: i32 = MIDDLE_ROW + 5;

/// Row of the first line of the description; each further line is two rows
/// below the one before.
pub const DESCRIPTION_ROW: i32 = MIDDLE_ROW + 7;

/// Row of the hint at the bottom of the screen.
pub const HINT_ROW: i32 = HEIGHT - 1;

/// What the menu consists of: the selected entry, the chosen difficulty,
/// and the key that the last tick saw, if it saw one.
pub ghost struct MenuView {
    pub choice: MenuItem,
    pub difficulty: Difficulty,
    pub last_key: Option<Key>,
}

impl MenuView {
    /// The menu as the program shows it first.
    pub open spec fn initial() -> MenuView {
        MenuView { choice: MenuItem::Play, difficulty: Difficulty::Normal, last_key: None }
    }

    /// The key is one that the last tick did not see, so the menu acts on it.
    pub open spec fn is_new(self, key: Key) -> bool {
        self.last_key != Some(key)
    }

    /// The menu after a new key has acted on its entries.
    pub open spec fn selected(self, key: Key) -> MenuView {
        if key == Key::Left && self.choice == MenuItem::Difficulty {
            MenuView { difficulty: self.difficulty.easier(), ..self }
        } else if key == Key::Right && self.choice == MenuItem::Difficulty {
            MenuView { difficulty: self.difficulty.harder(), ..self }
        } else if key == Key::Up && self.choice == MenuItem::Difficulty {
            MenuView { choice: MenuItem::Play, ..self }
        } else if key == Key::Down && self.choice == MenuItem::Play {
            MenuView { choice: MenuItem::Difficulty, ..self }
        } else {
            self
        }
    }

    /// The key confirms the `Play` entry.
    pub open spec fn confirms(self, key: Key) -> bool {
        self.is_new(key) && key == Key::Return && self.choice == MenuItem::Play
    }

    /// What a tick asks for in which `key` was pressed.
    pub open spec fn tick_event(self, key: Option<Key>) -> MenuEvent {
        match key {
            Some(k) => if self.confirms(k) {
                MenuEvent::Play
            } else if self.is_new(k) && k == Key::Escape {
                MenuEvent::Quit
            } else {
                MenuEvent::Stay
            },
            None => MenuEvent::Stay,
        }
    }

    /// The menu after a tick in which `key` was pressed. A key acts once:
    /// while it stays pressed, further ticks ignore it.
    pub open spec fn ticked(self, key: Option<Key>) -> MenuView {
        match key {
            Some(k) => if !self.is_new(k) {
                self
            } else if self.confirms(k) {
                MenuView { last_key: None, ..self }
            } else if k == Key::Escape {
                self
            } else {
                MenuView { last_key: Some(k), ..self.selected(k) }
            },
            None => MenuView { last_key: None, ..self },
        }
    }

    /// The label of the `Play` entry.
    pub open spec fn play_label(self) -> Seq<char> {
        if self.choice == MenuItem::Play {
            "> Play <"@
        } else {
            "Play"@
        }
    }

    /// The label of the `Difficulty` entry.
    pub open spec fn difficulty_label(self) -> Seq<char> {
        if self.choice == MenuItem::Difficulty {
            "Difficulty: "@ + "< "@ + self.difficulty.name() + " >"@
        } else {
            "Difficulty: "@ + self.difficulty.name()
        }
    }

    /// The commands that write the description of the difficulty, a line
    /// on every second row.
    pub open spec fn description_frame(self) -> Seq<Drawing> {
        let lines = self.difficulty.description_lines();
        Seq::new(
            lines.len(),
            |i: int| Drawing::PrintCentered { row: DESCRIPTION_ROW + 2 * i, text: lines[i] },
        )
    }

    /// What the menu draws.
    pub open spec fn frame(self) -> Seq<Drawing> {
        seq![
            Drawing::Clear,
            Drawing::PrintCentered { row: PLAY_ROW as int, text: self.play_label() },
            Drawing::PrintCentered { row: DIFFICULTY_ROW as int, text: self.difficulty_label() },
            Drawing::PrintCentered {
                row: HINT_ROW as int,
                text: "Use [UP], [DOWN] and [ENTER] to change and set selection."@,
            },
        ] + self.description_frame()
    }
}

/// A key acts once: after the tick that saw it, further ticks in which it
/// is still pressed change nothing and ask for nothing, until a tick sees
/// it released. This holds of every key but the two that leave the menu.
pub proof fn lemma_held_key_acts_once(menu: MenuView, key: Key)
    requires
        !menu.confirms(key),
        key != Key::Escape,
    ensures
        menu.ticked(Some(key)).last_key == Some(key),
        menu.ticked(Some(key)).ticked(Some(key)) == menu.ticked(Some(key)),
        menu.ticked(Some(key)).tick_event(Some(key)) == MenuEvent::Stay,
        menu.ticked(Some(key)).ticked(None).is_new(key),
{
}

/// The menu starts a game exactly when a new press of the confirm key finds
/// `Play` selected, and asks to leave exactly on a new press of the escape
/// key. Starting a game changes neither the selection nor the difficulty.
pub proof fn lemma_menu_events(menu: MenuView, key: Option<Key>)
    ensures
        menu.tick_event(key) == MenuEvent::Play <==> key == Some(Key::Return) && menu.last_key
            != Some(Key::Return) && menu.choice == MenuItem::Play,
        menu.tick_event(key) == MenuEvent::Quit <==> key == Some(Key::Escape) && menu.last_key
            != Some(Key::Escape),
        menu.tick_event(key) == MenuEvent::Play ==> menu.ticked(key).difficulty == menu.difficulty
            && menu.ticked(key).choice == menu.choice,
{
}

/// The main menu.
#[derive(Debug, PartialEq, Eq)]
pub struct MainScreenInfo {
    choice: MenuItem,
    difficulty: Difficulty,
    last_key: Option<Key>,
}

impl View for MainScreenInfo {
    type V = MenuView;

    closed spec fn view(&self) -> MenuView {
        MenuView { choice: self.choice, difficulty: self.difficulty, last_key: self.last_key }
    }
}

impl Default for MainScreenInfo {
    fn default() -> (menu: Self)
        ensures
            menu@ == MenuView::initial(),
    {
        MainScreenInfo { choice: MenuItem::Play, difficulty: Difficulty::Normal, last_key: None }
    }
}

impl MainScreenInfo {
    /// The first menu of a program that already saw `key` pressed, so that
    /// the key has to be released before it acts.
    pub fn after_key(key: Key) -> (menu: Self)
        ensures
            menu@ == (MenuView { last_key: Some(key), ..MenuView::initial() }),
    {
        MainScreenInfo {
            choice: MenuItem::Play,
            difficulty: Difficulty::Normal,
            last_key: Some(key),
        }
    }

    /// The chosen difficulty.
    pub fn difficulty(&self) -> (difficulty: Difficulty)
        ensures
            difficulty == self@.difficulty,
    {
        self.difficulty
    }

    /// The selected entry.
    pub fn choice(&self) -> (choice: MenuItem)
        ensures
            choice == self@.choice,
    {
        self.choice
    }

    /// The key that the last tick saw, if it saw one.
    pub fn last_key(&self) -> (key: Option<Key>)
        ensures
            key == self@.last_key,
    {
        self.last_key
    }

    fn draw(&self) -> (frame: Vec<DrawCommand>)
        ensures
            drawings(frame@) == self@.frame(),
    {
        let mut frame: Vec<DrawCommand> = Vec::new();
        assert(drawings(frame@) =~= Seq::<Drawing>::empty());
        emit(&mut frame, DrawCommand::Clear);
        let play = match self.choice {
            MenuItem::Play => String::from_str("> Play <"),
            MenuItem::Difficulty => String::from_str("Play"),
        };
        emit(&mut frame, DrawCommand::PrintCentered { row: PLAY_ROW, text: play });

        let mut label = String::from_str("Difficulty: ");
        let name = self.difficulty.to_string();
        match self.choice {
            MenuItem::Difficulty => {
                label.append("< ");
                label.append(name.as_str());
                label.append(" >");
            },
            MenuItem::Play => {
                label.append(name.as_str());
            },
        }
        assert(label@ =~= self@.difficulty_label());
        emit(&mut frame, DrawCommand::PrintCentered { row: DIFFICULTY_ROW, text: label });
        emit(
            &mut frame,
            DrawCommand::PrintCentered {
                row: HINT_ROW,
                text: String::from_str("Use [UP], [DOWN] and [ENTER] to change and set selection."),
            },
        );
        match self.difficulty {
            Difficulty::Extreme2 => {
                emit(
                    &mut frame,
                    DrawCommand::PrintCentered {
                        row: DESCRIPTION_ROW,
                        text: String::from_str("Why the fuck would you even want this?"),
                    },
                );
                emit(
                    &mut frame,
                    DrawCommand::PrintCentered {
                        row: DESCRIPTION_ROW + 2,
                        text: self.difficulty.summary(),
                    },
                );
            },
            _ => {
                emit(
                    &mut frame,
                    DrawCommand::PrintCentered {
                        row: DESCRIPTION_ROW,
                        text: self.difficulty.summary(),
                    },
                );
            },
        }
        assert(drawings(frame@) =~= self@.frame());
        frame
    }

    /// One tick of the menu, in which `key` was pressed. The menu is drawn
    /// as it is before the key acts. Returns what the tick asks for, and
    /// what it draws.
    pub fn screen_tick(&mut self, key: Option<Key>) -> (out: (MenuEvent, Vec<DrawCommand>))
        ensures
            out.0 == old(self)@.tick_event(key),
            final(self)@ == old(self)@.ticked(key),
            drawings(out.1@) == old(self)@.frame(),
    {
        let frame = self.draw();
        match key {
            Some(k) => {
                let seen = match self.last_key {
                    Some(last) => last == k,
                    None => false,
                };
                if !seen {
                    match (k, self.choice) {
                        (Key::Left, MenuItem::Difficulty) => self.difficulty.decrease(),
                        (Key::Right, MenuItem::Difficulty) => self.difficulty.increase(),
                        (Key::Up, MenuItem::Difficulty) => {
                            self.choice = MenuItem::Play;
                        },
                        (Key::Down, MenuItem::Play) => {
                            self.choice = MenuItem::Difficulty;
                        },
                        (Key::Return, MenuItem::Play) => {
                            self.last_key = None;
                            return (MenuEvent::Play, frame);
                        },
                        (Key::Escape, _) => {
                            return (MenuEvent::Quit, frame);
                        },
                        _ => {},
                    }
                    self.last_key = Some(k);
                }
            },
            None => {
                if self.last_key.is_some() {
                    self.last_key = None;
                }
            },
        }
        (MenuEvent::Stay, frame)
    }
}

} // verus!
