//! Difficulty levels and the two tunables each of them sets.

use vstd::prelude::*;
use vstd::string::StringExecFns;
use crate::text::{decimal, push_decimal};

verus! {

/// How hard a game is. The levels are ordered from `Easy` to `Extreme2`.
#[derive(Debug, Clone, Copy, PartialEq, Eq, Structural)]
pub enum Difficulty {
    Easy,
    Normal,
    Hard,
    Extreme,
    Extreme2,
}

impl Difficulty {
    /// Position of the level in the order, from `0` for `Easy` to `4` for
    /// `Extreme2`.
    pub open spec fn rank(self) -> int {
        match self {
            Self::Easy => 0,
            Self::Normal => 1,
            Self::Hard => 2,
            Self::Extreme => 3,
            Self::Extreme2 => 4,
        }
    }

    /// The level at a position of the order; positions outside `0..=4` are
    /// clamped to the nearest end.
    pub open spec fn at_rank(rank: int) -> Self {
        if rank <= 0 {
            Self::Easy
        } else if rank == 1 {
            Self::Normal
        } else if rank == 2 {
            Self::Hard
        } else if rank == 3 {
            Self::Extreme
        } else {
            Self::Extreme2
        }
    }

    /// The next harder level; the hardest level is its own successor.
    pub open spec fn harder(self) -> Self {
        Self::at_rank(self.rank() + 1)
    }

    /// The next easier level; the easiest level is its own predecessor.
    pub open spec fn easier(self) -> Self {
        Self::at_rank(self.rank() - 1)
    }

    /// The level after a walk along the order: a step up for each `true`,
    /// a step down for each `false`, in the order of `steps`.
    pub open spec fn walked(self, steps: Seq<bool>) -> Self
        decreases steps.len(),
    {
        if steps.len() == 0 {
            self
        } else if steps.last() {
            self.walked(steps.drop_last()).harder()
        } else {
            self.walked(steps.drop_last()).easier()
        }
    }

    /// Milliseconds between two steps of the snake.
    pub open spec fn interval_ms(self) -> nat {
        match self {
            Self::Easy => 55,
            Self::Normal => 40,
            Self::Hard => 35,
            Self::Extreme => 20,
            Self::Extreme2 => 16,
        }
    }

    /// Seconds for which food stays on the field.
    pub open spec fn lifetime_secs(self) -> nat {
        match self {
            Self::Easy => 20,
            Self::Normal => 10,
            Self::Hard => 8,
            Self::Extreme => 7,
            Self::Extreme2 => 8,
        }
    }

    /// The name shown in the menu.
    pub open spec fn name(self) -> Seq<char> {
        match self {
            Self::Easy => "Easy"@,
            Self::Normal => "Normal"@,
            Self::Hard => "Hard"@,
            Self::Extreme => "Extreme"@,
            Self::Extreme2 => "HONDA CIVIC"@,
        }
    }

    /// The sentence that states the two tunables of the level.
    pub open spec fn summary_text(self) -> Seq<char> {
        "Snake moves every "@ + decimal(self.interval_ms()) + "ms and food lasts for "@ + decimal(
            self.lifetime_secs(),
        ) + " seconds"@
    }

    /// The lines of the description, top to bottom. The hardest level has a
    /// line of its own above the summary.
    pub open spec fn description_lines(self) -> Seq<Seq<char>> {
        if self == Self::Extreme2 {
            seq!["Why the fuck would you even want this?"@, self.summary_text()]
        } else {
            seq![self.summary_text()]
        }
    }

    /// The description as one text, its lines separated by a line feed.
    pub open spec fn description_text(self) -> Seq<char> {
        if self == Self::Extreme2 {
            "Why the fuck would you even want this?\n"@ + self.summary_text()
        } else {
            self.summary_text()
        }
    }

    /// Milliseconds between two steps of the snake.
    pub fn snake_move_interval(self) -> (ms: u128)
        ensures
            ms == self.interval_ms(),
    {
        match self {
            Self::Easy => 55,
            Self::Normal => 40,
            Self::Hard => 35,
            Self::Extreme => 20,
            Self::Extreme2 => 16,
        }
    }

    /// Seconds for which food stays on the field.
    pub fn food_lifetime(self) -> (secs: u64)
        ensures
            secs == self.lifetime_secs(),
    {
        match self {
            Self::Easy => 20,
            Self::Normal => 10,
            Self::Hard | Self::Extreme2 => 8,
            Self::Extreme => 7,
        }
    }

    /// Steps to the next harder level, or stays at the hardest.
    pub fn increase(&mut self)
        ensures
            *final(self) == old(self).harder(),
    {
        *self = match *self {
            Self::Easy => Self::Normal,
            Self::Normal => Self::Hard,
            Self::Hard => Self::Extreme,
            Self::Extreme | Self::Extreme2 => Self::Extreme2,
        }
    }

    /// Steps to the next easier level, or stays at the easiest.
    pub fn decrease(&mut self)
        ensures
            *final(self) == old(self).easier(),
    {
        *self = match *self {
            Self::Extreme2 => Self::Extreme,
            Self::Extreme => Self::Hard,
            Self::Hard => Self::Normal,
            Self::Normal | Self::Easy => Self::Easy,
        }
    }

    /// The sentence that states the two tunables of the level.
    pub fn summary(self) -> (text: String)
        ensures
            text@ == self.summary_text(),
    {
        let mut text = String::from_str("Snake moves every ");
        push_decimal(&mut text, self.snake_move_interval());
        text.append("ms and food lasts for ");
        push_decimal(&mut text, self.food_lifetime() as u128);
        text.append(" seconds");
        text
    }

    /// The description shown below the menu.
    pub fn description(self) -> (text: String)
        ensures
            text@ == self.description_text(),
    {
        match self {
            Self::Extreme2 => {
                let mut text = String::from_str("Why the fuck would you even want this?\n");
                let summary = self.summary();
                text.append(summary.as_str());
                text
            },
            _ => self.summary(),
        }
    }

    /// The name of the level as the menu shows it.
    pub fn to_string(&self) -> (text: String)
        ensures
            text@ == self.name(),
    {
        String::from_str(
            match self {
                Self::Easy => "Easy",
                Self::Normal => "Normal",
                Self::Hard => "Hard",
                Self::Extreme => "Extreme",
                Self::Extreme2 => "HONDA CIVIC",
            },
        )
    }
}

/// A step up or down moves one place along the order and stops at its
/// ends: the hardest level stays the hardest, the easiest the easiest.
pub proof fn lemma_steps_are_clamped(level: Difficulty)
    ensures
        level.harder().rank() == if level.rank() < 4 {
            level.rank() + 1
        } else {
            4
        },
        level.easier().rank() == if level.rank() > 0 {
            level.rank() - 1
        } else {
            0
        },
        Difficulty::Extreme2.harder() == Difficulty::Extreme2,
        Difficulty::Easy.easier() == Difficulty::Easy,
{
}

/// However many steps up and down are taken, the level stays one of the
/// five, between `Easy` and `Extreme2`.
pub proof fn lemma_walks_stay_in_range(level: Difficulty, steps: Seq<bool>)
    ensures
        0 <= level.walked(steps).rank() <= 4,
        Difficulty::at_rank(level.walked(steps).rank()) == level.walked(steps),
    decreases steps.len(),
{
    if steps.len() > 0 {
        lemma_walks_stay_in_range(level, steps.drop_last());
    }
}

/// The description is made of its lines: one line for most levels, and
/// for the hardest level two lines with a line feed between them.
pub proof fn lemma_description_is_its_lines(level: Difficulty)
    ensures
        level != Difficulty::Extreme2 ==> level.description_lines().len() == 1
            && level.description_text() == level.description_lines()[0],
        level == Difficulty::Extreme2 ==> level.description_lines().len() == 2
            && level.description_text() == level.description_lines()[0] + seq!['\n']
            + level.description_lines()[1],
{
    reveal_strlit("Why the fuck would you even want this?\n");
    reveal_strlit("Why the fuck would you even want this?");
    if level == Difficulty::Extreme2 {
        assert("Why the fuck would you even want this?\n"@
            =~= "Why the fuck would you even want this?"@ + seq!['\n']);
        assert(level.description_text() =~= level.description_lines()[0] + seq!['\n']
            + level.description_lines()[1]);
    }
}

impl Default for Difficulty {
    fn default() -> (d: Self)
        ensures
            d == Difficulty::Normal,
    {
        Difficulty::Normal
    }
}

} // verus!
