//! What the keys of the keyboard do.
use vstd::prelude::*;

use crate::car::Direction;
use crate::chance::random_below;

verus! {

/// The keys the simulation reacts to.
#[derive(Clone, Copy, PartialEq, Eq, Structural, Debug)]
pub enum Key {
    Up,
    Down,
    Left,
    Right,
    R,
    Escape,
    Other,
}

/// What a key asks for.
#[derive(Clone, Copy, PartialEq, Eq, Structural, Debug)]
pub enum Command {
    /// Spawn a car heading `direction`, and record it in the lane list of
    /// `lane`.
    Spawn { direction: Direction, lane: Direction },
    /// Leave the simulation.
    Quit,
    /// Nothing.
    Nothing,
}

/// The spawn that a random number below four picks: a car in each of the four
/// directions; the one heading right is recorded in the list of the left lane.
pub open spec fn random_spawn(choice: u32) -> Command {
    if choice == 0 {
        Command::Spawn { direction: Direction::UP, lane: Direction::UP }
    } else if choice == 1 {
        Command::Spawn { direction: Direction::DOWN, lane: Direction::DOWN }
    } else if choice == 2 {
        Command::Spawn { direction: Direction::LEFT, lane: Direction::LEFT }
    } else {
        Command::Spawn { direction: Direction::RIGHT, lane: Direction::LEFT }
    }
}

/// The spawn for a random number below four (see [`random_spawn`]).
pub fn command_from_choice(choice: u32) -> (c: Command)
    ensures
        c == random_spawn(choice),
{
    if choice == 0 {
        Command::Spawn { direction: Direction::UP, lane: Direction::UP }
    } else if choice == 1 {
        Command::Spawn { direction: Direction::DOWN, lane: Direction::DOWN }
    } else if choice == 2 {
        Command::Spawn { direction: Direction::LEFT, lane: Direction::LEFT }
    } else {
        Command::Spawn { direction: Direction::RIGHT, lane: Direction::LEFT }
    }
}

/// What a key press asks for: an arrow key spawns a car heading that way, `R` a
/// car heading a random way, `Escape` quits.
pub fn command_for_key(key: Key) -> (c: Command)
    ensures
        key == Key::Up ==> c == (Command::Spawn { direction: Direction::UP, lane: Direction::UP }),
        key == Key::Down ==> c == (Command::Spawn {
            direction: Direction::DOWN,
            lane: Direction::DOWN,
        }),
        key == Key::Right ==> c == (Command::Spawn {
            direction: Direction::RIGHT,
            lane: Direction::RIGHT,
        }),
        key == Key::Left ==> c == (Command::Spawn {
            direction: Direction::LEFT,
            lane: Direction::LEFT,
        }),
        key == Key::R ==> exists|n: u32| n < 4 && c == random_spawn(n),
        key == Key::Escape ==> c == Command::Quit,
        key == Key::Other ==> c == Command::Nothing,
{
    match key {
        Key::Up => Command::Spawn { direction: Direction::UP, lane: Direction::UP },
        Key::Down => Command::Spawn { direction: Direction::DOWN, lane: Direction::DOWN },
        Key::Right => Command::Spawn { direction: Direction::RIGHT, lane: Direction::RIGHT },
        Key::Left => Command::Spawn { direction: Direction::LEFT, lane: Direction::LEFT },
        Key::R => {
            let choice = random_below(4);
            command_from_choice(choice)
        },
        Key::Escape => Command::Quit,
        Key::Other => Command::Nothing,
    }
}

/// The random key can spawn a car in every direction: the four numbers below
/// four give four different headings. Each car is recorded in the lane list of its
/// heading, but for the car heading right, which goes to the left lane's list.
pub proof fn law_random_spawns_every_way()
    ensures
        ({
            let d0 = random_spawn(0)->direction;
            let d1 = random_spawn(1)->direction;
            let d2 = random_spawn(2)->direction;
            let d3 = random_spawn(3)->direction;
            &&& d0 != d1 && d0 != d2 && d0 != d3 && d1 != d2 && d1 != d3 && d2 != d3
        }),
        forall|n: u32|
            #[trigger] random_spawn(n) is Spawn && (random_spawn(n)->lane == random_spawn(n)->direction
                || (random_spawn(n)->direction == Direction::RIGHT && random_spawn(n)->lane
                == Direction::LEFT)),
{
}

} // verus!
