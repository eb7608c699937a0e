//! Traffic lights: where they stand and what they show.
use vstd::prelude::*;

use crate::car::Direction;
use crate::geometry::{ratio, scaled, Line, Screen};

verus! {

/// What a light shows.
#[derive(Clone, Copy, PartialEq, Eq, Structural, Debug)]
pub enum Signal {
    Red,
    Green,
}

/// Which side of the junction a light guards, and the bar that it is drawn as.
#[allow(non_camel_case_types)]
#[derive(Clone, Copy, PartialEq, Eq, Structural, Debug)]
pub enum TrafficLightPosition {
    UP(i64, i64, i64, i64),
    DOWN(i64, i64, i64, i64),
    LEFT(i64, i64, i64, i64),
    RIGHT(i64, i64, i64, i64),
}

/// A traffic light.
#[derive(Clone, Copy, PartialEq, Eq, Structural, Debug)]
pub struct TrafficLight {
    pub color: Signal,
    pub position: TrafficLightPosition,
}

/// The bar that stands for a light on screen.
#[derive(Clone, Copy, PartialEq, Eq, Structural, Debug)]
pub struct LightBar {
    pub line: Line,
    pub color: Signal,
}

/// The colours of the four lights, each named by the side it guards.
#[derive(Clone, Copy, PartialEq, Eq, Structural, Debug)]
pub struct Signals {
    pub up: Signal,
    pub down: Signal,
    pub left: Signal,
    pub right: Signal,
}

/// The line of a light's bar.
pub open spec fn position_line(p: TrafficLightPosition) -> Line {
    match p {
        TrafficLightPosition::UP(x1, y1, x2, y2) => Line { x1, y1, x2, y2 },
        TrafficLightPosition::DOWN(x1, y1, x2, y2) => Line { x1, y1, x2, y2 },
        TrafficLightPosition::LEFT(x1, y1, x2, y2) => Line { x1, y1, x2, y2 },
        TrafficLightPosition::RIGHT(x1, y1, x2, y2) => Line { x1, y1, x2, y2 },
    }
}

/// The side of the junction a car heading `d` arrives on, whose light it obeys:
/// a car that drives right obeys the left light, and so on.
pub open spec fn arrival_side(d: Direction) -> Direction {
    match d {
        Direction::UP => Direction::DOWN,
        Direction::DOWN => Direction::UP,
        Direction::RIGHT => Direction::LEFT,
        Direction::LEFT => Direction::RIGHT,
    }
}

impl Signals {
    /// The colour of the light that guards side `side`.
    pub open spec fn at(self, side: Direction) -> Signal {
        match side {
            Direction::UP => self.up,
            Direction::DOWN => self.down,
            Direction::LEFT => self.left,
            Direction::RIGHT => self.right,
        }
    }

    /// The colour of the light a car heading `d` obeys.
    pub open spec fn facing(self, d: Direction) -> Signal {
        self.at(arrival_side(d))
    }

    /// Whether at most one of the four lights is green.
    pub open spec fn at_most_one_green(self) -> bool {
        forall|a: Direction, b: Direction|
            self.at(a) == Signal::Green && self.at(b) == Signal::Green ==> a == b
    }

    /// The colour of the light a car heading `d` obeys.
    pub fn facing_signal(&self, d: Direction) -> (s: Signal)
        ensures
            s == self.facing(d),
    {
        match d {
            Direction::UP => self.down,
            Direction::DOWN => self.up,
            Direction::RIGHT => self.left,
            Direction::LEFT => self.right,
        }
    }
}

/// All four lights red.
pub open spec fn all_red() -> Signals {
    Signals { up: Signal::Red, down: Signal::Red, left: Signal::Red, right: Signal::Red }
}

/// Green on side `side` only.
pub open spec fn green_only(side: Direction) -> Signals {
    Signals {
        up: if side == Direction::UP { Signal::Green } else { Signal::Red },
        down: if side == Direction::DOWN { Signal::Green } else { Signal::Red },
        left: if side == Direction::LEFT { Signal::Green } else { Signal::Red },
        right: if side == Direction::RIGHT { Signal::Green } else { Signal::Red },
    }
}

impl TrafficLight {
    /// A red light above the junction, sized for a screen of the given size.
    pub fn new(screen: Screen) -> (light: TrafficLight)
        ensures
            light.color == Signal::Red,
            light.position == TrafficLightPosition::UP(
                ratio(screen.width, 2, 5) as i64,
                ratio(screen.height, 5, 14) as i64,
                ratio(screen.width, 3, 5) as i64,
                ratio(screen.height, 5, 14) as i64,
            ),
    {
        let y = scaled(screen.height, 5, 14);
        TrafficLight {
            color: Signal::Red,
            position: TrafficLightPosition::UP(
                scaled(screen.width, 2, 5),
                y,
                scaled(screen.width, 3, 5),
                y,
            ),
        }
    }

    /// Places the light at `position` and gives the bar to draw for it.
    pub fn draw_traffic_light(&mut self, position: TrafficLightPosition) -> (bar: LightBar)
        ensures
            *final(self) == (TrafficLight { position, ..*old(self) }),
            bar == (LightBar { line: position_line(position), color: old(self).color }),
    {
        self.position = position;
        let line = match self.position {
            TrafficLightPosition::UP(x1, y1, x2, y2) => Line { x1, y1, x2, y2 },
            TrafficLightPosition::DOWN(x1, y1, x2, y2) => Line { x1, y1, x2, y2 },
            TrafficLightPosition::LEFT(x1, y1, x2, y2) => Line { x1, y1, x2, y2 },
            TrafficLightPosition::RIGHT(x1, y1, x2, y2) => Line { x1, y1, x2, y2 },
        };
        LightBar { line, color: self.color }
    }

    /// Switches the light to `color`.
    pub fn change_color(&mut self, color: Signal)
        ensures
            *final(self) == (TrafficLight { color, ..*old(self) }),
    {
        self.color = color
    }
}

/// At most one light is green once all are red, or once one side alone is green.
pub proof fn law_switching_shows_one_green(side: Direction)
    ensures
        all_red().at_most_one_green(),
        green_only(side).at_most_one_green(),
        green_only(side).at(side) == Signal::Green,
{
}

} // verus!
