//! Cars: how they are spawned, how they drive, turn and pass their light.
use vstd::prelude::*;

use crate::chance::random_below;
use crate::geometry::{ratio, scaled, shift, shifted, Screen, REACH, FAR, LANE_HIGH, LANE_LOW, MIDDLE, NEAR, STEP, TURN_MARGIN};

verus! {

/// The way a car is heading, in screen terms (`UP` is towards smaller `y`).
#[allow(non_camel_case_types)]
#[derive(Clone, Copy, PartialEq, Eq, Structural, Debug)]
pub enum Direction {
    UP,
    DOWN,
    RIGHT,
    LEFT,
}

/// What a car does once it reaches the junction.
#[derive(Clone, Copy, PartialEq, Eq, Structural, Debug)]
pub enum AtTheCrossroads {
    ContinueForward,
    TurnRight,
    TurnLeft,
}

/// The colour a car is painted in; it tells its route.
#[derive(Clone, Copy, PartialEq, Eq, Structural, Debug)]
pub enum CarColor {
    Pink,
    Gold,
    Beige,
}

/// The top-left corner of a car.
#[derive(Clone, Copy, PartialEq, Eq, Structural, Debug)]
pub struct CarPosition {
    pub x: i64,
    pub y: i64,
}

/// The rectangle that stands for a car on screen.
#[derive(Clone, Copy, PartialEq, Eq, Structural, Debug)]
pub struct CarRect {
    pub x: i64,
    pub y: i64,
    pub width: i64,
    pub height: i64,
    pub color: CarColor,
}

/// A car of the simulation.
#[derive(Clone, Copy, PartialEq, Eq, Structural, Debug)]
pub struct Car {
    pub id: u64,
    pub height: i64,
    pub width: i64,
    pub direction: Direction,
    pub at_the_crossroads: AtTheCrossroads,
    pub position: CarPosition,
    pub color: CarColor,
    pub has_turned: bool,
    pub passed_traffic_light: bool,
    pub passed_intersection: bool,
    pub in_move: i64,
}

// ---------------------------------------------------------------------------
// The mathematical model
// ---------------------------------------------------------------------------

/// The direction after a quarter turn to the right (clockwise on screen).
pub open spec fn clockwise(d: Direction) -> Direction {
    match d {
        Direction::UP => Direction::RIGHT,
        Direction::RIGHT => Direction::DOWN,
        Direction::DOWN => Direction::LEFT,
        Direction::LEFT => Direction::UP,
    }
}

/// The direction after a quarter turn to the left.
pub open spec fn counterclockwise(d: Direction) -> Direction {
    match d {
        Direction::UP => Direction::LEFT,
        Direction::LEFT => Direction::DOWN,
        Direction::DOWN => Direction::RIGHT,
        Direction::RIGHT => Direction::UP,
    }
}

/// The colour that goes with a route.
pub open spec fn route_color(route: AtTheCrossroads) -> CarColor {
    match route {
        AtTheCrossroads::ContinueForward => CarColor::Pink,
        AtTheCrossroads::TurnRight => CarColor::Gold,
        AtTheCrossroads::TurnLeft => CarColor::Beige,
    }
}

/// The route drawn by a random number below three.
pub open spec fn route_for_choice(choice: u32) -> AtTheCrossroads {
    if choice == 0 {
        AtTheCrossroads::ContinueForward
    } else if choice == 1 {
        AtTheCrossroads::TurnLeft
    } else {
        AtTheCrossroads::TurnRight
    }
}

/// Where a car heading `direction` enters a screen of the given size.
pub open spec fn spawn_point(direction: Direction, screen: Screen) -> CarPosition {
    match direction {
        Direction::UP => CarPosition { x: LANE_HIGH, y: ratio(screen.height, 10, 9) as i64 },
        Direction::DOWN => CarPosition { x: LANE_LOW, y: (-ratio(screen.height, 1, 10)) as i64 },
        Direction::RIGHT => CarPosition { x: (-ratio(screen.width, 1, 16)) as i64, y: LANE_HIGH },
        Direction::LEFT => CarPosition {
            x: (screen.width + ratio(screen.width, 1, 5000)) as i64,
            y: LANE_LOW,
        },
    }
}

/// A freshly spawned car.
pub open spec fn spawned(
    direction: Direction,
    id: u64,
    route: AtTheCrossroads,
    screen: Screen,
) -> Car {
    Car {
        id,
        height: ratio(screen.height, 1, 20) as i64,
        width: ratio(screen.width, 1, 20) as i64,
        direction,
        at_the_crossroads: route,
        position: spawn_point(direction, screen),
        color: route_color(route),
        has_turned: false,
        passed_traffic_light: false,
        passed_intersection: false,
        in_move: 0,
    }
}

/// The rectangle a car occupies.
pub open spec fn rect_of(c: Car) -> CarRect {
    CarRect {
        x: c.position.x,
        y: c.position.y,
        width: c.width,
        height: c.height,
        color: c.color,
    }
}

/// Whether the front of the car is past its traffic light.
pub open spec fn beyond_light(c: Car) -> bool {
    match c.direction {
        Direction::UP => c.position.y + c.height < FAR,
        Direction::DOWN => c.position.y > NEAR,
        Direction::LEFT => c.position.x + c.width < FAR,
        Direction::RIGHT => c.position.x > NEAR,
    }
}

/// The car after it has looked whether it is past its light: the flag is set,
/// and never cleared.
pub open spec fn light_checked(c: Car) -> Car {
    if beyond_light(c) {
        Car { passed_traffic_light: true, ..c }
    } else {
        c
    }
}

/// Whether the car has left the junction on the far side.
pub open spec fn beyond_junction(c: Car) -> bool {
    match c.direction {
        Direction::UP => c.position.y < NEAR,
        Direction::DOWN => c.position.y + c.height > FAR,
        Direction::LEFT => c.position.x > NEAR,
        Direction::RIGHT => c.position.x + c.width > FAR,
    }
}

/// The direction a car takes now, if it turns now: a car turns once, by its
/// route, when it has come far enough into the junction.
pub open spec fn turn_target(c: Car) -> Option<Direction> {
    if c.has_turned {
        None
    } else {
        let x = c.position.x;
        let y = c.position.y;
        let w = c.width;
        let h = c.height;
        match (c.direction, c.at_the_crossroads) {
            (Direction::RIGHT, AtTheCrossroads::TurnRight) => if x - w + TURN_MARGIN > NEAR {
                Some(Direction::DOWN)
            } else {
                None
            },
            (Direction::RIGHT, AtTheCrossroads::TurnLeft) => if x - h + TURN_MARGIN > MIDDLE {
                Some(Direction::UP)
            } else {
                None
            },
            (Direction::LEFT, AtTheCrossroads::TurnRight) => if x + w + TURN_MARGIN < FAR {
                Some(Direction::UP)
            } else {
                None
            },
            (Direction::LEFT, AtTheCrossroads::TurnLeft) => if x + w + TURN_MARGIN < MIDDLE {
                Some(Direction::DOWN)
            } else {
                None
            },
            (Direction::DOWN, AtTheCrossroads::TurnRight) => if y - h + TURN_MARGIN > NEAR {
                Some(Direction::LEFT)
            } else {
                None
            },
            (Direction::DOWN, AtTheCrossroads::TurnLeft) => if y - h + TURN_MARGIN > MIDDLE {
                Some(Direction::RIGHT)
            } else {
                None
            },
            (Direction::UP, AtTheCrossroads::TurnLeft) => if y + h + TURN_MARGIN < MIDDLE {
                Some(Direction::LEFT)
            } else {
                None
            },
            (Direction::UP, AtTheCrossroads::TurnRight) => if y + h + TURN_MARGIN < FAR {
                Some(Direction::RIGHT)
            } else {
                None
            },
            _ => None,
        }
    }
}

/// The car after the turning rule, without the look at the light.
pub open spec fn turn_applied(c: Car) -> Car {
    match turn_target(c) {
        Some(d) => Car { has_turned: true, direction: d, ..c },
        None => c,
    }
}

/// The car after [`Car::turn`]: it first looks at its light, then turns if due.
pub open spec fn turned(c: Car) -> Car {
    turn_applied(light_checked(c))
}

/// The car moved one step the way it is heading.
pub open spec fn stepped(c: Car) -> Car {
    let p = c.position;
    let q = match c.direction {
        Direction::RIGHT => CarPosition { x: shift(p.x, STEP as int), y: p.y },
        Direction::LEFT => CarPosition { x: shift(p.x, -STEP), y: p.y },
        Direction::UP => CarPosition { x: p.x, y: shift(p.y, -STEP) },
        Direction::DOWN => CarPosition { x: p.x, y: shift(p.y, STEP as int) },
    };
    Car { position: q, ..c }
}

/// The car after one call of [`Car::drive_car`].
pub open spec fn driven(c: Car) -> Car {
    stepped(turned(c))
}

/// What a stopped car shows: itself, unless it has already turned.
pub open spec fn stopped_drawing(c: Car) -> Seq<CarRect> {
    if c.has_turned {
        seq![]
    } else {
        seq![rect_of(c)]
    }
}


// ---------------------------------------------------------------------------
// Laws of a single car
// ---------------------------------------------------------------------------

/// The change of position of one step heading `d`.
pub open spec fn heading_delta(d: Direction) -> (int, int) {
    match d {
        Direction::RIGHT => (STEP as int, 0),
        Direction::LEFT => (-STEP, 0),
        Direction::UP => (0, -STEP),
        Direction::DOWN => (0, STEP as int),
    }
}

/// A car turns at most once: after it has turned, the turning rule leaves it
/// heading the way it heads.
pub proof fn law_turn_at_most_once(c: Car)
    requires
        c.has_turned,
    ensures
        turned(c).direction == c.direction,
        turned(c).has_turned,
        driven(c).direction == c.direction,
{
}

/// A car changes its heading only by its route: a right turn is a quarter turn
/// clockwise, a left turn a quarter turn counterclockwise, a car that goes
/// straight on never turns, and a car that turns is marked as turned.
pub proof fn law_turn_follows_route(c: Car)
    ensures
        turned(c).direction != c.direction ==> {
            &&& !c.has_turned
            &&& turned(c).has_turned
            &&& c.at_the_crossroads != AtTheCrossroads::ContinueForward
            &&& c.at_the_crossroads == AtTheCrossroads::TurnRight ==> turned(c).direction
                == clockwise(c.direction)
            &&& c.at_the_crossroads == AtTheCrossroads::TurnLeft ==> turned(c).direction
                == counterclockwise(c.direction)
        },
        c.at_the_crossroads == AtTheCrossroads::ContinueForward ==> driven(c).direction
            == c.direction,
{
}

/// A new car enters on its own lane from outside the screen, heading into it: a
/// car heading up enters at the right lane of the lower road at or below the
/// bottom edge, one heading down at the left lane of the upper road at or above
/// the top edge, one heading right on the lower lane of the left road at or left
/// of the left edge, one heading left on the upper lane of the right road at or
/// right of the right edge. Its size is a twentieth of the screen (to the nearest
/// unit), it has neither turned nor passed anything, and its colour tells its
/// route.
pub proof fn law_spawn(direction: Direction, id: u64, route: AtTheCrossroads, screen: Screen)
    ensures
        ({
            let c = spawned(direction, id, route, screen);
            &&& c.id == id && c.direction == direction && c.at_the_crossroads == route
            &&& direction == Direction::UP ==> c.position.x == LANE_HIGH && c.position.y
                >= screen.height
            &&& direction == Direction::DOWN ==> c.position.x == LANE_LOW && c.position.y <= 0
            &&& direction == Direction::RIGHT ==> c.position.y == LANE_HIGH && c.position.x <= 0
            &&& direction == Direction::LEFT ==> c.position.y == LANE_LOW && c.position.x
                >= screen.width
            &&& -10 < 20 * c.height - screen.height <= 10
            &&& -10 < 20 * c.width - screen.width <= 10
            &&& !c.has_turned && !c.passed_traffic_light && !c.passed_intersection
            &&& (c.color == CarColor::Pink) == (route == AtTheCrossroads::ContinueForward)
            &&& (c.color == CarColor::Gold) == (route == AtTheCrossroads::TurnRight)
            &&& (c.color == CarColor::Beige) == (route == AtTheCrossroads::TurnLeft)
        }),
{
    let w = screen.width as int;
    let h = screen.height as int;
    assert(ratio(screen.height, 10, 9) == (20 * h + 9) / 18);
    assert(ratio(screen.height, 1, 20) == (2 * h + 20) / 40);
    assert(ratio(screen.width, 1, 20) == (2 * w + 20) / 40);
    assert(ratio(screen.height, 1, 10) == (2 * h + 10) / 20);
    assert(ratio(screen.width, 1, 16) == (2 * w + 16) / 32);
    assert(ratio(screen.width, 1, 5000) == (2 * w + 5000) / 10000);
}

/// A car spawned on a screen at least as wide and high as the junction's far edge
/// starts short of its light.
pub proof fn law_spawn_before_light(
    direction: Direction,
    id: u64,
    route: AtTheCrossroads,
    screen: Screen,
)
    requires
        screen.width >= FAR,
        screen.height >= FAR,
    ensures
        ({
            let c = spawned(direction, id, route, screen);
            &&& direction == Direction::UP ==> c.position.y > FAR
            &&& direction == Direction::DOWN ==> c.position.y + c.height < NEAR
            &&& direction == Direction::RIGHT ==> c.position.x + c.width < NEAR
            &&& direction == Direction::LEFT ==> c.position.x > FAR
            &&& !beyond_light(c)
        }),
{
    let w = screen.width as int;
    let h = screen.height as int;
    assert(ratio(screen.height, 10, 9) == (20 * h + 9) / 18);
    assert(ratio(screen.height, 1, 20) == (2 * h + 20) / 40);
    assert(ratio(screen.width, 1, 20) == (2 * w + 20) / 40);
    assert(ratio(screen.height, 1, 10) == (2 * h + 10) / 20);
    assert(ratio(screen.width, 1, 16) == (2 * w + 16) / 32);
    assert(ratio(screen.width, 1, 5000) == (2 * w + 5000) / 10000);
}

/// Every route can be drawn: the three numbers below three give three different
/// routes (and there are three routes).
pub proof fn law_every_route_drawn()
    ensures
        route_for_choice(0) != route_for_choice(1),
        route_for_choice(0) != route_for_choice(2),
        route_for_choice(1) != route_for_choice(2),
{
}

/// Where a car turns. A car that has not turned yet and whose route turns it
/// takes the quarter turn of its route as soon as it has come far enough into the
/// junction, and heads on as before until then:
/// - heading up: right once its back (`y + height`) plus the margin is above the
///   far edge, left once that is above the centre line;
/// - heading down: right once `y - height` plus the margin is below the near edge,
///   left once that is below the centre line;
/// - heading left: right once `x + width` plus the margin is left of the far edge,
///   left once that is left of the centre line;
/// - heading right: right once `x - width` plus the margin is right of the near
///   edge, left once `x - height` plus the margin is right of the centre line.
/// A car marks itself as turned exactly when it turns.
pub proof fn law_turn_points(c: Car)
    requires
        !c.has_turned,
    ensures
        turned(c).has_turned == (turned(c).direction != c.direction),
        c.at_the_crossroads == AtTheCrossroads::ContinueForward ==> turned(c).direction
            == c.direction,
        c.direction == Direction::UP && c.at_the_crossroads == AtTheCrossroads::TurnRight
            ==> turned(c).direction == (if c.position.y + c.height + TURN_MARGIN < FAR {
            Direction::RIGHT
        } else {
            Direction::UP
        }),
        c.direction == Direction::UP && c.at_the_crossroads == AtTheCrossroads::TurnLeft
            ==> turned(c).direction == (if c.position.y + c.height + TURN_MARGIN < MIDDLE {
            Direction::LEFT
        } else {
            Direction::UP
        }),
        c.direction == Direction::DOWN && c.at_the_crossroads == AtTheCrossroads::TurnRight
            ==> turned(c).direction == (if c.position.y - c.height + TURN_MARGIN > NEAR {
            Direction::LEFT
        } else {
            Direction::DOWN
        }),
        c.direction == Direction::DOWN && c.at_the_crossroads == AtTheCrossroads::TurnLeft
            ==> turned(c).direction == (if c.position.y - c.height + TURN_MARGIN > MIDDLE {
            Direction::RIGHT
        } else {
            Direction::DOWN
        }),
        c.direction == Direction::LEFT && c.at_the_crossroads == AtTheCrossroads::TurnRight
            ==> turned(c).direction == (if c.position.x + c.width + TURN_MARGIN < FAR {
            Direction::UP
        } else {
            Direction::LEFT
        }),
        c.direction == Direction::LEFT && c.at_the_crossroads == AtTheCrossroads::TurnLeft
            ==> turned(c).direction == (if c.position.x + c.width + TURN_MARGIN < MIDDLE {
            Direction::DOWN
        } else {
            Direction::LEFT
        }),
        c.direction == Direction::RIGHT && c.at_the_crossroads == AtTheCrossroads::TurnRight
            ==> turned(c).direction == (if c.position.x - c.width + TURN_MARGIN > NEAR {
            Direction::DOWN
        } else {
            Direction::RIGHT
        }),
        c.direction == Direction::RIGHT && c.at_the_crossroads == AtTheCrossroads::TurnLeft
            ==> turned(c).direction == (if c.position.x - c.height + TURN_MARGIN > MIDDLE {
            Direction::UP
        } else {
            Direction::RIGHT
        }),
{
}

/// When a car counts as past its light: heading up once its back (`y + height`)
/// is above the far edge of the junction, heading down once its top (`y`) is below
/// the near edge, heading left once its back (`x + width`) is left of the far edge,
/// heading right once its front (`x`) is right of the near edge. The flag is never
/// cleared, and nothing else of the car changes.
pub proof fn law_light_rule(c: Car)
    ensures
        light_checked(c).passed_traffic_light == (c.passed_traffic_light || match c.direction {
            Direction::UP => c.position.y + c.height < FAR,
            Direction::DOWN => c.position.y > NEAR,
            Direction::LEFT => c.position.x + c.width < FAR,
            Direction::RIGHT => c.position.x > NEAR,
        }),
        light_checked(c) == (Car {
            passed_traffic_light: light_checked(c).passed_traffic_light,
            ..c
        }),
{
}

/// When a car counts as out of the junction: heading up once its top is above the
/// near edge, heading down once its back (`y + height`) is below the far edge,
/// heading left once `x` is right of the near edge, heading right once its back
/// (`x + width`) is right of the far edge.
pub proof fn law_junction_exit_rule(c: Car)
    ensures
        beyond_junction(c) == match c.direction {
            Direction::UP => c.position.y < NEAR,
            Direction::DOWN => c.position.y + c.height > FAR,
            Direction::LEFT => c.position.x > NEAR,
            Direction::RIGHT => c.position.x + c.width > FAR,
        },
{
}

/// Each drive moves a car by exactly one step the way it heads after the turning
/// rule, unless that step would leave the reach of the coordinates.
pub proof fn law_drive_one_step(c: Car)
    requires
        -REACH + STEP <= c.position.x <= REACH - STEP,
        -REACH + STEP <= c.position.y <= REACH - STEP,
    ensures
        driven(c).position.x == c.position.x + heading_delta(turned(c).direction).0,
        driven(c).position.y == c.position.y + heading_delta(turned(c).direction).1,
{
}

/// Driving keeps what makes a car that car, and a car that has passed its light
/// or has turned stays so.
pub proof fn law_drive_keeps_car(c: Car)
    ensures
        driven(c).id == c.id,
        driven(c).at_the_crossroads == c.at_the_crossroads,
        driven(c).color == c.color,
        driven(c).width == c.width,
        driven(c).height == c.height,
        driven(c).passed_intersection == c.passed_intersection,
        c.passed_traffic_light ==> driven(c).passed_traffic_light,
        c.has_turned ==> driven(c).has_turned,
{
}


/// Whether every car of `cars` has an id below `bound`.
pub open spec fn ids_below(cars: Seq<Car>, bound: u64) -> bool {
    forall|k: int| 0 <= k < cars.len() ==> (#[trigger] cars[k]).id < bound
}

/// Whether no two cars of `cars` share an id.
pub open spec fn ids_distinct(cars: Seq<Car>) -> bool {
    forall|i: int, j: int| 0 <= i < j < cars.len() ==> (#[trigger] cars[i]).id != (#[trigger] cars[j]).id
}

/// Every car gets a fresh id: a car queued with the current counter (as
/// [`Car::add`] does) differs in id from every car queued before, and the
/// counter stays above them all.
pub proof fn law_fresh_ids(cars: Seq<Car>, car_id: u64, new_car: Car)
    requires
        ids_below(cars, car_id),
        ids_distinct(cars),
        new_car.id == car_id,
        car_id < u64::MAX,
    ensures
        ids_below(cars.push(new_car), (car_id + 1) as u64),
        ids_distinct(cars.push(new_car)),
{
    let s = cars.push(new_car);
    assert forall|i: int, j: int| 0 <= i < j < s.len() implies (#[trigger] s[i]).id != (
    #[trigger] s[j]).id by {
        if j == cars.len() {
            assert(s[i] == cars[i]);
        } else {
            assert(s[i] == cars[i] && s[j] == cars[j]);
        }
    }
}

// ---------------------------------------------------------------------------
// Executable code
// ---------------------------------------------------------------------------

/// The route for a random number below three.
pub fn route_from_choice(choice: u32) -> (route: AtTheCrossroads)
    ensures
        route == route_for_choice(choice),
{
    if choice == 0 {
        AtTheCrossroads::ContinueForward
    } else if choice == 1 {
        AtTheCrossroads::TurnLeft
    } else {
        AtTheCrossroads::TurnRight
    }
}

impl Car {
    /// A new car heading `direction` with a route drawn at random.
    pub fn new(direction: Direction, car_id: u64, screen: Screen) -> (car: Car)
        ensures
            car == spawned(direction, car_id, car.at_the_crossroads, screen),
    {
        let choice = random_below(3);
        Car::spawn(direction, car_id, route_from_choice(choice), screen)
    }

    /// A new car heading `direction` with the given route.
    pub fn spawn(direction: Direction, car_id: u64, route: AtTheCrossroads, screen: Screen) -> (car:
        Car)
        ensures
            car == spawned(direction, car_id, route, screen),
    {
        let color = match route {
            AtTheCrossroads::ContinueForward => CarColor::Pink,
            AtTheCrossroads::TurnRight => CarColor::Gold,
            AtTheCrossroads::TurnLeft => CarColor::Beige,
        };
        let w = screen.width as i64;
        let position = match direction {
            Direction::UP => CarPosition { x: LANE_HIGH, y: scaled(screen.height, 10, 9) },
            Direction::DOWN => CarPosition { x: LANE_LOW, y: -scaled(screen.height, 1, 10) },
            Direction::RIGHT => CarPosition { x: -scaled(screen.width, 1, 16), y: LANE_HIGH },
            Direction::LEFT => CarPosition { x: w + scaled(screen.width, 1, 5000), y: LANE_LOW },
        };
        Car {
            id: car_id,
            height: scaled(screen.height, 1, 20),
            width: scaled(screen.width, 1, 20),
            direction,
            at_the_crossroads: route,
            position,
            color,
            has_turned: false,
            passed_traffic_light: false,
            passed_intersection: false,
            in_move: 0,
        }
    }

    /// Spawns a car heading `direction` with a fresh id, and queues it both in
    /// `lane` and in `traffic`.
    pub fn add(
        direction: Direction,
        car_id: &mut u64,
        lane: &mut Vec<Car>,
        traffic: &mut Vec<Car>,
        screen: Screen,
    )
        requires
            *old(car_id) < u64::MAX,
        ensures
            *final(car_id) == *old(car_id) + 1,
            final(lane)@.len() == old(lane)@.len() + 1,
            final(lane)@.drop_last() == old(lane)@,
            final(traffic)@ == old(traffic)@.push(final(lane)@.last()),
            final(lane)@.last() == spawned(
                direction,
                *old(car_id),
                final(lane)@.last().at_the_crossroads,
                screen,
            ),
    {
        let car = Car::new(direction, *car_id, screen);
        *car_id = *car_id + 1;
        lane.push(car);
        traffic.push(car);
    }

    /// Spawns a car that drives right (see [`Car::add`]).
    pub fn add_right(car_id: &mut u64, right_vec: &mut Vec<Car>, traffic: &mut Vec<Car>, screen: Screen)
        requires
            *old(car_id) < u64::MAX,
        ensures
            *final(car_id) == *old(car_id) + 1,
            final(right_vec)@.len() == old(right_vec)@.len() + 1,
            final(right_vec)@.drop_last() == old(right_vec)@,
            final(traffic)@ == old(traffic)@.push(final(right_vec)@.last()),
            final(right_vec)@.last() == spawned(
                Direction::RIGHT,
                *old(car_id),
                final(right_vec)@.last().at_the_crossroads,
                screen,
            ),
    {
        Car::add(Direction::RIGHT, car_id, right_vec, traffic, screen);
    }

    /// Spawns a car that drives up (see [`Car::add`]).
    pub fn add_up(car_id: &mut u64, up_vec: &mut Vec<Car>, traffic: &mut Vec<Car>, screen: Screen)
        requires
            *old(car_id) < u64::MAX,
        ensures
            *final(car_id) == *old(car_id) + 1,
            final(up_vec)@.len() == old(up_vec)@.len() + 1,
            final(up_vec)@.drop_last() == old(up_vec)@,
            final(traffic)@ == old(traffic)@.push(final(up_vec)@.last()),
            final(up_vec)@.last() == spawned(
                Direction::UP,
                *old(car_id),
                final(up_vec)@.last().at_the_crossroads,
                screen,
            ),
    {
        Car::add(Direction::UP, car_id, up_vec, traffic, screen);
    }

    /// Spawns a car that drives down (see [`Car::add`]).
    pub fn add_down(car_id: &mut u64, down_vec: &mut Vec<Car>, traffic: &mut Vec<Car>, screen: Screen)
        requires
            *old(car_id) < u64::MAX,
        ensures
            *final(car_id) == *old(car_id) + 1,
            final(down_vec)@.len() == old(down_vec)@.len() + 1,
            final(down_vec)@.drop_last() == old(down_vec)@,
            final(traffic)@ == old(traffic)@.push(final(down_vec)@.last()),
            final(down_vec)@.last() == spawned(
                Direction::DOWN,
                *old(car_id),
                final(down_vec)@.last().at_the_crossroads,
                screen,
            ),
    {
        Car::add(Direction::DOWN, car_id, down_vec, traffic, screen);
    }

    /// Spawns a car that drives left (see [`Car::add`]).
    pub fn add_left(car_id: &mut u64, left_vec: &mut Vec<Car>, traffic: &mut Vec<Car>, screen: Screen)
        requires
            *old(car_id) < u64::MAX,
        ensures
            *final(car_id) == *old(car_id) + 1,
            final(left_vec)@.len() == old(left_vec)@.len() + 1,
            final(left_vec)@.drop_last() == old(left_vec)@,
            final(traffic)@ == old(traffic)@.push(final(left_vec)@.last()),
            final(left_vec)@.last() == spawned(
                Direction::LEFT,
                *old(car_id),
                final(left_vec)@.last().at_the_crossroads,
                screen,
            ),
    {
        Car::add(Direction::LEFT, car_id, left_vec, traffic, screen);
    }

    /// Moves the car to `position` and gives it the given size; its colour stays.
    pub fn draw_car(&mut self, position: CarPosition, height: i64, width: i64)
        ensures
            *final(self) == (Car { position, height, width, ..*old(self) }),
    {
        self.position.x = position.x;
        self.position.y = position.y;
        self.height = height;
        self.width = width;
    }

    /// The rectangle this car occupies.
    pub fn rect(&self) -> (r: CarRect)
        ensures
            r == rect_of(*self),
    {
        CarRect {
            x: self.position.x,
            y: self.position.y,
            width: self.width,
            height: self.height,
            color: self.color,
        }
    }

    /// A standing car: it stays where it is, and shows itself unless it has turned.
    pub fn stop_car(&self) -> (shown: Option<CarRect>)
        ensures
            shown == (if self.has_turned {
                None::<CarRect>
            } else {
                Some(rect_of(*self))
            }),
    {
        if !self.has_turned {
            Some(self.rect())
        } else {
            None
        }
    }

    /// Shows the car where it stands, lets it turn if due, and moves it one step
    /// the way it is then heading.
    pub fn drive_car(&mut self) -> (shown: CarRect)
        ensures
            shown == rect_of(*old(self)),
            *final(self) == driven(*old(self)),
    {
        let shown = self.rect();
        self.turn();
        if self.direction == Direction::RIGHT {
            self.position.x = shifted(self.position.x, STEP);
        }
        if self.direction == Direction::LEFT {
            self.position.x = shifted(self.position.x, -STEP);
        }
        if self.direction == Direction::UP {
            self.position.y = shifted(self.position.y, -STEP);
        }
        if self.direction == Direction::DOWN {
            self.position.y = shifted(self.position.y, STEP);
        }
        shown
    }

    /// Sets the flag `passed_traffic_light` once the car is past its light.
    pub fn passed_traffic_light(&mut self)
        ensures
            *final(self) == light_checked(*old(self)),
    {
        let x = self.position.x as i128;
        let y = self.position.y as i128;
        let w = self.width as i128;
        let h = self.height as i128;
        if self.direction == Direction::UP && y + h < FAR as i128 {
            self.passed_traffic_light = true;
        }
        if self.direction == Direction::DOWN && y > NEAR as i128 {
            self.passed_traffic_light = true;
        }
        if self.direction == Direction::LEFT && x + w < FAR as i128 {
            self.passed_traffic_light = true;
        }
        if self.direction == Direction::RIGHT && x > NEAR as i128 {
            self.passed_traffic_light = true;
        }
    }

    /// Sets the flag `passed_intersection` once the car has left the junction.
    pub fn passed_intersection(&mut self)
        ensures
            *final(self) == (if beyond_junction(*old(self)) {
                Car { passed_intersection: true, ..*old(self) }
            } else {
                *old(self)
            }),
    {
        let x = self.position.x as i128;
        let y = self.position.y as i128;
        let w = self.width as i128;
        let h = self.height as i128;
        if self.direction == Direction::UP && y < NEAR as i128 {
            self.passed_intersection = true;
        }
        if self.direction == Direction::DOWN && y + h > FAR as i128 {
            self.passed_intersection = true;
        }
        if self.direction == Direction::LEFT && x > NEAR as i128 {
            self.passed_intersection = true;
        }
        if self.direction == Direction::RIGHT && x + w > FAR as i128 {
            self.passed_intersection = true;
        }
    }

    /// Looks whether the car is past its light, then turns it if its route says
    /// so and it has come far enough; a car turns at most once.
    pub fn turn(&mut self)
        ensures
            *final(self) == turned(*old(self)),
    {
        self.passed_traffic_light();
        if !self.has_turned {
            let x = self.position.x as i128;
            let y = self.position.y as i128;
            let w = self.width as i128;
            let h = self.height as i128;
            let m = TURN_MARGIN as i128;
            let route = self.at_the_crossroads;
            if self.direction == Direction::RIGHT && route == AtTheCrossroads::TurnRight && x - w
                + m > NEAR as i128 {
                self.has_turned = true;
                self.direction = Direction::DOWN;
                return ;
            }
            if self.direction == Direction::RIGHT && route == AtTheCrossroads::TurnLeft && x - h
                + m > MIDDLE as i128 {
                self.has_turned = true;
                self.direction = Direction::UP;
                return ;
            }
            if self.direction == Direction::LEFT && route == AtTheCrossroads::TurnRight && x + w
                + m < FAR as i128 {
                self.has_turned = true;
                self.direction = Direction::UP;
                return ;
            }
            if self.direction == Direction::LEFT && route == AtTheCrossroads::TurnLeft && x + w
                + m < MIDDLE as i128 {
                self.has_turned = true;
                self.direction = Direction::DOWN;
                return ;
            }
            if self.direction == Direction::DOWN && route == AtTheCrossroads::TurnRight && y - h
                + m > NEAR as i128 {
                self.has_turned = true;
                self.direction = Direction::LEFT;
                return ;
            }
            if self.direction == Direction::DOWN && route == AtTheCrossroads::TurnLeft && y - h
                + m > MIDDLE as i128 {
                self.has_turned = true;
                self.direction = Direction::RIGHT;
                return ;
            }
            if self.direction == Direction::UP && route == AtTheCrossroads::TurnLeft && y + h + m
                < MIDDLE as i128 {
                self.has_turned = true;
                self.direction = Direction::LEFT;
                return ;
            }
            if self.direction == Direction::UP && route == AtTheCrossroads::TurnRight && y + h + m
                < FAR as i128 {
                self.has_turned = true;
                self.direction = Direction::RIGHT;
                return ;
            }
        }
    }
}

} // verus!
