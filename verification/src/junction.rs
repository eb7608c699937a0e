//! One frame of the junction: cars queue, obey their lights and cross; the
//! lights let the first waiting car go once the junction has been clear long
//! enough.
use vstd::prelude::*;

use crate::car::{
    driven, ids_distinct, law_turn_at_most_once, rect_of, stopped_drawing, turned, AtTheCrossroads,
    Car, CarRect, Direction,
};
use crate::geometry::{BOX_HIGH, BOX_LOW, FAR, GAP, NEAR};
use crate::light::{
    all_red, arrival_side, green_only, position_line, LightBar, Signal, Signals, TrafficLight,
    TrafficLightPosition,
};

verus! {

/// Frames the lights stay as they are after a car that goes straight on was seen
/// in the junction.
pub const HOLD_FORWARD: i32 = 150;

/// Frames the lights stay as they are after a car that turns right was seen in the
/// junction.
pub const HOLD_RIGHT: i32 = 70;

/// Frames the lights stay as they are after a car that turns left was seen in the
/// junction.
pub const HOLD_LEFT: i32 = 230;

/// Frames after which all lights turn red once the junction was last seen occupied.
pub const CLEAR_AFTER: i32 = 20;

/// What one frame shows: the four light bars, then the cars.
pub struct Frame {
    pub lights: Vec<LightBar>,
    pub cars: Vec<CarRect>,
}

// ---------------------------------------------------------------------------
// The mathematical model of a frame
// ---------------------------------------------------------------------------

/// Where each light stands while the junction runs.
pub open spec fn light_place(side: Direction) -> TrafficLightPosition {
    match side {
        Direction::UP => TrafficLightPosition::UP(NEAR, NEAR, FAR, NEAR),
        Direction::DOWN => TrafficLightPosition::DOWN(NEAR, FAR, FAR, FAR),
        Direction::LEFT => TrafficLightPosition::LEFT(NEAR, NEAR, NEAR, FAR),
        Direction::RIGHT => TrafficLightPosition::RIGHT(FAR, NEAR, FAR, FAR),
    }
}

/// Whether a car heading `d` has not yet reached its light.
pub open spec fn before_line(c: Car, d: Direction) -> bool {
    match d {
        Direction::RIGHT => c.position.x + c.width < NEAR,
        Direction::LEFT => c.position.x > FAR,
        Direction::UP => c.position.y > FAR,
        Direction::DOWN => c.position.y + c.height < NEAR,
    }
}

/// Whether `front`, a car that came earlier and heads `d` too, is too close for
/// `c` to drive on (the test looks along the lane only, in both senses).
pub open spec fn close_behind(c: Car, front: Car, d: Direction) -> bool {
    &&& front.id < c.id
    &&& front.direction == d
    &&& match d {
        Direction::RIGHT => c.position.x + GAP > front.position.x,
        Direction::LEFT => c.position.x - GAP < front.position.x,
        Direction::UP => c.position.y - GAP < front.position.y,
        Direction::DOWN => c.position.y + GAP > front.position.y,
    }
}

/// Whether some car of `queue` holds `c` back.
pub open spec fn held_back(c: Car, queue: Seq<Car>, d: Direction) -> bool {
    exists|i: int| 0 <= i < queue.len() && close_behind(c, #[trigger] queue[i], d)
}

/// Whether a car heading `d` drives in this frame: nobody holds it back, and its
/// light is green, or it has not reached the light, or it is already past it.
pub open spec fn may_go(c: Car, d: Direction, queue: Seq<Car>, lights: Signals) -> bool {
    &&& !held_back(c, queue, d)
    &&& (lights.facing(d) == Signal::Green || before_line(c, d) || c.passed_traffic_light)
}

/// The rule for the lane of cars heading `d`, applied to `c`: the car after it,
/// what it showed, and the car as it is moved on to the crossed traffic (if it is
/// past its light).
pub open spec fn lane_block(c: Car, d: Direction, queue: Seq<Car>, lights: Signals) -> (
    Car,
    Seq<CarRect>,
    Seq<Car>,
) {
    if c.direction != d {
        (c, seq![], seq![])
    } else {
        let go = may_go(c, d, queue, lights);
        let c2 = if go {
            driven(c)
        } else {
            c
        };
        let shown = if go {
            seq![rect_of(c)]
        } else {
            stopped_drawing(c)
        };
        (c2, shown, if c2.passed_traffic_light {
            seq![c2]
        } else {
            seq![]
        })
    }
}

/// The four lane rules in turn (right, left, up, down) applied to one car; a car
/// that turns in one of them meets the rule of its new heading afterwards.
pub open spec fn car_frame(c: Car, queue: Seq<Car>, lights: Signals) -> (
    Car,
    Seq<CarRect>,
    Seq<Car>,
) {
    let r1 = lane_block(c, Direction::RIGHT, queue, lights);
    let r2 = lane_block(r1.0, Direction::LEFT, queue, lights);
    let r3 = lane_block(r2.0, Direction::UP, queue, lights);
    let r4 = lane_block(r3.0, Direction::DOWN, queue, lights);
    (r4.0, r1.1 + r2.1 + r3.1 + r4.1, r1.2 + r2.2 + r3.2 + r4.2)
}

/// Whether a car stands inside the junction.
pub open spec fn in_junction(c: Car) -> bool {
    &&& BOX_LOW < c.position.x < BOX_HIGH
    &&& BOX_LOW < c.position.y < BOX_HIGH
}

/// The first `n` cars of `queue` after their frame: the cars, what they showed,
/// the cars moved on to the crossed traffic, and the route of the last car seen
/// in the junction once some car had been moved on.
pub open spec fn scan(queue: Seq<Car>, lights: Signals, n: nat) -> (
    Seq<Car>,
    Seq<CarRect>,
    Seq<Car>,
    Option<AtTheCrossroads>,
)
    decreases n,
{
    if n == 0 {
        (seq![], seq![], seq![], None)
    } else {
        let prev = scan(queue, lights, (n - 1) as nat);
        let step = car_frame(queue[n - 1], queue, lights);
        let moved = prev.2 + step.2;
        let seen = if moved.len() != 0 && in_junction(step.0) {
            Some(step.0.at_the_crossroads)
        } else {
            prev.3
        };
        (prev.0.push(step.0), prev.1 + step.1, moved, seen)
    }
}

/// The whole traffic after its frame (see [`scan`]).
pub open spec fn scan_all(queue: Seq<Car>, lights: Signals) -> (
    Seq<Car>,
    Seq<CarRect>,
    Seq<Car>,
    Option<AtTheCrossroads>,
) {
    scan(queue, lights, queue.len())
}

/// Whether some car of `s` has id `id`.
pub open spec fn id_listed(s: Seq<Car>, id: u64) -> bool {
    exists|j: int| 0 <= j < s.len() && (#[trigger] s[j]).id == id
}

/// The cars of `cars`, in order, whose id no car of `gone` has.
pub open spec fn remaining(cars: Seq<Car>, gone: Seq<Car>) -> Seq<Car>
    decreases cars.len(),
{
    if cars.len() == 0 {
        seq![]
    } else {
        let rest = remaining(cars.drop_last(), gone);
        if id_listed(gone, cars.last().id) {
            rest
        } else {
            rest.push(cars.last())
        }
    }
}

/// How long the lights hold after a car with this route was seen in the junction.
pub open spec fn hold_frames(route: AtTheCrossroads) -> i32 {
    match route {
        AtTheCrossroads::TurnLeft => HOLD_LEFT,
        AtTheCrossroads::TurnRight => HOLD_RIGHT,
        AtTheCrossroads::ContinueForward => HOLD_FORWARD,
    }
}

/// The skip counter after a frame in which `seen` was the route of the last car
/// seen in the junction.
pub open spec fn next_skip(skip: i32, seen: Option<AtTheCrossroads>) -> int {
    match seen {
        Some(route) => hold_frames(route) - 1,
        None => skip - 1,
    }
}

/// The clearing counter after such a frame.
pub open spec fn next_woop(woop: i32, seen: Option<AtTheCrossroads>) -> int {
    match seen {
        Some(_) => CLEAR_AFTER - 1,
        None => woop - 1,
    }
}

/// The lights after a frame, given the new counters and the traffic that still
/// waits: all red once the clearing counter reaches zero; then, unless the skip
/// counter is positive, green for the first waiting car alone, if it has not
/// passed its light.
pub open spec fn next_signals(old: Signals, skip: int, woop: int, waiting: Seq<Car>) -> Signals {
    let cleared = if woop == 0 {
        all_red()
    } else {
        old
    };
    if skip > 0 {
        cleared
    } else if waiting.len() > 0 && !waiting[0].passed_traffic_light {
        green_only(arrival_side(waiting[0].direction))
    } else {
        cleared
    }
}

/// The colours of four lights.
pub open spec fn colors_of(
    up: TrafficLight,
    down: TrafficLight,
    left: TrafficLight,
    right: TrafficLight,
) -> Signals {
    Signals { up: up.color, down: down.color, left: left.color, right: right.color }
}

/// The bars of the four lights, as placed for the junction, with their colours.
pub open spec fn light_bars(lights: Signals) -> Seq<LightBar> {
    seq![
        LightBar { line: position_line(light_place(Direction::UP)), color: lights.up },
        LightBar { line: position_line(light_place(Direction::DOWN)), color: lights.down },
        LightBar { line: position_line(light_place(Direction::LEFT)), color: lights.left },
        LightBar { line: position_line(light_place(Direction::RIGHT)), color: lights.right },
    ]
}

/// One rule of the crossed traffic: a car heading `d` drives on.
pub open spec fn cruise_block(c: Car, d: Direction) -> (Car, Seq<CarRect>) {
    if c.direction == d {
        (driven(c), seq![rect_of(c)])
    } else {
        (c, seq![])
    }
}

/// The four rules of the crossed traffic in turn (right, left, up, down).
pub open spec fn cruise(c: Car) -> (Car, Seq<CarRect>) {
    let r1 = cruise_block(c, Direction::RIGHT);
    let r2 = cruise_block(r1.0, Direction::LEFT);
    let r3 = cruise_block(r2.0, Direction::UP);
    let r4 = cruise_block(r3.0, Direction::DOWN);
    (r4.0, r1.1 + r2.1 + r3.1 + r4.1)
}

/// What the crossed traffic shows in a frame.
pub open spec fn cruise_shown(cars: Seq<Car>) -> Seq<CarRect>
    decreases cars.len(),
{
    if cars.len() == 0 {
        seq![]
    } else {
        cruise_shown(cars.drop_last()) + cruise(cars.last()).1
    }
}

// ---------------------------------------------------------------------------
// Executable code
// ---------------------------------------------------------------------------

fn before_line_exec(c: &Car, d: Direction) -> (r: bool)
    ensures
        r == before_line(*c, d),
{
    let x = c.position.x as i128;
    let y = c.position.y as i128;
    match d {
        Direction::RIGHT => x + (c.width as i128) < NEAR as i128,
        Direction::LEFT => x > FAR as i128,
        Direction::UP => y > FAR as i128,
        Direction::DOWN => y + (c.height as i128) < NEAR as i128,
    }
}

fn close_behind_exec(c: &Car, front: &Car, d: Direction) -> (r: bool)
    ensures
        r == close_behind(*c, *front, d),
{
    if !(front.id < c.id && front.direction == d) {
        return false;
    }
    let g = GAP as i128;
    match d {
        Direction::RIGHT => (c.position.x as i128) + g > front.position.x as i128,
        Direction::LEFT => (c.position.x as i128) - g < front.position.x as i128,
        Direction::UP => (c.position.y as i128) - g < front.position.y as i128,
        Direction::DOWN => (c.position.y as i128) + g > front.position.y as i128,
    }
}

fn held_back_exec(c: &Car, queue: &Vec<Car>, d: Direction) -> (r: bool)
    ensures
        r == held_back(*c, queue@, d),
{
    let n = queue.len();
    let mut i: usize = 0;
    while i < n
        invariant
            n == queue@.len(),
            i <= n,
            forall|k: int| 0 <= k < i ==> !close_behind(*c, #[trigger] queue@[k], d),
        decreases n - i,
    {
        if close_behind_exec(c, &queue[i], d) {
            return true;
        }
        i = i + 1;
    }
    false
}

/// Applies the lane rule for heading `d` to `car` (see [`lane_block`]).
fn run_lane(
    car: &mut Car,
    d: Direction,
    queue: &Vec<Car>,
    lights: &Signals,
    moved: &mut Vec<Car>,
    shown: &mut Vec<CarRect>,
)
    ensures
        ({
            let r = lane_block(*old(car), d, queue@, *lights);
            &&& *final(car) == r.0
            &&& final(shown)@ == old(shown)@ + r.1
            &&& final(moved)@ == old(moved)@ + r.2
        }),
{
    if car.direction != d {
        assert(old(shown)@ + seq![] =~= old(shown)@);
        assert(old(moved)@ + seq![] =~= old(moved)@);
        return ;
    }
    let stopped = held_back_exec(car, queue, d);
    let go = !stopped && (lights.facing_signal(d) == Signal::Green || before_line_exec(car, d)
        || car.passed_traffic_light);
    if go {
        let r = car.drive_car();
        shown.push(r);
        assert(old(shown)@.push(r) =~= old(shown)@ + seq![r]);
    } else {
        match car.stop_car() {
            Some(r) => {
                shown.push(r);
                assert(old(shown)@.push(r) =~= old(shown)@ + seq![r]);
            },
            None => {
                assert(old(shown)@ + seq![] =~= old(shown)@);
            },
        }
    }
    if car.passed_traffic_light {
        moved.push(*car);
        assert(old(moved)@.push(*car) =~= old(moved)@ + seq![*car]);
    } else {
        assert(old(moved)@ + seq![] =~= old(moved)@);
    }
}

/// Applies the four lane rules to `car` (see [`car_frame`]).
#[verifier::rlimit(40)]
fn run_car(
    car: &mut Car,
    queue: &Vec<Car>,
    lights: &Signals,
    moved: &mut Vec<Car>,
    shown: &mut Vec<CarRect>,
)
    ensures
        ({
            let r = car_frame(*old(car), queue@, *lights);
            &&& *final(car) == r.0
            &&& final(shown)@ == old(shown)@ + r.1
            &&& final(moved)@ == old(moved)@ + r.2
        }),
{
    let ghost c0 = *car;
    let ghost s0 = shown@;
    let ghost m0 = moved@;
    run_lane(car, Direction::RIGHT, queue, lights, moved, shown);
    run_lane(car, Direction::LEFT, queue, lights, moved, shown);
    run_lane(car, Direction::UP, queue, lights, moved, shown);
    run_lane(car, Direction::DOWN, queue, lights, moved, shown);
    proof {
        let r1 = lane_block(c0, Direction::RIGHT, queue@, *lights);
        let r2 = lane_block(r1.0, Direction::LEFT, queue@, *lights);
        let r3 = lane_block(r2.0, Direction::UP, queue@, *lights);
        let r4 = lane_block(r3.0, Direction::DOWN, queue@, *lights);
        assert(s0 + r1.1 + r2.1 + r3.1 + r4.1 =~= s0 + (r1.1 + r2.1 + r3.1 + r4.1));
        assert(m0 + r1.2 + r2.2 + r3.2 + r4.2 =~= m0 + (r1.2 + r2.2 + r3.2 + r4.2));
    }
}

fn in_junction_exec(c: &Car) -> (r: bool)
    ensures
        r == in_junction(*c),
{
    BOX_LOW < c.position.x && c.position.x < BOX_HIGH && BOX_LOW < c.position.y && c.position.y
        < BOX_HIGH
}

fn id_listed_exec(s: &Vec<Car>, id: u64) -> (r: bool)
    ensures
        r == id_listed(s@, id),
{
    let n = s.len();
    let mut j: usize = 0;
    while j < n
        invariant
            n == s@.len(),
            j <= n,
            forall|k: int| 0 <= k < j ==> (#[trigger] s@[k]).id != id,
        decreases n - j,
    {
        if s[j].id == id {
            return true;
        }
        j = j + 1;
    }
    false
}

fn remaining_exec(cars: &Vec<Car>, gone: &Vec<Car>) -> (r: Vec<Car>)
    ensures
        r@ == remaining(cars@, gone@),
{
    let n = cars.len();
    let mut out: Vec<Car> = Vec::new();
    let mut i: usize = 0;
    while i < n
        invariant
            n == cars@.len(),
            i <= n,
            out@ == remaining(cars@.subrange(0, i as int), gone@),
        decreases n - i,
    {
        let c = cars[i];
        proof {
            let p = cars@.subrange(0, i + 1);
            assert(p.drop_last() =~= cars@.subrange(0, i as int));
            assert(p.last() == c);
        }
        if !id_listed_exec(gone, c.id) {
            out.push(c);
        }
        i = i + 1;
    }
    assert(cars@.subrange(0, n as int) =~= cars@);
    out
}

fn hold_frames_exec(route: AtTheCrossroads) -> (r: i32)
    ensures
        r == hold_frames(route),
{
    match route {
        AtTheCrossroads::TurnLeft => HOLD_LEFT,
        AtTheCrossroads::TurnRight => HOLD_RIGHT,
        AtTheCrossroads::ContinueForward => HOLD_FORWARD,
    }
}

/// Runs the lane rules over the whole traffic (see [`scan_all`]).
fn scan_exec(traffic: &Vec<Car>, lights: &Signals) -> (r: (
    Vec<Car>,
    Vec<CarRect>,
    Vec<Car>,
    Option<AtTheCrossroads>,
))
    ensures
        r.0@ == scan_all(traffic@, *lights).0,
        r.1@ == scan_all(traffic@, *lights).1,
        r.2@ == scan_all(traffic@, *lights).2,
        r.3 == scan_all(traffic@, *lights).3,
{
    let n = traffic.len();
    let mut cars_out: Vec<Car> = Vec::new();
    let mut shown: Vec<CarRect> = Vec::new();
    let mut pop_car: Vec<Car> = Vec::new();
    let mut seen: Option<AtTheCrossroads> = None;
    let mut i: usize = 0;
    while i < n
        invariant
            n == traffic@.len(),
            i <= n,
            cars_out@ == scan(traffic@, *lights, i as nat).0,
            shown@ == scan(traffic@, *lights, i as nat).1,
            pop_car@ == scan(traffic@, *lights, i as nat).2,
            seen == scan(traffic@, *lights, i as nat).3,
        decreases n - i,
    {
        let mut car = traffic[i];
        run_car(&mut car, traffic, lights, &mut pop_car, &mut shown);
        if pop_car.len() != 0 && in_junction_exec(&car) {
            seen = Some(car.at_the_crossroads);
        }
        cars_out.push(car);
        i = i + 1;
    }
    (cars_out, shown, pop_car, seen)
}

/// Whether the coming frame of [`traffic_lights`] will see a car in the junction
/// (and so reset both counters rather than count them down).
pub fn frame_sees_junction(
    traffic: &Vec<Car>,
    traffic_light_up: &TrafficLight,
    traffic_light_down: &TrafficLight,
    traffic_light_left: &TrafficLight,
    traffic_light_right: &TrafficLight,
) -> (seen: bool)
    ensures
        seen == (scan_all(
            traffic@,
            colors_of(
                *traffic_light_up,
                *traffic_light_down,
                *traffic_light_left,
                *traffic_light_right,
            ),
        ).3 is Some),
{
    let lights = Signals {
        up: traffic_light_up.color,
        down: traffic_light_down.color,
        left: traffic_light_left.color,
        right: traffic_light_right.color,
    };
    let (_, _, _, seen) = scan_exec(traffic, &lights);
    seen.is_some()
}

/// Runs one frame of the waiting traffic and of the lights.
///
/// The lights are placed around the junction and drawn; every car of `traffic`
/// meets the lane rules (see [`car_frame`]), against the positions all cars had
/// when the frame began; the cars past their light move from `traffic` to
/// `passed_traffic`; the counters run down; and once the junction has been clear
/// long enough the first waiting car gets green. `right_vec`, the list of the
/// cars spawned heading right, is not read.
pub fn traffic_lights(
    traffic: &mut Vec<Car>,
    traffic_light_up: &mut TrafficLight,
    traffic_light_down: &mut TrafficLight,
    traffic_light_left: &mut TrafficLight,
    traffic_light_right: &mut TrafficLight,
    passed_traffic: &mut Vec<Car>,
    right_vec: &Vec<Car>,
    skip_iterations: &mut i32,
    woop: &mut i32,
) -> (frame: Frame)
    requires
        scan_all(
            old(traffic)@,
            colors_of(
                *old(traffic_light_up),
                *old(traffic_light_down),
                *old(traffic_light_left),
                *old(traffic_light_right),
            ),
        ).3 is None ==> *old(skip_iterations) > i32::MIN && *old(woop) > i32::MIN,
    ensures
        ({
            let lights = colors_of(
                *old(traffic_light_up),
                *old(traffic_light_down),
                *old(traffic_light_left),
                *old(traffic_light_right),
            );
            let s = scan_all(old(traffic)@, lights);
            &&& frame.lights@ == light_bars(lights)
            &&& frame.cars@ == s.1
            &&& final(traffic)@ == remaining(s.0, s.2)
            &&& final(passed_traffic)@ == old(passed_traffic)@ + s.2
            &&& *final(skip_iterations) == next_skip(*old(skip_iterations), s.3)
            &&& *final(woop) == next_woop(*old(woop), s.3)
            &&& colors_of(
                *final(traffic_light_up),
                *final(traffic_light_down),
                *final(traffic_light_left),
                *final(traffic_light_right),
            ) == next_signals(lights, *final(skip_iterations) as int, *final(woop) as int, final(traffic)@)
            &&& final(traffic_light_up).position == light_place(Direction::UP)
            &&& final(traffic_light_down).position == light_place(Direction::DOWN)
            &&& final(traffic_light_left).position == light_place(Direction::LEFT)
            &&& final(traffic_light_right).position == light_place(Direction::RIGHT)
            &&& lights.at_most_one_green() ==> colors_of(
                *final(traffic_light_up),
                *final(traffic_light_down),
                *final(traffic_light_left),
                *final(traffic_light_right),
            ).at_most_one_green()
        }),
{
    let ghost lights0 = colors_of(
        *traffic_light_up,
        *traffic_light_down,
        *traffic_light_left,
        *traffic_light_right,
    );
    proof {
        if lights0.at_most_one_green() {
            assert forall|skip: int, woop: int, waiting: Seq<Car>|
                #[trigger] next_signals(lights0, skip, woop, waiting).at_most_one_green() by {
                law_at_most_one_green(lights0, skip, woop, waiting);
            }
        }
    }
    let mut bars: Vec<LightBar> = Vec::new();
    bars.push(traffic_light_up.draw_traffic_light(TrafficLightPosition::UP(NEAR, NEAR, FAR, NEAR)));
    bars.push(
        traffic_light_down.draw_traffic_light(TrafficLightPosition::DOWN(NEAR, FAR, FAR, FAR)),
    );
    bars.push(
        traffic_light_left.draw_traffic_light(TrafficLightPosition::LEFT(NEAR, NEAR, NEAR, FAR)),
    );
    bars.push(
        traffic_light_right.draw_traffic_light(TrafficLightPosition::RIGHT(FAR, NEAR, FAR, FAR)),
    );
    assert(bars@ =~= light_bars(lights0));
    let lights = Signals {
        up: traffic_light_up.color,
        down: traffic_light_down.color,
        left: traffic_light_left.color,
        right: traffic_light_right.color,
    };

    let (cars_out, shown, pop_car, seen) = scan_exec(traffic, &lights);
    let ghost s = scan_all(traffic@, lights);

    match seen {
        Some(route) => {
            *skip_iterations = hold_frames_exec(route) - 1;
            *woop = CLEAR_AFTER - 1;
        },
        None => {
            *skip_iterations = *skip_iterations - 1;
            *woop = *woop - 1;
        },
    }
    if *woop == 0 {
        traffic_light_down.change_color(Signal::Red);
        traffic_light_up.change_color(Signal::Red);
        traffic_light_left.change_color(Signal::Red);
        traffic_light_right.change_color(Signal::Red);
    }
    let m = pop_car.len();
    let mut j: usize = 0;
    while j < m
        invariant
            m == pop_car@.len(),
            j <= m,
            passed_traffic@ == old(passed_traffic)@ + pop_car@.subrange(0, j as int),
        decreases m - j,
    {
        passed_traffic.push(pop_car[j]);
        j = j + 1;
        assert(passed_traffic@ =~= old(passed_traffic)@ + pop_car@.subrange(0, j as int));
    }
    assert(pop_car@.subrange(0, m as int) =~= pop_car@);
    *traffic = remaining_exec(&cars_out, &pop_car);
    let frame = Frame { lights: bars, cars: shown };
    if *skip_iterations > 0 {
        return frame;
    }
    if traffic.len() > 0 {
        let first = traffic[0];
        if !first.passed_traffic_light {
            match first.direction {
                Direction::RIGHT => {
                    traffic_light_down.change_color(Signal::Red);
                    traffic_light_up.change_color(Signal::Red);
                    traffic_light_left.change_color(Signal::Green);
                    traffic_light_right.change_color(Signal::Red);
                },
                Direction::LEFT => {
                    traffic_light_down.change_color(Signal::Red);
                    traffic_light_up.change_color(Signal::Red);
                    traffic_light_left.change_color(Signal::Red);
                    traffic_light_right.change_color(Signal::Green);
                },
                Direction::UP => {
                    traffic_light_down.change_color(Signal::Green);
                    traffic_light_up.change_color(Signal::Red);
                    traffic_light_left.change_color(Signal::Red);
                    traffic_light_right.change_color(Signal::Red);
                },
                Direction::DOWN => {
                    traffic_light_down.change_color(Signal::Red);
                    traffic_light_up.change_color(Signal::Green);
                    traffic_light_left.change_color(Signal::Red);
                    traffic_light_right.change_color(Signal::Red);
                },
            }
        }
    }
    frame
}

/// Applies the four rules of the crossed traffic to `car` (see [`cruise`]).
fn cruise_exec(car: &mut Car, shown: &mut Vec<CarRect>)
    ensures
        *final(car) == cruise(*old(car)).0,
        final(shown)@ == old(shown)@ + cruise(*old(car)).1,
{
    let ghost c0 = *car;
    let ghost s0 = shown@;
    if car.direction == Direction::RIGHT {
        let r = car.drive_car();
        shown.push(r);
    }
    if car.direction == Direction::LEFT {
        let r = car.drive_car();
        shown.push(r);
    }
    if car.direction == Direction::UP {
        let r = car.drive_car();
        shown.push(r);
    }
    if car.direction == Direction::DOWN {
        let r = car.drive_car();
        shown.push(r);
    }
    proof {
        let r1 = cruise_block(c0, Direction::RIGHT);
        let r2 = cruise_block(r1.0, Direction::LEFT);
        let r3 = cruise_block(r2.0, Direction::UP);
        let r4 = cruise_block(r3.0, Direction::DOWN);
        assert(shown@ =~= s0 + (r1.1 + r2.1 + r3.1 + r4.1));
    }
}

/// Drives every car that has passed its light (see [`cruise`]) and gives what
/// they showed.
pub fn drive_passed_traffic(passed_traffic: &mut Vec<Car>) -> (shown: Vec<CarRect>)
    ensures
        final(passed_traffic)@.len() == old(passed_traffic)@.len(),
        forall|i: int|
            0 <= i < old(passed_traffic)@.len() ==> #[trigger] final(passed_traffic)@[i] == cruise(
                old(passed_traffic)@[i],
            ).0,
        shown@ == cruise_shown(old(passed_traffic)@),
{
    let n = passed_traffic.len();
    let mut shown: Vec<CarRect> = Vec::new();
    let mut i: usize = 0;
    while i < n
        invariant
            n == passed_traffic@.len(),
            n == old(passed_traffic)@.len(),
            i <= n,
            forall|k: int|
                0 <= k < i ==> #[trigger] passed_traffic@[k] == cruise(old(passed_traffic)@[k]).0,
            forall|k: int| i <= k < n ==> #[trigger] passed_traffic@[k] == old(passed_traffic)@[k],
            shown@ == cruise_shown(old(passed_traffic)@.subrange(0, i as int)),
        decreases n - i,
    {
        let mut car = passed_traffic[i];
        let ghost c0 = car;
        cruise_exec(&mut car, &mut shown);
        proof {
            let p = old(passed_traffic)@.subrange(0, i + 1);
            assert(p.drop_last() =~= old(passed_traffic)@.subrange(0, i as int));
            assert(p.last() == c0);
        }
        passed_traffic.set(i, car);
        i = i + 1;
    }
    assert(old(passed_traffic)@.subrange(0, n as int) =~= old(passed_traffic)@);
    shown
}


// ---------------------------------------------------------------------------
// Laws of a frame
// ---------------------------------------------------------------------------

/// Facts on one lane rule: the car keeps its id and its passed flag, and what is
/// moved on is the car itself after the rule, if it is past its light.
proof fn lemma_lane_block(c: Car, d: Direction, queue: Seq<Car>, lights: Signals)
    ensures
        ({
            let r = lane_block(c, d, queue, lights);
            &&& r.0.id == c.id
            &&& c.passed_traffic_light ==> r.0.passed_traffic_light
            &&& c.direction != d ==> r.0 == c && r.2 == Seq::<Car>::empty()
            &&& c.direction == d ==> r.2 == (if r.0.passed_traffic_light {
                seq![r.0]
            } else {
                Seq::<Car>::empty()
            })
        }),
{
}

/// Facts on the four lane rules: the car keeps its id; every car moved on is this
/// car past its light; and if the car ends past its light, it was moved on.
proof fn lemma_car_frame(c: Car, queue: Seq<Car>, lights: Signals)
    ensures
        ({
            let r = car_frame(c, queue, lights);
            &&& r.0.id == c.id
            &&& forall|k: int|
                0 <= k < r.2.len() ==> (#[trigger] r.2[k]).id == c.id
                    && r.2[k].passed_traffic_light
            &&& r.0.passed_traffic_light ==> r.2.len() > 0
        }),
{
    let r1 = lane_block(c, Direction::RIGHT, queue, lights);
    let r2 = lane_block(r1.0, Direction::LEFT, queue, lights);
    let r3 = lane_block(r2.0, Direction::UP, queue, lights);
    let r4 = lane_block(r3.0, Direction::DOWN, queue, lights);
    lemma_lane_block(c, Direction::RIGHT, queue, lights);
    lemma_lane_block(r1.0, Direction::LEFT, queue, lights);
    lemma_lane_block(r2.0, Direction::UP, queue, lights);
    lemma_lane_block(r3.0, Direction::DOWN, queue, lights);
    let all = r1.2 + r2.2 + r3.2 + r4.2;
    assert forall|k: int| 0 <= k < all.len() implies (#[trigger] all[k]).id == c.id
        && all[k].passed_traffic_light by {
        if k < r1.2.len() {
            assert(all[k] == r1.2[k]);
        } else if k < r1.2.len() + r2.2.len() {
            assert(all[k] == r2.2[k - r1.2.len()]);
        } else if k < r1.2.len() + r2.2.len() + r3.2.len() {
            assert(all[k] == r3.2[k - r1.2.len() - r2.2.len()]);
        } else {
            assert(all[k] == r4.2[k - r1.2.len() - r2.2.len() - r3.2.len()]);
        }
    }
}

/// Facts on the first `n` cars after their frame.
proof fn lemma_scan(queue: Seq<Car>, lights: Signals, n: nat)
    requires
        n <= queue.len(),
    ensures
        ({
            let s = scan(queue, lights, n);
            &&& s.0.len() == n
            &&& forall|k: int| 0 <= k < n ==> (#[trigger] s.0[k]).id == queue[k].id
            &&& forall|k: int|
                0 <= k < n ==> #[trigger] s.0[k] == car_frame(queue[k], queue, lights).0
            &&& forall|k: int|
                0 <= k < n && (#[trigger] s.0[k]).passed_traffic_light ==> id_listed(
                    s.2,
                    s.0[k].id,
                )
            &&& forall|j: int|
                0 <= j < s.2.len() ==> (#[trigger] s.2[j]).passed_traffic_light && exists|
                    k: int,
                |
                    0 <= k < n && queue[k].id == s.2[j].id && car_frame(
                        queue[k],
                        queue,
                        lights,
                    ).2.len() > 0
        }),
    decreases n,
{
    if n > 0 {
        lemma_scan(queue, lights, (n - 1) as nat);
        let prev = scan(queue, lights, (n - 1) as nat);
        let step = car_frame(queue[n - 1], queue, lights);
        lemma_car_frame(queue[n - 1], queue, lights);
        let s = scan(queue, lights, n);
        assert(s.2 == prev.2 + step.2);
        assert forall|k: int|
            0 <= k < n && (#[trigger] s.0[k]).passed_traffic_light implies id_listed(
            s.2,
            s.0[k].id,
        ) by {
            if k < n - 1 {
                assert(s.0[k] == prev.0[k]);
                let j = choose|j: int| 0 <= j < prev.2.len() && (#[trigger] prev.2[j]).id == prev.0[k].id;
                assert(s.2[j] == prev.2[j]);
            } else {
                assert(s.0[k] == step.0);
                assert(s.2[prev.2.len() as int] == step.2[0]);
            }
        }
        assert forall|k: int| 0 <= k < n implies #[trigger] s.0[k] == car_frame(
            queue[k],
            queue,
            lights,
        ).0 by {
            if k < n - 1 {
                assert(s.0[k] == prev.0[k]);
            }
        }
        assert forall|j: int| 0 <= j < s.2.len() implies (#[trigger] s.2[j]).passed_traffic_light
            && exists|k: int|
            0 <= k < n && queue[k].id == s.2[j].id && car_frame(queue[k], queue, lights).2.len()
                > 0 by {
            if j < prev.2.len() {
                assert(s.2[j] == prev.2[j]);
                let k = choose|k: int|
                    0 <= k < n - 1 && queue[k].id == prev.2[j].id && car_frame(
                        queue[k],
                        queue,
                        lights,
                    ).2.len() > 0;
                assert(0 <= k < n && queue[k].id == s.2[j].id);
            } else {
                assert(s.2[j] == step.2[j - prev.2.len()]);
                assert(queue[n - 1].id == s.2[j].id);
            }
        }
    }
}

/// The cars kept by [`remaining`] are exactly the cars whose id is not listed,
/// in their order.
proof fn lemma_remaining(cars: Seq<Car>, gone: Seq<Car>)
    ensures
        forall|j: int|
            0 <= j < remaining(cars, gone).len() ==> !id_listed(
                gone,
                (#[trigger] remaining(cars, gone)[j]).id,
            ) && exists|k: int| 0 <= k < cars.len() && cars[k] == remaining(cars, gone)[j],
        forall|k: int|
            0 <= k < cars.len() && !id_listed(gone, (#[trigger] cars[k]).id) ==> exists|j: int|
                0 <= j < remaining(cars, gone).len() && remaining(cars, gone)[j] == cars[k],
    decreases cars.len(),
{
    if cars.len() > 0 {
        let front = cars.drop_last();
        lemma_remaining(front, gone);
        let r = remaining(cars, gone);
        let rest = remaining(front, gone);
        assert forall|j: int| 0 <= j < r.len() implies !id_listed(gone, (#[trigger] r[j]).id)
            && exists|k: int| 0 <= k < cars.len() && cars[k] == r[j] by {
            if j < rest.len() {
                assert(r[j] == rest[j]);
                let k = choose|k: int| 0 <= k < front.len() && front[k] == rest[j];
                assert(cars[k] == front[k]);
            } else {
                assert(r[j] == cars.last());
                assert(cars[cars.len() - 1] == r[j]);
            }
        }
        assert forall|k: int|
            0 <= k < cars.len() && !id_listed(gone, (#[trigger] cars[k]).id) implies exists|j: int|
            0 <= j < r.len() && r[j] == cars[k] by {
            if k < cars.len() - 1 {
                assert(cars[k] == front[k]);
                let j = choose|j: int| 0 <= j < rest.len() && rest[j] == front[k];
                assert(r[j] == rest[j]);
            } else {
                assert(r[rest.len() as int] == cars[k]);
            }
        }
    }
}

/// The lights hold longest after a car that turns left was seen in the junction,
/// less long after one that goes straight on, and least after one that turns
/// right, and always longer than the clearing delay.
pub proof fn law_hold_order()
    ensures
        hold_frames(AtTheCrossroads::TurnLeft) > hold_frames(AtTheCrossroads::ContinueForward),
        hold_frames(AtTheCrossroads::ContinueForward) > hold_frames(AtTheCrossroads::TurnRight),
        hold_frames(AtTheCrossroads::TurnRight) > CLEAR_AFTER,
        CLEAR_AFTER > 0,
{
}

/// While the lights hold (positive skip counter) they change only by all turning
/// red when the clearing counter reaches zero.
pub proof fn law_lights_hold(old: Signals, skip: int, woop: int, waiting: Seq<Car>)
    requires
        skip > 0,
    ensures
        next_signals(old, skip, woop, waiting) == (if woop == 0 {
            Signals { up: Signal::Red, down: Signal::Red, left: Signal::Red, right: Signal::Red }
        } else {
            old
        }),
{
}

/// When a car is seen in the junction both counters restart, by the route of the
/// last car seen; otherwise both count down by one.
pub proof fn law_counters(skip: i32, woop: i32, seen: Option<AtTheCrossroads>)
    ensures
        seen is None ==> next_skip(skip, seen) == skip - 1 && next_woop(woop, seen) == woop - 1,
        seen is Some ==> next_skip(skip, seen) == hold_frames(seen->0) - 1 && next_woop(
            woop,
            seen,
        ) == CLEAR_AFTER - 1,
{
}

/// No two lights show green at once: the lights after a frame show at most one
/// green when they did before it.
pub proof fn law_at_most_one_green(old: Signals, skip: int, woop: int, waiting: Seq<Car>)
    requires
        old.at_most_one_green(),
    ensures
        next_signals(old, skip, woop, waiting).at_most_one_green(),
{
    let next = next_signals(old, skip, woop, waiting);
    assert forall|a: Direction, b: Direction|
        next.at(a) == Signal::Green && next.at(b) == Signal::Green implies a == b by {
        if woop != 0 && (skip > 0 || !(waiting.len() > 0 && !waiting[0].passed_traffic_light)) {
            assert(old.at(a) == Signal::Green && old.at(b) == Signal::Green);
        }
    }
}

/// When the junction has been clear long enough and a car waits first in line,
/// the light it faces turns green and every other light red.
pub proof fn law_first_waiting_car_gets_green(
    old: Signals,
    skip: int,
    woop: int,
    waiting: Seq<Car>,
)
    requires
        skip <= 0,
        waiting.len() > 0,
        !waiting[0].passed_traffic_light,
    ensures
        next_signals(old, skip, woop, waiting).facing(waiting[0].direction) == Signal::Green,
        forall|side: Direction|
            side != arrival_side(waiting[0].direction) ==> next_signals(
                old,
                skip,
                woop,
                waiting,
            ).at(side) == Signal::Red,
{
}

/// A car that has reached its light, has not passed it, and faces red stays
/// where it is, and is not moved on.
pub proof fn law_waits_at_red(c: Car, queue: Seq<Car>, lights: Signals)
    requires
        !c.passed_traffic_light,
        !before_line(c, c.direction),
        lights.facing(c.direction) == Signal::Red,
    ensures
        car_frame(c, queue, lights).0 == c,
        car_frame(c, queue, lights).2 == Seq::<Car>::empty(),
{
    let r1 = lane_block(c, Direction::RIGHT, queue, lights);
    let r2 = lane_block(r1.0, Direction::LEFT, queue, lights);
    let r3 = lane_block(r2.0, Direction::UP, queue, lights);
    let r4 = lane_block(r3.0, Direction::DOWN, queue, lights);
    assert(r1.2 + r2.2 + r3.2 + r4.2 =~= Seq::<Car>::empty());
}

/// No car runs a red light: under the rule of its lane, a car that faces red and
/// has not passed its light is not past it afterwards (for cars of no negative
/// size).
pub proof fn law_no_running_red(c: Car, queue: Seq<Car>, lights: Signals)
    requires
        !c.passed_traffic_light,
        lights.facing(c.direction) == Signal::Red,
        c.width >= 0,
        c.height >= 0,
    ensures
        !lane_block(c, c.direction, queue, lights).0.passed_traffic_light,
{
}

/// A car that an earlier car of its lane holds back stays where it is.
pub proof fn law_held_back_car_stays(c: Car, queue: Seq<Car>, lights: Signals)
    requires
        held_back(c, queue, c.direction),
    ensures
        car_frame(c, queue, lights).0 == c,
{
}

/// A frame applies the lane rules to each car on its own: the `k`-th car after
/// the frame is [`car_frame`] of the `k`-th car before it, and a car that is not
/// moved on stays in the waiting traffic (see [`traffic_lights`]).
pub proof fn law_frame_applies_car_rule(queue: Seq<Car>, lights: Signals)
    ensures
        ({
            let s = scan_all(queue, lights);
            let waiting = remaining(s.0, s.2);
            &&& s.0.len() == queue.len()
            &&& forall|k: int|
                0 <= k < queue.len() ==> #[trigger] s.0[k] == car_frame(queue[k], queue, lights).0
            &&& forall|k: int|
                0 <= k < queue.len() && !id_listed(s.2, (#[trigger] queue[k]).id) ==> exists|
                    j: int,
                | 0 <= j < waiting.len() && waiting[j] == s.0[k]
        }),
{
    let s = scan_all(queue, lights);
    lemma_scan(queue, lights, queue.len());
    lemma_remaining(s.0, s.2);
    assert forall|k: int|
        0 <= k < queue.len() && !id_listed(s.2, (#[trigger] queue[k]).id) implies exists|j: int|
        0 <= j < remaining(s.0, s.2).len() && remaining(s.0, s.2)[j] == s.0[k] by {
        assert(s.0[k].id == queue[k].id);
    }
}

/// With distinct ids, a car whose own frame moves nothing on stays, as that frame
/// leaves it, in the waiting traffic.
proof fn lemma_frame_keeps(queue: Seq<Car>, lights: Signals, k: int)
    requires
        0 <= k < queue.len(),
        ids_distinct(queue),
        car_frame(queue[k], queue, lights).2.len() == 0,
    ensures
        ({
            let s = scan_all(queue, lights);
            exists|j: int|
                0 <= j < remaining(s.0, s.2).len() && remaining(s.0, s.2)[j] == car_frame(
                    queue[k],
                    queue,
                    lights,
                ).0
        }),
{
    let s = scan_all(queue, lights);
    lemma_scan(queue, lights, queue.len());
    law_frame_applies_car_rule(queue, lights);
    if id_listed(s.2, queue[k].id) {
        let j = choose|j: int| 0 <= j < s.2.len() && (#[trigger] s.2[j]).id == queue[k].id;
        let m = choose|m: int|
            0 <= m < queue.len() && queue[m].id == s.2[j].id && car_frame(
                queue[m],
                queue,
                lights,
            ).2.len() > 0;
        assert(m == k);
    }
    assert(s.0[k] == car_frame(queue[k], queue, lights).0);
}

/// In a frame of [`traffic_lights`], a waiting car with a distinct id that has
/// reached its light and faces red stays where it is in the waiting traffic.
pub proof fn law_frame_waits_at_red(queue: Seq<Car>, lights: Signals, k: int)
    requires
        0 <= k < queue.len(),
        ids_distinct(queue),
        !queue[k].passed_traffic_light,
        !before_line(queue[k], queue[k].direction),
        lights.facing(queue[k].direction) == Signal::Red,
    ensures
        ({
            let s = scan_all(queue, lights);
            exists|j: int|
                0 <= j < remaining(s.0, s.2).len() && remaining(s.0, s.2)[j] == queue[k]
        }),
{
    law_waits_at_red(queue[k], queue, lights);
    lemma_frame_keeps(queue, lights, k);
}

/// In a frame of [`traffic_lights`], a waiting car with a distinct id that an
/// earlier car of its lane holds back stays where it is in the waiting traffic.
pub proof fn law_frame_held_back_stays(queue: Seq<Car>, lights: Signals, k: int)
    requires
        0 <= k < queue.len(),
        ids_distinct(queue),
        !queue[k].passed_traffic_light,
        held_back(queue[k], queue, queue[k].direction),
    ensures
        ({
            let s = scan_all(queue, lights);
            exists|j: int|
                0 <= j < remaining(s.0, s.2).len() && remaining(s.0, s.2)[j] == queue[k]
        }),
{
    let c = queue[k];
    let r1 = lane_block(c, Direction::RIGHT, queue, lights);
    let r2 = lane_block(r1.0, Direction::LEFT, queue, lights);
    let r3 = lane_block(r2.0, Direction::UP, queue, lights);
    let r4 = lane_block(r3.0, Direction::DOWN, queue, lights);
    assert(r1.2 + r2.2 + r3.2 + r4.2 =~= Seq::<Car>::empty());
    lemma_frame_keeps(queue, lights, k);
}

/// The spacing rule of a lane: a car is held back by a car that came earlier
/// (smaller id) and heads the same way when that car is less than the gap ahead
/// of it along the lane (or anywhere behind it): heading right when the other's
/// `x` is below `x + GAP`, heading left when it is above `x - GAP`, heading up when
/// its `y` is above `y - GAP`, heading down when it is below `y + GAP`.
pub proof fn law_gap_rule(c: Car, front: Car, d: Direction)
    ensures
        close_behind(c, front, d) == (front.id < c.id && front.direction == d && match d {
            Direction::RIGHT => front.position.x < c.position.x + GAP,
            Direction::LEFT => front.position.x > c.position.x - GAP,
            Direction::UP => front.position.y > c.position.y - GAP,
            Direction::DOWN => front.position.y < c.position.y + GAP,
        }),
{
}

/// A car has not reached its light while its front is short of the bar of the
/// light it faces, as the junction places the bars: a car heading right while its
/// right side is left of the left bar, heading left while its `x` is right of the
/// right bar, heading up while its `y` is below the lower bar, heading down while
/// its lower side is above the upper bar.
pub proof fn law_line_rule(c: Car, d: Direction)
    ensures
        before_line(c, d) == match d {
            Direction::RIGHT => c.position.x + c.width < position_line(
                light_place(Direction::LEFT),
            ).x1,
            Direction::LEFT => c.position.x > position_line(light_place(Direction::RIGHT)).x1,
            Direction::UP => c.position.y > position_line(light_place(Direction::DOWN)).y1,
            Direction::DOWN => c.position.y + c.height < position_line(
                light_place(Direction::UP),
            ).y1,
        },
        arrival_side(Direction::RIGHT) == Direction::LEFT,
        arrival_side(Direction::LEFT) == Direction::RIGHT,
        arrival_side(Direction::UP) == Direction::DOWN,
        arrival_side(Direction::DOWN) == Direction::UP,
{
}

/// A waiting car of the lane it heads in moves by the car's own drive rule
/// ([`Car::drive_car`]) when nobody holds it back and its light is green, or it
/// has not reached the light, or it has passed it; otherwise it stands, showing
/// itself unless it has turned. The rule of another lane leaves it alone.
pub proof fn law_lane_rule(c: Car, d: Direction, queue: Seq<Car>, lights: Signals)
    ensures
        c.direction == d ==> lane_block(c, d, queue, lights).0 == (if !held_back(c, queue, d) && (
        lights.facing(d) == Signal::Green || before_line(c, d) || c.passed_traffic_light) {
            driven(c)
        } else {
            c
        }),
        c.direction != d ==> lane_block(c, d, queue, lights).0 == c,
        c.direction != d ==> lane_block(c, d, queue, lights).1.len() == 0,
        lane_block(c, d, queue, lights).2.len() <= 1,
{
}

/// The crossed traffic moves by the car's own drive rule ([`Car::drive_car`]):
/// the rule of a car's heading drives it once, showing where it stood, and the
/// rules of the other headings leave it alone. Over a frame every crossed car
/// shows itself at least once, and ends heading the way the turning rule sends it
/// (so a car that reaches its turning point turns, see `law_turn_points`).
pub proof fn law_cruise_rule(c: Car, d: Direction)
    ensures
        c.direction == d ==> cruise_block(c, d) == (driven(c), seq![rect_of(c)]),
        c.direction != d ==> cruise_block(c, d) == (c, Seq::<CarRect>::empty()),
        cruise(c).0.direction == turned(c).direction,
        cruise(c).0.has_turned == turned(c).has_turned,
        cruise(c).1.len() >= 1,
        cruise(c).1[0] == rect_of(c),
{
    let r1 = cruise_block(c, Direction::RIGHT);
    let r2 = cruise_block(r1.0, Direction::LEFT);
    let r3 = cruise_block(r2.0, Direction::UP);
    let r4 = cruise_block(r3.0, Direction::DOWN);
    if c.has_turned {
        law_turn_at_most_once(c);
    }
    if turned(c).has_turned {
        law_turn_at_most_once(driven(c));
    }
    assert(cruise(c).1 == r1.1 + r2.1 + r3.1 + r4.1);
    if c.direction == Direction::RIGHT {
        assert(cruise(c).1[0] == r1.1[0]);
    } else if c.direction == Direction::LEFT {
        assert(r1.1.len() == 0);
        assert(cruise(c).1[0] == r2.1[0]);
    } else if c.direction == Direction::UP {
        assert(cruise(c).1[0] == r3.1[0]);
    } else {
        assert(cruise(c).1[0] == r4.1[0]);
    }
}

/// In a frame of [`traffic_lights`], a waiting car with a distinct id and an
/// earlier car of its lane less than the gap ahead of it (see `law_gap_rule`)
/// stays where it is in the waiting traffic.
pub proof fn law_frame_keeps_gap(queue: Seq<Car>, lights: Signals, k: int, m: int)
    requires
        0 <= k < queue.len(),
        0 <= m < queue.len(),
        ids_distinct(queue),
        !queue[k].passed_traffic_light,
        queue[m].id < queue[k].id,
        queue[m].direction == queue[k].direction,
        match queue[k].direction {
            Direction::RIGHT => queue[m].position.x < queue[k].position.x + GAP,
            Direction::LEFT => queue[m].position.x > queue[k].position.x - GAP,
            Direction::UP => queue[m].position.y > queue[k].position.y - GAP,
            Direction::DOWN => queue[m].position.y < queue[k].position.y + GAP,
        },
    ensures
        ({
            let s = scan_all(queue, lights);
            exists|j: int|
                0 <= j < remaining(s.0, s.2).len() && remaining(s.0, s.2)[j] == queue[k]
        }),
{
    law_gap_rule(queue[k], queue[m], queue[k].direction);
    assert(close_behind(queue[k], queue[m], queue[k].direction));
    law_frame_held_back_stays(queue, lights, k);
}

/// Only cars past their light are moved on to the crossed traffic, and every car
/// still waiting after a frame has not passed its light.
pub proof fn law_moved_cars_passed_waiting_cars_not(queue: Seq<Car>, lights: Signals)
    ensures
        ({
            let s = scan_all(queue, lights);
            &&& forall|j: int|
                0 <= j < s.2.len() ==> (#[trigger] s.2[j]).passed_traffic_light
            &&& forall|j: int|
                0 <= j < remaining(s.0, s.2).len() ==> !(#[trigger] remaining(
                    s.0,
                    s.2,
                )[j]).passed_traffic_light
        }),
{
    let s = scan_all(queue, lights);
    lemma_scan(queue, lights, queue.len());
    lemma_remaining(s.0, s.2);
    let r = remaining(s.0, s.2);
    assert forall|j: int| 0 <= j < r.len() implies !(#[trigger] r[j]).passed_traffic_light by {
        let k = choose|k: int| 0 <= k < s.0.len() && s.0[k] == r[j];
        if r[j].passed_traffic_light {
            assert(s.0[k].passed_traffic_light);
            assert(id_listed(s.2, s.0[k].id));
        }
    }
}

/// No car is lost or made up in a frame: every car of the traffic either still
/// waits or has been moved on, by id, and every car after the frame is one of
/// the traffic's.
pub proof fn law_no_car_lost(queue: Seq<Car>, lights: Signals)
    ensures
        ({
            let s = scan_all(queue, lights);
            let waiting = remaining(s.0, s.2);
            &&& forall|k: int|
                0 <= k < queue.len() ==> id_listed(s.2, (#[trigger] queue[k]).id) || exists|
                    j: int,
                | 0 <= j < waiting.len() && waiting[j].id == queue[k].id
            &&& forall|j: int|
                0 <= j < waiting.len() ==> exists|k: int|
                    0 <= k < queue.len() && queue[k].id == (#[trigger] waiting[j]).id
            &&& forall|j: int|
                0 <= j < s.2.len() ==> exists|k: int|
                    0 <= k < queue.len() && queue[k].id == (#[trigger] s.2[j]).id
        }),
{
    let s = scan_all(queue, lights);
    lemma_scan(queue, lights, queue.len());
    lemma_remaining(s.0, s.2);
    let waiting = remaining(s.0, s.2);
    assert forall|k: int| 0 <= k < queue.len() implies id_listed(s.2, (#[trigger] queue[k]).id)
        || exists|j: int| 0 <= j < waiting.len() && waiting[j].id == queue[k].id by {
        assert(s.0[k].id == queue[k].id);
        if !id_listed(s.2, s.0[k].id) {
            let j = choose|j: int| 0 <= j < waiting.len() && waiting[j] == s.0[k];
            assert(waiting[j].id == queue[k].id);
        }
    }
    assert forall|j: int| 0 <= j < waiting.len() implies exists|k: int|
        0 <= k < queue.len() && queue[k].id == (#[trigger] waiting[j]).id by {
        let k = choose|k: int| 0 <= k < s.0.len() && s.0[k] == waiting[j];
        assert(s.0[k].id == queue[k].id);
    }
}

} // verus!
