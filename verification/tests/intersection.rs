use road_intersection::car::{AtTheCrossroads, Car, CarColor, CarPosition, Direction};
use road_intersection::control::{command_for_key, command_from_choice, Command, Key};
use road_intersection::geometry::{scaled, shifted, Line, Screen, REACH};
use road_intersection::junction::{drive_passed_traffic, frame_sees_junction, traffic_lights, Frame};
use road_intersection::light::{LightBar, Signal, TrafficLight, TrafficLightPosition};
use road_intersection::road::road;

const SCREEN: Screen = Screen { width: 80000, height: 80000 };

fn car(direction: Direction, id: u64, route: AtTheCrossroads, x: i64, y: i64) -> Car {
    let mut c = Car::spawn(direction, id, route, SCREEN);
    c.position = CarPosition { x, y };
    c
}

struct Junction {
    traffic: Vec<Car>,
    passed: Vec<Car>,
    up: TrafficLight,
    down: TrafficLight,
    left: TrafficLight,
    right: TrafficLight,
    skip: i32,
    woop: i32,
}

impl Junction {
    fn new(traffic: Vec<Car>) -> Junction {
        Junction {
            traffic,
            passed: Vec::new(),
            up: TrafficLight::new(SCREEN),
            down: TrafficLight::new(SCREEN),
            left: TrafficLight::new(SCREEN),
            right: TrafficLight::new(SCREEN),
            skip: 0,
            woop: 0,
        }
    }

    fn frame(&mut self) -> Frame {
        let lane = Vec::new();
        traffic_lights(
            &mut self.traffic,
            &mut self.up,
            &mut self.down,
            &mut self.left,
            &mut self.right,
            &mut self.passed,
            &lane,
            &mut self.skip,
            &mut self.woop,
        )
    }

    fn greens(&self) -> usize {
        [self.up.color, self.down.color, self.left.color, self.right.color]
            .iter()
            .filter(|c| **c == Signal::Green)
            .count()
    }
}

#[test]
fn spawn_points_on_an_800_pixel_screen() {
    let up = Car::spawn(Direction::UP, 0, AtTheCrossroads::ContinueForward, SCREEN);
    assert_eq!(up.position, CarPosition { x: 42000, y: 88889 });
    let down = Car::spawn(Direction::DOWN, 1, AtTheCrossroads::TurnRight, SCREEN);
    assert_eq!(down.position, CarPosition { x: 34000, y: -8000 });
    let right = Car::spawn(Direction::RIGHT, 2, AtTheCrossroads::TurnLeft, SCREEN);
    assert_eq!(right.position, CarPosition { x: -5000, y: 42000 });
    let left = Car::spawn(Direction::LEFT, 3, AtTheCrossroads::ContinueForward, SCREEN);
    assert_eq!(left.position, CarPosition { x: 80016, y: 34000 });
    assert_eq!(up.width, 4000);
    assert_eq!(up.height, 4000);
    assert_eq!(up.color, CarColor::Pink);
    assert_eq!(down.color, CarColor::Gold);
    assert_eq!(right.color, CarColor::Beige);
    assert_eq!(left.id, 3);
    assert!(!left.has_turned && !left.passed_traffic_light && !left.passed_intersection);
    assert_eq!(left.in_move, 0);
}

#[test]
fn new_cars_draw_different_routes() {
    let mut seen = Vec::new();
    for id in 0..300u64 {
        let c = Car::new(Direction::UP, id, SCREEN);
        assert_eq!(c.id, id);
        assert_eq!(c.direction, Direction::UP);
        let expected = match c.at_the_crossroads {
            AtTheCrossroads::ContinueForward => CarColor::Pink,
            AtTheCrossroads::TurnRight => CarColor::Gold,
            AtTheCrossroads::TurnLeft => CarColor::Beige,
        };
        assert_eq!(c.color, expected);
        if !seen.contains(&c.at_the_crossroads) {
            seen.push(c.at_the_crossroads);
        }
    }
    assert_eq!(seen.len(), 3);
}

#[test]
fn adding_cars_gives_fresh_ids() {
    let mut car_id = 7u64;
    let mut up_vec = Vec::new();
    let mut down_vec = Vec::new();
    let mut right_vec = Vec::new();
    let mut left_vec = Vec::new();
    let mut traffic = Vec::new();
    Car::add_up(&mut car_id, &mut up_vec, &mut traffic, SCREEN);
    Car::add_down(&mut car_id, &mut down_vec, &mut traffic, SCREEN);
    Car::add_right(&mut car_id, &mut right_vec, &mut traffic, SCREEN);
    Car::add_left(&mut car_id, &mut left_vec, &mut traffic, SCREEN);
    assert_eq!(car_id, 11);
    let ids: Vec<u64> = traffic.iter().map(|c| c.id).collect();
    assert_eq!(ids, vec![7, 8, 9, 10]);
    assert_eq!(up_vec[0].direction, Direction::UP);
    assert_eq!(down_vec[0].direction, Direction::DOWN);
    assert_eq!(right_vec[0].direction, Direction::RIGHT);
    assert_eq!(left_vec[0], traffic[3]);
}

#[test]
fn right_turn_is_clockwise_and_happens_once() {
    let mut c = car(Direction::RIGHT, 0, AtTheCrossroads::TurnRight, 34000, 42000);
    c.turn();
    assert_eq!(c.direction, Direction::RIGHT);
    c.position.x = 34100;
    c.turn();
    assert_eq!(c.direction, Direction::DOWN);
    assert!(c.has_turned);
    c.turn();
    assert_eq!(c.direction, Direction::DOWN);
}

#[test]
fn left_turns_are_counterclockwise() {
    let mut c = car(Direction::UP, 0, AtTheCrossroads::TurnLeft, 42000, 33900);
    c.turn();
    assert_eq!(c.direction, Direction::LEFT);
    let mut d = car(Direction::LEFT, 1, AtTheCrossroads::TurnLeft, 33900, 34000);
    d.turn();
    assert_eq!(d.direction, Direction::DOWN);
    let mut e = car(Direction::DOWN, 2, AtTheCrossroads::TurnLeft, 34000, 42100);
    e.turn();
    assert_eq!(e.direction, Direction::RIGHT);
    let mut f = car(Direction::RIGHT, 3, AtTheCrossroads::TurnLeft, 42100, 42000);
    f.turn();
    assert_eq!(f.direction, Direction::UP);
}

#[test]
fn straight_cars_never_turn() {
    let mut c = car(Direction::LEFT, 0, AtTheCrossroads::ContinueForward, 1000, 34000);
    c.turn();
    assert_eq!(c.direction, Direction::LEFT);
    assert!(!c.has_turned);
}

#[test]
fn driving_moves_one_pixel() {
    let mut c = car(Direction::UP, 0, AtTheCrossroads::ContinueForward, 42000, 60000);
    let shown = c.drive_car();
    assert_eq!(shown.y, 60000);
    assert_eq!(c.position, CarPosition { x: 42000, y: 59900 });
    let mut d = car(Direction::LEFT, 1, AtTheCrossroads::ContinueForward, 60000, 34000);
    d.drive_car();
    assert_eq!(d.position.x, 59900);
}

#[test]
fn driving_after_a_turn_follows_the_new_heading() {
    let mut c = car(Direction::RIGHT, 0, AtTheCrossroads::TurnRight, 34100, 42000);
    c.drive_car();
    assert_eq!(c.direction, Direction::DOWN);
    assert_eq!(c.position, CarPosition { x: 34100, y: 42100 });
    assert!(c.passed_traffic_light);
}

#[test]
fn passing_the_light() {
    let mut c = car(Direction::RIGHT, 0, AtTheCrossroads::ContinueForward, 32000, 42000);
    c.passed_traffic_light();
    assert!(!c.passed_traffic_light);
    c.position.x = 32100;
    c.passed_traffic_light();
    assert!(c.passed_traffic_light);
    let mut u = car(Direction::UP, 1, AtTheCrossroads::ContinueForward, 42000, 44000);
    u.passed_traffic_light();
    assert!(!u.passed_traffic_light);
    u.position.y = 43900;
    u.passed_traffic_light();
    assert!(u.passed_traffic_light);
}

#[test]
fn passing_the_intersection() {
    let mut c = car(Direction::DOWN, 0, AtTheCrossroads::ContinueForward, 34000, 44000);
    c.passed_intersection();
    assert!(!c.passed_intersection);
    c.position.y = 44100;
    c.passed_intersection();
    assert!(c.passed_intersection);
    let mut l = car(Direction::LEFT, 1, AtTheCrossroads::ContinueForward, 32000, 34000);
    l.passed_intersection();
    assert!(!l.passed_intersection);
}

#[test]
fn stopping_shows_cars_that_have_not_turned() {
    let mut c = car(Direction::UP, 0, AtTheCrossroads::ContinueForward, 42000, 50000);
    assert_eq!(c.stop_car().map(|r| r.y), Some(50000));
    c.has_turned = true;
    assert_eq!(c.stop_car(), None);
}

#[test]
fn draw_car_moves_and_resizes() {
    let mut c = car(Direction::UP, 0, AtTheCrossroads::TurnLeft, 42000, 50000);
    c.draw_car(CarPosition { x: 1, y: 2 }, 30, 40);
    assert_eq!(c.position, CarPosition { x: 1, y: 2 });
    assert_eq!((c.height, c.width, c.color), (30, 40, CarColor::Beige));
}

#[test]
fn coordinates_stop_at_the_edge() {
    assert_eq!(shifted(5, 100), 105);
    assert_eq!(shifted(REACH - 100, 100), REACH);
    assert_eq!(shifted(REACH, 100), REACH);
    assert_eq!(shifted(REACH, -100), REACH - 100);
    assert_eq!(shifted(-REACH, -100), -REACH);
    assert_eq!(shifted(i64::MAX, 100), i64::MAX);
}

#[test]
fn a_new_light_is_red_above_the_junction() {
    let l = TrafficLight::new(SCREEN);
    assert_eq!(l.color, Signal::Red);
    assert_eq!(l.position, TrafficLightPosition::UP(32000, 28571, 48000, 28571));
}

#[test]
fn drawing_a_light_places_it() {
    let mut l = TrafficLight::new(SCREEN);
    l.change_color(Signal::Green);
    let bar = l.draw_traffic_light(TrafficLightPosition::LEFT(1, 2, 3, 4));
    assert_eq!(l.position, TrafficLightPosition::LEFT(1, 2, 3, 4));
    assert_eq!(bar, LightBar { line: Line { x1: 1, y1: 2, x2: 3, y2: 4 }, color: Signal::Green });
}

#[test]
fn the_first_waiting_car_gets_green() {
    let mut j = Junction::new(vec![car(Direction::RIGHT, 0, AtTheCrossroads::ContinueForward, -5000, 42000)]);
    let frame = j.frame();
    assert_eq!(frame.lights.len(), 4);
    assert_eq!(frame.lights[2].line, Line { x1: 32000, y1: 32000, x2: 32000, y2: 48000 });
    assert_eq!(frame.cars.len(), 1);
    assert_eq!(frame.cars[0].x, -5000);
    assert_eq!(j.traffic[0].position.x, -4900);
    assert_eq!(j.left.color, Signal::Green);
    assert_eq!(j.greens(), 1);
    assert_eq!((j.skip, j.woop), (-1, -1));
    let mut k = Junction::new(vec![car(Direction::UP, 0, AtTheCrossroads::ContinueForward, 42000, 88888)]);
    k.frame();
    assert_eq!(k.down.color, Signal::Green);
    assert_eq!(k.greens(), 1);
}

#[test]
fn a_car_waits_at_red() {
    let mut j = Junction::new(vec![car(Direction::RIGHT, 0, AtTheCrossroads::ContinueForward, 28000, 42000)]);
    j.skip = 100;
    j.woop = 50;
    for _ in 0..10 {
        j.frame();
    }
    assert_eq!(j.traffic[0].position.x, 28000);
    assert_eq!(j.left.color, Signal::Red);
    assert_eq!(j.skip, 90);
}

#[test]
fn a_car_stops_behind_an_earlier_one() {
    let first = car(Direction::RIGHT, 0, AtTheCrossroads::ContinueForward, 28000, 42000);
    let second = car(Direction::RIGHT, 1, AtTheCrossroads::ContinueForward, 21100, 42000);
    let mut j = Junction::new(vec![first, second]);
    j.left.change_color(Signal::Green);
    j.skip = 100;
    j.woop = 100;
    let frame = j.frame();
    assert_eq!(j.traffic[0].position.x, 28100);
    assert_eq!(j.traffic[1].position.x, 21100);
    assert_eq!(frame.cars.len(), 2);
}

#[test]
fn a_crossing_car_moves_on_and_holds_the_lights() {
    let c = car(Direction::RIGHT, 0, AtTheCrossroads::TurnLeft, 32100, 42000);
    let mut j = Junction::new(vec![c]);
    j.left.change_color(Signal::Green);
    j.frame();
    assert!(j.traffic.is_empty());
    assert_eq!(j.passed.len(), 1);
    assert!(j.passed[0].passed_traffic_light);
    assert_eq!(j.passed[0].position.x, 32200);
    assert_eq!((j.skip, j.woop), (229, 19));
}

#[test]
fn hold_times_follow_the_route() {
    let right = car(Direction::RIGHT, 0, AtTheCrossroads::TurnRight, 32100, 42000);
    let mut j = Junction::new(vec![right]);
    j.left.change_color(Signal::Green);
    j.frame();
    assert_eq!(j.skip, 69);
    let straight = car(Direction::RIGHT, 0, AtTheCrossroads::ContinueForward, 32100, 42000);
    let mut k = Junction::new(vec![straight]);
    k.left.change_color(Signal::Green);
    k.frame();
    assert_eq!(k.skip, 149);
}

#[test]
fn all_lights_turn_red_when_the_clearing_counter_ends() {
    let mut j = Junction::new(Vec::new());
    j.up.change_color(Signal::Green);
    j.skip = 10;
    j.woop = 1;
    j.frame();
    assert_eq!(j.woop, 0);
    assert_eq!(j.greens(), 0);
}

#[test]
fn lights_hold_while_skipping() {
    let mut j = Junction::new(vec![car(Direction::DOWN, 0, AtTheCrossroads::ContinueForward, 34000, -8000)]);
    j.left.change_color(Signal::Green);
    j.skip = 5;
    j.woop = 5;
    j.frame();
    assert_eq!(j.left.color, Signal::Green);
    assert_eq!(j.up.color, Signal::Red);
}

#[test]
fn crossed_cars_keep_driving() {
    let mut passed = vec![
        car(Direction::UP, 0, AtTheCrossroads::ContinueForward, 42000, 30000),
        car(Direction::LEFT, 1, AtTheCrossroads::ContinueForward, 30000, 34000),
    ];
    let shown = drive_passed_traffic(&mut passed);
    assert_eq!(shown.len(), 2);
    assert_eq!(passed[0].position.y, 29900);
    assert_eq!(passed[1].position.x, 29900);
}

#[test]
fn a_car_that_turns_while_crossing_moves_twice_in_that_frame() {
    let mut passed = vec![car(Direction::RIGHT, 0, AtTheCrossroads::TurnRight, 34100, 42000)];
    let shown = drive_passed_traffic(&mut passed);
    assert_eq!(shown.len(), 2);
    assert_eq!(passed[0].direction, Direction::DOWN);
    assert_eq!(passed[0].position, CarPosition { x: 34100, y: 42200 });
}

#[test]
fn a_long_run_never_shows_two_greens_and_loses_no_car() {
    let mut car_id = 0u64;
    let mut lanes = vec![Vec::new(), Vec::new(), Vec::new(), Vec::new()];
    let mut j = Junction::new(Vec::new());
    let dirs = [Direction::UP, Direction::RIGHT, Direction::DOWN, Direction::LEFT];
    for frame in 0..4000u32 {
        if frame % 90 == 0 && frame < 2000 {
            let k = ((frame / 90) % 4) as usize;
            Car::add(dirs[k], &mut car_id, &mut lanes[k], &mut j.traffic, SCREEN);
        }
        j.frame();
        drive_passed_traffic(&mut j.passed);
        assert!(j.greens() <= 1);
        assert!(j.traffic.iter().all(|c| !c.passed_traffic_light));
        assert_eq!((j.traffic.len() + j.passed.len()) as u64, car_id);
    }
    assert!(j.passed.len() > 0);
}

#[test]
fn road_lines() {
    let lines = road(SCREEN);
    assert_eq!(lines.len(), 12);
    assert_eq!(lines[3], Line { x1: 32000, y1: 48000, x2: 32000, y2: 80000 });
    assert_eq!(lines[7], Line { x1: 0, y1: 40000, x2: 32000, y2: 40000 });
    assert_eq!(lines[11], Line { x1: 48000, y1: 48000, x2: 80000, y2: 48000 });
}

#[test]
fn keys_ask_for_cars() {
    assert_eq!(
        command_for_key(Key::Up),
        Command::Spawn { direction: Direction::UP, lane: Direction::UP }
    );
    assert_eq!(
        command_for_key(Key::Right),
        Command::Spawn { direction: Direction::RIGHT, lane: Direction::RIGHT }
    );
    assert_eq!(command_for_key(Key::Escape), Command::Quit);
    assert_eq!(command_for_key(Key::Other), Command::Nothing);
    assert_eq!(
        command_from_choice(3),
        Command::Spawn { direction: Direction::RIGHT, lane: Direction::LEFT }
    );
    assert_eq!(
        command_from_choice(2),
        Command::Spawn { direction: Direction::LEFT, lane: Direction::LEFT }
    );
}

#[test]
fn the_random_key_picks_different_directions() {
    let mut seen = Vec::new();
    for _ in 0..300 {
        match command_for_key(Key::R) {
            Command::Spawn { direction, .. } => {
                if !seen.contains(&direction) {
                    seen.push(direction);
                }
            }
            _ => panic!("R always spawns"),
        }
    }
    assert_eq!(seen.len(), 4);
}

#[test]
fn a_car_stops_at_the_line_of_a_red_light() {
    let mut j = Junction::new(vec![car(Direction::RIGHT, 0, AtTheCrossroads::ContinueForward, -5000, 42000)]);
    j.skip = 1000;
    j.woop = 1000;
    for _ in 0..600 {
        j.frame();
    }
    assert_eq!(j.traffic.len(), 1);
    assert_eq!(j.traffic[0].position.x, 28000);
    assert!(!j.traffic[0].passed_traffic_light);
}

#[test]
fn shares_of_the_screen_round_to_the_nearest_unit() {
    assert_eq!(scaled(80000, 10, 9), 88889);
    assert_eq!(scaled(80000, 5, 14), 28571);
    assert_eq!(scaled(7, 1, 2), 4);
    assert_eq!(scaled(0, 3, 5), 0);
}

#[test]
fn a_car_stops_at_the_reach_of_the_coordinates() {
    let mut c = car(Direction::RIGHT, 0, AtTheCrossroads::ContinueForward, REACH - 100, 42000);
    c.drive_car();
    assert_eq!(c.position.x, REACH);
    c.drive_car();
    assert_eq!(c.position.x, REACH);
}

#[test]
fn frames_keep_waiting_cars_that_are_held_back() {
    let first = car(Direction::UP, 0, AtTheCrossroads::ContinueForward, 42000, 48000);
    let second = car(Direction::UP, 1, AtTheCrossroads::ContinueForward, 42000, 54000);
    let mut j = Junction::new(vec![first, second]);
    j.skip = 100;
    j.woop = 100;
    j.frame();
    assert_eq!(j.traffic.len(), 2);
    assert_eq!(j.traffic[0], first);
    assert_eq!(j.traffic[1], second);
}

#[test]
fn a_car_in_the_junction_resets_full_counters() {
    let c = car(Direction::RIGHT, 0, AtTheCrossroads::TurnRight, 32100, 42000);
    let mut j = Junction::new(vec![c]);
    j.left.change_color(Signal::Green);
    j.skip = i32::MIN;
    j.woop = i32::MIN;
    assert!(frame_sees_junction(&j.traffic, &j.up, &j.down, &j.left, &j.right));
    j.frame();
    assert_eq!((j.skip, j.woop), (69, 19));
}

#[test]
fn an_empty_junction_is_not_seen() {
    let c = car(Direction::RIGHT, 0, AtTheCrossroads::TurnRight, 1000, 42000);
    let j = Junction::new(vec![c]);
    assert!(!frame_sees_junction(&j.traffic, &j.up, &j.down, &j.left, &j.right));
}
