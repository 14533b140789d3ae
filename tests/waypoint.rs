use launchpad::mission_twin::{DelayWaypoint, GoToWaypoint, TurnWaypoint, Waypoint};
use launchpad::waypoint::{goto_legs, waypoint_commands, DroneCommand, Leg};

fn leg(x: i32, z: i32) -> Leg {
    Leg { x, y: 0, z, speed: 100 }
}

fn goto(distance_cm: i32, height: i16) -> Waypoint {
    Waypoint::Goto(GoToWaypoint {
        map_x: 0,
        map_y: 0,
        height,
        angle: None,
        distance_cm,
        duration_ms: 0,
    })
}

#[test]
fn goto_segmentation_scenario() {
    // 7.18 m to a height of 150 cm from 50 cm.
    let cmds = waypoint_commands(&goto(718, 150), 50);
    assert!(cmds == vec![DroneCommand::GoTo(leg(218, 0)), DroneCommand::GoTo(leg(500, 100))]);
}

#[test]
fn small_rest_correction_scenario() {
    // 5.10 m at height 0 from height 0.
    let legs = goto_legs(510, 0);
    assert!(legs == vec![leg(30, 0), leg(480, 0)]);
    assert!(legs.iter().all(|l| l.x >= 20));
    assert_eq!(legs.iter().map(|l| l.x).sum::<i32>(), 510);
}

#[test]
fn short_flight_is_one_leg_that_climbs() {
    assert!(goto_legs(150, 30) == vec![leg(150, 30)]);
}

#[test]
fn exact_multiple_trades_one_full_leg() {
    assert!(goto_legs(1000, -40) == vec![leg(20, 0), leg(480, 0), leg(500, -40)]);
}

#[test]
fn long_flight_climbs_on_the_last_leg_only() {
    let legs = goto_legs(1718, 70);
    assert!(legs == vec![leg(218, 0), leg(500, 0), leg(500, 0), leg(500, 70)]);
}

#[test]
fn segmentation_law_on_many_distances() {
    for d in 20..3000 {
        let legs = goto_legs(d, 25);
        assert_eq!(legs.iter().map(|l| l.x).sum::<i32>(), d);
        assert!(legs.iter().all(|l| l.x >= 20 && l.x <= 500 && l.y == 0));
        assert_eq!(legs.iter().filter(|l| l.z != 0).count(), 1);
        assert_eq!(legs.last().unwrap().z, 25);
    }
}

#[test]
fn zero_distance_is_one_empty_leg() {
    assert!(goto_legs(0, 10) == vec![leg(0, 10)]);
}

#[test]
fn turns_pick_their_direction() {
    let cw = waypoint_commands(&Waypoint::Turn(TurnWaypoint { deg: 90, duration_ms: 0 }), 0);
    assert!(cw == vec![DroneCommand::Clockwise(90)]);
    let ccw = waypoint_commands(&Waypoint::Turn(TurnWaypoint { deg: -45, duration_ms: 0 }), 0);
    assert!(ccw == vec![DroneCommand::CounterClockwise(45)]);
    let none = waypoint_commands(&Waypoint::Turn(TurnWaypoint { deg: 0, duration_ms: 0 }), 0);
    assert!(none == vec![DroneCommand::CounterClockwise(0)]);
}

#[test]
fn delay_hovers() {
    let cmds = waypoint_commands(&Waypoint::Delay(DelayWaypoint { duration_ms: 1500 }), 0);
    assert!(cmds == vec![DroneCommand::Hover(1500)]);
}
