use crate::mission_twin::Waypoint;
use vstd::prelude::*;

verus! {

/// The longest leg the drone's radio protocol accepts, in centimeters.
pub const MAX_LEG_CM: i32 = 500;

/// The shortest leg the drone's radio protocol accepts, in centimeters.
pub const MIN_LEG_CM: i32 = 20;

/// The leg flown in place of a full one when the remainder alone would be too short.
pub const SHORT_FULL_LEG_CM: i32 = 480;

/// The speed of every leg, in centimeters per second.
pub const LEG_SPEED: i32 = 100;

/// One straight move relative to the drone: forward `x`, sideways `y`, up `z`,
/// all in centimeters.
#[derive(Clone, Copy, PartialEq, Eq, Structural)]
pub struct Leg {
    pub x: i32,
    pub y: i32,
    pub z: i32,
    pub speed: i32,
}

/// One command for the drone.
#[derive(Clone, Copy, PartialEq, Eq, Structural)]
pub enum DroneCommand {
    GoTo(Leg),
    Clockwise(u32),
    CounterClockwise(u32),
    /// Stay in place for this many milliseconds.
    Hover(u32),
}

/// A forward leg of `x` centimeters that climbs `z`.
pub open spec fn leg(x: int, z: int) -> Leg {
    Leg { x: x as i32, y: 0, z: z as i32, speed: LEG_SPEED }
}

/// The number of full legs before any correction: the whole multiples of the
/// longest leg in `d`, none when `d` is negative.
pub open spec fn full_legs(d: int) -> int {
    if d < 0 {
        0
    } else {
        d / MAX_LEG_CM as int
    }
}

/// What is left of `d` after the full legs; it keeps the sign of `d`.
pub open spec fn remainder(d: int) -> int {
    if d < 0 {
        -((-d) % MAX_LEG_CM as int)
    } else {
        d % MAX_LEG_CM as int
    }
}

/// Whether the remainder is too short to fly and one full leg is traded for a
/// shorter one plus a longer remainder.
pub open spec fn corrects(d: int) -> bool {
    remainder(d) < MIN_LEG_CM && full_legs(d) > 0
}

/// The legs that cover a straight flight of `d` centimeters while climbing `z`:
/// first the remainder, then the shortened full leg if there is one, then the
/// full legs. Only the last leg climbs.
pub open spec fn goto_legs_spec(d: int, z: int) -> Seq<Leg> {
    let fives = if corrects(d) {
        full_legs(d) - 1
    } else {
        full_legs(d)
    };
    let rest = if corrects(d) {
        remainder(d) + MIN_LEG_CM
    } else {
        remainder(d)
    };
    let first = seq![leg(rest, if !corrects(d) && fives == 0 { z } else { 0 })];
    let middle = if corrects(d) {
        seq![leg(SHORT_FULL_LEG_CM as int, if fives == 0 { z } else { 0 })]
    } else {
        Seq::empty()
    };
    let full = Seq::new(
        fives as nat,
        |i: int|
            leg(
                MAX_LEG_CM as int,
                if i == fives - 1 {
                    z
                } else {
                    0
                },
            ),
    );
    first + middle + full
}

/// The total forward distance of a list of legs.
pub open spec fn legs_distance(legs: Seq<Leg>) -> int
    decreases legs.len(),
{
    if legs.len() == 0 {
        0
    } else {
        legs_distance(legs.drop_last()) + legs.last().x
    }
}

proof fn lemma_distance_concat(a: Seq<Leg>, b: Seq<Leg>)
    ensures
        legs_distance(a + b) == legs_distance(a) + legs_distance(b),
    decreases b.len(),
{
    if b.len() > 0 {
        lemma_distance_concat(a, b.drop_last());
        assert((a + b).drop_last() =~= a + b.drop_last());
    } else {
        assert(a + b =~= a);
    }
}

proof fn lemma_distance_full(n: nat, z: int)
    ensures
        legs_distance(
            Seq::new(n, |i: int| leg(MAX_LEG_CM as int, if i == n - 1 { z } else { 0 })),
        ) == MAX_LEG_CM * n,
    decreases n,
{
    let s = Seq::new(n, |i: int| leg(MAX_LEG_CM as int, if i == n - 1 { z } else { 0 }));
    if n > 0 {
        let m = (n - 1) as nat;
        let t = Seq::new(m, |i: int| leg(MAX_LEG_CM as int, if i == m - 1 { z } else { 0 }));
        lemma_distance_full(m, z);
        let u = s.drop_last();
        assert forall|i: int| 0 <= i < m implies u[i].x == t[i].x by {}
        lemma_same_distance(u, t);
    }
}

proof fn lemma_same_distance(a: Seq<Leg>, b: Seq<Leg>)
    requires
        a.len() == b.len(),
        forall|i: int| 0 <= i < a.len() ==> a[i].x == b[i].x,
    ensures
        legs_distance(a) == legs_distance(b),
    decreases a.len(),
{
    if a.len() > 0 {
        lemma_same_distance(a.drop_last(), b.drop_last());
    }
}

/// A straight flight of at least the shortest leg is split into legs that the
/// radio accepts: together they cover exactly the distance, each lies between
/// the shortest and the longest leg, and only the last one climbs, by the whole
/// height difference.
pub proof fn lemma_goto_segmentation(d: int, z: int)
    requires
        MIN_LEG_CM <= d <= i32::MAX,
        i32::MIN <= z <= i32::MAX,
    ensures
        legs_distance(goto_legs_spec(d, z)) == d,
        forall|i: int|
            0 <= i < goto_legs_spec(d, z).len() ==> MIN_LEG_CM <= #[trigger] goto_legs_spec(
                d,
                z,
            )[i].x <= MAX_LEG_CM,
        goto_legs_spec(d, z).last().z == z,
        forall|i: int|
            0 <= i < goto_legs_spec(d, z).len() - 1 ==> #[trigger] goto_legs_spec(d, z)[i].z == 0,
        forall|i: int|
            0 <= i < goto_legs_spec(d, z).len() ==> #[trigger] goto_legs_spec(d, z)[i].y == 0,
{
    let legs = goto_legs_spec(d, z);
    let fives = if corrects(d) {
        full_legs(d) - 1
    } else {
        full_legs(d)
    };
    let rest = if corrects(d) {
        remainder(d) + MIN_LEG_CM
    } else {
        remainder(d)
    };
    let first = seq![leg(rest, if !corrects(d) && fives == 0 { z } else { 0 })];
    let middle = if corrects(d) {
        seq![leg(SHORT_FULL_LEG_CM as int, if fives == 0 { z } else { 0 })]
    } else {
        Seq::<Leg>::empty()
    };
    let full = Seq::new(
        fives as nat,
        |i: int| leg(MAX_LEG_CM as int, if i == fives - 1 { z } else { 0 }),
    );
    assert(legs == first + middle + full);
    assert(0 <= remainder(d) < 500);
    assert(d == full_legs(d) * 500 + remainder(d));
    assert(first[0].x == rest);
    lemma_distance_concat(first + middle, full);
    lemma_distance_concat(first, middle);
    lemma_distance_full(fives as nat, z);
    assert(legs_distance(first) == rest) by {
        assert(first.drop_last() =~= Seq::<Leg>::empty());
        reveal_with_fuel(legs_distance, 2);
    }
    if corrects(d) {
        assert(middle.drop_last() =~= Seq::<Leg>::empty());
        assert(legs_distance(middle) == SHORT_FULL_LEG_CM) by {
            reveal_with_fuel(legs_distance, 2);
        }
    } else {
        assert(legs_distance(middle) == 0);
    }
    assert(d == full_legs(d) * 500 + remainder(d));
}

/// The legs of a straight flight of `distance_cm` centimeters that climbs `z`
/// centimeters.
pub fn goto_legs(distance_cm: i32, z: i32) -> (r: Vec<Leg>)
    ensures
        r@ == goto_legs_spec(distance_cm as int, z as int),
{
    let mut fives: i32 = if distance_cm < 0 {
        0
    } else {
        distance_cm / MAX_LEG_CM
    };
    let mut rest: i32 = distance_cm % MAX_LEG_CM;
    let mut do_short_full_leg = false;
    if rest < MIN_LEG_CM && fives > 0 {
        fives = fives - 1;
        do_short_full_leg = true;
        rest = rest + MIN_LEG_CM;
    }
    let ghost d = distance_cm as int;
    assert(fives == if corrects(d) { full_legs(d) - 1 } else { full_legs(d) });
    assert(rest == if corrects(d) { remainder(d) + MIN_LEG_CM } else { remainder(d) });
    let mut legs: Vec<Leg> = Vec::new();
    let rest_z = if !do_short_full_leg && fives == 0 {
        z
    } else {
        0
    };
    legs.push(Leg { x: rest, y: 0, z: rest_z, speed: LEG_SPEED });
    if do_short_full_leg {
        let short_z = if fives == 0 {
            z
        } else {
            0
        };
        legs.push(Leg { x: SHORT_FULL_LEG_CM, y: 0, z: short_z, speed: LEG_SPEED });
    }
    let ghost head = legs@;
    let mut i: i32 = 0;
    while i < fives
        invariant
            0 <= i <= fives,
            legs@.len() == head.len() + i,
            legs@.subrange(0, head.len() as int) == head,
            forall|j: int|
                0 <= j < i ==> #[trigger] legs@[head.len() + j] == leg(
                    MAX_LEG_CM as int,
                    if j == fives - 1 {
                        z as int
                    } else {
                        0
                    },
                ),
        decreases fives - i,
    {
        let leg_z = if i == fives - 1 {
            z
        } else {
            0
        };
        legs.push(Leg { x: MAX_LEG_CM, y: 0, z: leg_z, speed: LEG_SPEED });
        proof {
            assert(legs@.subrange(0, head.len() as int) =~= head);
        }
        i = i + 1;
    }
    proof {
        let spec = goto_legs_spec(d, z as int);
        let fives_s = if corrects(d) { full_legs(d) - 1 } else { full_legs(d) };
        let rest_s = if corrects(d) { remainder(d) + MIN_LEG_CM } else { remainder(d) };
        let first = seq![leg(rest_s, if !corrects(d) && fives_s == 0 { z as int } else { 0 })];
        let middle = if corrects(d) {
            seq![leg(SHORT_FULL_LEG_CM as int, if fives_s == 0 { z as int } else { 0 })]
        } else {
            Seq::<Leg>::empty()
        };
        let full = Seq::new(
            fives_s as nat,
            |i: int| leg(MAX_LEG_CM as int, if i == fives_s - 1 { z as int } else { 0 }),
        );
        assert(spec == first + middle + full);
        assert(head =~= first + middle);
        assert forall|j: int| 0 <= j < spec.len() implies legs@[j] == spec[j] by {
            if j >= head.len() {
                let k = j - head.len();
                assert(legs@[head.len() + k] == full[k]);
            } else {
                assert(legs@.subrange(0, head.len() as int)[j] == head[j]);
            }
        }
        assert(legs@ =~= spec);
    }
    legs
}

/// What the drone does for one waypoint, `height_cm` being its current height.
pub open spec fn waypoint_commands_spec(wp: Waypoint, height_cm: i16) -> Seq<DroneCommand> {
    match wp {
        Waypoint::Goto(g) => goto_legs_spec(g.distance_cm as int, g.height - height_cm).map_values(
            |l: Leg| DroneCommand::GoTo(l),
        ),
        Waypoint::Turn(t) => if t.deg > 0 {
            seq![DroneCommand::Clockwise(t.deg as u32)]
        } else {
            seq![DroneCommand::CounterClockwise((-t.deg) as u32)]
        },
        Waypoint::Delay(dl) => seq![DroneCommand::Hover(dl.duration_ms)],
    }
}

/// The commands that carry out one waypoint: a straight flight becomes its legs,
/// a turn one rotation, a delay one hover.
pub fn waypoint_commands(wp: &Waypoint, height_cm: i16) -> (r: Vec<DroneCommand>)
    ensures
        r@ == waypoint_commands_spec(*wp, height_cm),
{
    match wp {
        Waypoint::Goto(g) => {
            let z: i32 = g.height as i32 - height_cm as i32;
            let legs = goto_legs(g.distance_cm, z);
            let mut out: Vec<DroneCommand> = Vec::new();
            let mut i: usize = 0;
            while i < legs.len()
                invariant
                    0 <= i <= legs@.len(),
                    out@ == legs@.subrange(0, i as int).map_values(|l: Leg| DroneCommand::GoTo(l)),
                decreases legs@.len() - i,
            {
                out.push(DroneCommand::GoTo(legs[i]));
                i = i + 1;
                proof {
                    assert(out@ =~= legs@.subrange(0, i as int).map_values(
                        |l: Leg| DroneCommand::GoTo(l),
                    ));
                }
            }
            proof {
                assert(legs@.subrange(0, legs@.len() as int) =~= legs@);
            }
            out
        },
        Waypoint::Turn(t) => {
            if t.deg > 0 {
                vec![DroneCommand::Clockwise(t.deg as u32)]
            } else {
                let deg: i32 = -(t.deg as i32);
                vec![DroneCommand::CounterClockwise(deg as u32)]
            }
        },
        Waypoint::Delay(dl) => vec![DroneCommand::Hover(dl.duration_ms)],
    }
}

} // verus!
