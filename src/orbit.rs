//! Kinematic model of the sun and its planets. A body's pose is a pure function
//! of its fixed parameters and the elapsed time: nothing else is kept between
//! frames, so evaluating a time twice gives the same scene.
//!
//! Units: lengths in micro-units, scales in thousandths, phases in eighths of a
//! turn, angular speeds in microradians per second, elapsed time in
//! microseconds, and angles travelled in picoradians (speed times time).
use vstd::prelude::*;

verus! {

/// Number of planets in the scene.
pub const PLANETS_COUNT: usize = 8;

/// The sun's spin rate about +Y, in microradians per second.
pub const SUN_SPIN_SPEED: u64 = 120_000;

/// The sun's scale, in thousandths.
pub const SUN_SCALE: u32 = 6_500;

/// Orbital radius of planet `i`, in micro-units.
pub open spec fn planet_radius(i: int) -> int {
    if i == 0 {
        12_500_000
    } else if i == 1 {
        17_500_000
    } else if i == 2 {
        25_000_000
    } else if i == 3 {
        32_500_000
    } else if i == 4 {
        42_500_000
    } else if i == 5 {
        55_000_000
    } else if i == 6 {
        65_000_000
    } else {
        77_500_000
    }
}

/// Scale of planet `i`, in thousandths.
pub open spec fn planet_scale(i: int) -> int {
    if i == 0 {
        500
    } else if i == 1 {
        700
    } else if i == 2 {
        1_300
    } else if i == 3 {
        1_000
    } else if i == 4 {
        3_000
    } else if i == 5 {
        2_500
    } else {
        1_800
    }
}

/// Starting angle of planet `i` on its orbit, in eighths of a turn.
pub open spec fn planet_phase(i: int) -> int {
    if i == 0 {
        3
    } else if i == 1 {
        7
    } else if i == 2 {
        8
    } else if i == 3 {
        6
    } else if i == 4 {
        2
    } else if i == 5 {
        5
    } else if i == 6 {
        4
    } else {
        1
    }
}

/// Orbital angular speed of planet `i` (0.15 - 0.015 i - 0.0002 i^2 rad/s), in
/// microradians per second.
pub open spec fn orbit_speed(i: int) -> int {
    150_000 - 15_000 * i - 200 * i * i
}

/// Spin rate of planet `i` about its local up axis (0.5 - 0.05 i rad/s), in
/// microradians per second.
pub open spec fn spin_speed(i: int) -> int {
    500_000 - 50_000 * i
}

/// The axis a body turns about.
#[derive(Clone, Copy, Debug, PartialEq, Eq, Structural)]
pub enum SpinAxis {
    /// World +Y.
    Up,
    /// The unit vector from the origin towards the body.
    Radial,
}

/// The fixed parameters of one body.
#[derive(Clone, Copy, Debug, PartialEq, Eq, Structural)]
pub struct BodyParams {
    pub radius: u64,
    pub phase: u32,
    pub orbit_speed: u64,
    pub spin_speed: u64,
    /// Initial tilt about the spin axis, in degrees.
    pub tilt: u32,
    pub scale: u32,
    pub texture_index: u32,
}

/// A rotation about `axis` by `degrees` degrees plus `angle` picoradians.
#[derive(Clone, Copy, Debug, PartialEq, Eq, Structural)]
pub struct Rotation {
    pub axis: SpinAxis,
    pub degrees: u32,
    pub angle: u128,
}

/// Where a body stands: at angle `phase` eighths of a turn plus `orbit_angle`
/// picoradians on the circle of radius `radius` in the XZ plane, that is at
/// `(r cos a, 0, r sin a)`, turned by `rotation` and scaled by `scale`.
#[derive(Clone, Copy, Debug, PartialEq, Eq, Structural)]
pub struct BodyPose {
    pub radius: u64,
    pub phase: u32,
    pub orbit_angle: u128,
    pub rotation: Rotation,
    pub scale: u32,
    pub texture_index: u32,
}

/// The parameters of planet `i`.
pub open spec fn planet_params(i: int) -> BodyParams {
    BodyParams {
        radius: planet_radius(i) as u64,
        phase: planet_phase(i) as u32,
        orbit_speed: orbit_speed(i) as u64,
        spin_speed: spin_speed(i) as u64,
        tilt: (5 * i) as u32,
        scale: planet_scale(i) as u32,
        texture_index: i as u32,
    }
}

/// The parameters of the sun: at the origin, spinning only.
pub open spec fn sun_params() -> BodyParams {
    BodyParams {
        radius: 0,
        phase: 0,
        orbit_speed: 0,
        spin_speed: SUN_SPIN_SPEED,
        tilt: 0,
        scale: SUN_SCALE,
        texture_index: 0,
    }
}

/// The axis a body at the given orbital radius is tilted about. A body at the
/// origin has no direction towards it, so it takes the fixed world up axis.
pub open spec fn tilt_axis(radius: int) -> SpinAxis {
    if radius == 0 {
        SpinAxis::Up
    } else {
        SpinAxis::Radial
    }
}

/// The pose a body is created with: at its starting phase, tilted by its
/// initial tilt.
pub open spec fn initial_pose(p: BodyParams) -> BodyPose {
    BodyPose {
        radius: p.radius,
        phase: p.phase,
        orbit_angle: 0,
        rotation: Rotation { axis: tilt_axis(p.radius as int), degrees: p.tilt, angle: 0 },
        scale: p.scale,
        texture_index: p.texture_index,
    }
}

/// The pose of a body `t` microseconds after the start: moved along its orbit
/// and spun about world up, each at its own rate.
pub open spec fn pose_at(p: BodyParams, t: int) -> BodyPose {
    BodyPose {
        radius: p.radius,
        phase: p.phase,
        orbit_angle: (p.orbit_speed * t) as u128,
        rotation: Rotation { axis: SpinAxis::Up, degrees: 0, angle: (p.spin_speed * t) as u128 },
        scale: p.scale,
        texture_index: p.texture_index,
    }
}

/// The planets' poses at time `t`, in planet order.
pub open spec fn planets_at(t: int) -> Seq<BodyPose> {
    Seq::new(PLANETS_COUNT as nat, |i: int| pose_at(planet_params(i), t))
}

/// The planets' poses when the scene is created, in planet order.
pub open spec fn planets_initial() -> Seq<BodyPose> {
    Seq::new(PLANETS_COUNT as nat, |i: int| initial_pose(planet_params(i)))
}

/// The parameters of planet `i`.
pub fn planet(i: usize) -> (r: BodyParams)
    requires
        i < PLANETS_COUNT,
    ensures
        r == planet_params(i as int),
{
    let radius: u64 = if i == 0 {
        12_500_000
    } else if i == 1 {
        17_500_000
    } else if i == 2 {
        25_000_000
    } else if i == 3 {
        32_500_000
    } else if i == 4 {
        42_500_000
    } else if i == 5 {
        55_000_000
    } else if i == 6 {
        65_000_000
    } else {
        77_500_000
    };
    let scale: u32 = if i == 0 {
        500
    } else if i == 1 {
        700
    } else if i == 2 {
        1_300
    } else if i == 3 {
        1_000
    } else if i == 4 {
        3_000
    } else if i == 5 {
        2_500
    } else {
        1_800
    };
    let phase: u32 = if i == 0 {
        3
    } else if i == 1 {
        7
    } else if i == 2 {
        8
    } else if i == 3 {
        6
    } else if i == 4 {
        2
    } else if i == 5 {
        5
    } else if i == 6 {
        4
    } else {
        1
    };
    let k = i as u64;
    assert(200 * k * k <= 200 * 7 * 7 && 15_000 * k + 200 * k * k < 150_000) by (nonlinear_arith)
        requires
            k <= 7,
    ;
    BodyParams {
        radius,
        phase,
        orbit_speed: 150_000 - 15_000 * k - 200 * k * k,
        spin_speed: 500_000 - 50_000 * k,
        tilt: 5 * (i as u32),
        scale,
        texture_index: i as u32,
    }
}

/// The parameters of the sun.
pub fn sun() -> (r: BodyParams)
    ensures
        r == sun_params(),
{
    BodyParams {
        radius: 0,
        phase: 0,
        orbit_speed: SUN_SPIN_SPEED - SUN_SPIN_SPEED,
        spin_speed: SUN_SPIN_SPEED,
        tilt: 0,
        scale: SUN_SCALE,
        texture_index: 0,
    }
}

/// The pose a body is created with.
pub fn initial(p: BodyParams) -> (r: BodyPose)
    ensures
        r == initial_pose(p),
{
    let axis = if p.radius == 0 {
        SpinAxis::Up
    } else {
        SpinAxis::Radial
    };
    BodyPose {
        radius: p.radius,
        phase: p.phase,
        orbit_angle: 0,
        rotation: Rotation { axis, degrees: p.tilt, angle: 0 },
        scale: p.scale,
        texture_index: p.texture_index,
    }
}

/// The pose of a body `t` microseconds after the start.
pub fn advance(p: BodyParams, t: u64) -> (r: BodyPose)
    ensures
        r == pose_at(p, t as int),
{
    assert(p.orbit_speed * t <= u64::MAX * u64::MAX) by (nonlinear_arith)
        requires
            p.orbit_speed <= u64::MAX,
            t <= u64::MAX,
    ;
    assert(p.spin_speed * t <= u64::MAX * u64::MAX) by (nonlinear_arith)
        requires
            p.spin_speed <= u64::MAX,
            t <= u64::MAX,
    ;
    BodyPose {
        radius: p.radius,
        phase: p.phase,
        orbit_angle: p.orbit_speed as u128 * t as u128,
        rotation: Rotation {
            axis: SpinAxis::Up,
            degrees: 0,
            angle: p.spin_speed as u128 * t as u128,
        },
        scale: p.scale,
        texture_index: p.texture_index,
    }
}

/// The planets, in planet order: planet `i` draws texture layer `i`.
#[derive(Debug)]
pub struct Planets {
    instances: Vec<BodyPose>,
}

impl View for Planets {
    type V = Seq<BodyPose>;

    closed spec fn view(&self) -> Seq<BodyPose> {
        self.instances@
    }
}

impl Planets {
    /// There is always exactly one pose per planet.
    #[verifier::type_invariant]
    spec fn one_pose_per_planet(self) -> bool {
        self.instances@.len() == PLANETS_COUNT
    }

    /// The planets at their starting phases, each tilted by five degrees per
    /// place from the sun about the direction towards it.
    pub fn new() -> (r: Planets)
        ensures
            r@ == planets_initial(),
    {
        let mut instances: Vec<BodyPose> = Vec::new();
        let mut i: usize = 0;
        while i < PLANETS_COUNT
            invariant
                i <= PLANETS_COUNT,
                instances@ == planets_initial().take(i as int),
            decreases PLANETS_COUNT - i,
        {
            instances.push(initial(planet(i)));
            assert(instances@ =~= planets_initial().take(i + 1));
            i = i + 1;
        }
        assert(instances@ =~= planets_initial());
        Planets { instances }
    }

    /// Puts every planet where it stands `t` microseconds after the start,
    /// whatever the poses were before.
    pub fn update(&mut self, t: u64)
        ensures
            final(self)@ == planets_at(t as int),
    {
        let mut instances: Vec<BodyPose> = Vec::new();
        let mut i: usize = 0;
        while i < PLANETS_COUNT
            invariant
                i <= PLANETS_COUNT,
                instances@ == planets_at(t as int).take(i as int),
            decreases PLANETS_COUNT - i,
        {
            instances.push(advance(planet(i), t));
            assert(instances@ =~= planets_at(t as int).take(i + 1));
            i = i + 1;
        }
        assert(instances@ =~= planets_at(t as int));
        self.instances = instances;
    }

    /// The poses, in planet order.
    pub fn instances(&self) -> (r: &Vec<BodyPose>)
        ensures
            r@ == self@,
            r@.len() == PLANETS_COUNT,
    {
        proof {
            use_type_invariant(self);
        }
        &self.instances
    }
}

/// The sun: fixed at the origin, spinning about world up.
#[derive(Debug)]
pub struct Sun {
    instance: BodyPose,
}

impl View for Sun {
    type V = BodyPose;

    closed spec fn view(&self) -> BodyPose {
        self.instance
    }
}

impl Sun {
    pub fn new() -> (r: Sun)
        ensures
            r@ == initial_pose(sun_params()),
    {
        Sun { instance: initial(sun()) }
    }

    /// Turns the sun to where it stands `t` microseconds after the start.
    pub fn update(&mut self, t: u64)
        ensures
            final(self)@ == pose_at(sun_params(), t as int),
    {
        self.instance = advance(sun(), t);
    }

    pub fn instance(&self) -> (r: BodyPose)
        ensures
            r == self@,
    {
        self.instance
    }
}

/// The scene is a function of the elapsed time: equal times give equal poses
/// for the sun and every planet.
pub proof fn lemma_scene_deterministic(t1: int, t2: int)
    requires
        t1 == t2,
    ensures
        planets_at(t1) == planets_at(t2),
        pose_at(sun_params(), t1) == pose_at(sun_params(), t2),
{
}

/// At every time from the start on, each planet stays on the circle of its
/// assigned radius, and the sun at the origin.
pub proof fn lemma_orbit_radius_kept(i: int, t: int)
    requires
        0 <= i < PLANETS_COUNT,
        t >= 0,
    ensures
        planets_at(t)[i].radius == planet_radius(i),
        planets_initial()[i].radius == planet_radius(i),
        pose_at(sun_params(), t).radius == 0,
{
}

/// Planets further out orbit more slowly, and every planet moves forward.
pub proof fn lemma_outer_planets_slower(i: int, j: int)
    requires
        0 <= i < j < PLANETS_COUNT,
    ensures
        orbit_speed(i) > orbit_speed(j) > 0,
{
    assert(orbit_speed(i) - orbit_speed(j) == (j - i) * (15_000 + 200 * (i + j)))
        by (nonlinear_arith);
    assert((j - i) * (15_000 + 200 * (i + j)) > 0) by (nonlinear_arith)
        requires
            0 <= i < j,
    ;
    assert(orbit_speed(j) > 0) by (nonlinear_arith)
        requires
            0 <= j < 8,
    ;
}

/// A body at the origin, where no direction points towards it, turns about
/// the fixed world up axis, in its first pose and at every later time.
pub proof fn lemma_origin_body_has_fixed_axis(p: BodyParams, t: int)
    requires
        p.radius == 0,
    ensures
        initial_pose(p).rotation.axis == SpinAxis::Up,
        pose_at(p, t).rotation.axis == SpinAxis::Up,
        sun_params().radius == 0,
{
}

} // verus!
