//! The orchestrator: it owns the bodies and advances them tick by tick.

use vstd::prelude::*;
use crate::body::BodyType;
use crate::body::BodyView;
use crate::body::CelestialBody;
use crate::geometry::Vector3;
use crate::integrators::advanced_by;
use crate::integrators::EulerIntegrator;
use crate::integrators::Integrator;
use crate::integrators::IntegratorType;
use crate::integrators::RK4Integrator;
use crate::physics::State;
use crate::physics::StateView;
use crate::scalar::Scalar;
use crate::scalar::Single;
use crate::scalar::ONE_BITS;
use crate::scalar::ZERO_BITS;

verus! {

/// Settings of a run.
#[derive(Clone, Copy, Debug)]
pub struct SimulationParameters {
    pub time_multiplier: Scalar,
}

impl SimulationParameters {
    /// The default settings: time runs at its own pace.
    pub fn new() -> (r: SimulationParameters)
        ensures
            r.time_multiplier.bits == ONE_BITS,
    {
        SimulationParameters { time_multiplier: Scalar::from_bits(ONE_BITS) }
    }
}

/// What a [`SolarSystem`] holds.
pub struct SystemView {
    pub bodies: Seq<BodyView>,
    /// In seconds.
    pub timestep: Scalar,
    pub integrator_type: IntegratorType,
}

/// The positions, velocities and masses of the bodies, in their order.
pub open spec fn snapshot(bodies: Seq<BodyView>) -> StateView {
    StateView {
        positions: Seq::new(bodies.len(), |i: int| bodies[i].position),
        velocities: Seq::new(bodies.len(), |i: int| bodies[i].velocity),
        masses: Seq::new(bodies.len(), |i: int| bodies[i].mass),
    }
}

/// The system after one tick: every body takes its position and velocity
/// from the advanced snapshot and keeps the rest.
pub open spec fn updated(system: SystemView) -> SystemView {
    SystemView {
        bodies: Seq::new(
            system.bodies.len(),
            |i: int|
                BodyView {
                    position: advanced_by(
                        system.integrator_type,
                        snapshot(system.bodies),
                        system.timestep,
                    ).positions[i],
                    velocity: advanced_by(
                        system.integrator_type,
                        snapshot(system.bodies),
                        system.timestep,
                    ).velocities[i],
                    ..system.bodies[i]
                },
        ),
        ..system
    }
}

/// The system after `count` ticks.
pub open spec fn after_updates(system: SystemView, count: nat) -> SystemView
    decreases count,
{
    if count == 0 {
        system
    } else {
        updated(after_updates(system, (count - 1) as nat))
    }
}

/// Whatever the integrator and however many ticks: the number of bodies,
/// the name, kind, radius, mass and colour of each, the time step and the
/// integrator stay as they were. Only positions and velocities move.
pub proof fn lemma_updates_keep_identity(system: SystemView, count: nat)
    ensures
        after_updates(system, count).bodies.len() == system.bodies.len(),
        after_updates(system, count).timestep == system.timestep,
        after_updates(system, count).integrator_type == system.integrator_type,
        forall|i: int|
            0 <= i < system.bodies.len() ==> {
                &&& (#[trigger] after_updates(system, count).bodies[i]).name
                    == system.bodies[i].name
                &&& after_updates(system, count).bodies[i].body_type
                    == system.bodies[i].body_type
                &&& after_updates(system, count).bodies[i].km_radius
                    == system.bodies[i].km_radius
                &&& after_updates(system, count).bodies[i].mass == system.bodies[i].mass
                &&& after_updates(system, count).bodies[i].color == system.bodies[i].color
            },
    decreases count,
{
    if count > 0 {
        lemma_updates_keep_identity(system, (count - 1) as nat);
    }
}

/// The number of bodies of the standard system.
pub const STANDARD_COUNT: usize = 9;

/// Distance from the Sun in metres, as doubles: the Sun, then the planets
/// from Mercury to Neptune.
pub const STANDARD_DISTANCES: [u64; 9] = [
    0x0000_0000_0000_0000,
    0x422A_F637_C600_0000,
    0x4239_3138_FA00_0000,
    0x4241_6A6D_6C00_0000,
    0x424A_87F3_0380_0000,
    0x4266_A846_E920_0000,
    0x4274_DE10_F840_0000,
    0x4284_E3A7_7B30_0000,
    0x4290_5A4B_8358_0000,
];

/// Radius in kilometres, as doubles.
pub const STANDARD_RADII: [u64; 9] = [
    0x4125_4028_0000_0000,
    0x40A3_0F66_6666_6666,
    0x40B7_A3CC_CCCC_CCCD,
    0x40B8_E300_0000_0000,
    0x40AA_7B00_0000_0000,
    0x40F1_1170_0000_0000,
    0x40EC_6F00_0000_0000,
    0x40D8_C480_0000_0000,
    0x40D8_0B80_0000_0000,
];

/// Mass in kilograms, as doubles.
pub const STANDARD_MASSES: [u64; 9] = [
    0x4639_1ACE_3D05_AEF4,
    0x44D1_6401_52DF_1A0B,
    0x4510_1A82_650A_E35E,
    0x4513_C27B_1327_2FB6,
    0x44E0_EA08_4D18_1CD6,
    0x4598_87F4_88AC_ED67,
    0x457D_6163_4BB2_E532,
    0x4551_F3AE_E1E6_2AFA,
    0x4555_2D02_C7E1_4AF6,
];

/// Orbital speed in metres per second, as doubles.
pub const STANDARD_SPEEDS: [u64; 9] = [
    0x0000_0000_0000_0000,
    0x40E7_2000_0000_0000,
    0x40E1_1980_0000_0000,
    0x40DD_1500_0000_0000,
    0x40D7_8400_0000_0000,
    0x40C9_8700_0000_0000,
    0x40C2_E800_0000_0000,
    0x40BA_9000_0000_0000,
    0x40B5_3600_0000_0000,
];

/// Red, green and blue, as single-precision numbers.
pub const STANDARD_COLORS: [[u32; 3]; 9] = [
    [0x3F80_0000, 0x3F80_0000, 0x0000_0000],
    [0x3F33_3333, 0x3F33_3333, 0x3F33_3333],
    [0x3F66_6666, 0x3F33_3333, 0x3F00_0000],
    [0x3E4C_CCCD, 0x3F00_0000, 0x3F80_0000],
    [0x3F80_0000, 0x3E99_999A, 0x0000_0000],
    [0x3F4C_CCCD, 0x3F19_999A, 0x3ECC_CCCD],
    [0x3F66_6666, 0x3F4C_CCCD, 0x3F00_0000],
    [0x3F00_0000, 0x3F4C_CCCD, 0x3F66_6666],
    [0x0000_0000, 0x0000_0000, 0x3F4C_CCCD],
];

/// The time step of the standard system: 3600 seconds, as a double.
pub const STANDARD_TIMESTEP_BITS: u64 = 0x40AC_2000_0000_0000;

/// The name of the `i`-th body of the standard system.
pub open spec fn standard_name(i: int) -> Seq<char> {
    if i == 0 {
        "Sun"@
    } else if i == 1 {
        "Mercury"@
    } else if i == 2 {
        "Venus"@
    } else if i == 3 {
        "Earth"@
    } else if i == 4 {
        "Mars"@
    } else if i == 5 {
        "Jupiter"@
    } else if i == 6 {
        "Saturn"@
    } else if i == 7 {
        "Uranus"@
    } else {
        "Neptune"@
    }
}

/// The `i`-th body of the standard system: on the x axis at its distance
/// from the Sun, moving along the y axis at its orbital speed.
pub open spec fn standard_body(i: int) -> BodyView {
    BodyView {
        name: standard_name(i),
        body_type: if i == 0 {
            BodyType::Star
        } else {
            BodyType::Planet
        },
        position: Vector3 {
            x: Scalar { bits: STANDARD_DISTANCES[i] },
            y: Scalar { bits: ZERO_BITS },
            z: Scalar { bits: ZERO_BITS },
        },
        km_radius: Scalar { bits: STANDARD_RADII[i] },
        mass: Scalar { bits: STANDARD_MASSES[i] },
        velocity: Vector3 {
            x: Scalar { bits: ZERO_BITS },
            y: Scalar { bits: STANDARD_SPEEDS[i] },
            z: Scalar { bits: ZERO_BITS },
        },
        color: [
            Single { bits: STANDARD_COLORS[i][0] },
            Single { bits: STANDARD_COLORS[i][1] },
            Single { bits: STANDARD_COLORS[i][2] },
        ],
    }
}

/// The Sun and the eight planets, an hour per tick, Runge-Kutta with one
/// substep.
pub open spec fn standard_system() -> SystemView {
    SystemView {
        bodies: Seq::new(STANDARD_COUNT as nat, |i: int| standard_body(i)),
        timestep: Scalar { bits: STANDARD_TIMESTEP_BITS },
        integrator_type: IntegratorType::RK4(1),
    }
}

fn standard_name_of(i: usize) -> (r: String)
    ensures
        r@ == standard_name(i as int),
{
    if i == 0 {
        String::from_str("Sun")
    } else if i == 1 {
        String::from_str("Mercury")
    } else if i == 2 {
        String::from_str("Venus")
    } else if i == 3 {
        String::from_str("Earth")
    } else if i == 4 {
        String::from_str("Mars")
    } else if i == 5 {
        String::from_str("Jupiter")
    } else if i == 6 {
        String::from_str("Saturn")
    } else if i == 7 {
        String::from_str("Uranus")
    } else {
        String::from_str("Neptune")
    }
}

/// The bodies of a simulation, the time step and the integrator.
pub struct SolarSystem {
    bodies: Vec<CelestialBody>,
    timestep: Scalar,
    integrator_type: IntegratorType,
}

impl View for SolarSystem {
    type V = SystemView;

    closed spec fn view(&self) -> SystemView {
        SystemView {
            bodies: Seq::new(self.bodies@.len(), |i: int| self.bodies@[i]@),
            timestep: self.timestep,
            integrator_type: self.integrator_type,
        }
    }
}

impl SolarSystem {
    /// A system without bodies.
    pub fn new(timestep: Scalar, integrator: IntegratorType) -> (r: SolarSystem)
        ensures
            r@ == (SystemView {
                bodies: Seq::<BodyView>::empty(),
                timestep,
                integrator_type: integrator,
            }),
    {
        let system = SolarSystem { bodies: Vec::new(), timestep, integrator_type: integrator };
        assert(system@.bodies =~= Seq::<BodyView>::empty());
        system
    }

    /// Appends a body; its index is the number of bodies before the call.
    pub fn add_body(&mut self, body: CelestialBody)
        ensures
            final(self)@ == (SystemView { bodies: old(self)@.bodies.push(body@), ..old(self)@ }),
    {
        self.bodies.push(body);
        assert(self@.bodies =~= old(self)@.bodies.push(body@));
    }

    /// The bodies, in the order in which they were added.
    pub fn get_bodies(&self) -> (r: &Vec<CelestialBody>)
        ensures
            r@.len() == self@.bodies.len(),
            forall|i: int| 0 <= i < r@.len() ==> (#[trigger] r@[i])@ == self@.bodies[i],
    {
        &self.bodies
    }

    /// The time step in seconds.
    pub fn timestep(&self) -> (r: Scalar)
        ensures
            r == self@.timestep,
    {
        self.timestep
    }

    /// Sets the time step. Any value is taken, also zero, a negative number
    /// or one that is not finite.
    pub fn set_timestep(&mut self, timestep: Scalar)
        ensures
            final(self)@ == (SystemView { timestep, ..old(self)@ }),
    {
        self.timestep = timestep;
    }

    /// The integrator that `update` uses.
    pub fn integrator_type(&self) -> (r: IntegratorType)
        ensures
            r == self@.integrator_type,
    {
        self.integrator_type
    }

    /// The index of the first body whose name is exactly `name`.
    pub fn find_body(&self, name: &str) -> (r: Option<usize>)
        ensures
            match r {
                Some(i) => {
                    &&& i < self@.bodies.len()
                    &&& self@.bodies[i as int].name == name@
                    &&& forall|k: int| 0 <= k < i ==> (#[trigger] self@.bodies[k]).name != name@
                },
                None => forall|k: int|
                    0 <= k < self@.bodies.len() ==> (#[trigger] self@.bodies[k]).name != name@,
            },
    {
        let wanted = String::from_str(name);
        let n = self.bodies.len();
        let mut i: usize = 0;
        while i < n
            invariant
                i <= n,
                n == self.bodies@.len(),
                wanted@ == name@,
                forall|k: int| 0 <= k < i ==> (#[trigger] self@.bodies[k]).name != name@,
            decreases n - i,
        {
            if *self.bodies[i].name() == wanted {
                return Some(i);
            }
            i += 1;
        }
        None
    }

    /// Advances every body by one time step: a snapshot of the positions,
    /// velocities and masses is handed to the integrator, and each body takes
    /// its new position and velocity from the result. Names, kinds, radii,
    /// masses and colours stay as they are, whatever the integrator.
    pub fn update(&mut self)
        ensures
            final(self)@ == updated(old(self)@),
            final(self)@.bodies.len() == old(self)@.bodies.len(),
            forall|i: int|
                0 <= i < old(self)@.bodies.len() ==> {
                    &&& (#[trigger] final(self)@.bodies[i]).name == old(self)@.bodies[i].name
                    &&& final(self)@.bodies[i].body_type == old(self)@.bodies[i].body_type
                    &&& final(self)@.bodies[i].km_radius == old(self)@.bodies[i].km_radius
                    &&& final(self)@.bodies[i].mass == old(self)@.bodies[i].mass
                    &&& final(self)@.bodies[i].color == old(self)@.bodies[i].color
                },
            final(self)@.timestep == old(self)@.timestep,
            final(self)@.integrator_type == old(self)@.integrator_type,
    {
        let n = self.bodies.len();
        let mut positions: Vec<Vector3> = Vec::new();
        let mut velocities: Vec<Vector3> = Vec::new();
        let mut masses: Vec<Scalar> = Vec::new();
        let mut i: usize = 0;
        while i < n
            invariant
                i <= n,
                n == self.bodies@.len(),
                self@ == old(self)@,
                positions@.len() == i,
                velocities@.len() == i,
                masses@.len() == i,
                forall|k: int| 0 <= k < i ==> positions@[k] == self@.bodies[k].position,
                forall|k: int| 0 <= k < i ==> velocities@[k] == self@.bodies[k].velocity,
                forall|k: int| 0 <= k < i ==> masses@[k] == self@.bodies[k].mass,
                forall|k: int| 0 <= k < i ==> (#[trigger] masses@[k]).spec_is_positive(),
            decreases n - i,
        {
            positions.push(self.bodies[i].position());
            velocities.push(self.bodies[i].velocity());
            masses.push(self.bodies[i].mass());
            i += 1;
        }
        assert(positions@ =~= snapshot(self@.bodies).positions);
        assert(velocities@ =~= snapshot(self@.bodies).velocities);
        assert(masses@ =~= snapshot(self@.bodies).masses);

        let mut state = State::new(positions, velocities, masses).unwrap();
        match self.integrator_type {
            IntegratorType::Euler => {
                EulerIntegrator.step(&mut state, self.timestep);
            },
            IntegratorType::RK4(substeps) => {
                RK4Integrator::new(substeps).step(&mut state, self.timestep);
            },
        }
        assert(state@ == advanced_by(
            old(self)@.integrator_type,
            snapshot(old(self)@.bodies),
            old(self)@.timestep,
        ));

        let new_positions = state.positions();
        let new_velocities = state.velocities();
        i = 0;
        while i < n
            invariant
                i <= n,
                n == self.bodies@.len(),
                n == old(self)@.bodies.len(),
                new_positions@.len() == n,
                new_velocities@.len() == n,
                self@.timestep == old(self)@.timestep,
                self@.integrator_type == old(self)@.integrator_type,
                forall|k: int|
                    0 <= k < i ==> (#[trigger] self@.bodies[k]) == (BodyView {
                        position: new_positions@[k],
                        velocity: new_velocities@[k],
                        ..old(self)@.bodies[k]
                    }),
                forall|k: int| i <= k < n ==> (#[trigger] self@.bodies[k]) == old(self)@.bodies[k],
            decreases n - i,
        {
            let ghost before = self.bodies@;
            assert(forall|k: int| 0 <= k < n ==> self@.bodies[k] == (#[trigger] before[k])@);
            self.bodies[i].move_to(new_positions[i], new_velocities[i]);
            assert(self.bodies@.len() == n);
            assert(forall|k: int| 0 <= k < n && k != i ==> self.bodies@[k] == before[k]);
            assert(forall|k: int| 0 <= k < n ==> #[trigger] self@.bodies[k] == self.bodies@[k]@);
            i += 1;
        }
        assert(self@.bodies =~= updated(old(self)@).bodies);
    }

    /// The standard system: the Sun and the eight planets, each planet on
    /// the x axis at its distance from the Sun and moving along the y axis,
    /// with a time step of one hour and the Runge-Kutta integrator.
    pub fn initialize_standard() -> (r: SolarSystem)
        ensures
            r@ == standard_system(),
    {
        let mut system = SolarSystem::new(
            Scalar::from_bits(STANDARD_TIMESTEP_BITS),
            IntegratorType::RK4(1),
        );
        let zero = Scalar::from_bits(ZERO_BITS);
        let mut i: usize = 0;
        while i < STANDARD_COUNT
            invariant
                i <= STANDARD_COUNT,
                zero.bits == ZERO_BITS,
                system@.timestep.bits == STANDARD_TIMESTEP_BITS,
                system@.integrator_type == IntegratorType::RK4(1),
                system@.bodies.len() == i,
                forall|k: int| 0 <= k < i ==> system@.bodies[k] == standard_body(k),
            decreases STANDARD_COUNT - i,
        {
            let body = CelestialBody::new(
                standard_name_of(i),
                if i == 0 {
                    BodyType::Star
                } else {
                    BodyType::Planet
                },
                Vector3::new(Scalar::from_bits(STANDARD_DISTANCES[i]), zero, zero),
                Scalar::from_bits(STANDARD_RADII[i]),
                Scalar::from_bits(STANDARD_MASSES[i]),
                Vector3::new(zero, Scalar::from_bits(STANDARD_SPEEDS[i]), zero),
                [
                    Single::from_bits(STANDARD_COLORS[i][0]),
                    Single::from_bits(STANDARD_COLORS[i][1]),
                    Single::from_bits(STANDARD_COLORS[i][2]),
                ],
            ).unwrap();
            system.add_body(body);
            i += 1;
        }
        assert(system@.bodies =~= standard_system().bodies);
        system
    }
}

} // verus!
