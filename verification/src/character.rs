//! The kinematic character: a point mass pushed by a constant force along one
//! of four headings, with a speed limit on each axis.

use crate::fixed::{
    clamp, div_toward_zero, lemma_reach_is_enough, product, product_within_reach, quotient,
    quotient_of, saturate, REACH, UNIT,
};
use crate::world::Direction;
use vstd::prelude::*;

verus! {

/// Force applied to a character built without `with_force`: 10.
pub const DEFAULT_FORCE: i64 = 10_000_000;

/// Mass of a character built without `with_mass`: 0.5.
pub const DEFAULT_MASS: i64 = 500_000;

/// Speed limit of a character built without `with_max_speed`: 1.5.
pub const DEFAULT_MAX_SPEED: i64 = 1_500_000;

/// Position units covered per second at a velocity of one. Velocities are
/// read per millisecond and time steps are given in seconds, hence 1000.
pub const POSITION_SCALE: i64 = 1000;

/// A pair of coordinates over the mathematical integers, in millionths.
pub struct Vector {
    pub x: int,
    pub y: int,
}

/// Why a character could not be built.
#[derive(Debug, Clone, Copy, PartialEq, Eq, Structural)]
pub enum ConstructionError {
    /// The mass was zero or negative, so no acceleration is defined.
    NonPositiveMass,
    /// The speed limit was negative, so no velocity could respect it.
    NegativeMaxSpeed,
}

/// A location in render space.
#[derive(Debug, Clone, Copy, PartialEq, Eq, Structural)]
pub struct Position {
    x: i64,
    y: i64,
}

impl View for Position {
    type V = Vector;

    closed spec fn view(&self) -> Vector {
        Vector { x: self.x as int, y: self.y as int }
    }
}

impl Position {
    /// The position with these coordinates.
    pub fn new(x: i64, y: i64) -> (position: Position)
        ensures
            position@ == (Vector { x: x as int, y: y as int }),
    {
        Position { x, y }
    }

    /// The horizontal coordinate, growing to the right.
    pub fn get_x(&self) -> (x: i64)
        ensures
            x == self@.x,
    {
        self.x
    }

    /// The vertical coordinate, growing downward.
    pub fn get_y(&self) -> (y: i64)
        ensures
            y == self@.y,
    {
        self.y
    }
}

/// A velocity, one component per axis.
#[derive(Debug, Clone, Copy, PartialEq, Eq, Structural)]
pub struct Velocity {
    x: i64,
    y: i64,
}

impl View for Velocity {
    type V = Vector;

    closed spec fn view(&self) -> Vector {
        Vector { x: self.x as int, y: self.y as int }
    }
}

impl Velocity {
    /// The component along the x axis.
    pub fn get_x(&self) -> (x: i64)
        ensures
            x == self@.x,
    {
        self.x
    }

    /// The component along the y axis.
    pub fn get_y(&self) -> (y: i64)
        ensures
            y == self@.y,
    {
        self.y
    }
}

/// How far a body moving at `velocity` gets in a step of `dt`.
pub open spec fn displacement(velocity: int, dt: int) -> int {
    div_toward_zero(velocity * dt * POSITION_SCALE, UNIT as int)
}

/// What a character is: its constants and its state of motion.
pub struct CharacterModel {
    pub force: int,
    pub mass: int,
    pub max_speed: int,
    pub position: Vector,
    pub facing: Direction,
    pub velocity: Vector,
}

impl CharacterModel {
    /// The states a character can be in: a positive mass, a speed limit that
    /// both velocity components respect, and no motion off the axis it faces.
    pub open spec fn wf(self) -> bool {
        &&& i64::MIN <= self.force <= i64::MAX
        &&& 0 < self.mass <= i64::MAX
        &&& 0 <= self.max_speed <= i64::MAX
        &&& i64::MIN <= self.position.x <= i64::MAX
        &&& i64::MIN <= self.position.y <= i64::MAX
        &&& -self.max_speed <= self.velocity.x <= self.max_speed
        &&& -self.max_speed <= self.velocity.y <= self.max_speed
        &&& self.facing.horizontal() ==> self.velocity.y == 0
        &&& !self.facing.horizontal() ==> self.velocity.x == 0
    }

    /// Force over mass.
    pub open spec fn acceleration(self) -> int {
        quotient(self.force, self.mass)
    }

    /// The speed gained along the heading in a step of `dt`, before the limit.
    pub open spec fn velocity_gain(self, dt: int) -> int {
        product(self.acceleration(), dt)
    }

    /// The velocity component along the axis of `direction`.
    pub open spec fn velocity_along(self, direction: Direction) -> int {
        if direction.horizontal() {
            self.velocity.x
        } else {
            self.velocity.y
        }
    }

    /// The velocity component across the axis of `direction`.
    pub open spec fn velocity_across(self, direction: Direction) -> int {
        if direction.horizontal() {
            self.velocity.y
        } else {
            self.velocity.x
        }
    }

    /// The same character at rest.
    pub open spec fn stopped(self) -> CharacterModel {
        CharacterModel { velocity: Vector { x: 0, y: 0 }, ..self }
    }

    /// The character made to face `direction`: unchanged if it already does,
    /// at rest and turned otherwise.
    pub open spec fn turned(self, direction: Direction) -> CharacterModel {
        if direction == self.facing {
            self
        } else {
            CharacterModel { facing: direction, ..self.stopped() }
        }
    }

    /// The character after its force has acted along its heading for `dt`,
    /// each velocity component held within the speed limit.
    pub open spec fn accelerated(self, dt: int) -> CharacterModel {
        let gain = self.facing.oriented(self.velocity_gain(dt));
        let pushed = if self.facing.horizontal() {
            Vector { x: self.velocity.x + gain, y: self.velocity.y }
        } else {
            Vector { x: self.velocity.x, y: self.velocity.y + gain }
        };
        CharacterModel {
            velocity: Vector {
                x: clamp(pushed.x, -self.max_speed, self.max_speed),
                y: clamp(pushed.y, -self.max_speed, self.max_speed),
            },
            ..self
        }
    }

    /// The character carried along by its velocity for `dt`. A coordinate that
    /// would leave the `i64` range stays at the end of that range.
    pub open spec fn displaced(self, dt: int) -> CharacterModel {
        CharacterModel {
            position: Vector {
                x: saturate(self.position.x + displacement(self.velocity.x, dt)),
                y: saturate(self.position.y + displacement(self.velocity.y, dt)),
            },
            ..self
        }
    }

    /// One physics step heading in `direction`: turn, accelerate, move.
    pub open spec fn advanced(self, direction: Direction, dt: int) -> CharacterModel {
        self.turned(direction).accelerated(dt).displaced(dt)
    }

    /// `steps` consecutive physics steps with the same heading and time step.
    pub open spec fn advanced_times(self, direction: Direction, dt: int, steps: nat) -> CharacterModel
        decreases steps,
    {
        if steps == 0 {
            self
        } else {
            self.advanced_times(direction, dt, (steps - 1) as nat).advanced(direction, dt)
        }
    }
}

impl CharacterModel {
    /// A physics step leads from a valid state to a valid state that faces the
    /// commanded direction: in particular neither velocity component ever
    /// exceeds the speed limit in magnitude.
    pub proof fn lemma_advanced_is_valid(self, direction: Direction, dt: int)
        requires
            self.wf(),
        ensures
            self.advanced(direction, dt).wf(),
            self.advanced(direction, dt).facing == direction,
            self.advanced(direction, dt).force == self.force,
            self.advanced(direction, dt).mass == self.mass,
            self.advanced(direction, dt).max_speed == self.max_speed,
    {
    }

    /// Stopping leads from a valid state to a valid state at rest, in the same
    /// place and with the same heading.
    pub proof fn lemma_stopped_is_valid(self)
        requires
            self.wf(),
        ensures
            self.stopped().wf(),
            self.stopped().velocity == (Vector { x: 0, y: 0 }),
            self.stopped().position == self.position,
            self.stopped().facing == self.facing,
    {
    }

    /// Any number of physics steps with one heading and time step leads from a
    /// valid state to a valid state with the same constants, which faces that
    /// heading once a step has been taken.
    pub proof fn lemma_advanced_times_is_valid(self, direction: Direction, dt: int, steps: nat)
        requires
            self.wf(),
        ensures
            self.advanced_times(direction, dt, steps).wf(),
            steps > 0 ==> self.advanced_times(direction, dt, steps).facing == direction,
            self.advanced_times(direction, dt, steps).velocity_gain(dt) == self.velocity_gain(dt),
            self.advanced_times(direction, dt, steps).max_speed == self.max_speed,
        decreases steps,
    {
        if steps > 0 {
            let before = self.advanced_times(direction, dt, (steps - 1) as nat);
            self.lemma_advanced_times_is_valid(direction, dt, (steps - 1) as nat);
            before.lemma_advanced_is_valid(direction, dt);
        }
    }

    /// A step that turns the character starts from rest: afterwards the
    /// velocity along the new heading is what one step gains, held within the
    /// speed limit, and there is none across it.
    pub proof fn lemma_turn_starts_from_rest(self, direction: Direction, dt: int)
        requires
            self.wf(),
            direction != self.facing,
        ensures
            self.advanced(direction, dt).velocity_along(direction) == clamp(
                direction.oriented(self.velocity_gain(dt)),
                -self.max_speed,
                self.max_speed,
            ),
            self.advanced(direction, dt).velocity_across(direction) == 0,
    {
    }

    /// While the heading and the time step stay the same and the force pushes
    /// forward, the velocity along the heading never passes the speed limit
    /// in either sense, and from one step to the next the speed along the
    /// heading never falls. Only a first step that turns the character is not
    /// compared with what came before it: it starts from rest.
    pub proof fn lemma_speed_approaches_limit(self, direction: Direction, dt: int, steps: nat)
        requires
            self.wf(),
            self.velocity_gain(dt) >= 0,
        ensures
            -self.max_speed <= self.advanced_times(direction, dt, steps + 1).velocity_along(
                direction,
            ) <= self.max_speed,
            steps >= 1 || self.facing == direction ==> direction.oriented(
                self.advanced_times(direction, dt, steps).velocity_along(direction),
            ) <= direction.oriented(
                self.advanced_times(direction, dt, steps + 1).velocity_along(direction),
            ),
    {
        let before = self.advanced_times(direction, dt, steps);
        self.lemma_advanced_times_is_valid(direction, dt, steps);
        before.lemma_advanced_is_valid(direction, dt);
        assert(self.advanced_times(direction, dt, steps + 1) == before.advanced(direction, dt));
    }

    /// After `steps` steps with one heading and time step, the velocity along
    /// the heading is the velocity the first step started from plus `steps`
    /// times the gain of one step, held within the speed limit; there is none
    /// across it. The first step starts from rest if it turns the character.
    pub proof fn lemma_velocity_after_steps(self, direction: Direction, dt: int, steps: nat)
        requires
            self.wf(),
            steps >= 1,
        ensures
            self.advanced_times(direction, dt, steps).velocity_along(direction) == clamp(
                self.turned(direction).velocity_along(direction) + steps * direction.oriented(
                    self.velocity_gain(dt),
                ),
                -self.max_speed,
                self.max_speed,
            ),
            self.advanced_times(direction, dt, steps).velocity_across(direction) == 0,
        decreases steps,
    {
        let push = direction.oriented(self.velocity_gain(dt));
        let start = self.turned(direction).velocity_along(direction);
        let before = self.advanced_times(direction, dt, (steps - 1) as nat);
        assert(self.advanced_times(direction, dt, steps) == before.advanced(direction, dt));
        if steps == 1 {
            assert(before == self);
            assert(1 * push == push);
        } else {
            self.lemma_velocity_after_steps(direction, dt, (steps - 1) as nat);
            self.lemma_advanced_times_is_valid(direction, dt, (steps - 1) as nat);
            assert(steps * push == (steps - 1) * push + push) by (nonlinear_arith);
            assert(push >= 0 ==> (steps - 1) * push >= 0) by (nonlinear_arith)
                requires
                    steps >= 1,
            ;
            assert(push <= 0 ==> (steps - 1) * push <= 0) by (nonlinear_arith)
                requires
                    steps >= 1,
            ;
        }
    }

    /// A physics step moves the character by the displacement that its new
    /// velocity covers in the time step, exactly unless a coordinate would
    /// leave the `i64` range.
    pub proof fn lemma_position_follows_velocity(self, direction: Direction, dt: int)
        requires
            self.wf(),
        ensures
            ({
                let after = self.advanced(direction, dt);
                let to_x = self.position.x + displacement(after.velocity.x, dt);
                let to_y = self.position.y + displacement(after.velocity.y, dt);
                &&& after.position.x == saturate(to_x)
                &&& after.position.y == saturate(to_y)
                &&& i64::MIN <= to_x <= i64::MAX ==> after.position.x - self.position.x
                    == displacement(after.velocity.x, dt)
                &&& i64::MIN <= to_y <= i64::MAX ==> after.position.y - self.position.y
                    == displacement(after.velocity.y, dt)
            }),
    {
    }
}

/// The displacement is velocity times time step times `POSITION_SCALE`,
/// rounded toward zero to a whole millionth: exact where that product is a
/// whole number of millionths, and less than one millionth short otherwise.
pub proof fn lemma_displacement_is_scaled_product(velocity: int, dt: int)
    ensures
        ({
            let exact = velocity * dt * POSITION_SCALE;
            let moved = displacement(velocity, dt) * UNIT;
            &&& exact % (UNIT as int) == 0 ==> moved == exact
            &&& exact >= 0 ==> exact - UNIT < moved <= exact
            &&& exact <= 0 ==> exact <= moved < exact + UNIT
        }),
{
}

/// The constants and starting position that a character is built from.
pub struct BuilderModel {
    pub position: Vector,
    pub force: int,
    pub mass: int,
    pub max_speed: int,
}

impl BuilderModel {
    /// The character these settings describe: at rest, facing north.
    pub open spec fn built(self) -> CharacterModel {
        CharacterModel {
            force: self.force,
            mass: self.mass,
            max_speed: self.max_speed,
            position: self.position,
            facing: Direction::North,
            velocity: Vector { x: 0, y: 0 },
        }
    }
}

/// Collects the starting position and the constants of a character.
#[derive(Debug)]
pub struct CharacterBuilder {
    position: Position,
    force: i64,
    mass: i64,
    max_speed: i64,
}

impl View for CharacterBuilder {
    type V = BuilderModel;

    closed spec fn view(&self) -> BuilderModel {
        BuilderModel {
            position: self.position@,
            force: self.force as int,
            mass: self.mass as int,
            max_speed: self.max_speed as int,
        }
    }
}

impl Clone for CharacterBuilder {
    fn clone(&self) -> (copy: CharacterBuilder)
        ensures
            copy@ == self@,
    {
        CharacterBuilder {
            position: self.position,
            force: self.force,
            mass: self.mass,
            max_speed: self.max_speed,
        }
    }
}

impl CharacterBuilder {
    /// A builder for a character at `position` with the default constants.
    pub fn new(position: Position) -> (builder: CharacterBuilder)
        ensures
            builder@ == (BuilderModel {
                position: position@,
                force: DEFAULT_FORCE as int,
                mass: DEFAULT_MASS as int,
                max_speed: DEFAULT_MAX_SPEED as int,
            }),
    {
        CharacterBuilder {
            position,
            force: DEFAULT_FORCE,
            mass: DEFAULT_MASS,
            max_speed: DEFAULT_MAX_SPEED,
        }
    }

    /// The same settings with this force.
    pub fn with_force(self, force: i64) -> (builder: CharacterBuilder)
        ensures
            builder@ == (BuilderModel { force: force as int, ..self@ }),
    {
        let mut builder = self;
        builder.force = force;
        builder
    }

    /// The same settings with this mass.
    pub fn with_mass(self, mass: i64) -> (builder: CharacterBuilder)
        ensures
            builder@ == (BuilderModel { mass: mass as int, ..self@ }),
    {
        let mut builder = self;
        builder.mass = mass;
        builder
    }

    /// The same settings with this speed limit.
    pub fn with_max_speed(self, max_speed: i64) -> (builder: CharacterBuilder)
        ensures
            builder@ == (BuilderModel { max_speed: max_speed as int, ..self@ }),
    {
        let mut builder = self;
        builder.max_speed = max_speed;
        builder
    }

    /// Builds the character, or says which constant rules it out. The mass is
    /// judged before the speed limit.
    pub fn build(self) -> (built: Result<Character, ConstructionError>)
        ensures
            self@.mass <= 0 ==> built == Err::<Character, ConstructionError>(
                ConstructionError::NonPositiveMass,
            ),
            self@.mass > 0 && self@.max_speed < 0 ==> built == Err::<Character, ConstructionError>(
                ConstructionError::NegativeMaxSpeed,
            ),
            self@.mass > 0 && self@.max_speed >= 0 ==> built is Ok && built->Ok_0@ == self@.built(),
            built is Ok ==> built->Ok_0@.wf(),
    {
        if self.mass <= 0 {
            return Err(ConstructionError::NonPositiveMass);
        }
        if self.max_speed < 0 {
            return Err(ConstructionError::NegativeMaxSpeed);
        }
        Ok(
            Character {
                force: self.force,
                mass: self.mass,
                max_speed: self.max_speed,
                position: self.position,
                face_direction: Direction::North,
                velocity: Velocity { x: 0, y: 0 },
            },
        )
    }
}

/// The controllable character.
#[derive(Debug)]
pub struct Character {
    force: i64,
    mass: i64,
    max_speed: i64,
    position: Position,
    face_direction: Direction,
    velocity: Velocity,
}

impl View for Character {
    type V = CharacterModel;

    closed spec fn view(&self) -> CharacterModel {
        CharacterModel {
            force: self.force as int,
            mass: self.mass as int,
            max_speed: self.max_speed as int,
            position: self.position@,
            facing: self.face_direction,
            velocity: self.velocity@,
        }
    }
}

impl Clone for Character {
    fn clone(&self) -> (copy: Character)
        ensures
            copy@ == self@,
    {
        proof {
            use_type_invariant(self);
        }
        Character {
            force: self.force,
            mass: self.mass,
            max_speed: self.max_speed,
            position: self.position,
            face_direction: self.face_direction,
            velocity: self.velocity,
        }
    }
}

impl Character {
    #[verifier::type_invariant]
    spec fn inv(self) -> bool {
        self@.wf()
    }

    /// A builder for a character at `position` with the default constants.
    pub fn builder(position: Position) -> (builder: CharacterBuilder)
        ensures
            builder@ == (BuilderModel {
                position: position@,
                force: DEFAULT_FORCE as int,
                mass: DEFAULT_MASS as int,
                max_speed: DEFAULT_MAX_SPEED as int,
            }),
    {
        CharacterBuilder::new(position)
    }

    /// One physics step: faces `direction`, coming to rest first if that is a
    /// turn; lets the force act for `dt`; then moves for `dt`.
    pub fn move_character(&mut self, direction: Direction, dt: i64)
        ensures
            final(self)@ == old(self)@.advanced(direction, dt as int),
            final(self)@.wf(),
    {
        proof {
            use_type_invariant(&*self);
        }
        if direction != self.face_direction {
            self.stop();
            self.face_direction = direction;
        }
        self.update_velocity(dt);
        let x = Self::carried(self.position.x, self.velocity.x, dt);
        let y = Self::carried(self.position.y, self.velocity.y, dt);
        self.position = Position { x, y };
    }

    /// Lets the force act along the heading for `dt`.
    fn update_velocity(&mut self, dt: i64)
        ensures
            final(self)@ == old(self)@.accelerated(dt as int),
            final(self)@.wf(),
    {
        proof {
            use_type_invariant(&*self);
        }
        let acceleration = quotient_of(self.force, self.mass);
        let gain = product_within_reach(acceleration, dt as i128);
        let push = if self.face_direction.is_positive() {
            gain
        } else {
            -gain
        };
        proof {
            let exact = self@.facing.oriented(self@.velocity_gain(dt as int));
            assert(push == clamp(exact, -(REACH as int), REACH as int));
            lemma_reach_is_enough(
                self.velocity.x as int,
                exact,
                -(self.max_speed as int),
                self.max_speed as int,
            );
            lemma_reach_is_enough(
                self.velocity.y as int,
                exact,
                -(self.max_speed as int),
                self.max_speed as int,
            );
        }
        if self.face_direction.is_horizontal() {
            let x = self.limit_speed(self.velocity.x as i128 + push);
            self.velocity = Velocity { x, y: self.velocity.y };
        } else {
            let y = self.limit_speed(self.velocity.y as i128 + push);
            self.velocity = Velocity { x: self.velocity.x, y };
        }
    }

    /// Holds a velocity component within the speed limit.
    fn limit_speed(&self, component: i128) -> (limited: i64)
        ensures
            limited == clamp(component as int, -self@.max_speed, self@.max_speed),
    {
        proof {
            use_type_invariant(self);
        }
        if component > self.max_speed as i128 {
            self.max_speed
        } else if component < -(self.max_speed as i128) {
            -self.max_speed
        } else {
            component as i64
        }
    }

    /// Where a coordinate ends up after moving at `velocity` for `dt`.
    fn carried(coordinate: i64, velocity: i64, dt: i64) -> (moved: i64)
        ensures
            moved == saturate(coordinate + displacement(velocity as int, dt as int)),
    {
        assert(-0x4000_0000_0000_0000_0000_0000_0000_0000 <= velocity * dt
            <= 0x4000_0000_0000_0000_0000_0000_0000_0000) by (nonlinear_arith)
            requires
                -0x8000_0000_0000_0000 <= velocity <= 0x8000_0000_0000_0000,
                -0x8000_0000_0000_0000 <= dt <= 0x8000_0000_0000_0000,
        ;
        let area: i128 = (velocity as i128) * (dt as i128);
        let step = product_within_reach(area, POSITION_SCALE as i128);
        proof {
            lemma_reach_is_enough(
                coordinate as int,
                displacement(velocity as int, dt as int),
                i64::MIN as int,
                i64::MAX as int,
            );
        }
        let target: i128 = coordinate as i128 + step;
        if target > i64::MAX as i128 {
            i64::MAX
        } else if target < i64::MIN as i128 {
            i64::MIN
        } else {
            target as i64
        }
    }

    /// Brings the character to rest where it stands.
    pub fn stop(&mut self)
        ensures
            final(self)@ == old(self)@.stopped(),
            final(self)@.velocity == (Vector { x: 0, y: 0 }),
            final(self)@.position == old(self)@.position,
            final(self)@.facing == old(self)@.facing,
            final(self)@.wf(),
    {
        proof {
            use_type_invariant(&*self);
        }
        self.velocity = Velocity { x: 0, y: 0 };
    }

    /// Where the character is.
    pub fn get_position(&self) -> (position: &Position)
        ensures
            position@ == self@.position,
    {
        &self.position
    }

    /// The heading that the character faces.
    pub fn get_face_direction(&self) -> (direction: &Direction)
        ensures
            *direction == self@.facing,
    {
        &self.face_direction
    }

    /// How fast the character moves, within the speed limit on each axis.
    pub fn get_velocity(&self) -> (velocity: &Velocity)
        ensures
            velocity@ == self@.velocity,
            -self@.max_speed <= velocity@.x <= self@.max_speed,
            -self@.max_speed <= velocity@.y <= self@.max_speed,
    {
        proof {
            use_type_invariant(self);
        }
        &self.velocity
    }
}

} // verus!
