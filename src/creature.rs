use vstd::prelude::*;
use crate::geometry::Vec3i;
use crate::location::Location;
use crate::timer::Timer;

verus! {

/// Speed of a human, in millimetres per second.
pub const HUMAN_STEP_DISTANCE: i64 = 10000;
/// Speed of a monster, in millimetres per second.
pub const MONSTER_STEP_DISTANCE: i64 = 5000;
/// Reach of a human's melee attack, in millimetres.
pub const HUMAN_MAX_RANGE: i64 = 3000;
/// Reach of a monster's contact attack, in millimetres.
pub const MONSTER_MAX_RANGE: i64 = 3000;
pub const HUMAN_ATK: i64 = 20;
pub const MONSTER_ATK: i64 = 7;
/// Hit points of a freshly spawned or respawned creature.
pub const FULL_HP: i64 = 100;
/// Largest value of a hit-point or attack stat.
pub const STAT_LIMIT: i64 = 1000000000;
/// Time between two contact attacks of one monster, in milliseconds.
pub const MONSTER_ATTACK_COOLDOWN: u64 = 2000;
/// Time a creature stays stunned after a hit, in milliseconds.
pub const MONSTER_STUN_COOLDOWN: u64 = 2000;

/// A colour as 8-bit red, green and blue channels.
#[derive(Clone, Copy, Debug, PartialEq, Eq, Structural)]
pub struct Rgb {
    pub r: u8,
    pub g: u8,
    pub b: u8,
}

#[derive(Clone, Copy, Debug, PartialEq, Eq, Structural)]
pub enum CreatureType {
    Human,
    Monster,
}

impl CreatureType {
    pub open spec fn spec_speed(self) -> i64 {
        match self {
            CreatureType::Human => HUMAN_STEP_DISTANCE,
            CreatureType::Monster => MONSTER_STEP_DISTANCE,
        }
    }

    pub open spec fn spec_range(self) -> i64 {
        match self {
            CreatureType::Human => HUMAN_MAX_RANGE,
            CreatureType::Monster => MONSTER_MAX_RANGE,
        }
    }

    pub open spec fn spec_size(self) -> Vec3i {
        match self {
            CreatureType::Human => Vec3i { x: 900, y: 1800, z: 900 },
            CreatureType::Monster => Vec3i { x: 1200, y: 2500, z: 1200 },
        }
    }

    pub open spec fn spec_attack(self) -> i64 {
        match self {
            CreatureType::Human => HUMAN_ATK,
            CreatureType::Monster => MONSTER_ATK,
        }
    }

    /// Display colour: green for humans, red for monsters.
    pub fn color(&self) -> (r: Rgb)
        ensures
            r == (match *self {
                CreatureType::Human => Rgb { r: 0, g: 255, b: 0 },
                CreatureType::Monster => Rgb { r: 255, g: 0, b: 0 },
            }),
    {
        match self {
            CreatureType::Human => Rgb { r: 0, g: 255, b: 0 },
            CreatureType::Monster => Rgb { r: 255, g: 0, b: 0 },
        }
    }

    /// Extent of the body box, in millimetres.
    pub fn size(&self) -> (r: Vec3i)
        ensures
            r == self.spec_size(),
    {
        match self {
            CreatureType::Human => Vec3i { x: 900, y: 1800, z: 900 },
            CreatureType::Monster => Vec3i { x: 1200, y: 2500, z: 1200 },
        }
    }

    /// Movement speed, in millimetres per second.
    pub fn speed(&self) -> (r: i64)
        ensures
            r == self.spec_speed(),
    {
        match self {
            CreatureType::Human => HUMAN_STEP_DISTANCE,
            CreatureType::Monster => MONSTER_STEP_DISTANCE,
        }
    }

    /// Attack reach, in millimetres.
    pub fn range(&self) -> (r: i64)
        ensures
            r == self.spec_range(),
    {
        match self {
            CreatureType::Human => HUMAN_MAX_RANGE,
            CreatureType::Monster => MONSTER_MAX_RANGE,
        }
    }

    /// Damage dealt per successful hit.
    pub fn attack(&self) -> (r: i64)
        ensures
            r == self.spec_attack(),
    {
        match self {
            CreatureType::Human => HUMAN_ATK,
            CreatureType::Monster => MONSTER_ATK,
        }
    }
}

#[derive(Clone, Copy, Debug, PartialEq, Eq, Structural)]
pub struct Stats {
    pub hp: i64,
    pub atk: i64,
}

impl Stats {
    pub open spec fn wf(self) -> bool {
        0 <= self.hp <= STAT_LIMIT && 0 <= self.atk <= STAT_LIMIT
    }
}

/// Whether a creature may currently move or act.
#[derive(Clone, Copy, Debug, PartialEq, Eq, Structural)]
pub enum ConsciousnessStateEnum {
    Awake,
    Stun,
    Ko,
    Asleep,
    Super,
    Dead,
}

#[derive(Clone, Copy, Debug, PartialEq, Eq, Structural)]
pub struct BrainState {
    pub conscious: ConsciousnessStateEnum,
    /// Counts down the current stun.
    pub stun_at: Timer,
}

impl BrainState {
    /// The stun timer is valid and always lasts `MONSTER_STUN_COOLDOWN`.
    pub open spec fn wf(self) -> bool {
        self.stun_at.wf() && self.stun_at.duration == MONSTER_STUN_COOLDOWN
    }

    /// An awake brain whose stun timer has the full stun duration.
    pub fn new() -> (r: BrainState)
        ensures
            r == (BrainState {
                conscious: ConsciousnessStateEnum::Awake,
                stun_at: Timer { duration: MONSTER_STUN_COOLDOWN, elapsed: 0 },
            }),
            r.wf(),
    {
        BrainState {
            conscious: ConsciousnessStateEnum::Awake,
            stun_at: Timer::from_millis(MONSTER_STUN_COOLDOWN),
        }
    }
}

/// Cooldown gating repeated contact attacks of a creature.
#[derive(Clone, Copy, Debug, PartialEq, Eq, Structural)]
pub struct LastAttack(pub Timer);

/// A player or a monster.
#[derive(Clone, Copy, Debug, PartialEq, Eq, Structural)]
pub struct Creature {
    /// Entity handle, unique among live entities.
    pub id: u64,
    pub creature_type: CreatureType,
    pub stats: Stats,
    pub brain_state: BrainState,
    pub location: Location,
    pub last_attack: LastAttack,
    /// One-shot impulse command for the physics host; zero when none.
    pub impulse: Vec3i,
}

impl Creature {
    pub open spec fn wf(self) -> bool {
        &&& self.stats.wf()
        &&& self.brain_state.wf()
        &&& self.location.wf()
        &&& self.last_attack.0.wf()
        &&& self.impulse.is_displacement()
    }

    /// A fresh creature: awake, without a position, attack cooldown started.
    pub fn new(id: u64, creature_type: CreatureType, stats: Stats) -> (r: Creature)
        requires
            stats.wf(),
        ensures
            r == (Creature {
                id,
                creature_type,
                stats,
                brain_state: BrainState {
                    conscious: ConsciousnessStateEnum::Awake,
                    stun_at: Timer { duration: MONSTER_STUN_COOLDOWN, elapsed: 0 },
                },
                location: Location {
                    destination: None,
                    max_velocity: None,
                    velocity: None,
                    position: None,
                },
                last_attack: LastAttack(Timer { duration: MONSTER_ATTACK_COOLDOWN, elapsed: 0 }),
                impulse: Vec3i { x: 0, y: 0, z: 0 },
            }),
            r.wf(),
    {
        Creature {
            id,
            creature_type,
            stats,
            brain_state: BrainState::new(),
            location: Location::new(),
            last_attack: LastAttack(Timer::from_millis(MONSTER_ATTACK_COOLDOWN)),
            impulse: Vec3i::zero(),
        }
    }
}

} // verus!
