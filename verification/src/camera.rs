//! The camera and its shake.
//!
//! Every point scored adds trauma; trauma decays with time; the camera is
//! displaced by the square of the trauma times a sample of coherent noise.
//! The noise itself is sampled by the host, from two generators seeded with
//! `seed_x` and `seed_y`, at the point that `Camera::sample_point` names.

use vstd::prelude::*;
use crate::config::{
    CAMERA_SHAKE_FREQUENCY, CAMERA_SHAKE_MAX_OFFSET, MAX_COORDINATE, MAX_GAME_TIME,
    TRAUMA_DECAY_RATE,
};
use crate::fixed::{lemma_mul_spec, lemma_mul_spec_bound, mul_fixed, mul_spec, ONE};
use crate::random::random_seed;
use crate::vector::Vector2;

verus! {

/// The camera.
#[derive(Clone, Copy, Debug, PartialEq, Eq, Structural)]
pub struct Camera {
    /// Where the camera rests.
    pub pos: Vector2,
    /// The intensity of the shake, from 0 to 1.
    pub trauma: i64,
    /// The seed of the noise generator of the horizontal axis.
    pub seed_x: u32,
    /// The seed of the noise generator of the vertical axis.
    pub seed_y: u32,
}

/// The seed that follows `seed`, wrapping around at the end of the range.
pub open spec fn next_seed(seed: u32) -> u32 {
    if seed == u32::MAX {
        0
    } else {
        (seed + 1) as u32
    }
}

/// The furthest the camera can be displaced along an axis.
pub const MAX_SHAKE_OFFSET: i64 = 64_424_509_440;

impl Camera {
    /// A camera is valid when its trauma is between 0 and 1, its two seeds
    /// follow one another, and its coordinates are within the limit.
    pub open spec fn wf(self) -> bool {
        &&& 0 <= self.trauma <= ONE
        &&& self.seed_y == next_seed(self.seed_x)
        &&& -MAX_COORDINATE <= self.pos.x <= MAX_COORDINATE
        &&& -MAX_COORDINATE <= self.pos.y <= MAX_COORDINATE
    }

    /// Tells whether the camera is valid.
    pub fn is_valid(&self) -> (valid: bool)
        ensures
            valid == self.wf(),
    {
        let follows = if self.seed_x == u32::MAX {
            self.seed_y == 0
        } else {
            self.seed_y == self.seed_x + 1
        };
        0 <= self.trauma && self.trauma <= ONE && follows && -MAX_COORDINATE <= self.pos.x
            && self.pos.x <= MAX_COORDINATE && -MAX_COORDINATE <= self.pos.y && self.pos.y
            <= MAX_COORDINATE
    }

    /// The calm camera at `pos` whose noise generators are seeded from
    /// `seed`.
    pub open spec fn with_seed_spec(pos: Vector2, seed: u32) -> Camera {
        Camera { pos, trauma: 0, seed_x: seed, seed_y: next_seed(seed) }
    }

    /// A calm camera at `pos`. The horizontal noise generator is to be seeded
    /// with `seed`, the vertical one with the seed that follows it, so that
    /// the two axes shake independently.
    pub fn with_seed(pos: Vector2, seed: u32) -> (camera: Camera)
        ensures
            camera == Camera::with_seed_spec(pos, seed),
            camera.seed_x != camera.seed_y,
    {
        let seed_y: u32 = if seed == u32::MAX {
            0
        } else {
            seed + 1
        };
        Camera { pos, trauma: 0, seed_x: seed, seed_y }
    }

    /// A calm camera at `pos` with a seed drawn at random.
    pub fn new(pos: Vector2) -> (camera: Camera)
        ensures
            camera == Camera::with_seed_spec(pos, camera.seed_x),
            camera.seed_x != camera.seed_y,
    {
        let seed: u32 = random_seed();
        Camera::with_seed(pos, seed)
    }

    /// The trauma after `percent` was added to `trauma`: their sum, at most
    /// 1.
    pub open spec fn add_trauma_spec(trauma: int, percent: int) -> int {
        if trauma + percent > ONE {
            ONE as int
        } else {
            trauma + percent
        }
    }

    /// Adds `percent` to the trauma, which saturates at 1.
    pub fn add_trauma(&mut self, percent: i64)
        requires
            percent >= 0,
            0 <= old(self).trauma <= ONE,
        ensures
            final(self).trauma == Camera::add_trauma_spec(old(self).trauma as int, percent as int),
            old(self).trauma <= final(self).trauma <= ONE,
            final(self).pos == old(self).pos,
            final(self).seed_x == old(self).seed_x,
            final(self).seed_y == old(self).seed_y,
    {
        self.trauma = if percent > ONE - self.trauma {
            ONE
        } else {
            self.trauma + percent
        };
    }

    /// The trauma that is left of `trauma` after `dt` microseconds: it
    /// decays at `TRAUMA_DECAY_RATE`, down to 0.
    pub open spec fn decay_spec(trauma: int, dt: int) -> int {
        let lost = mul_spec(TRAUMA_DECAY_RATE as int, dt);
        if trauma - lost < 0 {
            0
        } else {
            trauma - lost
        }
    }

    /// Trauma between 0 and 1 stays there: adding to it never takes it
    /// beyond 1 and never lowers it, decay never takes it below 0 and never
    /// raises it, and a frame of no duration leaves it as it is.
    pub proof fn lemma_trauma_clamp(trauma: int, percent: int, dt: int)
        requires
            0 <= trauma <= ONE,
            0 <= percent,
            0 <= dt <= u32::MAX,
        ensures
            trauma <= Camera::add_trauma_spec(trauma, percent) <= ONE,
            0 <= Camera::decay_spec(trauma, dt) <= trauma,
            Camera::decay_spec(trauma, 0) == trauma,
            0 <= mul_spec(TRAUMA_DECAY_RATE as int, dt) <= 2_147_483_647,
    {
        lemma_mul_spec_bound(TRAUMA_DECAY_RATE as int, dt, TRAUMA_DECAY_RATE as int, u32::MAX as int);
        lemma_mul_spec(TRAUMA_DECAY_RATE as int, dt);
        assert(mul_spec(TRAUMA_DECAY_RATE as int, u32::MAX as int) == 2_147_483_647) by {
            assert(TRAUMA_DECAY_RATE * u32::MAX == 2_147_483_647_500_000);
        }
    }

    /// Lets the trauma decay for `dt` microseconds. It never drops below 0.
    pub fn update_trauma(&mut self, dt: u32)
        requires
            0 <= old(self).trauma <= ONE,
        ensures
            final(self).trauma == Camera::decay_spec(old(self).trauma as int, dt as int),
            0 <= final(self).trauma <= old(self).trauma,
            final(self).pos == old(self).pos,
            final(self).seed_x == old(self).seed_x,
            final(self).seed_y == old(self).seed_y,
    {
        proof {
            Camera::lemma_trauma_clamp(self.trauma as int, 0, dt as int);
        }
        let lost: i64 = mul_fixed(TRAUMA_DECAY_RATE, dt as i64);
        self.trauma = if self.trauma - lost < 0 {
            0
        } else {
            self.trauma - lost
        };
    }

    /// The strength of the shake at a given trauma: its square.
    pub open spec fn shake_spec(trauma: int) -> int {
        mul_spec(trauma, trauma)
    }

    /// The displacement along one axis at a given trauma, for the noise
    /// sample `noise`: nothing without shake, else the shake times the
    /// largest offset times the sample.
    pub open spec fn axis_offset_spec(trauma: int, noise: int) -> int {
        let shake = Camera::shake_spec(trauma);
        if shake > 0 {
            mul_spec(shake, mul_spec(CAMERA_SHAKE_MAX_OFFSET as int, noise))
        } else {
            0
        }
    }

    /// The displacement of the camera for the noise samples of the two axes.
    pub open spec fn offset_spec(self, noise_x: int, noise_y: int) -> Vector2 {
        Vector2 {
            x: Camera::axis_offset_spec(self.trauma as int, noise_x) as i64,
            y: Camera::axis_offset_spec(self.trauma as int, noise_y) as i64,
        }
    }

    /// The displacement along an axis is at most `MAX_SHAKE_OFFSET`, and
    /// nothing when the camera is calm.
    pub proof fn lemma_axis_offset(trauma: int, noise: int)
        requires
            0 <= trauma <= ONE,
            i32::MIN <= noise <= i32::MAX,
        ensures
            -MAX_SHAKE_OFFSET <= Camera::axis_offset_spec(trauma, noise) <= MAX_SHAKE_OFFSET,
            -MAX_SHAKE_OFFSET <= mul_spec(CAMERA_SHAKE_MAX_OFFSET as int, noise)
                <= MAX_SHAKE_OFFSET,
            0 <= Camera::shake_spec(trauma) <= ONE,
            Camera::axis_offset_spec(0, noise) == 0,
    {
        lemma_mul_spec(trauma, trauma);
        lemma_mul_spec(0, 0);
        let scaled = mul_spec(CAMERA_SHAKE_MAX_OFFSET as int, noise);
        lemma_mul_spec_bound(
            CAMERA_SHAKE_MAX_OFFSET as int,
            noise,
            CAMERA_SHAKE_MAX_OFFSET as int,
            2_147_483_648,
        );
        assert(mul_spec(CAMERA_SHAKE_MAX_OFFSET as int, 2_147_483_648) == MAX_SHAKE_OFFSET) by {
            assert(CAMERA_SHAKE_MAX_OFFSET * 2_147_483_648 == 64_424_509_440_000_000);
        }
        lemma_mul_spec(Camera::shake_spec(trauma), scaled);
    }

    /// Computes the displacement of the camera from the noise samples of the
    /// two axes, each in millionths.
    pub fn offset(&self, noise_x: i32, noise_y: i32) -> (v: Vector2)
        requires
            0 <= self.trauma <= ONE,
        ensures
            v == self.offset_spec(noise_x as int, noise_y as int),
            -MAX_SHAKE_OFFSET <= v.x <= MAX_SHAKE_OFFSET,
            -MAX_SHAKE_OFFSET <= v.y <= MAX_SHAKE_OFFSET,
    {
        proof {
            Camera::lemma_axis_offset(self.trauma as int, noise_x as int);
            Camera::lemma_axis_offset(self.trauma as int, noise_y as int);
        }
        let shake: i64 = mul_fixed(self.trauma, self.trauma);
        if shake > 0 {
            Vector2 {
                x: mul_fixed(shake, mul_fixed(CAMERA_SHAKE_MAX_OFFSET, noise_x as i64)),
                y: mul_fixed(shake, mul_fixed(CAMERA_SHAKE_MAX_OFFSET, noise_y as i64)),
            }
        } else {
            Vector2::zero()
        }
    }

    /// The coordinate, along both axes of the noise field, at which the
    /// shake is sampled at game time `time`.
    pub open spec fn sample_point_spec(time: int) -> int {
        mul_spec(CAMERA_SHAKE_FREQUENCY as int, time)
    }

    /// Computes the coordinate at which both noise generators are to be
    /// sampled at game time `time`, in microseconds.
    pub fn sample_point(time: u64) -> (point: i64)
        requires
            time <= MAX_GAME_TIME,
        ensures
            point == Camera::sample_point_spec(time as int),
            point == 3 * time,
    {
        proof {
            assert(CAMERA_SHAKE_FREQUENCY * time == (3 * time) * ONE);
            crate::fixed::lemma_div_toward_zero_exact(3 * time, ONE as int);
        }
        mul_fixed(CAMERA_SHAKE_FREQUENCY, time as i64)
    }
}

} // verus!
