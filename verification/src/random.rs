//! Random numbers for the game logic.

use vstd::prelude::*;
use rand::rngs::SmallRng;
use crate::cvars::Cvars;
use crate::fixed::SCALE;

verus! {

/// `rand::Rng::gen_range` on a `SmallRng`, for `i64`: some value that is
/// at least `low` and less than `high`. The outside function panics when
/// `low >= high`. Nothing more is known of the value.
#[verifier::external_body]
fn gen_range(rng: &mut SmallRng, low: i64, high: i64) -> (r: i64)
    requires
        low < high,
    ensures
        low <= r < high,
{
    rand::Rng::gen_range(rng, low, high)
}

/// The random part of one cluster bomb, as fixed-point factors: of the
/// forward and the sideways speed spread, and of the fuze spread.
#[derive(Clone, Copy, Debug, PartialEq, Eq, Structural)]
pub struct ClusterSample {
    pub forward: i64,
    pub sideways: i64,
    pub fuze: i64,
}

/// The widest speed factor of an evenly spread cluster bomb.
pub const SPEED_FACTOR_LIMIT: i64 = 1_500_000;

impl ClusterSample {
    /// Whether this sample can come out of an even spread: speed factors
    /// from -1.5 up to, but not including, 1.5; a fuze factor from -1 up
    /// to, but not including, 1.
    pub open spec fn evenly_spread(self) -> bool {
        &&& -SPEED_FACTOR_LIMIT <= self.forward < SPEED_FACTOR_LIMIT
        &&& -SPEED_FACTOR_LIMIT <= self.sideways < SPEED_FACTOR_LIMIT
        &&& -SCALE <= self.fuze < SCALE
    }
}

/// How many bombs one cluster shot sends out: the configured count, or
/// none if that is negative.
pub open spec fn cluster_size(cvars: &Cvars) -> nat {
    if cvars.g_cluster_bomb_count < 0 {
        0
    } else {
        cvars.g_cluster_bomb_count as nat
    }
}

/// Draws the samples for one cluster shot with an even spread: one per
/// bomb, each with its forward factor drawn first, then its sideways
/// factor, then its fuze factor.
pub fn uniform_cluster_samples(cvars: &Cvars, rng: &mut SmallRng) -> (r: Vec<ClusterSample>)
    ensures
        r@.len() == cluster_size(cvars),
        forall|i: int| 0 <= i < r@.len() ==> (#[trigger] r@[i]).evenly_spread(),
{
    let mut r: Vec<ClusterSample> = Vec::new();
    let mut i: i32 = 0;
    while i < cvars.g_cluster_bomb_count
        invariant
            0 <= i,
            i == 0 || i <= cvars.g_cluster_bomb_count,
            r@.len() == i,
            forall|k: int| 0 <= k < r@.len() ==> (#[trigger] r@[k]).evenly_spread(),
        decreases cvars.g_cluster_bomb_count - i,
    {
        let forward = gen_range(rng, -SPEED_FACTOR_LIMIT, SPEED_FACTOR_LIMIT);
        let sideways = gen_range(rng, -SPEED_FACTOR_LIMIT, SPEED_FACTOR_LIMIT);
        let fuze = gen_range(rng, -SCALE, SCALE);
        r.push(ClusterSample { forward, sideways, fuze });
        i += 1;
    }
    r
}

/// How many bombs a cluster shot with a normal spread sends out with
/// `normals` normal samples at hand: the configured count, but no more
/// than there are pairs of samples.
pub open spec fn normal_cluster_size(cvars: &Cvars, normals: nat) -> nat {
    if cluster_size(cvars) <= normals / 2 {
        cluster_size(cvars)
    } else {
        normals / 2
    }
}

/// Draws the samples for one cluster shot.
///
/// With an even spread, all factors are drawn here. With a normal
/// spread, the speed factors of the bombs are taken from `normals`,
/// samples of a standard normal distribution, two for each bomb: its
/// forward factor and then its sideways factor; only the fuze factors
/// are drawn here.
pub fn cluster_samples(cvars: &Cvars, rng: &mut SmallRng, normals: &Vec<i64>) -> (r: Vec<
    ClusterSample,
>)
    ensures
        !cvars.g_cluster_bomb_speed_spread_gaussian ==> r@.len() == cluster_size(cvars),
        !cvars.g_cluster_bomb_speed_spread_gaussian ==> forall|i: int|
            0 <= i < r@.len() ==> (#[trigger] r@[i]).evenly_spread(),
        cvars.g_cluster_bomb_speed_spread_gaussian ==> r@.len() == normal_cluster_size(
            cvars,
            normals@.len(),
        ),
        cvars.g_cluster_bomb_speed_spread_gaussian ==> forall|i: int|
            0 <= i < r@.len() ==> {
                &&& (#[trigger] r@[i]).forward == normals@[2 * i]
                &&& r@[i].sideways == normals@[2 * i + 1]
                &&& -SCALE <= r@[i].fuze < SCALE
            },
{
    if !cvars.g_cluster_bomb_speed_spread_gaussian {
        return uniform_cluster_samples(cvars, rng);
    }
    let mut r: Vec<ClusterSample> = Vec::new();
    let pairs = normals.len() / 2;
    let mut i: usize = 0;
    while i < pairs && (i as i64) < (cvars.g_cluster_bomb_count as i64)
        invariant
            i <= pairs,
            pairs == normals@.len() / 2,
            i <= cluster_size(cvars),
            r@.len() == i,
            forall|k: int|
                0 <= k < r@.len() ==> {
                    &&& (#[trigger] r@[k]).forward == normals@[2 * k]
                    &&& r@[k].sideways == normals@[2 * k + 1]
                    &&& -SCALE <= r@[k].fuze < SCALE
                },
        decreases pairs - i,
    {
        let fuze = gen_range(rng, -SCALE, SCALE);
        r.push(ClusterSample { forward: normals[2 * i], sideways: normals[2 * i + 1], fuze });
        i += 1;
    }
    r
}

} // verus!
