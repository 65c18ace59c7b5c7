//! Cluster topology queries and the polling decision of the hardware spin wait.
//!
//! The topology of a MemPool cluster is fixed when the program is built: a number
//! of cores, split into tiles of `num_cores_per_tile` cores and into `num_groups`
//! groups. The identity of the running core is read from the `mhartid` CSR by the
//! caller and handed to the queries that need it.

use vstd::prelude::*;
use vstd::arithmetic::div_mod::{lemma_basic_div, lemma_div_denominator, lemma_fundamental_div_mod, lemma_multiply_divide_lt};
use vstd::arithmetic::mul::{lemma_mul_inequality, lemma_mul_is_commutative, lemma_mul_is_distributive_add};

verus! {

/// The build-time description of a MemPool cluster.
#[derive(Clone, Copy, Debug, PartialEq, Eq, Structural)]
pub struct ClusterConfig {
    pub num_cores: u32,
    pub num_cores_per_tile: u32,
    pub num_groups: u32,
}

impl ClusterConfig {
    /// The full MemPool cluster: 256 cores, 4 cores per tile, 4 groups.
    pub fn mempool() -> (cfg: ClusterConfig)
        ensures
            cfg.num_cores == 256,
            cfg.num_cores_per_tile == 4,
            cfg.num_groups == 4,
    {
        ClusterConfig { num_cores: 256, num_cores_per_tile: 4, num_groups: 4 }
    }

    /// The two-hart build used on the Spike emulator: 2 cores, 4 cores per tile, 4 groups.
    pub fn spike() -> (cfg: ClusterConfig)
        ensures
            cfg.num_cores == 2,
            cfg.num_cores_per_tile == 4,
            cfg.num_groups == 4,
    {
        ClusterConfig { num_cores: 2, num_cores_per_tile: 4, num_groups: 4 }
    }
}

/// Cores per group: the number of cores divided by the number of groups, and 0
/// where there are no groups.
pub open spec fn cores_per_group_of(cfg: ClusterConfig) -> int {
    if cfg.num_groups == 0 {
        0
    } else {
        cfg.num_cores as int / cfg.num_groups as int
    }
}

/// The group of a core: its id divided by the cores per group, and 0 where a group
/// holds no core (a cluster with fewer cores than groups).
pub open spec fn group_id_of(cfg: ClusterConfig, core_id: u32) -> int {
    if cores_per_group_of(cfg) == 0 {
        0
    } else {
        core_id as int / cores_per_group_of(cfg)
    }
}

/// Every core of a cluster whose cores split evenly into tiles sits in one of its
/// tiles: its tile id is below the number of tiles, and the tile spans the cores
/// from `tile_id * cores_per_tile` up to the next tile's first core.
pub proof fn lemma_tile_id_in_range(cfg: ClusterConfig, core_id: u32)
    requires
        cfg.num_cores_per_tile > 0,
        cfg.num_cores % cfg.num_cores_per_tile == 0,
        core_id < cfg.num_cores,
    ensures
        core_id / cfg.num_cores_per_tile < cfg.num_cores / cfg.num_cores_per_tile,
        (core_id / cfg.num_cores_per_tile) * cfg.num_cores_per_tile <= core_id,
        core_id < (core_id / cfg.num_cores_per_tile + 1) * cfg.num_cores_per_tile,
{
    let t = cfg.num_cores_per_tile as int;
    let n = cfg.num_cores as int;
    let c = core_id as int;
    lemma_fundamental_div_mod(n, t);
    lemma_fundamental_div_mod(c, t);
    lemma_multiply_divide_lt(c, t, n / t);
    lemma_mul_is_commutative(c / t, t);
    lemma_mul_is_commutative(c / t + 1, t);
    lemma_mul_is_distributive_add(t, c / t, 1);
}

/// Every core of a cluster whose cores split evenly into groups sits in one of its
/// groups: its group id is below the number of groups.
pub proof fn lemma_group_id_in_range(cfg: ClusterConfig, core_id: u32)
    requires
        cfg.num_groups > 0,
        cfg.num_cores % cfg.num_groups == 0,
        core_id < cfg.num_cores,
    ensures
        group_id_of(cfg, core_id) < cfg.num_groups,
{
    let g = cfg.num_groups as int;
    let n = cfg.num_cores as int;
    let c = core_id as int;
    lemma_fundamental_div_mod(n, g);
    let cpg = n / g;
    assert(cpg > 0) by (nonlinear_arith)
        requires
            n == g * cpg,
            0 <= c < n,
            g > 0,
    ;
    lemma_mul_is_commutative(g, cpg);
    lemma_multiply_divide_lt(c, cpg, g);
}

/// Tiles nest in groups: where a group holds a whole number of tiles, the group of
/// a core is the group of its tile, that is its tile id divided by the tiles per
/// group.
pub proof fn lemma_tiles_nest_in_groups(cfg: ClusterConfig, core_id: u32)
    requires
        cfg.num_cores_per_tile > 0,
        cores_per_group_of(cfg) > 0,
        cores_per_group_of(cfg) % (cfg.num_cores_per_tile as int) == 0,
    ensures
        group_id_of(cfg, core_id) == (core_id as int / cfg.num_cores_per_tile as int) / (
        cores_per_group_of(cfg) / cfg.num_cores_per_tile as int),
{
    let t = cfg.num_cores_per_tile as int;
    let cpg = cores_per_group_of(cfg);
    lemma_fundamental_div_mod(cpg, t);
    let k = cpg / t;
    assert(k > 0) by {
        if k <= 0 {
            lemma_mul_inequality(k, 0, t);
            assert(t * k <= 0) by {
                lemma_mul_is_commutative(k, t);
            }
        }
    }
    lemma_div_denominator(core_id as int, t, k);
}

/// A cluster with fewer cores than groups has groups of no core; every core is
/// then reported in group 0.
pub proof fn lemma_degenerate_groups(cfg: ClusterConfig, core_id: u32)
    requires
        cfg.num_cores < cfg.num_groups,
    ensures
        cores_per_group_of(cfg) == 0,
        group_id_of(cfg, core_id) == 0,
{
    lemma_basic_div(cfg.num_cores as int, cfg.num_groups as int);
}

/// Number of cores in the cluster.
pub fn num_cores(cfg: &ClusterConfig) -> (r: u32)
    ensures
        r == cfg.num_cores,
{
    cfg.num_cores
}

/// Number of tiles in the cluster.
pub fn tile_count(cfg: &ClusterConfig) -> (r: u32)
    requires
        cfg.num_cores_per_tile > 0,
    ensures
        r == cfg.num_cores / cfg.num_cores_per_tile,
{
    cfg.num_cores / cfg.num_cores_per_tile
}

/// Tile of the core `core_id`.
pub fn tile_id(cfg: &ClusterConfig, core_id: u32) -> (r: u32)
    requires
        cfg.num_cores_per_tile > 0,
    ensures
        r == core_id / cfg.num_cores_per_tile,
{
    core_id / cfg.num_cores_per_tile
}

/// Number of groups in the cluster.
pub fn group_count(cfg: &ClusterConfig) -> (r: u32)
    ensures
        r == cfg.num_groups,
{
    cfg.num_groups
}

/// Group of the core `core_id`; 0 where the cluster has fewer cores than groups.
pub fn group_id(cfg: &ClusterConfig, core_id: u32) -> (r: u32)
    ensures
        r == group_id_of(*cfg, core_id),
{
    let cpg = cores_per_group(cfg);
    if cpg == 0 {
        0
    } else {
        core_id / cpg
    }
}

/// Number of cores per tile.
pub fn cores_per_tile(cfg: &ClusterConfig) -> (r: u32)
    ensures
        r == cfg.num_cores_per_tile,
{
    cfg.num_cores_per_tile
}

/// Number of cores per group; 0 where the cluster has fewer cores than groups,
/// or no groups.
pub fn cores_per_group(cfg: &ClusterConfig) -> (r: u32)
    ensures
        r == cores_per_group_of(*cfg),
{
    if cfg.num_groups == 0 {
        0
    } else {
        cfg.num_cores / cfg.num_groups
    }
}

/// The count a spin barrier waits for in its `round`-th use (from 1 on): the
/// counter is never reset, so each round adds one arrival per core.
pub fn barrier_target(round: u32, num_cores: u32) -> (r: u32)
    requires
        round * num_cores <= u32::MAX,
    ensures
        r == round * num_cores,
{
    round * num_cores
}

/// One step of the hardware spin wait: the value loaded (with acquire ordering)
/// from the polled word is handed back once it has reached `expected`; otherwise
/// the wait goes on.
pub fn spin_wait_check(loaded: u32, expected: u32) -> (r: Option<u32>)
    ensures
        r == (if loaded >= expected { Some(loaded) } else { None::<u32> }),
{
    if loaded >= expected {
        Some(loaded)
    } else {
        None
    }
}

} // verus!
