use mempool_ipc::primitives::{
    barrier_target,
    cores_per_group, cores_per_tile, group_count, group_id, num_cores, spin_wait_check,
    tile_count, tile_id, ClusterConfig,
};

#[test]
fn mempool_cluster_topology() {
    let cfg = ClusterConfig::mempool();
    assert_eq!(num_cores(&cfg), 256);
    assert_eq!(cores_per_tile(&cfg), 4);
    assert_eq!(tile_count(&cfg), 64);
    assert_eq!(group_count(&cfg), 4);
    assert_eq!(cores_per_group(&cfg), 64);
}

#[test]
fn tile_and_group_of_a_core() {
    let cfg = ClusterConfig::mempool();
    assert_eq!(tile_id(&cfg, 0), 0);
    assert_eq!(tile_id(&cfg, 3), 0);
    assert_eq!(tile_id(&cfg, 4), 1);
    assert_eq!(tile_id(&cfg, 255), 63);
    assert_eq!(group_id(&cfg, 0), 0);
    assert_eq!(group_id(&cfg, 63), 0);
    assert_eq!(group_id(&cfg, 64), 1);
    assert_eq!(group_id(&cfg, 130), 2);
    assert_eq!(group_id(&cfg, 255), 3);
}

#[test]
fn every_core_sits_in_a_tile_and_a_group_of_the_cluster() {
    let cfg = ClusterConfig::mempool();
    for core in 0..num_cores(&cfg) {
        assert!(tile_id(&cfg, core) < tile_count(&cfg));
        assert!(group_id(&cfg, core) < group_count(&cfg));
        assert!(tile_id(&cfg, core) * cores_per_tile(&cfg) <= core);
        assert!(core < (tile_id(&cfg, core) + 1) * cores_per_tile(&cfg));
    }
}

#[test]
fn tiles_nest_in_groups() {
    let cfg = ClusterConfig::mempool();
    let tiles_per_group = cores_per_group(&cfg) / cores_per_tile(&cfg);
    for core in 0..num_cores(&cfg) {
        assert_eq!(group_id(&cfg, core), tile_id(&cfg, core) / tiles_per_group);
    }
}

#[test]
fn fewer_cores_than_groups_puts_every_core_in_group_zero() {
    let cfg = ClusterConfig::spike();
    assert_eq!(num_cores(&cfg), 2);
    assert_eq!(cores_per_group(&cfg), 0);
    assert_eq!(group_id(&cfg, 0), 0);
    assert_eq!(group_id(&cfg, 1), 0);
    assert_eq!(tile_count(&cfg), 0);
    assert_eq!(tile_id(&cfg, 1), 0);
}

#[test]
fn no_groups_gives_no_cores_per_group() {
    let cfg = ClusterConfig { num_cores: 16, num_cores_per_tile: 4, num_groups: 0 };
    assert_eq!(cores_per_group(&cfg), 0);
    assert_eq!(group_id(&cfg, 9), 0);
    assert_eq!(tile_count(&cfg), 4);
}

#[test]
fn minpool_topology() {
    let cfg = ClusterConfig { num_cores: 16, num_cores_per_tile: 4, num_groups: 4 };
    assert_eq!(tile_count(&cfg), 4);
    assert_eq!(cores_per_group(&cfg), 4);
    assert_eq!(group_id(&cfg, 9), 2);
    assert_eq!(tile_id(&cfg, 9), 2);
}

#[test]
fn spin_wait_returns_the_value_once_it_reaches_the_target() {
    assert_eq!(spin_wait_check(5, 3), Some(5));
    assert_eq!(spin_wait_check(3, 3), Some(3));
    assert_eq!(spin_wait_check(2, 3), None);
    assert_eq!(spin_wait_check(0, 0), Some(0));
    assert_eq!(spin_wait_check(u32::MAX, 1), Some(u32::MAX));
}

#[test]
fn barrier_rounds_accumulate_arrivals() {
    assert_eq!(barrier_target(1, 2), 2);
    assert_eq!(barrier_target(2, 2), 4);
    assert_eq!(barrier_target(2, 256), 512);
    assert_eq!(barrier_target(0, 256), 0);
}
