use mempool_ipc::hw::{
    htif_exit_value, hw_num_cores, ro_cache_enable, ro_cache_end_offset, ro_cache_flush,
    ro_cache_set_end, ro_cache_set_start, ro_cache_start_offset, set_wake_up_offset,
    set_wake_up_stride, signal_eoc, tcdm_end, tcdm_start, wake_up, wake_up_all,
    wake_up_all_groups, wake_up_group, wake_up_tile, wake_up_tile_offset, MmioRead, MmioWrite,
};

#[test]
fn wake_up_writes_the_core_id_to_the_wake_up_register() {
    assert_eq!(wake_up(7), MmioWrite { addr: 0x4000_0004, val: 7 });
}

#[test]
fn wake_up_all_broadcasts() {
    assert_eq!(wake_up_all(), MmioWrite { addr: 0x4000_0004, val: u32::MAX });
    assert_eq!(wake_up_all(), wake_up(u32::MAX));
}

#[test]
fn wake_up_groups() {
    assert_eq!(wake_up_group(0b101), MmioWrite { addr: 0x4000_0028, val: 0b101 });
    assert_eq!(wake_up_all_groups(), MmioWrite { addr: 0x4000_0028, val: u32::MAX });
    assert_eq!(wake_up_all_groups(), wake_up_group(u32::MAX));
}

#[test]
fn wake_up_tile_selects_the_group_register() {
    assert_eq!(wake_up_tile(0, 0xF), MmioWrite { addr: 0x4000_0008, val: 0xF });
    assert_eq!(wake_up_tile(3, 0xF), MmioWrite { addr: 0x4000_0014, val: 0xF });
    assert_eq!(wake_up_tile(7, 0x1), MmioWrite { addr: 0x4000_0024, val: 0x1 });
}

#[test]
fn wake_up_tile_past_the_last_group_falls_back_to_group_zero() {
    assert_eq!(wake_up_tile(8, 0x3), wake_up_tile(0, 0x3));
    assert_eq!(wake_up_tile(u32::MAX, 0x3), MmioWrite { addr: 0x4000_0008, val: 0x3 });
}

#[test]
fn register_offset_tables() {
    let tiles = [0x08, 0x0C, 0x10, 0x14, 0x18, 0x1C, 0x20, 0x24];
    for (g, off) in tiles.iter().enumerate() {
        assert_eq!(wake_up_tile_offset(g), *off);
    }
    let starts = [0x48, 0x4C, 0x50, 0x54];
    let ends = [0x58, 0x5C, 0x60, 0x64];
    for r in 0..4 {
        assert_eq!(ro_cache_start_offset(r), starts[r]);
        assert_eq!(ro_cache_end_offset(r), ends[r]);
    }
}

#[test]
fn wake_up_stride_offset_and_eoc() {
    assert_eq!(set_wake_up_stride(2), MmioWrite { addr: 0x4000_002C, val: 2 });
    assert_eq!(set_wake_up_offset(5), MmioWrite { addr: 0x4000_0030, val: 5 });
    assert_eq!(signal_eoc(1), MmioWrite { addr: 0x4000_0000, val: 1 });
}

#[test]
fn register_reads() {
    assert_eq!(tcdm_start(), MmioRead { addr: 0x4000_0034 });
    assert_eq!(tcdm_end(), MmioRead { addr: 0x4000_0038 });
    assert_eq!(hw_num_cores(), MmioRead { addr: 0x4000_003C });
}

#[test]
fn read_only_cache_control() {
    assert_eq!(ro_cache_enable(1), MmioWrite { addr: 0x4000_0040, val: 1 });
    assert_eq!(ro_cache_enable(0), MmioWrite { addr: 0x4000_0040, val: 0 });
    assert_eq!(ro_cache_flush(), MmioWrite { addr: 0x4000_0044, val: 1 });
}

#[test]
fn read_only_cache_regions() {
    assert_eq!(ro_cache_set_start(0, 0x8000_0000), Some(MmioWrite { addr: 0x4000_0048, val: 0x8000_0000 }));
    assert_eq!(ro_cache_set_start(2, 0x1234), Some(MmioWrite { addr: 0x4000_0050, val: 0x1234 }));
    assert_eq!(ro_cache_set_end(0, 0x8040_0000), Some(MmioWrite { addr: 0x4000_0058, val: 0x8040_0000 }));
    assert_eq!(ro_cache_set_end(3, 0x99), Some(MmioWrite { addr: 0x4000_0064, val: 0x99 }));
}

#[test]
fn read_only_cache_region_out_of_range_writes_nothing() {
    assert_eq!(ro_cache_set_start(4, 0x1234), None);
    assert_eq!(ro_cache_set_end(4, 0x1234), None);
    assert_eq!(ro_cache_set_start(usize::MAX, 0), None);
}

#[test]
fn htif_exit_values() {
    assert_eq!(htif_exit_value(0), 1);
    assert_eq!(htif_exit_value(3), 7);
    assert_eq!(htif_exit_value(u32::MAX), 0x1_FFFF_FFFF);
}
