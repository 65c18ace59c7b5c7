//! The MemPool control-register map and the register accesses of the runtime.
//!
//! Each operation computes the 32-bit MMIO access it stands for: the register's
//! address and, for a write, the value written. Performing the volatile access
//! is left to the caller.

use vstd::prelude::*;

verus! {

/// Base address of the control registers (`CONTROL_REGISTER_OFFSET`).
pub const CONTROL_BASE: usize = 0x4000_0000;

/// End-of-Computation register.
pub const EOC_OFFSET: usize = 0x00;

/// Wake Up register (single core or broadcast).
pub const WAKE_UP_OFFSET: usize = 0x04;

/// Number of Wake Up Tile registers, one per group.
pub const NUM_WAKE_UP_TILE_REGS: usize = 8;

/// Wake Up Group register (group-level mask).
pub const WAKE_UP_GROUP_OFFSET: usize = 0x28;

/// Wake Up Stride register.
pub const WAKE_UP_STRIDE_OFFSET: usize = 0x2C;

/// Wake Up Offset register.
pub const WAKE_UP_OFFST_OFFSET: usize = 0x30;

/// TCDM Start Address register.
pub const TCDM_START_OFFSET: usize = 0x34;

/// TCDM End Address register.
pub const TCDM_END_OFFSET: usize = 0x38;

/// Number of Cores register.
pub const NR_CORES_OFFSET: usize = 0x3C;

/// Read-only cache Enable register.
pub const RO_CACHE_ENABLE_OFFSET: usize = 0x40;

/// Read-only cache Flush register.
pub const RO_CACHE_FLUSH_OFFSET: usize = 0x44;

/// Number of read-only cache regions.
pub const NUM_RO_CACHE_REGIONS: usize = 4;

/// Size of the control-register block in bytes.
pub const CONTROL_BLOCK_SIZE: usize = 0x68;

/// A volatile 32-bit store to a memory-mapped register.
#[derive(Clone, Copy, Debug, PartialEq, Eq, Structural)]
pub struct MmioWrite {
    pub addr: usize,
    pub val: u32,
}

/// A volatile 32-bit load from a memory-mapped register.
#[derive(Clone, Copy, Debug, PartialEq, Eq, Structural)]
pub struct MmioRead {
    pub addr: usize,
}

/// The store of `val` to the control register at `offset`.
pub open spec fn control_write(offset: int, val: u32) -> MmioWrite {
    MmioWrite { addr: (CONTROL_BASE + offset) as usize, val }
}

/// The load from the control register at `offset`.
pub open spec fn control_read(offset: int) -> MmioRead {
    MmioRead { addr: (CONTROL_BASE + offset) as usize }
}

/// Offset of the Wake Up Tile register of group `group` (0..7).
pub open spec fn wake_up_tile_offset_of(group: int) -> int {
    0x08 + 4 * group
}

/// Offset of the start register of read-only cache region `region` (0..3).
pub open spec fn ro_cache_start_offset_of(region: int) -> int {
    0x48 + 4 * region
}

/// Offset of the end register of read-only cache region `region` (0..3).
pub open spec fn ro_cache_end_offset_of(region: int) -> int {
    0x58 + 4 * region
}

/// The group whose Wake Up Tile register a request for `group_id` reaches: the
/// group itself, and group 0 for an id past the last register.
pub open spec fn wake_up_tile_group(group_id: u32) -> int {
    if group_id < NUM_WAKE_UP_TILE_REGS {
        group_id as int
    } else {
        0
    }
}

/// The store that wakes the tiles in `tile_mask` of group `group_id`.
pub open spec fn wake_up_tile_write(group_id: u32, tile_mask: u32) -> MmioWrite {
    control_write(wake_up_tile_offset_of(wake_up_tile_group(group_id)), tile_mask)
}

/// Offset of the Wake Up Tile register of group `group` (0..7).
pub fn wake_up_tile_offset(group: usize) -> (r: usize)
    requires
        group < NUM_WAKE_UP_TILE_REGS,
    ensures
        r == wake_up_tile_offset_of(group as int),
{
    match group {
        0 => 0x08,
        1 => 0x0C,
        2 => 0x10,
        3 => 0x14,
        4 => 0x18,
        5 => 0x1C,
        6 => 0x20,
        _ => 0x24,
    }
}

/// Offset of the start register of read-only cache region `region` (0..3).
pub fn ro_cache_start_offset(region: usize) -> (r: usize)
    requires
        region < NUM_RO_CACHE_REGIONS,
    ensures
        r == ro_cache_start_offset_of(region as int),
{
    match region {
        0 => 0x48,
        1 => 0x4C,
        2 => 0x50,
        _ => 0x54,
    }
}

/// Offset of the end register of read-only cache region `region` (0..3).
pub fn ro_cache_end_offset(region: usize) -> (r: usize)
    requires
        region < NUM_RO_CACHE_REGIONS,
    ensures
        r == ro_cache_end_offset_of(region as int),
{
    match region {
        0 => 0x58,
        1 => 0x5C,
        2 => 0x60,
        _ => 0x64,
    }
}

/// Wake up core `core_id`, or every core where `core_id == u32::MAX`.
pub fn wake_up(core_id: u32) -> (w: MmioWrite)
    ensures
        w == control_write(WAKE_UP_OFFSET as int, core_id),
{
    MmioWrite { addr: CONTROL_BASE + WAKE_UP_OFFSET, val: core_id }
}

/// Wake up every core: the broadcast id `u32::MAX` to the Wake Up register.
pub fn wake_up_all() -> (w: MmioWrite)
    ensures
        w == control_write(WAKE_UP_OFFSET as int, u32::MAX),
{
    wake_up(u32::MAX)
}

/// Wake up the groups in `group_mask`.
pub fn wake_up_group(group_mask: u32) -> (w: MmioWrite)
    ensures
        w == control_write(WAKE_UP_GROUP_OFFSET as int, group_mask),
{
    MmioWrite { addr: CONTROL_BASE + WAKE_UP_GROUP_OFFSET, val: group_mask }
}

/// Wake up every group: the full mask to the Wake Up Group register.
pub fn wake_up_all_groups() -> (w: MmioWrite)
    ensures
        w == control_write(WAKE_UP_GROUP_OFFSET as int, u32::MAX),
{
    wake_up_group(u32::MAX)
}

/// Wake up the tiles in `tile_mask` of group `group_id`; an id of 8 or more
/// falls back to group 0.
pub fn wake_up_tile(group_id: u32, tile_mask: u32) -> (w: MmioWrite)
    ensures
        w == wake_up_tile_write(group_id, tile_mask),
        group_id < 8 ==> w == (MmioWrite {
            addr: (0x4000_0008 + 4 * group_id) as usize,
            val: tile_mask,
        }),
        group_id >= 8 ==> w == (MmioWrite { addr: 0x4000_0008, val: tile_mask }),
{
    let idx: usize = if group_id < 8 {
        group_id as usize
    } else {
        0
    };
    MmioWrite { addr: CONTROL_BASE + wake_up_tile_offset(idx), val: tile_mask }
}

/// Set the wake-up stride.
pub fn set_wake_up_stride(stride: u32) -> (w: MmioWrite)
    ensures
        w == control_write(WAKE_UP_STRIDE_OFFSET as int, stride),
{
    MmioWrite { addr: CONTROL_BASE + WAKE_UP_STRIDE_OFFSET, val: stride }
}

/// Set the wake-up offset.
pub fn set_wake_up_offset(offset: u32) -> (w: MmioWrite)
    ensures
        w == control_write(WAKE_UP_OFFST_OFFSET as int, offset),
{
    MmioWrite { addr: CONTROL_BASE + WAKE_UP_OFFST_OFFSET, val: offset }
}

/// Signal end-of-computation with `val` to the testbench or host.
pub fn signal_eoc(val: u32) -> (w: MmioWrite)
    ensures
        w == control_write(EOC_OFFSET as int, val),
{
    MmioWrite { addr: CONTROL_BASE + EOC_OFFSET, val }
}

/// Read the TCDM start address.
pub fn tcdm_start() -> (r: MmioRead)
    ensures
        r == control_read(TCDM_START_OFFSET as int),
{
    MmioRead { addr: CONTROL_BASE + TCDM_START_OFFSET }
}

/// Read the TCDM end address.
pub fn tcdm_end() -> (r: MmioRead)
    ensures
        r == control_read(TCDM_END_OFFSET as int),
{
    MmioRead { addr: CONTROL_BASE + TCDM_END_OFFSET }
}

/// Read the number of cores.
pub fn hw_num_cores() -> (r: MmioRead)
    ensures
        r == control_read(NR_CORES_OFFSET as int),
{
    MmioRead { addr: CONTROL_BASE + NR_CORES_OFFSET }
}

/// Enable (non-zero) or disable (zero) the read-only cache.
pub fn ro_cache_enable(enable: u32) -> (w: MmioWrite)
    ensures
        w == control_write(RO_CACHE_ENABLE_OFFSET as int, enable),
{
    MmioWrite { addr: CONTROL_BASE + RO_CACHE_ENABLE_OFFSET, val: enable }
}

/// Flush the read-only cache.
pub fn ro_cache_flush() -> (w: MmioWrite)
    ensures
        w == control_write(RO_CACHE_FLUSH_OFFSET as int, 1),
{
    MmioWrite { addr: CONTROL_BASE + RO_CACHE_FLUSH_OFFSET, val: 1 }
}

/// Set the start address of read-only cache region `region`; a region of 4 or
/// more names no register, and nothing is written.
pub fn ro_cache_set_start(region: usize, addr: u32) -> (w: Option<MmioWrite>)
    ensures
        w == (if region < NUM_RO_CACHE_REGIONS {
            Some(control_write(ro_cache_start_offset_of(region as int), addr))
        } else {
            None::<MmioWrite>
        }),
        region < 4 ==> w == Some(
            (MmioWrite { addr: (0x4000_0048 + 4 * region) as usize, val: addr }),
        ),
        region >= 4 ==> w == None::<MmioWrite>,
{
    if region < 4 {
        Some(MmioWrite { addr: CONTROL_BASE + ro_cache_start_offset(region), val: addr })
    } else {
        None
    }
}

/// Set the end address of read-only cache region `region`; a region of 4 or
/// more names no register, and nothing is written.
pub fn ro_cache_set_end(region: usize, addr: u32) -> (w: Option<MmioWrite>)
    ensures
        w == (if region < NUM_RO_CACHE_REGIONS {
            Some(control_write(ro_cache_end_offset_of(region as int), addr))
        } else {
            None::<MmioWrite>
        }),
        region < 4 ==> w == Some(
            (MmioWrite { addr: (0x4000_0058 + 4 * region) as usize, val: addr }),
        ),
        region >= 4 ==> w == None::<MmioWrite>,
{
    if region < 4 {
        Some(MmioWrite { addr: CONTROL_BASE + ro_cache_end_offset(region), val: addr })
    } else {
        None
    }
}

/// A tile wake-up request for a group with a register goes to that group's own
/// register, the word at `0x08 + 4 * group` in the control block, carrying the
/// tile mask; requests for two such groups reach two different registers.
pub proof fn lemma_wake_up_tile_targets_its_group(g1: u32, g2: u32, tile_mask: u32)
    requires
        g1 < NUM_WAKE_UP_TILE_REGS,
        g2 < NUM_WAKE_UP_TILE_REGS,
    ensures
        wake_up_tile_write(g1, tile_mask).addr == CONTROL_BASE + 0x08 + 4 * g1,
        wake_up_tile_write(g1, tile_mask).val == tile_mask,
        g1 != g2 ==> wake_up_tile_write(g1, tile_mask).addr != wake_up_tile_write(
            g2,
            tile_mask,
        ).addr,
{
}

/// A tile wake-up request for a group id past the last register reaches the
/// register of group 0.
pub proof fn lemma_wake_up_tile_fallback(group_id: u32, tile_mask: u32)
    requires
        group_id >= NUM_WAKE_UP_TILE_REGS,
    ensures
        wake_up_tile_write(group_id, tile_mask) == wake_up_tile_write(0, tile_mask),
{
}

/// Each control register has a 32-bit word of its own inside the control block:
/// the tile wake-up registers of distinct groups differ, the start and end
/// registers of the read-only cache regions differ from each other and from the
/// tile registers, and none of them meets a single-word register.
pub proof fn lemma_register_map_disjoint(g1: int, g2: int, r1: int, r2: int)
    requires
        0 <= g1 < NUM_WAKE_UP_TILE_REGS,
        0 <= g2 < NUM_WAKE_UP_TILE_REGS,
        0 <= r1 < NUM_RO_CACHE_REGIONS,
        0 <= r2 < NUM_RO_CACHE_REGIONS,
    ensures
        g1 != g2 ==> wake_up_tile_offset_of(g1) != wake_up_tile_offset_of(g2),
        r1 != r2 ==> ro_cache_start_offset_of(r1) != ro_cache_start_offset_of(r2),
        r1 != r2 ==> ro_cache_end_offset_of(r1) != ro_cache_end_offset_of(r2),
        ro_cache_start_offset_of(r1) != ro_cache_end_offset_of(r2),
        wake_up_tile_offset_of(g1) != ro_cache_start_offset_of(r1),
        wake_up_tile_offset_of(g1) != ro_cache_end_offset_of(r1),
        WAKE_UP_OFFSET < wake_up_tile_offset_of(g1) < WAKE_UP_GROUP_OFFSET,
        RO_CACHE_FLUSH_OFFSET < ro_cache_start_offset_of(r1),
        ro_cache_end_offset_of(r2) + 4 <= CONTROL_BLOCK_SIZE,
        wake_up_tile_offset_of(g1) % 4 == 0,
        ro_cache_start_offset_of(r1) % 4 == 0,
        ro_cache_end_offset_of(r1) % 4 == 0,
{
}

/// The value that ends a simulation through the host-target interface: the exit
/// code shifted left by one, with the low bit set.
pub open spec fn htif_exit_value_of(exit_code: u32) -> int {
    2 * exit_code + 1
}

/// The word written to `tohost` to end the simulation with `exit_code`.
pub fn htif_exit_value(exit_code: u32) -> (v: u64)
    ensures
        v == htif_exit_value_of(exit_code),
{
    let c: u64 = exit_code as u64;
    assert(((c << 1u64) | 1u64) == 2 * c + 1) by (bit_vector)
        requires
            c < 0x1_0000_0000u64,
    ;
    (c << 1u64) | 1u64
}

} // verus!
