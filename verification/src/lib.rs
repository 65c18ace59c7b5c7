//! MemPool-IPC: cluster topology, control-register map and the single-producer
//! single-consumer ring buffer of the MemPool shared L1 TCDM, with their contracts.

pub mod primitives;
pub mod hw;
pub mod queue;
