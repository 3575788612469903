pub mod async_ring;
pub mod input;
pub mod ring;
pub mod rt_ring;
