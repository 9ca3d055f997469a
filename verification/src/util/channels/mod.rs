pub mod mpmc;
pub mod mpsc;
pub mod oneshot;
