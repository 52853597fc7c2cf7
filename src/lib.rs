pub mod collect;
pub mod monitor;
pub mod shutdown;
pub mod words;
