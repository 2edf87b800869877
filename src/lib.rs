//! A small library collection: a fixed-size worker pool's queue, worker and
//! pool protocol, two blog post workflows, a line search, and a few utilities.
pub mod queue;
pub mod worker;
pub mod pool;
pub mod blog;
pub mod search;
pub mod guess;
pub mod shapes;
pub mod text;
pub mod functional;
pub mod summary;
