pub mod attrs;
pub mod tree;
pub mod extract;
pub mod compile;
pub mod dispatch;
pub mod tasks;
pub mod clean;
pub mod pipeline;

pub use pipeline::tusks;
pub mod laws;
