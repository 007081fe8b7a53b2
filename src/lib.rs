pub mod decoder;
pub mod decrypt;
pub mod overlay;
pub mod pipeline;
pub mod snapshot;
