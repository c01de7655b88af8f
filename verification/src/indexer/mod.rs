pub mod events;
pub mod laws;
pub mod model;
pub mod processor;
pub mod store;
