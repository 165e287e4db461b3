//! Aggregation of application listings from independently implemented
//! backends: failure isolation, merging, classification and a cached snapshot.
pub mod plugins;
pub mod host;
pub mod store;
pub mod report;
