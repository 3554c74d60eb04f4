//! A memoizing, bounded-memory cache in front of a proposer-election strategy,
//! and the node-checker's configuration types.
pub mod cached;
pub mod config;
pub mod election;
pub mod recent;
