//! Verified core of an async event framework: the registries,
//! multiplexers and scheduling decisions behind publishers,
//! subscribers, multiplexed slots, windows and the task framework.

pub mod background;
pub mod bitmap;
pub mod entry;
pub mod filter;
pub mod foreground;
pub mod forward;
pub mod framework;
pub mod keyed_mux;
pub mod mux;
pub mod pubsub;
pub mod ready_poll;
pub mod ready_wait;
pub mod ranges;
pub mod slots;
pub mod spawner;
pub mod subsystem;
pub mod vecs;
pub mod windows;
