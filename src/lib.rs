//! Hosting a terminal: the grid the emulation engine fills, the queue of
//! commands to the I/O loop, the loop's decisions, and the session façade.

pub mod channel;
pub mod collaborator;
pub mod engine;
pub mod event_loop;
pub mod grid;
pub mod render;
pub mod session;
