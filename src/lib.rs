//! Decisions of a GPU agent ("slime") simulation: the compute node's state
//! machine and dispatch geometry, the binding-set cache, the packed agent
//! layout and its readback snapshots, and the channel that carries them from
//! the render context to the application.

pub mod bind_group;
pub mod driver;
pub mod orchestrator;
pub mod pipeline;
pub mod population;
pub mod readback;
pub mod snapshot;
