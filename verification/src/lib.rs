//! A model of the `world` program: a small on-chain program whose substance is
//! the way it issues a fungible token through the system token program, under
//! two calling conventions, with or without a completion callback.
//!
//! The program's state, the values it reads from its host and the calls it
//! dispatches are plain data here. Every entry point is a function from the
//! state and those values to a result and a record of the calls it dispatched;
//! a host adapter performs the calls and hands back their outcomes.

pub mod address;
pub mod amount;
pub mod block;
pub mod call;
pub mod endpoint;
pub mod error;
pub mod invocation;
pub mod laws;
pub mod lifecycle;
pub mod model;
pub mod payment;
pub mod state;
pub mod system;
pub mod world;

pub use state::ProgramState;
pub use world::World;
