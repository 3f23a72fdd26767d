//! The simulation core of a terminal side-scrolling runner: scenery and
//! obstacle generators, the runner's jump arc, collision detection and the
//! session state machine, each with a machine-checked contract.

pub mod game;
mod random;
