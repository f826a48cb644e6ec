//! Verified core of a neural robot-control driver: the wire format spoken with
//! the robot, the driver's bookkeeping between messages, the shapes of its
//! recurrent networks, how a network's output is cut into probability
//! distributions, and the decisions that turn physics descriptions into rigid
//! bodies and colliders.
//!
//! Floating-point values never appear here: a 32-bit float travels as its
//! IEEE-754 bit pattern (`u32`), which is exactly what the wire carries.

pub mod message;
pub mod memory;
pub mod driver;
pub mod rnn;
pub mod neural_core;
pub mod probability;
pub mod rapier_physics;
