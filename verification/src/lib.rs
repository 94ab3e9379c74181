//! Frame lifecycle of a single-triangle GPU renderer, kept free of I/O.
//!
//! The crate decides; its embedding performs. Set-up is a fixed sequence of
//! stages, the frame loop is a state machine from inputs to ordered actions,
//! and every descriptor handed to the graphics API is a plain value whose
//! content is stated in a contract.
//!
//! An embedding creates the window and the surface, and then
//! - asks a [`setup::Setup`] for the work of its current stage, performs it
//!   and hands back what came of it, until the set-up is ready or has
//!   failed;
//! - takes the [`driver::Driver`] from the ready set-up, hands it every
//!   event of the window and the outcome of every acquisition it asked
//!   for, and performs the actions it answers with, in their order.
//!
//! Floats are held by their bit patterns throughout, so that all data is
//! plain integers.

pub mod bytes;
pub mod driver;
pub mod geometry;
pub mod negotiation;
pub mod pipeline;
pub mod resources;
pub mod setup;
pub mod surface;
