//! Coordination of the three workers that together render one document:
//! a script executor, a layout computer and a render worker.
//!
//! The coordinator allocates one conduit per worker, decides the order in
//! which the workers start and what each is handed, forwards navigation
//! requests to the script worker, and tears everything down again, waiting
//! for the render worker's acknowledgement.

pub mod channel;
pub mod launch;
pub mod message;
pub mod model;
pub mod pipeline;
