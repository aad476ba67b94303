//! The pipeline stage transitions.  Each worker loop lives with the
//! embedding application; the transition a worker applies to the one test
//! it holds is verified here.

pub mod aquiring;
pub mod preperation;
pub mod running;
pub mod termination;
pub mod validation;
