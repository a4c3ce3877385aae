//! Decision logic of the numerical distance routines.

pub mod vincenty;
