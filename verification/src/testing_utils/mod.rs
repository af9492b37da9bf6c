//! Ready-made values for trying the drone out.

pub mod data;
