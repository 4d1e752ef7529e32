//! The part of the virtual machine's tool interface that is plain data:
//! its enumerations, its errors and its capability bits.
pub mod capabilities;
pub mod errors;
pub mod jvmti_sys;
pub mod results;
