//! The platform backends: the fallback for targets with no native audio control, and the
//! decisions that the Windows Core Audio backend makes around its COM calls.

pub mod dummy;
pub mod windows;
