//! The three provisioning flows, one module each: mint with a metadata
//! record, mint that is its own group, and a group with one member mint.

pub mod reproduction1;
pub mod reproduction2;
pub mod reproduction3;
