//! A fixed-layout on-chain record with a one-way lifecycle
//! (uninitialized, initialized, closed), its wire formats, and the
//! validated state transitions that move a record along that lifecycle.

pub mod error;
pub mod input;
pub mod instruction;
pub mod processor;
pub mod state;
