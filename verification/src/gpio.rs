//! General-purpose input/output pads.
//!
//! A pad handle carries its pin index and its mode in its type and no state
//! at run time: all electrical state lives in the register block, which each
//! operation takes by reference.

pub mod alternate;
pub mod convert;
pub mod input;
pub mod legacy;
pub mod output;
pub mod pad;
pub mod typestate;
