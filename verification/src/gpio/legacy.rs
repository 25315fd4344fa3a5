//! Digital output in the shape of the earlier pin interface, in which the
//! output trait carries its own error type.
//!
//! It is kept for callers written against that shape. It has no behaviour of
//! its own: each operation forwards to the pad's primary operation and makes
//! the same register write.

use crate::glb::{only_pad_changed, PadState, RegisterBlock, PIN_COUNT};
use crate::gpio::output::Output;
use vstd::prelude::*;

verus! {

/// Single digital push-pull output pin.
pub trait OutputPin {
    /// Error type; for a pad, one that has no value.
    type Error;

    /// The pin that the handle stands for.
    spec fn pin() -> int;

    /// Drives the pin low: clears its output-data bit and nothing else.
    fn set_low(&mut self, glb: &mut RegisterBlock) -> (result: Result<(), Self::Error>)
        requires
            0 <= Self::pin() < PIN_COUNT,
        ensures
            result is Ok,
            only_pad_changed(
                *old(glb),
                *final(glb),
                Self::pin(),
                (PadState { output: false, ..old(glb).pad(Self::pin()) }),
            ),
    ;

    /// Drives the pin high: sets its output-data bit and nothing else.
    fn set_high(&mut self, glb: &mut RegisterBlock) -> (result: Result<(), Self::Error>)
        requires
            0 <= Self::pin() < PIN_COUNT,
        ensures
            result is Ok,
            only_pad_changed(
                *old(glb),
                *final(glb),
                Self::pin(),
                (PadState { output: true, ..old(glb).pad(Self::pin()) }),
            ),
    ;
}

impl<const N: usize, M> OutputPin for Output<N, M> {
    type Error = core::convert::Infallible;

    open spec fn pin() -> int {
        N as int
    }

    fn set_low(&mut self, glb: &mut RegisterBlock) -> (result: Result<(), Self::Error>) {
        Output::set_low(self, glb)
    }

    fn set_high(&mut self, glb: &mut RegisterBlock) -> (result: Result<(), Self::Error>) {
        Output::set_high(self, glb)
    }
}

} // verus!
