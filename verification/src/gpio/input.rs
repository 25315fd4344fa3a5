//! GPIO pad in input mode.

use crate::glb::{only_pad_changed, Drive, PadState, RegisterBlock, PIN_COUNT};
use crate::gpio::alternate::Alternate;
use crate::gpio::output::Output;
use crate::gpio::convert::{IntoPad, IntoPadv2};
use crate::gpio::pad::Inner;
use crate::gpio::typestate::{self, Floating, PullDown, PullUp};
use vstd::prelude::*;
use vstd::std_specs::convert::FromSpecImpl;

verus! {

/// GPIO pad in input mode.
pub struct Input<const N: usize, M> {
    pub inner: Inner<N, typestate::Input<M>>,
}

impl<const N: usize, M> Input<N, M> {
    /// Get drive strength of this pad.
    pub fn drive(&self, glb: &RegisterBlock) -> (level: Drive)
        requires
            N < PIN_COUNT,
        ensures
            level == Drive::of_bits(glb.pad(N as int).drive),
            level.bits() == glb.pad(N as int).drive,
    {
        self.inner.drive(glb)
    }

    /// Set drive strength of this pad. Reading it back gives `val`; the
    /// pad's mode and data bits, and every other pad, are untouched.
    pub fn set_drive(&mut self, glb: &mut RegisterBlock, val: Drive)
        requires
            N < PIN_COUNT,
        ensures
            only_pad_changed(
                *old(glb),
                *final(glb),
                N as int,
                (PadState { drive: val.bits(), ..old(glb).pad(N as int) }),
            ),
            Drive::of_bits(final(glb).pad(N as int).drive) == val,
    {
        self.inner.set_drive(glb, val)
    }

    /// Whether the pad's input-data bit is set.
    pub fn is_high(&self, glb: &RegisterBlock) -> (result: Result<bool, core::convert::Infallible>)
        requires
            N < PIN_COUNT,
        ensures
            result == Ok::<bool, core::convert::Infallible>(glb.pad(N as int).input),
    {
        self.inner.is_high(glb)
    }

    /// Whether the pad's input-data bit is clear.
    pub fn is_low(&self, glb: &RegisterBlock) -> (result: Result<bool, core::convert::Infallible>)
        requires
            N < PIN_COUNT,
        ensures
            result == Ok::<bool, core::convert::Infallible>(!glb.pad(N as int).input),
    {
        self.inner.is_low(glb)
    }
}

impl<const N: usize, M> IntoPad<N> for Input<N, M> {
    fn into_pull_up_output(self, glb: &mut RegisterBlock) -> (pad: Output<N, PullUp>) {
        Output::from(self.inner.into_pull_up_output(glb))
    }

    fn into_pull_down_output(self, glb: &mut RegisterBlock) -> (pad: Output<N, PullDown>) {
        Output::from(self.inner.into_pull_down_output(glb))
    }

    fn into_floating_output(self, glb: &mut RegisterBlock) -> (pad: Output<N, Floating>) {
        Output::from(self.inner.into_floating_output(glb))
    }

    fn into_pull_up_input(self, glb: &mut RegisterBlock) -> (pad: Input<N, PullUp>) {
        Input::from(self.inner.into_pull_up_input(glb))
    }

    fn into_pull_down_input(self, glb: &mut RegisterBlock) -> (pad: Input<N, PullDown>) {
        Input::from(self.inner.into_pull_down_input(glb))
    }

    fn into_floating_input(self, glb: &mut RegisterBlock) -> (pad: Input<N, Floating>) {
        Input::from(self.inner.into_floating_input(glb))
    }
}

impl<const N: usize, M> IntoPadv2<N> for Input<N, M> {
    fn into_spi<const I: usize>(self, glb: &mut RegisterBlock) -> (pad: Alternate<N, typestate::Spi<I>>) {
        Alternate::from(self.inner.into_spi::<I>(glb))
    }

    fn into_sdh(self, glb: &mut RegisterBlock) -> (pad: Alternate<N, typestate::Sdh>) {
        Alternate::from(self.inner.into_sdh(glb))
    }

    fn into_uart(self, glb: &mut RegisterBlock) -> (pad: Alternate<N, typestate::Uart>) {
        Alternate::from(self.inner.into_uart(glb))
    }

    fn into_mm_uart(self, glb: &mut RegisterBlock) -> (pad: Alternate<N, typestate::MmUart>) {
        Alternate::from(self.inner.into_mm_uart(glb))
    }

    fn into_pull_up_pwm<const I: usize>(self, glb: &mut RegisterBlock) -> (pad: Alternate<N, typestate::Pwm<I>>) {
        Alternate::from(self.inner.into_pull_up_pwm::<I>(glb))
    }

    fn into_pull_down_pwm<const I: usize>(self, glb: &mut RegisterBlock) -> (pad: Alternate<N, typestate::Pwm<I>>) {
        Alternate::from(self.inner.into_pull_down_pwm::<I>(glb))
    }

    fn into_floating_pwm<const I: usize>(self, glb: &mut RegisterBlock) -> (pad: Alternate<N, typestate::Pwm<I>>) {
        Alternate::from(self.inner.into_floating_pwm::<I>(glb))
    }

    fn into_i2c<const I: usize>(self, glb: &mut RegisterBlock) -> (pad: Alternate<N, typestate::I2c<I>>) {
        Alternate::from(self.inner.into_i2c::<I>(glb))
    }

    fn into_jtag_d0(self, glb: &mut RegisterBlock) -> (pad: Alternate<N, typestate::JtagD0>) {
        Alternate::from(self.inner.into_jtag_d0(glb))
    }

    fn into_jtag_m0(self, glb: &mut RegisterBlock) -> (pad: Alternate<N, typestate::JtagM0>) {
        Alternate::from(self.inner.into_jtag_m0(glb))
    }

    fn into_jtag_lp(self, glb: &mut RegisterBlock) -> (pad: Alternate<N, typestate::JtagLp>) {
        Alternate::from(self.inner.into_jtag_lp(glb))
    }
}

impl<const N: usize, M> From<Inner<N, typestate::Input<M>>> for Input<N, M> {
    /// Wraps the pad handle, which stays in the mode that its type names.
    fn from(inner: Inner<N, typestate::Input<M>>) -> (pad: Self) {
        Self { inner }
    }
}

impl<const N: usize, M> FromSpecImpl<Inner<N, typestate::Input<M>>> for Input<N, M> {
    open spec fn obeys_from_spec() -> bool {
        true
    }

    open spec fn from_spec(inner: Inner<N, typestate::Input<M>>) -> Self {
        Input { inner }
    }
}

} // verus!
