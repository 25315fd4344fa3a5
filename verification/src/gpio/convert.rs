//! The mode transitions that every pad handle offers, whatever its mode.
//!
//! A transition consumes the handle and gives back the handle of the target
//! mode, so that a handle of the earlier mode cannot be used again.

use crate::glb::{Function, Pull, RegisterBlock, PIN_COUNT};
use crate::gpio::alternate::Alternate;
use crate::gpio::input::Input;
use crate::gpio::output::Output;
use crate::gpio::pad::enters;
use crate::gpio::typestate::{self, Floating, PullDown, PullUp};
use vstd::prelude::*;

verus! {

/// Transitions into the digital modes.
pub trait IntoPad<const N: usize>: Sized {
    /// Configures the pad as a digital output with the pull-up resistor.
    fn into_pull_up_output(self, glb: &mut RegisterBlock) -> (pad: Output<N, PullUp>)
        requires
            N < PIN_COUNT,
        ensures
            enters::<typestate::Output<PullUp>>(*old(glb), *final(glb), N as int, Pull::Up),
    ;

    /// Configures the pad as a digital output with the pull-down resistor.
    fn into_pull_down_output(self, glb: &mut RegisterBlock) -> (pad: Output<N, PullDown>)
        requires
            N < PIN_COUNT,
        ensures
            enters::<typestate::Output<PullDown>>(*old(glb), *final(glb), N as int, Pull::Down),
    ;

    /// Configures the pad as a floating digital output.
    fn into_floating_output(self, glb: &mut RegisterBlock) -> (pad: Output<N, Floating>)
        requires
            N < PIN_COUNT,
        ensures
            enters::<typestate::Output<Floating>>(*old(glb), *final(glb), N as int, Pull::Floating),
    ;

    /// Configures the pad as a digital input with the pull-up resistor.
    fn into_pull_up_input(self, glb: &mut RegisterBlock) -> (pad: Input<N, PullUp>)
        requires
            N < PIN_COUNT,
        ensures
            enters::<typestate::Input<PullUp>>(*old(glb), *final(glb), N as int, Pull::Up),
    ;

    /// Configures the pad as a digital input with the pull-down resistor.
    fn into_pull_down_input(self, glb: &mut RegisterBlock) -> (pad: Input<N, PullDown>)
        requires
            N < PIN_COUNT,
        ensures
            enters::<typestate::Input<PullDown>>(*old(glb), *final(glb), N as int, Pull::Down),
    ;

    /// Configures the pad as a floating digital input.
    fn into_floating_input(self, glb: &mut RegisterBlock) -> (pad: Input<N, Floating>)
        requires
            N < PIN_COUNT,
        ensures
            enters::<typestate::Input<Floating>>(*old(glb), *final(glb), N as int, Pull::Floating),
    ;
}

/// Transitions into the alternate modes.
pub trait IntoPadv2<const N: usize>: Sized {
    /// Wires the pad to a signal of the SPI bus `I`, floating.
    fn into_spi<const I: usize>(self, glb: &mut RegisterBlock) -> (pad: Alternate<N, typestate::Spi<I>>)
        requires
            N < PIN_COUNT,
            Function::Spi(I).valid(),
        ensures
            enters::<typestate::Spi<I>>(*old(glb), *final(glb), N as int, Pull::Floating),
    ;

    /// Wires the pad to a signal of the SD host controller, floating.
    fn into_sdh(self, glb: &mut RegisterBlock) -> (pad: Alternate<N, typestate::Sdh>)
        requires
            N < PIN_COUNT,
        ensures
            enters::<typestate::Sdh>(*old(glb), *final(glb), N as int, Pull::Floating),
    ;

    /// Wires the pad to a UART signal, pulled up.
    fn into_uart(self, glb: &mut RegisterBlock) -> (pad: Alternate<N, typestate::Uart>)
        requires
            N < PIN_COUNT,
        ensures
            enters::<typestate::Uart>(*old(glb), *final(glb), N as int, Pull::Up),
    ;

    /// Wires the pad to a signal of the multimedia cluster UART, pulled up.
    fn into_mm_uart(self, glb: &mut RegisterBlock) -> (pad: Alternate<N, typestate::MmUart>)
        requires
            N < PIN_COUNT,
        ensures
            enters::<typestate::MmUart>(*old(glb), *final(glb), N as int, Pull::Up),
    ;

    /// Wires the pad to a signal of the PWM group `I`, pulled up.
    fn into_pull_up_pwm<const I: usize>(self, glb: &mut RegisterBlock) -> (pad: Alternate<N, typestate::Pwm<I>>)
        requires
            N < PIN_COUNT,
            Function::Pwm(I).valid(),
        ensures
            enters::<typestate::Pwm<I>>(*old(glb), *final(glb), N as int, Pull::Up),
    ;

    /// Wires the pad to a signal of the PWM group `I`, pulled down.
    fn into_pull_down_pwm<const I: usize>(self, glb: &mut RegisterBlock) -> (pad: Alternate<N, typestate::Pwm<I>>)
        requires
            N < PIN_COUNT,
            Function::Pwm(I).valid(),
        ensures
            enters::<typestate::Pwm<I>>(*old(glb), *final(glb), N as int, Pull::Down),
    ;

    /// Wires the pad to a signal of the PWM group `I`, floating.
    fn into_floating_pwm<const I: usize>(self, glb: &mut RegisterBlock) -> (pad: Alternate<N, typestate::Pwm<I>>)
        requires
            N < PIN_COUNT,
            Function::Pwm(I).valid(),
        ensures
            enters::<typestate::Pwm<I>>(*old(glb), *final(glb), N as int, Pull::Floating),
    ;

    /// Wires the pad to a signal of the I2C bus `I`, pulled up.
    fn into_i2c<const I: usize>(self, glb: &mut RegisterBlock) -> (pad: Alternate<N, typestate::I2c<I>>)
        requires
            N < PIN_COUNT,
            Function::I2c(I).valid(),
        ensures
            enters::<typestate::I2c<I>>(*old(glb), *final(glb), N as int, Pull::Up),
    ;

    /// Wires the pad to a JTAG signal of the D0 core, floating.
    fn into_jtag_d0(self, glb: &mut RegisterBlock) -> (pad: Alternate<N, typestate::JtagD0>)
        requires
            N < PIN_COUNT,
        ensures
            enters::<typestate::JtagD0>(*old(glb), *final(glb), N as int, Pull::Floating),
    ;

    /// Wires the pad to a JTAG signal of the M0 core, floating.
    fn into_jtag_m0(self, glb: &mut RegisterBlock) -> (pad: Alternate<N, typestate::JtagM0>)
        requires
            N < PIN_COUNT,
        ensures
            enters::<typestate::JtagM0>(*old(glb), *final(glb), N as int, Pull::Floating),
    ;

    /// Wires the pad to a JTAG signal of the low-power core, floating.
    fn into_jtag_lp(self, glb: &mut RegisterBlock) -> (pad: Alternate<N, typestate::JtagLp>)
        requires
            N < PIN_COUNT,
        ensures
            enters::<typestate::JtagLp>(*old(glb), *final(glb), N as int, Pull::Floating),
    ;
}

} // verus!
