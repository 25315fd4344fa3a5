//! The pad handle behind the mode-specific handles: every operation of a
//! pad, whatever its mode.

use crate::glb::{
    lemma_pads_determine_block, only_pad_changed, Drive, Function, Mode, PadState, Pull,
    RegisterBlock, PIN_COUNT,
};
use crate::gpio::typestate::{
    self, Floating, I2c, Input, JtagD0, JtagLp, JtagM0, MmUart, ModeTag, Output, PullDown, PullTag,
    PullUp, Pwm, Sdh, Spi, Uart,
};
use core::marker::PhantomData;
use vstd::prelude::*;

verus! {

/// The pad `pin` entered the mode that `T` stands for, with the pull
/// configuration `pull`: its function select, pull and output enable are the
/// target's, its drive strength and data bits are kept, and no other pad
/// changed in any field.
pub open spec fn enters<T: ModeTag>(
    before: RegisterBlock,
    after: RegisterBlock,
    pin: int,
    pull: Pull,
) -> bool {
    only_pad_changed(before, after, pin, before.pad(pin).entered(T::mode(), pull))
}

/// Whatever mode a pad was in, a transition leaves its function select at
/// the code of the target mode, its output enable set exactly for an output
/// target and its pull as asked, and leaves every field of every other pad
/// as it was.
pub proof fn lemma_transition_reaches_target<T: ModeTag>(
    before: RegisterBlock,
    after: RegisterBlock,
    pin: int,
    pull: Pull,
)
    requires
        0 <= pin < PIN_COUNT,
        enters::<T>(before, after, pin, pull),
    ensures
        after.pad(pin).function == T::mode().function_code(),
        after.pad(pin).output_enable == (T::mode() is Output),
        after.pad(pin).pull == pull.bits(),
        T::mode() == Mode::Input(pull) || T::mode() == Mode::Output(pull) || T::mode()
            is Alternate ==> after.pad(pin).realizes(T::mode()),
        forall|other: int|
            0 <= other < PIN_COUNT && other != pin ==> #[trigger] after.pad(other) == before.pad(
                other,
            ),
{
}

/// A floating input that is made a floating output and then a floating
/// input again has its function select, pull and output enable back; as
/// nothing else was written, the whole block is as it was at the start.
pub proof fn lemma_floating_round_trip(
    start: RegisterBlock,
    middle: RegisterBlock,
    end: RegisterBlock,
    pin: int,
)
    requires
        0 <= pin < PIN_COUNT,
        start.pad(pin).realizes(Mode::Input(Pull::Floating)),
        enters::<Output<Floating>>(start, middle, pin, Pull::Floating),
        enters::<Input<Floating>>(middle, end, pin, Pull::Floating),
    ensures
        end.pad(pin).function == start.pad(pin).function,
        end.pad(pin).pull == start.pad(pin).pull,
        end.pad(pin).output_enable == start.pad(pin).output_enable,
        end == start,
{
    assert forall|other: int| 0 <= other < PIN_COUNT implies #[trigger] end.pad(other)
        == start.pad(other) by {
        if other != pin {
            assert(end.pad(other) == middle.pad(other));
            assert(middle.pad(other) == start.pad(other));
        }
    }
    lemma_pads_determine_block(end, start);
}

/// A level written to a pad that was made an output is the level of its
/// output-data bit, the pad is still a driven output, and no other pad has
/// changed in any field since before the transition.
pub proof fn lemma_output_level_written<M: PullTag>(
    start: RegisterBlock,
    configured: RegisterBlock,
    driven: RegisterBlock,
    pin: int,
    high: bool,
)
    requires
        0 <= pin < PIN_COUNT,
        enters::<Output<M>>(start, configured, pin, M::pull()),
        only_pad_changed(
            configured,
            driven,
            pin,
            (PadState { output: high, ..configured.pad(pin) }),
        ),
    ensures
        driven.pad(pin).output == high,
        driven.pad(pin).realizes(Mode::Output(M::pull())),
        forall|other: int|
            0 <= other < PIN_COUNT && other != pin ==> #[trigger] driven.pad(other) == start.pad(
                other,
            ),
{
    assert forall|other: int| 0 <= other < PIN_COUNT && other != pin implies #[trigger] driven.pad(
        other,
    ) == start.pad(other) by {
        assert(driven.pad(other) == configured.pad(other));
        assert(configured.pad(other) == start.pad(other));
    }
}

/// A drive strength that was set is the one read back, for every pad and
/// every level, whatever the mode of the pad; the mode and the data bits of
/// the pad are not touched by it.
pub proof fn lemma_drive_reads_back(
    before: RegisterBlock,
    after: RegisterBlock,
    pin: int,
    level: Drive,
)
    requires
        0 <= pin < PIN_COUNT,
        only_pad_changed(
            before,
            after,
            pin,
            (PadState { drive: level.bits(), ..before.pad(pin) }),
        ),
    ensures
        Drive::of_bits(after.pad(pin).drive) == level,
        forall|mode: Mode| before.pad(pin).realizes(mode) ==> after.pad(pin).realizes(mode),
        after.pad(pin).input == before.pad(pin).input,
        after.pad(pin).output == before.pad(pin).output,
{
}

/// Handle of the pad `N` in the mode `M`.
pub struct Inner<const N: usize, M> {
    mode: PhantomData<M>,
}

impl<const N: usize, M> Inner<N, M> {
    /// Makes the handle of the pad `N`. Whoever owns the pads makes one
    /// handle for each pin, in the mode that the pad is in.
    pub fn new() -> (pad: Self) {
        Inner { mode: PhantomData }
    }

    /// Get drive strength of this pad.
    pub fn drive(&self, glb: &RegisterBlock) -> (level: Drive)
        requires
            N < PIN_COUNT,
        ensures
            level == Drive::of_bits(glb.pad(N as int).drive),
            level.bits() == glb.pad(N as int).drive,
    {
        glb.drive(N)
    }

    /// Set drive strength of this pad. Reading it back gives `val`; the
    /// pad's mode and data bits, and every other pad, are untouched.
    pub fn set_drive(&mut self, glb: &mut RegisterBlock, val: Drive)
        requires
            N < PIN_COUNT,
        ensures
            only_pad_changed(
                *old(glb),
                *final(glb),
                N as int,
                (PadState { drive: val.bits(), ..old(glb).pad(N as int) }),
            ),
            Drive::of_bits(final(glb).pad(N as int).drive) == val,
    {
        glb.set_drive(N, val);
    }

    /// Configures the pad as a digital output with the pull-up resistor.
    pub fn into_pull_up_output(self, glb: &mut RegisterBlock) -> (pad: Inner<N, Output<PullUp>>)
        requires
            N < PIN_COUNT,
        ensures
            enters::<typestate::Output<PullUp>>(*old(glb), *final(glb), N as int, Pull::Up),
    {
        glb.enter_output(N, Pull::Up);
        Inner { mode: PhantomData }
    }

    /// Configures the pad as a digital output with the pull-down resistor.
    pub fn into_pull_down_output(self, glb: &mut RegisterBlock) -> (pad: Inner<N, Output<PullDown>>)
        requires
            N < PIN_COUNT,
        ensures
            enters::<typestate::Output<PullDown>>(*old(glb), *final(glb), N as int, Pull::Down),
    {
        glb.enter_output(N, Pull::Down);
        Inner { mode: PhantomData }
    }

    /// Configures the pad as a floating digital output.
    pub fn into_floating_output(self, glb: &mut RegisterBlock) -> (pad: Inner<N, Output<Floating>>)
        requires
            N < PIN_COUNT,
        ensures
            enters::<typestate::Output<Floating>>(*old(glb), *final(glb), N as int, Pull::Floating),
    {
        glb.enter_output(N, Pull::Floating);
        Inner { mode: PhantomData }
    }

    /// Configures the pad as a digital input with the pull-up resistor.
    pub fn into_pull_up_input(self, glb: &mut RegisterBlock) -> (pad: Inner<N, Input<PullUp>>)
        requires
            N < PIN_COUNT,
        ensures
            enters::<typestate::Input<PullUp>>(*old(glb), *final(glb), N as int, Pull::Up),
    {
        glb.enter_input(N, Pull::Up);
        Inner { mode: PhantomData }
    }

    /// Configures the pad as a digital input with the pull-down resistor.
    pub fn into_pull_down_input(self, glb: &mut RegisterBlock) -> (pad: Inner<N, Input<PullDown>>)
        requires
            N < PIN_COUNT,
        ensures
            enters::<typestate::Input<PullDown>>(*old(glb), *final(glb), N as int, Pull::Down),
    {
        glb.enter_input(N, Pull::Down);
        Inner { mode: PhantomData }
    }

    /// Configures the pad as a floating digital input.
    pub fn into_floating_input(self, glb: &mut RegisterBlock) -> (pad: Inner<N, Input<Floating>>)
        requires
            N < PIN_COUNT,
        ensures
            enters::<typestate::Input<Floating>>(*old(glb), *final(glb), N as int, Pull::Floating),
    {
        glb.enter_input(N, Pull::Floating);
        Inner { mode: PhantomData }
    }

    /// Wires the pad to a signal of the SPI bus `I`, floating.
    pub fn into_spi<const I: usize>(self, glb: &mut RegisterBlock) -> (pad: Inner<N, Spi<I>>)
        requires
            N < PIN_COUNT,
            Function::Spi(I).valid(),
        ensures
            enters::<typestate::Spi<I>>(*old(glb), *final(glb), N as int, Pull::Floating),
    {
        glb.enter_alternate(N, Function::Spi(I), Pull::Floating);
        Inner { mode: PhantomData }
    }

    /// Wires the pad to a signal of the SD host controller, floating.
    pub fn into_sdh(self, glb: &mut RegisterBlock) -> (pad: Inner<N, Sdh>)
        requires
            N < PIN_COUNT,
        ensures
            enters::<typestate::Sdh>(*old(glb), *final(glb), N as int, Pull::Floating),
    {
        glb.enter_alternate(N, Function::Sdh, Pull::Floating);
        Inner { mode: PhantomData }
    }

    /// Wires the pad to a UART signal, pulled up.
    pub fn into_uart(self, glb: &mut RegisterBlock) -> (pad: Inner<N, Uart>)
        requires
            N < PIN_COUNT,
        ensures
            enters::<typestate::Uart>(*old(glb), *final(glb), N as int, Pull::Up),
    {
        glb.enter_alternate(N, Function::Uart, Pull::Up);
        Inner { mode: PhantomData }
    }

    /// Wires the pad to a signal of the multimedia cluster UART, pulled up.
    pub fn into_mm_uart(self, glb: &mut RegisterBlock) -> (pad: Inner<N, MmUart>)
        requires
            N < PIN_COUNT,
        ensures
            enters::<typestate::MmUart>(*old(glb), *final(glb), N as int, Pull::Up),
    {
        glb.enter_alternate(N, Function::MmUart, Pull::Up);
        Inner { mode: PhantomData }
    }

    /// Wires the pad to a signal of the PWM group `I`, pulled up.
    pub fn into_pull_up_pwm<const I: usize>(self, glb: &mut RegisterBlock) -> (pad: Inner<N, Pwm<I>>)
        requires
            N < PIN_COUNT,
            Function::Pwm(I).valid(),
        ensures
            enters::<typestate::Pwm<I>>(*old(glb), *final(glb), N as int, Pull::Up),
    {
        glb.enter_alternate(N, Function::Pwm(I), Pull::Up);
        Inner { mode: PhantomData }
    }

    /// Wires the pad to a signal of the PWM group `I`, pulled down.
    pub fn into_pull_down_pwm<const I: usize>(self, glb: &mut RegisterBlock) -> (pad: Inner<N, Pwm<I>>)
        requires
            N < PIN_COUNT,
            Function::Pwm(I).valid(),
        ensures
            enters::<typestate::Pwm<I>>(*old(glb), *final(glb), N as int, Pull::Down),
    {
        glb.enter_alternate(N, Function::Pwm(I), Pull::Down);
        Inner { mode: PhantomData }
    }

    /// Wires the pad to a signal of the PWM group `I`, floating.
    pub fn into_floating_pwm<const I: usize>(self, glb: &mut RegisterBlock) -> (pad: Inner<N, Pwm<I>>)
        requires
            N < PIN_COUNT,
            Function::Pwm(I).valid(),
        ensures
            enters::<typestate::Pwm<I>>(*old(glb), *final(glb), N as int, Pull::Floating),
    {
        glb.enter_alternate(N, Function::Pwm(I), Pull::Floating);
        Inner { mode: PhantomData }
    }

    /// Wires the pad to a signal of the I2C bus `I`, pulled up.
    pub fn into_i2c<const I: usize>(self, glb: &mut RegisterBlock) -> (pad: Inner<N, I2c<I>>)
        requires
            N < PIN_COUNT,
            Function::I2c(I).valid(),
        ensures
            enters::<typestate::I2c<I>>(*old(glb), *final(glb), N as int, Pull::Up),
    {
        glb.enter_alternate(N, Function::I2c(I), Pull::Up);
        Inner { mode: PhantomData }
    }

    /// Wires the pad to a JTAG signal of the D0 core, floating.
    pub fn into_jtag_d0(self, glb: &mut RegisterBlock) -> (pad: Inner<N, JtagD0>)
        requires
            N < PIN_COUNT,
        ensures
            enters::<typestate::JtagD0>(*old(glb), *final(glb), N as int, Pull::Floating),
    {
        glb.enter_alternate(N, Function::JtagD0, Pull::Floating);
        Inner { mode: PhantomData }
    }

    /// Wires the pad to a JTAG signal of the M0 core, floating.
    pub fn into_jtag_m0(self, glb: &mut RegisterBlock) -> (pad: Inner<N, JtagM0>)
        requires
            N < PIN_COUNT,
        ensures
            enters::<typestate::JtagM0>(*old(glb), *final(glb), N as int, Pull::Floating),
    {
        glb.enter_alternate(N, Function::JtagM0, Pull::Floating);
        Inner { mode: PhantomData }
    }

    /// Wires the pad to a JTAG signal of the low-power core, floating.
    pub fn into_jtag_lp(self, glb: &mut RegisterBlock) -> (pad: Inner<N, JtagLp>)
        requires
            N < PIN_COUNT,
        ensures
            enters::<typestate::JtagLp>(*old(glb), *final(glb), N as int, Pull::Floating),
    {
        glb.enter_alternate(N, Function::JtagLp, Pull::Floating);
        Inner { mode: PhantomData }
    }
}

impl<const N: usize, M> Inner<N, Output<M>> {
    /// Drives the pad low by clearing its output-data bit.
    pub fn set_low(&mut self, glb: &mut RegisterBlock) -> (result: Result<
        (),
        core::convert::Infallible,
    >)
        requires
            N < PIN_COUNT,
        ensures
            result is Ok,
            only_pad_changed(
                *old(glb),
                *final(glb),
                N as int,
                (PadState { output: false, ..old(glb).pad(N as int) }),
            ),
    {
        glb.set_output_data(N, false);
        Ok(())
    }

    /// Drives the pad high by setting its output-data bit.
    pub fn set_high(&mut self, glb: &mut RegisterBlock) -> (result: Result<
        (),
        core::convert::Infallible,
    >)
        requires
            N < PIN_COUNT,
        ensures
            result is Ok,
            only_pad_changed(
                *old(glb),
                *final(glb),
                N as int,
                (PadState { output: true, ..old(glb).pad(N as int) }),
            ),
    {
        glb.set_output_data(N, true);
        Ok(())
    }
}

impl<const N: usize, M> Inner<N, Input<M>> {
    /// Whether the pad's input-data bit is set.
    pub fn is_high(&self, glb: &RegisterBlock) -> (result: Result<bool, core::convert::Infallible>)
        requires
            N < PIN_COUNT,
        ensures
            result == Ok::<bool, core::convert::Infallible>(glb.pad(N as int).input),
    {
        Ok(glb.input_data(N))
    }

    /// Whether the pad's input-data bit is clear.
    pub fn is_low(&self, glb: &RegisterBlock) -> (result: Result<bool, core::convert::Infallible>)
        requires
            N < PIN_COUNT,
        ensures
            result == Ok::<bool, core::convert::Infallible>(!glb.pad(N as int).input),
    {
        Ok(!glb.input_data(N))
    }
}

} // verus!
