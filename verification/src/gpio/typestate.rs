//! Marker types for the mode of a pad, and what each stands for.

use crate::glb::{Function, Mode, Pull};
use core::marker::PhantomData;
use vstd::prelude::*;

verus! {

/// Pull configuration that a marker type stands for.
pub trait PullTag {
    /// The pull configuration.
    spec fn pull() -> Pull;
}

/// Pad mode that a marker type stands for.
pub trait ModeTag {
    /// The mode.
    spec fn mode() -> Mode;
}

/// Neither pull resistor is connected.
pub struct Floating;

/// The pull-up resistor is connected.
pub struct PullUp;

/// The pull-down resistor is connected.
pub struct PullDown;

/// Digital input mode.
pub struct Input<M> {
    pub pull: PhantomData<M>,
}

/// Digital output mode.
pub struct Output<M> {
    pub pull: PhantomData<M>,
}

/// Serial peripheral interface mode, by bus index.
pub struct Spi<const I: usize>;

/// Secure digital host controller mode.
pub struct Sdh;

/// UART mode.
pub struct Uart;

/// Multimedia cluster UART mode.
pub struct MmUart;

/// Pulse width modulation mode, by channel group index.
pub struct Pwm<const I: usize>;

/// Inter-integrated circuit mode, by bus index.
pub struct I2c<const I: usize>;

/// D0 core JTAG mode.
pub struct JtagD0;

/// M0 core JTAG mode.
pub struct JtagM0;

/// Low-power core JTAG mode.
pub struct JtagLp;

impl PullTag for Floating {
    open spec fn pull() -> Pull {
        Pull::Floating
    }
}

impl PullTag for PullUp {
    open spec fn pull() -> Pull {
        Pull::Up
    }
}

impl PullTag for PullDown {
    open spec fn pull() -> Pull {
        Pull::Down
    }
}

impl<M: PullTag> ModeTag for Input<M> {
    open spec fn mode() -> Mode {
        Mode::Input(M::pull())
    }
}

impl<M: PullTag> ModeTag for Output<M> {
    open spec fn mode() -> Mode {
        Mode::Output(M::pull())
    }
}

impl<const I: usize> ModeTag for Spi<I> {
    open spec fn mode() -> Mode {
        Mode::Alternate(Function::Spi(I))
    }
}

impl ModeTag for Sdh {
    open spec fn mode() -> Mode {
        Mode::Alternate(Function::Sdh)
    }
}

impl ModeTag for Uart {
    open spec fn mode() -> Mode {
        Mode::Alternate(Function::Uart)
    }
}

impl ModeTag for MmUart {
    open spec fn mode() -> Mode {
        Mode::Alternate(Function::MmUart)
    }
}

impl<const I: usize> ModeTag for Pwm<I> {
    open spec fn mode() -> Mode {
        Mode::Alternate(Function::Pwm(I))
    }
}

impl<const I: usize> ModeTag for I2c<I> {
    open spec fn mode() -> Mode {
        Mode::Alternate(Function::I2c(I))
    }
}

impl ModeTag for JtagD0 {
    open spec fn mode() -> Mode {
        Mode::Alternate(Function::JtagD0)
    }
}

impl ModeTag for JtagM0 {
    open spec fn mode() -> Mode {
        Mode::Alternate(Function::JtagM0)
    }
}

impl ModeTag for JtagLp {
    open spec fn mode() -> Mode {
        Mode::Alternate(Function::JtagLp)
    }
}

} // verus!
