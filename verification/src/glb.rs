//! Global register block: the configuration registers of the pin-control
//! unit, shared by all pads.
//!
//! Each kind of field is packed for several pins into one register word:
//! function select takes four bits a pin, pull and drive strength two bits
//! each, output enable and the two data registers one bit.

use crate::packed::{
    lemma_fields_determine_word, packed_field, read_packed, shift_of, write_packed,
};
use vstd::prelude::*;

verus! {

/// Number of pads that the unit controls.
pub const PIN_COUNT: usize = 32;

/// Function-select code that connects a pad to the plain digital path.
pub const GPIO_FUNCTION: u32 = 11;

/// Width in bits of the function-select field.
pub const FUNCTION_WIDTH: u32 = 4;

/// Width in bits of the pull field: bit 0 enables the pull-up resistor,
/// bit 1 the pull-down resistor.
pub const PULL_WIDTH: u32 = 2;

/// Width in bits of the drive-strength field.
pub const DRIVE_WIDTH: u32 = 2;

/// Width in bits of the output-enable and data fields.
pub const FLAG_WIDTH: u32 = 1;

/// Pull resistor configuration of a pad.
#[derive(Clone, Copy, Debug, PartialEq, Eq, Structural)]
pub enum Pull {
    /// Neither resistor is connected.
    Floating,
    /// Pulled to the supply rail.
    Up,
    /// Pulled to ground.
    Down,
}

impl Pull {
    /// The value of the pull field for this configuration.
    pub open spec fn bits(self) -> u32 {
        match self {
            Pull::Floating => 0,
            Pull::Up => 1,
            Pull::Down => 2,
        }
    }

    /// Encodes this configuration for the pull field.
    pub fn to_bits(self) -> (bits: u32)
        ensures
            bits == self.bits(),
    {
        match self {
            Pull::Floating => 0,
            Pull::Up => 1,
            Pull::Down => 2,
        }
    }
}

/// Drive strength of a pad's output driver.
#[derive(Clone, Copy, Debug, PartialEq, Eq, Structural)]
pub enum Drive {
    /// Weakest level.
    Drive0,
    /// Second level.
    Drive1,
    /// Third level.
    Drive2,
    /// Strongest level.
    Drive3,
}

impl Drive {
    /// The value of the drive-strength field for this level.
    pub open spec fn bits(self) -> u32 {
        match self {
            Drive::Drive0 => 0,
            Drive::Drive1 => 1,
            Drive::Drive2 => 2,
            Drive::Drive3 => 3,
        }
    }

    /// The level that a value of the drive-strength field stands for.
    pub open spec fn of_bits(bits: u32) -> Drive {
        if bits == 0 {
            Drive::Drive0
        } else if bits == 1 {
            Drive::Drive1
        } else if bits == 2 {
            Drive::Drive2
        } else {
            Drive::Drive3
        }
    }

    /// Encodes this level for the drive-strength field.
    pub fn to_bits(self) -> (bits: u32)
        ensures
            bits == self.bits(),
            bits <= 3,
            Drive::of_bits(bits) == self,
    {
        match self {
            Drive::Drive0 => 0,
            Drive::Drive1 => 1,
            Drive::Drive2 => 2,
            Drive::Drive3 => 3,
        }
    }

    /// Decodes a value of the drive-strength field.
    pub fn from_bits(bits: u32) -> (level: Drive)
        ensures
            level == Drive::of_bits(bits),
            bits <= 3 ==> level.bits() == bits,
    {
        if bits == 0 {
            Drive::Drive0
        } else if bits == 1 {
            Drive::Drive1
        } else if bits == 2 {
            Drive::Drive2
        } else {
            Drive::Drive3
        }
    }
}

/// Peripheral signal that a pad in alternate mode is wired to.
#[derive(Clone, Copy, Debug, PartialEq, Eq, Structural)]
pub enum Function {
    /// Serial peripheral interface, by bus index.
    Spi(usize),
    /// Secure digital host controller.
    Sdh,
    /// Universal asynchronous receiver/transmitter.
    Uart,
    /// Multimedia cluster UART.
    MmUart,
    /// Pulse width modulation, by channel group index.
    Pwm(usize),
    /// Inter-integrated circuit bus, by bus index.
    I2c(usize),
    /// JTAG of the D0 core.
    JtagD0,
    /// JTAG of the M0 core.
    JtagM0,
    /// JTAG of the low-power core.
    JtagLp,
}

impl Function {
    /// The peripheral instance exists on the chip.
    pub open spec fn valid(self) -> bool {
        match self {
            Function::Spi(bus) => bus < 2,
            Function::Pwm(group) => group < 2,
            Function::I2c(bus) => bus < 4,
            _ => true,
        }
    }

    /// The function-select code of this peripheral signal.
    pub open spec fn code(self) -> u32 {
        match self {
            Function::Sdh => 0,
            Function::Spi(bus) => if bus == 0 { 1 } else { 2 },
            Function::I2c(bus) => if bus == 0 {
                3
            } else if bus == 1 {
                4
            } else if bus == 2 {
                5
            } else {
                6
            },
            Function::Uart => 7,
            Function::MmUart => 8,
            Function::Pwm(group) => if group == 0 { 9 } else { 10 },
            Function::JtagLp => 12,
            Function::JtagM0 => 13,
            Function::JtagD0 => 14,
        }
    }

    /// Encodes this peripheral signal for the function-select field.
    pub fn to_code(self) -> (code: u32)
        ensures
            code == self.code(),
            code <= 14,
            code != GPIO_FUNCTION,
    {
        match self {
            Function::Sdh => 0,
            Function::Spi(bus) => if bus == 0 { 1 } else { 2 },
            Function::I2c(bus) => if bus == 0 {
                3
            } else if bus == 1 {
                4
            } else if bus == 2 {
                5
            } else {
                6
            },
            Function::Uart => 7,
            Function::MmUart => 8,
            Function::Pwm(group) => if group == 0 { 9 } else { 10 },
            Function::JtagLp => 12,
            Function::JtagM0 => 13,
            Function::JtagD0 => 14,
        }
    }
}

/// Electrical mode of a pad.
#[derive(Clone, Copy, Debug, PartialEq, Eq, Structural)]
pub enum Mode {
    /// Digital input.
    Input(Pull),
    /// Digital output; the output driver is enabled.
    Output(Pull),
    /// Wired to a peripheral signal, which drives its own enable.
    Alternate(Function),
}

impl Mode {
    /// The function-select code of this mode.
    pub open spec fn function_code(self) -> u32 {
        match self {
            Mode::Input(_) => GPIO_FUNCTION,
            Mode::Output(_) => GPIO_FUNCTION,
            Mode::Alternate(function) => function.code(),
        }
    }

    /// Whether the pad's own output driver is enabled in this mode.
    pub open spec fn output_enabled(self) -> bool {
        self is Output
    }
}

/// What the register block holds for one pad.
pub struct PadState {
    /// Function-select code.
    pub function: u32,
    /// Pull field.
    pub pull: u32,
    /// Drive-strength field.
    pub drive: u32,
    /// Output-enable bit.
    pub output_enable: bool,
    /// Input-data bit.
    pub input: bool,
    /// Output-data bit.
    pub output: bool,
}

impl PadState {
    /// This state after the pad has entered `mode` with the pull
    /// configuration `pull`: function select, pull and output enable are
    /// the target's, drive strength and the data bits are carried over.
    pub open spec fn entered(self, mode: Mode, pull: Pull) -> PadState {
        PadState {
            function: mode.function_code(),
            pull: pull.bits(),
            output_enable: mode.output_enabled(),
            ..self
        }
    }

    /// The mode fields of this state are those of `mode`.
    pub open spec fn realizes(self, mode: Mode) -> bool {
        &&& self.function == mode.function_code()
        &&& self.output_enable == mode.output_enabled()
        &&& match mode {
            Mode::Input(pull) => self.pull == pull.bits(),
            Mode::Output(pull) => self.pull == pull.bits(),
            Mode::Alternate(_) => true,
        }
    }

    /// A pad after reset: a floating digital input at the weakest drive
    /// level, both data bits low.
    pub open spec fn reset() -> PadState {
        PadState {
            function: GPIO_FUNCTION,
            pull: 0,
            drive: 0,
            output_enable: false,
            input: false,
            output: false,
        }
    }
}

/// The word that packs eight function-select codes, lowest pin first.
pub open spec fn compose_codes(codes: Seq<u32>) -> u32 {
    codes[0] | (codes[1] << 4) | (codes[2] << 8) | (codes[3] << 12) | (codes[4] << 16) | (codes[5]
        << 20) | (codes[6] << 24) | (codes[7] << 28)
}

/// The configuration registers of the pin-control unit.
#[derive(Clone, Debug, PartialEq, Eq)]
pub struct RegisterBlock {
    function_select: [u32; 4],
    pull: [u32; 2],
    drive: [u32; 2],
    output_enable: [u32; 1],
    input_value: [u32; 1],
    output_value: [u32; 1],
}

/// Between two states of the block, the pad `pin` came to hold `state` and
/// every other pad kept all of its fields.
pub open spec fn only_pad_changed(
    before: RegisterBlock,
    after: RegisterBlock,
    pin: int,
    state: PadState,
) -> bool {
    &&& after.pad(pin) == state
    &&& forall|other: int|
        0 <= other < PIN_COUNT && other != pin ==> #[trigger] after.pad(other) == before.pad(other)
}

/// A one-bit field holds zero or one.
proof fn lemma_flag_is_bit(words: Seq<u32>, pin: int)
    ensures
        packed_field(words, FLAG_WIDTH, pin) == 0 || packed_field(words, FLAG_WIDTH, pin) == 1,
{
    let word = words[pin / 32];
    let shift = shift_of(FLAG_WIDTH, pin);
    assert((word >> shift) & 1 == 0 || (word >> shift) & 1 == 1) by (bit_vector);
}

/// The pads determine the block: two blocks that agree on every field of
/// every pad hold the same register words, bit for bit.
pub proof fn lemma_pads_determine_block(a: RegisterBlock, b: RegisterBlock)
    requires
        forall|pin: int| 0 <= pin < PIN_COUNT ==> #[trigger] a.pad(pin) == b.pad(pin),
    ensures
        a == b,
{
    assert forall|pin: int| 0 <= pin < PIN_COUNT implies {
        &&& packed_field(a.function_select@, FUNCTION_WIDTH, pin) == packed_field(
            b.function_select@,
            FUNCTION_WIDTH,
            pin,
        )
        &&& packed_field(a.pull@, PULL_WIDTH, pin) == packed_field(b.pull@, PULL_WIDTH, pin)
        &&& packed_field(a.drive@, DRIVE_WIDTH, pin) == packed_field(b.drive@, DRIVE_WIDTH, pin)
        &&& packed_field(a.output_enable@, FLAG_WIDTH, pin) == packed_field(
            b.output_enable@,
            FLAG_WIDTH,
            pin,
        )
        &&& packed_field(a.input_value@, FLAG_WIDTH, pin) == packed_field(
            b.input_value@,
            FLAG_WIDTH,
            pin,
        )
        &&& packed_field(a.output_value@, FLAG_WIDTH, pin) == packed_field(
            b.output_value@,
            FLAG_WIDTH,
            pin,
        )
    } by {
        assert(a.pad(pin) == b.pad(pin));
        lemma_flag_is_bit(a.output_enable@, pin);
        lemma_flag_is_bit(b.output_enable@, pin);
        lemma_flag_is_bit(a.input_value@, pin);
        lemma_flag_is_bit(b.input_value@, pin);
        lemma_flag_is_bit(a.output_value@, pin);
        lemma_flag_is_bit(b.output_value@, pin);
    }
    assert forall|index: int| 0 <= index < 4 implies a.function_select@[index]
        == b.function_select@[index] by {
        lemma_fields_determine_word(a.function_select@, b.function_select@, FUNCTION_WIDTH, index);
    }
    assert forall|index: int| 0 <= index < 2 implies a.pull@[index] == b.pull@[index] by {
        lemma_fields_determine_word(a.pull@, b.pull@, PULL_WIDTH, index);
    }
    assert forall|index: int| 0 <= index < 2 implies a.drive@[index] == b.drive@[index] by {
        lemma_fields_determine_word(a.drive@, b.drive@, DRIVE_WIDTH, index);
    }
    lemma_fields_determine_word(a.output_enable@, b.output_enable@, FLAG_WIDTH, 0);
    lemma_fields_determine_word(a.input_value@, b.input_value@, FLAG_WIDTH, 0);
    lemma_fields_determine_word(a.output_value@, b.output_value@, FLAG_WIDTH, 0);
    assert(a.function_select@ =~= b.function_select@);
    assert(a.pull@ =~= b.pull@);
    assert(a.drive@ =~= b.drive@);
    assert(a.output_enable@ =~= b.output_enable@);
    assert(a.input_value@ =~= b.input_value@);
    assert(a.output_value@ =~= b.output_value@);
    assert(a.function_select =~= b.function_select);
    assert(a.pull =~= b.pull);
    assert(a.drive =~= b.drive);
    assert(a.output_enable =~= b.output_enable);
    assert(a.input_value =~= b.input_value);
    assert(a.output_value =~= b.output_value);
}

/// A write to one pad has one outcome: two blocks that both come from
/// `before` by bringing the pad `pin` to `state` are the same block.
pub proof fn lemma_change_is_determined(
    before: RegisterBlock,
    first: RegisterBlock,
    second: RegisterBlock,
    pin: int,
    state: PadState,
)
    requires
        0 <= pin < PIN_COUNT,
        only_pad_changed(before, first, pin, state),
        only_pad_changed(before, second, pin, state),
    ensures
        first == second,
{
    assert forall|other: int| 0 <= other < PIN_COUNT implies #[trigger] first.pad(other)
        == second.pad(other) by {
        if other != pin {
            assert(first.pad(other) == before.pad(other));
            assert(second.pad(other) == before.pad(other));
        }
    }
    lemma_pads_determine_block(first, second);
}

fn flag_bit(on: bool) -> (bit: u32)
    ensures
        bit == if on { 1u32 } else { 0u32 },
        bit & 1 == bit,
{
    let bit: u32 = if on { 1 } else { 0 };
    assert(bit & 1 == bit) by (bit_vector)
        requires
            bit == 0 || bit == 1,
    ;
    bit
}

impl RegisterBlock {
    /// The fields of the pad `pin`.
    pub closed spec fn pad(&self, pin: int) -> PadState {
        PadState {
            function: packed_field(self.function_select@, FUNCTION_WIDTH, pin),
            pull: packed_field(self.pull@, PULL_WIDTH, pin),
            drive: packed_field(self.drive@, DRIVE_WIDTH, pin),
            output_enable: packed_field(self.output_enable@, FLAG_WIDTH, pin) == 1,
            input: packed_field(self.input_value@, FLAG_WIDTH, pin) == 1,
            output: packed_field(self.output_value@, FLAG_WIDTH, pin) == 1,
        }
    }

    /// The function-select register word of the given index, which packs
    /// the codes of the pins `8 * index` to `8 * index + 7`.
    pub closed spec fn function_word(&self, index: int) -> u32 {
        self.function_select@[index]
    }

    /// The output-data register word.
    pub closed spec fn output_word(&self) -> u32 {
        self.output_value@[0]
    }

    /// The function-select codes of the eight pins that share the word
    /// `index`, lowest pin first.
    pub open spec fn function_codes(&self, index: int) -> Seq<u32> {
        Seq::new(8, |k: int| self.pad(8 * index + k).function)
    }

    /// The block after reset: every pad is in the reset state.
    pub fn new() -> (glb: RegisterBlock)
        ensures
            forall|pin: int| 0 <= pin < PIN_COUNT ==> #[trigger] glb.pad(pin) == PadState::reset(),
    {
        let glb = RegisterBlock {
            function_select: [0xbbbb_bbbb, 0xbbbb_bbbb, 0xbbbb_bbbb, 0xbbbb_bbbb],
            pull: [0, 0],
            drive: [0, 0],
            output_enable: [0],
            input_value: [0],
            output_value: [0],
        };
        proof {
            assert forall|pin: int| 0 <= pin < PIN_COUNT implies #[trigger] glb.pad(pin)
                == PadState::reset() by {
                let s4 = shift_of(FUNCTION_WIDTH, pin);
                let s2 = shift_of(PULL_WIDTH, pin);
                let s1 = shift_of(FLAG_WIDTH, pin);
                assert((0xbbbb_bbbbu32 >> s4) & 0xf == 11) by (bit_vector)
                    requires
                        s4 % 4 == 0,
                        s4 <= 28,
                ;
                assert((0u32 >> s2) & 0x3 == 0) by (bit_vector);
                assert((0u32 >> s1) & 0x1 == 0) by (bit_vector);
            }
        }
        glb
    }

    /// Reads a whole function-select register word.
    pub fn function_select_word(&self, index: usize) -> (word: u32)
        requires
            index < 4,
        ensures
            word == self.function_word(index as int),
    {
        self.function_select[index]
    }

    /// Reads the whole output-data register word.
    pub fn output_value_word(&self) -> (word: u32)
        ensures
            word == self.output_word(),
    {
        self.output_value[0]
    }

    /// A function-select register word is the bitwise composition of the
    /// codes of its eight pins, in whatever order they were written.
    pub proof fn lemma_function_word_composed(&self, index: int)
        requires
            0 <= index < 4,
        ensures
            self.function_word(index) == compose_codes(self.function_codes(index)),
    {
        let w = self.function_select@[index];
        let codes = self.function_codes(index);
        assert(codes[0] == (w >> 0) & 0xf);
        assert(codes[1] == (w >> 4) & 0xf);
        assert(codes[2] == (w >> 8) & 0xf);
        assert(codes[3] == (w >> 12) & 0xf);
        assert(codes[4] == (w >> 16) & 0xf);
        assert(codes[5] == (w >> 20) & 0xf);
        assert(codes[6] == (w >> 24) & 0xf);
        assert(codes[7] == (w >> 28) & 0xf);
        assert(w == ((w >> 0) & 0xf) | (((w >> 4) & 0xf) << 4) | (((w >> 8) & 0xf) << 8) | (((w
            >> 12) & 0xf) << 12) | (((w >> 16) & 0xf) << 16) | (((w >> 20) & 0xf) << 20) | (((w
            >> 24) & 0xf) << 24) | (((w >> 28) & 0xf) << 28)) by (bit_vector);
    }

    /// Reads the function-select code of a pad.
    pub fn function(&self, pin: usize) -> (code: u32)
        requires
            pin < PIN_COUNT,
        ensures
            code == self.pad(pin as int).function,
            code <= 0xf,
    {
        read_packed(&self.function_select, FUNCTION_WIDTH, pin)
    }

    /// Writes the function-select code of a pad, truncated to four bits.
    pub fn set_function(&mut self, pin: usize, code: u32)
        requires
            pin < PIN_COUNT,
        ensures
            only_pad_changed(
                *old(self),
                *final(self),
                pin as int,
                (PadState { function: code & 0xf, ..old(self).pad(pin as int) }),
            ),
    {
        write_packed(&mut self.function_select, FUNCTION_WIDTH, pin, code);
    }

    /// Reads the pull field of a pad.
    pub fn pull_bits(&self, pin: usize) -> (bits: u32)
        requires
            pin < PIN_COUNT,
        ensures
            bits == self.pad(pin as int).pull,
            bits <= 3,
    {
        read_packed(&self.pull, PULL_WIDTH, pin)
    }

    /// Writes the pull field of a pad.
    pub fn set_pull(&mut self, pin: usize, pull: Pull)
        requires
            pin < PIN_COUNT,
        ensures
            only_pad_changed(
                *old(self),
                *final(self),
                pin as int,
                (PadState { pull: pull.bits(), ..old(self).pad(pin as int) }),
            ),
    {
        let bits: u32 = pull.to_bits();
        assert(bits & 0x3 == bits) by (bit_vector)
            requires
                bits <= 2,
        ;
        write_packed(&mut self.pull, PULL_WIDTH, pin, bits);
    }

    /// Reads the drive strength of a pad.
    pub fn drive(&self, pin: usize) -> (level: Drive)
        requires
            pin < PIN_COUNT,
        ensures
            level == Drive::of_bits(self.pad(pin as int).drive),
            level.bits() == self.pad(pin as int).drive,
    {
        Drive::from_bits(read_packed(&self.drive, DRIVE_WIDTH, pin))
    }

    /// Writes the drive strength of a pad.
    pub fn set_drive(&mut self, pin: usize, level: Drive)
        requires
            pin < PIN_COUNT,
        ensures
            only_pad_changed(
                *old(self),
                *final(self),
                pin as int,
                (PadState { drive: level.bits(), ..old(self).pad(pin as int) }),
            ),
            Drive::of_bits(final(self).pad(pin as int).drive) == level,
    {
        let bits: u32 = level.to_bits();
        assert(bits & 0x3 == bits) by (bit_vector)
            requires
                bits <= 3,
        ;
        write_packed(&mut self.drive, DRIVE_WIDTH, pin, bits);
    }

    /// Reads the output-enable bit of a pad.
    pub fn output_enable(&self, pin: usize) -> (on: bool)
        requires
            pin < PIN_COUNT,
        ensures
            on == self.pad(pin as int).output_enable,
    {
        read_packed(&self.output_enable, FLAG_WIDTH, pin) == 1
    }

    /// Writes the output-enable bit of a pad.
    pub fn set_output_enable(&mut self, pin: usize, on: bool)
        requires
            pin < PIN_COUNT,
        ensures
            only_pad_changed(
                *old(self),
                *final(self),
                pin as int,
                (PadState { output_enable: on, ..old(self).pad(pin as int) }),
            ),
    {
        write_packed(&mut self.output_enable, FLAG_WIDTH, pin, flag_bit(on));
    }

    /// Reads the input-data bit of a pad.
    pub fn input_data(&self, pin: usize) -> (high: bool)
        requires
            pin < PIN_COUNT,
        ensures
            high == self.pad(pin as int).input,
    {
        read_packed(&self.input_value, FLAG_WIDTH, pin) == 1
    }

    /// Latches a level into the input-data bit of a pad, as the pad's input
    /// buffer does.
    pub fn set_input_data(&mut self, pin: usize, high: bool)
        requires
            pin < PIN_COUNT,
        ensures
            only_pad_changed(
                *old(self),
                *final(self),
                pin as int,
                (PadState { input: high, ..old(self).pad(pin as int) }),
            ),
    {
        write_packed(&mut self.input_value, FLAG_WIDTH, pin, flag_bit(high));
    }

    /// Reads the output-data bit of a pad.
    pub fn output_data(&self, pin: usize) -> (high: bool)
        requires
            pin < PIN_COUNT,
        ensures
            high == self.pad(pin as int).output,
    {
        read_packed(&self.output_value, FLAG_WIDTH, pin) == 1
    }

    /// Puts a pad into digital input mode. The output driver is disabled
    /// first and the function select is written last, so that the pad is
    /// never driven by a stale configuration.
    pub fn enter_input(&mut self, pin: usize, pull: Pull)
        requires
            pin < PIN_COUNT,
        ensures
            only_pad_changed(
                *old(self),
                *final(self),
                pin as int,
                old(self).pad(pin as int).entered(Mode::Input(pull), pull),
            ),
    {
        self.set_output_enable(pin, false);
        self.set_pull(pin, pull);
        assert(GPIO_FUNCTION & 0xf == GPIO_FUNCTION) by (bit_vector);
        self.set_function(pin, GPIO_FUNCTION);
    }

    /// Puts a pad into digital output mode. Pull and output enable are set
    /// before the function select, which is written last.
    pub fn enter_output(&mut self, pin: usize, pull: Pull)
        requires
            pin < PIN_COUNT,
        ensures
            only_pad_changed(
                *old(self),
                *final(self),
                pin as int,
                old(self).pad(pin as int).entered(Mode::Output(pull), pull),
            ),
    {
        self.set_pull(pin, pull);
        self.set_output_enable(pin, true);
        assert(GPIO_FUNCTION & 0xf == GPIO_FUNCTION) by (bit_vector);
        self.set_function(pin, GPIO_FUNCTION);
    }

    /// Wires a pad to a peripheral signal. The function select is written
    /// first; the pad's own output driver is then disabled, since the
    /// peripheral drives its own enable, and the pull is set.
    pub fn enter_alternate(&mut self, pin: usize, function: Function, pull: Pull)
        requires
            pin < PIN_COUNT,
        ensures
            only_pad_changed(
                *old(self),
                *final(self),
                pin as int,
                old(self).pad(pin as int).entered(Mode::Alternate(function), pull),
            ),
    {
        let code: u32 = function.to_code();
        assert(code & 0xf == code) by (bit_vector)
            requires
                code <= 14,
        ;
        self.set_function(pin, code);
        self.set_output_enable(pin, false);
        self.set_pull(pin, pull);
    }

    /// Writes the output-data bit of a pad.
    pub fn set_output_data(&mut self, pin: usize, high: bool)
        requires
            pin < PIN_COUNT,
        ensures
            only_pad_changed(
                *old(self),
                *final(self),
                pin as int,
                (PadState { output: high, ..old(self).pad(pin as int) }),
            ),
    {
        write_packed(&mut self.output_value, FLAG_WIDTH, pin, flag_bit(high));
    }
}

} // verus!
