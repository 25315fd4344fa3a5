use bouffalo_hal::glb::{Drive, Function, Pull, RegisterBlock, GPIO_FUNCTION, PIN_COUNT};
use bouffalo_hal::gpio::alternate::Alternate;
use bouffalo_hal::gpio::convert::{IntoPad, IntoPadv2};
use bouffalo_hal::gpio::input::Input;
use bouffalo_hal::gpio::output::Output;
use bouffalo_hal::gpio::pad::Inner;
use bouffalo_hal::gpio::typestate::{self, Floating, PullDown, PullUp};

fn input<const N: usize>() -> Input<N, Floating> {
    Input::from(Inner::new())
}

/// The mode fields of a pad: function select, pull, output enable.
fn mode_fields(glb: &RegisterBlock, pin: usize) -> (u32, u32, bool) {
    (glb.function(pin), glb.pull_bits(pin), glb.output_enable(pin))
}

/// Every field of every pad but `pin`.
fn others(glb: &RegisterBlock, pin: usize) -> Vec<(u32, u32, bool, Drive, bool, bool)> {
    (0..PIN_COUNT)
        .filter(|&q| q != pin)
        .map(|q| {
            (
                glb.function(q),
                glb.pull_bits(q),
                glb.output_enable(q),
                glb.drive(q),
                glb.input_data(q),
                glb.output_data(q),
            )
        })
        .collect()
}

/// A block in which neighbouring pads hold a mix of configurations.
fn busy_block() -> RegisterBlock {
    let mut glb = RegisterBlock::new();
    for pin in 0..PIN_COUNT {
        match pin % 4 {
            0 => glb.enter_output(pin, Pull::Up),
            1 => glb.enter_alternate(pin, Function::Uart, Pull::Up),
            2 => glb.enter_input(pin, Pull::Down),
            _ => glb.enter_alternate(pin, Function::JtagD0, Pull::Floating),
        }
        glb.set_drive(pin, if pin % 2 == 0 { Drive::Drive3 } else { Drive::Drive1 });
        glb.set_output_data(pin, pin % 3 == 0);
        glb.set_input_data(pin, pin % 5 == 0);
    }
    glb
}

#[test]
fn reset_block_is_all_floating_inputs() {
    let glb = RegisterBlock::new();
    for pin in 0..PIN_COUNT {
        assert_eq!(mode_fields(&glb, pin), (GPIO_FUNCTION, 0, false));
        assert_eq!(glb.drive(pin), Drive::Drive0);
        assert!(!glb.input_data(pin));
        assert!(!glb.output_data(pin));
    }
    for index in 0..4 {
        assert_eq!(glb.function_select_word(index), 0xbbbb_bbbb);
    }
    assert_eq!(glb.output_value_word(), 0);
}

#[test]
fn function_codes_of_the_modes() {
    assert_eq!(GPIO_FUNCTION, 11);
    assert_eq!(Function::Sdh.to_code(), 0);
    assert_eq!(Function::Spi(0).to_code(), 1);
    assert_eq!(Function::Spi(1).to_code(), 2);
    assert_eq!(Function::I2c(0).to_code(), 3);
    assert_eq!(Function::I2c(1).to_code(), 4);
    assert_eq!(Function::I2c(2).to_code(), 5);
    assert_eq!(Function::I2c(3).to_code(), 6);
    assert_eq!(Function::Uart.to_code(), 7);
    assert_eq!(Function::MmUart.to_code(), 8);
    assert_eq!(Function::Pwm(0).to_code(), 9);
    assert_eq!(Function::Pwm(1).to_code(), 10);
    assert_eq!(Function::JtagLp.to_code(), 12);
    assert_eq!(Function::JtagM0.to_code(), 13);
    assert_eq!(Function::JtagD0.to_code(), 14);
}

#[test]
fn field_encodings() {
    assert_eq!(Pull::Floating.to_bits(), 0);
    assert_eq!(Pull::Up.to_bits(), 1);
    assert_eq!(Pull::Down.to_bits(), 2);
    assert_eq!(Drive::Drive0.to_bits(), 0);
    assert_eq!(Drive::Drive1.to_bits(), 1);
    assert_eq!(Drive::Drive2.to_bits(), 2);
    assert_eq!(Drive::Drive3.to_bits(), 3);
    for bits in 0..4 {
        assert_eq!(Drive::from_bits(bits).to_bits(), bits);
    }
}

#[test]
fn digital_transitions_from_input() {
    let mut glb = busy_block();
    let before = others(&glb, 9);
    let pad = input::<9>();
    let pad: Output<9, PullUp> = pad.into_pull_up_output(&mut glb);
    assert_eq!(mode_fields(&glb, 9), (11, 1, true));
    let pad: Output<9, PullDown> = pad.into_pull_down_output(&mut glb);
    assert_eq!(mode_fields(&glb, 9), (11, 2, true));
    let pad: Output<9, Floating> = pad.into_floating_output(&mut glb);
    assert_eq!(mode_fields(&glb, 9), (11, 0, true));
    let pad: Input<9, PullUp> = pad.into_pull_up_input(&mut glb);
    assert_eq!(mode_fields(&glb, 9), (11, 1, false));
    let pad: Input<9, PullDown> = pad.into_pull_down_input(&mut glb);
    assert_eq!(mode_fields(&glb, 9), (11, 2, false));
    let _pad: Input<9, Floating> = pad.into_floating_input(&mut glb);
    assert_eq!(mode_fields(&glb, 9), (11, 0, false));
    assert_eq!(others(&glb, 9), before);
}

#[test]
fn alternate_transitions_from_output() {
    let mut glb = busy_block();
    let before = others(&glb, 12);
    let pad: Output<12, Floating> = Output::from(Inner::new());
    let pad: Alternate<12, typestate::Spi<0>> = pad.into_spi::<0>(&mut glb);
    assert_eq!(mode_fields(&glb, 12), (1, 0, false));
    let pad: Alternate<12, typestate::Spi<1>> = pad.into_spi::<1>(&mut glb);
    assert_eq!(mode_fields(&glb, 12), (2, 0, false));
    let pad: Alternate<12, typestate::Sdh> = pad.into_sdh(&mut glb);
    assert_eq!(mode_fields(&glb, 12), (0, 0, false));
    let pad: Alternate<12, typestate::Uart> = pad.into_uart(&mut glb);
    assert_eq!(mode_fields(&glb, 12), (7, 1, false));
    let pad: Alternate<12, typestate::MmUart> = pad.into_mm_uart(&mut glb);
    assert_eq!(mode_fields(&glb, 12), (8, 1, false));
    let pad: Alternate<12, typestate::Pwm<0>> = pad.into_pull_up_pwm::<0>(&mut glb);
    assert_eq!(mode_fields(&glb, 12), (9, 1, false));
    let pad: Alternate<12, typestate::Pwm<1>> = pad.into_pull_down_pwm::<1>(&mut glb);
    assert_eq!(mode_fields(&glb, 12), (10, 2, false));
    let pad: Alternate<12, typestate::Pwm<0>> = pad.into_floating_pwm::<0>(&mut glb);
    assert_eq!(mode_fields(&glb, 12), (9, 0, false));
    let pad: Alternate<12, typestate::I2c<0>> = pad.into_i2c::<0>(&mut glb);
    assert_eq!(mode_fields(&glb, 12), (3, 1, false));
    let pad: Alternate<12, typestate::I2c<3>> = pad.into_i2c::<3>(&mut glb);
    assert_eq!(mode_fields(&glb, 12), (6, 1, false));
    let pad: Alternate<12, typestate::JtagD0> = pad.into_jtag_d0(&mut glb);
    assert_eq!(mode_fields(&glb, 12), (14, 0, false));
    let pad: Alternate<12, typestate::JtagM0> = pad.into_jtag_m0(&mut glb);
    assert_eq!(mode_fields(&glb, 12), (13, 0, false));
    let pad: Alternate<12, typestate::JtagLp> = pad.into_jtag_lp(&mut glb);
    assert_eq!(mode_fields(&glb, 12), (12, 0, false));
    let _pad: Output<12, PullUp> = pad.into_pull_up_output(&mut glb);
    assert_eq!(mode_fields(&glb, 12), (11, 1, true));
    assert_eq!(others(&glb, 12), before);
}

#[test]
fn transition_leaves_shared_words_untouched_elsewhere() {
    let mut glb = RegisterBlock::new();
    let pad = input::<3>();
    let _pad = pad.into_spi::<1>(&mut glb);
    assert_eq!(glb.function_select_word(0), 0xbbbb_2bbb);
    assert_eq!(glb.function_select_word(1), 0xbbbb_bbbb);
    assert_eq!(glb.function_select_word(2), 0xbbbb_bbbb);
    assert_eq!(glb.function_select_word(3), 0xbbbb_bbbb);
    let pad = input::<31>();
    let _pad = pad.into_sdh(&mut glb);
    assert_eq!(glb.function_select_word(0), 0xbbbb_2bbb);
    assert_eq!(glb.function_select_word(3), 0x0bbb_bbbb);
}

#[test]
fn transition_keeps_drive_and_data_of_the_pad() {
    let mut glb = busy_block();
    let drive = glb.drive(6);
    let level = glb.output_data(6);
    let latched = glb.input_data(6);
    let pad = input::<6>();
    let pad = pad.into_uart(&mut glb);
    let _pad = pad.into_floating_output(&mut glb);
    assert_eq!(glb.drive(6), drive);
    assert_eq!(glb.output_data(6), level);
    assert_eq!(glb.input_data(6), latched);
}

#[test]
fn round_trip_restores_mode_fields() {
    let mut glb = busy_block();
    let pad = input::<5>();
    let pad = pad.into_floating_input(&mut glb);
    let start = glb.clone();
    let fields = mode_fields(&glb, 5);
    let pad = pad.into_floating_output(&mut glb);
    assert_ne!(mode_fields(&glb, 5), fields);
    let _pad = pad.into_floating_input(&mut glb);
    assert_eq!(mode_fields(&glb, 5), fields);
    assert_eq!(glb, start);
}

#[test]
fn drive_strength_reads_back_in_every_mode() {
    let levels = [Drive::Drive0, Drive::Drive1, Drive::Drive2, Drive::Drive3];
    let mut glb = busy_block();
    let mut pad = input::<17>();
    for level in levels {
        let before = others(&glb, 17);
        let fields = mode_fields(&glb, 17);
        pad.set_drive(&mut glb, level);
        assert_eq!(pad.drive(&glb), level);
        assert_eq!(mode_fields(&glb, 17), fields);
        assert_eq!(others(&glb, 17), before);
    }
    let mut pad = pad.into_pull_down_output(&mut glb);
    for level in levels {
        pad.set_drive(&mut glb, level);
        assert_eq!(pad.drive(&glb), level);
    }
    let mut pad = pad.into_i2c::<2>(&mut glb);
    for level in levels {
        pad.set_drive(&mut glb, level);
        assert_eq!(pad.drive(&glb), level);
        assert_eq!(mode_fields(&glb, 17), (5, 1, false));
    }
}

#[test]
fn drive_strength_for_every_pin() {
    let mut glb = RegisterBlock::new();
    for pin in 0..PIN_COUNT {
        glb.set_drive(pin, Drive::from_bits((pin % 4) as u32));
    }
    for pin in 0..PIN_COUNT {
        assert_eq!(glb.drive(pin).to_bits(), (pin % 4) as u32);
    }
}

#[test]
fn set_high_and_set_low_touch_one_bit() {
    let mut glb = RegisterBlock::new();
    let pad = input::<4>();
    let mut pad = pad.into_floating_output(&mut glb);
    assert_eq!(pad.set_high(&mut glb), Ok(()));
    assert!(glb.output_data(4));
    assert_eq!(glb.output_value_word(), 0x0000_0010);
    let other = input::<31>();
    let mut other = other.into_pull_up_output(&mut glb);
    assert_eq!(other.set_high(&mut glb), Ok(()));
    assert_eq!(glb.output_value_word(), 0x8000_0010);
    assert_eq!(pad.set_low(&mut glb), Ok(()));
    assert!(!glb.output_data(4));
    assert!(glb.output_data(31));
    assert_eq!(glb.output_value_word(), 0x8000_0000);
    assert_eq!(pad.set_low(&mut glb), Ok(()));
    assert_eq!(glb.output_value_word(), 0x8000_0000);
}

#[test]
fn set_high_leaves_other_pads_alone() {
    let mut glb = busy_block();
    let before = others(&glb, 8);
    let mut pad: Output<8, PullUp> = Output::from(Inner::new());
    assert!(pad.set_high(&mut glb).is_ok());
    assert!(glb.output_data(8));
    assert_eq!(others(&glb, 8), before);
    assert!(pad.set_low(&mut glb).is_ok());
    assert!(!glb.output_data(8));
    assert_eq!(others(&glb, 8), before);
}

#[test]
fn input_reads_the_latched_level() {
    let mut glb = RegisterBlock::new();
    let pad = input::<20>();
    let pad = pad.into_pull_up_input(&mut glb);
    assert_eq!(pad.is_high(&glb), Ok(false));
    assert_eq!(pad.is_low(&glb), Ok(true));
    glb.set_input_data(20, true);
    assert_eq!(pad.is_high(&glb), Ok(true));
    assert_eq!(pad.is_low(&glb), Ok(false));
    glb.set_input_data(21, true);
    glb.set_input_data(20, false);
    assert_eq!(pad.is_high(&glb), Ok(false));
    assert!(glb.input_data(21));
}

fn write_code(glb: &mut RegisterBlock, pin: usize) {
    match pin {
        0 => glb.enter_alternate(0, Function::Sdh, Pull::Floating),
        1 => glb.enter_alternate(1, Function::Spi(0), Pull::Floating),
        2 => glb.enter_alternate(2, Function::Spi(1), Pull::Floating),
        3 => glb.enter_alternate(3, Function::I2c(0), Pull::Up),
        4 => glb.enter_alternate(4, Function::Uart, Pull::Up),
        5 => glb.enter_alternate(5, Function::Pwm(0), Pull::Down),
        6 => glb.enter_output(6, Pull::Floating),
        _ => glb.enter_alternate(7, Function::JtagD0, Pull::Floating),
    }
}

#[test]
fn eight_pads_of_one_word_in_any_order() {
    let orders: [[usize; 8]; 4] = [
        [0, 1, 2, 3, 4, 5, 6, 7],
        [7, 6, 5, 4, 3, 2, 1, 0],
        [3, 0, 7, 4, 1, 6, 2, 5],
        [6, 2, 5, 0, 7, 3, 1, 4],
    ];
    for order in orders {
        let mut glb = busy_block();
        for pin in order {
            write_code(&mut glb, pin);
        }
        assert_eq!(glb.function_select_word(0), 0xeb97_3210);
    }
}

#[test]
fn raw_function_write_is_truncated_to_the_field() {
    let mut glb = RegisterBlock::new();
    glb.set_function(2, 0x1_23);
    assert_eq!(glb.function(2), 0x3);
    assert_eq!(glb.function_select_word(0), 0xbbbb_b3bb);
}

#[test]
fn raw_field_writes() {
    let mut glb = RegisterBlock::new();
    glb.set_pull(16, Pull::Down);
    assert_eq!(glb.pull_bits(16), 2);
    assert_eq!(glb.pull_bits(15), 0);
    assert_eq!(glb.pull_bits(17), 0);
    glb.set_output_enable(0, true);
    assert!(glb.output_enable(0));
    assert!(!glb.output_enable(1));
    glb.set_output_enable(0, false);
    assert!(!glb.output_enable(0));
}
