use bouffalo_hal::glb::{Function, Pull, RegisterBlock, PIN_COUNT};
use bouffalo_hal::gpio::legacy;
use bouffalo_hal::gpio::output::Output;
use bouffalo_hal::gpio::pad::Inner;
use bouffalo_hal::gpio::typestate::PullUp;

fn mixed_block() -> RegisterBlock {
    let mut glb = RegisterBlock::new();
    for pin in 0..PIN_COUNT {
        if pin % 2 == 0 {
            glb.enter_output(pin, Pull::Floating);
        } else {
            glb.enter_alternate(pin, Function::Pwm(1), Pull::Down);
        }
        glb.set_output_data(pin, pin % 3 == 1);
    }
    glb
}

#[test]
fn legacy_set_high_writes_what_the_primary_writes() {
    let mut primary_block = mixed_block();
    let mut legacy_block = mixed_block();
    let mut primary: Output<10, PullUp> = Output::from(Inner::new());
    let mut superseded: Output<10, PullUp> = Output::from(Inner::new());
    assert_eq!(primary.set_high(&mut primary_block), Ok(()));
    assert_eq!(legacy::OutputPin::set_high(&mut superseded, &mut legacy_block), Ok(()));
    assert!(legacy_block.output_data(10));
    assert_eq!(legacy_block, primary_block);
    assert_eq!(legacy_block.output_value_word(), primary_block.output_value_word());
}

#[test]
fn legacy_set_low_writes_what_the_primary_writes() {
    let mut primary_block = mixed_block();
    let mut legacy_block = mixed_block();
    let mut primary: Output<13, PullUp> = Output::from(Inner::new());
    let mut superseded: Output<13, PullUp> = Output::from(Inner::new());
    assert!(primary_block.output_data(13));
    assert_eq!(primary.set_low(&mut primary_block), Ok(()));
    assert_eq!(legacy::OutputPin::set_low(&mut superseded, &mut legacy_block), Ok(()));
    assert!(!legacy_block.output_data(13));
    assert_eq!(legacy_block, primary_block);
}

#[test]
fn legacy_and_primary_interleave() {
    let mut glb = RegisterBlock::new();
    let mut pad: Output<0, PullUp> = Output::from(Inner::new());
    assert!(legacy::OutputPin::set_high(&mut pad, &mut glb).is_ok());
    assert_eq!(glb.output_value_word(), 1);
    assert!(pad.set_low(&mut glb).is_ok());
    assert_eq!(glb.output_value_word(), 0);
    assert!(pad.set_high(&mut glb).is_ok());
    assert!(legacy::OutputPin::set_low(&mut pad, &mut glb).is_ok());
    assert_eq!(glb.output_value_word(), 0);
}
