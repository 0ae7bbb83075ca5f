use port_expander::bus::{read_reg, update_reg, write_reg};
use port_expander::common::{acted, run, settled, Command, Direction, PortDriver};
use port_expander::dev::pca9555::{Driver, Pca9555, Regs, ADDRESS};
use port_expander::mock::{Mock, MockError, Step};

#[test]
fn pca9555() {
    let expectations = vec![
        // pin setup io0_0
        Step::read(ADDRESS, 0x06, 0xff),
        Step::write(ADDRESS, 0x06, 0xfe),
        // pin setup io0_7
        Step::read(ADDRESS, 0x06, 0xfe),
        Step::write(ADDRESS, 0x06, 0x7e),
        Step::read(ADDRESS, 0x06, 0x7e),
        Step::write(ADDRESS, 0x06, 0xfe),
        // pin setup io1_0
        Step::read(ADDRESS, 0x07, 0xff),
        Step::write(ADDRESS, 0x07, 0xfe),
        // pin setup io1_7
        Step::read(ADDRESS, 0x07, 0xfe),
        Step::write(ADDRESS, 0x07, 0x7e),
        Step::read(ADDRESS, 0x07, 0x7e),
        Step::write(ADDRESS, 0x07, 0xfe),
        // output io0_0, io1_0
        Step::write(ADDRESS, 0x02, 0xff),
        Step::write(ADDRESS, 0x02, 0xfe),
        Step::write(ADDRESS, 0x03, 0xff),
        Step::write(ADDRESS, 0x03, 0xfe),
        // input io0_7, io1_7
        Step::read(ADDRESS, 0x00, 0x80),
        Step::read(ADDRESS, 0x00, 0x7f),
        Step::read(ADDRESS, 0x01, 0x80),
        Step::read(ADDRESS, 0x01, 0x7f),
    ];
    let bus = Mock::new(expectations);

    let mut pca = Pca9555::new(bus);
    let pca_pins = pca.split();

    let io0_0 = pca_pins.io0_0.into_output().unwrap();
    let io0_7 = pca_pins.io0_7.into_output().unwrap();
    let io0_7 = io0_7.into_input().unwrap();

    let io1_0 = pca_pins.io1_0.into_output().unwrap();
    let io1_7 = pca_pins.io1_7.into_output().unwrap();
    let io1_7 = io1_7.into_input().unwrap();

    // output high and low
    io0_0.set_high().unwrap();
    io0_0.set_low().unwrap();
    io1_0.set_high().unwrap();
    io1_0.set_low().unwrap();

    // input high and low
    assert!(io0_7.is_high().unwrap());
    assert!(io0_7.is_low().unwrap());
    assert!(io1_7.is_high().unwrap());
    assert!(io1_7.is_low().unwrap());

}

#[test]
fn register_addresses() {
    assert_eq!(ADDRESS, 0x41);
    assert_eq!(Regs::InputPort0.addr(), 0x00);
    assert_eq!(Regs::InputPort1.addr(), 0x01);
    assert_eq!(Regs::OutputPort0.addr(), 0x02);
    assert_eq!(Regs::OutputPort1.addr(), 0x03);
    assert_eq!(Regs::PolarityInversion0.addr(), 0x04);
    assert_eq!(Regs::PolarityInversion1.addr(), 0x05);
    assert_eq!(Regs::Configuration0.addr(), 0x06);
    assert_eq!(Regs::Configuration1.addr(), 0x07);
}

#[test]
fn write_reg_is_one_write() {
    let mut bus = Mock::new(vec![Step::write(0x20, 0x02, 0xa5)]);
    assert_eq!(write_reg(&mut bus, 0x20, 0x02, 0xa5), Ok(()));
    assert!(bus.done());
}

#[test]
fn read_reg_returns_the_byte_read() {
    let mut bus = Mock::new(vec![Step::read(0x20, 0x01, 0x5a)]);
    assert_eq!(read_reg(&mut bus, 0x20, 0x01), Ok(0x5a));
    assert!(bus.done());
}

#[test]
fn update_reg_clears_then_sets() {
    let mut bus = Mock::new(vec![
        Step::read(ADDRESS, 0x06, 0x0f),
        Step::write(ADDRESS, 0x06, 0x3c),
    ]);
    assert_eq!(update_reg(&mut bus, ADDRESS, 0x06, 0x30, 0x03), Ok(()));
    assert!(bus.done());
}

#[test]
fn update_reg_set_wins_over_clear() {
    let mut bus = Mock::new(vec![
        Step::read(ADDRESS, 0x06, 0x00),
        Step::write(ADDRESS, 0x06, 0x01),
    ]);
    assert_eq!(update_reg(&mut bus, ADDRESS, 0x06, 0x01, 0x01), Ok(()));
    assert!(bus.done());
}

#[test]
fn update_reg_stops_after_failed_read() {
    let mut bus = Mock::new(vec![Step::read(ADDRESS, 0x06, 0).failing(7)]);
    assert_eq!(update_reg(&mut bus, ADDRESS, 0x06, 0x01, 0x00), Err(MockError::Scripted(7)));
    assert!(bus.done());
}

#[test]
fn update_reg_returns_the_error_of_the_write() {
    let mut bus = Mock::new(vec![
        Step::read(ADDRESS, 0x06, 0xff),
        Step::write(ADDRESS, 0x06, 0xfe).failing(9),
    ]);
    assert_eq!(update_reg(&mut bus, ADDRESS, 0x06, 0x00, 0x01), Err(MockError::Scripted(9)));
    assert!(bus.done());
}

#[test]
fn single_line_of_bank0_writes_bank0_only() {
    for line in 0..8u32 {
        let mask = 1u32 << line;
        let low = 0xffu8 & !(1u8 << line);
        let bus = Mock::new(vec![
            Step::write(ADDRESS, 0x02, 0xff),
            Step::write(ADDRESS, 0x02, low),
        ]);
        let mut driver = Driver::new(bus);
        assert_eq!(driver.set_high(mask), Ok(()));
        assert_eq!(driver.set_low(mask), Ok(()));
        assert!(driver.release().done());
    }
}

#[test]
fn single_line_of_bank1_writes_bank1_only() {
    for line in 8..16u32 {
        let mask = 1u32 << line;
        let low = 0xffu8 & !(1u8 << (line - 8));
        let bus = Mock::new(vec![
            Step::write(ADDRESS, 0x03, 0xff),
            Step::write(ADDRESS, 0x03, low),
        ]);
        let mut driver = Driver::new(bus);
        assert_eq!(driver.set_high(mask), Ok(()));
        assert_eq!(driver.set_low(mask), Ok(()));
        assert!(driver.release().done());
    }
}

#[test]
fn mask_over_both_banks_writes_each_bank_once() {
    let bus = Mock::new(vec![
        Step::write(ADDRESS, 0x02, 0xfa),
        Step::write(ADDRESS, 0x03, 0x5f),
        Step::write(ADDRESS, 0x02, 0xfb),
        Step::write(ADDRESS, 0x03, 0x7f),
    ]);
    let mut driver = Driver::new(bus);
    assert_eq!(driver.set_low(0xa005), Ok(()));
    assert_eq!(driver.set_high(0x2001), Ok(()));
    assert!(driver.release().done());
}

#[test]
fn shadow_queries_send_nothing() {
    let bus = Mock::new(vec![]);
    let mut driver = Driver::new(bus);
    assert_eq!(driver.is_set_high(0xffff), Ok(true));
    assert_eq!(driver.is_set_low(0xffff), Ok(false));
    assert_eq!(driver.is_set_high(0x0001), Ok(true));
    assert_eq!(driver.is_set_low(0x8000), Ok(false));
    assert!(driver.release().done());
}

#[test]
fn shadow_queries_test_for_any_selected_line() {
    let bus = Mock::new(vec![Step::write(ADDRESS, 0x02, 0xfe)]);
    let mut driver = Driver::new(bus);
    assert_eq!(driver.set_low(0x0001), Ok(()));
    assert_eq!(driver.is_set_high(0x0001), Ok(false));
    assert_eq!(driver.is_set_low(0x0001), Ok(true));
    assert_eq!(driver.is_set_high(0x0003), Ok(true));
    assert_eq!(driver.is_set_low(0x0003), Ok(false));
    assert!(driver.release().done());
}

#[test]
fn empty_mask_sends_nothing() {
    let bus = Mock::new(vec![]);
    let mut driver = Driver::new(bus);
    assert_eq!(driver.set_high(0), Ok(()));
    assert_eq!(driver.set_low(0), Ok(()));
    assert_eq!(driver.is_high(0), Ok(false));
    assert_eq!(driver.is_low(0), Ok(true));
    assert_eq!(driver.set_direction(0, Direction::Output), Ok(()));
    assert_eq!(driver.is_set_high(0), Ok(false));
    assert_eq!(driver.is_set_low(0), Ok(true));
    assert!(driver.release().done());
}

#[test]
fn bits_above_the_lines_select_nothing() {
    let bus = Mock::new(vec![]);
    let mut driver = Driver::new(bus);
    assert_eq!(driver.set_low(0xffff_0000), Ok(()));
    assert_eq!(driver.is_set_high(0xffff_0000), Ok(false));
    assert_eq!(driver.is_set_high(0xffff), Ok(true));
    assert_eq!(driver.is_set_low(0xffff), Ok(false));
    assert_eq!(driver.is_high(0x0001_0000), Ok(false));
    assert!(driver.release().done());
}

#[test]
fn is_high_reads_only_touched_banks() {
    let bus = Mock::new(vec![
        Step::read(ADDRESS, 0x00, 0x04),
        Step::read(ADDRESS, 0x01, 0x04),
        Step::read(ADDRESS, 0x00, 0x00),
        Step::read(ADDRESS, 0x01, 0x10),
        Step::read(ADDRESS, 0x00, 0xfb),
        Step::read(ADDRESS, 0x01, 0xfb),
    ]);
    let mut driver = Driver::new(bus);
    assert_eq!(driver.is_high(0x0004), Ok(true));
    assert_eq!(driver.is_high(0x0400), Ok(true));
    assert_eq!(driver.is_high(0x1001), Ok(true));
    assert_eq!(driver.is_low(0x0404), Ok(true));
    assert!(driver.release().done());
}

#[test]
fn failed_write_surfaces_and_stops_the_operation() {
    let bus = Mock::new(vec![Step::write(ADDRESS, 0x02, 0xfe).failing(3)]);
    let mut driver = Driver::new(bus);
    assert_eq!(driver.set_low(0x0101), Err(MockError::Scripted(3)));
    // the commanded levels were taken over before the write was tried
    assert_eq!(driver.is_set_low(0x0101), Ok(true));
    assert!(driver.release().done());
}

#[test]
fn failed_second_write_surfaces() {
    let bus = Mock::new(vec![
        Step::write(ADDRESS, 0x02, 0xff),
        Step::write(ADDRESS, 0x03, 0xff).failing(4),
    ]);
    let mut driver = Driver::new(bus);
    assert_eq!(driver.set_high(0x0101), Err(MockError::Scripted(4)));
    assert!(driver.release().done());
}

#[test]
fn failed_read_surfaces_from_level_queries() {
    let bus = Mock::new(vec![
        Step::read(ADDRESS, 0x00, 0).failing(5),
        Step::read(ADDRESS, 0x00, 0x01),
        Step::read(ADDRESS, 0x01, 0).failing(6),
    ]);
    let mut driver = Driver::new(bus);
    assert_eq!(driver.is_high(0x0101), Err(MockError::Scripted(5)));
    assert_eq!(driver.is_low(0x0101), Err(MockError::Scripted(6)));
    assert!(driver.release().done());
}

#[test]
fn failed_exchange_surfaces_from_set_direction() {
    let bus = Mock::new(vec![
        Step::read(ADDRESS, 0x06, 0).failing(1),
        Step::read(ADDRESS, 0x06, 0xff),
        Step::write(ADDRESS, 0x06, 0xfe).failing(2),
    ]);
    let mut driver = Driver::new(bus);
    assert_eq!(driver.set_direction(0x0101, Direction::Output), Err(MockError::Scripted(1)));
    assert_eq!(driver.set_direction(0x0101, Direction::Output), Err(MockError::Scripted(2)));
    assert!(driver.release().done());
}

#[test]
fn failed_exchange_surfaces_from_pins() {
    let bus = Mock::new(vec![
        Step::read(ADDRESS, 0x06, 0).failing(11),
        Step::read(ADDRESS, 0x06, 0xff),
        Step::write(ADDRESS, 0x06, 0xfd),
        Step::write(ADDRESS, 0x02, 0xfd).failing(12),
        Step::read(ADDRESS, 0x01, 0).failing(13),
    ]);
    let mut pca = Pca9555::new(bus);
    let pins = pca.split();
    assert_eq!(pins.io0_0.into_output().err(), Some(MockError::Scripted(11)));
    let io0_1 = pins.io0_1.into_output().unwrap();
    assert_eq!(io0_1.set_low(), Err(MockError::Scripted(12)));
    assert_eq!(io0_1.is_set_low(), Ok(true));
    assert_eq!(pins.io1_3.is_high(), Err(MockError::Scripted(13)));
}

#[test]
fn direction_round_trip_keeps_other_lines() {
    // what each read brings back is what the write before it left there
    let bus = Mock::new(vec![
        Step::read(ADDRESS, 0x06, 0xa5),
        Step::write(ADDRESS, 0x06, 0x05),
        Step::read(ADDRESS, 0x07, 0x3c),
        Step::write(ADDRESS, 0x07, 0x30),
        Step::read(ADDRESS, 0x06, 0x05),
        Step::write(ADDRESS, 0x06, 0xf5),
        Step::read(ADDRESS, 0x07, 0x30),
        Step::write(ADDRESS, 0x07, 0x3f),
    ]);
    let mut driver = Driver::new(bus);
    assert_eq!(driver.set_direction(0x0ff0, Direction::Output), Ok(()));
    assert_eq!(driver.set_direction(0x0ff0, Direction::Input), Ok(()));
    assert!(driver.release().done());
    assert_eq!(0xf5 & 0x0f, 0xa5 & 0x0f);
    assert_eq!(0x3f & 0xf0, 0x3c & 0xf0);
}

#[test]
fn pin0_and_pin15_to_output() {
    let bus = Mock::new(vec![
        Step::read(ADDRESS, 0x06, 0xff),
        Step::write(ADDRESS, 0x06, 0xfe),
        Step::read(ADDRESS, 0x07, 0xff),
        Step::write(ADDRESS, 0x07, 0x7f),
    ]);
    let mut pca = Pca9555::new(bus);
    let pins = pca.split();
    let io0_0 = pins.io0_0.into_output().unwrap();
    let io1_7 = pins.io1_7.into_output().unwrap();
    assert_eq!(io0_0.pin_mask(), 0x0001);
    assert_eq!(io1_7.pin_mask(), 0x8000);
}

#[test]
fn pin7_high_then_low() {
    let bus = Mock::new(vec![
        Step::read(ADDRESS, 0x06, 0xff),
        Step::write(ADDRESS, 0x06, 0x7f),
        Step::write(ADDRESS, 0x02, 0xff),
        Step::write(ADDRESS, 0x02, 0x7f),
    ]);
    let mut pca = Pca9555::new(bus);
    let pins = pca.split();
    let io0_7 = pins.io0_7.into_output().unwrap();
    io0_7.set_high().unwrap();
    assert_eq!(io0_7.is_set_high(), Ok(true));
    io0_7.set_low().unwrap();
    assert_eq!(io0_7.is_set_low(), Ok(true));
    assert_eq!(io0_7.is_set_high(), Ok(false));
}

#[test]
fn pin7_and_pin15_read_levels() {
    let bus = Mock::new(vec![
        Step::read(ADDRESS, 0x06, 0xff),
        Step::write(ADDRESS, 0x06, 0xff),
        Step::read(ADDRESS, 0x07, 0xff),
        Step::write(ADDRESS, 0x07, 0xff),
        Step::read(ADDRESS, 0x00, 0x80),
        Step::read(ADDRESS, 0x00, 0x80),
        Step::read(ADDRESS, 0x01, 0x80),
        Step::read(ADDRESS, 0x01, 0x80),
    ]);
    let mut pca = Pca9555::new(bus);
    let pins = pca.split();
    let io0_7 = pins.io0_7.into_input().unwrap();
    let io1_7 = pins.io1_7.into_input().unwrap();
    assert_eq!(io0_7.is_high(), Ok(true));
    assert_eq!(io0_7.is_low(), Ok(false));
    assert_eq!(io1_7.is_high(), Ok(true));
    assert_eq!(io1_7.is_low(), Ok(false));
}

#[test]
fn split_numbers_the_pins() {
    let bus = Mock::new(vec![]);
    let mut pca = Pca9555::with_mutex(bus);
    let pins = pca.split();
    assert_eq!(pins.io0_0.pin_mask(), 1 << 0);
    assert_eq!(pins.io0_1.pin_mask(), 1 << 1);
    assert_eq!(pins.io0_2.pin_mask(), 1 << 2);
    assert_eq!(pins.io0_3.pin_mask(), 1 << 3);
    assert_eq!(pins.io0_4.pin_mask(), 1 << 4);
    assert_eq!(pins.io0_5.pin_mask(), 1 << 5);
    assert_eq!(pins.io0_6.pin_mask(), 1 << 6);
    assert_eq!(pins.io0_7.pin_mask(), 1 << 7);
    assert_eq!(pins.io1_0.pin_mask(), 1 << 8);
    assert_eq!(pins.io1_1.pin_mask(), 1 << 9);
    assert_eq!(pins.io1_2.pin_mask(), 1 << 10);
    assert_eq!(pins.io1_3.pin_mask(), 1 << 11);
    assert_eq!(pins.io1_4.pin_mask(), 1 << 12);
    assert_eq!(pins.io1_5.pin_mask(), 1 << 13);
    assert_eq!(pins.io1_6.pin_mask(), 1 << 14);
    assert_eq!(pins.io1_7.pin_mask(), 1 << 15);
}

#[test]
fn unexpected_exchange_is_refused() {
    let mut bus = Mock::new(vec![Step::write(ADDRESS, 0x02, 0xff), Step::read(ADDRESS, 0x00, 1)]);
    assert_eq!(write_reg(&mut bus, ADDRESS, 0x02, 0xfe), Err(MockError::Unexpected));
    assert!(!bus.done());
    assert_eq!(write_reg(&mut bus, ADDRESS, 0x00, 1), Err(MockError::Unexpected));
    assert!(bus.done());
    assert_eq!(read_reg(&mut bus, ADDRESS, 0x00), Err(MockError::Unexpected));
}

#[test]
fn missing_exchange_is_noticed() {
    let bus = Mock::new(vec![Step::write(ADDRESS, 0x02, 0xff)]);
    let mut driver = Driver::new(bus);
    assert_eq!(driver.is_set_high(0x0001), Ok(true));
    assert!(!driver.release().done());
}

#[test]
fn run_calls_the_named_operation() {
    let bus = Mock::new(vec![
        Step::write(ADDRESS, 0x02, 0xfe),
        Step::write(ADDRESS, 0x02, 0xff),
        Step::read(ADDRESS, 0x00, 0x01),
        Step::read(ADDRESS, 0x00, 0x01),
        Step::read(ADDRESS, 0x06, 0xff),
        Step::write(ADDRESS, 0x06, 0xfe),
        Step::read(ADDRESS, 0x06, 0xfe),
        Step::write(ADDRESS, 0x06, 0xff),
    ]);
    let mut driver = Driver::new(bus);
    assert_eq!(run(&mut driver, Command::SetLow, 1), Ok(true));
    assert_eq!(run(&mut driver, Command::IsSetLow, 1), Ok(true));
    assert_eq!(run(&mut driver, Command::IsSetHigh, 1), Ok(false));
    assert_eq!(run(&mut driver, Command::SetHigh, 1), Ok(true));
    assert_eq!(run(&mut driver, Command::IsSetHigh, 1), Ok(true));
    assert_eq!(run(&mut driver, Command::IsHigh, 1), Ok(true));
    assert_eq!(run(&mut driver, Command::IsLow, 1), Ok(false));
    assert_eq!(run(&mut driver, Command::SetDirection(Direction::Output), 1), Ok(true));
    assert_eq!(run(&mut driver, Command::SetDirection(Direction::Input), 1), Ok(true));
    assert!(driver.release().done());
}

#[test]
fn run_hands_errors_on() {
    let bus = Mock::new(vec![Step::write(ADDRESS, 0x03, 0x7f).failing(21)]);
    let mut driver = Driver::new(bus);
    assert_eq!(run(&mut driver, Command::SetLow, 0x8000), Err(MockError::Scripted(21)));
    assert!(driver.release().done());
}

#[test]
fn results_convert_without_loss() {
    assert_eq!(settled::<u8>(Ok(())), Ok(true));
    assert_eq!(settled::<u8>(Err(4)), Err(4));
    assert_eq!(acted::<u8>(Ok(true)), Ok(()));
    assert_eq!(acted::<u8>(Ok(false)), Ok(()));
    assert_eq!(acted::<u8>(Err(5)), Err(5));
}
