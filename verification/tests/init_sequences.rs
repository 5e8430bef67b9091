use sh8601_rs::driver::Ws143TouchAmoledDriver;
use sh8601_rs::init::{InitCommand, Variant};

fn primary() -> Vec<InitCommand> {
    vec![
        (0x11, &[], 120),
        (0x44, &[0x01, 0xD1], 0),
        (0x35, &[0x00], 0),
        (0x53, &[0x20], 10),
        (0x51, &[0x00], 10),
        (0x11, &[0x00], 10),
        (0x51, &[0xFF], 0),
    ]
}

fn alternate() -> Vec<InitCommand> {
    vec![
        (0x11, &[], 120),
        (0xC4, &[0x80], 0),
        (0x53, &[0x20], 1),
        (0x63, &[0xFF], 1),
        (0x51, &[0x00], 1),
        (0x11, &[0x00], 10),
        (0x51, &[0xFF], 0),
    ]
}

#[test]
fn a_new_driver_brings_up_the_primary_controller() {
    let driver = Ws143TouchAmoledDriver::new(());
    assert_eq!(driver.variant(), Variant::Primary);
    assert_eq!(driver.vendor_specific_init_commands(), &primary()[..]);
}

#[test]
fn the_alternate_driver_brings_up_the_alternate_controller() {
    let driver = Ws143TouchAmoledDriver::new(()).use_co5300_init_cmds();
    assert_eq!(driver.variant(), Variant::Alternate);
    assert_eq!(driver.vendor_specific_init_commands(), &alternate()[..]);
}

#[test]
fn choosing_the_alternate_twice_changes_nothing() {
    let driver = Ws143TouchAmoledDriver::new(()).use_co5300_init_cmds().use_co5300_init_cmds();
    assert_eq!(driver.variant(), Variant::Alternate);
    assert_eq!(driver.vendor_specific_init_commands(), &alternate()[..]);
}

#[test]
fn the_driver_keeps_its_bus() {
    let driver = Ws143TouchAmoledDriver::new(41u32);
    assert_eq!(driver.qspi, 41);
    let driver = driver.use_co5300_init_cmds();
    assert_eq!(driver.qspi, 41);
}

#[test]
fn tables_by_variant() {
    assert_eq!(Variant::Primary.init_commands(), &primary()[..]);
    assert_eq!(Variant::Alternate.init_commands(), &alternate()[..]);
}

#[test]
fn the_sequences_part_at_the_second_step() {
    let p = Variant::Primary.init_commands();
    let a = Variant::Alternate.init_commands();
    assert_eq!(p.len(), 7);
    assert_eq!(a.len(), 7);
    assert_eq!(p[0], a[0]);
    assert_ne!(p[1], a[1]);
    assert_eq!(p[1].0, 0x44);
    assert_eq!(a[1].0, 0xC4);
    assert_eq!(p[5], a[5]);
    assert_eq!(p[6], a[6]);
}

#[test]
fn both_sequences_open_with_sleep_out_and_a_pause_of_120_ms() {
    for variant in [Variant::Primary, Variant::Alternate] {
        let first = variant.init_commands()[0];
        assert_eq!(first.0, 0x11);
        assert!(first.1.is_empty());
        assert_eq!(first.2, 120);
    }
}

#[test]
fn both_sequences_end_with_full_brightness() {
    for variant in [Variant::Primary, Variant::Alternate] {
        let last = variant.init_commands()[6];
        assert_eq!(last, (0x51, &[0xFFu8][..], 0));
    }
}

#[test]
fn the_table_is_the_same_on_every_call() {
    let driver = Ws143TouchAmoledDriver::new(());
    assert_eq!(driver.vendor_specific_init_commands(), driver.vendor_specific_init_commands());
}

#[test]
fn each_step_frames_as_a_command_with_its_parameters() {
    let driver = Ws143TouchAmoledDriver::new(());
    for &(command, params, _) in driver.vendor_specific_init_commands() {
        let t = driver.command_with_data(command, params);
        assert_eq!(t.frame.address, (command as u32) << 8);
        assert_eq!(t.payload, params);
    }
}
