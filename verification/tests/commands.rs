use sh8601_rs::commands::{
    HBM_WRDISBV1, RAMWR, RAMWRC, SLPOUT, SPI_MODE, TEON, TESCAN, WRCTRLD1, WRDISBV,
};
use sh8601_rs::driver::Ws143TouchAmoledDriver;
use sh8601_rs::transaction::{
    DataMode, Frame, Transaction, QSPI_CONTROL_OPCODE, QSPI_PIXEL_OPCODE,
};

#[test]
fn opcodes_of_the_controller() {
    assert_eq!(SLPOUT, 0x11);
    assert_eq!(RAMWR, 0x2C);
    assert_eq!(TEON, 0x35);
    assert_eq!(RAMWRC, 0x3C);
    assert_eq!(TESCAN, 0x44);
    assert_eq!(WRDISBV, 0x51);
    assert_eq!(WRCTRLD1, 0x53);
    assert_eq!(HBM_WRDISBV1, 0x63);
    assert_eq!(SPI_MODE, 0xC4);
}

#[test]
fn opcodes_of_the_bus() {
    assert_eq!(QSPI_CONTROL_OPCODE, 0x02);
    assert_eq!(QSPI_PIXEL_OPCODE, 0x32);
}

#[test]
fn sleep_out_is_framed_at_address_0x1100() {
    let driver = Ws143TouchAmoledDriver::new(());
    let empty: &[u8] = &[];
    assert_eq!(
        driver.command(0x11),
        Transaction {
            frame: Frame {
                opcode: 0x02,
                opcode_mode: DataMode::Single,
                address: 0x1100,
                address_mode: DataMode::Single,
                dummy: 0,
                data_mode: DataMode::Single,
            },
            payload: empty,
        }
    );
}

#[test]
fn every_command_is_framed_alike() {
    let driver = Ws143TouchAmoledDriver::new(());
    for op in 0u8..=255 {
        let t = driver.command(op);
        assert_eq!(t.frame.address, (op as u32) << 8);
        assert_eq!(t.frame.address, op as u32 * 256);
        assert!(t.payload.is_empty());
        assert_eq!(t.frame.opcode, 0x02);
        assert_eq!(t.frame.opcode_mode, DataMode::Single);
        assert_eq!(t.frame.address_mode, DataMode::Single);
        assert_eq!(t.frame.data_mode, DataMode::Single);
        assert_eq!(t.frame.dummy, 0);
    }
}

#[test]
fn highest_and_lowest_command() {
    let driver = Ws143TouchAmoledDriver::new(());
    assert_eq!(driver.command(0x00).frame.address, 0x0000);
    assert_eq!(driver.command(0xFF).frame.address, 0xFF00);
}

#[test]
fn addresses_fit_in_24_bits_and_tell_commands_apart() {
    let driver = Ws143TouchAmoledDriver::new(());
    for op in 0u8..=255 {
        let address = driver.command(op).frame.address;
        assert!(address < (1 << 24));
        assert_eq!(address & 0xFF, 0);
        assert_eq!((address >> 8) as u8, op);
    }
}

#[test]
fn command_with_data_carries_the_parameters() {
    let driver = Ws143TouchAmoledDriver::new(());
    let data = [0x01u8, 0xD1];
    let t = driver.command_with_data(0x44, &data);
    assert_eq!(t.frame, Frame::control(0x44));
    assert_eq!(t.frame.address, 0x4400);
    assert_eq!(t.frame.data_mode, DataMode::Single);
    assert_eq!(t.payload, &[0x01u8, 0xD1][..]);
}

#[test]
fn command_with_no_data_is_the_bare_command() {
    let driver = Ws143TouchAmoledDriver::new(());
    assert_eq!(driver.command_with_data(0x29, &[]), driver.command(0x29));
}

#[test]
fn command_with_data_does_not_cut_the_parameters() {
    let driver = Ws143TouchAmoledDriver::new(());
    let data: Vec<u8> = (0..20000).map(|i| (i % 253) as u8).collect();
    let t = driver.command_with_data(0x51, &data);
    assert_eq!(t.payload, &data[..]);
    assert_eq!(t.frame.address, 0x5100);
}

#[test]
fn control_frame_of_a_command() {
    assert_eq!(
        Frame::control(0xC4),
        Frame {
            opcode: 0x02,
            opcode_mode: DataMode::Single,
            address: 0xC400,
            address_mode: DataMode::Single,
            dummy: 0,
            data_mode: DataMode::Single,
        }
    );
}

#[test]
fn pixel_frame_of_a_command() {
    assert_eq!(
        Frame::pixel(0x2C),
        Frame {
            opcode: 0x32,
            opcode_mode: DataMode::Single,
            address: 0x2C00,
            address_mode: DataMode::Single,
            dummy: 0,
            data_mode: DataMode::Quad,
        }
    );
}
