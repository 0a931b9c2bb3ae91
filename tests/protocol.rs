use bitaxe_bmc::bounded::Bytes;
use bitaxe_bmc::control::{adc, gpio, i2c, Command, CommandError, Outcome};

fn bytes(s: &[u8]) -> Bytes {
    Bytes::from_slice(s).unwrap()
}

#[test]
fn get_reset_level_when_high() {
    let cmd = Command::from_bytes(&[0x00]).unwrap();
    assert_eq!(cmd, Command::Gpio(gpio::Command::GetAsicResetn));
    let mut pins = gpio::Pins { asic_resetn: true };
    let r = cmd.handle(&mut pins, Outcome::Nothing).unwrap();
    assert_eq!(r.as_slice(), &[1]);
    assert!(pins.asic_resetn);
}

#[test]
fn set_reset_level_high() {
    let cmd = Command::from_bytes(&[0x00, 0x01]).unwrap();
    assert_eq!(cmd, Command::Gpio(gpio::Command::SetAsicResetn { level: true }));
    let mut pins = gpio::Pins { asic_resetn: false };
    let r = cmd.handle(&mut pins, Outcome::Nothing).unwrap();
    assert_eq!(r.as_slice(), &[1]);
    assert!(pins.asic_resetn);
}

#[test]
fn set_then_get_reads_back_the_level() {
    let mut pins = gpio::Pins { asic_resetn: false };
    let set = gpio::Command::SetAsicResetn { level: true };
    assert_eq!(set.handle(&mut pins).unwrap().as_slice(), &[1]);
    let get = gpio::Command::GetAsicResetn;
    assert_eq!(get.handle(&mut pins).unwrap().as_slice(), &[1]);
    let clear = gpio::Command::SetAsicResetn { level: false };
    assert_eq!(clear.handle(&mut pins).unwrap().as_slice(), &[0]);
    assert_eq!(get.handle(&mut pins).unwrap().as_slice(), &[0]);
}

#[test]
fn any_nonzero_level_byte_is_high() {
    assert_eq!(
        gpio::Command::from_bytes(&[0x00, 0x7f]),
        Ok(gpio::Command::SetAsicResetn { level: true })
    );
    assert_eq!(
        gpio::Command::from_bytes(&[0x00, 0x00]),
        Ok(gpio::Command::SetAsicResetn { level: false })
    );
    assert_eq!(gpio::Command::from_bytes(&[0x00, 1, 2]), Err(CommandError::Invalid));
}

#[test]
fn unknown_opcode_is_invalid() {
    assert_eq!(Command::from_bytes(&[0xFF]), Err(CommandError::Invalid));
    assert_eq!(Command::from_bytes(&[0x60, 1, 2]), Err(CommandError::Invalid));
    assert_eq!(Command::from_bytes(&[]), Err(CommandError::Invalid));
}

#[test]
fn wrong_shape_is_invalid() {
    assert_eq!(Command::from_bytes(&[0x10, 1, 2, 3]), Err(CommandError::Invalid));
    assert_eq!(Command::from_bytes(&[0x20]), Err(CommandError::Invalid));
    assert_eq!(Command::from_bytes(&[0x30, 0x50]), Err(CommandError::Invalid));
    assert_eq!(Command::from_bytes(&[0x40, 0x50]), Err(CommandError::Invalid));
    assert_eq!(Command::from_bytes(&[0x50, 0]), Err(CommandError::Invalid));
}

#[test]
fn read_frame_decodes_and_returns_bus_bytes() {
    let cmd = Command::from_bytes(&[0x30, 0x50, 0x04]).unwrap();
    assert_eq!(cmd, Command::I2c(i2c::Command::Read { addr: 0x50, len: 4 }));
    let mut pins = gpio::Pins { asic_resetn: true };
    let data = [9u8, 8, 7, 6];
    let r = cmd.handle(&mut pins, Outcome::Bus(Ok(&data[..]))).unwrap();
    assert_eq!(r.as_slice(), &[9, 8, 7, 6]);
}

#[test]
fn oversized_write_is_buffer_overflow() {
    let mut frame = vec![0x20u8, 0x50];
    frame.extend(std::iter::repeat(0xAA).take(255));
    assert_eq!(frame.len(), 257);
    assert_eq!(Command::from_bytes(&frame), Err(CommandError::BufferOverflow));
}

#[test]
fn oversized_write_read_is_buffer_overflow() {
    let mut frame = vec![0x40u8, 0x50];
    frame.extend(std::iter::repeat(0x11).take(255));
    frame.push(4);
    assert_eq!(Command::from_bytes(&frame), Err(CommandError::BufferOverflow));
}

#[test]
fn largest_write_fits() {
    let mut frame = vec![0x20u8, 0x50];
    frame.extend(std::iter::repeat(0xAA).take(254));
    let cmd = i2c::Command::from_bytes(&frame).unwrap();
    assert_eq!(cmd, i2c::Command::Write { addr: 0x50, buf: bytes(&frame[2..]) });
    assert_eq!(cmd.handle(Ok(&[][..])).unwrap().as_slice(), &[254]);
}

#[test]
fn write_frame_decodes_payload() {
    let cmd = Command::from_bytes(&[0x20, 0x48, 1, 2, 3]).unwrap();
    assert_eq!(cmd, Command::I2c(i2c::Command::Write { addr: 0x48, buf: bytes(&[1, 2, 3]) }));
    let mut pins = gpio::Pins { asic_resetn: false };
    let r = cmd.handle(&mut pins, Outcome::Bus(Ok(&[][..]))).unwrap();
    assert_eq!(r.as_slice(), &[3]);
}

#[test]
fn empty_write_is_accepted() {
    let cmd = i2c::Command::from_bytes(&[0x20, 0x48]).unwrap();
    assert_eq!(cmd, i2c::Command::Write { addr: 0x48, buf: bytes(&[]) });
}

#[test]
fn write_read_frame_decodes_fields() {
    let cmd = i2c::Command::from_bytes(&[0x40, 0x48, 0xA0, 0xA1, 2]).unwrap();
    assert_eq!(
        cmd,
        i2c::Command::WriteRead { addr: 0x48, buf: bytes(&[0xA0, 0xA1]), read_len: 2 }
    );
    assert_eq!(cmd.handle(Ok(&[5u8, 6][..])).unwrap().as_slice(), &[5, 6]);
    let bare = i2c::Command::from_bytes(&[0x40, 0x48, 3]).unwrap();
    assert_eq!(bare, i2c::Command::WriteRead { addr: 0x48, buf: bytes(&[]), read_len: 3 });
}

#[test]
fn set_frequency_decodes_little_endian() {
    let cmd = Command::from_bytes(&[0x10, 0xA0, 0x86, 0x01, 0x00]).unwrap();
    assert_eq!(cmd, Command::I2c(i2c::Command::SetFrequency { frequency: 100_000 }));
}

#[test]
fn set_frequency_echoes_input_bytes() {
    let frame = [0x10u8, 0x78, 0x56, 0x34, 0x12];
    let cmd = i2c::Command::from_bytes(&frame).unwrap();
    assert_eq!(cmd, i2c::Command::SetFrequency { frequency: 0x1234_5678 });
    assert_eq!(cmd.handle(Ok(&[][..])).unwrap().as_slice(), &frame[1..]);
    let top = i2c::Command::from_bytes(&[0x10, 0xFF, 0xFF, 0xFF, 0xFF]).unwrap();
    assert_eq!(top.handle(Ok(&[][..])).unwrap().as_slice(), &[0xFF, 0xFF, 0xFF, 0xFF]);
}

#[test]
fn bus_faults_give_their_reasons() {
    let cases: [(i2c::Command, &str); 4] = [
        (i2c::Command::SetFrequency { frequency: 400_000 }, "I2C Set Frequency Error"),
        (i2c::Command::Write { addr: 1, buf: bytes(&[1]) }, "I2C Write Error"),
        (i2c::Command::Read { addr: 1, len: 1 }, "I2C Read Error"),
        (i2c::Command::WriteRead { addr: 1, buf: bytes(&[1]), read_len: 1 }, "I2C WriteRead Error"),
    ];
    for (cmd, reason) in cases {
        assert_eq!(cmd.handle(Err(())), Err(CommandError::Message(reason)));
    }
}

#[test]
fn read_vdd_is_two_little_endian_bytes() {
    let cmd = Command::from_bytes(&[0x50]).unwrap();
    assert_eq!(cmd, Command::Adc(adc::Command::ReadVdd));
    let mut pins = gpio::Pins { asic_resetn: true };
    let r = cmd.handle(&mut pins, Outcome::Sample(Ok(0x0ABC))).unwrap();
    assert_eq!(r.as_slice(), &[0xBC, 0x0A]);
    assert_eq!(u16::from_le_bytes([r[0], r[1]]), 0x0ABC);
    let max = adc::Command::ReadVdd.handle(Ok(u16::MAX)).unwrap();
    assert_eq!(max.as_slice(), &[0xFF, 0xFF]);
}

#[test]
fn conversion_fault_is_a_message() {
    assert_eq!(
        adc::Command::ReadVdd.handle(Err(())),
        Err(CommandError::Message("ADC Read Error"))
    );
}
