use tsl2591::{
    check_id, BusRecord, DelayLog, Error, Gain, IntegrationTime, Mode, ScriptedBus, Tsl2591,
};

type MockDriver = Tsl2591<ScriptedBus, DelayLog>;

fn bus_with(replies: Vec<Vec<u8>>) -> ScriptedBus {
    ScriptedBus::new(replies)
}

fn assert_write(record: &BusRecord, expected_addr: u8, expected_data: &[u8]) {
    match record {
        BusRecord::Write { addr, data } => {
            assert_eq!(*addr, expected_addr);
            assert_eq!(data.as_slice(), expected_data);
        }
        other => panic!("expected a write, got {:?}", other),
    }
}

fn assert_write_read(record: &BusRecord, expected_addr: u8, expected_data: &[u8]) {
    match record {
        BusRecord::WriteRead { addr, data, .. } => {
            assert_eq!(*addr, expected_addr);
            assert_eq!(data.as_slice(), expected_data);
        }
        other => panic!("expected a write-read, got {:?}", other),
    }
}

#[test]
fn check_id_decides_identity() {
    assert_eq!(check_id::<u8>(0x50), Ok(()));
    assert_eq!(check_id::<u8>(0x11), Err(Error::IdMismatch(0x11)));
    assert_eq!(check_id::<u8>(0x00), Err(Error::IdMismatch(0x00)));
}

#[test]
fn construction_succeeds_on_expected_id() {
    let bus = bus_with(vec![vec![0x50]]);
    let driver: MockDriver = Tsl2591::new(bus).unwrap();
    assert_eq!(driver.integration_time, IntegrationTime::_200MS);
    assert_eq!(driver.gain, Gain::Low);
    // one identity read against the command-framed identity register
    assert_eq!(driver.i2c.log.len(), 1);
    assert_write_read(&driver.i2c.log[0], 0x29, &[0xA0 | 0x12]);
}

#[test]
fn construction_fails_on_id_mismatch() {
    let bus = bus_with(vec![vec![0x11]]);
    let r: Result<MockDriver, Error<u8>> = Tsl2591::new(bus);
    assert_eq!(r.unwrap_err(), Error::IdMismatch(0x11));
}

#[test]
fn construction_surfaces_bus_failure() {
    let bus = ScriptedBus::failing(7);
    let r: Result<MockDriver, Error<u8>> = Tsl2591::new(bus);
    assert_eq!(r.unwrap_err(), Error::I2c(7));
}

#[test]
fn construction_with_explicit_configuration() {
    let bus = bus_with(vec![vec![0x50]]);
    let driver: MockDriver =
        Tsl2591::new_define_integration(bus, IntegrationTime::_600MS, Gain::Max).unwrap();
    assert_eq!(driver.integration_time, IntegrationTime::_600MS);
    assert_eq!(driver.gain, Gain::Max);
}

#[test]
fn enable_writes_power_on_frame() {
    let bus = bus_with(vec![vec![0x50]]);
    let mut driver: MockDriver = Tsl2591::new(bus).unwrap();
    driver.enable().unwrap();
    // POWERON | AEN | AIEN | NPIEN = 0x93 at the ENABLE register
    assert_eq!(driver.i2c.log.len(), 2);
    assert_write(&driver.i2c.log[1], 0x29, &[0xA0, 0x93]);
}

#[test]
fn disable_writes_power_off_frame() {
    let bus = bus_with(vec![vec![0x50]]);
    let mut driver: MockDriver = Tsl2591::new(bus).unwrap();
    driver.disable().unwrap();
    assert_write(&driver.i2c.log[1], 0x29, &[0xA0, 0x00]);
}

#[test]
fn set_gain_none_is_idempotent() {
    let bus = bus_with(vec![vec![0x50]]);
    let mut driver: MockDriver = Tsl2591::new(bus).unwrap();
    driver.set_gain(None).unwrap();
    driver.set_gain(None).unwrap();
    // both writes re-assert the stored configuration: 200 ms (0x01)
    // with low gain (0x00) behind the CONTROL command byte
    assert_eq!(driver.i2c.log.len(), 3);
    assert_write(&driver.i2c.log[1], 0x29, &[0xA1, 0x01]);
    assert_write(&driver.i2c.log[2], 0x29, &[0xA1, 0x01]);
    assert_eq!(driver.integration_time, IntegrationTime::_200MS);
    assert_eq!(driver.gain, Gain::Low);
}

#[test]
fn set_gain_override_persists() {
    let bus = bus_with(vec![vec![0x50]]);
    let mut driver: MockDriver = Tsl2591::new(bus).unwrap();
    driver.set_gain(Some(Gain::High)).unwrap();
    assert_eq!(driver.gain, Gain::High);
    assert_write(&driver.i2c.log[1], 0x29, &[0xA1, 0x01 | 0x20]);
    // a later reuse write reflects the overridden gain, not the old one
    driver.set_gain(None).unwrap();
    assert_write(&driver.i2c.log[2], 0x29, &[0xA1, 0x01 | 0x20]);
}

#[test]
fn set_timing_override_persists() {
    let bus = bus_with(vec![vec![0x50]]);
    let mut driver: MockDriver = Tsl2591::new(bus).unwrap();
    driver.set_timing(Some(IntegrationTime::_600MS)).unwrap();
    assert_eq!(driver.integration_time, IntegrationTime::_600MS);
    assert_eq!(driver.gain, Gain::Low);
    assert_write(&driver.i2c.log[1], 0x29, &[0xA1, 0x05]);
    driver.set_timing(None).unwrap();
    assert_write(&driver.i2c.log[2], 0x29, &[0xA1, 0x05]);
}

#[test]
fn set_gain_failure_keeps_stored_configuration() {
    let bus = bus_with(vec![vec![0x50]]);
    let mut driver: MockDriver = Tsl2591::new(bus).unwrap();
    driver.i2c.fail = true;
    driver.i2c.error_code = 9;
    assert_eq!(driver.set_gain(Some(Gain::Max)).unwrap_err(), Error::I2c(9));
    assert_eq!(driver.gain, Gain::Low);
}

#[test]
fn channel_data_assembles_big_endian_in_order() {
    let bus = bus_with(vec![vec![0x50], vec![0x03, 0xE8], vec![0x01, 0xF4]]);
    let mut driver: MockDriver = Tsl2591::new(bus).unwrap();
    let mut delay = DelayLog::new();
    let (ch_0, ch_1) = driver.get_channel_data(&mut delay).unwrap();
    assert_eq!(ch_0, 1000);
    assert_eq!(ch_1, 500);
    // channel 0 is read before channel 1
    assert_write_read(&driver.i2c.log[1], 0x29, &[0xA0 | 0x14]);
    assert_write_read(&driver.i2c.log[2], 0x29, &[0xA0 | 0x16]);
    // the settling delay covers one 200 ms integration cycle plus margin
    assert_eq!(delay.waits, vec![220]);
}

#[test]
fn channel_data_delay_tracks_integration_time() {
    let bus = bus_with(vec![vec![0x50], vec![0x00, 0x01], vec![0x00, 0x02]]);
    let mut driver: MockDriver =
        Tsl2591::new_define_integration(bus, IntegrationTime::_600MS, Gain::Low).unwrap();
    let mut delay = DelayLog::new();
    driver.get_channel_data(&mut delay).unwrap();
    assert_eq!(delay.waits, vec![620]);
}

#[test]
fn channel_data_surfaces_bus_failure() {
    let bus = bus_with(vec![vec![0x50]]);
    let mut driver: MockDriver = Tsl2591::new(bus).unwrap();
    driver.i2c.fail = true;
    driver.i2c.error_code = 3;
    let mut delay = DelayLog::new();
    assert_eq!(driver.get_channel_data(&mut delay).unwrap_err(), Error::I2c(3));
}

#[test]
fn luminosity_full_spectrum_returns_channel_0() {
    let bus = bus_with(vec![vec![0x50], vec![0x01, 0x2C], vec![0x00, 0x64]]);
    let mut driver: MockDriver = Tsl2591::new(bus).unwrap();
    let mut delay = DelayLog::new();
    assert_eq!(driver.get_luminosity(Mode::FullSpectrum, &mut delay).unwrap(), 300);
}

#[test]
fn luminosity_infrared_returns_channel_1() {
    let bus = bus_with(vec![vec![0x50], vec![0x01, 0x2C], vec![0x00, 0x64]]);
    let mut driver: MockDriver = Tsl2591::new(bus).unwrap();
    let mut delay = DelayLog::new();
    assert_eq!(driver.get_luminosity(Mode::Infrared, &mut delay).unwrap(), 100);
}

#[test]
fn luminosity_visible_subtracts_infrared() {
    let bus = bus_with(vec![vec![0x50], vec![0x01, 0x2C], vec![0x00, 0x64]]);
    let mut driver: MockDriver = Tsl2591::new(bus).unwrap();
    let mut delay = DelayLog::new();
    assert_eq!(driver.get_luminosity(Mode::Visible, &mut delay).unwrap(), 200);
}

#[test]
fn luminosity_visible_rejects_infrared_excess() {
    // channel 1 above channel 0 must fail, not wrap around
    let bus = bus_with(vec![vec![0x50], vec![0x00, 0x64], vec![0x00, 0xC8]]);
    let mut driver: MockDriver = Tsl2591::new(bus).unwrap();
    let mut delay = DelayLog::new();
    assert_eq!(
        driver.get_luminosity(Mode::Visible, &mut delay).unwrap_err(),
        Error::InfraredOverflow
    );
}
