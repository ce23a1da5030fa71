//! Tests for the device session, run against the in-crate mock peripheral.

use picoborgrev::diddyborg::DiddyBorg;
use picoborgrev::error::DiddyBorgError;
use picoborgrev::mock::MockDevice;
use picoborgrev::power::Power;
use picoborgrev::transport::Transport;

/// A transport whose bus is dead: every write and read fails.
struct DeadBus;

impl Transport for DeadBus {
    type Error = u8;

    fn write(&mut self, _data: &[u8]) -> Result<(), u8> {
        Err(5)
    }

    fn settle(&mut self, _millis: u64) {}

    fn read(&mut self, _buffer: &mut [u8; 4]) -> Result<(), u8> {
        Err(5)
    }
}

#[test]
fn mock_checksum_should_be_correct() {
    let _test = DiddyBorg::new(MockDevice::new());
}

#[test]
fn test_checksum_should_be_correct() {
    let mut test = DiddyBorg::new(MockDevice::new()).unwrap();
    test.set_led(true).unwrap();
    let state = test.get_led();
    assert!(state.is_ok())
}

#[test]
fn handshake_accepts_the_picoborg_identity() {
    let borg = DiddyBorg::new(MockDevice::new()).unwrap();
    // The handshake is one read transaction for the identity opcode, and
    // the one reply delivered carried the identity byte.
    assert_eq!(borg.device().frames, vec![vec![0x99]]);
    assert_eq!(borg.device().replies, vec![vec![0x99, 0x15, 0x00, 0x00]]);
}

#[test]
fn identity_decision_is_exact() {
    assert!(picoborgrev::diddyborg::is_picoborg_id(0x15));
    assert!(!picoborgrev::diddyborg::is_picoborg_id(0x14));
    assert!(!picoborgrev::diddyborg::is_picoborg_id(0x16));
    assert!(!picoborgrev::diddyborg::is_picoborg_id(0x00));
    assert!(!picoborgrev::diddyborg::is_picoborg_id(0xFF));
}

#[test]
fn handshake_rejects_any_other_identity() {
    let mut dev = MockDevice::new();
    dev.identity = 0x16;
    let r = DiddyBorg::new(dev);
    assert!(matches!(r, Err(DiddyBorgError::NotFound)));

    let mut dev0 = MockDevice::new();
    dev0.identity = 0x00;
    let r0 = DiddyBorg::new(dev0);
    assert!(matches!(r0, Err(DiddyBorgError::NotFound)));
}

#[test]
fn handshake_propagates_a_transport_failure() {
    let r = DiddyBorg::new(DeadBus);
    assert!(matches!(r, Err(DiddyBorgError::I2C(5))));
}

#[test]
fn led_round_trip() {
    let mut borg = DiddyBorg::new(MockDevice::new()).unwrap();
    borg.set_led(true).unwrap();
    assert_eq!(borg.get_led().unwrap(), true);
    // The reply the device delivered for the query is logged too.
    assert_eq!(borg.device().replies.last().unwrap(), &vec![0x02, 0x01, 0x00, 0x00]);
    borg.set_led(false).unwrap();
    assert_eq!(borg.get_led().unwrap(), false);
    assert_eq!(borg.device().replies.last().unwrap(), &vec![0x02, 0x00, 0x00, 0x00]);
}

#[test]
fn set_led_sends_the_flag_frame() {
    let mut borg = DiddyBorg::new(MockDevice::new()).unwrap();
    borg.set_led(true).unwrap();
    assert_eq!(borg.device().frames.last().unwrap(), &vec![0x01, 0x01]);
    borg.set_led(false).unwrap();
    assert_eq!(borg.device().frames.last().unwrap(), &vec![0x01, 0x00]);
}

#[test]
fn corrupted_flag_byte_is_an_error_not_a_panic() {
    // A flag reply outside {0, 1} must surface CorruptedData.
    let mut dev = MockDevice::new();
    dev.led = 7;
    let mut borg = DiddyBorg::new(dev).unwrap();
    assert!(matches!(borg.get_led(), Err(DiddyBorgError::CorruptedData)));

    // A direction code outside {0, 1, 2} on a motor query as well.
    let mut dev2 = MockDevice::new();
    dev2.motor1_dir = 9;
    let mut borg2 = DiddyBorg::new(dev2).unwrap();
    assert!(matches!(borg2.get_motor1(), Err(DiddyBorgError::CorruptedData)));
}

#[test]
fn motor1_round_trip() {
    let mut borg = DiddyBorg::new(MockDevice::new()).unwrap();
    // 0.75 forward encodes to duty 191, which reads back as 191/255 = 0.749.
    borg.set_motor1(Power { permille: 750 }).unwrap();
    assert_eq!(borg.device().motor1_duty, 191);
    assert_eq!(borg.get_motor1().unwrap(), Power { permille: 749 });
    // 0.5 reverse encodes to duty 128, which reads back as -0.502.
    borg.set_motor1(Power { permille: -500 }).unwrap();
    assert_eq!(borg.device().motor1_duty, 128);
    assert_eq!(borg.get_motor1().unwrap(), Power { permille: -502 });
}

#[test]
fn motor2_round_trip() {
    let mut borg = DiddyBorg::new(MockDevice::new()).unwrap();
    borg.set_motor2(Power { permille: 250 }).unwrap();
    assert_eq!(borg.device().frames.last().unwrap(), &vec![0x03, 64]);
    assert_eq!(borg.get_motor2().unwrap(), Power { permille: 251 });
    borg.set_motor2(Power { permille: -1000 }).unwrap();
    assert_eq!(borg.device().frames.last().unwrap(), &vec![0x04, 255]);
    assert_eq!(borg.get_motor2().unwrap(), Power { permille: -1000 });
}

#[test]
fn set_motors_drives_both_motors() {
    let mut borg = DiddyBorg::new(MockDevice::new()).unwrap();
    borg.set_motors(Power { permille: -500 }).unwrap();
    assert_eq!(borg.device().frames.last().unwrap(), &vec![0x10, 128]);
    assert_eq!(borg.get_motor1().unwrap(), Power { permille: -502 });
    assert_eq!(borg.get_motor2().unwrap(), Power { permille: -502 });
}

#[test]
fn stop_motors_sends_the_all_off_frame() {
    let mut borg = DiddyBorg::new(MockDevice::new()).unwrap();
    borg.set_motors(Power { permille: 1000 }).unwrap();
    borg.stop_motors().unwrap();
    assert_eq!(borg.device().frames.last().unwrap(), &vec![0x09, 0x00]);
}

#[test]
fn epo_latch_query_and_reset() {
    let mut dev = MockDevice::new();
    dev.epo = 1;
    let mut borg = DiddyBorg::new(dev).unwrap();
    assert_eq!(borg.get_epo().unwrap(), true);
    borg.reset_epo().unwrap();
    assert_eq!(borg.device().frames.last().unwrap(), &vec![0x0A, 0x00]);
    assert_eq!(borg.get_epo().unwrap(), false);
}

#[test]
fn epo_ignore_round_trip() {
    let mut borg = DiddyBorg::new(MockDevice::new()).unwrap();
    borg.set_epo_ignore(true).unwrap();
    assert_eq!(borg.get_epo_ignore().unwrap(), true);
    borg.set_epo_ignore(false).unwrap();
    assert_eq!(borg.get_epo_ignore().unwrap(), false);
}

#[test]
fn comms_failsafe_round_trip() {
    let mut borg = DiddyBorg::new(MockDevice::new()).unwrap();
    borg.set_comms_failsafe(true).unwrap();
    assert_eq!(borg.get_comms_failsafe().unwrap(), true);
    borg.set_comms_failsafe(false).unwrap();
    assert_eq!(borg.get_comms_failsafe().unwrap(), false);
}

#[test]
fn drive_fault_is_reported() {
    let mut dev = MockDevice::new();
    dev.drive_fault = 1;
    let mut borg = DiddyBorg::new(dev).unwrap();
    assert_eq!(borg.get_drive_fault().unwrap(), true);

    let mut borg2 = DiddyBorg::new(MockDevice::new()).unwrap();
    assert_eq!(borg2.get_drive_fault().unwrap(), false);
}

#[test]
fn error_messages() {
    let i2c: DiddyBorgError<u8> = DiddyBorgError::I2C(5);
    assert_eq!(i2c.message(), "I2C error occurred");
    let corrupted: DiddyBorgError<u8> = DiddyBorgError::CorruptedData;
    assert_eq!(corrupted.message(), "corrupted data received");
    let not_found: DiddyBorgError<u8> = DiddyBorgError::NotFound;
    assert_eq!(not_found.message(), "invalid PicoBorg Reverse ID");
}
