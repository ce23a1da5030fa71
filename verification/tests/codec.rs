//! Tests for the command catalog and the power/duty conversion.

use picoborgrev::command::{Command, CommandValue};
use picoborgrev::power::{power_to_pwm, pwm_to_power, Power, POWER_SCALE, PWM_MAX};

#[test]
fn command_byte_values() {
    assert_eq!(Command::SetLed.value(), 0x01);
    assert_eq!(Command::GetLed.value(), 0x02);
    assert_eq!(Command::SetAFwd.value(), 0x03);
    assert_eq!(Command::SetARev.value(), 0x04);
    assert_eq!(Command::GetA.value(), 0x05);
    assert_eq!(Command::SetBFwd.value(), 0x06);
    assert_eq!(Command::SetBRev.value(), 0x07);
    assert_eq!(Command::GetB.value(), 0x08);
    assert_eq!(Command::AllOff.value(), 0x09);
    assert_eq!(Command::ResetEpo.value(), 0x0A);
    assert_eq!(Command::GetEpo.value(), 0x0B);
    assert_eq!(Command::SetEpoIgnore.value(), 0x0C);
    assert_eq!(Command::GetEpoIgnore.value(), 0x0D);
    assert_eq!(Command::GetDriveFault.value(), 0x0E);
    assert_eq!(Command::SetAllFwd.value(), 0x0F);
    assert_eq!(Command::SetAllRev.value(), 0x10);
    assert_eq!(Command::SetFailsafe.value(), 0x11);
    assert_eq!(Command::GetFailsafe.value(), 0x12);
    assert_eq!(Command::GetId.value(), 0x99);
    assert_eq!(Command::SetI2cAdd.value(), 0xAA);
}

#[test]
fn value_code_bytes_with_documented_overlap() {
    assert_eq!(CommandValue::Off.value(), 0x00);
    assert_eq!(CommandValue::On.value(), 0x01);
    assert_eq!(CommandValue::Fwd.value(), 0x01);
    assert_eq!(CommandValue::Rev.value(), 0x02);
    // On and Fwd deliberately share a byte; every other pair differs.
    assert_eq!(CommandValue::On.value(), CommandValue::Fwd.value());
    assert_ne!(CommandValue::Off.value(), CommandValue::On.value());
    assert_ne!(CommandValue::Off.value(), CommandValue::Rev.value());
    assert_ne!(CommandValue::On.value(), CommandValue::Rev.value());
}

#[test]
fn duty_encoding_exact_values() {
    assert_eq!(power_to_pwm(Power { permille: 0 }), 0);
    assert_eq!(power_to_pwm(Power { permille: 1 }), 0);
    assert_eq!(power_to_pwm(Power { permille: 750 }), 191);
    assert_eq!(power_to_pwm(Power { permille: -500 }), 128);
    assert_eq!(power_to_pwm(Power { permille: POWER_SCALE }), PWM_MAX);
    assert_eq!(power_to_pwm(Power { permille: -POWER_SCALE }), PWM_MAX);
}

#[test]
fn duty_encoding_clamps_overdrive() {
    assert_eq!(power_to_pwm(Power { permille: 1001 }), PWM_MAX);
    assert_eq!(power_to_pwm(Power { permille: 1500 }), PWM_MAX);
    assert_eq!(power_to_pwm(Power { permille: -1200 }), PWM_MAX);
    assert_eq!(power_to_pwm(Power { permille: i32::MAX }), PWM_MAX);
    assert_eq!(power_to_pwm(Power { permille: i32::MIN }), PWM_MAX);
}

#[test]
fn duty_decoding_exact_values() {
    assert_eq!(pwm_to_power(1, 191), Some(Power { permille: 749 }));
    assert_eq!(pwm_to_power(2, 128), Some(Power { permille: -502 }));
    assert_eq!(pwm_to_power(1, 0), Some(Power { permille: 0 }));
    assert_eq!(pwm_to_power(2, 255), Some(Power { permille: -1000 }));
}

#[test]
fn duty_decoding_rejects_unknown_direction() {
    assert_eq!(pwm_to_power(0, 100), None);
    assert_eq!(pwm_to_power(3, 0), None);
    assert_eq!(pwm_to_power(255, 255), None);
}

#[test]
fn round_trip_stays_within_one_duty_step() {
    // decode(encode(p)) keeps the direction and lands within 1/255 of
    // full scale (about 4 thousandths) of the original power.
    let mut p: i32 = -1000;
    while p <= 1000 {
        let duty = power_to_pwm(Power { permille: p });
        let direction = if p >= 0 { 1 } else { 2 };
        let back = pwm_to_power(direction, duty).unwrap();
        assert_eq!(back.permille >= 0, p >= 0 || back.permille == 0);
        assert!((back.permille - p).abs() * 255 <= 1000);
        p += 1;
    }
}
