//! An in-crate simulation of the PicoBorg Reverse peripheral, used by the
//! test suite in place of a real bus device.
//!
//! The mock keeps the board's registers as plain bytes and answers queries
//! the way the peripheral does: byte 0 of a reply echoes the opcode,
//! bytes 1 and 2 carry the flag or direction code and the duty magnitude,
//! byte 3 is reserved and stays 0. The spec function [`MockDevice::step`]
//! states what every accepted frame does to the board, and the transport
//! implementation is verified against it. All registers are public so a
//! test can place an out-of-domain code in one and watch the driver
//! reject it.

use vstd::prelude::*;
use vstd::math::abs;
use vstd::slice::slice_to_vec;
use crate::command::Command;
use crate::diddyborg::{flag_frame, motor_frame, spec_flag_from_code, I2C_ID_PICOBORG_REV};
use crate::power::{direction_code, lemma_power_round_trip, signed_power_of, Power};
use crate::transport::{Transport, I2C_READ_LEN};

verus! {

/// A simulated PicoBorg Reverse board.
pub struct MockDevice {
    /// Identity byte reported for [`Command::GetId`].
    pub identity: u8,
    /// LED state code: 0 off, 1 on.
    pub led: u8,
    /// EPO latch code: 0 clear, 1 tripped.
    pub epo: u8,
    /// EPO-ignore flag code.
    pub epo_ignore: u8,
    /// Communications failsafe flag code.
    pub failsafe: u8,
    /// Drive fault flag code.
    pub drive_fault: u8,
    /// Motor 1 direction code: 1 forward, 2 reverse.
    pub motor1_dir: u8,
    /// Motor 1 duty magnitude.
    pub motor1_duty: u8,
    /// Motor 2 direction code.
    pub motor2_dir: u8,
    /// Motor 2 duty magnitude.
    pub motor2_duty: u8,
    /// Opcode echoed in byte 0 of the prepared reply.
    pub reply_op: u8,
    /// Byte 1 of the prepared reply: a flag, direction or identity code.
    pub reply_a: u8,
    /// Byte 2 of the prepared reply: a duty magnitude, 0 otherwise.
    pub reply_b: u8,
    /// Every frame the device has accepted, oldest first.
    pub frames: Vec<Vec<u8>>,
    /// Every reply the device has delivered to a read, oldest first.
    pub replies: Vec<Vec<u8>>,
}

impl MockDevice {
    /// The board's registers, the frame log aside: what a command frame
    /// acts upon.
    pub open spec fn board_state(self) -> Seq<u8> {
        seq![
            self.identity,
            self.led,
            self.epo,
            self.epo_ignore,
            self.failsafe,
            self.drive_fault,
            self.motor1_dir,
            self.motor1_duty,
            self.motor2_dir,
            self.motor2_duty,
            self.reply_op,
            self.reply_a,
            self.reply_b,
        ]
    }

    /// The board after accepting one frame: a set command stores its
    /// payload in the register it names, a query prepares the reply that
    /// the next read returns, and unknown opcodes or truncated frames
    /// leave the board as it is.
    pub open spec fn step(self, frame: Seq<u8>) -> MockDevice {
        if frame.len() == 0 {
            self
        } else {
            let op = frame[0];
            if op == Command::SetLed.spec_value() {
                if frame.len() >= 2 {
                    MockDevice { led: frame[1], ..self }
                } else {
                    self
                }
            } else if op == Command::GetLed.spec_value() {
                MockDevice { reply_op: op, reply_a: self.led, reply_b: 0, ..self }
            } else if op == Command::SetAFwd.spec_value() {
                if frame.len() >= 2 {
                    MockDevice { motor2_dir: 1, motor2_duty: frame[1], ..self }
                } else {
                    self
                }
            } else if op == Command::SetARev.spec_value() {
                if frame.len() >= 2 {
                    MockDevice { motor2_dir: 2, motor2_duty: frame[1], ..self }
                } else {
                    self
                }
            } else if op == Command::GetA.spec_value() {
                MockDevice { reply_op: op, reply_a: self.motor2_dir, reply_b: self.motor2_duty, ..self }
            } else if op == Command::SetBFwd.spec_value() {
                if frame.len() >= 2 {
                    MockDevice { motor1_dir: 1, motor1_duty: frame[1], ..self }
                } else {
                    self
                }
            } else if op == Command::SetBRev.spec_value() {
                if frame.len() >= 2 {
                    MockDevice { motor1_dir: 2, motor1_duty: frame[1], ..self }
                } else {
                    self
                }
            } else if op == Command::GetB.spec_value() {
                MockDevice { reply_op: op, reply_a: self.motor1_dir, reply_b: self.motor1_duty, ..self }
            } else if op == Command::AllOff.spec_value() {
                MockDevice { motor1_dir: 1, motor1_duty: 0, motor2_dir: 1, motor2_duty: 0, ..self }
            } else if op == Command::ResetEpo.spec_value() {
                MockDevice { epo: 0, ..self }
            } else if op == Command::GetEpo.spec_value() {
                MockDevice { reply_op: op, reply_a: self.epo, reply_b: 0, ..self }
            } else if op == Command::SetEpoIgnore.spec_value() {
                if frame.len() >= 2 {
                    MockDevice { epo_ignore: frame[1], ..self }
                } else {
                    self
                }
            } else if op == Command::GetEpoIgnore.spec_value() {
                MockDevice { reply_op: op, reply_a: self.epo_ignore, reply_b: 0, ..self }
            } else if op == Command::GetDriveFault.spec_value() {
                MockDevice { reply_op: op, reply_a: self.drive_fault, reply_b: 0, ..self }
            } else if op == Command::SetAllFwd.spec_value() {
                if frame.len() >= 2 {
                    MockDevice {
                        motor1_dir: 1,
                        motor1_duty: frame[1],
                        motor2_dir: 1,
                        motor2_duty: frame[1],
                        ..self
                    }
                } else {
                    self
                }
            } else if op == Command::SetAllRev.spec_value() {
                if frame.len() >= 2 {
                    MockDevice {
                        motor1_dir: 2,
                        motor1_duty: frame[1],
                        motor2_dir: 2,
                        motor2_duty: frame[1],
                        ..self
                    }
                } else {
                    self
                }
            } else if op == Command::SetFailsafe.spec_value() {
                if frame.len() >= 2 {
                    MockDevice { failsafe: frame[1], ..self }
                } else {
                    self
                }
            } else if op == Command::GetFailsafe.spec_value() {
                MockDevice { reply_op: op, reply_a: self.failsafe, reply_b: 0, ..self }
            } else if op == Command::GetId.spec_value() {
                MockDevice { reply_op: op, reply_a: self.identity, reply_b: 0, ..self }
            } else {
                self
            }
        }
    }

    /// A fresh board reporting the PicoBorg Reverse identity, with the LED
    /// off, both motors stopped, and no flag set.
    pub fn new() -> (r: MockDevice)
        ensures
            r.identity == I2C_ID_PICOBORG_REV,
            r.sent() == Seq::<Seq<u8>>::empty(),
            r.received() == Seq::<Seq<u8>>::empty(),
            r.board_state() == seq![
                I2C_ID_PICOBORG_REV,
                0u8,
                0u8,
                0u8,
                0u8,
                0u8,
                1u8,
                0u8,
                1u8,
                0u8,
                0u8,
                0u8,
                0u8,
            ],
    {
        let r = MockDevice {
            identity: I2C_ID_PICOBORG_REV,
            led: 0,
            epo: 0,
            epo_ignore: 0,
            failsafe: 0,
            drive_fault: 0,
            motor1_dir: 1,
            motor1_duty: 0,
            motor2_dir: 1,
            motor2_duty: 0,
            reply_op: 0,
            reply_a: 0,
            reply_b: 0,
            frames: Vec::new(),
            replies: Vec::new(),
        };
        proof {
            assert(r.sent() =~~= Seq::<Seq<u8>>::empty());
            assert(r.received() =~~= Seq::<Seq<u8>>::empty());
            assert(r.board_state() =~= seq![
                I2C_ID_PICOBORG_REV,
                0u8,
                0u8,
                0u8,
                0u8,
                0u8,
                1u8,
                0u8,
                1u8,
                0u8,
                0u8,
                0u8,
                0u8,
            ]);
        }
        r
    }

    /// Apply one accepted frame to the board's registers, exactly as
    /// [`MockDevice::step`] states.
    fn apply_frame(&mut self, data: &[u8])
        ensures
            *final(self) == old(self).step(data@),
    {
        if data.len() == 0 {
            return ;
        }
        let op = data[0];
        if op == Command::SetLed.value() {
            if data.len() >= 2 {
                self.led = data[1];
            }
        } else if op == Command::GetLed.value() {
            self.reply_op = op;
            self.reply_a = self.led;
            self.reply_b = 0;
        } else if op == Command::SetAFwd.value() {
            if data.len() >= 2 {
                self.motor2_dir = 1;
                self.motor2_duty = data[1];
            }
        } else if op == Command::SetARev.value() {
            if data.len() >= 2 {
                self.motor2_dir = 2;
                self.motor2_duty = data[1];
            }
        } else if op == Command::GetA.value() {
            self.reply_op = op;
            self.reply_a = self.motor2_dir;
            self.reply_b = self.motor2_duty;
        } else if op == Command::SetBFwd.value() {
            if data.len() >= 2 {
                self.motor1_dir = 1;
                self.motor1_duty = data[1];
            }
        } else if op == Command::SetBRev.value() {
            if data.len() >= 2 {
                self.motor1_dir = 2;
                self.motor1_duty = data[1];
            }
        } else if op == Command::GetB.value() {
            self.reply_op = op;
            self.reply_a = self.motor1_dir;
            self.reply_b = self.motor1_duty;
        } else if op == Command::AllOff.value() {
            self.motor1_dir = 1;
            self.motor1_duty = 0;
            self.motor2_dir = 1;
            self.motor2_duty = 0;
        } else if op == Command::ResetEpo.value() {
            self.epo = 0;
        } else if op == Command::GetEpo.value() {
            self.reply_op = op;
            self.reply_a = self.epo;
            self.reply_b = 0;
        } else if op == Command::SetEpoIgnore.value() {
            if data.len() >= 2 {
                self.epo_ignore = data[1];
            }
        } else if op == Command::GetEpoIgnore.value() {
            self.reply_op = op;
            self.reply_a = self.epo_ignore;
            self.reply_b = 0;
        } else if op == Command::GetDriveFault.value() {
            self.reply_op = op;
            self.reply_a = self.drive_fault;
            self.reply_b = 0;
        } else if op == Command::SetAllFwd.value() {
            if data.len() >= 2 {
                self.motor1_dir = 1;
                self.motor1_duty = data[1];
                self.motor2_dir = 1;
                self.motor2_duty = data[1];
            }
        } else if op == Command::SetAllRev.value() {
            if data.len() >= 2 {
                self.motor1_dir = 2;
                self.motor1_duty = data[1];
                self.motor2_dir = 2;
                self.motor2_duty = data[1];
            }
        } else if op == Command::SetFailsafe.value() {
            if data.len() >= 2 {
                self.failsafe = data[1];
            }
        } else if op == Command::GetFailsafe.value() {
            self.reply_op = op;
            self.reply_a = self.failsafe;
            self.reply_b = 0;
        } else if op == Command::GetId.value() {
            self.reply_op = op;
            self.reply_a = self.identity;
            self.reply_b = 0;
        }
    }
}

/// The board model answers a flag query with the flag most recently set:
/// after accepting the set-LED frame for `state` and then the LED query,
/// the prepared reply carries the code that was set, and that code decodes
/// back to `state`.
pub proof fn lemma_mock_led_round_trip(dev: MockDevice, state: bool)
    ensures
        ({
            let queried = dev.step(flag_frame(Command::SetLed, state)).step(
                seq![Command::GetLed.spec_value()],
            );
            &&& queried.reply_a == flag_frame(Command::SetLed, state)[1]
            &&& spec_flag_from_code(queried.reply_a) == Some(state)
        }),
{
}

/// The board model answers a motor query with the drive most recently
/// set: after accepting the set-motor-1 frame for `power` and then the
/// motor 1 query, the reply's direction code matches the power's sign and
/// its duty byte decodes to within one duty step of the power.
pub proof fn lemma_mock_motor_round_trip(dev: MockDevice, power: Power)
    requires
        -1000 <= power.permille <= 1000,
    ensures
        ({
            let queried = dev.step(motor_frame(Command::SetBFwd, Command::SetBRev, power)).step(
                seq![Command::GetB.spec_value()],
            );
            &&& queried.reply_a == direction_code(power.permille as int)
            &&& 255 * abs(
                signed_power_of(queried.reply_a, queried.reply_b as int) - power.permille,
            ) <= 1000
        }),
{
    lemma_power_round_trip(power.permille as int);
}

impl Transport for MockDevice {
    type Error = ();

    /// The frames the board has accepted, oldest first.
    closed spec fn sent(&self) -> Seq<Seq<u8>> {
        self.frames.deep_view()
    }

    /// The replies the board has delivered, oldest first.
    closed spec fn received(&self) -> Seq<Seq<u8>> {
        self.replies.deep_view()
    }

    /// Accept every frame: record it, then apply it to the registers as
    /// [`MockDevice::step`] states.
    fn write(&mut self, data: &[u8]) -> (r: Result<(), ()>)
        ensures
            r is Ok,
            final(self).board_state() == old(self).step(data@).board_state(),
    {
        let frame: Vec<u8> = slice_to_vec(data);
        self.frames.push(frame);
        proof {
            assert(self.sent() =~~= old(self).sent().push(data@));
        }
        self.apply_frame(data);
        Ok(())
    }

    /// The board needs no real settle time.
    fn settle(&mut self, millis: u64)
        ensures
            *final(self) == *old(self),
    {
    }

    /// Return the reply prepared by the most recent query command, byte 3
    /// reserved as 0; the board's registers do not change.
    fn read(&mut self, buffer: &mut [u8; I2C_READ_LEN]) -> (r: Result<(), ()>)
        ensures
            r is Ok,
            final(self).board_state() == old(self).board_state(),
            final(buffer)@ == seq![old(self).reply_op, old(self).reply_a, old(self).reply_b, 0u8],
    {
        *buffer = [self.reply_op, self.reply_a, self.reply_b, 0];
        proof {
            assert(buffer@ =~= seq![self.reply_op, self.reply_a, self.reply_b, 0u8]);
        }
        let delivered: Vec<u8> = vec![self.reply_op, self.reply_a, self.reply_b, 0];
        self.replies.push(delivered);
        proof {
            assert(self.received() =~~= old(self).received().push(buffer@));
        }
        Ok(())
    }
}

} // verus!
