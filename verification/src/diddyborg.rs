//! The device session: owns the transport handle and a reusable response
//! buffer, performs the identity handshake at construction time, and turns
//! every public operation into one write or read transaction.
//!
//! A read transaction zeroes the buffer, writes the single opcode byte,
//! observes the mandatory settle delay, then reads exactly
//! [`I2C_READ_LEN`] response bytes: byte 0 echoes the opcode, bytes 1-2
//! carry the answer, byte 3 is reserved.

use vstd::prelude::*;
use crate::command::{Command, CommandValue};
use crate::error::DiddyBorgError;
use crate::power::{duty_of_power, power_to_pwm, pwm_to_power, signed_power_of, Power};
use crate::transport::{Transport, I2C_READ_LEN};

verus! {

/// Identity byte every PicoBorg Reverse reports for [`Command::GetId`].
pub const I2C_ID_PICOBORG_REV: u8 = 0x15;

/// Settle delay in milliseconds between sending a read command and
/// sampling its reply; the peripheral is not guaranteed ready immediately
/// after the command byte.
pub const I2C_WAIT: u64 = 10;

/// The two-byte frame that writes a boolean flag: the opcode, then the
/// `On` or `Off` value code.
pub open spec fn flag_frame(command: Command, state: bool) -> Seq<u8> {
    seq![
        command.spec_value(),
        if state {
            CommandValue::On.spec_value()
        } else {
            CommandValue::Off.spec_value()
        },
    ]
}

/// The two-byte frame that sets a motor: the forward-variant opcode for
/// zero or positive power, the reverse variant for negative power, then the
/// duty byte carrying the clamped magnitude.
pub open spec fn motor_frame(fwd: Command, rev: Command, power: Power) -> Seq<u8> {
    seq![
        (if power.permille >= 0 {
            fwd
        } else {
            rev
        }).spec_value(),
        duty_of_power(power.permille as int) as u8,
    ]
}

/// The buffer contents after a failed read transaction: all zeroes, so
/// stale bytes from an earlier reply can never be mistaken for new data.
pub open spec fn zeroed_response() -> Seq<u8> {
    seq![0u8, 0u8, 0u8, 0u8]
}

/// What a response byte means as a boolean flag: the `Off` code is
/// `false`, the `On` code is `true`, anything else is outside the
/// protocol's domain.
pub open spec fn spec_flag_from_code(code: u8) -> Option<bool> {
    if code == CommandValue::Off.spec_value() {
        Some(false)
    } else if code == CommandValue::On.spec_value() {
        Some(true)
    } else {
        None
    }
}

/// Interpret a response byte as a boolean flag: the `Off` code is `false`,
/// the `On` code is `true`, anything else is outside the protocol's domain.
pub fn flag_from_code(code: u8) -> (r: Option<bool>)
    ensures
        r == spec_flag_from_code(code),
{
    if code == CommandValue::Off.value() {
        Some(false)
    } else if code == CommandValue::On.value() {
        Some(true)
    } else {
        None
    }
}

/// Writing a flag and reading it back round-trips through the wire codes:
/// the payload byte of the frame that sets a flag decodes to the very flag
/// that was set, whichever flag command carries it.
pub proof fn lemma_flag_round_trip(command: Command, state: bool)
    ensures
        spec_flag_from_code(flag_frame(command, state)[1]) == Some(state),
{
}

/// Decide whether an identity byte names a PicoBorg Reverse: the
/// handshake succeeds exactly on this byte and fails closed on every
/// other.
pub fn is_picoborg_id(id: u8) -> (r: bool)
    ensures
        r == (id == I2C_ID_PICOBORG_REV),
{
    id == I2C_ID_PICOBORG_REV
}

/// A session with one PicoBorg Reverse peripheral. It exclusively owns the
/// transport handle and the fixed-size response buffer for its lifetime,
/// and exists only after the identity handshake has succeeded.
pub struct DiddyBorg<T: Transport> {
    // Interface to the peripheral.
    dev: T,
    // Reusable read buffer, zeroed before each read transaction.
    read_buffer: [u8; I2C_READ_LEN],
}

impl<T: Transport> DiddyBorg<T> {
    /// The transport this session owns.
    pub closed spec fn transport(&self) -> T {
        self.dev
    }

    /// The current contents of the reusable response buffer: after a
    /// successful read transaction, the peripheral's four reply bytes.
    pub closed spec fn response(&self) -> Seq<u8> {
        self.read_buffer@
    }

    /// Borrow the transport this session owns, for inspection.
    pub fn device(&self) -> (r: &T)
        ensures
            *r == self.transport(),
    {
        &self.dev
    }

    /// Initialize a session over `dev`: issue a read transaction for the
    /// identity opcode and succeed exactly when the peripheral reports the
    /// PicoBorg Reverse identity byte, as [`is_picoborg_id`] decides. On
    /// any other reply the handshake fails with
    /// [`DiddyBorgError::NotFound`] and no session is produced; a failed
    /// transaction is propagated as [`DiddyBorgError::I2C`], as
    /// [`DiddyBorg::get_diddyborg_id`] states. On success the session
    /// starts with a zeroed response buffer, and the one identity frame
    /// sent and the one reply delivered — byte 1 of it the PicoBorg
    /// Reverse identity — stand in the transport's logs.
    pub fn new(dev: T) -> (r: Result<Self, DiddyBorgError<T::Error>>)
        ensures
            match r {
                Ok(borg) => {
                    &&& borg.response() == zeroed_response()
                    &&& borg.transport().sent() == dev.sent().push(
                        seq![Command::GetId.spec_value()],
                    )
                    &&& borg.transport().received().len() == dev.received().len() + 1
                    &&& borg.transport().received().drop_last() == dev.received()
                    &&& borg.transport().received().last().len() == I2C_READ_LEN
                    &&& borg.transport().received().last()[1] == I2C_ID_PICOBORG_REV
                },
                Err(e) => !(e is CorruptedData),
            },
    {
        let mut dev = dev;
        // Ensure that the device is a DiddyBorg.
        match Self::get_diddyborg_id(&mut dev) {
            Ok(id) => {
                if is_picoborg_id(id) {
                    // The device is a DiddyBorg.
                    let borg = DiddyBorg { dev, read_buffer: [0; I2C_READ_LEN] };
                    proof {
                        assert(borg.response() =~= zeroed_response());
                    }
                    Ok(borg)
                } else {
                    // The device is not a DiddyBorg.
                    Err(DiddyBorgError::NotFound)
                }
            },
            // Failed to read from the device.
            Err(e) => Err(e),
        }
    }

    /// Set the state of the LED: `true` for on, `false` for off.
    pub fn set_led(&mut self, state: bool) -> (r: Result<(), DiddyBorgError<T::Error>>)
        ensures
            final(self).response() == old(self).response(),
            final(self).transport().received() == old(self).transport().received(),
            match r {
                Ok(()) => final(self).transport().sent() == old(self).transport().sent().push(
                    flag_frame(Command::SetLed, state),
                ),
                Err(e) => e is I2C,
            },
    {
        self.write_flag(Command::SetLed, state)
    }

    /// Read the state of the LED: `true` if the LED is on.
    pub fn get_led(&mut self) -> (r: Result<bool, DiddyBorgError<T::Error>>)
        ensures
            flag_read_post(*old(self), *final(self), Command::GetLed, r),
    {
        self.read_flag(Command::GetLed)
    }

    /// Set the drive level for motor 1. The power's magnitude is clamped
    /// to full scale before encoding; its sign picks the direction opcode.
    pub fn set_motor1(&mut self, power: Power) -> (r: Result<(), DiddyBorgError<T::Error>>)
        ensures
            final(self).response() == old(self).response(),
            final(self).transport().received() == old(self).transport().received(),
            match r {
                Ok(()) => final(self).transport().sent() == old(self).transport().sent().push(
                    motor_frame(Command::SetBFwd, Command::SetBRev, power),
                ),
                Err(e) => e is I2C,
            },
    {
        self.write_motor(Command::SetBFwd, Command::SetBRev, power)
    }

    /// Get the drive level for motor 1.
    pub fn get_motor1(&mut self) -> (r: Result<Power, DiddyBorgError<T::Error>>)
        ensures
            motor_read_post(*old(self), *final(self), Command::GetB, r),
    {
        self.read_motor(Command::GetB)
    }

    /// Set the drive level for motor 2.
    pub fn set_motor2(&mut self, power: Power) -> (r: Result<(), DiddyBorgError<T::Error>>)
        ensures
            final(self).response() == old(self).response(),
            final(self).transport().received() == old(self).transport().received(),
            match r {
                Ok(()) => final(self).transport().sent() == old(self).transport().sent().push(
                    motor_frame(Command::SetAFwd, Command::SetARev, power),
                ),
                Err(e) => e is I2C,
            },
    {
        self.write_motor(Command::SetAFwd, Command::SetARev, power)
    }

    /// Get the drive level for motor 2.
    pub fn get_motor2(&mut self) -> (r: Result<Power, DiddyBorgError<T::Error>>)
        ensures
            motor_read_post(*old(self), *final(self), Command::GetA, r),
    {
        self.read_motor(Command::GetA)
    }

    /// Set the drive level for both motors at once.
    pub fn set_motors(&mut self, power: Power) -> (r: Result<(), DiddyBorgError<T::Error>>)
        ensures
            final(self).response() == old(self).response(),
            final(self).transport().received() == old(self).transport().received(),
            match r {
                Ok(()) => final(self).transport().sent() == old(self).transport().sent().push(
                    motor_frame(Command::SetAllFwd, Command::SetAllRev, power),
                ),
                Err(e) => e is I2C,
            },
    {
        self.write_motor(Command::SetAllFwd, Command::SetAllRev, power)
    }

    /// Stop both motors: sends the frame `[AllOff, 0]`.
    pub fn stop_motors(&mut self) -> (r: Result<(), DiddyBorgError<T::Error>>)
        ensures
            final(self).response() == old(self).response(),
            final(self).transport().received() == old(self).transport().received(),
            match r {
                Ok(()) => final(self).transport().sent() == old(self).transport().sent().push(
                    seq![Command::AllOff.spec_value(), 0u8],
                ),
                Err(e) => e is I2C,
            },
    {
        let mut data: Vec<u8> = Vec::new();
        data.push(Command::AllOff.value());
        data.push(0);
        proof {
            assert(data@ =~= seq![Command::AllOff.spec_value(), 0u8]);
        }
        self.raw_write(data.as_slice())
    }

    /// Reset the EPO latch state, to allow movement again after the EPO
    /// has been tripped: sends the frame `[ResetEpo, 0]`.
    pub fn reset_epo(&mut self) -> (r: Result<(), DiddyBorgError<T::Error>>)
        ensures
            final(self).response() == old(self).response(),
            final(self).transport().received() == old(self).transport().received(),
            match r {
                Ok(()) => final(self).transport().sent() == old(self).transport().sent().push(
                    seq![Command::ResetEpo.spec_value(), 0u8],
                ),
                Err(e) => e is I2C,
            },
    {
        let mut data: Vec<u8> = Vec::new();
        data.push(Command::ResetEpo.value());
        data.push(0);
        proof {
            assert(data@ =~= seq![Command::ResetEpo.spec_value(), 0u8]);
        }
        self.raw_write(data.as_slice())
    }

    /// Read the EPO latch state: `true` if the emergency stop has been
    /// tripped and movement is disabled (unless the EPO is ignored).
    pub fn get_epo(&mut self) -> (r: Result<bool, DiddyBorgError<T::Error>>)
        ensures
            flag_read_post(*old(self), *final(self), Command::GetEpo, r),
    {
        self.read_flag(Command::GetEpo)
    }

    /// Set whether the system ignores the EPO latch: `true` to run without
    /// an EPO switch.
    pub fn set_epo_ignore(&mut self, state: bool) -> (r: Result<(), DiddyBorgError<T::Error>>)
        ensures
            final(self).response() == old(self).response(),
            final(self).transport().received() == old(self).transport().received(),
            match r {
                Ok(()) => final(self).transport().sent() == old(self).transport().sent().push(
                    flag_frame(Command::SetEpoIgnore, state),
                ),
                Err(e) => e is I2C,
            },
    {
        self.write_flag(Command::SetEpoIgnore, state)
    }

    /// Read whether the system ignores the EPO latch.
    pub fn get_epo_ignore(&mut self) -> (r: Result<bool, DiddyBorgError<T::Error>>)
        ensures
            flag_read_post(*old(self), *final(self), Command::GetEpoIgnore, r),
    {
        self.read_flag(Command::GetEpoIgnore)
    }

    /// Enable or disable the communications failsafe, which turns the
    /// motors off unless the board is commanded at least once every
    /// quarter of a second.
    pub fn set_comms_failsafe(&mut self, state: bool) -> (r: Result<(), DiddyBorgError<T::Error>>)
        ensures
            final(self).response() == old(self).response(),
            final(self).transport().received() == old(self).transport().received(),
            match r {
                Ok(()) => final(self).transport().sent() == old(self).transport().sent().push(
                    flag_frame(Command::SetFailsafe, state),
                ),
                Err(e) => e is I2C,
            },
    {
        self.write_flag(Command::SetFailsafe, state)
    }

    /// Read the state of the communications failsafe.
    pub fn get_comms_failsafe(&mut self) -> (r: Result<bool, DiddyBorgError<T::Error>>)
        ensures
            flag_read_post(*old(self), *final(self), Command::GetFailsafe, r),
    {
        self.read_flag(Command::GetFailsafe)
    }

    /// Read the drive fault flag, which indicates faults such as
    /// short-circuits and under-voltage.
    pub fn get_drive_fault(&mut self) -> (r: Result<bool, DiddyBorgError<T::Error>>)
        ensures
            flag_read_post(*old(self), *final(self), Command::GetDriveFault, r),
    {
        self.read_flag(Command::GetDriveFault)
    }

    /// Write transaction: transmit a flag-setting frame.
    fn write_flag(&mut self, command: Command, state: bool) -> (r: Result<
        (),
        DiddyBorgError<T::Error>,
    >)
        ensures
            final(self).response() == old(self).response(),
            final(self).transport().received() == old(self).transport().received(),
            match r {
                Ok(()) => final(self).transport().sent() == old(self).transport().sent().push(
                    flag_frame(command, state),
                ),
                Err(e) => e is I2C,
            },
    {
        let mut data: Vec<u8> = Vec::new();
        data.push(command.value());
        if state {
            data.push(CommandValue::On.value());
        } else {
            data.push(CommandValue::Off.value());
        }
        proof {
            assert(data@ =~= flag_frame(command, state));
        }
        self.raw_write(data.as_slice())
    }

    /// Write transaction: transmit a motor-setting frame.
    fn write_motor(&mut self, fwd: Command, rev: Command, power: Power) -> (r: Result<
        (),
        DiddyBorgError<T::Error>,
    >)
        ensures
            final(self).response() == old(self).response(),
            final(self).transport().received() == old(self).transport().received(),
            match r {
                Ok(()) => final(self).transport().sent() == old(self).transport().sent().push(
                    motor_frame(fwd, rev, power),
                ),
                Err(e) => e is I2C,
            },
    {
        let command = if power.permille >= 0 {
            fwd
        } else {
            rev
        };
        let pwm = power_to_pwm(power);
        let mut data: Vec<u8> = Vec::new();
        data.push(command.value());
        data.push(pwm);
        proof {
            assert(data@ =~= motor_frame(fwd, rev, power));
        }
        self.raw_write(data.as_slice())
    }

    /// Read transaction for a boolean-flag operation: byte 1 of the reply
    /// is decoded as a flag, and any value outside the `Off`/`On` domain
    /// yields [`DiddyBorgError::CorruptedData`].
    fn read_flag(&mut self, command: Command) -> (r: Result<bool, DiddyBorgError<T::Error>>)
        ensures
            flag_read_post(*old(self), *final(self), command, r),
    {
        match self.raw_read(command) {
            Ok(()) => {
                match flag_from_code(self.read_buffer[1]) {
                    Some(state) => Ok(state),
                    None => Err(DiddyBorgError::CorruptedData),
                }
            },
            Err(e) => Err(e),
        }
    }

    /// Read transaction for a motor query: byte 1 of the reply carries the
    /// direction code, byte 2 the duty magnitude. Any direction code
    /// outside the `Fwd`/`Rev` domain yields
    /// [`DiddyBorgError::CorruptedData`].
    fn read_motor(&mut self, command: Command) -> (r: Result<Power, DiddyBorgError<T::Error>>)
        ensures
            motor_read_post(*old(self), *final(self), command, r),
    {
        match self.raw_read(command) {
            Ok(()) => {
                match pwm_to_power(self.read_buffer[1], self.read_buffer[2]) {
                    Some(power) => Ok(power),
                    None => Err(DiddyBorgError::CorruptedData),
                }
            },
            Err(e) => Err(e),
        }
    }

    /// Attempt to read the identity byte from a device: one read
    /// transaction for the identity opcode, into a buffer of its own. On
    /// success the result is exactly byte 1 of the one reply the device
    /// delivered; on failure the error is the transport's own, never an
    /// identity verdict, and nothing was delivered.
    fn get_diddyborg_id(dev: &mut T) -> (r: Result<u8, DiddyBorgError<T::Error>>)
        ensures
            match r {
                Ok(id) => {
                    &&& final(dev).sent() == old(dev).sent().push(
                        seq![Command::GetId.spec_value()],
                    )
                    &&& final(dev).received().len() == old(dev).received().len() + 1
                    &&& final(dev).received().drop_last() == old(dev).received()
                    &&& final(dev).received().last().len() == I2C_READ_LEN
                    &&& final(dev).received().last()[1] == id
                },
                Err(e) => {
                    &&& e is I2C
                    &&& final(dev).received() == old(dev).received()
                    &&& (final(dev).sent() == old(dev).sent()
                        || final(dev).sent() == old(dev).sent().push(
                        seq![Command::GetId.spec_value()],
                    ))
                },
            },
    {
        let mut buffer: [u8; I2C_READ_LEN] = [0; I2C_READ_LEN];
        match Self::read(dev, Command::GetId, &mut buffer) {
            Ok(()) => Ok(buffer[1]),
            Err(e) => Err(e),
        }
    }

    /// Read transaction: zero the response buffer, write the single opcode
    /// byte, observe the settle delay, then read the fixed-length reply
    /// into the buffer. On success the buffer holds exactly the one reply
    /// the device delivered; on failure the buffer stays zeroed, so its
    /// prior contents are discarded either way, and nothing was delivered.
    fn raw_read(&mut self, command: Command) -> (r: Result<(), DiddyBorgError<T::Error>>)
        ensures
            match r {
                Ok(()) => {
                    &&& final(self).transport().sent() == old(self).transport().sent().push(
                        seq![command.spec_value()],
                    )
                    &&& final(self).transport().received()
                        == old(self).transport().received().push(final(self).response())
                },
                Err(e) => {
                    &&& e is I2C
                    &&& final(self).response() == zeroed_response()
                    &&& final(self).transport().received() == old(self).transport().received()
                    &&& (final(self).transport().sent() == old(self).transport().sent()
                        || final(self).transport().sent() == old(self).transport().sent().push(
                        seq![command.spec_value()],
                    ))
                },
            },
    {
        // Clear existing buffer data.
        self.read_buffer = [0; I2C_READ_LEN];
        proof {
            assert(self.read_buffer@ =~= zeroed_response());
        }
        // Write the command, then read the reply into the buffer.
        Self::read(&mut self.dev, command, &mut self.read_buffer)
    }

    /// One read transaction on a device: write the single opcode byte,
    /// observe the settle delay, read the fixed-length reply into
    /// `buffer`. On failure the buffer is left untouched and nothing was
    /// delivered; the frame log holds the opcode frame only if the write
    /// step succeeded.
    fn read(dev: &mut T, command: Command, buffer: &mut [u8; I2C_READ_LEN]) -> (r: Result<
        (),
        DiddyBorgError<T::Error>,
    >)
        ensures
            match r {
                Ok(()) => {
                    &&& final(dev).sent() == old(dev).sent().push(seq![command.spec_value()])
                    &&& final(dev).received() == old(dev).received().push(final(buffer)@)
                },
                Err(e) => {
                    &&& e is I2C
                    &&& final(buffer)@ == old(buffer)@
                    &&& final(dev).received() == old(dev).received()
                    &&& (final(dev).sent() == old(dev).sent()
                        || final(dev).sent() == old(dev).sent().push(
                        seq![command.spec_value()],
                    ))
                },
            },
    {
        let mut data: Vec<u8> = Vec::new();
        data.push(command.value());
        proof {
            assert(data@ =~= seq![command.spec_value()]);
        }
        match dev.write(data.as_slice()) {
            Ok(()) => {},
            Err(e) => {
                return Err(DiddyBorgError::I2C(e));
            },
        }
        dev.settle(I2C_WAIT);
        match dev.read(buffer) {
            Ok(()) => Ok(()),
            Err(e) => Err(DiddyBorgError::I2C(e)),
        }
    }

    /// Write transaction: transmit one frame, an opcode plus optional
    /// payload, with no retry; a failed write is reported immediately.
    fn raw_write(&mut self, data: &[u8]) -> (r: Result<(), DiddyBorgError<T::Error>>)
        ensures
            final(self).response() == old(self).response(),
            final(self).transport().received() == old(self).transport().received(),
            match r {
                Ok(()) => final(self).transport().sent() == old(self).transport().sent().push(
                    data@,
                ),
                Err(e) => e is I2C,
            },
    {
        match self.dev.write(data) {
            Ok(()) => Ok(()),
            Err(e) => Err(DiddyBorgError::I2C(e)),
        }
    }
}

/// What a boolean-flag read transaction guarantees: on success, one opcode
/// frame was sent, the buffer holds the one reply delivered, and the flag
/// is exactly the decoding of reply byte 1; a corrupted-data error reports
/// a byte 1 outside the flag domain; a transport error leaves the buffer
/// zeroed and the reply log untouched.
pub open spec fn flag_read_post<T: Transport>(
    pre: DiddyBorg<T>,
    post: DiddyBorg<T>,
    command: Command,
    r: Result<bool, DiddyBorgError<T::Error>>,
) -> bool {
    &&& post.response().len() == I2C_READ_LEN
    &&& match r {
        Ok(state) => {
            &&& post.transport().sent() == pre.transport().sent().push(
                seq![command.spec_value()],
            )
            &&& post.transport().received() == pre.transport().received().push(post.response())
            &&& post.response()[1] == if state {
                CommandValue::On.spec_value()
            } else {
                CommandValue::Off.spec_value()
            }
        },
        Err(DiddyBorgError::I2C(_)) => {
            &&& post.response() == zeroed_response()
            &&& post.transport().received() == pre.transport().received()
            &&& (post.transport().sent() == pre.transport().sent() || post.transport().sent()
                == pre.transport().sent().push(seq![command.spec_value()]))
        },
        Err(DiddyBorgError::CorruptedData) => {
            &&& post.transport().sent() == pre.transport().sent().push(
                seq![command.spec_value()],
            )
            &&& post.transport().received() == pre.transport().received().push(post.response())
            &&& post.response()[1] != CommandValue::Off.spec_value()
            &&& post.response()[1] != CommandValue::On.spec_value()
        },
        Err(DiddyBorgError::NotFound) => false,
    }
}

/// What a motor read transaction guarantees: on success, one opcode frame
/// was sent, the buffer holds the one reply delivered, and the power is
/// exactly the signed decoding of the direction code in reply byte 1 and
/// the duty in byte 2; a corrupted-data error reports a direction code
/// outside the `Fwd`/`Rev` domain; a transport error leaves the buffer
/// zeroed and the reply log untouched.
pub open spec fn motor_read_post<T: Transport>(
    pre: DiddyBorg<T>,
    post: DiddyBorg<T>,
    command: Command,
    r: Result<Power, DiddyBorgError<T::Error>>,
) -> bool {
    &&& post.response().len() == I2C_READ_LEN
    &&& match r {
        Ok(power) => {
            &&& post.transport().sent() == pre.transport().sent().push(
                seq![command.spec_value()],
            )
            &&& post.transport().received() == pre.transport().received().push(post.response())
            &&& (post.response()[1] == CommandValue::Fwd.spec_value() || post.response()[1]
                == CommandValue::Rev.spec_value())
            &&& power.permille == signed_power_of(post.response()[1], post.response()[2] as int)
        },
        Err(DiddyBorgError::I2C(_)) => {
            &&& post.response() == zeroed_response()
            &&& post.transport().received() == pre.transport().received()
            &&& (post.transport().sent() == pre.transport().sent() || post.transport().sent()
                == pre.transport().sent().push(seq![command.spec_value()]))
        },
        Err(DiddyBorgError::CorruptedData) => {
            &&& post.transport().sent() == pre.transport().sent().push(
                seq![command.spec_value()],
            )
            &&& post.transport().received() == pre.transport().received().push(post.response())
            &&& post.response()[1] != CommandValue::Fwd.spec_value()
            &&& post.response()[1] != CommandValue::Rev.spec_value()
        },
        Err(DiddyBorgError::NotFound) => false,
    }
}

} // verus!
