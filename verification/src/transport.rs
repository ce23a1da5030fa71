//! The transport abstraction: a byte-level command/response device.
//!
//! The driver's logic is written against this trait, so the same session
//! code runs over a real bus device and over [`crate::mock::MockDevice`].
//! An implementation over an I2C device file lives outside the verified
//! library, exactly as the peripheral itself does; the trait's contracts
//! state the two things the session relies on, namely which frames have
//! been handed to the device and which replies the device has handed
//! back.

use vstd::prelude::*;

verus! {

/// Length in bytes of every response read from the peripheral.
pub const I2C_READ_LEN: usize = 4;

/// A byte-level device that accepts command frames and answers fixed-length
/// reads. The ghost functions [`Transport::sent`] and
/// [`Transport::received`] model the traffic so far: the frames the device
/// has accepted and the replies it has delivered, each oldest first.
/// Nothing is promised about the bytes inside a reply, since they come
/// from the peripheral.
pub trait Transport {
    /// The transport's own error type, carried inside
    /// [`crate::error::DiddyBorgError::I2C`].
    type Error;

    /// The command frames the device has accepted so far, oldest first.
    /// An implementation should override this to model its own frame log;
    /// under the default, which models no frame ever, the `write` contract
    /// cannot hold of a successful write, so a transport that keeps the
    /// default can honour the contracts only by always failing.
    open spec fn sent(&self) -> Seq<Seq<u8>> {
        Seq::empty()
    }

    /// The replies the device has delivered to successful reads so far,
    /// oldest first. As with [`Transport::sent`], an implementation should
    /// override this; under the default, which models no reply ever, the
    /// `read` contract cannot hold of a successful read.
    open spec fn received(&self) -> Seq<Seq<u8>> {
        Seq::empty()
    }

    /// Transmit one command frame. On success the frame was accepted by
    /// the device; on failure it is not known whether it was, but nothing
    /// other than this one frame can have been accepted. A write delivers
    /// no reply.
    fn write(&mut self, data: &[u8]) -> (r: Result<(), Self::Error>)
        ensures
            r is Ok ==> final(self).sent() == old(self).sent().push(data@),
            r is Err ==> final(self).sent() == old(self).sent() || final(self).sent() == old(
                self,
            ).sent().push(data@),
            final(self).received() == old(self).received(),
    ;

    /// Block until the peripheral has had `millis` milliseconds to prepare
    /// its reply to the command written before. No traffic takes place.
    fn settle(&mut self, millis: u64)
        ensures
            final(self).sent() == old(self).sent(),
            final(self).received() == old(self).received(),
    ;

    /// Read one fixed-length response into `buffer`. On success the bytes
    /// placed in the buffer are exactly the reply the device delivered; on
    /// failure the buffer is left untouched and nothing was delivered.
    fn read(&mut self, buffer: &mut [u8; I2C_READ_LEN]) -> (r: Result<(), Self::Error>)
        ensures
            final(self).sent() == old(self).sent(),
            r is Ok ==> final(self).received() == old(self).received().push(final(buffer)@),
            r is Err ==> final(buffer)@ == old(buffer)@ && final(self).received() == old(
                self,
            ).received(),
    ;
}

} // verus!
