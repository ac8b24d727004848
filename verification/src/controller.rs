//! The relay controller: a channel-oriented, mask-safe interface over the
//! raw byte-level device handle. Every pin value it returns or transmits has
//! the reserved high bits cleared, and every channel-mutating entry point
//! verifies the write by reading the pins back.

use vstd::prelude::*;

use crate::device::io_read_error;
use crate::device::io_write_error;
use crate::device::write_effect;
use crate::device::write_result;
use crate::device::ChipType;
use crate::device::RelayError;
use crate::device::SimDevice;
use crate::pins::lemma_mask_idempotent;
use crate::pins::mask;
use crate::pins::mask_spec;

verus! {

/// The controller in its `Open` state: sole owner of one device handle.
/// Construction is the only way in; any I/O failure is terminal for the
/// call that met it and is surfaced, never retried.
#[derive(Debug)]
pub struct RelayController {
    /// The adapter this controller exclusively owns.
    pub dev: SimDevice,
}

/// What opening an adapter yields: each construction step fails atomically,
/// in order — context allocation, matching the descriptor, entering bit-bang
/// mode, checking the chip revision — and only a device that passes all four
/// becomes an open controller.
pub open spec fn open_result(d: SimDevice, descriptor: String) -> Result<RelayController, RelayError> {
    if d.fail_alloc {
        Err(RelayError::Allocation)
    } else if d.fail_open {
        Err(RelayError::DeviceNotFound { descriptor })
    } else if d.fail_mode {
        Err(RelayError::ModeConfiguration)
    } else if d.chip != ChipType::R {
        Err(RelayError::UnsupportedChip { found: d.chip, expected: ChipType::R })
    } else {
        Ok(RelayController { dev: d })
    }
}

/// What `read_pins` returns: the instantaneous register, masked.
pub open spec fn read_pins_result(d: SimDevice) -> Result<u8, RelayError> {
    if d.fail_read {
        Err(io_read_error())
    } else {
        Ok(mask_spec(d.pins))
    }
}

/// The device after `set_pins(next)` or `set_and_check_pins(next)`: the
/// masked request latches unless the transport fails or drops the write.
pub open spec fn set_pins_effect(d: SimDevice, next: u8) -> SimDevice {
    write_effect(d, mask_spec(next))
}

/// What `set_and_check_pins(next)` returns: the write error, else the
/// read-back error, else a verification mismatch whenever the masked
/// read-back differs from the masked request.
pub open spec fn set_and_check_result(d: SimDevice, next: u8) -> Result<(), RelayError> {
    if d.fail_write {
        Err(io_write_error())
    } else if d.fail_read {
        Err(io_read_error())
    } else if mask_spec(set_pins_effect(d, next).pins) != mask_spec(next) {
        Err(RelayError::VerificationMismatch {
            expected: mask_spec(next),
            actual: mask_spec(set_pins_effect(d, next).pins),
        })
    } else {
        Ok(())
    }
}

/// The byte `frob_pins` writes: the current masked pins with the clear-mask
/// bits dropped, the set-mask bits raised, and the result masked. Clear is
/// applied before set, so a channel named in both masks ends up set.
pub open spec fn frob_next(current: u8, clear_mask: u8, set_mask: u8) -> u8 {
    mask_spec((current & !clear_mask) | set_mask)
}

/// The device after `frob_pins`: unchanged if the leading read fails, else
/// as after `set_and_check_pins` of the frobbed byte.
pub open spec fn frob_effect(d: SimDevice, clear_mask: u8, set_mask: u8) -> SimDevice {
    if d.fail_read {
        d
    } else {
        set_pins_effect(d, frob_next(mask_spec(d.pins), clear_mask, set_mask))
    }
}

/// What `frob_pins` returns.
pub open spec fn frob_result(d: SimDevice, clear_mask: u8, set_mask: u8) -> Result<(), RelayError> {
    if d.fail_read {
        Err(io_read_error())
    } else {
        set_and_check_result(d, frob_next(mask_spec(d.pins), clear_mask, set_mask))
    }
}

/// The frob computation for a caller that drives a physical adapter itself:
/// the byte to write, given the pins just read back, masked.
pub fn frob_next_byte(current: u8, clear_mask: u8, set_mask: u8) -> (r: u8)
    ensures
        r == frob_next(current, clear_mask, set_mask),
{
    mask((current & !clear_mask) | set_mask)
}

/// The verify-after-write decision for a caller that drives a physical
/// adapter itself: succeeds exactly when the read-back equals the masked
/// request, and otherwise reports both bytes.
pub fn check_readback(expected: u8, actual: u8) -> (r: Result<(), RelayError>)
    ensures
        r is Ok <==> actual == expected,
        actual != expected ==> r == Err::<(), RelayError>(
            crate::device::verification_mismatch_error(expected, actual),
        ),
{
    if actual != expected {
        Err(RelayError::VerificationMismatch { expected, actual })
    } else {
        Ok(())
    }
}

impl RelayController {
    /// Opens the adapter `dev` addressed by `descriptor` and takes exclusive
    /// ownership of it: allocates the driver context, opens the matching
    /// device, puts it into bit-bang mode with the channel mask as the
    /// pin-direction mask, and verifies the chip revision. Each step fails
    /// atomically with its own error kind.
    pub fn new(dev: SimDevice, descriptor: String) -> (r: Result<RelayController, RelayError>)
        ensures
            r == open_result(dev, descriptor),
    {
        if dev.fail_alloc {
            return Err(RelayError::Allocation);
        }
        if dev.fail_open {
            return Err(RelayError::DeviceNotFound { descriptor });
        }
        if dev.fail_mode {
            return Err(RelayError::ModeConfiguration);
        }
        if dev.chip != ChipType::R {
            return Err(RelayError::UnsupportedChip { found: dev.chip, expected: ChipType::R });
        }
        Ok(RelayController { dev })
    }

    /// Reads the current pins; the reserved high bits of the result are
    /// always zero. No side effect beyond the I/O read.
    pub fn read_pins(&self) -> (r: Result<u8, RelayError>)
        ensures
            r == read_pins_result(self.dev),
    {
        match self.dev.read_raw() {
            Ok(raw) => Ok(mask(raw)),
            Err(e) => Err(e),
        }
    }

    /// Writes `next & MASK` to the adapter without verifying that it landed;
    /// verification is the caller's policy, paid for with an extra read.
    pub fn set_pins(&mut self, next: u8) -> (r: Result<(), RelayError>)
        ensures
            final(self).dev == set_pins_effect(old(self).dev, next),
            r == write_result(old(self).dev),
    {
        self.dev.write_raw(mask(next))
    }

    /// Writes `next & MASK`, reads the pins back, and fails with a
    /// verification mismatch if the observed state differs from the masked
    /// request. It never reports success while the observed state differs:
    /// the required operation for every channel-mutating command, because a
    /// transport may report success on a write that did not land.
    pub fn set_and_check_pins(&mut self, next: u8) -> (r: Result<(), RelayError>)
        ensures
            final(self).dev == set_pins_effect(old(self).dev, next),
            r == set_and_check_result(old(self).dev, next),
    {
        let expected = mask(next);
        if let Err(e) = self.set_pins(next) {
            return Err(e);
        }
        let actual = match self.read_pins() {
            Ok(p) => p,
            Err(e) => {
                return Err(e);
            },
        };
        if actual != expected {
            return Err(RelayError::VerificationMismatch { expected, actual });
        }
        Ok(())
    }

    /// Read-modify-write in one round trip: reads the current pins, clears
    /// the `clear_mask` bits, sets the `set_mask` bits, masks the result and
    /// performs a verified write. Clear is applied before set, so a channel
    /// named in both masks ends up set.
    pub fn frob_pins(&mut self, clear_mask: u8, set_mask: u8) -> (r: Result<(), RelayError>)
        ensures
            final(self).dev == frob_effect(old(self).dev, clear_mask, set_mask),
            r == frob_result(old(self).dev, clear_mask, set_mask),
    {
        let current = match self.read_pins() {
            Ok(p) => p,
            Err(e) => {
                return Err(e);
            },
        };
        let next = mask((current & !clear_mask) | set_mask);
        proof {
            lemma_mask_idempotent((mask_spec(old(self).dev.pins) & !clear_mask) | set_mask);
        }
        self.set_and_check_pins(next)
    }
}

} // verus!
