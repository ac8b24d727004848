//! The device handle, modelled as an explicit value: the latched output
//! register of one FTDI-style adapter in bit-bang mode, together with
//! fault-injection switches standing for every way the USB transport can
//! fail. Owning the handle as a plain value lets a test suite substitute a
//! simulated transport without touching real hardware; the process that
//! drives a physical adapter performs the raw reads and writes itself and
//! keeps to the same contracts.

use vstd::prelude::*;

verus! {

/// Chip revisions an FTDI-style adapter can report after opening.
#[derive(Clone, Copy, Debug, PartialEq, Eq, Structural)]
pub enum ChipType {
    Am,
    Bm,
    C2232,
    R,
    H2232,
    H4232,
    H232,
    X230,
}

/// The raw transfer that an I/O failure interrupted.
#[derive(Clone, Copy, Debug, PartialEq, Eq, Structural)]
pub enum IoOperation {
    Read,
    Write,
}

/// Every failure a driver operation can surface. All are terminal for the
/// call that raised them; none is retried internally.
#[derive(Debug, PartialEq, Eq)]
pub enum RelayError {
    /// The native driver context could not be allocated.
    Allocation,
    /// No adapter matched the connection-string descriptor.
    DeviceNotFound { descriptor: String },
    /// The adapter refused to enter bit-bang mode.
    ModeConfiguration,
    /// The adapter's chip revision is not the one this board family uses.
    UnsupportedChip { found: ChipType, expected: ChipType },
    /// A raw transfer did not report success for exactly one byte.
    Io { operation: IoOperation },
    /// A write reported success but the read-back differed from the
    /// requested value.
    VerificationMismatch { expected: u8, actual: u8 },
}

/// The error a failed raw read surfaces.
pub open spec fn io_read_error() -> RelayError {
    RelayError::Io { operation: IoOperation::Read }
}

/// The error a failed raw write surfaces.
pub open spec fn io_write_error() -> RelayError {
    RelayError::Io { operation: IoOperation::Write }
}

/// The error a failed write verification surfaces.
pub open spec fn verification_mismatch_error(expected: u8, actual: u8) -> RelayError {
    RelayError::VerificationMismatch { expected, actual }
}

/// Whether an operation outcome is a verification mismatch.
pub open spec fn is_verification_mismatch(r: Result<(), RelayError>) -> bool {
    match r {
        Err(RelayError::VerificationMismatch { .. }) => true,
        _ => false,
    }
}

/// One adapter as the driver sees it: the latched output register, the chip
/// revision it reports, and switches selecting the transport faults to
/// simulate. A device with every switch off behaves as healthy hardware.
#[derive(Clone, Copy, Debug, PartialEq, Eq, Structural)]
pub struct SimDevice {
    /// The latched output byte, as a raw read would report it.
    pub pins: u8,
    /// The chip revision the adapter reports.
    pub chip: ChipType,
    /// Allocating the driver context fails.
    pub fail_alloc: bool,
    /// No device matches the descriptor on open.
    pub fail_open: bool,
    /// Switching the adapter into bit-bang mode fails.
    pub fail_mode: bool,
    /// A raw read reports failure.
    pub fail_read: bool,
    /// A raw write reports failure.
    pub fail_write: bool,
    /// A raw write reports success without latching the byte: the silent
    /// partial write that verify-after-write exists to catch.
    pub drop_write: bool,
}

/// The device after one raw write of `b`: the register latches `b` unless
/// the write fails outright or is silently dropped; nothing else changes.
pub open spec fn write_effect(d: SimDevice, b: u8) -> SimDevice {
    if d.fail_write || d.drop_write {
        d
    } else {
        SimDevice { pins: b, ..d }
    }
}

/// What one raw write reports.
pub open spec fn write_result(d: SimDevice) -> Result<(), RelayError> {
    if d.fail_write {
        Err(io_write_error())
    } else {
        Ok(())
    }
}

/// What one raw read reports: the instantaneous register, unmasked.
pub open spec fn read_result(d: SimDevice) -> Result<u8, RelayError> {
    if d.fail_read {
        Err(io_read_error())
    } else {
        Ok(d.pins)
    }
}

impl SimDevice {
    /// A healthy adapter of the expected chip revision with all channels
    /// de-energized.
    pub fn healthy() -> (r: SimDevice)
        ensures
            r.pins == 0,
            r.chip == ChipType::R,
            !r.fail_alloc,
            !r.fail_open,
            !r.fail_mode,
            !r.fail_read,
            !r.fail_write,
            !r.drop_write,
    {
        SimDevice {
            pins: 0,
            chip: ChipType::R,
            fail_alloc: false,
            fail_open: false,
            fail_mode: false,
            fail_read: false,
            fail_write: false,
            drop_write: false,
        }
    }

    /// Reads the instantaneous pin state from the adapter's output port.
    pub fn read_raw(&self) -> (r: Result<u8, RelayError>)
        ensures
            r == read_result(*self),
    {
        if self.fail_read {
            Err(RelayError::Io { operation: IoOperation::Read })
        } else {
            Ok(self.pins)
        }
    }

    /// Writes one byte to the adapter's output port.
    pub fn write_raw(&mut self, b: u8) -> (r: Result<(), RelayError>)
        ensures
            *final(self) == write_effect(*old(self), b),
            r == write_result(*old(self)),
    {
        if self.fail_write {
            Err(RelayError::Io { operation: IoOperation::Write })
        } else {
            if !self.drop_write {
                self.pins = b;
            }
            Ok(())
        }
    }
}

} // verus!
