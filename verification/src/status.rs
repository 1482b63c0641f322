//! The status byte the sensor returns on a bare read.

use vstd::prelude::*;

verus! {

/// Bit 7 of the status byte: the device is busy with a command or a
/// measurement.
pub const BUSY: u8 = 0x80;

/// Bit 3 of the status byte: the calibration coefficients are loaded.
pub const CALIBRATED: u8 = 0x08;

/// Whether a status byte has its busy bit set.
pub open spec fn busy_in(status: u8) -> bool {
    status >= 0x80
}

/// Whether a status byte has its calibrated bit set.
pub open spec fn calibrated_in(status: u8) -> bool {
    status / 0x08 % 2 == 1
}

/// A status byte with every bit but the two recognized ones cleared.
pub open spec fn recognized(status: u8) -> u8 {
    match (busy_in(status), calibrated_in(status)) {
        (true, true) => 0x88,
        (true, false) => 0x80,
        (false, true) => 0x08,
        (false, false) => 0x00,
    }
}

/// The recognized flags of a status byte.
#[derive(Clone, Copy, Debug, PartialEq, Eq)]
pub struct StatusFlags {
    bits: u8,
}

impl View for StatusFlags {
    type V = u8;

    closed spec fn view(&self) -> u8 {
        self.bits
    }
}

/// The flags in terms of bit masks: busy is bit 7, calibrated is bit 3, and
/// the recognized part of a status byte is what the two masks let through.
pub proof fn lemma_flags_by_masks(status: u8)
    ensures
        busy_in(status) == (status & BUSY != 0),
        calibrated_in(status) == (status & CALIBRATED != 0),
        recognized(status) == status & (BUSY | CALIBRATED),
{
    assert((status & 0x80 != 0) == (status >= 0x80)) by (bit_vector);
    assert((status & 0x08 != 0) == (status / 0x08 % 2 == 1)) by (bit_vector);
    assert(status & (BUSY | CALIBRATED) == (if status & 0x80 != 0 {
        0x80u8
    } else {
        0u8
    }) + (if status & 0x08 != 0 {
        0x08u8
    } else {
        0u8
    })) by (bit_vector);
}

impl StatusFlags {
    /// Only recognized bits are ever stored.
    #[verifier::type_invariant]
    spec fn well_formed(self) -> bool {
        recognized(self.bits) == self.bits
    }

    /// Interprets a status byte, dropping the bits that are not recognized.
    pub fn from_bits_truncate(status: u8) -> (flags: StatusFlags)
        ensures
            flags@ == recognized(status),
            busy_in(flags@) == busy_in(status),
            calibrated_in(flags@) == calibrated_in(status),
    {
        proof {
            lemma_flags_by_masks(status);
        }
        StatusFlags { bits: status & (BUSY | CALIBRATED) }
    }

    /// The flags as a byte; only recognized bits can be set in it.
    pub fn bits(&self) -> (bits: u8)
        ensures
            bits == self@,
            recognized(bits) == bits,
    {
        proof {
            use_type_invariant(self);
        }
        self.bits
    }

    /// Whether the device reported that it is busy.
    pub fn is_busy(&self) -> (busy: bool)
        ensures
            busy == busy_in(self@),
    {
        proof {
            lemma_flags_by_masks(self.bits);
        }
        self.bits & BUSY != 0
    }

    /// Whether the device reported that it is calibrated.
    pub fn is_calibrated(&self) -> (calibrated: bool)
        ensures
            calibrated == calibrated_in(self@),
    {
        proof {
            lemma_flags_by_masks(self.bits);
        }
        self.bits & CALIBRATED != 0
    }
}

} // verus!
