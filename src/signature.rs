//! The records of the device electronic signature, as stored in flash memory.
//!
//! The chip is little-endian: a 16-bit field reads its low byte from the lower
//! address.
use vstd::prelude::*;

use crate::overlay::{le16, u16_from_le};

verus! {

/// The supply voltage, in millivolts, at which the factory calibration was done.
/// It is fixed, whatever the stored calibration code says.
pub const VDDA_CALIB_MV: u32 = 3000;

/// Unique device identifier: X and Y coordinates on the wafer, then the wafer
/// number and the seven bytes of the lot number (12 bytes).
#[derive(Clone, Copy, Debug, Hash)]
pub struct Uid {
    raw: [u8; 12],
}

impl View for Uid {
    type V = Seq<u8>;

    /// The 12 bytes of the record.
    closed spec fn view(&self) -> Seq<u8> {
        self.raw@
    }
}

impl Uid {
    /// Lays the record over its 12 bytes.
    pub fn from_bytes(raw: [u8; 12]) -> (r: Uid)
        ensures
            r@ == raw@,
    {
        Uid { raw }
    }

    /// X coordinate on the wafer.
    pub fn x(&self) -> (r: u16)
        ensures
            r == le16(self@[0], self@[1]),
    {
        u16_from_le(self.raw[0], self.raw[1])
    }

    /// Y coordinate on the wafer.
    pub fn y(&self) -> (r: u16)
        ensures
            r == le16(self@[2], self@[3]),
    {
        u16_from_le(self.raw[2], self.raw[3])
    }

    /// Wafer number: the first byte of the wafer and lot block.
    pub fn waf_num(&self) -> (r: u8)
        ensures
            r == self@[4],
    {
        self.raw[4]
    }

    /// Lot number: the seven bytes after the wafer number. They are meant as
    /// ASCII text, but nothing guarantees that, so they are handed out as bytes.
    pub fn lot_num(&self) -> (r: [u8; 7])
        ensures
            r@ == self@.subrange(5, 12),
    {
        let r: [u8; 7] = [
            self.raw[5],
            self.raw[6],
            self.raw[7],
            self.raw[8],
            self.raw[9],
            self.raw[10],
            self.raw[11],
        ];
        assert(r@ =~= self@.subrange(5, 12));
        r
    }

    /// The whole identifier as its 12 bytes.
    pub fn as_bytes(&self) -> (r: [u8; 12])
        ensures
            r@ == self@,
    {
        self.raw
    }
}

/// Size of the integrated flash memory, stored in kilobytes.
#[derive(Clone, Copy, Debug)]
pub struct FlashSize {
    raw: [u8; 2],
}

impl View for FlashSize {
    type V = Seq<u8>;

    /// The 2 bytes of the record.
    closed spec fn view(&self) -> Seq<u8> {
        self.raw@
    }
}

impl FlashSize {
    /// Lays the record over its 2 bytes.
    pub fn from_bytes(raw: [u8; 2]) -> (r: FlashSize)
        ensures
            r@ == raw@,
    {
        FlashSize { raw }
    }

    /// The flash size in kilobytes, as stored.
    pub fn kilo_bytes(&self) -> (r: u16)
        ensures
            r == le16(self@[0], self@[1]),
    {
        u16_from_le(self.raw[0], self.raw[1])
    }

    /// The flash size in bytes: 1024 for each kilobyte.
    pub fn bytes(&self) -> (r: usize)
        ensures
            r == 1024 * le16(self@[0], self@[1]),
    {
        self.kilo_bytes() as usize * 1024
    }
}

/// ADC reference-voltage calibration code, measured at the factory with the
/// supply at [`VDDA_CALIB_MV`].
#[derive(Clone, Copy, Debug)]
pub struct VrefCal {
    raw: [u8; 2],
}

impl View for VrefCal {
    type V = Seq<u8>;

    /// The 2 bytes of the record.
    closed spec fn view(&self) -> Seq<u8> {
        self.raw@
    }
}

impl VrefCal {
    /// Lays the record over its 2 bytes.
    pub fn from_bytes(raw: [u8; 2]) -> (r: VrefCal)
        ensures
            r@ == raw@,
    {
        VrefCal { raw }
    }

    /// The raw calibration code.
    pub fn read(&self) -> (r: u16)
        ensures
            r == le16(self@[0], self@[1]),
    {
        u16_from_le(self.raw[0], self.raw[1])
    }
}

/// Temperature-sensor ADC code taken at the factory at 30 °C (TS_CAL1).
#[derive(Clone, Copy, Debug)]
pub struct VtempCal30 {
    raw: [u8; 2],
}

impl View for VtempCal30 {
    type V = Seq<u8>;

    /// The 2 bytes of the record.
    closed spec fn view(&self) -> Seq<u8> {
        self.raw@
    }
}

impl VtempCal30 {
    /// The temperature, in degrees Celsius, of this calibration point (TS_CAL1_TEMP).
    pub const TEMP_DEGREES: u16 = 30;

    /// Lays the record over its 2 bytes.
    pub fn from_bytes(raw: [u8; 2]) -> (r: VtempCal30)
        ensures
            r@ == raw@,
    {
        VtempCal30 { raw }
    }

    /// The raw ADC code.
    pub fn read(&self) -> (r: u16)
        ensures
            r == le16(self@[0], self@[1]),
    {
        u16_from_le(self.raw[0], self.raw[1])
    }
}

/// Temperature-sensor ADC code taken at the factory at the high calibration
/// point (TS_CAL2), nominally 130 °C.
#[derive(Clone, Copy, Debug)]
pub struct VtempCal130 {
    raw: [u8; 2],
}

impl View for VtempCal130 {
    type V = Seq<u8>;

    /// The 2 bytes of the record.
    closed spec fn view(&self) -> Seq<u8> {
        self.raw@
    }
}

impl VtempCal130 {
    /// The nominal temperature, in degrees Celsius, of this calibration point
    /// (TS_CAL2_TEMP). Known limitation: the value is not parameterized per part
    /// number; some sub-families take this point at 110 °C, not 130 °C.
    pub const TEMP_DEGREES: u16 = 130;

    /// Lays the record over its 2 bytes.
    pub fn from_bytes(raw: [u8; 2]) -> (r: VtempCal130)
        ensures
            r@ == raw@,
    {
        VtempCal130 { raw }
    }

    /// The raw ADC code.
    pub fn read(&self) -> (r: u16)
        ensures
            r == le16(self@[0], self@[1]),
    {
        u16_from_le(self.raw[0], self.raw[1])
    }
}

/// A record holds nothing but its bytes, and no accessor changes them: two
/// records read from the same bytes are the same value. Every accessor's result
/// is a function of those bytes alone, so reading a record again, through the
/// same accessor, gives the same value each time.
pub proof fn lemma_reads_repeat()
    ensures
        forall|a: Uid| #[trigger] a@.len() == 12,
        forall|a: Uid, b: Uid| #![trigger a@, b@] a@ == b@ ==> a == b,
        forall|a: FlashSize| #[trigger] a@.len() == 2,
        forall|a: FlashSize, b: FlashSize| #![trigger a@, b@] a@ == b@ ==> a == b,
        forall|a: VrefCal| #[trigger] a@.len() == 2,
        forall|a: VrefCal, b: VrefCal| #![trigger a@, b@] a@ == b@ ==> a == b,
        forall|a: VtempCal30| #[trigger] a@.len() == 2,
        forall|a: VtempCal30, b: VtempCal30| #![trigger a@, b@] a@ == b@ ==> a == b,
        forall|a: VtempCal130| #[trigger] a@.len() == 2,
        forall|a: VtempCal130, b: VtempCal130| #![trigger a@, b@] a@ == b@ ==> a == b,
{
    assert forall|a: Uid, b: Uid| a@ == b@ implies a == b by {
        assert(a.raw =~= b.raw);
    }
    assert forall|a: FlashSize, b: FlashSize| a@ == b@ implies a == b by {
        assert(a.raw =~= b.raw);
    }
    assert forall|a: VrefCal, b: VrefCal| a@ == b@ implies a == b by {
        assert(a.raw =~= b.raw);
    }
    assert forall|a: VtempCal30, b: VtempCal30| a@ == b@ implies a == b by {
        assert(a.raw =~= b.raw);
    }
    assert forall|a: VtempCal130, b: VtempCal130| a@ == b@ implies a == b by {
        assert(a.raw =~= b.raw);
    }
}

} // verus!
