//! Factory-programmed device signature: the unique identifier, the flash size,
//! and the ADC reference-voltage and temperature-sensor calibration points.
//!
//! Each record is a typed, read-only view over the bytes that hold it. The
//! bytes come from a span of memory through [`overlay::overlay`]; binding a
//! record to its fixed address on a given chip is left to the caller.
mod overlay;
mod signature;

pub use overlay::{overlay, u16_from_le};
pub use signature::{lemma_reads_repeat, FlashSize, Uid, VrefCal, VtempCal130, VtempCal30, VDDA_CALIB_MV};
