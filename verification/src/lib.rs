//! Silent-mode low-pass filter for the per-transducer duty and phase control
//! streams of a phased-array acoustic emulator.
//!
//! The filter is a fixed-coefficient, linear-phase FIR kernel of 199 taps,
//! applied to two parallel 8-bit streams. All arithmetic is carried out
//! exactly, on taps scaled by 1e7 (the reference table is given to seven
//! decimal places), so the accumulators are plain integers. The duty output is
//! rounded and saturated to `[0, 255]`; the phase output is rounded and
//! reduced modulo 256.

pub mod filter;
pub mod laws;
pub mod taps;
