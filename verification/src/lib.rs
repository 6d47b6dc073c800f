//! Shannon entropy of the byte-value distribution of a stream.
//!
//! The library builds a 256-bucket frequency histogram from byte chunks and
//! proves that the histogram is a pure function of the bytes consumed: the
//! counters always sum to the running total, and feeding the same bytes in
//! chunks of any sizes yields the same counters. The floating-point entropy
//! formula itself is evaluated by the surrounding program from the verified
//! counters.

pub mod cli;
pub mod histogram;
