//! Host-side frame protocol and stage contracts of a single-pass full-screen
//! renderer: the per-frame constant block, the pointer tracker that fills it,
//! the device and surface lifecycle, and the exact parts of the two shader
//! stages.
//!
//! Every single-precision quantity is carried as its IEEE 754 binary32 bit
//! pattern, so that records can be laid out byte for byte and compared
//! exactly.

pub mod constants;
pub mod input;
pub mod lifecycle;
pub mod pipeline;
pub mod scalar;
pub mod stages;
