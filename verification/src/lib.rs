//! Decoder for a region-container file format: a flat file holding up to
//! 1024 independently compressed chunk records behind an 8 KiB header of
//! location and timestamp tables, together with the fixed-length sequence
//! codec used by the downstream document schema.

pub mod arrays;
pub mod bb;
pub mod entities;
pub mod region;
pub mod uuid;
pub mod vec;
