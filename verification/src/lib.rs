//! Memory subsystem of a classic 8-bit handheld game console.
//!
//! The crate models a unified 16-bit address space that fans out to fixed
//! physical regions, a cartridge-header decoder that extracts and validates
//! the fixed-offset metadata block of a ROM image, and the power-on sequence
//! that copies the first 32 KiB of cartridge data into the address space.

pub mod bus;
pub mod cartridge;
pub mod cpu;
