//! Cycle-exact emulation core for the 8-bit processor found in 1980s
//! home-console hardware: a byte-addressable memory bus, a register file with
//! status flags, and an instruction engine that executes one instruction per
//! call and reports the exact cycle cost, including page-boundary and
//! branch-taken penalties.
//!
//! Window creation, frame pacing, ROM-file loading and pixel presentation are
//! thin glue around this core and live outside the verified library.

pub mod nes;
