//! Hardware-facing core of a bare-metal AArch64 kernel.
//!
//! The crate models memory-mapped peripheral registers as typed values,
//! proves the bit-level laws of field composition and read-modify-write
//! access, and builds a polling-mode console driver on that model. The
//! architecture-intrinsic instructions themselves (barriers, system
//! register access, semihosting) cannot be issued from verified code;
//! the surrounding kernel performs them and feeds the raw values to the
//! functions here.

pub mod arch;
pub mod bitfield;
pub mod gpio;
pub mod mini_uart;
pub mod registers;
