//! Decoder for the PowerPC Floating-Point Status and Control Register (FPSCR).
//!
//! The register is 64 bits wide. PowerPC numbers its bits from the most
//! significant one (bit 0) to the least significant one (bit 63). Given a
//! register value, the decoder tells which bits are asserted and what each bit
//! is called.
//!
//! * [`layout`] is the mathematical description of the register: which bit of
//!   a value is which, what each bit is called, and what a report holds.
//! * [`fpscr`] holds the decoder itself.
//! * [`parse`] reads a register value written in hexadecimal.
//! * [`command`] turns a command line into the report that it asks for.
//! * [`error`] names what can go wrong.
//! * [`laws`] proves what holds of the layout and of the notation for every
//!   register value.

pub mod command;
pub mod error;
pub mod fpscr;
pub mod laws;
pub mod layout;
pub mod parse;
