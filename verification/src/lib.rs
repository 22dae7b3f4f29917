//! A translator from a stack-based virtual-machine language to the assembly
//! language of a 16-bit machine with one data register (D), one address
//! register (A), and memory-mapped stack and segment-base pointers.
//!
//! The translation is a pure function from an ordered sequence of instruction
//! lines (plus a translation-unit name) to an ordered sequence of assembly
//! lines.  Every emission rule is stated exactly in the contracts: the
//! per-command output, the segment addressing scheme, the calling convention,
//! and the scoping of control-flow labels.

pub mod emitter;
pub mod generate;
pub mod instruction;
pub mod text;
pub mod translate;
