//! Early-boot core of a freestanding x86 kernel: the console, formatted
//! output, fault reporting, the interrupt table and the bring-up sequence.

pub mod console;
pub mod fmt;
pub mod fault;
pub mod ident;
pub mod table;
pub mod kernel;
pub mod runs;
