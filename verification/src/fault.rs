//! Fault reporting: the one place where every unrecoverable condition ends.
//!
//! A report writes a single diagnostic line to the console. It allocates
//! nothing and cannot fail, so it may run before the interrupt table is
//! active and with interrupts masked. No report is followed by further work:
//! the caller halts the machine.

use vstd::prelude::*;
use vstd::string::*;
use crate::console::Console;
use crate::fmt::{numeral, write_decimal, write_hex, NEWLINE};

verus! {

/// A place in the source: file and line.
#[derive(Clone, Copy, Debug)]
pub struct Location<'a> {
    pub file: &'a str,
    pub line: u32,
}

/// What is known of one software fault.
#[derive(Clone, Copy, Debug)]
pub struct PanicRecord<'a> {
    pub message: Option<&'a str>,
    pub location: Option<Location<'a>>,
}

/// What the processor hands over when an exception traps.
#[derive(Clone, Copy, Debug, PartialEq, Eq, Structural)]
pub struct FaultRecord {
    pub vector: u8,
    pub instruction_pointer: Option<u64>,
}

/// Why bring-up cannot go on.
#[derive(Clone, Copy, Debug, PartialEq, Eq, Structural)]
pub enum BootError {
    /// No handler address was given for this vector.
    NullHandler { vector: u8 },
    /// The processor did not take the interrupt table.
    TableRejected,
}

/// Whether `part` occurs in `text` as a run of adjacent bytes.
pub open spec fn contains(text: Seq<u8>, part: Seq<u8>) -> bool {
    exists|at: int|
        0 <= at && at + part.len() <= text.len() && #[trigger] text.subrange(
            at,
            at + part.len(),
        ) == part
}

/// The line for a software fault: `panic`, then ` at <file>:<line>` where the
/// location is known, then `: <message>` where there is a message.
pub open spec fn panic_text(record: PanicRecord<'_>) -> Seq<u8> {
    let place = match record.location {
        Some(location) => " at ".spec_bytes() + location.file.spec_bytes() + ":".spec_bytes()
            + numeral(location.line as nat, 10),
        None => Seq::empty(),
    };
    let message = match record.message {
        Some(message) => ": ".spec_bytes() + message.spec_bytes(),
        None => Seq::empty(),
    };
    ("panic".spec_bytes() + place + message).push(NEWLINE)
}

/// The line for a trapped exception: `fault: vector <n>` in decimal, then
/// ` at 0x<address>` in hexadecimal where the instruction pointer is known.
pub open spec fn fault_text(record: FaultRecord) -> Seq<u8> {
    let place = match record.instruction_pointer {
        Some(address) => " at 0x".spec_bytes() + numeral(address as nat, 16),
        None => Seq::empty(),
    };
    ("fault: vector ".spec_bytes() + numeral(record.vector as nat, 10) + place).push(NEWLINE)
}

/// The line for a failed bring-up.
pub open spec fn boot_failure_text(error: BootError) -> Seq<u8> {
    let reason = match error {
        BootError::NullHandler { vector } => "no handler for vector ".spec_bytes() + numeral(
            vector as nat,
            10,
        ),
        BootError::TableRejected => "interrupt table rejected".spec_bytes(),
    };
    ("boot failure: ".spec_bytes() + reason).push(NEWLINE)
}

/// Reports a software fault.
pub fn report_panic(console: &mut Console, record: &PanicRecord<'_>)
    ensures
        final(console)@ == old(console)@ + panic_text(*record),
{
    let ghost mut line = "panic".spec_bytes();
    console.write_str("panic");
    if let Some(location) = record.location {
        console.write_str(" at ");
        console.write_str(location.file);
        console.write_str(":");
        write_decimal(console, location.line as u64);
        proof {
            line = line + (" at ".spec_bytes() + location.file.spec_bytes() + ":".spec_bytes()
                + numeral(location.line as nat, 10));
        }
    } else {
        proof {
            line = line + Seq::<u8>::empty();
        }
    }
    assert(console@ == old(console)@ + line);
    if let Some(message) = record.message {
        console.write_str(": ");
        console.write_str(message);
        proof {
            line = line + (": ".spec_bytes() + message.spec_bytes());
        }
    } else {
        proof {
            line = line + Seq::<u8>::empty();
        }
    }
    assert(console@ == old(console)@ + line);
    console.write_byte(NEWLINE);
    assert(console@ == old(console)@ + line.push(NEWLINE));
}

/// Reports a trapped exception with its vector and, where known, the
/// address of the faulting instruction.
pub fn report_fault(console: &mut Console, record: &FaultRecord)
    ensures
        final(console)@ == old(console)@ + fault_text(*record),
{
    let ghost mut line = "fault: vector ".spec_bytes() + numeral(record.vector as nat, 10);
    console.write_str("fault: vector ");
    write_decimal(console, record.vector as u64);
    assert(console@ == old(console)@ + line);
    if let Some(address) = record.instruction_pointer {
        console.write_str(" at 0x");
        write_hex(console, address);
        proof {
            line = line + (" at 0x".spec_bytes() + numeral(address as nat, 16));
        }
    } else {
        proof {
            line = line + Seq::<u8>::empty();
        }
    }
    assert(console@ == old(console)@ + line);
    console.write_byte(NEWLINE);
    assert(console@ == old(console)@ + line.push(NEWLINE));
}

/// Reports that bring-up failed. This writes to the console directly and
/// so works before any exception can be trapped.
pub fn report_boot_failure(console: &mut Console, error: &BootError)
    ensures
        final(console)@ == old(console)@ + boot_failure_text(*error),
{
    let ghost mut line = "boot failure: ".spec_bytes();
    console.write_str("boot failure: ");
    match error {
        BootError::NullHandler { vector } => {
            console.write_str("no handler for vector ");
            write_decimal(console, *vector as u64);
            proof {
                line = line + ("no handler for vector ".spec_bytes() + numeral(*vector as nat, 10));
            }
        },
        BootError::TableRejected => {
            console.write_str("interrupt table rejected");
            proof {
                line = line + "interrupt table rejected".spec_bytes();
            }
        },
    }
    assert(console@ == old(console)@ + line);
    console.write_byte(NEWLINE);
    assert(console@ == old(console)@ + line.push(NEWLINE));
}

/// The report of a trapped exception names its vector: the decimal numeral
/// of the vector stands in the line, whatever else the record holds.
pub proof fn lemma_fault_text_names_vector(record: FaultRecord)
    ensures
        contains(fault_text(record), numeral(record.vector as nat, 10)),
{
    let label = "fault: vector ".spec_bytes();
    let number = numeral(record.vector as nat, 10);
    let text = fault_text(record);
    let at = label.len() as int;
    assert(text.subrange(at, at + number.len()) == number);
}

} // verus!
