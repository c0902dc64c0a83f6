//! The interrupt table: one entry for each of the 256 vectors.
//!
//! A table is built once, from the handler addresses that the platform
//! layer supplies, and is not changed afterwards. Building is a function of
//! those addresses alone. A table exists only with every vector filled:
//! a set of handlers with a null address is refused instead.

use vstd::prelude::*;
use crate::fault::BootError;

verus! {

/// The number of vectors, and of entries in a table.
pub const VECTORS: usize = 256;

/// The vector of the divide error.
pub const DIVIDE_ERROR: u8 = 0;

/// The vector of the double fault.
pub const DOUBLE_FAULT: u8 = 8;

/// The vector of the page fault.
pub const PAGE_FAULT: u8 = 14;

/// How the processor enters a handler.
#[derive(Clone, Copy, Debug, PartialEq, Eq, Structural)]
pub enum Gate {
    /// Interrupts are masked on entry.
    Interrupt,
    /// Interrupts stay as they were.
    Trap,
}

/// One entry of the table.
#[derive(Clone, Copy, Debug, PartialEq, Eq, Structural)]
pub struct Entry {
    /// The address of the handler.
    pub handler: u64,
    /// The kind of gate.
    pub gate: Gate,
    /// The least privileged ring that may raise the vector by software, 0 to 3.
    pub privilege: u8,
    /// Whether the processor may use the entry.
    pub present: bool,
}

impl Entry {
    /// Whether the processor can deliver a vector through this entry.
    pub open spec fn usable(self) -> bool {
        self.handler != 0 && self.present && self.privilege <= 3
    }
}

/// The handler addresses from which a table is built.
///
/// The divide error, the double fault and the page fault can be raised by
/// ordinary execution before any driver exists and have handlers of their
/// own. Every other vector shares the default handler.
#[derive(Clone, Copy, Debug, PartialEq, Eq, Structural)]
pub struct Handlers {
    pub default: u64,
    pub divide_error: u64,
    pub double_fault: u64,
    pub page_fault: u64,
}

impl Handlers {
    /// The handler address for a vector.
    pub open spec fn spec_handler_for(self, vector: int) -> u64 {
        if vector == DIVIDE_ERROR {
            self.divide_error
        } else if vector == DOUBLE_FAULT {
            self.double_fault
        } else if vector == PAGE_FAULT {
            self.page_fault
        } else {
            self.default
        }
    }

    /// The entry for a vector: its handler behind an interrupt gate that
    /// only ring 0 may raise, marked present.
    pub open spec fn entry_for(self, vector: int) -> Entry {
        Entry {
            handler: self.spec_handler_for(vector),
            gate: Gate::Interrupt,
            privilege: 0,
            present: true,
        }
    }

    /// The table that these handlers give.
    pub open spec fn table(self) -> Seq<Entry> {
        Seq::new(VECTORS as nat, |vector: int| self.entry_for(vector))
    }

    /// The lowest vector without a handler, if there is one. Vector 1 is
    /// the lowest that takes the default handler.
    pub open spec fn first_missing(self) -> Option<u8> {
        if self.divide_error == 0 {
            Some(DIVIDE_ERROR)
        } else if self.default == 0 {
            Some(1u8)
        } else if self.double_fault == 0 {
            Some(DOUBLE_FAULT)
        } else if self.page_fault == 0 {
            Some(PAGE_FAULT)
        } else {
            None
        }
    }

    /// Whether every vector has a handler.
    pub open spec fn complete(self) -> bool {
        self.first_missing() is None
    }

    /// `first_missing` is the lowest vector whose handler is null, and is
    /// `None` exactly where no handler is null.
    pub proof fn lemma_first_missing(self)
        ensures
            match self.first_missing() {
                Some(vector) => {
                    &&& self.spec_handler_for(vector as int) == 0
                    &&& forall|lower: int|
                        0 <= lower < vector ==> self.spec_handler_for(lower) != 0
                },
                None => forall|vector: int|
                    0 <= vector < VECTORS ==> self.spec_handler_for(vector) != 0,
            },
    {
    }

    /// The handler address for a vector.
    pub fn handler_for(&self, vector: u8) -> (handler: u64)
        ensures
            handler == self.spec_handler_for(vector as int),
    {
        if vector == DIVIDE_ERROR {
            self.divide_error
        } else if vector == DOUBLE_FAULT {
            self.double_fault
        } else if vector == PAGE_FAULT {
            self.page_fault
        } else {
            self.default
        }
    }
}

/// Whether every vector of a table has a usable entry.
pub open spec fn complete(table: Seq<Entry>) -> bool {
    table.len() == VECTORS && forall|vector: int|
        0 <= vector < VECTORS ==> (#[trigger] table[vector]).usable()
}

/// What building a table from `handlers` gives: their table where every
/// vector has a handler, else a refusal that names the lowest vector without.
pub open spec fn built(handlers: Handlers, result: Result<InterruptTable, BootError>) -> bool {
    match handlers.first_missing() {
        None => result matches Ok(table) && table@ == handlers.table(),
        Some(vector) => result == Err::<InterruptTable, BootError>(
            BootError::NullHandler { vector },
        ),
    }
}

/// A complete interrupt table.
pub struct InterruptTable {
    entries: [Entry; 256],
}

impl View for InterruptTable {
    type V = Seq<Entry>;

    /// The entries by vector.
    closed spec fn view(&self) -> Seq<Entry> {
        self.entries@
    }
}

impl InterruptTable {
    #[verifier::type_invariant]
    spec fn filled(&self) -> bool {
        complete(self.entries@)
    }

    /// Builds the table for `handlers`.
    pub fn build(handlers: &Handlers) -> (result: Result<InterruptTable, BootError>)
        ensures
            built(*handlers, result),
            result matches Ok(table) ==> complete(table@),
    {
        proof {
            handlers.lemma_first_missing();
        }
        let first = Entry {
            handler: handlers.handler_for(0),
            gate: Gate::Interrupt,
            privilege: 0,
            present: true,
        };
        if first.handler == 0 {
            return Err(BootError::NullHandler { vector: 0 });
        }
        let mut entries = [first; 256];
        let mut vector: usize = 1;
        while vector < VECTORS
            invariant
                1 <= vector <= VECTORS,
                entries@.len() == VECTORS,
                first == handlers.entry_for(0),
                first.handler != 0,
                forall|lower: int|
                    0 <= lower < vector ==> entries@[lower] == handlers.entry_for(lower)
                        && handlers.spec_handler_for(lower) != 0,
                forall|upper: int| vector <= upper < VECTORS ==> entries@[upper] == first,
            decreases VECTORS - vector,
        {
            let handler = handlers.handler_for(vector as u8);
            if handler == 0 {
                proof {
                    handlers.lemma_first_missing();
                    let lowest = handlers.first_missing()->Some_0;
                    assert(handlers.spec_handler_for(vector as int) == 0);
                    assert(handlers.spec_handler_for(lowest as int) == 0);
                    assert(lowest == vector);
                }
                return Err(BootError::NullHandler { vector: vector as u8 });
            }
            entries[vector] = Entry {
                handler,
                gate: Gate::Interrupt,
                privilege: 0,
                present: true,
            };
            vector = vector + 1;
        }
        assert(entries@ == handlers.table());
        Ok(InterruptTable { entries })
    }

    /// The entry of a vector. Its handler is never null.
    pub fn entry(&self, vector: u8) -> (entry: Entry)
        ensures
            entry == self@[vector as int],
            entry.usable(),
    {
        proof {
            use_type_invariant(self);
        }
        self.entries[vector as usize]
    }
}

/// Building twice from the same handlers gives the same outcome: two
/// tables with equal entries, or the same refusal.
pub proof fn lemma_build_repeatable(
    handlers: Handlers,
    first: Result<InterruptTable, BootError>,
    second: Result<InterruptTable, BootError>,
)
    requires
        built(handlers, first),
        built(handlers, second),
    ensures
        first is Ok <==> second is Ok,
        first is Ok ==> first->Ok_0@ == second->Ok_0@,
        first is Err ==> first->Err_0 == second->Err_0,
{
}

/// The table of complete handlers is complete: no vector is left without
/// a usable entry.
pub proof fn lemma_table_complete(handlers: Handlers)
    requires
        handlers.complete(),
    ensures
        complete(handlers.table()),
{
    handlers.lemma_first_missing();
    assert forall|vector: int| 0 <= vector < VECTORS implies (
    #[trigger] handlers.table()[vector]).usable() by {
        assert(handlers.spec_handler_for(vector) != 0);
    }
}

} // verus!
