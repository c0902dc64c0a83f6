//! Bring-up and the entry sequence, as one state machine.
//!
//! The [`Kernel`] is the single owner of everything the early boot touches:
//! the console, the interrupt table, the identification and the bring-up
//! state. The platform layer drives it: it hands each [`Event`] to
//! [`Kernel::step`], carries out the [`Action`] that comes back, and returns
//! with the next event. The machine itself touches no hardware.
//!
//! In order: `Boot` builds the interrupt table; the platform loads it and
//! answers `TableLoaded`, after which exceptions trap; `Resume` completes
//! bring-up; a second `Resume` writes the banner and the kernel idles, each
//! interrupt returning to the idle loop. Any fault, and any event out of
//! this order, is reported on the console and halts the machine for good.

use vstd::prelude::*;
use crate::console::Console;
use crate::fault::{
    boot_failure_text, fault_text, panic_text, report_boot_failure, report_fault, report_panic,
    BootError, FaultRecord, PanicRecord,
};
use crate::ident::Identification;
use crate::table::{Entry, Handlers, InterruptTable};

verus! {

/// How far bring-up has come.
#[derive(Clone, Copy, Debug, PartialEq, Eq, Structural)]
pub enum BootState {
    /// As the bootloader left the machine.
    Raw,
    /// The interrupt table is filled and not yet in use.
    TableBuilt,
    /// The processor uses the table: exceptions trap.
    TableActive,
    /// Bring-up is complete.
    Ready,
}

/// What happened outside since the last step.
#[derive(Clone, Copy, Debug)]
pub enum Event<'a> {
    /// The bootloader has handed over control.
    Boot,
    /// The processor took the interrupt table.
    TableLoaded,
    /// The processor did not take the interrupt table.
    TableRejected,
    /// Nothing: the last action asked for no outside work.
    Resume,
    /// An interrupt came on this vector, was handled, and returned.
    Interrupt(u8),
    /// An exception trapped.
    Fault(FaultRecord),
    /// Software met a fault that it cannot recover from.
    Panic(PanicRecord<'a>),
}

/// What the platform layer is to do next.
#[derive(Clone, Copy, Debug, PartialEq, Eq, Structural)]
pub enum Action {
    /// Load the interrupt table into the processor and enable trapping.
    LoadTable,
    /// Nothing; step again with `Resume`.
    Continue,
    /// Wait for the next interrupt.
    Idle,
    /// Stop the processor for good.
    Halt,
}

/// The message of the report for an event that came out of order.
pub const OUT_OF_ORDER: &'static str = "event out of order";

/// The record under which an event out of order is reported.
pub open spec fn out_of_order() -> PanicRecord<'static> {
    PanicRecord { message: Some(OUT_OF_ORDER), location: None }
}

/// The kernel as the contracts see it.
pub struct KernelView {
    /// The banner that this kernel writes.
    pub banner: Seq<u8>,
    /// The handlers from which the interrupt table is built.
    pub handlers: Handlers,
    /// How far bring-up has come.
    pub state: BootState,
    /// Whether the banner has been written.
    pub announced: bool,
    /// Whether the machine has been halted.
    pub halted: bool,
    /// The entries of the interrupt table, once built.
    pub table: Option<Seq<Entry>>,
    /// The console output that the platform layer has not yet taken.
    pub output: Seq<u8>,
}

impl KernelView {
    /// The kernel before its first step.
    pub open spec fn initial(banner: Seq<u8>, handlers: Handlers) -> KernelView {
        KernelView {
            banner,
            handlers,
            state: BootState::Raw,
            announced: false,
            halted: false,
            table: None,
            output: Seq::empty(),
        }
    }

    /// Whether exceptions trap into the interrupt table.
    pub open spec fn trapping(self) -> bool {
        self.state is TableActive || self.state is Ready
    }

    /// Whether the kernel sits in its idle loop.
    pub open spec fn idle(self) -> bool {
        self.state is Ready && self.announced && !self.halted
    }

    /// The action to go back to after an interrupt has returned.
    pub open spec fn pending(self) -> Action {
        if self.announced {
            Action::Idle
        } else {
            Action::Continue
        }
    }

    /// This kernel, halted after one more line of output.
    pub open spec fn halt_with(self, line: Seq<u8>) -> (KernelView, Action) {
        (KernelView { halted: true, output: self.output + line, ..self }, Action::Halt)
    }

    /// This kernel, halted over an event that came out of order.
    pub open spec fn refuse(self) -> (KernelView, Action) {
        self.halt_with(panic_text(out_of_order()))
    }

    /// One step of the machine: the kernel after `event`, and the action
    /// that the platform layer is to carry out.
    pub open spec fn next(self, event: Event<'_>) -> (KernelView, Action) {
        if self.halted {
            (self, Action::Halt)
        } else {
            match event {
                Event::Panic(record) => self.halt_with(panic_text(record)),
                Event::Boot => if self.state is Raw {
                    match self.handlers.first_missing() {
                        None => (
                            KernelView {
                                state: BootState::TableBuilt,
                                table: Some(self.handlers.table()),
                                ..self
                            },
                            Action::LoadTable,
                        ),
                        Some(vector) => self.halt_with(
                            boot_failure_text(BootError::NullHandler { vector }),
                        ),
                    }
                } else {
                    self.refuse()
                },
                Event::TableLoaded => if self.state is TableBuilt {
                    (KernelView { state: BootState::TableActive, ..self }, Action::Continue)
                } else {
                    self.refuse()
                },
                Event::TableRejected => if self.state is TableBuilt {
                    self.halt_with(boot_failure_text(BootError::TableRejected))
                } else {
                    self.refuse()
                },
                Event::Resume => if self.state is TableActive {
                    (KernelView { state: BootState::Ready, ..self }, Action::Continue)
                } else if self.state is Ready && !self.announced {
                    (
                        KernelView { announced: true, output: self.output + self.banner, ..self },
                        Action::Idle,
                    )
                } else if self.state is Ready {
                    (self, Action::Idle)
                } else {
                    self.refuse()
                },
                Event::Interrupt(_) => if self.trapping() {
                    (self, self.pending())
                } else {
                    self.refuse()
                },
                Event::Fault(record) => if self.trapping() {
                    self.halt_with(fault_text(record))
                } else {
                    self.refuse()
                },
            }
        }
    }

    /// The kernel after a run of events, the first of them first.
    pub open spec fn run(self, events: Seq<Event<'_>>) -> KernelView
        decreases events.len(),
    {
        if events.len() == 0 {
            self
        } else {
            self.run(events.drop_last()).next(events.last()).0
        }
    }
}

/// The kernel context.
pub struct Kernel<'a> {
    ident: Identification<'a>,
    handlers: Handlers,
    state: BootState,
    announced: bool,
    halted: bool,
    table: Option<InterruptTable>,
    console: Console,
}

impl<'a> View for Kernel<'a> {
    type V = KernelView;

    closed spec fn view(&self) -> KernelView {
        KernelView {
            banner: self.ident.banner(),
            handlers: self.handlers,
            state: self.state,
            announced: self.announced,
            halted: self.halted,
            table: match self.table {
                Some(table) => Some(table@),
                None => None,
            },
            output: self.console@,
        }
    }
}

impl<'a> Kernel<'a> {
    /// The kernel as the bootloader finds it: nothing built, nothing written.
    pub fn new(ident: Identification<'a>, handlers: Handlers) -> (kernel: Kernel<'a>)
        ensures
            kernel@ == KernelView::initial(ident.banner(), handlers),
    {
        Kernel {
            ident,
            handlers,
            state: BootState::Raw,
            announced: false,
            halted: false,
            table: None,
            console: Console::new(),
        }
    }

    /// Takes one event and says what the platform layer is to do next.
    pub fn step(&mut self, event: Event<'_>) -> (action: Action)
        ensures
            (final(self)@, action) == old(self)@.next(event),
    {
        if self.halted {
            return Action::Halt;
        }
        match event {
            Event::Panic(record) => {
                report_panic(&mut self.console, &record);
                self.halted = true;
                Action::Halt
            },
            Event::Boot => match self.state {
                BootState::Raw => self.build_table(),
                _ => self.refuse(),
            },
            Event::TableLoaded => match self.state {
                BootState::TableBuilt => {
                    self.state = BootState::TableActive;
                    Action::Continue
                },
                _ => self.refuse(),
            },
            Event::TableRejected => match self.state {
                BootState::TableBuilt => {
                    report_boot_failure(&mut self.console, &BootError::TableRejected);
                    self.halted = true;
                    Action::Halt
                },
                _ => self.refuse(),
            },
            Event::Resume => match self.state {
                BootState::TableActive => {
                    self.state = BootState::Ready;
                    Action::Continue
                },
                BootState::Ready => {
                    if !self.announced {
                        self.ident.announce(&mut self.console);
                        self.announced = true;
                    }
                    Action::Idle
                },
                _ => self.refuse(),
            },
            Event::Interrupt(_) => match self.state {
                BootState::TableActive | BootState::Ready => {
                    if self.announced {
                        Action::Idle
                    } else {
                        Action::Continue
                    }
                },
                _ => self.refuse(),
            },
            Event::Fault(record) => match self.state {
                BootState::TableActive | BootState::Ready => {
                    report_fault(&mut self.console, &record);
                    self.halted = true;
                    Action::Halt
                },
                _ => self.refuse(),
            },
        }
    }

    /// The first transition of bring-up: fills the interrupt table, or
    /// reports why it cannot be filled and halts.
    fn build_table(&mut self) -> (action: Action)
        requires
            !old(self).halted,
            old(self).state is Raw,
        ensures
            (final(self)@, action) == old(self)@.next(Event::Boot),
    {
        match InterruptTable::build(&self.handlers) {
            Ok(table) => {
                self.table = Some(table);
                self.state = BootState::TableBuilt;
                Action::LoadTable
            },
            Err(error) => {
                report_boot_failure(&mut self.console, &error);
                self.halted = true;
                Action::Halt
            },
        }
    }

    /// Reports an event that came out of order, and halts.
    fn refuse(&mut self) -> (action: Action)
        requires
            !old(self).halted,
        ensures
            (final(self)@, action) == old(self)@.refuse(),
    {
        let record = PanicRecord { message: Some(OUT_OF_ORDER), location: None };
        report_panic(&mut self.console, &record);
        self.halted = true;
        Action::Halt
    }

    /// How far bring-up has come.
    pub fn state(&self) -> (state: BootState)
        ensures
            state == self@.state,
    {
        self.state
    }

    /// Whether the banner has been written.
    pub fn announced(&self) -> (announced: bool)
        ensures
            announced == self@.announced,
    {
        self.announced
    }

    /// Whether the machine has been halted.
    pub fn halted(&self) -> (halted: bool)
        ensures
            halted == self@.halted,
    {
        self.halted
    }

    /// The interrupt table, once built.
    pub fn table(&self) -> (table: Option<&InterruptTable>)
        ensures
            match table {
                Some(table) => self@.table == Some(table@),
                None => self@.table is None,
            },
    {
        self.table.as_ref()
    }

    /// The console output that the platform layer has still to take.
    pub fn output(&self) -> (bytes: &[u8])
        ensures
            bytes@ == self@.output,
    {
        self.console.pending()
    }

    /// Hands the pending console output to the platform layer. Nothing
    /// else about the kernel changes.
    pub fn take_output(&mut self) -> (bytes: Vec<u8>)
        ensures
            bytes@ == old(self)@.output,
            final(self)@ == (KernelView { output: Seq::empty(), ..old(self)@ }),
    {
        self.console.drain()
    }
}

} // verus!
