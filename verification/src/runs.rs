//! What holds of every run of the kernel, whatever events arrive.

use vstd::prelude::*;
use crate::fault::{
    boot_failure_text, contains, fault_text, lemma_fault_text_names_vector, BootError,
    FaultRecord,
};
use crate::fmt::numeral;
use crate::kernel::{Action, BootState, Event, KernelView};
use crate::table::{complete, lemma_table_complete, Handlers};

verus! {

/// What every kernel reached from the initial one satisfies: before the
/// table is built there is none and nothing is announced; from then on the
/// table is the complete table of the handlers; and the banner is written
/// only once bring-up is complete.
pub open spec fn sound(kernel: KernelView) -> bool {
    &&& kernel.state is Raw ==> kernel.table is None
    &&& !(kernel.state is Raw) ==> kernel.handlers.complete() && kernel.table == Some(
        kernel.handlers.table(),
    )
    &&& kernel.announced ==> kernel.state is Ready
}

/// The position of a state in the order of bring-up.
pub open spec fn rank(state: BootState) -> nat {
    match state {
        BootState::Raw => 0,
        BootState::TableBuilt => 1,
        BootState::TableActive => 2,
        BootState::Ready => 3,
    }
}

/// The events that a run of interrupts on the given vectors consists of.
pub open spec fn interrupts(vectors: Seq<u8>) -> Seq<Event<'static>> {
    Seq::new(vectors.len(), |i: int| Event::Interrupt(vectors[i]))
}

/// Whether, after the first `n` events, the interrupt table is active and
/// the banner not yet written.
pub open spec fn active_unannounced(start: KernelView, events: Seq<Event<'_>>, n: int) -> bool {
    let then = start.run(events.take(n));
    then.state is TableActive && !then.announced
}

/// A step keeps a sound kernel sound, and never changes the banner or the
/// handlers that the kernel was made with.
pub proof fn lemma_step_keeps_sound(kernel: KernelView, event: Event<'_>)
    requires
        sound(kernel),
    ensures
        sound(kernel.next(event).0),
        kernel.next(event).0.banner == kernel.banner,
        kernel.next(event).0.handlers == kernel.handlers,
{
}

/// Every kernel reached from the initial one is sound.
pub proof fn lemma_run_is_sound(banner: Seq<u8>, handlers: Handlers, events: Seq<Event<'_>>)
    ensures
        sound(KernelView::initial(banner, handlers).run(events)),
        KernelView::initial(banner, handlers).run(events).handlers == handlers,
        KernelView::initial(banner, handlers).run(events).banner == banner,
    decreases events.len(),
{
    if events.len() > 0 {
        lemma_run_is_sound(banner, handlers, events.drop_last());
        lemma_step_keeps_sound(
            KernelView::initial(banner, handlers).run(events.drop_last()),
            events.last(),
        );
    }
}

/// Once bring-up has left its first state, and ever after, the interrupt
/// table is there and every vector of it has a usable entry with a handler
/// that is not null.
pub proof fn lemma_table_is_complete_once_built(
    banner: Seq<u8>,
    handlers: Handlers,
    events: Seq<Event<'_>>,
)
    ensures
        ({
            let kernel = KernelView::initial(banner, handlers).run(events);
            !(kernel.state is Raw) ==> {
                &&& kernel.table matches Some(table)
                &&& table == handlers.table()
                &&& complete(table)
                &&& forall|vector: int| 0 <= vector < 256 ==> (#[trigger] table[vector]).handler != 0
            }
        }),
{
    lemma_run_is_sound(banner, handlers, events);
    let kernel = KernelView::initial(banner, handlers).run(events);
    if !(kernel.state is Raw) {
        lemma_table_complete(handlers);
    }
}

/// Building the table is a function of the handlers alone: two kernels
/// made with the same handlers, each taking its first step, either both
/// hold the same table, entry for entry, or are both refused with the same
/// line.
pub proof fn lemma_table_build_is_repeatable(first: KernelView, second: KernelView)
    requires
        first.state is Raw,
        second.state is Raw,
        !first.halted,
        !second.halted,
        first.handlers == second.handlers,
    ensures
        ({
            let (one, action) = first.next(Event::Boot);
            let (other, again) = second.next(Event::Boot);
            &&& action == again
            &&& one.state == other.state
            &&& one.halted == other.halted
            &&& one.halted || (one.table == other.table && one.table == Some(
                first.handlers.table(),
            ))
            &&& one.halted ==> {
                &&& first.handlers.first_missing() matches Some(vector)
                &&& one.output == first.output + boot_failure_text(
                    BootError::NullHandler { vector },
                )
                &&& other.output == second.output + boot_failure_text(
                    BootError::NullHandler { vector },
                )
            }
        }),
{
}

/// Bring-up only moves forward: no event takes the state back, so a kernel
/// that has left the raw state never enters bring-up a second time.
pub proof fn lemma_bring_up_never_restarts(kernel: KernelView, events: Seq<Event<'_>>)
    ensures
        rank(kernel.run(events).state) >= rank(kernel.state),
        !(kernel.state is Raw) ==> !(kernel.run(events).state is Raw),
    decreases events.len(),
{
    if events.len() > 0 {
        lemma_bring_up_never_restarts(kernel, events.drop_last());
    }
}

/// The banner is written only after the interrupt table has become active:
/// in every run from the initial kernel that has written the banner, there
/// is an earlier moment at which the state was `TableActive` and the banner
/// was not yet written.
pub proof fn lemma_banner_follows_activation(
    banner: Seq<u8>,
    handlers: Handlers,
    events: Seq<Event<'_>>,
)
    ensures
        ({
            let start = KernelView::initial(banner, handlers);
            start.run(events).announced ==> exists|n: int|
                0 <= n < events.len() && #[trigger] active_unannounced(start, events, n)
        }),
{
    let start = KernelView::initial(banner, handlers);
    lemma_run_is_sound(banner, handlers, events);
    lemma_ready_follows_activation(banner, handlers, events);
}

/// In every run from the initial kernel that has completed bring-up, there
/// is an earlier moment at which the state was `TableActive` and the banner
/// was not yet written.
proof fn lemma_ready_follows_activation(
    banner: Seq<u8>,
    handlers: Handlers,
    events: Seq<Event<'_>>,
)
    ensures
        ({
            let start = KernelView::initial(banner, handlers);
            start.run(events).state is Ready ==> exists|n: int|
                0 <= n < events.len() && #[trigger] active_unannounced(start, events, n)
        }),
    decreases events.len(),
{
    let start = KernelView::initial(banner, handlers);
    if events.len() > 0 && start.run(events).state is Ready {
        let earlier = events.drop_last();
        let before = start.run(earlier);
        lemma_run_is_sound(banner, handlers, earlier);
        if before.state is Ready {
            lemma_ready_follows_activation(banner, handlers, earlier);
            let n = choose|n: int|
                0 <= n < earlier.len() && #[trigger] active_unannounced(start, earlier, n);
            assert(events.take(n) == earlier.take(n));
            assert(active_unannounced(start, events, n));
        } else {
            let n = earlier.len() as int;
            assert(events.take(n) == earlier);
            assert(before.state is TableActive);
            assert(active_unannounced(start, events, n));
        }
    }
}

/// An idle kernel stays as it is under interrupts that are handled and
/// return: each one leads back to the idle loop, and after any number of
/// them the state is still `Ready`, nothing has been written and nothing
/// else has changed.
pub proof fn lemma_idle_is_stable(kernel: KernelView, vectors: Seq<u8>)
    requires
        kernel.idle(),
    ensures
        forall|vector: u8| #[trigger]
            kernel.next(Event::Interrupt(vector)) == (kernel, Action::Idle),
        kernel.run(interrupts(vectors)) == kernel,
    decreases vectors.len(),
{
    if vectors.len() > 0 {
        lemma_idle_is_stable(kernel, vectors.drop_last());
        assert(interrupts(vectors).drop_last() == interrupts(vectors.drop_last()));
        assert(interrupts(vectors).last() == Event::Interrupt(vectors.last()));
    }
}

/// A trapped exception is reported once and for all: the step writes the
/// line of the fault, which names the vector, and halts; whatever events
/// follow, the kernel answers `Halt`, writes nothing more and stays as it is.
pub proof fn lemma_fault_halts_for_good(
    kernel: KernelView,
    fault: FaultRecord,
    later: Seq<Event<'_>>,
)
    requires
        !kernel.halted,
        kernel.trapping(),
    ensures
        ({
            let (halted, action) = kernel.next(Event::Fault(fault));
            &&& action == Action::Halt
            &&& halted.halted
            &&& halted.state == kernel.state
            &&& halted.output == kernel.output + fault_text(fault)
            &&& contains(fault_text(fault), numeral(fault.vector as nat, 10))
            &&& forall|event: Event<'_>| #[trigger] halted.next(event) == (halted, Action::Halt)
            &&& halted.run(later) == halted
        }),
{
    lemma_fault_text_names_vector(fault);
    lemma_halted_stays(kernel.next(Event::Fault(fault)).0, later);
}

/// A halted kernel never resumes: every run of events leaves it as it is.
pub proof fn lemma_halted_stays(kernel: KernelView, events: Seq<Event<'_>>)
    requires
        kernel.halted,
    ensures
        kernel.run(events) == kernel,
    decreases events.len(),
{
    if events.len() > 0 {
        lemma_halted_stays(kernel, events.drop_last());
    }
}

} // verus!
