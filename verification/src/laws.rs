//! What holds of the executors, the pender and the GIC together.

use vstd::prelude::*;

use crate::gic::{dispatches, gicc_base, iar_address_spec, init_writes, irq_plan};
use crate::gicd::{cbar_gicd_base, lemma_periphbase_mask, periphbase_of};
use crate::gicd::{sgir_intid, sgir_other_bits, sgir_target_list_filter};
use crate::gicd::{sgir_write_spec, GicdOverride};
use crate::interrupt::{spawner_outcome, start_outcome, InterruptError};
use crate::pender::{pender_action, wake, Features, PenderAction};
use crate::raw::{QueueId, SendSpawner, Spawner};
use crate::thread::{run_step, RunAction, RunState, THREAD_PENDER};

verus! {

/// Waking a task of the thread-mode executor signals an event and does nothing else,
/// whatever the rest of the program is built with and wherever the GIC is.
pub proof fn law_thread_wake_signals_event(features: Features, gicd: GicdOverride, cbar: u32)
    requires
        features.thread,
    ensures
        wake(features, gicd, cbar, THREAD_PENDER) == PenderAction::Sev,
{
}

/// Where there is only a thread-mode executor, every wake-up signals an event.
pub proof fn law_thread_only_never_uses_gic(gicd: GicdOverride, cbar: u32, context: usize)
    ensures
        wake(Features { thread: true, interrupt: false }, gicd, cbar, context)
            == PenderAction::Sev,
{
}

/// Waking a task of an interrupt-mode executor writes to `GICD_SGIR` of the Distributor
/// (the overriding one, or the one found from CBAR) a value that pends exactly that
/// executor's SGI, on the requesting CPU only.
pub proof fn law_interrupt_wake_pends_its_sgi(
    features: Features,
    gicd: GicdOverride,
    cbar: u32,
    sgi: u8,
)
    requires
        features.interrupt,
        sgi < 16,
        gicd.base + 0xF00 <= usize::MAX,
    ensures
        wake(features, gicd, cbar, sgi as usize) matches PenderAction::Write(write) && {
            &&& write.address == 0xF00 + if gicd.base != 0 {
                gicd.base as int
            } else {
                (cbar & 0xFFF0_0000) + 0x1000
            }
            &&& write.value & 0x0000_000F == sgi
            &&& write.value & 0x0300_0000 == 0x0200_0000
            &&& write.value & 0xFCFF_FFF0 == 0
            &&& sgir_intid(write.value) == sgi
            &&& sgir_target_list_filter(write.value) == 0b10
            &&& sgir_other_bits(write.value) == 0
        },
{
    lemma_periphbase_mask(cbar);
    law_sgir_write_on_bits(
        if gicd.base != 0 {
            gicd.base as int
        } else {
            cbar_gicd_base(cbar)
        },
        sgi as u32,
    );
}

/// The interrupt that a wake-up pends is dispatched by the SGI of the executor whose task
/// was woken: a handler that reads that interrupt from `GICC_IAR` polls the executor that
/// it serves exactly when that executor is on the SGI of the woken one.
pub proof fn law_wake_is_dispatched_by_sgi(
    features: Features,
    gicd: GicdOverride,
    cbar: u32,
    woken: u8,
    handled: u8,
    iar: u32,
)
    requires
        features.interrupt,
        woken < 16,
        gicd.base + 0xF00 <= usize::MAX,
        (iar & 0x3FF) == (wake(features, gicd, cbar, woken as usize)->Write_0.value & 0xF),
    ensures
        irq_plan(cbar, handled, iar).on_interrupt <==> handled == woken,
        dispatches(handled, iar) <==> handled == woken,
{
    law_interrupt_wake_pends_its_sgi(features, gicd, cbar, woken);
    law_irq_polls_exactly_on_its_interrupt(cbar, handled, iar);
}

/// Executors on different SGIs are woken by writes of different values to one register.
pub proof fn law_distinct_sgis_pend_distinctly(
    features: Features,
    gicd: GicdOverride,
    cbar: u32,
    a: u8,
    b: u8,
)
    requires
        features.interrupt,
        a < 16,
        b < 16,
        a != b,
        gicd.base + 0xF00 <= usize::MAX,
    ensures
        wake(features, gicd, cbar, a as usize)->Write_0.address == wake(
            features,
            gicd,
            cbar,
            b as usize,
        )->Write_0.address,
        wake(features, gicd, cbar, a as usize)->Write_0.value != wake(
            features,
            gicd,
            cbar,
            b as usize,
        )->Write_0.value,
{
    law_interrupt_wake_pends_its_sgi(features, gicd, cbar, a);
    law_interrupt_wake_pends_its_sgi(features, gicd, cbar, b);
}

/// With an override in place CBAR is neither asked for nor has any influence.
pub proof fn law_override_bypasses_cbar(
    features: Features,
    gicd: GicdOverride,
    context: usize,
    cbar1: u32,
    cbar2: u32,
)
    requires
        gicd.base != 0,
    ensures
        !(pender_action(features, gicd, context) is ReadCbar),
        wake(features, gicd, cbar1, context) == wake(features, gicd, cbar2, context),
{
}

/// Without an override an SGI is pended through the Distributor at `PERIPHBASE + 0x1000`,
/// and of CBAR only the top twelve bits matter.
pub proof fn law_discovery_uses_periphbase(features: Features, context: usize, cbar: u32)
    requires
        features.pends_sgi(context),
    ensures
        wake(features, GicdOverride { base: 0 }, cbar, context)->Write_0.address
            == periphbase_of(cbar) + 0x1000 + 0xF00,
        wake(features, GicdOverride { base: 0 }, cbar, context)->Write_0.address == (cbar
            & 0xFFF0_0000) + 0x1F00,
        forall|other: u32|
            other / 0x10_0000 == cbar / 0x10_0000 ==> #[trigger] wake(
                features,
                GicdOverride { base: 0 },
                other,
                context,
            ) == wake(features, GicdOverride { base: 0 }, cbar, context),
{
    lemma_periphbase_mask(cbar);
}

/// Where a context stands for an SGI, only its low four bits count.
pub proof fn law_only_low_bits_of_sgi_context_count(
    features: Features,
    gicd: GicdOverride,
    cbar: u32,
    context: usize,
)
    requires
        features.pends_sgi(context),
    ensures
        wake(features, gicd, cbar, context) == wake(features, gicd, cbar, context % 16),
{
}

/// The write that pends an SGI is to the register at offset `0xF00` of the Distributor. Of
/// the value written, bits 3:0 are the id of the SGI, bits 25:24 are `0b10` (the requesting
/// CPU only) and all others are zero.
pub proof fn law_sgir_write_on_bits(base: int, sgi: u32)
    requires
        0 <= base,
        base + 0xF00 <= usize::MAX,
        sgi < 16,
    ensures
        sgir_write_spec(base, sgi as int).address == base + 0xF00,
        sgir_write_spec(base, sgi as int).value & 0x0000_000F == sgi,
        sgir_write_spec(base, sgi as int).value & 0x0300_0000 == 0x0200_0000,
        sgir_write_spec(base, sgi as int).value & 0xFCFF_FFF0 == 0,
        sgir_write_spec(base, sgi as int).value == 0x0200_0000 | sgi,
{
    let value = sgir_write_spec(base, sgi as int).value;
    assert(value & 0x0000_000F == sgi && value & 0x0300_0000 == 0x0200_0000 && value
        & 0xFCFF_FFF0 == 0 && value == 0x0200_0000 | sgi) by (bit_vector)
        requires
            value == 0x0200_0000u32 + sgi,
            sgi < 16,
    ;
}

/// A wake-up signals an event exactly when there is a thread-mode executor and either
/// nothing else or the context with all bits set; in all other cases it is one write.
pub proof fn law_event_exactly_for_the_thread_executor(
    features: Features,
    gicd: GicdOverride,
    cbar: u32,
    context: usize,
)
    requires
        features.thread || features.interrupt,
    ensures
        features.any(),
        wake(features, gicd, cbar, context) is Sev <==> features.thread && (!features.interrupt
            || context == usize::MAX),
        wake(features, gicd, cbar, context) is Sev || wake(features, gicd, cbar, context) is Write,
        THREAD_PENDER == usize::MAX,
{
}

/// A wake-up that pends an SGI writes, to offset `0xF00` of the overriding Distributor or
/// of the one at `PERIPHBASE + 0x1000`, the low four bits of the context together with the
/// request for the requesting CPU. That holds of every context, in a program with
/// interrupt-mode executors only even of the one with all bits set.
pub proof fn law_sgi_wake_on_bits(
    features: Features,
    gicd: GicdOverride,
    cbar: u32,
    context: usize,
)
    requires
        features.interrupt,
        !features.thread || context != usize::MAX,
        gicd.base + 0xF00 <= usize::MAX,
    ensures
        wake(features, gicd, cbar, context) matches PenderAction::Write(write) && {
            &&& write.address == 0xF00 + if gicd.base != 0 {
                gicd.base as int
            } else {
                (cbar & 0xFFF0_0000) + 0x1000
            }
            &&& write.value == 0x0200_0000u32 | (context & 0xF) as u32
        },
{
    lemma_periphbase_mask(cbar);
    assert((context & 0xF) == context % 16) by (bit_vector);
    law_sgir_write_on_bits(
        if gicd.base != 0 {
            gicd.base as int
        } else {
            cbar_gicd_base(cbar)
        },
        (context % 16) as u32,
    );
}

/// CBAR is asked for exactly when an SGI is to be pended and there is no override, and the
/// SGI that is carried along is in the low four bits of the context.
pub proof fn law_cbar_is_read_only_for_discovery(
    features: Features,
    gicd: GicdOverride,
    context: usize,
)
    requires
        features.thread || features.interrupt,
    ensures
        pender_action(features, gicd, context) is ReadCbar <==> gicd.base == 0
            && features.interrupt && (!features.thread || context != usize::MAX),
        pender_action(features, gicd, context) matches PenderAction::ReadCbar { sgi_id }
            ==> sgi_id == (context & 0xF),
{
    assert((context & 0xF) == context % 16) by (bit_vector);
}

/// The interrupt handler polls the executor exactly when bits 9:0 of the value read from
/// `GICC_IAR` are the id of the executor's SGI.
pub proof fn law_irq_polls_exactly_on_its_interrupt(cbar: u32, sgi: u8, iar: u32)
    ensures
        irq_plan(cbar, sgi, iar).on_interrupt <==> (iar & 0x3FF) == sgi as u32,
        dispatches(sgi, iar) <==> (iar & 0x3FF) == sgi as u32,
{
    assert((iar & 0x3FF) == iar % 0x400) by (bit_vector);
}

/// An interrupt that is not an SGI, whatever its id from 16 to 1023, polls no executor.
pub proof fn law_irq_ignores_other_interrupts(cbar: u32, sgi: u8, source: u32, id: u32)
    requires
        sgi < 16,
        16 <= id < 1024,
        source < 0x40_0000,
    ensures
        !irq_plan(cbar, sgi, (source * 0x400 + id) as u32).on_interrupt,
{
    let iar = (source * 0x400 + id) as u32;
    assert(iar & 0x3FF == id) by (bit_vector)
        requires
            iar == source * 0x400 + id,
            id < 1024,
            source < 0x40_0000,
    ;
    law_irq_polls_exactly_on_its_interrupt(cbar, sgi, iar);
}

/// The executor is polled for its SGI whichever CPU pended it: the source CPU, in bits
/// 12:10 of the value read from `GICC_IAR`, does not matter, nor do the bits above it.
pub proof fn law_irq_polls_whatever_the_source(cbar: u32, sgi: u8, source: u32)
    requires
        source < 0x40_0000,
    ensures
        irq_plan(cbar, sgi, (source * 0x400 + sgi) as u32).on_interrupt,
{
    let iar = (source * 0x400 + sgi) as u32;
    let id = sgi as u32;
    assert(iar & 0x3FF == id) by (bit_vector)
        requires
            iar == source * 0x400 + id,
            id < 256,
            source < 0x40_0000,
    ;
    law_irq_polls_exactly_on_its_interrupt(cbar, sgi, iar);
}

/// Two values read from `GICC_IAR` that agree in bits 9:0 are dispatched alike, and no
/// value is dispatched to two different SGIs.
pub proof fn law_irq_dispatches_by_id(cbar: u32, a: u8, b: u8, iar1: u32, iar2: u32)
    ensures
        (iar1 & 0x3FF) == (iar2 & 0x3FF) ==> irq_plan(cbar, a, iar1).on_interrupt == irq_plan(
            cbar,
            a,
            iar2,
        ).on_interrupt,
        irq_plan(cbar, a, iar1).on_interrupt && irq_plan(cbar, b, iar1).on_interrupt ==> a == b,
{
    law_irq_polls_exactly_on_its_interrupt(cbar, a, iar1);
    law_irq_polls_exactly_on_its_interrupt(cbar, a, iar2);
    law_irq_polls_exactly_on_its_interrupt(cbar, b, iar1);
}

/// Interrupts are acknowledged and ended at the CPU interface of the core's own GIC, `0x10C`
/// and `0x110` above `PERIPHBASE`, and ended with every bit that the acknowledgement read,
/// whether or not the executor was polled.
pub proof fn law_irq_ends_what_it_acknowledged(cbar: u32, sgi: u8, iar: u32)
    ensures
        iar_address_spec(cbar) == (cbar & 0xFFF0_0000) + 0x10C,
        irq_plan(cbar, sgi, iar).end_of_interrupt.address == (cbar & 0xFFF0_0000) + 0x110,
        irq_plan(cbar, sgi, iar).end_of_interrupt.value == iar,
{
    lemma_periphbase_mask(cbar);
}

/// The CPU interface is at `PERIPHBASE + 0x100` and the Distributor at `PERIPHBASE +
/// 0x1000`, where `PERIPHBASE` is the top twelve bits of CBAR.
pub proof fn law_gic_is_at_periphbase(cbar: u32)
    ensures
        periphbase_of(cbar) == (cbar & 0xFFF0_0000),
        gicc_base(cbar) == (cbar & 0xFFF0_0000) + 0x100,
        cbar_gicd_base(cbar) == (cbar & 0xFFF0_0000) + 0x1000,
{
    lemma_periphbase_mask(cbar);
}

/// Setting up the GIC takes four writes, in this order: 1 to `GICD_CTLR`, one bit to
/// `GICD_ISENABLER0`, `0xFF` to `GICC_PMR` and 1 to `GICC_CTLR`, each at its place above
/// `PERIPHBASE`. The CPU interface is enabled last.
pub proof fn law_init_addresses_and_values(cbar: u32, sgi: u8)
    requires
        sgi < 32,
    ensures
        init_writes(cbar, sgi).len() == 4,
        init_writes(cbar, sgi)[0].address == (cbar & 0xFFF0_0000) + 0x1000,
        init_writes(cbar, sgi)[0].value == 1,
        init_writes(cbar, sgi)[1].address == (cbar & 0xFFF0_0000) + 0x1100,
        init_writes(cbar, sgi)[2].address == (cbar & 0xFFF0_0000) + 0x104,
        init_writes(cbar, sgi)[2].value == 0xFF,
        init_writes(cbar, sgi)[3].address == (cbar & 0xFFF0_0000) + 0x100,
        init_writes(cbar, sgi)[3].value == 1,
{
    lemma_periphbase_mask(cbar);
}

/// Setting up the GIC unmasks the given interrupt and leaves every other one alone: bit `id`
/// of the value written to `GICD_ISENABLER0` is one for that interrupt only.
pub proof fn law_init_unmasks_one_interrupt(cbar: u32, sgi: u8, id: u32)
    requires
        sgi < 32,
        id < 32,
    ensures
        (init_writes(cbar, sgi)[1].value >> id) & 1 == (if id == sgi {
            1u32
        } else {
            0u32
        }),
{
    let s = sgi as u32;
    assert(((1u32 << s) >> id) & 1 == (if id == s {
        1u32
    } else {
        0u32
    })) by (bit_vector)
        requires
            id < 32,
            s < 32,
    ;
}

/// What the setup unmasks is what a wake-up pends: the Distributor that the setup enables
/// is the one whose `GICD_SGIR` the wake-up writes to, and the bit that it unmasks is that
/// of the SGI that the wake-up names.
pub proof fn law_init_serves_the_wake_up(features: Features, cbar: u32, sgi: u8)
    requires
        features.interrupt,
        sgi < 16,
    ensures
        wake(features, GicdOverride { base: 0 }, cbar, sgi as usize) matches PenderAction::Write(
            write,
        ) && {
            &&& write.address == init_writes(cbar, sgi)[0].address + 0xF00
            &&& (init_writes(cbar, sgi)[1].value >> (write.value & 0xF)) & 1 == 1
        },
{
    law_interrupt_wake_pends_its_sgi(features, GicdOverride { base: 0 }, cbar, sgi);
    law_init_addresses_and_values(cbar, sgi);
    law_init_unmasks_one_interrupt(cbar, sgi, sgi as u32);
}

/// The view of an executor with this run queue that was `state` after it was asked to start on each of `ids`
/// in turn.
pub open spec fn after_starts(queue: QueueId, state: Option<u8>, ids: Seq<u8>) -> Option<u8>
    decreases ids.len(),
{
    if ids.len() == 0 {
        state
    } else {
        start_outcome(queue, after_starts(queue, state, ids.drop_last()), ids.last()).1
    }
}

/// The answer to the request at position `i` of a sequence of requests to start a new
/// executor with this run queue.
pub open spec fn start_answer(queue: QueueId, ids: Seq<u8>, i: int) -> Result<
    SendSpawner,
    InterruptError,
> {
    start_outcome(queue, after_starts(queue, None, ids.take(i)), ids[i]).0
}

/// Once started, an executor stays on its SGI, whatever it is asked, and hands out no
/// further spawner by being started.
pub proof fn law_started_for_good(queue: QueueId, sgi: u8, ids: Seq<u8>, id: u8)
    ensures
        after_starts(queue, Some(sgi), ids) == Some(sgi),
        start_outcome(queue, Some(sgi), id).0 is Err,
    decreases ids.len(),
{
    if ids.len() > 0 {
        law_started_for_good(queue, sgi, ids.drop_last(), id);
    }
}

/// An executor is still unstarted exactly when every request so far named an id that is
/// not an SGI's.
pub proof fn law_refused_starts_change_nothing(queue: QueueId, ids: Seq<u8>)
    ensures
        after_starts(queue, None, ids) is None <==> (forall|j: int|
            0 <= j < ids.len() ==> #[trigger] ids[j] >= 16),
    decreases ids.len(),
{
    if ids.len() > 0 {
        let rest = ids.drop_last();
        law_refused_starts_change_nothing(queue, rest);
        if after_starts(queue, None, rest) is None {
            assert forall|j: int| 0 <= j < ids.len() && ids.last() >= 16 implies
                #[trigger] ids[j] >= 16 by {
                if j < rest.len() {
                    assert(ids[j] == rest[j]);
                }
            }
        } else {
            let j = choose|j: int| 0 <= j < rest.len() && !(#[trigger] rest[j] >= 16);
            assert(ids[j] == rest[j]);
        }
    }
}

/// Of all requests to start an executor exactly the first that names an SGI succeeds, and
/// it decides the SGI. A request that names no SGI is refused for that reason, and every
/// later one that names an SGI is refused because the executor has been started.
pub proof fn law_first_valid_start_wins(queue: QueueId, ids: Seq<u8>, i: int)
    requires
        0 <= i < ids.len(),
    ensures
        ({
            let earlier_valid = exists|j: int| 0 <= j < i && #[trigger] ids[j] < 16;
            start_answer(queue, ids, i) == if ids[i] >= 16 {
                Err::<SendSpawner, InterruptError>(InterruptError::SgiOutOfRange)
            } else if earlier_valid {
                Err(InterruptError::AlreadyStarted)
            } else {
                Ok(SendSpawner { queue, context: ids[i] as usize })
            }
        }),
        start_answer(queue, ids, i) is Ok ==> after_starts(queue, None, ids) == Some(ids[i]),
{
    let earlier = ids.take(i);
    law_refused_starts_change_nothing(queue, earlier);
    assert(forall|j: int| 0 <= j < i ==> #[trigger] ids[j] == earlier[j]);
    if !(after_starts(queue, None, earlier) is None) {
        let j = choose|j: int| 0 <= j < i && !(#[trigger] earlier[j] >= 16);
        assert(ids[j] < 16);
    }
    if start_answer(queue, ids, i) is Ok {
        assert(ids.take(i + 1).drop_last() =~= earlier);
        lemma_after_starts_from(queue, ids, i + 1);
        law_started_for_good(queue, ids[i], ids.skip(i + 1), 0);
    }
}

/// Requests can be made in two batches.
proof fn lemma_after_starts_from(queue: QueueId, ids: Seq<u8>, i: int)
    requires
        0 <= i <= ids.len(),
    ensures
        after_starts(queue, None, ids) == after_starts(
            queue,
            after_starts(queue, None, ids.take(i)),
            ids.skip(i),
        ),
    decreases ids.len() - i,
{
    if i == ids.len() {
        assert(ids.take(i) =~= ids);
    } else {
        let rest = ids.drop_last();
        lemma_after_starts_from(queue, rest, i);
        assert(rest.take(i) =~= ids.take(i));
        assert(rest.skip(i) =~= ids.skip(i).drop_last());
    }
}

/// A spawner is to be had exactly from an executor that has been started, and it is the
/// one that starting it returned.
pub proof fn law_spawner_is_that_of_start(queue: QueueId, ids: Seq<u8>, i: int)
    requires
        0 <= i < ids.len(),
    ensures
        spawner_outcome(queue, None) == Err::<SendSpawner, InterruptError>(
            InterruptError::NotStarted,
        ),
        start_answer(queue, ids, i) is Ok ==> spawner_outcome(queue, after_starts(queue, None, ids))
            == start_answer(queue, ids, i),
{
    law_first_valid_start_wins(queue, ids, i);
}

/// The views of the executors of a program, by run queue, after the executor with run queue
/// `queue` was asked to start on `id`: that request reaches no other executor.
pub open spec fn after_request(
    states: Map<QueueId, Option<u8>>,
    queue: QueueId,
    id: u8,
) -> Map<QueueId, Option<u8>> {
    states.insert(queue, start_outcome(queue, states[queue], id).1)
}

/// The views of the executors of a program, by run queue, after these requests to start
/// were made in turn, each of the executor with the run queue that it names.
pub open spec fn after_requests(
    states: Map<QueueId, Option<u8>>,
    requests: Seq<(QueueId, u8)>,
) -> Map<QueueId, Option<u8>>
    decreases requests.len(),
{
    if requests.len() == 0 {
        states
    } else {
        let (queue, id) = requests.last();
        after_request(after_requests(states, requests.drop_last()), queue, id)
    }
}

/// The ids in the requests that were made of the executor with this run queue.
pub open spec fn ids_for(queue: QueueId, requests: Seq<(QueueId, u8)>) -> Seq<u8>
    decreases requests.len(),
{
    if requests.len() == 0 {
        Seq::empty()
    } else {
        let rest = ids_for(queue, requests.drop_last());
        if requests.last().0 == queue {
            rest.push(requests.last().1)
        } else {
            rest
        }
    }
}

/// Whether an executor has been started is its own affair: however requests to start
/// several executors are mixed, each executor is where the requests made of it alone would
/// have brought it.
pub proof fn law_started_state_is_per_executor(
    states: Map<QueueId, Option<u8>>,
    requests: Seq<(QueueId, u8)>,
    queue: QueueId,
)
    ensures
        after_requests(states, requests)[queue] == after_starts(
            queue,
            states[queue],
            ids_for(queue, requests),
        ),
    decreases requests.len(),
{
    if requests.len() > 0 {
        let rest = requests.drop_last();
        law_started_state_is_per_executor(states, rest, queue);
        if requests.last().0 == queue {
            assert(ids_for(queue, requests).drop_last() =~= ids_for(queue, rest));
        }
    }
}

/// A second executor can be started whatever the first was started on, the same SGI
/// included. The first keeps its SGI and its spawner, and the spawner of the second spawns
/// on the run queue of the second, which is not that of the first.
pub proof fn law_second_executor_starts_on_its_own_queue(
    states: Map<QueueId, Option<u8>>,
    first: QueueId,
    second: QueueId,
    i: u8,
    j: u8,
)
    requires
        first != second,
        states[first] == Some(i),
        states[second] is None,
        j < 16,
    ensures
        start_outcome(second, states[second], j).0 == Ok::<SendSpawner, InterruptError>(
            SendSpawner { queue: second, context: j as usize },
        ),
        ({
            let after = after_request(states, second, j);
            let of_first = spawner_outcome(first, after[first]);
            let of_second = spawner_outcome(second, after[second]);
            &&& after[first] == Some(i)
            &&& of_first == spawner_outcome(first, states[first])
            &&& of_first->Ok_0.queue == first
            &&& after[second] == Some(j)
            &&& of_second == start_outcome(second, states[second], j).0
            &&& of_second->Ok_0.queue != of_first->Ok_0.queue
        }),
{
}

/// The state of a run of the thread-mode executor with this run queue after `n` steps.
pub open spec fn run_state_after(queue: QueueId, n: nat) -> RunState
    decreases n,
{
    if n == 0 {
        RunState::Entry
    } else {
        run_step(queue, run_state_after(queue, (n - 1) as nat)).1
    }
}

/// A run of the thread-mode executor calls `init` once, with a spawner for that executor
/// and before anything else; from then on it polls and sleeps in turn, starting with a
/// poll. So it never sleeps without having polled since the last event, and polls again
/// after every event.
pub proof fn law_run_inits_then_alternates(queue: QueueId, n: nat)
    ensures
        run_step(queue, run_state_after(queue, n)).0 == if n == 0 {
            RunAction::Init(Spawner { queue, context: usize::MAX })
        } else if n % 2 == 1 {
            RunAction::Poll
        } else {
            RunAction::Wfe
        },
    decreases n,
{
    if n > 0 {
        law_run_inits_then_alternates(queue, (n - 1) as nat);
    }
}

} // verus!
