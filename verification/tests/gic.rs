use cortex_ar::gic::{gicc, gicd, iar_address, init, irq, periphbase, IrqPlan};
use cortex_ar::gicd::GicdOverride;
use cortex_ar::mmio::RegisterWrite;
use cortex_ar::pender::{__pender, pend_with_cbar, Features, PenderAction};
use cortex_ar::{InterruptExecutor, QueueId};

/// What CBAR reads on a Zynq-7000.
const ZYNQ: u32 = 0xF8F0_0000;

#[test]
fn bases_follow_from_cbar() {
    assert_eq!(periphbase(0xF8FF_FFFF), 0xF8F0_0000);
    assert_eq!(gicd(ZYNQ), 0xF8F0_1000);
    assert_eq!(gicc(ZYNQ), 0xF8F0_0100);
    assert_eq!(iar_address(ZYNQ), 0xF8F0_010C);
}

#[test]
fn init_enables_the_sgi_and_both_interfaces() {
    assert_eq!(
        init(ZYNQ, 5),
        [
            RegisterWrite { address: 0xF8F0_1000, value: 1 },
            RegisterWrite { address: 0xF8F0_1100, value: 0x20 },
            RegisterWrite { address: 0xF8F0_0104, value: 0xFF },
            RegisterWrite { address: 0xF8F0_0100, value: 1 },
        ]
    );
    assert_eq!(init(ZYNQ, 0)[1].value, 1);
    assert_eq!(init(ZYNQ, 31)[1].value, 0x8000_0000);
}

#[test]
fn irq_dispatches_only_its_sgi_and_always_ends_the_interrupt() {
    let eoi = |value| RegisterWrite { address: 0xF8F0_0110, value };
    assert_eq!(irq(ZYNQ, 3, 3), IrqPlan { on_interrupt: true, end_of_interrupt: eoi(3) });
    assert_eq!(irq(ZYNQ, 3, 4), IrqPlan { on_interrupt: false, end_of_interrupt: eoi(4) });
    assert_eq!(
        irq(ZYNQ, 3, 0x403),
        IrqPlan { on_interrupt: true, end_of_interrupt: eoi(0x403) }
    );
    assert_eq!(
        irq(ZYNQ, 255, 1023),
        IrqPlan { on_interrupt: false, end_of_interrupt: eoi(1023) }
    );
}

#[test]
fn a_wake_up_comes_back_to_the_woken_executor() {
    let features = Features { thread: true, interrupt: true };
    for sgi in 0..16u8 {
        let mut executor = InterruptExecutor::new(QueueId(1));
        let spawner = executor.start(sgi);
        let write = match __pender(features, &GicdOverride::new(), spawner.context) {
            PenderAction::ReadCbar { sgi_id } => pend_with_cbar(sgi_id, ZYNQ),
            action => panic!("{:?}", action),
        };
        assert_eq!(write, RegisterWrite { address: 0xF8F0_1F00, value: 0x0200_0000 + sgi as u32 });
        let iar = write.value & 0xF;
        for handled in 0..16u8 {
            assert_eq!(irq(ZYNQ, handled, iar).on_interrupt, handled == sgi);
        }
        assert_eq!(executor.on_interrupt().context, spawner.context);
    }
}
