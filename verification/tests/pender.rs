use cortex_ar::gicd::{
    gicd_base, gicd_base_from_cbar, set_gicd_base, sgir_write, GicdBase, GicdOverride,
};
use cortex_ar::mmio::RegisterWrite;
use cortex_ar::pender::{__pender, pend_with_cbar, Features, PenderAction};
use cortex_ar::thread::THREAD_PENDER;

const BOTH: Features = Features { thread: true, interrupt: true };
const THREAD_ONLY: Features = Features { thread: true, interrupt: false };
const INTERRUPT_ONLY: Features = Features { thread: false, interrupt: true };

fn rz_a1() -> GicdOverride {
    let mut gicd = GicdOverride::new();
    set_gicd_base(&mut gicd, 0xE820_1000);
    gicd
}

#[test]
fn base_defaults_to_discovery() {
    assert_eq!(gicd_base(&GicdOverride::new()), GicdBase::FromCbar);
}

#[test]
fn override_is_used_and_the_last_one_wins() {
    let mut gicd = rz_a1();
    assert_eq!(gicd_base(&gicd), GicdBase::At(0xE820_1000));
    set_gicd_base(&mut gicd, 0xF8F0_1000);
    assert_eq!(gicd_base(&gicd), GicdBase::At(0xF8F0_1000));
    set_gicd_base(&mut gicd, 0);
    assert_eq!(gicd_base(&gicd), GicdBase::FromCbar);
}

#[test]
fn base_from_cbar_is_masked_and_offset() {
    assert_eq!(gicd_base_from_cbar(0xF8F0_0000), 0xF8F0_1000);
    assert_eq!(gicd_base_from_cbar(0xF8FF_FFFF), 0xF8F0_1000);
    assert_eq!(gicd_base_from_cbar(0xFFFF_FFFF), 0xFFF0_1000);
    assert_eq!(gicd_base_from_cbar(0), 0x1000);
}

#[test]
fn sgir_write_targets_the_requesting_cpu() {
    assert_eq!(
        sgir_write(0xF8F0_1000, 5),
        RegisterWrite { address: 0xF8F0_1F00, value: 0x0200_0005 }
    );
    assert_eq!(sgir_write(0, 15), RegisterWrite { address: 0xF00, value: 0x0200_000F });
}

#[test]
fn addressable_up_to_the_end_of_the_address_space() {
    let mut gicd = GicdOverride::new();
    assert!(gicd.sgir_addressable());
    set_gicd_base(&mut gicd, usize::MAX - 0xF00);
    assert!(gicd.sgir_addressable());
    set_gicd_base(&mut gicd, usize::MAX - 0xF00 + 1);
    assert!(!gicd.sgir_addressable());
}

#[test]
fn thread_context_signals_an_event() {
    assert_eq!(__pender(BOTH, &GicdOverride::new(), THREAD_PENDER), PenderAction::Sev);
    assert_eq!(__pender(BOTH, &rz_a1(), THREAD_PENDER), PenderAction::Sev);
}

#[test]
fn routing_depends_on_the_build_and_the_context() {
    assert!(!BOTH.routes_to_sgi(THREAD_PENDER));
    assert!(BOTH.routes_to_sgi(3));
    assert!(!THREAD_ONLY.routes_to_sgi(3));
    assert!(INTERRUPT_ONLY.routes_to_sgi(THREAD_PENDER));
}

#[test]
fn thread_only_always_signals_an_event() {
    for context in [0, 3, 15, 16, THREAD_PENDER] {
        assert_eq!(__pender(THREAD_ONLY, &rz_a1(), context), PenderAction::Sev);
    }
}

#[test]
fn interrupt_context_pends_its_sgi_at_the_override() {
    for features in [BOTH, INTERRUPT_ONLY] {
        assert_eq!(
            __pender(features, &rz_a1(), 7),
            PenderAction::Write(RegisterWrite { address: 0xE820_1F00, value: 0x0200_0007 })
        );
    }
}

#[test]
fn interrupt_context_asks_for_cbar_without_an_override() {
    assert_eq!(
        __pender(BOTH, &GicdOverride::new(), 7),
        PenderAction::ReadCbar { sgi_id: 7 }
    );
    assert_eq!(
        pend_with_cbar(7, 0xF8F0_0123),
        RegisterWrite { address: 0xF8F0_1F00, value: 0x0200_0007 }
    );
}

#[test]
fn only_the_low_four_bits_select_the_sgi() {
    assert_eq!(
        __pender(BOTH, &GicdOverride::new(), 0x123),
        PenderAction::ReadCbar { sgi_id: 3 }
    );
    assert_eq!(
        __pender(INTERRUPT_ONLY, &GicdOverride::new(), THREAD_PENDER),
        PenderAction::ReadCbar { sgi_id: 15 }
    );
}

#[test]
fn distinct_sgis_write_distinct_values_to_one_register() {
    for a in 0..16u32 {
        for b in 0..16u32 {
            let (x, y) = (pend_with_cbar(a, 0xF8F0_0000), pend_with_cbar(b, 0xF8F0_0000));
            assert_eq!(x.address, y.address);
            assert_eq!(x.value == y.value, a == b);
        }
    }
}
