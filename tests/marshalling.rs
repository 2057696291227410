use waitpkg::counter::{CounterHalves, join_counter, split_counter};
use waitpkg::instruction::{Instruction, tpause, umonitor, umwait};

#[test]
fn deadline_with_both_halves_one() {
    assert_eq!(
        umwait(0, 0x1_0000_0001),
        Instruction::Wait { ctrl: 0, counter_hi: 1, counter_lo: 1 }
    );
    assert_eq!(
        tpause(0, 0x1_0000_0001),
        Instruction::Pause { ctrl: 0, counter_hi: 1, counter_lo: 1 }
    );
}

#[test]
fn zero_deadline() {
    assert_eq!(umwait(0, 0), Instruction::Wait { ctrl: 0, counter_hi: 0, counter_lo: 0 });
    assert_eq!(tpause(0, 0), Instruction::Pause { ctrl: 0, counter_hi: 0, counter_lo: 0 });
}

#[test]
fn fast_wakeup_bit_passed_through() {
    assert_eq!(umwait(1, 42).ctrl(), Some(1));
    assert_eq!(tpause(1, 42).ctrl(), Some(1));
    assert_eq!(umwait(0xFFFF_FFFF, 42).ctrl(), Some(0xFFFF_FFFF));
}

#[test]
fn monitor_address_passed_through() {
    let address: usize = 0x7fff_1234_5678;
    assert_eq!(umonitor(address), Instruction::Monitor { address });
    assert_eq!(umonitor(0), Instruction::Monitor { address: 0 });
    assert_eq!(umonitor(usize::MAX), Instruction::Monitor { address: usize::MAX });
    assert_eq!(umonitor(address).deadline(), None);
    assert_eq!(umonitor(address).ctrl(), None);
}

#[test]
fn split_gives_exact_halves() {
    assert_eq!(split_counter(0x0123_4567_89AB_CDEF), CounterHalves { high: 0x0123_4567, low: 0x89AB_CDEF });
    assert_eq!(split_counter(u64::MAX), CounterHalves { high: 0xFFFF_FFFF, low: 0xFFFF_FFFF });
    assert_eq!(split_counter(0xFFFF_FFFF), CounterHalves { high: 0, low: 0xFFFF_FFFF });
    assert_eq!(split_counter(0x1_0000_0000), CounterHalves { high: 1, low: 0 });
}

#[test]
fn join_gives_exact_value() {
    assert_eq!(join_counter(CounterHalves { high: 0x0123_4567, low: 0x89AB_CDEF }), 0x0123_4567_89AB_CDEF);
    assert_eq!(join_counter(CounterHalves { high: 1, low: 0 }), 0x1_0000_0000);
    assert_eq!(join_counter(CounterHalves { high: 0, low: 0 }), 0);
}

#[test]
fn split_then_join_round_trip() {
    for d in [0u64, 1, 5, 0xFFFF_FFFF, 0x1_0000_0000, 0x1_0000_0001, 0xDEAD_BEEF_0000_0001, u64::MAX] {
        assert_eq!(join_counter(split_counter(d)), d);
        assert_eq!(umwait(0, d).deadline(), Some(d));
        assert_eq!(tpause(1, d).deadline(), Some(d));
    }
}

#[test]
fn wait_and_pause_differ_only_in_instruction() {
    match (umwait(3, 0xABCD_0000_1234), tpause(3, 0xABCD_0000_1234)) {
        (
            Instruction::Wait { ctrl: c1, counter_hi: h1, counter_lo: l1 },
            Instruction::Pause { ctrl: c2, counter_hi: h2, counter_lo: l2 },
        ) => {
            assert_eq!((c1, h1, l1), (3, 0xABCD, 0x1234));
            assert_eq!((c1, h1, l1), (c2, h2, l2));
        }
        other => panic!("unexpected invocations: {:?}", other),
    }
}
