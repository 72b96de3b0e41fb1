use machine_rustsbi::ecall::{EXTENSION_BASE, LEGACY_CONSOLE_PUTCHAR, SBI_ERR_NOT_SUPPORTED};
use machine_rustsbi::environment::{Environment, MachineIds};
use machine_rustsbi::hart_mask::HartMask;
use machine_rustsbi::ipi::Ipi;
use machine_rustsbi::legacy_stdio::{init_legacy_stdio, LegacyStdio};
use machine_rustsbi::timer::Timer;
use machine_rustsbi::trap::{handle_trap, TrapFrame};

struct NoTimer;
impl Timer for NoTimer {
    fn set_timer(&mut self, _time_value: u64) {}
}

struct NoIpi;
impl Ipi for NoIpi {
    fn max_hart_id(&self) -> usize {
        0
    }
    fn send_ipi_many(&mut self, _hart_mask: HartMask) {}
}

struct Out(Vec<u8>);
impl LegacyStdio for Out {
    fn getchar(&mut self) -> u8 {
        0
    }
    fn putchar(&mut self, ch: u8) {
        self.0.push(ch);
    }
}

fn frame(a7: usize, a6: usize, a0: usize, a1: usize) -> TrapFrame {
    TrapFrame {
        ra: 1, t0: 2, t1: 3, t2: 4, t3: 5, t4: 6, t5: 7, t6: 8,
        a0, a1, a2: 9, a3: 10, a4: 11, a5: 12, a6, a7,
    }
}

fn env() -> Environment<NoTimer, NoIpi, Out> {
    let mut env = Environment::new(MachineIds { mvendorid: 0, marchid: 0, mimpid: 0 });
    init_legacy_stdio(&mut env, Out(Vec::new()));
    env
}

#[test]
fn ecall_trap_answers_in_a0_a1_and_skips_the_ecall() {
    let mut env = env();
    let mut f = frame(EXTENSION_BASE, 0, 0, 0);
    let next = handle_trap(&mut env, &mut f, true, 0x8020_0100);
    assert_eq!(next, Some(0x8020_0104));
    let mut expected = frame(EXTENSION_BASE, 0, 0, 0);
    expected.a0 = 0;
    expected.a1 = 2;
    assert_eq!(f, expected);
}

#[test]
fn ecall_trap_legacy_putchar() {
    let mut env = env();
    let mut f = frame(LEGACY_CONSOLE_PUTCHAR, 0, b'A' as usize, 17);
    assert_eq!(handle_trap(&mut env, &mut f, true, 0), Some(4));
    assert_eq!(f, frame(LEGACY_CONSOLE_PUTCHAR, 0, b'A' as usize, 17));
    assert_eq!(env.stdio.as_ref().unwrap().0, vec![b'A']);
}

#[test]
fn ecall_trap_unknown_extension() {
    let mut env = env();
    let mut f = frame(0xdead, 1, 5, 6);
    assert_eq!(handle_trap(&mut env, &mut f, true, usize::MAX - 1), Some(2));
    assert_eq!(f.a0, SBI_ERR_NOT_SUPPORTED);
    assert_eq!(f.a1, 0);
    assert_eq!(f.a2, 9);
}

#[test]
fn other_traps_change_nothing() {
    let mut env = env();
    let mut f = frame(LEGACY_CONSOLE_PUTCHAR, 0, b'A' as usize, 17);
    assert_eq!(handle_trap(&mut env, &mut f, false, 0x1000), None);
    assert_eq!(f, frame(LEGACY_CONSOLE_PUTCHAR, 0, b'A' as usize, 17));
    assert!(env.stdio.as_ref().unwrap().0.is_empty());
}
