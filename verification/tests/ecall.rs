use machine_rustsbi::ecall::{
    handle_ecall, join_instant, SbiRet, EXTENSION_BASE, EXTENSION_IPI, EXTENSION_TIMER, FUNCTION_BASE_GET_MARCHID,
    FUNCTION_BASE_GET_MIMPID, FUNCTION_BASE_GET_MVENDORID, FUNCTION_BASE_GET_SBI_IMPL_ID,
    FUNCTION_BASE_GET_SBI_IMPL_VERSION, FUNCTION_BASE_GET_SPEC_VERSION,
    FUNCTION_BASE_PROBE_EXTENSION, FUNCTION_IPI_SEND_IPI, FUNCTION_TIMER_SET_TIMER, LEGACY_CONSOLE_GETCHAR,
    LEGACY_CONSOLE_PUTCHAR, LEGACY_SEND_IPI, LEGACY_SET_TIMER, SBI_ERR_NOT_SUPPORTED, SBI_SUCCESS,
};
use machine_rustsbi::environment::{Environment, MachineIds};
use machine_rustsbi::hart_mask::HartMask;
use machine_rustsbi::ipi::{init_ipi, probe_ipi, Ipi};
use machine_rustsbi::legacy_stdio::{init_legacy_stdio, LegacyStdio};
use machine_rustsbi::timer::{init_timer, probe_timer, Timer};

#[derive(Default)]
struct RecordingTimer {
    instants: Vec<u64>,
}

impl Timer for RecordingTimer {
    fn set_timer(&mut self, time_value: u64) {
        self.instants.push(time_value);
    }
}

struct RecordingIpi {
    max: usize,
    masks: Vec<(usize, usize)>,
}

impl Ipi for RecordingIpi {
    fn max_hart_id(&self) -> usize {
        self.max
    }
    fn send_ipi_many(&mut self, hart_mask: HartMask) {
        let first = hart_mask.word_address(0).unwrap();
        self.masks.push((first, hart_mask.max_hart_id()));
    }
}

struct Console {
    input: Vec<u8>,
    output: Vec<u8>,
}

impl LegacyStdio for Console {
    fn getchar(&mut self) -> u8 {
        self.input.remove(0)
    }
    fn putchar(&mut self, ch: u8) {
        self.output.push(ch);
    }
}

type Env = Environment<RecordingTimer, RecordingIpi, Console>;

fn machine() -> MachineIds {
    MachineIds { mvendorid: 0x489, marchid: 0x8000_0000_0000_0007, mimpid: 0x2019 }
}

fn bare() -> Env {
    Environment::new(machine())
}

fn full() -> Env {
    let mut env = bare();
    init_timer(&mut env, RecordingTimer::default());
    init_ipi(&mut env, RecordingIpi { max: 3, masks: Vec::new() });
    init_legacy_stdio(&mut env, Console { input: vec![b'x', b'y'], output: Vec::new() });
    env
}

fn ok(value: usize) -> SbiRet {
    SbiRet { error: SBI_SUCCESS, value }
}

fn not_supported() -> SbiRet {
    SbiRet { error: SBI_ERR_NOT_SUPPORTED, value: 0 }
}

#[test]
fn sbi_ret_constructors() {
    assert_eq!(SbiRet::ok(42), ok(42));
    assert_eq!(SbiRet::not_supported(), not_supported());
    assert_eq!(SBI_ERR_NOT_SUPPORTED, (-2isize) as usize);
    assert_eq!(SbiRet::ok(7).legacy_void(11, 12), SbiRet { error: 11, value: 12 });
    assert_eq!(SbiRet::not_supported().legacy_return(9), SbiRet { error: 0, value: 9 });
    assert_eq!(SbiRet::ok(7).legacy_return(9), SbiRet { error: 7, value: 9 });
}

#[test]
fn base_extension_reports_versions() {
    let mut env = bare();
    let p = [0; 4];
    assert_eq!(handle_ecall(&mut env, EXTENSION_BASE, FUNCTION_BASE_GET_SPEC_VERSION, p), ok(2));
    assert_eq!(handle_ecall(&mut env, EXTENSION_BASE, FUNCTION_BASE_GET_SBI_IMPL_ID, p), ok(4));
    assert_eq!(handle_ecall(&mut env, EXTENSION_BASE, FUNCTION_BASE_GET_SBI_IMPL_VERSION, p), ok(1));
    assert_eq!(handle_ecall(&mut env, EXTENSION_BASE, FUNCTION_BASE_GET_MVENDORID, p), ok(0x489));
    assert_eq!(
        handle_ecall(&mut env, EXTENSION_BASE, FUNCTION_BASE_GET_MARCHID, p),
        ok(0x8000_0000_0000_0007)
    );
    assert_eq!(handle_ecall(&mut env, EXTENSION_BASE, FUNCTION_BASE_GET_MIMPID, p), ok(0x2019));
    assert_eq!(handle_ecall(&mut env, EXTENSION_BASE, 7, p), not_supported());
    assert_eq!(handle_ecall(&mut env, EXTENSION_BASE, usize::MAX, p), not_supported());
}

#[test]
fn base_extension_probes() {
    let mut env = bare();
    let probe = |env: &mut Env, ext: usize| {
        handle_ecall(env, EXTENSION_BASE, FUNCTION_BASE_PROBE_EXTENSION, [ext, 0, 0, 0])
    };
    assert_eq!(probe(&mut env, EXTENSION_BASE), ok(1));
    assert_eq!(probe(&mut env, EXTENSION_TIMER), ok(0));
    assert_eq!(probe(&mut env, EXTENSION_IPI), ok(0));
    assert_eq!(probe(&mut env, 0x1234_5678), ok(0));
    init_timer(&mut env, RecordingTimer::default());
    assert_eq!(probe(&mut env, EXTENSION_TIMER), ok(1));
    assert_eq!(probe(&mut env, EXTENSION_IPI), ok(0));
    init_ipi(&mut env, RecordingIpi { max: 1, masks: Vec::new() });
    assert_eq!(probe(&mut env, EXTENSION_IPI), ok(1));
    assert!(env.timer.as_ref().unwrap().instants.is_empty());
}

#[test]
fn timer_extension_needs_a_timer() {
    let mut env = bare();
    assert_eq!(
        handle_ecall(&mut env, EXTENSION_TIMER, FUNCTION_TIMER_SET_TIMER, [1000, 0, 0, 0]),
        not_supported()
    );
    init_timer(&mut env, RecordingTimer::default());
    assert_eq!(
        handle_ecall(&mut env, EXTENSION_TIMER, FUNCTION_TIMER_SET_TIMER, [1000, 5, 6, 7]),
        ok(0)
    );
    assert_eq!(handle_ecall(&mut env, EXTENSION_TIMER, 1, [2000, 0, 0, 0]), not_supported());
    assert_eq!(env.timer.as_ref().unwrap().instants, vec![1000]);
}

#[test]
fn probe_timer_reports_absence() {
    let mut env = bare();
    assert!(probe_timer(&env));
    assert!(probe_ipi(&env));
    init_timer(&mut env, RecordingTimer::default());
    assert!(!probe_timer(&env));
    assert!(probe_ipi(&env));
}

#[test]
fn legacy_set_timer_keeps_registers() {
    let mut env = full();
    assert_eq!(
        handle_ecall(&mut env, LEGACY_SET_TIMER, 99, [0x1234_5678, 0xabc, 1, 2]),
        SbiRet { error: 0x1234_5678, value: 0xabc }
    );
    assert_eq!(env.timer.as_ref().unwrap().instants, vec![0x1234_5678]);
    let mut bare_env = bare();
    assert_eq!(
        handle_ecall(&mut bare_env, LEGACY_SET_TIMER, 0, [5, 6, 0, 0]),
        SbiRet { error: 5, value: 6 }
    );
}

#[test]
fn legacy_putchar_writes_low_byte() {
    let mut env = full();
    assert_eq!(
        handle_ecall(&mut env, LEGACY_CONSOLE_PUTCHAR, 0, [0x1241, 77, 0, 0]),
        SbiRet { error: 0x1241, value: 77 }
    );
    assert_eq!(
        handle_ecall(&mut env, LEGACY_CONSOLE_PUTCHAR, 0, [b'\n' as usize, 0, 0, 0]),
        SbiRet { error: 10, value: 0 }
    );
    assert_eq!(env.stdio.as_ref().unwrap().output, vec![0x41, b'\n']);
}

#[test]
fn legacy_getchar_returns_the_byte_in_a0_and_keeps_a1() {
    let mut env = full();
    assert_eq!(
        handle_ecall(&mut env, LEGACY_CONSOLE_GETCHAR, 0, [3, 4, 0, 0]),
        SbiRet { error: b'x' as usize, value: 4 }
    );
    assert_eq!(env.stdio.as_ref().unwrap().input, vec![b'y']);
    let mut bare_env = bare();
    assert_eq!(
        handle_ecall(&mut bare_env, LEGACY_CONSOLE_GETCHAR, 0, [3, 4, 0, 0]),
        SbiRet { error: 0, value: 4 }
    );
}

#[test]
fn legacy_send_ipi_hands_the_mask() {
    let mut env = full();
    assert_eq!(
        handle_ecall(&mut env, LEGACY_SEND_IPI, 0, [0x8020_0000, 1, 0, 0]),
        SbiRet { error: 0x8020_0000, value: 1 }
    );
    assert_eq!(env.ipi.as_ref().unwrap().masks, vec![(0x8020_0000, 3)]);
}

#[test]
fn unknown_extensions_are_not_supported() {
    let mut env = full();
    for ext in [0x03, 0x05, 0x08, 0x0f, 0x4853_4d, usize::MAX] {
        assert_eq!(handle_ecall(&mut env, ext, 0, [1, 2, 3, 4]), not_supported());
    }
    assert!(env.timer.as_ref().unwrap().instants.is_empty());
    assert!(env.ipi.as_ref().unwrap().masks.is_empty());
    assert!(env.stdio.as_ref().unwrap().output.is_empty());
}

#[test]
fn console_functions_directly() {
    let mut env = full();
    assert_eq!(machine_rustsbi::ecall::console_putchar(&mut env, 0x1ff), ok(0));
    assert_eq!(machine_rustsbi::ecall::console_getchar(&mut env), ok(b'x' as usize));
    assert_eq!(env.stdio.as_ref().unwrap().output, vec![0xff]);
    let mut bare_env = bare();
    assert_eq!(machine_rustsbi::ecall::console_getchar(&mut bare_env), ok(0));
    assert_eq!(machine_rustsbi::ecall::console_putchar(&mut bare_env, 0x41), ok(0));
}

#[test]
fn timer_extension_function_directly() {
    let mut env = full();
    assert_eq!(machine_rustsbi::ecall::handle_ecall_timer(&mut env, 0, 77), ok(0));
    assert_eq!(machine_rustsbi::ecall::handle_ecall_timer(&mut env, 2, 78), not_supported());
    assert_eq!(env.timer.as_ref().unwrap().instants, vec![77]);
}

#[test]
fn ipi_extension_sends_when_support_is_registered() {
    let mut env = bare();
    assert_eq!(
        handle_ecall(&mut env, EXTENSION_IPI, FUNCTION_IPI_SEND_IPI, [0x9000, 0, 0, 0]),
        not_supported()
    );
    let mut env = full();
    assert_eq!(
        handle_ecall(&mut env, EXTENSION_IPI, FUNCTION_IPI_SEND_IPI, [0x9000, 0, 0, 0]),
        ok(0)
    );
    assert_eq!(handle_ecall(&mut env, EXTENSION_IPI, 1, [0x9100, 0, 0, 0]), not_supported());
    assert_eq!(env.ipi.as_ref().unwrap().masks, vec![(0x9000, 3)]);
    assert!(env.timer.as_ref().unwrap().instants.is_empty());
}

#[test]
fn join_instant_puts_halves_together() {
    assert_eq!(join_instant(0x89ab_cdef, 0x0123_4567), 0x0123_4567_89ab_cdef);
    assert_eq!(join_instant(0, 1), 0x1_0000_0000);
    assert_eq!(join_instant(0xffff_ffff, 0), 0xffff_ffff);
}

#[test]
fn timer_functions_for_both_widths() {
    let mut env = full();
    assert_eq!(machine_rustsbi::ecall::timer::handle_ecall_timer_32(&mut env, 0, 5, 1), ok(0));
    assert_eq!(machine_rustsbi::ecall::legacy::set_timer_64(&mut env, 9), ok(0));
    assert_eq!(machine_rustsbi::ecall::legacy::set_timer_32(&mut env, 7, 2), ok(0));
    assert_eq!(env.timer.as_ref().unwrap().instants, vec![0x1_0000_0005, 9, 0x2_0000_0007]);
    let mut bare_env = bare();
    assert_eq!(machine_rustsbi::ecall::legacy::set_timer_64(&mut bare_env, 9), not_supported());
}
