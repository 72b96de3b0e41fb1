//! Legacy calls (SBI v0.1).
use vstd::prelude::*;

use super::{join_halves, join_instant, legacy_char, ret_ok, timer_result, SbiRet, FUNCTION_TIMER_SET_TIMER};
use crate::environment::Environment;
use crate::hart_mask::HartMask;
use crate::ipi::{ipi_handed, max_hart_id, send_ipi_many, Ipi};
use crate::legacy_stdio::{
    legacy_stdio_getchar, legacy_stdio_putchar, stdio_read, stdio_wrote, LegacyStdio,
};
use crate::timer::{timer_handed, Timer};

verus! {

/// Legacy `set_timer` on a 64-bit machine: hands `param0` to the registered
/// timer.
pub fn set_timer_64<T: Timer, I, S>(env: &mut Environment<T, I, S>, param0: usize) -> (ret: SbiRet)
    ensures
        ret == timer_result(old(env).services(), FUNCTION_TIMER_SET_TIMER),
        old(env).timer is Some ==> timer_handed(old(env).timer, final(env).timer, param0 as u64),
        old(env).timer is None ==> final(env).timer == old(env).timer,
        final(env).ipi == old(env).ipi,
        final(env).stdio == old(env).stdio,
        final(env).machine == old(env).machine,
{
    super::timer::set_timer(env, param0 as u64)
}

/// Legacy `set_timer` on a 32-bit machine: hands the instant with low half
/// `param0` and high half `param1` to the registered timer.
pub fn set_timer_32<T: Timer, I, S>(
    env: &mut Environment<T, I, S>,
    param0: usize,
    param1: usize,
) -> (ret: SbiRet)
    ensures
        ret == timer_result(old(env).services(), FUNCTION_TIMER_SET_TIMER),
        old(env).timer is Some ==> timer_handed(
            old(env).timer,
            final(env).timer,
            join_halves(param0, param1),
        ),
        old(env).timer is None ==> final(env).timer == old(env).timer,
        final(env).ipi == old(env).ipi,
        final(env).stdio == old(env).stdio,
        final(env).machine == old(env).machine,
{
    super::timer::set_timer(env, join_instant(param0, param1))
}

/// Legacy `console_putchar`: writes the low 8 bits of `param0` to the
/// registered console.
pub fn console_putchar<T, I, S: LegacyStdio>(env: &mut Environment<T, I, S>, param0: usize) -> (ret:
    SbiRet)
    ensures
        ret == ret_ok(0),
        old(env).stdio is Some ==> stdio_wrote(old(env).stdio, final(env).stdio, legacy_char(param0)),
        old(env).stdio is Some ==> final(env).stdio.unwrap().bytes_written() == old(
            env,
        ).stdio.unwrap().bytes_written().push((param0 % 256) as u8),
        old(env).stdio is None ==> final(env).stdio == old(env).stdio,
        final(env).timer == old(env).timer,
        final(env).ipi == old(env).ipi,
        final(env).machine == old(env).machine,
{
    assert(param0 & 0xff == param0 % 256 && param0 & 0xff < 256) by (bit_vector);
    let ch = (param0 & 0xff) as u8;
    legacy_stdio_putchar(env, ch);
    SbiRet::ok(0)
}

/// Legacy `console_getchar`: the character read from the registered
/// console, 0 where none is registered.
pub fn console_getchar<T, I, S: LegacyStdio>(env: &mut Environment<T, I, S>) -> (ret: SbiRet)
    ensures
        ret.error == super::SBI_SUCCESS,
        old(env).stdio is Some ==> stdio_read(old(env).stdio, final(env).stdio, ret.value as u8)
            && ret.value < 256,
        old(env).stdio is None ==> ret.value == 0 && final(env).stdio == old(env).stdio,
        final(env).timer == old(env).timer,
        final(env).ipi == old(env).ipi,
        final(env).machine == old(env).machine,
{
    let ch = legacy_stdio_getchar(env);
    SbiRet::ok(ch as usize)
}

/// Legacy `send_ipi`: sends an inter-processor interrupt to the harts named
/// by the bit vector at `hart_mask_addr`, up to the largest hart id that
/// the registered support reaches.
pub fn send_ipi<T, I: Ipi, S>(env: &mut Environment<T, I, S>, hart_mask_addr: usize) -> (ret: SbiRet)
    requires
        old(env).ipi is Some,
    ensures
        ret == ret_ok(0),
        ipi_handed(
            old(env).ipi,
            final(env).ipi,
            HartMask::spec_from_addr(hart_mask_addr, old(env).ipi.unwrap().spec_max_hart_id()),
        ),
        final(env).timer == old(env).timer,
        final(env).stdio == old(env).stdio,
        final(env).machine == old(env).machine,
{
    let hart_mask = HartMask::from_addr(hart_mask_addr, max_hart_id(env));
    send_ipi_many(env, hart_mask);
    SbiRet::ok(0)
}

} // verus!
