//! The timer extension.
use vstd::prelude::*;

use super::{join_halves, join_instant, timer_result, SbiRet, FUNCTION_TIMER_SET_TIMER};
use crate::environment::Environment;
use crate::timer::{timer_handed, Timer};

verus! {

/// Handles a call of `function` in the timer extension on a 64-bit
/// machine, `param0` being the instant of the next timer interrupt.
pub fn handle_ecall_timer<T: Timer, I, S>(
    env: &mut Environment<T, I, S>,
    function: usize,
    param0: usize,
) -> (ret: SbiRet)
    ensures
        ret == timer_result(old(env).services(), function),
        function == FUNCTION_TIMER_SET_TIMER && old(env).timer is Some ==> timer_handed(
            old(env).timer,
            final(env).timer,
            param0 as u64,
        ),
        !(function == FUNCTION_TIMER_SET_TIMER && old(env).timer is Some) ==> final(env).timer
            == old(env).timer,
        final(env).ipi == old(env).ipi,
        final(env).stdio == old(env).stdio,
        final(env).machine == old(env).machine,
{
    if function == FUNCTION_TIMER_SET_TIMER {
        set_timer(env, param0 as u64)
    } else {
        SbiRet::not_supported()
    }
}

/// Handles a call of `function` in the timer extension on a 32-bit
/// machine, the instant of the next timer interrupt having its low half in
/// `param0` and its high half in `param1`.
pub fn handle_ecall_timer_32<T: Timer, I, S>(
    env: &mut Environment<T, I, S>,
    function: usize,
    param0: usize,
    param1: usize,
) -> (ret: SbiRet)
    ensures
        ret == timer_result(old(env).services(), function),
        function == FUNCTION_TIMER_SET_TIMER && old(env).timer is Some ==> timer_handed(
            old(env).timer,
            final(env).timer,
            join_halves(param0, param1),
        ),
        !(function == FUNCTION_TIMER_SET_TIMER && old(env).timer is Some) ==> final(env).timer
            == old(env).timer,
        final(env).ipi == old(env).ipi,
        final(env).stdio == old(env).stdio,
        final(env).machine == old(env).machine,
{
    if function == FUNCTION_TIMER_SET_TIMER {
        set_timer(env, join_instant(param0, param1))
    } else {
        SbiRet::not_supported()
    }
}

/// Hands `time_value` to the registered timer: success where one is
/// registered, not supported where none is.
pub(crate) fn set_timer<T: Timer, I, S>(env: &mut Environment<T, I, S>, time_value: u64) -> (ret:
    SbiRet)
    ensures
        ret == timer_result(old(env).services(), FUNCTION_TIMER_SET_TIMER),
        old(env).timer is Some ==> timer_handed(old(env).timer, final(env).timer, time_value),
        old(env).timer is None ==> final(env).timer == old(env).timer,
        final(env).ipi == old(env).ipi,
        final(env).stdio == old(env).stdio,
        final(env).machine == old(env).machine,
{
    if crate::timer::set_timer(env, time_value) {
        SbiRet::ok(0)
    } else {
        SbiRet::not_supported()
    }
}

} // verus!
