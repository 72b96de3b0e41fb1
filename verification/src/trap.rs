//! The machine-mode trap handler's answer to a supervisor `ecall`.
use vstd::prelude::*;

use crate::ecall::{ecall_effect, ecall_result, handle_ecall, LEGACY_SEND_IPI};
use crate::environment::Environment;
use crate::ipi::Ipi;
use crate::legacy_stdio::LegacyStdio;
use crate::timer::Timer;

verus! {

/// The registers that the trap entry saves on the stack.
#[derive(Debug, Clone, Copy, PartialEq, Eq, Structural)]
pub struct TrapFrame {
    pub ra: usize,
    pub t0: usize,
    pub t1: usize,
    pub t2: usize,
    pub t3: usize,
    pub t4: usize,
    pub t5: usize,
    pub t6: usize,
    pub a0: usize,
    pub a1: usize,
    pub a2: usize,
    pub a3: usize,
    pub a4: usize,
    pub a5: usize,
    pub a6: usize,
    pub a7: usize,
}

/// The parameters of the call saved in `frame`: `a0`..`a3`.
pub open spec fn frame_params(frame: TrapFrame) -> Seq<usize> {
    seq![frame.a0, frame.a1, frame.a2, frame.a3]
}

/// Handles a trap whose saved registers are in `frame`, `mepc` being the
/// address of the trapping instruction.
///
/// A supervisor `ecall` is handled with the extension id in `a7`, the
/// function id in `a6` and the parameters in `a0`..`a3`; the answer goes into
/// `a0` and `a1`, and the returned address, past the 4-byte `ecall`, is where
/// the supervisor resumes. Any other trap is left alone: nothing changes and
/// `None` is returned, for the platform to report.
pub fn handle_trap<T: Timer, I: Ipi, S: LegacyStdio>(
    env: &mut Environment<T, I, S>,
    frame: &mut TrapFrame,
    supervisor_ecall: bool,
    mepc: usize,
) -> (next_mepc: Option<usize>)
    requires
        supervisor_ecall && old(frame).a7 == LEGACY_SEND_IPI ==> old(env).ipi is Some,
    ensures
        supervisor_ecall ==> {
            let ret = ecall_result(
                *old(env),
                *final(env),
                old(frame).a7,
                old(frame).a6,
                frame_params(*old(frame)),
            );
            &&& next_mepc == Some(mepc.wrapping_add(4))
            &&& *final(frame) == (TrapFrame { a0: ret.error, a1: ret.value, ..*old(frame) })
            &&& ecall_effect(
                *old(env),
                *final(env),
                old(frame).a7,
                old(frame).a6,
                frame_params(*old(frame)),
            )
        },
        !supervisor_ecall ==> {
            &&& next_mepc is None
            &&& *final(frame) == *old(frame)
            &&& *final(env) == *old(env)
        },
{
    if supervisor_ecall {
        let params = [frame.a0, frame.a1, frame.a2, frame.a3];
        assert(params@ =~= frame_params(*frame));
        let ans = handle_ecall(env, frame.a7, frame.a6, params);
        frame.a0 = ans.error;
        frame.a1 = ans.value;
        Some(mepc.wrapping_add(4))
    } else {
        None
    }
}

} // verus!
