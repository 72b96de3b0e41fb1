//! The inter-processor interrupt extension.
use vstd::prelude::*;

use super::{ipi_result, SbiRet, FUNCTION_IPI_SEND_IPI};
use crate::environment::Environment;
use crate::hart_mask::HartMask;
use crate::ipi::{ipi_handed, max_hart_id, send_ipi_many, Ipi};

verus! {

/// Handles a call of `function` in the inter-processor interrupt extension:
/// `send_ipi` sends an interrupt to the harts named by the bit vector at
/// `param0`, up to the largest hart id that the registered support reaches.
/// The bit vector always starts at hart 0, so `param1`, the base hart id of
/// the mask, takes no part. Where no support is registered the call is not
/// supported.
pub fn handle_ecall_ipi<T, I: Ipi, S>(
    env: &mut Environment<T, I, S>,
    function: usize,
    param0: usize,
    param1: usize,
) -> (ret: SbiRet)
    ensures
        ret == ipi_result(old(env).services(), function),
        function == FUNCTION_IPI_SEND_IPI && old(env).ipi is Some ==> ipi_handed(
            old(env).ipi,
            final(env).ipi,
            HartMask::spec_from_addr(param0, old(env).ipi.unwrap().spec_max_hart_id()),
        ),
        !(function == FUNCTION_IPI_SEND_IPI && old(env).ipi is Some) ==> final(env).ipi == old(
            env,
        ).ipi,
        final(env).timer == old(env).timer,
        final(env).stdio == old(env).stdio,
        final(env).machine == old(env).machine,
{
    if function == FUNCTION_IPI_SEND_IPI && env.ipi.is_some() {
        let hart_mask = HartMask::from_addr(param0, max_hart_id(env));
        send_ipi_many(env, hart_mask);
        SbiRet::ok(0)
    } else {
        SbiRet::not_supported()
    }
}

} // verus!
