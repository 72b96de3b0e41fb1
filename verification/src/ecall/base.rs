//! The base extension.
use vstd::prelude::*;

use super::{
    base_result, probe_result, SbiRet, EXTENSION_BASE, EXTENSION_IPI, EXTENSION_TIMER,
    FUNCTION_BASE_GET_MARCHID, FUNCTION_BASE_GET_MIMPID, FUNCTION_BASE_GET_MVENDORID,
    FUNCTION_BASE_GET_SBI_IMPL_ID, FUNCTION_BASE_GET_SBI_IMPL_VERSION,
    FUNCTION_BASE_GET_SPEC_VERSION, FUNCTION_BASE_PROBE_EXTENSION,
};
use crate::environment::Environment;
use crate::{IMPL_ID_RUSTSBI, RUSTSBI_VERSION, SBI_SPEC_MAJOR, SBI_SPEC_MINOR};

verus! {

/// Handles a call of `function` in the base extension.
pub fn handle_ecall_base<T, I, S>(env: &Environment<T, I, S>, function: usize, param0: usize) -> (ret:
    SbiRet)
    ensures
        ret == base_result(env.services(), env.machine, function, param0),
{
    if function == FUNCTION_BASE_GET_SPEC_VERSION {
        get_spec_version()
    } else if function == FUNCTION_BASE_GET_SBI_IMPL_ID {
        SbiRet::ok(IMPL_ID_RUSTSBI)
    } else if function == FUNCTION_BASE_GET_SBI_IMPL_VERSION {
        SbiRet::ok(RUSTSBI_VERSION)
    } else if function == FUNCTION_BASE_PROBE_EXTENSION {
        SbiRet::ok(probe_extension(env, param0))
    } else if function == FUNCTION_BASE_GET_MVENDORID {
        SbiRet::ok(env.machine.mvendorid)
    } else if function == FUNCTION_BASE_GET_MARCHID {
        SbiRet::ok(env.machine.marchid)
    } else if function == FUNCTION_BASE_GET_MIMPID {
        SbiRet::ok(env.machine.mimpid)
    } else {
        SbiRet::not_supported()
    }
}

/// The specification version: major number in bits 24 and up, minor below.
fn get_spec_version() -> (ret: SbiRet)
    ensures
        ret == super::ret_ok(super::spec_version_value() as usize),
{
    assert((0usize << 24usize) | 2usize == 2usize) by (bit_vector);
    SbiRet::ok((SBI_SPEC_MAJOR << 24usize) | SBI_SPEC_MINOR)
}

/// Whether `extension` is available: 1 if so, 0 if not.
fn probe_extension<T, I, S>(env: &Environment<T, I, S>, extension: usize) -> (ans: usize)
    ensures
        ans == probe_result(env.services(), extension),
{
    if extension == EXTENSION_BASE {
        1
    } else if extension == EXTENSION_TIMER && env.timer.is_some() {
        1
    } else if extension == EXTENSION_IPI && env.ipi.is_some() {
        1
    } else {
        0
    }
}

} // verus!
