//! Dispatch of supervisor environment calls.
//!
//! Call this from the machine-mode exception handler when the cause is a
//! supervisor `ecall`, with the extension id from `a7`, the function id from
//! `a6` and the parameters from `a0`..`a3`; store the returned `error` into
//! `a0` and `value` into `a1`, then advance `mepc` by 4.
//!
//! Legacy calls keep `a0` and `a1` as the supervisor left them, except
//! that a legacy `console_getchar` returns the byte it read in `a0`.
use vstd::prelude::*;

pub mod base;
pub mod ipi;
pub mod legacy;
pub mod timer;

pub use base::handle_ecall_base;
pub use ipi::handle_ecall_ipi;
pub use legacy::{console_getchar, console_putchar, send_ipi};
pub use timer::handle_ecall_timer;

use crate::environment::{Environment, MachineIds, Services};
use crate::hart_mask::HartMask;
use crate::ipi::{ipi_handed, Ipi};
use crate::legacy_stdio::{last_read, stdio_read, stdio_wrote, LegacyStdio};
use crate::timer::{timer_handed, Timer};





verus! {

/// Base extension.
pub const EXTENSION_BASE: usize = 0x10;

/// Timer extension ("TIME").
pub const EXTENSION_TIMER: usize = 0x54494D45;

/// Inter-processor interrupt extension ("sPI").
pub const EXTENSION_IPI: usize = 0x735049;

/// Legacy `set_timer`.
pub const LEGACY_SET_TIMER: usize = 0x0;

/// Legacy `console_putchar`.
pub const LEGACY_CONSOLE_PUTCHAR: usize = 0x01;

/// Legacy `console_getchar`.
pub const LEGACY_CONSOLE_GETCHAR: usize = 0x02;

/// Legacy `send_ipi`.
pub const LEGACY_SEND_IPI: usize = 0x04;

/// Timer extension: program the next timer interrupt.
pub const FUNCTION_TIMER_SET_TIMER: usize = 0x0;

/// Inter-processor interrupt extension: send an interrupt to a set of harts.
pub const FUNCTION_IPI_SEND_IPI: usize = 0x0;

/// Base extension: version of the SBI specification.
pub const FUNCTION_BASE_GET_SPEC_VERSION: usize = 0x0;

/// Base extension: implementation id.
pub const FUNCTION_BASE_GET_SBI_IMPL_ID: usize = 0x1;

/// Base extension: implementation version.
pub const FUNCTION_BASE_GET_SBI_IMPL_VERSION: usize = 0x2;

/// Base extension: whether an extension is available.
pub const FUNCTION_BASE_PROBE_EXTENSION: usize = 0x3;

/// Base extension: value of `mvendorid`.
pub const FUNCTION_BASE_GET_MVENDORID: usize = 0x4;

/// Base extension: value of `marchid`.
pub const FUNCTION_BASE_GET_MARCHID: usize = 0x5;

/// Base extension: value of `mimpid`.
pub const FUNCTION_BASE_GET_MIMPID: usize = 0x6;

/// Error number of a call that succeeded.
pub const SBI_SUCCESS: usize = 0;

/// Error number of a call that is not supported: -2 in two's complement.
pub const SBI_ERR_NOT_SUPPORTED: usize = usize::MAX - 1;

/// What an environment call returns.
///
/// After the call, `error` goes into `a0` and `value` into `a1`.
#[derive(Debug, Clone, Copy, PartialEq, Eq, Structural)]
pub struct SbiRet {
    /// Error number.
    pub error: usize,
    /// Result value.
    pub value: usize,
}

/// A successful answer carrying `value`.
pub open spec fn ret_ok(value: usize) -> SbiRet {
    SbiRet { error: SBI_SUCCESS, value }
}

/// The answer to a call that is not supported.
pub open spec fn ret_not_supported() -> SbiRet {
    SbiRet { error: SBI_ERR_NOT_SUPPORTED, value: 0 }
}

impl SbiRet {
    /// A successful answer carrying `value`.
    pub fn ok(value: usize) -> (ret: SbiRet)
        ensures
            ret == ret_ok(value),
    {
        SbiRet { error: SBI_SUCCESS, value }
    }

    /// The answer to a call that is not supported.
    pub fn not_supported() -> (ret: SbiRet)
        ensures
            ret == ret_not_supported(),
    {
        SbiRet { error: SBI_ERR_NOT_SUPPORTED, value: 0 }
    }

    /// The answer to a legacy call that returns nothing: `a0` and `a1`
    /// are handed back as they came.
    pub fn legacy_void(self, a0: usize, a1: usize) -> (ret: SbiRet)
        ensures
            ret == (SbiRet { error: a0, value: a1 }),
    {
        SbiRet { error: a0, value: a1 }
    }

    /// The answer to a legacy call that returns a value: the value goes
    /// into `a0`, and `a1` is handed back as it came.
    pub fn legacy_return(self, a1: usize) -> (ret: SbiRet)
        ensures
            ret == (SbiRet { error: self.value, value: a1 }),
    {
        SbiRet { error: self.value, value: a1 }
    }
}

/// The specification version as the base extension reports it: the major
/// number in bits 24 and up, the minor number below.
pub open spec fn spec_version_value() -> int {
    crate::SBI_SPEC_MAJOR * 0x100_0000 + crate::SBI_SPEC_MINOR
}

/// What probing `extension` reports: 1 for an extension that is available,
/// 0 for one that is not.
pub open spec fn probe_result(services: Services, extension: usize) -> usize {
    if extension == EXTENSION_BASE {
        1
    } else if extension == EXTENSION_TIMER && services.timer {
        1
    } else if extension == EXTENSION_IPI && services.ipi {
        1
    } else {
        0
    }
}

/// The answer to a base extension call.
pub open spec fn base_result(
    services: Services,
    machine: MachineIds,
    function: usize,
    param0: usize,
) -> SbiRet {
    if function == FUNCTION_BASE_GET_SPEC_VERSION {
        ret_ok(spec_version_value() as usize)
    } else if function == FUNCTION_BASE_GET_SBI_IMPL_ID {
        ret_ok(crate::IMPL_ID_RUSTSBI)
    } else if function == FUNCTION_BASE_GET_SBI_IMPL_VERSION {
        ret_ok(crate::RUSTSBI_VERSION)
    } else if function == FUNCTION_BASE_PROBE_EXTENSION {
        ret_ok(probe_result(services, param0))
    } else if function == FUNCTION_BASE_GET_MVENDORID {
        ret_ok(machine.mvendorid)
    } else if function == FUNCTION_BASE_GET_MARCHID {
        ret_ok(machine.marchid)
    } else if function == FUNCTION_BASE_GET_MIMPID {
        ret_ok(machine.mimpid)
    } else {
        ret_not_supported()
    }
}

/// The answer to a timer extension call.
pub open spec fn timer_result(services: Services, function: usize) -> SbiRet {
    if function == FUNCTION_TIMER_SET_TIMER && services.timer {
        ret_ok(0)
    } else {
        ret_not_supported()
    }
}

/// The answer to an inter-processor interrupt extension call.
pub open spec fn ipi_result(services: Services, function: usize) -> SbiRet {
    if function == FUNCTION_IPI_SEND_IPI && services.ipi {
        ret_ok(0)
    } else {
        ret_not_supported()
    }
}

/// The 64-bit instant whose low half is `low` and high half `high`, as a
/// 32-bit machine passes it in two registers.
pub open spec fn join_halves(low: usize, high: usize) -> u64 {
    ((low as int % 0x1_0000_0000) + (high as int % 0x1_0000_0000) * 0x1_0000_0000) as u64
}

/// The instant that a call to set the timer asks for: `a0` on a 64-bit
/// machine, `a1:a0` on a 32-bit one.
pub open spec fn timer_instant(param: Seq<usize>) -> u64 {
    if usize::BITS == 32 {
        join_halves(param[0], param[1])
    } else {
        param[0] as u64
    }
}

/// The byte that a legacy `console_putchar` writes: the low 8 bits of `a0`.
pub open spec fn legacy_char(param0: usize) -> u8 {
    (param0 % 256) as u8
}

/// The mask that a call to send an inter-processor interrupt hands to the
/// support `ipi`: the bit vector at `a0`, up to the support's largest hart.
pub open spec fn requested_mask<I: Ipi>(ipi: Option<I>, param: Seq<usize>) -> HartMask {
    HartMask::spec_from_addr(param[0], ipi.unwrap().spec_max_hart_id())
}

/// Whether the call asks the timer for an instant.
pub open spec fn asks_timer(services: Services, extension: usize, function: usize) -> bool {
    services.timer && ((extension == EXTENSION_TIMER && function == FUNCTION_TIMER_SET_TIMER)
        || extension == LEGACY_SET_TIMER)
}

/// Whether the call asks the inter-processor interrupt support for a send.
pub open spec fn asks_ipi(services: Services, extension: usize, function: usize) -> bool {
    services.ipi && ((extension == EXTENSION_IPI && function == FUNCTION_IPI_SEND_IPI)
        || extension == LEGACY_SEND_IPI)
}

/// The answer to the call of `function` in `extension` with parameters
/// `param` (`a0`..`a3`), the environment being `before` at the call and
/// `after` once it returned.
pub open spec fn ecall_result<T: Timer, I: Ipi, S: LegacyStdio>(
    before: Environment<T, I, S>,
    after: Environment<T, I, S>,
    extension: usize,
    function: usize,
    param: Seq<usize>,
) -> SbiRet {
    let services = before.services();
    if extension == EXTENSION_BASE {
        base_result(services, before.machine, function, param[0])
    } else if extension == EXTENSION_TIMER {
        timer_result(services, function)
    } else if extension == EXTENSION_IPI {
        ipi_result(services, function)
    } else if extension == LEGACY_SET_TIMER || extension == LEGACY_CONSOLE_PUTCHAR || extension
        == LEGACY_SEND_IPI {
        SbiRet { error: param[0], value: param[1] }
    } else if extension == LEGACY_CONSOLE_GETCHAR {
        SbiRet {
            error: if services.stdio {
                last_read(after.stdio) as usize
            } else {
                0
            },
            value: param[1],
        }
    } else {
        ret_not_supported()
    }
}

/// What the call of `function` in `extension` with parameters `param` does
/// to the environment, from `before` to `after`: each registered service is
/// handed exactly the request that the call makes of it, and every other
/// service, and the machine identification, stay as they were.
pub open spec fn ecall_effect<T: Timer, I: Ipi, S: LegacyStdio>(
    before: Environment<T, I, S>,
    after: Environment<T, I, S>,
    extension: usize,
    function: usize,
    param: Seq<usize>,
) -> bool {
    let services = before.services();
    &&& after.machine == before.machine
    &&& if asks_timer(services, extension, function) {
        timer_handed(before.timer, after.timer, timer_instant(param))
    } else {
        after.timer == before.timer
    }
    &&& if asks_ipi(services, extension, function) {
        ipi_handed(before.ipi, after.ipi, requested_mask(before.ipi, param))
    } else {
        after.ipi == before.ipi
    }
    &&& if extension == LEGACY_CONSOLE_PUTCHAR && services.stdio {
        stdio_wrote(before.stdio, after.stdio, legacy_char(param[0]))
    } else if extension == LEGACY_CONSOLE_GETCHAR && services.stdio {
        stdio_read(before.stdio, after.stdio, last_read(after.stdio))
    } else {
        after.stdio == before.stdio
    }
}

/// The instant whose low half is `low` and high half `high`.
pub fn join_instant(low: usize, high: usize) -> (instant: u64)
    ensures
        instant == join_halves(low, high),
{
    let lo = low as u64;
    let hi = high as u64;
    assert((lo & 0xffff_ffff) | ((hi & 0xffff_ffff) << 32u64) == (lo % 0x1_0000_0000) + (hi
        % 0x1_0000_0000) * 0x1_0000_0000) by (bit_vector);
    (lo & 0xffff_ffff) | ((hi & 0xffff_ffff) << 32u64)
}

/// Handles a supervisor environment call: `extension` from `a7`,
/// `function` from `a6`, `param` from `a0`..`a3`.
///
/// A legacy `send_ipi` needs inter-processor interrupt support to be
/// registered: it asks that support for the largest hart id.
pub fn handle_ecall<T: Timer, I: Ipi, S: LegacyStdio>(
    env: &mut Environment<T, I, S>,
    extension: usize,
    function: usize,
    param: [usize; 4],
) -> (ret: SbiRet)
    requires
        extension == LEGACY_SEND_IPI ==> old(env).ipi is Some,
    ensures
        ret == ecall_result(*old(env), *final(env), extension, function, param@),
        ecall_effect(*old(env), *final(env), extension, function, param@),
{
    let wide = usize::BITS == 64;
    if extension == EXTENSION_BASE {
        base::handle_ecall_base(env, function, param[0])
    } else if extension == EXTENSION_TIMER {
        if wide {
            timer::handle_ecall_timer(env, function, param[0])
        } else {
            timer::handle_ecall_timer_32(env, function, param[0], param[1])
        }
    } else if extension == EXTENSION_IPI {
        ipi::handle_ecall_ipi(env, function, param[0], param[1])
    } else if extension == LEGACY_SET_TIMER {
        if wide {
            legacy::set_timer_64(env, param[0]).legacy_void(param[0], param[1])
        } else {
            legacy::set_timer_32(env, param[0], param[1]).legacy_void(param[0], param[1])
        }
    } else if extension == LEGACY_CONSOLE_PUTCHAR {
        legacy::console_putchar(env, param[0]).legacy_void(param[0], param[1])
    } else if extension == LEGACY_CONSOLE_GETCHAR {
        legacy::console_getchar(env).legacy_return(param[1])
    } else if extension == LEGACY_SEND_IPI {
        legacy::send_ipi(env, param[0]).legacy_void(param[0], param[1])
    } else {
        SbiRet::not_supported()
    }
}

/// A legacy call that returns nothing hands `a0` and `a1` back as they
/// came; a legacy `console_getchar` returns the byte it read in `a0` (0
/// where no console is registered) and hands `a1` back.
pub proof fn legacy_calls_keep_registers<T: Timer, I: Ipi, S: LegacyStdio>(
    before: Environment<T, I, S>,
    after: Environment<T, I, S>,
    extension: usize,
    function: usize,
    param: Seq<usize>,
)
    requires
        param.len() == 4,
        ecall_effect(before, after, extension, function, param),
    ensures
        extension == LEGACY_SET_TIMER || extension == LEGACY_CONSOLE_PUTCHAR || extension
            == LEGACY_SEND_IPI ==> ecall_result(before, after, extension, function, param)
            == (SbiRet { error: param[0], value: param[1] }),
        extension == LEGACY_CONSOLE_GETCHAR && before.stdio is Some ==> {
            let ret = ecall_result(before, after, extension, function, param);
            &&& ret.value == param[1]
            &&& after.stdio.unwrap().bytes_read() == before.stdio.unwrap().bytes_read().push(
                ret.error as u8,
            )
            &&& ret.error < 256
        },
        extension == LEGACY_CONSOLE_GETCHAR && before.stdio is None ==> ecall_result(
            before,
            after,
            extension,
            function,
            param,
        ) == (SbiRet { error: 0, value: param[1] }),
{
}

/// A call to an extension other than base, timer, inter-processor
/// interrupt and the legacy calls is answered "not supported" and leaves
/// the environment, every registered service included, as it was.
pub proof fn unknown_extension_not_supported<T: Timer, I: Ipi, S: LegacyStdio>(
    before: Environment<T, I, S>,
    after: Environment<T, I, S>,
    extension: usize,
    function: usize,
    param: Seq<usize>,
)
    requires
        param.len() == 4,
        extension != EXTENSION_BASE,
        extension != EXTENSION_TIMER,
        extension != EXTENSION_IPI,
        extension != LEGACY_SET_TIMER,
        extension != LEGACY_CONSOLE_PUTCHAR,
        extension != LEGACY_CONSOLE_GETCHAR,
        extension != LEGACY_SEND_IPI,
        ecall_effect(before, after, extension, function, param),
    ensures
        ecall_result(before, after, extension, function, param) == ret_not_supported(),
        after == before,
{
}

/// No call changes which services are registered or the machine
/// identification.
pub proof fn ecall_keeps_registrations<T: Timer, I: Ipi, S: LegacyStdio>(
    before: Environment<T, I, S>,
    after: Environment<T, I, S>,
    extension: usize,
    function: usize,
    param: Seq<usize>,
)
    requires
        ecall_effect(before, after, extension, function, param),
    ensures
        after.services() == before.services(),
        after.machine == before.machine,
{
}

/// Probing agrees with dispatch: an extension other than the legacy ones
/// that probes unavailable answers every call "not supported", and one that
/// probes available answers some call with success.
pub proof fn probe_agrees_with_dispatch<T: Timer, I: Ipi, S: LegacyStdio>(
    before: Environment<T, I, S>,
    after: Environment<T, I, S>,
    extension: usize,
    function: usize,
    param: Seq<usize>,
)
    requires
        param.len() == 4,
        extension > 0x0f,
    ensures
        probe_result(before.services(), extension) == 0 ==> ecall_result(
            before,
            after,
            extension,
            function,
            param,
        ) == ret_not_supported(),
        probe_result(before.services(), extension) == 1 ==> ecall_result(
            before,
            after,
            extension,
            if extension == EXTENSION_BASE {
                FUNCTION_BASE_GET_SPEC_VERSION
            } else if extension == EXTENSION_TIMER {
                FUNCTION_TIMER_SET_TIMER
            } else {
                FUNCTION_IPI_SEND_IPI
            },
            param,
        ).error == SBI_SUCCESS,
        probe_result(before.services(), extension) == 0 || probe_result(before.services(), extension)
            == 1,
{
}

/// Once a timer is registered, a call to set the timer succeeds and hands
/// the instant to that timer exactly once; while none is, the call is not
/// supported and changes nothing.
pub proof fn timer_calls_follow_registration<T: Timer, I: Ipi, S: LegacyStdio>(
    before: Environment<T, I, S>,
    after: Environment<T, I, S>,
    param: Seq<usize>,
)
    requires
        param.len() == 4,
        ecall_effect(before, after, EXTENSION_TIMER, FUNCTION_TIMER_SET_TIMER, param),
    ensures
        before.timer is Some ==> ecall_result(
            before,
            after,
            EXTENSION_TIMER,
            FUNCTION_TIMER_SET_TIMER,
            param,
        ) == ret_ok(0),
        before.timer is Some ==> after.timer.unwrap().requests() == before.timer.unwrap().requests().push(
            timer_instant(param),
        ),
        before.timer is Some ==> probe_result(before.services(), EXTENSION_TIMER) == 1,
        before.timer is None ==> ecall_result(
            before,
            after,
            EXTENSION_TIMER,
            FUNCTION_TIMER_SET_TIMER,
            param,
        ) == ret_not_supported(),
        before.timer is None ==> after == before,
        before.timer is None ==> probe_result(before.services(), EXTENSION_TIMER) == 0,
{
}

/// Once inter-processor interrupt support is registered, an extension call
/// to send an interrupt succeeds and hands that support the mask at `a0`,
/// bounded by the largest hart id the support reaches; while none is, the
/// call is not supported and changes nothing.
pub proof fn ipi_calls_follow_registration<T: Timer, I: Ipi, S: LegacyStdio>(
    before: Environment<T, I, S>,
    after: Environment<T, I, S>,
    param: Seq<usize>,
)
    requires
        param.len() == 4,
        ecall_effect(before, after, EXTENSION_IPI, FUNCTION_IPI_SEND_IPI, param),
    ensures
        before.ipi is Some ==> ecall_result(before, after, EXTENSION_IPI, FUNCTION_IPI_SEND_IPI, param)
            == ret_ok(0),
        before.ipi is Some ==> after.ipi.unwrap().sent() == before.ipi.unwrap().sent().push(
            HartMask::spec_from_addr(param[0], before.ipi.unwrap().spec_max_hart_id()),
        ),
        before.ipi is None ==> ecall_result(before, after, EXTENSION_IPI, FUNCTION_IPI_SEND_IPI, param)
            == ret_not_supported(),
        before.ipi is None ==> after == before,
{
}

/// A legacy `console_putchar` writes exactly one byte to the registered
/// console, the low 8 bits of `a0`: `a0` itself when it is below 256, and
/// the same byte for `a0` and `a0 + 256`.
pub proof fn putchar_writes_low_byte<T: Timer, I: Ipi, S: LegacyStdio>(
    before: Environment<T, I, S>,
    after: Environment<T, I, S>,
    function: usize,
    param: Seq<usize>,
)
    requires
        param.len() == 4,
        before.stdio is Some,
        ecall_effect(before, after, LEGACY_CONSOLE_PUTCHAR, function, param),
    ensures
        after.stdio.unwrap().bytes_written().len() == before.stdio.unwrap().bytes_written().len() + 1,
        after.stdio.unwrap().bytes_written().drop_last() == before.stdio.unwrap().bytes_written(),
        after.stdio.unwrap().bytes_written().last() as int == param[0] % 256,
        param[0] < 256 ==> after.stdio.unwrap().bytes_written().last() == param[0],
        after.stdio.unwrap().bytes_read() == before.stdio.unwrap().bytes_read(),
{
    assert(after.stdio.unwrap().bytes_written().drop_last() =~= before.stdio.unwrap().bytes_written());
}

/// A call to set the timer (timer extension `set_timer` or legacy
/// `set_timer`) with a timer registered asks that timer for exactly one
/// instant: on a 64-bit machine `a0` with all its bits, on a 32-bit one the
/// value whose low half is `a0` and high half `a1`.
pub proof fn set_timer_asks_for_the_instant<T: Timer, I: Ipi, S: LegacyStdio>(
    before: Environment<T, I, S>,
    after: Environment<T, I, S>,
    extension: usize,
    function: usize,
    param: Seq<usize>,
)
    requires
        param.len() == 4,
        before.timer is Some,
        (extension == EXTENSION_TIMER && function == FUNCTION_TIMER_SET_TIMER) || extension
            == LEGACY_SET_TIMER,
        ecall_effect(before, after, extension, function, param),
    ensures
        after.timer.unwrap().requests().len() == before.timer.unwrap().requests().len() + 1,
        after.timer.unwrap().requests().drop_last() == before.timer.unwrap().requests(),
        usize::BITS == 64 ==> after.timer.unwrap().requests().last() as int == param[0] as int,
        usize::BITS == 32 ==> after.timer.unwrap().requests().last() as int == param[0]
            + param[1] * 0x1_0000_0000,
{
    assert(after.timer.unwrap().requests().drop_last() =~= before.timer.unwrap().requests());
    if usize::BITS == 32 {
        assert(param[0] < 0x1_0000_0000 && param[1] < 0x1_0000_0000);
    }
}

/// A call to send an inter-processor interrupt (legacy `send_ipi`, or the
/// extension's `send_ipi`) with support registered hands that support
/// exactly one mask: its bit vector starts at `a0` itself, and it names
/// harts up to the largest hart id the support reaches.
pub proof fn send_ipi_hands_the_mask_at_a0<T: Timer, I: Ipi, S: LegacyStdio>(
    before: Environment<T, I, S>,
    after: Environment<T, I, S>,
    extension: usize,
    function: usize,
    param: Seq<usize>,
)
    requires
        param.len() == 4,
        before.ipi is Some,
        extension == LEGACY_SEND_IPI || (extension == EXTENSION_IPI && function
            == FUNCTION_IPI_SEND_IPI),
        ecall_effect(before, after, extension, function, param),
    ensures
        after.ipi.unwrap().sent().len() == before.ipi.unwrap().sent().len() + 1,
        after.ipi.unwrap().sent().drop_last() == before.ipi.unwrap().sent(),
        after.ipi.unwrap().sent().last().bit_vector_addr() == param[0],
        after.ipi.unwrap().sent().last().spec_word_address(0) == param[0],
        after.ipi.unwrap().sent().last().max_hart() == before.ipi.unwrap().spec_max_hart_id(),
{
    assert(after.ipi.unwrap().sent().drop_last() =~= before.ipi.unwrap().sent());
    crate::hart_mask::from_addr_keeps_its_arguments(param[0], before.ipi.unwrap().spec_max_hart_id());
}

/// The two halves of a 32-bit machine's instant are put back together:
/// the low half first, the high half shifted by 32 bits.
pub proof fn join_halves_puts_halves_together(low: usize, high: usize)
    requires
        low < 0x1_0000_0000,
        high < 0x1_0000_0000,
    ensures
        join_halves(low, high) as int == low + high * 0x1_0000_0000,
        join_halves(low, high) as int % 0x1_0000_0000 == low,
        join_halves(low, high) as int / 0x1_0000_0000 == high,
{
}

/// Whatever the environment, the base extension reports specification
/// version 0.2 (major number in bits 24 and up), implementation id 4 and
/// implementation version 1, and the machine identification registers.
pub proof fn base_reports_versions<T: Timer, I: Ipi, S: LegacyStdio>(
    before: Environment<T, I, S>,
    after: Environment<T, I, S>,
    param: Seq<usize>,
)
    requires
        param.len() == 4,
    ensures
        ecall_result(before, after, EXTENSION_BASE, FUNCTION_BASE_GET_SPEC_VERSION, param) == (SbiRet {
            error: 0,
            value: 2,
        }),
        ecall_result(before, after, EXTENSION_BASE, FUNCTION_BASE_GET_SBI_IMPL_ID, param) == (SbiRet {
            error: 0,
            value: 4,
        }),
        ecall_result(before, after, EXTENSION_BASE, FUNCTION_BASE_GET_SBI_IMPL_VERSION, param) == (
        SbiRet { error: 0, value: 1 }),
        ecall_result(before, after, EXTENSION_BASE, FUNCTION_BASE_GET_MVENDORID, param).value
            == before.machine.mvendorid,
        ecall_result(before, after, EXTENSION_BASE, FUNCTION_BASE_GET_MARCHID, param).value
            == before.machine.marchid,
        ecall_result(before, after, EXTENSION_BASE, FUNCTION_BASE_GET_MIMPID, param).value
            == before.machine.mimpid,
{
}

} // verus!
