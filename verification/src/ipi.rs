//! The inter-processor interrupt service.
use vstd::prelude::*;

use crate::environment::Environment;
use crate::hart_mask::HartMask;

verus! {

/// A platform's inter-processor interrupt support.
///
/// An implementation describes the largest hart id it reaches through
/// `spec_max_hart_id`, and the masks it was handed through `sent`, and the
/// library's statements about the support are made in their terms. The
/// default descriptions are placeholders: an implementation that keeps them
/// describes nothing, and those statements then tell nothing about it.
pub trait Ipi {
    /// The largest hart id that this support can reach.
    open spec fn spec_max_hart_id(&self) -> usize {
        0
    }

    /// The masks this support was asked to interrupt, oldest first.
    open spec fn sent(&self) -> Seq<HartMask> {
        Seq::empty()
    }

    /// The largest hart id that this support can reach.
    fn max_hart_id(&self) -> (max: usize)
        ensures
            max == self.spec_max_hart_id(),
    ;

    /// Sends an inter-processor interrupt to every hart named in
    /// `hart_mask`. The receiving harts see a supervisor software
    /// interrupt.
    fn send_ipi_many(&mut self, hart_mask: HartMask)
        ensures
            final(self).sent() == old(self).sent().push(hart_mask),
            final(self).spec_max_hart_id() == old(self).spec_max_hart_id(),
    ;
}

/// `after` is the support `before` once it was handed `hart_mask`, and
/// nothing else.
pub open spec fn ipi_handed<I: Ipi>(before: Option<I>, after: Option<I>, hart_mask: HartMask) -> bool {
    &&& before is Some
    &&& after is Some
    &&& after.unwrap().sent() == before.unwrap().sent().push(hart_mask)
    &&& after.unwrap().spec_max_hart_id() == before.unwrap().spec_max_hart_id()
}

/// Registers `ipi` as the platform's inter-processor interrupt support,
/// replacing any other.
pub fn init_ipi<T, I: Ipi, S>(env: &mut Environment<T, I, S>, ipi: I)
    ensures
        final(env).ipi == Some(ipi),
        final(env).timer == old(env).timer,
        final(env).stdio == old(env).stdio,
        final(env).machine == old(env).machine,
{
    env.ipi = Some(ipi);
}

/// Whether no inter-processor interrupt support is registered.
pub fn probe_ipi<T, I: Ipi, S>(env: &Environment<T, I, S>) -> (absent: bool)
    ensures
        absent == env.ipi is None,
{
    env.ipi.is_none()
}

/// Hands `hart_mask` to the registered support; does nothing where there
/// is none.
pub fn send_ipi_many<T, I: Ipi, S>(env: &mut Environment<T, I, S>, hart_mask: HartMask)
    ensures
        old(env).ipi is Some ==> ipi_handed(old(env).ipi, final(env).ipi, hart_mask),
        old(env).ipi is None ==> final(env).ipi == old(env).ipi,
        final(env).timer == old(env).timer,
        final(env).stdio == old(env).stdio,
        final(env).machine == old(env).machine,
{
    match &mut env.ipi {
        Some(ipi) => ipi.send_ipi_many(hart_mask),
        None => {},
    }
}

/// The largest hart id that the registered support can reach. Support must
/// be registered: there is nothing to wait for in a single environment.
pub fn max_hart_id<T, I: Ipi, S>(env: &Environment<T, I, S>) -> (max: usize)
    requires
        env.ipi is Some,
    ensures
        max == env.ipi.unwrap().spec_max_hart_id(),
{
    match &env.ipi {
        Some(ipi) => ipi.max_hart_id(),
        None => 0,
    }
}

} // verus!
