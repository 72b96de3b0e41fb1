//! The machine timer service.
use vstd::prelude::*;

use crate::environment::Environment;

verus! {

/// A platform's machine timer.
///
/// An implementation describes what it was asked through `requests`, and
/// the library's statements about the timer are made in its terms. The
/// default description is empty: an implementation that keeps it describes
/// nothing, and those statements then tell nothing about it.
pub trait Timer {
    /// The instants this timer was asked for, oldest first.
    open spec fn requests(&self) -> Seq<u64> {
        Seq::empty()
    }

    /// Programs the next timer interrupt of the current hart for the
    /// instant `time_value`.
    fn set_timer(&mut self, time_value: u64)
        ensures
            final(self).requests() == old(self).requests().push(time_value),
    ;
}

/// `after` is the timer `before` once it was asked for `instant`, and
/// nothing else.
pub open spec fn timer_handed<T: Timer>(before: Option<T>, after: Option<T>, instant: u64) -> bool {
    &&& before is Some
    &&& after is Some
    &&& after.unwrap().requests() == before.unwrap().requests().push(instant)
}

/// Registers `timer` as the platform's timer, replacing any other.
pub fn init_timer<T: Timer, I, S>(env: &mut Environment<T, I, S>, timer: T)
    ensures
        final(env).timer == Some(timer),
        final(env).ipi == old(env).ipi,
        final(env).stdio == old(env).stdio,
        final(env).machine == old(env).machine,
{
    env.timer = Some(timer);
}

/// Whether no timer is registered.
pub fn probe_timer<T: Timer, I, S>(env: &Environment<T, I, S>) -> (absent: bool)
    ensures
        absent == env.timer is None,
{
    env.timer.is_none()
}

/// Hands `time_value` to the registered timer; `false` where there is none.
pub fn set_timer<T: Timer, I, S>(env: &mut Environment<T, I, S>, time_value: u64) -> (done: bool)
    ensures
        done == old(env).timer is Some,
        done ==> timer_handed(old(env).timer, final(env).timer, time_value),
        !done ==> final(env).timer == old(env).timer,
        final(env).ipi == old(env).ipi,
        final(env).stdio == old(env).stdio,
        final(env).machine == old(env).machine,
{
    match &mut env.timer {
        Some(timer) => {
            timer.set_timer(time_value);
            true
        },
        None => false,
    }
}

} // verus!
