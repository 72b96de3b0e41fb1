//! The legacy console service.
use vstd::prelude::*;

use crate::environment::Environment;

verus! {

/// Legacy standard input and output.
///
/// An implementation describes what it read and wrote through `bytes_read`
/// and `bytes_written`, and the library's statements about the console are
/// made in their terms. The default descriptions are empty: an
/// implementation that keeps them describes nothing, and those statements
/// then tell nothing about it.
pub trait LegacyStdio {
    /// The bytes read from the input so far, oldest first.
    open spec fn bytes_read(&self) -> Seq<u8> {
        Seq::empty()
    }

    /// The bytes written to the output so far, oldest first.
    open spec fn bytes_written(&self) -> Seq<u8> {
        Seq::empty()
    }

    /// Gets a character from the legacy input.
    fn getchar(&mut self) -> (ch: u8)
        ensures
            final(self).bytes_read() == old(self).bytes_read().push(ch),
            final(self).bytes_written() == old(self).bytes_written(),
    ;

    /// Puts a character to the legacy output.
    fn putchar(&mut self, ch: u8)
        ensures
            final(self).bytes_written() == old(self).bytes_written().push(ch),
            final(self).bytes_read() == old(self).bytes_read(),
    ;
}

/// `after` is the console `before` once it wrote `ch`, and nothing else.
pub open spec fn stdio_wrote<S: LegacyStdio>(before: Option<S>, after: Option<S>, ch: u8) -> bool {
    &&& before is Some
    &&& after is Some
    &&& after.unwrap().bytes_written() == before.unwrap().bytes_written().push(ch)
    &&& after.unwrap().bytes_read() == before.unwrap().bytes_read()
}

/// `after` is the console `before` once it read `ch`, and nothing else.
pub open spec fn stdio_read<S: LegacyStdio>(before: Option<S>, after: Option<S>, ch: u8) -> bool {
    &&& before is Some
    &&& after is Some
    &&& after.unwrap().bytes_read() == before.unwrap().bytes_read().push(ch)
    &&& after.unwrap().bytes_written() == before.unwrap().bytes_written()
}

/// The byte that the console `after` read last.
pub open spec fn last_read<S: LegacyStdio>(after: Option<S>) -> u8 {
    after.unwrap().bytes_read().last()
}

/// Registers `stdio` as the platform's legacy console, replacing any other.
pub fn init_legacy_stdio<T, I, S: LegacyStdio>(env: &mut Environment<T, I, S>, stdio: S)
    ensures
        final(env).stdio == Some(stdio),
        final(env).timer == old(env).timer,
        final(env).ipi == old(env).ipi,
        final(env).machine == old(env).machine,
{
    env.stdio = Some(stdio);
}

/// Puts `ch` to the registered console; does nothing where there is none.
pub fn legacy_stdio_putchar<T, I, S: LegacyStdio>(env: &mut Environment<T, I, S>, ch: u8)
    ensures
        old(env).stdio is Some ==> stdio_wrote(old(env).stdio, final(env).stdio, ch),
        old(env).stdio is None ==> final(env).stdio == old(env).stdio,
        final(env).timer == old(env).timer,
        final(env).ipi == old(env).ipi,
        final(env).machine == old(env).machine,
{
    match &mut env.stdio {
        Some(stdio) => stdio.putchar(ch),
        None => {},
    }
}

/// Gets a character from the registered console; 0 where there is none.
pub fn legacy_stdio_getchar<T, I, S: LegacyStdio>(env: &mut Environment<T, I, S>) -> (ch: u8)
    ensures
        old(env).stdio is Some ==> stdio_read(old(env).stdio, final(env).stdio, ch),
        old(env).stdio is None ==> ch == 0 && final(env).stdio == old(env).stdio,
        final(env).timer == old(env).timer,
        final(env).ipi == old(env).ipi,
        final(env).machine == old(env).machine,
{
    match &mut env.stdio {
        Some(stdio) => stdio.getchar(),
        None => 0,
    }
}

} // verus!
