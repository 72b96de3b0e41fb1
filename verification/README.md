# machine-rustsbi

A RISC-V supervisor binary interface (SBI) implementation for machine mode,
written in Verus.

- `src/` is the verified library: the dispatch of supervisor `ecall`s
  (`ecall`, with the base, timer, inter-processor interrupt and legacy calls), the registry of platform
  services (`environment`, `timer`, `ipi`, `legacy_stdio`), hart masks
  (`hart_mask`), the CLINT register map (`clint`) and the trap handler's
  answer to an `ecall` (`trap`). The service traits describe what a service
  was asked (instants, masks, bytes read and written) through spec functions
  that their methods' contracts speak of; the library's contracts state, in
  those terms, exactly which request each call hands to which service.
- `app/` holds what runs around it on a machine: the services shared by
  all harts, each behind its own spin lock, the `embedded-hal` serial console, reads of
  supervisor memory, volatile CLINT accesses, the trap entry and the jump to
  the supervisor.
- `tests/` exercises the library on concrete calls.
